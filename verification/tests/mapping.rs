use ring_sense::sensors::{device_of, channel_of, spawn_sensor, spawn_all_sensors, spawn_single_sensor, random_id};

#[test]
fn mapping_is_a_pure_function() {
    for id in 0u8..34 {
        assert_eq!(device_of(id), device_of(id));
        assert_eq!(channel_of(id), channel_of(id));
        assert_eq!(device_of(id), (id / 8) as usize);
        assert_eq!(channel_of(id), id % 8);
    }
}

#[test]
fn mapping_never_collides() {
    for i in 0u8..34 {
        for j in 0u8..34 {
            if i != j {
                let pair_i = (device_of(i), channel_of(i));
                let pair_j = (device_of(j), channel_of(j));
                assert_ne!(pair_i, pair_j, "ids {} and {} share a (device, channel) pair", i, j);
            }
        }
    }
}

#[test]
fn tail_allocation_on_fifth_device() {
    assert_eq!(device_of(32), 4);
    assert_eq!(channel_of(32), 0);
    assert_eq!(device_of(33), 4);
    assert_eq!(channel_of(33), 1);
    // the fifth device hosts nothing below the tail
    for id in 0u8..32 {
        assert!(device_of(id) < 4);
    }
}

#[test]
fn spawn_sensor_wires_by_the_mapping() {
    for id in 0u8..34 {
        let s = spawn_sensor(id).unwrap();
        assert_eq!(s.id, id);
        assert_eq!(s.device, (id / 8) as usize);
        assert_eq!(s.channel, id % 8);
        assert_eq!(s.value, 0);
    }
}

#[test]
fn spawn_sensor_rejects_outside_ids() {
    assert!(spawn_sensor(34).is_none());
    assert!(spawn_sensor(40).is_none());
    assert!(spawn_sensor(255).is_none());
}

#[test]
fn spawn_all_sensors_builds_the_full_table() {
    let t = spawn_all_sensors();
    assert_eq!(t.len(), 34);
    let sensors = t.snapshot();
    for (i, s) in sensors.iter().enumerate() {
        assert_eq!(s.id as usize, i);
        assert_eq!(s.device, (s.id / 8) as usize);
        assert_eq!(s.channel, s.id % 8);
        assert_eq!(s.value, 0);
    }
}

#[test]
fn spawn_single_sensor_builds_one_mapping() {
    let t = spawn_single_sensor(33);
    assert_eq!(t.len(), 1);
    let s = t.get(0);
    assert_eq!(s.id, 33);
    assert_eq!(s.device, 4);
    assert_eq!(s.channel, 1);
    assert_eq!(s.value, 0);
}

#[test]
fn random_id_stays_in_the_installation() {
    for _ in 0..200 {
        let r = random_id();
        assert!(r.id < 34);
    }
}
