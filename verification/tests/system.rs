use ring_sense::colors::Colors;
use ring_sense::errors::ReadError;
use ring_sense::leds::setup_lights;
use ring_sense::registry::DeviceRegistry;
use ring_sense::sensors::spawn_all_sensors;
use ring_sense::tick::{poll_requests, render_tick};

fn five_paths() -> Vec<String> {
    vec![
        "/dev/spidev1.0".to_string(),
        "/dev/spidev1.1".to_string(),
        "/dev/spidev1.2".to_string(),
        "/dev/spidev0.0".to_string(),
        "/dev/spidev0.1".to_string(),
    ]
}

#[test]
fn open_succeeds_only_with_all_five_devices() {
    let reg = DeviceRegistry::open(five_paths(), &vec![true; 5]);
    assert!(reg.is_ok());
    assert_eq!(reg.unwrap().device_count(), 5);
}

#[test]
fn any_open_failure_is_fatal() {
    for failing in 0..5usize {
        let mut opened = vec![true; 5];
        opened[failing] = false;
        let reg = DeviceRegistry::open(five_paths(), &opened);
        let err = reg.err().expect("a failed path must prevent startup");
        assert_eq!(err.device, failing);
    }
    let none_opened = vec![false; 5];
    let err = DeviceRegistry::open(five_paths(), &none_opened).err().unwrap();
    assert_eq!(err.device, 0);
}

#[test]
fn valid_read_guards_the_bus() {
    let reg = DeviceRegistry::open(five_paths(), &vec![true; 5]).unwrap();
    assert!(reg.valid_read(0, 0));
    assert!(reg.valid_read(4, 7));
    assert!(!reg.valid_read(5, 0));
    assert!(!reg.valid_read(0, 8));
}

#[test]
fn poll_plan_covers_every_sensor_once() {
    let table = spawn_all_sensors();
    let reqs = poll_requests(&table);
    assert_eq!(reqs.len(), 34);
    for (i, r) in reqs.iter().enumerate() {
        assert_eq!(r.id as usize, i);
        assert_eq!(r.device, (r.id / 8) as usize);
        assert_eq!(r.channel, r.id % 8);
        assert!(r.device < 5);
        assert!(r.channel < 8);
    }
}

#[test]
fn stored_reading_replaces_only_its_sensor() {
    let mut table = spawn_all_sensors();
    table.update(20, 654);
    let sensors = table.snapshot();
    for s in sensors.iter() {
        if s.id == 20 {
            assert_eq!(s.value, 654);
        } else {
            assert_eq!(s.value, 0);
        }
    }
}

#[test]
fn failed_read_surfaces_and_retains_the_table() {
    let mut table = spawn_all_sensors();
    table.update(11, 222);
    let before = table.snapshot();

    let ok = table.store_read_result(3, Some(505));
    assert!(ok.is_ok());
    assert_eq!(table.get(3).value, 505);

    let err = table.store_read_result(11, None);
    assert_eq!(err.err(), Some(ReadError { id: 11 }));
    let after = table.snapshot();
    for (s_before, s_after) in before.iter().zip(after.iter()) {
        if s_after.id != 3 {
            assert_eq!(s_before, s_after, "a failed read altered sensor {}", s_after.id);
        }
    }
    assert_eq!(table.get(11).value, 222);
}

#[test]
fn tick_scenario_updates_read_rings_and_retains_the_rest() {
    let p = Colors::default();
    let mut table = spawn_all_sensors();
    let mut leds = setup_lights();

    // first tick: sensor 5 reads 400, everything else stays at 0
    table.update(5, 400);
    render_tick(&table, &mut leds);
    assert_eq!(leds.ring_color(5), p.yellow);

    // second tick: sensor 0 reads 150, sensor 33 reads 3000; sensor 5 is
    // not read again and keeps its last value, so its ring keeps its color
    table.update(0, 150);
    table.update(33, 3000);
    render_tick(&table, &mut leds);

    assert_eq!(leds.ring_color(0), p.green);
    assert_eq!(leds.ring_color(33), p.clear);
    assert_eq!(leds.ring_color(5), p.yellow);
    for j in 1..33usize {
        if j != 5 {
            assert_eq!(leds.ring_color(j), p.clear);
        }
    }
}
