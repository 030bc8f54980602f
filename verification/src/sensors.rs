//! The sensor table: the authoritative mapping from sensor id to
//! (device, channel), and each sensor's last-read value. The mapping is a
//! fixed pure function of the id — device = id div 8, channel = id mod 8 —
//! so the fifth device deliberately hosts only the two tail ids 32 and 33.
//! The table is built once at startup, either in full (all 34 sensors) or
//! for a single randomly drawn id (warmup mode), and mutated only by the
//! poll loop storing fresh readings.

use vstd::prelude::*;
use vstd::arithmetic::div_mod::{lemma_fundamental_div_mod, lemma_mod_bound};
use rand::Rng;
use crate::{NUM_SENSORS, NUM_DEVICES, CHANNELS_PER_DEVICE};
use crate::errors::ReadError;

verus! {

/// One sensor: its logical id, the (device, channel) pair it is wired to,
/// and the value the poll loop last stored for it.
#[derive(Clone, Copy, PartialEq, Eq, Structural, Debug)]
pub struct Sensor {
    pub channel: u8,
    pub device: usize,
    pub value: u16,
    pub id: u8,
}

/// Which device a sensor id is wired to.
pub open spec fn spec_device_of(id: int) -> int {
    id / 8
}

/// Which channel of its device a sensor id is wired to.
pub open spec fn spec_channel_of(id: int) -> int {
    id % 8
}

/// A sensor is well formed when its id lies in the installation and its
/// wiring is exactly what the mapping dictates for that id.
pub open spec fn sensor_wf(s: Sensor) -> bool {
    &&& s.id < NUM_SENSORS
    &&& s.device == spec_device_of(s.id as int)
    &&& s.channel == spec_channel_of(s.id as int)
}

/// The mapping stays inside the hardware: 5 devices of 8 channels.
pub proof fn lemma_mapping_in_range(id: int)
    requires
        0 <= id < NUM_SENSORS,
    ensures
        0 <= spec_device_of(id) < NUM_DEVICES,
        0 <= spec_channel_of(id) < CHANNELS_PER_DEVICE,
{
    lemma_fundamental_div_mod(id, 8);
    lemma_mod_bound(id, 8);
}

/// Law: the mapping never collides — two distinct sensor ids differ in
/// device or in channel, so no two sensors share a (device, channel) pair.
pub proof fn lemma_mapping_injective(i: int, j: int)
    requires
        0 <= i < NUM_SENSORS,
        0 <= j < NUM_SENSORS,
        i != j,
    ensures
        spec_device_of(i) != spec_device_of(j) || spec_channel_of(i) != spec_channel_of(j),
{
    lemma_fundamental_div_mod(i, 8);
    lemma_fundamental_div_mod(j, 8);
    lemma_mod_bound(i, 8);
    lemma_mod_bound(j, 8);
}

/// Law: the deliberate short tail — the fifth device hosts exactly the ids
/// 32 and 33, on channels 0 and 1, not a full bank of eight; every lower id
/// stays on the first four devices.
pub proof fn lemma_tail_allocation(id: int)
    requires
        0 <= id < NUM_SENSORS,
    ensures
        32 <= id ==> spec_device_of(id) == 4 && spec_channel_of(id) == id - 32,
        id < 32 ==> spec_device_of(id) < 4,
{
    lemma_fundamental_div_mod(id, 8);
    lemma_mod_bound(id, 8);
}

/// Device index for one sensor id.
pub fn device_of(id: u8) -> (d: usize)
    requires
        id < NUM_SENSORS,
    ensures
        d == spec_device_of(id as int),
        d < NUM_DEVICES,
{
    proof {
        lemma_mapping_in_range(id as int);
    }
    (id / 8) as usize
}

/// Channel index for one sensor id.
pub fn channel_of(id: u8) -> (c: u8)
    requires
        id < NUM_SENSORS,
    ensures
        c == spec_channel_of(id as int),
        c < CHANNELS_PER_DEVICE,
{
    proof {
        lemma_mapping_in_range(id as int);
    }
    id % 8
}

/// Build the sensor bound to one id, wired by the fixed mapping, with its
/// reading cleared. An id outside the installation yields nothing.
pub fn spawn_sensor(id: u8) -> (r: Option<Sensor>)
    ensures
        id < NUM_SENSORS ==> (r matches Some(s) && s.id == id && s.value == 0 && sensor_wf(s)),
        id >= NUM_SENSORS ==> r is None,
{
    if id < NUM_SENSORS {
        Some(Sensor { channel: channel_of(id), device: device_of(id), value: 0, id })
    } else {
        None
    }
}

/// The sensor id selected for warmup mode.
#[derive(Clone, Copy, PartialEq, Eq, Structural, Debug)]
pub struct ID {
    pub id: u8,
}

/// Relies on rand::Rng::gen_range over the range 0..34: the result is drawn
/// uniformly from that half-open range, and the range is nonempty, so the
/// call cannot panic. Nothing more than membership is assumed of the draw.
#[verifier::external_body]
fn draw_random_id() -> (r: u8)
    ensures
        r < NUM_SENSORS,
{
    rand::thread_rng().gen_range(0..NUM_SENSORS)
}

/// Draw the warmup sensor id at random from the installation.
pub fn random_id() -> (r: ID)
    ensures
        r.id < NUM_SENSORS,
{
    ID { id: draw_random_id() }
}

/// How one stored reading changes the table: the sensor (or sensors) whose
/// id matches carries the new value; every other sensor, and every field
/// but the value, is untouched.
pub open spec fn spec_updated(pre: Seq<Sensor>, post: Seq<Sensor>, id: u8, value: u16) -> bool {
    &&& post.len() == pre.len()
    &&& forall|i: int|
        0 <= i < pre.len() ==> ((#[trigger] post[i]).id == pre[i].id && post[i].device
            == pre[i].device && post[i].channel == pre[i].channel && post[i].value == (
        if pre[i].id == id {
            value
        } else {
            pre[i].value
        }))
}

/// The table of active sensors. Its view is the sequence of sensors.
pub struct SensorTable {
    sensors: Vec<Sensor>,
}

impl View for SensorTable {
    type V = Seq<Sensor>;

    closed spec fn view(&self) -> Seq<Sensor> {
        self.sensors@
    }
}

impl SensorTable {
    /// Every sensor is wired by the mapping, and no id appears twice.
    pub open spec fn wf(&self) -> bool {
        &&& forall|i: int| 0 <= i < self@.len() ==> sensor_wf(#[trigger] self@[i])
        &&& forall|i: int, j: int|
            #![trigger self@[i].id, self@[j].id]
            0 <= i < self@.len() && 0 <= j < self@.len() && i != j ==> self@[i].id != self@[j].id
    }

    /// Whether some sensor of the table drives the given ring.
    pub open spec fn spec_has_sensor(&self, ring: int) -> bool {
        exists|i: int| 0 <= i < self@.len() && (#[trigger] self@[i]).id == ring
    }

    /// Number of sensors in the table.
    pub fn len(&self) -> (n: usize)
        ensures
            n == self@.len(),
    {
        self.sensors.len()
    }

    /// The sensor at one position of the table.
    pub fn get(&self, i: usize) -> (s: Sensor)
        requires
            i < self@.len(),
        ensures
            s == self@[i as int],
    {
        self.sensors[i]
    }

    /// A consistent read-only copy of the table for the render loop.
    pub fn snapshot(&self) -> (s: Vec<Sensor>)
        ensures
            s@ == self@,
    {
        let mut s: Vec<Sensor> = Vec::new();
        let mut i: usize = 0;
        while i < self.sensors.len()
            invariant
                i <= self@.len(),
                s@.len() == i as int,
                forall|j: int| 0 <= j < i ==> s@[j] == self@[j],
            decreases self@.len() - i,
        {
            s.push(self.sensors[i]);
            i = i + 1;
        }
        proof {
            assert(s@ =~= self@);
        }
        s
    }

    /// Store a fresh reading for one sensor id. The only mutator of the
    /// table: everything but the matching sensor's value is untouched.
    pub fn update(&mut self, id: u8, value: u16)
        ensures
            spec_updated(old(self)@, final(self)@, id, value),
            old(self).wf() ==> final(self).wf(),
    {
        let n = self.sensors.len();
        let mut i: usize = 0;
        while i < n
            invariant
                i <= n,
                n == old(self)@.len(),
                self@.len() == n,
                forall|j: int| i <= j < n ==> self@[j] == old(self)@[j],
                forall|j: int|
                    0 <= j < i ==> ((#[trigger] self@[j]).id == old(self)@[j].id && self@[j].device
                        == old(self)@[j].device && self@[j].channel == old(self)@[j].channel
                        && self@[j].value == (
                    if old(self)@[j].id == id {
                        value
                    } else {
                        old(self)@[j].value
                    })),
            decreases n - i,
        {
            let s = self.sensors[i];
            if s.id == id {
                self.sensors.set(i, Sensor { channel: s.channel, device: s.device, value, id: s.id });
            }
            i = i + 1;
        }
        proof {
            if old(self).wf() {
                assert forall|i: int| 0 <= i < self@.len() implies sensor_wf(#[trigger] self@[i]) by {
                    assert(sensor_wf(old(self)@[i]));
                }
                assert forall|i: int, j: int|
                    #![trigger self@[i].id, self@[j].id]
                    0 <= i < self@.len() && 0 <= j < self@.len() && i != j implies self@[i].id
                    != self@[j].id by {
                    assert(old(self)@[i].id != old(self)@[j].id);
                }
            }
        }
    }

    /// Apply the outcome of one channel read: a delivered value is stored;
    /// a failed read leaves the table untouched and surfaces the fatal
    /// read error for that sensor.
    pub fn store_read_result(&mut self, id: u8, reading: Option<u16>) -> (r: Result<(), ReadError>)
        ensures
            r is Ok <==> reading is Some,
            reading matches Some(v) ==> spec_updated(old(self)@, final(self)@, id, v),
            reading is None ==> (r matches Err(e) && e.id == id && final(self)@ == old(self)@),
            old(self).wf() ==> final(self).wf(),
    {
        match reading {
            Some(v) => {
                self.update(id, v);
                Ok(())
            },
            None => Err(ReadError { id }),
        }
    }
}

/// Build the full table: all 34 sensors in id order, each wired by the
/// mapping, readings cleared.
pub fn spawn_all_sensors() -> (t: SensorTable)
    ensures
        t@.len() == NUM_SENSORS as int,
        forall|i: int| 0 <= i < t@.len() ==> (#[trigger] t@[i]).id == i,
        forall|i: int| 0 <= i < t@.len() ==> sensor_wf(#[trigger] t@[i]),
        forall|i: int| 0 <= i < t@.len() ==> (#[trigger] t@[i]).value == 0,
        t.wf(),
{
    let mut sensors: Vec<Sensor> = Vec::new();
    let mut id: u8 = 0;
    while id < NUM_SENSORS
        invariant
            id <= NUM_SENSORS,
            sensors@.len() == id as int,
            forall|i: int| 0 <= i < sensors@.len() ==> (#[trigger] sensors@[i]).id == i,
            forall|i: int| 0 <= i < sensors@.len() ==> sensor_wf(#[trigger] sensors@[i]),
            forall|i: int| 0 <= i < sensors@.len() ==> (#[trigger] sensors@[i]).value == 0,
        decreases NUM_SENSORS - id,
    {
        let s = Sensor { channel: channel_of(id), device: device_of(id), value: 0, id };
        sensors.push(s);
        id = id + 1;
    }
    let t = SensorTable { sensors };
    proof {
        assert forall|i: int, j: int|
            #![trigger t@[i].id, t@[j].id]
            0 <= i < t@.len() && 0 <= j < t@.len() && i != j implies t@[i].id != t@[j].id by {
            assert(t@[i].id == i);
            assert(t@[j].id == j);
        }
    }
    t
}

/// Build the one-sensor table of warmup mode.
pub fn spawn_single_sensor(id: u8) -> (t: SensorTable)
    requires
        id < NUM_SENSORS,
    ensures
        t@.len() == 1,
        t@[0].id == id,
        t@[0].value == 0,
        sensor_wf(t@[0]),
        t.wf(),
{
    let mut sensors: Vec<Sensor> = Vec::new();
    match spawn_sensor(id) {
        Some(s) => {
            sensors.push(s);
        },
        None => {
            proof {
                assert(false);
            }
        },
    }
    SensorTable { sensors }
}

} // verus!
