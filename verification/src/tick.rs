//! The two-phase tick pipeline. Each tick, the poll phase refreshes every
//! sensor's stored value — this module plans the reads; the shell performs
//! the bus transactions and stores the outcomes — and the render phase then
//! maps every stored value through the thresholds into the frame buffer,
//! one ring per sensor, followed by a single full-buffer push.

use vstd::prelude::*;
use crate::{NUM_DEVICES, CHANNELS_PER_DEVICE};
use crate::sensors::{SensorTable, sensor_wf, lemma_mapping_in_range};
use crate::leds::{LedControllerResource, NUM_RINGS};
use crate::mapper::{color_of, spec_color_of};

verus! {

/// One pending channel read of the poll phase.
#[derive(Clone, Copy, PartialEq, Eq, Structural, Debug)]
pub struct ReadRequest {
    pub id: u8,
    pub device: usize,
    pub channel: u8,
}

/// The poll phase's plan: one read per sensor, routed to the sensor's own
/// (device, channel) pair, in table order. Reads on one device must still
/// be issued one at a time — the plan is a sequence, not a fan-out — and
/// on a well-formed table every request stays inside the hardware.
pub fn poll_requests(table: &SensorTable) -> (reqs: Vec<ReadRequest>)
    ensures
        reqs@.len() == table@.len(),
        forall|i: int|
            0 <= i < table@.len() ==> ((#[trigger] reqs@[i]).id == table@[i].id && reqs@[i].device
                == table@[i].device && reqs@[i].channel == table@[i].channel),
        table.wf() ==> (forall|i: int|
            0 <= i < reqs@.len() ==> ((#[trigger] reqs@[i]).device < NUM_DEVICES
                && reqs@[i].channel < CHANNELS_PER_DEVICE)),
{
    let n = table.len();
    let mut reqs: Vec<ReadRequest> = Vec::new();
    let mut i: usize = 0;
    while i < n
        invariant
            i <= n,
            n == table@.len(),
            reqs@.len() == i as int,
            forall|j: int|
                0 <= j < i ==> ((#[trigger] reqs@[j]).id == table@[j].id && reqs@[j].device
                    == table@[j].device && reqs@[j].channel == table@[j].channel),
        decreases n - i,
    {
        let s = table.get(i);
        reqs.push(ReadRequest { id: s.id, device: s.device, channel: s.channel });
        i = i + 1;
    }
    proof {
        if table.wf() {
            assert forall|i: int|
                0 <= i < reqs@.len() implies ((#[trigger] reqs@[i]).device < NUM_DEVICES
                && reqs@[i].channel < CHANNELS_PER_DEVICE) by {
                assert(sensor_wf(table@[i]));
                lemma_mapping_in_range(table@[i].id as int);
            }
        }
    }
    reqs
}

/// The render phase: for every sensor of the table, map its stored value
/// through the thresholds and buffer the result on the sensor's own ring.
/// A ring that no sensor drives keeps the color it was already showing.
/// Nothing is transmitted here: the shell pushes the whole buffer once per
/// tick after this returns.
pub fn render_tick(table: &SensorTable, leds: &mut LedControllerResource)
    requires
        table.wf(),
        old(leds).wf(),
    ensures
        final(leds).wf(),
        forall|i: int|
            0 <= i < table@.len() ==> final(leds)@[(#[trigger] table@[i]).id as int]
                == spec_color_of(table@[i].value),
        forall|j: int|
            0 <= j < NUM_RINGS && !table.spec_has_sensor(j) ==> final(leds)@[j] == old(leds)@[j],
{
    let n = table.len();
    let mut i: usize = 0;
    while i < n
        invariant
            i <= n,
            n == table@.len(),
            table.wf(),
            leds.wf(),
            forall|k: int|
                0 <= k < i ==> leds@[(#[trigger] table@[k]).id as int] == spec_color_of(
                    table@[k].value,
                ),
            forall|j: int|
                0 <= j < NUM_RINGS && !table.spec_has_sensor(j) ==> leds@[j] == old(leds)@[j],
        decreases n - i,
    {
        let s = table.get(i);
        proof {
            assert(sensor_wf(table@[i as int]));
            assert(table.spec_has_sensor(s.id as int)) by {
                assert((i as int) < table@.len() && (table@[i as int]).id == s.id);
            }
        }
        let c = color_of(s.value);
        leds.set_ring_color(s.id as i32, c);
        i = i + 1;
    }
}

} // verus!
