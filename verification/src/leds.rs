//! The LED driver's in-memory side: an ordered frame buffer of one color
//! per ring. Writing one ring touches no other ring; clearing sets every
//! ring to the clear color. The buffer is pushed to the strip hardware in
//! one full-buffer transaction per tick by the unverified shell around the
//! library — a push transmits the whole sequence and alters no stored color.

use vstd::prelude::*;
use crate::NUM_SENSORS;
use crate::colors::{Color, Colors, spec_clear};
use crate::errors::RenderError;

verus! {

/// Addressable LEDs on the strip, one per sensor ring.
pub const NUM_RINGS: usize = 34;

/// LEDs that make up one ring.
pub const LEDS_PER_RING: usize = 1;

/// A frame with every position set to the one color.
pub open spec fn spec_all_color(n: nat, c: Color) -> Seq<Color> {
    Seq::new(n, |i: int| c)
}

/// The in-memory frame buffer behind the strip: its view is the sequence of
/// ring colors, in ring order.
pub struct LedControllerResource {
    frame: Vec<Color>,
}

impl View for LedControllerResource {
    type V = Seq<Color>;

    closed spec fn view(&self) -> Seq<Color> {
        self.frame@
    }
}

impl LedControllerResource {
    /// One frame position per ring.
    pub open spec fn wf(&self) -> bool {
        self@.len() == NUM_RINGS
    }

    /// A fresh buffer: one clear LED per ring.
    pub fn new() -> (leds: LedControllerResource)
        ensures
            leds.wf(),
            leds@ == spec_all_color(NUM_RINGS as nat, spec_clear()),
    {
        let mut frame: Vec<Color> = Vec::new();
        let mut i: usize = 0;
        while i < NUM_RINGS
            invariant
                i <= NUM_RINGS,
                frame@.len() == i as int,
                forall|j: int| 0 <= j < i ==> frame@[j] == spec_clear(),
            decreases NUM_RINGS - i,
        {
            frame.push(Color { c0: 0, c1: 0, c2: 0, c3: 0 });
            i = i + 1;
        }
        let leds = LedControllerResource { frame };
        proof {
            assert(leds@ =~= spec_all_color(NUM_RINGS as nat, spec_clear()));
        }
        leds
    }

    /// The whole frame, ring by ring, for the full-buffer push.
    pub fn frame(&self) -> (f: &Vec<Color>)
        ensures
            f@ == self@,
    {
        &self.frame
    }

    /// The color currently buffered for one ring.
    pub fn ring_color(&self, ring: usize) -> (c: Color)
        requires
            ring < self@.len(),
        ensures
            c == self@[ring as int],
    {
        self.frame[ring]
    }

    /// Set every ring of the buffer to the one color.
    pub fn set_all_color(&mut self, color: Color)
        ensures
            final(self)@ == spec_all_color(old(self)@.len(), color),
    {
        let n = self.frame.len();
        let mut i: usize = 0;
        while i < n
            invariant
                i <= n,
                self.frame@.len() == n,
                n == old(self)@.len(),
                forall|j: int| 0 <= j < i ==> self.frame@[j] == color,
            decreases n - i,
        {
            self.frame.set(i, color);
            i = i + 1;
        }
        proof {
            assert(self@ =~= spec_all_color(old(self)@.len(), color));
        }
    }

    /// Write one ring's color into the buffer — and only that ring's: every
    /// other ring keeps the color it already had. Nothing is transmitted.
    pub fn set_ring_color(&mut self, ring: i32, color: Color)
        requires
            0 <= ring < old(self)@.len(),
        ensures
            final(self)@ == old(self)@.update(ring as int, color),
            final(self)@.len() == old(self)@.len(),
            final(self)@[ring as int] == color,
            forall|j: int| 0 <= j < old(self)@.len() && j != ring ==> final(self)@[j] == old(self)@[j],
    {
        self.frame.set(ring as usize, color);
    }

    /// Set every ring to the clear color. The buffer it leaves behind is
    /// one fixed frame, whatever was buffered before.
    pub fn clear_leds(&mut self)
        ensures
            final(self)@ == spec_all_color(old(self)@.len(), spec_clear()),
    {
        let palette = Colors::default();
        self.set_all_color(palette.clear);
    }
}

/// Law: clearing is idempotent — clearing a frame that a clear already
/// produced yields that same fully-clear frame again.
pub proof fn lemma_clear_leds_idempotent(n: nat)
    ensures
        spec_all_color(spec_all_color(n, spec_clear()).len(), spec_clear()) == spec_all_color(
            n,
            spec_clear(),
        ),
{
    assert(spec_all_color(spec_all_color(n, spec_clear()).len(), spec_clear()) =~= spec_all_color(
        n,
        spec_clear(),
    ));
}

/// The render policy: a full-buffer push either reached the hardware or the
/// tick fails with the fatal render error.
pub fn render_outcome(pushed: bool) -> (r: Result<(), RenderError>)
    ensures
        r is Ok <==> pushed,
{
    if pushed {
        Ok(())
    } else {
        Err(RenderError)
    }
}

/// Bring up the light side: a frame buffer with every ring cleared, ready
/// for the first tick.
pub fn setup_lights() -> (leds: LedControllerResource)
    ensures
        leds.wf(),
        leds@ == spec_all_color(NUM_RINGS as nat, spec_clear()),
        leds@.len() == NUM_SENSORS as int,
{
    let mut leds = LedControllerResource::new();
    leds.clear_leds();
    leds
}

} // verus!
