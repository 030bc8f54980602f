//! The threshold-to-color mapper: a total, deterministic function from a
//! 16-bit sensor reading to one palette color. The ranges are inclusive on
//! both ends, disjoint, and everything outside them (below 100 or above
//! 2000) maps to the clear color.

use vstd::prelude::*;
use crate::colors::{Color, spec_red, spec_green, spec_yellow, spec_purple, spec_clear};

verus! {

/// What color a reading maps to: the mapper's whole behaviour.
pub open spec fn spec_color_of(value: u16) -> Color {
    if 100 <= value <= 300 {
        spec_green()
    } else if 301 <= value <= 500 {
        spec_yellow()
    } else if 501 <= value <= 700 {
        spec_red()
    } else if 701 <= value <= 2000 {
        spec_purple()
    } else {
        spec_clear()
    }
}

/// Map one sensor reading to its color by threshold.
pub fn color_of(value: u16) -> (c: Color)
    ensures
        c == spec_color_of(value),
{
    if 100 <= value && value <= 300 {
        Color { c0: 0, c1: 255, c2: 0, c3: 0 }
    } else if 301 <= value && value <= 500 {
        Color { c0: 0, c1: 255, c2: 255, c3: 0 }
    } else if 501 <= value && value <= 700 {
        Color { c0: 0, c1: 0, c2: 255, c3: 0 }
    } else if 701 <= value && value <= 2000 {
        Color { c0: 255, c1: 0, c2: 255, c3: 0 }
    } else {
        Color { c0: 0, c1: 0, c2: 0, c3: 0 }
    }
}

/// Law: the mapper is total and unambiguous. Every 16-bit reading yields a
/// color, that color is one of the five the thresholds name, and each named
/// color comes from exactly its own range.
pub proof fn lemma_color_mapper_total(value: u16)
    ensures
        spec_color_of(value) == spec_green() || spec_color_of(value) == spec_yellow()
            || spec_color_of(value) == spec_red() || spec_color_of(value) == spec_purple()
            || spec_color_of(value) == spec_clear(),
        spec_color_of(value) == spec_green() <==> 100 <= value <= 300,
        spec_color_of(value) == spec_yellow() <==> 301 <= value <= 500,
        spec_color_of(value) == spec_red() <==> 501 <= value <= 700,
        spec_color_of(value) == spec_purple() <==> 701 <= value <= 2000,
        spec_color_of(value) == spec_clear() <==> !(100 <= value <= 2000),
{
}

} // verus!
