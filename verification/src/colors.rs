//! The color palette. A color is four 8-bit channels in the strip's own
//! wire order (not plain RGB): the byte values of each named color are part
//! of the hardware contract and must be kept bit for bit.

use vstd::prelude::*;

verus! {

/// One LED color: four 8-bit channels in the strip's wire order.
#[derive(Clone, Copy, PartialEq, Eq, Structural, Debug)]
pub struct Color {
    pub c0: u8,
    pub c1: u8,
    pub c2: u8,
    pub c3: u8,
}

pub open spec fn spec_red() -> Color {
    Color { c0: 0, c1: 0, c2: 255, c3: 0 }
}

pub open spec fn spec_green() -> Color {
    Color { c0: 0, c1: 255, c2: 0, c3: 0 }
}

pub open spec fn spec_blue() -> Color {
    Color { c0: 255, c1: 0, c2: 0, c3: 0 }
}

pub open spec fn spec_yellow() -> Color {
    Color { c0: 0, c1: 255, c2: 255, c3: 0 }
}

pub open spec fn spec_purple() -> Color {
    Color { c0: 255, c1: 0, c2: 255, c3: 0 }
}

pub open spec fn spec_white() -> Color {
    Color { c0: 255, c1: 255, c2: 255, c3: 0 }
}

pub open spec fn spec_clear() -> Color {
    Color { c0: 0, c1: 0, c2: 0, c3: 0 }
}

/// The closed palette, as one value.
#[derive(Clone, Copy, PartialEq, Eq, Structural, Debug)]
pub struct Colors {
    pub red: Color,
    pub green: Color,
    pub blue: Color,
    pub yellow: Color,
    pub purple: Color,
    pub white: Color,
    pub clear: Color,
}

pub open spec fn spec_palette() -> Colors {
    Colors {
        red: spec_red(),
        green: spec_green(),
        blue: spec_blue(),
        yellow: spec_yellow(),
        purple: spec_purple(),
        white: spec_white(),
        clear: spec_clear(),
    }
}

impl Default for Colors {
    /// The palette's one value: each named color with its exact wire bytes.
    fn default() -> (c: Colors)
        ensures
            c == spec_palette(),
    {
        Colors {
            red: Color { c0: 0, c1: 0, c2: 255, c3: 0 },
            green: Color { c0: 0, c1: 255, c2: 0, c3: 0 },
            blue: Color { c0: 255, c1: 0, c2: 0, c3: 0 },
            yellow: Color { c0: 0, c1: 255, c2: 255, c3: 0 },
            purple: Color { c0: 255, c1: 0, c2: 255, c3: 0 },
            white: Color { c0: 255, c1: 255, c2: 255, c3: 0 },
            clear: Color { c0: 0, c1: 0, c2: 0, c3: 0 },
        }
    }
}

} // verus!
