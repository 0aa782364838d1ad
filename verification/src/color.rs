//! Colors as fixed-point values.  A channel is stored in myriadths
//! (ten-thousandths), so `8400` stands for a channel intensity of 0.84 and
//! `COLOR_SCALE` for full intensity.  This keeps every color computation
//! exact.

use vstd::prelude::*;

verus! {

/// Number of fixed-point units that make up a channel intensity of 1.0.
pub const COLOR_SCALE: u32 = 10000;

/// An RGBA color; each channel is in `0..=COLOR_SCALE` myriadths.
#[derive(Clone, Copy, PartialEq, Eq, Structural, Debug)]
pub struct Color {
    pub r: u32,
    pub g: u32,
    pub b: u32,
    pub a: u32,
}

impl Color {
    /// All channels within the fixed-point range.
    pub open spec fn wf(self) -> bool {
        self.r <= COLOR_SCALE && self.g <= COLOR_SCALE && self.b <= COLOR_SCALE && self.a
            <= COLOR_SCALE
    }

    pub fn new(r: u32, g: u32, b: u32, a: u32) -> (c: Color)
        requires
            r <= COLOR_SCALE,
            g <= COLOR_SCALE,
            b <= COLOR_SCALE,
            a <= COLOR_SCALE,
        ensures
            c == (Color { r, g, b, a }),
            c.wf(),
    {
        Color { r, g, b, a }
    }
}

/// A channel scaled to `percent` per cent of its value, rounded down.
pub open spec fn spec_scale_channel(c: u32, percent: u32) -> int {
    (c * percent) as int / 100
}

/// Scale one channel to a percentage of its intensity.
pub fn scale_channel(c: u32, percent: u32) -> (r: u32)
    requires
        c <= COLOR_SCALE,
        percent <= 100,
    ensures
        r == spec_scale_channel(c, percent),
        r <= COLOR_SCALE,
{
    proof {
        assert(c * percent <= 10000 * 100) by (nonlinear_arith)
            requires
                c <= 10000,
                percent <= 100,
        ;
        assert((c * percent) as int / 100 <= 10000);
    }
    c * percent / 100
}

/// The color with each of `r`, `g`, `b` scaled to `percent` per cent of the
/// base and full alpha.
pub open spec fn spec_scaled_color(base: Color, percent: u32) -> Color {
    Color {
        r: spec_scale_channel(base.r, percent) as u32,
        g: spec_scale_channel(base.g, percent) as u32,
        b: spec_scale_channel(base.b, percent) as u32,
        a: COLOR_SCALE,
    }
}

/// Scale a color's red, green and blue channels, producing an opaque color.
pub fn scaled_color(base: &Color, percent: u32) -> (c: Color)
    requires
        base.wf(),
        percent <= 100,
    ensures
        c == spec_scaled_color(*base, percent),
        c.wf(),
{
    Color {
        r: scale_channel(base.r, percent),
        g: scale_channel(base.g, percent),
        b: scale_channel(base.b, percent),
        a: COLOR_SCALE,
    }
}

} // verus!
