//! Perceptual colours: lightness, chroma and hue on fixed-point numbers.
//!
//! Hue is an angle in degrees and is kept in `[0, 360)` by every operation
//! that changes it; lightness and chroma are not bounded here (effects may
//! leave the displayable range, which the conversion to RGB clips).
use vstd::prelude::*;

use crate::fixed::{clamp_i32, clamp_int, one, Fixed, ONE};

verus! {

/// Raw units in a full turn of hue (360 degrees).
pub const FULL_TURN: i32 = 23592960;

/// A full turn of hue, raw.
pub open spec fn full_turn() -> int {
    360 * one()
}

/// Half a turn of hue, raw.
pub open spec fn half_turn() -> int {
    180 * one()
}

/// A colour as (lightness, chroma, hue in degrees).
#[derive(Clone, Copy, Debug, PartialEq, Eq, Structural)]
pub struct Color {
    pub l: Fixed,
    pub chroma: Fixed,
    pub hue: Fixed,
}

/// The hue difference from `a` to `b` along the shorter way round, in `(-180, 180]` degrees.
pub open spec fn hue_diff(a: int, b: int) -> int {
    let d = (b - a) % full_turn();
    if d > half_turn() {
        d - full_turn()
    } else {
        d
    }
}

impl Color {
    /// Hue lies in `[0, 360)` degrees.
    pub open spec fn has_canonical_hue(self) -> bool {
        0 <= self.hue@ < full_turn()
    }

    /// The colour with its hue turned by `d` raw units, taken modulo a full turn.
    pub open spec fn shifted(self, d: int) -> Color {
        Color { hue: Fixed(((self.hue@ + d) % full_turn()) as i32), ..self }
    }

    /// The blend of `self` towards `o` by weight `w` (raw, clamped to `[0, one]`):
    /// lightness and chroma linearly, hue along the shorter way round.
    pub open spec fn mixed(self, o: Color, w: int) -> Color {
        let w = clamp_int(w, 0, one());
        Color {
            l: Fixed((self.l@ + ((o.l@ - self.l@) * w) / one()) as i32),
            chroma: Fixed((self.chroma@ + ((o.chroma@ - self.chroma@) * w) / one()) as i32),
            hue: Fixed(
                ((self.hue@ + (hue_diff(self.hue@, o.hue@) * w) / one()) % full_turn()) as i32,
            ),
        }
    }

    /// The colour with lightness raised by `d` raw units, saturated.
    pub open spec fn lightened(self, d: int) -> Color {
        Color { l: Fixed(clamp_i32(self.l@ + d) as i32), ..self }
    }

    /// The colour with lightness lowered by `d` raw units, saturated.
    pub open spec fn darkened(self, d: int) -> Color {
        Color { l: Fixed(clamp_i32(self.l@ - d) as i32), ..self }
    }

    /// The colour with chroma raised by `d` raw units, saturated.
    pub open spec fn saturated(self, d: int) -> Color {
        Color { chroma: Fixed(clamp_i32(self.chroma@ + d) as i32), ..self }
    }

    /// The colour with chroma lowered by `d` raw units, saturated.
    pub open spec fn desaturated(self, d: int) -> Color {
        Color { chroma: Fixed(clamp_i32(self.chroma@ - d) as i32), ..self }
    }

    /// A colour from its three components, the hue brought into `[0, 360)`.
    pub fn new(l: Fixed, chroma: Fixed, hue: Fixed) -> (r: Color)
        ensures
            r == Color::new_spec(l, chroma, hue),
            r.has_canonical_hue(),
    {
        Color { l, chroma, hue: Fixed(0) }.shift_hue(hue)
    }

    /// A colour from whole-number lightness, chroma and hue in degrees.
    pub fn from_ints(l: i16, chroma: i16, hue: i16) -> (r: Color)
        ensures
            r == Color::new_spec(
                Fixed((l * one()) as i32),
                Fixed((chroma * one()) as i32),
                Fixed((hue * one()) as i32),
            ),
            r.has_canonical_hue(),
    {
        Color::new(Fixed::from_int(l as i32), Fixed::from_int(chroma as i32), Fixed::from_int(hue as i32))
    }

    /// Black, hue zero.
    pub open spec fn black_spec() -> Color {
        Color { l: Fixed(0), chroma: Fixed(0), hue: Fixed(0) }
    }

    /// Black, hue zero.
    pub fn black() -> (r: Color)
        ensures
            r == Color::black_spec(),
    {
        Color { l: Fixed(0), chroma: Fixed(0), hue: Fixed(0) }
    }

    /// The colour with its hue turned by `d` degrees, wrapping round.
    pub fn shift_hue(self, d: Fixed) -> (r: Color)
        ensures
            r == self.shifted(d@),
            r.has_canonical_hue(),
    {
        let h = crate::fixed::mod_floor(self.hue.raw() as i64 + d.raw() as i64, FULL_TURN as i64);
        Color { hue: Fixed(h as i32), ..self }
    }

    /// Lightness raised by `d`, saturated.
    pub fn lighten(self, d: Fixed) -> (r: Color)
        ensures
            r == self.lightened(d@),
    {
        Color { l: self.l.saturating_add(d), ..self }
    }

    /// Lightness lowered by `d`, saturated.
    pub fn darken(self, d: Fixed) -> (r: Color)
        ensures
            r == self.darkened(d@),
    {
        Color { l: self.l.saturating_sub(d), ..self }
    }

    /// Chroma raised by `d`, saturated.
    pub fn saturate(self, d: Fixed) -> (r: Color)
        ensures
            r == self.saturated(d@),
    {
        Color { chroma: self.chroma.saturating_add(d), ..self }
    }

    /// Chroma lowered by `d`, saturated.
    pub fn desaturate(self, d: Fixed) -> (r: Color)
        ensures
            r == self.desaturated(d@),
    {
        Color { chroma: self.chroma.saturating_sub(d), ..self }
    }

    /// Blend towards `o` by weight `w` in `[0, 1]` (clamped): lightness and
    /// chroma linearly, hue along the shorter way round.
    pub fn mix(self, o: Color, w: Fixed) -> (r: Color)
        ensures
            r == self.mixed(o, w@),
            r.has_canonical_hue(),
    {
        let l = self.l.lerp(o.l, w);
        let chroma = self.chroma.lerp(o.chroma, w);
        let wc = w.clamp(Fixed(0), Fixed(ONE));
        let d = crate::fixed::mod_floor(o.hue.raw() as i64 - self.hue.raw() as i64, FULL_TURN as i64);
        let diff = if d > FULL_TURN as i64 / 2 {
            d - FULL_TURN as i64
        } else {
            d
        };
        proof {
            assert(-0x1_0000_0000_0000 <= diff * wc@ <= 0x1_0000_0000_0000) by (nonlinear_arith)
                requires
                    -23592960 <= diff <= 23592960,
                    0 <= wc@ <= 65536,
            ;
        }
        let step = crate::fixed::div_floor(diff * wc.raw() as i64, ONE as i64);
        let h = crate::fixed::mod_floor(self.hue.raw() as i64 + step, FULL_TURN as i64);
        Color { l, chroma, hue: Fixed(h as i32) }
    }

    /// Lightness bounded to `[0, 100]` and chroma to at least zero.
    pub open spec fn clamp_spec(self) -> Color {
        Color {
            l: Fixed(clamp_int(self.l@, 0, 100 * one()) as i32),
            chroma: Fixed((if self.chroma@ < 0 { 0 } else { self.chroma@ }) as i32),
            hue: self.hue,
        }
    }

    /// Lightness bounded to `[0, 100]` and chroma to at least zero.
    pub fn clamp(self) -> (r: Color)
        ensures
            r == self.clamp_spec(),
    {
        Color {
            l: self.l.clamp(Fixed(0), Fixed(100 * ONE)),
            chroma: self.chroma.max(Fixed(0)),
            hue: self.hue,
        }
    }
}

/// A colour from its lightness, chroma and hue, the hue brought into `[0, 360)`.
pub fn lch_color(l: Fixed, chroma: Fixed, hue: Fixed) -> (r: Color)
    ensures
        r == Color::new_spec(l, chroma, hue),
{
    Color::new(l, chroma, hue)
}

impl Color {
    /// The colour that [`Color::new`] builds.
    pub open spec fn new_spec(l: Fixed, chroma: Fixed, hue: Fixed) -> Color {
        Color { l, chroma, hue: Fixed((hue@ % full_turn()) as i32) }
    }
}

/// Turning the hue by `d` and then by `-d` gives back the colour, for every
/// colour whose hue is in `[0, 360)` and every `d` whose negation is representable.
pub proof fn lemma_shift_hue_inverse(c: Color, d: Fixed)
    requires
        c.has_canonical_hue(),
        d@ > i32::MIN,
    ensures
        c.shifted(d@).shifted(clamp_i32(-d@)) == c,
{
    let t = full_turn();
    let h = c.hue@;
    let s = (h + d@) % t;
    vstd::arithmetic::div_mod::lemma_fundamental_div_mod(h + d@, t);
    let q = (h + d@) / t;
    assert(s - d@ == h - q * t);
    vstd::arithmetic::div_mod::lemma_mod_multiples_vanish(-q, h, t);
    vstd::arithmetic::div_mod::lemma_small_mod(h as nat, t as nat);
    assert((s - d@) % t == h) by {
        assert(h - q * t == t * (-q) + h) by (nonlinear_arith);
    }
    assert(c.shifted(d@).shifted(clamp_i32(-d@)).hue == c.hue);
}

} // verus!
