//! A rainbow laid over the lantern, turning with the ambient hue.
use vstd::prelude::*;

use crate::color::Color;
use crate::fixed::{clamp_i32, one, Fixed};
use crate::model::lantern::{index_to_spherical_spec, Lantern};
use crate::pixelindex::{PixelIndex, SIZE};

verus! {

/// Which way the rainbow runs.
#[derive(Clone, Copy, Debug, PartialEq, Eq, Structural)]
pub enum Orientation {
    /// Round the lantern.
    Horizontal,
    /// From bottom to top.
    Vertical,
    /// Both at once, winding upwards.
    Spiral,
}

impl Orientation {
    /// The orientation after this one, round the cycle Horizontal, Vertical, Spiral.
    pub open spec fn next_spec(self) -> Orientation {
        match self {
            Orientation::Horizontal => Orientation::Vertical,
            Orientation::Vertical => Orientation::Spiral,
            Orientation::Spiral => Orientation::Horizontal,
        }
    }

    /// The orientation after this one, round the cycle Horizontal, Vertical, Spiral.
    pub fn next(self) -> (r: Orientation)
        ensures
            r == self.next_spec(),
    {
        match self {
            Orientation::Horizontal => Orientation::Vertical,
            Orientation::Vertical => Orientation::Spiral,
            Orientation::Spiral => Orientation::Horizontal,
        }
    }
}

/// Hue offset (raw degrees) of a pixel at raw (azimuth, elevation) for a rainbow of
/// `step` degrees across: by azimuth, by elevation, or half by elevation plus by azimuth.
pub open spec fn rainbow_offset(orient: Orientation, step: int, dir: int, height: int) -> int {
    match orient {
        Orientation::Horizontal => clamp_i32((step * dir) / one()),
        Orientation::Vertical => clamp_i32((step * height) / one()),
        Orientation::Spiral => clamp_i32(
            clamp_i32((step * height) / one()) / 2 + clamp_i32((step * dir) / one()),
        ),
    }
}

/// Rainbow effect state.
#[derive(Clone, Copy, Debug, PartialEq, Eq, Structural)]
pub struct Rainbow {
    pub speed: Fixed,
    pub step: Fixed,
    pub orient: Orientation,
}

impl Rainbow {
    /// A spiral rainbow spanning `step` degrees, its hue turning `speed` degrees per frame.
    pub fn new(speed: Fixed, step: Fixed) -> (r: Rainbow)
        ensures
            r == (Rainbow { speed, step, orient: Orientation::Spiral }),
    {
        Rainbow { speed, step, orient: Orientation::Spiral }
    }

    /// Ten degrees per frame over a full turn, as a spiral.
    pub open spec fn default_spec() -> Rainbow {
        Rainbow { speed: Fixed((10 * one()) as i32), step: Fixed((360 * one()) as i32), orient: Orientation::Spiral }
    }

    /// Ten degrees per frame over a full turn, as a spiral.
    pub fn default() -> (r: Rainbow)
        ensures
            r == Rainbow::default_spec(),
    {
        Rainbow::new(Fixed::from_int(10), Fixed::from_int(360))
    }

    /// Turns the ambient hue by the speed.
    pub fn tick(&mut self, color: &mut Color)
        ensures
            *final(self) == *old(self),
            *final(color) == old(color).shifted(old(self).speed@),
    {
        *color = color.shift_hue(self.speed);
    }

    /// Each pixel is the ambient colour with its hue turned by the rainbow's
    /// offset at the pixel's position.
    pub fn render(&self, color: Color, model: &mut Lantern)
        ensures
            final(model).color == old(model).color,
            forall|i: int|
                0 <= i < SIZE ==> #[trigger] final(model).pixels[i] == color.shifted(
                    rainbow_offset(
                        self.orient,
                        self.step@,
                        index_to_spherical_spec(i).0,
                        index_to_spherical_spec(i).1,
                    ),
                ),
    {
        let mut i: usize = 0;
        while i < SIZE
            invariant
                i <= SIZE,
                model.color == old(model).color,
                forall|j: int|
                    0 <= j < i ==> #[trigger] model.pixels[j] == color.shifted(
                        rainbow_offset(
                            self.orient,
                            self.step@,
                            index_to_spherical_spec(j).0,
                            index_to_spherical_spec(j).1,
                        ),
                    ),
            decreases SIZE - i,
        {
            let (dir, height) = PixelIndex::new(i).as_spherical();
            let offset = match self.orient {
                Orientation::Horizontal => self.step.saturating_mul(dir),
                Orientation::Vertical => self.step.saturating_mul(height),
                Orientation::Spiral => self.step.saturating_mul(height).div_int(2).saturating_add(
                    self.step.saturating_mul(dir),
                ),
            };
            model.pixels[i] = color.shift_hue(offset);
            i += 1;
        }
    }

    /// Speeds the drift up by a tenth.
    pub fn rotate_cw(&mut self)
        ensures
            final(self).speed@ == clamp_i32((old(self).speed@ * (11 * one() / 10)) / one()),
            final(self).step == old(self).step,
            final(self).orient == old(self).orient,
    {
        self.speed = self.speed.saturating_mul(Fixed::from_ratio(11, 10));
    }

    /// Slows the drift down by a tenth.
    pub fn rotate_ccw(&mut self)
        ensures
            final(self).speed@ == clamp_i32((old(self).speed@ * (9 * one() / 10)) / one()),
            final(self).step == old(self).step,
            final(self).orient == old(self).orient,
    {
        self.speed = self.speed.saturating_mul(Fixed::from_ratio(9, 10));
    }

    /// Moves on to the next orientation.
    pub fn click(&mut self)
        ensures
            final(self).orient == old(self).orient.next_spec(),
            final(self).speed == old(self).speed,
            final(self).step == old(self).step,
    {
        self.orient = self.orient.next();
    }
}

} // verus!
