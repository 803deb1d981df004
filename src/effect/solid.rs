//! Every pixel the ambient colour, its hue drifting.
use vstd::prelude::*;

use crate::color::Color;
use crate::fixed::{one, Fixed};
use crate::model::lantern::Lantern;
use crate::pixelindex::SIZE;

verus! {

/// Solid-colour effect: only the hue drift per frame.
#[derive(Clone, Copy, Debug, PartialEq, Eq, Structural)]
pub struct Solid {
    pub speed: Fixed,
}

impl Solid {
    /// A solid effect turning the hue by `speed` degrees per frame.
    pub fn new(speed: Fixed) -> (r: Solid)
        ensures
            r.speed == speed,
    {
        Solid { speed }
    }

    /// A drift of one degree per frame.
    pub open spec fn default_spec() -> Solid {
        Solid { speed: Fixed(one() as i32) }
    }

    /// A drift of one degree per frame.
    pub fn default() -> (r: Solid)
        ensures
            r == Solid::default_spec(),
    {
        Solid::new(Fixed::from_int(1))
    }

    /// Turns the ambient hue by the drift.
    pub fn tick(&mut self, color: &mut Color)
        ensures
            *final(self) == *old(self),
            *final(color) == old(color).shifted(old(self).speed@),
    {
        *color = color.shift_hue(self.speed);
    }

    /// Sets every pixel to the ambient colour.
    pub fn render(&self, color: Color, model: &mut Lantern)
        ensures
            final(model).color == old(model).color,
            forall|i: int| 0 <= i < SIZE ==> #[trigger] final(model).pixels[i] == color,
    {
        model.set_all(color);
    }
}

} // verus!
