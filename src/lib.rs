//! Addressable-LED lantern: pixel geometry, colour model, effects and the
//! rotary-encoder decoder, all on fixed-point numbers.
use vstd::prelude::*;

pub mod color;
pub mod effect;
pub mod fixed;
pub mod model;
pub mod noise;
pub mod pixelindex;
mod rng;
pub mod rotary;

pub use color::{lch_color, Color};
pub use effect::{EffectCycle, EffectManager};
pub use fixed::Fixed;
pub use model::lantern::{Lantern, LanternFace};
pub use pixelindex::{FaceType, PixelIndex, PixelIterator};
pub use rotary::{Click, Direction, Rotary};

verus! {

/// The three rotary controls.
#[derive(Clone, Copy, Debug, PartialEq, Eq, Structural)]
pub enum Knobs {
    Knob1,
    Knob2,
    Knob3,
}

/// A decoded input event from one of the controls.
#[derive(Clone, Copy, Debug, PartialEq, Eq, Structural)]
pub enum InputEvent {
    Spin(Knobs, rotary::Direction),
    Press(Knobs),
    Release(Knobs),
}

/// The events that one knob's update brings: a spin, then a click.
pub open spec fn knob_events(kind: Knobs, update: (Option<rotary::Direction>, Option<rotary::Click>)) -> (
    Option<InputEvent>,
    Option<InputEvent>,
) {
    (
        match update.0 {
            Some(d) => Some(InputEvent::Spin(kind, d)),
            None => None,
        },
        match update.1 {
            Some(rotary::Click::Press) => Some(InputEvent::Press(kind)),
            Some(rotary::Click::Release) => Some(InputEvent::Release(kind)),
            None => None,
        },
    )
}

/// Feeds one edge's pin levels to the decoder of knob `kind` and returns the
/// events it brings: the spin first, then the click.
pub fn handle_knob(knob: &mut Rotary, kind: Knobs, a_low: bool, b_low: bool, c_high: bool) -> (r: [Option<
    InputEvent,
>; 2])
    ensures
        (r[0], r[1]) == knob_events(
            kind,
            (
                rotary::direction_of(old(knob).phase(), rotary::sample_of(a_low, b_low)),
                rotary::click_of(old(knob).is_released(), c_high),
            ),
        ),
        final(knob).phase() == rotary::sample_of(a_low, b_low),
        final(knob).is_released() == c_high,
{
    let (dir, click) = knob.update(a_low, b_low, c_high);
    let spin = match dir {
        Some(d) => Some(InputEvent::Spin(kind, d)),
        None => None,
    };
    let press = match click {
        Some(rotary::Click::Press) => Some(InputEvent::Press(kind)),
        Some(rotary::Click::Release) => Some(InputEvent::Release(kind)),
        None => None,
    };
    [spin, press]
}

} // verus!
