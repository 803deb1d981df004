//! Light effects and the cycle that switches between them.
use vstd::prelude::*;

pub mod cloud;
pub mod drops;
pub mod flame;
pub mod rainbow;
pub mod solid;
pub mod sparks;
pub mod storm;

pub use cloud::Cloud;
pub use drops::Drops;
pub use flame::Flame;
pub use rainbow::{Orientation, Rainbow};
pub use solid::Solid;
pub use sparks::Sparks;
pub use storm::Storm;

use crate::color::Color;
use crate::fixed::{clamp_int, one, Fixed};
use crate::model::lantern::{index_to_spherical_spec, Lantern};
use crate::pixelindex::SIZE;
use crate::rotary::Direction;
use crate::{InputEvent, Knobs};

verus! {

/// The effect that is running, with its own state. The cycle runs Flame,
/// Rainbow, Solid, Storm and back to Flame.
pub enum EffectCycle {
    Flame(Flame),
    Rainbow(Rainbow),
    Solid(Solid),
    Storm(Storm),
}

impl EffectCycle {
    /// The running effect's state is consistent.
    pub open spec fn wf(self) -> bool {
        match self {
            EffectCycle::Flame(f) => f.wf(),
            EffectCycle::Storm(s) => s.wf(),
            _ => true,
        }
    }

    /// The running effect is in the state its `default` builds.
    pub open spec fn is_fresh(self) -> bool {
        match self {
            EffectCycle::Flame(f) => f.is_default(),
            EffectCycle::Rainbow(r) => r == Rainbow::default_spec(),
            EffectCycle::Solid(s) => s == Solid::default_spec(),
            EffectCycle::Storm(s) => s.is_default(),
        }
    }

    /// `b` is a freshly built effect of the kind after `a`'s in the cycle.
    pub open spec fn advanced(a: EffectCycle, b: EffectCycle) -> bool {
        &&& b.is_fresh()
        &&& b.wf()
        &&& match a {
            EffectCycle::Flame(_) => b is Rainbow,
            EffectCycle::Rainbow(_) => b is Solid,
            EffectCycle::Solid(_) => b is Storm,
            EffectCycle::Storm(_) => b is Flame,
        }
    }

    /// `b` is a freshly built effect of the kind before `a`'s in the cycle.
    pub open spec fn retreated(a: EffectCycle, b: EffectCycle) -> bool {
        &&& b.is_fresh()
        &&& b.wf()
        &&& match a {
            EffectCycle::Flame(_) => b is Storm,
            EffectCycle::Rainbow(_) => b is Flame,
            EffectCycle::Solid(_) => b is Rainbow,
            EffectCycle::Storm(_) => b is Solid,
        }
    }

    /// The cycle starts with a fresh fire.
    pub fn new() -> (r: EffectCycle)
        ensures
            r is Flame,
            r.is_fresh(),
            r.wf(),
    {
        EffectCycle::Flame(Flame::default())
    }

    /// Drops the running effect and starts the previous one in the cycle afresh.
    pub fn prev(&mut self)
        ensures
            EffectCycle::retreated(*old(self), *final(self)),
    {
        match self {
            EffectCycle::Flame(_) => *self = EffectCycle::Storm(Storm::default()),
            EffectCycle::Rainbow(_) => *self = EffectCycle::Flame(Flame::default()),
            EffectCycle::Solid(_) => *self = EffectCycle::Rainbow(Rainbow::default()),
            EffectCycle::Storm(_) => *self = EffectCycle::Solid(Solid::default()),
        }
    }

    /// Drops the running effect and starts the next one in the cycle afresh.
    pub fn next(&mut self)
        ensures
            EffectCycle::advanced(*old(self), *final(self)),
    {
        match self {
            EffectCycle::Flame(_) => *self = EffectCycle::Rainbow(Rainbow::default()),
            EffectCycle::Rainbow(_) => *self = EffectCycle::Solid(Solid::default()),
            EffectCycle::Solid(_) => *self = EffectCycle::Storm(Storm::default()),
            EffectCycle::Storm(_) => *self = EffectCycle::Flame(Flame::default()),
        }
    }

    /// Name of the running effect.
    pub open spec fn name_spec(self) -> &'static str {
        match self {
            EffectCycle::Flame(_) => "Flame",
            EffectCycle::Rainbow(_) => "Rainbow",
            EffectCycle::Solid(_) => "Solid",
            EffectCycle::Storm(_) => "Storm",
        }
    }

    /// Name of the running effect.
    pub fn name(&self) -> (r: &'static str)
        ensures
            r == self.name_spec(),
    {
        match self {
            EffectCycle::Flame(_) => "Flame",
            EffectCycle::Rainbow(_) => "Rainbow",
            EffectCycle::Solid(_) => "Solid",
            EffectCycle::Storm(_) => "Storm",
        }
    }

    /// The secondary control turned clockwise: the fire turns the ambient hue
    /// by two degrees, the rainbow speeds up, the storm raises the ambient
    /// lightness by ten.
    pub fn rotate_cw(&mut self, color: &mut Color)
        requires
            old(self).wf(),
        ensures
            final(self).wf(),
            match (*old(self), *final(self)) {
                (EffectCycle::Flame(a), EffectCycle::Flame(b)) => a == b && *final(color)
                    == old(color).shifted(2 * one()),
                (EffectCycle::Rainbow(a), EffectCycle::Rainbow(b)) => b.speed@ == crate::fixed::clamp_i32(
                    (a.speed@ * (11 * one() / 10)) / one(),
                ) && b.step == a.step && b.orient == a.orient && *final(color) == *old(color),
                (EffectCycle::Solid(a), EffectCycle::Solid(b)) => a == b && *final(color) == *old(
                    color,
                ),
                (EffectCycle::Storm(a), EffectCycle::Storm(b)) => a == b && *final(color) == old(
                    color,
                ).lightened(10 * one()),
                _ => false,
            },
    {
        match self {
            EffectCycle::Flame(f) => f.rotate_cw(color),
            EffectCycle::Rainbow(r) => r.rotate_cw(),
            EffectCycle::Solid(_) => {},
            EffectCycle::Storm(s) => s.rotate_cw(color),
        }
    }

    /// The secondary control turned counter-clockwise: the fire turns the
    /// ambient hue back by two degrees, the rainbow slows down, the storm
    /// lowers the ambient lightness by ten.
    pub fn rotate_ccw(&mut self, color: &mut Color)
        requires
            old(self).wf(),
        ensures
            final(self).wf(),
            match (*old(self), *final(self)) {
                (EffectCycle::Flame(a), EffectCycle::Flame(b)) => a == b && *final(color)
                    == old(color).shifted(-2 * one()),
                (EffectCycle::Rainbow(a), EffectCycle::Rainbow(b)) => b.speed@ == crate::fixed::clamp_i32(
                    (a.speed@ * (9 * one() / 10)) / one(),
                ) && b.step == a.step && b.orient == a.orient && *final(color) == *old(color),
                (EffectCycle::Solid(a), EffectCycle::Solid(b)) => a == b && *final(color) == *old(
                    color,
                ),
                (EffectCycle::Storm(a), EffectCycle::Storm(b)) => a == b && *final(color) == old(
                    color,
                ).darkened(10 * one()),
                _ => false,
            },
    {
        match self {
            EffectCycle::Flame(f) => f.rotate_ccw(color),
            EffectCycle::Rainbow(r) => r.rotate_ccw(),
            EffectCycle::Solid(_) => {},
            EffectCycle::Storm(s) => s.rotate_ccw(color),
        }
    }

    /// The secondary control pressed: the rainbow moves on to its next orientation.
    pub fn click(&mut self)
        requires
            old(self).wf(),
        ensures
            final(self).wf(),
            match (*old(self), *final(self)) {
                (EffectCycle::Rainbow(a), EffectCycle::Rainbow(b)) => b == (Rainbow {
                    orient: a.orient.next_spec(),
                    ..a
                }),
                (EffectCycle::Flame(a), EffectCycle::Flame(b)) => a == b,
                (EffectCycle::Solid(a), EffectCycle::Solid(b)) => a == b,
                (EffectCycle::Storm(a), EffectCycle::Storm(b)) => a == b,
                _ => false,
            },
    {
        match self {
            EffectCycle::Rainbow(r) => r.click(),
            _ => {},
        }
    }

    /// One frame of the running effect; the fire and the storm keep their
    /// colour alone, the rainbow and the solid colour turn the ambient hue by
    /// their speed.
    pub fn tick(&mut self, color: &mut Color)
        requires
            old(self).wf(),
        ensures
            final(self).wf(),
            match (*old(self), *final(self)) {
                (EffectCycle::Flame(a), EffectCycle::Flame(b)) => *final(color) == *old(color)
                    && a.ticked(b),
                (EffectCycle::Rainbow(a), EffectCycle::Rainbow(b)) => a == b && *final(color) == old(
                    color,
                ).shifted(a.speed@),
                (EffectCycle::Solid(a), EffectCycle::Solid(b)) => a == b && *final(color) == old(
                    color,
                ).shifted(a.speed@),
                (EffectCycle::Storm(a), EffectCycle::Storm(b)) => *final(color) == *old(color)
                    && a.ticked(b),
                _ => false,
            },
    {
        match self {
            EffectCycle::Flame(e) => e.tick(color),
            EffectCycle::Rainbow(e) => e.tick(color),
            EffectCycle::Solid(e) => e.tick(color),
            EffectCycle::Storm(e) => e.tick(color),
        }
    }

    /// Draws the running effect with ambient colour `color`.
    pub fn render(&self, color: Color, model: &mut Lantern)
        ensures
            final(model).color == old(model).color,
            match *self {
                EffectCycle::Flame(e) => forall|i: int|
                    0 <= i < SIZE ==> #[trigger] final(model).pixels[i] == flame::flame_pixel(
                        color,
                        e.heat()[i],
                        e.hue_shift(),
                    ),
                EffectCycle::Rainbow(e) => forall|i: int|
                    0 <= i < SIZE ==> #[trigger] final(model).pixels[i] == color.shifted(
                        rainbow::rainbow_offset(
                            e.orient,
                            e.step@,
                            index_to_spherical_spec(i).0,
                            index_to_spherical_spec(i).1,
                        ),
                    ),
                EffectCycle::Solid(_) => forall|i: int|
                    0 <= i < SIZE ==> #[trigger] final(model).pixels[i] == color,
                EffectCycle::Storm(e) => final(model).pixels@ == e.frame(old(model).pixels@),
            },
    {
        match self {
            EffectCycle::Flame(e) => e.render(color, model),
            EffectCycle::Rainbow(e) => e.render(color, model),
            EffectCycle::Solid(e) => e.render(color, model),
            EffectCycle::Storm(e) => e.render(color, model),
        }
    }
}

/// The effect cycle together with the shared ambient colour.
pub struct EffectManager {
    pub ec: EffectCycle,
    pub color: Color,
}

/// Step of lightness per detent of the first control, raw.
pub open spec fn lightness_step() -> int {
    2 * one()
}

/// Step of chroma per detent of the second control, raw.
pub open spec fn chroma_step() -> int {
    2 * one()
}

impl EffectManager {
    /// The running effect is consistent.
    pub open spec fn wf(self) -> bool {
        self.ec.wf()
    }

    /// A fresh fire over ambient colour (50, 100, 300).
    pub fn default() -> (r: EffectManager)
        ensures
            r.wf(),
            r.ec is Flame,
            r.ec.is_fresh(),
            r.color == Color::new_spec(
                Fixed((50 * one()) as i32),
                Fixed((100 * one()) as i32),
                Fixed((300 * one()) as i32),
            ),
    {
        let ec = EffectCycle::new();
        let color = Color::from_ints(50, 100, 300);
        EffectManager { ec, color }
    }

    /// One frame of the running effect, which may change the ambient colour.
    pub fn tick(&mut self)
        requires
            old(self).wf(),
        ensures
            final(self).wf(),
            match (old(self).ec, final(self).ec) {
                (EffectCycle::Rainbow(a), EffectCycle::Rainbow(b)) => a == b && final(self).color
                    == old(self).color.shifted(a.speed@),
                (EffectCycle::Solid(a), EffectCycle::Solid(b)) => a == b && final(self).color
                    == old(self).color.shifted(a.speed@),
                (EffectCycle::Flame(a), EffectCycle::Flame(b)) => final(self).color == old(self).color
                    && a.ticked(b),
                (EffectCycle::Storm(a), EffectCycle::Storm(b)) => final(self).color == old(self).color
                    && a.ticked(b),
                _ => false,
            },
    {
        let mut color = self.color;
        self.ec.tick(&mut color);
        self.color = color;
    }

    /// Draws the running effect with the ambient colour.
    pub fn render(&self, model: &mut Lantern)
        ensures
            final(model).color == old(model).color,
            match self.ec {
                EffectCycle::Flame(e) => forall|i: int|
                    0 <= i < SIZE ==> #[trigger] final(model).pixels[i] == flame::flame_pixel(
                        self.color,
                        e.heat()[i],
                        e.hue_shift(),
                    ),
                EffectCycle::Rainbow(e) => forall|i: int|
                    0 <= i < SIZE ==> #[trigger] final(model).pixels[i] == self.color.shifted(
                        rainbow::rainbow_offset(
                            e.orient,
                            e.step@,
                            index_to_spherical_spec(i).0,
                            index_to_spherical_spec(i).1,
                        ),
                    ),
                EffectCycle::Solid(_) => forall|i: int|
                    0 <= i < SIZE ==> #[trigger] final(model).pixels[i] == self.color,
                EffectCycle::Storm(e) => final(model).pixels@ == e.frame(old(model).pixels@),
            },
    {
        self.ec.render(self.color, model)
    }

    /// Applies one input event. The first control's press moves on to the next
    /// effect and its turns change the lightness by two per detent; the second
    /// control's turns change the chroma by two per detent; the ambient colour
    /// is then clamped. The third control's turns and press go to the running
    /// effect. Every other event is ignored.
    pub fn handle_event(&mut self, event: InputEvent)
        requires
            old(self).wf(),
        ensures
            final(self).wf(),
            match event {
                InputEvent::Press(Knobs::Knob1) => EffectCycle::advanced(old(self).ec, final(self).ec)
                    && final(self).color == old(self).color,
                InputEvent::Spin(Knobs::Knob1, dir) => final(self).ec == old(self).ec
                    && final(self).color == old(self).color.lightened(
                    crate::fixed::clamp_i32(dir.sign_spec() * lightness_step()),
                ).clamp_spec(),
                InputEvent::Spin(Knobs::Knob2, dir) => final(self).ec == old(self).ec
                    && final(self).color == old(self).color.saturated(
                    crate::fixed::clamp_i32(dir.sign_spec() * chroma_step()),
                ).clamp_spec(),
                InputEvent::Spin(Knobs::Knob3, Direction::Clockwise) => match (
                    old(self).ec,
                    final(self).ec,
                ) {
                    (EffectCycle::Flame(a), EffectCycle::Flame(b)) => a == b && final(self).color
                        == old(self).color.shifted(2 * one()),
                    (EffectCycle::Rainbow(a), EffectCycle::Rainbow(b)) => b.speed@
                        == crate::fixed::clamp_i32((a.speed@ * (11 * one() / 10)) / one()) && b.step
                        == a.step && b.orient == a.orient && final(self).color == old(self).color,
                    (EffectCycle::Solid(a), EffectCycle::Solid(b)) => a == b && final(self).color
                        == old(self).color,
                    (EffectCycle::Storm(a), EffectCycle::Storm(b)) => a == b && final(self).color
                        == old(self).color.lightened(10 * one()),
                    _ => false,
                },
                InputEvent::Spin(Knobs::Knob3, Direction::CounterClockwise) => match (
                    old(self).ec,
                    final(self).ec,
                ) {
                    (EffectCycle::Flame(a), EffectCycle::Flame(b)) => a == b && final(self).color
                        == old(self).color.shifted(-2 * one()),
                    (EffectCycle::Rainbow(a), EffectCycle::Rainbow(b)) => b.speed@
                        == crate::fixed::clamp_i32((a.speed@ * (9 * one() / 10)) / one()) && b.step
                        == a.step && b.orient == a.orient && final(self).color == old(self).color,
                    (EffectCycle::Solid(a), EffectCycle::Solid(b)) => a == b && final(self).color
                        == old(self).color,
                    (EffectCycle::Storm(a), EffectCycle::Storm(b)) => a == b && final(self).color
                        == old(self).color.darkened(10 * one()),
                    _ => false,
                },
                InputEvent::Press(Knobs::Knob3) => final(self).color == old(self).color && match (
                    old(self).ec,
                    final(self).ec,
                ) {
                    (EffectCycle::Rainbow(a), EffectCycle::Rainbow(b)) => b == (Rainbow {
                        orient: a.orient.next_spec(),
                        ..a
                    }),
                    (EffectCycle::Flame(a), EffectCycle::Flame(b)) => a == b,
                    (EffectCycle::Solid(a), EffectCycle::Solid(b)) => a == b,
                    (EffectCycle::Storm(a), EffectCycle::Storm(b)) => a == b,
                    _ => false,
                },
                _ => final(self).ec == old(self).ec && final(self).color == old(self).color,
            },
    {
        match event {
            InputEvent::Press(Knobs::Knob1) => {
                self.ec.next();
            },
            InputEvent::Spin(Knobs::Knob1, dir) => {
                self.color = self.color.lighten(dir.scale(Fixed::from_int(2))).clamp();
            },
            InputEvent::Spin(Knobs::Knob2, dir) => {
                self.color = self.color.saturate(dir.scale(Fixed::from_int(2))).clamp();
            },
            InputEvent::Spin(Knobs::Knob3, Direction::Clockwise) => {
                let mut color = self.color;
                self.ec.rotate_cw(&mut color);
                self.color = color;
            },
            InputEvent::Spin(Knobs::Knob3, Direction::CounterClockwise) => {
                let mut color = self.color;
                self.ec.rotate_ccw(&mut color);
                self.color = color;
            },
            InputEvent::Press(Knobs::Knob3) => {
                self.ec.click();
            },
            _ => {},
        }
    }
}

/// Advancing from a running fire starts a fresh rainbow: the same rates and
/// orientation that [`Rainbow::default`] gives.
pub proof fn lemma_flame_advances_to_rainbow(a: EffectCycle, b: EffectCycle)
    requires
        a is Flame,
        EffectCycle::advanced(a, b),
    ensures
        b == EffectCycle::Rainbow(Rainbow::default_spec()),
{
}

} // verus!
