//! Quadrature rotary-encoder decoder with a push button.
//!
//! The decoder reads no pins itself: it is handed the pin levels on every
//! edge and turns the transition into rotation and click events.
use vstd::prelude::*;

use crate::fixed::{clamp_i32, Fixed};

verus! {

/// Direction of one rotation step.
#[derive(Clone, Copy, Debug, PartialEq, Eq, Structural)]
pub enum Direction {
    Clockwise,
    CounterClockwise,
}

/// Change of the button's state.
#[derive(Clone, Copy, Debug, PartialEq, Eq, Structural)]
pub enum Click {
    Press,
    Release,
}

/// The 2-bit phase sample: bit 0 set when phase pin A is low, bit 1 when phase pin B is low.
pub open spec fn sample_of(a_low: bool, b_low: bool) -> int {
    (if a_low { 1int } else { 0 }) + (if b_low { 2int } else { 0 })
}

/// The rotation that a move from phase sample `old` to `new` stands for, by the
/// 4-bit code `old + 4 new`. One detent is a full cycle of four phase steps,
/// and one step of it counts: code 1 (from A low alone back to rest) is
/// clockwise, and the same step taken backwards, code 4 (from rest to A low
/// alone), is counter-clockwise; every other code (the other steps of a
/// cycle, no change, a skipped phase) is no event.
pub open spec fn direction_of(old: int, new: int) -> Option<Direction> {
    let code = old + 4 * new;
    if code == 1 {
        Some(Direction::Clockwise)
    } else if code == 4 {
        Some(Direction::CounterClockwise)
    } else {
        None
    }
}

/// The click that a button level brings, given whether the button was released
/// (the pin is active low: high means released).
pub open spec fn click_of(released: bool, high: bool) -> Option<Click> {
    if released && !high {
        Some(Click::Press)
    } else if !released && high {
        Some(Click::Release)
    } else {
        None
    }
}

impl Direction {
    /// `1` for clockwise, `-1` for counter-clockwise.
    pub open spec fn sign_spec(self) -> int {
        match self {
            Direction::Clockwise => 1,
            Direction::CounterClockwise => -1,
        }
    }

    /// `1` for clockwise, `-1` for counter-clockwise.
    pub fn sign(self) -> (r: i32)
        ensures
            r == self.sign_spec(),
    {
        match self {
            Direction::Clockwise => 1,
            Direction::CounterClockwise => -1,
        }
    }

    /// `x` for clockwise, `-x` (saturated) for counter-clockwise.
    pub fn scale(self, x: Fixed) -> (r: Fixed)
        ensures
            r@ == clamp_i32(self.sign_spec() * x@),
    {
        match self {
            Direction::Clockwise => x,
            Direction::CounterClockwise => x.neg(),
        }
    }
}

/// Decoder state: the last phase sample and whether the button is released.
#[derive(Clone, Copy, Debug, PartialEq, Eq)]
pub struct Rotary {
    state: u8,
    released: bool,
}

impl Rotary {
    /// The last phase sample, in `[0, 4)`.
    pub closed spec fn phase(self) -> int {
        self.state as int % 4
    }

    /// The stored phase sample is one of the four two-bit values.
    pub proof fn lemma_phase_range(self)
        ensures
            0 <= self.phase() < 4,
    {
    }

    /// Whether the button was last seen released.
    pub closed spec fn is_released(self) -> bool {
        self.released
    }

    /// A decoder at phase sample zero with the button released.
    pub fn new() -> (r: Rotary)
        ensures
            r.phase() == 0,
            r.is_released(),
    {
        Rotary { state: 0, released: true }
    }

    /// Takes the pin levels of one edge and returns the rotation and click they
    /// bring. The new phase sample is kept whatever the outcome.
    pub fn update(&mut self, a_low: bool, b_low: bool, c_high: bool) -> (r: (
        Option<Direction>,
        Option<Click>,
    ))
        ensures
            r.0 == direction_of(old(self).phase(), sample_of(a_low, b_low)),
            r.1 == click_of(old(self).is_released(), c_high),
            final(self).phase() == sample_of(a_low, b_low),
            final(self).is_released() == c_high,
    {
        let dir = self.update_dir(a_low, b_low);
        let click = self.update_click(c_high);
        (dir, click)
    }

    fn update_dir(&mut self, a_low: bool, b_low: bool) -> (r: Option<Direction>)
        ensures
            r == direction_of(old(self).phase(), sample_of(a_low, b_low)),
            final(self).phase() == sample_of(a_low, b_low),
            final(self).is_released() == old(self).is_released(),
    {
        let mut s: u8 = self.state % 4;
        if a_low {
            s = s + 4;
        }
        if b_low {
            s = s + 8;
        }
        self.state = s / 4;
        match s {
            1 => Some(Direction::Clockwise),
            4 => Some(Direction::CounterClockwise),
            _ => None,
        }
    }

    fn update_click(&mut self, c_high: bool) -> (r: Option<Click>)
        ensures
            r == click_of(old(self).is_released(), c_high),
            final(self).is_released() == c_high,
            final(self).phase() == old(self).phase(),
    {
        if !self.released && c_high {
            self.released = true;
            Some(Click::Release)
        } else if self.released && !c_high {
            self.released = false;
            Some(Click::Press)
        } else {
            None
        }
    }
}

/// Quadrature decoding over a full cycle of phase pairs (pin A low, pin B
/// low), written `ab`: the cycle `00 -> 01 -> 11 -> 10 -> 00` brings exactly
/// one clockwise event, on its last step, and no counter-clockwise event; the
/// reverse cycle `00 -> 10 -> 11 -> 01 -> 00` brings exactly one
/// counter-clockwise event, on its first step (the clockwise step taken
/// backwards), and no clockwise event; a phase pair that stays put brings no event.
pub proof fn lemma_quadrature_cycle()
    ensures
        direction_of(sample_of(false, false), sample_of(false, true)) is None,
        direction_of(sample_of(false, true), sample_of(true, true)) is None,
        direction_of(sample_of(true, true), sample_of(true, false)) is None,
        direction_of(sample_of(true, false), sample_of(false, false)) == Some(Direction::Clockwise),
        direction_of(sample_of(false, false), sample_of(true, false)) == Some(Direction::CounterClockwise),
        direction_of(sample_of(true, false), sample_of(true, true)) is None,
        direction_of(sample_of(true, true), sample_of(false, true)) is None,
        direction_of(sample_of(false, true), sample_of(false, false)) is None,
        forall|a: bool, b: bool| direction_of(#[trigger] sample_of(a, b), sample_of(a, b)) is None,
{
}

/// A step read backwards gives the opposite direction: a move from `o` to `n`
/// is clockwise exactly when the move from `n` to `o` is counter-clockwise;
/// no step is both, and a double transition (both pins changing) is no event.
pub proof fn lemma_direction_reversal(o: int, n: int)
    requires
        0 <= o < 4,
        0 <= n < 4,
    ensures
        (direction_of(o, n) == Some(Direction::Clockwise)) == (direction_of(n, o) == Some(
            Direction::CounterClockwise,
        )),
        (o == 0 && n == 3) || (o == 3 && n == 0) || (o == 1 && n == 2) || (o == 2 && n == 1)
            ==> direction_of(o, n) is None,
{
}

} // verus!
