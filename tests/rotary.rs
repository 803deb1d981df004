use silmaril::{Click, Direction, Fixed, Rotary};

/// Feeds phase pairs written (a, b), with a level of `true` meaning the pin is low.
fn run(r: &mut Rotary, seq: &[(bool, bool)]) -> (usize, usize) {
    let mut cw = 0;
    let mut ccw = 0;
    for &(a, b) in seq {
        match r.update(a, b, true).0 {
            Some(Direction::Clockwise) => cw += 1,
            Some(Direction::CounterClockwise) => ccw += 1,
            None => {}
        }
    }
    (cw, ccw)
}

#[test]
fn clockwise_cycle() {
    let mut r = Rotary::new();
    // 00 -> 01 -> 11 -> 10 -> 00, starting from 00
    let seq = [(false, true), (true, true), (true, false), (false, false)];
    assert_eq!(run(&mut r, &seq), (1, 0));
    assert_eq!(run(&mut r, &seq), (1, 0));
}

#[test]
fn counter_clockwise_cycle() {
    let mut r = Rotary::new();
    let seq = [(true, false), (true, true), (false, true), (false, false)];
    assert_eq!(run(&mut r, &seq), (0, 1));
    assert_eq!(run(&mut r, &seq), (0, 1));
}

#[test]
fn clockwise_cycle_event_on_the_closing_step() {
    let mut r = Rotary::new();
    assert_eq!(r.update(false, true, true), (None, None));
    assert_eq!(r.update(true, true, true), (None, None));
    assert_eq!(r.update(true, false, true), (None, None));
    assert_eq!(r.update(false, false, true), (Some(Direction::Clockwise), None));
}

#[test]
fn counter_clockwise_cycle_event_on_the_opening_step() {
    let mut r = Rotary::new();
    assert_eq!(r.update(true, false, true), (Some(Direction::CounterClockwise), None));
    assert_eq!(r.update(true, true, true), (None, None));
    assert_eq!(r.update(false, true, true), (None, None));
    assert_eq!(r.update(false, false, true), (None, None));
}

#[test]
fn jitter_cancels_out() {
    let mut r = Rotary::new();
    let seq = [(true, false), (false, false), (true, false), (false, false)];
    assert_eq!(run(&mut r, &seq), (2, 2));
}

#[test]
fn stationary_gives_nothing() {
    let mut r = Rotary::new();
    assert_eq!(run(&mut r, &[(false, false), (false, false)]), (0, 0));
    run(&mut r, &[(true, true)]);
    assert_eq!(run(&mut r, &[(true, true), (true, true)]), (0, 0));
}

#[test]
fn skipped_phase_gives_nothing() {
    let mut r = Rotary::new();
    assert_eq!(r.update(true, true, true).0, None);
    assert_eq!(r.update(false, false, true).0, None);
}

#[test]
fn button_press_and_release() {
    let mut r = Rotary::new();
    assert_eq!(r.update(false, false, true).1, None);
    assert_eq!(r.update(false, false, false).1, Some(Click::Press));
    assert_eq!(r.update(false, false, false).1, None);
    assert_eq!(r.update(false, false, true).1, Some(Click::Release));
    assert_eq!(r.update(false, false, true).1, None);
}

#[test]
fn direction_sign_and_scale() {
    assert_eq!(Direction::Clockwise.sign(), 1);
    assert_eq!(Direction::CounterClockwise.sign(), -1);
    assert_eq!(Direction::CounterClockwise.scale(Fixed::from_int(2)), Fixed::from_int(-2));
    assert_eq!(Direction::Clockwise.scale(Fixed::from_int(2)), Fixed::from_int(2));
}
