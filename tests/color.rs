use silmaril::color::FULL_TURN;
use silmaril::{lch_color, Color, Fixed};

fn c(l: i16, ch: i16, h: i16) -> Color {
    Color::from_ints(l, ch, h)
}

#[test]
fn hue_is_brought_into_a_turn() {
    assert_eq!(c(50, 100, -10).hue, Fixed::from_int(350));
    assert_eq!(c(50, 100, 725).hue, Fixed::from_int(5));
    assert_eq!(lch_color(Fixed(0), Fixed(0), Fixed::from_int(360)).hue, Fixed(0));
}

#[test]
fn shift_hue_wraps() {
    let x = c(50, 100, 300).shift_hue(Fixed::from_int(90));
    assert_eq!(x.hue, Fixed::from_int(30));
    assert_eq!(x.l, Fixed::from_int(50));
    assert_eq!(x.chroma, Fixed::from_int(100));
}

#[test]
fn shift_hue_round_trip() {
    let shifts = [0, 1, -1, 359, -721, 12345, -30000, i32::MAX, i32::MIN + 1];
    for &h in &[0i16, 1, 179, 180, 359] {
        for &d in &shifts {
            let col = c(40, 30, h);
            let d = Fixed(d);
            assert_eq!(col.shift_hue(d).shift_hue(d.neg()), col);
        }
    }
}

#[test]
fn shade_and_saturate() {
    let x = c(50, 40, 10);
    assert_eq!(x.lighten(Fixed::from_int(5)).l, Fixed::from_int(55));
    assert_eq!(x.darken(Fixed::from_int(5)).l, Fixed::from_int(45));
    assert_eq!(x.saturate(Fixed::from_int(5)).chroma, Fixed::from_int(45));
    assert_eq!(x.desaturate(Fixed::from_int(5)).chroma, Fixed::from_int(35));
    assert_eq!(x.darken(Fixed::from_int(5)).hue, x.hue);
}

#[test]
fn clamp_bounds_lightness_and_chroma() {
    let x = Color { l: Fixed::from_int(120), chroma: Fixed::from_int(-5), hue: Fixed(0) }.clamp();
    assert_eq!(x.l, Fixed::from_int(100));
    assert_eq!(x.chroma, Fixed(0));
    let y = Color { l: Fixed::from_int(-3), chroma: Fixed::from_int(200), hue: Fixed(0) }.clamp();
    assert_eq!(y.l, Fixed(0));
    assert_eq!(y.chroma, Fixed::from_int(200));
}

#[test]
fn mix_takes_the_short_way_round() {
    let a = c(0, 0, 350);
    let b = c(100, 50, 10);
    let m = a.mix(b, Fixed::from_ratio(1, 2));
    assert_eq!(m.l, Fixed::from_int(50));
    assert_eq!(m.chroma, Fixed::from_int(25));
    assert_eq!(m.hue, Fixed(0));
    let m = b.mix(a, Fixed::from_ratio(1, 4));
    assert_eq!(m.hue, Fixed::from_int(5));
}

#[test]
fn mix_weight_is_clamped() {
    let a = c(10, 10, 100);
    let b = c(90, 20, 200);
    assert_eq!(a.mix(b, Fixed::from_int(2)), b);
    assert_eq!(a.mix(b, Fixed::from_int(-2)), a);
}

#[test]
fn full_turn_constant() {
    assert_eq!(FULL_TURN, 360 * 65536);
    assert_eq!(Color::black().l, Fixed(0));
}
