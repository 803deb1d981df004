use silmaril::fixed::ONE;
use silmaril::Fixed;

#[test]
fn saturating_arithmetic() {
    assert_eq!(Fixed(i32::MAX).saturating_add(Fixed(1)), Fixed(i32::MAX));
    assert_eq!(Fixed(i32::MIN).saturating_sub(Fixed(1)), Fixed(i32::MIN));
    assert_eq!(Fixed::from_int(300).saturating_mul(Fixed::from_int(300)), Fixed(i32::MAX));
    assert_eq!(Fixed(i32::MIN).neg(), Fixed(i32::MAX));
    assert_eq!(Fixed::from_int(7).saturating_mul_int(-3), Fixed::from_int(-21));
}

#[test]
fn wrapping_arithmetic() {
    assert_eq!(Fixed(i32::MAX).wrapping_add(Fixed(1)), Fixed(i32::MIN));
    assert_eq!(Fixed(i32::MIN).wrapping_sub(Fixed(1)), Fixed(i32::MAX));
    assert_eq!(Fixed::from_int(2).wrapping_add(Fixed::from_int(3)), Fixed::from_int(5));
    assert_eq!(Fixed::from_int(300).wrapping_mul(Fixed::from_int(300)), Fixed((90000i64 * 65536 % (1i64 << 32)) as i32));
}

#[test]
fn multiply_and_divide() {
    assert_eq!(Fixed::from_int(3).saturating_mul(Fixed::from_ratio(1, 2)).raw(), 98304);
    assert_eq!(Fixed::from_int(-3).saturating_mul(Fixed::from_ratio(1, 2)).raw(), -98304);
    assert_eq!(Fixed::from_int(3).saturating_div(Fixed::from_int(2)).raw(), 98304);
    assert_eq!(Fixed(-3).div_int(2).raw(), -2);
    assert_eq!(Fixed::from_ratio(1, 10).raw(), 6553);
    assert_eq!(Fixed::from_ratio(-1, 10).raw(), -6554);
}

#[test]
fn floor_and_fraction() {
    assert_eq!(Fixed(-1).floor(), -1);
    assert_eq!(Fixed(-1).fract().raw(), ONE - 1);
    assert_eq!(Fixed::from_ratio(5, 2).floor(), 2);
    assert_eq!(Fixed::from_ratio(5, 2).fract().raw(), ONE / 2);
    assert_eq!(Fixed::from_int(-2).fract().raw(), 0);
}

#[test]
fn bounds_and_blend() {
    assert_eq!(Fixed::from_int(5).clamp(Fixed(0), Fixed::one()), Fixed::one());
    assert_eq!(Fixed::from_int(-5).max(Fixed(0)), Fixed(0));
    assert_eq!(Fixed::from_int(-5).min(Fixed(0)), Fixed::from_int(-5));
    assert_eq!(Fixed(0).lerp(Fixed::from_int(10), Fixed::from_ratio(1, 2)), Fixed::from_int(5));
    assert_eq!(Fixed(0).lerp(Fixed::from_int(10), Fixed::from_int(3)), Fixed::from_int(10));
    assert_eq!(Fixed::from_int(10).lerp(Fixed(0), Fixed::from_int(-1)), Fixed::from_int(10));
}
