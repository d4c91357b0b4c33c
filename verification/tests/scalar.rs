use std::cmp::Ordering;
use units::gcd::{gcd_u128, isqrt};
use units::scalar::Scalar;

fn frac(n: i64, d: i64) -> Scalar {
    Scalar::new(n, d)
}

fn whole(n: i64) -> Scalar {
    Scalar::from_int(n)
}

#[test]
fn gcd_of_small_numbers() {
    assert_eq!(gcd_u128(12, 18), 6);
    assert_eq!(gcd_u128(18, 12), 6);
    assert_eq!(gcd_u128(17, 5), 1);
}

#[test]
fn gcd_with_zero() {
    assert_eq!(gcd_u128(0, 7), 7);
    assert_eq!(gcd_u128(7, 0), 7);
    assert_eq!(gcd_u128(0, 0), 0);
}

#[test]
fn gcd_of_large_numbers() {
    let a: u128 = 1 << 126;
    let b: u128 = 1 << 100;
    assert_eq!(gcd_u128(a, b), b);
    assert_eq!(gcd_u128(u128::MAX, u128::MAX), u128::MAX);
}

#[test]
fn integer_square_roots() {
    assert_eq!(isqrt(0), 0);
    assert_eq!(isqrt(1), 1);
    assert_eq!(isqrt(15), 3);
    assert_eq!(isqrt(16), 4);
    assert_eq!(isqrt(17), 4);
    assert_eq!(isqrt(u64::MAX), 4294967295);
    assert_eq!(isqrt(4294967295 * 4294967295), 4294967295);
}

#[test]
fn new_reduces_to_lowest_terms() {
    let s = frac(6, 4);
    assert_eq!(s.numer(), 3);
    assert_eq!(s.denom(), 2);
    assert!(s.defined());
}

#[test]
fn new_moves_the_sign_to_the_numerator() {
    let s = frac(3, -6);
    assert_eq!(s.numer(), -1);
    assert_eq!(s.denom(), 2);
    let t = frac(-3, -6);
    assert_eq!(t.numer(), 1);
    assert_eq!(t.denom(), 2);
}

#[test]
fn new_with_zero_numerator() {
    let s = frac(0, -5);
    assert_eq!(s.numer(), 0);
    assert_eq!(s.denom(), 1);
    assert!(s == whole(0));
}

#[test]
fn new_over_zero() {
    let s = frac(0, 0);
    assert!(!s.defined());
    assert!(!s.infinite());
    assert_eq!(s.numer(), 0);
    assert_eq!(s.denom(), 0);
    assert!(frac(5, 0) == Scalar::inf(false));
    assert!(frac(-5, 0) == Scalar::inf(true));
    assert!(frac(i64::MIN, 0) == whole(-1) / whole(0));
}

#[test]
fn new_at_the_edges_of_the_range() {
    let s = frac(i64::MIN, i64::MAX);
    assert_eq!(s.numer(), i64::MIN);
    assert_eq!(s.denom(), i64::MAX);
    let t = frac(i64::MIN, i64::MIN);
    assert!(t == whole(1));
    let u = frac(i64::MAX, i64::MIN);
    assert!(!u.defined());
    let v = frac(i64::MIN, -1);
    assert!(!v.defined());
    let w = frac(i64::MIN, 2);
    assert_eq!(w.numer(), i64::MIN / 2);
    assert_eq!(w.denom(), 1);
}

#[test]
fn from_int_holds_the_integer() {
    let s = whole(-7);
    assert_eq!(s.numer(), -7);
    assert_eq!(s.denom(), 1);
    let m = whole(i64::MIN);
    assert_eq!(m.numer(), i64::MIN);
    assert_eq!(m.denom(), 1);
}

#[test]
fn nan_is_undefined() {
    let s = Scalar::nan();
    assert!(!s.defined());
    assert_eq!(s.numer(), 0);
    assert_eq!(s.denom(), 0);
}

#[test]
fn sum_is_exact() {
    assert!(frac(1, 3) + frac(1, 6) == frac(1, 2));
    assert!(frac(1, 2) + frac(-1, 2) == whole(0));
    assert!(whole(5) + whole(3) == whole(8));
}

#[test]
fn difference_is_exact() {
    assert!(frac(1, 2) - frac(1, 3) == frac(1, 6));
    assert!(whole(3) - whole(5) == whole(-2));
}

#[test]
fn product_is_exact() {
    assert!(frac(2, 3) * frac(9, 4) == frac(3, 2));
    assert!(frac(-2, 3) * frac(3, 2) == whole(-1));
    assert!(whole(0) * frac(5, 7) == whole(0));
}

#[test]
fn quotient_is_exact() {
    assert!(frac(2, 3) / frac(4, 9) == frac(3, 2));
    assert!(whole(1) / whole(-3) == frac(-1, 3));
    assert!(whole(10) / whole(2) == whole(5));
}

#[test]
fn a_number_by_zero_is_the_infinity_of_its_sign() {
    assert!(whole(1) / whole(0) == Scalar::inf(false));
    assert!(frac(-3, 7) / whole(0) == Scalar::inf(true));
    assert!((whole(1) / whole(0)).infinite());
    assert!(!(whole(1) / whole(0)).defined());
    assert_eq!((whole(1) / whole(0)).numer(), 1);
    assert_eq!((whole(-1) / whole(0)).numer(), -1);
    assert_eq!((whole(1) / whole(0)).denom(), 0);
}

#[test]
fn zero_by_zero_is_undefined() {
    let u = whole(0) / whole(0);
    assert!(!u.defined());
    assert!(!u.infinite());
    assert_eq!(u.numer(), 0);
    assert_eq!(u.denom(), 0);
}

#[test]
fn infinities_are_carried_on() {
    let up = Scalar::inf(false);
    let down = Scalar::inf(true);
    assert!(up + whole(5) == up);
    assert!(whole(5) + down == down);
    assert!(up + up == up);
    assert!(!(up + down).defined() && !(up + down).infinite());
    assert!(up - whole(5) == up);
    assert!(whole(5) - up == down);
    assert!(up - down == up);
    assert!(!(up - up).defined() && !(up - up).infinite());
    assert!(up * whole(2) == up);
    assert!(up * frac(-1, 2) == down);
    assert!(down * down == up);
    assert!(!(up * whole(0)).defined() && !(up * whole(0)).infinite());
    assert!(!(whole(0) * down).defined() && !(whole(0) * down).infinite());
    assert!(whole(7) / up == whole(0));
    assert!(whole(-7) / down == whole(0));
    assert!(up / whole(2) == up);
    assert!(up / whole(-2) == down);
    assert!(up / whole(0) == up);
    assert!(down / whole(0) == down);
    assert!(!(up / down).defined() && !(up / down).infinite());
    assert!(up.sqrt() == up);
    assert!(!down.sqrt().defined() && !down.sqrt().infinite());
}

#[test]
fn infinities_stand_at_the_ends_of_the_order() {
    let up = Scalar::inf(false);
    let down = Scalar::inf(true);
    assert!(up == up);
    assert!(down == down);
    assert!(up != down);
    assert!(down < whole(i64::MIN));
    assert!(whole(i64::MAX) < up);
    assert!(down < up);
    assert!(up > down);
    assert_eq!(up.partial_cmp(&up), Some(Ordering::Equal));
    assert_eq!(up.partial_cmp(&whole(0)), Some(Ordering::Greater));
    assert_eq!(down.partial_cmp(&whole(0)), Some(Ordering::Less));
    assert_eq!(up.partial_cmp(&Scalar::nan()), None);
    assert_eq!(Scalar::nan().partial_cmp(&down), None);
}

#[test]
fn undefined_propagates() {
    let u = Scalar::nan();
    assert!(!(u + whole(1)).defined());
    assert!(!(whole(1) + u).defined());
    assert!(!(u - whole(1)).defined());
    assert!(!(whole(1) - u).defined());
    assert!(!(u * whole(0)).defined());
    assert!(!(whole(0) * u).defined());
    assert!(!(u / whole(1)).defined());
    assert!(!(whole(1) / u).defined());
    assert!(!u.sqrt().defined());
    assert!(!(u + whole(1)).infinite());
    assert!(!(u * Scalar::inf(false)).infinite());
    assert!(!(Scalar::inf(true) / u).infinite());
}

#[test]
fn a_result_out_of_range_is_undefined() {
    assert!(!(whole(i64::MAX) + whole(1)).defined());
    assert!(!(whole(i64::MIN) - whole(1)).defined());
    assert!(!(whole(i64::MAX) * whole(2)).defined());
    assert!(!(frac(1, i64::MAX) / whole(2)).defined());
    assert!(!(frac(1, i64::MAX) + frac(1, i64::MAX - 1)).defined());
}

#[test]
fn a_result_in_range_after_reduction_is_defined() {
    assert!(whole(i64::MAX) * frac(1, i64::MAX) == whole(1));
    assert!(frac(1, i64::MAX) + frac(1, i64::MAX) == frac(2, i64::MAX));
    assert!(whole(i64::MIN) + whole(i64::MAX) == whole(-1));
    assert!(whole(i64::MIN) / whole(i64::MIN) == whole(1));
    assert!(whole(i64::MIN) * frac(1, 2) == whole(i64::MIN / 2));
}

#[test]
fn undefined_equals_nothing() {
    let u = Scalar::nan();
    assert!(!(u == u));
    assert!(u != u);
    assert!(!(u == whole(0)));
    assert!(!(whole(0) == u));
}

#[test]
fn equality_is_of_the_numbers_held() {
    assert!(frac(2, 4) == frac(1, 2));
    assert!(frac(1, 2) != frac(1, 3));
    assert!(frac(-1, 2) == frac(1, -2));
}

#[test]
fn order_is_of_the_numbers_held() {
    assert_eq!(frac(1, 3).partial_cmp(&frac(1, 2)), Some(Ordering::Less));
    assert_eq!(frac(1, 2).partial_cmp(&frac(2, 4)), Some(Ordering::Equal));
    assert_eq!(frac(1, 2).partial_cmp(&frac(-3, 1)), Some(Ordering::Greater));
    assert!(frac(-1, 2) < frac(-1, 3));
    assert!(whole(i64::MIN) < whole(i64::MAX));
    assert!(frac(i64::MAX, i64::MAX - 1) > frac(i64::MAX - 1, i64::MAX));
}

#[test]
fn undefined_has_no_order() {
    let u = Scalar::nan();
    assert_eq!(u.partial_cmp(&whole(0)), None);
    assert_eq!(whole(0).partial_cmp(&u), None);
    assert_eq!(u.partial_cmp(&u), None);
    assert!(!(u < whole(0)));
    assert!(!(u >= whole(0)));
}

#[test]
fn square_root_of_a_square() {
    assert!(frac(9, 4).sqrt() == frac(3, 2));
    assert!(whole(0).sqrt() == whole(0));
    assert!(whole(1).sqrt() == whole(1));
    assert!(frac(18, 8).sqrt() == frac(3, 2));
    assert!(whole(3037000499 * 3037000499).sqrt() == whole(3037000499));
}

#[test]
fn square_root_of_no_square_is_rounded_down_to_the_grid() {
    assert!(whole(2).sqrt() == frac(3037000499, 2147483648));
    assert!(frac(1, 2).sqrt() == frac(1518500249, 2147483648));
    assert!(frac(4, 3).sqrt() == frac(619925131, 536870912));
    assert!(whole(i64::MAX).sqrt() == frac(6521908912666391105, 2147483648));
    assert!(frac(1, i64::MAX).sqrt() == whole(0));
    assert!(frac(1, 9).sqrt() == frac(1, 3));
}

#[test]
fn a_rounded_square_root_is_less_than_a_step_below() {
    let step = frac(1, 1 << 31);
    let two = whole(2);
    let r = two.sqrt();
    assert!(r.defined());
    assert!(r >= whole(0));
    assert!(r * r <= two);
    let next = r + step;
    assert!(two < next * next);
    let third = frac(1, 3);
    let s = third.sqrt();
    assert!(s * s <= third);
    assert!(third < (s + step) * (s + step));
}

#[test]
fn square_root_of_a_negative_is_undefined() {
    assert!(!whole(-4).sqrt().defined());
    assert!(!frac(-1, 4).sqrt().defined());
}

#[test]
fn from_bits_of_numbers_that_a_scalar_holds() {
    assert!(Scalar::from_bits(1.0f64.to_bits()) == whole(1));
    assert!(Scalar::from_bits(0.5f64.to_bits()) == frac(1, 2));
    assert!(Scalar::from_bits((-2.0f64).to_bits()) == whole(-2));
    assert!(Scalar::from_bits(9.5f64.to_bits()) == frac(19, 2));
    assert!(Scalar::from_bits(0.0f64.to_bits()) == whole(0));
    assert!(Scalar::from_bits((-0.0f64).to_bits()) == whole(0));
    assert!(Scalar::from_bits(0x3ff0_0000_0000_0000) == whole(1));
    assert!(Scalar::from_bits(0.1f64.to_bits()) == frac(3602879701896397, 36028797018963968));
    assert!(Scalar::from_bits(6.0f64.to_bits()) == whole(6));
    assert!(Scalar::from_bits(9007199254740991.0f64.to_bits()) == whole(9007199254740991));
}

#[test]
fn from_bits_at_the_edges_of_the_range() {
    assert!(Scalar::from_bits(4611686018427387904.0f64.to_bits()) == whole(1 << 62));
    assert!(!Scalar::from_bits(9223372036854775808.0f64.to_bits()).defined());
    assert!(Scalar::from_bits((-9223372036854775808.0f64).to_bits()) == whole(i64::MIN));
    assert!(!Scalar::from_bits((-18446744073709551616.0f64).to_bits()).defined());
    assert!(Scalar::from_bits(0x3c10_0000_0000_0000) == frac(1, 1 << 62));
    assert!(!Scalar::from_bits(0x3c00_0000_0000_0000).defined());
    assert!(!Scalar::from_bits(1).defined());
    assert!(!Scalar::from_bits(f64::MAX.to_bits()).defined());
    assert!(!Scalar::from_bits(f64::MIN_POSITIVE.to_bits()).defined());
    assert!(!Scalar::from_bits(f64::MAX.to_bits()).infinite());
}

#[test]
fn from_bits_of_what_is_no_number() {
    assert!(Scalar::from_bits(f64::INFINITY.to_bits()) == Scalar::inf(false));
    assert!(Scalar::from_bits(f64::NEG_INFINITY.to_bits()) == Scalar::inf(true));
    let nan = Scalar::from_bits(f64::NAN.to_bits());
    assert!(!nan.defined() && !nan.infinite());
    let other = Scalar::from_bits(0xfff0_0000_0000_0001);
    assert!(!other.defined() && !other.infinite());
}
