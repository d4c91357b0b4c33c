use units::composite::Unit;
use units::length::metric::{Centimeter, Kilometer, Meter, Millimeter};
use units::scalar::Scalar;
use units::time::{Hour, Minute, Second};

fn frac(n: i64, d: i64) -> Scalar {
    Scalar::new(n, d)
}

fn whole(n: i64) -> Scalar {
    Scalar::from_int(n)
}

#[test]
fn round_trip_between_lengths() {
    let start = Meter(frac(22, 7));
    let km: Kilometer = start.into();
    let back: Meter = km.into();
    assert!(back.0 == start.0);
    let mm: Millimeter = start.into();
    let again: Meter = mm.into();
    assert!(again.0 == start.0);
    let cm: Centimeter = Kilometer(frac(-1, 3)).into();
    let km_again: Kilometer = cm.into();
    assert!(km_again.0 == frac(-1, 3));
}

#[test]
fn round_trip_between_times() {
    let start = Hour(frac(5, 12));
    let m: Minute = start.into();
    let back: Hour = m.into();
    assert!(back.0 == start.0);
    let s: Second = start.into();
    let again: Hour = s.into();
    assert!(again.0 == start.0);
}

#[test]
fn round_trip_fails_only_where_it_is_undefined() {
    let start = Kilometer(whole(i64::MAX));
    let mm: Millimeter = start.into();
    let back: Kilometer = mm.into();
    assert!(!back.0.defined());
}

#[test]
fn conversion_by_way_of_a_third_unit() {
    let start = Kilometer(frac(3, 8));
    let direct: Millimeter = start.into();
    let m: Meter = start.into();
    let via_m: Millimeter = m.into();
    let cm: Centimeter = start.into();
    let via_cm: Millimeter = cm.into();
    assert!(direct.0 == frac(375000, 1));
    assert!(via_m.0 == direct.0);
    assert!(via_cm.0 == direct.0);
    let h = Hour(frac(1, 8));
    let direct_s: Second = h.into();
    let min: Minute = h.into();
    let via_min: Second = min.into();
    assert!(direct_s.0 == whole(450));
    assert!(via_min.0 == direct_s.0);
}

#[test]
fn product_of_products_in_every_shape() {
    let a = Meter(frac(2, 3));
    let b = Second(whole(5));
    let c = Kilometer(frac(7, 2));
    let d = Hour(whole(3));
    let all = a.0 * b.0 * c.0 * d.0;
    assert!(all == whole(35));
    assert!(((a * b) * (c * d)).inner() == all);
    assert!(((b * a) * (d * c)).inner() == all);
    let a_per_b = a.0 / b.0;
    let c_per_d = c.0 / d.0;
    assert!(((a / b) * (c * d)).inner() == a_per_b * (c.0 * d.0));
    assert!(((a * b) * (c / d)).inner() == (a.0 * b.0) * c_per_d);
    assert!(((a / b) * (c / d)).inner() == a_per_b * c_per_d);
}

#[test]
fn composite_sum_of_one_shape() {
    let a = units::composite::Mul::<Meter, Second>::new(whole(5));
    let b = units::composite::Mul::<Meter, Second>::new(whole(3));
    assert!((a + b).inner() == whole(8));
}

#[test]
fn kilometers_times_hours() {
    let product = Kilometer(whole(2)) * Hour(whole(3));
    assert!(product.inner() == whole(6));
    let mut out = String::new();
    <units::composite::Mul<Kilometer, Hour> as units::composite::UnitName>::write_unit_static(
        &mut out,
    );
    assert_eq!(out, "km*h");
}

#[test]
fn meters_into_centimeters() {
    let cm: Centimeter = Meter(whole(100)).into();
    assert!(cm.inner() == whole(10000));
}

#[test]
fn scalar_scaling_of_meters() {
    assert!((Meter(whole(5)) * whole(2)).inner() == whole(10));
    assert!((Meter(whole(10)) / 2).inner() == whole(5));
}

#[test]
fn a_rate_times_its_duration() {
    let rate = Meter(frac(7, 2)) / Second(whole(1));
    let t = Second(frac(4, 7));
    let distance: Meter = rate.multiply(t);
    assert!(distance.inner() == rate.inner() * t.inner());
    assert!(distance.inner() == whole(2));
}

#[test]
fn sums_and_products_commute() {
    let a = frac(3, 7);
    let b = frac(-5, 11);
    assert!(a + b == b + a);
    assert!(a * b == b * a);
    assert!((Meter(a) * Second(b)).inner() == (Second(b) * Meter(a)).inner());
    let big = whole(i64::MAX);
    assert!(!(big * whole(2)).defined());
    assert!(!(whole(2) * big).defined());
}

#[test]
fn integers_compute_as_integers() {
    assert!(whole(12) + whole(30) == whole(42));
    assert!(whole(12) - whole(30) == whole(-18));
    assert!(whole(12) * whole(30) == whole(360));
    assert!(whole(12) / whole(30) == frac(2, 5));
}

#[test]
fn multiplying_by_the_denominator_recovers_the_numerator() {
    let distance = Meter(frac(22, 7));
    let time = Second(frac(3, 5));
    let rate = distance / time;
    let back: Meter = rate.multiply(time);
    assert!(back.0 == distance.0);
}

#[test]
fn dividing_by_a_factor_recovers_the_other() {
    let length = Meter(frac(22, 7));
    let time = Second(frac(3, 5));
    let product = length * time;
    let back: Meter = product.divide_right(time);
    assert!(back.0 == length.0);
    let other: Second = product.divide_left(length);
    assert!(other.0 == time.0);
}

#[test]
fn the_root_of_a_square_is_the_magnitude() {
    let side = Meter(frac(7, 3));
    let area = side * side;
    assert!(area.sqrt().0 == side.0);
    let negative = Meter(frac(-7, 3));
    let same_area = negative * negative;
    assert!(same_area.sqrt().0 == side.0);
}

#[test]
fn rates_on_two_routes_differ_by_zero() {
    let start = Kilometer(frac(3, 8));
    let m: Meter = start.into();
    let via: Millimeter = m.into();
    let direct: Millimeter = start.into();
    let x = units::composite::Div::<Millimeter, Second>(via, std::marker::PhantomData);
    let y = units::composite::Div::<Millimeter, Second>(direct, std::marker::PhantomData);
    assert!((x - y).inner() == whole(0));
}

#[test]
fn the_text_of_an_integer_scalar_is_its_decimal() {
    let mut out = String::new();
    units::text::write_scalar(&mut out, whole(-120));
    assert_eq!(out, "-120");
    let mut direct = String::new();
    units::text::write_decimal(&mut direct, -120);
    assert_eq!(out, direct);
}
