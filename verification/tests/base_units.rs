use std::cmp::Ordering;
use units::composite::{Unit, UnitName};
use units::dimension::ConvertInto;
use units::length::metric::{Centimeter, Kilometer, Meter, Meters, Millimeter};
use units::scalar::Scalar;
use units::time::{Hour, Minute, Second};

fn frac(n: i64, d: i64) -> Scalar {
    Scalar::new(n, d)
}

fn whole(n: i64) -> Scalar {
    Scalar::from_int(n)
}

#[test]
fn new_and_inner_keep_the_magnitude() {
    let m = Meter::new(frac(5, 2));
    assert!(m.inner() == frac(5, 2));
    assert!(m.0 == frac(5, 2));
    let h = Hour::new(whole(-3));
    assert!(h.inner() == whole(-3));
}

#[test]
fn new_takes_an_undefined_magnitude() {
    let m = Meter::new(Scalar::nan());
    assert!(!m.inner().defined());
}

#[test]
fn the_plural_alias_is_the_same_type() {
    let m: Meters = Meter(whole(1));
    assert!(m.inner() == whole(1));
}

#[test]
fn labels_of_base_units() {
    assert_eq!(Meter::get_unit_static(), "m");
    assert_eq!(Kilometer::get_unit_static(), "km");
    assert_eq!(Centimeter::get_unit_static(), "cm");
    assert_eq!(Millimeter::get_unit_static(), "mm");
    assert_eq!(Second::get_unit_static(), "s");
    assert_eq!(Minute::get_unit_static(), "min");
    assert_eq!(Hour::get_unit_static(), "h");
    assert_eq!(Meter(whole(3)).get_unit(), "m");
    assert_eq!(Hour(whole(3)).get_unit(), "h");
}

#[test]
fn write_unit_static_appends_the_label() {
    let mut out = String::from("[");
    Kilometer::write_unit_static(&mut out);
    Second::write_unit_static(&mut out);
    assert_eq!(out, "[kms");
}

#[test]
fn fmt_of_a_base_unit() {
    let mut out = String::new();
    Meter(whole(5)).fmt(&mut out);
    assert_eq!(out, "5m");
    let mut part = String::new();
    Kilometer(frac(-3, 4)).fmt(&mut part);
    assert_eq!(part, "-0.75km");
    let mut none = String::new();
    Second(Scalar::nan()).fmt(&mut none);
    assert_eq!(none, "NaNs");
}

#[test]
fn fmt_of_minutes_is_singular_for_one_only() {
    let mut one = String::new();
    Minute(whole(1)).fmt(&mut one);
    assert_eq!(one, "1min");
    let mut two = String::new();
    Minute(whole(2)).fmt(&mut two);
    assert_eq!(two, "2mins");
    let mut half = String::new();
    Minute(frac(1, 2)).fmt(&mut half);
    assert_eq!(half, "0.5mins");
}

#[test]
fn every_length_edge() {
    let km: Meter = Kilometer(whole(2)).into();
    assert!(km.0 == whole(2000));
    let m: Kilometer = Meter(whole(500)).into();
    assert!(m.0 == frac(1, 2));
    let cm: Centimeter = Meter(whole(100)).into();
    assert!(cm.0 == whole(10000));
    let back: Meter = Centimeter(whole(250)).into();
    assert!(back.0 == frac(5, 2));
    let mm: Millimeter = Meter(whole(3)).into();
    assert!(mm.0 == whole(3000));
    let from_mm: Meter = Millimeter(whole(1)).into();
    assert!(from_mm.0 == frac(1, 1000));
    let cm_km: Kilometer = Centimeter(whole(100000)).into();
    assert!(cm_km.0 == whole(1));
    let mm_km: Kilometer = Millimeter(whole(500000)).into();
    assert!(mm_km.0 == frac(1, 2));
    let km_cm: Centimeter = Kilometer(whole(1)).into();
    assert!(km_cm.0 == whole(100000));
    let mm_cm: Centimeter = Millimeter(whole(5)).into();
    assert!(mm_cm.0 == frac(1, 2));
    let km_mm: Millimeter = Kilometer(whole(1)).into();
    assert!(km_mm.0 == whole(1000000));
    let cm_mm: Millimeter = Centimeter(whole(7)).into();
    assert!(cm_mm.0 == whole(70));
}

#[test]
fn every_time_edge() {
    let s: Second = Minute(whole(2)).into();
    assert!(s.0 == whole(120));
    let min: Minute = Second(whole(90)).into();
    assert!(min.0 == frac(3, 2));
    let hs: Second = Hour(whole(2)).into();
    assert!(hs.0 == whole(7200));
    let sh: Hour = Second(whole(900)).into();
    assert!(sh.0 == frac(1, 4));
    let hm: Minute = Hour(frac(3, 2)).into();
    assert!(hm.0 == whole(90));
    let mh: Hour = Minute(whole(45)).into();
    assert!(mh.0 == frac(3, 4));
}

#[test]
fn conversion_from_a_reference() {
    let cm = Centimeter(whole(100000));
    let km = Kilometer::from(&cm);
    assert!(km.0 == whole(1));
    let mm = Millimeter::from(&Kilometer(whole(2)));
    assert!(mm.0 == whole(2000000));
    let c = Centimeter::from(&Millimeter(whole(25)));
    assert!(c.0 == frac(5, 2));
}

#[test]
fn convert_is_the_conversion() {
    let m: Meter = Kilometer(whole(3)).convert();
    assert!(m.0 == whole(3000));
    let same: Meter = Meter(whole(3)).convert();
    assert!(same.0 == whole(3));
    let h: Hour = Minute(whole(30)).convert();
    assert!(h.0 == frac(1, 2));
}

#[test]
fn a_conversion_out_of_range_is_undefined() {
    let mm: Millimeter = Kilometer(whole(i64::MAX)).into();
    assert!(!mm.0.defined());
    let km: Kilometer = Millimeter(frac(1, i64::MAX)).into();
    assert!(!km.0.defined());
}

#[test]
fn a_conversion_through_the_hub_needs_the_hub_in_range() {
    let h = Hour(frac(i64::MAX, 60));
    let m: Minute = h.into();
    assert!(!m.0.defined());
    let small = Hour(frac(7, 60));
    let seven: Minute = small.into();
    assert!(seven.0 == whole(7));
}

#[test]
fn addition_converts_and_the_left_unit_wins() {
    let a = Meter(whole(1)) + Kilometer(whole(1));
    assert!(a.0 == whole(1001));
    let b = Kilometer(whole(1)) + Meter(whole(1));
    assert!(b.0 == frac(1001, 1000));
    let c = Meter(whole(5)) + Meter(whole(3));
    assert!(c.0 == whole(8));
    let d = Second(whole(30)) + Minute(whole(1)) + Hour(whole(1));
    assert!(d.0 == whole(3690));
}

#[test]
fn subtraction_converts_and_the_left_unit_wins() {
    let a = Meter(whole(1)) - Centimeter(whole(1));
    assert!(a.0 == frac(99, 100));
    let b = Centimeter(whole(1)) - Meter(whole(1));
    assert!(b.0 == whole(-99));
    let c = Hour(whole(1)) - Minute(whole(15));
    assert!(c.0 == frac(3, 4));
}

#[test]
fn addition_and_subtraction_in_place() {
    let mut m = Meter(whole(1));
    m += Kilometer(whole(2));
    assert!(m.0 == whole(2001));
    m -= Centimeter(whole(100));
    assert!(m.0 == whole(2000));
    m += Meter(whole(1));
    assert!(m.0 == whole(2001));
    let mut t = Minute(whole(1));
    t += Second(whole(30));
    assert!(t.0 == frac(3, 2));
    t -= Hour(whole(1));
    assert!(t.0 == frac(-117, 2));
}

#[test]
fn ratio_of_two_quantities_of_a_dimension() {
    let r: Scalar = Kilometer(whole(1)).ratio(Meter(whole(250)));
    assert!(r == whole(4));
    let s: Scalar = Meter(whole(250)).ratio(Kilometer(whole(1)));
    assert!(s == frac(1, 4));
    let same: Scalar = Second(whole(6)).ratio(Second(whole(4)));
    assert!(same == frac(3, 2));
    let none: Scalar = Meter(whole(1)).ratio(Meter(whole(0)));
    assert!(none == Scalar::inf(false));
}

#[test]
fn scaling_by_a_scalar() {
    assert!((Meter(whole(5)) * whole(2)).0 == whole(10));
    assert!((whole(2) * Meter(whole(5))).0 == whole(10));
    assert!((Meter(whole(5)) * frac(1, 2)).0 == frac(5, 2));
    assert!((Meter(whole(10)) / whole(4)).0 == frac(5, 2));
    assert!((Meter(whole(10)) / whole(0)).0 == Scalar::inf(false));
}

#[test]
fn scaling_by_an_integer() {
    assert!((Meter(whole(5)) * 2).0 == whole(10));
    assert!((2 * Meter(whole(5))).0 == whole(10));
    assert!((Meter(whole(10)) / 2).0 == whole(5));
    assert!((Hour(frac(1, 3)) * -3).0 == whole(-1));
    assert!((Hour(whole(1)) / 0).0 == Scalar::inf(false));
    assert!((Hour(whole(-1)) / 0).0 == Scalar::inf(true));
}

#[test]
fn scaling_in_place() {
    let mut m = Meter(whole(3));
    m *= whole(4);
    assert!(m.0 == whole(12));
    m *= 2;
    assert!(m.0 == whole(24));
    m /= whole(5);
    assert!(m.0 == frac(24, 5));
    m /= 3;
    assert!(m.0 == frac(8, 5));
    let mut s = Second(whole(1));
    s /= 0;
    assert!(s.0 == Scalar::inf(false));
}

#[test]
fn equality_converts_the_right_operand() {
    assert!(Meter(whole(1000)) == Kilometer(whole(1)));
    assert!(Kilometer(whole(1)) == Meter(whole(1000)));
    assert!(Meter(whole(1)) == Meter(whole(1)));
    assert!(Meter(whole(1)) != Kilometer(whole(1)));
    assert!(Minute(whole(90)) == Hour(frac(3, 2)));
    assert!(Millimeter(whole(10)) == Centimeter(whole(1)));
}

#[test]
fn an_undefined_quantity_equals_nothing() {
    let u = Meter(Scalar::nan());
    assert!(!(u == u));
    assert!(!(u == Meter(whole(0))));
    assert!(!(Kilometer(whole(0)) == u));
}

#[test]
fn order_converts_the_right_operand() {
    assert!(Meter(whole(999)) < Kilometer(whole(1)));
    assert!(Kilometer(whole(1)) > Meter(whole(999)));
    assert!(Centimeter(whole(100)) <= Meter(whole(1)));
    assert!(Hour(whole(1)) >= Minute(whole(60)));
    assert_eq!(Meter(whole(1)).partial_cmp(&Millimeter(whole(1))), Some(Ordering::Greater));
    assert_eq!(Second(whole(60)).partial_cmp(&Minute(whole(1))), Some(Ordering::Equal));
    assert_eq!(Second(whole(59)).partial_cmp(&Minute(whole(1))), Some(Ordering::Less));
}

#[test]
fn an_undefined_quantity_has_no_order() {
    let u = Second(Scalar::nan());
    assert_eq!(u.partial_cmp(&Second(whole(1))), None);
    assert_eq!(Second(whole(1)).partial_cmp(&u), None);
    assert_eq!(Hour(whole(i64::MAX)).partial_cmp(&Second(whole(0))), Some(Ordering::Greater));
    assert_eq!(Second(whole(0)).partial_cmp(&Hour(whole(i64::MAX))), None);
}

#[test]
fn fmt_writes_a_fraction_that_does_not_end_as_a_fraction() {
    let mut third = String::new();
    Meter(frac(1, 3)).fmt(&mut third);
    assert_eq!(third, "1/3m");
    let mut sevenths = String::new();
    Second(frac(-22, 7)).fmt(&mut sevenths);
    assert_eq!(sevenths, "-22/7s");
}
