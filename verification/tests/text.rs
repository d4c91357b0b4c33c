use units::scalar::Scalar;
use units::text::{write_decimal, write_digits, write_fraction, write_quantity, write_scalar};

fn decimal(n: i64) -> String {
    let mut out = String::new();
    write_decimal(&mut out, n);
    out
}

fn shown(s: Scalar) -> String {
    let mut out = String::new();
    write_scalar(&mut out, s);
    out
}

#[test]
fn digits_of_naturals() {
    let mut out = String::new();
    write_digits(&mut out, 0);
    assert_eq!(out, "0");
    write_digits(&mut out, 1905);
    assert_eq!(out, "01905");
    let mut big = String::new();
    write_digits(&mut big, u64::MAX);
    assert_eq!(big, "18446744073709551615");
}

#[test]
fn decimal_of_integers() {
    assert_eq!(decimal(0), "0");
    assert_eq!(decimal(7), "7");
    assert_eq!(decimal(10), "10");
    assert_eq!(decimal(-42), "-42");
    assert_eq!(decimal(i64::MAX), "9223372036854775807");
    assert_eq!(decimal(i64::MIN), "-9223372036854775808");
}

#[test]
fn decimal_appends() {
    let mut out = String::from("x = ");
    write_decimal(&mut out, -5);
    assert_eq!(out, "x = -5");
}

#[test]
fn text_of_scalars() {
    assert_eq!(shown(Scalar::from_int(6)), "6");
    assert_eq!(shown(Scalar::from_int(-6)), "-6");
    assert_eq!(shown(Scalar::new(3, 2)), "1.5");
    assert_eq!(shown(Scalar::new(-3, 6)), "-0.5");
    assert_eq!(shown(Scalar::nan()), "NaN");
    assert_eq!(shown(Scalar::inf(false)), "inf");
    assert_eq!(shown(Scalar::inf(true)), "-inf");
    assert_eq!(shown(Scalar::from_int(-2) / Scalar::from_int(0)), "-inf");
}

#[test]
fn quantity_takes_the_singular_for_exactly_one() {
    let mut out = String::new();
    write_quantity(&mut out, Scalar::from_int(1), "day", "days");
    assert_eq!(out, "1day");
    let mut reduced = String::new();
    write_quantity(&mut reduced, Scalar::new(3, 3), "day", "days");
    assert_eq!(reduced, "1day");
}

#[test]
fn quantity_takes_the_plural_otherwise() {
    let mut out = String::new();
    write_quantity(&mut out, Scalar::from_int(2), "day", "days");
    assert_eq!(out, "2days");
    let mut zero = String::new();
    write_quantity(&mut zero, Scalar::from_int(0), "day", "days");
    assert_eq!(zero, "0days");
    let mut half = String::new();
    write_quantity(&mut half, Scalar::new(1, 2), "day", "days");
    assert_eq!(half, "0.5days");
    let mut none = String::new();
    write_quantity(&mut none, Scalar::nan(), "day", "days");
    assert_eq!(none, "NaNdays");
    let mut minus = String::new();
    write_quantity(&mut minus, Scalar::from_int(-1), "day", "days");
    assert_eq!(minus, "-1days");
}

#[test]
fn a_fraction_that_ends_is_written_as_a_decimal() {
    assert_eq!(shown(Scalar::new(19, 2)), "9.5");
    assert_eq!(shown(Scalar::new(1, 8)), "0.125");
    assert_eq!(shown(Scalar::new(-1, 8)), "-0.125");
    assert_eq!(shown(Scalar::new(1, 10)), "0.1");
    assert_eq!(shown(Scalar::new(1, 20)), "0.05");
    assert_eq!(shown(Scalar::new(12345, 1000)), "12.345");
    assert_eq!(shown(Scalar::new(1, 1000000)), "0.000001");
    assert_eq!(shown(Scalar::new(0, 5)), "0");
    assert_eq!(shown(Scalar::new(-7, 1)), "-7");
}

#[test]
fn a_fraction_that_does_not_end_is_written_as_a_fraction() {
    assert_eq!(shown(Scalar::new(1, 3)), "1/3");
    assert_eq!(shown(Scalar::new(-22, 7)), "-22/7");
    assert_eq!(shown(Scalar::new(5, 6)), "5/6");
    assert_eq!(shown(Scalar::new(1, i64::MAX)), "1/9223372036854775807");
}

#[test]
fn the_longest_decimals() {
    assert_eq!(
        shown(Scalar::new(1, 1 << 62)),
        "0.00000000000000000021684043449710088680149056017398834228515625"
    );
    assert_eq!(shown(Scalar::new(1, 7450580596923828125)), "0.000000000000000000134217728");
    assert_eq!(shown(Scalar::new(i64::MIN, 2)), "-4611686018427387904");
    assert_eq!(shown(Scalar::new(i64::MIN, 5)), "-1844674407370955161.6");
    assert_eq!(shown(Scalar::new(i64::MAX, 2)), "4611686018427387903.5");
}

#[test]
fn write_fraction_takes_terms_that_are_not_the_lowest() {
    let mut out = String::new();
    write_fraction(&mut out, 38, 4);
    assert_eq!(out, "9.5");
    let mut other = String::new();
    write_fraction(&mut other, 2, 6);
    assert_eq!(other, "2/6");
    let mut whole = String::from("=");
    write_fraction(&mut whole, -12, 4);
    assert_eq!(whole, "=-3");
}
