use std::marker::PhantomData;
use units::composite::{Unit, UnitName};
use units::length::metric::{Centimeter, Kilometer, Meter, Millimeter};
use units::scalar::Scalar;
use units::time::{Hour, Minute, Second};

type Times<T, U> = units::composite::Mul<T, U>;

type Per<T, U> = units::composite::Div<T, U>;

fn frac(n: i64, d: i64) -> Scalar {
    Scalar::new(n, d)
}

fn whole(n: i64) -> Scalar {
    Scalar::from_int(n)
}

fn label<T: UnitName>() -> String {
    let mut out = String::new();
    T::write_unit_static(&mut out);
    out
}

#[test]
fn new_wraps_the_magnitude_of_the_whole() {
    let v = Per::<Meter, Second>::new(whole(3));
    assert!(v.inner() == whole(3));
    assert!(v.0.inner() == whole(3));
    let a = Times::<Meter, Meter>::new(frac(1, 2));
    assert!(a.inner() == frac(1, 2));
    let nested = Times::<Per<Meter, Second>, Hour>::new(whole(9));
    assert!(nested.inner() == whole(9));
    assert!(nested.0.0.0 == whole(9));
}

#[test]
fn a_composite_is_built_from_its_left_operand() {
    let v: Per<Meter, Second> = units::composite::Div(Meter(whole(4)), PhantomData);
    assert!(v.inner() == whole(4));
    let copy = v;
    assert!(copy.inner() == v.inner());
    let cloned = v.clone();
    assert!(cloned.inner() == whole(4));
}

#[test]
fn names_of_composites() {
    assert_eq!(Times::<Meter, Second>::get_unit_static(), "mul-composite unit");
    assert_eq!(Per::<Meter, Second>::get_unit_static(), "div-composite unit");
    assert_eq!(Times::<Meter, Second>::new(whole(1)).get_unit(), "mul-composite unit");
    assert_eq!(Per::<Meter, Second>::new(whole(1)).get_unit(), "div-composite unit");
}

#[test]
fn labels_of_composites() {
    assert_eq!(label::<Times<Kilometer, Hour>>(), "km*h");
    assert_eq!(label::<Per<Meter, Second>>(), "(m)/(s)");
    assert_eq!(label::<Per<Meter, Times<Second, Second>>>(), "(m)/(s*s)");
    assert_eq!(label::<Times<Per<Meter, Second>, Minute>>(), "(m)/(s)*min");
    assert_eq!(label::<Per<Per<Meter, Second>, Per<Centimeter, Hour>>>(), "((m)/(s))/((cm)/(h))");
}

#[test]
fn fmt_of_composites() {
    let mut product = String::new();
    (Kilometer(whole(2)) * Hour(whole(3))).fmt(&mut product);
    assert_eq!(product, "6 km*h");
    let mut rate = String::new();
    (Meter(whole(3)) / Second(whole(2))).fmt(&mut rate);
    assert_eq!(rate, "1.5 (m)/(s)");
    let mut none = String::from("v = ");
    (Meter(whole(3)) / Second(whole(0))).fmt(&mut none);
    assert_eq!(none, "v = inf (m)/(s)");
    let mut nothing = String::new();
    (Meter(whole(0)) / Second(whole(0))).fmt(&mut nothing);
    assert_eq!(nothing, "NaN (m)/(s)");
}

#[test]
fn base_units_of_two_dimensions_multiply_and_divide() {
    let a: Times<Meter, Second> = Meter(whole(2)) * Second(whole(3));
    assert!(a.inner() == whole(6));
    let b: Times<Second, Meter> = Second(whole(3)) * Meter(whole(2));
    assert!(b.inner() == whole(6));
    let c: Per<Meter, Second> = Meter(whole(2)) / Second(whole(3));
    assert!(c.inner() == frac(2, 3));
    let d: Per<Second, Meter> = Second(whole(3)) / Meter(whole(2));
    assert!(d.inner() == frac(3, 2));
    let e: Times<Millimeter, Minute> = Millimeter(whole(5)) * Minute(whole(5));
    assert!(e.inner() == whole(25));
    let f: Per<Hour, Centimeter> = Hour(whole(1)) / Centimeter(whole(4));
    assert!(f.inner() == frac(1, 4));
}

#[test]
fn a_base_unit_squares() {
    let area: Times<Meter, Meter> = Meter(whole(3)) * Meter(whole(4));
    assert!(area.inner() == whole(12));
    let t2: Times<Second, Second> = Second(frac(1, 2)) * Second(frac(1, 2));
    assert!(t2.inner() == frac(1, 4));
}

#[test]
fn products_of_composites_take_their_shapes() {
    let mm = Meter(whole(2)) * Second(whole(3));
    let kh = Kilometer(whole(5)) * Hour(whole(7));
    let ms = Meter(whole(2)) / Second(whole(3));
    let kph = Kilometer(whole(5)) / Hour(whole(7));
    let a: Times<Meter, Times<Second, Times<Kilometer, Hour>>> = mm * kh;
    assert!(a.inner() == whole(210));
    let b: Times<Meter, Times<Second, Per<Kilometer, Hour>>> = mm * kph;
    assert!(b.inner() == frac(30, 7));
    let c: Times<Meter, Times<Kilometer, Per<Hour, Second>>> = ms * kh;
    assert!(c.inner() == frac(70, 3));
    let d: Times<Meter, Per<Kilometer, Times<Second, Hour>>> = ms * kph;
    assert!(d.inner() == frac(10, 21));
}

#[test]
fn quotients_of_composites_take_their_shapes() {
    let mm = Meter(whole(2)) * Second(whole(3));
    let kh = Kilometer(whole(5)) * Hour(whole(7));
    let ms = Meter(whole(2)) / Second(whole(3));
    let kph = Kilometer(whole(5)) / Hour(whole(7));
    let a: Times<Meter, Per<Second, Times<Kilometer, Hour>>> = mm / kh;
    assert!(a.inner() == frac(6, 35));
    let b: Times<Meter, Times<Second, Per<Hour, Kilometer>>> = mm / kph;
    assert!(b.inner() == frac(42, 5));
    let c: Per<Meter, Times<Second, Times<Kilometer, Hour>>> = ms / kh;
    assert!(c.inner() == frac(2, 105));
    let d: Times<Meter, Per<Hour, Times<Kilometer, Second>>> = ms / kph;
    assert!(d.inner() == frac(14, 15));
}

#[test]
fn a_base_unit_and_a_composite_multiply() {
    let ms = Meter(whole(2)) * Second(whole(3));
    let v = Meter(whole(2)) / Second(whole(4));
    let a: Times<Hour, Times<Meter, Second>> = Hour(whole(5)) * ms;
    assert!(a.inner() == whole(30));
    let b: Times<Meter, Times<Hour, Second>> = ms * Hour(whole(5));
    assert!(b.inner() == whole(30));
    let c: Times<Hour, Per<Meter, Second>> = Hour(whole(5)) * v;
    assert!(c.inner() == frac(5, 2));
    let d: Times<Meter, Per<Hour, Second>> = v * Hour(whole(5));
    assert!(d.inner() == frac(5, 2));
}

#[test]
fn a_base_unit_and_a_composite_divide() {
    let ms = Meter(whole(2)) * Second(whole(3));
    let v = Meter(whole(2)) / Second(whole(4));
    let a: Per<Hour, Times<Meter, Second>> = Hour(whole(5)) / ms;
    assert!(a.inner() == frac(5, 6));
    let b: Times<Meter, Per<Hour, Second>> = ms / Hour(whole(5));
    assert!(b.inner() == frac(6, 5));
    let c: Per<Hour, Per<Meter, Second>> = Hour(whole(5)) / v;
    assert!(c.inner() == whole(10));
    let d: Per<Meter, Times<Hour, Second>> = v / Hour(whole(5));
    assert!(d.inner() == frac(1, 10));
}

#[test]
fn nesting_is_unbounded() {
    let v = Meter(whole(2)) / Second(whole(1));
    let once = v * v;
    let twice = once * v;
    let thrice: Times<Meter, Times<Per<Meter, Times<Second, Second>>, Per<Meter, Second>>> = twice;
    assert!(thrice.inner() == whole(8));
}

#[test]
fn multiply_cancels_the_denominator() {
    let rate: Per<Meter, Second> = Meter(whole(7)) / Second(whole(2));
    let distance: Meter = rate.multiply(Second(whole(4)));
    assert!(distance.inner() == whole(14));
    let none: Meter = rate.multiply(Second(Scalar::nan()));
    assert!(!none.inner().defined());
}

#[test]
fn multiply_takes_the_duration_as_it_is() {
    let per_hour: Per<Kilometer, Hour> = Kilometer(whole(90)) / Hour(whole(1));
    let distance: Kilometer = per_hour.multiply(Hour(frac(1, 3)));
    assert!(distance.inner() == whole(30));
}

#[test]
fn integrate_takes_one_step() {
    let acceleration = Per::<Meter, Times<Second, Second>>::new(frac(49, 5));
    let velocity: Per<Meter, Second> = acceleration.integrate(Second(whole(10)));
    assert!(velocity.inner() == whole(98));
    let distance: Meter = velocity.multiply(Second(whole(2)));
    assert!(distance.inner() == whole(196));
}

#[test]
fn divide_right_and_divide_left_cancel_a_factor() {
    let work: Times<Meter, Second> = Meter(whole(6)) * Second(whole(2));
    let m: Meter = work.divide_right(Second(whole(4)));
    assert!(m.inner() == whole(3));
    let s: Second = work.divide_left(Meter(whole(8)));
    assert!(s.inner() == frac(3, 2));
    let none: Meter = work.divide_right(Second(whole(0)));
    assert!(none.inner() == Scalar::inf(false));
    let one = Times::<Meter, Second>::new(whole(1));
    assert!(one.divide_right(Second(whole(0))).0 == Scalar::inf(false));
    let minus = Times::<Meter, Second>::new(whole(-1));
    assert!(minus.divide_right(Second(whole(0))).0 == Scalar::inf(true));
    assert!(minus.divide_left(Meter(whole(0))).0 == Scalar::inf(true));
    let zero = Times::<Meter, Second>::new(whole(0));
    assert!(!zero.divide_right(Second(whole(0))).0.defined());
    assert!(!zero.divide_right(Second(whole(0))).0.infinite());
}

#[test]
fn sqrt_of_a_squared_unit() {
    let area: Times<Meter, Meter> = Meter(whole(3)) * Meter(whole(12));
    let side: Meter = area.sqrt();
    assert!(side.inner() == whole(6));
    let part = Times::<Second, Second>::new(frac(25, 16));
    assert!(part.sqrt().inner() == frac(5, 4));
}

#[test]
fn sqrt_of_no_square_is_rounded_down() {
    let area: Times<Meter, Meter> = Meter(whole(1)) * Meter(whole(2));
    let side: Meter = area.sqrt();
    assert!(side.inner() == frac(3037000499, 2147483648));
    assert!(side.inner() >= whole(0));
    assert!(side.inner() * side.inner() <= whole(2));
    let next = side.inner() + frac(1, 1 << 31);
    assert!(whole(2) < next * next);
}

#[test]
fn sqrt_of_a_negative_square_is_undefined() {
    let negative = Times::<Meter, Meter>::new(whole(-4));
    assert!(!negative.sqrt().inner().defined());
    assert!(!negative.sqrt().inner().infinite());
}

#[test]
fn composites_of_one_shape_add_and_subtract() {
    let a = Times::<Meter, Second>::new(whole(5));
    let b = Times::<Meter, Second>::new(whole(3));
    let sum: Times<Meter, Second> = a + b;
    assert!(sum.inner() == whole(8));
    let difference: Times<Meter, Second> = a - b;
    assert!(difference.inner() == whole(2));
    let v = Per::<Kilometer, Hour>::new(frac(1, 2));
    let w = Per::<Kilometer, Hour>::new(frac(1, 3));
    let faster: Per<Kilometer, Hour> = v + w;
    assert!(faster.inner() == frac(5, 6));
    let slower: Per<Kilometer, Hour> = v - w;
    assert!(slower.inner() == frac(1, 6));
}

#[test]
fn composites_scale_by_a_scalar() {
    let a = Times::<Meter, Second>::new(whole(5));
    let v = Per::<Meter, Second>::new(whole(5));
    let twice: Times<Meter, Second> = a * whole(2);
    assert!(twice.inner() == whole(10));
    let also: Times<Meter, Second> = whole(2) * a;
    assert!(also.inner() == whole(10));
    let half: Times<Meter, Second> = a / whole(2);
    assert!(half.inner() == frac(5, 2));
    let faster: Per<Meter, Second> = v * frac(3, 5);
    assert!(faster.inner() == whole(3));
    let same: Per<Meter, Second> = frac(3, 5) * v;
    assert!(same.inner() == whole(3));
    let slower: Per<Meter, Second> = v / whole(10);
    assert!(slower.inner() == frac(1, 2));
}

#[test]
fn composites_scale_by_an_integer() {
    let a = Times::<Meter, Second>::new(whole(5));
    let v = Per::<Meter, Second>::new(whole(5));
    assert!((a * 3).inner() == whole(15));
    assert!((3i64 * a).inner() == whole(15));
    assert!((a / 3).inner() == frac(5, 3));
    assert!((v * -2).inner() == whole(-10));
    assert!((-2i64 * v).inner() == whole(-10));
    assert!((v / 10).inner() == frac(1, 2));
    assert!((v / 0).inner() == Scalar::inf(false));
    assert!((v * -1 / 0).inner() == Scalar::inf(true));
}

#[test]
fn composites_scale_in_place() {
    let mut a = Times::<Meter, Second>::new(whole(5));
    a *= whole(2);
    assert!(a.inner() == whole(10));
    a *= 3;
    assert!(a.inner() == whole(30));
    a /= whole(4);
    assert!(a.inner() == frac(15, 2));
    a /= 5;
    assert!(a.inner() == frac(3, 2));
    let mut v = Per::<Meter, Second>::new(whole(5));
    v *= frac(1, 5);
    assert!(v.inner() == whole(1));
    v *= 7;
    assert!(v.inner() == whole(7));
    v /= whole(2);
    assert!(v.inner() == frac(7, 2));
    v /= 7;
    assert!(v.inner() == frac(1, 2));
}

#[test]
fn fmt_of_an_acceleration() {
    let a = Per::<Meter, Times<Second, Second>>::new(frac(19, 2));
    let mut out = String::new();
    a.fmt(&mut out);
    assert_eq!(out, "9.5 (m)/(s*s)");
    let third = Per::<Meter, Times<Second, Second>>::new(frac(1, 3));
    let mut other = String::new();
    third.fmt(&mut other);
    assert_eq!(other, "1/3 (m)/(s*s)");
}

#[test]
fn base_units_of_one_dimension_divide_into_a_composite() {
    let q: Per<Meter, Meter> = Meter(whole(6)) / Meter(whole(3));
    assert!(q.inner() == whole(2));
    let back: Meter = q.multiply(Meter(whole(3)));
    assert!(back.inner() == whole(6));
    let mixed: Per<Kilometer, Meter> = Kilometer(whole(1)) / Meter(whole(250));
    assert!(mixed.inner() == frac(1, 250));
    let other: Per<Meter, Kilometer> = Meter(whole(250)) / Kilometer(whole(1));
    assert!(other.inner() == whole(250));
    let t: Per<Hour, Minute> = Hour(whole(3)) / Minute(whole(2));
    assert!(t.inner() == frac(3, 2));
    let none: Per<Second, Second> = Second(whole(1)) / Second(whole(0));
    assert!(none.inner() == Scalar::inf(false));
    assert_eq!(label::<Per<Meter, Meter>>(), "(m)/(m)");
}

#[test]
fn base_units_of_one_dimension_multiply_into_a_composite() {
    let a: Times<Meter, Kilometer> = Meter(whole(3)) * Kilometer(whole(2));
    assert!(a.inner() == whole(6));
    let b: Times<Kilometer, Meter> = Kilometer(whole(2)) * Meter(whole(3));
    assert!(b.inner() == whole(6));
    let c: Times<Minute, Hour> = Minute(frac(1, 2)) * Hour(whole(4));
    assert!(c.inner() == whole(2));
    let m: Meter = a.divide_right(Kilometer(whole(2)));
    assert!(m.inner() == whole(3));
    assert_eq!(label::<Times<Centimeter, Millimeter>>(), "cm*mm");
}

#[test]
fn dividing_in_place_by_zero_leaves_an_infinity() {
    let mut x = Per::<Meter, Second>::new(whole(1));
    x /= whole(0);
    assert!(x.inner() == Scalar::inf(false));
    let same: Per<Meter, Second> = x;
    assert!(same.inner().infinite());
    let mut y = Per::<Meter, Second>::new(whole(-1));
    y /= 0;
    assert!(y.inner() == Scalar::inf(true));
    let mut z = Times::<Meter, Second>::new(whole(0));
    z /= whole(0);
    assert!(!z.inner().defined() && !z.inner().infinite());
    x *= whole(-2);
    assert!(x.inner() == Scalar::inf(true));
    x /= Scalar::inf(true);
    assert!(!x.inner().defined() && !x.inner().infinite());
}
