//! The meter.

use vstd::prelude::*;
use vstd::std_specs::cmp::{PartialEqSpecImpl, PartialOrdSpecImpl};
use vstd::std_specs::convert::FromSpecImpl;
use vstd::std_specs::ops::{AddSpecImpl, DivSpecImpl, MulSpecImpl, SubSpecImpl};
use core::cmp::Ordering;
use core::marker::PhantomData;
use crate::composite::{Unit, UnitName};
use crate::dimension::{BaseUnit, ConvertInto};
use crate::length::metric::{Centimeter, Kilometer, Millimeter};
use crate::scalar::Scalar;
use crate::text::{scalar_text, write_scalar};

verus! {

/// A length in meters, the hub unit of length.
#[derive(Clone, Copy)]
pub struct Meter(pub Scalar);

pub type Meters = Meter;

impl Unit for Meter {
    open spec fn magnitude(&self) -> Scalar {
        self.0
    }

    open spec fn of(val: Scalar) -> Self {
        Meter(val)
    }

    proof fn lemma_magnitude_of(val: Scalar) {
    }

    proof fn lemma_of_magnitude(u: Self) {
    }

    fn new(val: Scalar) -> (r: Self) {
        Meter(val)
    }

    fn inner(&self) -> (r: Scalar) {
        self.0
    }
}

impl BaseUnit for Meter {
    open spec fn scale() -> real {
        1real
    }

    proof fn lemma_scale_positive() {
    }
}

impl UnitName for Meter {
    open spec fn unit_name() -> Seq<char> {
        "m"@
    }

    open spec fn unit_label() -> Seq<char> {
        "m"@
    }

    fn get_unit(&self) -> (r: &'static str) {
        "m"
    }

    fn get_unit_static() -> (r: &'static str) {
        "m"
    }

    fn write_unit_static(out: &mut String) {
        out.append("m");
    }
}

impl Meter {
    /// Appends the length to `out`: the magnitude, then at once `m`.
    pub fn fmt(&self, out: &mut String)
        ensures
            final(out)@ == old(out)@ + scalar_text(self.0) + "m"@,
    {
        write_scalar(out, self.0);
        out.append("m");
    }
}

impl ConvertInto<Meter> for Meter {
    open spec fn converted(self) -> Meter {
        self
    }

    proof fn lemma_converted(self) {
        let x = self.0@->0;
        assert(x * (1real / 1real) == x) by (nonlinear_arith);
    }

    fn convert(self) -> (r: Meter) {
        self
    }
}

impl From<Kilometer> for Meter {
    /// A kilometer is 1_000 meters.
    fn from(f: Kilometer) -> (r: Meter)
        ensures
            r == Meter(f.0.times(Scalar::of_int(1_000))),
    {
        Meter(f.0 * Scalar::from_int(1_000))
    }
}

impl FromSpecImpl<Kilometer> for Meter {
    open spec fn obeys_from_spec() -> bool {
        true
    }

    open spec fn from_spec(f: Kilometer) -> Meter {
        Meter(f.0.times(Scalar::of_int(1_000)))
    }
}

impl ConvertInto<Meter> for Kilometer {
    open spec fn converted(self) -> Meter {
        Meter(self.0.times(Scalar::of_int(1_000)))
    }

    proof fn lemma_converted(self) {
        Scalar::lemma_of_int(1_000);
        Scalar::lemma_arithmetic(self.0, Scalar::of_int(1_000));
        let x = self.0@->0;
        assert(x * 1000real == x * (1000real / 1real)) by (nonlinear_arith);
    }

    fn convert(self) -> (r: Meter) {
        Meter::from(self)
    }
}

impl From<Centimeter> for Meter {
    /// 100 centimeters are a meter.
    fn from(f: Centimeter) -> (r: Meter)
        ensures
            r == Meter(f.0.over(Scalar::of_int(100))),
    {
        Meter(f.0 / Scalar::from_int(100))
    }
}

impl FromSpecImpl<Centimeter> for Meter {
    open spec fn obeys_from_spec() -> bool {
        true
    }

    open spec fn from_spec(f: Centimeter) -> Meter {
        Meter(f.0.over(Scalar::of_int(100)))
    }
}

impl ConvertInto<Meter> for Centimeter {
    open spec fn converted(self) -> Meter {
        Meter(self.0.over(Scalar::of_int(100)))
    }

    proof fn lemma_converted(self) {
        Scalar::lemma_of_int(100);
        Scalar::lemma_arithmetic(self.0, Scalar::of_int(100));
        let x = self.0@->0;
        assert(x / 100real == x * ((1real / 100real) / 1real)) by (nonlinear_arith);
    }

    fn convert(self) -> (r: Meter) {
        Meter::from(self)
    }
}

impl From<Millimeter> for Meter {
    /// 1_000 millimeters are a meter.
    fn from(f: Millimeter) -> (r: Meter)
        ensures
            r == Meter(f.0.over(Scalar::of_int(1_000))),
    {
        Meter(f.0 / Scalar::from_int(1_000))
    }
}

impl FromSpecImpl<Millimeter> for Meter {
    open spec fn obeys_from_spec() -> bool {
        true
    }

    open spec fn from_spec(f: Millimeter) -> Meter {
        Meter(f.0.over(Scalar::of_int(1_000)))
    }
}

impl ConvertInto<Meter> for Millimeter {
    open spec fn converted(self) -> Meter {
        Meter(self.0.over(Scalar::of_int(1_000)))
    }

    proof fn lemma_converted(self) {
        Scalar::lemma_of_int(1_000);
        Scalar::lemma_arithmetic(self.0, Scalar::of_int(1_000));
        let x = self.0@->0;
        assert(x / 1000real == x * ((1real / 1000real) / 1real)) by (nonlinear_arith);
    }

    fn convert(self) -> (r: Meter) {
        Meter::from(self)
    }
}

impl<T> core::ops::Add<T> for Meter where T: ConvertInto<Meter> {
    type Output = Meter;

    /// The sum, in meters: the other length is converted first.
    fn add(self, other: T) -> (r: Meter)
        ensures
            r == Meter(self.0.plus(other.converted().0)),
    {
        let other: Meter = other.convert();
        Meter(self.0 + other.0)
    }
}

impl<T> AddSpecImpl<T> for Meter where T: ConvertInto<Meter> {
    open spec fn obeys_add_spec() -> bool {
        true
    }

    open spec fn add_req(self, other: T) -> bool {
        true
    }

    open spec fn add_spec(self, other: T) -> Meter {
        Meter(self.0.plus(other.converted().0))
    }
}

impl<T> core::ops::AddAssign<T> for Meter where T: ConvertInto<Meter> {
    /// Adds in place: the other length is converted first.
    fn add_assign(&mut self, other: T)
        ensures
            *final(self) == Meter(old(self).0.plus(other.converted().0)),
    {
        let other: Meter = other.convert();
        self.0 = self.0 + other.0;
    }
}

impl<T> core::ops::Sub<T> for Meter where T: ConvertInto<Meter> {
    type Output = Meter;

    /// The difference, in meters: the other length is converted first.
    fn sub(self, other: T) -> (r: Meter)
        ensures
            r == Meter(self.0.minus(other.converted().0)),
    {
        let other: Meter = other.convert();
        Meter(self.0 - other.0)
    }
}

impl<T> SubSpecImpl<T> for Meter where T: ConvertInto<Meter> {
    open spec fn obeys_sub_spec() -> bool {
        true
    }

    open spec fn sub_req(self, other: T) -> bool {
        true
    }

    open spec fn sub_spec(self, other: T) -> Meter {
        Meter(self.0.minus(other.converted().0))
    }
}

impl<T> core::ops::SubAssign<T> for Meter where T: ConvertInto<Meter> {
    /// Subtracts in place: the other length is converted first.
    fn sub_assign(&mut self, other: T)
        ensures
            *final(self) == Meter(old(self).0.minus(other.converted().0)),
    {
        let other: Meter = other.convert();
        self.0 = self.0 - other.0;
    }
}

impl Meter {
    /// The ratio of two lengths, a pure number: the other length is converted
    /// first.
    pub fn ratio<T>(self, other: T) -> (r: Scalar) where T: ConvertInto<Meter>
        ensures
            r == self.0.over(other.converted().0),
    {
        let other: Meter = other.convert();
        self.0 / other.0
    }
}

impl core::ops::Mul<Scalar> for Meter {
    type Output = Meter;

    /// Scales the magnitude; the unit stays.
    fn mul(self, other: Scalar) -> (r: Meter)
        ensures
            r == Meter(self.0.times(other)),
    {
        Meter(self.0 * other)
    }
}

impl MulSpecImpl<Scalar> for Meter {
    open spec fn obeys_mul_spec() -> bool {
        true
    }

    open spec fn mul_req(self, other: Scalar) -> bool {
        true
    }

    open spec fn mul_spec(self, other: Scalar) -> Meter {
        Meter(self.0.times(other))
    }
}

impl core::ops::Mul<Meter> for Scalar {
    type Output = Meter;

    /// Scales the magnitude; the unit stays.
    fn mul(self, other: Meter) -> (r: Meter)
        ensures
            r == Meter(self.times(other.0)),
    {
        Meter(self * other.0)
    }
}

impl MulSpecImpl<Meter> for Scalar {
    open spec fn obeys_mul_spec() -> bool {
        true
    }

    open spec fn mul_req(self, other: Meter) -> bool {
        true
    }

    open spec fn mul_spec(self, other: Meter) -> Meter {
        Meter(self.times(other.0))
    }
}

impl core::ops::Mul<i64> for Meter {
    type Output = Meter;

    /// Scales the magnitude by an integer; the unit stays.
    fn mul(self, other: i64) -> (r: Meter)
        ensures
            r == Meter(self.0.times(Scalar::of_int(other as int))),
    {
        Meter(self.0 * Scalar::from_int(other))
    }
}

impl MulSpecImpl<i64> for Meter {
    open spec fn obeys_mul_spec() -> bool {
        true
    }

    open spec fn mul_req(self, other: i64) -> bool {
        true
    }

    open spec fn mul_spec(self, other: i64) -> Meter {
        Meter(self.0.times(Scalar::of_int(other as int)))
    }
}

impl core::ops::Mul<Meter> for i64 {
    type Output = Meter;

    /// Scales the magnitude by an integer; the unit stays.
    fn mul(self, other: Meter) -> (r: Meter)
        ensures
            r == Meter(Scalar::of_int(self as int).times(other.0)),
    {
        Meter(Scalar::from_int(self) * other.0)
    }
}

impl MulSpecImpl<Meter> for i64 {
    open spec fn obeys_mul_spec() -> bool {
        true
    }

    open spec fn mul_req(self, other: Meter) -> bool {
        true
    }

    open spec fn mul_spec(self, other: Meter) -> Meter {
        Meter(Scalar::of_int(self as int).times(other.0))
    }
}

impl core::ops::MulAssign<Scalar> for Meter {
    /// Scales the magnitude in place.
    fn mul_assign(&mut self, other: Scalar)
        ensures
            *final(self) == Meter(old(self).0.times(other)),
    {
        self.0 = self.0 * other;
    }
}

impl core::ops::MulAssign<i64> for Meter {
    /// Scales the magnitude in place by an integer.
    fn mul_assign(&mut self, other: i64)
        ensures
            *final(self) == Meter(old(self).0.times(Scalar::of_int(other as int))),
    {
        self.0 = self.0 * Scalar::from_int(other);
    }
}

impl core::ops::Div<Scalar> for Meter {
    type Output = Meter;

    /// Divides the magnitude; the unit stays.
    fn div(self, other: Scalar) -> (r: Meter)
        ensures
            r == Meter(self.0.over(other)),
    {
        Meter(self.0 / other)
    }
}

impl DivSpecImpl<Scalar> for Meter {
    open spec fn obeys_div_spec() -> bool {
        true
    }

    open spec fn div_req(self, other: Scalar) -> bool {
        true
    }

    open spec fn div_spec(self, other: Scalar) -> Meter {
        Meter(self.0.over(other))
    }
}

impl core::ops::Div<i64> for Meter {
    type Output = Meter;

    /// Divides the magnitude by an integer; the unit stays.
    fn div(self, other: i64) -> (r: Meter)
        ensures
            r == Meter(self.0.over(Scalar::of_int(other as int))),
    {
        Meter(self.0 / Scalar::from_int(other))
    }
}

impl DivSpecImpl<i64> for Meter {
    open spec fn obeys_div_spec() -> bool {
        true
    }

    open spec fn div_req(self, other: i64) -> bool {
        true
    }

    open spec fn div_spec(self, other: i64) -> Meter {
        Meter(self.0.over(Scalar::of_int(other as int)))
    }
}

impl core::ops::DivAssign<Scalar> for Meter {
    /// Divides the magnitude in place.
    fn div_assign(&mut self, other: Scalar)
        ensures
            *final(self) == Meter(old(self).0.over(other)),
    {
        self.0 = self.0 / other;
    }
}

impl core::ops::DivAssign<i64> for Meter {
    /// Divides the magnitude in place by an integer.
    fn div_assign(&mut self, other: i64)
        ensures
            *final(self) == Meter(old(self).0.over(Scalar::of_int(other as int))),
    {
        self.0 = self.0 / Scalar::from_int(other);
    }
}

impl<T> PartialEq<T> for Meter where T: Copy + ConvertInto<Meter> {
    /// Whether both are the same length: the other is converted first.
    fn eq(&self, other: &T) -> (r: bool)
        ensures
            r == self.0.same(other.converted().0),
    {
        let other_t: T = *other;
        let other: Meter = other_t.convert();
        self.0 == other.0
    }
}

impl<T> PartialEqSpecImpl<T> for Meter where T: Copy + ConvertInto<Meter> {
    open spec fn obeys_eq_spec() -> bool {
        true
    }

    open spec fn eq_spec(&self, other: &T) -> bool {
        self.0.same(other.converted().0)
    }
}

impl<T> PartialOrd<T> for Meter where T: Copy + ConvertInto<Meter> {
    /// The order of two lengths: the other is converted first.
    fn partial_cmp(&self, other: &T) -> (r: Option<Ordering>)
        ensures
            r == self.0.ordering(other.converted().0),
    {
        let other_t: T = *other;
        let other: Meter = other_t.convert();
        self.0.partial_cmp(&other.0)
    }
}

impl<T> PartialOrdSpecImpl<T> for Meter where T: Copy + ConvertInto<Meter> {
    open spec fn obeys_partial_cmp_spec() -> bool {
        true
    }

    open spec fn partial_cmp_spec(&self, other: &T) -> Option<Ordering> {
        self.0.ordering(other.converted().0)
    }
}

impl<T, U> core::ops::Mul<crate::composite::Mul<T, U>> for Meter where T: Unit {
    type Output = crate::composite::Mul<Meter, crate::composite::Mul<T, U>>;

    /// `Meter * (T*U)` is `Meter*(T*U)`.
    fn mul(self, other: crate::composite::Mul<T, U>) -> (r: Self::Output)
        ensures
            r.magnitude() == other.magnitude().times(self.0),
    {
        crate::composite::Mul(Meter(other.0.inner() * self.0), PhantomData)
    }
}

impl<T, U> MulSpecImpl<crate::composite::Mul<T, U>> for Meter where T: Unit {
    open spec fn obeys_mul_spec() -> bool {
        true
    }

    open spec fn mul_req(self, other: crate::composite::Mul<T, U>) -> bool {
        true
    }

    open spec fn mul_spec(self, other: crate::composite::Mul<T, U>) -> Self::Output {
        crate::composite::Mul(Meter(other.magnitude().times(self.0)), PhantomData)
    }
}

impl<T, U> core::ops::Mul<Meter> for crate::composite::Mul<T, U> where T: Unit {
    type Output = crate::composite::Mul<T, crate::composite::Mul<Meter, U>>;

    /// `(T*U) * Meter` is `T*(Meter*U)`.
    fn mul(self, other: Meter) -> (r: Self::Output)
        ensures
            r.magnitude() == other.0.times(self.magnitude()),
    {
        proof {
            T::lemma_magnitude_of(other.0.times(self.magnitude()));
        }
        crate::composite::Mul(T::new(other.0 * self.0.inner()), PhantomData)
    }
}

impl<T, U> MulSpecImpl<Meter> for crate::composite::Mul<T, U> where T: Unit {
    open spec fn obeys_mul_spec() -> bool {
        true
    }

    open spec fn mul_req(self, other: Meter) -> bool {
        true
    }

    open spec fn mul_spec(self, other: Meter) -> Self::Output {
        crate::composite::Mul(T::of(other.0.times(self.magnitude())), PhantomData)
    }
}

impl<T, U> core::ops::Mul<crate::composite::Div<T, U>> for Meter where T: Unit {
    type Output = crate::composite::Mul<Meter, crate::composite::Div<T, U>>;

    /// `Meter * (T/U)` is `Meter*(T/U)`.
    fn mul(self, other: crate::composite::Div<T, U>) -> (r: Self::Output)
        ensures
            r.magnitude() == other.magnitude().times(self.0),
    {
        crate::composite::Mul(Meter(other.0.inner() * self.0), PhantomData)
    }
}

impl<T, U> MulSpecImpl<crate::composite::Div<T, U>> for Meter where T: Unit {
    open spec fn obeys_mul_spec() -> bool {
        true
    }

    open spec fn mul_req(self, other: crate::composite::Div<T, U>) -> bool {
        true
    }

    open spec fn mul_spec(self, other: crate::composite::Div<T, U>) -> Self::Output {
        crate::composite::Mul(Meter(other.magnitude().times(self.0)), PhantomData)
    }
}

impl<T, U> core::ops::Mul<Meter> for crate::composite::Div<T, U> where T: Unit {
    type Output = crate::composite::Mul<T, crate::composite::Div<Meter, U>>;

    /// `(T/U) * Meter` is `T*(Meter/U)`.
    fn mul(self, other: Meter) -> (r: Self::Output)
        ensures
            r.magnitude() == other.0.times(self.magnitude()),
    {
        proof {
            T::lemma_magnitude_of(other.0.times(self.magnitude()));
        }
        crate::composite::Mul(T::new(other.0 * self.0.inner()), PhantomData)
    }
}

impl<T, U> MulSpecImpl<Meter> for crate::composite::Div<T, U> where T: Unit {
    open spec fn obeys_mul_spec() -> bool {
        true
    }

    open spec fn mul_req(self, other: Meter) -> bool {
        true
    }

    open spec fn mul_spec(self, other: Meter) -> Self::Output {
        crate::composite::Mul(T::of(other.0.times(self.magnitude())), PhantomData)
    }
}

impl<T, U> core::ops::Div<crate::composite::Mul<T, U>> for Meter where T: Unit {
    type Output = crate::composite::Div<Meter, crate::composite::Mul<T, U>>;

    /// `Meter / (T*U)` is `Meter/(T*U)`.
    fn div(self, other: crate::composite::Mul<T, U>) -> (r: Self::Output)
        ensures
            r.magnitude() == self.0.over(other.magnitude()),
    {
        crate::composite::Div(Meter(self.0 / other.0.inner()), PhantomData)
    }
}

impl<T, U> DivSpecImpl<crate::composite::Mul<T, U>> for Meter where T: Unit {
    open spec fn obeys_div_spec() -> bool {
        true
    }

    open spec fn div_req(self, other: crate::composite::Mul<T, U>) -> bool {
        true
    }

    open spec fn div_spec(self, other: crate::composite::Mul<T, U>) -> Self::Output {
        crate::composite::Div(Meter(self.0.over(other.magnitude())), PhantomData)
    }
}

impl<T, U> core::ops::Div<Meter> for crate::composite::Mul<T, U> where T: Unit {
    type Output = crate::composite::Mul<T, crate::composite::Div<Meter, U>>;

    /// `(T*U) / Meter` takes the shape `T*(Meter/U)`.
    fn div(self, other: Meter) -> (r: Self::Output)
        ensures
            r.magnitude() == self.magnitude().over(other.0),
    {
        proof {
            T::lemma_magnitude_of(self.magnitude().over(other.0));
        }
        crate::composite::Mul(T::new(self.0.inner() / other.0), PhantomData)
    }
}

impl<T, U> DivSpecImpl<Meter> for crate::composite::Mul<T, U> where T: Unit {
    open spec fn obeys_div_spec() -> bool {
        true
    }

    open spec fn div_req(self, other: Meter) -> bool {
        true
    }

    open spec fn div_spec(self, other: Meter) -> Self::Output {
        crate::composite::Mul(T::of(self.magnitude().over(other.0)), PhantomData)
    }
}

impl<T, U> core::ops::Div<crate::composite::Div<T, U>> for Meter where T: Unit {
    type Output = crate::composite::Div<Meter, crate::composite::Div<T, U>>;

    /// `Meter / (T/U)` is `Meter/(T/U)`.
    fn div(self, other: crate::composite::Div<T, U>) -> (r: Self::Output)
        ensures
            r.magnitude() == self.0.over(other.magnitude()),
    {
        crate::composite::Div(Meter(self.0 / other.0.inner()), PhantomData)
    }
}

impl<T, U> DivSpecImpl<crate::composite::Div<T, U>> for Meter where T: Unit {
    open spec fn obeys_div_spec() -> bool {
        true
    }

    open spec fn div_req(self, other: crate::composite::Div<T, U>) -> bool {
        true
    }

    open spec fn div_spec(self, other: crate::composite::Div<T, U>) -> Self::Output {
        crate::composite::Div(Meter(self.0.over(other.magnitude())), PhantomData)
    }
}

impl<T, U> core::ops::Div<Meter> for crate::composite::Div<T, U> where T: Unit {
    type Output = crate::composite::Div<T, crate::composite::Mul<Meter, U>>;

    /// `(T/U) / Meter` is `T/(Meter*U)`.
    fn div(self, other: Meter) -> (r: Self::Output)
        ensures
            r.magnitude() == self.magnitude().over(other.0),
    {
        proof {
            T::lemma_magnitude_of(self.magnitude().over(other.0));
        }
        crate::composite::Div(T::new(self.0.inner() / other.0), PhantomData)
    }
}

impl<T, U> DivSpecImpl<Meter> for crate::composite::Div<T, U> where T: Unit {
    open spec fn obeys_div_spec() -> bool {
        true
    }

    open spec fn div_req(self, other: Meter) -> bool {
        true
    }

    open spec fn div_spec(self, other: Meter) -> Self::Output {
        crate::composite::Div(T::of(self.magnitude().over(other.0)), PhantomData)
    }
}

impl core::ops::Mul<Meter> for Meter {
    type Output = crate::composite::Mul<Meter, Meter>;

    /// The square of a meter: `Meter*Meter`.
    fn mul(self, other: Meter) -> (r: Self::Output)
        ensures
            r.magnitude() == self.0.times(other.0),
    {
        crate::composite::Mul(Meter(self.0 * other.0), PhantomData)
    }
}

impl MulSpecImpl<Meter> for Meter {
    open spec fn obeys_mul_spec() -> bool {
        true
    }

    open spec fn mul_req(self, other: Meter) -> bool {
        true
    }

    open spec fn mul_spec(self, other: Meter) -> Self::Output {
        crate::composite::Mul(Meter(self.0.times(other.0)), PhantomData)
    }
}

impl core::ops::Mul<Kilometer> for Meter {
    type Output = crate::composite::Mul<Meter, Kilometer>;

    /// A meter times a kilometer: `Meter*Kilometer`. Nothing is converted.
    fn mul(self, other: Kilometer) -> (r: Self::Output)
        ensures
            r.magnitude() == self.0.times(other.0),
    {
        crate::composite::Mul(Meter(self.0 * other.0), PhantomData)
    }
}

impl MulSpecImpl<Kilometer> for Meter {
    open spec fn obeys_mul_spec() -> bool {
        true
    }

    open spec fn mul_req(self, other: Kilometer) -> bool {
        true
    }

    open spec fn mul_spec(self, other: Kilometer) -> Self::Output {
        crate::composite::Mul(Meter(self.0.times(other.0)), PhantomData)
    }
}

impl core::ops::Mul<Centimeter> for Meter {
    type Output = crate::composite::Mul<Meter, Centimeter>;

    /// A meter times a centimeter: `Meter*Centimeter`. Nothing is converted.
    fn mul(self, other: Centimeter) -> (r: Self::Output)
        ensures
            r.magnitude() == self.0.times(other.0),
    {
        crate::composite::Mul(Meter(self.0 * other.0), PhantomData)
    }
}

impl MulSpecImpl<Centimeter> for Meter {
    open spec fn obeys_mul_spec() -> bool {
        true
    }

    open spec fn mul_req(self, other: Centimeter) -> bool {
        true
    }

    open spec fn mul_spec(self, other: Centimeter) -> Self::Output {
        crate::composite::Mul(Meter(self.0.times(other.0)), PhantomData)
    }
}

impl core::ops::Mul<Millimeter> for Meter {
    type Output = crate::composite::Mul<Meter, Millimeter>;

    /// A meter times a millimeter: `Meter*Millimeter`. Nothing is converted.
    fn mul(self, other: Millimeter) -> (r: Self::Output)
        ensures
            r.magnitude() == self.0.times(other.0),
    {
        crate::composite::Mul(Meter(self.0 * other.0), PhantomData)
    }
}

impl MulSpecImpl<Millimeter> for Meter {
    open spec fn obeys_mul_spec() -> bool {
        true
    }

    open spec fn mul_req(self, other: Millimeter) -> bool {
        true
    }

    open spec fn mul_spec(self, other: Millimeter) -> Self::Output {
        crate::composite::Mul(Meter(self.0.times(other.0)), PhantomData)
    }
}

impl core::ops::Div<Meter> for Meter {
    type Output = crate::composite::Div<Meter, Meter>;

    /// A meter by a meter: `Meter/Meter`. Nothing is converted.
    fn div(self, other: Meter) -> (r: Self::Output)
        ensures
            r.magnitude() == self.0.over(other.0),
    {
        crate::composite::Div(Meter(self.0 / other.0), PhantomData)
    }
}

impl DivSpecImpl<Meter> for Meter {
    open spec fn obeys_div_spec() -> bool {
        true
    }

    open spec fn div_req(self, other: Meter) -> bool {
        true
    }

    open spec fn div_spec(self, other: Meter) -> Self::Output {
        crate::composite::Div(Meter(self.0.over(other.0)), PhantomData)
    }
}

impl core::ops::Div<Kilometer> for Meter {
    type Output = crate::composite::Div<Meter, Kilometer>;

    /// A meter by a kilometer: `Meter/Kilometer`. Nothing is converted.
    fn div(self, other: Kilometer) -> (r: Self::Output)
        ensures
            r.magnitude() == self.0.over(other.0),
    {
        crate::composite::Div(Meter(self.0 / other.0), PhantomData)
    }
}

impl DivSpecImpl<Kilometer> for Meter {
    open spec fn obeys_div_spec() -> bool {
        true
    }

    open spec fn div_req(self, other: Kilometer) -> bool {
        true
    }

    open spec fn div_spec(self, other: Kilometer) -> Self::Output {
        crate::composite::Div(Meter(self.0.over(other.0)), PhantomData)
    }
}

impl core::ops::Div<Centimeter> for Meter {
    type Output = crate::composite::Div<Meter, Centimeter>;

    /// A meter by a centimeter: `Meter/Centimeter`. Nothing is converted.
    fn div(self, other: Centimeter) -> (r: Self::Output)
        ensures
            r.magnitude() == self.0.over(other.0),
    {
        crate::composite::Div(Meter(self.0 / other.0), PhantomData)
    }
}

impl DivSpecImpl<Centimeter> for Meter {
    open spec fn obeys_div_spec() -> bool {
        true
    }

    open spec fn div_req(self, other: Centimeter) -> bool {
        true
    }

    open spec fn div_spec(self, other: Centimeter) -> Self::Output {
        crate::composite::Div(Meter(self.0.over(other.0)), PhantomData)
    }
}

impl core::ops::Div<Millimeter> for Meter {
    type Output = crate::composite::Div<Meter, Millimeter>;

    /// A meter by a millimeter: `Meter/Millimeter`. Nothing is converted.
    fn div(self, other: Millimeter) -> (r: Self::Output)
        ensures
            r.magnitude() == self.0.over(other.0),
    {
        crate::composite::Div(Meter(self.0 / other.0), PhantomData)
    }
}

impl DivSpecImpl<Millimeter> for Meter {
    open spec fn obeys_div_spec() -> bool {
        true
    }

    open spec fn div_req(self, other: Millimeter) -> bool {
        true
    }

    open spec fn div_spec(self, other: Millimeter) -> Self::Output {
        crate::composite::Div(Meter(self.0.over(other.0)), PhantomData)
    }
}

} // verus!
