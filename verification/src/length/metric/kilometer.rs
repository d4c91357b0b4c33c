//! The kilometer.

use vstd::prelude::*;
use vstd::std_specs::cmp::{PartialEqSpecImpl, PartialOrdSpecImpl};
use vstd::std_specs::convert::FromSpecImpl;
use vstd::std_specs::ops::{AddSpecImpl, DivSpecImpl, MulSpecImpl, SubSpecImpl};
use core::cmp::Ordering;
use core::marker::PhantomData;
use crate::composite::{Unit, UnitName};
use crate::dimension::{BaseUnit, ConvertInto};
use crate::length::metric::{Centimeter, Meter, Millimeter};
use crate::scalar::Scalar;
use crate::text::{scalar_text, write_scalar};

verus! {

/// A length in kilometers.
#[derive(Clone, Copy)]
pub struct Kilometer(pub Scalar);

pub type Kilometers = Kilometer;

impl Unit for Kilometer {
    open spec fn magnitude(&self) -> Scalar {
        self.0
    }

    open spec fn of(val: Scalar) -> Self {
        Kilometer(val)
    }

    proof fn lemma_magnitude_of(val: Scalar) {
    }

    proof fn lemma_of_magnitude(u: Self) {
    }

    fn new(val: Scalar) -> (r: Self) {
        Kilometer(val)
    }

    fn inner(&self) -> (r: Scalar) {
        self.0
    }
}

impl BaseUnit for Kilometer {
    open spec fn scale() -> real {
        1000real
    }

    proof fn lemma_scale_positive() {
    }
}

impl UnitName for Kilometer {
    open spec fn unit_name() -> Seq<char> {
        "km"@
    }

    open spec fn unit_label() -> Seq<char> {
        "km"@
    }

    fn get_unit(&self) -> (r: &'static str) {
        "km"
    }

    fn get_unit_static() -> (r: &'static str) {
        "km"
    }

    fn write_unit_static(out: &mut String) {
        out.append("km");
    }
}

impl Kilometer {
    /// Appends the length to `out`: the magnitude, then at once `km`.
    pub fn fmt(&self, out: &mut String)
        ensures
            final(out)@ == old(out)@ + scalar_text(self.0) + "km"@,
    {
        write_scalar(out, self.0);
        out.append("km");
    }
}

impl ConvertInto<Kilometer> for Kilometer {
    open spec fn converted(self) -> Kilometer {
        self
    }

    proof fn lemma_converted(self) {
        let x = self.0@->0;
        assert(x * (1000real / 1000real) == x) by (nonlinear_arith);
    }

    fn convert(self) -> (r: Kilometer) {
        self
    }
}

impl From<Meter> for Kilometer {
    /// 1_000 meters are a kilometer.
    fn from(f: Meter) -> (r: Kilometer)
        ensures
            r == Kilometer(f.0.over(Scalar::of_int(1_000))),
    {
        Kilometer(f.0 / Scalar::from_int(1_000))
    }
}

impl FromSpecImpl<Meter> for Kilometer {
    open spec fn obeys_from_spec() -> bool {
        true
    }

    open spec fn from_spec(f: Meter) -> Kilometer {
        Kilometer(f.0.over(Scalar::of_int(1_000)))
    }
}

impl ConvertInto<Kilometer> for Meter {
    open spec fn converted(self) -> Kilometer {
        Kilometer(self.0.over(Scalar::of_int(1_000)))
    }

    proof fn lemma_converted(self) {
        Scalar::lemma_of_int(1_000);
        Scalar::lemma_arithmetic(self.0, Scalar::of_int(1_000));
        let x = self.0@->0;
        assert(x / 1000real == x * (1real / 1000real)) by (nonlinear_arith);
    }

    fn convert(self) -> (r: Kilometer) {
        Kilometer::from(self)
    }
}

impl From<Centimeter> for Kilometer {
    /// 100_000 centimeters are a kilometer.
    fn from(f: Centimeter) -> (r: Kilometer)
        ensures
            r == Kilometer(f.0.over(Scalar::of_int(100_000))),
    {
        Kilometer(f.0 / Scalar::from_int(100_000))
    }
}

impl FromSpecImpl<Centimeter> for Kilometer {
    open spec fn obeys_from_spec() -> bool {
        true
    }

    open spec fn from_spec(f: Centimeter) -> Kilometer {
        Kilometer(f.0.over(Scalar::of_int(100_000)))
    }
}

impl<'a> From<&'a Centimeter> for Kilometer {
    /// 100_000 centimeters are a kilometer.
    fn from(f: &'a Centimeter) -> (r: Kilometer)
        ensures
            r == Kilometer(f.0.over(Scalar::of_int(100_000))),
    {
        Kilometer(f.0 / Scalar::from_int(100_000))
    }
}

impl<'a> FromSpecImpl<&'a Centimeter> for Kilometer {
    open spec fn obeys_from_spec() -> bool {
        true
    }

    open spec fn from_spec(f: &'a Centimeter) -> Kilometer {
        Kilometer(f.0.over(Scalar::of_int(100_000)))
    }
}

impl ConvertInto<Kilometer> for Centimeter {
    open spec fn converted(self) -> Kilometer {
        Kilometer(self.0.over(Scalar::of_int(100_000)))
    }

    proof fn lemma_converted(self) {
        Scalar::lemma_of_int(100_000);
        Scalar::lemma_arithmetic(self.0, Scalar::of_int(100_000));
        let x = self.0@->0;
        assert(x / 100000real == x * ((1real / 100real) / 1000real)) by (nonlinear_arith);
    }

    fn convert(self) -> (r: Kilometer) {
        Kilometer::from(self)
    }
}

impl From<Millimeter> for Kilometer {
    /// 1_000_000 millimeters are a kilometer.
    fn from(f: Millimeter) -> (r: Kilometer)
        ensures
            r == Kilometer(f.0.over(Scalar::of_int(1_000_000))),
    {
        Kilometer(f.0 / Scalar::from_int(1_000_000))
    }
}

impl FromSpecImpl<Millimeter> for Kilometer {
    open spec fn obeys_from_spec() -> bool {
        true
    }

    open spec fn from_spec(f: Millimeter) -> Kilometer {
        Kilometer(f.0.over(Scalar::of_int(1_000_000)))
    }
}

impl<'a> From<&'a Millimeter> for Kilometer {
    /// 1_000_000 millimeters are a kilometer.
    fn from(f: &'a Millimeter) -> (r: Kilometer)
        ensures
            r == Kilometer(f.0.over(Scalar::of_int(1_000_000))),
    {
        Kilometer(f.0 / Scalar::from_int(1_000_000))
    }
}

impl<'a> FromSpecImpl<&'a Millimeter> for Kilometer {
    open spec fn obeys_from_spec() -> bool {
        true
    }

    open spec fn from_spec(f: &'a Millimeter) -> Kilometer {
        Kilometer(f.0.over(Scalar::of_int(1_000_000)))
    }
}

impl ConvertInto<Kilometer> for Millimeter {
    open spec fn converted(self) -> Kilometer {
        Kilometer(self.0.over(Scalar::of_int(1_000_000)))
    }

    proof fn lemma_converted(self) {
        Scalar::lemma_of_int(1_000_000);
        Scalar::lemma_arithmetic(self.0, Scalar::of_int(1_000_000));
        let x = self.0@->0;
        assert(x / 1000000real == x * ((1real / 1000real) / 1000real)) by (nonlinear_arith);
    }

    fn convert(self) -> (r: Kilometer) {
        Kilometer::from(self)
    }
}

impl<T> core::ops::Add<T> for Kilometer where T: ConvertInto<Kilometer> {
    type Output = Kilometer;

    /// The sum, in kilometers: the other length is converted first.
    fn add(self, other: T) -> (r: Kilometer)
        ensures
            r == Kilometer(self.0.plus(other.converted().0)),
    {
        let other: Kilometer = other.convert();
        Kilometer(self.0 + other.0)
    }
}

impl<T> AddSpecImpl<T> for Kilometer where T: ConvertInto<Kilometer> {
    open spec fn obeys_add_spec() -> bool {
        true
    }

    open spec fn add_req(self, other: T) -> bool {
        true
    }

    open spec fn add_spec(self, other: T) -> Kilometer {
        Kilometer(self.0.plus(other.converted().0))
    }
}

impl<T> core::ops::AddAssign<T> for Kilometer where T: ConvertInto<Kilometer> {
    /// Adds in place: the other length is converted first.
    fn add_assign(&mut self, other: T)
        ensures
            *final(self) == Kilometer(old(self).0.plus(other.converted().0)),
    {
        let other: Kilometer = other.convert();
        self.0 = self.0 + other.0;
    }
}

impl<T> core::ops::Sub<T> for Kilometer where T: ConvertInto<Kilometer> {
    type Output = Kilometer;

    /// The difference, in kilometers: the other length is converted first.
    fn sub(self, other: T) -> (r: Kilometer)
        ensures
            r == Kilometer(self.0.minus(other.converted().0)),
    {
        let other: Kilometer = other.convert();
        Kilometer(self.0 - other.0)
    }
}

impl<T> SubSpecImpl<T> for Kilometer where T: ConvertInto<Kilometer> {
    open spec fn obeys_sub_spec() -> bool {
        true
    }

    open spec fn sub_req(self, other: T) -> bool {
        true
    }

    open spec fn sub_spec(self, other: T) -> Kilometer {
        Kilometer(self.0.minus(other.converted().0))
    }
}

impl<T> core::ops::SubAssign<T> for Kilometer where T: ConvertInto<Kilometer> {
    /// Subtracts in place: the other length is converted first.
    fn sub_assign(&mut self, other: T)
        ensures
            *final(self) == Kilometer(old(self).0.minus(other.converted().0)),
    {
        let other: Kilometer = other.convert();
        self.0 = self.0 - other.0;
    }
}

impl Kilometer {
    /// The ratio of two lengths, a pure number: the other length is converted
    /// first.
    pub fn ratio<T>(self, other: T) -> (r: Scalar) where T: ConvertInto<Kilometer>
        ensures
            r == self.0.over(other.converted().0),
    {
        let other: Kilometer = other.convert();
        self.0 / other.0
    }
}

impl core::ops::Mul<Scalar> for Kilometer {
    type Output = Kilometer;

    /// Scales the magnitude; the unit stays.
    fn mul(self, other: Scalar) -> (r: Kilometer)
        ensures
            r == Kilometer(self.0.times(other)),
    {
        Kilometer(self.0 * other)
    }
}

impl MulSpecImpl<Scalar> for Kilometer {
    open spec fn obeys_mul_spec() -> bool {
        true
    }

    open spec fn mul_req(self, other: Scalar) -> bool {
        true
    }

    open spec fn mul_spec(self, other: Scalar) -> Kilometer {
        Kilometer(self.0.times(other))
    }
}

impl core::ops::Mul<Kilometer> for Scalar {
    type Output = Kilometer;

    /// Scales the magnitude; the unit stays.
    fn mul(self, other: Kilometer) -> (r: Kilometer)
        ensures
            r == Kilometer(self.times(other.0)),
    {
        Kilometer(self * other.0)
    }
}

impl MulSpecImpl<Kilometer> for Scalar {
    open spec fn obeys_mul_spec() -> bool {
        true
    }

    open spec fn mul_req(self, other: Kilometer) -> bool {
        true
    }

    open spec fn mul_spec(self, other: Kilometer) -> Kilometer {
        Kilometer(self.times(other.0))
    }
}

impl core::ops::Mul<i64> for Kilometer {
    type Output = Kilometer;

    /// Scales the magnitude by an integer; the unit stays.
    fn mul(self, other: i64) -> (r: Kilometer)
        ensures
            r == Kilometer(self.0.times(Scalar::of_int(other as int))),
    {
        Kilometer(self.0 * Scalar::from_int(other))
    }
}

impl MulSpecImpl<i64> for Kilometer {
    open spec fn obeys_mul_spec() -> bool {
        true
    }

    open spec fn mul_req(self, other: i64) -> bool {
        true
    }

    open spec fn mul_spec(self, other: i64) -> Kilometer {
        Kilometer(self.0.times(Scalar::of_int(other as int)))
    }
}

impl core::ops::Mul<Kilometer> for i64 {
    type Output = Kilometer;

    /// Scales the magnitude by an integer; the unit stays.
    fn mul(self, other: Kilometer) -> (r: Kilometer)
        ensures
            r == Kilometer(Scalar::of_int(self as int).times(other.0)),
    {
        Kilometer(Scalar::from_int(self) * other.0)
    }
}

impl MulSpecImpl<Kilometer> for i64 {
    open spec fn obeys_mul_spec() -> bool {
        true
    }

    open spec fn mul_req(self, other: Kilometer) -> bool {
        true
    }

    open spec fn mul_spec(self, other: Kilometer) -> Kilometer {
        Kilometer(Scalar::of_int(self as int).times(other.0))
    }
}

impl core::ops::MulAssign<Scalar> for Kilometer {
    /// Scales the magnitude in place.
    fn mul_assign(&mut self, other: Scalar)
        ensures
            *final(self) == Kilometer(old(self).0.times(other)),
    {
        self.0 = self.0 * other;
    }
}

impl core::ops::MulAssign<i64> for Kilometer {
    /// Scales the magnitude in place by an integer.
    fn mul_assign(&mut self, other: i64)
        ensures
            *final(self) == Kilometer(old(self).0.times(Scalar::of_int(other as int))),
    {
        self.0 = self.0 * Scalar::from_int(other);
    }
}

impl core::ops::Div<Scalar> for Kilometer {
    type Output = Kilometer;

    /// Divides the magnitude; the unit stays.
    fn div(self, other: Scalar) -> (r: Kilometer)
        ensures
            r == Kilometer(self.0.over(other)),
    {
        Kilometer(self.0 / other)
    }
}

impl DivSpecImpl<Scalar> for Kilometer {
    open spec fn obeys_div_spec() -> bool {
        true
    }

    open spec fn div_req(self, other: Scalar) -> bool {
        true
    }

    open spec fn div_spec(self, other: Scalar) -> Kilometer {
        Kilometer(self.0.over(other))
    }
}

impl core::ops::Div<i64> for Kilometer {
    type Output = Kilometer;

    /// Divides the magnitude by an integer; the unit stays.
    fn div(self, other: i64) -> (r: Kilometer)
        ensures
            r == Kilometer(self.0.over(Scalar::of_int(other as int))),
    {
        Kilometer(self.0 / Scalar::from_int(other))
    }
}

impl DivSpecImpl<i64> for Kilometer {
    open spec fn obeys_div_spec() -> bool {
        true
    }

    open spec fn div_req(self, other: i64) -> bool {
        true
    }

    open spec fn div_spec(self, other: i64) -> Kilometer {
        Kilometer(self.0.over(Scalar::of_int(other as int)))
    }
}

impl core::ops::DivAssign<Scalar> for Kilometer {
    /// Divides the magnitude in place.
    fn div_assign(&mut self, other: Scalar)
        ensures
            *final(self) == Kilometer(old(self).0.over(other)),
    {
        self.0 = self.0 / other;
    }
}

impl core::ops::DivAssign<i64> for Kilometer {
    /// Divides the magnitude in place by an integer.
    fn div_assign(&mut self, other: i64)
        ensures
            *final(self) == Kilometer(old(self).0.over(Scalar::of_int(other as int))),
    {
        self.0 = self.0 / Scalar::from_int(other);
    }
}

impl<T> PartialEq<T> for Kilometer where T: Copy + ConvertInto<Kilometer> {
    /// Whether both are the same length: the other is converted first.
    fn eq(&self, other: &T) -> (r: bool)
        ensures
            r == self.0.same(other.converted().0),
    {
        let other_t: T = *other;
        let other: Kilometer = other_t.convert();
        self.0 == other.0
    }
}

impl<T> PartialEqSpecImpl<T> for Kilometer where T: Copy + ConvertInto<Kilometer> {
    open spec fn obeys_eq_spec() -> bool {
        true
    }

    open spec fn eq_spec(&self, other: &T) -> bool {
        self.0.same(other.converted().0)
    }
}

impl<T> PartialOrd<T> for Kilometer where T: Copy + ConvertInto<Kilometer> {
    /// The order of two lengths: the other is converted first.
    fn partial_cmp(&self, other: &T) -> (r: Option<Ordering>)
        ensures
            r == self.0.ordering(other.converted().0),
    {
        let other_t: T = *other;
        let other: Kilometer = other_t.convert();
        self.0.partial_cmp(&other.0)
    }
}

impl<T> PartialOrdSpecImpl<T> for Kilometer where T: Copy + ConvertInto<Kilometer> {
    open spec fn obeys_partial_cmp_spec() -> bool {
        true
    }

    open spec fn partial_cmp_spec(&self, other: &T) -> Option<Ordering> {
        self.0.ordering(other.converted().0)
    }
}

impl<T, U> core::ops::Mul<crate::composite::Mul<T, U>> for Kilometer where T: Unit {
    type Output = crate::composite::Mul<Kilometer, crate::composite::Mul<T, U>>;

    /// `Kilometer * (T*U)` is `Kilometer*(T*U)`.
    fn mul(self, other: crate::composite::Mul<T, U>) -> (r: Self::Output)
        ensures
            r.magnitude() == other.magnitude().times(self.0),
    {
        crate::composite::Mul(Kilometer(other.0.inner() * self.0), PhantomData)
    }
}

impl<T, U> MulSpecImpl<crate::composite::Mul<T, U>> for Kilometer where T: Unit {
    open spec fn obeys_mul_spec() -> bool {
        true
    }

    open spec fn mul_req(self, other: crate::composite::Mul<T, U>) -> bool {
        true
    }

    open spec fn mul_spec(self, other: crate::composite::Mul<T, U>) -> Self::Output {
        crate::composite::Mul(Kilometer(other.magnitude().times(self.0)), PhantomData)
    }
}

impl<T, U> core::ops::Mul<Kilometer> for crate::composite::Mul<T, U> where T: Unit {
    type Output = crate::composite::Mul<T, crate::composite::Mul<Kilometer, U>>;

    /// `(T*U) * Kilometer` is `T*(Kilometer*U)`.
    fn mul(self, other: Kilometer) -> (r: Self::Output)
        ensures
            r.magnitude() == other.0.times(self.magnitude()),
    {
        proof {
            T::lemma_magnitude_of(other.0.times(self.magnitude()));
        }
        crate::composite::Mul(T::new(other.0 * self.0.inner()), PhantomData)
    }
}

impl<T, U> MulSpecImpl<Kilometer> for crate::composite::Mul<T, U> where T: Unit {
    open spec fn obeys_mul_spec() -> bool {
        true
    }

    open spec fn mul_req(self, other: Kilometer) -> bool {
        true
    }

    open spec fn mul_spec(self, other: Kilometer) -> Self::Output {
        crate::composite::Mul(T::of(other.0.times(self.magnitude())), PhantomData)
    }
}

impl<T, U> core::ops::Mul<crate::composite::Div<T, U>> for Kilometer where T: Unit {
    type Output = crate::composite::Mul<Kilometer, crate::composite::Div<T, U>>;

    /// `Kilometer * (T/U)` is `Kilometer*(T/U)`.
    fn mul(self, other: crate::composite::Div<T, U>) -> (r: Self::Output)
        ensures
            r.magnitude() == other.magnitude().times(self.0),
    {
        crate::composite::Mul(Kilometer(other.0.inner() * self.0), PhantomData)
    }
}

impl<T, U> MulSpecImpl<crate::composite::Div<T, U>> for Kilometer where T: Unit {
    open spec fn obeys_mul_spec() -> bool {
        true
    }

    open spec fn mul_req(self, other: crate::composite::Div<T, U>) -> bool {
        true
    }

    open spec fn mul_spec(self, other: crate::composite::Div<T, U>) -> Self::Output {
        crate::composite::Mul(Kilometer(other.magnitude().times(self.0)), PhantomData)
    }
}

impl<T, U> core::ops::Mul<Kilometer> for crate::composite::Div<T, U> where T: Unit {
    type Output = crate::composite::Mul<T, crate::composite::Div<Kilometer, U>>;

    /// `(T/U) * Kilometer` is `T*(Kilometer/U)`.
    fn mul(self, other: Kilometer) -> (r: Self::Output)
        ensures
            r.magnitude() == other.0.times(self.magnitude()),
    {
        proof {
            T::lemma_magnitude_of(other.0.times(self.magnitude()));
        }
        crate::composite::Mul(T::new(other.0 * self.0.inner()), PhantomData)
    }
}

impl<T, U> MulSpecImpl<Kilometer> for crate::composite::Div<T, U> where T: Unit {
    open spec fn obeys_mul_spec() -> bool {
        true
    }

    open spec fn mul_req(self, other: Kilometer) -> bool {
        true
    }

    open spec fn mul_spec(self, other: Kilometer) -> Self::Output {
        crate::composite::Mul(T::of(other.0.times(self.magnitude())), PhantomData)
    }
}

impl<T, U> core::ops::Div<crate::composite::Mul<T, U>> for Kilometer where T: Unit {
    type Output = crate::composite::Div<Kilometer, crate::composite::Mul<T, U>>;

    /// `Kilometer / (T*U)` is `Kilometer/(T*U)`.
    fn div(self, other: crate::composite::Mul<T, U>) -> (r: Self::Output)
        ensures
            r.magnitude() == self.0.over(other.magnitude()),
    {
        crate::composite::Div(Kilometer(self.0 / other.0.inner()), PhantomData)
    }
}

impl<T, U> DivSpecImpl<crate::composite::Mul<T, U>> for Kilometer where T: Unit {
    open spec fn obeys_div_spec() -> bool {
        true
    }

    open spec fn div_req(self, other: crate::composite::Mul<T, U>) -> bool {
        true
    }

    open spec fn div_spec(self, other: crate::composite::Mul<T, U>) -> Self::Output {
        crate::composite::Div(Kilometer(self.0.over(other.magnitude())), PhantomData)
    }
}

impl<T, U> core::ops::Div<Kilometer> for crate::composite::Mul<T, U> where T: Unit {
    type Output = crate::composite::Mul<T, crate::composite::Div<Kilometer, U>>;

    /// `(T*U) / Kilometer` takes the shape `T*(Kilometer/U)`.
    fn div(self, other: Kilometer) -> (r: Self::Output)
        ensures
            r.magnitude() == self.magnitude().over(other.0),
    {
        proof {
            T::lemma_magnitude_of(self.magnitude().over(other.0));
        }
        crate::composite::Mul(T::new(self.0.inner() / other.0), PhantomData)
    }
}

impl<T, U> DivSpecImpl<Kilometer> for crate::composite::Mul<T, U> where T: Unit {
    open spec fn obeys_div_spec() -> bool {
        true
    }

    open spec fn div_req(self, other: Kilometer) -> bool {
        true
    }

    open spec fn div_spec(self, other: Kilometer) -> Self::Output {
        crate::composite::Mul(T::of(self.magnitude().over(other.0)), PhantomData)
    }
}

impl<T, U> core::ops::Div<crate::composite::Div<T, U>> for Kilometer where T: Unit {
    type Output = crate::composite::Div<Kilometer, crate::composite::Div<T, U>>;

    /// `Kilometer / (T/U)` is `Kilometer/(T/U)`.
    fn div(self, other: crate::composite::Div<T, U>) -> (r: Self::Output)
        ensures
            r.magnitude() == self.0.over(other.magnitude()),
    {
        crate::composite::Div(Kilometer(self.0 / other.0.inner()), PhantomData)
    }
}

impl<T, U> DivSpecImpl<crate::composite::Div<T, U>> for Kilometer where T: Unit {
    open spec fn obeys_div_spec() -> bool {
        true
    }

    open spec fn div_req(self, other: crate::composite::Div<T, U>) -> bool {
        true
    }

    open spec fn div_spec(self, other: crate::composite::Div<T, U>) -> Self::Output {
        crate::composite::Div(Kilometer(self.0.over(other.magnitude())), PhantomData)
    }
}

impl<T, U> core::ops::Div<Kilometer> for crate::composite::Div<T, U> where T: Unit {
    type Output = crate::composite::Div<T, crate::composite::Mul<Kilometer, U>>;

    /// `(T/U) / Kilometer` is `T/(Kilometer*U)`.
    fn div(self, other: Kilometer) -> (r: Self::Output)
        ensures
            r.magnitude() == self.magnitude().over(other.0),
    {
        proof {
            T::lemma_magnitude_of(self.magnitude().over(other.0));
        }
        crate::composite::Div(T::new(self.0.inner() / other.0), PhantomData)
    }
}

impl<T, U> DivSpecImpl<Kilometer> for crate::composite::Div<T, U> where T: Unit {
    open spec fn obeys_div_spec() -> bool {
        true
    }

    open spec fn div_req(self, other: Kilometer) -> bool {
        true
    }

    open spec fn div_spec(self, other: Kilometer) -> Self::Output {
        crate::composite::Div(T::of(self.magnitude().over(other.0)), PhantomData)
    }
}

impl core::ops::Mul<Kilometer> for Kilometer {
    type Output = crate::composite::Mul<Kilometer, Kilometer>;

    /// The square of a kilometer: `Kilometer*Kilometer`.
    fn mul(self, other: Kilometer) -> (r: Self::Output)
        ensures
            r.magnitude() == self.0.times(other.0),
    {
        crate::composite::Mul(Kilometer(self.0 * other.0), PhantomData)
    }
}

impl MulSpecImpl<Kilometer> for Kilometer {
    open spec fn obeys_mul_spec() -> bool {
        true
    }

    open spec fn mul_req(self, other: Kilometer) -> bool {
        true
    }

    open spec fn mul_spec(self, other: Kilometer) -> Self::Output {
        crate::composite::Mul(Kilometer(self.0.times(other.0)), PhantomData)
    }
}

impl core::ops::Mul<Meter> for Kilometer {
    type Output = crate::composite::Mul<Kilometer, Meter>;

    /// A kilometer times a meter: `Kilometer*Meter`. Nothing is converted.
    fn mul(self, other: Meter) -> (r: Self::Output)
        ensures
            r.magnitude() == self.0.times(other.0),
    {
        crate::composite::Mul(Kilometer(self.0 * other.0), PhantomData)
    }
}

impl MulSpecImpl<Meter> for Kilometer {
    open spec fn obeys_mul_spec() -> bool {
        true
    }

    open spec fn mul_req(self, other: Meter) -> bool {
        true
    }

    open spec fn mul_spec(self, other: Meter) -> Self::Output {
        crate::composite::Mul(Kilometer(self.0.times(other.0)), PhantomData)
    }
}

impl core::ops::Mul<Centimeter> for Kilometer {
    type Output = crate::composite::Mul<Kilometer, Centimeter>;

    /// A kilometer times a centimeter: `Kilometer*Centimeter`. Nothing is converted.
    fn mul(self, other: Centimeter) -> (r: Self::Output)
        ensures
            r.magnitude() == self.0.times(other.0),
    {
        crate::composite::Mul(Kilometer(self.0 * other.0), PhantomData)
    }
}

impl MulSpecImpl<Centimeter> for Kilometer {
    open spec fn obeys_mul_spec() -> bool {
        true
    }

    open spec fn mul_req(self, other: Centimeter) -> bool {
        true
    }

    open spec fn mul_spec(self, other: Centimeter) -> Self::Output {
        crate::composite::Mul(Kilometer(self.0.times(other.0)), PhantomData)
    }
}

impl core::ops::Mul<Millimeter> for Kilometer {
    type Output = crate::composite::Mul<Kilometer, Millimeter>;

    /// A kilometer times a millimeter: `Kilometer*Millimeter`. Nothing is converted.
    fn mul(self, other: Millimeter) -> (r: Self::Output)
        ensures
            r.magnitude() == self.0.times(other.0),
    {
        crate::composite::Mul(Kilometer(self.0 * other.0), PhantomData)
    }
}

impl MulSpecImpl<Millimeter> for Kilometer {
    open spec fn obeys_mul_spec() -> bool {
        true
    }

    open spec fn mul_req(self, other: Millimeter) -> bool {
        true
    }

    open spec fn mul_spec(self, other: Millimeter) -> Self::Output {
        crate::composite::Mul(Kilometer(self.0.times(other.0)), PhantomData)
    }
}

impl core::ops::Div<Kilometer> for Kilometer {
    type Output = crate::composite::Div<Kilometer, Kilometer>;

    /// A kilometer by a kilometer: `Kilometer/Kilometer`. Nothing is converted.
    fn div(self, other: Kilometer) -> (r: Self::Output)
        ensures
            r.magnitude() == self.0.over(other.0),
    {
        crate::composite::Div(Kilometer(self.0 / other.0), PhantomData)
    }
}

impl DivSpecImpl<Kilometer> for Kilometer {
    open spec fn obeys_div_spec() -> bool {
        true
    }

    open spec fn div_req(self, other: Kilometer) -> bool {
        true
    }

    open spec fn div_spec(self, other: Kilometer) -> Self::Output {
        crate::composite::Div(Kilometer(self.0.over(other.0)), PhantomData)
    }
}

impl core::ops::Div<Meter> for Kilometer {
    type Output = crate::composite::Div<Kilometer, Meter>;

    /// A kilometer by a meter: `Kilometer/Meter`. Nothing is converted.
    fn div(self, other: Meter) -> (r: Self::Output)
        ensures
            r.magnitude() == self.0.over(other.0),
    {
        crate::composite::Div(Kilometer(self.0 / other.0), PhantomData)
    }
}

impl DivSpecImpl<Meter> for Kilometer {
    open spec fn obeys_div_spec() -> bool {
        true
    }

    open spec fn div_req(self, other: Meter) -> bool {
        true
    }

    open spec fn div_spec(self, other: Meter) -> Self::Output {
        crate::composite::Div(Kilometer(self.0.over(other.0)), PhantomData)
    }
}

impl core::ops::Div<Centimeter> for Kilometer {
    type Output = crate::composite::Div<Kilometer, Centimeter>;

    /// A kilometer by a centimeter: `Kilometer/Centimeter`. Nothing is converted.
    fn div(self, other: Centimeter) -> (r: Self::Output)
        ensures
            r.magnitude() == self.0.over(other.0),
    {
        crate::composite::Div(Kilometer(self.0 / other.0), PhantomData)
    }
}

impl DivSpecImpl<Centimeter> for Kilometer {
    open spec fn obeys_div_spec() -> bool {
        true
    }

    open spec fn div_req(self, other: Centimeter) -> bool {
        true
    }

    open spec fn div_spec(self, other: Centimeter) -> Self::Output {
        crate::composite::Div(Kilometer(self.0.over(other.0)), PhantomData)
    }
}

impl core::ops::Div<Millimeter> for Kilometer {
    type Output = crate::composite::Div<Kilometer, Millimeter>;

    /// A kilometer by a millimeter: `Kilometer/Millimeter`. Nothing is converted.
    fn div(self, other: Millimeter) -> (r: Self::Output)
        ensures
            r.magnitude() == self.0.over(other.0),
    {
        crate::composite::Div(Kilometer(self.0 / other.0), PhantomData)
    }
}

impl DivSpecImpl<Millimeter> for Kilometer {
    open spec fn obeys_div_spec() -> bool {
        true
    }

    open spec fn div_req(self, other: Millimeter) -> bool {
        true
    }

    open spec fn div_spec(self, other: Millimeter) -> Self::Output {
        crate::composite::Div(Kilometer(self.0.over(other.0)), PhantomData)
    }
}

} // verus!
