//! The centimeter.

use vstd::prelude::*;
use vstd::std_specs::cmp::{PartialEqSpecImpl, PartialOrdSpecImpl};
use vstd::std_specs::convert::FromSpecImpl;
use vstd::std_specs::ops::{AddSpecImpl, DivSpecImpl, MulSpecImpl, SubSpecImpl};
use core::cmp::Ordering;
use core::marker::PhantomData;
use crate::composite::{Unit, UnitName};
use crate::dimension::{BaseUnit, ConvertInto};
use crate::length::metric::{Kilometer, Meter, Millimeter};
use crate::scalar::Scalar;
use crate::text::{scalar_text, write_scalar};

verus! {

/// A length in centimeters.
#[derive(Clone, Copy)]
pub struct Centimeter(pub Scalar);

pub type Centimeters = Centimeter;

impl Unit for Centimeter {
    open spec fn magnitude(&self) -> Scalar {
        self.0
    }

    open spec fn of(val: Scalar) -> Self {
        Centimeter(val)
    }

    proof fn lemma_magnitude_of(val: Scalar) {
    }

    proof fn lemma_of_magnitude(u: Self) {
    }

    fn new(val: Scalar) -> (r: Self) {
        Centimeter(val)
    }

    fn inner(&self) -> (r: Scalar) {
        self.0
    }
}

impl BaseUnit for Centimeter {
    open spec fn scale() -> real {
        1real / 100real
    }

    proof fn lemma_scale_positive() {
    }
}

impl UnitName for Centimeter {
    open spec fn unit_name() -> Seq<char> {
        "cm"@
    }

    open spec fn unit_label() -> Seq<char> {
        "cm"@
    }

    fn get_unit(&self) -> (r: &'static str) {
        "cm"
    }

    fn get_unit_static() -> (r: &'static str) {
        "cm"
    }

    fn write_unit_static(out: &mut String) {
        out.append("cm");
    }
}

impl Centimeter {
    /// Appends the length to `out`: the magnitude, then at once `cm`.
    pub fn fmt(&self, out: &mut String)
        ensures
            final(out)@ == old(out)@ + scalar_text(self.0) + "cm"@,
    {
        write_scalar(out, self.0);
        out.append("cm");
    }
}

impl ConvertInto<Centimeter> for Centimeter {
    open spec fn converted(self) -> Centimeter {
        self
    }

    proof fn lemma_converted(self) {
        let x = self.0@->0;
        assert(x * ((1real / 100real) / (1real / 100real)) == x) by (nonlinear_arith);
    }

    fn convert(self) -> (r: Centimeter) {
        self
    }
}

impl From<Meter> for Centimeter {
    /// A meter is 100 centimeters.
    fn from(f: Meter) -> (r: Centimeter)
        ensures
            r == Centimeter(f.0.times(Scalar::of_int(100))),
    {
        Centimeter(f.0 * Scalar::from_int(100))
    }
}

impl FromSpecImpl<Meter> for Centimeter {
    open spec fn obeys_from_spec() -> bool {
        true
    }

    open spec fn from_spec(f: Meter) -> Centimeter {
        Centimeter(f.0.times(Scalar::of_int(100)))
    }
}

impl ConvertInto<Centimeter> for Meter {
    open spec fn converted(self) -> Centimeter {
        Centimeter(self.0.times(Scalar::of_int(100)))
    }

    proof fn lemma_converted(self) {
        Scalar::lemma_of_int(100);
        Scalar::lemma_arithmetic(self.0, Scalar::of_int(100));
        let x = self.0@->0;
        assert(x * 100real == x * (1real / (1real / 100real))) by (nonlinear_arith);
    }

    fn convert(self) -> (r: Centimeter) {
        Centimeter::from(self)
    }
}

impl From<Kilometer> for Centimeter {
    /// A kilometer is 100_000 centimeters.
    fn from(f: Kilometer) -> (r: Centimeter)
        ensures
            r == Centimeter(f.0.times(Scalar::of_int(100_000))),
    {
        Centimeter(f.0 * Scalar::from_int(100_000))
    }
}

impl FromSpecImpl<Kilometer> for Centimeter {
    open spec fn obeys_from_spec() -> bool {
        true
    }

    open spec fn from_spec(f: Kilometer) -> Centimeter {
        Centimeter(f.0.times(Scalar::of_int(100_000)))
    }
}

impl<'a> From<&'a Kilometer> for Centimeter {
    /// A kilometer is 100_000 centimeters.
    fn from(f: &'a Kilometer) -> (r: Centimeter)
        ensures
            r == Centimeter(f.0.times(Scalar::of_int(100_000))),
    {
        Centimeter(f.0 * Scalar::from_int(100_000))
    }
}

impl<'a> FromSpecImpl<&'a Kilometer> for Centimeter {
    open spec fn obeys_from_spec() -> bool {
        true
    }

    open spec fn from_spec(f: &'a Kilometer) -> Centimeter {
        Centimeter(f.0.times(Scalar::of_int(100_000)))
    }
}

impl ConvertInto<Centimeter> for Kilometer {
    open spec fn converted(self) -> Centimeter {
        Centimeter(self.0.times(Scalar::of_int(100_000)))
    }

    proof fn lemma_converted(self) {
        Scalar::lemma_of_int(100_000);
        Scalar::lemma_arithmetic(self.0, Scalar::of_int(100_000));
        let x = self.0@->0;
        assert(x * 100000real == x * (1000real / (1real / 100real))) by (nonlinear_arith);
    }

    fn convert(self) -> (r: Centimeter) {
        Centimeter::from(self)
    }
}

impl From<Millimeter> for Centimeter {
    /// 10 millimeters are a centimeter.
    fn from(f: Millimeter) -> (r: Centimeter)
        ensures
            r == Centimeter(f.0.over(Scalar::of_int(10))),
    {
        Centimeter(f.0 / Scalar::from_int(10))
    }
}

impl FromSpecImpl<Millimeter> for Centimeter {
    open spec fn obeys_from_spec() -> bool {
        true
    }

    open spec fn from_spec(f: Millimeter) -> Centimeter {
        Centimeter(f.0.over(Scalar::of_int(10)))
    }
}

impl<'a> From<&'a Millimeter> for Centimeter {
    /// 10 millimeters are a centimeter.
    fn from(f: &'a Millimeter) -> (r: Centimeter)
        ensures
            r == Centimeter(f.0.over(Scalar::of_int(10))),
    {
        Centimeter(f.0 / Scalar::from_int(10))
    }
}

impl<'a> FromSpecImpl<&'a Millimeter> for Centimeter {
    open spec fn obeys_from_spec() -> bool {
        true
    }

    open spec fn from_spec(f: &'a Millimeter) -> Centimeter {
        Centimeter(f.0.over(Scalar::of_int(10)))
    }
}

impl ConvertInto<Centimeter> for Millimeter {
    open spec fn converted(self) -> Centimeter {
        Centimeter(self.0.over(Scalar::of_int(10)))
    }

    proof fn lemma_converted(self) {
        Scalar::lemma_of_int(10);
        Scalar::lemma_arithmetic(self.0, Scalar::of_int(10));
        let x = self.0@->0;
        assert(x / 10real == x * ((1real / 1000real) / (1real / 100real))) by (nonlinear_arith);
    }

    fn convert(self) -> (r: Centimeter) {
        Centimeter::from(self)
    }
}

impl<T> core::ops::Add<T> for Centimeter where T: ConvertInto<Centimeter> {
    type Output = Centimeter;

    /// The sum, in centimeters: the other length is converted first.
    fn add(self, other: T) -> (r: Centimeter)
        ensures
            r == Centimeter(self.0.plus(other.converted().0)),
    {
        let other: Centimeter = other.convert();
        Centimeter(self.0 + other.0)
    }
}

impl<T> AddSpecImpl<T> for Centimeter where T: ConvertInto<Centimeter> {
    open spec fn obeys_add_spec() -> bool {
        true
    }

    open spec fn add_req(self, other: T) -> bool {
        true
    }

    open spec fn add_spec(self, other: T) -> Centimeter {
        Centimeter(self.0.plus(other.converted().0))
    }
}

impl<T> core::ops::AddAssign<T> for Centimeter where T: ConvertInto<Centimeter> {
    /// Adds in place: the other length is converted first.
    fn add_assign(&mut self, other: T)
        ensures
            *final(self) == Centimeter(old(self).0.plus(other.converted().0)),
    {
        let other: Centimeter = other.convert();
        self.0 = self.0 + other.0;
    }
}

impl<T> core::ops::Sub<T> for Centimeter where T: ConvertInto<Centimeter> {
    type Output = Centimeter;

    /// The difference, in centimeters: the other length is converted first.
    fn sub(self, other: T) -> (r: Centimeter)
        ensures
            r == Centimeter(self.0.minus(other.converted().0)),
    {
        let other: Centimeter = other.convert();
        Centimeter(self.0 - other.0)
    }
}

impl<T> SubSpecImpl<T> for Centimeter where T: ConvertInto<Centimeter> {
    open spec fn obeys_sub_spec() -> bool {
        true
    }

    open spec fn sub_req(self, other: T) -> bool {
        true
    }

    open spec fn sub_spec(self, other: T) -> Centimeter {
        Centimeter(self.0.minus(other.converted().0))
    }
}

impl<T> core::ops::SubAssign<T> for Centimeter where T: ConvertInto<Centimeter> {
    /// Subtracts in place: the other length is converted first.
    fn sub_assign(&mut self, other: T)
        ensures
            *final(self) == Centimeter(old(self).0.minus(other.converted().0)),
    {
        let other: Centimeter = other.convert();
        self.0 = self.0 - other.0;
    }
}

impl Centimeter {
    /// The ratio of two lengths, a pure number: the other length is converted
    /// first.
    pub fn ratio<T>(self, other: T) -> (r: Scalar) where T: ConvertInto<Centimeter>
        ensures
            r == self.0.over(other.converted().0),
    {
        let other: Centimeter = other.convert();
        self.0 / other.0
    }
}

impl core::ops::Mul<Scalar> for Centimeter {
    type Output = Centimeter;

    /// Scales the magnitude; the unit stays.
    fn mul(self, other: Scalar) -> (r: Centimeter)
        ensures
            r == Centimeter(self.0.times(other)),
    {
        Centimeter(self.0 * other)
    }
}

impl MulSpecImpl<Scalar> for Centimeter {
    open spec fn obeys_mul_spec() -> bool {
        true
    }

    open spec fn mul_req(self, other: Scalar) -> bool {
        true
    }

    open spec fn mul_spec(self, other: Scalar) -> Centimeter {
        Centimeter(self.0.times(other))
    }
}

impl core::ops::Mul<Centimeter> for Scalar {
    type Output = Centimeter;

    /// Scales the magnitude; the unit stays.
    fn mul(self, other: Centimeter) -> (r: Centimeter)
        ensures
            r == Centimeter(self.times(other.0)),
    {
        Centimeter(self * other.0)
    }
}

impl MulSpecImpl<Centimeter> for Scalar {
    open spec fn obeys_mul_spec() -> bool {
        true
    }

    open spec fn mul_req(self, other: Centimeter) -> bool {
        true
    }

    open spec fn mul_spec(self, other: Centimeter) -> Centimeter {
        Centimeter(self.times(other.0))
    }
}

impl core::ops::Mul<i64> for Centimeter {
    type Output = Centimeter;

    /// Scales the magnitude by an integer; the unit stays.
    fn mul(self, other: i64) -> (r: Centimeter)
        ensures
            r == Centimeter(self.0.times(Scalar::of_int(other as int))),
    {
        Centimeter(self.0 * Scalar::from_int(other))
    }
}

impl MulSpecImpl<i64> for Centimeter {
    open spec fn obeys_mul_spec() -> bool {
        true
    }

    open spec fn mul_req(self, other: i64) -> bool {
        true
    }

    open spec fn mul_spec(self, other: i64) -> Centimeter {
        Centimeter(self.0.times(Scalar::of_int(other as int)))
    }
}

impl core::ops::Mul<Centimeter> for i64 {
    type Output = Centimeter;

    /// Scales the magnitude by an integer; the unit stays.
    fn mul(self, other: Centimeter) -> (r: Centimeter)
        ensures
            r == Centimeter(Scalar::of_int(self as int).times(other.0)),
    {
        Centimeter(Scalar::from_int(self) * other.0)
    }
}

impl MulSpecImpl<Centimeter> for i64 {
    open spec fn obeys_mul_spec() -> bool {
        true
    }

    open spec fn mul_req(self, other: Centimeter) -> bool {
        true
    }

    open spec fn mul_spec(self, other: Centimeter) -> Centimeter {
        Centimeter(Scalar::of_int(self as int).times(other.0))
    }
}

impl core::ops::MulAssign<Scalar> for Centimeter {
    /// Scales the magnitude in place.
    fn mul_assign(&mut self, other: Scalar)
        ensures
            *final(self) == Centimeter(old(self).0.times(other)),
    {
        self.0 = self.0 * other;
    }
}

impl core::ops::MulAssign<i64> for Centimeter {
    /// Scales the magnitude in place by an integer.
    fn mul_assign(&mut self, other: i64)
        ensures
            *final(self) == Centimeter(old(self).0.times(Scalar::of_int(other as int))),
    {
        self.0 = self.0 * Scalar::from_int(other);
    }
}

impl core::ops::Div<Scalar> for Centimeter {
    type Output = Centimeter;

    /// Divides the magnitude; the unit stays.
    fn div(self, other: Scalar) -> (r: Centimeter)
        ensures
            r == Centimeter(self.0.over(other)),
    {
        Centimeter(self.0 / other)
    }
}

impl DivSpecImpl<Scalar> for Centimeter {
    open spec fn obeys_div_spec() -> bool {
        true
    }

    open spec fn div_req(self, other: Scalar) -> bool {
        true
    }

    open spec fn div_spec(self, other: Scalar) -> Centimeter {
        Centimeter(self.0.over(other))
    }
}

impl core::ops::Div<i64> for Centimeter {
    type Output = Centimeter;

    /// Divides the magnitude by an integer; the unit stays.
    fn div(self, other: i64) -> (r: Centimeter)
        ensures
            r == Centimeter(self.0.over(Scalar::of_int(other as int))),
    {
        Centimeter(self.0 / Scalar::from_int(other))
    }
}

impl DivSpecImpl<i64> for Centimeter {
    open spec fn obeys_div_spec() -> bool {
        true
    }

    open spec fn div_req(self, other: i64) -> bool {
        true
    }

    open spec fn div_spec(self, other: i64) -> Centimeter {
        Centimeter(self.0.over(Scalar::of_int(other as int)))
    }
}

impl core::ops::DivAssign<Scalar> for Centimeter {
    /// Divides the magnitude in place.
    fn div_assign(&mut self, other: Scalar)
        ensures
            *final(self) == Centimeter(old(self).0.over(other)),
    {
        self.0 = self.0 / other;
    }
}

impl core::ops::DivAssign<i64> for Centimeter {
    /// Divides the magnitude in place by an integer.
    fn div_assign(&mut self, other: i64)
        ensures
            *final(self) == Centimeter(old(self).0.over(Scalar::of_int(other as int))),
    {
        self.0 = self.0 / Scalar::from_int(other);
    }
}

impl<T> PartialEq<T> for Centimeter where T: Copy + ConvertInto<Centimeter> {
    /// Whether both are the same length: the other is converted first.
    fn eq(&self, other: &T) -> (r: bool)
        ensures
            r == self.0.same(other.converted().0),
    {
        let other_t: T = *other;
        let other: Centimeter = other_t.convert();
        self.0 == other.0
    }
}

impl<T> PartialEqSpecImpl<T> for Centimeter where T: Copy + ConvertInto<Centimeter> {
    open spec fn obeys_eq_spec() -> bool {
        true
    }

    open spec fn eq_spec(&self, other: &T) -> bool {
        self.0.same(other.converted().0)
    }
}

impl<T> PartialOrd<T> for Centimeter where T: Copy + ConvertInto<Centimeter> {
    /// The order of two lengths: the other is converted first.
    fn partial_cmp(&self, other: &T) -> (r: Option<Ordering>)
        ensures
            r == self.0.ordering(other.converted().0),
    {
        let other_t: T = *other;
        let other: Centimeter = other_t.convert();
        self.0.partial_cmp(&other.0)
    }
}

impl<T> PartialOrdSpecImpl<T> for Centimeter where T: Copy + ConvertInto<Centimeter> {
    open spec fn obeys_partial_cmp_spec() -> bool {
        true
    }

    open spec fn partial_cmp_spec(&self, other: &T) -> Option<Ordering> {
        self.0.ordering(other.converted().0)
    }
}

impl<T, U> core::ops::Mul<crate::composite::Mul<T, U>> for Centimeter where T: Unit {
    type Output = crate::composite::Mul<Centimeter, crate::composite::Mul<T, U>>;

    /// `Centimeter * (T*U)` is `Centimeter*(T*U)`.
    fn mul(self, other: crate::composite::Mul<T, U>) -> (r: Self::Output)
        ensures
            r.magnitude() == other.magnitude().times(self.0),
    {
        crate::composite::Mul(Centimeter(other.0.inner() * self.0), PhantomData)
    }
}

impl<T, U> MulSpecImpl<crate::composite::Mul<T, U>> for Centimeter where T: Unit {
    open spec fn obeys_mul_spec() -> bool {
        true
    }

    open spec fn mul_req(self, other: crate::composite::Mul<T, U>) -> bool {
        true
    }

    open spec fn mul_spec(self, other: crate::composite::Mul<T, U>) -> Self::Output {
        crate::composite::Mul(Centimeter(other.magnitude().times(self.0)), PhantomData)
    }
}

impl<T, U> core::ops::Mul<Centimeter> for crate::composite::Mul<T, U> where T: Unit {
    type Output = crate::composite::Mul<T, crate::composite::Mul<Centimeter, U>>;

    /// `(T*U) * Centimeter` is `T*(Centimeter*U)`.
    fn mul(self, other: Centimeter) -> (r: Self::Output)
        ensures
            r.magnitude() == other.0.times(self.magnitude()),
    {
        proof {
            T::lemma_magnitude_of(other.0.times(self.magnitude()));
        }
        crate::composite::Mul(T::new(other.0 * self.0.inner()), PhantomData)
    }
}

impl<T, U> MulSpecImpl<Centimeter> for crate::composite::Mul<T, U> where T: Unit {
    open spec fn obeys_mul_spec() -> bool {
        true
    }

    open spec fn mul_req(self, other: Centimeter) -> bool {
        true
    }

    open spec fn mul_spec(self, other: Centimeter) -> Self::Output {
        crate::composite::Mul(T::of(other.0.times(self.magnitude())), PhantomData)
    }
}

impl<T, U> core::ops::Mul<crate::composite::Div<T, U>> for Centimeter where T: Unit {
    type Output = crate::composite::Mul<Centimeter, crate::composite::Div<T, U>>;

    /// `Centimeter * (T/U)` is `Centimeter*(T/U)`.
    fn mul(self, other: crate::composite::Div<T, U>) -> (r: Self::Output)
        ensures
            r.magnitude() == other.magnitude().times(self.0),
    {
        crate::composite::Mul(Centimeter(other.0.inner() * self.0), PhantomData)
    }
}

impl<T, U> MulSpecImpl<crate::composite::Div<T, U>> for Centimeter where T: Unit {
    open spec fn obeys_mul_spec() -> bool {
        true
    }

    open spec fn mul_req(self, other: crate::composite::Div<T, U>) -> bool {
        true
    }

    open spec fn mul_spec(self, other: crate::composite::Div<T, U>) -> Self::Output {
        crate::composite::Mul(Centimeter(other.magnitude().times(self.0)), PhantomData)
    }
}

impl<T, U> core::ops::Mul<Centimeter> for crate::composite::Div<T, U> where T: Unit {
    type Output = crate::composite::Mul<T, crate::composite::Div<Centimeter, U>>;

    /// `(T/U) * Centimeter` is `T*(Centimeter/U)`.
    fn mul(self, other: Centimeter) -> (r: Self::Output)
        ensures
            r.magnitude() == other.0.times(self.magnitude()),
    {
        proof {
            T::lemma_magnitude_of(other.0.times(self.magnitude()));
        }
        crate::composite::Mul(T::new(other.0 * self.0.inner()), PhantomData)
    }
}

impl<T, U> MulSpecImpl<Centimeter> for crate::composite::Div<T, U> where T: Unit {
    open spec fn obeys_mul_spec() -> bool {
        true
    }

    open spec fn mul_req(self, other: Centimeter) -> bool {
        true
    }

    open spec fn mul_spec(self, other: Centimeter) -> Self::Output {
        crate::composite::Mul(T::of(other.0.times(self.magnitude())), PhantomData)
    }
}

impl<T, U> core::ops::Div<crate::composite::Mul<T, U>> for Centimeter where T: Unit {
    type Output = crate::composite::Div<Centimeter, crate::composite::Mul<T, U>>;

    /// `Centimeter / (T*U)` is `Centimeter/(T*U)`.
    fn div(self, other: crate::composite::Mul<T, U>) -> (r: Self::Output)
        ensures
            r.magnitude() == self.0.over(other.magnitude()),
    {
        crate::composite::Div(Centimeter(self.0 / other.0.inner()), PhantomData)
    }
}

impl<T, U> DivSpecImpl<crate::composite::Mul<T, U>> for Centimeter where T: Unit {
    open spec fn obeys_div_spec() -> bool {
        true
    }

    open spec fn div_req(self, other: crate::composite::Mul<T, U>) -> bool {
        true
    }

    open spec fn div_spec(self, other: crate::composite::Mul<T, U>) -> Self::Output {
        crate::composite::Div(Centimeter(self.0.over(other.magnitude())), PhantomData)
    }
}

impl<T, U> core::ops::Div<Centimeter> for crate::composite::Mul<T, U> where T: Unit {
    type Output = crate::composite::Mul<T, crate::composite::Div<Centimeter, U>>;

    /// `(T*U) / Centimeter` takes the shape `T*(Centimeter/U)`.
    fn div(self, other: Centimeter) -> (r: Self::Output)
        ensures
            r.magnitude() == self.magnitude().over(other.0),
    {
        proof {
            T::lemma_magnitude_of(self.magnitude().over(other.0));
        }
        crate::composite::Mul(T::new(self.0.inner() / other.0), PhantomData)
    }
}

impl<T, U> DivSpecImpl<Centimeter> for crate::composite::Mul<T, U> where T: Unit {
    open spec fn obeys_div_spec() -> bool {
        true
    }

    open spec fn div_req(self, other: Centimeter) -> bool {
        true
    }

    open spec fn div_spec(self, other: Centimeter) -> Self::Output {
        crate::composite::Mul(T::of(self.magnitude().over(other.0)), PhantomData)
    }
}

impl<T, U> core::ops::Div<crate::composite::Div<T, U>> for Centimeter where T: Unit {
    type Output = crate::composite::Div<Centimeter, crate::composite::Div<T, U>>;

    /// `Centimeter / (T/U)` is `Centimeter/(T/U)`.
    fn div(self, other: crate::composite::Div<T, U>) -> (r: Self::Output)
        ensures
            r.magnitude() == self.0.over(other.magnitude()),
    {
        crate::composite::Div(Centimeter(self.0 / other.0.inner()), PhantomData)
    }
}

impl<T, U> DivSpecImpl<crate::composite::Div<T, U>> for Centimeter where T: Unit {
    open spec fn obeys_div_spec() -> bool {
        true
    }

    open spec fn div_req(self, other: crate::composite::Div<T, U>) -> bool {
        true
    }

    open spec fn div_spec(self, other: crate::composite::Div<T, U>) -> Self::Output {
        crate::composite::Div(Centimeter(self.0.over(other.magnitude())), PhantomData)
    }
}

impl<T, U> core::ops::Div<Centimeter> for crate::composite::Div<T, U> where T: Unit {
    type Output = crate::composite::Div<T, crate::composite::Mul<Centimeter, U>>;

    /// `(T/U) / Centimeter` is `T/(Centimeter*U)`.
    fn div(self, other: Centimeter) -> (r: Self::Output)
        ensures
            r.magnitude() == self.magnitude().over(other.0),
    {
        proof {
            T::lemma_magnitude_of(self.magnitude().over(other.0));
        }
        crate::composite::Div(T::new(self.0.inner() / other.0), PhantomData)
    }
}

impl<T, U> DivSpecImpl<Centimeter> for crate::composite::Div<T, U> where T: Unit {
    open spec fn obeys_div_spec() -> bool {
        true
    }

    open spec fn div_req(self, other: Centimeter) -> bool {
        true
    }

    open spec fn div_spec(self, other: Centimeter) -> Self::Output {
        crate::composite::Div(T::of(self.magnitude().over(other.0)), PhantomData)
    }
}

impl core::ops::Mul<Centimeter> for Centimeter {
    type Output = crate::composite::Mul<Centimeter, Centimeter>;

    /// The square of a centimeter: `Centimeter*Centimeter`.
    fn mul(self, other: Centimeter) -> (r: Self::Output)
        ensures
            r.magnitude() == self.0.times(other.0),
    {
        crate::composite::Mul(Centimeter(self.0 * other.0), PhantomData)
    }
}

impl MulSpecImpl<Centimeter> for Centimeter {
    open spec fn obeys_mul_spec() -> bool {
        true
    }

    open spec fn mul_req(self, other: Centimeter) -> bool {
        true
    }

    open spec fn mul_spec(self, other: Centimeter) -> Self::Output {
        crate::composite::Mul(Centimeter(self.0.times(other.0)), PhantomData)
    }
}

impl core::ops::Mul<Meter> for Centimeter {
    type Output = crate::composite::Mul<Centimeter, Meter>;

    /// A centimeter times a meter: `Centimeter*Meter`. Nothing is converted.
    fn mul(self, other: Meter) -> (r: Self::Output)
        ensures
            r.magnitude() == self.0.times(other.0),
    {
        crate::composite::Mul(Centimeter(self.0 * other.0), PhantomData)
    }
}

impl MulSpecImpl<Meter> for Centimeter {
    open spec fn obeys_mul_spec() -> bool {
        true
    }

    open spec fn mul_req(self, other: Meter) -> bool {
        true
    }

    open spec fn mul_spec(self, other: Meter) -> Self::Output {
        crate::composite::Mul(Centimeter(self.0.times(other.0)), PhantomData)
    }
}

impl core::ops::Mul<Kilometer> for Centimeter {
    type Output = crate::composite::Mul<Centimeter, Kilometer>;

    /// A centimeter times a kilometer: `Centimeter*Kilometer`. Nothing is converted.
    fn mul(self, other: Kilometer) -> (r: Self::Output)
        ensures
            r.magnitude() == self.0.times(other.0),
    {
        crate::composite::Mul(Centimeter(self.0 * other.0), PhantomData)
    }
}

impl MulSpecImpl<Kilometer> for Centimeter {
    open spec fn obeys_mul_spec() -> bool {
        true
    }

    open spec fn mul_req(self, other: Kilometer) -> bool {
        true
    }

    open spec fn mul_spec(self, other: Kilometer) -> Self::Output {
        crate::composite::Mul(Centimeter(self.0.times(other.0)), PhantomData)
    }
}

impl core::ops::Mul<Millimeter> for Centimeter {
    type Output = crate::composite::Mul<Centimeter, Millimeter>;

    /// A centimeter times a millimeter: `Centimeter*Millimeter`. Nothing is converted.
    fn mul(self, other: Millimeter) -> (r: Self::Output)
        ensures
            r.magnitude() == self.0.times(other.0),
    {
        crate::composite::Mul(Centimeter(self.0 * other.0), PhantomData)
    }
}

impl MulSpecImpl<Millimeter> for Centimeter {
    open spec fn obeys_mul_spec() -> bool {
        true
    }

    open spec fn mul_req(self, other: Millimeter) -> bool {
        true
    }

    open spec fn mul_spec(self, other: Millimeter) -> Self::Output {
        crate::composite::Mul(Centimeter(self.0.times(other.0)), PhantomData)
    }
}

impl core::ops::Div<Centimeter> for Centimeter {
    type Output = crate::composite::Div<Centimeter, Centimeter>;

    /// A centimeter by a centimeter: `Centimeter/Centimeter`. Nothing is converted.
    fn div(self, other: Centimeter) -> (r: Self::Output)
        ensures
            r.magnitude() == self.0.over(other.0),
    {
        crate::composite::Div(Centimeter(self.0 / other.0), PhantomData)
    }
}

impl DivSpecImpl<Centimeter> for Centimeter {
    open spec fn obeys_div_spec() -> bool {
        true
    }

    open spec fn div_req(self, other: Centimeter) -> bool {
        true
    }

    open spec fn div_spec(self, other: Centimeter) -> Self::Output {
        crate::composite::Div(Centimeter(self.0.over(other.0)), PhantomData)
    }
}

impl core::ops::Div<Meter> for Centimeter {
    type Output = crate::composite::Div<Centimeter, Meter>;

    /// A centimeter by a meter: `Centimeter/Meter`. Nothing is converted.
    fn div(self, other: Meter) -> (r: Self::Output)
        ensures
            r.magnitude() == self.0.over(other.0),
    {
        crate::composite::Div(Centimeter(self.0 / other.0), PhantomData)
    }
}

impl DivSpecImpl<Meter> for Centimeter {
    open spec fn obeys_div_spec() -> bool {
        true
    }

    open spec fn div_req(self, other: Meter) -> bool {
        true
    }

    open spec fn div_spec(self, other: Meter) -> Self::Output {
        crate::composite::Div(Centimeter(self.0.over(other.0)), PhantomData)
    }
}

impl core::ops::Div<Kilometer> for Centimeter {
    type Output = crate::composite::Div<Centimeter, Kilometer>;

    /// A centimeter by a kilometer: `Centimeter/Kilometer`. Nothing is converted.
    fn div(self, other: Kilometer) -> (r: Self::Output)
        ensures
            r.magnitude() == self.0.over(other.0),
    {
        crate::composite::Div(Centimeter(self.0 / other.0), PhantomData)
    }
}

impl DivSpecImpl<Kilometer> for Centimeter {
    open spec fn obeys_div_spec() -> bool {
        true
    }

    open spec fn div_req(self, other: Kilometer) -> bool {
        true
    }

    open spec fn div_spec(self, other: Kilometer) -> Self::Output {
        crate::composite::Div(Centimeter(self.0.over(other.0)), PhantomData)
    }
}

impl core::ops::Div<Millimeter> for Centimeter {
    type Output = crate::composite::Div<Centimeter, Millimeter>;

    /// A centimeter by a millimeter: `Centimeter/Millimeter`. Nothing is converted.
    fn div(self, other: Millimeter) -> (r: Self::Output)
        ensures
            r.magnitude() == self.0.over(other.0),
    {
        crate::composite::Div(Centimeter(self.0 / other.0), PhantomData)
    }
}

impl DivSpecImpl<Millimeter> for Centimeter {
    open spec fn obeys_div_spec() -> bool {
        true
    }

    open spec fn div_req(self, other: Millimeter) -> bool {
        true
    }

    open spec fn div_spec(self, other: Millimeter) -> Self::Output {
        crate::composite::Div(Centimeter(self.0.over(other.0)), PhantomData)
    }
}

} // verus!
