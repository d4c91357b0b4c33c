//! The millimeter.

use vstd::prelude::*;
use vstd::std_specs::cmp::{PartialEqSpecImpl, PartialOrdSpecImpl};
use vstd::std_specs::convert::FromSpecImpl;
use vstd::std_specs::ops::{AddSpecImpl, DivSpecImpl, MulSpecImpl, SubSpecImpl};
use core::cmp::Ordering;
use core::marker::PhantomData;
use crate::composite::{Unit, UnitName};
use crate::dimension::{BaseUnit, ConvertInto};
use crate::length::metric::{Centimeter, Kilometer, Meter};
use crate::scalar::Scalar;
use crate::text::{scalar_text, write_scalar};

verus! {

/// A length in millimeters.
#[derive(Clone, Copy)]
pub struct Millimeter(pub Scalar);

pub type Millimeters = Millimeter;

impl Unit for Millimeter {
    open spec fn magnitude(&self) -> Scalar {
        self.0
    }

    open spec fn of(val: Scalar) -> Self {
        Millimeter(val)
    }

    proof fn lemma_magnitude_of(val: Scalar) {
    }

    proof fn lemma_of_magnitude(u: Self) {
    }

    fn new(val: Scalar) -> (r: Self) {
        Millimeter(val)
    }

    fn inner(&self) -> (r: Scalar) {
        self.0
    }
}

impl BaseUnit for Millimeter {
    open spec fn scale() -> real {
        1real / 1000real
    }

    proof fn lemma_scale_positive() {
    }
}

impl UnitName for Millimeter {
    open spec fn unit_name() -> Seq<char> {
        "mm"@
    }

    open spec fn unit_label() -> Seq<char> {
        "mm"@
    }

    fn get_unit(&self) -> (r: &'static str) {
        "mm"
    }

    fn get_unit_static() -> (r: &'static str) {
        "mm"
    }

    fn write_unit_static(out: &mut String) {
        out.append("mm");
    }
}

impl Millimeter {
    /// Appends the length to `out`: the magnitude, then at once `mm`.
    pub fn fmt(&self, out: &mut String)
        ensures
            final(out)@ == old(out)@ + scalar_text(self.0) + "mm"@,
    {
        write_scalar(out, self.0);
        out.append("mm");
    }
}

impl ConvertInto<Millimeter> for Millimeter {
    open spec fn converted(self) -> Millimeter {
        self
    }

    proof fn lemma_converted(self) {
        let x = self.0@->0;
        assert(x * ((1real / 1000real) / (1real / 1000real)) == x) by (nonlinear_arith);
    }

    fn convert(self) -> (r: Millimeter) {
        self
    }
}

impl From<Meter> for Millimeter {
    /// A meter is 1_000 millimeters.
    fn from(f: Meter) -> (r: Millimeter)
        ensures
            r == Millimeter(f.0.times(Scalar::of_int(1_000))),
    {
        Millimeter(f.0 * Scalar::from_int(1_000))
    }
}

impl FromSpecImpl<Meter> for Millimeter {
    open spec fn obeys_from_spec() -> bool {
        true
    }

    open spec fn from_spec(f: Meter) -> Millimeter {
        Millimeter(f.0.times(Scalar::of_int(1_000)))
    }
}

impl ConvertInto<Millimeter> for Meter {
    open spec fn converted(self) -> Millimeter {
        Millimeter(self.0.times(Scalar::of_int(1_000)))
    }

    proof fn lemma_converted(self) {
        Scalar::lemma_of_int(1_000);
        Scalar::lemma_arithmetic(self.0, Scalar::of_int(1_000));
        let x = self.0@->0;
        assert(x * 1000real == x * (1real / (1real / 1000real))) by (nonlinear_arith);
    }

    fn convert(self) -> (r: Millimeter) {
        Millimeter::from(self)
    }
}

impl From<Kilometer> for Millimeter {
    /// A kilometer is 1_000_000 millimeters.
    fn from(f: Kilometer) -> (r: Millimeter)
        ensures
            r == Millimeter(f.0.times(Scalar::of_int(1_000_000))),
    {
        Millimeter(f.0 * Scalar::from_int(1_000_000))
    }
}

impl FromSpecImpl<Kilometer> for Millimeter {
    open spec fn obeys_from_spec() -> bool {
        true
    }

    open spec fn from_spec(f: Kilometer) -> Millimeter {
        Millimeter(f.0.times(Scalar::of_int(1_000_000)))
    }
}

impl<'a> From<&'a Kilometer> for Millimeter {
    /// A kilometer is 1_000_000 millimeters.
    fn from(f: &'a Kilometer) -> (r: Millimeter)
        ensures
            r == Millimeter(f.0.times(Scalar::of_int(1_000_000))),
    {
        Millimeter(f.0 * Scalar::from_int(1_000_000))
    }
}

impl<'a> FromSpecImpl<&'a Kilometer> for Millimeter {
    open spec fn obeys_from_spec() -> bool {
        true
    }

    open spec fn from_spec(f: &'a Kilometer) -> Millimeter {
        Millimeter(f.0.times(Scalar::of_int(1_000_000)))
    }
}

impl ConvertInto<Millimeter> for Kilometer {
    open spec fn converted(self) -> Millimeter {
        Millimeter(self.0.times(Scalar::of_int(1_000_000)))
    }

    proof fn lemma_converted(self) {
        Scalar::lemma_of_int(1_000_000);
        Scalar::lemma_arithmetic(self.0, Scalar::of_int(1_000_000));
        let x = self.0@->0;
        assert(x * 1000000real == x * (1000real / (1real / 1000real))) by (nonlinear_arith);
    }

    fn convert(self) -> (r: Millimeter) {
        Millimeter::from(self)
    }
}

impl From<Centimeter> for Millimeter {
    /// A centimeter is 10 millimeters.
    fn from(f: Centimeter) -> (r: Millimeter)
        ensures
            r == Millimeter(f.0.times(Scalar::of_int(10))),
    {
        Millimeter(f.0 * Scalar::from_int(10))
    }
}

impl FromSpecImpl<Centimeter> for Millimeter {
    open spec fn obeys_from_spec() -> bool {
        true
    }

    open spec fn from_spec(f: Centimeter) -> Millimeter {
        Millimeter(f.0.times(Scalar::of_int(10)))
    }
}

impl<'a> From<&'a Centimeter> for Millimeter {
    /// A centimeter is 10 millimeters.
    fn from(f: &'a Centimeter) -> (r: Millimeter)
        ensures
            r == Millimeter(f.0.times(Scalar::of_int(10))),
    {
        Millimeter(f.0 * Scalar::from_int(10))
    }
}

impl<'a> FromSpecImpl<&'a Centimeter> for Millimeter {
    open spec fn obeys_from_spec() -> bool {
        true
    }

    open spec fn from_spec(f: &'a Centimeter) -> Millimeter {
        Millimeter(f.0.times(Scalar::of_int(10)))
    }
}

impl ConvertInto<Millimeter> for Centimeter {
    open spec fn converted(self) -> Millimeter {
        Millimeter(self.0.times(Scalar::of_int(10)))
    }

    proof fn lemma_converted(self) {
        Scalar::lemma_of_int(10);
        Scalar::lemma_arithmetic(self.0, Scalar::of_int(10));
        let x = self.0@->0;
        assert(x * 10real == x * ((1real / 100real) / (1real / 1000real))) by (nonlinear_arith);
    }

    fn convert(self) -> (r: Millimeter) {
        Millimeter::from(self)
    }
}

impl<T> core::ops::Add<T> for Millimeter where T: ConvertInto<Millimeter> {
    type Output = Millimeter;

    /// The sum, in millimeters: the other length is converted first.
    fn add(self, other: T) -> (r: Millimeter)
        ensures
            r == Millimeter(self.0.plus(other.converted().0)),
    {
        let other: Millimeter = other.convert();
        Millimeter(self.0 + other.0)
    }
}

impl<T> AddSpecImpl<T> for Millimeter where T: ConvertInto<Millimeter> {
    open spec fn obeys_add_spec() -> bool {
        true
    }

    open spec fn add_req(self, other: T) -> bool {
        true
    }

    open spec fn add_spec(self, other: T) -> Millimeter {
        Millimeter(self.0.plus(other.converted().0))
    }
}

impl<T> core::ops::AddAssign<T> for Millimeter where T: ConvertInto<Millimeter> {
    /// Adds in place: the other length is converted first.
    fn add_assign(&mut self, other: T)
        ensures
            *final(self) == Millimeter(old(self).0.plus(other.converted().0)),
    {
        let other: Millimeter = other.convert();
        self.0 = self.0 + other.0;
    }
}

impl<T> core::ops::Sub<T> for Millimeter where T: ConvertInto<Millimeter> {
    type Output = Millimeter;

    /// The difference, in millimeters: the other length is converted first.
    fn sub(self, other: T) -> (r: Millimeter)
        ensures
            r == Millimeter(self.0.minus(other.converted().0)),
    {
        let other: Millimeter = other.convert();
        Millimeter(self.0 - other.0)
    }
}

impl<T> SubSpecImpl<T> for Millimeter where T: ConvertInto<Millimeter> {
    open spec fn obeys_sub_spec() -> bool {
        true
    }

    open spec fn sub_req(self, other: T) -> bool {
        true
    }

    open spec fn sub_spec(self, other: T) -> Millimeter {
        Millimeter(self.0.minus(other.converted().0))
    }
}

impl<T> core::ops::SubAssign<T> for Millimeter where T: ConvertInto<Millimeter> {
    /// Subtracts in place: the other length is converted first.
    fn sub_assign(&mut self, other: T)
        ensures
            *final(self) == Millimeter(old(self).0.minus(other.converted().0)),
    {
        let other: Millimeter = other.convert();
        self.0 = self.0 - other.0;
    }
}

impl Millimeter {
    /// The ratio of two lengths, a pure number: the other length is converted
    /// first.
    pub fn ratio<T>(self, other: T) -> (r: Scalar) where T: ConvertInto<Millimeter>
        ensures
            r == self.0.over(other.converted().0),
    {
        let other: Millimeter = other.convert();
        self.0 / other.0
    }
}

impl core::ops::Mul<Scalar> for Millimeter {
    type Output = Millimeter;

    /// Scales the magnitude; the unit stays.
    fn mul(self, other: Scalar) -> (r: Millimeter)
        ensures
            r == Millimeter(self.0.times(other)),
    {
        Millimeter(self.0 * other)
    }
}

impl MulSpecImpl<Scalar> for Millimeter {
    open spec fn obeys_mul_spec() -> bool {
        true
    }

    open spec fn mul_req(self, other: Scalar) -> bool {
        true
    }

    open spec fn mul_spec(self, other: Scalar) -> Millimeter {
        Millimeter(self.0.times(other))
    }
}

impl core::ops::Mul<Millimeter> for Scalar {
    type Output = Millimeter;

    /// Scales the magnitude; the unit stays.
    fn mul(self, other: Millimeter) -> (r: Millimeter)
        ensures
            r == Millimeter(self.times(other.0)),
    {
        Millimeter(self * other.0)
    }
}

impl MulSpecImpl<Millimeter> for Scalar {
    open spec fn obeys_mul_spec() -> bool {
        true
    }

    open spec fn mul_req(self, other: Millimeter) -> bool {
        true
    }

    open spec fn mul_spec(self, other: Millimeter) -> Millimeter {
        Millimeter(self.times(other.0))
    }
}

impl core::ops::Mul<i64> for Millimeter {
    type Output = Millimeter;

    /// Scales the magnitude by an integer; the unit stays.
    fn mul(self, other: i64) -> (r: Millimeter)
        ensures
            r == Millimeter(self.0.times(Scalar::of_int(other as int))),
    {
        Millimeter(self.0 * Scalar::from_int(other))
    }
}

impl MulSpecImpl<i64> for Millimeter {
    open spec fn obeys_mul_spec() -> bool {
        true
    }

    open spec fn mul_req(self, other: i64) -> bool {
        true
    }

    open spec fn mul_spec(self, other: i64) -> Millimeter {
        Millimeter(self.0.times(Scalar::of_int(other as int)))
    }
}

impl core::ops::Mul<Millimeter> for i64 {
    type Output = Millimeter;

    /// Scales the magnitude by an integer; the unit stays.
    fn mul(self, other: Millimeter) -> (r: Millimeter)
        ensures
            r == Millimeter(Scalar::of_int(self as int).times(other.0)),
    {
        Millimeter(Scalar::from_int(self) * other.0)
    }
}

impl MulSpecImpl<Millimeter> for i64 {
    open spec fn obeys_mul_spec() -> bool {
        true
    }

    open spec fn mul_req(self, other: Millimeter) -> bool {
        true
    }

    open spec fn mul_spec(self, other: Millimeter) -> Millimeter {
        Millimeter(Scalar::of_int(self as int).times(other.0))
    }
}

impl core::ops::MulAssign<Scalar> for Millimeter {
    /// Scales the magnitude in place.
    fn mul_assign(&mut self, other: Scalar)
        ensures
            *final(self) == Millimeter(old(self).0.times(other)),
    {
        self.0 = self.0 * other;
    }
}

impl core::ops::MulAssign<i64> for Millimeter {
    /// Scales the magnitude in place by an integer.
    fn mul_assign(&mut self, other: i64)
        ensures
            *final(self) == Millimeter(old(self).0.times(Scalar::of_int(other as int))),
    {
        self.0 = self.0 * Scalar::from_int(other);
    }
}

impl core::ops::Div<Scalar> for Millimeter {
    type Output = Millimeter;

    /// Divides the magnitude; the unit stays.
    fn div(self, other: Scalar) -> (r: Millimeter)
        ensures
            r == Millimeter(self.0.over(other)),
    {
        Millimeter(self.0 / other)
    }
}

impl DivSpecImpl<Scalar> for Millimeter {
    open spec fn obeys_div_spec() -> bool {
        true
    }

    open spec fn div_req(self, other: Scalar) -> bool {
        true
    }

    open spec fn div_spec(self, other: Scalar) -> Millimeter {
        Millimeter(self.0.over(other))
    }
}

impl core::ops::Div<i64> for Millimeter {
    type Output = Millimeter;

    /// Divides the magnitude by an integer; the unit stays.
    fn div(self, other: i64) -> (r: Millimeter)
        ensures
            r == Millimeter(self.0.over(Scalar::of_int(other as int))),
    {
        Millimeter(self.0 / Scalar::from_int(other))
    }
}

impl DivSpecImpl<i64> for Millimeter {
    open spec fn obeys_div_spec() -> bool {
        true
    }

    open spec fn div_req(self, other: i64) -> bool {
        true
    }

    open spec fn div_spec(self, other: i64) -> Millimeter {
        Millimeter(self.0.over(Scalar::of_int(other as int)))
    }
}

impl core::ops::DivAssign<Scalar> for Millimeter {
    /// Divides the magnitude in place.
    fn div_assign(&mut self, other: Scalar)
        ensures
            *final(self) == Millimeter(old(self).0.over(other)),
    {
        self.0 = self.0 / other;
    }
}

impl core::ops::DivAssign<i64> for Millimeter {
    /// Divides the magnitude in place by an integer.
    fn div_assign(&mut self, other: i64)
        ensures
            *final(self) == Millimeter(old(self).0.over(Scalar::of_int(other as int))),
    {
        self.0 = self.0 / Scalar::from_int(other);
    }
}

impl<T> PartialEq<T> for Millimeter where T: Copy + ConvertInto<Millimeter> {
    /// Whether both are the same length: the other is converted first.
    fn eq(&self, other: &T) -> (r: bool)
        ensures
            r == self.0.same(other.converted().0),
    {
        let other_t: T = *other;
        let other: Millimeter = other_t.convert();
        self.0 == other.0
    }
}

impl<T> PartialEqSpecImpl<T> for Millimeter where T: Copy + ConvertInto<Millimeter> {
    open spec fn obeys_eq_spec() -> bool {
        true
    }

    open spec fn eq_spec(&self, other: &T) -> bool {
        self.0.same(other.converted().0)
    }
}

impl<T> PartialOrd<T> for Millimeter where T: Copy + ConvertInto<Millimeter> {
    /// The order of two lengths: the other is converted first.
    fn partial_cmp(&self, other: &T) -> (r: Option<Ordering>)
        ensures
            r == self.0.ordering(other.converted().0),
    {
        let other_t: T = *other;
        let other: Millimeter = other_t.convert();
        self.0.partial_cmp(&other.0)
    }
}

impl<T> PartialOrdSpecImpl<T> for Millimeter where T: Copy + ConvertInto<Millimeter> {
    open spec fn obeys_partial_cmp_spec() -> bool {
        true
    }

    open spec fn partial_cmp_spec(&self, other: &T) -> Option<Ordering> {
        self.0.ordering(other.converted().0)
    }
}

impl<T, U> core::ops::Mul<crate::composite::Mul<T, U>> for Millimeter where T: Unit {
    type Output = crate::composite::Mul<Millimeter, crate::composite::Mul<T, U>>;

    /// `Millimeter * (T*U)` is `Millimeter*(T*U)`.
    fn mul(self, other: crate::composite::Mul<T, U>) -> (r: Self::Output)
        ensures
            r.magnitude() == other.magnitude().times(self.0),
    {
        crate::composite::Mul(Millimeter(other.0.inner() * self.0), PhantomData)
    }
}

impl<T, U> MulSpecImpl<crate::composite::Mul<T, U>> for Millimeter where T: Unit {
    open spec fn obeys_mul_spec() -> bool {
        true
    }

    open spec fn mul_req(self, other: crate::composite::Mul<T, U>) -> bool {
        true
    }

    open spec fn mul_spec(self, other: crate::composite::Mul<T, U>) -> Self::Output {
        crate::composite::Mul(Millimeter(other.magnitude().times(self.0)), PhantomData)
    }
}

impl<T, U> core::ops::Mul<Millimeter> for crate::composite::Mul<T, U> where T: Unit {
    type Output = crate::composite::Mul<T, crate::composite::Mul<Millimeter, U>>;

    /// `(T*U) * Millimeter` is `T*(Millimeter*U)`.
    fn mul(self, other: Millimeter) -> (r: Self::Output)
        ensures
            r.magnitude() == other.0.times(self.magnitude()),
    {
        proof {
            T::lemma_magnitude_of(other.0.times(self.magnitude()));
        }
        crate::composite::Mul(T::new(other.0 * self.0.inner()), PhantomData)
    }
}

impl<T, U> MulSpecImpl<Millimeter> for crate::composite::Mul<T, U> where T: Unit {
    open spec fn obeys_mul_spec() -> bool {
        true
    }

    open spec fn mul_req(self, other: Millimeter) -> bool {
        true
    }

    open spec fn mul_spec(self, other: Millimeter) -> Self::Output {
        crate::composite::Mul(T::of(other.0.times(self.magnitude())), PhantomData)
    }
}

impl<T, U> core::ops::Mul<crate::composite::Div<T, U>> for Millimeter where T: Unit {
    type Output = crate::composite::Mul<Millimeter, crate::composite::Div<T, U>>;

    /// `Millimeter * (T/U)` is `Millimeter*(T/U)`.
    fn mul(self, other: crate::composite::Div<T, U>) -> (r: Self::Output)
        ensures
            r.magnitude() == other.magnitude().times(self.0),
    {
        crate::composite::Mul(Millimeter(other.0.inner() * self.0), PhantomData)
    }
}

impl<T, U> MulSpecImpl<crate::composite::Div<T, U>> for Millimeter where T: Unit {
    open spec fn obeys_mul_spec() -> bool {
        true
    }

    open spec fn mul_req(self, other: crate::composite::Div<T, U>) -> bool {
        true
    }

    open spec fn mul_spec(self, other: crate::composite::Div<T, U>) -> Self::Output {
        crate::composite::Mul(Millimeter(other.magnitude().times(self.0)), PhantomData)
    }
}

impl<T, U> core::ops::Mul<Millimeter> for crate::composite::Div<T, U> where T: Unit {
    type Output = crate::composite::Mul<T, crate::composite::Div<Millimeter, U>>;

    /// `(T/U) * Millimeter` is `T*(Millimeter/U)`.
    fn mul(self, other: Millimeter) -> (r: Self::Output)
        ensures
            r.magnitude() == other.0.times(self.magnitude()),
    {
        proof {
            T::lemma_magnitude_of(other.0.times(self.magnitude()));
        }
        crate::composite::Mul(T::new(other.0 * self.0.inner()), PhantomData)
    }
}

impl<T, U> MulSpecImpl<Millimeter> for crate::composite::Div<T, U> where T: Unit {
    open spec fn obeys_mul_spec() -> bool {
        true
    }

    open spec fn mul_req(self, other: Millimeter) -> bool {
        true
    }

    open spec fn mul_spec(self, other: Millimeter) -> Self::Output {
        crate::composite::Mul(T::of(other.0.times(self.magnitude())), PhantomData)
    }
}

impl<T, U> core::ops::Div<crate::composite::Mul<T, U>> for Millimeter where T: Unit {
    type Output = crate::composite::Div<Millimeter, crate::composite::Mul<T, U>>;

    /// `Millimeter / (T*U)` is `Millimeter/(T*U)`.
    fn div(self, other: crate::composite::Mul<T, U>) -> (r: Self::Output)
        ensures
            r.magnitude() == self.0.over(other.magnitude()),
    {
        crate::composite::Div(Millimeter(self.0 / other.0.inner()), PhantomData)
    }
}

impl<T, U> DivSpecImpl<crate::composite::Mul<T, U>> for Millimeter where T: Unit {
    open spec fn obeys_div_spec() -> bool {
        true
    }

    open spec fn div_req(self, other: crate::composite::Mul<T, U>) -> bool {
        true
    }

    open spec fn div_spec(self, other: crate::composite::Mul<T, U>) -> Self::Output {
        crate::composite::Div(Millimeter(self.0.over(other.magnitude())), PhantomData)
    }
}

impl<T, U> core::ops::Div<Millimeter> for crate::composite::Mul<T, U> where T: Unit {
    type Output = crate::composite::Mul<T, crate::composite::Div<Millimeter, U>>;

    /// `(T*U) / Millimeter` takes the shape `T*(Millimeter/U)`.
    fn div(self, other: Millimeter) -> (r: Self::Output)
        ensures
            r.magnitude() == self.magnitude().over(other.0),
    {
        proof {
            T::lemma_magnitude_of(self.magnitude().over(other.0));
        }
        crate::composite::Mul(T::new(self.0.inner() / other.0), PhantomData)
    }
}

impl<T, U> DivSpecImpl<Millimeter> for crate::composite::Mul<T, U> where T: Unit {
    open spec fn obeys_div_spec() -> bool {
        true
    }

    open spec fn div_req(self, other: Millimeter) -> bool {
        true
    }

    open spec fn div_spec(self, other: Millimeter) -> Self::Output {
        crate::composite::Mul(T::of(self.magnitude().over(other.0)), PhantomData)
    }
}

impl<T, U> core::ops::Div<crate::composite::Div<T, U>> for Millimeter where T: Unit {
    type Output = crate::composite::Div<Millimeter, crate::composite::Div<T, U>>;

    /// `Millimeter / (T/U)` is `Millimeter/(T/U)`.
    fn div(self, other: crate::composite::Div<T, U>) -> (r: Self::Output)
        ensures
            r.magnitude() == self.0.over(other.magnitude()),
    {
        crate::composite::Div(Millimeter(self.0 / other.0.inner()), PhantomData)
    }
}

impl<T, U> DivSpecImpl<crate::composite::Div<T, U>> for Millimeter where T: Unit {
    open spec fn obeys_div_spec() -> bool {
        true
    }

    open spec fn div_req(self, other: crate::composite::Div<T, U>) -> bool {
        true
    }

    open spec fn div_spec(self, other: crate::composite::Div<T, U>) -> Self::Output {
        crate::composite::Div(Millimeter(self.0.over(other.magnitude())), PhantomData)
    }
}

impl<T, U> core::ops::Div<Millimeter> for crate::composite::Div<T, U> where T: Unit {
    type Output = crate::composite::Div<T, crate::composite::Mul<Millimeter, U>>;

    /// `(T/U) / Millimeter` is `T/(Millimeter*U)`.
    fn div(self, other: Millimeter) -> (r: Self::Output)
        ensures
            r.magnitude() == self.magnitude().over(other.0),
    {
        proof {
            T::lemma_magnitude_of(self.magnitude().over(other.0));
        }
        crate::composite::Div(T::new(self.0.inner() / other.0), PhantomData)
    }
}

impl<T, U> DivSpecImpl<Millimeter> for crate::composite::Div<T, U> where T: Unit {
    open spec fn obeys_div_spec() -> bool {
        true
    }

    open spec fn div_req(self, other: Millimeter) -> bool {
        true
    }

    open spec fn div_spec(self, other: Millimeter) -> Self::Output {
        crate::composite::Div(T::of(self.magnitude().over(other.0)), PhantomData)
    }
}

impl core::ops::Mul<Millimeter> for Millimeter {
    type Output = crate::composite::Mul<Millimeter, Millimeter>;

    /// The square of a millimeter: `Millimeter*Millimeter`.
    fn mul(self, other: Millimeter) -> (r: Self::Output)
        ensures
            r.magnitude() == self.0.times(other.0),
    {
        crate::composite::Mul(Millimeter(self.0 * other.0), PhantomData)
    }
}

impl MulSpecImpl<Millimeter> for Millimeter {
    open spec fn obeys_mul_spec() -> bool {
        true
    }

    open spec fn mul_req(self, other: Millimeter) -> bool {
        true
    }

    open spec fn mul_spec(self, other: Millimeter) -> Self::Output {
        crate::composite::Mul(Millimeter(self.0.times(other.0)), PhantomData)
    }
}

impl core::ops::Mul<Meter> for Millimeter {
    type Output = crate::composite::Mul<Millimeter, Meter>;

    /// A millimeter times a meter: `Millimeter*Meter`. Nothing is converted.
    fn mul(self, other: Meter) -> (r: Self::Output)
        ensures
            r.magnitude() == self.0.times(other.0),
    {
        crate::composite::Mul(Millimeter(self.0 * other.0), PhantomData)
    }
}

impl MulSpecImpl<Meter> for Millimeter {
    open spec fn obeys_mul_spec() -> bool {
        true
    }

    open spec fn mul_req(self, other: Meter) -> bool {
        true
    }

    open spec fn mul_spec(self, other: Meter) -> Self::Output {
        crate::composite::Mul(Millimeter(self.0.times(other.0)), PhantomData)
    }
}

impl core::ops::Mul<Kilometer> for Millimeter {
    type Output = crate::composite::Mul<Millimeter, Kilometer>;

    /// A millimeter times a kilometer: `Millimeter*Kilometer`. Nothing is converted.
    fn mul(self, other: Kilometer) -> (r: Self::Output)
        ensures
            r.magnitude() == self.0.times(other.0),
    {
        crate::composite::Mul(Millimeter(self.0 * other.0), PhantomData)
    }
}

impl MulSpecImpl<Kilometer> for Millimeter {
    open spec fn obeys_mul_spec() -> bool {
        true
    }

    open spec fn mul_req(self, other: Kilometer) -> bool {
        true
    }

    open spec fn mul_spec(self, other: Kilometer) -> Self::Output {
        crate::composite::Mul(Millimeter(self.0.times(other.0)), PhantomData)
    }
}

impl core::ops::Mul<Centimeter> for Millimeter {
    type Output = crate::composite::Mul<Millimeter, Centimeter>;

    /// A millimeter times a centimeter: `Millimeter*Centimeter`. Nothing is converted.
    fn mul(self, other: Centimeter) -> (r: Self::Output)
        ensures
            r.magnitude() == self.0.times(other.0),
    {
        crate::composite::Mul(Millimeter(self.0 * other.0), PhantomData)
    }
}

impl MulSpecImpl<Centimeter> for Millimeter {
    open spec fn obeys_mul_spec() -> bool {
        true
    }

    open spec fn mul_req(self, other: Centimeter) -> bool {
        true
    }

    open spec fn mul_spec(self, other: Centimeter) -> Self::Output {
        crate::composite::Mul(Millimeter(self.0.times(other.0)), PhantomData)
    }
}

impl core::ops::Div<Millimeter> for Millimeter {
    type Output = crate::composite::Div<Millimeter, Millimeter>;

    /// A millimeter by a millimeter: `Millimeter/Millimeter`. Nothing is converted.
    fn div(self, other: Millimeter) -> (r: Self::Output)
        ensures
            r.magnitude() == self.0.over(other.0),
    {
        crate::composite::Div(Millimeter(self.0 / other.0), PhantomData)
    }
}

impl DivSpecImpl<Millimeter> for Millimeter {
    open spec fn obeys_div_spec() -> bool {
        true
    }

    open spec fn div_req(self, other: Millimeter) -> bool {
        true
    }

    open spec fn div_spec(self, other: Millimeter) -> Self::Output {
        crate::composite::Div(Millimeter(self.0.over(other.0)), PhantomData)
    }
}

impl core::ops::Div<Meter> for Millimeter {
    type Output = crate::composite::Div<Millimeter, Meter>;

    /// A millimeter by a meter: `Millimeter/Meter`. Nothing is converted.
    fn div(self, other: Meter) -> (r: Self::Output)
        ensures
            r.magnitude() == self.0.over(other.0),
    {
        crate::composite::Div(Millimeter(self.0 / other.0), PhantomData)
    }
}

impl DivSpecImpl<Meter> for Millimeter {
    open spec fn obeys_div_spec() -> bool {
        true
    }

    open spec fn div_req(self, other: Meter) -> bool {
        true
    }

    open spec fn div_spec(self, other: Meter) -> Self::Output {
        crate::composite::Div(Millimeter(self.0.over(other.0)), PhantomData)
    }
}

impl core::ops::Div<Kilometer> for Millimeter {
    type Output = crate::composite::Div<Millimeter, Kilometer>;

    /// A millimeter by a kilometer: `Millimeter/Kilometer`. Nothing is converted.
    fn div(self, other: Kilometer) -> (r: Self::Output)
        ensures
            r.magnitude() == self.0.over(other.0),
    {
        crate::composite::Div(Millimeter(self.0 / other.0), PhantomData)
    }
}

impl DivSpecImpl<Kilometer> for Millimeter {
    open spec fn obeys_div_spec() -> bool {
        true
    }

    open spec fn div_req(self, other: Kilometer) -> bool {
        true
    }

    open spec fn div_spec(self, other: Kilometer) -> Self::Output {
        crate::composite::Div(Millimeter(self.0.over(other.0)), PhantomData)
    }
}

impl core::ops::Div<Centimeter> for Millimeter {
    type Output = crate::composite::Div<Millimeter, Centimeter>;

    /// A millimeter by a centimeter: `Millimeter/Centimeter`. Nothing is converted.
    fn div(self, other: Centimeter) -> (r: Self::Output)
        ensures
            r.magnitude() == self.0.over(other.0),
    {
        crate::composite::Div(Millimeter(self.0 / other.0), PhantomData)
    }
}

impl DivSpecImpl<Centimeter> for Millimeter {
    open spec fn obeys_div_spec() -> bool {
        true
    }

    open spec fn div_req(self, other: Centimeter) -> bool {
        true
    }

    open spec fn div_spec(self, other: Centimeter) -> Self::Output {
        crate::composite::Div(Millimeter(self.0.over(other.0)), PhantomData)
    }
}

} // verus!
