//! The second.

use vstd::prelude::*;
use vstd::std_specs::cmp::{PartialEqSpecImpl, PartialOrdSpecImpl};
use vstd::std_specs::convert::FromSpecImpl;
use vstd::std_specs::ops::{AddSpecImpl, DivSpecImpl, MulSpecImpl, SubSpecImpl};
use core::cmp::Ordering;
use core::marker::PhantomData;
use crate::composite::{Unit, UnitName};
use crate::dimension::{BaseUnit, ConvertInto};
use crate::time::{Hour, Minute};
use crate::scalar::Scalar;
use crate::text::{scalar_text, write_scalar};

verus! {

/// A time in seconds, the hub unit of time.
#[derive(Clone, Copy)]
pub struct Second(pub Scalar);

pub type Seconds = Second;

impl Unit for Second {
    open spec fn magnitude(&self) -> Scalar {
        self.0
    }

    open spec fn of(val: Scalar) -> Self {
        Second(val)
    }

    proof fn lemma_magnitude_of(val: Scalar) {
    }

    proof fn lemma_of_magnitude(u: Self) {
    }

    fn new(val: Scalar) -> (r: Self) {
        Second(val)
    }

    fn inner(&self) -> (r: Scalar) {
        self.0
    }
}

impl BaseUnit for Second {
    open spec fn scale() -> real {
        1real
    }

    proof fn lemma_scale_positive() {
    }
}

impl UnitName for Second {
    open spec fn unit_name() -> Seq<char> {
        "s"@
    }

    open spec fn unit_label() -> Seq<char> {
        "s"@
    }

    fn get_unit(&self) -> (r: &'static str) {
        "s"
    }

    fn get_unit_static() -> (r: &'static str) {
        "s"
    }

    fn write_unit_static(out: &mut String) {
        out.append("s");
    }
}

impl Second {
    /// Appends the time to `out`: the magnitude, then at once `s`.
    pub fn fmt(&self, out: &mut String)
        ensures
            final(out)@ == old(out)@ + scalar_text(self.0) + "s"@,
    {
        write_scalar(out, self.0);
        out.append("s");
    }
}

impl ConvertInto<Second> for Second {
    open spec fn converted(self) -> Second {
        self
    }

    proof fn lemma_converted(self) {
        let x = self.0@->0;
        assert(x * (1real / 1real) == x) by (nonlinear_arith);
    }

    fn convert(self) -> (r: Second) {
        self
    }
}

impl From<Minute> for Second {
    /// A minute is 60 seconds.
    fn from(f: Minute) -> (r: Second)
        ensures
            r == Second(f.0.times(Scalar::of_int(60))),
    {
        Second(f.0 * Scalar::from_int(60))
    }
}

impl FromSpecImpl<Minute> for Second {
    open spec fn obeys_from_spec() -> bool {
        true
    }

    open spec fn from_spec(f: Minute) -> Second {
        Second(f.0.times(Scalar::of_int(60)))
    }
}

impl ConvertInto<Second> for Minute {
    open spec fn converted(self) -> Second {
        Second(self.0.times(Scalar::of_int(60)))
    }

    proof fn lemma_converted(self) {
        Scalar::lemma_of_int(60);
        Scalar::lemma_arithmetic(self.0, Scalar::of_int(60));
        let x = self.0@->0;
        assert(x * 60real == x * (60real / 1real)) by (nonlinear_arith);
    }

    fn convert(self) -> (r: Second) {
        Second::from(self)
    }
}

impl From<Hour> for Second {
    /// An hour is 3_600 seconds.
    fn from(f: Hour) -> (r: Second)
        ensures
            r == Second(f.0.times(Scalar::of_int(3_600))),
    {
        Second(f.0 * Scalar::from_int(3_600))
    }
}

impl FromSpecImpl<Hour> for Second {
    open spec fn obeys_from_spec() -> bool {
        true
    }

    open spec fn from_spec(f: Hour) -> Second {
        Second(f.0.times(Scalar::of_int(3_600)))
    }
}

impl ConvertInto<Second> for Hour {
    open spec fn converted(self) -> Second {
        Second(self.0.times(Scalar::of_int(3_600)))
    }

    proof fn lemma_converted(self) {
        Scalar::lemma_of_int(3_600);
        Scalar::lemma_arithmetic(self.0, Scalar::of_int(3_600));
        let x = self.0@->0;
        assert(x * 3600real == x * (3600real / 1real)) by (nonlinear_arith);
    }

    fn convert(self) -> (r: Second) {
        Second::from(self)
    }
}

impl<T> core::ops::Add<T> for Second where T: ConvertInto<Second> {
    type Output = Second;

    /// The sum, in seconds: the other time is converted first.
    fn add(self, other: T) -> (r: Second)
        ensures
            r == Second(self.0.plus(other.converted().0)),
    {
        let other: Second = other.convert();
        Second(self.0 + other.0)
    }
}

impl<T> AddSpecImpl<T> for Second where T: ConvertInto<Second> {
    open spec fn obeys_add_spec() -> bool {
        true
    }

    open spec fn add_req(self, other: T) -> bool {
        true
    }

    open spec fn add_spec(self, other: T) -> Second {
        Second(self.0.plus(other.converted().0))
    }
}

impl<T> core::ops::AddAssign<T> for Second where T: ConvertInto<Second> {
    /// Adds in place: the other time is converted first.
    fn add_assign(&mut self, other: T)
        ensures
            *final(self) == Second(old(self).0.plus(other.converted().0)),
    {
        let other: Second = other.convert();
        self.0 = self.0 + other.0;
    }
}

impl<T> core::ops::Sub<T> for Second where T: ConvertInto<Second> {
    type Output = Second;

    /// The difference, in seconds: the other time is converted first.
    fn sub(self, other: T) -> (r: Second)
        ensures
            r == Second(self.0.minus(other.converted().0)),
    {
        let other: Second = other.convert();
        Second(self.0 - other.0)
    }
}

impl<T> SubSpecImpl<T> for Second where T: ConvertInto<Second> {
    open spec fn obeys_sub_spec() -> bool {
        true
    }

    open spec fn sub_req(self, other: T) -> bool {
        true
    }

    open spec fn sub_spec(self, other: T) -> Second {
        Second(self.0.minus(other.converted().0))
    }
}

impl<T> core::ops::SubAssign<T> for Second where T: ConvertInto<Second> {
    /// Subtracts in place: the other time is converted first.
    fn sub_assign(&mut self, other: T)
        ensures
            *final(self) == Second(old(self).0.minus(other.converted().0)),
    {
        let other: Second = other.convert();
        self.0 = self.0 - other.0;
    }
}

impl Second {
    /// The ratio of two times, a pure number: the other time is converted
    /// first.
    pub fn ratio<T>(self, other: T) -> (r: Scalar) where T: ConvertInto<Second>
        ensures
            r == self.0.over(other.converted().0),
    {
        let other: Second = other.convert();
        self.0 / other.0
    }
}

impl core::ops::Mul<Scalar> for Second {
    type Output = Second;

    /// Scales the magnitude; the unit stays.
    fn mul(self, other: Scalar) -> (r: Second)
        ensures
            r == Second(self.0.times(other)),
    {
        Second(self.0 * other)
    }
}

impl MulSpecImpl<Scalar> for Second {
    open spec fn obeys_mul_spec() -> bool {
        true
    }

    open spec fn mul_req(self, other: Scalar) -> bool {
        true
    }

    open spec fn mul_spec(self, other: Scalar) -> Second {
        Second(self.0.times(other))
    }
}

impl core::ops::Mul<Second> for Scalar {
    type Output = Second;

    /// Scales the magnitude; the unit stays.
    fn mul(self, other: Second) -> (r: Second)
        ensures
            r == Second(self.times(other.0)),
    {
        Second(self * other.0)
    }
}

impl MulSpecImpl<Second> for Scalar {
    open spec fn obeys_mul_spec() -> bool {
        true
    }

    open spec fn mul_req(self, other: Second) -> bool {
        true
    }

    open spec fn mul_spec(self, other: Second) -> Second {
        Second(self.times(other.0))
    }
}

impl core::ops::Mul<i64> for Second {
    type Output = Second;

    /// Scales the magnitude by an integer; the unit stays.
    fn mul(self, other: i64) -> (r: Second)
        ensures
            r == Second(self.0.times(Scalar::of_int(other as int))),
    {
        Second(self.0 * Scalar::from_int(other))
    }
}

impl MulSpecImpl<i64> for Second {
    open spec fn obeys_mul_spec() -> bool {
        true
    }

    open spec fn mul_req(self, other: i64) -> bool {
        true
    }

    open spec fn mul_spec(self, other: i64) -> Second {
        Second(self.0.times(Scalar::of_int(other as int)))
    }
}

impl core::ops::Mul<Second> for i64 {
    type Output = Second;

    /// Scales the magnitude by an integer; the unit stays.
    fn mul(self, other: Second) -> (r: Second)
        ensures
            r == Second(Scalar::of_int(self as int).times(other.0)),
    {
        Second(Scalar::from_int(self) * other.0)
    }
}

impl MulSpecImpl<Second> for i64 {
    open spec fn obeys_mul_spec() -> bool {
        true
    }

    open spec fn mul_req(self, other: Second) -> bool {
        true
    }

    open spec fn mul_spec(self, other: Second) -> Second {
        Second(Scalar::of_int(self as int).times(other.0))
    }
}

impl core::ops::MulAssign<Scalar> for Second {
    /// Scales the magnitude in place.
    fn mul_assign(&mut self, other: Scalar)
        ensures
            *final(self) == Second(old(self).0.times(other)),
    {
        self.0 = self.0 * other;
    }
}

impl core::ops::MulAssign<i64> for Second {
    /// Scales the magnitude in place by an integer.
    fn mul_assign(&mut self, other: i64)
        ensures
            *final(self) == Second(old(self).0.times(Scalar::of_int(other as int))),
    {
        self.0 = self.0 * Scalar::from_int(other);
    }
}

impl core::ops::Div<Scalar> for Second {
    type Output = Second;

    /// Divides the magnitude; the unit stays.
    fn div(self, other: Scalar) -> (r: Second)
        ensures
            r == Second(self.0.over(other)),
    {
        Second(self.0 / other)
    }
}

impl DivSpecImpl<Scalar> for Second {
    open spec fn obeys_div_spec() -> bool {
        true
    }

    open spec fn div_req(self, other: Scalar) -> bool {
        true
    }

    open spec fn div_spec(self, other: Scalar) -> Second {
        Second(self.0.over(other))
    }
}

impl core::ops::Div<i64> for Second {
    type Output = Second;

    /// Divides the magnitude by an integer; the unit stays.
    fn div(self, other: i64) -> (r: Second)
        ensures
            r == Second(self.0.over(Scalar::of_int(other as int))),
    {
        Second(self.0 / Scalar::from_int(other))
    }
}

impl DivSpecImpl<i64> for Second {
    open spec fn obeys_div_spec() -> bool {
        true
    }

    open spec fn div_req(self, other: i64) -> bool {
        true
    }

    open spec fn div_spec(self, other: i64) -> Second {
        Second(self.0.over(Scalar::of_int(other as int)))
    }
}

impl core::ops::DivAssign<Scalar> for Second {
    /// Divides the magnitude in place.
    fn div_assign(&mut self, other: Scalar)
        ensures
            *final(self) == Second(old(self).0.over(other)),
    {
        self.0 = self.0 / other;
    }
}

impl core::ops::DivAssign<i64> for Second {
    /// Divides the magnitude in place by an integer.
    fn div_assign(&mut self, other: i64)
        ensures
            *final(self) == Second(old(self).0.over(Scalar::of_int(other as int))),
    {
        self.0 = self.0 / Scalar::from_int(other);
    }
}

impl<T> PartialEq<T> for Second where T: Copy + ConvertInto<Second> {
    /// Whether both are the same time: the other is converted first.
    fn eq(&self, other: &T) -> (r: bool)
        ensures
            r == self.0.same(other.converted().0),
    {
        let other_t: T = *other;
        let other: Second = other_t.convert();
        self.0 == other.0
    }
}

impl<T> PartialEqSpecImpl<T> for Second where T: Copy + ConvertInto<Second> {
    open spec fn obeys_eq_spec() -> bool {
        true
    }

    open spec fn eq_spec(&self, other: &T) -> bool {
        self.0.same(other.converted().0)
    }
}

impl<T> PartialOrd<T> for Second where T: Copy + ConvertInto<Second> {
    /// The order of two times: the other is converted first.
    fn partial_cmp(&self, other: &T) -> (r: Option<Ordering>)
        ensures
            r == self.0.ordering(other.converted().0),
    {
        let other_t: T = *other;
        let other: Second = other_t.convert();
        self.0.partial_cmp(&other.0)
    }
}

impl<T> PartialOrdSpecImpl<T> for Second where T: Copy + ConvertInto<Second> {
    open spec fn obeys_partial_cmp_spec() -> bool {
        true
    }

    open spec fn partial_cmp_spec(&self, other: &T) -> Option<Ordering> {
        self.0.ordering(other.converted().0)
    }
}

impl<T, U> core::ops::Mul<crate::composite::Mul<T, U>> for Second where T: Unit {
    type Output = crate::composite::Mul<Second, crate::composite::Mul<T, U>>;

    /// `Second * (T*U)` is `Second*(T*U)`.
    fn mul(self, other: crate::composite::Mul<T, U>) -> (r: Self::Output)
        ensures
            r.magnitude() == other.magnitude().times(self.0),
    {
        crate::composite::Mul(Second(other.0.inner() * self.0), PhantomData)
    }
}

impl<T, U> MulSpecImpl<crate::composite::Mul<T, U>> for Second where T: Unit {
    open spec fn obeys_mul_spec() -> bool {
        true
    }

    open spec fn mul_req(self, other: crate::composite::Mul<T, U>) -> bool {
        true
    }

    open spec fn mul_spec(self, other: crate::composite::Mul<T, U>) -> Self::Output {
        crate::composite::Mul(Second(other.magnitude().times(self.0)), PhantomData)
    }
}

impl<T, U> core::ops::Mul<Second> for crate::composite::Mul<T, U> where T: Unit {
    type Output = crate::composite::Mul<T, crate::composite::Mul<Second, U>>;

    /// `(T*U) * Second` is `T*(Second*U)`.
    fn mul(self, other: Second) -> (r: Self::Output)
        ensures
            r.magnitude() == other.0.times(self.magnitude()),
    {
        proof {
            T::lemma_magnitude_of(other.0.times(self.magnitude()));
        }
        crate::composite::Mul(T::new(other.0 * self.0.inner()), PhantomData)
    }
}

impl<T, U> MulSpecImpl<Second> for crate::composite::Mul<T, U> where T: Unit {
    open spec fn obeys_mul_spec() -> bool {
        true
    }

    open spec fn mul_req(self, other: Second) -> bool {
        true
    }

    open spec fn mul_spec(self, other: Second) -> Self::Output {
        crate::composite::Mul(T::of(other.0.times(self.magnitude())), PhantomData)
    }
}

impl<T, U> core::ops::Mul<crate::composite::Div<T, U>> for Second where T: Unit {
    type Output = crate::composite::Mul<Second, crate::composite::Div<T, U>>;

    /// `Second * (T/U)` is `Second*(T/U)`.
    fn mul(self, other: crate::composite::Div<T, U>) -> (r: Self::Output)
        ensures
            r.magnitude() == other.magnitude().times(self.0),
    {
        crate::composite::Mul(Second(other.0.inner() * self.0), PhantomData)
    }
}

impl<T, U> MulSpecImpl<crate::composite::Div<T, U>> for Second where T: Unit {
    open spec fn obeys_mul_spec() -> bool {
        true
    }

    open spec fn mul_req(self, other: crate::composite::Div<T, U>) -> bool {
        true
    }

    open spec fn mul_spec(self, other: crate::composite::Div<T, U>) -> Self::Output {
        crate::composite::Mul(Second(other.magnitude().times(self.0)), PhantomData)
    }
}

impl<T, U> core::ops::Mul<Second> for crate::composite::Div<T, U> where T: Unit {
    type Output = crate::composite::Mul<T, crate::composite::Div<Second, U>>;

    /// `(T/U) * Second` is `T*(Second/U)`.
    fn mul(self, other: Second) -> (r: Self::Output)
        ensures
            r.magnitude() == other.0.times(self.magnitude()),
    {
        proof {
            T::lemma_magnitude_of(other.0.times(self.magnitude()));
        }
        crate::composite::Mul(T::new(other.0 * self.0.inner()), PhantomData)
    }
}

impl<T, U> MulSpecImpl<Second> for crate::composite::Div<T, U> where T: Unit {
    open spec fn obeys_mul_spec() -> bool {
        true
    }

    open spec fn mul_req(self, other: Second) -> bool {
        true
    }

    open spec fn mul_spec(self, other: Second) -> Self::Output {
        crate::composite::Mul(T::of(other.0.times(self.magnitude())), PhantomData)
    }
}

impl<T, U> core::ops::Div<crate::composite::Mul<T, U>> for Second where T: Unit {
    type Output = crate::composite::Div<Second, crate::composite::Mul<T, U>>;

    /// `Second / (T*U)` is `Second/(T*U)`.
    fn div(self, other: crate::composite::Mul<T, U>) -> (r: Self::Output)
        ensures
            r.magnitude() == self.0.over(other.magnitude()),
    {
        crate::composite::Div(Second(self.0 / other.0.inner()), PhantomData)
    }
}

impl<T, U> DivSpecImpl<crate::composite::Mul<T, U>> for Second where T: Unit {
    open spec fn obeys_div_spec() -> bool {
        true
    }

    open spec fn div_req(self, other: crate::composite::Mul<T, U>) -> bool {
        true
    }

    open spec fn div_spec(self, other: crate::composite::Mul<T, U>) -> Self::Output {
        crate::composite::Div(Second(self.0.over(other.magnitude())), PhantomData)
    }
}

impl<T, U> core::ops::Div<Second> for crate::composite::Mul<T, U> where T: Unit {
    type Output = crate::composite::Mul<T, crate::composite::Div<Second, U>>;

    /// `(T*U) / Second` takes the shape `T*(Second/U)`.
    fn div(self, other: Second) -> (r: Self::Output)
        ensures
            r.magnitude() == self.magnitude().over(other.0),
    {
        proof {
            T::lemma_magnitude_of(self.magnitude().over(other.0));
        }
        crate::composite::Mul(T::new(self.0.inner() / other.0), PhantomData)
    }
}

impl<T, U> DivSpecImpl<Second> for crate::composite::Mul<T, U> where T: Unit {
    open spec fn obeys_div_spec() -> bool {
        true
    }

    open spec fn div_req(self, other: Second) -> bool {
        true
    }

    open spec fn div_spec(self, other: Second) -> Self::Output {
        crate::composite::Mul(T::of(self.magnitude().over(other.0)), PhantomData)
    }
}

impl<T, U> core::ops::Div<crate::composite::Div<T, U>> for Second where T: Unit {
    type Output = crate::composite::Div<Second, crate::composite::Div<T, U>>;

    /// `Second / (T/U)` is `Second/(T/U)`.
    fn div(self, other: crate::composite::Div<T, U>) -> (r: Self::Output)
        ensures
            r.magnitude() == self.0.over(other.magnitude()),
    {
        crate::composite::Div(Second(self.0 / other.0.inner()), PhantomData)
    }
}

impl<T, U> DivSpecImpl<crate::composite::Div<T, U>> for Second where T: Unit {
    open spec fn obeys_div_spec() -> bool {
        true
    }

    open spec fn div_req(self, other: crate::composite::Div<T, U>) -> bool {
        true
    }

    open spec fn div_spec(self, other: crate::composite::Div<T, U>) -> Self::Output {
        crate::composite::Div(Second(self.0.over(other.magnitude())), PhantomData)
    }
}

impl<T, U> core::ops::Div<Second> for crate::composite::Div<T, U> where T: Unit {
    type Output = crate::composite::Div<T, crate::composite::Mul<Second, U>>;

    /// `(T/U) / Second` is `T/(Second*U)`.
    fn div(self, other: Second) -> (r: Self::Output)
        ensures
            r.magnitude() == self.magnitude().over(other.0),
    {
        proof {
            T::lemma_magnitude_of(self.magnitude().over(other.0));
        }
        crate::composite::Div(T::new(self.0.inner() / other.0), PhantomData)
    }
}

impl<T, U> DivSpecImpl<Second> for crate::composite::Div<T, U> where T: Unit {
    open spec fn obeys_div_spec() -> bool {
        true
    }

    open spec fn div_req(self, other: Second) -> bool {
        true
    }

    open spec fn div_spec(self, other: Second) -> Self::Output {
        crate::composite::Div(T::of(self.magnitude().over(other.0)), PhantomData)
    }
}

impl core::ops::Mul<Second> for Second {
    type Output = crate::composite::Mul<Second, Second>;

    /// The square of a second: `Second*Second`.
    fn mul(self, other: Second) -> (r: Self::Output)
        ensures
            r.magnitude() == self.0.times(other.0),
    {
        crate::composite::Mul(Second(self.0 * other.0), PhantomData)
    }
}

impl MulSpecImpl<Second> for Second {
    open spec fn obeys_mul_spec() -> bool {
        true
    }

    open spec fn mul_req(self, other: Second) -> bool {
        true
    }

    open spec fn mul_spec(self, other: Second) -> Self::Output {
        crate::composite::Mul(Second(self.0.times(other.0)), PhantomData)
    }
}

impl core::ops::Mul<Minute> for Second {
    type Output = crate::composite::Mul<Second, Minute>;

    /// A second times a minute: `Second*Minute`. Nothing is converted.
    fn mul(self, other: Minute) -> (r: Self::Output)
        ensures
            r.magnitude() == self.0.times(other.0),
    {
        crate::composite::Mul(Second(self.0 * other.0), PhantomData)
    }
}

impl MulSpecImpl<Minute> for Second {
    open spec fn obeys_mul_spec() -> bool {
        true
    }

    open spec fn mul_req(self, other: Minute) -> bool {
        true
    }

    open spec fn mul_spec(self, other: Minute) -> Self::Output {
        crate::composite::Mul(Second(self.0.times(other.0)), PhantomData)
    }
}

impl core::ops::Mul<Hour> for Second {
    type Output = crate::composite::Mul<Second, Hour>;

    /// A second times an hour: `Second*Hour`. Nothing is converted.
    fn mul(self, other: Hour) -> (r: Self::Output)
        ensures
            r.magnitude() == self.0.times(other.0),
    {
        crate::composite::Mul(Second(self.0 * other.0), PhantomData)
    }
}

impl MulSpecImpl<Hour> for Second {
    open spec fn obeys_mul_spec() -> bool {
        true
    }

    open spec fn mul_req(self, other: Hour) -> bool {
        true
    }

    open spec fn mul_spec(self, other: Hour) -> Self::Output {
        crate::composite::Mul(Second(self.0.times(other.0)), PhantomData)
    }
}

impl core::ops::Div<Second> for Second {
    type Output = crate::composite::Div<Second, Second>;

    /// A second by a second: `Second/Second`. Nothing is converted.
    fn div(self, other: Second) -> (r: Self::Output)
        ensures
            r.magnitude() == self.0.over(other.0),
    {
        crate::composite::Div(Second(self.0 / other.0), PhantomData)
    }
}

impl DivSpecImpl<Second> for Second {
    open spec fn obeys_div_spec() -> bool {
        true
    }

    open spec fn div_req(self, other: Second) -> bool {
        true
    }

    open spec fn div_spec(self, other: Second) -> Self::Output {
        crate::composite::Div(Second(self.0.over(other.0)), PhantomData)
    }
}

impl core::ops::Div<Minute> for Second {
    type Output = crate::composite::Div<Second, Minute>;

    /// A second by a minute: `Second/Minute`. Nothing is converted.
    fn div(self, other: Minute) -> (r: Self::Output)
        ensures
            r.magnitude() == self.0.over(other.0),
    {
        crate::composite::Div(Second(self.0 / other.0), PhantomData)
    }
}

impl DivSpecImpl<Minute> for Second {
    open spec fn obeys_div_spec() -> bool {
        true
    }

    open spec fn div_req(self, other: Minute) -> bool {
        true
    }

    open spec fn div_spec(self, other: Minute) -> Self::Output {
        crate::composite::Div(Second(self.0.over(other.0)), PhantomData)
    }
}

impl core::ops::Div<Hour> for Second {
    type Output = crate::composite::Div<Second, Hour>;

    /// A second by an hour: `Second/Hour`. Nothing is converted.
    fn div(self, other: Hour) -> (r: Self::Output)
        ensures
            r.magnitude() == self.0.over(other.0),
    {
        crate::composite::Div(Second(self.0 / other.0), PhantomData)
    }
}

impl DivSpecImpl<Hour> for Second {
    open spec fn obeys_div_spec() -> bool {
        true
    }

    open spec fn div_req(self, other: Hour) -> bool {
        true
    }

    open spec fn div_spec(self, other: Hour) -> Self::Output {
        crate::composite::Div(Second(self.0.over(other.0)), PhantomData)
    }
}

} // verus!
