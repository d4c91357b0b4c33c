//! The hour.

use vstd::prelude::*;
use vstd::std_specs::cmp::{PartialEqSpecImpl, PartialOrdSpecImpl};
use vstd::std_specs::convert::FromSpecImpl;
use vstd::std_specs::ops::{AddSpecImpl, DivSpecImpl, MulSpecImpl, SubSpecImpl};
use core::cmp::Ordering;
use core::marker::PhantomData;
use crate::composite::{Unit, UnitName};
use crate::dimension::{BaseUnit, ConvertInto};
use crate::time::{Minute, Second};
use crate::scalar::Scalar;
use crate::text::{scalar_text, write_scalar};

verus! {

/// A time in hours.
#[derive(Clone, Copy)]
pub struct Hour(pub Scalar);

pub type Hours = Hour;

impl Unit for Hour {
    open spec fn magnitude(&self) -> Scalar {
        self.0
    }

    open spec fn of(val: Scalar) -> Self {
        Hour(val)
    }

    proof fn lemma_magnitude_of(val: Scalar) {
    }

    proof fn lemma_of_magnitude(u: Self) {
    }

    fn new(val: Scalar) -> (r: Self) {
        Hour(val)
    }

    fn inner(&self) -> (r: Scalar) {
        self.0
    }
}

impl BaseUnit for Hour {
    open spec fn scale() -> real {
        3600real
    }

    proof fn lemma_scale_positive() {
    }
}

impl UnitName for Hour {
    open spec fn unit_name() -> Seq<char> {
        "h"@
    }

    open spec fn unit_label() -> Seq<char> {
        "h"@
    }

    fn get_unit(&self) -> (r: &'static str) {
        "h"
    }

    fn get_unit_static() -> (r: &'static str) {
        "h"
    }

    fn write_unit_static(out: &mut String) {
        out.append("h");
    }
}

impl Hour {
    /// Appends the time to `out`: the magnitude, then at once `h`.
    pub fn fmt(&self, out: &mut String)
        ensures
            final(out)@ == old(out)@ + scalar_text(self.0) + "h"@,
    {
        write_scalar(out, self.0);
        out.append("h");
    }
}

impl ConvertInto<Hour> for Hour {
    open spec fn converted(self) -> Hour {
        self
    }

    proof fn lemma_converted(self) {
        let x = self.0@->0;
        assert(x * (3600real / 3600real) == x) by (nonlinear_arith);
    }

    fn convert(self) -> (r: Hour) {
        self
    }
}

impl From<Second> for Hour {
    /// 3_600 seconds are an hour.
    fn from(f: Second) -> (r: Hour)
        ensures
            r == Hour(f.0.over(Scalar::of_int(3_600))),
    {
        Hour(f.0 / Scalar::from_int(3_600))
    }
}

impl FromSpecImpl<Second> for Hour {
    open spec fn obeys_from_spec() -> bool {
        true
    }

    open spec fn from_spec(f: Second) -> Hour {
        Hour(f.0.over(Scalar::of_int(3_600)))
    }
}

impl ConvertInto<Hour> for Second {
    open spec fn converted(self) -> Hour {
        Hour(self.0.over(Scalar::of_int(3_600)))
    }

    proof fn lemma_converted(self) {
        Scalar::lemma_of_int(3_600);
        Scalar::lemma_arithmetic(self.0, Scalar::of_int(3_600));
        let x = self.0@->0;
        assert(x / 3600real == x * (1real / 3600real)) by (nonlinear_arith);
    }

    fn convert(self) -> (r: Hour) {
        Hour::from(self)
    }
}

impl From<Minute> for Hour {
    /// A minute becomes seconds, and those become hours.
    fn from(f: Minute) -> (r: Hour)
        ensures
            r == Hour(f.0.times(Scalar::of_int(60)).over(Scalar::of_int(3_600))),
    {
        let intermediate: Second = Second::from(f);
        Hour::from(intermediate)
    }
}

impl FromSpecImpl<Minute> for Hour {
    open spec fn obeys_from_spec() -> bool {
        true
    }

    open spec fn from_spec(f: Minute) -> Hour {
        Hour(f.0.times(Scalar::of_int(60)).over(Scalar::of_int(3_600)))
    }
}

impl ConvertInto<Hour> for Minute {
    open spec fn converted(self) -> Hour {
        Hour(self.0.times(Scalar::of_int(60)).over(Scalar::of_int(3_600)))
    }

    proof fn lemma_converted(self) {
        let h = <Minute as ConvertInto<Second>>::converted(self);
        <Minute as ConvertInto<Second>>::lemma_converted(self);
        <Second as ConvertInto<Hour>>::lemma_converted(h);
        let x = self.0@->0;
        assert((x * (60real / 1real)) * (1real / 3600real) == x * (
            60real / 3600real
        )) by (nonlinear_arith);
    }

    fn convert(self) -> (r: Hour) {
        Hour::from(self)
    }
}

impl<T> core::ops::Add<T> for Hour where T: ConvertInto<Hour> {
    type Output = Hour;

    /// The sum, in hours: the other time is converted first.
    fn add(self, other: T) -> (r: Hour)
        ensures
            r == Hour(self.0.plus(other.converted().0)),
    {
        let other: Hour = other.convert();
        Hour(self.0 + other.0)
    }
}

impl<T> AddSpecImpl<T> for Hour where T: ConvertInto<Hour> {
    open spec fn obeys_add_spec() -> bool {
        true
    }

    open spec fn add_req(self, other: T) -> bool {
        true
    }

    open spec fn add_spec(self, other: T) -> Hour {
        Hour(self.0.plus(other.converted().0))
    }
}

impl<T> core::ops::AddAssign<T> for Hour where T: ConvertInto<Hour> {
    /// Adds in place: the other time is converted first.
    fn add_assign(&mut self, other: T)
        ensures
            *final(self) == Hour(old(self).0.plus(other.converted().0)),
    {
        let other: Hour = other.convert();
        self.0 = self.0 + other.0;
    }
}

impl<T> core::ops::Sub<T> for Hour where T: ConvertInto<Hour> {
    type Output = Hour;

    /// The difference, in hours: the other time is converted first.
    fn sub(self, other: T) -> (r: Hour)
        ensures
            r == Hour(self.0.minus(other.converted().0)),
    {
        let other: Hour = other.convert();
        Hour(self.0 - other.0)
    }
}

impl<T> SubSpecImpl<T> for Hour where T: ConvertInto<Hour> {
    open spec fn obeys_sub_spec() -> bool {
        true
    }

    open spec fn sub_req(self, other: T) -> bool {
        true
    }

    open spec fn sub_spec(self, other: T) -> Hour {
        Hour(self.0.minus(other.converted().0))
    }
}

impl<T> core::ops::SubAssign<T> for Hour where T: ConvertInto<Hour> {
    /// Subtracts in place: the other time is converted first.
    fn sub_assign(&mut self, other: T)
        ensures
            *final(self) == Hour(old(self).0.minus(other.converted().0)),
    {
        let other: Hour = other.convert();
        self.0 = self.0 - other.0;
    }
}

impl Hour {
    /// The ratio of two times, a pure number: the other time is converted
    /// first.
    pub fn ratio<T>(self, other: T) -> (r: Scalar) where T: ConvertInto<Hour>
        ensures
            r == self.0.over(other.converted().0),
    {
        let other: Hour = other.convert();
        self.0 / other.0
    }
}

impl core::ops::Mul<Scalar> for Hour {
    type Output = Hour;

    /// Scales the magnitude; the unit stays.
    fn mul(self, other: Scalar) -> (r: Hour)
        ensures
            r == Hour(self.0.times(other)),
    {
        Hour(self.0 * other)
    }
}

impl MulSpecImpl<Scalar> for Hour {
    open spec fn obeys_mul_spec() -> bool {
        true
    }

    open spec fn mul_req(self, other: Scalar) -> bool {
        true
    }

    open spec fn mul_spec(self, other: Scalar) -> Hour {
        Hour(self.0.times(other))
    }
}

impl core::ops::Mul<Hour> for Scalar {
    type Output = Hour;

    /// Scales the magnitude; the unit stays.
    fn mul(self, other: Hour) -> (r: Hour)
        ensures
            r == Hour(self.times(other.0)),
    {
        Hour(self * other.0)
    }
}

impl MulSpecImpl<Hour> for Scalar {
    open spec fn obeys_mul_spec() -> bool {
        true
    }

    open spec fn mul_req(self, other: Hour) -> bool {
        true
    }

    open spec fn mul_spec(self, other: Hour) -> Hour {
        Hour(self.times(other.0))
    }
}

impl core::ops::Mul<i64> for Hour {
    type Output = Hour;

    /// Scales the magnitude by an integer; the unit stays.
    fn mul(self, other: i64) -> (r: Hour)
        ensures
            r == Hour(self.0.times(Scalar::of_int(other as int))),
    {
        Hour(self.0 * Scalar::from_int(other))
    }
}

impl MulSpecImpl<i64> for Hour {
    open spec fn obeys_mul_spec() -> bool {
        true
    }

    open spec fn mul_req(self, other: i64) -> bool {
        true
    }

    open spec fn mul_spec(self, other: i64) -> Hour {
        Hour(self.0.times(Scalar::of_int(other as int)))
    }
}

impl core::ops::Mul<Hour> for i64 {
    type Output = Hour;

    /// Scales the magnitude by an integer; the unit stays.
    fn mul(self, other: Hour) -> (r: Hour)
        ensures
            r == Hour(Scalar::of_int(self as int).times(other.0)),
    {
        Hour(Scalar::from_int(self) * other.0)
    }
}

impl MulSpecImpl<Hour> for i64 {
    open spec fn obeys_mul_spec() -> bool {
        true
    }

    open spec fn mul_req(self, other: Hour) -> bool {
        true
    }

    open spec fn mul_spec(self, other: Hour) -> Hour {
        Hour(Scalar::of_int(self as int).times(other.0))
    }
}

impl core::ops::MulAssign<Scalar> for Hour {
    /// Scales the magnitude in place.
    fn mul_assign(&mut self, other: Scalar)
        ensures
            *final(self) == Hour(old(self).0.times(other)),
    {
        self.0 = self.0 * other;
    }
}

impl core::ops::MulAssign<i64> for Hour {
    /// Scales the magnitude in place by an integer.
    fn mul_assign(&mut self, other: i64)
        ensures
            *final(self) == Hour(old(self).0.times(Scalar::of_int(other as int))),
    {
        self.0 = self.0 * Scalar::from_int(other);
    }
}

impl core::ops::Div<Scalar> for Hour {
    type Output = Hour;

    /// Divides the magnitude; the unit stays.
    fn div(self, other: Scalar) -> (r: Hour)
        ensures
            r == Hour(self.0.over(other)),
    {
        Hour(self.0 / other)
    }
}

impl DivSpecImpl<Scalar> for Hour {
    open spec fn obeys_div_spec() -> bool {
        true
    }

    open spec fn div_req(self, other: Scalar) -> bool {
        true
    }

    open spec fn div_spec(self, other: Scalar) -> Hour {
        Hour(self.0.over(other))
    }
}

impl core::ops::Div<i64> for Hour {
    type Output = Hour;

    /// Divides the magnitude by an integer; the unit stays.
    fn div(self, other: i64) -> (r: Hour)
        ensures
            r == Hour(self.0.over(Scalar::of_int(other as int))),
    {
        Hour(self.0 / Scalar::from_int(other))
    }
}

impl DivSpecImpl<i64> for Hour {
    open spec fn obeys_div_spec() -> bool {
        true
    }

    open spec fn div_req(self, other: i64) -> bool {
        true
    }

    open spec fn div_spec(self, other: i64) -> Hour {
        Hour(self.0.over(Scalar::of_int(other as int)))
    }
}

impl core::ops::DivAssign<Scalar> for Hour {
    /// Divides the magnitude in place.
    fn div_assign(&mut self, other: Scalar)
        ensures
            *final(self) == Hour(old(self).0.over(other)),
    {
        self.0 = self.0 / other;
    }
}

impl core::ops::DivAssign<i64> for Hour {
    /// Divides the magnitude in place by an integer.
    fn div_assign(&mut self, other: i64)
        ensures
            *final(self) == Hour(old(self).0.over(Scalar::of_int(other as int))),
    {
        self.0 = self.0 / Scalar::from_int(other);
    }
}

impl<T> PartialEq<T> for Hour where T: Copy + ConvertInto<Hour> {
    /// Whether both are the same time: the other is converted first.
    fn eq(&self, other: &T) -> (r: bool)
        ensures
            r == self.0.same(other.converted().0),
    {
        let other_t: T = *other;
        let other: Hour = other_t.convert();
        self.0 == other.0
    }
}

impl<T> PartialEqSpecImpl<T> for Hour where T: Copy + ConvertInto<Hour> {
    open spec fn obeys_eq_spec() -> bool {
        true
    }

    open spec fn eq_spec(&self, other: &T) -> bool {
        self.0.same(other.converted().0)
    }
}

impl<T> PartialOrd<T> for Hour where T: Copy + ConvertInto<Hour> {
    /// The order of two times: the other is converted first.
    fn partial_cmp(&self, other: &T) -> (r: Option<Ordering>)
        ensures
            r == self.0.ordering(other.converted().0),
    {
        let other_t: T = *other;
        let other: Hour = other_t.convert();
        self.0.partial_cmp(&other.0)
    }
}

impl<T> PartialOrdSpecImpl<T> for Hour where T: Copy + ConvertInto<Hour> {
    open spec fn obeys_partial_cmp_spec() -> bool {
        true
    }

    open spec fn partial_cmp_spec(&self, other: &T) -> Option<Ordering> {
        self.0.ordering(other.converted().0)
    }
}

impl<T, U> core::ops::Mul<crate::composite::Mul<T, U>> for Hour where T: Unit {
    type Output = crate::composite::Mul<Hour, crate::composite::Mul<T, U>>;

    /// `Hour * (T*U)` is `Hour*(T*U)`.
    fn mul(self, other: crate::composite::Mul<T, U>) -> (r: Self::Output)
        ensures
            r.magnitude() == other.magnitude().times(self.0),
    {
        crate::composite::Mul(Hour(other.0.inner() * self.0), PhantomData)
    }
}

impl<T, U> MulSpecImpl<crate::composite::Mul<T, U>> for Hour where T: Unit {
    open spec fn obeys_mul_spec() -> bool {
        true
    }

    open spec fn mul_req(self, other: crate::composite::Mul<T, U>) -> bool {
        true
    }

    open spec fn mul_spec(self, other: crate::composite::Mul<T, U>) -> Self::Output {
        crate::composite::Mul(Hour(other.magnitude().times(self.0)), PhantomData)
    }
}

impl<T, U> core::ops::Mul<Hour> for crate::composite::Mul<T, U> where T: Unit {
    type Output = crate::composite::Mul<T, crate::composite::Mul<Hour, U>>;

    /// `(T*U) * Hour` is `T*(Hour*U)`.
    fn mul(self, other: Hour) -> (r: Self::Output)
        ensures
            r.magnitude() == other.0.times(self.magnitude()),
    {
        proof {
            T::lemma_magnitude_of(other.0.times(self.magnitude()));
        }
        crate::composite::Mul(T::new(other.0 * self.0.inner()), PhantomData)
    }
}

impl<T, U> MulSpecImpl<Hour> for crate::composite::Mul<T, U> where T: Unit {
    open spec fn obeys_mul_spec() -> bool {
        true
    }

    open spec fn mul_req(self, other: Hour) -> bool {
        true
    }

    open spec fn mul_spec(self, other: Hour) -> Self::Output {
        crate::composite::Mul(T::of(other.0.times(self.magnitude())), PhantomData)
    }
}

impl<T, U> core::ops::Mul<crate::composite::Div<T, U>> for Hour where T: Unit {
    type Output = crate::composite::Mul<Hour, crate::composite::Div<T, U>>;

    /// `Hour * (T/U)` is `Hour*(T/U)`.
    fn mul(self, other: crate::composite::Div<T, U>) -> (r: Self::Output)
        ensures
            r.magnitude() == other.magnitude().times(self.0),
    {
        crate::composite::Mul(Hour(other.0.inner() * self.0), PhantomData)
    }
}

impl<T, U> MulSpecImpl<crate::composite::Div<T, U>> for Hour where T: Unit {
    open spec fn obeys_mul_spec() -> bool {
        true
    }

    open spec fn mul_req(self, other: crate::composite::Div<T, U>) -> bool {
        true
    }

    open spec fn mul_spec(self, other: crate::composite::Div<T, U>) -> Self::Output {
        crate::composite::Mul(Hour(other.magnitude().times(self.0)), PhantomData)
    }
}

impl<T, U> core::ops::Mul<Hour> for crate::composite::Div<T, U> where T: Unit {
    type Output = crate::composite::Mul<T, crate::composite::Div<Hour, U>>;

    /// `(T/U) * Hour` is `T*(Hour/U)`.
    fn mul(self, other: Hour) -> (r: Self::Output)
        ensures
            r.magnitude() == other.0.times(self.magnitude()),
    {
        proof {
            T::lemma_magnitude_of(other.0.times(self.magnitude()));
        }
        crate::composite::Mul(T::new(other.0 * self.0.inner()), PhantomData)
    }
}

impl<T, U> MulSpecImpl<Hour> for crate::composite::Div<T, U> where T: Unit {
    open spec fn obeys_mul_spec() -> bool {
        true
    }

    open spec fn mul_req(self, other: Hour) -> bool {
        true
    }

    open spec fn mul_spec(self, other: Hour) -> Self::Output {
        crate::composite::Mul(T::of(other.0.times(self.magnitude())), PhantomData)
    }
}

impl<T, U> core::ops::Div<crate::composite::Mul<T, U>> for Hour where T: Unit {
    type Output = crate::composite::Div<Hour, crate::composite::Mul<T, U>>;

    /// `Hour / (T*U)` is `Hour/(T*U)`.
    fn div(self, other: crate::composite::Mul<T, U>) -> (r: Self::Output)
        ensures
            r.magnitude() == self.0.over(other.magnitude()),
    {
        crate::composite::Div(Hour(self.0 / other.0.inner()), PhantomData)
    }
}

impl<T, U> DivSpecImpl<crate::composite::Mul<T, U>> for Hour where T: Unit {
    open spec fn obeys_div_spec() -> bool {
        true
    }

    open spec fn div_req(self, other: crate::composite::Mul<T, U>) -> bool {
        true
    }

    open spec fn div_spec(self, other: crate::composite::Mul<T, U>) -> Self::Output {
        crate::composite::Div(Hour(self.0.over(other.magnitude())), PhantomData)
    }
}

impl<T, U> core::ops::Div<Hour> for crate::composite::Mul<T, U> where T: Unit {
    type Output = crate::composite::Mul<T, crate::composite::Div<Hour, U>>;

    /// `(T*U) / Hour` takes the shape `T*(Hour/U)`.
    fn div(self, other: Hour) -> (r: Self::Output)
        ensures
            r.magnitude() == self.magnitude().over(other.0),
    {
        proof {
            T::lemma_magnitude_of(self.magnitude().over(other.0));
        }
        crate::composite::Mul(T::new(self.0.inner() / other.0), PhantomData)
    }
}

impl<T, U> DivSpecImpl<Hour> for crate::composite::Mul<T, U> where T: Unit {
    open spec fn obeys_div_spec() -> bool {
        true
    }

    open spec fn div_req(self, other: Hour) -> bool {
        true
    }

    open spec fn div_spec(self, other: Hour) -> Self::Output {
        crate::composite::Mul(T::of(self.magnitude().over(other.0)), PhantomData)
    }
}

impl<T, U> core::ops::Div<crate::composite::Div<T, U>> for Hour where T: Unit {
    type Output = crate::composite::Div<Hour, crate::composite::Div<T, U>>;

    /// `Hour / (T/U)` is `Hour/(T/U)`.
    fn div(self, other: crate::composite::Div<T, U>) -> (r: Self::Output)
        ensures
            r.magnitude() == self.0.over(other.magnitude()),
    {
        crate::composite::Div(Hour(self.0 / other.0.inner()), PhantomData)
    }
}

impl<T, U> DivSpecImpl<crate::composite::Div<T, U>> for Hour where T: Unit {
    open spec fn obeys_div_spec() -> bool {
        true
    }

    open spec fn div_req(self, other: crate::composite::Div<T, U>) -> bool {
        true
    }

    open spec fn div_spec(self, other: crate::composite::Div<T, U>) -> Self::Output {
        crate::composite::Div(Hour(self.0.over(other.magnitude())), PhantomData)
    }
}

impl<T, U> core::ops::Div<Hour> for crate::composite::Div<T, U> where T: Unit {
    type Output = crate::composite::Div<T, crate::composite::Mul<Hour, U>>;

    /// `(T/U) / Hour` is `T/(Hour*U)`.
    fn div(self, other: Hour) -> (r: Self::Output)
        ensures
            r.magnitude() == self.magnitude().over(other.0),
    {
        proof {
            T::lemma_magnitude_of(self.magnitude().over(other.0));
        }
        crate::composite::Div(T::new(self.0.inner() / other.0), PhantomData)
    }
}

impl<T, U> DivSpecImpl<Hour> for crate::composite::Div<T, U> where T: Unit {
    open spec fn obeys_div_spec() -> bool {
        true
    }

    open spec fn div_req(self, other: Hour) -> bool {
        true
    }

    open spec fn div_spec(self, other: Hour) -> Self::Output {
        crate::composite::Div(T::of(self.magnitude().over(other.0)), PhantomData)
    }
}

impl core::ops::Mul<Hour> for Hour {
    type Output = crate::composite::Mul<Hour, Hour>;

    /// The square of an hour: `Hour*Hour`.
    fn mul(self, other: Hour) -> (r: Self::Output)
        ensures
            r.magnitude() == self.0.times(other.0),
    {
        crate::composite::Mul(Hour(self.0 * other.0), PhantomData)
    }
}

impl MulSpecImpl<Hour> for Hour {
    open spec fn obeys_mul_spec() -> bool {
        true
    }

    open spec fn mul_req(self, other: Hour) -> bool {
        true
    }

    open spec fn mul_spec(self, other: Hour) -> Self::Output {
        crate::composite::Mul(Hour(self.0.times(other.0)), PhantomData)
    }
}

impl core::ops::Mul<Second> for Hour {
    type Output = crate::composite::Mul<Hour, Second>;

    /// An hour times a second: `Hour*Second`. Nothing is converted.
    fn mul(self, other: Second) -> (r: Self::Output)
        ensures
            r.magnitude() == self.0.times(other.0),
    {
        crate::composite::Mul(Hour(self.0 * other.0), PhantomData)
    }
}

impl MulSpecImpl<Second> for Hour {
    open spec fn obeys_mul_spec() -> bool {
        true
    }

    open spec fn mul_req(self, other: Second) -> bool {
        true
    }

    open spec fn mul_spec(self, other: Second) -> Self::Output {
        crate::composite::Mul(Hour(self.0.times(other.0)), PhantomData)
    }
}

impl core::ops::Mul<Minute> for Hour {
    type Output = crate::composite::Mul<Hour, Minute>;

    /// An hour times a minute: `Hour*Minute`. Nothing is converted.
    fn mul(self, other: Minute) -> (r: Self::Output)
        ensures
            r.magnitude() == self.0.times(other.0),
    {
        crate::composite::Mul(Hour(self.0 * other.0), PhantomData)
    }
}

impl MulSpecImpl<Minute> for Hour {
    open spec fn obeys_mul_spec() -> bool {
        true
    }

    open spec fn mul_req(self, other: Minute) -> bool {
        true
    }

    open spec fn mul_spec(self, other: Minute) -> Self::Output {
        crate::composite::Mul(Hour(self.0.times(other.0)), PhantomData)
    }
}

impl core::ops::Div<Hour> for Hour {
    type Output = crate::composite::Div<Hour, Hour>;

    /// An hour by an hour: `Hour/Hour`. Nothing is converted.
    fn div(self, other: Hour) -> (r: Self::Output)
        ensures
            r.magnitude() == self.0.over(other.0),
    {
        crate::composite::Div(Hour(self.0 / other.0), PhantomData)
    }
}

impl DivSpecImpl<Hour> for Hour {
    open spec fn obeys_div_spec() -> bool {
        true
    }

    open spec fn div_req(self, other: Hour) -> bool {
        true
    }

    open spec fn div_spec(self, other: Hour) -> Self::Output {
        crate::composite::Div(Hour(self.0.over(other.0)), PhantomData)
    }
}

impl core::ops::Div<Second> for Hour {
    type Output = crate::composite::Div<Hour, Second>;

    /// An hour by a second: `Hour/Second`. Nothing is converted.
    fn div(self, other: Second) -> (r: Self::Output)
        ensures
            r.magnitude() == self.0.over(other.0),
    {
        crate::composite::Div(Hour(self.0 / other.0), PhantomData)
    }
}

impl DivSpecImpl<Second> for Hour {
    open spec fn obeys_div_spec() -> bool {
        true
    }

    open spec fn div_req(self, other: Second) -> bool {
        true
    }

    open spec fn div_spec(self, other: Second) -> Self::Output {
        crate::composite::Div(Hour(self.0.over(other.0)), PhantomData)
    }
}

impl core::ops::Div<Minute> for Hour {
    type Output = crate::composite::Div<Hour, Minute>;

    /// An hour by a minute: `Hour/Minute`. Nothing is converted.
    fn div(self, other: Minute) -> (r: Self::Output)
        ensures
            r.magnitude() == self.0.over(other.0),
    {
        crate::composite::Div(Hour(self.0 / other.0), PhantomData)
    }
}

impl DivSpecImpl<Minute> for Hour {
    open spec fn obeys_div_spec() -> bool {
        true
    }

    open spec fn div_req(self, other: Minute) -> bool {
        true
    }

    open spec fn div_spec(self, other: Minute) -> Self::Output {
        crate::composite::Div(Hour(self.0.over(other.0)), PhantomData)
    }
}

} // verus!
