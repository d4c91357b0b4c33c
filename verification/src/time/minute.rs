//! The minute.

use vstd::prelude::*;
use vstd::std_specs::cmp::{PartialEqSpecImpl, PartialOrdSpecImpl};
use vstd::std_specs::convert::FromSpecImpl;
use vstd::std_specs::ops::{AddSpecImpl, DivSpecImpl, MulSpecImpl, SubSpecImpl};
use core::cmp::Ordering;
use core::marker::PhantomData;
use crate::composite::{Unit, UnitName};
use crate::dimension::{BaseUnit, ConvertInto};
use crate::time::{Hour, Second};
use crate::scalar::Scalar;
use crate::text::{label_for, scalar_text, write_quantity};

verus! {

/// A time in minutes.
#[derive(Clone, Copy)]
pub struct Minute(pub Scalar);

pub type Minutes = Minute;

impl Unit for Minute {
    open spec fn magnitude(&self) -> Scalar {
        self.0
    }

    open spec fn of(val: Scalar) -> Self {
        Minute(val)
    }

    proof fn lemma_magnitude_of(val: Scalar) {
    }

    proof fn lemma_of_magnitude(u: Self) {
    }

    fn new(val: Scalar) -> (r: Self) {
        Minute(val)
    }

    fn inner(&self) -> (r: Scalar) {
        self.0
    }
}

impl BaseUnit for Minute {
    open spec fn scale() -> real {
        60real
    }

    proof fn lemma_scale_positive() {
    }
}

impl UnitName for Minute {
    open spec fn unit_name() -> Seq<char> {
        "min"@
    }

    open spec fn unit_label() -> Seq<char> {
        "min"@
    }

    fn get_unit(&self) -> (r: &'static str) {
        "min"
    }

    fn get_unit_static() -> (r: &'static str) {
        "min"
    }

    fn write_unit_static(out: &mut String) {
        out.append("min");
    }
}

impl Minute {
    /// Appends the time to `out`: the magnitude, then at once `min` where
    /// the magnitude is exactly one, and `mins` where it is not.
    pub fn fmt(&self, out: &mut String)
        ensures
            final(out)@ == old(out)@ + scalar_text(self.0) + label_for(
                self.0,
                "min"@,
                "mins"@,
            ),
    {
        write_quantity(out, self.0, "min", "mins");
    }
}

impl ConvertInto<Minute> for Minute {
    open spec fn converted(self) -> Minute {
        self
    }

    proof fn lemma_converted(self) {
        let x = self.0@->0;
        assert(x * (60real / 60real) == x) by (nonlinear_arith);
    }

    fn convert(self) -> (r: Minute) {
        self
    }
}

impl From<Second> for Minute {
    /// 60 seconds are a minute.
    fn from(f: Second) -> (r: Minute)
        ensures
            r == Minute(f.0.over(Scalar::of_int(60))),
    {
        Minute(f.0 / Scalar::from_int(60))
    }
}

impl FromSpecImpl<Second> for Minute {
    open spec fn obeys_from_spec() -> bool {
        true
    }

    open spec fn from_spec(f: Second) -> Minute {
        Minute(f.0.over(Scalar::of_int(60)))
    }
}

impl ConvertInto<Minute> for Second {
    open spec fn converted(self) -> Minute {
        Minute(self.0.over(Scalar::of_int(60)))
    }

    proof fn lemma_converted(self) {
        Scalar::lemma_of_int(60);
        Scalar::lemma_arithmetic(self.0, Scalar::of_int(60));
        let x = self.0@->0;
        assert(x / 60real == x * (1real / 60real)) by (nonlinear_arith);
    }

    fn convert(self) -> (r: Minute) {
        Minute::from(self)
    }
}

impl From<Hour> for Minute {
    /// An hour becomes seconds, and those become minutes.
    fn from(f: Hour) -> (r: Minute)
        ensures
            r == Minute(f.0.times(Scalar::of_int(3_600)).over(Scalar::of_int(60))),
    {
        let intermediate: Second = Second::from(f);
        Minute::from(intermediate)
    }
}

impl FromSpecImpl<Hour> for Minute {
    open spec fn obeys_from_spec() -> bool {
        true
    }

    open spec fn from_spec(f: Hour) -> Minute {
        Minute(f.0.times(Scalar::of_int(3_600)).over(Scalar::of_int(60)))
    }
}

impl ConvertInto<Minute> for Hour {
    open spec fn converted(self) -> Minute {
        Minute(self.0.times(Scalar::of_int(3_600)).over(Scalar::of_int(60)))
    }

    proof fn lemma_converted(self) {
        let h = <Hour as ConvertInto<Second>>::converted(self);
        <Hour as ConvertInto<Second>>::lemma_converted(self);
        <Second as ConvertInto<Minute>>::lemma_converted(h);
        let x = self.0@->0;
        assert((x * (3600real / 1real)) * (1real / 60real) == x * (
            3600real / 60real
        )) by (nonlinear_arith);
    }

    fn convert(self) -> (r: Minute) {
        Minute::from(self)
    }
}

impl<T> core::ops::Add<T> for Minute where T: ConvertInto<Minute> {
    type Output = Minute;

    /// The sum, in minutes: the other time is converted first.
    fn add(self, other: T) -> (r: Minute)
        ensures
            r == Minute(self.0.plus(other.converted().0)),
    {
        let other: Minute = other.convert();
        Minute(self.0 + other.0)
    }
}

impl<T> AddSpecImpl<T> for Minute where T: ConvertInto<Minute> {
    open spec fn obeys_add_spec() -> bool {
        true
    }

    open spec fn add_req(self, other: T) -> bool {
        true
    }

    open spec fn add_spec(self, other: T) -> Minute {
        Minute(self.0.plus(other.converted().0))
    }
}

impl<T> core::ops::AddAssign<T> for Minute where T: ConvertInto<Minute> {
    /// Adds in place: the other time is converted first.
    fn add_assign(&mut self, other: T)
        ensures
            *final(self) == Minute(old(self).0.plus(other.converted().0)),
    {
        let other: Minute = other.convert();
        self.0 = self.0 + other.0;
    }
}

impl<T> core::ops::Sub<T> for Minute where T: ConvertInto<Minute> {
    type Output = Minute;

    /// The difference, in minutes: the other time is converted first.
    fn sub(self, other: T) -> (r: Minute)
        ensures
            r == Minute(self.0.minus(other.converted().0)),
    {
        let other: Minute = other.convert();
        Minute(self.0 - other.0)
    }
}

impl<T> SubSpecImpl<T> for Minute where T: ConvertInto<Minute> {
    open spec fn obeys_sub_spec() -> bool {
        true
    }

    open spec fn sub_req(self, other: T) -> bool {
        true
    }

    open spec fn sub_spec(self, other: T) -> Minute {
        Minute(self.0.minus(other.converted().0))
    }
}

impl<T> core::ops::SubAssign<T> for Minute where T: ConvertInto<Minute> {
    /// Subtracts in place: the other time is converted first.
    fn sub_assign(&mut self, other: T)
        ensures
            *final(self) == Minute(old(self).0.minus(other.converted().0)),
    {
        let other: Minute = other.convert();
        self.0 = self.0 - other.0;
    }
}

impl Minute {
    /// The ratio of two times, a pure number: the other time is converted
    /// first.
    pub fn ratio<T>(self, other: T) -> (r: Scalar) where T: ConvertInto<Minute>
        ensures
            r == self.0.over(other.converted().0),
    {
        let other: Minute = other.convert();
        self.0 / other.0
    }
}

impl core::ops::Mul<Scalar> for Minute {
    type Output = Minute;

    /// Scales the magnitude; the unit stays.
    fn mul(self, other: Scalar) -> (r: Minute)
        ensures
            r == Minute(self.0.times(other)),
    {
        Minute(self.0 * other)
    }
}

impl MulSpecImpl<Scalar> for Minute {
    open spec fn obeys_mul_spec() -> bool {
        true
    }

    open spec fn mul_req(self, other: Scalar) -> bool {
        true
    }

    open spec fn mul_spec(self, other: Scalar) -> Minute {
        Minute(self.0.times(other))
    }
}

impl core::ops::Mul<Minute> for Scalar {
    type Output = Minute;

    /// Scales the magnitude; the unit stays.
    fn mul(self, other: Minute) -> (r: Minute)
        ensures
            r == Minute(self.times(other.0)),
    {
        Minute(self * other.0)
    }
}

impl MulSpecImpl<Minute> for Scalar {
    open spec fn obeys_mul_spec() -> bool {
        true
    }

    open spec fn mul_req(self, other: Minute) -> bool {
        true
    }

    open spec fn mul_spec(self, other: Minute) -> Minute {
        Minute(self.times(other.0))
    }
}

impl core::ops::Mul<i64> for Minute {
    type Output = Minute;

    /// Scales the magnitude by an integer; the unit stays.
    fn mul(self, other: i64) -> (r: Minute)
        ensures
            r == Minute(self.0.times(Scalar::of_int(other as int))),
    {
        Minute(self.0 * Scalar::from_int(other))
    }
}

impl MulSpecImpl<i64> for Minute {
    open spec fn obeys_mul_spec() -> bool {
        true
    }

    open spec fn mul_req(self, other: i64) -> bool {
        true
    }

    open spec fn mul_spec(self, other: i64) -> Minute {
        Minute(self.0.times(Scalar::of_int(other as int)))
    }
}

impl core::ops::Mul<Minute> for i64 {
    type Output = Minute;

    /// Scales the magnitude by an integer; the unit stays.
    fn mul(self, other: Minute) -> (r: Minute)
        ensures
            r == Minute(Scalar::of_int(self as int).times(other.0)),
    {
        Minute(Scalar::from_int(self) * other.0)
    }
}

impl MulSpecImpl<Minute> for i64 {
    open spec fn obeys_mul_spec() -> bool {
        true
    }

    open spec fn mul_req(self, other: Minute) -> bool {
        true
    }

    open spec fn mul_spec(self, other: Minute) -> Minute {
        Minute(Scalar::of_int(self as int).times(other.0))
    }
}

impl core::ops::MulAssign<Scalar> for Minute {
    /// Scales the magnitude in place.
    fn mul_assign(&mut self, other: Scalar)
        ensures
            *final(self) == Minute(old(self).0.times(other)),
    {
        self.0 = self.0 * other;
    }
}

impl core::ops::MulAssign<i64> for Minute {
    /// Scales the magnitude in place by an integer.
    fn mul_assign(&mut self, other: i64)
        ensures
            *final(self) == Minute(old(self).0.times(Scalar::of_int(other as int))),
    {
        self.0 = self.0 * Scalar::from_int(other);
    }
}

impl core::ops::Div<Scalar> for Minute {
    type Output = Minute;

    /// Divides the magnitude; the unit stays.
    fn div(self, other: Scalar) -> (r: Minute)
        ensures
            r == Minute(self.0.over(other)),
    {
        Minute(self.0 / other)
    }
}

impl DivSpecImpl<Scalar> for Minute {
    open spec fn obeys_div_spec() -> bool {
        true
    }

    open spec fn div_req(self, other: Scalar) -> bool {
        true
    }

    open spec fn div_spec(self, other: Scalar) -> Minute {
        Minute(self.0.over(other))
    }
}

impl core::ops::Div<i64> for Minute {
    type Output = Minute;

    /// Divides the magnitude by an integer; the unit stays.
    fn div(self, other: i64) -> (r: Minute)
        ensures
            r == Minute(self.0.over(Scalar::of_int(other as int))),
    {
        Minute(self.0 / Scalar::from_int(other))
    }
}

impl DivSpecImpl<i64> for Minute {
    open spec fn obeys_div_spec() -> bool {
        true
    }

    open spec fn div_req(self, other: i64) -> bool {
        true
    }

    open spec fn div_spec(self, other: i64) -> Minute {
        Minute(self.0.over(Scalar::of_int(other as int)))
    }
}

impl core::ops::DivAssign<Scalar> for Minute {
    /// Divides the magnitude in place.
    fn div_assign(&mut self, other: Scalar)
        ensures
            *final(self) == Minute(old(self).0.over(other)),
    {
        self.0 = self.0 / other;
    }
}

impl core::ops::DivAssign<i64> for Minute {
    /// Divides the magnitude in place by an integer.
    fn div_assign(&mut self, other: i64)
        ensures
            *final(self) == Minute(old(self).0.over(Scalar::of_int(other as int))),
    {
        self.0 = self.0 / Scalar::from_int(other);
    }
}

impl<T> PartialEq<T> for Minute where T: Copy + ConvertInto<Minute> {
    /// Whether both are the same time: the other is converted first.
    fn eq(&self, other: &T) -> (r: bool)
        ensures
            r == self.0.same(other.converted().0),
    {
        let other_t: T = *other;
        let other: Minute = other_t.convert();
        self.0 == other.0
    }
}

impl<T> PartialEqSpecImpl<T> for Minute where T: Copy + ConvertInto<Minute> {
    open spec fn obeys_eq_spec() -> bool {
        true
    }

    open spec fn eq_spec(&self, other: &T) -> bool {
        self.0.same(other.converted().0)
    }
}

impl<T> PartialOrd<T> for Minute where T: Copy + ConvertInto<Minute> {
    /// The order of two times: the other is converted first.
    fn partial_cmp(&self, other: &T) -> (r: Option<Ordering>)
        ensures
            r == self.0.ordering(other.converted().0),
    {
        let other_t: T = *other;
        let other: Minute = other_t.convert();
        self.0.partial_cmp(&other.0)
    }
}

impl<T> PartialOrdSpecImpl<T> for Minute where T: Copy + ConvertInto<Minute> {
    open spec fn obeys_partial_cmp_spec() -> bool {
        true
    }

    open spec fn partial_cmp_spec(&self, other: &T) -> Option<Ordering> {
        self.0.ordering(other.converted().0)
    }
}

impl<T, U> core::ops::Mul<crate::composite::Mul<T, U>> for Minute where T: Unit {
    type Output = crate::composite::Mul<Minute, crate::composite::Mul<T, U>>;

    /// `Minute * (T*U)` is `Minute*(T*U)`.
    fn mul(self, other: crate::composite::Mul<T, U>) -> (r: Self::Output)
        ensures
            r.magnitude() == other.magnitude().times(self.0),
    {
        crate::composite::Mul(Minute(other.0.inner() * self.0), PhantomData)
    }
}

impl<T, U> MulSpecImpl<crate::composite::Mul<T, U>> for Minute where T: Unit {
    open spec fn obeys_mul_spec() -> bool {
        true
    }

    open spec fn mul_req(self, other: crate::composite::Mul<T, U>) -> bool {
        true
    }

    open spec fn mul_spec(self, other: crate::composite::Mul<T, U>) -> Self::Output {
        crate::composite::Mul(Minute(other.magnitude().times(self.0)), PhantomData)
    }
}

impl<T, U> core::ops::Mul<Minute> for crate::composite::Mul<T, U> where T: Unit {
    type Output = crate::composite::Mul<T, crate::composite::Mul<Minute, U>>;

    /// `(T*U) * Minute` is `T*(Minute*U)`.
    fn mul(self, other: Minute) -> (r: Self::Output)
        ensures
            r.magnitude() == other.0.times(self.magnitude()),
    {
        proof {
            T::lemma_magnitude_of(other.0.times(self.magnitude()));
        }
        crate::composite::Mul(T::new(other.0 * self.0.inner()), PhantomData)
    }
}

impl<T, U> MulSpecImpl<Minute> for crate::composite::Mul<T, U> where T: Unit {
    open spec fn obeys_mul_spec() -> bool {
        true
    }

    open spec fn mul_req(self, other: Minute) -> bool {
        true
    }

    open spec fn mul_spec(self, other: Minute) -> Self::Output {
        crate::composite::Mul(T::of(other.0.times(self.magnitude())), PhantomData)
    }
}

impl<T, U> core::ops::Mul<crate::composite::Div<T, U>> for Minute where T: Unit {
    type Output = crate::composite::Mul<Minute, crate::composite::Div<T, U>>;

    /// `Minute * (T/U)` is `Minute*(T/U)`.
    fn mul(self, other: crate::composite::Div<T, U>) -> (r: Self::Output)
        ensures
            r.magnitude() == other.magnitude().times(self.0),
    {
        crate::composite::Mul(Minute(other.0.inner() * self.0), PhantomData)
    }
}

impl<T, U> MulSpecImpl<crate::composite::Div<T, U>> for Minute where T: Unit {
    open spec fn obeys_mul_spec() -> bool {
        true
    }

    open spec fn mul_req(self, other: crate::composite::Div<T, U>) -> bool {
        true
    }

    open spec fn mul_spec(self, other: crate::composite::Div<T, U>) -> Self::Output {
        crate::composite::Mul(Minute(other.magnitude().times(self.0)), PhantomData)
    }
}

impl<T, U> core::ops::Mul<Minute> for crate::composite::Div<T, U> where T: Unit {
    type Output = crate::composite::Mul<T, crate::composite::Div<Minute, U>>;

    /// `(T/U) * Minute` is `T*(Minute/U)`.
    fn mul(self, other: Minute) -> (r: Self::Output)
        ensures
            r.magnitude() == other.0.times(self.magnitude()),
    {
        proof {
            T::lemma_magnitude_of(other.0.times(self.magnitude()));
        }
        crate::composite::Mul(T::new(other.0 * self.0.inner()), PhantomData)
    }
}

impl<T, U> MulSpecImpl<Minute> for crate::composite::Div<T, U> where T: Unit {
    open spec fn obeys_mul_spec() -> bool {
        true
    }

    open spec fn mul_req(self, other: Minute) -> bool {
        true
    }

    open spec fn mul_spec(self, other: Minute) -> Self::Output {
        crate::composite::Mul(T::of(other.0.times(self.magnitude())), PhantomData)
    }
}

impl<T, U> core::ops::Div<crate::composite::Mul<T, U>> for Minute where T: Unit {
    type Output = crate::composite::Div<Minute, crate::composite::Mul<T, U>>;

    /// `Minute / (T*U)` is `Minute/(T*U)`.
    fn div(self, other: crate::composite::Mul<T, U>) -> (r: Self::Output)
        ensures
            r.magnitude() == self.0.over(other.magnitude()),
    {
        crate::composite::Div(Minute(self.0 / other.0.inner()), PhantomData)
    }
}

impl<T, U> DivSpecImpl<crate::composite::Mul<T, U>> for Minute where T: Unit {
    open spec fn obeys_div_spec() -> bool {
        true
    }

    open spec fn div_req(self, other: crate::composite::Mul<T, U>) -> bool {
        true
    }

    open spec fn div_spec(self, other: crate::composite::Mul<T, U>) -> Self::Output {
        crate::composite::Div(Minute(self.0.over(other.magnitude())), PhantomData)
    }
}

impl<T, U> core::ops::Div<Minute> for crate::composite::Mul<T, U> where T: Unit {
    type Output = crate::composite::Mul<T, crate::composite::Div<Minute, U>>;

    /// `(T*U) / Minute` takes the shape `T*(Minute/U)`.
    fn div(self, other: Minute) -> (r: Self::Output)
        ensures
            r.magnitude() == self.magnitude().over(other.0),
    {
        proof {
            T::lemma_magnitude_of(self.magnitude().over(other.0));
        }
        crate::composite::Mul(T::new(self.0.inner() / other.0), PhantomData)
    }
}

impl<T, U> DivSpecImpl<Minute> for crate::composite::Mul<T, U> where T: Unit {
    open spec fn obeys_div_spec() -> bool {
        true
    }

    open spec fn div_req(self, other: Minute) -> bool {
        true
    }

    open spec fn div_spec(self, other: Minute) -> Self::Output {
        crate::composite::Mul(T::of(self.magnitude().over(other.0)), PhantomData)
    }
}

impl<T, U> core::ops::Div<crate::composite::Div<T, U>> for Minute where T: Unit {
    type Output = crate::composite::Div<Minute, crate::composite::Div<T, U>>;

    /// `Minute / (T/U)` is `Minute/(T/U)`.
    fn div(self, other: crate::composite::Div<T, U>) -> (r: Self::Output)
        ensures
            r.magnitude() == self.0.over(other.magnitude()),
    {
        crate::composite::Div(Minute(self.0 / other.0.inner()), PhantomData)
    }
}

impl<T, U> DivSpecImpl<crate::composite::Div<T, U>> for Minute where T: Unit {
    open spec fn obeys_div_spec() -> bool {
        true
    }

    open spec fn div_req(self, other: crate::composite::Div<T, U>) -> bool {
        true
    }

    open spec fn div_spec(self, other: crate::composite::Div<T, U>) -> Self::Output {
        crate::composite::Div(Minute(self.0.over(other.magnitude())), PhantomData)
    }
}

impl<T, U> core::ops::Div<Minute> for crate::composite::Div<T, U> where T: Unit {
    type Output = crate::composite::Div<T, crate::composite::Mul<Minute, U>>;

    /// `(T/U) / Minute` is `T/(Minute*U)`.
    fn div(self, other: Minute) -> (r: Self::Output)
        ensures
            r.magnitude() == self.magnitude().over(other.0),
    {
        proof {
            T::lemma_magnitude_of(self.magnitude().over(other.0));
        }
        crate::composite::Div(T::new(self.0.inner() / other.0), PhantomData)
    }
}

impl<T, U> DivSpecImpl<Minute> for crate::composite::Div<T, U> where T: Unit {
    open spec fn obeys_div_spec() -> bool {
        true
    }

    open spec fn div_req(self, other: Minute) -> bool {
        true
    }

    open spec fn div_spec(self, other: Minute) -> Self::Output {
        crate::composite::Div(T::of(self.magnitude().over(other.0)), PhantomData)
    }
}

impl core::ops::Mul<Minute> for Minute {
    type Output = crate::composite::Mul<Minute, Minute>;

    /// The square of a minute: `Minute*Minute`.
    fn mul(self, other: Minute) -> (r: Self::Output)
        ensures
            r.magnitude() == self.0.times(other.0),
    {
        crate::composite::Mul(Minute(self.0 * other.0), PhantomData)
    }
}

impl MulSpecImpl<Minute> for Minute {
    open spec fn obeys_mul_spec() -> bool {
        true
    }

    open spec fn mul_req(self, other: Minute) -> bool {
        true
    }

    open spec fn mul_spec(self, other: Minute) -> Self::Output {
        crate::composite::Mul(Minute(self.0.times(other.0)), PhantomData)
    }
}

impl core::ops::Mul<Second> for Minute {
    type Output = crate::composite::Mul<Minute, Second>;

    /// A minute times a second: `Minute*Second`. Nothing is converted.
    fn mul(self, other: Second) -> (r: Self::Output)
        ensures
            r.magnitude() == self.0.times(other.0),
    {
        crate::composite::Mul(Minute(self.0 * other.0), PhantomData)
    }
}

impl MulSpecImpl<Second> for Minute {
    open spec fn obeys_mul_spec() -> bool {
        true
    }

    open spec fn mul_req(self, other: Second) -> bool {
        true
    }

    open spec fn mul_spec(self, other: Second) -> Self::Output {
        crate::composite::Mul(Minute(self.0.times(other.0)), PhantomData)
    }
}

impl core::ops::Mul<Hour> for Minute {
    type Output = crate::composite::Mul<Minute, Hour>;

    /// A minute times an hour: `Minute*Hour`. Nothing is converted.
    fn mul(self, other: Hour) -> (r: Self::Output)
        ensures
            r.magnitude() == self.0.times(other.0),
    {
        crate::composite::Mul(Minute(self.0 * other.0), PhantomData)
    }
}

impl MulSpecImpl<Hour> for Minute {
    open spec fn obeys_mul_spec() -> bool {
        true
    }

    open spec fn mul_req(self, other: Hour) -> bool {
        true
    }

    open spec fn mul_spec(self, other: Hour) -> Self::Output {
        crate::composite::Mul(Minute(self.0.times(other.0)), PhantomData)
    }
}

impl core::ops::Div<Minute> for Minute {
    type Output = crate::composite::Div<Minute, Minute>;

    /// A minute by a minute: `Minute/Minute`. Nothing is converted.
    fn div(self, other: Minute) -> (r: Self::Output)
        ensures
            r.magnitude() == self.0.over(other.0),
    {
        crate::composite::Div(Minute(self.0 / other.0), PhantomData)
    }
}

impl DivSpecImpl<Minute> for Minute {
    open spec fn obeys_div_spec() -> bool {
        true
    }

    open spec fn div_req(self, other: Minute) -> bool {
        true
    }

    open spec fn div_spec(self, other: Minute) -> Self::Output {
        crate::composite::Div(Minute(self.0.over(other.0)), PhantomData)
    }
}

impl core::ops::Div<Second> for Minute {
    type Output = crate::composite::Div<Minute, Second>;

    /// A minute by a second: `Minute/Second`. Nothing is converted.
    fn div(self, other: Second) -> (r: Self::Output)
        ensures
            r.magnitude() == self.0.over(other.0),
    {
        crate::composite::Div(Minute(self.0 / other.0), PhantomData)
    }
}

impl DivSpecImpl<Second> for Minute {
    open spec fn obeys_div_spec() -> bool {
        true
    }

    open spec fn div_req(self, other: Second) -> bool {
        true
    }

    open spec fn div_spec(self, other: Second) -> Self::Output {
        crate::composite::Div(Minute(self.0.over(other.0)), PhantomData)
    }
}

impl core::ops::Div<Hour> for Minute {
    type Output = crate::composite::Div<Minute, Hour>;

    /// A minute by an hour: `Minute/Hour`. Nothing is converted.
    fn div(self, other: Hour) -> (r: Self::Output)
        ensures
            r.magnitude() == self.0.over(other.0),
    {
        crate::composite::Div(Minute(self.0 / other.0), PhantomData)
    }
}

impl DivSpecImpl<Hour> for Minute {
    open spec fn obeys_div_spec() -> bool {
        true
    }

    open spec fn div_req(self, other: Hour) -> bool {
        true
    }

    open spec fn div_spec(self, other: Hour) -> Self::Output {
        crate::composite::Div(Minute(self.0.over(other.0)), PhantomData)
    }
}

} // verus!
