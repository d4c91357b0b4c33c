//! Products and quotients of base units of different dimensions.
//!
//! A length times a time, or a length by a time, is a composite of the two
//! units in the order of the operands, and so for a time times or by a length.
//! The magnitudes are multiplied or divided as they are: each quantity counts
//! in its own unit.

use vstd::prelude::*;
use vstd::std_specs::ops::{DivSpecImpl, MulSpecImpl};
use core::marker::PhantomData;
use crate::composite::Unit;
use crate::length::metric::{Centimeter, Kilometer, Meter, Millimeter};
use crate::time::{Hour, Minute, Second};

verus! {

impl core::ops::Mul<Second> for Kilometer {
    type Output = crate::composite::Mul<Kilometer, Second>;

    /// A kilometer times a second: `Kilometer*Second`.
    fn mul(self, other: Second) -> (r: Self::Output)
        ensures
            r.magnitude() == self.0.times(other.0),
    {
        crate::composite::Mul(Kilometer(self.0 * other.0), PhantomData)
    }
}

impl MulSpecImpl<Second> for Kilometer {
    open spec fn obeys_mul_spec() -> bool {
        true
    }

    open spec fn mul_req(self, other: Second) -> bool {
        true
    }

    open spec fn mul_spec(self, other: Second) -> Self::Output {
        crate::composite::Mul(Kilometer(self.0.times(other.0)), PhantomData)
    }
}

impl core::ops::Mul<Kilometer> for Second {
    type Output = crate::composite::Mul<Second, Kilometer>;

    /// A second times a kilometer: `Second*Kilometer`.
    fn mul(self, other: Kilometer) -> (r: Self::Output)
        ensures
            r.magnitude() == self.0.times(other.0),
    {
        crate::composite::Mul(Second(self.0 * other.0), PhantomData)
    }
}

impl MulSpecImpl<Kilometer> for Second {
    open spec fn obeys_mul_spec() -> bool {
        true
    }

    open spec fn mul_req(self, other: Kilometer) -> bool {
        true
    }

    open spec fn mul_spec(self, other: Kilometer) -> Self::Output {
        crate::composite::Mul(Second(self.0.times(other.0)), PhantomData)
    }
}

impl core::ops::Div<Second> for Kilometer {
    type Output = crate::composite::Div<Kilometer, Second>;

    /// A kilometer by a second: `Kilometer/Second`.
    fn div(self, other: Second) -> (r: Self::Output)
        ensures
            r.magnitude() == self.0.over(other.0),
    {
        crate::composite::Div(Kilometer(self.0 / other.0), PhantomData)
    }
}

impl DivSpecImpl<Second> for Kilometer {
    open spec fn obeys_div_spec() -> bool {
        true
    }

    open spec fn div_req(self, other: Second) -> bool {
        true
    }

    open spec fn div_spec(self, other: Second) -> Self::Output {
        crate::composite::Div(Kilometer(self.0.over(other.0)), PhantomData)
    }
}

impl core::ops::Div<Kilometer> for Second {
    type Output = crate::composite::Div<Second, Kilometer>;

    /// A second by a kilometer: `Second/Kilometer`.
    fn div(self, other: Kilometer) -> (r: Self::Output)
        ensures
            r.magnitude() == self.0.over(other.0),
    {
        crate::composite::Div(Second(self.0 / other.0), PhantomData)
    }
}

impl DivSpecImpl<Kilometer> for Second {
    open spec fn obeys_div_spec() -> bool {
        true
    }

    open spec fn div_req(self, other: Kilometer) -> bool {
        true
    }

    open spec fn div_spec(self, other: Kilometer) -> Self::Output {
        crate::composite::Div(Second(self.0.over(other.0)), PhantomData)
    }
}

impl core::ops::Mul<Minute> for Kilometer {
    type Output = crate::composite::Mul<Kilometer, Minute>;

    /// A kilometer times a minute: `Kilometer*Minute`.
    fn mul(self, other: Minute) -> (r: Self::Output)
        ensures
            r.magnitude() == self.0.times(other.0),
    {
        crate::composite::Mul(Kilometer(self.0 * other.0), PhantomData)
    }
}

impl MulSpecImpl<Minute> for Kilometer {
    open spec fn obeys_mul_spec() -> bool {
        true
    }

    open spec fn mul_req(self, other: Minute) -> bool {
        true
    }

    open spec fn mul_spec(self, other: Minute) -> Self::Output {
        crate::composite::Mul(Kilometer(self.0.times(other.0)), PhantomData)
    }
}

impl core::ops::Mul<Kilometer> for Minute {
    type Output = crate::composite::Mul<Minute, Kilometer>;

    /// A minute times a kilometer: `Minute*Kilometer`.
    fn mul(self, other: Kilometer) -> (r: Self::Output)
        ensures
            r.magnitude() == self.0.times(other.0),
    {
        crate::composite::Mul(Minute(self.0 * other.0), PhantomData)
    }
}

impl MulSpecImpl<Kilometer> for Minute {
    open spec fn obeys_mul_spec() -> bool {
        true
    }

    open spec fn mul_req(self, other: Kilometer) -> bool {
        true
    }

    open spec fn mul_spec(self, other: Kilometer) -> Self::Output {
        crate::composite::Mul(Minute(self.0.times(other.0)), PhantomData)
    }
}

impl core::ops::Div<Minute> for Kilometer {
    type Output = crate::composite::Div<Kilometer, Minute>;

    /// A kilometer by a minute: `Kilometer/Minute`.
    fn div(self, other: Minute) -> (r: Self::Output)
        ensures
            r.magnitude() == self.0.over(other.0),
    {
        crate::composite::Div(Kilometer(self.0 / other.0), PhantomData)
    }
}

impl DivSpecImpl<Minute> for Kilometer {
    open spec fn obeys_div_spec() -> bool {
        true
    }

    open spec fn div_req(self, other: Minute) -> bool {
        true
    }

    open spec fn div_spec(self, other: Minute) -> Self::Output {
        crate::composite::Div(Kilometer(self.0.over(other.0)), PhantomData)
    }
}

impl core::ops::Div<Kilometer> for Minute {
    type Output = crate::composite::Div<Minute, Kilometer>;

    /// A minute by a kilometer: `Minute/Kilometer`.
    fn div(self, other: Kilometer) -> (r: Self::Output)
        ensures
            r.magnitude() == self.0.over(other.0),
    {
        crate::composite::Div(Minute(self.0 / other.0), PhantomData)
    }
}

impl DivSpecImpl<Kilometer> for Minute {
    open spec fn obeys_div_spec() -> bool {
        true
    }

    open spec fn div_req(self, other: Kilometer) -> bool {
        true
    }

    open spec fn div_spec(self, other: Kilometer) -> Self::Output {
        crate::composite::Div(Minute(self.0.over(other.0)), PhantomData)
    }
}

impl core::ops::Mul<Hour> for Kilometer {
    type Output = crate::composite::Mul<Kilometer, Hour>;

    /// A kilometer times an hour: `Kilometer*Hour`.
    fn mul(self, other: Hour) -> (r: Self::Output)
        ensures
            r.magnitude() == self.0.times(other.0),
    {
        crate::composite::Mul(Kilometer(self.0 * other.0), PhantomData)
    }
}

impl MulSpecImpl<Hour> for Kilometer {
    open spec fn obeys_mul_spec() -> bool {
        true
    }

    open spec fn mul_req(self, other: Hour) -> bool {
        true
    }

    open spec fn mul_spec(self, other: Hour) -> Self::Output {
        crate::composite::Mul(Kilometer(self.0.times(other.0)), PhantomData)
    }
}

impl core::ops::Mul<Kilometer> for Hour {
    type Output = crate::composite::Mul<Hour, Kilometer>;

    /// An hour times a kilometer: `Hour*Kilometer`.
    fn mul(self, other: Kilometer) -> (r: Self::Output)
        ensures
            r.magnitude() == self.0.times(other.0),
    {
        crate::composite::Mul(Hour(self.0 * other.0), PhantomData)
    }
}

impl MulSpecImpl<Kilometer> for Hour {
    open spec fn obeys_mul_spec() -> bool {
        true
    }

    open spec fn mul_req(self, other: Kilometer) -> bool {
        true
    }

    open spec fn mul_spec(self, other: Kilometer) -> Self::Output {
        crate::composite::Mul(Hour(self.0.times(other.0)), PhantomData)
    }
}

impl core::ops::Div<Hour> for Kilometer {
    type Output = crate::composite::Div<Kilometer, Hour>;

    /// A kilometer by an hour: `Kilometer/Hour`.
    fn div(self, other: Hour) -> (r: Self::Output)
        ensures
            r.magnitude() == self.0.over(other.0),
    {
        crate::composite::Div(Kilometer(self.0 / other.0), PhantomData)
    }
}

impl DivSpecImpl<Hour> for Kilometer {
    open spec fn obeys_div_spec() -> bool {
        true
    }

    open spec fn div_req(self, other: Hour) -> bool {
        true
    }

    open spec fn div_spec(self, other: Hour) -> Self::Output {
        crate::composite::Div(Kilometer(self.0.over(other.0)), PhantomData)
    }
}

impl core::ops::Div<Kilometer> for Hour {
    type Output = crate::composite::Div<Hour, Kilometer>;

    /// An hour by a kilometer: `Hour/Kilometer`.
    fn div(self, other: Kilometer) -> (r: Self::Output)
        ensures
            r.magnitude() == self.0.over(other.0),
    {
        crate::composite::Div(Hour(self.0 / other.0), PhantomData)
    }
}

impl DivSpecImpl<Kilometer> for Hour {
    open spec fn obeys_div_spec() -> bool {
        true
    }

    open spec fn div_req(self, other: Kilometer) -> bool {
        true
    }

    open spec fn div_spec(self, other: Kilometer) -> Self::Output {
        crate::composite::Div(Hour(self.0.over(other.0)), PhantomData)
    }
}

impl core::ops::Mul<Second> for Meter {
    type Output = crate::composite::Mul<Meter, Second>;

    /// A meter times a second: `Meter*Second`.
    fn mul(self, other: Second) -> (r: Self::Output)
        ensures
            r.magnitude() == self.0.times(other.0),
    {
        crate::composite::Mul(Meter(self.0 * other.0), PhantomData)
    }
}

impl MulSpecImpl<Second> for Meter {
    open spec fn obeys_mul_spec() -> bool {
        true
    }

    open spec fn mul_req(self, other: Second) -> bool {
        true
    }

    open spec fn mul_spec(self, other: Second) -> Self::Output {
        crate::composite::Mul(Meter(self.0.times(other.0)), PhantomData)
    }
}

impl core::ops::Mul<Meter> for Second {
    type Output = crate::composite::Mul<Second, Meter>;

    /// A second times a meter: `Second*Meter`.
    fn mul(self, other: Meter) -> (r: Self::Output)
        ensures
            r.magnitude() == self.0.times(other.0),
    {
        crate::composite::Mul(Second(self.0 * other.0), PhantomData)
    }
}

impl MulSpecImpl<Meter> for Second {
    open spec fn obeys_mul_spec() -> bool {
        true
    }

    open spec fn mul_req(self, other: Meter) -> bool {
        true
    }

    open spec fn mul_spec(self, other: Meter) -> Self::Output {
        crate::composite::Mul(Second(self.0.times(other.0)), PhantomData)
    }
}

impl core::ops::Div<Second> for Meter {
    type Output = crate::composite::Div<Meter, Second>;

    /// A meter by a second: `Meter/Second`.
    fn div(self, other: Second) -> (r: Self::Output)
        ensures
            r.magnitude() == self.0.over(other.0),
    {
        crate::composite::Div(Meter(self.0 / other.0), PhantomData)
    }
}

impl DivSpecImpl<Second> for Meter {
    open spec fn obeys_div_spec() -> bool {
        true
    }

    open spec fn div_req(self, other: Second) -> bool {
        true
    }

    open spec fn div_spec(self, other: Second) -> Self::Output {
        crate::composite::Div(Meter(self.0.over(other.0)), PhantomData)
    }
}

impl core::ops::Div<Meter> for Second {
    type Output = crate::composite::Div<Second, Meter>;

    /// A second by a meter: `Second/Meter`.
    fn div(self, other: Meter) -> (r: Self::Output)
        ensures
            r.magnitude() == self.0.over(other.0),
    {
        crate::composite::Div(Second(self.0 / other.0), PhantomData)
    }
}

impl DivSpecImpl<Meter> for Second {
    open spec fn obeys_div_spec() -> bool {
        true
    }

    open spec fn div_req(self, other: Meter) -> bool {
        true
    }

    open spec fn div_spec(self, other: Meter) -> Self::Output {
        crate::composite::Div(Second(self.0.over(other.0)), PhantomData)
    }
}

impl core::ops::Mul<Minute> for Meter {
    type Output = crate::composite::Mul<Meter, Minute>;

    /// A meter times a minute: `Meter*Minute`.
    fn mul(self, other: Minute) -> (r: Self::Output)
        ensures
            r.magnitude() == self.0.times(other.0),
    {
        crate::composite::Mul(Meter(self.0 * other.0), PhantomData)
    }
}

impl MulSpecImpl<Minute> for Meter {
    open spec fn obeys_mul_spec() -> bool {
        true
    }

    open spec fn mul_req(self, other: Minute) -> bool {
        true
    }

    open spec fn mul_spec(self, other: Minute) -> Self::Output {
        crate::composite::Mul(Meter(self.0.times(other.0)), PhantomData)
    }
}

impl core::ops::Mul<Meter> for Minute {
    type Output = crate::composite::Mul<Minute, Meter>;

    /// A minute times a meter: `Minute*Meter`.
    fn mul(self, other: Meter) -> (r: Self::Output)
        ensures
            r.magnitude() == self.0.times(other.0),
    {
        crate::composite::Mul(Minute(self.0 * other.0), PhantomData)
    }
}

impl MulSpecImpl<Meter> for Minute {
    open spec fn obeys_mul_spec() -> bool {
        true
    }

    open spec fn mul_req(self, other: Meter) -> bool {
        true
    }

    open spec fn mul_spec(self, other: Meter) -> Self::Output {
        crate::composite::Mul(Minute(self.0.times(other.0)), PhantomData)
    }
}

impl core::ops::Div<Minute> for Meter {
    type Output = crate::composite::Div<Meter, Minute>;

    /// A meter by a minute: `Meter/Minute`.
    fn div(self, other: Minute) -> (r: Self::Output)
        ensures
            r.magnitude() == self.0.over(other.0),
    {
        crate::composite::Div(Meter(self.0 / other.0), PhantomData)
    }
}

impl DivSpecImpl<Minute> for Meter {
    open spec fn obeys_div_spec() -> bool {
        true
    }

    open spec fn div_req(self, other: Minute) -> bool {
        true
    }

    open spec fn div_spec(self, other: Minute) -> Self::Output {
        crate::composite::Div(Meter(self.0.over(other.0)), PhantomData)
    }
}

impl core::ops::Div<Meter> for Minute {
    type Output = crate::composite::Div<Minute, Meter>;

    /// A minute by a meter: `Minute/Meter`.
    fn div(self, other: Meter) -> (r: Self::Output)
        ensures
            r.magnitude() == self.0.over(other.0),
    {
        crate::composite::Div(Minute(self.0 / other.0), PhantomData)
    }
}

impl DivSpecImpl<Meter> for Minute {
    open spec fn obeys_div_spec() -> bool {
        true
    }

    open spec fn div_req(self, other: Meter) -> bool {
        true
    }

    open spec fn div_spec(self, other: Meter) -> Self::Output {
        crate::composite::Div(Minute(self.0.over(other.0)), PhantomData)
    }
}

impl core::ops::Mul<Hour> for Meter {
    type Output = crate::composite::Mul<Meter, Hour>;

    /// A meter times an hour: `Meter*Hour`.
    fn mul(self, other: Hour) -> (r: Self::Output)
        ensures
            r.magnitude() == self.0.times(other.0),
    {
        crate::composite::Mul(Meter(self.0 * other.0), PhantomData)
    }
}

impl MulSpecImpl<Hour> for Meter {
    open spec fn obeys_mul_spec() -> bool {
        true
    }

    open spec fn mul_req(self, other: Hour) -> bool {
        true
    }

    open spec fn mul_spec(self, other: Hour) -> Self::Output {
        crate::composite::Mul(Meter(self.0.times(other.0)), PhantomData)
    }
}

impl core::ops::Mul<Meter> for Hour {
    type Output = crate::composite::Mul<Hour, Meter>;

    /// An hour times a meter: `Hour*Meter`.
    fn mul(self, other: Meter) -> (r: Self::Output)
        ensures
            r.magnitude() == self.0.times(other.0),
    {
        crate::composite::Mul(Hour(self.0 * other.0), PhantomData)
    }
}

impl MulSpecImpl<Meter> for Hour {
    open spec fn obeys_mul_spec() -> bool {
        true
    }

    open spec fn mul_req(self, other: Meter) -> bool {
        true
    }

    open spec fn mul_spec(self, other: Meter) -> Self::Output {
        crate::composite::Mul(Hour(self.0.times(other.0)), PhantomData)
    }
}

impl core::ops::Div<Hour> for Meter {
    type Output = crate::composite::Div<Meter, Hour>;

    /// A meter by an hour: `Meter/Hour`.
    fn div(self, other: Hour) -> (r: Self::Output)
        ensures
            r.magnitude() == self.0.over(other.0),
    {
        crate::composite::Div(Meter(self.0 / other.0), PhantomData)
    }
}

impl DivSpecImpl<Hour> for Meter {
    open spec fn obeys_div_spec() -> bool {
        true
    }

    open spec fn div_req(self, other: Hour) -> bool {
        true
    }

    open spec fn div_spec(self, other: Hour) -> Self::Output {
        crate::composite::Div(Meter(self.0.over(other.0)), PhantomData)
    }
}

impl core::ops::Div<Meter> for Hour {
    type Output = crate::composite::Div<Hour, Meter>;

    /// An hour by a meter: `Hour/Meter`.
    fn div(self, other: Meter) -> (r: Self::Output)
        ensures
            r.magnitude() == self.0.over(other.0),
    {
        crate::composite::Div(Hour(self.0 / other.0), PhantomData)
    }
}

impl DivSpecImpl<Meter> for Hour {
    open spec fn obeys_div_spec() -> bool {
        true
    }

    open spec fn div_req(self, other: Meter) -> bool {
        true
    }

    open spec fn div_spec(self, other: Meter) -> Self::Output {
        crate::composite::Div(Hour(self.0.over(other.0)), PhantomData)
    }
}

impl core::ops::Mul<Second> for Centimeter {
    type Output = crate::composite::Mul<Centimeter, Second>;

    /// A centimeter times a second: `Centimeter*Second`.
    fn mul(self, other: Second) -> (r: Self::Output)
        ensures
            r.magnitude() == self.0.times(other.0),
    {
        crate::composite::Mul(Centimeter(self.0 * other.0), PhantomData)
    }
}

impl MulSpecImpl<Second> for Centimeter {
    open spec fn obeys_mul_spec() -> bool {
        true
    }

    open spec fn mul_req(self, other: Second) -> bool {
        true
    }

    open spec fn mul_spec(self, other: Second) -> Self::Output {
        crate::composite::Mul(Centimeter(self.0.times(other.0)), PhantomData)
    }
}

impl core::ops::Mul<Centimeter> for Second {
    type Output = crate::composite::Mul<Second, Centimeter>;

    /// A second times a centimeter: `Second*Centimeter`.
    fn mul(self, other: Centimeter) -> (r: Self::Output)
        ensures
            r.magnitude() == self.0.times(other.0),
    {
        crate::composite::Mul(Second(self.0 * other.0), PhantomData)
    }
}

impl MulSpecImpl<Centimeter> for Second {
    open spec fn obeys_mul_spec() -> bool {
        true
    }

    open spec fn mul_req(self, other: Centimeter) -> bool {
        true
    }

    open spec fn mul_spec(self, other: Centimeter) -> Self::Output {
        crate::composite::Mul(Second(self.0.times(other.0)), PhantomData)
    }
}

impl core::ops::Div<Second> for Centimeter {
    type Output = crate::composite::Div<Centimeter, Second>;

    /// A centimeter by a second: `Centimeter/Second`.
    fn div(self, other: Second) -> (r: Self::Output)
        ensures
            r.magnitude() == self.0.over(other.0),
    {
        crate::composite::Div(Centimeter(self.0 / other.0), PhantomData)
    }
}

impl DivSpecImpl<Second> for Centimeter {
    open spec fn obeys_div_spec() -> bool {
        true
    }

    open spec fn div_req(self, other: Second) -> bool {
        true
    }

    open spec fn div_spec(self, other: Second) -> Self::Output {
        crate::composite::Div(Centimeter(self.0.over(other.0)), PhantomData)
    }
}

impl core::ops::Div<Centimeter> for Second {
    type Output = crate::composite::Div<Second, Centimeter>;

    /// A second by a centimeter: `Second/Centimeter`.
    fn div(self, other: Centimeter) -> (r: Self::Output)
        ensures
            r.magnitude() == self.0.over(other.0),
    {
        crate::composite::Div(Second(self.0 / other.0), PhantomData)
    }
}

impl DivSpecImpl<Centimeter> for Second {
    open spec fn obeys_div_spec() -> bool {
        true
    }

    open spec fn div_req(self, other: Centimeter) -> bool {
        true
    }

    open spec fn div_spec(self, other: Centimeter) -> Self::Output {
        crate::composite::Div(Second(self.0.over(other.0)), PhantomData)
    }
}

impl core::ops::Mul<Minute> for Centimeter {
    type Output = crate::composite::Mul<Centimeter, Minute>;

    /// A centimeter times a minute: `Centimeter*Minute`.
    fn mul(self, other: Minute) -> (r: Self::Output)
        ensures
            r.magnitude() == self.0.times(other.0),
    {
        crate::composite::Mul(Centimeter(self.0 * other.0), PhantomData)
    }
}

impl MulSpecImpl<Minute> for Centimeter {
    open spec fn obeys_mul_spec() -> bool {
        true
    }

    open spec fn mul_req(self, other: Minute) -> bool {
        true
    }

    open spec fn mul_spec(self, other: Minute) -> Self::Output {
        crate::composite::Mul(Centimeter(self.0.times(other.0)), PhantomData)
    }
}

impl core::ops::Mul<Centimeter> for Minute {
    type Output = crate::composite::Mul<Minute, Centimeter>;

    /// A minute times a centimeter: `Minute*Centimeter`.
    fn mul(self, other: Centimeter) -> (r: Self::Output)
        ensures
            r.magnitude() == self.0.times(other.0),
    {
        crate::composite::Mul(Minute(self.0 * other.0), PhantomData)
    }
}

impl MulSpecImpl<Centimeter> for Minute {
    open spec fn obeys_mul_spec() -> bool {
        true
    }

    open spec fn mul_req(self, other: Centimeter) -> bool {
        true
    }

    open spec fn mul_spec(self, other: Centimeter) -> Self::Output {
        crate::composite::Mul(Minute(self.0.times(other.0)), PhantomData)
    }
}

impl core::ops::Div<Minute> for Centimeter {
    type Output = crate::composite::Div<Centimeter, Minute>;

    /// A centimeter by a minute: `Centimeter/Minute`.
    fn div(self, other: Minute) -> (r: Self::Output)
        ensures
            r.magnitude() == self.0.over(other.0),
    {
        crate::composite::Div(Centimeter(self.0 / other.0), PhantomData)
    }
}

impl DivSpecImpl<Minute> for Centimeter {
    open spec fn obeys_div_spec() -> bool {
        true
    }

    open spec fn div_req(self, other: Minute) -> bool {
        true
    }

    open spec fn div_spec(self, other: Minute) -> Self::Output {
        crate::composite::Div(Centimeter(self.0.over(other.0)), PhantomData)
    }
}

impl core::ops::Div<Centimeter> for Minute {
    type Output = crate::composite::Div<Minute, Centimeter>;

    /// A minute by a centimeter: `Minute/Centimeter`.
    fn div(self, other: Centimeter) -> (r: Self::Output)
        ensures
            r.magnitude() == self.0.over(other.0),
    {
        crate::composite::Div(Minute(self.0 / other.0), PhantomData)
    }
}

impl DivSpecImpl<Centimeter> for Minute {
    open spec fn obeys_div_spec() -> bool {
        true
    }

    open spec fn div_req(self, other: Centimeter) -> bool {
        true
    }

    open spec fn div_spec(self, other: Centimeter) -> Self::Output {
        crate::composite::Div(Minute(self.0.over(other.0)), PhantomData)
    }
}

impl core::ops::Mul<Hour> for Centimeter {
    type Output = crate::composite::Mul<Centimeter, Hour>;

    /// A centimeter times an hour: `Centimeter*Hour`.
    fn mul(self, other: Hour) -> (r: Self::Output)
        ensures
            r.magnitude() == self.0.times(other.0),
    {
        crate::composite::Mul(Centimeter(self.0 * other.0), PhantomData)
    }
}

impl MulSpecImpl<Hour> for Centimeter {
    open spec fn obeys_mul_spec() -> bool {
        true
    }

    open spec fn mul_req(self, other: Hour) -> bool {
        true
    }

    open spec fn mul_spec(self, other: Hour) -> Self::Output {
        crate::composite::Mul(Centimeter(self.0.times(other.0)), PhantomData)
    }
}

impl core::ops::Mul<Centimeter> for Hour {
    type Output = crate::composite::Mul<Hour, Centimeter>;

    /// An hour times a centimeter: `Hour*Centimeter`.
    fn mul(self, other: Centimeter) -> (r: Self::Output)
        ensures
            r.magnitude() == self.0.times(other.0),
    {
        crate::composite::Mul(Hour(self.0 * other.0), PhantomData)
    }
}

impl MulSpecImpl<Centimeter> for Hour {
    open spec fn obeys_mul_spec() -> bool {
        true
    }

    open spec fn mul_req(self, other: Centimeter) -> bool {
        true
    }

    open spec fn mul_spec(self, other: Centimeter) -> Self::Output {
        crate::composite::Mul(Hour(self.0.times(other.0)), PhantomData)
    }
}

impl core::ops::Div<Hour> for Centimeter {
    type Output = crate::composite::Div<Centimeter, Hour>;

    /// A centimeter by an hour: `Centimeter/Hour`.
    fn div(self, other: Hour) -> (r: Self::Output)
        ensures
            r.magnitude() == self.0.over(other.0),
    {
        crate::composite::Div(Centimeter(self.0 / other.0), PhantomData)
    }
}

impl DivSpecImpl<Hour> for Centimeter {
    open spec fn obeys_div_spec() -> bool {
        true
    }

    open spec fn div_req(self, other: Hour) -> bool {
        true
    }

    open spec fn div_spec(self, other: Hour) -> Self::Output {
        crate::composite::Div(Centimeter(self.0.over(other.0)), PhantomData)
    }
}

impl core::ops::Div<Centimeter> for Hour {
    type Output = crate::composite::Div<Hour, Centimeter>;

    /// An hour by a centimeter: `Hour/Centimeter`.
    fn div(self, other: Centimeter) -> (r: Self::Output)
        ensures
            r.magnitude() == self.0.over(other.0),
    {
        crate::composite::Div(Hour(self.0 / other.0), PhantomData)
    }
}

impl DivSpecImpl<Centimeter> for Hour {
    open spec fn obeys_div_spec() -> bool {
        true
    }

    open spec fn div_req(self, other: Centimeter) -> bool {
        true
    }

    open spec fn div_spec(self, other: Centimeter) -> Self::Output {
        crate::composite::Div(Hour(self.0.over(other.0)), PhantomData)
    }
}

impl core::ops::Mul<Second> for Millimeter {
    type Output = crate::composite::Mul<Millimeter, Second>;

    /// A millimeter times a second: `Millimeter*Second`.
    fn mul(self, other: Second) -> (r: Self::Output)
        ensures
            r.magnitude() == self.0.times(other.0),
    {
        crate::composite::Mul(Millimeter(self.0 * other.0), PhantomData)
    }
}

impl MulSpecImpl<Second> for Millimeter {
    open spec fn obeys_mul_spec() -> bool {
        true
    }

    open spec fn mul_req(self, other: Second) -> bool {
        true
    }

    open spec fn mul_spec(self, other: Second) -> Self::Output {
        crate::composite::Mul(Millimeter(self.0.times(other.0)), PhantomData)
    }
}

impl core::ops::Mul<Millimeter> for Second {
    type Output = crate::composite::Mul<Second, Millimeter>;

    /// A second times a millimeter: `Second*Millimeter`.
    fn mul(self, other: Millimeter) -> (r: Self::Output)
        ensures
            r.magnitude() == self.0.times(other.0),
    {
        crate::composite::Mul(Second(self.0 * other.0), PhantomData)
    }
}

impl MulSpecImpl<Millimeter> for Second {
    open spec fn obeys_mul_spec() -> bool {
        true
    }

    open spec fn mul_req(self, other: Millimeter) -> bool {
        true
    }

    open spec fn mul_spec(self, other: Millimeter) -> Self::Output {
        crate::composite::Mul(Second(self.0.times(other.0)), PhantomData)
    }
}

impl core::ops::Div<Second> for Millimeter {
    type Output = crate::composite::Div<Millimeter, Second>;

    /// A millimeter by a second: `Millimeter/Second`.
    fn div(self, other: Second) -> (r: Self::Output)
        ensures
            r.magnitude() == self.0.over(other.0),
    {
        crate::composite::Div(Millimeter(self.0 / other.0), PhantomData)
    }
}

impl DivSpecImpl<Second> for Millimeter {
    open spec fn obeys_div_spec() -> bool {
        true
    }

    open spec fn div_req(self, other: Second) -> bool {
        true
    }

    open spec fn div_spec(self, other: Second) -> Self::Output {
        crate::composite::Div(Millimeter(self.0.over(other.0)), PhantomData)
    }
}

impl core::ops::Div<Millimeter> for Second {
    type Output = crate::composite::Div<Second, Millimeter>;

    /// A second by a millimeter: `Second/Millimeter`.
    fn div(self, other: Millimeter) -> (r: Self::Output)
        ensures
            r.magnitude() == self.0.over(other.0),
    {
        crate::composite::Div(Second(self.0 / other.0), PhantomData)
    }
}

impl DivSpecImpl<Millimeter> for Second {
    open spec fn obeys_div_spec() -> bool {
        true
    }

    open spec fn div_req(self, other: Millimeter) -> bool {
        true
    }

    open spec fn div_spec(self, other: Millimeter) -> Self::Output {
        crate::composite::Div(Second(self.0.over(other.0)), PhantomData)
    }
}

impl core::ops::Mul<Minute> for Millimeter {
    type Output = crate::composite::Mul<Millimeter, Minute>;

    /// A millimeter times a minute: `Millimeter*Minute`.
    fn mul(self, other: Minute) -> (r: Self::Output)
        ensures
            r.magnitude() == self.0.times(other.0),
    {
        crate::composite::Mul(Millimeter(self.0 * other.0), PhantomData)
    }
}

impl MulSpecImpl<Minute> for Millimeter {
    open spec fn obeys_mul_spec() -> bool {
        true
    }

    open spec fn mul_req(self, other: Minute) -> bool {
        true
    }

    open spec fn mul_spec(self, other: Minute) -> Self::Output {
        crate::composite::Mul(Millimeter(self.0.times(other.0)), PhantomData)
    }
}

impl core::ops::Mul<Millimeter> for Minute {
    type Output = crate::composite::Mul<Minute, Millimeter>;

    /// A minute times a millimeter: `Minute*Millimeter`.
    fn mul(self, other: Millimeter) -> (r: Self::Output)
        ensures
            r.magnitude() == self.0.times(other.0),
    {
        crate::composite::Mul(Minute(self.0 * other.0), PhantomData)
    }
}

impl MulSpecImpl<Millimeter> for Minute {
    open spec fn obeys_mul_spec() -> bool {
        true
    }

    open spec fn mul_req(self, other: Millimeter) -> bool {
        true
    }

    open spec fn mul_spec(self, other: Millimeter) -> Self::Output {
        crate::composite::Mul(Minute(self.0.times(other.0)), PhantomData)
    }
}

impl core::ops::Div<Minute> for Millimeter {
    type Output = crate::composite::Div<Millimeter, Minute>;

    /// A millimeter by a minute: `Millimeter/Minute`.
    fn div(self, other: Minute) -> (r: Self::Output)
        ensures
            r.magnitude() == self.0.over(other.0),
    {
        crate::composite::Div(Millimeter(self.0 / other.0), PhantomData)
    }
}

impl DivSpecImpl<Minute> for Millimeter {
    open spec fn obeys_div_spec() -> bool {
        true
    }

    open spec fn div_req(self, other: Minute) -> bool {
        true
    }

    open spec fn div_spec(self, other: Minute) -> Self::Output {
        crate::composite::Div(Millimeter(self.0.over(other.0)), PhantomData)
    }
}

impl core::ops::Div<Millimeter> for Minute {
    type Output = crate::composite::Div<Minute, Millimeter>;

    /// A minute by a millimeter: `Minute/Millimeter`.
    fn div(self, other: Millimeter) -> (r: Self::Output)
        ensures
            r.magnitude() == self.0.over(other.0),
    {
        crate::composite::Div(Minute(self.0 / other.0), PhantomData)
    }
}

impl DivSpecImpl<Millimeter> for Minute {
    open spec fn obeys_div_spec() -> bool {
        true
    }

    open spec fn div_req(self, other: Millimeter) -> bool {
        true
    }

    open spec fn div_spec(self, other: Millimeter) -> Self::Output {
        crate::composite::Div(Minute(self.0.over(other.0)), PhantomData)
    }
}

impl core::ops::Mul<Hour> for Millimeter {
    type Output = crate::composite::Mul<Millimeter, Hour>;

    /// A millimeter times an hour: `Millimeter*Hour`.
    fn mul(self, other: Hour) -> (r: Self::Output)
        ensures
            r.magnitude() == self.0.times(other.0),
    {
        crate::composite::Mul(Millimeter(self.0 * other.0), PhantomData)
    }
}

impl MulSpecImpl<Hour> for Millimeter {
    open spec fn obeys_mul_spec() -> bool {
        true
    }

    open spec fn mul_req(self, other: Hour) -> bool {
        true
    }

    open spec fn mul_spec(self, other: Hour) -> Self::Output {
        crate::composite::Mul(Millimeter(self.0.times(other.0)), PhantomData)
    }
}

impl core::ops::Mul<Millimeter> for Hour {
    type Output = crate::composite::Mul<Hour, Millimeter>;

    /// An hour times a millimeter: `Hour*Millimeter`.
    fn mul(self, other: Millimeter) -> (r: Self::Output)
        ensures
            r.magnitude() == self.0.times(other.0),
    {
        crate::composite::Mul(Hour(self.0 * other.0), PhantomData)
    }
}

impl MulSpecImpl<Millimeter> for Hour {
    open spec fn obeys_mul_spec() -> bool {
        true
    }

    open spec fn mul_req(self, other: Millimeter) -> bool {
        true
    }

    open spec fn mul_spec(self, other: Millimeter) -> Self::Output {
        crate::composite::Mul(Hour(self.0.times(other.0)), PhantomData)
    }
}

impl core::ops::Div<Hour> for Millimeter {
    type Output = crate::composite::Div<Millimeter, Hour>;

    /// A millimeter by an hour: `Millimeter/Hour`.
    fn div(self, other: Hour) -> (r: Self::Output)
        ensures
            r.magnitude() == self.0.over(other.0),
    {
        crate::composite::Div(Millimeter(self.0 / other.0), PhantomData)
    }
}

impl DivSpecImpl<Hour> for Millimeter {
    open spec fn obeys_div_spec() -> bool {
        true
    }

    open spec fn div_req(self, other: Hour) -> bool {
        true
    }

    open spec fn div_spec(self, other: Hour) -> Self::Output {
        crate::composite::Div(Millimeter(self.0.over(other.0)), PhantomData)
    }
}

impl core::ops::Div<Millimeter> for Hour {
    type Output = crate::composite::Div<Hour, Millimeter>;

    /// An hour by a millimeter: `Hour/Millimeter`.
    fn div(self, other: Millimeter) -> (r: Self::Output)
        ensures
            r.magnitude() == self.0.over(other.0),
    {
        crate::composite::Div(Hour(self.0 / other.0), PhantomData)
    }
}

impl DivSpecImpl<Millimeter> for Hour {
    open spec fn obeys_div_spec() -> bool {
        true
    }

    open spec fn div_req(self, other: Millimeter) -> bool {
        true
    }

    open spec fn div_spec(self, other: Millimeter) -> Self::Output {
        crate::composite::Div(Hour(self.0.over(other.0)), PhantomData)
    }
}

} // verus!
