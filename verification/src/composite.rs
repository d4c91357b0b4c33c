//! Composite units: products and quotients of units, and their algebra.
//!
//! A composite holds one magnitude, that of the whole quantity in the
//! composite's own unit, in its left operand. The right operand is a marker
//! that exists in the type only. Multiplying and dividing composites never
//! cancels a unit: the result's type nests the operands' units by a fixed rule
//! for each pair of shapes, and its magnitude is the product or quotient of
//! the operands' magnitudes. Cancelling is explicit: [`Div::multiply`],
//! [`Div::integrate`], [`Mul::divide_right`], [`Mul::divide_left`] and
//! [`Mul::sqrt`].

use vstd::prelude::*;
use vstd::std_specs::ops::{AddSpecImpl, DivSpecImpl, MulSpecImpl, SubSpecImpl};
use core::marker::PhantomData;
use crate::scalar::Scalar;
use crate::text::{scalar_text, write_scalar};


verus! {

/// A quantity of some unit: a magnitude whose unit is its type.
pub trait Unit: Sized {
    /// The magnitude that the quantity holds, in its own unit.
    spec fn magnitude(&self) -> Scalar;

    /// The quantity of this unit with the magnitude `val`.
    spec fn of(val: Scalar) -> Self;

    /// A quantity built from a magnitude holds that magnitude.
    proof fn lemma_magnitude_of(val: Scalar)
        ensures
            Self::of(val).magnitude() == val,
    ;

    /// A quantity is nothing but its magnitude: the unit is in the type.
    proof fn lemma_of_magnitude(u: Self)
        ensures
            Self::of(u.magnitude()) == u,
    ;

    /// Wraps a magnitude, which is taken as it is.
    fn new(val: Scalar) -> (r: Self)
        ensures
            r == Self::of(val),
    ;

    /// The magnitude, in the quantity's own unit.
    fn inner(&self) -> (r: Scalar)
        ensures
            r == self.magnitude(),
    ;
}

/// The name and the label of a unit.
pub trait UnitName {
    /// What [`UnitName::get_unit`] returns: the label of a base unit, a fixed
    /// description for a composite.
    spec fn unit_name() -> Seq<char>;

    /// The unit's canonical label, built from the labels of its parts.
    spec fn unit_label() -> Seq<char>;

    /// The unit's name, asked of a quantity.
    fn get_unit(&self) -> (r: &'static str)
        ensures
            r@ == Self::unit_name(),
    ;

    /// The unit's name, asked of the type.
    fn get_unit_static() -> (r: &'static str)
        ensures
            r@ == Self::unit_name(),
    ;

    /// Appends the unit's label to `out`.
    fn write_unit_static(out: &mut String)
        ensures
            final(out)@ == old(out)@ + Self::unit_label(),
    ;
}

/// The product of a quantity of unit `T` and the unit `U`.
pub struct Mul<T, U>(pub T, pub PhantomData<U>);

/// The quotient of a quantity of unit `T` by the unit `U`.
pub struct Div<T, U>(pub T, pub PhantomData<U>);

impl<T: Copy, U> Copy for Mul<T, U> {

}

impl<T: Copy, U> Clone for Mul<T, U> {
    fn clone(&self) -> (r: Self)
        ensures
            r == *self,
    {
        *self
    }
}

impl<T: Copy, U> Copy for Div<T, U> {

}

impl<T: Copy, U> Clone for Div<T, U> {
    fn clone(&self) -> (r: Self)
        ensures
            r == *self,
    {
        *self
    }
}

/// The label of a product: `<left>*<right>`.
pub open spec fn mul_label(left: Seq<char>, right: Seq<char>) -> Seq<char> {
    left + seq!['*'] + right
}

/// The label of a quotient: `(<left>)/(<right>)`.
pub open spec fn div_label(left: Seq<char>, right: Seq<char>) -> Seq<char> {
    seq!['('] + left + seq![')', '/', '('] + right + seq![')']
}

/// The text of a quantity: its magnitude, then its unit's label, with
/// `separator` between them.
pub open spec fn quantity_text(magnitude: Scalar, separator: Seq<char>, label: Seq<char>) -> Seq<
    char,
> {
    scalar_text(magnitude) + separator + label
}

impl<T, U> UnitName for Mul<T, U> where T: Unit + UnitName, U: UnitName {
    open spec fn unit_name() -> Seq<char> {
        "mul-composite unit"@
    }

    open spec fn unit_label() -> Seq<char> {
        mul_label(T::unit_label(), U::unit_label())
    }

    fn get_unit(&self) -> (r: &'static str) {
        "mul-composite unit"
    }

    fn get_unit_static() -> (r: &'static str) {
        "mul-composite unit"
    }

    fn write_unit_static(out: &mut String) {
        proof {
            reveal_strlit("*");
        }
        T::write_unit_static(out);
        out.append("*");
        U::write_unit_static(out);
    }
}

impl<T, U> UnitName for Div<T, U> where T: Unit + UnitName, U: UnitName {
    open spec fn unit_name() -> Seq<char> {
        "div-composite unit"@
    }

    open spec fn unit_label() -> Seq<char> {
        div_label(T::unit_label(), U::unit_label())
    }

    fn get_unit(&self) -> (r: &'static str) {
        "div-composite unit"
    }

    fn get_unit_static() -> (r: &'static str) {
        "div-composite unit"
    }

    fn write_unit_static(out: &mut String) {
        proof {
            reveal_strlit("(");
            reveal_strlit(")/(");
            reveal_strlit(")");
        }
        out.append("(");
        T::write_unit_static(out);
        out.append(")/(");
        U::write_unit_static(out);
        out.append(")");
    }
}

impl<T, U> Mul<T, U> where T: Unit + UnitName, U: UnitName {
    /// Appends the quantity to `out`: the magnitude, a space, the label.
    pub fn fmt(&self, out: &mut String)
        ensures
            final(out)@ == old(out)@ + quantity_text(
                self.magnitude(),
                seq![' '],
                Self::unit_label(),
            ),
    {
        proof {
            reveal_strlit(" ");
            reveal_strlit("*");
        }
        write_scalar(out, self.inner());
        out.append(" ");
        T::write_unit_static(out);
        out.append("*");
        U::write_unit_static(out);
    }
}

impl<T, U> Div<T, U> where T: Unit + UnitName, U: UnitName {
    /// Appends the quantity to `out`: the magnitude, a space, the label.
    pub fn fmt(&self, out: &mut String)
        ensures
            final(out)@ == old(out)@ + quantity_text(
                self.magnitude(),
                seq![' '],
                Self::unit_label(),
            ),
    {
        proof {
            reveal_strlit(" (");
            reveal_strlit(")/(");
            reveal_strlit(")");
        }
        write_scalar(out, self.inner());
        out.append(" (");
        T::write_unit_static(out);
        out.append(")/(");
        U::write_unit_static(out);
        out.append(")");
    }
}

impl<T, U> Unit for Mul<T, U> where T: Unit {
    open spec fn magnitude(&self) -> Scalar {
        self.0.magnitude()
    }

    open spec fn of(val: Scalar) -> Self {
        Mul(T::of(val), PhantomData)
    }

    proof fn lemma_magnitude_of(val: Scalar) {
        T::lemma_magnitude_of(val);
    }

    proof fn lemma_of_magnitude(u: Self) {
        T::lemma_of_magnitude(u.0);
    }

    #[inline(always)]
    fn new(val: Scalar) -> (r: Mul<T, U>) {
        Mul(T::new(val), PhantomData)
    }

    #[inline(always)]
    fn inner(&self) -> (r: Scalar) {
        self.0.inner()
    }
}

impl<T, U> Unit for Div<T, U> where T: Unit {
    open spec fn magnitude(&self) -> Scalar {
        self.0.magnitude()
    }

    open spec fn of(val: Scalar) -> Self {
        Div(T::of(val), PhantomData)
    }

    proof fn lemma_magnitude_of(val: Scalar) {
        T::lemma_magnitude_of(val);
    }

    proof fn lemma_of_magnitude(u: Self) {
        T::lemma_of_magnitude(u.0);
    }

    #[inline(always)]
    fn new(val: Scalar) -> (r: Div<T, U>) {
        Div(T::new(val), PhantomData)
    }

    #[inline(always)]
    fn inner(&self) -> (r: Scalar) {
        self.0.inner()
    }
}

impl<T, U> Div<T, U> where T: Unit, U: Unit {
    /// Cancels the denominator: a rate times a quantity of its denominator's
    /// unit is a quantity of its numerator's unit.
    #[inline(always)]
    pub fn multiply(self, other: U) -> (r: T)
        ensures
            r == T::of(self.magnitude().times(other.magnitude())),
            r.magnitude() == self.magnitude().times(other.magnitude()),
    {
        proof {
            T::lemma_magnitude_of(self.magnitude().times(other.magnitude()));
        }
        T::new(self.0.inner() * other.inner())
    }
}

impl<T, U> Div<T, Mul<U, U>> where T: Unit, U: Unit {
    /// One step of integration: a quantity per squared unit, times a quantity
    /// of that unit, is a quantity per unit.
    #[inline(always)]
    pub fn integrate(self, other: U) -> (r: Div<T, U>)
        ensures
            r == Div::<T, U>::of(self.magnitude().times(other.magnitude())),
            r.magnitude() == self.magnitude().times(other.magnitude()),
    {
        proof {
            T::lemma_magnitude_of(self.magnitude().times(other.magnitude()));
        }
        Div(T::new(self.0.inner() * other.inner()), PhantomData)
    }
}

impl<T> Mul<T, T> where T: Copy + Unit {
    /// The square root of a squared unit: a quantity of the unit itself, with
    /// the square root of the magnitude. The root of a magnitude that is not
    /// negative is exact where it is a fraction, and otherwise rounded down
    /// by less than one part in `ROOT_STEPS` of a unit.
    #[inline(always)]
    pub fn sqrt(&self) -> (r: T)
        ensures
            r == T::of(self.magnitude().root()),
            r.magnitude() == self.magnitude().root(),
    {
        proof {
            T::lemma_magnitude_of(self.magnitude().root());
        }
        T::new(self.inner().sqrt())
    }
}

impl<T, U> Mul<T, U> where T: Unit, U: Unit {
    /// Cancels the right factor: a product divided by a quantity of its right
    /// unit is a quantity of its left unit.
    #[inline(always)]
    pub fn divide_right(self, other: U) -> (r: T)
        ensures
            r == T::of(self.magnitude().over(other.magnitude())),
            r.magnitude() == self.magnitude().over(other.magnitude()),
    {
        proof {
            T::lemma_magnitude_of(self.magnitude().over(other.magnitude()));
        }
        T::new(self.0.inner() / other.inner())
    }

    /// Cancels the left factor: a product divided by a quantity of its left
    /// unit is a quantity of its right unit.
    #[inline(always)]
    pub fn divide_left(self, other: T) -> (r: U)
        ensures
            r == U::of(self.magnitude().over(other.magnitude())),
            r.magnitude() == self.magnitude().over(other.magnitude()),
    {
        proof {
            U::lemma_magnitude_of(self.magnitude().over(other.magnitude()));
        }
        U::new(self.0.inner() / other.inner())
    }
}

impl<T, U, W, X> core::ops::Mul<Mul<T, U>> for Mul<W, X> where W: Copy + Unit, T: Copy + Unit {
    type Output = Mul<W, Mul<X, Mul<T, U>>>;

    /// `(W*X) * (T*U)` is `W*(X*(T*U))`.
    fn mul(self, other: Mul<T, U>) -> (r: Self::Output)
        ensures
            r.magnitude() == self.magnitude().times(other.magnitude()),
    {
        proof {
            W::lemma_magnitude_of(self.magnitude().times(other.magnitude()));
        }
        Mul(W::new(self.0.inner() * other.0.inner()), PhantomData)
    }
}

impl<T, U, W, X> MulSpecImpl<Mul<T, U>> for Mul<W, X> where W: Copy + Unit, T: Copy + Unit {
    open spec fn obeys_mul_spec() -> bool {
        true
    }

    open spec fn mul_req(self, other: Mul<T, U>) -> bool {
        true
    }

    open spec fn mul_spec(self, other: Mul<T, U>) -> Self::Output {
        Mul(W::of(self.magnitude().times(other.magnitude())), PhantomData)
    }
}

impl<T, U, W, X> core::ops::Mul<Div<T, U>> for Mul<W, X> where W: Copy + Unit, T: Copy + Unit {
    type Output = Mul<W, Mul<X, Div<T, U>>>;

    /// `(W*X) * (T/U)` is `W*(X*(T/U))`.
    fn mul(self, other: Div<T, U>) -> (r: Self::Output)
        ensures
            r.magnitude() == self.magnitude().times(other.magnitude()),
    {
        proof {
            W::lemma_magnitude_of(self.magnitude().times(other.magnitude()));
        }
        Mul(W::new(self.0.inner() * other.0.inner()), PhantomData)
    }
}

impl<T, U, W, X> MulSpecImpl<Div<T, U>> for Mul<W, X> where W: Copy + Unit, T: Copy + Unit {
    open spec fn obeys_mul_spec() -> bool {
        true
    }

    open spec fn mul_req(self, other: Div<T, U>) -> bool {
        true
    }

    open spec fn mul_spec(self, other: Div<T, U>) -> Self::Output {
        Mul(W::of(self.magnitude().times(other.magnitude())), PhantomData)
    }
}

impl<T, U, W, X> core::ops::Mul<Mul<T, U>> for Div<W, X> where W: Copy + Unit, T: Copy + Unit {
    type Output = Mul<W, Mul<T, Div<U, X>>>;

    /// `(W/X) * (T*U)` is `W*(T*(U/X))`.
    fn mul(self, other: Mul<T, U>) -> (r: Self::Output)
        ensures
            r.magnitude() == self.magnitude().times(other.magnitude()),
    {
        proof {
            W::lemma_magnitude_of(self.magnitude().times(other.magnitude()));
        }
        Mul(W::new(self.0.inner() * other.0.inner()), PhantomData)
    }
}

impl<T, U, W, X> MulSpecImpl<Mul<T, U>> for Div<W, X> where W: Copy + Unit, T: Copy + Unit {
    open spec fn obeys_mul_spec() -> bool {
        true
    }

    open spec fn mul_req(self, other: Mul<T, U>) -> bool {
        true
    }

    open spec fn mul_spec(self, other: Mul<T, U>) -> Self::Output {
        Mul(W::of(self.magnitude().times(other.magnitude())), PhantomData)
    }
}

impl<T, U, W, X> core::ops::Mul<Div<T, U>> for Div<W, X> where W: Copy + Unit, T: Copy + Unit {
    type Output = Mul<W, Div<T, Mul<X, U>>>;

    /// `(W/X) * (T/U)` is `W*(T/(X*U))`.
    fn mul(self, other: Div<T, U>) -> (r: Self::Output)
        ensures
            r.magnitude() == self.magnitude().times(other.magnitude()),
    {
        proof {
            W::lemma_magnitude_of(self.magnitude().times(other.magnitude()));
        }
        Mul(W::new(self.0.inner() * other.0.inner()), PhantomData)
    }
}

impl<T, U, W, X> MulSpecImpl<Div<T, U>> for Div<W, X> where W: Copy + Unit, T: Copy + Unit {
    open spec fn obeys_mul_spec() -> bool {
        true
    }

    open spec fn mul_req(self, other: Div<T, U>) -> bool {
        true
    }

    open spec fn mul_spec(self, other: Div<T, U>) -> Self::Output {
        Mul(W::of(self.magnitude().times(other.magnitude())), PhantomData)
    }
}

impl<T, U, W, X> core::ops::Div<Mul<T, U>> for Mul<W, X> where W: Copy + Unit, T: Copy + Unit {
    type Output = Mul<W, Div<X, Mul<T, U>>>;

    /// `(W*X) / (T*U)` is `W*(X/(T*U))`.
    fn div(self, other: Mul<T, U>) -> (r: Self::Output)
        ensures
            r.magnitude() == self.magnitude().over(other.magnitude()),
    {
        proof {
            W::lemma_magnitude_of(self.magnitude().over(other.magnitude()));
        }
        Mul(W::new(self.0.inner() / other.0.inner()), PhantomData)
    }
}

impl<T, U, W, X> DivSpecImpl<Mul<T, U>> for Mul<W, X> where W: Copy + Unit, T: Copy + Unit {
    open spec fn obeys_div_spec() -> bool {
        true
    }

    open spec fn div_req(self, other: Mul<T, U>) -> bool {
        true
    }

    open spec fn div_spec(self, other: Mul<T, U>) -> Self::Output {
        Mul(W::of(self.magnitude().over(other.magnitude())), PhantomData)
    }
}

impl<T, U, W, X> core::ops::Div<Div<T, U>> for Mul<W, X> where W: Copy + Unit, T: Copy + Unit {
    type Output = Mul<W, Mul<X, Div<U, T>>>;

    /// `(W*X) / (T/U)` is `W*(X*(U/T))`.
    fn div(self, other: Div<T, U>) -> (r: Self::Output)
        ensures
            r.magnitude() == self.magnitude().over(other.magnitude()),
    {
        proof {
            W::lemma_magnitude_of(self.magnitude().over(other.magnitude()));
        }
        Mul(W::new(self.0.inner() / other.0.inner()), PhantomData)
    }
}

impl<T, U, W, X> DivSpecImpl<Div<T, U>> for Mul<W, X> where W: Copy + Unit, T: Copy + Unit {
    open spec fn obeys_div_spec() -> bool {
        true
    }

    open spec fn div_req(self, other: Div<T, U>) -> bool {
        true
    }

    open spec fn div_spec(self, other: Div<T, U>) -> Self::Output {
        Mul(W::of(self.magnitude().over(other.magnitude())), PhantomData)
    }
}

impl<T, U, W, X> core::ops::Div<Mul<T, U>> for Div<W, X> where W: Copy + Unit, T: Copy + Unit {
    type Output = Div<W, Mul<X, Mul<T, U>>>;

    /// `(W/X) / (T*U)` is `W/(X*(T*U))`.
    fn div(self, other: Mul<T, U>) -> (r: Self::Output)
        ensures
            r.magnitude() == self.magnitude().over(other.magnitude()),
    {
        proof {
            W::lemma_magnitude_of(self.magnitude().over(other.magnitude()));
        }
        Div(W::new(self.0.inner() / other.0.inner()), PhantomData)
    }
}

impl<T, U, W, X> DivSpecImpl<Mul<T, U>> for Div<W, X> where W: Copy + Unit, T: Copy + Unit {
    open spec fn obeys_div_spec() -> bool {
        true
    }

    open spec fn div_req(self, other: Mul<T, U>) -> bool {
        true
    }

    open spec fn div_spec(self, other: Mul<T, U>) -> Self::Output {
        Div(W::of(self.magnitude().over(other.magnitude())), PhantomData)
    }
}

impl<T, U, W, X> core::ops::Div<Div<T, U>> for Div<W, X> where W: Copy + Unit, T: Copy + Unit {
    type Output = Mul<W, Div<U, Mul<T, X>>>;

    /// `(W/X) / (T/U)` is `W*(U/(T*X))`.
    fn div(self, other: Div<T, U>) -> (r: Self::Output)
        ensures
            r.magnitude() == self.magnitude().over(other.magnitude()),
    {
        proof {
            W::lemma_magnitude_of(self.magnitude().over(other.magnitude()));
        }
        Mul(W::new(self.0.inner() / other.0.inner()), PhantomData)
    }
}

impl<T, U, W, X> DivSpecImpl<Div<T, U>> for Div<W, X> where W: Copy + Unit, T: Copy + Unit {
    open spec fn obeys_div_spec() -> bool {
        true
    }

    open spec fn div_req(self, other: Div<T, U>) -> bool {
        true
    }

    open spec fn div_spec(self, other: Div<T, U>) -> Self::Output {
        Mul(W::of(self.magnitude().over(other.magnitude())), PhantomData)
    }
}

impl<T, U> core::ops::Sub<Mul<T, U>> for Mul<T, U> where T: Unit {
    type Output = Mul<T, U>;

    /// The difference of two products of one shape: the magnitudes are
    /// subtracted as they are, and nothing is converted.
    fn sub(self, other: Mul<T, U>) -> (r: Self::Output)
        ensures
            r.magnitude() == self.magnitude().minus(other.magnitude()),
    {
        proof {
            T::lemma_magnitude_of(self.magnitude().minus(other.magnitude()));
        }
        Mul(T::new(self.0.inner() - other.0.inner()), PhantomData)
    }
}

impl<T, U> SubSpecImpl<Mul<T, U>> for Mul<T, U> where T: Unit {
    open spec fn obeys_sub_spec() -> bool {
        true
    }

    open spec fn sub_req(self, other: Mul<T, U>) -> bool {
        true
    }

    open spec fn sub_spec(self, other: Mul<T, U>) -> Self::Output {
        Mul(T::of(self.magnitude().minus(other.magnitude())), PhantomData)
    }
}

impl<T, U> core::ops::Add<Mul<T, U>> for Mul<T, U> where T: Unit {
    type Output = Mul<T, U>;

    /// The sum of two products of one shape: the magnitudes are
    /// added as they are, and nothing is converted.
    fn add(self, other: Mul<T, U>) -> (r: Self::Output)
        ensures
            r.magnitude() == self.magnitude().plus(other.magnitude()),
    {
        proof {
            T::lemma_magnitude_of(self.magnitude().plus(other.magnitude()));
        }
        Mul(T::new(self.0.inner() + other.0.inner()), PhantomData)
    }
}

impl<T, U> AddSpecImpl<Mul<T, U>> for Mul<T, U> where T: Unit {
    open spec fn obeys_add_spec() -> bool {
        true
    }

    open spec fn add_req(self, other: Mul<T, U>) -> bool {
        true
    }

    open spec fn add_spec(self, other: Mul<T, U>) -> Self::Output {
        Mul(T::of(self.magnitude().plus(other.magnitude())), PhantomData)
    }
}

impl<T, U> core::ops::Sub<Div<T, U>> for Div<T, U> where T: Unit {
    type Output = Div<T, U>;

    /// The difference of two quotients of one shape: the magnitudes are
    /// subtracted as they are, and nothing is converted.
    fn sub(self, other: Div<T, U>) -> (r: Self::Output)
        ensures
            r.magnitude() == self.magnitude().minus(other.magnitude()),
    {
        proof {
            T::lemma_magnitude_of(self.magnitude().minus(other.magnitude()));
        }
        Div(T::new(self.0.inner() - other.0.inner()), PhantomData)
    }
}

impl<T, U> SubSpecImpl<Div<T, U>> for Div<T, U> where T: Unit {
    open spec fn obeys_sub_spec() -> bool {
        true
    }

    open spec fn sub_req(self, other: Div<T, U>) -> bool {
        true
    }

    open spec fn sub_spec(self, other: Div<T, U>) -> Self::Output {
        Div(T::of(self.magnitude().minus(other.magnitude())), PhantomData)
    }
}

impl<T, U> core::ops::Add<Div<T, U>> for Div<T, U> where T: Unit {
    type Output = Div<T, U>;

    /// The sum of two quotients of one shape: the magnitudes are
    /// added as they are, and nothing is converted.
    fn add(self, other: Div<T, U>) -> (r: Self::Output)
        ensures
            r.magnitude() == self.magnitude().plus(other.magnitude()),
    {
        proof {
            T::lemma_magnitude_of(self.magnitude().plus(other.magnitude()));
        }
        Div(T::new(self.0.inner() + other.0.inner()), PhantomData)
    }
}

impl<T, U> AddSpecImpl<Div<T, U>> for Div<T, U> where T: Unit {
    open spec fn obeys_add_spec() -> bool {
        true
    }

    open spec fn add_req(self, other: Div<T, U>) -> bool {
        true
    }

    open spec fn add_spec(self, other: Div<T, U>) -> Self::Output {
        Div(T::of(self.magnitude().plus(other.magnitude())), PhantomData)
    }
}

impl<T, U> core::ops::Mul<Scalar> for Mul<T, U> where T: Unit {
    type Output = Mul<T, U>;

    /// Scales the magnitude; the shape stays.
    fn mul(self, other: Scalar) -> (r: Self::Output)
        ensures
            r.magnitude() == self.magnitude().times(other),
    {
        proof {
            T::lemma_magnitude_of(self.magnitude().times(other));
        }
        Mul(T::new(self.0.inner() * other), PhantomData)
    }
}

impl<T, U> MulSpecImpl<Scalar> for Mul<T, U> where T: Unit {
    open spec fn obeys_mul_spec() -> bool {
        true
    }

    open spec fn mul_req(self, other: Scalar) -> bool {
        true
    }

    open spec fn mul_spec(self, other: Scalar) -> Self::Output {
        Mul(T::of(self.magnitude().times(other)), PhantomData)
    }
}

impl<T, U> core::ops::Mul<Mul<T, U>> for Scalar where T: Unit {
    type Output = Mul<T, U>;

    /// Scales the magnitude; the shape stays.
    fn mul(self, other: Mul<T, U>) -> (r: Self::Output)
        ensures
            r.magnitude() == other.magnitude().times(self),
    {
        proof {
            T::lemma_magnitude_of(other.magnitude().times(self));
        }
        Mul(T::new(other.0.inner() * self), PhantomData)
    }
}

impl<T, U> MulSpecImpl<Mul<T, U>> for Scalar where T: Unit {
    open spec fn obeys_mul_spec() -> bool {
        true
    }

    open spec fn mul_req(self, other: Mul<T, U>) -> bool {
        true
    }

    open spec fn mul_spec(self, other: Mul<T, U>) -> Self::Output {
        Mul(T::of(other.magnitude().times(self)), PhantomData)
    }
}

impl<T, U> core::ops::Mul<i64> for Mul<T, U> where T: Unit {
    type Output = Mul<T, U>;

    /// Scales the magnitude by an integer; the shape stays.
    fn mul(self, other: i64) -> (r: Self::Output)
        ensures
            r.magnitude() == self.magnitude().times(Scalar::of_int(other as int)),
    {
        proof {
            T::lemma_magnitude_of(self.magnitude().times(Scalar::of_int(other as int)));
        }
        Mul(T::new(self.0.inner() * Scalar::from_int(other)), PhantomData)
    }
}

impl<T, U> MulSpecImpl<i64> for Mul<T, U> where T: Unit {
    open spec fn obeys_mul_spec() -> bool {
        true
    }

    open spec fn mul_req(self, other: i64) -> bool {
        true
    }

    open spec fn mul_spec(self, other: i64) -> Self::Output {
        Mul(T::of(self.magnitude().times(Scalar::of_int(other as int))), PhantomData)
    }
}

impl<T, U> core::ops::Mul<Mul<T, U>> for i64 where T: Unit {
    type Output = Mul<T, U>;

    /// Scales the magnitude by an integer; the shape stays.
    fn mul(self, other: Mul<T, U>) -> (r: Self::Output)
        ensures
            r.magnitude() == other.magnitude().times(Scalar::of_int(self as int)),
    {
        proof {
            T::lemma_magnitude_of(other.magnitude().times(Scalar::of_int(self as int)));
        }
        Mul(T::new(other.0.inner() * Scalar::from_int(self)), PhantomData)
    }
}

impl<T, U> MulSpecImpl<Mul<T, U>> for i64 where T: Unit {
    open spec fn obeys_mul_spec() -> bool {
        true
    }

    open spec fn mul_req(self, other: Mul<T, U>) -> bool {
        true
    }

    open spec fn mul_spec(self, other: Mul<T, U>) -> Self::Output {
        Mul(T::of(other.magnitude().times(Scalar::of_int(self as int))), PhantomData)
    }
}

impl<T, U> core::ops::MulAssign<Scalar> for Mul<T, U> where T: Unit {
    /// Scales the magnitude in place.
    fn mul_assign(&mut self, other: Scalar)
        ensures
            final(self).magnitude() == old(self).magnitude().times(other),
            *final(self) == Self::of(old(self).magnitude().times(other)),
    {
        proof {
            T::lemma_magnitude_of(old(self).magnitude().times(other));
        }
        self.0 = T::new(self.0.inner() * other);
    }
}

impl<T, U> core::ops::MulAssign<i64> for Mul<T, U> where T: Unit {
    /// Scales the magnitude in place by an integer.
    fn mul_assign(&mut self, other: i64)
        ensures
            final(self).magnitude() == old(self).magnitude().times(Scalar::of_int(other as int)),
            *final(self) == Self::of(old(self).magnitude().times(Scalar::of_int(other as int))),
    {
        proof {
            T::lemma_magnitude_of(old(self).magnitude().times(Scalar::of_int(other as int)));
        }
        self.0 = T::new(self.0.inner() * Scalar::from_int(other));
    }
}

impl<T, U> core::ops::Div<Scalar> for Mul<T, U> where T: Unit {
    type Output = Mul<T, U>;

    /// Divides the magnitude; the shape stays.
    fn div(self, other: Scalar) -> (r: Self::Output)
        ensures
            r.magnitude() == self.magnitude().over(other),
    {
        proof {
            T::lemma_magnitude_of(self.magnitude().over(other));
        }
        Mul(T::new(self.0.inner() / other), PhantomData)
    }
}

impl<T, U> DivSpecImpl<Scalar> for Mul<T, U> where T: Unit {
    open spec fn obeys_div_spec() -> bool {
        true
    }

    open spec fn div_req(self, other: Scalar) -> bool {
        true
    }

    open spec fn div_spec(self, other: Scalar) -> Self::Output {
        Mul(T::of(self.magnitude().over(other)), PhantomData)
    }
}

impl<T, U> core::ops::Div<i64> for Mul<T, U> where T: Unit {
    type Output = Mul<T, U>;

    /// Divides the magnitude by an integer; the shape stays.
    fn div(self, other: i64) -> (r: Self::Output)
        ensures
            r.magnitude() == self.magnitude().over(Scalar::of_int(other as int)),
    {
        proof {
            T::lemma_magnitude_of(self.magnitude().over(Scalar::of_int(other as int)));
        }
        Mul(T::new(self.0.inner() / Scalar::from_int(other)), PhantomData)
    }
}

impl<T, U> DivSpecImpl<i64> for Mul<T, U> where T: Unit {
    open spec fn obeys_div_spec() -> bool {
        true
    }

    open spec fn div_req(self, other: i64) -> bool {
        true
    }

    open spec fn div_spec(self, other: i64) -> Self::Output {
        Mul(T::of(self.magnitude().over(Scalar::of_int(other as int))), PhantomData)
    }
}

impl<T, U> core::ops::DivAssign<Scalar> for Mul<T, U> where T: Unit {
    /// Divides the magnitude in place.
    fn div_assign(&mut self, other: Scalar)
        ensures
            final(self).magnitude() == old(self).magnitude().over(other),
            *final(self) == Self::of(old(self).magnitude().over(other)),
    {
        proof {
            T::lemma_magnitude_of(old(self).magnitude().over(other));
        }
        self.0 = T::new(self.0.inner() / other);
    }
}

impl<T, U> core::ops::DivAssign<i64> for Mul<T, U> where T: Unit {
    /// Divides the magnitude in place by an integer.
    fn div_assign(&mut self, other: i64)
        ensures
            final(self).magnitude() == old(self).magnitude().over(Scalar::of_int(other as int)),
            *final(self) == Self::of(old(self).magnitude().over(Scalar::of_int(other as int))),
    {
        proof {
            T::lemma_magnitude_of(old(self).magnitude().over(Scalar::of_int(other as int)));
        }
        self.0 = T::new(self.0.inner() / Scalar::from_int(other));
    }
}

impl<T, U> core::ops::Mul<Scalar> for Div<T, U> where T: Unit {
    type Output = Div<T, U>;

    /// Scales the magnitude; the shape stays.
    fn mul(self, other: Scalar) -> (r: Self::Output)
        ensures
            r.magnitude() == self.magnitude().times(other),
    {
        proof {
            T::lemma_magnitude_of(self.magnitude().times(other));
        }
        Div(T::new(self.0.inner() * other), PhantomData)
    }
}

impl<T, U> MulSpecImpl<Scalar> for Div<T, U> where T: Unit {
    open spec fn obeys_mul_spec() -> bool {
        true
    }

    open spec fn mul_req(self, other: Scalar) -> bool {
        true
    }

    open spec fn mul_spec(self, other: Scalar) -> Self::Output {
        Div(T::of(self.magnitude().times(other)), PhantomData)
    }
}

impl<T, U> core::ops::Mul<Div<T, U>> for Scalar where T: Unit {
    type Output = Div<T, U>;

    /// Scales the magnitude; the shape stays.
    fn mul(self, other: Div<T, U>) -> (r: Self::Output)
        ensures
            r.magnitude() == other.magnitude().times(self),
    {
        proof {
            T::lemma_magnitude_of(other.magnitude().times(self));
        }
        Div(T::new(other.0.inner() * self), PhantomData)
    }
}

impl<T, U> MulSpecImpl<Div<T, U>> for Scalar where T: Unit {
    open spec fn obeys_mul_spec() -> bool {
        true
    }

    open spec fn mul_req(self, other: Div<T, U>) -> bool {
        true
    }

    open spec fn mul_spec(self, other: Div<T, U>) -> Self::Output {
        Div(T::of(other.magnitude().times(self)), PhantomData)
    }
}

impl<T, U> core::ops::Mul<i64> for Div<T, U> where T: Unit {
    type Output = Div<T, U>;

    /// Scales the magnitude by an integer; the shape stays.
    fn mul(self, other: i64) -> (r: Self::Output)
        ensures
            r.magnitude() == self.magnitude().times(Scalar::of_int(other as int)),
    {
        proof {
            T::lemma_magnitude_of(self.magnitude().times(Scalar::of_int(other as int)));
        }
        Div(T::new(self.0.inner() * Scalar::from_int(other)), PhantomData)
    }
}

impl<T, U> MulSpecImpl<i64> for Div<T, U> where T: Unit {
    open spec fn obeys_mul_spec() -> bool {
        true
    }

    open spec fn mul_req(self, other: i64) -> bool {
        true
    }

    open spec fn mul_spec(self, other: i64) -> Self::Output {
        Div(T::of(self.magnitude().times(Scalar::of_int(other as int))), PhantomData)
    }
}

impl<T, U> core::ops::Mul<Div<T, U>> for i64 where T: Unit {
    type Output = Div<T, U>;

    /// Scales the magnitude by an integer; the shape stays.
    fn mul(self, other: Div<T, U>) -> (r: Self::Output)
        ensures
            r.magnitude() == other.magnitude().times(Scalar::of_int(self as int)),
    {
        proof {
            T::lemma_magnitude_of(other.magnitude().times(Scalar::of_int(self as int)));
        }
        Div(T::new(other.0.inner() * Scalar::from_int(self)), PhantomData)
    }
}

impl<T, U> MulSpecImpl<Div<T, U>> for i64 where T: Unit {
    open spec fn obeys_mul_spec() -> bool {
        true
    }

    open spec fn mul_req(self, other: Div<T, U>) -> bool {
        true
    }

    open spec fn mul_spec(self, other: Div<T, U>) -> Self::Output {
        Div(T::of(other.magnitude().times(Scalar::of_int(self as int))), PhantomData)
    }
}

impl<T, U> core::ops::MulAssign<Scalar> for Div<T, U> where T: Unit {
    /// Scales the magnitude in place.
    fn mul_assign(&mut self, other: Scalar)
        ensures
            final(self).magnitude() == old(self).magnitude().times(other),
            *final(self) == Self::of(old(self).magnitude().times(other)),
    {
        proof {
            T::lemma_magnitude_of(old(self).magnitude().times(other));
        }
        self.0 = T::new(self.0.inner() * other);
    }
}

impl<T, U> core::ops::MulAssign<i64> for Div<T, U> where T: Unit {
    /// Scales the magnitude in place by an integer.
    fn mul_assign(&mut self, other: i64)
        ensures
            final(self).magnitude() == old(self).magnitude().times(Scalar::of_int(other as int)),
            *final(self) == Self::of(old(self).magnitude().times(Scalar::of_int(other as int))),
    {
        proof {
            T::lemma_magnitude_of(old(self).magnitude().times(Scalar::of_int(other as int)));
        }
        self.0 = T::new(self.0.inner() * Scalar::from_int(other));
    }
}

impl<T, U> core::ops::Div<Scalar> for Div<T, U> where T: Unit {
    type Output = Div<T, U>;

    /// Divides the magnitude; the shape stays.
    fn div(self, other: Scalar) -> (r: Self::Output)
        ensures
            r.magnitude() == self.magnitude().over(other),
    {
        proof {
            T::lemma_magnitude_of(self.magnitude().over(other));
        }
        Div(T::new(self.0.inner() / other), PhantomData)
    }
}

impl<T, U> DivSpecImpl<Scalar> for Div<T, U> where T: Unit {
    open spec fn obeys_div_spec() -> bool {
        true
    }

    open spec fn div_req(self, other: Scalar) -> bool {
        true
    }

    open spec fn div_spec(self, other: Scalar) -> Self::Output {
        Div(T::of(self.magnitude().over(other)), PhantomData)
    }
}

impl<T, U> core::ops::Div<i64> for Div<T, U> where T: Unit {
    type Output = Div<T, U>;

    /// Divides the magnitude by an integer; the shape stays.
    fn div(self, other: i64) -> (r: Self::Output)
        ensures
            r.magnitude() == self.magnitude().over(Scalar::of_int(other as int)),
    {
        proof {
            T::lemma_magnitude_of(self.magnitude().over(Scalar::of_int(other as int)));
        }
        Div(T::new(self.0.inner() / Scalar::from_int(other)), PhantomData)
    }
}

impl<T, U> DivSpecImpl<i64> for Div<T, U> where T: Unit {
    open spec fn obeys_div_spec() -> bool {
        true
    }

    open spec fn div_req(self, other: i64) -> bool {
        true
    }

    open spec fn div_spec(self, other: i64) -> Self::Output {
        Div(T::of(self.magnitude().over(Scalar::of_int(other as int))), PhantomData)
    }
}

impl<T, U> core::ops::DivAssign<Scalar> for Div<T, U> where T: Unit {
    /// Divides the magnitude in place.
    fn div_assign(&mut self, other: Scalar)
        ensures
            final(self).magnitude() == old(self).magnitude().over(other),
            *final(self) == Self::of(old(self).magnitude().over(other)),
    {
        proof {
            T::lemma_magnitude_of(old(self).magnitude().over(other));
        }
        self.0 = T::new(self.0.inner() / other);
    }
}

impl<T, U> core::ops::DivAssign<i64> for Div<T, U> where T: Unit {
    /// Divides the magnitude in place by an integer.
    fn div_assign(&mut self, other: i64)
        ensures
            final(self).magnitude() == old(self).magnitude().over(Scalar::of_int(other as int)),
            *final(self) == Self::of(old(self).magnitude().over(Scalar::of_int(other as int))),
    {
        proof {
            T::lemma_magnitude_of(old(self).magnitude().over(Scalar::of_int(other as int)));
        }
        self.0 = T::new(self.0.inner() / Scalar::from_int(other));
    }
}

} // verus!
