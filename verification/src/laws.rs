//! Laws that the conversions and the composite algebra obey.
//!
//! Scalars are exact, so each law is an equality. A law holds wherever the
//! magnitudes that it speaks of are numbers: an operation whose exact result
//! no scalar can hold gives undefined, which is equal to nothing, and a
//! division by zero gives an infinity.

use vstd::prelude::*;
use vstd::std_specs::ops::{DivSpec, MulSpec, SubSpec};
use core::marker::PhantomData;
use crate::composite::{quantity_text, Unit, UnitName};
use crate::dimension::{BaseUnit, ConvertInto};
use crate::length::metric::{Kilometer, Meter};
use crate::scalar::{
    is_root, lemma_root_unique, magnitude_of, ratio, representable, Scalar, Value,
};
use crate::text::{decimal, places, scalar_text, PLACES};
use crate::time::{Hour, Second};

verus! {

/// The quantity `a` taken into the unit `B` and back into its own.
pub open spec fn there_and_back<A: ConvertInto<B>, B: ConvertInto<A>>(a: A) -> A {
    <B as ConvertInto<A>>::converted(<A as ConvertInto<B>>::converted(a))
}

/// The quantity `a` taken into the unit `C` by way of the unit `B`.
pub open spec fn by_way_of<A: ConvertInto<B>, B: ConvertInto<C>, C: BaseUnit>(a: A) -> C {
    <B as ConvertInto<C>>::converted(<A as ConvertInto<B>>::converted(a))
}

/// Round trip: a quantity converted into another unit of its dimension and
/// back is the quantity itself, wherever the round trip is defined.
pub proof fn law_round_trip<A: ConvertInto<B>, B: ConvertInto<A>>(a: A)
    requires
        a.magnitude().wf(),
        there_and_back::<A, B>(a).magnitude().is_defined(),
    ensures
        there_and_back::<A, B>(a) == a,
{
    let b = <A as ConvertInto<B>>::converted(a);
    let back = <B as ConvertInto<A>>::converted(b);
    <A as ConvertInto<B>>::lemma_converted(a);
    <B as ConvertInto<A>>::lemma_converted(b);
    A::lemma_scale_positive();
    B::lemma_scale_positive();
    let x = a.magnitude()@->0;
    let sa = A::scale();
    let sb = B::scale();
    assert((x * (sa / sb)) * (sb / sa) == x) by (nonlinear_arith)
        requires
            sa > 0real,
            sb > 0real,
    ;
    Scalar::lemma_canonical_unique(back.magnitude(), a.magnitude());
    A::lemma_of_magnitude(back);
    A::lemma_of_magnitude(a);
}

/// Transitive consistency: converting by way of a third unit of the
/// dimension gives what converting directly gives, wherever both are
/// defined.
pub proof fn law_transitive<A: ConvertInto<B> + ConvertInto<C>, B: ConvertInto<C>, C: BaseUnit>(
    a: A,
)
    requires
        a.magnitude().wf(),
        by_way_of::<A, B, C>(a).magnitude().is_defined(),
        <A as ConvertInto<C>>::converted(a).magnitude().is_defined(),
    ensures
        by_way_of::<A, B, C>(a) == <A as ConvertInto<C>>::converted(a),
{
    let b = <A as ConvertInto<B>>::converted(a);
    let via = <B as ConvertInto<C>>::converted(b);
    let direct = <A as ConvertInto<C>>::converted(a);
    <A as ConvertInto<B>>::lemma_converted(a);
    <B as ConvertInto<C>>::lemma_converted(b);
    <A as ConvertInto<C>>::lemma_converted(a);
    A::lemma_scale_positive();
    B::lemma_scale_positive();
    C::lemma_scale_positive();
    let x = a.magnitude()@->0;
    let sa = A::scale();
    let sb = B::scale();
    let sc = C::scale();
    assert((x * (sa / sb)) * (sb / sc) == x * (sa / sc)) by (nonlinear_arith)
        requires
            sa > 0real,
            sb > 0real,
            sc > 0real,
    ;
    Scalar::lemma_canonical_unique(via.magnitude(), direct.magnitude());
    C::lemma_of_magnitude(via);
    C::lemma_of_magnitude(direct);
}

/// Whatever the shapes of two composites, and so whichever rule gives their
/// product its type, the product's magnitude is the product of their
/// magnitudes.
pub proof fn law_product_shapes<W: Copy + Unit, X, T: Copy + Unit, U>(w: Scalar, t: Scalar)
    ensures
        crate::composite::Mul::<W, X>::of(w).mul_spec(
            crate::composite::Mul::<T, U>::of(t),
        ).magnitude() == w.times(t),
        crate::composite::Mul::<W, X>::of(w).mul_spec(
            crate::composite::Div::<T, U>::of(t),
        ).magnitude() == w.times(t),
        crate::composite::Div::<W, X>::of(w).mul_spec(
            crate::composite::Mul::<T, U>::of(t),
        ).magnitude() == w.times(t),
        crate::composite::Div::<W, X>::of(w).mul_spec(
            crate::composite::Div::<T, U>::of(t),
        ).magnitude() == w.times(t),
{
    W::lemma_magnitude_of(w);
    T::lemma_magnitude_of(t);
    W::lemma_magnitude_of(w.times(t));
}

/// A product of two products holds the product of the four magnitudes, and
/// it is the scalar that multiplying the four from left to right gives
/// wherever that is defined too.
pub proof fn law_product_of_products(a: Scalar, b: Scalar, c: Scalar, d: Scalar)
    requires
        a.times(b).times(c.times(d)).is_defined(),
    ensures
        a.is_defined() && b.is_defined() && c.is_defined() && d.is_defined(),
        a.times(b).times(c.times(d))@ == Value::Finite(a@->0 * b@->0 * c@->0 * d@->0),
        a.times(b).times(c).times(d).is_defined() ==> a.times(b).times(c).times(d) == a.times(
            b,
        ).times(c.times(d)),
{
    let ab = a.times(b);
    let cd = c.times(d);
    Scalar::lemma_arithmetic(a, b);
    Scalar::lemma_arithmetic(c, d);
    Scalar::lemma_arithmetic(ab, cd);
    Scalar::lemma_arithmetic(ab, c);
    Scalar::lemma_arithmetic(ab.times(c), d);
    let x = a@->0;
    let y = b@->0;
    let z = c@->0;
    let w = d@->0;
    assert((x * y) * (z * w) == x * y * z * w) by (nonlinear_arith);
    if ab.times(c).times(d).is_defined() {
        Scalar::lemma_canonical_unique(ab.times(c).times(d), ab.times(cd));
    }
}

/// Whatever the shapes of two composites, and so whichever rule gives their
/// quotient its type, the quotient's magnitude is the quotient of their
/// magnitudes.
pub proof fn law_quotient_shapes<W: Copy + Unit, X, T: Copy + Unit, U>(w: Scalar, t: Scalar)
    ensures
        crate::composite::Mul::<W, X>::of(w).div_spec(
            crate::composite::Mul::<T, U>::of(t),
        ).magnitude() == w.over(t),
        crate::composite::Mul::<W, X>::of(w).div_spec(
            crate::composite::Div::<T, U>::of(t),
        ).magnitude() == w.over(t),
        crate::composite::Div::<W, X>::of(w).div_spec(
            crate::composite::Mul::<T, U>::of(t),
        ).magnitude() == w.over(t),
        crate::composite::Div::<W, X>::of(w).div_spec(
            crate::composite::Div::<T, U>::of(t),
        ).magnitude() == w.over(t),
{
    W::lemma_magnitude_of(w);
    T::lemma_magnitude_of(t);
    W::lemma_magnitude_of(w.over(t));
}

/// Cancelling a denominator recovers the numerator: a quantity divided by
/// another and then multiplied by it is the quantity itself, wherever both
/// hold numbers and so does the quotient.
pub proof fn law_multiply_recovers<T: Unit, U: Unit>(t: T, u: U)
    requires
        t.magnitude().wf(),
        u.magnitude().is_defined(),
        t.magnitude().over(u.magnitude()).is_defined(),
    ensures
        T::of(t.magnitude().over(u.magnitude()).times(u.magnitude())) == t,
{
    let a = t.magnitude();
    let b = u.magnitude();
    Scalar::lemma_arithmetic(a, b);
    Scalar::lemma_arithmetic(a.over(b), b);
    Scalar::lemma_of_real_view(a);
    let x = a@->0;
    let y = b@->0;
    assert((x / y) * y == x) by (nonlinear_arith)
        requires
            y != 0real,
    ;
    T::lemma_of_magnitude(t);
}

/// Cancelling a factor recovers the other: a quantity multiplied by another
/// and then divided by it is the quantity itself, wherever the product is
/// defined and the other quantity is not zero.
pub proof fn law_divide_recovers<T: Unit, U: Unit>(t: T, u: U)
    requires
        t.magnitude().wf(),
        t.magnitude().times(u.magnitude()).is_defined(),
        u.magnitude()@ != Value::Finite(0real),
    ensures
        T::of(t.magnitude().times(u.magnitude()).over(u.magnitude())) == t,
{
    let a = t.magnitude();
    let b = u.magnitude();
    Scalar::lemma_arithmetic(a, b);
    Scalar::lemma_arithmetic(a.times(b), b);
    Scalar::lemma_of_real_view(a);
    let x = a@->0;
    let y = b@->0;
    assert((x * y) / y == x) by (nonlinear_arith)
        requires
            y != 0real,
    ;
    T::lemma_of_magnitude(t);
}

/// Sums and products do not depend on the order of the operands.
pub proof fn law_commutative(a: Scalar, b: Scalar)
    ensures
        a.plus(b) == b.plus(a),
        a.times(b) == b.times(a),
{
    if a@ is Finite && b@ is Finite {
        let x = a@->0;
        let y = b@->0;
        assert(x * y == y * x) by (nonlinear_arith);
    }
}

/// Scalars of integers compute as integers do: they add, subtract and
/// multiply to the scalar of the integer result, and divide to the scalar of
/// their fraction.
pub proof fn law_integers(a: int, b: int)
    requires
        i64::MIN <= a <= i64::MAX,
        i64::MIN <= b <= i64::MAX,
    ensures
        Scalar::of_int(a).plus(Scalar::of_int(b)) == Scalar::of_int(a + b),
        Scalar::of_int(a).minus(Scalar::of_int(b)) == Scalar::of_int(a - b),
        Scalar::of_int(a).times(Scalar::of_int(b)) == Scalar::of_int(a * b),
        b != 0 ==> Scalar::of_int(a).over(Scalar::of_int(b)) == Scalar::of_real(ratio(a, b)),
{
    Scalar::lemma_of_int(a);
    Scalar::lemma_of_int(b);
    let x = a as real;
    let y = b as real;
    assert((a * b) as real == x * y) by (nonlinear_arith)
        requires
            x == a as real,
            y == b as real,
    ;
}

/// The square root undoes the square: the root of the square of a magnitude
/// that is not negative is that magnitude, wherever the square is defined.
pub proof fn law_root_of_square(a: Scalar)
    requires
        a.wf(),
        a.times(a).is_defined(),
        a@->0 >= 0real,
    ensures
        a.times(a).root() == a,
{
    Scalar::lemma_arithmetic(a, a);
    Scalar::lemma_root(a.times(a));
    Scalar::lemma_of_real_view(a);
    let x = a@->0;
    assert(x * x >= 0real) by (nonlinear_arith);
    assert(is_root(x, x * x) && representable(x));
    let y = choose|y: real| is_root(y, x * x) && representable(y);
    lemma_root_unique(x, y, x * x);
}

/// The text of the scalar of an integer is the integer's decimal text.
pub proof fn law_text_of_integer(n: int)
    requires
        i64::MIN <= n <= i64::MAX,
    ensures
        scalar_text(Scalar::of_int(n)) == decimal(n),
{
    Scalar::lemma_terms_of_int(n);
    let m = magnitude_of(n);
    assert(m % 1 == 0 && m / 1 == m);
    assert(places(0, 1, PLACES as nat) == Some(Seq::<char>::empty()));
    assert(scalar_text(Scalar::of_int(n)) =~= decimal(n));
}

/// The text of a quantity in a composite unit is the text of its magnitude,
/// a space, and the unit's label, whatever the composite's shape.
pub proof fn law_text_of_composites<T: Unit + UnitName, U: UnitName>(m: Scalar)
    ensures
        quantity_text(
            crate::composite::Mul::<T, U>::of(m).magnitude(),
            seq![' '],
            crate::composite::Mul::<T, U>::unit_label(),
        ) == scalar_text(m) + seq![' '] + T::unit_label() + seq!['*'] + U::unit_label(),
        quantity_text(
            crate::composite::Div::<T, U>::of(m).magnitude(),
            seq![' '],
            crate::composite::Div::<T, U>::unit_label(),
        ) == scalar_text(m) + seq![' ', '('] + T::unit_label() + seq![')', '/', '(']
            + U::unit_label() + seq![')'],
{
    T::lemma_magnitude_of(m);
    assert(quantity_text(
        crate::composite::Mul::<T, U>::of(m).magnitude(),
        seq![' '],
        crate::composite::Mul::<T, U>::unit_label(),
    ) =~= scalar_text(m) + seq![' '] + T::unit_label() + seq!['*'] + U::unit_label());
    assert(quantity_text(
        crate::composite::Div::<T, U>::of(m).magnitude(),
        seq![' '],
        crate::composite::Div::<T, U>::unit_label(),
    ) =~= scalar_text(m) + seq![' ', '('] + T::unit_label() + seq![')', '/', '(']
        + U::unit_label() + seq![')']);
}

/// Transitive consistency, seen through a composite: a rate built on a
/// quantity converted by way of a third unit differs by exactly zero from
/// the rate built on the quantity converted directly, wherever both
/// conversions are defined.
pub proof fn law_transitive_difference<
    A: ConvertInto<B> + ConvertInto<C>,
    B: ConvertInto<C>,
    C: BaseUnit,
    U,
>(a: A)
    requires
        a.magnitude().wf(),
        by_way_of::<A, B, C>(a).magnitude().is_defined(),
        <A as ConvertInto<C>>::converted(a).magnitude().is_defined(),
    ensures
        crate::composite::Div::<C, U>(by_way_of::<A, B, C>(a), PhantomData).sub_spec(
            crate::composite::Div::<C, U>(<A as ConvertInto<C>>::converted(a), PhantomData),
        ).magnitude()@ == Value::Finite(0real),
{
    law_transitive::<A, B, C>(a);
    let m = <A as ConvertInto<C>>::converted(a).magnitude();
    Scalar::lemma_of_int(0);
    Scalar::lemma_arithmetic(m, m);
    C::lemma_magnitude_of(m.minus(m));
}

/// The product of two products of base units, here of a length times a time
/// and another length times another time, holds the product of the four
/// magnitudes: it is the product of the two products' magnitudes, and
/// wherever it is defined that is the product of the four numbers.
pub proof fn law_product_of_base_units(a: Meter, b: Second, c: Kilometer, d: Hour)
    ensures
        a.mul_spec(b).mul_spec(c.mul_spec(d)).magnitude() == a.0.times(b.0).times(
            c.0.times(d.0),
        ),
        a.mul_spec(b).mul_spec(c.mul_spec(d)).magnitude().is_defined() ==> a.mul_spec(b).mul_spec(
            c.mul_spec(d),
        ).magnitude()@ == Value::Finite(a.0@->0 * b.0@->0 * c.0@->0 * d.0@->0),
{
    if a.0.times(b.0).times(c.0.times(d.0)).is_defined() {
        law_product_of_products(a.0, b.0, c.0, d.0);
    }
}

/// Division by zero: cancelling a factor whose magnitude is zero leaves the
/// infinity of the product's sign, and nothing where the product is zero or
/// undefined.
pub proof fn law_divide_by_zero<T: Unit, U: Unit>(p: crate::composite::Mul<T, U>, u: U)
    requires
        u.magnitude().is_zero(),
    ensures
        !p.magnitude().is_nan() && !p.magnitude().is_zero() ==> T::of(
            p.magnitude().over(u.magnitude()),
        ).magnitude() == Scalar::infinity(p.magnitude().is_negative()),
        p.magnitude().is_nan() || p.magnitude().is_zero() ==> T::of(
            p.magnitude().over(u.magnitude()),
        ).magnitude() == Scalar::undefined(),
{
    Scalar::lemma_over_zero(p.magnitude(), u.magnitude());
    T::lemma_magnitude_of(p.magnitude().over(u.magnitude()));
}

/// The square root of a squared unit whose magnitude is a number and not
/// negative is a number that is not negative, whose square is at most the
/// magnitude, and which is less than a step of the grid below the true root.
pub proof fn law_root_bound<T: Unit>(m: Scalar)
    requires
        m.is_defined(),
        m@->0 >= 0real,
    ensures
        T::of(m.root()).magnitude().is_defined(),
        T::of(m.root()).magnitude()@->0 >= 0real,
        T::of(m.root()).magnitude()@->0 * T::of(m.root()).magnitude()@->0 <= m@->0,
        m@->0 < (T::of(m.root()).magnitude()@->0 + Scalar::root_step()) * (T::of(
            m.root(),
        ).magnitude()@->0 + Scalar::root_step()),
        Scalar::has_exact_root(m@->0) ==> is_root(T::of(m.root()).magnitude()@->0, m@->0),
{
    Scalar::lemma_root(m);
    T::lemma_magnitude_of(m.root());
}

} // verus!
