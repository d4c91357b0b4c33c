//! Exact magnitudes.
//!
//! A [`Scalar`] is a rational number held in lowest terms in two machine
//! integers, or one of three values that are no number: the two infinities
//! and *undefined*. Arithmetic on numbers gives the exact mathematical result
//! where a scalar can hold it, and undefined where none can, when a numerator
//! or denominator would leave the machine range. A number that is not zero,
//! divided by zero, is the infinity of its sign; zero by zero is undefined.
//! The infinities are carried on as the extended real line has them: an
//! infinity plus a number is that infinity, a number by an infinity is zero,
//! and what has no value there (an infinity less itself, zero times an
//! infinity) is undefined. Undefined propagates. Only the square root of a
//! number that has no exact root is rounded, down, to a fixed grid.

use vstd::prelude::*;
use vstd::std_specs::cmp::{PartialEqSpecImpl, PartialOrdSpecImpl};
use vstd::std_specs::ops::{AddSpecImpl, DivSpecImpl, MulSpecImpl, SubSpecImpl};
use core::cmp::Ordering;
use crate::gcd::{
    coprime, gcd, gcd_u128, isqrt, lemma_coprime_roots, lemma_coprime_squares, lemma_gcd_divides,
    lemma_gcd_positive, lemma_lowest_terms_minimal, lemma_lowest_terms_unique,
    lemma_reduced_is_coprime, lemma_square_root_exact,
};
use crate::gcd::{isqrt_wide, lemma_isqrt_exists};
use vstd::arithmetic::div_mod::lemma_fundamental_div_mod;
use vstd::arithmetic::power2::{
    lemma2_to64, lemma2_to64_rest, lemma_pow2_pos, lemma_pow2_strictly_increases,
    lemma_pow2_unfold, pow2,
};
use crate::gcd::lemma_combination_is_coprime;

verus! {

/// An exact rational magnitude, an infinity, or undefined.
#[derive(Clone, Copy, Debug)]
pub struct Scalar {
    num: i64,
    den: i64,
}

/// The absolute value of an integer.
pub open spec fn magnitude_of(n: int) -> nat {
    if n < 0 {
        (-n) as nat
    } else {
        n as nat
    }
}

/// The integer of magnitude `m` that is negative where `negative` is set.
pub open spec fn signed(negative: bool, m: nat) -> int {
    if negative {
        -(m as int)
    } else {
        m as int
    }
}

/// The real number `n / d`.
pub open spec fn ratio(n: int, d: int) -> real {
    n as real / d as real
}

/// `n` can be the numerator and `d` the denominator of a [`Scalar`].
pub open spec fn in_range(n: int, d: int) -> bool {
    i64::MIN <= n <= i64::MAX && 0 < d <= i64::MAX
}

/// The real number `x` is a fraction of two machine integers, so that a
/// [`Scalar`] can hold it.
pub open spec fn representable(x: real) -> bool {
    exists|n: int, d: int| in_range(n, d) && x == #[trigger] ratio(n, d)
}

/// `y` is the square root of `x`.
pub open spec fn is_root(y: real, x: real) -> bool {
    y >= 0real && y * y == x
}

/// The grid on which a square root that is no fraction is given: the
/// multiples of `1 / ROOT_STEPS`.
pub const ROOT_STEPS: u64 = 0x8000_0000;

/// `k / ROOT_STEPS` is the square root of `x` rounded down to the grid: its
/// square is at most `x`, and the square of the next grid point is more.
pub open spec fn is_grid_root(k: int, x: real) -> bool {
    k >= 0 && ratio(k, ROOT_STEPS as int) * ratio(k, ROOT_STEPS as int) <= x < ratio(
        k + 1,
        ROOT_STEPS as int,
    ) * ratio(k + 1, ROOT_STEPS as int)
}

/// The square root of `x`, which is not negative, rounded down to the grid.
pub open spec fn grid_root(x: real) -> real {
    ratio(choose|k: int| is_grid_root(k, x), ROOT_STEPS as int)
}

/// A number has one square root rounded down to the grid.
pub proof fn lemma_grid_root_unique(k1: int, k2: int, x: real)
    requires
        is_grid_root(k1, x),
        is_grid_root(k2, x),
    ensures
        k1 == k2,
{
    let s = ROOT_STEPS as real;
    if k1 < k2 {
        let p = (k1 + 1) as real;
        let q = k2 as real;
        assert((p / s) * (p / s) <= (q / s) * (q / s)) by (nonlinear_arith)
            requires
                0real <= p <= q,
                s > 0real,
        ;
    }
    if k2 < k1 {
        let p = (k2 + 1) as real;
        let q = k1 as real;
        assert((p / s) * (p / s) <= (q / s) * (q / s)) by (nonlinear_arith)
            requires
                0real <= p <= q,
                s > 0real,
        ;
    }
}

/// The integer square root `k` of the whole part of `n * ROOT_STEPS^2 / d`
/// is the square root of `n / d` rounded down to the grid.
pub proof fn lemma_grid_root_of(n: int, d: int, k: int)
    requires
        n >= 0,
        d > 0,
        k >= 0,
        k * k * d <= n * (ROOT_STEPS * ROOT_STEPS) < (k + 1) * (k + 1) * d,
    ensures
        is_grid_root(k, ratio(n, d)),
{
    let s = ROOT_STEPS as int;
    lemma_ratio_mul(k, s, k, s);
    lemma_ratio_mul(k + 1, s, k + 1, s);
    lemma_ratio_lt(n, d, k * k, s * s);
    lemma_ratio_lt(n, d, (k + 1) * (k + 1), s * s);
    assert(n * (s * s) == n * (ROOT_STEPS * ROOT_STEPS));
    assert(k * k * d == (k * k) * d && (k + 1) * (k + 1) * d == ((k + 1) * (k + 1)) * d)
        by (nonlinear_arith);
}

/// Two fractions with positive denominators are equal exactly when their
/// cross products are equal.
pub proof fn lemma_ratio_eq(n1: int, d1: int, n2: int, d2: int)
    requires
        d1 > 0,
        d2 > 0,
    ensures
        ratio(n1, d1) == ratio(n2, d2) <==> n1 * d2 == n2 * d1,
{
    let a = n1 as real;
    let b = d1 as real;
    let c = n2 as real;
    let d = d2 as real;
    assert((a / b == c / d) <==> (a * d == c * b)) by (nonlinear_arith)
        requires
            b > 0real,
            d > 0real,
    ;
    assert((n1 * d2) as real == a * d) by (nonlinear_arith)
        requires
            a == n1 as real,
            d == d2 as real,
    ;
    assert((n2 * d1) as real == c * b) by (nonlinear_arith)
        requires
            c == n2 as real,
            b == d1 as real,
    ;
}

/// Two fractions with positive denominators stand in the order of their
/// cross products.
pub proof fn lemma_ratio_lt(n1: int, d1: int, n2: int, d2: int)
    requires
        d1 > 0,
        d2 > 0,
    ensures
        ratio(n1, d1) < ratio(n2, d2) <==> n1 * d2 < n2 * d1,
{
    let a = n1 as real;
    let b = d1 as real;
    let c = n2 as real;
    let d = d2 as real;
    assert((a / b < c / d) <==> (a * d < c * b)) by (nonlinear_arith)
        requires
            b > 0real,
            d > 0real,
    ;
    assert((n1 * d2) as real == a * d) by (nonlinear_arith)
        requires
            a == n1 as real,
            d == d2 as real,
    ;
    assert((n2 * d1) as real == c * b) by (nonlinear_arith)
        requires
            c == n2 as real,
            b == d1 as real,
    ;
}

/// A fraction over 1 is its numerator.
pub proof fn lemma_ratio_int(n: int)
    ensures
        ratio(n, 1) == n as real,
{
    let a = n as real;
    assert(a / 1real == a) by (nonlinear_arith);
}

/// Changing the sign of both terms of a fraction leaves its value.
pub proof fn lemma_ratio_signs(n: int, d: int)
    requires
        d != 0,
    ensures
        ratio(-n, -d) == ratio(n, d),
{
    let a = n as real;
    let b = d as real;
    assert((-a) / (-b) == a / b) by (nonlinear_arith)
        requires
            b != 0real,
    ;
}

/// The product of two fractions is the fraction of the products.
pub proof fn lemma_ratio_mul(n1: int, d1: int, n2: int, d2: int)
    requires
        d1 > 0,
        d2 > 0,
    ensures
        ratio(n1 * n2, d1 * d2) == ratio(n1, d1) * ratio(n2, d2),
{
    let a = n1 as real;
    let b = d1 as real;
    let c = n2 as real;
    let d = d2 as real;
    assert((a * c) / (b * d) == (a / b) * (c / d)) by (nonlinear_arith)
        requires
            b > 0real,
            d > 0real,
    ;
    assert((n1 * n2) as real == a * c) by (nonlinear_arith)
        requires
            a == n1 as real,
            c == n2 as real,
    ;
    assert((d1 * d2) as real == b * d) by (nonlinear_arith)
        requires
            b == d1 as real,
            d == d2 as real,
    ;
}

/// The sum of two fractions, over their common denominator.
pub proof fn lemma_ratio_add(n1: int, d1: int, n2: int, d2: int)
    requires
        d1 > 0,
        d2 > 0,
    ensures
        ratio(n1 * d2 + n2 * d1, d1 * d2) == ratio(n1, d1) + ratio(n2, d2),
{
    let a = n1 as real;
    let b = d1 as real;
    let c = n2 as real;
    let d = d2 as real;
    assert((a * d + c * b) / (b * d) == (a / b) + (c / d)) by (nonlinear_arith)
        requires
            b > 0real,
            d > 0real,
    ;
    assert((n1 * d2 + n2 * d1) as real == a * d + c * b) by (nonlinear_arith)
        requires
            a == n1 as real,
            b == d1 as real,
            c == n2 as real,
            d == d2 as real,
    ;
    assert((d1 * d2) as real == b * d) by (nonlinear_arith)
        requires
            b == d1 as real,
            d == d2 as real,
    ;
}

/// The difference of two fractions, over their common denominator.
pub proof fn lemma_ratio_sub(n1: int, d1: int, n2: int, d2: int)
    requires
        d1 > 0,
        d2 > 0,
    ensures
        ratio(n1 * d2 - n2 * d1, d1 * d2) == ratio(n1, d1) - ratio(n2, d2),
{
    let a = n1 as real;
    let b = d1 as real;
    let c = n2 as real;
    let d = d2 as real;
    assert((a * d - c * b) / (b * d) == (a / b) - (c / d)) by (nonlinear_arith)
        requires
            b > 0real,
            d > 0real,
    ;
    assert((n1 * d2 - n2 * d1) as real == a * d - c * b) by (nonlinear_arith)
        requires
            a == n1 as real,
            b == d1 as real,
            c == n2 as real,
            d == d2 as real,
    ;
    assert((d1 * d2) as real == b * d) by (nonlinear_arith)
        requires
            b == d1 as real,
            d == d2 as real,
    ;
}

/// The quotient of two fractions, the divisor not zero: the first times the
/// second turned over.
pub proof fn lemma_ratio_div(n1: int, d1: int, n2: int, d2: int)
    requires
        d1 > 0,
        d2 > 0,
        n2 != 0,
    ensures
        ratio(n2, d2) != 0real,
        ratio(n1 * d2, d1 * n2) == ratio(n1, d1) / ratio(n2, d2),
{
    let a = n1 as real;
    let b = d1 as real;
    let c = n2 as real;
    let d = d2 as real;
    assert(c / d != 0real) by (nonlinear_arith)
        requires
            c != 0real,
            d > 0real,
    ;
    assert((a * d) / (b * c) == (a / b) / (c / d)) by (nonlinear_arith)
        requires
            b > 0real,
            d > 0real,
            c != 0real,
    ;
    assert((n1 * d2) as real == a * d) by (nonlinear_arith)
        requires
            a == n1 as real,
            d == d2 as real,
    ;
    assert((d1 * n2) as real == b * c) by (nonlinear_arith)
        requires
            b == d1 as real,
            c == n2 as real,
    ;
}

/// A number has at most one square root.
pub proof fn lemma_root_unique(y1: real, y2: real, x: real)
    requires
        is_root(y1, x),
        is_root(y2, x),
    ensures
        y1 == y2,
{
    assert(y1 == y2) by (nonlinear_arith)
        requires
            y1 >= 0real,
            y2 >= 0real,
            y1 * y1 == y2 * y2,
    ;
}

/// The magnitude of a machine integer.
fn magnitude(n: i64) -> (m: u128)
    ensures
        m == magnitude_of(n as int),
        m <= 0x8000_0000_0000_0000,
{
    if n < 0 {
        (-(n as i128)) as u128
    } else {
        n as u128
    }
}

/// What a scalar holds.
pub enum Value {
    /// A number.
    Finite(real),
    /// What a positive number divided by zero gives.
    PlusInfinity,
    /// What a negative number divided by zero gives.
    MinusInfinity,
    /// No value: undefined.
    NotANumber,
}

impl View for Scalar {
    type V = Value;

    /// What the scalar holds.
    closed spec fn view(&self) -> Value {
        if self.den > 0 {
            Value::Finite(ratio(self.num as int, self.den as int))
        } else if self.num > 0 {
            Value::PlusInfinity
        } else if self.num < 0 {
            Value::MinusInfinity
        } else {
            Value::NotANumber
        }
    }
}

impl Scalar {
    /// The scalar is in its one canonical form: lowest terms over a positive
    /// denominator, or the one encoding of an infinity or of undefined.
    #[verifier::type_invariant]
    pub closed spec fn wf(self) -> bool {
        if self.den == 0 {
            -1 <= self.num <= 1
        } else {
            self.den > 0 && coprime(magnitude_of(self.num as int), self.den as nat)
        }
    }

    /// The undefined scalar.
    pub closed spec fn undefined() -> Scalar {
        Scalar { num: 0, den: 0 }
    }

    /// The infinite scalar of the given sign.
    pub closed spec fn infinity(negative: bool) -> Scalar {
        if negative {
            Scalar { num: -1i64, den: 0 }
        } else {
            Scalar { num: 1i64, den: 0 }
        }
    }

    /// The scalar holds an infinity.
    pub open spec fn is_infinite(self) -> bool {
        self@ is PlusInfinity || self@ is MinusInfinity
    }

    /// The scalar is undefined.
    pub open spec fn is_nan(self) -> bool {
        self@ is NotANumber
    }

    /// The scalar holds a negative number or the negative infinity.
    pub open spec fn is_negative(self) -> bool {
        match self@ {
            Value::Finite(x) => x < 0real,
            Value::MinusInfinity => true,
            _ => false,
        }
    }

    /// The scalar holds the number zero.
    pub open spec fn is_zero(self) -> bool {
        self@ == Value::Finite(0real)
    }

    /// The scalar that holds `x`, or undefined where none can.
    pub closed spec fn of_real(x: real) -> Scalar {
        if representable(x) {
            choose|s: Scalar| s.wf() && s@ == Value::Finite(x)
        } else {
            Scalar::undefined()
        }
    }

    /// The scalar of the integer `n`.
    pub open spec fn of_int(n: int) -> Scalar {
        Scalar::of_real(n as real)
    }

    /// The scalar holds a number.
    pub open spec fn is_defined(self) -> bool {
        self@ is Finite
    }

    /// The numerator of the lowest terms; 1 or -1 for the infinity of that
    /// sign, zero where the scalar is undefined.
    pub closed spec fn numerator(self) -> int {
        self.num as int
    }

    /// The denominator of the lowest terms; zero where the scalar holds no
    /// number.
    pub closed spec fn denominator(self) -> int {
        self.den as int
    }

    /// The fraction `n / d`, `d` positive, in lowest terms, or undefined where
    /// its lowest terms leave the machine range.
    closed spec fn lowest(n: int, d: int) -> Scalar {
        let g = gcd(magnitude_of(n), d as nat);
        let p = signed(n < 0, magnitude_of(n) / g);
        let q = d / (g as int);
        if in_range(p, q) {
            Scalar { num: p as i64, den: q as i64 }
        } else {
            Scalar::undefined()
        }
    }

    /// Canonical scalars that hold the same number, or are both undefined,
    /// are the same scalar.
    pub proof fn lemma_canonical_unique(a: Scalar, b: Scalar)
        requires
            a.wf(),
            b.wf(),
            a@ == b@,
        ensures
            a == b,
    {
        if a.den > 0 {
            let an = a.num as int;
            let ad = a.den as int;
            let bn = b.num as int;
            let bd = b.den as int;
            lemma_ratio_eq(an, ad, bn, bd);
            let am = magnitude_of(an);
            let bm = magnitude_of(bn);
            assert((an < 0) == (bn < 0) || (an == 0 && bn == 0)) by (nonlinear_arith)
                requires
                    an * bd == bn * ad,
                    ad > 0,
                    bd > 0,
            ;
            assert(am * bd == bm * ad) by (nonlinear_arith)
                requires
                    an * bd == bn * ad,
                    (an < 0) == (bn < 0) || (an == 0 && bn == 0),
                    am == magnitude_of(an),
                    bm == magnitude_of(bn),
            ;
            lemma_lowest_terms_unique(am, ad as nat, bm, bd as nat);
        }
    }

    /// Lowest terms are how a fraction is held: [`Scalar::lowest`] is the
    /// canonical scalar of the fraction's value, and it is undefined only
    /// where no scalar holds that value.
    proof fn lemma_lowest(n: int, d: int)
        requires
            d > 0,
        ensures
            Scalar::lowest(n, d).wf(),
            Scalar::lowest(n, d) == Scalar::of_real(ratio(n, d)),
            representable(ratio(n, d)) ==> Scalar::lowest(n, d)@ == Value::Finite(ratio(n, d)),
            !representable(ratio(n, d)) ==> Scalar::lowest(n, d) == Scalar::undefined(),
    {
        let x = ratio(n, d);
        let m = magnitude_of(n);
        let g = gcd(m, d as nat);
        lemma_gcd_positive(m, d as nat);
        lemma_gcd_divides(m, d as nat);
        lemma_reduced_is_coprime(m, d as nat);
        let pm = m / g;
        let q = d as nat / g;
        let p = signed(n < 0, pm);
        assert(q > 0) by (nonlinear_arith)
            requires
                d == g * q,
                d > 0,
                g > 0,
        ;
        assert(p * d == n * q) by (nonlinear_arith)
            requires
                m == g * pm,
                d == g * q,
                p == signed(n < 0, pm),
                m == magnitude_of(n),
        ;
        lemma_ratio_eq(p, q as int, n, d);
        if in_range(p, q as int) {
            let s = Scalar { num: p as i64, den: q as i64 };
            Scalar::lemma_canonical_unique(s, Scalar::of_real(x));
        } else {
            assert forall|n2: int, d2: int| in_range(n2, d2) implies x != #[trigger] ratio(
                n2,
                d2,
            ) by {
                if x == ratio(n2, d2) {
                    lemma_ratio_eq(n2, d2, n, d);
                    let m2 = magnitude_of(n2);
                    assert((n2 < 0) == (n < 0) || (n2 == 0 && n == 0)) by (nonlinear_arith)
                        requires
                            n2 * d == n * d2,
                            d > 0,
                            d2 > 0,
                    ;
                    assert(m2 * q == pm * d2) by (nonlinear_arith)
                        requires
                            n2 * d == n * d2,
                            (n2 < 0) == (n < 0) || (n2 == 0 && n == 0),
                            m == magnitude_of(n),
                            m2 == magnitude_of(n2),
                            m == g * pm,
                            d == g * q,
                            g > 0,
                    ;
                    let k = lemma_lowest_terms_minimal(pm, q, m2, d2 as nat);
                    assert(pm <= m2 && q <= d2) by (nonlinear_arith)
                        requires
                            m2 == k * pm,
                            d2 == k * q,
                            k > 0,
                    ;
                }
            }
        }
    }

    /// What [`Scalar::of_real`] gives: a canonical scalar that holds `x`
    /// wherever some scalar can, and undefined wherever none can.
    pub proof fn lemma_of_real(x: real)
        ensures
            Scalar::of_real(x).wf(),
            representable(x) ==> Scalar::of_real(x)@ == Value::Finite(x),
            !representable(x) ==> Scalar::of_real(x) == Scalar::undefined(),
    {
        if representable(x) {
            let (n, d) = choose|n: int, d: int| in_range(n, d) && x == #[trigger] ratio(n, d);
            Scalar::lemma_lowest(n, d);
        }
    }

    /// Undefined and the infinities are canonical, and they hold what their
    /// names say.
    pub proof fn lemma_undefined()
        ensures
            Scalar::undefined().wf(),
            Scalar::undefined()@ is NotANumber,
            Scalar::infinity(false).wf(),
            Scalar::infinity(false)@ is PlusInfinity,
            Scalar::infinity(true).wf(),
            Scalar::infinity(true)@ is MinusInfinity,
    {
    }

    /// The sign of a number held is the sign of the numerator.
    proof fn lemma_sign(s: Scalar)
        requires
            s.den > 0,
        ensures
            s.is_negative() <==> s.num < 0,
            s.is_zero() <==> s.num == 0,
            s@->0 > 0real <==> s.num > 0,
    {
        lemma_ratio_int(0);
        lemma_ratio_lt(s.num as int, s.den as int, 0, 1);
        lemma_ratio_lt(0, 1, s.num as int, s.den as int);
        lemma_ratio_eq(s.num as int, s.den as int, 0, 1);
    }

    /// A canonical scalar is what [`Scalar::of_real`] gives for the number
    /// that it holds, and undefined is the only one that holds none.
    pub proof fn lemma_of_real_view(s: Scalar)
        requires
            s.wf(),
        ensures
            s@ is Finite ==> representable(s@->0) && Scalar::of_real(s@->0) == s,
            s@ is NotANumber ==> s == Scalar::undefined(),
            s@ is PlusInfinity ==> s == Scalar::infinity(false),
            s@ is MinusInfinity ==> s == Scalar::infinity(true),
    {
        if s@ is Finite {
            let x = s@->0;
            Scalar::lemma_of_real(x);
            Scalar::lemma_canonical_unique(s, Scalar::of_real(x));
        }
    }

    /// Every machine integer is held exactly.
    pub proof fn lemma_of_int(n: int)
        requires
            i64::MIN <= n <= i64::MAX,
        ensures
            representable(n as real),
            Scalar::of_int(n)@ == Value::Finite(n as real),
    {
        lemma_ratio_int(n);
        Scalar::lemma_of_real(n as real);
    }

    /// Builds the scalar of a fraction given as a sign, a magnitude and a
    /// positive denominator.
    fn reduce(negative: bool, m: u128, d: u128) -> (r: Scalar)
        requires
            d > 0,
        ensures
            r == Scalar::of_real(ratio(signed(negative, m as nat), d as int)),
    {
        let g: u128 = gcd_u128(m, d);
        proof {
            lemma_gcd_positive(m as nat, d as nat);
            lemma_gcd_divides(m as nat, d as nat);
            lemma_reduced_is_coprime(m as nat, d as nat);
            Scalar::lemma_lowest(signed(negative, m as nat), d as int);
        }
        let p: u128 = m / g;
        let q: u128 = d / g;
        proof {
            assert(q > 0) by (nonlinear_arith)
                requires
                    d == g * q,
                    d > 0,
            ;
        }
        if q > 0x7fff_ffff_ffff_ffff {
            Scalar { num: 0, den: 0 }
        } else if negative {
            if p > 0x8000_0000_0000_0000 {
                Scalar { num: 0, den: 0 }
            } else if p == 0x8000_0000_0000_0000 {
                Scalar { num: i64::MIN, den: q as i64 }
            } else {
                Scalar { num: -(p as i64), den: q as i64 }
            }
        } else {
            if p > 0x7fff_ffff_ffff_ffff {
                Scalar { num: 0, den: 0 }
            } else {
                Scalar { num: p as i64, den: q as i64 }
            }
        }
    }

    /// The undefined scalar.
    pub fn nan() -> (r: Scalar)
        ensures
            r == Scalar::undefined(),
    {
        Scalar { num: 0, den: 0 }
    }

    /// The infinite scalar of the given sign.
    pub fn inf(negative: bool) -> (r: Scalar)
        ensures
            r == Scalar::infinity(negative),
    {
        if negative {
            Scalar { num: -1, den: 0 }
        } else {
            Scalar { num: 1, den: 0 }
        }
    }

    /// The scalar of the fraction `num / den`. Over zero, a numerator that is
    /// not zero gives the infinity of its sign, and zero gives undefined; a
    /// fraction whose lowest terms leave the machine range is undefined.
    pub fn new(num: i64, den: i64) -> (r: Scalar)
        ensures
            den != 0 ==> r == Scalar::of_real(ratio(num as int, den as int)),
            den == 0 && num != 0 ==> r == Scalar::infinity(num < 0),
            den == 0 && num == 0 ==> r == Scalar::undefined(),
    {
        if den == 0 {
            if num > 0 {
                return Scalar { num: 1, den: 0 };
            } else if num < 0 {
                return Scalar { num: -1, den: 0 };
            }
            return Scalar { num: 0, den: 0 };
        }
        let negative = (num < 0) != (den < 0);
        proof {
            if den < 0 {
                lemma_ratio_signs(num as int, den as int);
            }
        }
        Scalar::reduce(negative, magnitude(num), magnitude(den))
    }

    /// The scalar of an integer.
    pub fn from_int(n: i64) -> (r: Scalar)
        ensures
            r == Scalar::of_int(n as int),
            r@ == Value::Finite(n as real),
    {
        proof {
            assert(gcd(magnitude_of(n as int), 1) == 1) by {
                assert(gcd(1, 0) == 1);
            }
            lemma_ratio_int(n as int);
        }
        let r = Scalar { num: n, den: 1 };
        proof {
            Scalar::lemma_of_real_view(r);
        }
        r
    }

    /// Whether the scalar holds a number.
    pub fn defined(&self) -> (r: bool)
        ensures
            r == self.is_defined(),
    {
        self.den > 0
    }

    /// Whether the scalar holds an infinity.
    pub fn infinite(&self) -> (r: bool)
        ensures
            r == self.is_infinite(),
    {
        self.den <= 0 && self.num != 0
    }

    /// The numerator of the lowest terms; 1 or -1 for the infinity of that
    /// sign, zero where the scalar is undefined.
    pub fn numer(&self) -> (r: i64)
        ensures
            r == self.numerator(),
            self.is_defined() ==> self@ == Value::Finite(ratio(r as int, self.denominator())),
            self@ is PlusInfinity ==> r == 1,
            self@ is MinusInfinity ==> r == -1,
            self@ is NotANumber ==> r == 0,
    {
        proof {
            use_type_invariant(self);
        }
        self.num
    }

    /// The denominator of the lowest terms, which is positive and has no
    /// divisor in common with the numerator; zero where the scalar holds no
    /// number.
    pub fn denom(&self) -> (r: i64)
        ensures
            r == self.denominator(),
            self.is_defined() ==> r > 0 && self@ == Value::Finite(
                ratio(self.numerator(), r as int),
            ) && coprime(magnitude_of(self.numerator()), r as nat),
            !self.is_defined() ==> r == 0,
    {
        proof {
            use_type_invariant(self);
        }
        self.den
    }
}

impl Scalar {
    /// The sum. Of two numbers it is the exact sum, or undefined where no
    /// scalar holds it. An infinity plus a number or itself is that infinity;
    /// the two infinities have no sum.
    pub open spec fn plus(self, other: Scalar) -> Scalar {
        match (self@, other@) {
            (Value::Finite(x), Value::Finite(y)) => Scalar::of_real(x + y),
            _ => if self.is_nan() || other.is_nan() {
                Scalar::undefined()
            } else if self.is_infinite() && other.is_infinite() && self@ != other@ {
                Scalar::undefined()
            } else if self.is_infinite() {
                Scalar::infinity(self.is_negative())
            } else {
                Scalar::infinity(other.is_negative())
            },
        }
    }

    /// The difference. Of two numbers it is the exact difference, or
    /// undefined where no scalar holds it. An infinity less a number or the
    /// other infinity is that infinity, a number less an infinity is the
    /// other infinity; an infinity less itself is undefined.
    pub open spec fn minus(self, other: Scalar) -> Scalar {
        match (self@, other@) {
            (Value::Finite(x), Value::Finite(y)) => Scalar::of_real(x - y),
            _ => if self.is_nan() || other.is_nan() {
                Scalar::undefined()
            } else if self.is_infinite() && other.is_infinite() && self@ == other@ {
                Scalar::undefined()
            } else if self.is_infinite() {
                Scalar::infinity(self.is_negative())
            } else {
                Scalar::infinity(!other.is_negative())
            },
        }
    }

    /// The product. Of two numbers it is the exact product, or undefined
    /// where no scalar holds it. An infinity times anything but zero is the
    /// infinity of the product's sign; zero times an infinity is undefined.
    pub open spec fn times(self, other: Scalar) -> Scalar {
        match (self@, other@) {
            (Value::Finite(x), Value::Finite(y)) => Scalar::of_real(x * y),
            _ => if self.is_nan() || other.is_nan() || self.is_zero() || other.is_zero() {
                Scalar::undefined()
            } else {
                Scalar::infinity(self.is_negative() != other.is_negative())
            },
        }
    }

    /// The quotient. Of two numbers, the divisor not zero, it is the exact
    /// quotient, or undefined where no scalar holds it. A number that is not
    /// zero, by zero, is the infinity of its sign, and zero by zero is
    /// undefined. A number by an infinity is zero, an infinity by a number is
    /// the infinity of the quotient's sign, and an infinity by an infinity is
    /// undefined.
    pub open spec fn over(self, other: Scalar) -> Scalar {
        match (self@, other@) {
            (Value::Finite(x), Value::Finite(y)) => if y != 0real {
                Scalar::of_real(x / y)
            } else if x == 0real {
                Scalar::undefined()
            } else {
                Scalar::infinity(x < 0real)
            },
            _ => if self.is_nan() || other.is_nan() || (self.is_infinite()
                && other.is_infinite()) {
                Scalar::undefined()
            } else if other.is_infinite() {
                Scalar::of_real(0real)
            } else {
                Scalar::infinity(self.is_negative() != other.is_negative())
            },
        }
    }

    /// The exact square root of the number `x`, where a scalar can hold it.
    pub open spec fn has_exact_root(x: real) -> bool {
        exists|y: real| is_root(y, x) && representable(y)
    }

    /// The square root. Of a number that is not negative it is the exact
    /// root where a scalar can hold that, and otherwise the root rounded down
    /// to a multiple of `1 / ROOT_STEPS` ([`grid_root`]). The root of the
    /// positive infinity is itself; a negative number and the negative
    /// infinity have none.
    pub open spec fn root(self) -> Scalar {
        match self@ {
            Value::Finite(x) => if x < 0real {
                Scalar::undefined()
            } else if Scalar::has_exact_root(x) {
                Scalar::of_real(choose|y: real| is_root(y, x) && representable(y))
            } else {
                Scalar::of_real(grid_root(x))
            },
            Value::PlusInfinity => Scalar::infinity(false),
            _ => Scalar::undefined(),
        }
    }

    /// Both scalars hold the same number or the same infinity.
    pub open spec fn same(self, other: Scalar) -> bool {
        !self.is_nan() && self@ == other@
    }

    /// The first scalar holds less than the second: the smaller number, or
    /// the negative infinity against anything else but undefined, or
    /// anything else but undefined against the positive infinity.
    pub open spec fn below(self, other: Scalar) -> bool {
        match (self@, other@) {
            (Value::Finite(x), Value::Finite(y)) => x < y,
            (Value::MinusInfinity, Value::Finite(_)) => true,
            (Value::MinusInfinity, Value::PlusInfinity) => true,
            (Value::Finite(_), Value::PlusInfinity) => true,
            _ => false,
        }
    }

    /// The order of what the scalars hold; none where either is undefined.
    pub open spec fn ordering(self, other: Scalar) -> Option<Ordering> {
        if self.is_nan() || other.is_nan() {
            None
        } else if self.below(other) {
            Some(Ordering::Less)
        } else if self.same(other) {
            Some(Ordering::Equal)
        } else {
            Some(Ordering::Greater)
        }
    }

    /// Where the scalar stands among the numbers: below them all, among
    /// them, or above them all.
    fn level(&self) -> (r: i8)
        ensures
            r == match self@ {
                Value::PlusInfinity => 1i8,
                Value::MinusInfinity => -1i8,
                _ => 0i8,
            },
    {
        proof {
            use_type_invariant(self);
        }
        if self.den > 0 {
            0
        } else if self.num > 0 {
            1
        } else if self.num < 0 {
            -1
        } else {
            0
        }
    }

    /// The result of an operation of which an operand holds no number.
    /// `clash` says that two infinities have no result, `negative` the sign
    /// of the infinity that is the result otherwise.
    fn special(self, other: Scalar, clash: bool, negative: bool) -> (r: Scalar)
        requires
            !self.is_defined() || !other.is_defined(),
        ensures
            r == if self.is_nan() || other.is_nan() || clash {
                Scalar::undefined()
            } else {
                Scalar::infinity(negative)
            },
    {
        proof {
            use_type_invariant(self);
            use_type_invariant(other);
        }
        if (self.den <= 0 && self.num == 0) || (other.den <= 0 && other.num == 0) || clash {
            Scalar { num: 0, den: 0 }
        } else if negative {
            Scalar { num: -1, den: 0 }
        } else {
            Scalar { num: 1, den: 0 }
        }
    }

    /// The cross products `a.num * b.den` and `b.num * a.den` of two defined
    /// scalars, which stand in the order of the numbers held.
    fn cross(&self, other: &Scalar) -> (r: (i128, i128))
        requires
            self.is_defined(),
            other.is_defined(),
        ensures
            r.0 < r.1 <==> self.below(*other),
            r.0 == r.1 <==> self.same(*other),
    {
        let a: i128 = self.num as i128;
        let b: i128 = self.den as i128;
        let c: i128 = other.num as i128;
        let d: i128 = other.den as i128;
        proof {
            lemma_ratio_eq(a as int, b as int, c as int, d as int);
            lemma_ratio_lt(a as int, b as int, c as int, d as int);
            assert(-0x8000_0000_0000_0000 * 0x8000_0000_0000_0000 <= a * d
                <= 0x8000_0000_0000_0000 * 0x8000_0000_0000_0000) by (nonlinear_arith)
                requires
                    -0x8000_0000_0000_0000 <= a <= 0x8000_0000_0000_0000,
                    0 < d <= 0x8000_0000_0000_0000,
            ;
            assert(-0x8000_0000_0000_0000 * 0x8000_0000_0000_0000 <= c * b
                <= 0x8000_0000_0000_0000 * 0x8000_0000_0000_0000) by (nonlinear_arith)
                requires
                    -0x8000_0000_0000_0000 <= c <= 0x8000_0000_0000_0000,
                    0 < b <= 0x8000_0000_0000_0000,
            ;
        }
        (a * d, c * b)
    }

    /// The sum or, where `subtract` is set, the difference of two scalars.
    fn combine(self, other: Scalar, subtract: bool) -> (r: Scalar)
        ensures
            r == if subtract {
                self.minus(other)
            } else {
                self.plus(other)
            },
    {
        if self.den <= 0 || other.den <= 0 {
            let here: i8 = self.level();
            let there: i8 = if subtract {
                -other.level()
            } else {
                other.level()
            };
            let clash = here != 0 && there != 0 && here != there;
            let negative = if here != 0 {
                here < 0
            } else {
                there < 0
            };
            return self.special(other, clash, negative);
        }
        let a: i128 = self.num as i128;
        let b: i128 = self.den as i128;
        let c: i128 = other.num as i128;
        let d: i128 = other.den as i128;
        proof {
            assert(-0x8000_0000_0000_0000 * 0x7fff_ffff_ffff_ffff <= a * d
                <= 0x8000_0000_0000_0000 * 0x7fff_ffff_ffff_ffff) by (nonlinear_arith)
                requires
                    -0x8000_0000_0000_0000 <= a <= 0x8000_0000_0000_0000,
                    0 < d <= 0x7fff_ffff_ffff_ffff,
            ;
            assert(-0x8000_0000_0000_0000 * 0x7fff_ffff_ffff_ffff <= c * b
                <= 0x8000_0000_0000_0000 * 0x7fff_ffff_ffff_ffff) by (nonlinear_arith)
                requires
                    -0x8000_0000_0000_0000 <= c <= 0x8000_0000_0000_0000,
                    0 < b <= 0x7fff_ffff_ffff_ffff,
            ;
            assert(0 < b * d <= 0x7fff_ffff_ffff_ffff * 0x7fff_ffff_ffff_ffff)
                by (nonlinear_arith)
                requires
                    0 < b <= 0x7fff_ffff_ffff_ffff,
                    0 < d <= 0x7fff_ffff_ffff_ffff,
            ;
            lemma_ratio_add(a as int, b as int, c as int, d as int);
            lemma_ratio_sub(a as int, b as int, c as int, d as int);
        }
        let n: i128 = if subtract {
            a * d - c * b
        } else {
            a * d + c * b
        };
        let m: u128 = if n < 0 {
            (-n) as u128
        } else {
            n as u128
        };
        Scalar::reduce(n < 0, m, (b * d) as u128)
    }

    /// The product of two scalars.
    fn product(self, other: Scalar) -> (r: Scalar)
        ensures
            r == self.times(other),
    {
        if self.den <= 0 || other.den <= 0 {
            proof {
                use_type_invariant(self);
                use_type_invariant(other);
                if self.den > 0 {
                    Scalar::lemma_sign(self);
                }
                if other.den > 0 {
                    Scalar::lemma_sign(other);
                }
            }
            let zero = (self.den > 0 && self.num == 0) || (other.den > 0 && other.num == 0);
            return self.special(other, zero, (self.num < 0) != (other.num < 0));
        }
        let negative = (self.num < 0) != (other.num < 0);
        let a: u128 = magnitude(self.num);
        let b: u128 = magnitude(other.num);
        let c: u128 = self.den as u128;
        let d: u128 = other.den as u128;
        proof {
            assert(a * b <= 0x8000_0000_0000_0000 * 0x8000_0000_0000_0000) by (nonlinear_arith)
                requires
                    a <= 0x8000_0000_0000_0000,
                    b <= 0x8000_0000_0000_0000,
            ;
            assert(0 < c * d <= 0x8000_0000_0000_0000 * 0x8000_0000_0000_0000)
                by (nonlinear_arith)
                requires
                    0 < c <= 0x8000_0000_0000_0000,
                    0 < d <= 0x8000_0000_0000_0000,
            ;
            assert(signed(negative, (a * b) as nat) == self.num * other.num) by (nonlinear_arith)
                requires
                    a == magnitude_of(self.num as int),
                    b == magnitude_of(other.num as int),
                    negative == ((self.num < 0) != (other.num < 0)),
            ;
            lemma_ratio_mul(self.num as int, self.den as int, other.num as int, other.den as int);
        }
        Scalar::reduce(negative, a * b, c * d)
    }

    /// The quotient of two scalars.
    fn quotient(self, other: Scalar) -> (r: Scalar)
        ensures
            r == self.over(other),
    {
        proof {
            use_type_invariant(self);
            use_type_invariant(other);
            if self.den > 0 {
                Scalar::lemma_sign(self);
            }
            if other.den > 0 {
                Scalar::lemma_sign(other);
            }
        }
        if self.den <= 0 || other.den <= 0 {
            if self.den > 0 && other.num != 0 {
                return Scalar::from_int(0);
            }
            let clash = self.den <= 0 && other.den <= 0;
            return self.special(other, clash, (self.num < 0) != (other.num < 0));
        }
        if other.num == 0 {
            if self.num == 0 {
                return Scalar { num: 0, den: 0 };
            } else if self.num < 0 {
                return Scalar { num: -1, den: 0 };
            } else {
                return Scalar { num: 1, den: 0 };
            }
        }
        let negative = (self.num < 0) != (other.num < 0);
        let a: u128 = magnitude(self.num);
        let b: u128 = magnitude(other.num);
        let c: u128 = self.den as u128;
        let d: u128 = other.den as u128;
        proof {
            assert(a * d <= 0x8000_0000_0000_0000 * 0x8000_0000_0000_0000) by (nonlinear_arith)
                requires
                    a <= 0x8000_0000_0000_0000,
                    d <= 0x8000_0000_0000_0000,
            ;
            assert(0 < c * b <= 0x8000_0000_0000_0000 * 0x8000_0000_0000_0000)
                by (nonlinear_arith)
                requires
                    0 < c <= 0x8000_0000_0000_0000,
                    0 < b <= 0x8000_0000_0000_0000,
            ;
            let n = self.num * other.den;
            let e = self.den * other.num;
            lemma_ratio_div(self.num as int, self.den as int, other.num as int, other.den as int);
            if other.num < 0 {
                assert(e != 0) by (nonlinear_arith)
                    requires
                        e == self.den * other.num,
                        self.den > 0,
                        other.num < 0,
                ;
                lemma_ratio_signs(n, e);
            }
            assert(signed(negative, (a * d) as nat) == if other.num < 0 {
                -n
            } else {
                n
            }) by (nonlinear_arith)
                requires
                    a == magnitude_of(self.num as int),
                    d == other.den,
                    d > 0,
                    n == self.num * other.den,
                    negative == ((self.num < 0) != (other.num < 0)),
            ;
            assert((c * b) as int == if other.num < 0 {
                -e
            } else {
                e
            }) by (nonlinear_arith)
                requires
                    b == magnitude_of(other.num as int),
                    c == self.den,
                    e == self.den * other.num,
            ;
        }
        Scalar::reduce(negative, a * d, c * b)
    }
}

impl core::ops::Add for Scalar {
    type Output = Scalar;

    /// The exact sum, or undefined.
    fn add(self, other: Scalar) -> (r: Scalar)
        ensures
            r == self.plus(other),
    {
        self.combine(other, false)
    }
}

impl AddSpecImpl for Scalar {
    open spec fn obeys_add_spec() -> bool {
        true
    }

    open spec fn add_req(self, other: Scalar) -> bool {
        true
    }

    open spec fn add_spec(self, other: Scalar) -> Scalar {
        self.plus(other)
    }
}

impl core::ops::Sub for Scalar {
    type Output = Scalar;

    /// The exact difference, or undefined.
    fn sub(self, other: Scalar) -> (r: Scalar)
        ensures
            r == self.minus(other),
    {
        self.combine(other, true)
    }
}

impl SubSpecImpl for Scalar {
    open spec fn obeys_sub_spec() -> bool {
        true
    }

    open spec fn sub_req(self, other: Scalar) -> bool {
        true
    }

    open spec fn sub_spec(self, other: Scalar) -> Scalar {
        self.minus(other)
    }
}

impl core::ops::Mul for Scalar {
    type Output = Scalar;

    /// The exact product, or undefined.
    fn mul(self, other: Scalar) -> (r: Scalar)
        ensures
            r == self.times(other),
    {
        self.product(other)
    }
}

impl MulSpecImpl for Scalar {
    open spec fn obeys_mul_spec() -> bool {
        true
    }

    open spec fn mul_req(self, other: Scalar) -> bool {
        true
    }

    open spec fn mul_spec(self, other: Scalar) -> Scalar {
        self.times(other)
    }
}

impl core::ops::Div for Scalar {
    type Output = Scalar;

    /// The exact quotient, or undefined.
    fn div(self, other: Scalar) -> (r: Scalar)
        ensures
            r == self.over(other),
    {
        self.quotient(other)
    }
}

impl DivSpecImpl for Scalar {
    open spec fn obeys_div_spec() -> bool {
        true
    }

    open spec fn div_req(self, other: Scalar) -> bool {
        true
    }

    open spec fn div_spec(self, other: Scalar) -> Scalar {
        self.over(other)
    }
}

impl PartialEq for Scalar {
    /// Whether both scalars hold the same number or the same infinity;
    /// undefined equals nothing.
    fn eq(&self, other: &Scalar) -> (r: bool)
        ensures
            r == self.same(*other),
    {
        proof {
            use_type_invariant(self);
            use_type_invariant(other);
            if self.same(*other) {
                Scalar::lemma_canonical_unique(*self, *other);
            }
        }
        (self.den > 0 || self.num != 0) && self.num == other.num && self.den == other.den
    }
}

impl PartialEqSpecImpl for Scalar {
    open spec fn obeys_eq_spec() -> bool {
        true
    }

    open spec fn eq_spec(&self, other: &Scalar) -> bool {
        self.same(*other)
    }
}

impl PartialOrd for Scalar {
    /// The order of what the scalars hold; none where either is undefined.
    fn partial_cmp(&self, other: &Scalar) -> (r: Option<Ordering>)
        ensures
            r == self.ordering(*other),
    {
        if !self.defined() || !other.defined() {
            if (!self.defined() && !self.infinite()) || (!other.defined() && !other.infinite()) {
                return None;
            }
            let here = self.level();
            let there = other.level();
            return if here < there {
                Some(Ordering::Less)
            } else if here == there {
                Some(Ordering::Equal)
            } else {
                Some(Ordering::Greater)
            };
        }
        let (l, r) = self.cross(other);
        if l < r {
            Some(Ordering::Less)
        } else if l == r {
            Some(Ordering::Equal)
        } else {
            Some(Ordering::Greater)
        }
    }
}

impl PartialOrdSpecImpl for Scalar {
    open spec fn obeys_partial_cmp_spec() -> bool {
        true
    }

    open spec fn partial_cmp_spec(&self, other: &Scalar) -> Option<Ordering> {
        self.ordering(*other)
    }
}

impl Scalar {
    /// A fraction of non-negative terms is the square of the fraction of
    /// their square roots.
    proof fn lemma_root_of_squares(a: int, b: int)
        requires
            a >= 0,
            b > 0,
        ensures
            is_root(ratio(a, b), ratio(a * a, b * b)),
    {
        lemma_ratio_mul(a, b, a, b);
        lemma_ratio_int(0);
        lemma_ratio_lt(a, b, 0, 1);
    }

    /// Only a fraction whose lowest terms are both perfect squares has a
    /// square root that a scalar can hold; the root's lowest terms are then
    /// the square roots of those terms.
    proof fn lemma_root_terms(n: int, d: int, y: real) -> (c: (nat, nat))
        requires
            d > 0,
            coprime(magnitude_of(n), d as nat),
            is_root(y, ratio(n, d)),
            representable(y),
        ensures
            n == c.0 * c.0,
            d == c.1 * c.1,
            c.1 > 0,
    {
        let (n2, d2) = choose|n2: int, d2: int| in_range(n2, d2) && y == #[trigger] ratio(n2, d2);
        Scalar::lemma_lowest(n2, d2);
        let s = Scalar::lowest(n2, d2);
        let p = s.num as int;
        let q = s.den as int;
        lemma_ratio_int(0);
        lemma_ratio_lt(p, q, 0, 1);
        lemma_ratio_mul(p, q, p, q);
        assert(q * q > 0) by (nonlinear_arith)
            requires
                q > 0,
        ;
        lemma_ratio_eq(p * p, q * q, n, d);
        assert(n >= 0) by (nonlinear_arith)
            requires
                (p * p) * d == n * (q * q),
                d > 0,
                q > 0,
        ;
        lemma_coprime_squares(p as nat, q as nat);
        lemma_lowest_terms_unique((p * p) as nat, (q * q) as nat, n as nat, d as nat);
        (p as nat, q as nat)
    }

    /// The square root of a number that has no exact root, rounded down to
    /// the grid.
    fn grid_sqrt(self) -> (r: Scalar)
        requires
            self.den > 0,
            self.num >= 0,
        ensures
            r == Scalar::of_real(grid_root(self@->0)),
    {
        let n: u128 = self.num as u128;
        let d: u128 = self.den as u128;
        let t: u128 = n * 0x4000_0000_0000_0000;
        let q: u128 = t / d;
        let k: u128 = isqrt_wide(q);
        proof {
            let x = ratio(self.num as int, self.den as int);
            lemma_fundamental_div_mod(t as int, d as int);
            assert(k * k * d <= t < (k + 1) * (k + 1) * d) by (nonlinear_arith)
                requires
                    k * k <= q < (k + 1) * (k + 1),
                    t == d * q + t % d,
                    0 <= t % d < d,
                    d > 0,
            ;
            assert(ROOT_STEPS * ROOT_STEPS == 0x4000_0000_0000_0000);
            lemma_grid_root_of(n as int, d as int, k as int);
            let c = choose|c: int| is_grid_root(c, x);
            lemma_grid_root_unique(k as int, c, x);
        }
        Scalar::reduce(false, k, 0x8000_0000)
    }

    /// The square root: exact where it is a fraction that a scalar can
    /// hold, and rounded down to the grid where it is not.
    pub fn sqrt(self) -> (r: Scalar)
        ensures
            r == self.root(),
    {
        proof {
            use_type_invariant(self);
        }
        if self.den <= 0 {
            if self.num > 0 {
                return Scalar { num: 1, den: 0 };
            }
            return Scalar { num: 0, den: 0 };
        }
        let ghost x = ratio(self.num as int, self.den as int);
        proof {
            Scalar::lemma_sign(self);
        }
        if self.num < 0 {
            return Scalar { num: 0, den: 0 };
        }
        let a: u64 = isqrt(self.num as u64);
        let b: u64 = isqrt(self.den as u64);
        proof {
            assert(a < 0x1_0000_0000 && b < 0x1_0000_0000) by (nonlinear_arith)
                requires
                    a * a <= 0xffff_ffff_ffff_ffff,
                    b * b <= 0xffff_ffff_ffff_ffff,
            ;
            assert(a * a <= 0xffff_ffff * 0xffff_ffff && b * b <= 0xffff_ffff * 0xffff_ffff)
                by (nonlinear_arith)
                requires
                    a <= 0xffff_ffff,
                    b <= 0xffff_ffff,
            ;
        }
        if a * a == self.num as u64 && b * b == self.den as u64 {
            proof {
                assert(b > 0) by (nonlinear_arith)
                    requires
                        b * b > 0,
                ;
                lemma_coprime_roots(a as nat, b as nat);
                Scalar::lemma_root_of_squares(a as int, b as int);
                let y = ratio(a as int, b as int);
                assert(is_root(y, x) && representable(y));
                let z = choose|z: real| is_root(z, x) && representable(z);
                lemma_root_unique(y, z, x);
            }
            let r = Scalar { num: a as i64, den: b as i64 };
            proof {
                Scalar::lemma_of_real_view(r);
            }
            r
        } else {
            proof {
                assert forall|y: real| !(is_root(y, x) && representable(y)) by {
                    if is_root(y, x) && representable(y) {
                        let (p, q) = Scalar::lemma_root_terms(
                            self.num as int,
                            self.den as int,
                            y,
                        );
                        lemma_square_root_exact(a as nat, p);
                        lemma_square_root_exact(b as nat, q);
                    }
                }
            }
            self.grid_sqrt()
        }
    }
}

impl Scalar {
    /// What the four operations hold of two numbers: a result that is a
    /// number is the exact result, and it is one exactly where a scalar can
    /// hold the exact result and, for a quotient, the divisor is not zero. A
    /// number by an infinity is zero, and nothing else with an operand that
    /// holds no number is a number. Every result is canonical.
    pub proof fn lemma_arithmetic(a: Scalar, b: Scalar)
        ensures
            a.plus(b).wf() && a.minus(b).wf() && a.times(b).wf() && a.over(b).wf(),
            a.plus(b).is_defined() <==> a.is_defined() && b.is_defined() && representable(
                a@->0 + b@->0,
            ),
            a.minus(b).is_defined() <==> a.is_defined() && b.is_defined() && representable(
                a@->0 - b@->0,
            ),
            a.times(b).is_defined() <==> a.is_defined() && b.is_defined() && representable(
                a@->0 * b@->0,
            ),
            a.over(b).is_defined() <==> a.is_defined() && (b.is_infinite() || (b.is_defined()
                && b@->0 != 0real && representable(a@->0 / b@->0))),
            a.plus(b).is_defined() ==> a.plus(b)@ == Value::Finite(a@->0 + b@->0),
            a.minus(b).is_defined() ==> a.minus(b)@ == Value::Finite(a@->0 - b@->0),
            a.times(b).is_defined() ==> a.times(b)@ == Value::Finite(a@->0 * b@->0),
            a.over(b).is_defined() && b.is_defined() ==> a.over(b)@ == Value::Finite(
                a@->0 / b@->0,
            ),
            a.is_defined() && b.is_infinite() ==> a.over(b)@ == Value::Finite(0real),
    {
        Scalar::lemma_undefined();
        Scalar::lemma_of_int(0);
        Scalar::lemma_of_real(0real);
        if a@ is Finite && b@ is Finite {
            let x = a@->0;
            let y = b@->0;
            Scalar::lemma_of_real(x + y);
            Scalar::lemma_of_real(x - y);
            Scalar::lemma_of_real(x * y);
            Scalar::lemma_of_real(x / y);
        }
    }

    /// What a quotient by zero is: the infinity of the dividend's sign, and
    /// undefined where the dividend is zero or undefined.
    pub proof fn lemma_over_zero(a: Scalar, b: Scalar)
        requires
            b.is_zero(),
        ensures
            a.is_nan() || a.is_zero() ==> a.over(b) == Scalar::undefined(),
            !a.is_nan() && !a.is_zero() ==> a.over(b) == Scalar::infinity(a.is_negative()),
            a.over(b).is_infinite() <==> !a.is_nan() && !a.is_zero(),
    {
        Scalar::lemma_undefined();
    }

    /// The length of a step of the grid.
    pub open spec fn root_step() -> real {
        ratio(1, ROOT_STEPS as int)
    }

    /// What the square root holds. The root of a number that is not negative
    /// is a number that is not negative; it is the exact root where a scalar
    /// can hold that, and otherwise less than a step of the grid below it.
    /// The root is canonical.
    pub proof fn lemma_root(a: Scalar)
        ensures
            a.root().wf(),
            a.is_defined() && a@->0 >= 0real ==> a.root().is_defined() && a.root()@->0 >= 0real
                && a.root()@->0 * a.root()@->0 <= a@->0 < (a.root()@->0 + Scalar::root_step()) * (
            a.root()@->0 + Scalar::root_step()),
            a.is_defined() && Scalar::has_exact_root(a@->0) ==> is_root(a.root()@->0, a@->0),
    {
        Scalar::lemma_undefined();
        if a@ is Finite && Scalar::has_exact_root(a@->0) {
            let y = choose|y: real| is_root(y, a@->0) && representable(y);
            assert(y * y >= 0real) by (nonlinear_arith);
        }
        if a@ is Finite && a@->0 >= 0real {
            let x = a@->0;
            let step = Scalar::root_step();
            lemma_ratio_int(0);
            lemma_ratio_lt(0, 1, 1, ROOT_STEPS as int);
            if Scalar::has_exact_root(x) {
                let y = choose|y: real| is_root(y, x) && representable(y);
                Scalar::lemma_of_real(y);
                assert(x < (y + step) * (y + step)) by (nonlinear_arith)
                    requires
                        y >= 0real,
                        y * y == x,
                        step > 0real,
                ;
            } else {
                Scalar::lemma_sign(a);
                let n = a.num as int;
                let d = a.den as int;
                let t = n * (ROOT_STEPS * ROOT_STEPS);
                let q = t / d;
                assert(t >= 0) by (nonlinear_arith)
                    requires
                        n >= 0,
                        t == n * (ROOT_STEPS * ROOT_STEPS),
                ;
                lemma_fundamental_div_mod(t, d);
                assert(q >= 0) by (nonlinear_arith)
                    requires
                        t == d * q + t % d,
                        0 <= t % d < d,
                        t >= 0,
                ;
                let k = lemma_isqrt_exists(q as nat);
                assert(k * k * d <= t < (k + 1) * (k + 1) * d) by (nonlinear_arith)
                    requires
                        k * k <= q < (k + 1) * (k + 1),
                        t == d * q + t % d,
                        0 <= t % d < d,
                        d > 0,
                ;
                lemma_grid_root_of(n, d, k as int);
                let c = choose|c: int| is_grid_root(c, x);
                lemma_grid_root_unique(k as int, c, x);
                assert(k <= i64::MAX) by (nonlinear_arith)
                    requires
                        k * k * d <= t,
                        d >= 1,
                        t == n * (ROOT_STEPS * ROOT_STEPS),
                        n <= i64::MAX,
                        ROOT_STEPS == 0x8000_0000,
                ;
                let y = ratio(k as int, ROOT_STEPS as int);
                assert(in_range(k as int, ROOT_STEPS as int) && y == ratio(
                    k as int,
                    ROOT_STEPS as int,
                ));
                Scalar::lemma_of_real(y);
                lemma_ratio_lt(k as int, ROOT_STEPS as int, 0, 1);
                let kr = k as real;
                let sr = ROOT_STEPS as real;
                assert((k + 1) as real / sr == kr / sr + 1real / sr) by (nonlinear_arith)
                    requires
                        (k + 1) as real == kr + 1real,
                        sr > 0real,
                ;
            }
        }
    }
}

impl Scalar {
    /// The terms of a canonical scalar: one that holds a number has a
    /// positive denominator that has no divisor in common with the numerator,
    /// and it holds their fraction; an infinity has its sign over zero, and
    /// undefined has both zero.
    pub proof fn lemma_terms(s: Scalar)
        requires
            s.wf(),
        ensures
            s.is_defined() ==> in_range(s.numerator(), s.denominator()) && coprime(
                magnitude_of(s.numerator()),
                s.denominator() as nat,
            ) && s@ == Value::Finite(ratio(s.numerator(), s.denominator())),
            s@ is PlusInfinity ==> s.numerator() == 1 && s.denominator() == 0,
            s@ is MinusInfinity ==> s.numerator() == -1 && s.denominator() == 0,
            s@ is NotANumber ==> s.numerator() == 0 && s.denominator() == 0,
    {
    }

    /// The terms of the scalar of a fraction in lowest terms are the terms of
    /// that fraction.
    pub proof fn lemma_terms_of(n: int, d: int)
        requires
            in_range(n, d),
            coprime(magnitude_of(n), d as nat),
        ensures
            Scalar::of_real(ratio(n, d)).numerator() == n,
            Scalar::of_real(ratio(n, d)).denominator() == d,
    {
        let s = Scalar { num: n as i64, den: d as i64 };
        Scalar::lemma_of_real_view(s);
    }

    /// The terms of the scalar of an integer are the integer and 1.
    pub proof fn lemma_terms_of_int(n: int)
        requires
            i64::MIN <= n <= i64::MAX,
        ensures
            Scalar::of_int(n).numerator() == n,
            Scalar::of_int(n).denominator() == 1,
    {
        assert(gcd(magnitude_of(n), 1) == 1) by {
            assert(gcd(1, 0) == 1);
        }
        lemma_ratio_int(n);
        Scalar::lemma_terms_of(n, 1);
    }
}

/// Two to the power `e`, which may be negative.
pub open spec fn power_of_two(e: int) -> real {
    if e >= 0 {
        pow2(e as nat) as real
    } else {
        1real / (pow2((-e) as nat) as real)
    }
}

/// The sign that a binary64 bit pattern holds: the highest bit.
pub open spec fn sign_of_bits(bits: u64) -> bool {
    (bits >> 63) == 1
}

/// The exponent field of a binary64 bit pattern: the eleven bits below the
/// sign.
pub open spec fn exponent_of_bits(bits: u64) -> int {
    ((bits >> 52) & 0x7ff) as int
}

/// The fraction field of a binary64 bit pattern: the lowest 52 bits.
pub open spec fn fraction_of_bits(bits: u64) -> int {
    (bits & 0xf_ffff_ffff_ffff) as int
}

/// The number that a binary64 bit pattern holds whose exponent field is not
/// all ones: sign times mantissa times a power of two. A pattern with an
/// exponent field of zero has no hidden bit.
pub open spec fn double_value(bits: u64) -> real {
    let mantissa = if exponent_of_bits(bits) == 0 {
        fraction_of_bits(bits)
    } else {
        fraction_of_bits(bits) + 0x10_0000_0000_0000
    };
    let exponent = if exponent_of_bits(bits) == 0 {
        -1074
    } else {
        exponent_of_bits(bits) - 1075
    };
    signed(sign_of_bits(bits), mantissa as nat) as real * power_of_two(exponent)
}

/// Doubling the power of two raises its exponent by one.
pub proof fn lemma_power_of_two_next(e: int)
    ensures
        power_of_two(e + 1) == 2real * power_of_two(e),
{
    if e >= 0 {
        lemma_pow2_unfold((e + 1) as nat);
    } else if e == -1 {
        lemma2_to64();
    } else {
        lemma_pow2_unfold((-e) as nat);
        lemma_pow2_pos((-e - 1) as nat);
        let p = pow2((-e - 1) as nat) as real;
        let q = pow2((-e) as nat) as real;
        assert(1real / p == 2real * (1real / q)) by (nonlinear_arith)
            requires
                q == 2real * p,
                p > 0real,
        ;
    }
}

/// An odd number is coprime to every power of two.
pub proof fn lemma_odd_coprime(m: nat, k: nat) -> (c: (int, int))
    requires
        m % 2 == 1,
    ensures
        m * c.0 + pow2(k) * c.1 == 1,
        coprime(m, pow2(k)),
    decreases k,
{
    let c = if k == 0 {
        lemma2_to64();
        (0int, 1int)
    } else {
        let (u, v) = lemma_odd_coprime(m, (k - 1) as nat);
        lemma_pow2_unfold(k);
        let h = m / 2;
        let p = pow2((k - 1) as nat);
        let u1 = m * u - 2 * h * u + p * v;
        let v1 = -(h * v);
        assert(m * u1 + (2 * p) * v1 == 1) by (nonlinear_arith)
            requires
                m * u + p * v == 1,
                m == 2 * h + 1,
                u1 == m * u - 2 * h * u + p * v,
                v1 == -(h * v),
        ;
        (u1, v1)
    };
    lemma_combination_is_coprime(m, pow2(k), c.0, c.1);
    c
}

/// Computes a power of two.
fn power(k: u64) -> (p: u128)
    requires
        k <= 63,
    ensures
        p == pow2(k as nat),
        0 < p <= 0x8000_0000_0000_0000,
{
    let mut p: u128 = 1;
    let mut i: u64 = 0;
    proof {
        lemma2_to64();
        lemma2_to64_rest();
    }
    while i < k
        invariant
            i <= k <= 63,
            p == pow2(i as nat),
            0 < p <= 0x8000_0000_0000_0000,
            pow2(63) == 0x8000_0000_0000_0000,
        decreases k - i,
    {
        proof {
            lemma_pow2_unfold((i + 1) as nat);
            if i + 1 < 63 {
                lemma_pow2_strictly_increases((i + 1) as nat, 63);
            }
        }
        p = p * 2;
        i = i + 1;
    }
    p
}

impl Scalar {
    /// What a binary64 bit pattern holds, as a scalar: the infinity of its
    /// sign or undefined where the exponent field is all ones, and otherwise
    /// the scalar of its number, which is undefined where no scalar holds
    /// that number.
    pub open spec fn of_bits(bits: u64) -> Scalar {
        if exponent_of_bits(bits) == 0x7ff {
            if fraction_of_bits(bits) == 0 {
                Scalar::infinity(sign_of_bits(bits))
            } else {
                Scalar::undefined()
            }
        } else {
            Scalar::of_real(double_value(bits))
        }
    }

    /// The scalar of a mantissa with a sign, times a power of two.
    fn scaled(negative: bool, mantissa: u64, exponent: i64) -> (r: Scalar)
        requires
            mantissa < 0x20_0000_0000_0000,
            -1074 <= exponent <= 971,
        ensures
            r == Scalar::of_real(
                signed(negative, mantissa as nat) as real * power_of_two(exponent as int),
            ),
    {
        let ghost x = signed(negative, mantissa as nat) as real * power_of_two(exponent as int);
        if mantissa == 0 {
            proof {
                assert(x == 0real) by (nonlinear_arith)
                    requires
                        x == 0real * power_of_two(exponent as int),
                ;
            }
            return Scalar::from_int(0);
        }
        let mut m: u64 = mantissa;
        let mut e: i64 = exponent;
        while e < 0 && m % 2 == 0
            invariant
                0 < m < 0x20_0000_0000_0000,
                -1074 <= e <= 971,
                x == signed(negative, m as nat) as real * power_of_two(e as int),
            decreases -e,
        {
            proof {
                lemma_power_of_two_next(e as int);
                let a = signed(negative, (m / 2) as nat) as real;
                let b = signed(negative, m as nat) as real;
                let p = power_of_two(e as int);
                assert(a * (2real * p) == b * p) by (nonlinear_arith)
                    requires
                        b == 2real * a,
                ;
            }
            m = m / 2;
            e = e + 1;
        }
        let ghost n = signed(negative, m as nat);
        proof {
            lemma2_to64();
            lemma2_to64_rest();
            assert(gcd(1, 0) == 1);
        }
        if e >= 0 {
            if e > 63 {
                proof {
                    let p = pow2(e as nat);
                    lemma_pow2_strictly_increases(63, e as nat);
                    let w = n * p;
                    assert((w as real) == (n as real) * (p as real)) by (nonlinear_arith)
                        requires
                            w == n * p,
                    ;
                    lemma_ratio_int(w);
                    assert(w > i64::MAX || w < i64::MIN) by (nonlinear_arith)
                        requires
                            w == n * p,
                            p > 0x8000_0000_0000_0000,
                            n >= 1 || n <= -1,
                    ;
                    assert(gcd(magnitude_of(w), 1) == 1) by {
                        assert(magnitude_of(w) % 1 == 0);
                        assert(gcd(1, 0) == 1);
                    }
                    assert(magnitude_of(w) / 1 == magnitude_of(w) && 1int / 1 == 1);
                    Scalar::lemma_lowest(w, 1);
                }
                return Scalar { num: 0, den: 0 };
            }
            let p: u128 = power(e as u64);
            proof {
                assert(m * p <= 0x20_0000_0000_0000 * 0x8000_0000_0000_0000) by (nonlinear_arith)
                    requires
                        m < 0x20_0000_0000_0000,
                        p <= 0x8000_0000_0000_0000,
                ;
                let w = signed(negative, (m * p) as nat);
                assert(w == n * p) by (nonlinear_arith)
                    requires
                        w == signed(negative, (m * p) as nat),
                        n == signed(negative, m as nat),
                ;
                assert((w as real) == (n as real) * (p as real)) by (nonlinear_arith)
                    requires
                        w == n * p,
                ;
                lemma_ratio_int(w);
            }
            Scalar::reduce(negative, (m as u128) * p, 1)
        } else {
            let k: u64 = (-e) as u64;
            proof {
                lemma_pow2_pos(k as nat);
                let d = pow2(k as nat) as real;
                let a = n as real;
                assert(a * (1real / d) == a / d) by (nonlinear_arith)
                    requires
                        d > 0real,
                ;
            }
            if k > 62 {
                proof {
                    let d = pow2(k as nat);
                    if k > 63 {
                        lemma_pow2_strictly_increases(63, k as nat);
                    }
                    lemma_odd_coprime(m as nat, k as nat);
                    assert(m as nat / 1 == m && d / 1 == d);
                    Scalar::lemma_lowest(n, d as int);
                }
                return Scalar { num: 0, den: 0 };
            }
            let p: u128 = power(k);
            Scalar::reduce(negative, m as u128, p)
        }
    }

    /// The scalar of what a binary64 bit pattern holds.
    pub fn from_bits(bits: u64) -> (r: Scalar)
        ensures
            r == Scalar::of_bits(bits),
    {
        let negative = (bits >> 63) == 1;
        let field: u64 = (bits >> 52) & 0x7ff;
        let fraction: u64 = bits & 0xf_ffff_ffff_ffff;
        assert(field <= 0x7ff) by (bit_vector)
            requires
                field == (bits >> 52) & 0x7ff,
        ;
        assert(fraction <= 0xf_ffff_ffff_ffff) by (bit_vector)
            requires
                fraction == bits & 0xf_ffff_ffff_ffff,
        ;
        if field == 0x7ff {
            if fraction == 0 {
                return Scalar::inf(negative);
            }
            return Scalar::nan();
        }
        if field == 0 {
            Scalar::scaled(negative, fraction, -1074)
        } else {
            Scalar::scaled(negative, fraction + 0x10_0000_0000_0000, field as i64 - 1075)
        }
    }
}

} // verus!
