//! Greatest common divisors: the arithmetic that keeps fractions in lowest
//! terms.

use vstd::prelude::*;
use vstd::arithmetic::div_mod::{lemma_fundamental_div_mod, lemma_mod_multiples_basic};

verus! {

/// The greatest common divisor of `a` and `b`, with `gcd(0, 0) == 0`.
pub open spec fn gcd(a: nat, b: nat) -> nat
    decreases b,
{
    if b == 0 {
        a
    } else {
        gcd(b, a % b)
    }
}

/// `a` and `b` have no common divisor but 1.
pub open spec fn coprime(a: nat, b: nat) -> bool {
    gcd(a, b) == 1
}

/// The gcd is positive unless both arguments are zero.
pub proof fn lemma_gcd_positive(a: nat, b: nat)
    requires
        a > 0 || b > 0,
    ensures
        gcd(a, b) > 0,
    decreases b,
{
    if b != 0 {
        lemma_gcd_positive(b, a % b);
    }
}

/// A multiple of `g` divided by `g` gives the multiplier back.
pub proof fn lemma_multiple_divides(g: nat, k: nat)
    requires
        g > 0,
    ensures
        (g * k) / g == k,
        (g * k) % g == 0,
{
    lemma_mod_multiples_basic(k as int, g as int);
    lemma_fundamental_div_mod((g * k) as int, g as int);
    assert(g * k == k * g) by (nonlinear_arith);
    assert((g * k) / g == k) by (nonlinear_arith)
        requires
            g > 0,
            g * k == g * ((g * k) / g),
    ;
}

/// The gcd divides both of its arguments.
pub proof fn lemma_gcd_divides(a: nat, b: nat)
    requires
        a > 0 || b > 0,
    ensures
        a == gcd(a, b) * (a / gcd(a, b)),
        b == gcd(a, b) * (b / gcd(a, b)),
    decreases b,
{
    let g = gcd(a, b);
    lemma_gcd_positive(a, b);
    if b == 0 {
        assert(a == a * (a / a)) by (nonlinear_arith)
            requires
                a > 0,
        ;
        assert(0nat / a == 0) by (nonlinear_arith)
            requires
                a > 0,
        ;
    } else {
        let q = a / b;
        let r = a % b;
        lemma_gcd_divides(b, r);
        lemma_fundamental_div_mod(a as int, b as int);
        let kb = b / g;
        let kr = r / g;
        assert(a == g * (kb * q + kr)) by (nonlinear_arith)
            requires
                a == b * q + r,
                b == g * kb,
                r == g * kr,
        ;
        lemma_multiple_divides(g, kb * q + kr);
    }
}

/// Bezout's identity: the gcd is an integer combination of its arguments.
pub proof fn lemma_bezout(a: nat, b: nat) -> (c: (int, int))
    ensures
        a * c.0 + b * c.1 == gcd(a, b),
    decreases b,
{
    if b == 0 {
        (1, 0)
    } else {
        let q = a / b;
        let r = a % b;
        let (x, y) = lemma_bezout(b, r);
        lemma_fundamental_div_mod(a as int, b as int);
        let g = gcd(a, b);
        assert(a * y + b * (x - q * y) == g) by (nonlinear_arith)
            requires
                a == b * q + r,
                b * x + r * y == g,
        ;
        (y, x - q * y)
    }
}

/// Two numbers of which some integer combination is 1 are coprime.
pub proof fn lemma_combination_is_coprime(a: nat, b: nat, x: int, y: int)
    requires
        a * x + b * y == 1,
    ensures
        coprime(a, b),
{
    assert(a > 0 || b > 0) by (nonlinear_arith)
        requires
            a * x + b * y == 1,
    ;
    let h = gcd(a, b);
    lemma_gcd_positive(a, b);
    lemma_gcd_divides(a, b);
    let ka = a / h;
    let kb = b / h;
    assert(h * (ka * x + kb * y) == 1) by (nonlinear_arith)
        requires
            a * x + b * y == 1,
            a == h * ka,
            b == h * kb,
    ;
    assert(h == 1) by (nonlinear_arith)
        requires
            h > 0,
            h * (ka * x + kb * y) == 1,
    ;
}

/// Dividing two numbers by their gcd leaves them coprime.
pub proof fn lemma_reduced_is_coprime(a: nat, b: nat)
    requires
        a > 0 || b > 0,
    ensures
        coprime(a / gcd(a, b), b / gcd(a, b)),
{
    let g = gcd(a, b);
    let p = a / g;
    let q = b / g;
    lemma_gcd_positive(a, b);
    lemma_gcd_divides(a, b);
    let (x, y) = lemma_bezout(a, b);
    assert(p * x + q * y == 1) by (nonlinear_arith)
        requires
            a * x + b * y == g,
            a == g * p,
            b == g * q,
            g > 0,
    ;
    lemma_combination_is_coprime(p, q, x, y);
}

/// The squares of coprime numbers are coprime.
pub proof fn lemma_coprime_squares(a: nat, b: nat)
    requires
        coprime(a, b),
    ensures
        coprime(a * a, b * b),
{
    let (x, y) = lemma_bezout(a, b);
    let u = a * x * x * x + 3 * x * x * b * y;
    let v = 3 * a * x * y * y + b * y * y * y;
    assert((a * a) * u + (b * b) * v == 1) by (nonlinear_arith)
        requires
            a * x + b * y == 1,
            u == a * x * x * x + 3 * x * x * b * y,
            v == 3 * a * x * y * y + b * y * y * y,
    {
        let s = a * x + b * y;
        assert(s * s * s == 1);
    }
    lemma_combination_is_coprime(a * a, b * b, u, v);
}

/// Numbers whose squares are coprime are coprime.
pub proof fn lemma_coprime_roots(a: nat, b: nat)
    requires
        coprime(a * a, b * b),
    ensures
        coprime(a, b),
{
    let (x, y) = lemma_bezout(a * a, b * b);
    assert(a * (a * x) + b * (b * y) == 1) by (nonlinear_arith)
        requires
            (a * a) * x + (b * b) * y == 1,
    ;
    lemma_combination_is_coprime(a, b, a * x, b * y);
}

/// A fraction in lowest terms is the smallest way to write its value: any
/// other numerator and denominator with the same value are a common positive
/// multiple of the reduced ones.
pub proof fn lemma_lowest_terms_minimal(p: nat, q: nat, n: nat, d: nat) -> (k: nat)
    requires
        q > 0,
        d > 0,
        coprime(p, q),
        n * q == p * d,
    ensures
        k > 0,
        n == k * p,
        d == k * q,
{
    let (x, y) = lemma_bezout(p, q);
    let k = n * x + d * y;
    assert(d == k * q) by (nonlinear_arith)
        requires
            p * x + q * y == 1,
            n * q == p * d,
            k == n * x + d * y,
    ;
    assert(k > 0) by (nonlinear_arith)
        requires
            d == k * q,
            d > 0,
            q > 0,
    ;
    assert(n == k * p) by (nonlinear_arith)
        requires
            n * q == p * d,
            d == k * q,
            q > 0,
    ;
    k as nat
}

/// A value has one fraction in lowest terms.
pub proof fn lemma_lowest_terms_unique(n1: nat, d1: nat, n2: nat, d2: nat)
    requires
        d1 > 0,
        d2 > 0,
        coprime(n1, d1),
        coprime(n2, d2),
        n1 * d2 == n2 * d1,
    ensures
        n1 == n2,
        d1 == d2,
{
    let k = lemma_lowest_terms_minimal(n1, d1, n2, d2);
    let j = lemma_lowest_terms_minimal(n2, d2, n1, d1);
    assert(k == 1 && j == 1) by (nonlinear_arith)
        requires
            d2 == k * d1,
            d1 == j * d2,
            k > 0,
            j > 0,
            d1 > 0,
            d2 > 0,
    ;
    assert(n2 == n1 && d2 == d1) by (nonlinear_arith)
        requires
            n2 == k * n1,
            d2 == k * d1,
            k == 1,
    ;
}

/// Computes the greatest common divisor by Euclid's algorithm.
pub fn gcd_u128(a: u128, b: u128) -> (g: u128)
    ensures
        g == gcd(a as nat, b as nat),
{
    let mut x: u128 = a;
    let mut y: u128 = b;
    while y != 0
        invariant
            gcd(x as nat, y as nat) == gcd(a as nat, b as nat),
        decreases y,
    {
        let r: u128 = x % y;
        x = y;
        y = r;
    }
    x
}

/// Computes the integer square root: the largest `r` with `r * r <= n`.
pub fn isqrt(n: u64) -> (r: u64)
    ensures
        r * r <= n < (r + 1) * (r + 1),
{
    let mut lo: u64 = 0;
    let mut hi: u64 = 0x1_0000_0000;
    while hi - lo > 1
        invariant
            lo < hi <= 0x1_0000_0000,
            lo * lo <= n < hi * hi,
        decreases hi - lo,
    {
        let mid: u64 = lo + (hi - lo) / 2;
        assert(mid * mid <= 0xffff_ffff * 0xffff_ffff) by (nonlinear_arith)
            requires
                mid <= 0xffff_ffff,
        ;
        if mid * mid <= n {
            lo = mid;
        } else {
            hi = mid;
        }
    }
    lo
}

/// A perfect square's integer square root is its root.
pub proof fn lemma_square_root_exact(r: nat, c: nat)
    requires
        r * r <= c * c < (r + 1) * (r + 1),
    ensures
        r == c,
{
    assert(r == c) by (nonlinear_arith)
        requires
            r * r <= c * c < (r + 1) * (r + 1),
    ;
}

/// Euclid's lemma: a number that divides a product and is coprime to one
/// factor divides the other.
pub proof fn lemma_coprime_divides(d: nat, a: nat, y: nat, q: nat) -> (w: nat)
    requires
        d > 0,
        coprime(d, a),
        a * y == q * d,
    ensures
        y == w * d,
{
    let (u, v) = lemma_bezout(d, a);
    let w = y * u + q * v;
    assert(y == w * d) by (nonlinear_arith)
        requires
            d * u + a * v == 1,
            a * y == q * d,
            w == y * u + q * v,
    ;
    assert(w >= 0) by (nonlinear_arith)
        requires
            y == w * d,
            d > 0,
            y >= 0,
    ;
    w as nat
}

/// Computes the integer square root of a wide number: the largest `r` with
/// `r * r <= n`.
pub fn isqrt_wide(n: u128) -> (r: u128)
    ensures
        r * r <= n < (r + 1) * (r + 1),
        r < 0x1_0000_0000_0000_0000,
{
    let mut lo: u128 = 0;
    let mut hi: u128 = 0x1_0000_0000_0000_0000;
    while hi - lo > 1
        invariant
            lo < hi <= 0x1_0000_0000_0000_0000,
            lo * lo <= n < hi * hi,
        decreases hi - lo,
    {
        let mid: u128 = lo + (hi - lo) / 2;
        assert(mid * mid <= 0xffff_ffff_ffff_ffff * 0xffff_ffff_ffff_ffff) by (nonlinear_arith)
            requires
                mid <= 0xffff_ffff_ffff_ffff,
        ;
        if mid * mid <= n {
            lo = mid;
        } else {
            hi = mid;
        }
    }
    lo
}

/// Every natural number has an integer square root.
pub proof fn lemma_isqrt_exists(n: nat) -> (r: nat)
    ensures
        r * r <= n < (r + 1) * (r + 1),
    decreases n,
{
    if n == 0 {
        assert(0 * 0 <= n < (0 + 1) * (0 + 1)) by (nonlinear_arith)
            requires
                n == 0,
        ;
        0
    } else {
        let r = lemma_isqrt_exists((n - 1) as nat);
        let s = r + 1;
        if s * s <= n {
            assert(n < (s + 1) * (s + 1)) by (nonlinear_arith)
                requires
                    n - 1 < (r + 1) * (r + 1),
                    s == r + 1,
            ;
            s
        } else {
            assert(r * r <= n < (r + 1) * (r + 1)) by (nonlinear_arith)
                requires
                    r * r <= n - 1,
                    !(s * s <= n),
                    s == r + 1,
            ;
            r
        }
    }
}

} // verus!
