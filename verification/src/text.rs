//! Decimal text of integers and of scalars.

use vstd::prelude::*;
use vstd::arithmetic::div_mod::lemma_fundamental_div_mod;
use vstd::arithmetic::power::{lemma_pow0, lemma_pow1, lemma_pow_adds, lemma_pow_positive, pow};
use vstd::arithmetic::power2::{lemma2_to64, lemma2_to64_rest, lemma_pow2_unfold, pow2};
use crate::gcd::{coprime, gcd, lemma_coprime_divides, lemma_gcd_divides, lemma_gcd_positive};
use crate::scalar::Scalar;

verus! {

/// The character of the decimal digit `d`.
pub open spec fn digit(d: nat) -> char {
    if d == 0 {
        '0'
    } else if d == 1 {
        '1'
    } else if d == 2 {
        '2'
    } else if d == 3 {
        '3'
    } else if d == 4 {
        '4'
    } else if d == 5 {
        '5'
    } else if d == 6 {
        '6'
    } else if d == 7 {
        '7'
    } else if d == 8 {
        '8'
    } else {
        '9'
    }
}

/// The decimal digits of `n`, most significant first, without leading zeros.
pub open spec fn digits(n: nat) -> Seq<char>
    decreases n,
{
    if n < 10 {
        seq![digit(n)]
    } else {
        digits(n / 10).push(digit(n % 10))
    }
}

/// The decimal text of an integer: a minus sign where it is negative, then
/// the digits of its magnitude.
pub open spec fn decimal(n: int) -> Seq<char> {
    if n < 0 {
        seq!['-'] + digits((-n) as nat)
    } else {
        digits(n as nat)
    }
}

/// The most decimal places that a scalar is written with. No denominator
/// below 2^63 whose decimal expansion ends needs more
/// ([`lemma_places_suffice`]).
pub const PLACES: u64 = 62;

/// The decimal places of the fraction `r / d`, where `r < d`, or `None` where
/// they do not end within `limit` places.
pub open spec fn places(r: nat, d: nat, limit: nat) -> Option<Seq<char>>
    decreases limit,
{
    if r == 0 {
        Some(Seq::empty())
    } else if limit == 0 {
        None
    } else {
        match places((r * 10) % d, d, (limit - 1) as nat) {
            Some(rest) => Some(seq![digit(r * 10 / d)] + rest),
            None => None,
        }
    }
}

/// A number coprime to 10 that divides `x * 10^k` divides `x`.
proof fn lemma_coprime_to_ten(d: nat, x: nat, k: nat, q: nat) -> (w: nat)
    requires
        d > 0,
        coprime(d, 10),
        x * pow(10, k) == q * d,
    ensures
        x == w * d,
    decreases k,
{
    if k == 0 {
        lemma_pow0(10);
        q
    } else {
        lemma_pow_adds(10, 1, (k - 1) as nat);
        lemma_pow1(10);
        lemma_pow_positive(10, (k - 1) as nat);
        let y = x * pow(10, (k - 1) as nat);
        assert(10 * y == x * pow(10, k)) by (nonlinear_arith)
            requires
                y == x * pow(10, (k - 1) as nat),
                pow(10, k) == 10 * pow(10, (k - 1) as nat),
        ;
        assert(y >= 0) by (nonlinear_arith)
            requires
                y == x * pow(10, (k - 1) as nat),
                pow(10, (k - 1) as nat) > 0,
        ;
        let q1 = lemma_coprime_divides(d, 10, y as nat, q);
        lemma_coprime_to_ten(d, x, (k - 1) as nat, q1)
    }
}

/// A number below `2^(j+1)` that divides `x * 10^k` for some `k` divides
/// `x * 10^j`: each factor that it shares with a power of 10 at least halves
/// what is left of it.
proof fn lemma_ten_to_the(d: nat, x: nat, k: nat, j: nat, q: nat) -> (w: nat)
    requires
        0 < d < pow2(j + 1),
        x * pow(10, k) == q * d,
    ensures
        x * pow(10, j) == w * d,
    decreases j,
{
    if k <= j {
        lemma_pow_adds(10, k, (j - k) as nat);
        lemma_pow_positive(10, (j - k) as nat);
        let p = pow(10, (j - k) as nat);
        assert(x * pow(10, j) == (q * p) * d) by (nonlinear_arith)
            requires
                pow(10, j) == pow(10, k) * p,
                x * pow(10, k) == q * d,
        ;
        (q * p) as nat
    } else {
        let g = gcd(d, 10);
        lemma_gcd_positive(d, 10);
        lemma_gcd_divides(d, 10);
        lemma_pow_positive(10, j);
        if g == 1 {
            let w0 = lemma_coprime_to_ten(d, x, k, q);
            assert(x * pow(10, j) == (w0 * pow(10, j)) * d) by (nonlinear_arith)
                requires
                    x == w0 * d,
            ;
            (w0 * pow(10, j)) as nat
        } else {
            let d1 = d / g;
            let t = 10nat / g;
            lemma_pow2_unfold(j + 1);
            lemma2_to64();
            assert(j >= 1 && 0 < d1 < pow2(j)) by (nonlinear_arith)
                requires
                    d == g * d1,
                    g >= 2,
                    0 < d < pow2(j + 1),
                    j == 0 ==> pow2(j + 1) == 2,
                    j >= 1 ==> pow2(j + 1) == 2 * pow2(j),
            ;
            lemma_pow_adds(10, 1, (k - 1) as nat);
            lemma_pow_adds(10, 1, (j - 1) as nat);
            lemma_pow1(10);
            let pk = pow(10, (k - 1) as nat);
            let pj = pow(10, (j - 1) as nat);
            let x1 = x * t;
            assert(x1 * pk == q * d1) by (nonlinear_arith)
                requires
                    x * (10 * pk) == q * d,
                    d == g * d1,
                    10 == g * t,
                    x1 == x * t,
                    g > 0,
            ;
            let w = lemma_ten_to_the(d1, x1, (k - 1) as nat, (j - 1) as nat, q);
            assert(x * pow(10, j) == w * d) by (nonlinear_arith)
                requires
                    pow(10, j) == 10 * pj,
                    x1 * pj == w * d1,
                    d == g * d1,
                    10 == g * t,
                    x1 == x * t,
            ;
            w
        }
    }
}

/// Decimal places that end within `k` places show that `d` divides
/// `r * 10^k`.
proof fn lemma_places_divide(r: nat, d: nat, k: nat) -> (q: nat)
    requires
        d > 0,
        places(r, d, k) is Some,
    ensures
        r * pow(10, k) == q * d,
    decreases k,
{
    if r == 0 {
        0
    } else {
        let next = (r * 10) % d;
        let t = (r * 10) / d;
        let q1 = lemma_places_divide(next, d, (k - 1) as nat);
        lemma_fundamental_div_mod((r * 10) as int, d as int);
        lemma_pow_adds(10, 1, (k - 1) as nat);
        lemma_pow1(10);
        lemma_pow_positive(10, (k - 1) as nat);
        let p = pow(10, (k - 1) as nat);
        assert(r * pow(10, k) == (t * p + q1) * d) by (nonlinear_arith)
            requires
                pow(10, k) == 10 * p,
                r * 10 == d * t + next,
                next * p == q1 * d,
        ;
        (t * p + q1) as nat
    }
}

/// Where `d` divides `r * 10^k`, the decimal places of `r / d` end within
/// `k` places.
proof fn lemma_divide_places(r: nat, d: nat, k: nat, q: nat)
    requires
        r < d,
        r * pow(10, k) == q * d,
    ensures
        places(r, d, k) is Some,
    decreases k,
{
    if r == 0 {
    } else if k == 0 {
        lemma_pow0(10);
        assert(false) by (nonlinear_arith)
            requires
                r == q * d,
                0 < r < d,
        ;
    } else {
        let next = (r * 10) % d;
        let t = (r * 10) / d;
        lemma_fundamental_div_mod((r * 10) as int, d as int);
        lemma_pow_adds(10, 1, (k - 1) as nat);
        lemma_pow1(10);
        lemma_pow_positive(10, (k - 1) as nat);
        let p = pow(10, (k - 1) as nat);
        let q1 = q - t * p;
        assert(next * p == q1 * d) by (nonlinear_arith)
            requires
                pow(10, k) == 10 * p,
                r * 10 == d * t + next,
                r * pow(10, k) == q * d,
                q1 == q - t * p,
        ;
        assert(q1 >= 0) by (nonlinear_arith)
            requires
                next * p == q1 * d,
                next >= 0,
                p > 0,
                d > 0,
        ;
        lemma_divide_places(next, d, (k - 1) as nat, q1 as nat);
    }
}

/// [`PLACES`] places are enough: the decimal places of a fraction whose
/// denominator is below 2^63 end within them wherever they end at all.
pub proof fn lemma_places_suffice(r: nat, d: nat, k: nat)
    requires
        r < d <= i64::MAX,
        places(r, d, k) is Some,
    ensures
        places(r, d, PLACES as nat) is Some,
{
    let q = lemma_places_divide(r, d, k);
    lemma2_to64_rest();
    let w = lemma_ten_to_the(d, r, k, PLACES as nat, q);
    lemma_divide_places(r, d, PLACES as nat, w);
}

/// The text of the fraction `n / d`, `d` positive. Where its decimal
/// expansion ends within [`PLACES`] places it is written as that decimal: a
/// minus sign where it is negative, the digits of the whole part, and, where
/// there are any, a point and the decimal places (`6`, `9.5`, `-0.125`).
/// Any other fraction is written as numerator, `/`, denominator (`1/3`).
pub open spec fn fraction_text(n: int, d: int) -> Seq<char> {
    let m = if n < 0 {
        (-n) as nat
    } else {
        n as nat
    };
    let sign = if n < 0 {
        seq!['-']
    } else {
        Seq::empty()
    };
    match places(m % (d as nat), d as nat, PLACES as nat) {
        Some(rest) => if m % (d as nat) == 0 {
            sign + digits(m / (d as nat))
        } else {
            sign + digits(m / (d as nat)) + seq!['.'] + rest
        },
        None => decimal(n) + seq!['/'] + decimal(d),
    }
}

/// The text of a scalar: `inf` or `-inf` for an infinity, `NaN` where it is
/// undefined, and the text of the fraction of its lowest terms otherwise.
pub open spec fn scalar_text(s: Scalar) -> Seq<char> {
    if s.denominator() <= 0 {
        if s.numerator() > 0 {
            seq!['i', 'n', 'f']
        } else if s.numerator() < 0 {
            seq!['-', 'i', 'n', 'f']
        } else {
            seq!['N', 'a', 'N']
        }
    } else {
        fraction_text(s.numerator(), s.denominator())
    }
}

/// The one-character text of a decimal digit.
fn digit_str(d: u64) -> (r: &'static str)
    requires
        d < 10,
    ensures
        r@ == seq![digit(d as nat)],
{
    proof {
        reveal_strlit("0");
        reveal_strlit("1");
        reveal_strlit("2");
        reveal_strlit("3");
        reveal_strlit("4");
        reveal_strlit("5");
        reveal_strlit("6");
        reveal_strlit("7");
        reveal_strlit("8");
        reveal_strlit("9");
    }
    let r = if d == 0 {
        "0"
    } else if d == 1 {
        "1"
    } else if d == 2 {
        "2"
    } else if d == 3 {
        "3"
    } else if d == 4 {
        "4"
    } else if d == 5 {
        "5"
    } else if d == 6 {
        "6"
    } else if d == 7 {
        "7"
    } else if d == 8 {
        "8"
    } else {
        "9"
    };
    r
}

/// Appends the decimal digits of `n` to `out`.
pub fn write_digits(out: &mut String, n: u64)
    ensures
        final(out)@ == old(out)@ + digits(n as nat),
    decreases n,
{
    if n >= 10 {
        write_digits(out, n / 10);
    }
    out.append(digit_str(n % 10));
}

/// Appends the decimal text of `n` to `out`.
pub fn write_decimal(out: &mut String, n: i64)
    ensures
        final(out)@ == old(out)@ + decimal(n as int),
{
    if n < 0 {
        proof {
            reveal_strlit("-");
        }
        out.append("-");
        let m: u64 = if n == i64::MIN {
            0x8000_0000_0000_0000
        } else {
            (-n) as u64
        };
        write_digits(out, m);
    } else {
        write_digits(out, n as u64);
    }
}

/// Appends the decimal places of `r / d` to `out` and says whether they end
/// within `limit` places; where they do not, what `out` then holds is of no
/// use.
fn write_places(out: &mut String, r: u64, d: u64, limit: u64) -> (ended: bool)
    requires
        r < d,
        d <= 0x7fff_ffff_ffff_ffff,
    ensures
        ended == (places(r as nat, d as nat, limit as nat) is Some),
        ended ==> final(out)@ == old(out)@ + places(r as nat, d as nat, limit as nat)->0,
    decreases limit,
{
    if r == 0 {
        return true;
    }
    if limit == 0 {
        return false;
    }
    let t: u128 = (r as u128) * 10;
    let q: u128 = t / (d as u128);
    let next: u128 = t % (d as u128);
    proof {
        assert(q < 10) by (nonlinear_arith)
            requires
                t < 10 * d,
                d > 0,
                q == t / (d as u128),
        ;
    }
    out.append(digit_str(q as u64));
    write_places(out, next as u64, d, limit - 1)
}

/// Appends the text of the fraction `n / d` to `out`.
pub fn write_fraction(out: &mut String, n: i64, d: i64)
    requires
        d > 0,
    ensures
        final(out)@ == old(out)@ + fraction_text(n as int, d as int),
{
    let m: u64 = if n >= 0 {
        n as u64
    } else if n == i64::MIN {
        0x8000_0000_0000_0000
    } else {
        (-n) as u64
    };
    let whole: u64 = m / (d as u64);
    let r: u64 = m % (d as u64);
    let mut rest = String::new();
    let ended = write_places(&mut rest, r, d as u64, PLACES);
    proof {
        reveal_strlit("-");
        reveal_strlit(".");
        reveal_strlit("/");
    }
    if ended {
        if n < 0 {
            out.append("-");
        }
        write_digits(out, whole);
        if r != 0 {
            out.append(".");
            out.append(rest.as_str());
        }
    } else {
        write_decimal(out, n);
        out.append("/");
        write_decimal(out, d);
    }
}

/// Appends the text of a scalar to `out`.
pub fn write_scalar(out: &mut String, s: Scalar)
    ensures
        final(out)@ == old(out)@ + scalar_text(s),
{
    let n = s.numer();
    let d = s.denom();
    if d <= 0 {
        proof {
            reveal_strlit("inf");
            reveal_strlit("-inf");
            reveal_strlit("NaN");
        }
        if n > 0 {
            out.append("inf");
        } else if n < 0 {
            out.append("-inf");
        } else {
            out.append("NaN");
        }
    } else {
        write_fraction(out, n, d);
    }
}

/// The label that stands behind a magnitude: the singular behind exactly one,
/// the plural behind anything else.
pub open spec fn label_for(magnitude: Scalar, singular: Seq<char>, plural: Seq<char>) -> Seq<
    char,
> {
    if magnitude.same(Scalar::of_int(1)) {
        singular
    } else {
        plural
    }
}

/// Appends a quantity of a base unit to `out`: the magnitude, then at once
/// the unit's label, singular or plural.
pub fn write_quantity(out: &mut String, magnitude: Scalar, singular: &str, plural: &str)
    ensures
        final(out)@ == old(out)@ + scalar_text(magnitude) + label_for(
            magnitude,
            singular@,
            plural@,
        ),
{
    write_scalar(out, magnitude);
    if magnitude == Scalar::from_int(1) {
        out.append(singular);
    } else {
        out.append(plural);
    }
}

} // verus!
