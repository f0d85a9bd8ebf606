//! Two's-complement arithmetic on `i32`, stated over mathematical integers.
use vstd::prelude::*;
use vstd::arithmetic::div_mod::*;

verus! {

/// The `i32` that two's-complement arithmetic keeps of the integer `v`: the
/// one value of the type that differs from `v` by a multiple of 2^32.
pub open spec fn wrap(v: int) -> i32 {
    let r = v % 0x1_0000_0000;
    if r > i32::MAX {
        (r - 0x1_0000_0000) as i32
    } else {
        r as i32
    }
}

/// The quotient of `a` by `b` rounded toward zero: the quotient of the
/// magnitudes, negated when exactly one of the two is negative.
pub open spec fn trunc_div(a: int, b: int) -> int
    recommends
        b != 0,
{
    let q = (if a < 0 { -a } else { a }) / (if b < 0 { -b } else { b });
    if (a < 0) != (b < 0) {
        -q
    } else {
        q
    }
}

/// An integer inside the range of `i32` is kept as it is.
pub proof fn lemma_wrap_in_range(v: int)
    requires
        i32::MIN <= v <= i32::MAX,
    ensures
        wrap(v) == v,
{
    if v >= 0 {
        lemma_small_mod(v as nat, 0x1_0000_0000);
    } else {
        lemma_small_mod((v + 0x1_0000_0000) as nat, 0x1_0000_0000);
        lemma_mod_multiples_vanish(1, v, 0x1_0000_0000);
    }
}

/// `wrap(v)` and `v` differ by a multiple of 2^32.
pub proof fn lemma_wrap_congruent(v: int)
    ensures
        (wrap(v) - v) % 0x1_0000_0000 == 0,
{
    lemma_fundamental_div_mod(v, 0x1_0000_0000);
    let q = v / 0x1_0000_0000;
    if v % 0x1_0000_0000 > i32::MAX {
        assert(wrap(v) - v == 0x1_0000_0000 * (-q - 1));
        lemma_mod_multiples_basic(-q - 1, 0x1_0000_0000);
    } else {
        assert(wrap(v) - v == 0x1_0000_0000 * (-q));
        lemma_mod_multiples_basic(-q, 0x1_0000_0000);
    }
}

/// No other `i32` differs from `v` by a multiple of 2^32.
pub proof fn lemma_wrap_unique(v: int, r: i32)
    requires
        (r - v) % 0x1_0000_0000 == 0,
    ensures
        r == wrap(v),
{
    lemma_wrap_congruent(v);
    let w = wrap(v);
    lemma_sub_mod_noop(r - v, w - v, 0x1_0000_0000);
    assert((r - w) % 0x1_0000_0000 == 0);
    if r > w {
        lemma_small_mod((r - w) as nat, 0x1_0000_0000);
    } else if r < w {
        lemma_small_mod((r - w + 0x1_0000_0000) as nat, 0x1_0000_0000);
        lemma_mod_multiples_vanish(1, r - w, 0x1_0000_0000);
    }
}

/// Wrapping the sum of two wrapped integers is wrapping the sum of the
/// integers themselves.
pub proof fn lemma_wrap_add(a: int, b: int)
    ensures
        wrap(wrap(a) + wrap(b)) == wrap(a + b),
{
    lemma_add_mod_noop(a, b, 0x1_0000_0000);
    lemma_mod_multiples_vanish(-1, a % 0x1_0000_0000, 0x1_0000_0000);
    lemma_mod_multiples_vanish(-1, b % 0x1_0000_0000, 0x1_0000_0000);
    lemma_add_mod_noop(wrap(a) as int, wrap(b) as int, 0x1_0000_0000);
}

/// Wrapping the difference of two wrapped integers is wrapping the
/// difference of the integers themselves.
pub proof fn lemma_wrap_sub(a: int, b: int)
    ensures
        wrap(wrap(a) - wrap(b)) == wrap(a - b),
{
    lemma_sub_mod_noop(a, b, 0x1_0000_0000);
    lemma_mod_multiples_vanish(-1, a % 0x1_0000_0000, 0x1_0000_0000);
    lemma_mod_multiples_vanish(-1, b % 0x1_0000_0000, 0x1_0000_0000);
    lemma_sub_mod_noop(wrap(a) as int, wrap(b) as int, 0x1_0000_0000);
}

/// Euclidean division by a negative divisor is the negated division by its
/// magnitude.
proof fn lemma_div_negative_divisor(a: int, b: int)
    by (nonlinear_arith)
    requires
        b < 0,
    ensures
        a / b == -(a / (-b)),
{
}

/// A quotient of magnitudes is no larger than the dividend: equal to it
/// when the divisor is one, smaller once the divisor is at least two.
proof fn lemma_div_magnitude(x: int, d: int)
    by (nonlinear_arith)
    requires
        0 <= x,
        0 < d,
    ensures
        0 <= x / d <= x,
        d == 1 ==> x / d == x,
        d >= 2 && x > 0 ==> x / d < x,
{
}

/// What truncated division leaves over is smaller in magnitude than the
/// divisor and, unless it is zero, has the sign of the dividend.
pub proof fn lemma_trunc_div_remainder(a: int, b: int)
    requires
        b != 0,
    ensures
        ({
            let r = a - trunc_div(a, b) * b;
            &&& -b < r < b || b < r < -b
            &&& a >= 0 ==> r >= 0
            &&& a <= 0 ==> r <= 0
        }),
{
    let x: int = if a < 0 { -a } else { a };
    let d: int = if b < 0 { -b } else { b };
    lemma_fundamental_div_mod(x, d);
    lemma_mod_bound(x, d);
    assert(x == d * (x / d) + x % d);
    assert((-(x / d)) * b == -((x / d) * b)) by (nonlinear_arith);
    assert((x / d) * (-b) == -((x / d) * b)) by (nonlinear_arith);
    assert(d * (x / d) == (x / d) * d) by (nonlinear_arith);
}

/// The truncated quotient leaves the range of `i32` on one pair of
/// operands only: `i32::MIN` divided by `-1`.
pub proof fn lemma_trunc_div_range(a: i32, b: i32)
    requires
        b != 0,
    ensures
        i32::MIN <= trunc_div(a as int, b as int) <= i32::MAX + 1,
        trunc_div(a as int, b as int) == i32::MAX + 1 <==> (a == i32::MIN && b == -1),
{
    let x: int = if a < 0 { -a } else { a as int };
    let d: int = if b < 0 { -b } else { b as int };
    lemma_div_magnitude(x, d);
}

/// Divides `a` by `b`, rounding toward zero, and wraps the one quotient
/// that `i32` cannot hold: `i32::MIN` divided by `-1` gives `i32::MIN`.
pub fn wrapping_quotient(a: i32, b: i32) -> (q: i32)
    requires
        b != 0,
    ensures
        q == wrap(trunc_div(a as int, b as int)),
        !(a == i32::MIN && b == -1) ==> q == trunc_div(a as int, b as int),
{
    proof {
        let x: int = if a < 0 { -a } else { a as int };
        let d: int = if b < 0 { -b } else { b as int };
        lemma_div_magnitude(x, d);
        lemma_trunc_div_range(a, b);
        if !(a == i32::MIN && b == -1) {
            lemma_wrap_in_range(trunc_div(a as int, b as int));
        }
        if b < 0 {
            lemma_div_negative_divisor(a as int, b as int);
            lemma_div_negative_divisor(-a, b as int);
        }
    }
    if b == -1 {
        0i32.wrapping_sub(a)
    } else {
        a / b
    }
}

} // verus!
