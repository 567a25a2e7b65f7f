//! Multiplication followed by division, without loss of precision.

use vstd::arithmetic::div_mod::{
    lemma_div_is_ordered, lemma_div_multiples_vanish, lemma_fundamental_div_mod,
    lemma_hoist_over_denominator,
};
use vstd::arithmetic::mul::{lemma_mul_inequality, lemma_mul_is_commutative};
use vstd::prelude::*;

verus! {

/// The largest divisor that [`mul_div`] accepts: two to the power of 64.
pub const MAX_DIVISOR: u128 = 0x1_0000_0000_0000_0000;

/// `a * b / c`, rounded down, over the mathematical integers.
pub open spec fn mul_div_spec(a: int, b: int, c: int) -> int {
    (a * b) / c
}

/// A share `b / c` of at most the whole never exceeds `a`.
pub proof fn lemma_mul_div_bounded(a: int, b: int, c: int)
    requires
        0 <= a,
        0 <= b <= c,
        0 < c,
    ensures
        0 <= mul_div_spec(a, b, c) <= a,
{
    lemma_mul_inequality(b, c, a);
    lemma_mul_is_commutative(a, b);
    lemma_mul_is_commutative(a, c);
    assert(0 <= a * b) by (nonlinear_arith)
        requires
            0 <= a,
            0 <= b,
    ;
    lemma_div_is_ordered(0, a * b, c);
    lemma_div_is_ordered(a * b, a * c, c);
    lemma_div_multiples_vanish(a, c);
    assert(a * c == c * a) by (nonlinear_arith);
}

/// A larger share gives a larger result.
pub proof fn lemma_mul_div_monotonic(a: int, b1: int, b2: int, c: int)
    requires
        0 <= a,
        b1 <= b2,
        0 < c,
    ensures
        mul_div_spec(a, b1, c) <= mul_div_spec(a, b2, c),
{
    lemma_mul_inequality(b1, b2, a);
    lemma_mul_is_commutative(a, b1);
    lemma_mul_is_commutative(a, b2);
    lemma_div_is_ordered(a * b1, a * b2, c);
}

/// Computes `a * b / c` exactly, although `a * b` may not fit in 128 bits.
///
/// The quotient and remainder of `a` by `c` are scaled separately, so that
/// no intermediate value leaves the range of `u128`.
pub fn mul_div(a: u128, b: u128, c: u128) -> (r: u128)
    requires
        0 < c <= MAX_DIVISOR,
        b <= c,
    ensures
        r == mul_div_spec(a as int, b as int, c as int),
        r <= a,
{
    let q: u128 = a / c;
    let rem: u128 = a % c;
    proof {
        lemma_fundamental_div_mod(a as int, c as int);
        assert(q * b <= a) by (nonlinear_arith)
            requires
                a == c * q + rem,
                b <= c,
                0 <= q,
                0 <= rem,
                0 <= b,
        ;
        assert(rem * b < 0x1_0000_0000_0000_0000_0000_0000_0000_0000) by (nonlinear_arith)
            requires
                0 <= rem < c,
                0 <= b <= c,
                c <= 0x1_0000_0000_0000_0000,
        ;
    }
    let whole: u128 = q * b;
    let scaled: u128 = rem * b;
    let part: u128 = scaled / c;
    proof {
        lemma_hoist_over_denominator(scaled as int, whole as int, c as nat);
        assert(scaled + whole * c == a * b) by (nonlinear_arith)
            requires
                a == c * q + rem,
                whole == q * b,
                scaled == rem * b,
        ;
        lemma_mul_div_bounded(a as int, b as int, c as int);
    }
    whole + part
}

} // verus!
