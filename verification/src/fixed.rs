use vstd::prelude::*;

verus! {

use vstd::arithmetic::div_mod::lemma_div_is_ordered;
use vstd::arithmetic::div_mod::lemma_div_non_zero;
use vstd::arithmetic::div_mod::lemma_div_nonincreasing;
use vstd::arithmetic::div_mod::lemma_div_of0;
use vstd::arithmetic::div_mod::lemma_div_pos_is_pos;

/// Number of fixed-point steps per world unit: every scalar in this crate is
/// an `i64` count of millionths of a unit.
pub const SCALE: i64 = 1_000_000;

/// Divisor for a product of two micro-unit factors: such a product carries
/// two factors of `SCALE`.
pub const SCALE_SQ: i64 = 1_000_000_000_000;

/// Truncating division of `p` by a positive divisor `d`: the quotient is
/// rounded toward zero, as Rust's `/` rounds on machine integers. Opaque:
/// callers reason through the lemmas below and through `trunc_div`.
#[verifier::opaque]
pub open spec fn tdiv(p: int, d: int) -> int {
    if p >= 0 {
        p / d
    } else {
        -((-p) / d)
    }
}

/// Truncating division maps opposite dividends to opposite quotients.
pub proof fn lemma_tdiv_neg(p: int, d: int)
    requires
        1 <= d,
    ensures
        tdiv(-p, d) == -tdiv(p, d),
{
    reveal(tdiv);
    if p == 0 {
        lemma_div_of0(d);
    }
}

/// A truncated quotient keeps the sign of its dividend and never grows in
/// magnitude.
pub proof fn lemma_tdiv_sign_and_shrink(p: int, d: int)
    requires
        1 <= d,
    ensures
        p >= 0 ==> 0 <= tdiv(p, d) <= p,
        p < 0 ==> p <= tdiv(p, d) <= 0,
{
    reveal(tdiv);
    if p >= 0 {
        lemma_div_pos_is_pos(p, d);
        lemma_div_nonincreasing(p, d);
    } else {
        lemma_div_pos_is_pos(-p, d);
        lemma_div_nonincreasing(-p, d);
    }
}

/// A bound on the dividend gives the matching bound on the truncated
/// quotient.
pub proof fn lemma_tdiv_bound(p: int, d: int, cap: int)
    requires
        1 <= d,
        0 <= cap,
        -cap <= p <= cap,
    ensures
        -(cap / d) <= tdiv(p, d) <= cap / d,
{
    reveal(tdiv);
    if p >= 0 {
        lemma_div_pos_is_pos(p, d);
        lemma_div_is_ordered(p, cap, d);
    } else {
        lemma_div_pos_is_pos(-p, d);
        lemma_div_is_ordered(-p, cap, d);
    }
}

/// A dividend at least as large as the divisor leaves a nonzero truncated
/// quotient, in either direction.
pub proof fn lemma_tdiv_nonzero(p: int, d: int)
    requires
        1 <= d,
        p >= d || p <= -d,
    ensures
        p >= d ==> tdiv(p, d) >= 1,
        p <= -d ==> tdiv(p, d) <= -1,
{
    reveal(tdiv);
    if p >= d {
        lemma_div_non_zero(p, d);
    } else {
        lemma_div_non_zero(-p, d);
    }
}

/// Truncating division on machine integers; the building block for every
/// fixed-point rescale in this crate.
pub fn trunc_div(p: i64, d: i64) -> (q: i64)
    requires
        1 <= d,
        -i64::MAX <= p,
    ensures
        q == tdiv(p as int, d as int),
        p >= 0 ==> 0 <= q <= p,
        p < 0 ==> p <= q <= 0,
{
    if p < 0 {
        let a: u64 = (-p) as u64;
        let q0: u64 = a / (d as u64);
        proof {
            reveal(tdiv);
            lemma_div_nonincreasing(a as int, d as int);
            lemma_div_pos_is_pos(a as int, d as int);
        }
        -(q0 as i64)
    } else {
        let q0: u64 = (p as u64) / (d as u64);
        proof {
            reveal(tdiv);
            lemma_div_nonincreasing(p as int, d as int);
            lemma_div_pos_is_pos(p as int, d as int);
        }
        q0 as i64
    }
}

/// Scale `c` by the fixed-point factor `n` and drop the two extra factors of
/// `SCALE` that the product carries.
pub fn mul_scale(c: i64, n: i64) -> (r: i64)
    requires
        -i64::MAX <= c * n <= i64::MAX,
    ensures
        r == tdiv(c * n, SCALE_SQ as int),
{
    let p: i64 = c * n;
    trunc_div(p, SCALE_SQ)
}

} // verus!
