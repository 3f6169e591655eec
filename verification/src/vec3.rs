use vstd::prelude::*;

verus! {

use crate::fixed::SCALE;
use crate::fixed::SCALE_SQ;
use crate::fixed::lemma_tdiv_bound;
use crate::fixed::lemma_tdiv_neg;
use crate::fixed::mul_scale;
use crate::fixed::tdiv;
use vstd::arithmetic::mul::lemma_mul_unary_negation;

/// Largest fixed-point coefficient a vector may be scaled by: the gain of
/// the strongest thruster over the longest admitted tick.
pub const MAX_COEFF: i64 = 2_000_000_000_000;

/// Largest component a vector scaled by `MAX_COEFF` can come out with.
pub const SCALED_BOUND: i64 = 2_000_000;

/// Mathematical model of a vector: three unbounded integer components, each
/// a count of millionths of a world unit.
pub struct V3 {
    pub x: int,
    pub y: int,
    pub z: int,
}

/// The zero vector.
pub open spec fn v3_zero() -> V3 {
    V3 { x: 0, y: 0, z: 0 }
}

/// Componentwise vector sum.
pub open spec fn v3_add(a: V3, b: V3) -> V3 {
    V3 { x: a.x + b.x, y: a.y + b.y, z: a.z + b.z }
}

/// The vector `v` scaled by the fixed-point factor `n`, each component
/// rescaled by truncating division. Opaque: callers reason through
/// `Vec3::scaled` and the lemmas beside it.
#[verifier::opaque]
pub open spec fn v3_scaled(v: V3, n: int) -> V3 {
    V3 {
        x: tdiv(v.x * n, SCALE_SQ as int),
        y: tdiv(v.y * n, SCALE_SQ as int),
        z: tdiv(v.z * n, SCALE_SQ as int),
    }
}

/// Every component of `v` lies within `cap` in magnitude.
pub open spec fn v3_in_range(v: V3, cap: int) -> bool {
    &&& -cap <= v.x <= cap
    &&& -cap <= v.y <= cap
    &&& -cap <= v.z <= cap
}

/// Scaling a vector by opposite coefficients gives contributions that cancel
/// exactly, component by component.
pub proof fn lemma_v3_scaled_cancels(v: V3, n: int)
    ensures
        v3_add(v3_scaled(v, n), v3_scaled(v, -n)) == v3_zero(),
{
    reveal(v3_scaled);
    lemma_mul_unary_negation(v.x, n);
    lemma_mul_unary_negation(v.y, n);
    lemma_mul_unary_negation(v.z, n);
    lemma_tdiv_neg(v.x * n, SCALE_SQ as int);
    lemma_tdiv_neg(v.y * n, SCALE_SQ as int);
    lemma_tdiv_neg(v.z * n, SCALE_SQ as int);
}

/// A fixed-point vector: three `i64` components, each a count of millionths
/// of a world unit.
#[derive(Clone, Copy, PartialEq, Eq, Structural, Debug)]
pub struct Vec3 {
    pub x: i64,
    pub y: i64,
    pub z: i64,
}

impl View for Vec3 {
    type V = V3;

    open spec fn view(&self) -> V3 {
        V3 { x: self.x as int, y: self.y as int, z: self.z as int }
    }
}

impl Vec3 {
    /// The zero vector.
    pub fn zero() -> (r: Vec3)
        ensures
            r@ == v3_zero(),
    {
        Vec3 { x: 0, y: 0, z: 0 }
    }

    /// Componentwise sum; the caller keeps the components small enough that
    /// no sum leaves the machine range.
    pub fn add(&self, other: &Vec3) -> (r: Vec3)
        requires
            i64::MIN <= self@.x + other@.x <= i64::MAX,
            i64::MIN <= self@.y + other@.y <= i64::MAX,
            i64::MIN <= self@.z + other@.z <= i64::MAX,
        ensures
            r@ == v3_add(self@, other@),
    {
        Vec3 { x: self.x + other.x, y: self.y + other.y, z: self.z + other.z }
    }

    /// Scale an axis vector by a fixed-point coefficient, such as a thruster
    /// gain times a tick duration.
    pub fn scaled(&self, n: i64) -> (r: Vec3)
        requires
            v3_in_range(self@, SCALE as int),
            -MAX_COEFF <= n <= MAX_COEFF,
        ensures
            r@ == v3_scaled(self@, n as int),
            v3_in_range(r@, SCALED_BOUND as int),
    {
        proof {
            reveal(v3_scaled);
            assert(-(SCALE * MAX_COEFF) <= self@.x * n <= SCALE * MAX_COEFF)
                by (nonlinear_arith)
                requires
                    -SCALE <= self@.x <= SCALE,
                    -MAX_COEFF <= n <= MAX_COEFF,
            ;
            assert(-(SCALE * MAX_COEFF) <= self@.y * n <= SCALE * MAX_COEFF)
                by (nonlinear_arith)
                requires
                    -SCALE <= self@.y <= SCALE,
                    -MAX_COEFF <= n <= MAX_COEFF,
            ;
            assert(-(SCALE * MAX_COEFF) <= self@.z * n <= SCALE * MAX_COEFF)
                by (nonlinear_arith)
                requires
                    -SCALE <= self@.z <= SCALE,
                    -MAX_COEFF <= n <= MAX_COEFF,
            ;
            lemma_tdiv_bound(self@.x * n, SCALE_SQ as int, SCALE as int * MAX_COEFF as int);
            lemma_tdiv_bound(self@.y * n, SCALE_SQ as int, SCALE as int * MAX_COEFF as int);
            lemma_tdiv_bound(self@.z * n, SCALE_SQ as int, SCALE as int * MAX_COEFF as int);
        }
        Vec3 {
            x: mul_scale(self.x, n),
            y: mul_scale(self.y, n),
            z: mul_scale(self.z, n),
        }
    }
}

} // verus!
