//! Exact integer vectors and matrices for the scene-graph model.
//!
//! World-space frames are kept with bounded components so that re-basing a
//! position into a frame can be computed in `i64` without overflow.

use vstd::prelude::*;

verus! {

/// Largest magnitude allowed for a component of a stored world-space frame.
/// The bound keeps every product formed while re-basing inside `i64`.
pub const FRAME_BOUND: i64 = 1073741824;

/// A position or translation: three exact integer coordinates.
#[derive(Clone, Copy, PartialEq, Eq, Structural, Debug, Hash)]
pub struct Vector3 {
    pub x: i64,
    pub y: i64,
    pub z: i64,
}

impl Vector3 {
    pub open spec fn in_bounds(self) -> bool {
        &&& -FRAME_BOUND <= self.x <= FRAME_BOUND
        &&& -FRAME_BOUND <= self.y <= FRAME_BOUND
        &&& -FRAME_BOUND <= self.z <= FRAME_BOUND
    }

    pub fn new(x: i64, y: i64, z: i64) -> (r: Vector3)
        ensures
            r == (Vector3 { x, y, z }),
    {
        Vector3 { x, y, z }
    }

    pub fn zero() -> (r: Vector3)
        ensures
            r == (Vector3 { x: 0i64, y: 0i64, z: 0i64 }),
    {
        Vector3 { x: 0, y: 0, z: 0 }
    }

    /// True when every coordinate lies within [`FRAME_BOUND`].
    pub fn check_bounds(&self) -> (r: bool)
        ensures
            r == self.in_bounds(),
    {
        -FRAME_BOUND <= self.x && self.x <= FRAME_BOUND && -FRAME_BOUND <= self.y && self.y
            <= FRAME_BOUND && -FRAME_BOUND <= self.z && self.z <= FRAME_BOUND
    }
}

/// A 3x3 integer matrix: the linear part (rotation, reflection, shear) of an
/// affine frame, in row-major order.
#[derive(Clone, Copy, PartialEq, Eq, Structural, Debug, Hash)]
pub struct Matrix3 {
    pub m00: i64,
    pub m01: i64,
    pub m02: i64,
    pub m10: i64,
    pub m11: i64,
    pub m12: i64,
    pub m20: i64,
    pub m21: i64,
    pub m22: i64,
}

impl Matrix3 {
    pub open spec fn spec_identity() -> Matrix3 {
        Matrix3 { m00: 1, m01: 0, m02: 0, m10: 0, m11: 1, m12: 0, m20: 0, m21: 0, m22: 1 }
    }

    pub fn identity() -> (r: Matrix3)
        ensures
            r == Matrix3::spec_identity(),
    {
        Matrix3 { m00: 1, m01: 0, m02: 0, m10: 0, m11: 1, m12: 0, m20: 0, m21: 0, m22: 1 }
    }

    pub open spec fn in_bounds(self) -> bool {
        &&& -FRAME_BOUND <= self.m00 <= FRAME_BOUND
        &&& -FRAME_BOUND <= self.m01 <= FRAME_BOUND
        &&& -FRAME_BOUND <= self.m02 <= FRAME_BOUND
        &&& -FRAME_BOUND <= self.m10 <= FRAME_BOUND
        &&& -FRAME_BOUND <= self.m11 <= FRAME_BOUND
        &&& -FRAME_BOUND <= self.m12 <= FRAME_BOUND
        &&& -FRAME_BOUND <= self.m20 <= FRAME_BOUND
        &&& -FRAME_BOUND <= self.m21 <= FRAME_BOUND
        &&& -FRAME_BOUND <= self.m22 <= FRAME_BOUND
    }

    /// True when every entry lies within [`FRAME_BOUND`].
    pub fn check_bounds(&self) -> (r: bool)
        ensures
            r == self.in_bounds(),
    {
        -FRAME_BOUND <= self.m00 && self.m00 <= FRAME_BOUND && -FRAME_BOUND <= self.m01 && self.m01
            <= FRAME_BOUND && -FRAME_BOUND <= self.m02 && self.m02 <= FRAME_BOUND && -FRAME_BOUND
            <= self.m10 && self.m10 <= FRAME_BOUND && -FRAME_BOUND <= self.m11 && self.m11
            <= FRAME_BOUND && -FRAME_BOUND <= self.m12 && self.m12 <= FRAME_BOUND && -FRAME_BOUND
            <= self.m20 && self.m20 <= FRAME_BOUND && -FRAME_BOUND <= self.m21 && self.m21
            <= FRAME_BOUND && -FRAME_BOUND <= self.m22 && self.m22 <= FRAME_BOUND
    }

    /// Row `0` of this matrix applied to the column `(x, y, z)`.
    pub open spec fn row_x(self, x: int, y: int, z: int) -> int {
        self.m00 * x + self.m01 * y + self.m02 * z
    }

    /// Row `1` of this matrix applied to the column `(x, y, z)`.
    pub open spec fn row_y(self, x: int, y: int, z: int) -> int {
        self.m10 * x + self.m11 * y + self.m12 * z
    }

    /// Row `2` of this matrix applied to the column `(x, y, z)`.
    pub open spec fn row_z(self, x: int, y: int, z: int) -> int {
        self.m20 * x + self.m21 * y + self.m22 * z
    }

    /// `self` is a left inverse of `other`: `self * other` is the identity,
    /// written out entry by entry.
    pub open spec fn is_inverse_of(self, other: Matrix3) -> bool {
        &&& self.m00 * other.m00 + self.m01 * other.m10 + self.m02 * other.m20 == 1
        &&& self.m00 * other.m01 + self.m01 * other.m11 + self.m02 * other.m21 == 0
        &&& self.m00 * other.m02 + self.m01 * other.m12 + self.m02 * other.m22 == 0
        &&& self.m10 * other.m00 + self.m11 * other.m10 + self.m12 * other.m20 == 0
        &&& self.m10 * other.m01 + self.m11 * other.m11 + self.m12 * other.m21 == 1
        &&& self.m10 * other.m02 + self.m11 * other.m12 + self.m12 * other.m22 == 0
        &&& self.m20 * other.m00 + self.m21 * other.m10 + self.m22 * other.m20 == 0
        &&& self.m20 * other.m01 + self.m21 * other.m11 + self.m22 * other.m21 == 0
        &&& self.m20 * other.m02 + self.m21 * other.m12 + self.m22 * other.m22 == 1
    }
}

/// The product of two values bounded in magnitude is bounded by the product
/// of the bounds.
pub proof fn lemma_abs_mul_bound(a: int, b: int, ba: int, bb: int)
    requires
        -ba <= a <= ba,
        -bb <= b <= bb,
        0 <= ba,
        0 <= bb,
    ensures
        -(ba * bb) <= a * b <= ba * bb,
{
    assert(-(ba * bb) <= a * b <= ba * bb) by (nonlinear_arith)
        requires
            -ba <= a <= ba,
            -bb <= b <= bb,
            0 <= ba,
            0 <= bb,
    ;
}

/// One row of a bounded matrix applied to a column whose coordinates stay
/// within twice the frame bound; the sum of the three products fits in `i64`.
pub fn apply_row(m0: i64, m1: i64, m2: i64, x: i64, y: i64, z: i64) -> (r: i64)
    requires
        -FRAME_BOUND <= m0 <= FRAME_BOUND,
        -FRAME_BOUND <= m1 <= FRAME_BOUND,
        -FRAME_BOUND <= m2 <= FRAME_BOUND,
        -2 * FRAME_BOUND <= x <= 2 * FRAME_BOUND,
        -2 * FRAME_BOUND <= y <= 2 * FRAME_BOUND,
        -2 * FRAME_BOUND <= z <= 2 * FRAME_BOUND,
    ensures
        r == m0 * x + m1 * y + m2 * z,
{
    proof {
        lemma_abs_mul_bound(m0 as int, x as int, FRAME_BOUND as int, 2 * FRAME_BOUND as int);
        lemma_abs_mul_bound(m1 as int, y as int, FRAME_BOUND as int, 2 * FRAME_BOUND as int);
        lemma_abs_mul_bound(m2 as int, z as int, FRAME_BOUND as int, 2 * FRAME_BOUND as int);
    }
    m0 * x + m1 * y + m2 * z
}

/// Scaling one row application: `a * (p x + q y + s z) == (a p) x + (a q) y + (a s) z`.
proof fn lemma_row_scale(a: int, p: int, q: int, s: int, x: int, y: int, z: int)
    ensures
        a * (p * x + q * y + s * z) == a * p * x + a * q * y + a * s * z,
{
    vstd::arithmetic::mul::lemma_mul_is_distributive_add(a, p * x + q * y, s * z);
    vstd::arithmetic::mul::lemma_mul_is_distributive_add(a, p * x, q * y);
    vstd::arithmetic::mul::lemma_mul_is_associative(a, p, x);
    vstd::arithmetic::mul::lemma_mul_is_associative(a, q, y);
    vstd::arithmetic::mul::lemma_mul_is_associative(a, s, z);
}

/// Collecting a common factor: when `a + b + c == s`, `a x + b x + c x == s x`.
proof fn lemma_collect(a: int, b: int, c: int, x: int, s: int)
    requires
        a + b + c == s,
    ensures
        a * x + b * x + c * x == s * x,
{
    vstd::arithmetic::mul::lemma_mul_is_distributive_add_other_way(x, a + b, c);
    vstd::arithmetic::mul::lemma_mul_is_distributive_add_other_way(x, a, b);
}

/// Applying a left inverse after the matrix itself gives back the original
/// column: for every column `(x, y, z)`, `inv * (m * (x, y, z)) == (x, y, z)`.
pub proof fn lemma_inverse_cancels(inv: Matrix3, m: Matrix3, x: int, y: int, z: int)
    requires
        inv.is_inverse_of(m),
    ensures
        inv.row_x(m.row_x(x, y, z), m.row_y(x, y, z), m.row_z(x, y, z)) == x,
        inv.row_y(m.row_x(x, y, z), m.row_y(x, y, z), m.row_z(x, y, z)) == y,
        inv.row_z(m.row_x(x, y, z), m.row_y(x, y, z), m.row_z(x, y, z)) == z,
{
    let rx = m.row_x(x, y, z);
    let ry = m.row_y(x, y, z);
    let rz = m.row_z(x, y, z);
    let i00 = inv.m00 as int;
    let i01 = inv.m01 as int;
    let i02 = inv.m02 as int;
    let i10 = inv.m10 as int;
    let i11 = inv.m11 as int;
    let i12 = inv.m12 as int;
    let i20 = inv.m20 as int;
    let i21 = inv.m21 as int;
    let i22 = inv.m22 as int;
    let a00 = m.m00 as int;
    let a01 = m.m01 as int;
    let a02 = m.m02 as int;
    let a10 = m.m10 as int;
    let a11 = m.m11 as int;
    let a12 = m.m12 as int;
    let a20 = m.m20 as int;
    let a21 = m.m21 as int;
    let a22 = m.m22 as int;
    assert(i00 * rx + i01 * ry + i02 * rz == x) by {
        lemma_row_scale(i00, a00, a01, a02, x, y, z);
        lemma_row_scale(i01, a10, a11, a12, x, y, z);
        lemma_row_scale(i02, a20, a21, a22, x, y, z);
        lemma_collect(i00 * a00, i01 * a10, i02 * a20, x, 1);
        lemma_collect(i00 * a01, i01 * a11, i02 * a21, y, 0);
        lemma_collect(i00 * a02, i01 * a12, i02 * a22, z, 0);
    };
    assert(i10 * rx + i11 * ry + i12 * rz == y) by {
        lemma_row_scale(i10, a00, a01, a02, x, y, z);
        lemma_row_scale(i11, a10, a11, a12, x, y, z);
        lemma_row_scale(i12, a20, a21, a22, x, y, z);
        lemma_collect(i10 * a00, i11 * a10, i12 * a20, x, 0);
        lemma_collect(i10 * a01, i11 * a11, i12 * a21, y, 1);
        lemma_collect(i10 * a02, i11 * a12, i12 * a22, z, 0);
    };
    assert(i20 * rx + i21 * ry + i22 * rz == z) by {
        lemma_row_scale(i20, a00, a01, a02, x, y, z);
        lemma_row_scale(i21, a10, a11, a12, x, y, z);
        lemma_row_scale(i22, a20, a21, a22, x, y, z);
        lemma_collect(i20 * a00, i21 * a10, i22 * a20, x, 0);
        lemma_collect(i20 * a01, i21 * a11, i22 * a21, y, 0);
        lemma_collect(i20 * a02, i21 * a12, i22 * a22, z, 1);
    };
}

} // verus!
