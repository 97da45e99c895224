//! Fixed-point vectors and matrices.
//!
//! A coordinate counts hundredths: the value 100 stands for 1.0.  Products of
//! two such quantities count ten-thousandths and are brought back to
//! hundredths by `rdiv100`, which rounds to the nearest hundredth (ties away
//! from zero, as rounding a floating-point product would).
//!
//! The executable types `Vec3` and `Mat3` carry `i64` components; their views
//! `V3` and `M3` carry unbounded integers, and every contract speaks about
//! the views.

use vstd::prelude::*;
use vstd::arithmetic::div_mod::lemma_fundamental_div_mod_converse;

verus! {

/// A 3D vector with fixed-point components (hundredths).
#[derive(Clone, Copy, PartialEq, Eq, Structural, Debug)]
pub struct Vec3 {
    pub x: i64,
    pub y: i64,
    pub z: i64,
}

/// A 2D grid coordinate (plain cell units, not hundredths).
#[derive(Clone, Copy, PartialEq, Eq, Structural, Debug)]
pub struct Vec2 {
    pub x: i64,
    pub y: i64,
}

/// A 3x3 matrix of fixed-point entries (hundredths), stored by rows.
#[derive(Clone, Copy, PartialEq, Eq, Structural, Debug)]
pub struct Mat3 {
    pub r0: Vec3,
    pub r1: Vec3,
    pub r2: Vec3,
}

/// The mathematical value of a `Vec3`: three unbounded integers, still in
/// hundredths.
pub ghost struct V3 {
    pub x: int,
    pub y: int,
    pub z: int,
}

/// The mathematical value of a `Mat3`.
pub ghost struct M3 {
    pub r0: V3,
    pub r1: V3,
    pub r2: V3,
}

impl View for Vec3 {
    type V = V3;

    open spec fn view(&self) -> V3 {
        V3 { x: self.x as int, y: self.y as int, z: self.z as int }
    }
}

impl View for Mat3 {
    type V = M3;

    open spec fn view(&self) -> M3 {
        M3 { r0: self.r0@, r1: self.r1@, r2: self.r2@ }
    }
}

/// Every component of `v` lies in `[-b, b]`.
pub open spec fn in_range_v(v: V3, b: int) -> bool {
    &&& -b <= v.x <= b
    &&& -b <= v.y <= b
    &&& -b <= v.z <= b
}

/// Every entry of `m` lies in `[-b, b]`.
pub open spec fn in_range_m(m: M3, b: int) -> bool {
    &&& in_range_v(m.r0, b)
    &&& in_range_v(m.r1, b)
    &&& in_range_v(m.r2, b)
}

/// Rounding division by 100: nearest integer, ties away from zero.
pub open spec fn rdiv100_spec(t: int) -> int {
    if t >= 0 {
        (t + 50) / 100
    } else {
        -(((-t) + 50) / 100)
    }
}

/// `rdiv100` is exact on multiples of 100.
pub proof fn lemma_rdiv100_exact(t: int)
    ensures
        rdiv100_spec(100 * t) == t,
{
    if t >= 0 {
        lemma_fundamental_div_mod_converse(100 * t + 50, 100, t, 50);
    } else {
        lemma_fundamental_div_mod_converse(-(100 * t) + 50, 100, -t, 50);
    }
}

/// Rounding division by 100 on fixed-point products.
pub fn rdiv100(t: i64) -> (r: i64)
    requires
        -100_000_000_000_000 <= t <= 100_000_000_000_000,
    ensures
        r == rdiv100_spec(t as int),
{
    if t >= 0 {
        (t + 50) / 100
    } else {
        -(((-t) + 50) / 100)
    }
}

/// Mathematical dot product of two fixed-point vectors (ten-thousandths).
pub open spec fn dot_spec(a: V3, b: V3) -> int {
    a.x * b.x + a.y * b.y + a.z * b.z
}

/// Dot product; the operands must be small enough that no product overflows.
pub fn dot(a: Vec3, b: Vec3) -> (r: i64)
    requires
        in_range_v(a@, 1_000_000),
        in_range_v(b@, 1_000_000),
    ensures
        r == dot_spec(a@, b@),
        -3_000_000_000_000 <= r <= 3_000_000_000_000,
{
    proof {
        lemma_mul_product_bound(a@.x, b@.x, 1_000_000);
        lemma_mul_product_bound(a@.y, b@.y, 1_000_000);
        lemma_mul_product_bound(a@.z, b@.z, 1_000_000);
    }
    a.x * b.x + a.y * b.y + a.z * b.z
}

/// Two factors bounded by `b` have a product bounded by `b * b`.
pub proof fn lemma_mul_product_bound(x: int, y: int, b: int)
    requires
        0 <= b,
        -b <= x <= b,
        -b <= y <= b,
    ensures
        -b * b <= x * y <= b * b,
{
    assert(-b * b <= x * y <= b * b) by (nonlinear_arith)
        requires
            0 <= b,
            -b <= x <= b,
            -b <= y <= b,
    ;
}

/// Factors bounded by `bx` and `by` have a product bounded by `bx * by`.
pub proof fn lemma_mul_bounds(x: int, y: int, bx: int, by: int)
    requires
        0 <= bx,
        0 <= by,
        -bx <= x <= bx,
        -by <= y <= by,
    ensures
        -bx * by <= x * y <= bx * by,
{
    assert(-bx * by <= x * y <= bx * by) by (nonlinear_arith)
        requires
            0 <= bx,
            0 <= by,
            -bx <= x <= bx,
            -by <= y <= by,
    ;
}

/// Matrix times vector with rounding back to hundredths.
pub open spec fn mat_vec_spec(m: M3, v: V3) -> V3 {
    V3 {
        x: rdiv100_spec(dot_spec(m.r0, v)),
        y: rdiv100_spec(dot_spec(m.r1, v)),
        z: rdiv100_spec(dot_spec(m.r2, v)),
    }
}

/// Applies `m` to `v` and rounds every component to the nearest hundredth.
pub fn mat_vec(m: Mat3, v: Vec3) -> (r: Vec3)
    requires
        in_range_m(m@, 1_000_000),
        in_range_v(v@, 1_000_000),
    ensures
        r@ == mat_vec_spec(m@, v@),
{
    Vec3 { x: rdiv100(dot(m.r0, v)), y: rdiv100(dot(m.r1, v)), z: rdiv100(dot(m.r2, v)) }
}

/// Column `j` of `m`, for the matrix product.
pub open spec fn col0_spec(m: M3) -> V3 {
    V3 { x: m.r0.x, y: m.r1.x, z: m.r2.x }
}

pub open spec fn col1_spec(m: M3) -> V3 {
    V3 { x: m.r0.y, y: m.r1.y, z: m.r2.y }
}

pub open spec fn col2_spec(m: M3) -> V3 {
    V3 { x: m.r0.z, y: m.r1.z, z: m.r2.z }
}

/// Matrix product with rounding back to hundredths.
pub open spec fn mat_mul_spec(a: M3, b: M3) -> M3 {
    M3 {
        r0: V3 {
            x: rdiv100_spec(dot_spec(a.r0, col0_spec(b))),
            y: rdiv100_spec(dot_spec(a.r0, col1_spec(b))),
            z: rdiv100_spec(dot_spec(a.r0, col2_spec(b))),
        },
        r1: V3 {
            x: rdiv100_spec(dot_spec(a.r1, col0_spec(b))),
            y: rdiv100_spec(dot_spec(a.r1, col1_spec(b))),
            z: rdiv100_spec(dot_spec(a.r1, col2_spec(b))),
        },
        r2: V3 {
            x: rdiv100_spec(dot_spec(a.r2, col0_spec(b))),
            y: rdiv100_spec(dot_spec(a.r2, col1_spec(b))),
            z: rdiv100_spec(dot_spec(a.r2, col2_spec(b))),
        },
    }
}

/// Composes two fixed-point matrices, rounding each entry.
pub fn mat_mul(a: Mat3, b: Mat3) -> (r: Mat3)
    requires
        in_range_m(a@, 1_000_000),
        in_range_m(b@, 1_000_000),
    ensures
        r@ == mat_mul_spec(a@, b@),
{
    let c0 = Vec3 { x: b.r0.x, y: b.r1.x, z: b.r2.x };
    let c1 = Vec3 { x: b.r0.y, y: b.r1.y, z: b.r2.y };
    let c2 = Vec3 { x: b.r0.z, y: b.r1.z, z: b.r2.z };
    Mat3 {
        r0: Vec3 { x: rdiv100(dot(a.r0, c0)), y: rdiv100(dot(a.r0, c1)), z: rdiv100(dot(a.r0, c2)) },
        r1: Vec3 { x: rdiv100(dot(a.r1, c0)), y: rdiv100(dot(a.r1, c1)), z: rdiv100(dot(a.r1, c2)) },
        r2: Vec3 { x: rdiv100(dot(a.r2, c0)), y: rdiv100(dot(a.r2, c1)), z: rdiv100(dot(a.r2, c2)) },
    }
}

/// The identity transform: ones on the diagonal, in hundredths.
pub open spec fn identity_mat_spec() -> M3 {
    M3 {
        r0: V3 { x: 100, y: 0, z: 0 },
        r1: V3 { x: 0, y: 100, z: 0 },
        r2: V3 { x: 0, y: 0, z: 100 },
    }
}

/// Builds the identity transform.
pub fn identity_mat() -> (r: Mat3)
    ensures
        r@ == identity_mat_spec(),
{
    Mat3 {
        r0: Vec3 { x: 100, y: 0, z: 0 },
        r1: Vec3 { x: 0, y: 100, z: 0 },
        r2: Vec3 { x: 0, y: 0, z: 100 },
    }
}

/// `v` is a lattice point of the 3x3x3 cube: each component is -1, 0 or 1
/// in fixed-point units.
pub open spec fn lattice_pt(v: V3) -> bool {
    &&& (v.x == -100 || v.x == 0 || v.x == 100)
    &&& (v.y == -100 || v.y == 0 || v.y == 100)
    &&& (v.z == -100 || v.z == 0 || v.z == 100)
}

/// `v` is a unit vector along one axis: exactly one component is nonzero and
/// that component is -1 or 1 in fixed-point units.
pub open spec fn unit_axis(v: V3) -> bool {
    ||| (v.x == -100 || v.x == 100) && v.y == 0 && v.z == 0
    ||| v.x == 0 && (v.y == -100 || v.y == 100) && v.z == 0
    ||| v.x == 0 && v.y == 0 && (v.z == -100 || v.z == 100)
}

/// How many components of `v` are nonzero.
pub open spec fn nonzero_count(v: V3) -> int {
    (if v.x == 0 { 0int } else { 1int }) + (if v.y == 0 { 0int } else { 1int })
        + (if v.z == 0 { 0int } else { 1int })
}

/// A product whose right factor is known to be 0, 100 or -100 is linear.
pub proof fn lemma_scale_right(t: int, c: int)
    ensures
        c == 0 ==> t * c == 0,
        c == 100 ==> t * c == 100 * t,
        c == -100 ==> t * c == -100 * t,
{
    assert(c == 0 ==> t * c == 0) by (nonlinear_arith);
    assert(c == 100 ==> t * c == 100 * t) by (nonlinear_arith);
    assert(c == -100 ==> t * c == -100 * t) by (nonlinear_arith);
}

/// `100 * rdiv100(t)` stays within half a unit of `t`: rounding moves a
/// value by at most 50 ten-thousandths.
pub proof fn lemma_rdiv100_approx(t: int)
    ensures
        -50 <= 100 * rdiv100_spec(t) - t <= 50,
{
    if t >= 0 {
        vstd::arithmetic::div_mod::lemma_fundamental_div_mod(t + 50, 100);
        vstd::arithmetic::div_mod::lemma_mod_pos_bound(t + 50, 100);
    } else {
        vstd::arithmetic::div_mod::lemma_fundamental_div_mod((-t) + 50, 100);
        vstd::arithmetic::div_mod::lemma_mod_pos_bound((-t) + 50, 100);
    }
}

/// Rounded dot products against two nearby rows stay close: if the rows
/// differ by at most `bx`/`by`/`bz` per entry, with `bx + by + bz <= 40`,
/// and the vector is within one unit, the rounded results differ by at most
/// 45.
pub proof fn lemma_row_dot_close(r1: V3, r2: V3, v: V3, bx: int, by: int, bz: int)
    requires
        0 <= bx,
        0 <= by,
        0 <= bz,
        bx + by + bz <= 40,
        -bx <= r1.x - r2.x <= bx,
        -by <= r1.y - r2.y <= by,
        -bz <= r1.z - r2.z <= bz,
        in_range_v(v, 100),
    ensures
        -45 <= rdiv100_spec(dot_spec(r1, v)) - rdiv100_spec(dot_spec(r2, v)) <= 45,
{
    assert((r1.x - r2.x) * v.x == r1.x * v.x - r2.x * v.x) by (nonlinear_arith);
    assert((r1.y - r2.y) * v.y == r1.y * v.y - r2.y * v.y) by (nonlinear_arith);
    assert((r1.z - r2.z) * v.z == r1.z * v.z - r2.z * v.z) by (nonlinear_arith);
    lemma_mul_bounds(r1.x - r2.x, v.x, bx, 100);
    lemma_mul_bounds(r1.y - r2.y, v.y, by, 100);
    lemma_mul_bounds(r1.z - r2.z, v.z, bz, 100);
    lemma_rdiv100_approx(dot_spec(r1, v));
    lemma_rdiv100_approx(dot_spec(r2, v));
}

} // verus!
