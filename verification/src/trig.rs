//! Fixed-point rotations about the six axis directions.
//!
//! Angles are measured in centidegrees (hundredths of a degree), so a
//! quarter turn is 9000.  Sine and cosine are computed in hundredths with a
//! rational approximation that is exact at every multiple of a quarter turn;
//! at those angles the whole rotation collapses to an exact signed
//! permutation of coordinates (`qrot_pos` / `qmat_pos`), which is what the
//! cube invariants build on.

use vstd::prelude::*;
use vstd::arithmetic::div_mod::lemma_fundamental_div_mod_converse;
use vstd::arithmetic::div_mod::lemma_div_is_ordered;
use vstd::arithmetic::div_mod::lemma_mod_pos_bound;
use crate::direction::{composed_spec, dir_from_vec, dir_vec, Direction};
use crate::geometry::{
    dot_spec, in_range_m, in_range_v, lattice_pt, mat_mul_spec, mat_vec_spec, nonzero_count,
    rdiv100_spec, unit_axis, Mat3, Vec3, M3, V3,
};
use crate::geometry::lemma_rdiv100_exact;

verus! {

// ---------------------------------------------------------------------------
// Angle normalization
// ---------------------------------------------------------------------------

/// Brings an angle in centidegrees into `[0, 36000)`.
pub open spec fn norm_angle_spec(cd: int) -> int {
    if cd >= 0 {
        cd % 36000
    } else {
        let p = (-cd) % 36000;
        if p == 0 {
            0
        } else {
            36000 - p
        }
    }
}

pub proof fn lemma_norm_angle_range(cd: int)
    ensures
        0 <= norm_angle_spec(cd) < 36000,
{
    if cd >= 0 {
        lemma_mod_pos_bound(cd, 36000);
    } else {
        lemma_mod_pos_bound(-cd, 36000);
    }
}

/// Normalizes an angle in centidegrees into `[0, 36000)`.
pub fn norm_angle(cd: i64) -> (r: i64)
    requires
        -4_000_000_000 <= cd <= 4_000_000_000,
    ensures
        r == norm_angle_spec(cd as int),
        0 <= r < 36000,
{
    proof {
        lemma_norm_angle_range(cd as int);
    }
    if cd >= 0 {
        cd % 36000
    } else {
        let p = (-cd) % 36000;
        if p == 0 {
            0
        } else {
            36000 - p
        }
    }
}

// ---------------------------------------------------------------------------
// Sine and cosine in hundredths
// ---------------------------------------------------------------------------

/// Sine of `a` centidegrees for `a` in `[0, 18000]`, in hundredths, by the
/// classical rational approximation `4 d (180 - d) / (40500 - d (180 - d))`
/// (degrees), rounded to the nearest hundredth.  It is exact at 0, 9000 and
/// 18000.
pub open spec fn half_wave_spec(a: int) -> int {
    let g = a * (18000 - a);
    let den = 405000000 - g;
    (400 * g + den / 2) / den
}

/// Sine of `a` centidegrees for `a` in `[0, 36000)`, in hundredths.
pub open spec fn sin_cents_spec(a: int) -> int {
    if a <= 18000 {
        half_wave_spec(a)
    } else {
        -half_wave_spec(a - 18000)
    }
}

/// Cosine of `a` centidegrees for `a` in `[0, 36000)`, in hundredths.
pub open spec fn cos_cents_spec(a: int) -> int {
    sin_cents_spec(norm_angle_spec(a + 9000))
}

/// The half wave stays within `[0, 100]`.
pub proof fn lemma_half_wave_bounds(a: int)
    requires
        0 <= a <= 18000,
    ensures
        0 <= half_wave_spec(a) <= 100,
{
    let g = a * (18000 - a);
    let den = 405000000 - g;
    assert(0 <= a * (18000 - a) <= 81000000) by (nonlinear_arith)
        requires
            0 <= a <= 18000,
    ;
    assert(den >= 324000000);
    assert(400 * g + den / 2 >= 0);
    lemma_fundamental_div_mod_converse(0, den, 0, 0);
    lemma_div_is_ordered(0, 400 * g + den / 2, den);
    assert(400 * g <= 100 * den);
    lemma_fundamental_div_mod_converse(100 * den + den / 2, den, 100, den / 2);
    lemma_div_is_ordered(400 * g + den / 2, 100 * den + den / 2, den);
}

/// Sine and cosine stay within `[-100, 100]`.
pub proof fn lemma_sin_cos_bounds(a: int)
    requires
        0 <= a < 36000,
    ensures
        -100 <= sin_cents_spec(a) <= 100,
        -100 <= cos_cents_spec(a) <= 100,
{
    if a <= 18000 {
        lemma_half_wave_bounds(a);
    } else {
        lemma_half_wave_bounds(a - 18000);
    }
    lemma_norm_angle_range(a + 9000);
    let b = norm_angle_spec(a + 9000);
    if b <= 18000 {
        lemma_half_wave_bounds(b);
    } else {
        lemma_half_wave_bounds(b - 18000);
    }
}

/// The fixed-point sine and cosine are exact at the four quarter-turn
/// angles.
pub proof fn lemma_trig_quarters()
    ensures
        sin_cents_spec(0) == 0,
        sin_cents_spec(9000) == 100,
        sin_cents_spec(18000) == 0,
        sin_cents_spec(27000) == -100,
        cos_cents_spec(0) == 100,
        cos_cents_spec(9000) == 0,
        cos_cents_spec(18000) == -100,
        cos_cents_spec(27000) == 0,
{
    lemma_fundamental_div_mod_converse(202500000, 405000000, 0, 202500000);
    lemma_fundamental_div_mod_converse(32562000000, 324000000, 100, 162000000);
    assert(half_wave_spec(0) == 0);
    assert(half_wave_spec(9000) == 100);
    assert(half_wave_spec(18000) == 0);
    lemma_fundamental_div_mod_converse(9000, 36000, 0, 9000);
    lemma_fundamental_div_mod_converse(18000, 36000, 0, 18000);
    lemma_fundamental_div_mod_converse(27000, 36000, 0, 27000);
    lemma_fundamental_div_mod_converse(36000, 36000, 1, 0);
    assert(norm_angle_spec(9000) == 9000);
    assert(norm_angle_spec(18000) == 18000);
    assert(norm_angle_spec(27000) == 27000);
    assert(norm_angle_spec(36000) == 0);
}

/// Sine in hundredths of an angle in `[0, 36000)` centidegrees.
pub fn sin_cents(a: i64) -> (r: i64)
    requires
        0 <= a < 36000,
    ensures
        r == sin_cents_spec(a as int),
        -100 <= r <= 100,
{
    proof {
        lemma_sin_cos_bounds(a as int);
    }
    if a <= 18000 {
        proof {
            assert(0 <= (a as int) * (18000 - a as int) <= 81000000) by (nonlinear_arith)
                requires
                    0 <= a as int <= 18000,
            ;
        }
        let g = a * (18000 - a);
        let den = 405000000 - g;
        (400 * g + den / 2) / den
    } else {
        let b = a - 18000;
        proof {
            assert(0 <= (b as int) * (18000 - b as int) <= 81000000) by (nonlinear_arith)
                requires
                    0 <= b as int <= 18000,
            ;
        }
        let g = b * (18000 - b);
        let den = 405000000 - g;
        -((400 * g + den / 2) / den)
    }
}

/// Cosine in hundredths of an angle in `[0, 36000)` centidegrees.
pub fn cos_cents(a: i64) -> (r: i64)
    requires
        0 <= a < 36000,
    ensures
        r == cos_cents_spec(a as int),
        -100 <= r <= 100,
{
    let b = if a + 9000 >= 36000 {
        a + 9000 - 36000
    } else {
        a + 9000
    };
    proof {
        if a + 9000 >= 36000 {
            lemma_fundamental_div_mod_converse(a + 9000, 36000, 1, a + 9000 - 36000);
        } else {
            lemma_fundamental_div_mod_converse(a + 9000, 36000, 0, a + 9000);
        }
        assert(b == norm_angle_spec(a + 9000));
    }
    sin_cents(b)
}

// ---------------------------------------------------------------------------
// Rotation matrices
// ---------------------------------------------------------------------------

/// Which coordinate axis a direction lies on: 0 for X, 1 for Y, 2 for Z.
pub open spec fn axis_slot(d: Direction) -> int {
    match d {
        Direction::Right | Direction::Left => 0,
        Direction::Up | Direction::Down => 1,
        Direction::Front | Direction::Back => 2,
    }
}

/// Whether the direction points along the positive axis.
pub open spec fn axis_positive(d: Direction) -> bool {
    match d {
        Direction::Right | Direction::Up | Direction::Front => true,
        _ => false,
    }
}

/// The right-hand-rule rotation matrix about the positive axis `slot`, with
/// cosine `c` and sine `s` in hundredths.
pub open spec fn axis_mat(slot: int, c: int, s: int) -> M3 {
    if slot == 0 {
        M3 {
            r0: V3 { x: 100, y: 0, z: 0 },
            r1: V3 { x: 0, y: c, z: -s },
            r2: V3 { x: 0, y: s, z: c },
        }
    } else if slot == 1 {
        M3 {
            r0: V3 { x: c, y: 0, z: s },
            r1: V3 { x: 0, y: 100, z: 0 },
            r2: V3 { x: -s, y: 0, z: c },
        }
    } else {
        M3 {
            r0: V3 { x: c, y: -s, z: 0 },
            r1: V3 { x: s, y: c, z: 0 },
            r2: V3 { x: 0, y: 0, z: 100 },
        }
    }
}

/// The rotation angle about the positive axis that is equivalent to turning
/// by `cd` centidegrees about `d`, normalized into `[0, 36000)`.
pub open spec fn eff_angle(d: Direction, cd: int) -> int {
    norm_angle_spec(if axis_positive(d) { cd } else { -cd })
}

/// The rotation matrix for turning by `cd` centidegrees about `d`
/// (right-hand rule about `d`'s unit vector).
pub open spec fn rot_mat_spec(d: Direction, cd: int) -> M3 {
    let a = eff_angle(d, cd);
    axis_mat(axis_slot(d), cos_cents_spec(a), sin_cents_spec(a))
}

/// Builds the rotation matrix for turning by `cd` centidegrees about `d`.
pub fn rot_mat(d: Direction, cd: i64) -> (r: Mat3)
    requires
        -4_000_000_000 <= cd <= 4_000_000_000,
    ensures
        r@ == rot_mat_spec(d, cd as int),
        in_range_m(r@, 100),
{
    let e = if matches!(d, Direction::Right | Direction::Up | Direction::Front) {
        cd
    } else {
        -cd
    };
    let a = norm_angle(e);
    let c = cos_cents(a);
    let s = sin_cents(a);
    match d {
        Direction::Right | Direction::Left => Mat3 {
            r0: Vec3 { x: 100, y: 0, z: 0 },
            r1: Vec3 { x: 0, y: c, z: -s },
            r2: Vec3 { x: 0, y: s, z: c },
        },
        Direction::Up | Direction::Down => Mat3 {
            r0: Vec3 { x: c, y: 0, z: s },
            r1: Vec3 { x: 0, y: 100, z: 0 },
            r2: Vec3 { x: -s, y: 0, z: c },
        },
        Direction::Front | Direction::Back => Mat3 {
            r0: Vec3 { x: c, y: -s, z: 0 },
            r1: Vec3 { x: s, y: c, z: 0 },
            r2: Vec3 { x: 0, y: 0, z: 100 },
        },
    }
}

// ---------------------------------------------------------------------------
// Exact quarter turns
// ---------------------------------------------------------------------------

/// Cosine of `k` quarter turns, in hundredths.
pub open spec fn quarter_cos(k: int) -> int {
    if k == 0 {
        100
    } else if k == 1 {
        0
    } else if k == 2 {
        -100
    } else {
        0
    }
}

/// Sine of `k` quarter turns, in hundredths.
pub open spec fn quarter_sin(k: int) -> int {
    if k == 0 {
        0
    } else if k == 1 {
        100
    } else if k == 2 {
        0
    } else {
        -100
    }
}

/// `v` turned by `k` quarter turns (right-hand rule) about the positive axis
/// `slot`: an exact signed permutation of the coordinates.
pub open spec fn qrot_pos(v: V3, slot: int, k: int) -> V3 {
    if k == 0 {
        v
    } else if slot == 0 {
        if k == 1 {
            V3 { x: v.x, y: -v.z, z: v.y }
        } else if k == 2 {
            V3 { x: v.x, y: -v.y, z: -v.z }
        } else {
            V3 { x: v.x, y: v.z, z: -v.y }
        }
    } else if slot == 1 {
        if k == 1 {
            V3 { x: v.z, y: v.y, z: -v.x }
        } else if k == 2 {
            V3 { x: -v.x, y: v.y, z: -v.z }
        } else {
            V3 { x: -v.z, y: v.y, z: v.x }
        }
    } else {
        if k == 1 {
            V3 { x: -v.y, y: v.x, z: v.z }
        } else if k == 2 {
            V3 { x: -v.x, y: -v.y, z: v.z }
        } else {
            V3 { x: v.y, y: -v.x, z: v.z }
        }
    }
}

/// `m` with its rows permuted and negated the way `qrot_pos` permutes
/// coordinates: the exact value of a quarter-turn matrix times `m`.
pub open spec fn qmat_pos(m: M3, slot: int, k: int) -> M3 {
    if k == 0 {
        m
    } else if slot == 0 {
        if k == 1 {
            M3 { r0: m.r0, r1: neg_row(m.r2), r2: m.r1 }
        } else if k == 2 {
            M3 { r0: m.r0, r1: neg_row(m.r1), r2: neg_row(m.r2) }
        } else {
            M3 { r0: m.r0, r1: m.r2, r2: neg_row(m.r1) }
        }
    } else if slot == 1 {
        if k == 1 {
            M3 { r0: m.r2, r1: m.r1, r2: neg_row(m.r0) }
        } else if k == 2 {
            M3 { r0: neg_row(m.r0), r1: m.r1, r2: neg_row(m.r2) }
        } else {
            M3 { r0: neg_row(m.r2), r1: m.r1, r2: m.r0 }
        }
    } else {
        if k == 1 {
            M3 { r0: neg_row(m.r1), r1: m.r0, r2: m.r2 }
        } else if k == 2 {
            M3 { r0: neg_row(m.r0), r1: neg_row(m.r1), r2: m.r2 }
        } else {
            M3 { r0: m.r1, r1: neg_row(m.r0), r2: m.r2 }
        }
    }
}

pub open spec fn neg_row(v: V3) -> V3 {
    V3 { x: -v.x, y: -v.y, z: -v.z }
}

/// Helper: `rdiv100` is exact on `100 t`, `-100 t` and `0`.
proof fn lemma_rdiv100_units(t: int)
    ensures
        rdiv100_spec(100 * t) == t,
        rdiv100_spec(-100 * t) == -t,
        rdiv100_spec(0) == 0,
{
    lemma_rdiv100_exact(t);
    lemma_rdiv100_exact(-t);
    lemma_rdiv100_exact(0);
}

/// Helper: a product with a factor known to be 0, 100 or -100 is linear.
proof fn lemma_scale(c: int, t: int)
    ensures
        c == 0 ==> c * t == 0,
        c == 100 ==> c * t == 100 * t,
        c == -100 ==> c * t == -100 * t,
{
    assert(c == 0 ==> c * t == 0) by (nonlinear_arith);
    assert(c == 100 ==> c * t == 100 * t) by (nonlinear_arith);
    assert(c == -100 ==> c * t == -100 * t) by (nonlinear_arith);
}

/// The rounded dot product of a unit axis row with any vector picks one
/// component, with the row's sign.
proof fn lemma_unit_row_dot(r: V3, v: V3)
    requires
        unit_axis(r),
    ensures
        r.x == 100 ==> rdiv100_spec(dot_spec(r, v)) == v.x,
        r.x == -100 ==> rdiv100_spec(dot_spec(r, v)) == -v.x,
        r.y == 100 ==> rdiv100_spec(dot_spec(r, v)) == v.y,
        r.y == -100 ==> rdiv100_spec(dot_spec(r, v)) == -v.y,
        r.z == 100 ==> rdiv100_spec(dot_spec(r, v)) == v.z,
        r.z == -100 ==> rdiv100_spec(dot_spec(r, v)) == -v.z,
{
    lemma_scale(r.x, v.x);
    lemma_scale(r.y, v.y);
    lemma_scale(r.z, v.z);
    lemma_rdiv100_units(v.x);
    lemma_rdiv100_units(v.y);
    lemma_rdiv100_units(v.z);
}

/// The rows of every quarter-turn matrix are unit axis rows.
proof fn lemma_quarter_mat_rows(slot: int, k: int)
    requires
        0 <= slot < 3,
        0 <= k < 4,
    ensures
        unit_axis(axis_mat(slot, quarter_cos(k), quarter_sin(k)).r0),
        unit_axis(axis_mat(slot, quarter_cos(k), quarter_sin(k)).r1),
        unit_axis(axis_mat(slot, quarter_cos(k), quarter_sin(k)).r2),
{
}

/// Applying a quarter-turn matrix to a vector is the exact signed
/// permutation `qrot_pos`, for every integer vector.
pub proof fn lemma_quarter_mat_vec(v: V3, slot: int, k: int)
    requires
        0 <= slot < 3,
        0 <= k < 4,
    ensures
        mat_vec_spec(axis_mat(slot, quarter_cos(k), quarter_sin(k)), v) == qrot_pos(v, slot, k),
{
    let m = axis_mat(slot, quarter_cos(k), quarter_sin(k));
    lemma_quarter_mat_rows(slot, k);
    lemma_unit_row_dot(m.r0, v);
    lemma_unit_row_dot(m.r1, v);
    lemma_unit_row_dot(m.r2, v);
}

/// Multiplying by a quarter-turn matrix permutes and negates rows exactly,
/// for every integer matrix.
pub proof fn lemma_quarter_mat_mul(m: M3, slot: int, k: int)
    requires
        0 <= slot < 3,
        0 <= k < 4,
    ensures
        mat_mul_spec(axis_mat(slot, quarter_cos(k), quarter_sin(k)), m) == qmat_pos(m, slot, k),
{
    let q = axis_mat(slot, quarter_cos(k), quarter_sin(k));
    lemma_quarter_mat_rows(slot, k);
    lemma_unit_row_dot(q.r0, crate::geometry::col0_spec(m));
    lemma_unit_row_dot(q.r0, crate::geometry::col1_spec(m));
    lemma_unit_row_dot(q.r0, crate::geometry::col2_spec(m));
    lemma_unit_row_dot(q.r1, crate::geometry::col0_spec(m));
    lemma_unit_row_dot(q.r1, crate::geometry::col1_spec(m));
    lemma_unit_row_dot(q.r1, crate::geometry::col2_spec(m));
    lemma_unit_row_dot(q.r2, crate::geometry::col0_spec(m));
    lemma_unit_row_dot(q.r2, crate::geometry::col1_spec(m));
    lemma_unit_row_dot(q.r2, crate::geometry::col2_spec(m));
}

/// Quarter turns about one axis compose by adding their counts modulo 4.
pub proof fn lemma_qrot_compose(v: V3, slot: int, j: int, k: int)
    requires
        0 <= slot < 3,
        0 <= j < 4,
        0 <= k < 4,
    ensures
        qrot_pos(qrot_pos(v, slot, j), slot, k) == qrot_pos(v, slot, (j + k) % 4),
{
    if j + k < 4 {
        lemma_fundamental_div_mod_converse(j + k, 4, 0, j + k);
    } else {
        lemma_fundamental_div_mod_converse(j + k, 4, 1, j + k - 4);
    }
}

/// Row permutations compose the same way.
pub proof fn lemma_qmat_compose(m: M3, slot: int, j: int, k: int)
    requires
        0 <= slot < 3,
        0 <= j < 4,
        0 <= k < 4,
    ensures
        qmat_pos(qmat_pos(m, slot, j), slot, k) == qmat_pos(m, slot, (j + k) % 4),
{
    if j + k < 4 {
        lemma_fundamental_div_mod_converse(j + k, 4, 0, j + k);
    } else {
        lemma_fundamental_div_mod_converse(j + k, 4, 1, j + k - 4);
    }
}

/// A quarter turn leaves the coordinate on its own axis unchanged, and
/// preserves lattice points, unit axis vectors and the number of nonzero
/// components.
pub proof fn lemma_qrot_shape(v: V3, slot: int, k: int)
    requires
        0 <= slot < 3,
        0 <= k < 4,
    ensures
        slot == 0 ==> qrot_pos(v, slot, k).x == v.x,
        slot == 1 ==> qrot_pos(v, slot, k).y == v.y,
        slot == 2 ==> qrot_pos(v, slot, k).z == v.z,
        lattice_pt(v) ==> lattice_pt(qrot_pos(v, slot, k)),
        unit_axis(v) ==> unit_axis(qrot_pos(v, slot, k)),
        nonzero_count(qrot_pos(v, slot, k)) == nonzero_count(v),
{
}

// ---------------------------------------------------------------------------
// Quarter turns acting on directions
// ---------------------------------------------------------------------------

/// The direction that `d`'s unit vector is carried to by `k` quarter turns
/// about the positive axis `slot`.
pub open spec fn qdir(d: Direction, slot: int, k: int) -> Direction {
    match dir_from_vec(qrot_pos(dir_vec(d), slot, k)) {
        Some(e) => e,
        None => d,
    }
}

/// A quarter turn carries unit vectors of directions to unit vectors of
/// directions, and `qdir` names the image.
pub proof fn lemma_qdir_vec(d: Direction, slot: int, k: int)
    requires
        0 <= slot < 3,
        0 <= k < 4,
    ensures
        qrot_pos(dir_vec(d), slot, k) == dir_vec(qdir(d, slot, k)),
{
}

/// `qdir` composes like `qrot_pos`.
pub proof fn lemma_qdir_compose(d: Direction, slot: int, j: int, k: int)
    requires
        0 <= slot < 3,
        0 <= j < 4,
        0 <= k < 4,
    ensures
        qdir(qdir(d, slot, j), slot, k) == qdir(d, slot, (j + k) % 4),
{
    lemma_qrot_compose(dir_vec(d), slot, j, k);
    lemma_qdir_vec(d, slot, j);
    lemma_qdir_vec(qdir(d, slot, j), slot, k);
    lemma_qdir_vec(d, slot, (j + k) % 4);
    if j + k < 4 {
        lemma_fundamental_div_mod_converse(j + k, 4, 0, j + k);
    } else {
        lemma_fundamental_div_mod_converse(j + k, 4, 1, j + k - 4);
    }
}

/// Turning both the tested vector and the tested direction preserves the
/// membership test.
pub proof fn lemma_composed_qrot(v: V3, d: Direction, slot: int, k: int)
    requires
        0 <= slot < 3,
        0 <= k < 4,
    ensures
        composed_spec(qrot_pos(v, slot, k), qdir(d, slot, k)) == composed_spec(v, d),
{
    lemma_qdir_vec(d, slot, k);
}

/// A rotation about `d` leaves membership on `d`'s own layer unchanged:
/// `composed_spec(-, d)` only reads the coordinate on `d`'s axis.
pub proof fn lemma_composed_own_axis(v: V3, d: Direction, k: int)
    requires
        0 <= k < 4,
    ensures
        composed_spec(qrot_pos(v, axis_slot(d), k), d) == composed_spec(v, d),
{
}

/// The quarter count about the positive axis that a turn of `cd`
/// centidegrees about `d` amounts to.
pub open spec fn move_k(d: Direction, cd: int) -> int {
    eff_angle(d, cd) / 9000
}

/// The quarter count that undoes `k` quarter turns.
pub open spec fn inv_quarter(k: int) -> int {
    if k == 0 {
        0
    } else {
        4 - k
    }
}

/// For the three move angles, the rotation matrix is exactly the quarter
/// matrix of `move_k` quarter turns about the positive axis.
pub proof fn lemma_move_rot_mat(d: Direction, cd: int)
    requires
        cd == -9000 || cd == 9000 || cd == 18000,
    ensures
        0 <= move_k(d, cd) < 4,
        rot_mat_spec(d, cd) == axis_mat(axis_slot(d), quarter_cos(move_k(d, cd)), quarter_sin(
            move_k(d, cd),
        )),
{
    lemma_norm_quarter_values();
    lemma_trig_quarters();
    lemma_quarter_div_values();
}

/// Concrete normalizations of the three move angles and their negations.
proof fn lemma_norm_quarter_values()
    ensures
        norm_angle_spec(9000) == 9000,
        norm_angle_spec(-9000) == 27000,
        norm_angle_spec(18000) == 18000,
        norm_angle_spec(-18000) == 18000,
{
    lemma_fundamental_div_mod_converse(9000, 36000, 0, 9000);
    lemma_fundamental_div_mod_converse(18000, 36000, 0, 18000);
}

/// Concrete quarter counts of the four quarter angles.
proof fn lemma_quarter_div_values()
    ensures
        0int / 9000 == 0,
        9000int / 9000 == 1,
        18000int / 9000 == 2,
        27000int / 9000 == 3,
{
    lemma_fundamental_div_mod_converse(0, 9000, 0, 0);
    lemma_fundamental_div_mod_converse(9000, 9000, 1, 0);
    lemma_fundamental_div_mod_converse(18000, 9000, 2, 0);
    lemma_fundamental_div_mod_converse(27000, 9000, 3, 0);
}

/// A quarter turn and its opposite angle undo each other's quarter counts.
pub proof fn lemma_move_k_opposites(d: Direction)
    ensures
        move_k(d, -9000) + move_k(d, 9000) == 4,
        move_k(d, 9000) == (if axis_positive(d) { 1int } else { 3int }),
        move_k(d, -9000) == (if axis_positive(d) { 3int } else { 1int }),
        move_k(d, 18000) == 2,
{
    lemma_norm_quarter_values();
    lemma_quarter_div_values();
}

/// Turning about a direction's own axis leaves that direction's unit vector
/// in place.
pub proof fn lemma_qrot_own_axis_fixed(d: Direction, k: int)
    requires
        0 <= k < 4,
    ensures
        qrot_pos(dir_vec(d), axis_slot(d), k) == dir_vec(d),
{
}

/// Quarter turns are injective.
pub proof fn lemma_qrot_injective(u: V3, v: V3, slot: int, k: int)
    requires
        0 <= slot < 3,
        0 <= k < 4,
        qrot_pos(u, slot, k) == qrot_pos(v, slot, k),
    ensures
        u == v,
{
}

/// Turning a direction by zero quarters leaves it unchanged.
pub proof fn lemma_qdir_identity(d: Direction, slot: int)
    ensures
        qdir(d, slot, 0) == d,
{
}

/// `qdir` is injective.
pub proof fn lemma_qdir_injective(a: Direction, b: Direction, slot: int, k: int)
    requires
        0 <= slot < 3,
        0 <= k < 4,
        qdir(a, slot, k) == qdir(b, slot, k),
    ensures
        a == b,
{
    lemma_qdir_vec(a, slot, k);
    lemma_qdir_vec(b, slot, k);
    lemma_qrot_injective(dir_vec(a), dir_vec(b), slot, k);
}

/// Exact fixed-point sine and cosine at nine tenths of each move angle:
/// 81, 279, 162 and 198 degrees (in centidegrees), plus the normalizations
/// of the signed partial angles.
pub proof fn lemma_partial_trig_values()
    ensures
        sin_cents_spec(8100) == 99,
        cos_cents_spec(8100) == 16,
        sin_cents_spec(27900) == -99,
        cos_cents_spec(27900) == 16,
        sin_cents_spec(16200) == 31,
        cos_cents_spec(16200) == -95,
        sin_cents_spec(19800) == -31,
        cos_cents_spec(19800) == -95,
        norm_angle_spec(8100) == 8100,
        norm_angle_spec(-8100) == 27900,
        norm_angle_spec(16200) == 16200,
        norm_angle_spec(-16200) == 19800,
{
    lemma_fundamental_div_mod_converse(32238405000, 324810000, 99, 82215000);
    lemma_fundamental_div_mod_converse(6350805000, 389610000, 16, 117045000);
    lemma_fundamental_div_mod_converse(11851920000, 375840000, 31, 200880000);
    lemma_fundamental_div_mod_converse(31267620000, 327240000, 95, 179820000);
    assert(half_wave_spec(8100) == 99);
    assert(half_wave_spec(9900) == 99);
    assert(half_wave_spec(17100) == 16);
    assert(half_wave_spec(900) == 16);
    assert(half_wave_spec(16200) == 31);
    assert(half_wave_spec(1800) == 31);
    assert(half_wave_spec(7200) == 95);
    assert(half_wave_spec(10800) == 95);
    lemma_fundamental_div_mod_converse(8100, 36000, 0, 8100);
    lemma_fundamental_div_mod_converse(16200, 36000, 0, 16200);
    lemma_fundamental_div_mod_converse(17100, 36000, 0, 17100);
    lemma_fundamental_div_mod_converse(25200, 36000, 0, 25200);
    lemma_fundamental_div_mod_converse(28800, 36000, 0, 28800);
    lemma_fundamental_div_mod_converse(36900, 36000, 1, 900);
    assert(norm_angle_spec(17100) == 17100);
    assert(norm_angle_spec(36900) == 900);
    assert(norm_angle_spec(25200) == 25200);
    assert(norm_angle_spec(28800) == 28800);
}

} // verus!
