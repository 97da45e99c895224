//! The cube itself: faces (stickers), the 27 pieces, move application and
//! the unwrapped color layout.

use vstd::prelude::*;
use crate::moves::{decode_spec, CubeMove};
use crate::direction::{
    color_of, composed_spec, dir_from_vec, dir_vec, direction_to_color, vector_is_composed_with_direction,
    Direction, StickerColor,
};
use crate::geometry::{
    identity_mat, identity_mat_spec, in_range_m, in_range_v, lattice_pt, mat_mul, mat_mul_spec,
    mat_vec, mat_vec_spec, nonzero_count, Mat3, Vec2, Vec3, V3,
};
use crate::trig::{
    axis_slot, inv_quarter, lemma_composed_own_axis, lemma_composed_qrot, lemma_move_rot_mat,
    lemma_qdir_compose, lemma_qdir_identity, lemma_qdir_injective, lemma_qdir_vec,
    lemma_qmat_compose, lemma_qrot_compose, lemma_qrot_injective, lemma_qrot_shape,
    lemma_quarter_mat_mul, lemma_quarter_mat_vec, move_k, qdir, qmat_pos, qrot_pos, rot_mat,
    rot_mat_spec,
};
use crate::uvmap::UvMap;

verus! {

// ---------------------------------------------------------------------------
// Face: one sticker
// ---------------------------------------------------------------------------

/// One colored sticker.  It belongs to exactly one piece; the color is fixed
/// at creation from the side the face then occupies, while the side, the
/// position (the face's outward normal) and the accumulated rotation change
/// as the piece turns.
#[derive(Clone, Copy, PartialEq, Eq, Structural, Debug)]
pub struct Face {
    pub initial_side_direction: Direction,
    pub side: Direction,
    pub position: Vec3,
    pub rotation: Mat3,
    pub color: StickerColor,
}

/// A freshly created face on side `d`: color from `d`, both sides `d`, the
/// normal at `d`'s unit vector, identity rotation.
pub open spec fn is_new_face(f: Face, d: Direction) -> bool {
    &&& f.initial_side_direction == d
    &&& f.side == d
    &&& f.position@ == dir_vec(d)
    &&& f.rotation@ == identity_mat_spec()
    &&& f.color == color_of(d)
}

/// How one rotation step transforms a face: the normal is rotated and
/// rounded, the rotation accumulates, and the side is re-derived from the
/// new normal — or kept when the normal is not axis-aligned.
pub open spec fn face_rotated(f0: Face, f1: Face, axis: Direction, cd: int) -> bool {
    let np = mat_vec_spec(rot_mat_spec(axis, cd), f0.position@);
    &&& f1.position@ == np
    &&& f1.rotation@ == mat_mul_spec(rot_mat_spec(axis, cd), f0.rotation@)
    &&& f1.side == (match dir_from_vec(np) {
        Some(d) => d,
        None => f0.side,
    })
    &&& f1.initial_side_direction == f0.initial_side_direction
    &&& f1.color == f0.color
}

/// The face's mutable geometry lies within `[-b, b]`.
pub open spec fn face_bounded(f: Face, b: int) -> bool {
    &&& in_range_v(f.position@, b)
    &&& in_range_m(f.rotation@, b)
}

impl Face {
    /// A face seeded on side `initial_side_direction`.
    pub fn new(initial_side_direction: Direction) -> (f: Face)
        ensures
            is_new_face(f, initial_side_direction),
    {
        let color = direction_to_color(&initial_side_direction);
        Face {
            initial_side_direction,
            side: initial_side_direction,
            color,
            position: initial_side_direction.vector(),
            rotation: identity_mat(),
        }
    }

    /// Turns the face `theta_centidegrees` about `rotation_axis` (right-hand
    /// rule): rotates and rounds the normal, accumulates the rotation, and
    /// re-derives the side, keeping the old side when the new normal is not
    /// axis-aligned.
    pub fn rotate(&mut self, rotation_axis: Direction, theta_centidegrees: i64)
        requires
            face_bounded(*old(self), 10_000),
            -4_000_000_000 <= theta_centidegrees <= 4_000_000_000,
        ensures
            face_rotated(*old(self), *final(self), rotation_axis, theta_centidegrees as int),
    {
        let rotation = rot_mat(rotation_axis, theta_centidegrees);
        let new_position = mat_vec(rotation, self.position);
        self.position = new_position;
        self.rotation = mat_mul(rotation, self.rotation);
        if let Some(rotated_face_direction) = Direction::from_vector(new_position) {
            self.side = rotated_face_direction;
        }
    }
}

// ---------------------------------------------------------------------------
// CubePiece: one of the 27 sub-cubes
// ---------------------------------------------------------------------------

/// One sub-cube.  It owns 0 to 3 faces, fixed at creation; its position and
/// accumulated rotation change as the cube turns.
#[derive(Clone, Debug)]
pub struct CubePiece {
    pub faces: Vec<Face>,
    pub position: Vec3,
    pub rotation: Mat3,
}

/// Some face in `faces` currently lies on side `d`.
pub open spec fn has_side(faces: Seq<Face>, d: Direction) -> bool {
    exists|j: int| 0 <= j < faces.len() && (#[trigger] faces[j]).side == d
}

/// Two pieces hold exactly the same state.
pub open spec fn piece_eq(p0: CubePiece, p1: CubePiece) -> bool {
    &&& p1.position == p0.position
    &&& p1.rotation == p0.rotation
    &&& p1.faces@ == p0.faces@
}

/// How one rotation step transforms a piece: its own position and rotation
/// transform exactly as a face's do, and every owned face turns with it.
pub open spec fn piece_rotated(p0: CubePiece, p1: CubePiece, axis: Direction, cd: int) -> bool {
    &&& p1.position@ == mat_vec_spec(rot_mat_spec(axis, cd), p0.position@)
    &&& p1.rotation@ == mat_mul_spec(rot_mat_spec(axis, cd), p0.rotation@)
    &&& p1.faces@.len() == p0.faces@.len()
    &&& forall|j: int|
        0 <= j < p0.faces@.len() ==> face_rotated(
            p0.faces@[j],
            #[trigger] p1.faces@[j],
            axis,
            cd,
        )
}

/// The piece's mutable geometry lies within `[-b, b]`.
pub open spec fn piece_bounded(p: CubePiece, b: int) -> bool {
    &&& in_range_v(p.position@, b)
    &&& in_range_m(p.rotation@, b)
    &&& forall|j: int| 0 <= j < p.faces@.len() ==> face_bounded(#[trigger] p.faces@[j], b)
}

/// Pushing another face never loses an existing side.
proof fn lemma_has_side_push(s: Seq<Face>, f: Face, d: Direction)
    requires
        has_side(s, d),
    ensures
        has_side(s.push(f), d),
{
    let j = choose|j: int| 0 <= j < s.len() && (#[trigger] s[j]).side == d;
    assert(s.push(f)[j].side == d);
}

/// One entry when the position composes with `d`, none otherwise.
pub open spec fn maybe_side(pos: V3, d: Direction) -> Seq<Direction> {
    if composed_spec(pos, d) {
        seq![d]
    } else {
        Seq::empty()
    }
}

/// The sides of a fresh piece's faces, in the fixed creation order Up,
/// Down, Left, Right, Front, Back: one entry for each direction the
/// position is composed with.
pub open spec fn sides_in_order(pos: V3) -> Seq<Direction> {
    maybe_side(pos, Direction::Up) + maybe_side(pos, Direction::Down) + maybe_side(
        pos,
        Direction::Left,
    ) + maybe_side(pos, Direction::Right) + maybe_side(pos, Direction::Front) + maybe_side(
        pos,
        Direction::Back,
    )
}

/// A freshly created piece at `pos`: identity rotation, and exactly the
/// fresh faces of `sides_in_order(pos)`, in that order.
pub open spec fn is_fresh_piece(p: CubePiece, pos: V3) -> bool {
    &&& p.position@ == pos
    &&& p.rotation@ == identity_mat_spec()
    &&& p.faces@.len() == sides_in_order(pos).len()
    &&& forall|j: int|
        0 <= j < p.faces@.len() ==> is_new_face(#[trigger] p.faces@[j], sides_in_order(pos)[j])
}

impl CubePiece {
    /// A piece at `position`, owning one freshly created face for every
    /// direction its position is composed with: the origin piece gets none,
    /// centers one, edges two, corners three.
    pub fn new(position: Vec3) -> (p: CubePiece)
        ensures
            p.position == position,
            p.rotation@ == identity_mat_spec(),
            forall|j: int|
                0 <= j < p.faces@.len() ==> is_new_face(
                    #[trigger] p.faces@[j],
                    p.faces@[j].side,
                ) && composed_spec(position@, p.faces@[j].side),
            forall|d: Direction| #[trigger] composed_spec(position@, d) ==> has_side(p.faces@, d),
            forall|j1: int, j2: int|
                0 <= j1 < j2 < p.faces@.len() ==> p.faces@[j1].side != p.faces@[j2].side,
            lattice_pt(position@) ==> p.faces@.len() == nonzero_count(position@),
            is_fresh_piece(p, position@),
    {
        let mut faces: Vec<Face> = Vec::new();
        if vector_is_composed_with_direction(position, Direction::Up) {
            let ghost pre = faces@;
            let f = Face::new(Direction::Up);
            faces.push(f);
            proof {
                assert(faces@[faces@.len() - 1].side == Direction::Up);

            }
        }
        proof {
            assert(composed_spec(position@, Direction::Up) ==> has_side(faces@, Direction::Up));
            assert(faces@.len() == (maybe_side(position@, Direction::Up)).len());
            assert(forall|j: int|
                0 <= j < faces@.len() ==> is_new_face(#[trigger] faces@[j], (maybe_side(position@, Direction::Up))[j]));
        }
        if vector_is_composed_with_direction(position, Direction::Down) {
            let ghost pre = faces@;
            let f = Face::new(Direction::Down);
            faces.push(f);
            proof {
                assert(faces@[faces@.len() - 1].side == Direction::Down);
                if composed_spec(position@, Direction::Up) {
                    lemma_has_side_push(pre, f, Direction::Up);
                }
            }
        }
        proof {
            assert(composed_spec(position@, Direction::Up) ==> has_side(faces@, Direction::Up));
            assert(composed_spec(position@, Direction::Down) ==> has_side(faces@, Direction::Down));
            assert(faces@.len() == (maybe_side(position@, Direction::Up) + maybe_side(position@, Direction::Down)).len());
            assert(forall|j: int|
                0 <= j < faces@.len() ==> is_new_face(#[trigger] faces@[j], (maybe_side(position@, Direction::Up) + maybe_side(position@, Direction::Down))[j]));
        }
        if vector_is_composed_with_direction(position, Direction::Left) {
            let ghost pre = faces@;
            let f = Face::new(Direction::Left);
            faces.push(f);
            proof {
                assert(faces@[faces@.len() - 1].side == Direction::Left);
                if composed_spec(position@, Direction::Up) {
                    lemma_has_side_push(pre, f, Direction::Up);
                }
                if composed_spec(position@, Direction::Down) {
                    lemma_has_side_push(pre, f, Direction::Down);
                }
            }
        }
        proof {
            assert(composed_spec(position@, Direction::Up) ==> has_side(faces@, Direction::Up));
            assert(composed_spec(position@, Direction::Down) ==> has_side(faces@, Direction::Down));
            assert(composed_spec(position@, Direction::Left) ==> has_side(faces@, Direction::Left));
            assert(faces@.len() == (maybe_side(position@, Direction::Up) + maybe_side(position@, Direction::Down) + maybe_side(position@, Direction::Left)).len());
            assert(forall|j: int|
                0 <= j < faces@.len() ==> is_new_face(#[trigger] faces@[j], (maybe_side(position@, Direction::Up) + maybe_side(position@, Direction::Down) + maybe_side(position@, Direction::Left))[j]));
        }
        if vector_is_composed_with_direction(position, Direction::Right) {
            let ghost pre = faces@;
            let f = Face::new(Direction::Right);
            faces.push(f);
            proof {
                assert(faces@[faces@.len() - 1].side == Direction::Right);
                if composed_spec(position@, Direction::Up) {
                    lemma_has_side_push(pre, f, Direction::Up);
                }
                if composed_spec(position@, Direction::Down) {
                    lemma_has_side_push(pre, f, Direction::Down);
                }
                if composed_spec(position@, Direction::Left) {
                    lemma_has_side_push(pre, f, Direction::Left);
                }
            }
        }
        proof {
            assert(composed_spec(position@, Direction::Up) ==> has_side(faces@, Direction::Up));
            assert(composed_spec(position@, Direction::Down) ==> has_side(faces@, Direction::Down));
            assert(composed_spec(position@, Direction::Left) ==> has_side(faces@, Direction::Left));
            assert(composed_spec(position@, Direction::Right) ==> has_side(faces@, Direction::Right));
            assert(faces@.len() == (maybe_side(position@, Direction::Up) + maybe_side(position@, Direction::Down) + maybe_side(position@, Direction::Left) + maybe_side(position@, Direction::Right)).len());
            assert(forall|j: int|
                0 <= j < faces@.len() ==> is_new_face(#[trigger] faces@[j], (maybe_side(position@, Direction::Up) + maybe_side(position@, Direction::Down) + maybe_side(position@, Direction::Left) + maybe_side(position@, Direction::Right))[j]));
        }
        if vector_is_composed_with_direction(position, Direction::Front) {
            let ghost pre = faces@;
            let f = Face::new(Direction::Front);
            faces.push(f);
            proof {
                assert(faces@[faces@.len() - 1].side == Direction::Front);
                if composed_spec(position@, Direction::Up) {
                    lemma_has_side_push(pre, f, Direction::Up);
                }
                if composed_spec(position@, Direction::Down) {
                    lemma_has_side_push(pre, f, Direction::Down);
                }
                if composed_spec(position@, Direction::Left) {
                    lemma_has_side_push(pre, f, Direction::Left);
                }
                if composed_spec(position@, Direction::Right) {
                    lemma_has_side_push(pre, f, Direction::Right);
                }
            }
        }
        proof {
            assert(composed_spec(position@, Direction::Up) ==> has_side(faces@, Direction::Up));
            assert(composed_spec(position@, Direction::Down) ==> has_side(faces@, Direction::Down));
            assert(composed_spec(position@, Direction::Left) ==> has_side(faces@, Direction::Left));
            assert(composed_spec(position@, Direction::Right) ==> has_side(faces@, Direction::Right));
            assert(composed_spec(position@, Direction::Front) ==> has_side(faces@, Direction::Front));
            assert(faces@.len() == (maybe_side(position@, Direction::Up) + maybe_side(position@, Direction::Down) + maybe_side(position@, Direction::Left) + maybe_side(position@, Direction::Right) + maybe_side(position@, Direction::Front)).len());
            assert(forall|j: int|
                0 <= j < faces@.len() ==> is_new_face(#[trigger] faces@[j], (maybe_side(position@, Direction::Up) + maybe_side(position@, Direction::Down) + maybe_side(position@, Direction::Left) + maybe_side(position@, Direction::Right) + maybe_side(position@, Direction::Front))[j]));
        }
        if vector_is_composed_with_direction(position, Direction::Back) {
            let ghost pre = faces@;
            let f = Face::new(Direction::Back);
            faces.push(f);
            proof {
                assert(faces@[faces@.len() - 1].side == Direction::Back);
                if composed_spec(position@, Direction::Up) {
                    lemma_has_side_push(pre, f, Direction::Up);
                }
                if composed_spec(position@, Direction::Down) {
                    lemma_has_side_push(pre, f, Direction::Down);
                }
                if composed_spec(position@, Direction::Left) {
                    lemma_has_side_push(pre, f, Direction::Left);
                }
                if composed_spec(position@, Direction::Right) {
                    lemma_has_side_push(pre, f, Direction::Right);
                }
                if composed_spec(position@, Direction::Front) {
                    lemma_has_side_push(pre, f, Direction::Front);
                }
            }
        }
        proof {
            assert(composed_spec(position@, Direction::Up) ==> has_side(faces@, Direction::Up));
            assert(composed_spec(position@, Direction::Down) ==> has_side(faces@, Direction::Down));
            assert(composed_spec(position@, Direction::Left) ==> has_side(faces@, Direction::Left));
            assert(composed_spec(position@, Direction::Right) ==> has_side(faces@, Direction::Right));
            assert(composed_spec(position@, Direction::Front) ==> has_side(faces@, Direction::Front));
            assert(composed_spec(position@, Direction::Back) ==> has_side(faces@, Direction::Back));
            assert(faces@.len() == (maybe_side(position@, Direction::Up) + maybe_side(position@, Direction::Down) + maybe_side(position@, Direction::Left) + maybe_side(position@, Direction::Right) + maybe_side(position@, Direction::Front) + maybe_side(position@, Direction::Back)).len());
            assert(forall|j: int|
                0 <= j < faces@.len() ==> is_new_face(#[trigger] faces@[j], (maybe_side(position@, Direction::Up) + maybe_side(position@, Direction::Down) + maybe_side(position@, Direction::Left) + maybe_side(position@, Direction::Right) + maybe_side(position@, Direction::Front) + maybe_side(position@, Direction::Back))[j]));
        }
        CubePiece { faces, position, rotation: identity_mat() }
    }

    /// The face currently lying on side `target_cube_face`, if the piece has
    /// one there.
    pub fn get_face(&self, target_cube_face: &Direction) -> (r: Option<Face>)
        ensures
            r matches Some(f) ==> exists|j: int|
                0 <= j < self.faces@.len() && #[trigger] self.faces@[j] == f && f.side
                    == *target_cube_face,
            r is None ==> forall|j: int|
                0 <= j < self.faces@.len() ==> (#[trigger] self.faces@[j]).side
                    != *target_cube_face,
    {
        let n = self.faces.len();
        let mut j: usize = 0;
        while j < n
            invariant
                n == self.faces@.len(),
                0 <= j <= n,
                forall|i: int| 0 <= i < j ==> (#[trigger] self.faces@[i]).side != *target_cube_face,
            decreases n - j,
        {
            if self.faces[j].side == *target_cube_face {
                return Some(self.faces[j]);
            }
            j += 1;
        }
        None
    }

    /// The piece's current position.
    pub fn get_position(&self) -> (r: Vec3)
        ensures
            r == self.position,
    {
        self.position
    }

    /// Turns the piece `theta_centidegrees` about `rotation_axis`: its own
    /// position and rotation transform first, then every owned face turns by
    /// the same step.
    pub fn rotate(&mut self, rotation_axis: Direction, theta_centidegrees: i64)
        requires
            piece_bounded(*old(self), 10_000),
            -4_000_000_000 <= theta_centidegrees <= 4_000_000_000,
        ensures
            piece_rotated(*old(self), *final(self), rotation_axis, theta_centidegrees as int),
    {
        let rotation = rot_mat(rotation_axis, theta_centidegrees);
        let new_position = mat_vec(rotation, self.position);
        self.position = new_position;
        self.rotation = mat_mul(rotation, self.rotation);
        let n = self.faces.len();
        let mut j: usize = 0;
        while j < n
            invariant
                n == self.faces@.len(),
                0 <= j <= n,
                self.faces@.len() == old(self).faces@.len(),
                self.position@ == mat_vec_spec(
                    rot_mat_spec(rotation_axis, theta_centidegrees as int),
                    old(self).position@,
                ),
                self.rotation@ == mat_mul_spec(
                    rot_mat_spec(rotation_axis, theta_centidegrees as int),
                    old(self).rotation@,
                ),
                forall|i: int|
                    0 <= i < j ==> face_rotated(
                        old(self).faces@[i],
                        #[trigger] self.faces@[i],
                        rotation_axis,
                        theta_centidegrees as int,
                    ),
                forall|i: int| j <= i < n ==> #[trigger] self.faces@[i] == old(self).faces@[i],
                -4_000_000_000 <= theta_centidegrees <= 4_000_000_000,
                forall|i: int|
                    0 <= i < old(self).faces@.len() ==> face_bounded(
                        #[trigger] old(self).faces@[i],
                        10_000,
                    ),
            decreases n - j,
        {
            let mut f = self.faces[j];
            f.rotate(rotation_axis, theta_centidegrees);
            self.faces.set(j, f);
            j += 1;
        }
    }
}

/// A fresh copy of a piece, state for state.
fn copy_piece(p: &CubePiece) -> (r: CubePiece)
    ensures
        piece_eq(*p, r),
{
    let n = p.faces.len();
    let mut faces: Vec<Face> = Vec::new();
    let mut j: usize = 0;
    while j < n
        invariant
            n == p.faces@.len(),
            0 <= j <= n,
            faces@.len() == j,
            forall|i: int| 0 <= i < j ==> #[trigger] faces@[i] == p.faces@[i],
        decreases n - j,
    {
        faces.push(p.faces[j]);
        j += 1;
    }
    proof {
        assert(faces@ =~= p.faces@);
    }
    CubePiece { faces, position: p.position, rotation: p.rotation }
}

// ---------------------------------------------------------------------------
// Cube: the aggregate
// ---------------------------------------------------------------------------

/// The whole puzzle: the 27 pieces plus the six immutable UV maps.
#[derive(Clone, Debug)]
pub struct Cube {
    pub up_map: UvMap,
    pub down_map: UvMap,
    pub left_map: UvMap,
    pub right_map: UvMap,
    pub front_map: UvMap,
    pub back_map: UvMap,
    pub pieces: Vec<CubePiece>,
}

/// The lattice point the piece at index `i` starts on: index `9x + 3y + z`
/// over digits in `{0, 1, 2}`, shifted to coordinates in `{-100, 0, 100}`.
pub open spec fn lat_idx(i: int) -> V3 {
    V3 {
        x: 100 * (i / 9) - 100,
        y: 100 * ((i % 9) / 3) - 100,
        z: 100 * ((i % 9) % 3) - 100,
    }
}

/// The index whose lattice point is `v`.
pub open spec fn idx_of(v: V3) -> int {
    9 * ((v.x + 100) / 100) + 3 * ((v.y + 100) / 100) + ((v.z + 100) / 100)
}

/// `lat_idx` decomposes an index into its three digits.
proof fn lemma_lat_idx_digits(i: int)
    requires
        0 <= i < 27,
    ensures
        i == 9 * (i / 9) + 3 * ((i % 9) / 3) + ((i % 9) % 3),
        0 <= i / 9 < 3,
        0 <= (i % 9) / 3 < 3,
        0 <= (i % 9) % 3 < 3,
        lattice_pt(lat_idx(i)),
{
    vstd::arithmetic::div_mod::lemma_fundamental_div_mod(i, 9);
    vstd::arithmetic::div_mod::lemma_mod_pos_bound(i, 9);
    vstd::arithmetic::div_mod::lemma_fundamental_div_mod(i % 9, 3);
    vstd::arithmetic::div_mod::lemma_mod_pos_bound(i % 9, 3);
    vstd::arithmetic::div_mod::lemma_div_is_ordered(i, 26, 9);
    assert(26int / 9 == 2) by {
        vstd::arithmetic::div_mod::lemma_fundamental_div_mod_converse(26, 9, 2, 8);
    }
    vstd::arithmetic::div_mod::lemma_div_is_ordered(i % 9, 8, 3);
    assert(8int / 3 == 2) by {
        vstd::arithmetic::div_mod::lemma_fundamental_div_mod_converse(8, 3, 2, 2);
    }
    assert(0 <= i / 9) by {
        vstd::arithmetic::div_mod::lemma_div_is_ordered(0, i, 9);
        vstd::arithmetic::div_mod::lemma_fundamental_div_mod_converse(0, 9, 0, 0);
    }
    assert(0 <= (i % 9) / 3) by {
        vstd::arithmetic::div_mod::lemma_div_is_ordered(0, i % 9, 3);
        vstd::arithmetic::div_mod::lemma_fundamental_div_mod_converse(0, 3, 0, 0);
    }
}

/// Every lattice point is `lat_idx` of exactly one index.
proof fn lemma_idx_of_lattice(v: V3)
    requires
        lattice_pt(v),
    ensures
        0 <= idx_of(v) < 27,
        lat_idx(idx_of(v)) == v,
{
    let a = (v.x + 100) / 100;
    let b = (v.y + 100) / 100;
    let c = (v.z + 100) / 100;
    assert(0int / 100 == 0 && 100int / 100 == 1 && 200int / 100 == 2) by {
        vstd::arithmetic::div_mod::lemma_fundamental_div_mod_converse(0, 100, 0, 0);
        vstd::arithmetic::div_mod::lemma_fundamental_div_mod_converse(100, 100, 1, 0);
        vstd::arithmetic::div_mod::lemma_fundamental_div_mod_converse(200, 100, 2, 0);
    }
    let i = 9 * a + 3 * b + c;
    vstd::arithmetic::div_mod::lemma_fundamental_div_mod_converse(i, 9, a, 3 * b + c);
    vstd::arithmetic::div_mod::lemma_fundamental_div_mod_converse(3 * b + c, 3, b, c);
}

/// Distinct indices sit on distinct lattice points.
proof fn lemma_lat_idx_injective(i: int, j: int)
    requires
        0 <= i < 27,
        0 <= j < 27,
        lat_idx(i) == lat_idx(j),
    ensures
        i == j,
{
    lemma_lat_idx_digits(i);
    lemma_lat_idx_digits(j);
}

/// One sticker is well-formed: its normal is the unit vector of the side it
/// reports, its accumulated rotation stays in fixed-point range, and its
/// color is the color of the side it was created on.
pub open spec fn wf_face(f: Face) -> bool {
    &&& f.position@ == dir_vec(f.side)
    &&& in_range_m(f.rotation@, 100)
    &&& f.color == color_of(f.initial_side_direction)
}

/// One piece is well-formed: it sits on a lattice point, its rotation stays
/// in range, each owned face is well-formed, and the sides of its faces are
/// exactly the directions its position is composed with, one face per side.
pub open spec fn wf_piece(p: CubePiece) -> bool {
    &&& lattice_pt(p.position@)
    &&& in_range_m(p.rotation@, 100)
    &&& forall|j: int| 0 <= j < p.faces@.len() ==> wf_face(#[trigger] p.faces@[j])
    &&& forall|j: int|
        0 <= j < p.faces@.len() ==> composed_spec(p.position@, (#[trigger] p.faces@[j]).side)
    &&& forall|d: Direction| #[trigger] composed_spec(p.position@, d) ==> has_side(p.faces@, d)
    &&& forall|j1: int, j2: int|
        0 <= j1 < j2 < p.faces@.len() ==> p.faces@[j1].side != p.faces@[j2].side
}

/// The standard UV map of each face, with the grid walking the face's four
/// physical corners in the fixed row/column order.
pub open spec fn std_map_spec(d: Direction) -> UvMap {
    match d {
        Direction::Up => UvMap {
            xy_start_grid: Vec2 { x: 0, y: 0 },
            xy_start_pos: Vec3 { x: -100i64, y: 100, z: -100i64 },
            x_end_grid: Vec2 { x: 2, y: 0 },
            x_end_pos: Vec3 { x: 100, y: 100, z: -100i64 },
            y_end_grid: Vec2 { x: 0, y: 2 },
            y_end_pos: Vec3 { x: -100i64, y: 100, z: 100 },
            xy_end_grid: Vec2 { x: 2, y: 2 },
            xy_end_pos: Vec3 { x: 100, y: 100, z: 100 },
            x_slope: Vec3 { x: 100, y: 0, z: 0 },
            y_slope: Vec3 { x: 0, y: 0, z: 100 },
        },
        Direction::Front => UvMap {
            xy_start_grid: Vec2 { x: 0, y: 0 },
            xy_start_pos: Vec3 { x: -100i64, y: 100, z: 100 },
            x_end_grid: Vec2 { x: 2, y: 0 },
            x_end_pos: Vec3 { x: 100, y: 100, z: 100 },
            y_end_grid: Vec2 { x: 0, y: 2 },
            y_end_pos: Vec3 { x: -100i64, y: -100i64, z: 100 },
            xy_end_grid: Vec2 { x: 2, y: 2 },
            xy_end_pos: Vec3 { x: 100, y: -100i64, z: 100 },
            x_slope: Vec3 { x: 100, y: 0, z: 0 },
            y_slope: Vec3 { x: 0, y: -100i64, z: 0 },
        },
        Direction::Down => UvMap {
            xy_start_grid: Vec2 { x: 0, y: 0 },
            xy_start_pos: Vec3 { x: -100i64, y: -100i64, z: 100 },
            x_end_grid: Vec2 { x: 2, y: 0 },
            x_end_pos: Vec3 { x: 100, y: -100i64, z: 100 },
            y_end_grid: Vec2 { x: 0, y: 2 },
            y_end_pos: Vec3 { x: -100i64, y: -100i64, z: -100i64 },
            xy_end_grid: Vec2 { x: 2, y: 2 },
            xy_end_pos: Vec3 { x: 100, y: -100i64, z: -100i64 },
            x_slope: Vec3 { x: 100, y: 0, z: 0 },
            y_slope: Vec3 { x: 0, y: 0, z: -100i64 },
        },
        Direction::Left => UvMap {
            xy_start_grid: Vec2 { x: 0, y: 0 },
            xy_start_pos: Vec3 { x: -100i64, y: 100, z: -100i64 },
            x_end_grid: Vec2 { x: 2, y: 0 },
            x_end_pos: Vec3 { x: -100i64, y: 100, z: 100 },
            y_end_grid: Vec2 { x: 0, y: 2 },
            y_end_pos: Vec3 { x: -100i64, y: -100i64, z: -100i64 },
            xy_end_grid: Vec2 { x: 2, y: 2 },
            xy_end_pos: Vec3 { x: -100i64, y: -100i64, z: 100 },
            x_slope: Vec3 { x: 0, y: 0, z: 100 },
            y_slope: Vec3 { x: 0, y: -100i64, z: 0 },
        },
        Direction::Right => UvMap {
            xy_start_grid: Vec2 { x: 0, y: 0 },
            xy_start_pos: Vec3 { x: 100, y: 100, z: 100 },
            x_end_grid: Vec2 { x: 2, y: 0 },
            x_end_pos: Vec3 { x: 100, y: 100, z: -100i64 },
            y_end_grid: Vec2 { x: 0, y: 2 },
            y_end_pos: Vec3 { x: 100, y: -100i64, z: 100 },
            xy_end_grid: Vec2 { x: 2, y: 2 },
            xy_end_pos: Vec3 { x: 100, y: -100i64, z: -100i64 },
            x_slope: Vec3 { x: 0, y: 0, z: -100i64 },
            y_slope: Vec3 { x: 0, y: -100i64, z: 0 },
        },
        Direction::Back => UvMap {
            xy_start_grid: Vec2 { x: 0, y: 0 },
            xy_start_pos: Vec3 { x: 100, y: 100, z: -100i64 },
            x_end_grid: Vec2 { x: 2, y: 0 },
            x_end_pos: Vec3 { x: -100i64, y: 100, z: -100i64 },
            y_end_grid: Vec2 { x: 0, y: 2 },
            y_end_pos: Vec3 { x: 100, y: -100i64, z: -100i64 },
            xy_end_grid: Vec2 { x: 2, y: 2 },
            xy_end_pos: Vec3 { x: -100i64, y: -100i64, z: -100i64 },
            x_slope: Vec3 { x: -100i64, y: 0, z: 0 },
            y_slope: Vec3 { x: 0, y: -100i64, z: 0 },
        },
    }
}

/// The map the cube holds for a face.
pub open spec fn uv_map_of(c: Cube, d: Direction) -> UvMap {
    match d {
        Direction::Up => c.up_map,
        Direction::Down => c.down_map,
        Direction::Left => c.left_map,
        Direction::Right => c.right_map,
        Direction::Front => c.front_map,
        Direction::Back => c.back_map,
    }
}

/// The 3D lattice position of grid cell `(gx, gy)` on face `d`.
pub open spec fn grid_xyz(d: Direction, gx: int, gy: int) -> V3 {
    crate::uvmap::uv_xyz_spec(std_map_spec(d), gx, gy)
}

/// The six maps of the cube are the standard ones.
pub open spec fn maps_std(c: Cube) -> bool {
    &&& c.up_map == std_map_spec(Direction::Up)
    &&& c.down_map == std_map_spec(Direction::Down)
    &&& c.left_map == std_map_spec(Direction::Left)
    &&& c.right_map == std_map_spec(Direction::Right)
    &&& c.front_map == std_map_spec(Direction::Front)
    &&& c.back_map == std_map_spec(Direction::Back)
}

/// The cube invariant: 27 well-formed pieces on pairwise distinct lattice
/// points covering the whole lattice, each owning as many faces as its
/// starting lattice point has nonzero coordinates, under the standard maps.
pub open spec fn wf_cube(c: Cube) -> bool {
    &&& c.pieces@.len() == 27
    &&& forall|i: int| 0 <= i < 27 ==> wf_piece(#[trigger] c.pieces@[i])
    &&& forall|i: int, j: int|
        0 <= i < j < 27 ==> c.pieces@[i].position@ != c.pieces@[j].position@
    &&& forall|v: V3| #[trigger]
        lattice_pt(v) ==> exists|i: int| 0 <= i < 27 && (#[trigger] c.pieces@[i]).position@ == v
    &&& forall|i: int| 0 <= i < 27 ==> (#[trigger] c.pieces@[i]).faces@.len() == nonzero_count(
        lat_idx(i),
    )
    &&& maps_std(c)
}

/// Every sticker still lies on the side it was created on.
pub open spec fn is_solved(c: Cube) -> bool {
    forall|i: int, j: int|
        0 <= i < c.pieces@.len() && 0 <= j < c.pieces@[i].faces@.len()
            ==> (#[trigger] c.pieces@[i].faces@[j]).side == c.pieces@[i].faces@[j].initial_side_direction
}

impl Cube {
    /// A solved cube: the 27 pieces in lattice order, every sticker on its
    /// home side, and the six standard UV maps.
    pub fn new() -> (c: Cube)
        ensures
            wf_cube(c),
            is_solved(c),
            forall|i: int| 0 <= i < 27 ==> (#[trigger] c.pieces@[i]).position@ == lat_idx(i),
            forall|i: int| 0 <= i < 27 ==> is_fresh_piece(#[trigger] c.pieces@[i], lat_idx(i)),
    {
        let mut pieces: Vec<CubePiece> = Vec::new();
        let mut i: usize = 0;
        while i < 27
            invariant
                0 <= i <= 27,
                pieces@.len() == i,
                forall|k: int|
                    0 <= k < i ==> (#[trigger] pieces@[k]).position@ == lat_idx(k),
                forall|k: int| 0 <= k < i ==> wf_piece(#[trigger] pieces@[k]),
                forall|k: int| 0 <= k < i ==> is_fresh_piece(#[trigger] pieces@[k], lat_idx(k)),
                forall|k: int|
                    0 <= k < i ==> (#[trigger] pieces@[k]).faces@.len() == nonzero_count(
                        lat_idx(k),
                    ),
                forall|k: int, j: int|
                    0 <= k < i && 0 <= j < pieces@[k].faces@.len()
                        ==> (#[trigger] pieces@[k].faces@[j]).side
                        == pieces@[k].faces@[j].initial_side_direction,
            decreases 27 - i,
        {
            proof {
                lemma_lat_idx_digits(i as int);
            }
            let xi = (i / 9) as i64;
            let r = i % 9;
            let yi = (r / 3) as i64;
            let zi = (r % 3) as i64;
            let position = Vec3 { x: 100 * xi - 100, y: 100 * yi - 100, z: 100 * zi - 100 };
            let piece = CubePiece::new(position);
            pieces.push(piece);
            i += 1;
        }
        let up_map = UvMap::new(
            (Vec2 { x: 0, y: 0 }, Vec3 { x: -100, y: 100, z: -100 }),
            (Vec2 { x: 2, y: 0 }, Vec3 { x: 100, y: 100, z: -100 }),
            (Vec2 { x: 0, y: 2 }, Vec3 { x: -100, y: 100, z: 100 }),
            (Vec2 { x: 2, y: 2 }, Vec3 { x: 100, y: 100, z: 100 }),
        );
        let front_map = UvMap::new(
            (Vec2 { x: 0, y: 0 }, Vec3 { x: -100, y: 100, z: 100 }),
            (Vec2 { x: 2, y: 0 }, Vec3 { x: 100, y: 100, z: 100 }),
            (Vec2 { x: 0, y: 2 }, Vec3 { x: -100, y: -100, z: 100 }),
            (Vec2 { x: 2, y: 2 }, Vec3 { x: 100, y: -100, z: 100 }),
        );
        let down_map = UvMap::new(
            (Vec2 { x: 0, y: 0 }, Vec3 { x: -100, y: -100, z: 100 }),
            (Vec2 { x: 2, y: 0 }, Vec3 { x: 100, y: -100, z: 100 }),
            (Vec2 { x: 0, y: 2 }, Vec3 { x: -100, y: -100, z: -100 }),
            (Vec2 { x: 2, y: 2 }, Vec3 { x: 100, y: -100, z: -100 }),
        );
        let left_map = UvMap::new(
            (Vec2 { x: 0, y: 0 }, Vec3 { x: -100, y: 100, z: -100 }),
            (Vec2 { x: 2, y: 0 }, Vec3 { x: -100, y: 100, z: 100 }),
            (Vec2 { x: 0, y: 2 }, Vec3 { x: -100, y: -100, z: -100 }),
            (Vec2 { x: 2, y: 2 }, Vec3 { x: -100, y: -100, z: 100 }),
        );
        let right_map = UvMap::new(
            (Vec2 { x: 0, y: 0 }, Vec3 { x: 100, y: 100, z: 100 }),
            (Vec2 { x: 2, y: 0 }, Vec3 { x: 100, y: 100, z: -100 }),
            (Vec2 { x: 0, y: 2 }, Vec3 { x: 100, y: -100, z: 100 }),
            (Vec2 { x: 2, y: 2 }, Vec3 { x: 100, y: -100, z: -100 }),
        );
        let back_map = UvMap::new(
            (Vec2 { x: 0, y: 0 }, Vec3 { x: 100, y: 100, z: -100 }),
            (Vec2 { x: 2, y: 0 }, Vec3 { x: -100, y: 100, z: -100 }),
            (Vec2 { x: 0, y: 2 }, Vec3 { x: 100, y: -100, z: -100 }),
            (Vec2 { x: 2, y: 2 }, Vec3 { x: -100, y: -100, z: -100 }),
        );
        let c = Cube { pieces, up_map, down_map, left_map, right_map, front_map, back_map };
        proof {
            assert forall|v: V3| #[trigger] lattice_pt(v) implies exists|i: int|
                0 <= i < 27 && (#[trigger] c.pieces@[i]).position@ == v by {
                lemma_idx_of_lattice(v);
                assert(c.pieces@[idx_of(v)].position@ == v);
            }
            assert forall|i: int, j: int| 0 <= i < j < 27 implies c.pieces@[i].position@
                != c.pieces@[j].position@ by {
                if c.pieces@[i].position@ == c.pieces@[j].position@ {
                    lemma_lat_idx_injective(i, j);
                }
            }
        }
        c
    }
}

// ---------------------------------------------------------------------------
// Applying a move
// ---------------------------------------------------------------------------

/// The six UV maps agree between two cubes.
pub open spec fn maps_eq(c0: Cube, c1: Cube) -> bool {
    &&& c1.up_map == c0.up_map
    &&& c1.down_map == c0.down_map
    &&& c1.left_map == c0.left_map
    &&& c1.right_map == c0.right_map
    &&& c1.front_map == c0.front_map
    &&& c1.back_map == c0.back_map
}

/// Two cubes hold exactly the same state.
pub open spec fn cube_eq(c0: Cube, c1: Cube) -> bool {
    &&& maps_eq(c0, c1)
    &&& c1.pieces@.len() == c0.pieces@.len()
    &&& forall|i: int|
        0 <= i < c0.pieces@.len() ==> piece_eq(#[trigger] c0.pieces@[i], c1.pieces@[i])
}

/// One turn of face `d` by `cd` centidegrees: every piece on `d`'s layer is
/// rotated by the one step, every other piece and the maps are untouched.
pub open spec fn layer_turned(c0: Cube, c1: Cube, d: Direction, cd: int) -> bool {
    &&& maps_eq(c0, c1)
    &&& c1.pieces@.len() == c0.pieces@.len()
    &&& forall|i: int|
        0 <= i < c0.pieces@.len() ==> if composed_spec((#[trigger] c0.pieces@[i]).position@, d) {
            piece_rotated(c0.pieces@[i], c1.pieces@[i], d, cd)
        } else {
            piece_eq(c0.pieces@[i], c1.pieces@[i])
        }
}

/// What `apply_move` does: nothing for `Reset`, one exact layer turn by the
/// decoded angle (in centidegrees) otherwise.
pub open spec fn move_applied(c0: Cube, c1: Cube, m: CubeMove) -> bool {
    match decode_spec(m) {
        None => cube_eq(c0, c1),
        Some((d, deg)) => layer_turned(c0, c1, d, 100 * deg),
    }
}

// ---------------------------------------------------------------------------
// Exact quarter-level view of a turn
// ---------------------------------------------------------------------------

/// A face transformed by `k` exact quarter turns about positive axis `slot`.
pub open spec fn face_qturned(f0: Face, f1: Face, slot: int, k: int) -> bool {
    &&& f1.position@ == qrot_pos(f0.position@, slot, k)
    &&& f1.rotation@ == qmat_pos(f0.rotation@, slot, k)
    &&& f1.side == qdir(f0.side, slot, k)
    &&& f1.initial_side_direction == f0.initial_side_direction
    &&& f1.color == f0.color
}

/// A piece transformed by `k` exact quarter turns about positive axis `slot`.
pub open spec fn piece_qturned(p0: CubePiece, p1: CubePiece, slot: int, k: int) -> bool {
    &&& p1.position@ == qrot_pos(p0.position@, slot, k)
    &&& p1.rotation@ == qmat_pos(p0.rotation@, slot, k)
    &&& p1.faces@.len() == p0.faces@.len()
    &&& forall|j: int|
        0 <= j < p0.faces@.len() ==> face_qturned(p0.faces@[j], #[trigger] p1.faces@[j], slot, k)
}

/// The layer of `d` advanced by `k` exact quarter turns, everything else
/// untouched.
pub open spec fn layer_qturned(c0: Cube, c1: Cube, d: Direction, k: int) -> bool {
    &&& maps_eq(c0, c1)
    &&& c1.pieces@.len() == c0.pieces@.len()
    &&& forall|i: int|
        0 <= i < c0.pieces@.len() ==> if composed_spec((#[trigger] c0.pieces@[i]).position@, d) {
            piece_qturned(c0.pieces@[i], c1.pieces@[i], axis_slot(d), k)
        } else {
            piece_eq(c0.pieces@[i], c1.pieces@[i])
        }
}

/// On a well-formed cube, a layer turn by one of the three move angles is
/// exactly `move_k` quarter turns of that layer.
pub proof fn lemma_layer_turn_is_qturn(c0: Cube, c1: Cube, d: Direction, cd: int)
    requires
        wf_cube(c0),
        layer_turned(c0, c1, d, cd),
        cd == -9000 || cd == 9000 || cd == 18000,
    ensures
        layer_qturned(c0, c1, d, move_k(d, cd)),
        0 <= move_k(d, cd) < 4,
{
    let s = axis_slot(d);
    let k = move_k(d, cd);
    lemma_move_rot_mat(d, cd);
    assert forall|i: int|
        0 <= i < c0.pieces@.len() && composed_spec(
            (#[trigger] c0.pieces@[i]).position@,
            d,
        ) implies piece_qturned(c0.pieces@[i], c1.pieces@[i], s, k) by {
        let p0 = c0.pieces@[i];
        let p1 = c1.pieces@[i];
        assert(wf_piece(p0));
        assert(piece_rotated(p0, p1, d, cd));
        lemma_quarter_mat_vec(p0.position@, s, k);
        lemma_quarter_mat_mul(p0.rotation@, s, k);
        assert forall|j: int|
            0 <= j < p0.faces@.len() implies face_qturned(
            p0.faces@[j],
            #[trigger] p1.faces@[j],
            s,
            k,
        ) by {
            let f0 = p0.faces@[j];
            let f1 = p1.faces@[j];
            assert(wf_face(f0));
            assert(face_rotated(f0, f1, d, cd));
            lemma_quarter_mat_vec(f0.position@, s, k);
            lemma_quarter_mat_mul(f0.rotation@, s, k);
            lemma_qdir_vec(f0.side, s, k);
            crate::direction::lemma_direction_vector_round_trip(qdir(f0.side, s, k));
        }
    }
}

/// The converse of `lemma_layer_turn_is_qturn`: on a well-formed cube, the
/// exact quarter-level relation at `move_k` quarters is the trig-level turn
/// by the move angle itself.
pub proof fn lemma_qturn_is_layer_turn(c0: Cube, c1: Cube, d: Direction, cd: int)
    requires
        wf_cube(c0),
        layer_qturned(c0, c1, d, move_k(d, cd)),
        cd == -9000 || cd == 9000 || cd == 18000,
    ensures
        layer_turned(c0, c1, d, cd),
{
    let s = axis_slot(d);
    let k = move_k(d, cd);
    lemma_move_rot_mat(d, cd);
    assert forall|i: int|
        0 <= i < c0.pieces@.len() && composed_spec(
            (#[trigger] c0.pieces@[i]).position@,
            d,
        ) implies piece_rotated(c0.pieces@[i], c1.pieces@[i], d, cd) by {
        let p0 = c0.pieces@[i];
        let p1 = c1.pieces@[i];
        assert(wf_piece(p0));
        assert(piece_qturned(p0, p1, s, k));
        lemma_quarter_mat_vec(p0.position@, s, k);
        lemma_quarter_mat_mul(p0.rotation@, s, k);
        assert forall|j: int|
            0 <= j < p0.faces@.len() implies face_rotated(
            p0.faces@[j],
            #[trigger] p1.faces@[j],
            d,
            cd,
        ) by {
            let f0 = p0.faces@[j];
            let f1 = p1.faces@[j];
            assert(wf_face(f0));
            assert(face_qturned(f0, f1, s, k));
            lemma_quarter_mat_vec(f0.position@, s, k);
            lemma_quarter_mat_mul(f0.rotation@, s, k);
            lemma_qdir_vec(f0.side, s, k);
            crate::direction::lemma_direction_vector_round_trip(qdir(f0.side, s, k));
        }
    }
}

/// An exact quarter-level layer turn preserves the cube invariant.
#[verifier::rlimit(60)]
#[verifier::spinoff_prover]
pub proof fn lemma_layer_qturn_preserves_wf(c0: Cube, c1: Cube, d: Direction, k: int)
    requires
        wf_cube(c0),
        layer_qturned(c0, c1, d, k),
        0 <= k < 4,
    ensures
        wf_cube(c1),
{
    let s = axis_slot(d);
    assert forall|i: int| 0 <= i < 27 implies wf_piece(#[trigger] c1.pieces@[i]) by {
        let p0 = c0.pieces@[i];
        let p1 = c1.pieces@[i];
        assert(wf_piece(p0));
        if composed_spec(p0.position@, d) {
            assert(piece_qturned(p0, p1, s, k));
            lemma_qrot_shape(p0.position@, s, k);
            assert forall|j: int| 0 <= j < p1.faces@.len() implies wf_face(
                #[trigger] p1.faces@[j],
            ) && composed_spec(p1.position@, p1.faces@[j].side) by {
                let f0 = p0.faces@[j];
                let f1 = p1.faces@[j];
                assert(face_qturned(f0, f1, s, k));
                assert(wf_face(f0));
                lemma_qdir_vec(f0.side, s, k);
                lemma_composed_qrot(p0.position@, f0.side, s, k);
            }
            assert forall|d2: Direction| #[trigger]
                composed_spec(p1.position@, d2) implies has_side(p1.faces@, d2) by {
                let dpre = qdir(d2, s, inv_quarter(k));
                lemma_qdir_compose(d2, s, inv_quarter(k), k);
                lemma_qdir_identity(d2, s);
                assert(qdir(dpre, s, k) == d2);
                lemma_composed_qrot(p0.position@, dpre, s, k);
                lemma_qdir_vec(dpre, s, k);
                assert(composed_spec(p0.position@, dpre));
                assert(has_side(p0.faces@, dpre));
                let j = choose|j: int|
                    0 <= j < p0.faces@.len() && (#[trigger] p0.faces@[j]).side == dpre;
                assert(face_qturned(p0.faces@[j], p1.faces@[j], s, k));
                assert(p1.faces@[j].side == d2);
            }
            assert forall|j1: int, j2: int|
                0 <= j1 < j2 < p1.faces@.len() implies p1.faces@[j1].side
                != p1.faces@[j2].side by {
                assert(face_qturned(p0.faces@[j1], p1.faces@[j1], s, k));
                assert(face_qturned(p0.faces@[j2], p1.faces@[j2], s, k));
                if p1.faces@[j1].side == p1.faces@[j2].side {
                    lemma_qdir_injective(p0.faces@[j1].side, p0.faces@[j2].side, s, k);
                }
            }
        } else {
            assert(piece_eq(p0, p1));
        }
    }
    assert forall|i: int, j: int| 0 <= i < j < 27 implies c1.pieces@[i].position@
        != c1.pieces@[j].position@ by {
        let pi0 = c0.pieces@[i].position@;
        let pj0 = c0.pieces@[j].position@;
        if c1.pieces@[i].position@ == c1.pieces@[j].position@ {
            lemma_composed_own_axis(pi0, d, k);
            lemma_composed_own_axis(pj0, d, k);
            if composed_spec(pi0, d) && composed_spec(pj0, d) {
                lemma_qrot_injective(pi0, pj0, axis_slot(d), k);
            }
        }
    }
    assert forall|v: V3| #[trigger] lattice_pt(v) implies exists|i: int|
        0 <= i < 27 && (#[trigger] c1.pieces@[i]).position@ == v by {
        if composed_spec(v, d) {
            let u = qrot_pos(v, s, inv_quarter(k));
            lemma_qrot_shape(v, s, inv_quarter(k));
            lemma_composed_own_axis(v, d, inv_quarter(k));
            assert(lattice_pt(u) && composed_spec(u, d));
            let i = choose|i: int| 0 <= i < 27 && (#[trigger] c0.pieces@[i]).position@ == u;
            lemma_qrot_compose(v, s, inv_quarter(k), k);
            assert(c1.pieces@[i].position@ == v);
        } else {
            let i = choose|i: int| 0 <= i < 27 && (#[trigger] c0.pieces@[i]).position@ == v;
            lemma_composed_own_axis(v, d, k);
            assert(c1.pieces@[i].position@ == v);
        }
    }
    assert forall|i: int| 0 <= i < 27 implies (#[trigger] c1.pieces@[i]).faces@.len()
        == nonzero_count(lat_idx(i)) by {
        assert(c0.pieces@[i].faces@.len() == nonzero_count(lat_idx(i)));
    }
}

/// Two exact layer turns of the same face compose by adding their quarter
/// counts modulo 4.
pub proof fn lemma_layer_qturn_compose(c0: Cube, c1: Cube, c2: Cube, d: Direction, k1: int, k2: int)
    requires
        layer_qturned(c0, c1, d, k1),
        layer_qturned(c1, c2, d, k2),
        0 <= k1 < 4,
        0 <= k2 < 4,
    ensures
        layer_qturned(c0, c2, d, (k1 + k2) % 4),
{
    let s = axis_slot(d);
    let k = (k1 + k2) % 4;
    assert forall|i: int|
        0 <= i < c0.pieces@.len() implies (if composed_spec(
        (#[trigger] c0.pieces@[i]).position@,
        d,
    ) {
        piece_qturned(c0.pieces@[i], c2.pieces@[i], s, k)
    } else {
        piece_eq(c0.pieces@[i], c2.pieces@[i])
    }) by {
        let p0 = c0.pieces@[i];
        let p1 = c1.pieces@[i];
        let p2 = c2.pieces@[i];
        lemma_composed_own_axis(p0.position@, d, k1);
        if composed_spec(p0.position@, d) {
            assert(piece_qturned(p0, p1, s, k1));
            assert(composed_spec(p1.position@, d));
            assert(piece_qturned(p1, p2, s, k2));
            lemma_qrot_compose(p0.position@, s, k1, k2);
            lemma_qmat_compose(p0.rotation@, s, k1, k2);
            assert forall|j: int|
                0 <= j < p0.faces@.len() implies face_qturned(
                p0.faces@[j],
                #[trigger] p2.faces@[j],
                s,
                k,
            ) by {
                assert(face_qturned(p0.faces@[j], p1.faces@[j], s, k1));
                assert(face_qturned(p1.faces@[j], p2.faces@[j], s, k2));
                lemma_qrot_compose(p0.faces@[j].position@, s, k1, k2);
                lemma_qmat_compose(p0.faces@[j].rotation@, s, k1, k2);
                lemma_qdir_compose(p0.faces@[j].side, s, k1, k2);
            }
        } else {
            assert(piece_eq(p0, p1));
            assert(!composed_spec(p1.position@, d));
            assert(piece_eq(p1, p2));
        }
    }
}

/// Exact layer turns of two opposite faces act on disjoint pieces about the
/// same axis, so the two orders give exactly the same cube.
#[verifier::rlimit(100)]
#[verifier::spinoff_prover]
pub proof fn lemma_opposite_layers_commute(
    c0: Cube,
    c1: Cube,
    c2: Cube,
    c1b: Cube,
    c2b: Cube,
    d1: Direction,
    d2: Direction,
    k1: int,
    k2: int,
)
    requires
        d2 == crate::direction::opposite_of(d1),
        layer_qturned(c0, c1, d1, k1),
        layer_qturned(c1, c2, d2, k2),
        layer_qturned(c0, c1b, d2, k2),
        layer_qturned(c1b, c2b, d1, k1),
        0 <= k1 < 4,
        0 <= k2 < 4,
    ensures
        cube_eq(c2, c2b),
{
    let s = axis_slot(d1);
    assert(axis_slot(d2) == s);
    assert forall|i: int| 0 <= i < c2.pieces@.len() implies piece_eq(
        #[trigger] c2.pieces@[i],
        c2b.pieces@[i],
    ) by {
        let p0 = c0.pieces@[i];
        let q = p0.position@;
        lemma_composed_own_axis(q, d1, k1);
        lemma_composed_own_axis(q, d2, k1);
        lemma_composed_own_axis(q, d1, k2);
        lemma_composed_own_axis(q, d2, k2);
        if composed_spec(q, d1) && composed_spec(q, d2) {
            assert(piece_qturned(p0, c1.pieces@[i], s, k1));
            assert(piece_qturned(c1.pieces@[i], c2.pieces@[i], s, k2));
            assert(piece_qturned(p0, c1b.pieces@[i], s, k2));
            assert(piece_qturned(c1b.pieces@[i], c2b.pieces@[i], s, k1));
            lemma_qrot_compose(q, s, k1, k2);
            lemma_qrot_compose(q, s, k2, k1);
            lemma_qmat_compose(p0.rotation@, s, k1, k2);
            lemma_qmat_compose(p0.rotation@, s, k2, k1);
            assert forall|j: int| 0 <= j < c2.pieces@[i].faces@.len() implies #[trigger] c2
                .pieces@[i].faces@[j] == c2b.pieces@[i].faces@[j] by {
                let f0 = p0.faces@[j];
                assert(face_qturned(f0, c1.pieces@[i].faces@[j], s, k1));
                assert(face_qturned(c1.pieces@[i].faces@[j], c2.pieces@[i].faces@[j], s, k2));
                assert(face_qturned(f0, c1b.pieces@[i].faces@[j], s, k2));
                assert(face_qturned(c1b.pieces@[i].faces@[j], c2b.pieces@[i].faces@[j], s, k1));
                lemma_qrot_compose(f0.position@, s, k1, k2);
                lemma_qrot_compose(f0.position@, s, k2, k1);
                lemma_qmat_compose(f0.rotation@, s, k1, k2);
                lemma_qmat_compose(f0.rotation@, s, k2, k1);
                lemma_qdir_compose(f0.side, s, k1, k2);
                lemma_qdir_compose(f0.side, s, k2, k1);
            }
            assert(c2.pieces@[i].faces@ =~= c2b.pieces@[i].faces@);
        } else if composed_spec(q, d1) {
            assert(piece_qturned(p0, c1.pieces@[i], s, k1));
            assert(piece_eq(c1.pieces@[i], c2.pieces@[i]));
            assert(piece_eq(p0, c1b.pieces@[i]));
            assert(piece_qturned(c1b.pieces@[i], c2b.pieces@[i], s, k1));
            assert(c2.pieces@[i].faces@ =~= c2b.pieces@[i].faces@);
        } else if composed_spec(q, d2) {
            assert(piece_eq(p0, c1.pieces@[i]));
            assert(piece_qturned(c1.pieces@[i], c2.pieces@[i], s, k2));
            assert(piece_qturned(p0, c1b.pieces@[i], s, k2));
            assert(piece_eq(c1b.pieces@[i], c2b.pieces@[i]));
            assert(c2.pieces@[i].faces@ =~= c2b.pieces@[i].faces@);
        } else {
            assert(piece_eq(p0, c1.pieces@[i]));
            assert(piece_eq(c1.pieces@[i], c2.pieces@[i]));
            assert(piece_eq(p0, c1b.pieces@[i]));
            assert(piece_eq(c1b.pieces@[i], c2b.pieces@[i]));
        }
    }
}

/// A zero-quarter layer turn changes nothing.
pub proof fn lemma_layer_qturn_zero(c0: Cube, c1: Cube, d: Direction)
    requires
        layer_qturned(c0, c1, d, 0),
    ensures
        cube_eq(c0, c1),
{
    let s = axis_slot(d);
    assert forall|i: int| 0 <= i < c0.pieces@.len() implies piece_eq(
        #[trigger] c0.pieces@[i],
        c1.pieces@[i],
    ) by {
        let p0 = c0.pieces@[i];
        let p1 = c1.pieces@[i];
        if composed_spec(p0.position@, d) {
            assert(piece_qturned(p0, p1, s, 0));
            assert forall|j: int| 0 <= j < p0.faces@.len() implies #[trigger] p1.faces@[j]
                == p0.faces@[j] by {
                assert(face_qturned(p0.faces@[j], p1.faces@[j], s, 0));
                lemma_qdir_identity(p0.faces@[j].side, s);
            }
            assert(p1.faces@ =~= p0.faces@);
        } else {
            assert(piece_eq(p0, p1));
        }
    }
}

/// A well-formed piece has all its geometry within ten units.
proof fn lemma_wf_piece_bounded(p: CubePiece)
    requires
        wf_piece(p),
    ensures
        piece_bounded(p, 10_000),
{
    assert forall|j: int| 0 <= j < p.faces@.len() implies face_bounded(
        #[trigger] p.faces@[j],
        10_000,
    ) by {
        assert(wf_face(p.faces@[j]));
    }
}

impl Cube {
    /// Applies one move: decodes it, and turns every piece on the decoded
    /// face's layer by the full angle in one exact step.  `Reset` decodes to
    /// nothing and leaves the cube untouched (discarding and rebuilding the
    /// cube is the caller's affair).
    pub fn apply_move(&mut self, cube_move: &CubeMove)
        requires
            wf_cube(*old(self)),
        ensures
            wf_cube(*final(self)),
            move_applied(*old(self), *final(self), *cube_move),
    {
        if let Some((face_direction, rotation_theta)) = cube_move.to_direction_and_degree() {
            proof {
                assert(rotation_theta == -90 || rotation_theta == 90 || rotation_theta == 180);
            }
            let cd = rotation_theta * 100;
            let n = self.pieces.len();
            let mut i: usize = 0;
            while i < n
                invariant
                    n == 27,
                    0 <= i <= n,
                    wf_cube(*old(self)),
                    self.pieces@.len() == 27,
                    maps_eq(*old(self), *self),
                    decode_spec(*cube_move) == Some((face_direction, rotation_theta as int)),
                    cd == rotation_theta * 100,
                    rotation_theta == -90 || rotation_theta == 90 || rotation_theta == 180,
                    forall|kk: int|
                        0 <= kk < i ==> if composed_spec(
                            (#[trigger] old(self).pieces@[kk]).position@,
                            face_direction,
                        ) {
                            piece_rotated(
                                old(self).pieces@[kk],
                                self.pieces@[kk],
                                face_direction,
                                cd as int,
                            )
                        } else {
                            piece_eq(old(self).pieces@[kk], self.pieces@[kk])
                        },
                    forall|kk: int|
                        i <= kk < 27 ==> #[trigger] self.pieces@[kk] == old(self).pieces@[kk],
                decreases n - i,
            {
                let pos = self.pieces[i].get_position();
                if vector_is_composed_with_direction(pos, face_direction) {
                    let ghost pre = self.pieces@;
                    let mut piece = self.pieces.remove(i);
                    proof {
                        lemma_wf_piece_bounded(piece);
                    }
                    piece.rotate(face_direction, cd);
                    self.pieces.insert(i, piece);
                    proof {
                        assert(self.pieces@ =~= pre.update(i as int, piece));
                    }
                }
                i += 1;
            }
            proof {
                assert(layer_turned(
                    *old(self),
                    *self,
                    face_direction,
                    cd as int,
                ));
                lemma_layer_turn_is_qturn(*old(self), *self, face_direction, cd as int);
                lemma_layer_qturn_preserves_wf(
                    *old(self),
                    *self,
                    face_direction,
                    move_k(face_direction, cd as int),
                );
            }
        }
    }
}

// ---------------------------------------------------------------------------
// Unwrapping to six flat color grids
// ---------------------------------------------------------------------------

/// The fixed presentation order of the six faces in `unwrap`.
pub open spec fn face_order(fi: int) -> Direction {
    if fi == 0 {
        Direction::Up
    } else if fi == 1 {
        Direction::Left
    } else if fi == 2 {
        Direction::Front
    } else if fi == 3 {
        Direction::Right
    } else if fi == 4 {
        Direction::Back
    } else {
        Direction::Down
    }
}

/// The color shown at grid cell `(row, col)` of face `d`: the color of the
/// face lying on side `d` of the piece found at that cell's 3D position.
/// On a well-formed cube both the piece and the face exist and are unique.
pub open spec fn cell_color_spec(c: Cube, d: Direction, row: int, col: int) -> StickerColor {
    let pos = grid_xyz(d, col, row);
    let i = choose|i: int| 0 <= i < c.pieces@.len() && (#[trigger] c.pieces@[i]).position@ == pos;
    let fs = c.pieces@[i].faces@;
    let j = choose|j: int| 0 <= j < fs.len() && (#[trigger] fs[j]).side == d;
    fs[j].color
}

/// Every grid cell of a face sits on the lattice and on that face's layer.
pub proof fn lemma_grid_cell(d: Direction, gx: int, gy: int)
    requires
        0 <= gx < 3,
        0 <= gy < 3,
    ensures
        lattice_pt(grid_xyz(d, gx, gy)),
        composed_spec(grid_xyz(d, gx, gy), d),
{
    let m = std_map_spec(d);
    let fx = gx - m.xy_start_grid.x as int;
    let fy = gy - m.xy_start_grid.y as int;
    crate::geometry::lemma_scale_right(fx, m.x_slope.x as int);
    crate::geometry::lemma_scale_right(fx, m.x_slope.y as int);
    crate::geometry::lemma_scale_right(fx, m.x_slope.z as int);
    crate::geometry::lemma_scale_right(fy, m.y_slope.x as int);
    crate::geometry::lemma_scale_right(fy, m.y_slope.y as int);
    crate::geometry::lemma_scale_right(fy, m.y_slope.z as int);
}

impl Cube {
    /// The piece currently sitting exactly at `position`, as an index into
    /// `pieces`.
    fn get_face_piece_by_position(&self, position: Vec3) -> (r: Option<usize>)
        ensures
            r matches Some(i) ==> 0 <= i < self.pieces@.len() && self.pieces@[i as int].position
                == position,
            r is None ==> forall|i: int|
                0 <= i < self.pieces@.len() ==> (#[trigger] self.pieces@[i]).position != position,
    {
        let n = self.pieces.len();
        let mut i: usize = 0;
        while i < n
            invariant
                n == self.pieces@.len(),
                0 <= i <= n,
                forall|kk: int|
                    0 <= kk < i ==> (#[trigger] self.pieces@[kk]).position != position,
            decreases n - i,
        {
            if self.pieces[i].get_position() == position {
                return Some(i);
            }
            i += 1;
        }
        None
    }

    /// The UV map the cube holds for `face_direction`.
    fn get_uv_map(&self, face_direction: &Direction) -> (r: &UvMap)
        ensures
            *r == uv_map_of(*self, *face_direction),
    {
        match face_direction {
            Direction::Up => &self.up_map,
            Direction::Down => &self.down_map,
            Direction::Left => &self.left_map,
            Direction::Right => &self.right_map,
            Direction::Front => &self.front_map,
            Direction::Back => &self.back_map,
        }
    }

    /// One face of the cube as a full 3x3 color grid: for every cell, the
    /// map gives the cell's 3D position, the piece there is found, and its
    /// face on `face_direction` contributes its color.  Well-formedness
    /// guarantees that no cell is ever missing.
    pub fn unwrap_face(&self, face_direction: &Direction) -> (r: Vec<Vec<StickerColor>>)
        requires
            wf_cube(*self),
        ensures
            r@.len() == 3,
            forall|row: int| 0 <= row < 3 ==> (#[trigger] r@[row])@.len() == 3,
            forall|row: int, col: int|
                0 <= row < 3 && 0 <= col < 3 ==> (#[trigger] r@[row]@[col]) == cell_color_spec(
                    *self,
                    *face_direction,
                    row,
                    col,
                ),
    {
        let ghost d = *face_direction;
        let mut unwrapped_face: Vec<Vec<StickerColor>> = Vec::new();
        let uv_map = self.get_uv_map(face_direction);
        let mut row: usize = 0;
        while row < 3
            invariant
                wf_cube(*self),
                d == *face_direction,
                *uv_map == uv_map_of(*self, d),
                0 <= row <= 3,
                unwrapped_face@.len() == row,
                forall|r2: int| 0 <= r2 < row ==> (#[trigger] unwrapped_face@[r2])@.len() == 3,
                forall|r2: int, c2: int|
                    0 <= r2 < row && 0 <= c2 < 3 ==> (#[trigger] unwrapped_face@[r2]@[c2])
                        == cell_color_spec(*self, d, r2, c2),
            decreases 3 - row,
        {
            let mut unwrapped_row: Vec<StickerColor> = Vec::new();
            let mut col: usize = 0;
            while col < 3
                invariant
                    wf_cube(*self),
                    d == *face_direction,
                    *uv_map == uv_map_of(*self, d),
                    0 <= row < 3,
                    0 <= col <= 3,
                    unwrapped_row@.len() == col,
                    forall|c2: int|
                        0 <= c2 < col ==> (#[trigger] unwrapped_row@[c2]) == cell_color_spec(
                            *self,
                            d,
                            row as int,
                            c2,
                        ),
                decreases 3 - col,
            {
                let new_v = uv_map.get_xyz_vector_from_xy_vector(
                    Vec2 { x: col as i64, y: row as i64 },
                );
                proof {
                    lemma_grid_cell(d, col as int, row as int);
                    assert(new_v@ == grid_xyz(d, col as int, row as int));
                }
                let found = self.get_face_piece_by_position(new_v);
                proof {
                    assert(lattice_pt(new_v@));
                    let w = choose|i: int|
                        0 <= i < 27 && (#[trigger] self.pieces@[i]).position@ == new_v@;
                    assert(self.pieces@[w].position == new_v);
                    assert(found is Some);
                }
                let idx = found.unwrap();
                let face_opt = self.pieces[idx].get_face(face_direction);
                proof {
                    let p = self.pieces@[idx as int];
                    assert(wf_piece(p));
                    assert(composed_spec(p.position@, d));
                    assert(has_side(p.faces@, d));
                    let j = choose|j: int|
                        0 <= j < p.faces@.len() && (#[trigger] p.faces@[j]).side == d;
                    if face_opt is None {
                        assert(p.faces@[j].side != d);
                    }
                }
                let face = face_opt.unwrap();
                unwrapped_row.push(face.color);
                proof {
                    let pos = grid_xyz(d, col as int, row as int);
                    let i0 = choose|i: int|
                        0 <= i < self.pieces@.len() && (#[trigger] self.pieces@[i]).position@
                            == pos;
                    assert(self.pieces@[idx as int].position@ == pos);
                    if i0 != idx as int {
                        assert(self.pieces@[i0].position@ != self.pieces@[idx as int].position@);
                    }
                    let p = self.pieces@[idx as int];
                    let fs = p.faces@;
                    let j0 = choose|j: int| 0 <= j < fs.len() && (#[trigger] fs[j]).side == d;
                    let j1 = choose|j: int|
                        0 <= j < fs.len() && (#[trigger] fs[j]) == face && face.side == d;
                    assert(fs[j1].side == d);
                    if j0 != j1 {
                        assert(fs[j0].side != fs[j1].side);
                    }
                    assert(face.color == cell_color_spec(*self, d, row as int, col as int));
                }
                col += 1;
            }
            unwrapped_face.push(unwrapped_row);
            row += 1;
        }
        unwrapped_face
    }

    /// The whole cube unwrapped: six full 3x3 color grids, in the fixed
    /// presentation order Up, Left, Front, Right, Back, Down.
    pub fn unwrap(&self) -> (r: Vec<Vec<Vec<StickerColor>>>)
        requires
            wf_cube(*self),
        ensures
            r@.len() == 6,
            forall|fi: int| 0 <= fi < 6 ==> (#[trigger] r@[fi])@.len() == 3,
            forall|fi: int, row: int|
                0 <= fi < 6 && 0 <= row < 3 ==> (#[trigger] r@[fi]@[row])@.len() == 3,
            forall|fi: int, row: int, col: int|
                0 <= fi < 6 && 0 <= row < 3 && 0 <= col < 3 ==> (#[trigger] r@[fi]@[row]@[col])
                    == cell_color_spec(*self, face_order(fi), row, col),
    {
        let mut faces: Vec<Vec<Vec<StickerColor>>> = Vec::new();
        faces.push(self.unwrap_face(&Direction::Up));
        faces.push(self.unwrap_face(&Direction::Left));
        faces.push(self.unwrap_face(&Direction::Front));
        faces.push(self.unwrap_face(&Direction::Right));
        faces.push(self.unwrap_face(&Direction::Back));
        faces.push(self.unwrap_face(&Direction::Down));
        faces
    }
}

// ---------------------------------------------------------------------------
// Animation frames
// ---------------------------------------------------------------------------

/// The cumulative rotation angle, in centidegrees, after `j` of `segments`
/// equal steps of a `deg`-degree turn (rounded toward zero).
pub open spec fn partial_cd(deg: int, j: int, segments: int) -> int {
    if deg >= 0 {
        deg * 100 * j / segments
    } else {
        -((-deg) * 100 * j / segments)
    }
}

/// One animation frame: all 27 pieces, those on the turned layer rotated
/// from the cube's current state by the one cumulative angle, the rest
/// copied unchanged.
pub open spec fn frame_ok(c: Cube, frame: Vec<CubePiece>, d: Direction, cd: int) -> bool {
    &&& frame@.len() == 27
    &&& forall|i: int|
        0 <= i < 27 ==> if composed_spec((#[trigger] c.pieces@[i]).position@, d) {
            piece_rotated(c.pieces@[i], frame@[i], d, cd)
        } else {
            piece_eq(c.pieces@[i], frame@[i])
        }
}

/// Rotating a lattice point by nine tenths of a move angle lands within 45
/// hundredths, per coordinate, of rotating it by the full angle.
#[verifier::rlimit(100)]
#[verifier::spinoff_prover]
pub proof fn lemma_partial_turn_component_bound(p: V3, d: Direction, deg: int)
    requires
        lattice_pt(p),
        deg == -90 || deg == 90 || deg == 180,
    ensures
        -45 <= mat_vec_spec(rot_mat_spec(d, partial_cd(deg, 9, 10)), p).x - mat_vec_spec(
            rot_mat_spec(d, 100 * deg),
            p,
        ).x <= 45,
        -45 <= mat_vec_spec(rot_mat_spec(d, partial_cd(deg, 9, 10)), p).y - mat_vec_spec(
            rot_mat_spec(d, 100 * deg),
            p,
        ).y <= 45,
        -45 <= mat_vec_spec(rot_mat_spec(d, partial_cd(deg, 9, 10)), p).z - mat_vec_spec(
            rot_mat_spec(d, 100 * deg),
            p,
        ).z <= 45,
{
    crate::trig::lemma_partial_trig_values();
    crate::trig::lemma_trig_quarters();
    lemma_move_rot_mat(d, 100 * deg);
    crate::trig::lemma_move_k_opposites(d);
    vstd::arithmetic::div_mod::lemma_fundamental_div_mod_converse(81000, 10, 8100, 0);
    vstd::arithmetic::div_mod::lemma_fundamental_div_mod_converse(162000, 10, 16200, 0);
    assert(partial_cd(90, 9, 10) == 8100);
    assert(partial_cd(-90, 9, 10) == -8100);
    assert(partial_cd(180, 9, 10) == 16200);
    let m1 = rot_mat_spec(d, partial_cd(deg, 9, 10));
    let m2 = rot_mat_spec(d, 100 * deg);
    let s = axis_slot(d);
    if deg == 180 {
        if s == 0 {
            crate::geometry::lemma_row_dot_close(m1.r0, m2.r0, p, 0, 0, 0);
            crate::geometry::lemma_row_dot_close(m1.r1, m2.r1, p, 0, 5, 31);
            crate::geometry::lemma_row_dot_close(m1.r2, m2.r2, p, 0, 31, 5);
        } else if s == 1 {
            crate::geometry::lemma_row_dot_close(m1.r0, m2.r0, p, 5, 0, 31);
            crate::geometry::lemma_row_dot_close(m1.r1, m2.r1, p, 0, 0, 0);
            crate::geometry::lemma_row_dot_close(m1.r2, m2.r2, p, 31, 0, 5);
        } else {
            crate::geometry::lemma_row_dot_close(m1.r0, m2.r0, p, 5, 31, 0);
            crate::geometry::lemma_row_dot_close(m1.r1, m2.r1, p, 31, 5, 0);
            crate::geometry::lemma_row_dot_close(m1.r2, m2.r2, p, 0, 0, 0);
        }
    } else {
        if s == 0 {
            crate::geometry::lemma_row_dot_close(m1.r0, m2.r0, p, 0, 0, 0);
            crate::geometry::lemma_row_dot_close(m1.r1, m2.r1, p, 0, 16, 1);
            crate::geometry::lemma_row_dot_close(m1.r2, m2.r2, p, 0, 1, 16);
        } else if s == 1 {
            crate::geometry::lemma_row_dot_close(m1.r0, m2.r0, p, 16, 0, 1);
            crate::geometry::lemma_row_dot_close(m1.r1, m2.r1, p, 0, 0, 0);
            crate::geometry::lemma_row_dot_close(m1.r2, m2.r2, p, 1, 0, 16);
        } else {
            crate::geometry::lemma_row_dot_close(m1.r0, m2.r0, p, 16, 1, 0);
            crate::geometry::lemma_row_dot_close(m1.r1, m2.r1, p, 1, 16, 0);
            crate::geometry::lemma_row_dot_close(m1.r2, m2.r2, p, 0, 0, 0);
        }
    }
}

impl Cube {
    /// The intermediate frames of an animated move: for `k` from 1 to
    /// `segments - 1`, a snapshot of all 27 pieces with the turned layer
    /// rotated by `k/segments` of the full angle.  The frame for step 0 (the
    /// state the caller already has) and the final step (the state the
    /// non-animated `apply_move` produces) are not emitted.  The cube itself
    /// is not changed: frames are presentation data, never the authoritative
    /// state.
    pub fn apply_move_with_animation(&self, cube_move: &CubeMove, segments: usize) -> (r: Vec<
        Vec<CubePiece>,
    >)
        requires
            wf_cube(*self),
            segments <= 1_000_000_000,
        ensures
            decode_spec(*cube_move) is None ==> r@.len() == 0,
            decode_spec(*cube_move) matches Some((d, deg)) ==> {
                &&& r@.len() == (if segments >= 1 {
                    (segments - 1) as int
                } else {
                    0int
                })
                &&& forall|k: int|
                    0 <= k < r@.len() ==> frame_ok(
                        *self,
                        #[trigger] r@[k],
                        d,
                        partial_cd(deg, k + 1, segments as int),
                    )
            },
    {
        let mut cube_pieces_animation: Vec<Vec<CubePiece>> = Vec::new();
        if let Some((face_direction, rotation_theta)) = cube_move.to_direction_and_degree() {
            proof {
                assert(rotation_theta == -90 || rotation_theta == 90 || rotation_theta == 180);
            }
            let mag: i64 = if rotation_theta >= 0 {
                rotation_theta
            } else {
                -rotation_theta
            };
            let mut index: usize = 1;
            while index < segments
                invariant
                    wf_cube(*self),
                    self.pieces@.len() == 27,
                    segments <= 1_000_000_000,
                    decode_spec(*cube_move) == Some((face_direction, rotation_theta as int)),
                    rotation_theta == -90 || rotation_theta == 90 || rotation_theta == 180,
                    mag == (if rotation_theta >= 0 {
                        rotation_theta as int
                    } else {
                        -(rotation_theta as int)
                    }),
                    1 <= index,
                    segments >= 1 ==> index <= segments,
                    segments == 0 ==> index == 1,
                    cube_pieces_animation@.len() == index - 1,
                    forall|k: int|
                        0 <= k < index - 1 ==> frame_ok(
                            *self,
                            #[trigger] cube_pieces_animation@[k],
                            face_direction,
                            partial_cd(rotation_theta as int, k + 1, segments as int),
                        ),
                decreases segments - index,
            {
                let j = index as i64;
                proof {
                    crate::geometry::lemma_mul_bounds(
                        mag as int * 100,
                        j as int,
                        18000,
                        1_000_000_000,
                    );
                }
                let num = mag * 100 * j;
                let mcd = num / (segments as i64);
                proof {
                    let numi = num as int;
                    let si = segments as int;
                    assert(0 <= numi <= 18000 * si) by {
                        crate::geometry::lemma_mul_bounds(mag as int * 100, j as int, 18000, si);
                    }
                    assert(numi / si <= (18000 * si) / si && 0 <= numi / si) by {
                        vstd::arithmetic::div_mod::lemma_div_is_ordered(numi, 18000 * si, si);
                        vstd::arithmetic::div_mod::lemma_div_is_ordered(0, numi, si);
                        vstd::arithmetic::div_mod::lemma_fundamental_div_mod_converse(0, si, 0, 0);
                    }
                    assert((18000 * si) / si == 18000) by {
                        vstd::arithmetic::div_mod::lemma_fundamental_div_mod_converse(
                            18000 * si,
                            si,
                            18000,
                            0,
                        );
                    }
                }
                let cd = if rotation_theta >= 0 {
                    mcd
                } else {
                    -mcd
                };
                proof {
                    assert(cd as int == partial_cd(
                        rotation_theta as int,
                        index as int,
                        segments as int,
                    ));
                }
                let mut frame: Vec<CubePiece> = Vec::new();
                let mut i: usize = 0;
                while i < 27
                    invariant
                        wf_cube(*self),
                        self.pieces@.len() == 27,
                        0 <= i <= 27,
                        -18000 <= cd <= 18000,
                        frame@.len() == i,
                        forall|kk: int|
                            0 <= kk < i ==> if composed_spec(
                                (#[trigger] self.pieces@[kk]).position@,
                                face_direction,
                            ) {
                                piece_rotated(
                                    self.pieces@[kk],
                                    frame@[kk],
                                    face_direction,
                                    cd as int,
                                )
                            } else {
                                piece_eq(self.pieces@[kk], frame@[kk])
                            },
                    decreases 27 - i,
                {
                    let piece_ref = &self.pieces[i];
                    let mut piece = copy_piece(piece_ref);
                    proof {
                        lemma_wf_piece_bounded(self.pieces@[i as int]);
                    }
                    if vector_is_composed_with_direction(piece_ref.position, face_direction) {
                        piece.rotate(face_direction, cd);
                    }
                    frame.push(piece);
                    i += 1;
                }
                cube_pieces_animation.push(frame);
                index += 1;
            }
        }
        cube_pieces_animation
    }
}

} // verus!
