//! Global laws of the cube: what the solved state shows, how moves cancel,
//! and the fixed piece population.

use vstd::prelude::*;
use vstd::arithmetic::div_mod::lemma_fundamental_div_mod_converse;
use crate::cube::{
    cell_color_spec, cube_eq, grid_xyz, has_side, is_solved, layer_qturned, lemma_grid_cell,
    lemma_layer_qturn_compose, lemma_layer_qturn_preserves_wf, lemma_layer_qturn_zero,
    lemma_layer_turn_is_qturn, lemma_opposite_layers_commute, lemma_partial_turn_component_bound,
    lemma_qturn_is_layer_turn, frame_ok, move_applied, partial_cd, wf_cube, wf_face, wf_piece,
    Cube, CubePiece,
};
use crate::direction::{color_of, composed_spec, dir_vec, opposite_of, Direction};
use crate::geometry::nonzero_count;
use crate::moves::{decode_spec, face_double_move, inverse_move, is_double_move, is_quarter_move, CubeMove};
use crate::trig::{axis_slot, lemma_move_k_opposites, lemma_qrot_own_axis_fixed, move_k};

verus! {

/// On a well-formed, solved cube, every cell of face `d` shows `d`'s color:
/// the unwrap of a solved cube is six uniform grids.
pub proof fn lemma_solved_unwrap_cell(c: Cube, d: Direction, row: int, col: int)
    requires
        wf_cube(c),
        is_solved(c),
        0 <= row < 3,
        0 <= col < 3,
    ensures
        cell_color_spec(c, d, row, col) == color_of(d),
{
    lemma_grid_cell(d, col, row);
    let pos = grid_xyz(d, col, row);
    let i = choose|i: int| 0 <= i < c.pieces@.len() && (#[trigger] c.pieces@[i]).position@ == pos;
    assert(c.pieces@[i].position@ == pos);
    let p = c.pieces@[i];
    assert(wf_piece(p));
    assert(composed_spec(p.position@, d));
    assert(has_side(p.faces@, d));
    let fs = p.faces@;
    let j = choose|j: int| 0 <= j < fs.len() && (#[trigger] fs[j]).side == d;
    assert(wf_face(fs[j]));
    assert(fs[j].side == fs[j].initial_side_direction);
}

/// Small modulus table for composing quarter counts.
proof fn lemma_mod4_values()
    ensures
        0int % 4 == 0,
        1int % 4 == 1,
        2int % 4 == 2,
        3int % 4 == 3,
        4int % 4 == 0,
        5int % 4 == 1,
        6int % 4 == 2,
{
    lemma_fundamental_div_mod_converse(0, 4, 0, 0);
    lemma_fundamental_div_mod_converse(1, 4, 0, 1);
    lemma_fundamental_div_mod_converse(2, 4, 0, 2);
    lemma_fundamental_div_mod_converse(3, 4, 0, 3);
    lemma_fundamental_div_mod_converse(4, 4, 1, 0);
    lemma_fundamental_div_mod_converse(5, 4, 1, 1);
    lemma_fundamental_div_mod_converse(6, 4, 1, 2);
}

/// Applying a quarter-turn move and then its inverse restores the cube
/// exactly: the same positions, sides, rotations and colors, on any
/// well-formed starting state.
pub proof fn lemma_quarter_then_inverse(c0: Cube, c1: Cube, c2: Cube, m: CubeMove)
    requires
        wf_cube(c0),
        is_quarter_move(m),
        move_applied(c0, c1, m),
        move_applied(c1, c2, inverse_move(m)),
    ensures
        cube_eq(c0, c2),
{
    let dd = choose|dd: (Direction, int)| decode_spec(m) == Some(dd);
    let d = dd.0;
    let deg = dd.1;
    crate::moves::lemma_inverse_move_decode(m);
    let cd1 = 100 * deg;
    let cd2 = 100 * (-deg);
    lemma_layer_turn_is_qturn(c0, c1, d, cd1);
    lemma_layer_qturn_preserves_wf(c0, c1, d, move_k(d, cd1));
    lemma_layer_turn_is_qturn(c1, c2, d, cd2);
    lemma_move_k_opposites(d);
    lemma_layer_qturn_compose(c0, c1, c2, d, move_k(d, cd1), move_k(d, cd2));
    lemma_mod4_values();
    lemma_layer_qturn_zero(c0, c2, d);
}

/// Applying a half-turn move twice is the identity: the cube returns to
/// exactly the state it started from.
pub proof fn lemma_double_twice(c0: Cube, c1: Cube, c2: Cube, m: CubeMove)
    requires
        wf_cube(c0),
        is_double_move(m),
        move_applied(c0, c1, m),
        move_applied(c1, c2, m),
    ensures
        cube_eq(c0, c2),
{
    let dd = choose|dd: (Direction, int)| decode_spec(m) == Some(dd);
    let d = dd.0;
    let cd: int = 100int * 180;
    lemma_layer_turn_is_qturn(c0, c1, d, cd);
    lemma_layer_qturn_preserves_wf(c0, c1, d, move_k(d, cd));
    lemma_layer_turn_is_qturn(c1, c2, d, cd);
    lemma_move_k_opposites(d);
    lemma_layer_qturn_compose(c0, c1, c2, d, move_k(d, cd), move_k(d, cd));
    lemma_mod4_values();
    lemma_layer_qturn_zero(c0, c2, d);
}

/// One more application of the same move on top of `t` accumulated quarter
/// turns of the layer.
proof fn lemma_one_more_quarter(c0: Cube, ca: Cube, cb: Cube, m: CubeMove, t: int)
    requires
        wf_cube(c0),
        wf_cube(ca),
        decode_spec(m) is Some,
        layer_qturned(c0, ca, decode_spec(m)->Some_0.0, t),
        0 <= t < 4,
        move_applied(ca, cb, m),
    ensures
        wf_cube(cb),
        layer_qturned(
            c0,
            cb,
            decode_spec(m)->Some_0.0,
            (t + move_k(decode_spec(m)->Some_0.0, 100 * decode_spec(m)->Some_0.1)) % 4,
        ),
        0 <= (t + move_k(decode_spec(m)->Some_0.0, 100 * decode_spec(m)->Some_0.1)) % 4 < 4,
{
    let d = decode_spec(m)->Some_0.0;
    let deg = decode_spec(m)->Some_0.1;
    let cd = 100 * deg;
    lemma_layer_turn_is_qturn(ca, cb, d, cd);
    lemma_layer_qturn_preserves_wf(ca, cb, d, move_k(d, cd));
    lemma_layer_qturn_compose(c0, ca, cb, d, t, move_k(d, cd));
    vstd::arithmetic::div_mod::lemma_mod_pos_bound(t + move_k(d, cd), 4);
}

/// Applying the same quarter-turn move four times in a row is the identity.
pub proof fn lemma_four_quarters(c0: Cube, c1: Cube, c2: Cube, c3: Cube, c4: Cube, m: CubeMove)
    requires
        wf_cube(c0),
        is_quarter_move(m),
        move_applied(c0, c1, m),
        move_applied(c1, c2, m),
        move_applied(c2, c3, m),
        move_applied(c3, c4, m),
    ensures
        cube_eq(c0, c4),
{
    let d = decode_spec(m)->Some_0.0;
    let deg = decode_spec(m)->Some_0.1;
    let cd = 100 * deg;
    lemma_move_k_opposites(d);
    let k = move_k(d, cd);
    lemma_mod4_values();
    lemma_layer_turn_is_qturn(c0, c1, d, cd);
    lemma_layer_qturn_preserves_wf(c0, c1, d, k);
    lemma_one_more_quarter(c0, c1, c2, m, k);
    let k2 = (k + k) % 4;
    lemma_one_more_quarter(c0, c2, c3, m, k2);
    let k3 = (k2 + k) % 4;
    lemma_one_more_quarter(c0, c3, c4, m, k3);
    assert((k3 + k) % 4 == 0);
    lemma_layer_qturn_zero(c0, c4, d);
}

/// How many of the first `n` pieces own exactly `k` faces.
pub open spec fn count_with_faces(pieces: Seq<CubePiece>, k: int, n: int) -> int
    decreases n,
{
    if n <= 0 {
        0
    } else {
        count_with_faces(pieces, k, n - 1) + (if pieces[n - 1].faces@.len() == k {
            1int
        } else {
            0int
        })
    }
}

/// In every well-formed cube state — so in every state reachable by moves —
/// exactly 1 piece owns 0 faces, 6 own 1, 12 own 2 and 8 own 3.
pub proof fn lemma_piece_population(c: Cube)
    requires
        wf_cube(c),
    ensures
        count_with_faces(c.pieces@, 0, 27) == 1,
        count_with_faces(c.pieces@, 1, 27) == 6,
        count_with_faces(c.pieces@, 2, 27) == 12,
        count_with_faces(c.pieces@, 3, 27) == 8,
{
    reveal_with_fuel(count_with_faces, 28);
    assert forall|i: int| 0 <= i < 27 implies (#[trigger] c.pieces@[i]).faces@.len()
        == nonzero_count(crate::cube::lat_idx(i)) by {}
    assert(c.pieces@[0].faces@.len() == 3);
    assert(c.pieces@[1].faces@.len() == 2);
    assert(c.pieces@[2].faces@.len() == 3);
    assert(c.pieces@[3].faces@.len() == 2);
    assert(c.pieces@[4].faces@.len() == 1);
    assert(c.pieces@[5].faces@.len() == 2);
    assert(c.pieces@[6].faces@.len() == 3);
    assert(c.pieces@[7].faces@.len() == 2);
    assert(c.pieces@[8].faces@.len() == 3);
    assert(c.pieces@[9].faces@.len() == 2);
    assert(c.pieces@[10].faces@.len() == 1);
    assert(c.pieces@[11].faces@.len() == 2);
    assert(c.pieces@[12].faces@.len() == 1);
    assert(c.pieces@[13].faces@.len() == 0);
    assert(c.pieces@[14].faces@.len() == 1);
    assert(c.pieces@[15].faces@.len() == 2);
    assert(c.pieces@[16].faces@.len() == 1);
    assert(c.pieces@[17].faces@.len() == 2);
    assert(c.pieces@[18].faces@.len() == 3);
    assert(c.pieces@[19].faces@.len() == 2);
    assert(c.pieces@[20].faces@.len() == 3);
    assert(c.pieces@[21].faces@.len() == 2);
    assert(c.pieces@[22].faces@.len() == 1);
    assert(c.pieces@[23].faces@.len() == 2);
    assert(c.pieces@[24].faces@.len() == 3);
    assert(c.pieces@[25].faces@.len() == 2);
    assert(c.pieces@[26].faces@.len() == 3);
}

/// Two exact quarter turns of a layer are the half-turn move of that face.
proof fn lemma_qturned_double_is_applied(c0: Cube, c2: Cube, d: Direction)
    requires
        wf_cube(c0),
        layer_qturned(c0, c2, d, 2),
    ensures
        move_applied(c0, c2, face_double_move(d)),
{
    lemma_move_k_opposites(d);
    lemma_qturn_is_layer_turn(c0, c2, d, 18000);
}

/// Applying a quarter-turn move twice has exactly the effect of the half
/// turn of the same face.
#[verifier::rlimit(100)]
#[verifier::spinoff_prover]
pub proof fn lemma_two_quarters_make_double(c0: Cube, c1: Cube, c2: Cube, m: CubeMove)
    requires
        wf_cube(c0),
        is_quarter_move(m),
        move_applied(c0, c1, m),
        move_applied(c1, c2, m),
    ensures
        move_applied(c0, c2, face_double_move(decode_spec(m)->Some_0.0)),
{
    let d = decode_spec(m)->Some_0.0;
    let deg = decode_spec(m)->Some_0.1;
    let cd = 100 * deg;
    lemma_move_k_opposites(d);
    let k = move_k(d, cd);
    lemma_mod4_values();
    lemma_layer_turn_is_qturn(c0, c1, d, cd);
    lemma_layer_qturn_preserves_wf(c0, c1, d, k);
    lemma_one_more_quarter(c0, c1, c2, m, k);
    assert((k + k) % 4 == 2);
    lemma_qturned_double_is_applied(c0, c2, d);
}

/// No move ever changes a sticker's color or home side, and the six center
/// pieces never leave their positions.
pub proof fn lemma_colors_and_centers_preserved(c0: Cube, c1: Cube, m: CubeMove)
    requires
        wf_cube(c0),
        move_applied(c0, c1, m),
    ensures
        c1.pieces@.len() == c0.pieces@.len(),
        forall|i: int, j: int|
            0 <= i < c0.pieces@.len() && 0 <= j < c0.pieces@[i].faces@.len() ==> {
                &&& (#[trigger] c1.pieces@[i].faces@[j]).color == c0.pieces@[i].faces@[j].color
                &&& c1.pieces@[i].faces@[j].initial_side_direction
                    == c0.pieces@[i].faces@[j].initial_side_direction
            },
        forall|i: int|
            0 <= i < c0.pieces@.len() && nonzero_count((#[trigger] c0.pieces@[i]).position@) == 1
                ==> c1.pieces@[i].position@ == c0.pieces@[i].position@,
{
    match decode_spec(m) {
        None => {}
        Some((d, deg)) => {
            let cd = 100 * deg;
            assert(cd == -9000 || cd == 9000 || cd == 18000);
            lemma_layer_turn_is_qturn(c0, c1, d, cd);
            let s = axis_slot(d);
            let k = move_k(d, cd);
            assert forall|i: int|
                0 <= i < c0.pieces@.len() && nonzero_count(
                    (#[trigger] c0.pieces@[i]).position@,
                ) == 1 implies c1.pieces@[i].position@ == c0.pieces@[i].position@ by {
                let p = c0.pieces@[i].position@;
                if composed_spec(p, d) {
                    // a one-face piece on the turned layer is that face's own
                    // center, whose unit vector the rotation fixes
                    assert(p == dir_vec(d));
                    lemma_qrot_own_axis_fixed(d, k);
                }
            }
        }
    }
}

/// Moves of two opposite faces commute: applying them in either order gives
/// exactly the same cube.
#[verifier::rlimit(100)]
#[verifier::spinoff_prover]
pub proof fn lemma_opposite_moves_commute(
    c0: Cube,
    c1: Cube,
    c2: Cube,
    c1b: Cube,
    c2b: Cube,
    m1: CubeMove,
    m2: CubeMove,
)
    requires
        wf_cube(c0),
        decode_spec(m1) is Some,
        decode_spec(m2) is Some,
        decode_spec(m2)->Some_0.0 == opposite_of(decode_spec(m1)->Some_0.0),
        move_applied(c0, c1, m1),
        move_applied(c1, c2, m2),
        move_applied(c0, c1b, m2),
        move_applied(c1b, c2b, m1),
    ensures
        cube_eq(c2, c2b),
{
    let d1 = decode_spec(m1)->Some_0.0;
    let d2 = decode_spec(m2)->Some_0.0;
    let cd1 = 100 * decode_spec(m1)->Some_0.1;
    let cd2 = 100 * decode_spec(m2)->Some_0.1;
    lemma_layer_turn_is_qturn(c0, c1, d1, cd1);
    lemma_layer_qturn_preserves_wf(c0, c1, d1, move_k(d1, cd1));
    lemma_layer_turn_is_qturn(c1, c2, d2, cd2);
    lemma_layer_turn_is_qturn(c0, c1b, d2, cd2);
    lemma_layer_qturn_preserves_wf(c0, c1b, d2, move_k(d2, cd2));
    lemma_layer_turn_is_qturn(c1b, c2b, d1, cd1);
    lemma_opposite_layers_commute(
        c0,
        c1,
        c2,
        c1b,
        c2b,
        d1,
        d2,
        move_k(d1, cd1),
        move_k(d2, cd2),
    );
}

/// The last of ten animation frames sits one segment (a tenth of the angle)
/// short of the full turn, so its piece positions are close to, without
/// exactly equalling, the positions the applied move produces: within 45
/// hundredths per coordinate.
pub proof fn lemma_final_frame_near_full_turn(c: Cube, frame: Vec<CubePiece>, c1: Cube, m: CubeMove)
    requires
        wf_cube(c),
        decode_spec(m) is Some,
        frame_ok(
            c,
            frame,
            decode_spec(m)->Some_0.0,
            partial_cd(decode_spec(m)->Some_0.1, 9, 10),
        ),
        move_applied(c, c1, m),
    ensures
        forall|i: int|
            0 <= i < 27 ==> {
                &&& -45 <= (#[trigger] frame@[i]).position@.x - c1.pieces@[i].position@.x <= 45
                &&& -45 <= frame@[i].position@.y - c1.pieces@[i].position@.y <= 45
                &&& -45 <= frame@[i].position@.z - c1.pieces@[i].position@.z <= 45
            },
{
    let d = decode_spec(m)->Some_0.0;
    let deg = decode_spec(m)->Some_0.1;
    assert forall|i: int|
        0 <= i < 27 implies {
        &&& -45 <= (#[trigger] frame@[i]).position@.x - c1.pieces@[i].position@.x <= 45
        &&& -45 <= frame@[i].position@.y - c1.pieces@[i].position@.y <= 45
        &&& -45 <= frame@[i].position@.z - c1.pieces@[i].position@.z <= 45
    } by {
        let p = c.pieces@[i];
        assert(wf_piece(p));
        if composed_spec(p.position@, d) {
            lemma_partial_turn_component_bound(p.position@, d, deg);
        }
    }
}

} // verus!
