use cube_core::cube::Cube;
use cube_core::direction::{Direction, StickerColor};
use cube_core::geometry::Vec3;
use cube_core::moves::CubeMove;
use StickerColor::{Blue, Green, Orange, Red, White, Yellow};

fn solved_layout() -> Vec<Vec<Vec<StickerColor>>> {
    [White, Orange, Green, Red, Blue, Yellow]
        .iter()
        .map(|c| vec![vec![*c; 3]; 3])
        .collect()
}

fn uniform_rows(
    top: StickerColor,
    rest: StickerColor,
) -> Vec<Vec<StickerColor>> {
    vec![vec![top; 3], vec![rest; 3], vec![rest; 3]]
}

#[test]
fn fresh_cube_unwraps_to_solved_colors() {
    let cube = Cube::new();
    let faces = cube.unwrap();
    assert_eq!(faces.len(), 6);
    for face in &faces {
        assert_eq!(face.len(), 3);
        for row in face {
            assert_eq!(row.len(), 3);
        }
    }
    assert_eq!(faces, solved_layout());
}

#[test]
fn fresh_cube_has_27_pieces_on_the_lattice() {
    let cube = Cube::new();
    assert_eq!(cube.pieces.len(), 27);
    for piece in &cube.pieces {
        let p = piece.get_position();
        for c in [p.x, p.y, p.z] {
            assert!(c == -100 || c == 0 || c == 100);
        }
    }
}

#[test]
fn unwrap_after_u_turn() {
    let mut cube = Cube::new();
    cube.apply_move(&CubeMove::U);
    let faces = cube.unwrap();
    // U turns the top layer clockwise seen from above: the front row of
    // stickers moves to the left face, left to back, back to right, right to
    // front.  Presentation order is Up, Left, Front, Right, Back, Down.
    assert_eq!(faces[0], vec![vec![White; 3]; 3]);
    assert_eq!(faces[1], uniform_rows(Green, Orange));
    assert_eq!(faces[2], uniform_rows(Red, Green));
    assert_eq!(faces[3], uniform_rows(Blue, Red));
    assert_eq!(faces[4], uniform_rows(Orange, Blue));
    assert_eq!(faces[5], vec![vec![Yellow; 3]; 3]);
}

#[test]
fn quarter_turn_then_inverse_restores_solved_state() {
    let mut cube = Cube::new();
    cube.apply_move(&CubeMove::U);
    cube.apply_move(&CubeMove::UPrime);
    assert_eq!(cube.unwrap(), solved_layout());
    let mut cube = Cube::new();
    cube.apply_move(&CubeMove::LPrime);
    cube.apply_move(&CubeMove::L);
    assert_eq!(cube.unwrap(), solved_layout());
}

#[test]
fn double_move_twice_restores_solved_state() {
    let mut cube = Cube::new();
    cube.apply_move(&CubeMove::U2);
    cube.apply_move(&CubeMove::U2);
    assert_eq!(cube.unwrap(), solved_layout());
    let mut cube = Cube::new();
    cube.apply_move(&CubeMove::F2);
    cube.apply_move(&CubeMove::F2);
    assert_eq!(cube.unwrap(), solved_layout());
}

#[test]
fn four_quarter_turns_restore_solved_state() {
    let mut cube = Cube::new();
    for _ in 0..4 {
        cube.apply_move(&CubeMove::U);
    }
    assert_eq!(cube.unwrap(), solved_layout());
    let mut cube = Cube::new();
    for _ in 0..4 {
        cube.apply_move(&CubeMove::RPrime);
    }
    assert_eq!(cube.unwrap(), solved_layout());
}

#[test]
fn quarter_turn_scrambles_and_restores_positions_exactly() {
    let reference = Cube::new();
    let mut cube = Cube::new();
    cube.apply_move(&CubeMove::F);
    assert_ne!(cube.unwrap(), solved_layout());
    cube.apply_move(&CubeMove::FPrime);
    for (a, b) in cube.pieces.iter().zip(reference.pieces.iter()) {
        assert_eq!(a.get_position(), b.get_position());
        assert_eq!(a.rotation, b.rotation);
        assert_eq!(a.faces, b.faces);
    }
}

#[test]
fn reset_move_leaves_the_cube_untouched() {
    let mut cube = Cube::new();
    cube.apply_move(&CubeMove::U);
    let before = cube.unwrap();
    cube.apply_move(&CubeMove::Reset);
    assert_eq!(cube.unwrap(), before);
}

#[test]
fn animation_emits_nine_snapshots_of_all_pieces() {
    let cube = Cube::new();
    let frames = cube.apply_move_with_animation(&CubeMove::U, 10);
    assert_eq!(frames.len(), 9);
    for frame in &frames {
        assert_eq!(frame.len(), 27);
    }
}

#[test]
fn animation_final_snapshot_is_near_the_full_turn() {
    let cube = Cube::new();
    let frames = cube.apply_move_with_animation(&CubeMove::U, 10);
    let mut turned = Cube::new();
    turned.apply_move(&CubeMove::U);
    let last = &frames[frames.len() - 1];
    for (a, b) in last.iter().zip(turned.pieces.iter()) {
        let pa = a.get_position();
        let pb = b.get_position();
        // the last snapshot sits one segment short of the full turn
        assert!((pa.x - pb.x).abs() <= 35);
        assert!((pa.y - pb.y).abs() <= 35);
        assert!((pa.z - pb.z).abs() <= 35);
    }
}

#[test]
fn animation_of_reset_is_empty() {
    let cube = Cube::new();
    assert_eq!(cube.apply_move_with_animation(&CubeMove::Reset, 10).len(), 0);
}

#[test]
fn animation_preserves_face_ownership() {
    let cube = Cube::new();
    let frames = cube.apply_move_with_animation(&CubeMove::R2, 10);
    for frame in &frames {
        let counts = face_count_histogram(frame);
        assert_eq!(counts, [1, 6, 12, 8]);
    }
}

fn face_count_histogram(pieces: &Vec<cube_core::cube::CubePiece>) -> [usize; 4] {
    let mut counts = [0usize; 4];
    for piece in pieces {
        counts[piece.faces.len()] += 1;
    }
    counts
}

#[test]
fn piece_population_is_fixed() {
    let mut cube = Cube::new();
    assert_eq!(face_count_histogram(&cube.pieces), [1, 6, 12, 8]);
    for m in [CubeMove::U, CubeMove::F2, CubeMove::LPrime, CubeMove::B, CubeMove::D2] {
        cube.apply_move(&m);
        assert_eq!(face_count_histogram(&cube.pieces), [1, 6, 12, 8]);
    }
}

#[test]
fn face_positions_stay_unit_after_moves() {
    let mut cube = Cube::new();
    for m in [CubeMove::R, CubeMove::U, CubeMove::F, CubeMove::DPrime, CubeMove::B2] {
        cube.apply_move(&m);
    }
    for piece in &cube.pieces {
        for face in &piece.faces {
            let p = face.position;
            let nonzero = [p.x, p.y, p.z].iter().filter(|c| **c != 0).count();
            assert_eq!(nonzero, 1);
            assert!([p.x, p.y, p.z].iter().all(|c| c.abs() == 100 || *c == 0));
        }
    }
}

#[test]
fn get_face_finds_the_sticker_on_a_side() {
    let cube = Cube::new();
    let mut seen = 0;
    for piece in &cube.pieces {
        let p = piece.get_position();
        if p == (Vec3 { x: 0, y: 100, z: 0 }) {
            let face = piece.get_face(&Direction::Up).expect("top center has an Up face");
            assert_eq!(face.color, StickerColor::White);
            assert!(piece.get_face(&Direction::Down).is_none());
            seen += 1;
        }
    }
    assert_eq!(seen, 1);
}

#[test]
fn two_quarter_turns_equal_the_double_move() {
    let mut twice = Cube::new();
    twice.apply_move(&CubeMove::U);
    twice.apply_move(&CubeMove::U);
    let mut once = Cube::new();
    once.apply_move(&CubeMove::U2);
    for (a, b) in twice.pieces.iter().zip(once.pieces.iter()) {
        assert_eq!(a.get_position(), b.get_position());
        assert_eq!(a.rotation, b.rotation);
        assert_eq!(a.faces, b.faces);
    }
    assert_eq!(twice.unwrap(), once.unwrap());
}

#[test]
fn opposite_face_moves_commute() {
    let mut ud = Cube::new();
    ud.apply_move(&CubeMove::U);
    ud.apply_move(&CubeMove::D);
    let mut du = Cube::new();
    du.apply_move(&CubeMove::D);
    du.apply_move(&CubeMove::U);
    for (a, b) in ud.pieces.iter().zip(du.pieces.iter()) {
        assert_eq!(a.get_position(), b.get_position());
        assert_eq!(a.rotation, b.rotation);
        assert_eq!(a.faces, b.faces);
    }
}

#[test]
fn moves_never_change_colors_and_centers_stay_home() {
    let reference = Cube::new();
    let mut cube = Cube::new();
    for m in [CubeMove::U, CubeMove::R2, CubeMove::FPrime, CubeMove::D, CubeMove::L2] {
        cube.apply_move(&m);
        for (a, b) in cube.pieces.iter().zip(reference.pieces.iter()) {
            for (fa, fb) in a.faces.iter().zip(b.faces.iter()) {
                assert_eq!(fa.color, fb.color);
                assert_eq!(fa.initial_side_direction, fb.initial_side_direction);
            }
            if a.faces.len() == 1 {
                assert_eq!(a.get_position(), b.get_position());
            }
        }
    }
}

#[test]
fn fresh_pieces_list_faces_in_creation_order() {
    let cube = Cube::new();
    let order = [
        Direction::Up,
        Direction::Down,
        Direction::Left,
        Direction::Right,
        Direction::Front,
        Direction::Back,
    ];
    for piece in &cube.pieces {
        // each piece's faces appear in the fixed direction order, and every
        // face starts on its home side with the identity transform
        let mut last: i32 = -1;
        for face in &piece.faces {
            let rank = order.iter().position(|d| *d == face.side).unwrap() as i32;
            assert!(rank > last);
            last = rank;
            assert_eq!(face.side, face.initial_side_direction);
            assert_eq!(face.rotation.r0, cube_core::geometry::Vec3 { x: 100, y: 0, z: 0 });
            assert_eq!(face.rotation.r1, cube_core::geometry::Vec3 { x: 0, y: 100, z: 0 });
            assert_eq!(face.rotation.r2, cube_core::geometry::Vec3 { x: 0, y: 0, z: 100 });
        }
        assert_eq!(piece.rotation.r0, cube_core::geometry::Vec3 { x: 100, y: 0, z: 0 });
        assert_eq!(piece.rotation.r1, cube_core::geometry::Vec3 { x: 0, y: 100, z: 0 });
        assert_eq!(piece.rotation.r2, cube_core::geometry::Vec3 { x: 0, y: 0, z: 100 });
    }
}
