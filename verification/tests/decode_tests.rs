use cube_core::direction::{direction_to_color, Direction, StickerColor};
use cube_core::moves::CubeMove;
use cube_core::trig::{cos_cents, sin_cents};
use cube_core::uvmap::UvMap;
use cube_core::geometry::{Vec2, Vec3};
use CubeMove::{B, B2, BPrime, D, D2, DPrime, F, F2, FPrime, L, L2, LPrime, R, R2, RPrime, U, U2, UPrime};
use Direction::{Back, Down, Front, Left, Right, Up};

#[test]
fn direction_vectors_are_unit_and_round_trip() {
    let dirs = [
        Direction::Up,
        Direction::Down,
        Direction::Left,
        Direction::Right,
        Direction::Front,
        Direction::Back,
    ];
    for d in dirs {
        let v = d.vector();
        let nonzero = [v.x, v.y, v.z].iter().filter(|c| **c != 0).count();
        assert_eq!(nonzero, 1);
        assert!([v.x, v.y, v.z].iter().all(|c| c.abs() == 100 || *c == 0));
        assert_eq!(Direction::from_vector(v), Some(d));
    }
}

#[test]
fn from_vector_rejects_non_axis_vectors() {
    assert_eq!(Direction::from_vector(Vec3 { x: 0, y: 0, z: 0 }), None);
    assert_eq!(Direction::from_vector(Vec3 { x: 100, y: 100, z: 0 }), None);
    assert_eq!(Direction::from_vector(Vec3 { x: 16, y: 99, z: 0 }), None);
}

#[test]
fn from_vector_accepts_any_scaling_of_an_axis() {
    assert_eq!(Direction::from_vector(Vec3 { x: 0, y: 250, z: 0 }), Some(Direction::Up));
    assert_eq!(Direction::from_vector(Vec3 { x: -1, y: 0, z: 0 }), Some(Direction::Left));
}

#[test]
fn every_move_decodes_to_its_documented_pair() {
    let table = [
        (U, Up, -90),
        (D, Down, -90),
        (L, Left, -90),
        (R, Right, -90),
        (F, Front, -90),
        (B, Back, -90),
        (UPrime, Up, 90),
        (DPrime, Down, 90),
        (LPrime, Left, 90),
        (RPrime, Right, 90),
        (FPrime, Front, 90),
        (BPrime, Back, 90),
        (U2, Up, 180),
        (D2, Down, 180),
        (L2, Left, 180),
        (R2, Right, 180),
        (F2, Front, 180),
        (B2, Back, 180),
    ];
    let mut seen: Vec<(Direction, i64)> = Vec::new();
    for (m, d, a) in table {
        let decoded = m.to_direction_and_degree().expect("non-reset moves decode");
        assert_eq!(decoded, (d, a));
        assert!(!seen.contains(&decoded), "each pair appears exactly once");
        seen.push(decoded);
    }
    assert_eq!(seen.len(), 18);
    assert!(CubeMove::Reset.to_direction_and_degree().is_none());
}

#[test]
fn move_tokens_parse_to_their_moves() {
    let table = [
        ("U", U),
        ("D", D),
        ("L", L),
        ("R", R),
        ("F", F),
        ("B", B),
        ("UPrime", UPrime),
        ("DPrime", DPrime),
        ("LPrime", LPrime),
        ("RPrime", RPrime),
        ("FPrime", FPrime),
        ("BPrime", BPrime),
        ("U2", U2),
        ("D2", D2),
        ("L2", L2),
        ("R2", R2),
        ("F2", F2),
        ("B2", B2),
        ("Reset", CubeMove::Reset),
    ];
    for (token, m) in table {
        assert_eq!(CubeMove::from_param(token), Ok(m));
    }
}

#[test]
fn bad_move_tokens_are_rejected() {
    for token in ["", "X", "U3", "uprime", "UPrimes", "Rese", "Resetx", "2U"] {
        assert_eq!(CubeMove::from_param(token), Err(()));
    }
}

#[test]
fn colors_follow_the_documented_assignment() {
    assert_eq!(direction_to_color(&Direction::Up), StickerColor::White);
    assert_eq!(direction_to_color(&Direction::Down), StickerColor::Yellow);
    assert_eq!(direction_to_color(&Direction::Left), StickerColor::Orange);
    assert_eq!(direction_to_color(&Direction::Right), StickerColor::Red);
    assert_eq!(direction_to_color(&Direction::Front), StickerColor::Green);
    assert_eq!(direction_to_color(&Direction::Back), StickerColor::Blue);
}

#[test]
fn fixed_point_trig_is_exact_at_quarter_turns() {
    assert_eq!(sin_cents(0), 0);
    assert_eq!(sin_cents(9000), 100);
    assert_eq!(sin_cents(18000), 0);
    assert_eq!(sin_cents(27000), -100);
    assert_eq!(cos_cents(0), 100);
    assert_eq!(cos_cents(9000), 0);
    assert_eq!(cos_cents(18000), -100);
    assert_eq!(cos_cents(27000), 0);
}

#[test]
fn fixed_point_trig_tracks_intermediate_angles() {
    // sin 9 deg = 0.156..., cos 9 deg = 0.987...
    assert_eq!(sin_cents(900), 16);
    assert_eq!(cos_cents(900), 99);
    // sin 45 deg = cos 45 deg = 0.707...
    assert!((sin_cents(4500) - 71).abs() <= 1);
    assert!((cos_cents(4500) - 71).abs() <= 1);
}

#[test]
fn uv_map_derives_slopes_from_its_corners() {
    let map = UvMap::new(
        (Vec2 { x: 0, y: 0 }, Vec3 { x: -100, y: 100, z: -100 }),
        (Vec2 { x: 2, y: 0 }, Vec3 { x: 100, y: 100, z: -100 }),
        (Vec2 { x: 0, y: 2 }, Vec3 { x: -100, y: 100, z: 100 }),
        (Vec2 { x: 2, y: 2 }, Vec3 { x: 100, y: 100, z: 100 }),
    );
    assert_eq!(map.x_slope, Vec3 { x: 100, y: 0, z: 0 });
    assert_eq!(map.y_slope, Vec3 { x: 0, y: 0, z: 100 });
    assert_eq!(
        map.get_xyz_vector_from_xy_vector(Vec2 { x: 1, y: 2 }),
        Vec3 { x: 0, y: 100, z: 100 },
    );
}
