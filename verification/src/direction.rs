//! The six face directions, their unit vectors, and sticker colors.

use vstd::prelude::*;
use crate::geometry::{unit_axis, Vec3, V3};

verus! {

/// One of the six axis-aligned orientations a face or a cube side can have.
#[derive(Clone, Copy, PartialEq, Eq, Structural, Debug)]
pub enum Direction {
    Up,
    Down,
    Left,
    Right,
    Front,
    Back,
}

/// One of the six sticker colors, fixed at face creation.
#[derive(Clone, Copy, PartialEq, Eq, Structural, Debug)]
pub enum StickerColor {
    White,
    Yellow,
    Orange,
    Red,
    Green,
    Blue,
}

/// The unit vector of a direction: Up/Down along +/-Y, Right/Left along
/// +/-X, Front/Back along +/-Z.
pub open spec fn dir_vec(d: Direction) -> V3 {
    match d {
        Direction::Up => V3 { x: 0, y: 100, z: 0 },
        Direction::Down => V3 { x: 0, y: -100, z: 0 },
        Direction::Left => V3 { x: -100, y: 0, z: 0 },
        Direction::Right => V3 { x: 100, y: 0, z: 0 },
        Direction::Front => V3 { x: 0, y: 0, z: 100 },
        Direction::Back => V3 { x: 0, y: 0, z: -100 },
    }
}

/// The direction a vector points to, if it is axis-aligned.
///
/// A vector with exactly one nonzero component points along one axis, and its
/// sign picks the direction; any other vector (the zero vector included) has
/// no direction.  This mirrors comparing the normalized vector against each
/// unit vector: any positive scaling of a unit axis matches, nothing else
/// does.
pub open spec fn dir_from_vec(v: V3) -> Option<Direction> {
    if v.x != 0 && v.y == 0 && v.z == 0 {
        Some(if v.x > 0 { Direction::Right } else { Direction::Left })
    } else if v.x == 0 && v.y != 0 && v.z == 0 {
        Some(if v.y > 0 { Direction::Up } else { Direction::Down })
    } else if v.x == 0 && v.y == 0 && v.z != 0 {
        Some(if v.z > 0 { Direction::Front } else { Direction::Back })
    } else {
        None
    }
}

/// The direction on the far side of the cube: the one whose unit vector is
/// the negation.
pub open spec fn opposite_of(d: Direction) -> Direction {
    match d {
        Direction::Up => Direction::Down,
        Direction::Down => Direction::Up,
        Direction::Left => Direction::Right,
        Direction::Right => Direction::Left,
        Direction::Front => Direction::Back,
        Direction::Back => Direction::Front,
    }
}

/// The color a face gets from the direction it initially occupies.
pub open spec fn color_of(d: Direction) -> StickerColor {
    match d {
        Direction::Up => StickerColor::White,
        Direction::Down => StickerColor::Yellow,
        Direction::Left => StickerColor::Orange,
        Direction::Right => StickerColor::Red,
        Direction::Front => StickerColor::Green,
        Direction::Back => StickerColor::Blue,
    }
}

impl Direction {
    /// The unit vector of this direction.
    pub fn vector(&self) -> (v: Vec3)
        ensures
            v@ == dir_vec(*self),
    {
        match self {
            Direction::Up => Vec3 { x: 0, y: 100, z: 0 },
            Direction::Down => Vec3 { x: 0, y: -100, z: 0 },
            Direction::Left => Vec3 { x: -100, y: 0, z: 0 },
            Direction::Right => Vec3 { x: 100, y: 0, z: 0 },
            Direction::Front => Vec3 { x: 0, y: 0, z: 100 },
            Direction::Back => Vec3 { x: 0, y: 0, z: -100 },
        }
    }

    /// Inverse lookup: the direction an axis-aligned vector points to, or
    /// `None` when the vector is not axis-aligned (the zero vector included).
    pub fn from_vector(vector: Vec3) -> (r: Option<Direction>)
        ensures
            r == dir_from_vec(vector@),
    {
        if vector.x != 0 && vector.y == 0 && vector.z == 0 {
            Some(if vector.x > 0 { Direction::Right } else { Direction::Left })
        } else if vector.x == 0 && vector.y != 0 && vector.z == 0 {
            Some(if vector.y > 0 { Direction::Up } else { Direction::Down })
        } else if vector.x == 0 && vector.y == 0 && vector.z != 0 {
            Some(if vector.z > 0 { Direction::Front } else { Direction::Back })
        } else {
            None
        }
    }
}

/// Some component of `v` is nonzero and exactly equal to the same component
/// of `d`'s unit vector.  This is the membership test both for which faces a
/// piece owns and for which pieces a move affects.
pub open spec fn composed_spec(v: V3, d: Direction) -> bool {
    let u = dir_vec(d);
    ||| (v.x != 0 && v.x == u.x)
    ||| (v.y != 0 && v.y == u.y)
    ||| (v.z != 0 && v.z == u.z)
}

/// Does `v` have a nonzero component equal to the matching component of
/// `direction`'s unit vector?
pub fn vector_is_composed_with_direction(v: Vec3, direction: Direction) -> (b: bool)
    ensures
        b == composed_spec(v@, direction),
{
    let u = direction.vector();
    (v.x != 0 && v.x == u.x) || (v.y != 0 && v.y == u.y) || (v.z != 0 && v.z == u.z)
}

/// The initial color of a face placed on side `direction`.
pub fn direction_to_color(direction: &Direction) -> (c: StickerColor)
    ensures
        c == color_of(*direction),
{
    match direction {
        Direction::Up => StickerColor::White,
        Direction::Down => StickerColor::Yellow,
        Direction::Left => StickerColor::Orange,
        Direction::Right => StickerColor::Red,
        Direction::Front => StickerColor::Green,
        Direction::Back => StickerColor::Blue,
    }
}

/// Each direction's unit vector is a unit axis vector, and looking the
/// vector back up returns the same direction.
pub proof fn lemma_direction_vector_round_trip(d: Direction)
    ensures
        unit_axis(dir_vec(d)),
        dir_from_vec(dir_vec(d)) == Some(d),
{
}

} // verus!
