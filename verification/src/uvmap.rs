//! The per-face bilinear map between flat 3x3 grid coordinates and 3D cube
//! positions, used to unwrap the cube into six flat color grids.

use vstd::prelude::*;
use vstd::arithmetic::div_mod::lemma_fundamental_div_mod;
use vstd::arithmetic::div_mod::lemma_fundamental_div_mod_converse;
use crate::geometry::{lemma_mul_bounds, Vec2, Vec3, V3};

verus! {

/// One face's UV map: four (grid corner, 3D corner) pairs and the derived 3D
/// displacement per unit grid step along each grid axis.  Grid coordinates
/// are plain cell units; 3D positions are fixed-point hundredths.
#[derive(Clone, Copy, PartialEq, Eq, Structural, Debug)]
pub struct UvMap {
    pub xy_start_grid: Vec2,
    pub xy_start_pos: Vec3,
    pub x_end_grid: Vec2,
    pub x_end_pos: Vec3,
    pub y_end_grid: Vec2,
    pub y_end_pos: Vec3,
    pub xy_end_grid: Vec2,
    pub xy_end_pos: Vec3,
    pub x_slope: Vec3,
    pub y_slope: Vec3,
}

/// Exact division for slope components (the grid span divides every
/// coordinate span exactly).
fn div_exact(n: i64, d: i64) -> (r: i64)
    requires
        1 <= d <= 4000,
        -4_000_000 <= n <= 4_000_000,
        (n as int) % (d as int) == 0,
    ensures
        r == n as int / d as int,
{
    if n >= 0 {
        n / d
    } else {
        proof {
            let ni = n as int;
            let di = d as int;
            let q = ni / di;
            lemma_fundamental_div_mod(ni, di);
            assert(ni == di * q);
            assert((-q) * di == -(di * q)) by (nonlinear_arith);
            lemma_fundamental_div_mod_converse(-ni, di, -q, 0);
        }
        -((-n) / d)
    }
}

/// The bilinear image of grid cell `(gx, gy)` under a UV map.
pub open spec fn uv_xyz_spec(m: UvMap, gx: int, gy: int) -> V3 {
    V3 {
        x: m.xy_start_pos.x + (gx - m.xy_start_grid.x) * m.x_slope.x + (gy
            - m.xy_start_grid.y) * m.y_slope.x,
        y: m.xy_start_pos.y + (gx - m.xy_start_grid.x) * m.x_slope.y + (gy
            - m.xy_start_grid.y) * m.y_slope.y,
        z: m.xy_start_pos.z + (gx - m.xy_start_grid.x) * m.x_slope.z + (gy
            - m.xy_start_grid.y) * m.y_slope.z,
    }
}

/// The grid coordinates and 3D corners of a map are small, and the grid
/// spans are positive.
pub open spec fn uv_inputs_ok(
    xy_start: (Vec2, Vec3),
    x_end: (Vec2, Vec3),
    y_end: (Vec2, Vec3),
    xy_end: (Vec2, Vec3),
) -> bool {
    &&& -1000 <= xy_start.0.x <= 1000 && -1000 <= xy_start.0.y <= 1000
    &&& -1000 <= x_end.0.x <= 1000 && -1000 <= y_end.0.y <= 1000
    &&& -1000 <= xy_end.0.x <= 1000 && -1000 <= xy_end.0.y <= 1000
    &&& crate::geometry::in_range_v(xy_start.1@, 1_000_000)
    &&& crate::geometry::in_range_v(x_end.1@, 1_000_000)
    &&& crate::geometry::in_range_v(y_end.1@, 1_000_000)
    &&& 0 < x_end.0.x - xy_start.0.x
    &&& 0 < y_end.0.y - xy_start.0.y
    &&& (x_end.1.x - xy_start.1.x) % (x_end.0.x - xy_start.0.x) == 0
    &&& (x_end.1.y - xy_start.1.y) % (x_end.0.x - xy_start.0.x) == 0
    &&& (x_end.1.z - xy_start.1.z) % (x_end.0.x - xy_start.0.x) == 0
    &&& (y_end.1.x - xy_start.1.x) % (y_end.0.y - xy_start.0.y) == 0
    &&& (y_end.1.y - xy_start.1.y) % (y_end.0.y - xy_start.0.y) == 0
    &&& (y_end.1.z - xy_start.1.z) % (y_end.0.y - xy_start.0.y) == 0
}

impl UvMap {
    /// Builds a map from the four (grid corner, 3D corner) pairs, deriving
    /// the 3D displacement per unit grid step along each grid axis.
    pub fn new(
        xy_start: (Vec2, Vec3),
        x_end: (Vec2, Vec3),
        y_end: (Vec2, Vec3),
        xy_end: (Vec2, Vec3),
    ) -> (m: UvMap)
        requires
            uv_inputs_ok(xy_start, x_end, y_end, xy_end),
        ensures
            m.xy_start_grid == xy_start.0 && m.xy_start_pos == xy_start.1,
            m.x_end_grid == x_end.0 && m.x_end_pos == x_end.1,
            m.y_end_grid == y_end.0 && m.y_end_pos == y_end.1,
            m.xy_end_grid == xy_end.0 && m.xy_end_pos == xy_end.1,
            m.x_slope.x == (x_end.1.x - xy_start.1.x) as int / (x_end.0.x - xy_start.0.x) as int,
            m.x_slope.y == (x_end.1.y - xy_start.1.y) as int / (x_end.0.x - xy_start.0.x) as int,
            m.x_slope.z == (x_end.1.z - xy_start.1.z) as int / (x_end.0.x - xy_start.0.x) as int,
            m.y_slope.x == (y_end.1.x - xy_start.1.x) as int / (y_end.0.y - xy_start.0.y) as int,
            m.y_slope.y == (y_end.1.y - xy_start.1.y) as int / (y_end.0.y - xy_start.0.y) as int,
            m.y_slope.z == (y_end.1.z - xy_start.1.z) as int / (y_end.0.y - xy_start.0.y) as int,
    {
        let dx = x_end.0.x - xy_start.0.x;
        let dy = y_end.0.y - xy_start.0.y;
        let x_slope = Vec3 {
            x: div_exact(x_end.1.x - xy_start.1.x, dx),
            y: div_exact(x_end.1.y - xy_start.1.y, dx),
            z: div_exact(x_end.1.z - xy_start.1.z, dx),
        };
        let y_slope = Vec3 {
            x: div_exact(y_end.1.x - xy_start.1.x, dy),
            y: div_exact(y_end.1.y - xy_start.1.y, dy),
            z: div_exact(y_end.1.z - xy_start.1.z, dy),
        };
        UvMap {
            xy_start_grid: xy_start.0,
            xy_start_pos: xy_start.1,
            x_end_grid: x_end.0,
            x_end_pos: x_end.1,
            y_end_grid: y_end.0,
            y_end_pos: y_end.1,
            xy_end_grid: xy_end.0,
            xy_end_pos: xy_end.1,
            x_slope,
            y_slope,
        }
    }

    /// The 3D position of grid cell `xy_coordinate` on this face: the start
    /// corner displaced by the two slopes.
    pub fn get_xyz_vector_from_xy_vector(&self, xy_coordinate: Vec2) -> (r: Vec3)
        requires
            -1000 <= self.xy_start_grid.x <= 1000,
            -1000 <= self.xy_start_grid.y <= 1000,
            -1000 <= xy_coordinate.x <= 1000,
            -1000 <= xy_coordinate.y <= 1000,
            crate::geometry::in_range_v(self.x_slope@, 1_000_000),
            crate::geometry::in_range_v(self.y_slope@, 1_000_000),
            crate::geometry::in_range_v(self.xy_start_pos@, 1_000_000),
        ensures
            r@ == uv_xyz_spec(*self, xy_coordinate.x as int, xy_coordinate.y as int),
    {
        let fx = xy_coordinate.x - self.xy_start_grid.x;
        let fy = xy_coordinate.y - self.xy_start_grid.y;
        proof {
            lemma_mul_bounds(fx as int, self.x_slope.x as int, 2000, 1_000_000);
            lemma_mul_bounds(fx as int, self.x_slope.y as int, 2000, 1_000_000);
            lemma_mul_bounds(fx as int, self.x_slope.z as int, 2000, 1_000_000);
            lemma_mul_bounds(fy as int, self.y_slope.x as int, 2000, 1_000_000);
            lemma_mul_bounds(fy as int, self.y_slope.y as int, 2000, 1_000_000);
            lemma_mul_bounds(fy as int, self.y_slope.z as int, 2000, 1_000_000);
        }
        Vec3 {
            x: self.xy_start_pos.x + fx * self.x_slope.x + fy * self.y_slope.x,
            y: self.xy_start_pos.y + fx * self.x_slope.y + fy * self.y_slope.y,
            z: self.xy_start_pos.z + fx * self.x_slope.z + fy * self.y_slope.z,
        }
    }
}

} // verus!
