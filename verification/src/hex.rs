//! Hexagonal cube coordinates.
//!
//! A hex cell is named by an integer cube coordinate `(x, y, z)` with
//! `x + y + z == 0`. A world-space position is first mapped through the
//! flat-top hexagon basis (the constant `1/sqrt(3)`) into a fractional
//! cube coordinate, then rounded to the nearest valid cell: each axis is
//! rounded independently and the axis with the largest rounding error is
//! reset to the negated sum of the other two, which restores the zero-sum
//! invariant exactly. Naive independent rounding would break it.

use vstd::prelude::*;

verus! {

use vstd::arithmetic::div_mod::lemma_div_is_ordered;
use vstd::arithmetic::div_mod::lemma_div_pos_is_pos;
use vstd::arithmetic::div_mod::lemma_fundamental_div_mod_converse;
use crate::fixed::COORD_LIMIT;
use crate::fixed::FRAC_ONE;
use crate::fixed::abs_of;
use crate::fixed::lemma_round_units_exact;
use crate::fixed::round_err;
use crate::fixed::round_to_units;
use crate::fixed::round_units;
use crate::fixed::tdiv;
use crate::fixed::tdiv_i128;

/// `1/sqrt(3)` in 16.16 fixed point, the constant of the world-to-cube
/// transform.
pub const R_FIXED: i64 = 37838;

/// Bound on world coordinates fed to the transform; keeps the resulting
/// fractional cube coordinate within `COORD_LIMIT`.
pub const WORLD_LIMIT: i64 = 0x40_0000_0000;

/// A fractional cube coordinate, each axis in 16.16 fixed point.
#[derive(Clone, Copy, PartialEq, Eq, Structural, Debug)]
pub struct FracCube {
    pub x: i64,
    pub y: i64,
    pub z: i64,
}

/// An integer cube coordinate naming one hex cell.
#[derive(Clone, Copy, PartialEq, Eq, Structural, Debug)]
pub struct HexCell {
    pub x: i32,
    pub y: i32,
    pub z: i32,
}

impl HexCell {
    /// The cube-coordinate invariant: the axes cancel out.
    pub open spec fn zero_sum(self) -> bool {
        self.x + self.y + self.z == 0
    }
}

impl FracCube {
    /// All axes within the range the rounding arithmetic accepts.
    pub open spec fn in_range(self) -> bool {
        &&& -COORD_LIMIT <= self.x <= COORD_LIMIT
        &&& -COORD_LIMIT <= self.y <= COORD_LIMIT
        &&& -COORD_LIMIT <= self.z <= COORD_LIMIT
    }
}

/// The `z`-axis contribution `wz / sqrt(3)`, in fixed point.
pub open spec fn r_scaled(wz: int) -> int {
    tdiv(wz * (R_FIXED as int), FRAC_ONE as int)
}

/// The world-to-cube transform: project a world position onto the XZ
/// plane and apply the flat-top hexagon basis. The three axes cancel by
/// construction.
pub open spec fn cube_of_world(wx: int, wz: int) -> (int, int, int) {
    let q = r_scaled(wz);
    (wx - q, 2 * q, -wx - q)
}

/// Cube rounding: round each axis to the nearest unit, then reset the
/// axis with the largest rounding error to the negated sum of the other
/// two. Ties check `x` first, then `y`, then `z`.
pub open spec fn rounded_cube(fx: int, fy: int, fz: int) -> (int, int, int) {
    let rx = round_units(fx);
    let ry = round_units(fy);
    let rz = round_units(fz);
    let dx = round_err(fx);
    let dy = round_err(fy);
    let dz = round_err(fz);
    if dx > dy && dx > dz {
        (-ry - rz, ry, rz)
    } else if dy > dz {
        (rx, -rx - rz, rz)
    } else {
        (rx, ry, -rx - ry)
    }
}

/// The hex cell under a world position: transform, then round.
pub open spec fn hex_at(wx: int, wz: int) -> (int, int, int) {
    let c = cube_of_world(wx, wz);
    rounded_cube(c.0, c.1, c.2)
}

/// Cube rounding always lands on a valid cell: the result sums to zero,
/// for every fractional input.
pub proof fn lemma_rounded_cube_zero_sum(fx: int, fy: int, fz: int)
    ensures
        rounded_cube(fx, fy, fz).0 + rounded_cube(fx, fy, fz).1 + rounded_cube(fx, fy, fz).2 == 0,
{
}

/// Cube rounding fixes every exact input: a fractional coordinate that is
/// already a whole number of units on each axis, and sums to zero, rounds
/// to exactly itself.
pub proof fn lemma_rounded_cube_exact(fx: int, fy: int, fz: int)
    requires
        fx % (FRAC_ONE as int) == 0,
        fy % (FRAC_ONE as int) == 0,
        fz % (FRAC_ONE as int) == 0,
        fx + fy + fz == 0,
    ensures
        rounded_cube(fx, fy, fz).0 * FRAC_ONE == fx,
        rounded_cube(fx, fy, fz).1 * FRAC_ONE == fy,
        rounded_cube(fx, fy, fz).2 * FRAC_ONE == fz,
{
    lemma_round_units_exact(fx);
    lemma_round_units_exact(fy);
    lemma_round_units_exact(fz);
}

/// Apply the world-to-cube transform to the XZ projection of a world
/// position.
pub fn world_to_cube(wx: i64, wz: i64) -> (f: FracCube)
    requires
        -WORLD_LIMIT <= wx <= WORLD_LIMIT,
        -WORLD_LIMIT <= wz <= WORLD_LIMIT,
    ensures
        f.x == cube_of_world(wx as int, wz as int).0,
        f.y == cube_of_world(wx as int, wz as int).1,
        f.z == cube_of_world(wx as int, wz as int).2,
        f.x + f.y + f.z == 0,
        f.in_range(),
{
    let prod: i64 = wz * R_FIXED;
    let q128: i128 = tdiv_i128(prod as i128, FRAC_ONE as i128);
    proof {
        let one = FRAC_ONE as int;
        let aw = abs_of(wz as int);
        assert(abs_of(prod as int) <= aw * one) by (nonlinear_arith)
            requires
                prod == wz * (R_FIXED as int),
                aw == abs_of(wz as int),
                0 < R_FIXED < FRAC_ONE,
                one == FRAC_ONE as int,
        ;
        lemma_div_is_ordered(abs_of(prod as int), aw * one, one);
        lemma_fundamental_div_mod_converse(aw * one, one, aw, 0);
        lemma_div_pos_is_pos(abs_of(prod as int), one);
        assert(abs_of(q128 as int) <= aw);
    }
    let q: i64 = q128 as i64;
    FracCube { x: wx - q, y: 2 * q, z: -wx - q }
}

/// Round a fractional cube coordinate to the nearest hex cell.
pub fn round_hex(f: FracCube) -> (h: HexCell)
    requires
        f.in_range(),
    ensures
        h.x == rounded_cube(f.x as int, f.y as int, f.z as int).0,
        h.y == rounded_cube(f.x as int, f.y as int, f.z as int).1,
        h.z == rounded_cube(f.x as int, f.y as int, f.z as int).2,
        h.zero_sum(),
{
    let rx: i64 = round_to_units(f.x);
    let ry: i64 = round_to_units(f.y);
    let rz: i64 = round_to_units(f.z);
    let ex: i64 = f.x - rx * FRAC_ONE;
    let ey: i64 = f.y - ry * FRAC_ONE;
    let ez: i64 = f.z - rz * FRAC_ONE;
    let dx: i64 = if ex < 0 { -ex } else { ex };
    let dy: i64 = if ey < 0 { -ey } else { ey };
    let dz: i64 = if ez < 0 { -ez } else { ez };
    if dx > dy && dx > dz {
        HexCell { x: (-ry - rz) as i32, y: ry as i32, z: rz as i32 }
    } else if dy > dz {
        HexCell { x: rx as i32, y: (-rx - rz) as i32, z: rz as i32 }
    } else {
        HexCell { x: rx as i32, y: ry as i32, z: (-rx - ry) as i32 }
    }
}

} // verus!
