//! Linear storage indexing for the voxel grid: the fixed-modulus mapping
//! between a 3D grid position and a single storage index, with an explicit
//! capacity bound and a range check.

use vstd::arithmetic::div_mod::{
    lemma_div_denominator, lemma_fundamental_div_mod, lemma_fundamental_div_mod_converse,
    lemma_mod_bound,
};
use vstd::prelude::*;

use crate::vector::Vector3;

verus! {

/// Number of addressable cells along each axis of the voxel grid.
pub const GRID_AXIS_CELLS: usize = 255;

/// Total number of cells the linear indexing scheme can address.
pub const WORLD_CAPACITY: usize = 255 * 255 * 255;

/// A grid position outside the addressable range of the indexing scheme.
#[derive(Clone, Copy, Debug, PartialEq, Eq, Structural)]
pub enum IndexError {
    OutOfRange,
}

/// Whether a position addresses a cell of the grid: every coordinate is a
/// non-negative integer below the per-axis bound.
pub open spec fn in_grid(v: Vector3) -> bool {
    &&& 0 <= v.x < GRID_AXIS_CELLS
    &&& 0 <= v.y < GRID_AXIS_CELLS
    &&& 0 <= v.z < GRID_AXIS_CELLS
}

/// Linear index that the scheme assigns to a grid position.
pub open spec fn spec_to_linear(v: Vector3) -> int {
    v.x + (GRID_AXIS_CELLS as int) * (v.y * (GRID_AXIS_CELLS as int) + v.z)
}

/// Grid position that the scheme decodes from a linear index.
pub open spec fn spec_from_linear(i: int) -> Vector3 {
    Vector3 {
        x: (i % (GRID_AXIS_CELLS as int)) as i32,
        y: ((i / (GRID_AXIS_CELLS as int)) % (GRID_AXIS_CELLS as int)) as i32,
        z: (i / ((GRID_AXIS_CELLS * GRID_AXIS_CELLS) as int)) as i32,
    }
}

/// The same position with its `y` and `z` coordinates exchanged.
pub open spec fn swap_yz(v: Vector3) -> Vector3 {
    Vector3 { x: v.x, y: v.z, z: v.y }
}

/// The coordinates decoded from an in-range index: their ranges, and how they
/// recompose into the index.
proof fn lemma_from_linear_fields(i: int)
    requires
        0 <= i < WORLD_CAPACITY,
    ensures
        in_grid(spec_from_linear(i)),
        spec_from_linear(i).x == i % 255,
        spec_from_linear(i).y == (i / 255) % 255,
        spec_from_linear(i).z == i / ((255 * 255) as int),
        i == spec_from_linear(i).x + 255 * spec_from_linear(i).y + 255 * 255 * spec_from_linear(
            i,
        ).z,
{
    lemma_mod_bound(i, 255);
    lemma_mod_bound(i / 255, 255);
    lemma_fundamental_div_mod(i, 255);
    lemma_fundamental_div_mod(i / 255, 255);
    lemma_div_denominator(i, 255, 255);
    assert(i / ((255 * 255) as int) < 255) by {
        assert(i == 255 * (i / 255) + i % 255);
    };
}

/// Encoding a grid position and decoding the result yields the position with
/// its `y` and `z` coordinates exchanged (the decoder reads the two axes in
/// the opposite order from the encoder); a position with `y == z` therefore
/// round-trips unchanged.
pub proof fn lemma_from_to_linear(v: Vector3)
    requires
        in_grid(v),
    ensures
        spec_from_linear(spec_to_linear(v)) == swap_yz(v),
{
    let i = spec_to_linear(v);
    let q = v.y * 255 + v.z;
    lemma_fundamental_div_mod_converse(i, 255, q, v.x as int);
    lemma_fundamental_div_mod_converse(q, 255, v.y as int, v.z as int);
    lemma_div_denominator(i, 255, 255);
}

/// Decoding a linear index and re-encoding it with the decoded `y` and `z`
/// exchanged yields the index back; an index whose decoded position has
/// `y == z` therefore round-trips unchanged.
pub proof fn lemma_to_from_linear(i: int)
    requires
        0 <= i < WORLD_CAPACITY,
    ensures
        spec_to_linear(swap_yz(spec_from_linear(i))) == i,
{
    lemma_from_linear_fields(i);
    let w = swap_yz(spec_from_linear(i));
    assert(w.x + 255 * (w.y * 255 + w.z) == w.x + 255 * 255 * w.y + 255 * w.z)
        by (nonlinear_arith);
}

/// Round trip from a position on the `y == z` diagonal back to itself.
pub proof fn lemma_position_round_trip(v: Vector3)
    requires
        in_grid(v),
        v.y == v.z,
    ensures
        spec_from_linear(spec_to_linear(v)) == v,
{
    lemma_from_to_linear(v);
}

/// Round trip from an index whose decoded position lies on the `y == z`
/// diagonal back to itself.
pub proof fn lemma_index_round_trip(i: int)
    requires
        0 <= i < WORLD_CAPACITY,
        spec_from_linear(i).y == spec_from_linear(i).z,
    ensures
        spec_to_linear(spec_from_linear(i)) == i,
{
    lemma_to_from_linear(i);
}

/// Linear storage index of a grid position, or a range error for a position
/// outside the grid.
pub fn vector3_to_linear_index(position: Vector3) -> (r: Result<usize, IndexError>)
    ensures
        match r {
            Ok(i) => in_grid(position) && i == spec_to_linear(position) && i < WORLD_CAPACITY,
            Err(e) => !in_grid(position) && e == IndexError::OutOfRange,
        },
{
    if position.x < 0 || position.x >= GRID_AXIS_CELLS as i32 || position.y < 0 || position.y
        >= GRID_AXIS_CELLS as i32 || position.z < 0 || position.z >= GRID_AXIS_CELLS as i32 {
        return Err(IndexError::OutOfRange);
    }
    let x = position.x as usize;
    let y = position.y as usize;
    let z = position.z as usize;
    Ok(x + GRID_AXIS_CELLS * (y * GRID_AXIS_CELLS + z))
}

/// Grid position stored at a linear index.
pub fn linear_index_to_vector3(linear_index: usize) -> (v: Vector3)
    requires
        linear_index < WORLD_CAPACITY,
    ensures
        v == spec_from_linear(linear_index as int),
        in_grid(v),
{
    proof {
        lemma_from_linear_fields(linear_index as int);
    }
    let x = linear_index % GRID_AXIS_CELLS;
    let y = (linear_index / GRID_AXIS_CELLS) % GRID_AXIS_CELLS;
    let z = linear_index / (GRID_AXIS_CELLS * GRID_AXIS_CELLS);
    Vector3 { x: x as i32, y: y as i32, z: z as i32 }
}

} // verus!
