//! Cube (voxel) types, their display colors, and the decoder for the world
//! byte encoding: one ASCII digit per cell, in storage order.

use vstd::prelude::*;

verus! {

/// An RGB display color.
#[derive(Clone, Copy, Debug, PartialEq, Eq, Structural)]
pub struct Color {
    pub r: u8,
    pub g: u8,
    pub b: u8,
}

/// The kinds of cube a world cell can hold.
#[derive(Clone, Copy, Debug, PartialEq, Eq, Structural)]
pub enum CubeType {
    Air,
    Grass,
    Stone,
    Wood,
}

/// Display color assigned to a cube type; `Air` contributes no geometry and
/// has no color.
pub open spec fn spec_cube_color(t: CubeType) -> Option<Color> {
    match t {
        CubeType::Air => None,
        CubeType::Grass => Some(Color { r: 0, g: 255, b: 0 }),
        CubeType::Stone => Some(Color { r: 128, g: 128, b: 128 }),
        CubeType::Wood => Some(Color { r: 128, g: 128, b: 0 }),
    }
}

/// Display color of a cube type: green grass, gray stone, olive wood, and
/// `None` exactly for `Air`.
pub fn cube_color(cube_type: CubeType) -> (r: Option<Color>)
    ensures
        r == spec_cube_color(cube_type),
{
    match cube_type {
        CubeType::Air => None,
        CubeType::Grass => Some(Color { r: 0, g: 255, b: 0 }),
        CubeType::Stone => Some(Color { r: 128, g: 128, b: 128 }),
        CubeType::Wood => Some(Color { r: 128, g: 128, b: 0 }),
    }
}

/// Cube type encoded by one world byte, if the byte is a recognized tag.
pub open spec fn spec_decode_byte(byte: u8) -> Option<CubeType> {
    match byte {
        48 => Some(CubeType::Air),  // '0'
        49 => Some(CubeType::Grass),  // '1'
        50 => Some(CubeType::Stone),  // '2'
        51 => Some(CubeType::Wood),  // '3'
        _ => None,
    }
}

/// A world byte that is not a recognized voxel tag, with its position in the
/// stream; such a byte makes the whole load fail.
#[derive(Clone, Copy, Debug, PartialEq, Eq, Structural)]
pub struct DecodeError {
    pub index: usize,
    pub byte: u8,
}

/// Cube type of one world byte, or `None` for an unrecognized byte.
pub fn decode_byte(byte: u8) -> (r: Option<CubeType>)
    ensures
        r == spec_decode_byte(byte),
{
    match byte {
        48 => Some(CubeType::Air),  // '0'
        49 => Some(CubeType::Grass),  // '1'
        50 => Some(CubeType::Stone),  // '2'
        51 => Some(CubeType::Wood),  // '3'
        _ => None,
    }
}

/// Decode of a world byte stream: one cube per byte, in order, when every
/// byte is a recognized tag; otherwise the position and value of the first
/// unrecognized byte.
pub fn decode_world(data: &[u8]) -> (r: Result<Vec<CubeType>, DecodeError>)
    ensures
        match r {
            Ok(cubes) => {
                &&& cubes@.len() == data@.len()
                &&& forall|j: int|
                    0 <= j < data@.len() ==> Some(#[trigger] cubes@[j]) == spec_decode_byte(
                        data@[j],
                    )
            },
            Err(e) => {
                &&& e.index < data@.len()
                &&& e.byte == data@[e.index as int]
                &&& spec_decode_byte(e.byte) is None
                &&& forall|j: int| 0 <= j < e.index ==> (#[trigger] spec_decode_byte(data@[j])) is Some
            },
        },
{
    let mut cubes: Vec<CubeType> = Vec::new();
    let mut i: usize = 0;
    while i < data.len()
        invariant
            i <= data@.len(),
            cubes@.len() == i,
            forall|j: int|
                0 <= j < i ==> Some(cubes@[j]) == #[trigger] spec_decode_byte(data@[j]),
        decreases data@.len() - i,
    {
        match decode_byte(data[i]) {
            Some(cube) => cubes.push(cube),
            None => {
                return Err(DecodeError { index: i, byte: data[i] });
            },
        }
        i = i + 1;
    }
    Ok(cubes)
}

} // verus!
