use voxelgeom::index::{
    linear_index_to_vector3, vector3_to_linear_index, IndexError, GRID_AXIS_CELLS, WORLD_CAPACITY,
};
use voxelgeom::mesh::{cube_triangles, world_triangles, Triangle3D};
use voxelgeom::screen::Screen;
use voxelgeom::vector::Vector3;
use voxelgeom::voxel::{cube_color, decode_byte, decode_world, Color, CubeType};

#[test]
fn indexing() {
    let position: Vector3 = Vector3 { z: 12, x: 12, y: 12 };
    let index: usize = vector3_to_linear_index(position).unwrap();
    let calculated_position = linear_index_to_vector3(index);

    assert_eq!(position, calculated_position);
}

#[test]
fn indexing_constants() {
    assert_eq!(GRID_AXIS_CELLS, 255);
    assert_eq!(WORLD_CAPACITY, 255 * 255 * 255);
}

#[test]
fn indexing_swaps_y_and_z() {
    // encoding then decoding exchanges the y and z coordinates
    let position: Vector3 = Vector3 { x: 0, y: 1, z: 2 };
    let index: usize = vector3_to_linear_index(position).unwrap();
    assert_eq!(index, 255 * (255 + 2));
    let decoded = linear_index_to_vector3(index);
    assert_eq!(decoded, Vector3 { x: 0, y: 2, z: 1 });
}

#[test]
fn indexing_out_of_range() {
    let too_big: Vector3 = Vector3 { x: 255, y: 0, z: 0 };
    assert_eq!(vector3_to_linear_index(too_big), Err(IndexError::OutOfRange));
    let negative: Vector3 = Vector3 { x: 0, y: -1, z: 0 };
    assert_eq!(vector3_to_linear_index(negative), Err(IndexError::OutOfRange));
    let largest: Vector3 = Vector3 { x: 254, y: 254, z: 254 };
    assert_eq!(vector3_to_linear_index(largest), Ok(WORLD_CAPACITY - 1));
}

#[test]
fn decode_single_bytes() {
    assert_eq!(decode_byte(b'0'), Some(CubeType::Air));
    assert_eq!(decode_byte(b'1'), Some(CubeType::Grass));
    assert_eq!(decode_byte(b'2'), Some(CubeType::Stone));
    assert_eq!(decode_byte(b'3'), Some(CubeType::Wood));
    assert_eq!(decode_byte(b'4'), None);
    assert_eq!(decode_byte(b' '), None);
}

#[test]
fn decode_world_valid() {
    let cubes = decode_world(b"0123").unwrap();
    assert_eq!(
        cubes,
        vec![CubeType::Air, CubeType::Grass, CubeType::Stone, CubeType::Wood]
    );
    let empty: Vec<CubeType> = vec![];
    assert_eq!(decode_world(b"").unwrap(), empty);
}

#[test]
fn decode_world_invalid_byte() {
    let err = decode_world(b"01x3").unwrap_err();
    assert_eq!(err.index, 2);
    assert_eq!(err.byte, b'x');
}

#[test]
fn cube_colors() {
    assert_eq!(cube_color(CubeType::Air), None);
    assert_eq!(cube_color(CubeType::Grass), Some(Color { r: 0, g: 255, b: 0 }));
    assert_eq!(cube_color(CubeType::Stone), Some(Color { r: 128, g: 128, b: 128 }));
    assert_eq!(cube_color(CubeType::Wood), Some(Color { r: 128, g: 128, b: 0 }));
}

#[test]
fn single_cube_mesh_normals() {
    let origin: Vector3 = Vector3 { x: 0, y: 0, z: 0 };
    let triangles = cube_triangles(origin, CubeType::Grass);
    assert_eq!(triangles.len(), 12);

    let directions: [Vector3; 6] = [
        Vector3 { x: 1, y: 0, z: 0 },
        Vector3 { x: -1, y: 0, z: 0 },
        Vector3 { x: 0, y: 1, z: 0 },
        Vector3 { x: 0, y: -1, z: 0 },
        Vector3 { x: 0, y: 0, z: 1 },
        Vector3 { x: 0, y: 0, z: -1 },
    ];
    for direction in directions.iter() {
        let count = triangles.iter().filter(|t| t.normal == *direction).count();
        assert_eq!(count, 2);
    }
    for triangle in triangles.iter() {
        assert!(directions.contains(&triangle.normal));
        assert_eq!(triangle.color, Color { r: 0, g: 255, b: 0 });
    }
}

#[test]
fn air_yields_no_triangles() {
    let origin: Vector3 = Vector3 { x: 0, y: 0, z: 0 };
    let triangles = cube_triangles(origin, CubeType::Air);
    assert_eq!(triangles.len(), 0);
}

#[test]
fn world_mesh_of_one_solid_cell() {
    let world = decode_world(b"010").unwrap();
    let triangles = world_triangles(&world);
    assert_eq!(triangles.len(), 12);

    // the solid cell sits at linear index 1, which decodes to (1, 0, 0)
    let expected_first = Triangle3D {
        a: Vector3 { x: 1, y: 0, z: 0 },
        b: Vector3 { x: 2, y: 0, z: 1 },
        c: Vector3 { x: 1, y: 0, z: 1 },
        color: Color { r: 0, g: 255, b: 0 },
        normal: Vector3 { x: 0, y: -1, z: 0 },
    };
    assert_eq!(triangles[0], expected_first);
}

#[test]
fn world_mesh_counts_solid_cells() {
    let world = decode_world(b"0123012301").unwrap();
    let triangles = world_triangles(&world);
    // seven of the ten cells are solid
    assert_eq!(triangles.len(), 7 * 12);

    let empty_world: Vec<CubeType> = vec![];
    assert_eq!(world_triangles(&empty_world).len(), 0);
}

#[test]
fn screen_init_allocates_black_grid() {
    let mut screen = Screen { pixels: Vec::new(), size_x: 3, size_y: 4 };
    screen.init();
    assert_eq!(screen.pixels.len(), 3);
    for row in screen.pixels.iter() {
        assert_eq!(row.len(), 4);
        for cell in row.iter() {
            assert_eq!(*cell, Color { r: 0, g: 0, b: 0 });
        }
    }
}
