//! Mesh generation: expands a voxel grid cell into the twelve oriented
//! triangles that cover its cube, two per face, each tagged with the face's
//! outward axis-aligned normal and the cube's display color.

use vstd::prelude::*;

use crate::index::{linear_index_to_vector3, spec_from_linear, WORLD_CAPACITY};
use crate::vector::Vector3;
use crate::voxel::{cube_color, spec_cube_color, Color, CubeType};

verus! {

/// A world-space triangle: three vertices, the outward normal of the cube
/// face it covers (assigned at construction, never recomputed from the
/// vertices), and a display color.
#[derive(Clone, Copy, Debug, PartialEq, Eq, Structural)]
pub struct Triangle3D {
    pub a: Vector3,
    pub b: Vector3,
    pub c: Vector3,
    pub color: Color,
    pub normal: Vector3,
}

/// Outward normal of the top face (`x` is the vertical axis).
pub open spec fn normal_top() -> Vector3 {
    Vector3 { x: 1, y: 0, z: 0 }
}

/// Outward normal of the bottom face.
pub open spec fn normal_bottom() -> Vector3 {
    Vector3 { x: -1i32, y: 0, z: 0 }
}

/// Outward normal of the front face.
pub open spec fn normal_front() -> Vector3 {
    Vector3 { x: 0, y: -1i32, z: 0 }
}

/// Outward normal of the back face.
pub open spec fn normal_back() -> Vector3 {
    Vector3 { x: 0, y: 1, z: 0 }
}

/// Outward normal of the left face.
pub open spec fn normal_left() -> Vector3 {
    Vector3 { x: 0, y: 0, z: -1i32 }
}

/// Outward normal of the right face.
pub open spec fn normal_right() -> Vector3 {
    Vector3 { x: 0, y: 0, z: 1 }
}

/// Whether a vector is one of the six axis-aligned unit face normals.
pub open spec fn is_axis_unit_normal(n: Vector3) -> bool {
    ||| n == normal_top()
    ||| n == normal_bottom()
    ||| n == normal_front()
    ||| n == normal_back()
    ||| n == normal_left()
    ||| n == normal_right()
}

/// Corner of the unit cube whose minimum corner is `pos`, at the given unit
/// offsets along the three axes.
pub open spec fn spec_cube_corner(pos: Vector3, dx: int, dy: int, dz: int) -> Vector3 {
    Vector3 { x: (pos.x + dx) as i32, y: (pos.y + dy) as i32, z: (pos.z + dz) as i32 }
}

/// The twelve triangles covering the six faces of the unit cube at `pos`:
/// two per face as a diagonal split of its four corners, each tagged with
/// the face's outward normal and the given color.
pub open spec fn spec_cube_mesh(pos: Vector3, color: Color) -> Seq<Triangle3D> {
    let corner_e = spec_cube_corner(pos, 0, 0, 0);
    let corner_f = spec_cube_corner(pos, 0, 0, 1);
    let corner_h = spec_cube_corner(pos, 0, 1, 0);
    let corner_g = spec_cube_corner(pos, 0, 1, 1);
    let corner_d = spec_cube_corner(pos, 1, 0, 0);
    let corner_c = spec_cube_corner(pos, 1, 0, 1);
    let corner_b = spec_cube_corner(pos, 1, 1, 1);
    let corner_a = spec_cube_corner(pos, 1, 1, 0);
    seq![
        Triangle3D { a: corner_e, b: corner_c, c: corner_f, color, normal: normal_front() },
        Triangle3D { a: corner_e, b: corner_c, c: corner_d, color, normal: normal_front() },
        Triangle3D { a: corner_a, b: corner_b, c: corner_g, color, normal: normal_back() },
        Triangle3D { a: corner_a, b: corner_h, c: corner_g, color, normal: normal_back() },
        Triangle3D { a: corner_a, b: corner_d, c: corner_c, color, normal: normal_top() },
        Triangle3D { a: corner_b, b: corner_a, c: corner_c, color, normal: normal_top() },
        Triangle3D { a: corner_h, b: corner_e, c: corner_g, color, normal: normal_bottom() },
        Triangle3D { a: corner_g, b: corner_f, c: corner_e, color, normal: normal_bottom() },
        Triangle3D { a: corner_a, b: corner_d, c: corner_h, color, normal: normal_left() },
        Triangle3D { a: corner_d, b: corner_h, c: corner_e, color, normal: normal_left() },
        Triangle3D { a: corner_f, b: corner_g, c: corner_b, color, normal: normal_right() },
        Triangle3D { a: corner_b, b: corner_f, c: corner_c, color, normal: normal_right() },
    ]
}

/// The twelve cube triangles of one cell, colored by its cube type; an
/// `Air` cell yields no triangles.
pub fn cube_triangles(position: Vector3, cube_type: CubeType) -> (r: Vec<Triangle3D>)
    requires
        position.x < i32::MAX,
        position.y < i32::MAX,
        position.z < i32::MAX,
    ensures
        match spec_cube_color(cube_type) {
            None => r@ == Seq::<Triangle3D>::empty(),
            Some(color) => r@ == spec_cube_mesh(position, color),
        },
        cube_type is Air ==> r@.len() == 0,
        cube_type !is Air ==> r@.len() == 12,
{
    let mut triangles: Vec<Triangle3D> = Vec::new();
    let color = match cube_color(cube_type) {
        Some(color) => color,
        None => {
            return triangles;
        },
    };
    let vertex_e = position;
    let vertex_f = Vector3 { x: position.x, y: position.y, z: position.z + 1 };
    let vertex_h = Vector3 { x: position.x, y: position.y + 1, z: position.z };
    let vertex_g = Vector3 { x: position.x, y: position.y + 1, z: position.z + 1 };
    let vertex_d = Vector3 { x: position.x + 1, y: position.y, z: position.z };
    let vertex_c = Vector3 { x: position.x + 1, y: position.y, z: position.z + 1 };
    let vertex_b = Vector3 { x: position.x + 1, y: position.y + 1, z: position.z + 1 };
    let vertex_a = Vector3 { x: position.x + 1, y: position.y + 1, z: position.z };
    let normal_fr = Vector3 { x: 0, y: -1, z: 0 };
    let normal_ba = Vector3 { x: 0, y: 1, z: 0 };
    let normal_to = Vector3 { x: 1, y: 0, z: 0 };
    let normal_bo = Vector3 { x: -1, y: 0, z: 0 };
    let normal_le = Vector3 { x: 0, y: 0, z: -1 };
    let normal_ri = Vector3 { x: 0, y: 0, z: 1 };
    triangles.push(
        Triangle3D { a: vertex_e, b: vertex_c, c: vertex_f, color, normal: normal_fr },
    );
    triangles.push(
        Triangle3D { a: vertex_e, b: vertex_c, c: vertex_d, color, normal: normal_fr },
    );
    triangles.push(
        Triangle3D { a: vertex_a, b: vertex_b, c: vertex_g, color, normal: normal_ba },
    );
    triangles.push(
        Triangle3D { a: vertex_a, b: vertex_h, c: vertex_g, color, normal: normal_ba },
    );
    triangles.push(
        Triangle3D { a: vertex_a, b: vertex_d, c: vertex_c, color, normal: normal_to },
    );
    triangles.push(
        Triangle3D { a: vertex_b, b: vertex_a, c: vertex_c, color, normal: normal_to },
    );
    triangles.push(
        Triangle3D { a: vertex_h, b: vertex_e, c: vertex_g, color, normal: normal_bo },
    );
    triangles.push(
        Triangle3D { a: vertex_g, b: vertex_f, c: vertex_e, color, normal: normal_bo },
    );
    triangles.push(
        Triangle3D { a: vertex_a, b: vertex_d, c: vertex_h, color, normal: normal_le },
    );
    triangles.push(
        Triangle3D { a: vertex_d, b: vertex_h, c: vertex_e, color, normal: normal_le },
    );
    triangles.push(
        Triangle3D { a: vertex_f, b: vertex_g, c: vertex_b, color, normal: normal_ri },
    );
    triangles.push(
        Triangle3D { a: vertex_b, b: vertex_f, c: vertex_c, color, normal: normal_ri },
    );
    proof {
        assert(triangles@ =~= spec_cube_mesh(position, color));
    }
    triangles
}

/// The mesh of one cube holds twelve triangles; every normal is one of the
/// six axis-aligned unit directions, and each of the six directions appears
/// on exactly two triangles (the diagonal pair of one face).
pub proof fn lemma_cube_mesh_normals(pos: Vector3, color: Color)
    ensures
        spec_cube_mesh(pos, color).len() == 12,
        forall|k: int|
            0 <= k < 12 ==> is_axis_unit_normal(#[trigger] spec_cube_mesh(pos, color)[k].normal),
        forall|k: int|
            0 <= k < 12 ==> ((#[trigger] spec_cube_mesh(pos, color)[k].normal == normal_front())
                <==> (k == 0 || k == 1)),
        forall|k: int|
            0 <= k < 12 ==> ((#[trigger] spec_cube_mesh(pos, color)[k].normal == normal_back())
                <==> (k == 2 || k == 3)),
        forall|k: int|
            0 <= k < 12 ==> ((#[trigger] spec_cube_mesh(pos, color)[k].normal == normal_top())
                <==> (k == 4 || k == 5)),
        forall|k: int|
            0 <= k < 12 ==> ((#[trigger] spec_cube_mesh(pos, color)[k].normal == normal_bottom())
                <==> (k == 6 || k == 7)),
        forall|k: int|
            0 <= k < 12 ==> ((#[trigger] spec_cube_mesh(pos, color)[k].normal == normal_left())
                <==> (k == 8 || k == 9)),
        forall|k: int|
            0 <= k < 12 ==> ((#[trigger] spec_cube_mesh(pos, color)[k].normal == normal_right())
                <==> (k == 10 || k == 11)),
{
    let m = spec_cube_mesh(pos, color);
    assert(m[0].normal == normal_front());
    assert(m[1].normal == normal_front());
    assert(m[2].normal == normal_back());
    assert(m[3].normal == normal_back());
    assert(m[4].normal == normal_top());
    assert(m[5].normal == normal_top());
    assert(m[6].normal == normal_bottom());
    assert(m[7].normal == normal_bottom());
    assert(m[8].normal == normal_left());
    assert(m[9].normal == normal_left());
    assert(m[10].normal == normal_right());
    assert(m[11].normal == normal_right());
}

/// Triangles contributed by the world cell stored at one linear index.
pub open spec fn spec_cell_mesh(i: int, t: CubeType) -> Seq<Triangle3D> {
    match spec_cube_color(t) {
        None => Seq::empty(),
        Some(color) => spec_cube_mesh(spec_from_linear(i), color),
    }
}

/// Triangles of every cell of a world, in storage order.
pub open spec fn spec_world_mesh(world: Seq<CubeType>) -> Seq<Triangle3D>
    decreases world.len(),
{
    if world.len() == 0 {
        Seq::empty()
    } else {
        spec_world_mesh(world.drop_last()) + spec_cell_mesh(world.len() - 1, world.last())
    }
}

/// Number of cells that contribute geometry: everything but `Air`.
pub open spec fn spec_solid_count(world: Seq<CubeType>) -> int
    decreases world.len(),
{
    if world.len() == 0 {
        0
    } else {
        spec_solid_count(world.drop_last()) + if world.last() is Air {
            0int
        } else {
            1int
        }
    }
}

/// A world's mesh holds exactly twelve triangles per non-`Air` cell, and
/// `Air` cells contribute none.
pub proof fn lemma_world_mesh_len(world: Seq<CubeType>)
    ensures
        spec_world_mesh(world).len() == 12 * spec_solid_count(world),
    decreases world.len(),
{
    if world.len() != 0 {
        lemma_world_mesh_len(world.drop_last());
        let t = world.last();
        if !(t is Air) {
            assert(spec_cell_mesh(world.len() - 1, t).len() == 12);
        }
    }
}

/// All triangles of a world: for each non-`Air` cell, the twelve cube
/// triangles at the grid position decoded from the cell's linear index.
pub fn world_triangles(world: &Vec<CubeType>) -> (r: Vec<Triangle3D>)
    requires
        world@.len() <= WORLD_CAPACITY,
    ensures
        r@ == spec_world_mesh(world@),
        r@.len() == 12 * spec_solid_count(world@),
{
    let mut triangles: Vec<Triangle3D> = Vec::new();
    let mut i: usize = 0;
    while i < world.len()
        invariant
            i <= world@.len() <= WORLD_CAPACITY,
            triangles@ == spec_world_mesh(world@.take(i as int)),
        decreases world@.len() - i,
    {
        let position = linear_index_to_vector3(i);
        let mut cell = cube_triangles(position, world[i]);
        triangles.append(&mut cell);
        proof {
            let prefix = world@.take(i as int + 1);
            assert(prefix.drop_last() =~= world@.take(i as int));
            assert(prefix.last() == world@[i as int]);
            assert(spec_world_mesh(prefix) == spec_world_mesh(prefix.drop_last())
                + spec_cell_mesh(prefix.len() - 1, prefix.last()));
        }
        i = i + 1;
    }
    proof {
        assert(world@.take(world@.len() as int) =~= world@);
        lemma_world_mesh_len(world@);
    }
    triangles
}

} // verus!
