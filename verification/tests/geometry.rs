use voxelgeom::raster::{triangle_doubled_area, Triangle2D};
use voxelgeom::vector::{
    isqrt_u128, vector2_distance, vector3_distance, vector3_dot, Vector2, Vector3,
};
use voxelgeom::voxel::Color;

#[test]
fn dot_product() {
    let vec1: Vector3 = Vector3 { x: 0, y: 4, z: -4 };
    let vec2: Vector3 = Vector3 { x: 4, y: -4, z: 4 };
    let actual: i64 = vector3_dot(vec1, vec2);
    let expected: i64 = -32;
    assert_eq!(actual, expected);
}

/// Test the distance function
#[test]
fn distance() {
    let vec1: Vector3 = Vector3 { x: 0, y: 4, z: -4 };
    let vec2: Vector3 = Vector3 { x: 4, y: -4, z: 4 };
    // should be 12
    let actual: i64 = vector3_distance(vec1, vec2);
    let expected: i64 = 12;
    assert_eq!(actual, expected);
}

#[test]
fn triangle_contains() {
    let a: Vector2 = Vector2 { x: 0, y: 0 };
    let c: Vector2 = Vector2 { x: 0, y: 12 };
    let b: Vector2 = Vector2 { x: 12, y: 0 };
    let triangle: Triangle2D = Triangle2D { a, b, c, color: Color { r: 0, g: 0, b: 0 } };

    let expected_1: bool = true;
    let actual_1: bool = triangle.contains(Vector2 { x: 2, y: 2 });
    assert_eq!(actual_1, expected_1);

    let expected_2: bool = false;
    let actual_2: bool = triangle.contains(Vector2 { x: 12, y: 12 });
    assert_eq!(actual_2, expected_2);
}

#[test]
fn distance_is_symmetric_and_zero_on_self() {
    let vec1: Vector3 = Vector3 { x: 3, y: -7, z: 20 };
    let vec2: Vector3 = Vector3 { x: -5, y: 11, z: 2 };
    assert_eq!(vector3_distance(vec1, vec2), vector3_distance(vec2, vec1));
    assert_eq!(vector3_distance(vec1, vec1), 0);
    assert!(vector3_distance(vec1, vec2) > 0);
}

#[test]
fn distance_rounds_down() {
    // squared distance 2 is not a perfect square: the result is floor(sqrt 2)
    let vec1: Vector3 = Vector3 { x: 0, y: 0, z: 0 };
    let vec2: Vector3 = Vector3 { x: 1, y: 1, z: 0 };
    assert_eq!(vector3_distance(vec1, vec2), 1);
}

#[test]
fn distance_2d() {
    let vec1: Vector2 = Vector2 { x: 1, y: 1 };
    let vec2: Vector2 = Vector2 { x: 4, y: 5 };
    // a 3-4-5 triangle
    assert_eq!(vector2_distance(vec1, vec2), 5);
}

#[test]
fn isqrt_exact_values() {
    assert_eq!(isqrt_u128(0), 0);
    assert_eq!(isqrt_u128(1), 1);
    assert_eq!(isqrt_u128(2), 1);
    assert_eq!(isqrt_u128(144), 12);
    assert_eq!(isqrt_u128(168), 12);
    assert_eq!(isqrt_u128(169), 13);
    assert_eq!(isqrt_u128(u64::MAX as u128 * u64::MAX as u128), u64::MAX as u128);
    assert_eq!(isqrt_u128(u128::MAX), u64::MAX as u128);
}

#[test]
fn doubled_area_exact() {
    let a: Vector2 = Vector2 { x: 0, y: 0 };
    let b: Vector2 = Vector2 { x: 12, y: 0 };
    let c: Vector2 = Vector2 { x: 0, y: 12 };
    // the triangle's area is 72, so its doubled area is 144
    assert_eq!(triangle_doubled_area(a, b, c), 144);
    // orientation does not matter
    assert_eq!(triangle_doubled_area(c, b, a), 144);
    // a degenerate triangle has no area
    assert_eq!(triangle_doubled_area(a, b, b), 0);
}

#[test]
fn contains_boundary_points() {
    let triangle: Triangle2D = Triangle2D {
        a: Vector2 { x: 0, y: 0 },
        b: Vector2 { x: 12, y: 0 },
        c: Vector2 { x: 0, y: 12 },
        color: Color { r: 0, g: 0, b: 0 },
    };
    // a vertex and an edge midpoint are inside the closed triangle
    assert!(triangle.contains(Vector2 { x: 0, y: 0 }));
    assert!(triangle.contains(Vector2 { x: 6, y: 0 }));
    // a point just beyond the hypotenuse is not
    assert!(!triangle.contains(Vector2 { x: 7, y: 6 }));
}

#[test]
fn contains_with_tolerance() {
    let triangle: Triangle2D = Triangle2D {
        a: Vector2 { x: 0, y: 0 },
        b: Vector2 { x: 12, y: 0 },
        c: Vector2 { x: 0, y: 12 },
        color: Color { r: 0, g: 0, b: 0 },
    };
    let outside: Vector2 = Vector2 { x: 7, y: 6 };
    // area sum for this point: 168 doubled units against the triangle's 144
    assert!(!triangle.contains_within(outside, 0));
    assert!(!triangle.contains_within(outside, 23));
    assert!(triangle.contains_within(outside, 24));
    // zero tolerance agrees with the strict test
    let inside: Vector2 = Vector2 { x: 2, y: 2 };
    assert_eq!(triangle.contains_within(inside, 0), triangle.contains(inside));
}
