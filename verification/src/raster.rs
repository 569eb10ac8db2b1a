//! Rasterizer support: the projected screen-space triangle and the
//! area-identity point-in-triangle containment test.

use vstd::prelude::*;

use crate::vector::Vector2;
use crate::voxel::Color;

verus! {

/// A screen-space triangle: three 2D vertices and a display color. The face
/// normal is no longer carried after projection.
#[derive(Clone, Copy, Debug, PartialEq, Eq, Structural)]
pub struct Triangle2D {
    pub a: Vector2,
    pub b: Vector2,
    pub c: Vector2,
    pub color: Color,
}

/// Twice the area of the triangle spanned by three points: the absolute
/// value of the cross product of the two edge vectors leaving the first
/// point. Doubling keeps the value an exact integer.
pub open spec fn spec_doubled_area(a: Vector2, b: Vector2, c: Vector2) -> int {
    let cross = (b.x - a.x) * (c.y - a.y) - (b.y - a.y) * (c.x - a.x);
    if cross >= 0 {
        cross
    } else {
        -cross
    }
}

/// The area-identity containment test: the point lies in the closed
/// triangle exactly when the triangle's own area equals the sum of the
/// areas of the three triangles the point forms with the triangle's edges.
pub open spec fn spec_contains(t: Triangle2D, p: Vector2) -> bool {
    spec_doubled_area(t.a, t.b, t.c) == spec_doubled_area(t.a, t.b, p) + spec_doubled_area(
        t.a,
        t.c,
        p,
    ) + spec_doubled_area(t.b, t.c, p)
}

/// The tolerant containment test: the area sum may miss the triangle's own
/// area by up to `tolerance`. With a tolerance of zero this is exactly the
/// strict area-identity test.
pub open spec fn spec_contains_within(t: Triangle2D, p: Vector2, tolerance: int) -> bool {
    let difference = spec_doubled_area(t.a, t.b, p) + spec_doubled_area(t.a, t.c, p)
        + spec_doubled_area(t.b, t.c, p) - spec_doubled_area(t.a, t.b, t.c);
    let magnitude = if difference >= 0 {
        difference
    } else {
        -difference
    };
    magnitude <= tolerance
}

/// The product of two values of magnitude at most `2^32` stays within
/// `2^64` in magnitude.
proof fn lemma_diff_product_bound(p: int, q: int)
    by (nonlinear_arith)
    requires
        -0x1_0000_0000 <= p <= 0x1_0000_0000,
        -0x1_0000_0000 <= q <= 0x1_0000_0000,
    ensures
        -0x1_0000_0000_0000_0000 <= p * q <= 0x1_0000_0000_0000_0000,
{
}

/// Twice the area of the triangle spanned by three points, exactly.
pub fn triangle_doubled_area(a: Vector2, b: Vector2, c: Vector2) -> (r: i128)
    ensures
        r == spec_doubled_area(a, b, c),
        0 <= r <= 0x2_0000_0000_0000_0000,
{
    let abx: i64 = (b.x as i64) - (a.x as i64);
    let aby: i64 = (b.y as i64) - (a.y as i64);
    let acx: i64 = (c.x as i64) - (a.x as i64);
    let acy: i64 = (c.y as i64) - (a.y as i64);
    proof {
        lemma_diff_product_bound(abx as int, acy as int);
        lemma_diff_product_bound(aby as int, acx as int);
    }
    let cross: i128 = (abx as i128) * (acy as i128) - (aby as i128) * (acx as i128);
    if cross >= 0 {
        cross
    } else {
        -cross
    }
}

impl Triangle2D {
    /// Whether the point lies in the closed triangle, by the exact
    /// area-sum identity.
    pub fn contains(&self, point: Vector2) -> (r: bool)
        ensures
            r == spec_contains(*self, point),
    {
        let real_triangle_area = triangle_doubled_area(self.a, self.b, self.c);
        let area_1 = triangle_doubled_area(self.a, self.b, point);
        let area_2 = triangle_doubled_area(self.a, self.c, point);
        let area_3 = triangle_doubled_area(self.b, self.c, point);
        real_triangle_area == area_1 + area_2 + area_3
    }

    /// Whether the point lies in the triangle up to a doubled-area
    /// tolerance; a tolerance of zero reproduces the strict test.
    pub fn contains_within(&self, point: Vector2, tolerance: i128) -> (r: bool)
        ensures
            r == spec_contains_within(*self, point, tolerance as int),
            tolerance == 0 ==> r == spec_contains(*self, point),
    {
        let real_triangle_area = triangle_doubled_area(self.a, self.b, self.c);
        let area_1 = triangle_doubled_area(self.a, self.b, point);
        let area_2 = triangle_doubled_area(self.a, self.c, point);
        let area_3 = triangle_doubled_area(self.b, self.c, point);
        let difference: i128 = area_1 + area_2 + area_3 - real_triangle_area;
        let magnitude: i128 = if difference >= 0 {
            difference
        } else {
            -difference
        };
        magnitude <= tolerance
    }
}

} // verus!
