//! 2D/3D vector types with exact integer coordinates, and the distance and
//! dot-product primitives the rest of the geometry core builds on.

use vstd::prelude::*;

verus! {

/// A point or direction in a 2D plane; a plain value compared by its fields.
#[derive(Clone, Copy, Debug, PartialEq, Eq, Structural)]
pub struct Vector2 {
    pub x: i32,
    pub y: i32,
}

/// A point or direction in 3D world space; a plain value compared by its fields.
#[derive(Clone, Copy, Debug, PartialEq, Eq, Structural)]
pub struct Vector3 {
    pub x: i32,
    pub y: i32,
    pub z: i32,
}

/// Mathematical dot product over the three axes.
pub open spec fn spec_dot3(a: Vector3, b: Vector3) -> int {
    a.x * b.x + a.y * b.y + a.z * b.z
}

/// The product of two values in `i32` range stays within `2^62` in magnitude.
proof fn lemma_i32_product_bound(a: int, b: int)
    by (nonlinear_arith)
    requires
        -0x8000_0000 <= a <= 0x7fff_ffff,
        -0x8000_0000 <= b <= 0x7fff_ffff,
    ensures
        -0x4000_0000_0000_0000 <= a * b <= 0x4000_0000_0000_0000,
{
}

/// The square of a value of magnitude at most `2^32` stays within `2^64`.
proof fn lemma_square_bound(d: int)
    by (nonlinear_arith)
    requires
        -0x1_0000_0000 <= d <= 0x1_0000_0000,
    ensures
        0 <= d * d <= 0x1_0000_0000_0000_0000,
{
}

/// Greatest `r` with `r * r <= n`, as a mathematical function.
pub open spec fn floor_sqrt(n: nat) -> nat
    decreases n,
{
    if n == 0 {
        0
    } else {
        let r = floor_sqrt((n - 1) as nat);
        if (r + 1) * (r + 1) <= n {
            r + 1
        } else {
            r
        }
    }
}

/// `floor_sqrt(n)` is the integer square root: its square is at most `n`,
/// and the next square is beyond `n`.
pub proof fn lemma_floor_sqrt_bounds(n: nat)
    ensures
        floor_sqrt(n) * floor_sqrt(n) <= n,
        n < (floor_sqrt(n) + 1) * (floor_sqrt(n) + 1),
    decreases n,
{
    if n != 0 {
        lemma_floor_sqrt_bounds((n - 1) as nat);
        let r = floor_sqrt((n - 1) as nat);
        if (r + 1) * (r + 1) <= n {
            // here n == (r + 1) * (r + 1), so floor_sqrt(n) == r + 1
            assert((r + 1) * (r + 1) < (r + 2) * (r + 2)) by (nonlinear_arith)
                requires
                    r >= 0;
            assert((floor_sqrt(n) + 1) * (floor_sqrt(n) + 1) == (r + 2) * (r + 2));
        } else {
            assert((floor_sqrt(n) + 1) * (floor_sqrt(n) + 1) == (r + 1) * (r + 1));
        }
    } else {
        let f = floor_sqrt(n);
        assert((f + 1) * (f + 1) >= 1) by (nonlinear_arith)
            requires
                f >= 0;
    }
}

/// Any `r` whose square brackets `n` is `floor_sqrt(n)`.
pub proof fn lemma_floor_sqrt_unique(n: nat, r: nat)
    requires
        r * r <= n,
        n < (r + 1) * (r + 1),
    ensures
        r == floor_sqrt(n),
{
    lemma_floor_sqrt_bounds(n);
    let f = floor_sqrt(n);
    assert(r == f) by (nonlinear_arith)
        requires
            r >= 0,
            f >= 0,
            r * r <= n,
            n < (r + 1) * (r + 1),
            f * f <= n,
            n < (f + 1) * (f + 1);
}

/// Integer square root by bisection: returns the greatest `r` with `r * r <= n`.
pub fn isqrt_u128(n: u128) -> (r: u128)
    ensures
        r * r <= n < (r + 1) * (r + 1),
        r == floor_sqrt(n as nat),
{
    let mut lo: u128 = 0;
    let mut hi: u128 = 0x1_0000_0000_0000_0000;
    while lo + 1 < hi
        invariant
            lo < hi <= 0x1_0000_0000_0000_0000,
            lo * lo <= n,
            n < hi * hi,
        decreases hi - lo,
    {
        let mid: u128 = lo + (hi - lo) / 2;
        proof {
            assert(mid * mid <= 0xffff_ffff_ffff_ffff_0000_0000_0000_0000u128) by (nonlinear_arith)
                requires
                    0 <= mid <= 0xffff_ffff_ffff_ffffu128;
        }
        if mid * mid <= n {
            lo = mid;
        } else {
            hi = mid;
        }
    }
    proof {
        lemma_floor_sqrt_unique(n as nat, lo as nat);
    }
    lo
}

/// Squared Euclidean distance over the three axes.
pub open spec fn spec_dist_sq3(a: Vector3, b: Vector3) -> int {
    (b.x - a.x) * (b.x - a.x) + (b.y - a.y) * (b.y - a.y) + (b.z - a.z) * (b.z - a.z)
}

/// Squared Euclidean distance over the two axes.
pub open spec fn spec_dist_sq2(a: Vector2, b: Vector2) -> int {
    (b.x - a.x) * (b.x - a.x) + (b.y - a.y) * (b.y - a.y)
}

/// Euclidean distance over three axes, rounded down to an integer.
pub open spec fn spec_distance3(a: Vector3, b: Vector3) -> int {
    floor_sqrt(spec_dist_sq3(a, b) as nat) as int
}

/// Euclidean distance over two axes, rounded down to an integer.
pub open spec fn spec_distance2(a: Vector2, b: Vector2) -> int {
    floor_sqrt(spec_dist_sq2(a, b) as nat) as int
}

/// Distance between two 3D points: the integer square root of the sum of
/// the squared per-axis differences.
pub fn vector3_distance(vec1: Vector3, vec2: Vector3) -> (r: i64)
    ensures
        r == spec_distance3(vec1, vec2),
{
    let dx: i64 = (vec2.x as i64) - (vec1.x as i64);
    let dy: i64 = (vec2.y as i64) - (vec1.y as i64);
    let dz: i64 = (vec2.z as i64) - (vec1.z as i64);
    proof {
        lemma_square_bound(dx as int);
        lemma_square_bound(dy as int);
        lemma_square_bound(dz as int);
    }
    let sq: i128 = (dx as i128) * (dx as i128) + (dy as i128) * (dy as i128) + (dz as i128)
        * (dz as i128);
    let root: u128 = isqrt_u128(sq as u128);
    proof {
        assert(root < 0x2_0000_0000) by (nonlinear_arith)
            requires
                root >= 0,
                root * root <= sq as u128,
                (sq as u128) < 0x40000000000000000u128;
    }
    root as i64
}

/// Distance between two 2D points: the integer square root of the sum of
/// the squared per-axis differences.
pub fn vector2_distance(vec1: Vector2, vec2: Vector2) -> (r: i64)
    ensures
        r == spec_distance2(vec1, vec2),
{
    let dx: i64 = (vec2.x as i64) - (vec1.x as i64);
    let dy: i64 = (vec2.y as i64) - (vec1.y as i64);
    proof {
        lemma_square_bound(dx as int);
        lemma_square_bound(dy as int);
    }
    let sq: i128 = (dx as i128) * (dx as i128) + (dy as i128) * (dy as i128);
    let root: u128 = isqrt_u128(sq as u128);
    proof {
        assert(root < 0x2_0000_0000) by (nonlinear_arith)
            requires
                root >= 0,
                root * root <= sq as u128,
                (sq as u128) < 0x40000000000000000u128;
    }
    root as i64
}

/// Facts about a square: symmetry under negation, non-negativity, and
/// vanishing exactly at zero.
proof fn lemma_square_props(p: int, q: int)
    by (nonlinear_arith)
    requires
        p == -q,
    ensures
        p * p == q * q,
        p * p >= 0,
        p * p == 0 <==> p == 0,
{
}

/// Distance is symmetric, a point is at distance zero from itself, and
/// distance zero occurs only between identical points.
pub proof fn lemma_distance3_properties(a: Vector3, b: Vector3)
    ensures
        spec_distance3(a, b) == spec_distance3(b, a),
        spec_distance3(a, a) == 0,
        spec_distance3(a, b) == 0 <==> a == b,
{
    lemma_square_props(b.x - a.x, a.x - b.x);
    lemma_square_props(b.y - a.y, a.y - b.y);
    lemma_square_props(b.z - a.z, a.z - b.z);
    lemma_square_props(a.x - a.x, a.x - a.x);
    lemma_square_props(a.y - a.y, a.y - a.y);
    lemma_square_props(a.z - a.z, a.z - a.z);
    assert(spec_dist_sq3(a, b) == spec_dist_sq3(b, a));
    assert(spec_dist_sq3(a, a) == 0);
    assert(floor_sqrt(0) == 0);
    let sq = spec_dist_sq3(a, b);
    assert(sq >= 0);
    lemma_floor_sqrt_bounds(sq as nat);
    let f = floor_sqrt(sq as nat);
    if f == 0 {
        assert((f + 1) * (f + 1) == 1) by (nonlinear_arith)
            requires
                f == 0;
        assert(sq == 0);
        assert(b.x == a.x && b.y == a.y && b.z == a.z);
        assert(a == b);
    }
    if a == b {
        assert(spec_dist_sq3(a, b) == spec_dist_sq3(a, a));
    }
}

/// Dot product of two 3D vectors, exact whenever the mathematical result
/// fits the return type.
pub fn vector3_dot(vec1: Vector3, vec2: Vector3) -> (r: i64)
    requires
        i64::MIN <= spec_dot3(vec1, vec2) <= i64::MAX,
    ensures
        r == spec_dot3(vec1, vec2),
{
    proof {
        lemma_i32_product_bound(vec1.x as int, vec2.x as int);
        lemma_i32_product_bound(vec1.y as int, vec2.y as int);
        lemma_i32_product_bound(vec1.z as int, vec2.z as int);
    }
    let px: i128 = (vec1.x as i128) * (vec2.x as i128);
    let py: i128 = (vec1.y as i128) * (vec2.y as i128);
    let pz: i128 = (vec1.z as i128) * (vec2.z as i128);
    let sum: i128 = px + py + pz;
    sum as i64
}

} // verus!
