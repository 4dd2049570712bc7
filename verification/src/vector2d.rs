use vstd::prelude::*;
use crate::numeric::{
    int_sqrt, is_int_sqrt, isqrt_u128, lemma_component_bounded_by_sqrt, lemma_int_sqrt_unique,
    scaled_component, scaled_component_exec,
};

verus! {

/// Bound on the coordinates of any position handled by the steering and
/// distance routines; everything the game ever produces stays far below it,
/// and it keeps every intermediate product inside the machine integers.
pub const WORLD_LIMIT: i32 = 1_000_000_000;

/// The fixed-point length of a "unit" vector: coordinates carry one pixel as
/// 1000 world units, so a normalized vector has (approximate) length 1000.
pub const UNIT_SCALE: i32 = 1000;

/// A 2D vector over integer world coordinates.
///
/// World positions, probe offsets and tile indexes are all carried by this
/// one value type; geometric reasoning happens on the mathematical integers
/// behind the `i32` coordinates.
#[derive(Clone, Copy, PartialEq, Eq, Structural, Debug)]
pub struct Vector2D {
    pub x: i32,
    pub y: i32,
}

/// Roaming entities may drift one steering step beyond the world bound
/// before they freeze; the arena bound still fits `i32` with room to spare.
pub const ARENA_LIMIT: i32 = 2_000_000_000;

/// Both coordinates lie within the world bound.
pub open spec fn in_world(v: Vector2D) -> bool {
    -(WORLD_LIMIT as int) <= v.x as int <= WORLD_LIMIT as int
        && -(WORLD_LIMIT as int) <= v.y as int <= WORLD_LIMIT as int
}

/// Both coordinates lie within the looser arena bound.
pub open spec fn in_arena(v: Vector2D) -> bool {
    -(ARENA_LIMIT as int) <= v.x as int <= ARENA_LIMIT as int
        && -(ARENA_LIMIT as int) <= v.y as int <= ARENA_LIMIT as int
}

/// Squared Euclidean distance between two points, as a mathematical integer.
pub open spec fn spec_dist_sq(a: Vector2D, b: Vector2D) -> int {
    (b.x - a.x) * (b.x - a.x) + (b.y - a.y) * (b.y - a.y)
}

impl Vector2D {
    pub fn new(x: i32, y: i32) -> (r: Vector2D)
        ensures
            r == (Vector2D { x, y }),
    {
        Vector2D { x, y }
    }

    /// Componentwise sum; the caller guarantees both sums stay representable.
    pub fn add(&self, other: &Vector2D) -> (r: Vector2D)
        requires
            i32::MIN <= self.x + other.x <= i32::MAX,
            i32::MIN <= self.y + other.y <= i32::MAX,
        ensures
            r.x == self.x + other.x,
            r.y == self.y + other.y,
    {
        Vector2D { x: self.x + other.x, y: self.y + other.y }
    }

    /// The vector leading from `a` to `b`.
    pub fn from_points(a: &Vector2D, b: &Vector2D) -> (r: Vector2D)
        requires
            i32::MIN <= b.x - a.x <= i32::MAX,
            i32::MIN <= b.y - a.y <= i32::MAX,
        ensures
            r.x == b.x - a.x,
            r.y == b.y - a.y,
    {
        Vector2D { x: b.x - a.x, y: b.y - a.y }
    }

    /// Floored Euclidean norm of the vector.
    pub fn magnitude(&self) -> (r: u64)
        ensures
            is_int_sqrt(self.x * self.x + self.y * self.y, r as int),
            r as int == int_sqrt(self.x * self.x + self.y * self.y),
    {
        let dx: i128 = self.x as i128;
        let dy: i128 = self.y as i128;
        proof {
            assert(dx * dx == self.x * self.x && dy * dy == self.y * self.y
                && dx * dx + dy * dy < 0x2_0000_0000_0000_0000
                && dx * dx >= 0 && dy * dy >= 0) by (nonlinear_arith)
                requires
                    dx == self.x as int,
                    dy == self.y as int,
                    -0x8000_0000 <= dx <= 0x7fff_ffff,
                    -0x8000_0000 <= dy <= 0x7fff_ffff,
            ;
        }
        let sq: u128 = ((dx * dx) as u128) + ((dy * dy) as u128);
        let r: u128 = isqrt_u128(sq);
        proof {
            assert(r * r <= sq ==> r < 0x1_0000_0000_0000u128) by (nonlinear_arith)
                requires
                    sq < 0x2_0000_0000_0000_0000u128,
            ;
            lemma_int_sqrt_unique(sq as int, r as int);
        }
        r as u64
    }

    /// The direction of the vector at fixed-point scale `UNIT_SCALE`, or
    /// `None` when the vector is zero and has no direction.
    ///
    /// At game scales (vectors of thousands of units) the result's length
    /// is `UNIT_SCALE` to within rounding; for the very smallest vectors
    /// quantization dominates and the length can reach `UNIT_SCALE * sqrt(2)`
    /// (the direction (1, 1) scales to (1000, 1000)).  The proved bounds
    /// below state exactly that: each coordinate is the exact scaled
    /// quotient, bounded by `UNIT_SCALE`, and the squared length never
    /// exceeds twice `UNIT_SCALE` squared.
    pub fn unitaire(&self) -> (r: Option<Vector2D>)
        ensures
            (self.x == 0 && self.y == 0) <==> r is None,
            r is Some ==> {
                let m = int_sqrt(self.x * self.x + self.y * self.y);
                &&& r->0.x as int == scaled_component(self.x as int, UNIT_SCALE as int, m)
                &&& r->0.y as int == scaled_component(self.y as int, UNIT_SCALE as int, m)
                &&& -(UNIT_SCALE as int) <= r->0.x as int <= UNIT_SCALE as int
                &&& -(UNIT_SCALE as int) <= r->0.y as int <= UNIT_SCALE as int
                &&& (r->0.x as int) * (r->0.x as int) + (r->0.y as int) * (r->0.y as int) <= 2
                    * (UNIT_SCALE as int) * (UNIT_SCALE as int)
            },
    {
        if self.x == 0 && self.y == 0 {
            return None;
        }
        let m: u64 = self.magnitude();
        proof {
            assert(m >= 1) by (nonlinear_arith)
                requires
                    is_int_sqrt(self.x * self.x + self.y * self.y, m as int),
                    !(self.x == 0 && self.y == 0),
                    -0x8000_0000 <= self.x as int <= 0x7fff_ffff,
                    -0x8000_0000 <= self.y as int <= 0x7fff_ffff,
            ;
            lemma_component_bounded_by_sqrt(self.x as int, self.y as int, m as int);
        }
        let ux: i64 = scaled_component_exec(self.x as i64, UNIT_SCALE as i64, m);
        let uy: i64 = scaled_component_exec(self.y as i64, UNIT_SCALE as i64, m);
        proof {
            assert((ux as int) * (ux as int) + (uy as int) * (uy as int) <= 2 * (UNIT_SCALE
                as int) * (UNIT_SCALE as int)) by (nonlinear_arith)
                requires
                    -(UNIT_SCALE as int) <= ux as int <= UNIT_SCALE as int,
                    -(UNIT_SCALE as int) <= uy as int <= UNIT_SCALE as int,
            ;
        }
        Some(Vector2D { x: ux as i32, y: uy as i32 })
    }
}

/// Squared Euclidean distance between two points; total on all coordinates.
pub fn dist_sq(a: &Vector2D, b: &Vector2D) -> (r: u128)
    ensures
        r as int == spec_dist_sq(*a, *b),
{
    let dx: i128 = (b.x as i128) - (a.x as i128);
    let dy: i128 = (b.y as i128) - (a.y as i128);
    proof {
        assert(dx * dx >= 0 && dy * dy >= 0 && dx * dx + dy * dy < 0x8_0000_0000_0000_0000
            && dx * dx == (b.x - a.x) * (b.x - a.x) && dy * dy == (b.y - a.y) * (b.y - a.y))
            by (nonlinear_arith)
            requires
                dx == b.x as int - a.x as int,
                dy == b.y as int - a.y as int,
                -0x1_0000_0000 <= dx <= 0x1_0000_0000,
                -0x1_0000_0000 <= dy <= 0x1_0000_0000,
        ;
    }
    ((dx * dx) as u128) + ((dy * dy) as u128)
}

/// Whether `p` lies strictly within Euclidean distance `radius` of `center`.
pub open spec fn spec_within(center: Vector2D, p: Vector2D, radius: int) -> bool {
    spec_dist_sq(center, p) < radius * radius
}

/// Strict Euclidean range test, via squared distances.
pub fn within_distance(center: &Vector2D, p: &Vector2D, radius: u32) -> (r: bool)
    ensures
        r == spec_within(*center, *p, radius as int),
{
    let d2: u128 = dist_sq(center, p);
    proof {
        vstd::arithmetic::mul::lemma_mul_upper_bound(
            radius as int,
            0xffff_ffff,
            radius as int,
            0xffff_ffff,
        );
        vstd::arithmetic::mul::lemma_mul_nonnegative(radius as int, radius as int);
    }
    let r2: u128 = (radius as u128) * (radius as u128);
    d2 < r2
}

/// Exec test of the world-coordinate bound.
pub fn is_in_world(v: &Vector2D) -> (r: bool)
    ensures
        r == in_world(*v),
{
    -WORLD_LIMIT <= v.x && v.x <= WORLD_LIMIT && -WORLD_LIMIT <= v.y && v.y <= WORLD_LIMIT
}

} // verus!
