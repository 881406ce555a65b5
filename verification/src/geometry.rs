//! Plane vectors with whole-unit coordinates, and the midpoint that a merge
//! places its output at.

use vstd::prelude::*;

verus! {

/// A position or velocity in the plane.  World coordinates are whole units;
/// the box is a few hundred units across, so `i32` leaves ample headroom.
#[derive(Clone, Copy, PartialEq, Eq, Structural, Debug)]
pub struct Vec2i {
    pub x: i32,
    pub y: i32,
}

/// Midpoint of two coordinates, rounding toward negative infinity when the
/// sum is odd.
pub open spec fn mid_coord(a: int, b: int) -> int {
    (a + b) / 2
}

/// Componentwise midpoint of two positions.
pub open spec fn spec_midpoint(a: Vec2i, b: Vec2i) -> Vec2i {
    Vec2i {
        x: mid_coord(a.x as int, b.x as int) as i32,
        y: mid_coord(a.y as int, b.y as int) as i32,
    }
}

/// The midpoint of two representable coordinates is itself representable.
pub proof fn lemma_mid_coord_in_range(a: int, b: int)
    requires
        i32::MIN <= a <= i32::MAX,
        i32::MIN <= b <= i32::MAX,
    ensures
        i32::MIN <= mid_coord(a, b) <= i32::MAX,
{
}

fn mid_i32(a: i32, b: i32) -> (r: i32)
    ensures
        r == mid_coord(a as int, b as int),
{
    let s: i64 = (a as i64) + (b as i64);
    proof {
        lemma_mid_coord_in_range(a as int, b as int);
    }
    let q: i64 = match s.checked_div_euclid(2) {
        Some(q) => q,
        None => {
            proof {
                assert(false);
            }
            0
        },
    };
    q as i32
}

/// Where a merge of two objects puts its output.
pub fn midpoint(a: Vec2i, b: Vec2i) -> (r: Vec2i)
    ensures
        r == spec_midpoint(a, b),
{
    Vec2i { x: mid_i32(a.x, b.x), y: mid_i32(a.y, b.y) }
}

} // verus!
