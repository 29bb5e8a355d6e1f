//! Points and displacements on the grid of an arena.

use vstd::prelude::*;

verus! {

/// A pair of grid coordinates. `x` grows to the right and `y` grows downwards,
/// as the rows of a terminal do.
#[derive(Clone, Copy, Debug, PartialEq, Eq, Structural)]
pub struct Vec2 {
    pub x: i32,
    pub y: i32,
}

/// The `i32` nearest to `value`.
pub open spec fn clamp_to_i32(value: int) -> i32 {
    if value < i32::MIN {
        i32::MIN
    } else if value > i32::MAX {
        i32::MAX
    } else {
        value as i32
    }
}

/// Adds two coordinates, stopping at the ends of `i32` instead of wrapping.
pub fn clamped_sum(a: i32, b: i32) -> (sum: i32)
    ensures
        sum == clamp_to_i32(a + b),
{
    let wide: i64 = a as i64 + b as i64;
    if wide < i32::MIN as i64 {
        i32::MIN
    } else if wide > i32::MAX as i64 {
        i32::MAX
    } else {
        wide as i32
    }
}

impl Vec2 {
    /// The sum of two vectors, each coordinate clamped into `i32`.
    pub open spec fn spec_plus(self, other: Vec2) -> Vec2 {
        Vec2 { x: clamp_to_i32(self.x + other.x), y: clamp_to_i32(self.y + other.y) }
    }

    /// The vector with the given coordinates.
    pub fn xy(x: i32, y: i32) -> (v: Vec2)
        ensures
            v == (Vec2 { x, y }),
    {
        Vec2 { x, y }
    }

    /// The vector of length zero.
    pub fn zero() -> (v: Vec2)
        ensures
            v == (Vec2 { x: 0, y: 0 }),
    {
        Vec2 { x: 0, y: 0 }
    }

    /// The sum of `self` and `other`. A coordinate that would leave `i32`
    /// stays at the end it ran into.
    pub fn plus(self, other: Vec2) -> (sum: Vec2)
        ensures
            sum == self.spec_plus(other),
    {
        Vec2 { x: clamped_sum(self.x, other.x), y: clamped_sum(self.y, other.y) }
    }
}

} // verus!
