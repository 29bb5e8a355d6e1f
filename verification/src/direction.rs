//! The four ways an entity can face.

use vstd::prelude::*;
use crate::vec2::Vec2;

verus! {

/// A facing on the grid.
#[derive(Clone, Copy, Debug, PartialEq, Eq, Structural)]
pub enum Direction {
    Up,
    Down,
    Left,
    Right,
}

impl Direction {
    /// The step of length one that leads this way.
    pub open spec fn unit(self) -> Vec2 {
        match self {
            Direction::Up => Vec2 { x: 0, y: -1i32 },
            Direction::Down => Vec2 { x: 0, y: 1 },
            Direction::Left => Vec2 { x: -1i32, y: 0 },
            Direction::Right => Vec2 { x: 1, y: 0 },
        }
    }

    /// The step of length one that leads this way: up is towards row zero.
    pub fn to_vec2(&self) -> (step: Vec2)
        ensures
            step == self.unit(),
    {
        match self {
            Direction::Up => Vec2 { x: 0, y: -1 },
            Direction::Down => Vec2 { x: 0, y: 1 },
            Direction::Left => Vec2 { x: -1, y: 0 },
            Direction::Right => Vec2 { x: 1, y: 0 },
        }
    }
}

} // verus!
