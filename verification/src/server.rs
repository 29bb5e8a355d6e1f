//! The side that owns the world and advances it.

pub mod game;
