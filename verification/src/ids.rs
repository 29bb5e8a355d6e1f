//! Handles by which the parts of a game are told apart.

use vstd::prelude::*;

verus! {

/// Names an entity within the arena that created it.
pub type EntityId = usize;

/// Names a skill that an entity may ask to cast.
pub type SkillId = usize;

/// Names a spell that is active in an arena.
pub type SpellId = usize;

} // verus!
