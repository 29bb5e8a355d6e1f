//! The behaviours that come with the game.

use vstd::prelude::*;
use crate::server::game::arena::entity::{EntityAction, EntityBehaviour, EntityState};
use crate::server::game::arena::map::{ArenaMap, MapView};
use crate::time::Timestamp;

verus! {

/// The behaviour of an entity that is driven from outside, such as a
/// player's: it never asks for anything itself.
pub struct Idle;

impl EntityBehaviour for Idle {
    open spec fn decision(
        &self,
        time: Timestamp,
        entity: EntityState,
        map: MapView,
        entities: Seq<EntityState>,
    ) -> Seq<EntityAction> {
        Seq::empty()
    }

    open spec fn last_actions(&self) -> Seq<EntityAction> {
        Seq::empty()
    }

    fn destroyed(&mut self) -> (actions: Vec<EntityAction>) {
        Vec::new()
    }

    fn update(
        &mut self,
        time: Timestamp,
        entity: &EntityState,
        map: &ArenaMap,
        entities: &Vec<EntityState>,
    ) -> (actions: Vec<EntityAction>) {
        Vec::new()
    }
}

} // verus!
