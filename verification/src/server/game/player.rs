//! What a game remembers of each participant from round to round.

use vstd::prelude::*;
use std::rc::Rc;
use crate::character::Character;
use crate::ids::EntityId;
use crate::server::game::arena::{Arena, ArenaView};
use crate::time::Speed;

verus! {

/// What a player is: the character played, the entity that stands for the
/// player in the arena of the current round, and the points won in this round
/// and in all rounds.
pub struct PlayerView {
    pub character: Rc<Character>,
    pub entity_id: Option<EntityId>,
    pub partial_points: usize,
    pub total_points: usize,
}

/// `points + gain`, or the most that a `usize` holds if that is less.
pub open spec fn capped_sum(points: usize, gain: usize) -> usize {
    if points + gain > usize::MAX {
        usize::MAX
    } else {
        (points + gain) as usize
    }
}

/// The points that a player wins for dying when `alive_before` of `players`
/// players were still alive: one for each player that went before.
pub open spec fn death_reward(players: nat, alive_before: nat) -> nat {
    (players - alive_before) as nat
}

/// Who dies earlier wins less: a player that dies while more players are
/// alive is rewarded with fewer points than one that dies while fewer are.
pub proof fn lemma_earlier_death_scores_less(players: nat, alive_first: nat, alive_second: nat)
    requires
        alive_second < alive_first <= players,
    ensures
        death_reward(players, alive_first) < death_reward(players, alive_second),
{
}

impl PlayerView {
    /// Whether the player is out of the round that is played in `arena`: no
    /// entity stands for the player there, or the one that does has no health
    /// left.
    pub open spec fn is_dead(self, arena: ArenaView) -> bool {
        match self.entity_id {
            Some(id) => forall|i: int| #[trigger] arena.holds(id, i) ==> !arena.entities[i]@.is_alive(),
            None => true,
        }
    }

    /// The player after winning `points` more points.
    pub open spec fn rewarded(self, points: usize) -> PlayerView {
        PlayerView {
            partial_points: capped_sum(self.partial_points, points),
            total_points: capped_sum(self.total_points, points),
            ..self
        }
    }
}

/// A participant of a game.
pub struct Player {
    character: Rc<Character>,
    entity_id: Option<EntityId>,
    partial_points: usize,
    total_points: usize,
}

impl View for Player {
    type V = PlayerView;

    closed spec fn view(&self) -> PlayerView {
        PlayerView {
            character: self.character,
            entity_id: self.entity_id,
            partial_points: self.partial_points,
            total_points: self.total_points,
        }
    }
}

/// The health that the entity of a player starts with.
pub const MAX_LIFE: usize = 100;

/// The energy that the entity of a player starts with.
pub const MAX_ENERGY: usize = 100;

/// The speed of the entity of a player: eight steps per second.
pub const SPEED_BASE: Speed = 8_000;

impl Player {
    /// A player of `character`, without points and without an entity.
    pub fn new(character: Rc<Character>) -> (player: Player)
        ensures
            player@ == (PlayerView {
                character,
                entity_id: None,
                partial_points: 0,
                total_points: 0,
            }),
    {
        Player { character, entity_id: None, partial_points: 0, total_points: 0 }
    }

    /// The character that the player plays.
    pub fn character(&self) -> (character: &Rc<Character>)
        ensures
            *character == self@.character,
    {
        &self.character
    }

    /// The entity that stands for the player in the current round, if the
    /// player has been given one.
    pub fn entity_id(&self) -> (id: Option<EntityId>)
        ensures
            id == self@.entity_id,
    {
        self.entity_id
    }

    /// Makes the entity with identifier `id` stand for the player.
    pub fn attach_entity(&mut self, id: EntityId)
        ensures
            final(self)@ == (PlayerView { entity_id: Some(id), ..old(self)@ }),
    {
        self.entity_id = Some(id);
    }

    /// Forgets the points of the round. The points of the game stay.
    pub fn reset_partial_points(&mut self)
        ensures
            final(self)@ == (PlayerView { partial_points: 0, ..old(self)@ }),
            final(self)@.total_points == old(self)@.total_points,
    {
        self.partial_points = 0;
    }

    /// Adds `points` to the points of the round and to those of the game.
    /// Neither ever shrinks: a count that would leave `usize` stays at its
    /// end.
    pub fn update_points(&mut self, points: usize)
        ensures
            final(self)@ == old(self)@.rewarded(points),
            final(self)@.total_points >= old(self)@.total_points,
    {
        self.partial_points = self.partial_points.saturating_add(points);
        self.total_points = self.total_points.saturating_add(points);
    }

    /// The points won in the current round.
    pub fn partial_points(&self) -> (points: usize)
        ensures
            points == self@.partial_points,
    {
        self.partial_points
    }

    /// The points won in all rounds of the game.
    pub fn total_points(&self) -> (points: usize)
        ensures
            points == self@.total_points,
    {
        self.total_points
    }

    /// Whether the player is out of the round that is played in `arena`.
    pub fn is_dead(&self, arena: &Arena) -> (dead: bool)
        requires
            arena.wf(),
        ensures
            dead == self@.is_dead(arena@),
    {
        match self.entity_id {
            Some(id) => match arena.entity(id) {
                Some(entity) => {
                    let alive = entity.is_alive();
                    proof {
                        let at = choose|i: int| #[trigger] arena@.holds(id, i) && arena@.entities[i] == *entity;
                        assert forall|i: int| #[trigger] arena@.holds(id, i) implies i == at by {
                            let all = arena@.states();
                            assert(all[i].id == id && all[at].id == id);
                        }
                    }
                    !alive
                },
                None => true,
            },
            None => true,
        }
    }
}

} // verus!
