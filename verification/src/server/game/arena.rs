//! The world of one round: the ground, and the entities that live on it.
//!
//! A tick has two halves. First every behaviour is asked what its entity
//! does, and each of them is shown the entities as they were when the tick
//! began. Only then are the answers carried out, entity by entity, in the
//! order in which the entities were created. What one entity does in a tick
//! can therefore never change what another one decides in it.

pub mod entity;
pub mod map;

use vstd::prelude::*;
use std::rc::Rc;
use crate::character::Character;
use crate::ids::EntityId;
use crate::message::Terrain;
use crate::server::game::arena::entity::{
    behaviour_registered, Behaviour, Entity, EntityAction, EntityState,
};
use crate::server::game::arena::map::{ArenaMap, MapView};
use crate::time::Timestamp;
use crate::vec2::Vec2;

verus! {

/// The states of `entities`, in their order.
pub open spec fn states(entities: Seq<Entity>) -> Seq<EntityState> {
    Seq::new(entities.len(), |i: int| entities[i]@)
}

/// The lists of actions in `lists`, in their order.
pub open spec fn action_lists(lists: Seq<Vec<EntityAction>>) -> Seq<Seq<EntityAction>> {
    Seq::new(lists.len(), |i: int| lists[i]@)
}

/// What becomes of an entity in `state` when `actions` are carried out at the
/// moment `now`, one after the other. To walk is to turn and then to step, if
/// a step is due. No skill is known to the arena, so a cast changes nothing.
/// With the first request to be destroyed the entity is gone, and what it
/// asked for after that is never looked at.
pub open spec fn advanced(state: EntityState, actions: Seq<EntityAction>, now: Timestamp) -> Option<
    EntityState,
>
    decreases actions.len(),
{
    if actions.len() == 0 {
        Some(state)
    } else {
        match actions[0] {
            EntityAction::Walk(direction) => advanced(
                state.turned(direction).walked(now),
                actions.drop_first(),
                now,
            ),
            EntityAction::Cast(_, _) => advanced(state, actions.drop_first(), now),
            EntityAction::Destroy => None,
        }
    }
}

/// What becomes of an entity in `state` when it carries out its last actions
/// at the moment `now`, after it has asked to be destroyed. It is on its way
/// out: to ask once more changes nothing.
pub open spec fn carried(state: EntityState, actions: Seq<EntityAction>, now: Timestamp) -> EntityState
    decreases actions.len(),
{
    if actions.len() == 0 {
        state
    } else {
        match actions[0] {
            EntityAction::Walk(direction) => carried(
                state.turned(direction).walked(now),
                actions.drop_first(),
                now,
            ),
            _ => carried(state, actions.drop_first(), now),
        }
    }
}

/// The state in which an entity leaves the arena, if `actions` make it
/// leave: it has carried out what it asked for before it asked to be
/// destroyed, and then `last`, the last actions of its behaviour.
pub open spec fn departing(
    state: EntityState,
    actions: Seq<EntityAction>,
    last: Seq<EntityAction>,
    now: Timestamp,
) -> EntityState
    decreases actions.len(),
{
    if actions.len() == 0 {
        state
    } else {
        match actions[0] {
            EntityAction::Walk(direction) => departing(
                state.turned(direction).walked(now),
                actions.drop_first(),
                last,
                now,
            ),
            EntityAction::Cast(_, _) => departing(state, actions.drop_first(), last, now),
            EntityAction::Destroy => carried(state, last, now),
        }
    }
}

/// The entities that are left, in their order, when the entity in
/// `before[i]` has carried out `decisions[i]` at the moment `now`, for each
/// `i`.
pub open spec fn settled(
    before: Seq<EntityState>,
    decisions: Seq<Seq<EntityAction>>,
    now: Timestamp,
) -> Seq<EntityState>
    decreases before.len(),
{
    if before.len() == 0 {
        Seq::empty()
    } else {
        let earlier = settled(before.drop_last(), decisions, now);
        match advanced(before.last(), decisions[before.len() - 1], now) {
            Some(state) => earlier.push(state),
            None => earlier,
        }
    }
}

/// Whether the identifiers of `entities` grow from each entity to the next
/// and stay below `bound`.
pub open spec fn ids_ascend(entities: Seq<EntityState>, bound: nat) -> bool {
    &&& forall|i: int, j: int|
        0 <= i < j < entities.len() ==> (#[trigger] entities[i]).id < (#[trigger] entities[j]).id
    &&& forall|i: int| 0 <= i < entities.len() ==> (#[trigger] entities[i]).id < bound
}

/// Whether the entities of `after` that were driven from outside in `before`
/// still are. An entity is known by its identifier.
pub open spec fn idle_stay_idle(before: Seq<Entity>, after: Seq<Entity>) -> bool {
    forall|i: int, j: int|
        0 <= i < before.len() && 0 <= j < after.len() && (#[trigger] before[i])@.id == (
        #[trigger] after[j])@.id && before[i].driver() == Behaviour::Idle ==> after[j].driver()
            == Behaviour::Idle
}

/// What an arena is: its map, its entities in the order in which they were
/// created, and the identifier that the next entity will get.
pub struct ArenaView {
    pub map: MapView,
    pub entities: Seq<Entity>,
    pub next_entity_id: nat,
}

impl ArenaView {
    /// The states of the entities, in their order.
    pub open spec fn states(self) -> Seq<EntityState> {
        states(self.entities)
    }

    /// What holds of every arena: the map is sound, and no identifier is used
    /// twice, now or later.
    pub open spec fn wf(self) -> bool {
        &&& self.map.wf()
        &&& ids_ascend(self.states(), self.next_entity_id)
    }

    /// What each behaviour asks for at `now`. Every behaviour is shown the
    /// same entities: those of this arena, as they are before any of the
    /// answers is carried out.
    pub open spec fn decisions(self, now: Timestamp) -> Seq<Seq<EntityAction>> {
        Seq::new(
            self.entities.len(),
            |i: int| self.entities[i].chosen(now, self.map, self.states()),
        )
    }

    /// The states of the entities that are left after the tick at `now`.
    pub open spec fn after_tick(self, now: Timestamp) -> Seq<EntityState> {
        settled(self.states(), self.decisions(now), now)
    }

    /// Where the entity with identifier `id` stands among the entities, if it
    /// is there.
    pub open spec fn holds(self, id: EntityId, index: int) -> bool {
        0 <= index < self.entities.len() && self.entities[index]@.id == id
    }
}

/// Carrying out actions leaves an entity what it is: its identifier and its
/// character stay, and health and energy stay within bounds.
pub proof fn lemma_advanced_keeps_identity(
    state: EntityState,
    actions: Seq<EntityAction>,
    now: Timestamp,
)
    ensures
        advanced(state, actions, now) matches Some(after) ==> {
            &&& after.id == state.id
            &&& after.character == state.character
            &&& after.health == state.health
            &&& after.energy == state.energy
            &&& (state.wf() ==> after.wf())
        },
    decreases actions.len(),
{
    if actions.len() > 0 {
        match actions[0] {
            EntityAction::Walk(direction) => {
                lemma_advanced_keeps_identity(
                    state.turned(direction).walked(now),
                    actions.drop_first(),
                    now,
                );
            },
            EntityAction::Cast(_, _) => {
                lemma_advanced_keeps_identity(state, actions.drop_first(), now);
            },
            EntityAction::Destroy => {},
        }
    }
}

/// A tick creates no entity and reuses no identifier: the entities that are
/// left still have identifiers that grow and stay below the same bound, and
/// they are no more than before.
pub proof fn lemma_settled_ids_ascend(
    before: Seq<EntityState>,
    decisions: Seq<Seq<EntityAction>>,
    now: Timestamp,
    bound: nat,
)
    requires
        ids_ascend(before, bound),
    ensures
        ids_ascend(settled(before, decisions, now), bound),
        settled(before, decisions, now).len() <= before.len(),
    decreases before.len(),
{
    if before.len() > 0 {
        let last = before.last();
        let earlier = before.drop_last();
        assert forall|i: int| 0 <= i < earlier.len() implies (#[trigger] earlier[i]).id
            < last.id by {
            assert(earlier[i] == before[i]);
        }
        assert(ids_ascend(earlier, last.id as nat)) by {
            assert forall|i: int, j: int| 0 <= i < j < earlier.len() implies (
            #[trigger] earlier[i]).id < (#[trigger] earlier[j]).id by {
                assert(earlier[i] == before[i]);
                assert(earlier[j] == before[j]);
            }
        }
        lemma_settled_ids_ascend(earlier, decisions, now, last.id as nat);
        lemma_advanced_keeps_identity(last, decisions[before.len() - 1], now);
    }
}

/// Carries out `actions` on `entity` at the moment `now`, and says whether
/// the entity is still there afterwards. When the entity asks to be
/// destroyed, its behaviour is told so, and what the behaviour answers is
/// carried out before the entity goes.
pub fn perform(entity: &mut Entity, actions: &Vec<EntityAction>, now: Timestamp) -> (stays: bool)
    ensures
        match advanced(old(entity)@, actions@, now) {
            Some(state) => stays && final(entity)@ == state,
            None => !stays && final(entity)@ == departing(
                old(entity)@,
                actions@,
                old(entity).driver().last_actions(),
                now,
            ),
        },
        final(entity)@.id == old(entity)@.id,
        old(entity).driver() == Behaviour::Idle ==> final(entity).driver() == Behaviour::Idle,
{
    let mut next: usize = 0;
    let ghost last_actions = entity.driver().last_actions();
    assert(actions@.subrange(0, actions@.len() as int) =~= actions@);
    while next < actions.len()
        invariant
            next <= actions@.len(),
            advanced(old(entity)@, actions@, now) == advanced(
                entity@,
                actions@.subrange(next as int, actions@.len() as int),
                now,
            ),
            departing(old(entity)@, actions@, last_actions, now) == departing(
                entity@,
                actions@.subrange(next as int, actions@.len() as int),
                last_actions,
                now,
            ),
            last_actions == old(entity).driver().last_actions(),
            entity@.id == old(entity)@.id,
            entity.driver() == old(entity).driver(),
        decreases actions@.len() - next,
    {
        let ghost rest = actions@.subrange(next as int, actions@.len() as int);
        assert(rest[0] == actions@[next as int]);
        assert(rest.drop_first() =~= actions@.subrange(next + 1, actions@.len() as int));
        match actions[next] {
            EntityAction::Walk(direction) => {
                entity.set_direction(direction);
                entity.walk(now);
            },
            EntityAction::Cast(_, _) => {
                // No skill is known to the arena: a cast resolves to nothing.
            },
            EntityAction::Destroy => {
                let last = entity.behaviour().destroyed();
                finish(entity, &last, now);
                return false;
            },
        }
        next += 1;
    }
    true
}

/// Carries out the last actions of an entity that is about to go. It cannot
/// be destroyed a second time.
fn finish(entity: &mut Entity, actions: &Vec<EntityAction>, now: Timestamp)
    ensures
        final(entity)@ == carried(old(entity)@, actions@, now),
        final(entity)@.id == old(entity)@.id,
        final(entity).driver() == old(entity).driver(),
{
    let mut next: usize = 0;
    assert(actions@.subrange(0, actions@.len() as int) =~= actions@);
    while next < actions.len()
        invariant
            next <= actions@.len(),
            carried(old(entity)@, actions@, now) == carried(
                entity@,
                actions@.subrange(next as int, actions@.len() as int),
                now,
            ),
            entity@.id == old(entity)@.id,
            entity.driver() == old(entity).driver(),
        decreases actions@.len() - next,
    {
        let ghost rest = actions@.subrange(next as int, actions@.len() as int);
        assert(rest[0] == actions@[next as int]);
        assert(rest.drop_first() =~= actions@.subrange(next + 1, actions@.len() as int));
        match actions[next] {
            EntityAction::Walk(direction) => {
                entity.set_direction(direction);
                entity.walk(now);
            },
            EntityAction::Cast(_, _) => {},
            EntityAction::Destroy => {},
        }
        next += 1;
    }
}

/// The live world of one round.
pub struct Arena {
    map: ArenaMap,
    entities: Vec<Entity>,
    next_entity_id: EntityId,
}

impl View for Arena {
    type V = ArenaView;

    closed spec fn view(&self) -> ArenaView {
        ArenaView {
            map: self.map@,
            entities: self.entities@,
            next_entity_id: self.next_entity_id as nat,
        }
    }
}

impl Arena {
    /// What holds of every arena: see [`ArenaView::wf`].
    pub open spec fn wf(&self) -> bool {
        self@.wf()
    }

    /// An arena with a side of `map_size` cells, laid out for
    /// `player_count` players, and without entities yet.
    pub fn new(map_size: usize, player_count: usize) -> (arena: Arena)
        requires
            map_size <= crate::server::game::arena::map::MAX_MAP_SIZE,
        ensures
            arena@.map == MapView::fresh(map_size as nat, player_count as nat),
            arena@.entities == Seq::<Entity>::empty(),
            arena@.next_entity_id == 0,
            arena.wf(),
    {
        Arena { map: ArenaMap::new(map_size, player_count), entities: Vec::new(), next_entity_id: 0 }
    }

    /// The ground of the arena.
    pub fn map(&self) -> (map: &ArenaMap)
        ensures
            map@ == self@.map,
    {
        &self.map
    }

    /// The identifier that the next entity will get.
    pub fn next_entity_id(&self) -> (id: EntityId)
        ensures
            id == self@.next_entity_id,
    {
        self.next_entity_id
    }

    /// Whether the arena is sound. An arena that was only ever changed
    /// through its own functions is. One in which an entity was put in the
    /// place of another may not be, and this function tells.
    pub fn is_sound(&self) -> (sound: bool)
        ensures
            sound == self.wf(),
    {
        let _ = self.map.size();
        let mut index: usize = 0;
        while index < self.entities.len()
            invariant
                index <= self.entities@.len(),
                self@.map.wf(),
                ids_ascend(states(self.entities@).subrange(0, index as int), self@.next_entity_id),
            decreases self.entities@.len() - index,
        {
            let ghost all = states(self.entities@);
            let id = self.entities[index].id();
            let follows = index == 0 || self.entities[index - 1].id() < id;
            if !follows || id >= self.next_entity_id {
                proof {
                    if self.wf() {
                        if !follows {
                            assert(all[index - 1].id < all[index as int].id);
                        } else {
                            assert(all[index as int].id < self@.next_entity_id);
                        }
                    }
                }
                return false;
            }
            proof {
                let seen = all.subrange(0, index as int);
                let more = all.subrange(0, index + 1);
                assert forall|i: int, j: int| 0 <= i < j < more.len() implies (#[trigger] more[i]).id < (
                #[trigger] more[j]).id by {
                    if j < index {
                        assert(seen[i].id < seen[j].id);
                    } else if i < index - 1 {
                        assert(seen[i].id < seen[index - 1].id);
                    }
                }
                assert forall|i: int| 0 <= i < more.len() implies (#[trigger] more[i]).id
                    < self@.next_entity_id by {
                    if i < index {
                        assert(seen[i].id < self@.next_entity_id);
                    }
                }
            }
            index += 1;
        }
        assert(states(self.entities@).subrange(0, index as int) =~= states(self.entities@));
        true
    }

    /// The length of a side of the arena.
    pub fn size(&self) -> (size: usize)
        ensures
            size == self@.map.size,
    {
        self.map.size()
    }

    /// The terrain of the cell at `position`, which has to lie in the arena.
    pub fn terrain(&self, position: Vec2) -> (terrain: Terrain)
        requires
            self@.map.contains(position),
        ensures
            terrain == self@.map.ground[self@.map.cell_index(position)],
    {
        self.map.terrain(position)
    }

    /// The entities of the arena, in the order in which they were created.
    pub fn entities(&self) -> (entities: &Vec<Entity>)
        ensures
            entities@ == self@.entities,
    {
        &self.entities
    }

    /// The place among the entities of the one with identifier `id`, or the
    /// number of entities if there is none.
    fn find(&self, id: EntityId) -> (index: usize)
        ensures
            index <= self.entities@.len(),
            index < self.entities@.len() ==> self.entities@[index as int]@.id == id,
            forall|i: int| 0 <= i < index ==> (#[trigger] self.entities@[i])@.id != id,
    {
        let mut index: usize = 0;
        while index < self.entities.len() && self.entities[index].id() != id
            invariant
                index <= self.entities@.len(),
                forall|i: int| 0 <= i < index ==> (#[trigger] self.entities@[i])@.id != id,
            decreases self.entities@.len() - index,
        {
            index += 1;
        }
        index
    }

    /// The entity with identifier `id`, if it is in the arena.
    pub fn entity(&self, id: EntityId) -> (found: Option<&Entity>)
        ensures
            match found {
                Some(entity) => exists|i: int| #[trigger] self@.holds(id, i) && self@.entities[i] == *entity,
                None => forall|i: int| !#[trigger] self@.holds(id, i),
            },
    {
        let index = self.find(id);
        if index < self.entities.len() {
            assert(self@.holds(id, index as int));
            Some(&self.entities[index])
        } else {
            None
        }
    }

    /// The entity with identifier `id`, if it is in the arena, to be changed
    /// from outside a tick. The arena afterwards differs from the arena
    /// before in that entity alone.
    pub fn entity_mut(&mut self, id: EntityId) -> (found: Option<&mut Entity>)
        ensures
            final(self)@.map == old(self)@.map,
            final(self)@.next_entity_id == old(self)@.next_entity_id,
            match found {
                Some(entity) => exists|i: int| #[trigger] old(self)@.holds(id, i)
                    && *entity == old(self)@.entities[i]
                    && final(self)@.entities == old(self)@.entities.update(i, *final(entity)),
                None => final(self)@.entities == old(self)@.entities
                    && forall|i: int| !#[trigger] old(self)@.holds(id, i),
            },
    {
        let index = self.find(id);
        if index < self.entities.len() {
            assert(self@.holds(id, index as int));
            Some(&mut self.entities[index])
        } else {
            None
        }
    }

    /// Creates an entity of `character` at `position`, at the moment `now`,
    /// and gives it an identifier that no entity of this arena had before.
    /// Returns the identifier.
    pub fn create_entity(&mut self, character: Rc<Character>, position: Vec2, now: Timestamp) -> (id:
        EntityId)
        requires
            old(self).wf(),
            old(self)@.next_entity_id < usize::MAX,
            behaviour_registered(character.behaviour_name@),
        ensures
            id == old(self)@.next_entity_id,
            final(self)@.next_entity_id == id + 1,
            final(self)@.map == old(self)@.map,
            final(self)@.entities.len() == old(self)@.entities.len() + 1,
            final(self)@.entities.drop_last() == old(self)@.entities,
            final(self)@.entities.last()@ == EntityState::fresh(id, character, position, now),
            final(self)@.entities.last().driver() == Behaviour::Idle,
            final(self).wf(),
    {
        let id = self.next_entity_id;
        self.entities.push(Entity::new(id, character, position, now));
        self.next_entity_id = id + 1;
        proof {
            assert(self.entities@.drop_last() =~= old(self).entities@);
            let before = states(old(self).entities@);
            let after = states(self.entities@);
            assert forall|i: int| 0 <= i < after.len() implies (#[trigger] after[i]).id < id + 1 by {
                if i < before.len() {
                    assert(after[i] == before[i]);
                }
            }
            assert forall|i: int, j: int| 0 <= i < j < after.len() implies (#[trigger] after[i]).id < (
            #[trigger] after[j]).id by {
                assert(after[i] == before[i]);
                if j < before.len() {
                    assert(after[j] == before[j]);
                }
            }
        }
        id
    }

    /// The states of all entities, as a behaviour is shown them.
    pub fn snapshot(&self) -> (all: Vec<EntityState>)
        ensures
            all@ == self@.states(),
    {
        let mut all: Vec<EntityState> = Vec::new();
        let mut next: usize = 0;
        while next < self.entities.len()
            invariant
                next <= self.entities@.len(),
                all@.len() == next,
                forall|i: int| 0 <= i < next ==> all@[i] == self.entities@[i]@,
            decreases self.entities@.len() - next,
        {
            all.push(self.entities[next].state());
            next += 1;
        }
        assert(all@ =~= self@.states());
        all
    }

    /// Asks every behaviour what its entity does at `now`. All of them are
    /// shown the entities as they are when this function is called. No entity
    /// changes; a behaviour may change itself.
    pub fn decide(&mut self, now: Timestamp) -> (decisions: Vec<Vec<EntityAction>>)
        requires
            old(self).wf(),
        ensures
            action_lists(decisions@) == old(self)@.decisions(now),
            final(self)@.states() == old(self)@.states(),
            final(self)@.map == old(self)@.map,
            final(self)@.next_entity_id == old(self)@.next_entity_id,
            idle_stay_idle(old(self)@.entities, final(self)@.entities),
            final(self).wf(),
    {
        let snapshot = self.snapshot();
        let mut decisions: Vec<Vec<EntityAction>> = Vec::new();
        let mut next: usize = 0;
        while next < self.entities.len()
            invariant
                next <= self.entities@.len(),
                self.entities@.len() == old(self).entities@.len(),
                self.map == old(self).map,
                self.map@.wf(),
                self.next_entity_id == old(self).next_entity_id,
                snapshot@ == states(old(self).entities@),
                states(self.entities@) == states(old(self).entities@),
                forall|i: int|
                    next <= i < self.entities@.len() ==> self.entities@[i] == old(self).entities@[i],
                forall|i: int|
                    0 <= i < self.entities@.len() && (#[trigger] old(self).entities@[i]).driver()
                        == Behaviour::Idle ==> self.entities@[i].driver() == Behaviour::Idle,
                decisions@.len() == next,
                forall|i: int|
                    0 <= i < next ==> (#[trigger] decisions@[i])@ == old(self)@.decisions(now)[i],
            decreases self.entities@.len() - next,
        {
            let ghost before = self.entities@;
            let actions = self.entities[next].behaviour().update(
                now,
                &snapshot[next],
                &self.map,
                &snapshot,
            );
            assert(states(self.entities@) =~= states(before));
            decisions.push(actions);
            next += 1;
        }
        assert(action_lists(decisions@) =~= old(self)@.decisions(now));
        proof {
            let before = old(self)@.entities;
            let after = self@.entities;
            assert forall|i: int, j: int|
                0 <= i < before.len() && 0 <= j < after.len() && (#[trigger] before[i])@.id == (
                #[trigger] after[j])@.id && before[i].driver() == Behaviour::Idle implies after[j].driver()
                == Behaviour::Idle by {
                assert(states(before)[i].id == states(after)[j].id);
                assert(states(before)[j] == states(after)[j]);
                assert(i == j);
            }
        }
        decisions
    }

    /// Carries out what the entities decided: `decisions[i]` is what the
    /// `i`-th entity asked for. Entities that asked to be destroyed are gone
    /// afterwards; the others keep their order.
    pub fn apply(&mut self, decisions: &Vec<Vec<EntityAction>>, now: Timestamp)
        requires
            old(self).wf(),
            decisions@.len() == old(self)@.entities.len(),
        ensures
            final(self)@.states() == settled(old(self)@.states(), action_lists(decisions@), now),
            final(self)@.map == old(self)@.map,
            final(self)@.next_entity_id == old(self)@.next_entity_id,
            idle_stay_idle(old(self)@.entities, final(self)@.entities),
            final(self).wf(),
    {
        let ghost before = states(self.entities@);
        let ghost lists = action_lists(decisions@);
        let mut read: usize = 0;
        let mut kept: usize = 0;
        assert(before.subrange(0, 0) =~= Seq::<EntityState>::empty());
        assert(states(self.entities@).subrange(0, 0) =~= Seq::<EntityState>::empty());
        while read < decisions.len()
            invariant
                read <= decisions@.len(),
                kept <= read,
                before.len() == decisions@.len(),
                before == states(old(self).entities@),
                lists == action_lists(decisions@),
                self.entities@.len() == kept + (decisions@.len() - read),
                self.map == old(self).map,
                self.next_entity_id == old(self).next_entity_id,
                states(self.entities@).subrange(0, kept as int) == settled(
                    before.subrange(0, read as int),
                    lists,
                    now,
                ),
                forall|k: int|
                    read <= k < decisions@.len() ==> (#[trigger] self.entities@[kept + k - read])
                        == old(self).entities@[k],
                ids_ascend(before, old(self).next_entity_id as nat),
                forall|i: int, j: int|
                    0 <= i < before.len() && 0 <= j < kept && (#[trigger] old(self).entities@[i])@.id
                        == (#[trigger] self.entities@[j])@.id && old(self).entities@[i].driver()
                        == Behaviour::Idle ==> self.entities@[j].driver() == Behaviour::Idle,
            decreases decisions@.len() - read,
        {
            let ghost entities_before = self.entities@;
            let ghost done = states(entities_before).subrange(0, kept as int);
            assert(entities_before[kept + read - read] == old(self).entities@[read as int]);
            assert(entities_before[kept as int]@ == before[read as int]);
            let stays = perform(&mut self.entities[kept], &decisions[read], now);
            proof {
                let prefix = before.subrange(0, read + 1);
                assert(prefix.drop_last() =~= before.subrange(0, read as int));
                assert(prefix.last() == before[read as int]);
                assert(lists[read as int] == decisions@[read as int]@);
            }
            if stays {
                assert(states(self.entities@).subrange(0, kept + 1) =~= done.push(
                    self.entities@[kept as int]@,
                ));
                assert forall|k: int| read + 1 <= k < decisions@.len() implies (
                #[trigger] self.entities@[kept + 1 + k - (read + 1)]) == old(self).entities@[k] by {
                    assert(self.entities@[kept + k - read] == entities_before[kept + k - read]);
                }
                assert forall|i: int, j: int|
                    0 <= i < before.len() && 0 <= j < kept + 1 && (
                    #[trigger] old(self).entities@[i])@.id == (#[trigger] self.entities@[j])@.id
                        && old(self).entities@[i].driver() == Behaviour::Idle implies self.entities@[j].driver()
                    == Behaviour::Idle by {
                    if j < kept {
                        assert(self.entities@[j] == entities_before[j]);
                    } else {
                        assert(before[i].id == before[read as int].id);
                        assert(i == read);
                    }
                }
                kept += 1;
            } else {
                let ghost entities_performed = self.entities@;
                self.entities.remove(kept);
                assert(states(self.entities@).subrange(0, kept as int) =~= done);
                assert forall|k: int| read + 1 <= k < decisions@.len() implies (
                #[trigger] self.entities@[kept + k - (read + 1)]) == old(self).entities@[k] by {
                    assert(self.entities@[kept + k - (read + 1)] == entities_performed[kept + k
                        - read]);
                    assert(entities_performed[kept + k - read] == entities_before[kept + k - read]);
                }
                assert forall|i: int, j: int|
                    0 <= i < before.len() && 0 <= j < kept && (
                    #[trigger] old(self).entities@[i])@.id == (#[trigger] self.entities@[j])@.id
                        && old(self).entities@[i].driver() == Behaviour::Idle implies self.entities@[j].driver()
                    == Behaviour::Idle by {
                    assert(self.entities@[j] == entities_performed[j]);
                    assert(entities_performed[j] == entities_before[j]);
                }
            }
            read += 1;
        }
        proof {
            assert(before.subrange(0, read as int) =~= before);
            assert(states(self.entities@).subrange(0, kept as int) =~= states(self.entities@));
            lemma_settled_ids_ascend(before, lists, now, old(self)@.next_entity_id);
        }
    }

    /// Advances the arena by one tick, at the moment `now`: every behaviour
    /// decides on the arena as it is now, and then all decisions are carried
    /// out.
    pub fn update(&mut self, now: Timestamp)
        requires
            old(self).wf(),
        ensures
            final(self)@.states() == old(self)@.after_tick(now),
            final(self)@.map == old(self)@.map,
            final(self)@.next_entity_id == old(self)@.next_entity_id,
            idle_stay_idle(old(self)@.entities, final(self)@.entities),
            final(self).wf(),
    {
        let decisions = self.decide(now);
        assert(decisions@.len() == action_lists(decisions@).len());
        assert(self@.states().len() == old(self)@.states().len());
        let ghost decided = self@.entities;
        self.apply(&decisions, now);
        proof {
            let before = old(self)@.entities;
            let after = self@.entities;
            assert forall|i: int, j: int|
                0 <= i < before.len() && 0 <= j < after.len() && (#[trigger] before[i])@.id == (
                #[trigger] after[j])@.id && before[i].driver() == Behaviour::Idle implies after[j].driver()
                == Behaviour::Idle by {
                assert(states(before)[i] == states(decided)[i]);
                assert(decided[i]@.id == before[i]@.id);
                assert(decided[i].driver() == Behaviour::Idle);
            }
        }
    }
}

} // verus!
