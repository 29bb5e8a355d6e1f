//! The actors of an arena, and the behaviours that drive them.
//!
//! An entity is a record of plain values, [`EntityState`], and a behaviour.
//! Once per tick the arena shows each behaviour the state of its entity and
//! of all the others, as they were when the tick began, and the behaviour
//! answers with the actions that it wants taken. A behaviour never touches an
//! entity itself.

pub mod behaviour;

use vstd::prelude::*;
use std::rc::Rc;
use crate::character::{share, Character};
use crate::direction::Direction;
use crate::ids::{EntityId, SkillId};
use crate::server::game::arena::entity::behaviour::Idle;
use crate::server::game::arena::map::{ArenaMap, MapView};
use crate::time::{next_step_time, step_allowed_after, Speed, Timestamp};
use crate::vec2::Vec2;

verus! {

/// What a behaviour asks the arena to do with its entity.
#[derive(Clone, Copy, Debug, PartialEq, Eq, Structural)]
pub enum EntityAction {
    /// Face this way and step, if a step is due.
    Walk(Direction),
    /// Cast the skill in this direction.
    Cast(Direction, SkillId),
    /// Take the entity out of the arena.
    Destroy,
}

/// `value + delta`, kept within `0..=max`.
pub open spec fn clamped_change(value: usize, delta: i32, max: usize) -> usize {
    if value + delta < 0 {
        0
    } else if value + delta > max {
        max
    } else {
        (value + delta) as usize
    }
}

/// Everything that an entity is at one moment, but for its behaviour.
#[derive(Debug)]
pub struct EntityState {
    pub id: EntityId,
    pub character: Rc<Character>,
    pub direction: Direction,
    pub position: Vec2,
    pub health: usize,
    pub energy: usize,
    pub speed: Speed,
    pub next_walk_time: Timestamp,
}

impl EntityState {
    /// Health and energy lie within what the character allows.
    pub open spec fn wf(self) -> bool {
        &&& self.health <= self.character.max_health
        &&& self.energy <= self.character.max_energy
    }

    /// The state in which an entity of `character` begins at `position` at
    /// the moment `now`: full health and energy, facing down, and free to
    /// step at any later moment.
    pub open spec fn fresh(
        id: EntityId,
        character: Rc<Character>,
        position: Vec2,
        now: Timestamp,
    ) -> EntityState {
        EntityState {
            id,
            character,
            direction: Direction::Down,
            position,
            health: character.max_health,
            energy: character.max_energy,
            speed: character.speed_base,
            next_walk_time: now,
        }
    }

    /// Whether the entity has any health left.
    pub open spec fn is_alive(self) -> bool {
        self.health > 0
    }

    /// The state with `health` as the new health, or the most that the
    /// character allows if that is less.
    pub open spec fn with_health(self, health: usize) -> EntityState {
        EntityState {
            health: if health > self.character.max_health {
                self.character.max_health
            } else {
                health
            },
            ..self
        }
    }

    /// The state with `energy` as the new energy, or the most that the
    /// character allows if that is less.
    pub open spec fn with_energy(self, energy: usize) -> EntityState {
        EntityState {
            energy: if energy > self.character.max_energy {
                self.character.max_energy
            } else {
                energy
            },
            ..self
        }
    }

    /// The state after the health has changed by `delta`, kept between
    /// nothing and the most that the character allows.
    pub open spec fn healed(self, delta: i32) -> EntityState {
        EntityState {
            health: clamped_change(self.health, delta, self.character.max_health),
            ..self
        }
    }

    /// The state after the energy has changed by `delta`, kept between
    /// nothing and the most that the character allows.
    pub open spec fn charged(self, delta: i32) -> EntityState {
        EntityState {
            energy: clamped_change(self.energy, delta, self.character.max_energy),
            ..self
        }
    }

    /// The state facing `direction`.
    pub open spec fn turned(self, direction: Direction) -> EntityState {
        EntityState { direction, ..self }
    }

    /// The state moved by `displacement`.
    pub open spec fn displaced(self, displacement: Vec2) -> EntityState {
        EntityState { position: self.position.spec_plus(displacement), ..self }
    }

    /// Whether a step is due at `current`: the moment lies after the one
    /// from which the next step is allowed.
    pub open spec fn can_walk(self, current: Timestamp) -> bool {
        current > self.next_walk_time
    }

    /// The state after an attempt to step at `current`. If a step is due, the
    /// entity moves one cell the way it faces, and the next step is allowed
    /// `1 / speed` seconds after `current`. Otherwise nothing changes.
    pub open spec fn walked(self, current: Timestamp) -> EntityState {
        if self.can_walk(current) {
            EntityState {
                position: self.position.spec_plus(self.direction.unit()),
                next_walk_time: next_step_time(current, self.speed),
                ..self
            }
        } else {
            self
        }
    }
}

impl Clone for EntityState {
    /// A copy of the state that shares the character.
    fn clone(&self) -> (copy: EntityState)
        ensures
            copy == *self,
    {
        EntityState {
            id: self.id,
            character: share(&self.character),
            direction: self.direction,
            position: self.position,
            health: self.health,
            energy: self.energy,
            speed: self.speed,
            next_walk_time: self.next_walk_time,
        }
    }
}

/// Stepping twice at the same moment moves an entity at most once: after an
/// attempt to step at a moment, no step is due at that moment.
pub proof fn lemma_walk_once_per_moment(state: EntityState, current: Timestamp)
    ensures
        !state.walked(current).can_walk(current),
        state.walked(current).walked(current) == state.walked(current),
{
}

/// A step moves an entity only when one is due: at a moment that does not lie
/// after the one from which the next step is allowed, nothing changes.
pub proof fn lemma_walk_only_when_due(state: EntityState, current: Timestamp)
    ensures
        current <= state.next_walk_time ==> state.walked(current) == state,
        state.walked(current).position != state.position ==> current > state.next_walk_time,
{
}

/// Whatever health and energy an entity is given, and whatever is added to or
/// taken from them, both stay between nothing and the most that the
/// character allows.
pub proof fn lemma_health_and_energy_stay_bounded(
    state: EntityState,
    health: usize,
    energy: usize,
    delta: i32,
)
    ensures
        0 <= state.with_health(health).health <= state.character.max_health,
        0 <= state.healed(delta).health <= state.character.max_health,
        0 <= state.with_energy(energy).energy <= state.character.max_energy,
        0 <= state.charged(delta).energy <= state.character.max_energy,
        state.wf() ==> state.with_health(health).wf() && state.healed(delta).wf()
            && state.with_energy(energy).wf() && state.charged(delta).wf(),
{
}

/// A strategy that decides, once per tick, what its entity does.
///
/// Both answers are functions of what the behaviour is and of what it is
/// shown: [`EntityBehaviour::decision`] and [`EntityBehaviour::last_actions`]
/// name them, so that the arena can say what a tick does. A behaviour may
/// change itself while it answers. It has no way to change the world: all of
/// its effects go through the actions it returns.
pub trait EntityBehaviour {
    /// The actions that this behaviour asks for at `time`, shown its own
    /// entity, the map, and all the entities of the arena.
    spec fn decision(
        &self,
        time: Timestamp,
        entity: EntityState,
        map: MapView,
        entities: Seq<EntityState>,
    ) -> Seq<EntityAction>;

    /// The last actions that this behaviour asks for when its entity is taken
    /// out of the arena.
    spec fn last_actions(&self) -> Seq<EntityAction>;

    /// Called once, when the entity of this behaviour is taken out of the
    /// arena.
    fn destroyed(&mut self) -> (actions: Vec<EntityAction>)
        ensures
            actions@ == old(self).last_actions(),
    ;

    /// Called once per tick.
    fn update(
        &mut self,
        time: Timestamp,
        entity: &EntityState,
        map: &ArenaMap,
        entities: &Vec<EntityState>,
    ) -> (actions: Vec<EntityAction>)
        requires
            map@.wf(),
        ensures
            actions@ == old(self).decision(time, *entity, map@, entities@),
    ;
}

/// The behaviour of an entity: the one that comes with the game, or one that
/// was put in its place.
pub enum Behaviour {
    /// Driven from outside: asks for nothing.
    Idle,
    /// Driven by a strategy of its own.
    Custom(Box<dyn EntityBehaviour>),
}

impl Behaviour {
    /// The actions that the behaviour asks for at `time`.
    pub open spec fn decision(
        self,
        time: Timestamp,
        entity: EntityState,
        map: MapView,
        entities: Seq<EntityState>,
    ) -> Seq<EntityAction> {
        match self {
            Behaviour::Idle => Seq::empty(),
            Behaviour::Custom(custom) => custom.decision(time, entity, map, entities),
        }
    }

    /// The last actions that the behaviour asks for when its entity goes.
    pub open spec fn last_actions(self) -> Seq<EntityAction> {
        match self {
            Behaviour::Idle => Seq::empty(),
            Behaviour::Custom(custom) => custom.last_actions(),
        }
    }

    /// Asks the behaviour for the last actions of its entity.
    pub fn destroyed(&mut self) -> (actions: Vec<EntityAction>)
        ensures
            actions@ == old(self).last_actions(),
            *old(self) is Idle ==> *final(self) is Idle,
    {
        match self {
            Behaviour::Idle => {
                let mut idle = Idle;
                idle.destroyed()
            },
            Behaviour::Custom(custom) => custom.destroyed(),
        }
    }

    /// Asks the behaviour what its entity does at `time`.
    pub fn update(
        &mut self,
        time: Timestamp,
        entity: &EntityState,
        map: &ArenaMap,
        entities: &Vec<EntityState>,
    ) -> (actions: Vec<EntityAction>)
        requires
            map@.wf(),
        ensures
            actions@ == old(self).decision(time, *entity, map@, entities@),
            *old(self) is Idle ==> *final(self) is Idle,
    {
        match self {
            Behaviour::Idle => {
                let mut idle = Idle;
                idle.update(time, entity, map, entities)
            },
            Behaviour::Custom(custom) => custom.update(time, entity, map, entities),
        }
    }
}

/// Whether a behaviour is registered under `name`. Only the empty name is:
/// it stands for the behaviour that asks for nothing.
pub open spec fn behaviour_registered(name: Seq<char>) -> bool {
    name.len() == 0
}

/// The behaviour that is registered under `name`, if there is one.
pub fn get_behaviour(name: &'static str) -> (found: Option<Behaviour>)
    ensures
        behaviour_registered(name@) ==> found == Some(Behaviour::Idle),
        !behaviour_registered(name@) ==> found.is_none(),
{
    if name.is_empty() {
        Some(Behaviour::Idle)
    } else {
        None
    }
}

/// A state whose health and energy are known to lie within what the character
/// allows.
struct Bounded {
    state: EntityState,
}

impl Bounded {
    #[verifier::type_invariant]
    spec fn bounded(self) -> bool {
        self.state.wf()
    }
}

/// One actor in an arena.
pub struct Entity {
    vitals: Bounded,
    behaviour: Behaviour,
}

impl View for Entity {
    type V = EntityState;

    closed spec fn view(&self) -> EntityState {
        self.vitals.state
    }
}

impl Entity {
    /// The behaviour that drives the entity.
    pub closed spec fn driver(self) -> Behaviour {
        self.behaviour
    }

    /// The actions that the entity's behaviour asks for at `time`, shown the
    /// map and all the entities of the arena.
    pub open spec fn chosen(self, time: Timestamp, map: MapView, entities: Seq<EntityState>) -> Seq<
        EntityAction,
    > {
        self.driver().decision(time, self@, map, entities)
    }

    /// An entity of `character` at `position`, created at the moment `now`.
    /// It starts with full health and energy, faces down, may step at any
    /// later moment, and is driven by the behaviour that is registered under
    /// the character's behaviour name.
    pub fn new(id: EntityId, character: Rc<Character>, position: Vec2, now: Timestamp) -> (entity:
        Entity)
        requires
            behaviour_registered(character.behaviour_name@),
        ensures
            entity@ == EntityState::fresh(id, character, position, now),
            entity.driver() == Behaviour::Idle,
    {
        let behaviour = get_behaviour(character.behaviour_name()).unwrap();
        let health = character.max_health();
        let energy = character.max_energy();
        let speed = character.speed_base();
        Entity {
            vitals: Bounded {
                state: EntityState {
                    id,
                    character,
                    direction: Direction::Down,
                    position,
                    health,
                    energy,
                    speed,
                    next_walk_time: now,
                },
            },
            behaviour,
        }
    }

    /// What the entity is at this moment: a copy that a behaviour may read.
    pub fn state(&self) -> (state: EntityState)
        ensures
            state == self@,
            state.wf(),
    {
        proof {
            use_type_invariant(&self.vitals);
        }
        self.vitals.state.clone()
    }

    /// The identifier that the arena gave the entity.
    pub fn id(&self) -> (id: EntityId)
        ensures
            id == self@.id,
    {
        self.vitals.state.id
    }

    /// The character that the entity is made from.
    pub fn character(&self) -> (character: &Character)
        ensures
            *character == *self@.character,
    {
        &*self.vitals.state.character
    }

    /// The behaviour that drives the entity, to be asked or changed.
    pub fn behaviour(&mut self) -> (behaviour: &mut Behaviour)
        ensures
            *behaviour == old(self).driver(),
            final(self).driver() == *final(behaviour),
            final(self)@ == old(self)@,
    {
        &mut self.behaviour
    }

    /// Puts `behaviour` in the place of the behaviour that drove the entity.
    /// Nothing else about the entity changes.
    pub fn set_behaviour(&mut self, behaviour: Box<dyn EntityBehaviour>)
        ensures
            final(self).driver() == Behaviour::Custom(behaviour),
            final(self)@ == old(self)@,
    {
        self.behaviour = Behaviour::Custom(behaviour);
    }

    /// The health of the entity, which is never more than its character
    /// allows.
    pub fn health(&self) -> (health: usize)
        ensures
            health == self@.health,
            0 <= health <= self@.character.max_health,
    {
        proof {
            use_type_invariant(&self.vitals);
        }
        self.vitals.state.health
    }

    /// The energy of the entity, which is never more than its character
    /// allows.
    pub fn energy(&self) -> (energy: usize)
        ensures
            energy == self@.energy,
            0 <= energy <= self@.character.max_energy,
    {
        proof {
            use_type_invariant(&self.vitals);
        }
        self.vitals.state.energy
    }

    /// The cell on which the entity stands.
    pub fn position(&self) -> (position: Vec2)
        ensures
            position == self@.position,
    {
        self.vitals.state.position
    }

    /// The way the entity faces.
    pub fn direction(&self) -> (direction: Direction)
        ensures
            direction == self@.direction,
    {
        self.vitals.state.direction
    }

    /// The moment after which the entity may step again.
    pub fn next_walk_time(&self) -> (time: Timestamp)
        ensures
            time == self@.next_walk_time,
    {
        self.vitals.state.next_walk_time
    }

    /// Whether the entity has any health left. An entity without health is
    /// dead, and stays in the arena until its behaviour has it destroyed.
    pub fn is_alive(&self) -> (alive: bool)
        ensures
            alive == self@.is_alive(),
    {
        self.vitals.state.health > 0
    }

    /// Turns the entity. Turning takes no time and moves nothing.
    pub fn set_direction(&mut self, direction: Direction)
        ensures
            final(self)@ == old(self)@.turned(direction),
            final(self).driver() == old(self).driver(),
    {
        proof {
            use_type_invariant(&self.vitals);
        }
        self.vitals.state.direction = direction;
    }

    /// Puts the entity on the cell at `position`.
    pub fn set_position(&mut self, position: Vec2)
        ensures
            final(self)@ == (EntityState { position, ..old(self)@ }),
            final(self).driver() == old(self).driver(),
    {
        proof {
            use_type_invariant(&self.vitals);
        }
        self.vitals.state.position = position;
    }

    /// Moves the entity by `displacement`. A coordinate that would leave
    /// `i32` stays at the end it ran into.
    pub fn displace(&mut self, displacement: Vec2)
        ensures
            final(self)@ == old(self)@.displaced(displacement),
            final(self).driver() == old(self).driver(),
    {
        proof {
            use_type_invariant(&self.vitals);
        }
        self.vitals.state.position = self.vitals.state.position.plus(displacement);
    }

    /// Sets the health, to no more than the character allows.
    pub fn set_health(&mut self, health: usize)
        ensures
            final(self)@ == old(self)@.with_health(health),
            0 <= final(self)@.health <= final(self)@.character.max_health,
            final(self).driver() == old(self).driver(),
    {
        proof {
            use_type_invariant(&self.vitals);
        }
        let max = self.vitals.state.character.max_health();
        if health > max {
            self.vitals.state.health = max;
        } else {
            self.vitals.state.health = health;
        }
    }

    /// Sets the energy, to no more than the character allows.
    pub fn set_energy(&mut self, energy: usize)
        ensures
            final(self)@ == old(self)@.with_energy(energy),
            0 <= final(self)@.energy <= final(self)@.character.max_energy,
            final(self).driver() == old(self).driver(),
    {
        proof {
            use_type_invariant(&self.vitals);
        }
        let max = self.vitals.state.character.max_energy();
        if energy > max {
            self.vitals.state.energy = max;
        } else {
            self.vitals.state.energy = energy;
        }
    }

    /// Changes the health by `health`, which may be negative. The result stays
    /// between nothing and the most that the character allows, however large
    /// the change.
    pub fn add_health(&mut self, health: i32)
        ensures
            final(self)@ == old(self)@.healed(health),
            0 <= final(self)@.health <= final(self)@.character.max_health,
            final(self).driver() == old(self).driver(),
    {
        proof {
            use_type_invariant(&self.vitals);
        }
        let max = self.vitals.state.character.max_health();
        let new_health: i128 = self.vitals.state.health as i128 + health as i128;
        if new_health < 0 {
            self.vitals.state.health = 0;
        } else if new_health > max as i128 {
            self.vitals.state.health = max;
        } else {
            self.vitals.state.health = new_health as usize;
        }
    }

    /// Changes the energy by `energy`, which may be negative. The result stays
    /// between nothing and the most that the character allows, however large
    /// the change.
    pub fn add_energy(&mut self, energy: i32)
        ensures
            final(self)@ == old(self)@.charged(energy),
            0 <= final(self)@.energy <= final(self)@.character.max_energy,
            final(self).driver() == old(self).driver(),
    {
        proof {
            use_type_invariant(&self.vitals);
        }
        let max = self.vitals.state.character.max_energy();
        let new_energy: i128 = self.vitals.state.energy as i128 + energy as i128;
        if new_energy < 0 {
            self.vitals.state.energy = 0;
        } else if new_energy > max as i128 {
            self.vitals.state.energy = max;
        } else {
            self.vitals.state.energy = new_energy as usize;
        }
    }

    /// Steps one cell the way the entity faces, if a step is due at
    /// `current`: that is, if `current` lies after the moment from which the
    /// next step is allowed. After a step the next one is allowed
    /// `1 / speed` seconds after `current`. Says whether the entity moved.
    pub fn walk(&mut self, current: Timestamp) -> (moved: bool)
        ensures
            moved == old(self)@.can_walk(current),
            final(self)@ == old(self)@.walked(current),
            final(self).driver() == old(self).driver(),
    {
        proof {
            use_type_invariant(&self.vitals);
        }
        if current > self.vitals.state.next_walk_time {
            self.vitals.state.position = self.vitals.state.position.plus(self.vitals.state.direction.to_vec2());
            self.vitals.state.next_walk_time = step_allowed_after(current, self.vitals.state.speed);
            return true;
        }
        false
    }
}

} // verus!
