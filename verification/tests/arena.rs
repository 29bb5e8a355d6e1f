use std::cell::Cell;
use std::rc::Rc;

use asciiarena::character::{Character, CharacterBuilder};
use asciiarena::direction::Direction;
use asciiarena::message::Terrain;
use asciiarena::server::game::arena::entity::{
    Behaviour, Entity, EntityAction, EntityBehaviour, EntityState,
};
use asciiarena::server::game::arena::map::{ArenaMap, MapView, MAX_MAP_SIZE};
use asciiarena::server::game::arena::{perform, Arena};
use asciiarena::vec2::Vec2;

fn creature(symbol: char) -> Rc<Character> {
    Rc::new(
        CharacterBuilder::default()
            .id(0)
            .symbol(symbol)
            .max_live(10)
            .max_energy(10)
            .speed_base(1_000)
            .build()
            .unwrap(),
    )
}

struct Walker {
    direction: Direction,
}

impl EntityBehaviour for Walker {
    fn decision(
        &self,
        _time: u64,
        _entity: EntityState,
        _map: MapView,
        _entities: vstd::seq::Seq<EntityState>,
    ) -> vstd::seq::Seq<EntityAction> {
        unreachable!()
    }

    fn last_actions(&self) -> vstd::seq::Seq<EntityAction> {
        unreachable!()
    }

    fn destroyed(&mut self) -> Vec<EntityAction> {
        Vec::new()
    }

    fn update(
        &mut self,
        _time: u64,
        _entity: &EntityState,
        _map: &ArenaMap,
        _entities: &Vec<EntityState>,
    ) -> Vec<EntityAction> {
        vec![EntityAction::Walk(self.direction)]
    }
}

struct Watcher {
    watched: usize,
    home: Vec2,
}

impl EntityBehaviour for Watcher {
    fn decision(
        &self,
        _time: u64,
        _entity: EntityState,
        _map: MapView,
        _entities: vstd::seq::Seq<EntityState>,
    ) -> vstd::seq::Seq<EntityAction> {
        unreachable!()
    }

    fn last_actions(&self) -> vstd::seq::Seq<EntityAction> {
        unreachable!()
    }

    fn destroyed(&mut self) -> Vec<EntityAction> {
        Vec::new()
    }

    fn update(
        &mut self,
        _time: u64,
        _entity: &EntityState,
        _map: &ArenaMap,
        entities: &Vec<EntityState>,
    ) -> Vec<EntityAction> {
        let other = entities.iter().find(|state| state.id == self.watched).unwrap();
        if other.position == self.home {
            vec![EntityAction::Walk(Direction::Up)]
        } else {
            vec![EntityAction::Walk(Direction::Left)]
        }
    }
}

struct Mortal {
    updates: Rc<Cell<u32>>,
    farewells: Rc<Cell<u32>>,
    script: Vec<EntityAction>,
    last_words: Vec<EntityAction>,
}

impl EntityBehaviour for Mortal {
    fn decision(
        &self,
        _time: u64,
        _entity: EntityState,
        _map: MapView,
        _entities: vstd::seq::Seq<EntityState>,
    ) -> vstd::seq::Seq<EntityAction> {
        unreachable!()
    }

    fn last_actions(&self) -> vstd::seq::Seq<EntityAction> {
        unreachable!()
    }

    fn destroyed(&mut self) -> Vec<EntityAction> {
        self.farewells.set(self.farewells.get() + 1);
        self.last_words.clone()
    }

    fn update(
        &mut self,
        _time: u64,
        _entity: &EntityState,
        _map: &ArenaMap,
        _entities: &Vec<EntityState>,
    ) -> Vec<EntityAction> {
        self.updates.set(self.updates.get() + 1);
        self.script.clone()
    }
}

struct Census {
    seen: Rc<Cell<usize>>,
    own_id: Rc<Cell<usize>>,
    side: Rc<Cell<usize>>,
    time: Rc<Cell<u64>>,
}

impl EntityBehaviour for Census {
    fn decision(
        &self,
        _time: u64,
        _entity: EntityState,
        _map: MapView,
        _entities: vstd::seq::Seq<EntityState>,
    ) -> vstd::seq::Seq<EntityAction> {
        unreachable!()
    }

    fn last_actions(&self) -> vstd::seq::Seq<EntityAction> {
        unreachable!()
    }

    fn destroyed(&mut self) -> Vec<EntityAction> {
        Vec::new()
    }

    fn update(
        &mut self,
        time: u64,
        entity: &EntityState,
        map: &ArenaMap,
        entities: &Vec<EntityState>,
    ) -> Vec<EntityAction> {
        self.seen.set(entities.len());
        self.own_id.set(entity.id);
        self.side.set(map.size());
        self.time.set(time);
        Vec::new()
    }
}

#[test]
fn new_arena_is_empty_floor() {
    let arena = Arena::new(6, 3);
    assert_eq!(arena.size(), 6);
    assert_eq!(arena.map().size(), 6);
    assert_eq!(arena.map().spawn_capacity(), 3);
    assert!(arena.entities().is_empty());
    for y in 0..6 {
        for x in 0..6 {
            assert_eq!(arena.terrain(Vec2::xy(x, y)), Terrain::Floor);
            assert_eq!(arena.map().terrain(Vec2::xy(x, y)), Terrain::Floor);
        }
    }
}

#[test]
fn spawn_slots_are_spread_over_the_ground() {
    let map = ArenaMap::new(10, 4);
    assert_eq!(map.initial_position(0), Vec2 { x: 0, y: 0 });
    assert_eq!(map.initial_position(1), Vec2 { x: 5, y: 2 });
    assert_eq!(map.initial_position(2), Vec2 { x: 0, y: 5 });
    assert_eq!(map.initial_position(3), Vec2 { x: 5, y: 7 });
}

#[test]
fn spawn_slots_are_stable() {
    let first = ArenaMap::new(9, 5);
    let second = ArenaMap::new(9, 5);
    for index in 0..5 {
        assert_eq!(first.initial_position(index), second.initial_position(index));
    }
}

#[test]
fn spawn_slots_never_collide() {
    for size in 1..=7usize {
        for players in 1..=size * size {
            let map = ArenaMap::new(size, players);
            assert_eq!(map.spawn_capacity(), players);
            let mut taken: Vec<Vec2> = Vec::new();
            for index in 0..players {
                let position = map.initial_position(index);
                assert!(position.x >= 0 && (position.x as usize) < size);
                assert!(position.y >= 0 && (position.y as usize) < size);
                assert!(!taken.contains(&position));
                taken.push(position);
            }
        }
    }
}

#[test]
fn spawn_capacity_is_capped_by_the_cells() {
    let map = ArenaMap::new(3, 50);
    assert_eq!(map.spawn_capacity(), 9);
    assert_eq!(map.initial_position(8), Vec2 { x: 2, y: 2 });
    let empty = ArenaMap::new(0, 4);
    assert_eq!(empty.spawn_capacity(), 0);
    let nobody = ArenaMap::new(5, 0);
    assert_eq!(nobody.spawn_capacity(), 0);
}

#[test]
fn the_largest_side_is_what_it_says() {
    assert_eq!(MAX_MAP_SIZE, 65_535);
}

#[test]
fn create_entity_numbers_entities_in_order() {
    let mut arena = Arena::new(8, 2);
    let first = arena.create_entity(creature('a'), Vec2::xy(1, 1), 5);
    let second = arena.create_entity(creature('b'), Vec2::xy(2, 2), 6);
    let third = arena.create_entity(creature('c'), Vec2::xy(3, 3), 7);
    assert_eq!((first, second, third), (0, 1, 2));
    assert_eq!(arena.entities().len(), 3);
    let found = arena.entity(1).unwrap();
    assert_eq!(found.id(), 1);
    assert_eq!(found.character().symbol(), 'b');
    assert_eq!(found.position(), Vec2 { x: 2, y: 2 });
    assert_eq!(found.next_walk_time(), 6);
    assert_eq!(found.health(), 10);
    assert!(arena.entity(3).is_none());
}

#[test]
fn entity_mut_changes_one_entity() {
    let mut arena = Arena::new(8, 2);
    arena.create_entity(creature('a'), Vec2::xy(1, 1), 0);
    arena.create_entity(creature('b'), Vec2::xy(2, 2), 0);
    arena.entity_mut(1).unwrap().set_health(3);
    arena.entity_mut(0).unwrap().set_direction(Direction::Left);
    assert!(arena.entity_mut(9).is_none());
    assert_eq!(arena.entity(0).unwrap().health(), 10);
    assert_eq!(arena.entity(0).unwrap().direction(), Direction::Left);
    assert_eq!(arena.entity(1).unwrap().health(), 3);
    assert_eq!(arena.entity(1).unwrap().direction(), Direction::Down);
}

#[test]
fn snapshot_copies_every_state() {
    let mut arena = Arena::new(8, 2);
    arena.create_entity(creature('a'), Vec2::xy(1, 1), 0);
    arena.create_entity(creature('b'), Vec2::xy(2, 2), 0);
    arena.entity_mut(1).unwrap().add_health(-4);
    let all = arena.snapshot();
    assert_eq!(all.len(), 2);
    assert_eq!(all[0].id, 0);
    assert_eq!(all[0].character.symbol(), 'a');
    assert_eq!(all[1].id, 1);
    assert_eq!(all[1].health, 6);
    assert_eq!(all[1].position, Vec2 { x: 2, y: 2 });
}

#[test]
fn idle_entities_stay_where_they_are() {
    let mut arena = Arena::new(8, 2);
    arena.create_entity(creature('a'), Vec2::xy(1, 1), 0);
    arena.create_entity(creature('b'), Vec2::xy(2, 2), 0);
    for tick in 1..50u64 {
        arena.update(tick * 1_000_000_000);
    }
    assert_eq!(arena.entities().len(), 2);
    assert_eq!(arena.entity(0).unwrap().position(), Vec2 { x: 1, y: 1 });
    assert_eq!(arena.entity(1).unwrap().position(), Vec2 { x: 2, y: 2 });
    assert_eq!(arena.entity(1).unwrap().direction(), Direction::Down);
}

#[test]
fn a_walking_behaviour_moves_at_its_speed() {
    let mut arena = Arena::new(8, 1);
    let id = arena.create_entity(creature('w'), Vec2::xy(0, 4), 0);
    arena.entity_mut(id).unwrap().set_behaviour(Box::new(Walker { direction: Direction::Right }));
    arena.update(0);
    assert_eq!(arena.entity(id).unwrap().position(), Vec2 { x: 0, y: 4 });
    assert_eq!(arena.entity(id).unwrap().direction(), Direction::Right);
    arena.update(1);
    assert_eq!(arena.entity(id).unwrap().position(), Vec2 { x: 1, y: 4 });
    arena.update(500_000_000);
    assert_eq!(arena.entity(id).unwrap().position(), Vec2 { x: 1, y: 4 });
    arena.update(1_000_000_001);
    assert_eq!(arena.entity(id).unwrap().position(), Vec2 { x: 1, y: 4 });
    arena.update(1_000_000_002);
    assert_eq!(arena.entity(id).unwrap().position(), Vec2 { x: 2, y: 4 });
}

#[test]
fn decisions_see_the_arena_as_it_was_when_the_tick_began() {
    let mut arena = Arena::new(8, 2);
    let walker = arena.create_entity(creature('b'), Vec2::xy(3, 3), 0);
    let watcher = arena.create_entity(creature('a'), Vec2::xy(5, 5), 0);
    arena.entity_mut(walker).unwrap().set_behaviour(Box::new(Walker { direction: Direction::Right }));
    arena.entity_mut(watcher).unwrap().set_behaviour(
        Box::new(Watcher { watched: walker, home: Vec2::xy(3, 3) }),
    );
    arena.update(1);
    assert_eq!(arena.entity(walker).unwrap().position(), Vec2 { x: 4, y: 3 });
    assert_eq!(arena.entity(watcher).unwrap().direction(), Direction::Up);
    assert_eq!(arena.entity(watcher).unwrap().position(), Vec2 { x: 5, y: 4 });
    arena.update(2);
    assert_eq!(arena.entity(watcher).unwrap().direction(), Direction::Left);
}

#[test]
fn decisions_do_not_depend_on_the_order_of_the_entities() {
    let mut arena = Arena::new(8, 2);
    let watcher = arena.create_entity(creature('a'), Vec2::xy(5, 5), 0);
    let walker = arena.create_entity(creature('b'), Vec2::xy(3, 3), 0);
    arena.entity_mut(walker).unwrap().set_behaviour(Box::new(Walker { direction: Direction::Right }));
    arena.entity_mut(watcher).unwrap().set_behaviour(
        Box::new(Watcher { watched: walker, home: Vec2::xy(3, 3) }),
    );
    arena.update(1);
    assert_eq!(arena.entity(walker).unwrap().position(), Vec2 { x: 4, y: 3 });
    assert_eq!(arena.entity(watcher).unwrap().direction(), Direction::Up);
}

#[test]
fn decide_shows_every_behaviour_the_whole_arena() {
    let mut arena = Arena::new(8, 3);
    arena.create_entity(creature('a'), Vec2::xy(1, 1), 0);
    let id = arena.create_entity(creature('b'), Vec2::xy(2, 2), 0);
    arena.create_entity(creature('c'), Vec2::xy(3, 3), 0);
    let seen = Rc::new(Cell::new(0));
    let own_id = Rc::new(Cell::new(99));
    let side = Rc::new(Cell::new(0));
    let time = Rc::new(Cell::new(0));
    arena.entity_mut(id).unwrap().set_behaviour(Box::new(Census {
        seen: seen.clone(),
        own_id: own_id.clone(),
        side: side.clone(),
        time: time.clone(),
    }));
    let decisions = arena.decide(42);
    assert_eq!(decisions.len(), 3);
    assert!(decisions.iter().all(|actions| actions.is_empty()));
    assert_eq!(seen.get(), 3);
    assert_eq!(own_id.get(), 1);
    assert_eq!(side.get(), 8);
    assert_eq!(time.get(), 42);
}

#[test]
fn destroy_removes_the_entity_and_tells_its_behaviour_once() {
    let mut arena = Arena::new(8, 3);
    arena.create_entity(creature('a'), Vec2::xy(1, 1), 0);
    let doomed = arena.create_entity(creature('b'), Vec2::xy(2, 2), 0);
    arena.create_entity(creature('c'), Vec2::xy(3, 3), 0);
    let updates = Rc::new(Cell::new(0));
    let farewells = Rc::new(Cell::new(0));
    arena.entity_mut(doomed).unwrap().set_behaviour(Box::new(Mortal {
        updates: updates.clone(),
        farewells: farewells.clone(),
        script: vec![
            EntityAction::Walk(Direction::Left),
            EntityAction::Destroy,
            EntityAction::Destroy,
            EntityAction::Walk(Direction::Right),
        ],
        last_words: vec![EntityAction::Cast(Direction::Up, 3), EntityAction::Destroy],
    }));
    arena.update(10);
    assert_eq!(updates.get(), 1);
    assert_eq!(farewells.get(), 1);
    assert!(arena.entity(doomed).is_none());
    let left: Vec<usize> = arena.entities().iter().map(|entity| entity.id()).collect();
    assert_eq!(left, vec![0, 2]);
    arena.update(20);
    assert_eq!(updates.get(), 1);
    assert_eq!(farewells.get(), 1);
    let fresh = arena.create_entity(creature('d'), Vec2::xy(4, 4), 30);
    assert_eq!(fresh, 3);
}

#[test]
fn a_dead_entity_stays_until_it_is_destroyed() {
    let mut arena = Arena::new(8, 1);
    let id = arena.create_entity(creature('a'), Vec2::xy(1, 1), 0);
    arena.entity_mut(id).unwrap().set_health(0);
    arena.update(10);
    assert!(arena.entity(id).is_some());
    assert!(!arena.entity(id).unwrap().is_alive());
}

#[test]
fn apply_carries_out_what_it_is_given() {
    let mut arena = Arena::new(8, 3);
    arena.create_entity(creature('a'), Vec2::xy(1, 1), 0);
    arena.create_entity(creature('b'), Vec2::xy(2, 2), 0);
    arena.create_entity(creature('c'), Vec2::xy(3, 3), 0);
    let decisions = vec![
        vec![EntityAction::Walk(Direction::Up), EntityAction::Walk(Direction::Left)],
        vec![EntityAction::Destroy],
        vec![EntityAction::Cast(Direction::Down, 1)],
    ];
    arena.apply(&decisions, 5);
    assert_eq!(arena.entities().len(), 2);
    let first = arena.entity(0).unwrap();
    assert_eq!(first.position(), Vec2 { x: 1, y: 0 });
    assert_eq!(first.direction(), Direction::Left);
    assert_eq!(first.next_walk_time(), 5 + 1_000_000_000);
    assert!(arena.entity(1).is_none());
    let third = arena.entity(2).unwrap();
    assert_eq!(third.position(), Vec2 { x: 3, y: 3 });
    assert_eq!(third.direction(), Direction::Down);
    assert_eq!(third.energy(), 10);
}

#[test]
fn perform_says_whether_the_entity_stays() {
    let mut entity = Entity::new(0, creature('a'), Vec2::xy(1, 1), 0);
    assert!(perform(&mut entity, &vec![], 1));
    assert!(perform(&mut entity, &vec![EntityAction::Walk(Direction::Right)], 1));
    assert_eq!(entity.position(), Vec2 { x: 2, y: 1 });
    assert!(perform(&mut entity, &vec![EntityAction::Cast(Direction::Right, 0)], 2));
    assert_eq!(entity.position(), Vec2 { x: 2, y: 1 });
    assert!(!perform(&mut entity, &vec![EntityAction::Destroy], 3));
    assert!(matches!(entity.behaviour(), Behaviour::Idle));
}

#[test]
fn an_arena_knows_whether_it_is_sound() {
    let mut arena = Arena::new(8, 3);
    assert!(arena.is_sound());
    assert_eq!(arena.next_entity_id(), 0);
    arena.create_entity(creature('a'), Vec2::xy(1, 1), 0);
    arena.create_entity(creature('b'), Vec2::xy(2, 2), 0);
    arena.create_entity(creature('c'), Vec2::xy(3, 3), 0);
    assert_eq!(arena.next_entity_id(), 3);
    assert!(arena.is_sound());
    arena.apply(&vec![vec![], vec![EntityAction::Destroy], vec![]], 1);
    assert!(arena.is_sound());
    *arena.entity_mut(2).unwrap() = Entity::new(0, creature('x'), Vec2::xy(0, 0), 0);
    assert!(!arena.is_sound());
    *arena.entity_mut(0).unwrap() = Entity::new(7, creature('y'), Vec2::xy(0, 0), 0);
    assert!(!arena.is_sound());
    let mut other = Arena::new(8, 3);
    other.create_entity(creature('a'), Vec2::xy(1, 1), 0);
    *other.entity_mut(0).unwrap() = Entity::new(1, creature('z'), Vec2::xy(0, 0), 0);
    assert!(!other.is_sound());
}

#[test]
fn an_entity_carries_out_its_last_actions_before_it_goes() {
    let mut entity = Entity::new(0, creature('a'), Vec2::xy(1, 1), 0);
    let updates = Rc::new(Cell::new(0));
    let farewells = Rc::new(Cell::new(0));
    entity.set_behaviour(Box::new(Mortal {
        updates: updates.clone(),
        farewells: farewells.clone(),
        script: Vec::new(),
        last_words: vec![
            EntityAction::Walk(Direction::Left),
            EntityAction::Destroy,
            EntityAction::Cast(Direction::Up, 1),
        ],
    }));
    let actions = vec![
        EntityAction::Walk(Direction::Right),
        EntityAction::Destroy,
        EntityAction::Walk(Direction::Down),
    ];
    assert!(!perform(&mut entity, &actions, 1));
    assert_eq!(farewells.get(), 1);
    assert_eq!(updates.get(), 0);
    assert_eq!(entity.position(), Vec2 { x: 2, y: 1 });
    assert_eq!(entity.direction(), Direction::Left);
    assert_eq!(entity.next_walk_time(), 1 + 1_000_000_000);
}
