use std::rc::Rc;

use asciiarena::character::{Character, CharacterBuilder, CharacterError};
use asciiarena::direction::Direction;
use asciiarena::server::game::arena::entity::{get_behaviour, Behaviour, Entity};
use asciiarena::time::{step_allowed_after, STEP_PER_SECOND};
use asciiarena::vec2::{clamped_sum, Vec2};

fn fighter(max_health: usize, max_energy: usize, speed: u32) -> Rc<Character> {
    Rc::new(
        CharacterBuilder::default()
            .id(7)
            .symbol('F')
            .max_live(max_health)
            .max_energy(max_energy)
            .speed_base(speed)
            .build()
            .unwrap(),
    )
}

#[test]
fn builder_makes_the_character_it_was_given() {
    let character = fighter(50, 30, 2_000);
    assert_eq!(character.id(), 7);
    assert_eq!(character.symbol(), 'F');
    assert_eq!(character.max_health(), 50);
    assert_eq!(character.max_energy(), 30);
    assert_eq!(character.speed_base(), 2_000);
    assert_eq!(character.behaviour_name(), "");
}

#[test]
fn builder_keeps_a_behaviour_name() {
    let character = CharacterBuilder::default()
        .id(1)
        .symbol('w')
        .behaviour_name("wander")
        .max_live(1)
        .max_energy(1)
        .speed_base(1)
        .build()
        .unwrap();
    assert_eq!(character.behaviour_name(), "wander");
}

#[test]
fn builder_names_the_first_missing_part() {
    let builder = CharacterBuilder::default();
    assert_eq!(builder.build().unwrap_err(), CharacterError::MissingId);
    let builder = builder.id(0);
    assert_eq!(builder.build().unwrap_err(), CharacterError::MissingSymbol);
    let builder = builder.symbol('a');
    assert_eq!(builder.build().unwrap_err(), CharacterError::MissingMaxLive);
    let builder = builder.max_live(10);
    assert_eq!(builder.build().unwrap_err(), CharacterError::MissingMaxEnergy);
    let builder = builder.max_energy(10);
    assert_eq!(builder.build().unwrap_err(), CharacterError::MissingSpeedBase);
    let builder = builder.speed_base(10);
    assert!(builder.build().is_ok());
}

#[test]
fn builder_reports_the_earliest_gap_whatever_was_set_later() {
    let builder = CharacterBuilder::default().speed_base(3).max_energy(4);
    assert_eq!(builder.build().unwrap_err(), CharacterError::MissingId);
    let builder = builder.id(2).symbol('x');
    assert_eq!(builder.build().unwrap_err(), CharacterError::MissingMaxLive);
}

#[test]
fn only_the_empty_behaviour_name_is_registered() {
    assert!(matches!(get_behaviour(""), Some(Behaviour::Idle)));
    assert!(get_behaviour("wander").is_none());
    assert!(get_behaviour(" ").is_none());
}

#[test]
fn directions_point_along_terminal_axes() {
    assert_eq!(Direction::Up.to_vec2(), Vec2 { x: 0, y: -1 });
    assert_eq!(Direction::Down.to_vec2(), Vec2 { x: 0, y: 1 });
    assert_eq!(Direction::Left.to_vec2(), Vec2 { x: -1, y: 0 });
    assert_eq!(Direction::Right.to_vec2(), Vec2 { x: 1, y: 0 });
}

#[test]
fn vectors_add_and_stop_at_the_ends() {
    assert_eq!(Vec2::xy(3, -4).plus(Vec2::xy(-1, 10)), Vec2 { x: 2, y: 6 });
    assert_eq!(Vec2::zero(), Vec2 { x: 0, y: 0 });
    assert_eq!(Vec2::xy(i32::MAX, i32::MIN).plus(Vec2::xy(1, -1)), Vec2 { x: i32::MAX, y: i32::MIN });
    assert_eq!(clamped_sum(i32::MAX, i32::MAX), i32::MAX);
    assert_eq!(clamped_sum(i32::MIN, i32::MIN), i32::MIN);
    assert_eq!(clamped_sum(i32::MIN, i32::MAX), -1);
}

#[test]
fn step_time_is_the_inverse_of_speed() {
    assert_eq!(step_allowed_after(0, STEP_PER_SECOND), 1_000_000_000);
    assert_eq!(step_allowed_after(500, 8_000), 500 + 125_000_000);
    assert_eq!(step_allowed_after(10, 3_000), 10 + 333_333_333);
    assert_eq!(step_allowed_after(10, 1), 10 + 1_000_000_000_000);
    assert_eq!(step_allowed_after(10, u32::MAX), 10 + 232);
}

#[test]
fn step_time_saturates() {
    assert_eq!(step_allowed_after(77, 0), u64::MAX);
    assert_eq!(step_allowed_after(u64::MAX, 1_000), u64::MAX);
    assert_eq!(step_allowed_after(u64::MAX - 1_000_000_000, 1_000), u64::MAX);
    assert_eq!(step_allowed_after(u64::MAX - 1_000_000_001, 1_000), u64::MAX - 1);
}

#[test]
fn new_entity_starts_full_and_faces_down() {
    let character = fighter(50, 30, 2_000);
    let mut entity = Entity::new(4, character, Vec2::xy(2, 3), 1_000);
    assert_eq!(entity.id(), 4);
    assert_eq!(entity.character().symbol(), 'F');
    assert_eq!(entity.health(), 50);
    assert_eq!(entity.energy(), 30);
    assert_eq!(entity.position(), Vec2 { x: 2, y: 3 });
    assert_eq!(entity.direction(), Direction::Down);
    assert_eq!(entity.next_walk_time(), 1_000);
    assert!(entity.is_alive());
    assert!(matches!(entity.behaviour(), Behaviour::Idle));
    let state = entity.state();
    assert_eq!(state.id, 4);
    assert_eq!(state.health, 50);
    assert_eq!(state.energy, 30);
    assert_eq!(state.speed, 2_000);
    assert_eq!(state.position, Vec2 { x: 2, y: 3 });
    assert_eq!(state.next_walk_time, 1_000);
}

#[test]
fn set_health_clamps_to_the_character() {
    let mut entity = Entity::new(0, fighter(50, 30, 1_000), Vec2::zero(), 0);
    entity.set_health(20);
    assert_eq!(entity.health(), 20);
    entity.set_health(51);
    assert_eq!(entity.health(), 50);
    entity.set_health(usize::MAX);
    assert_eq!(entity.health(), 50);
    entity.set_health(0);
    assert_eq!(entity.health(), 0);
    assert!(!entity.is_alive());
    assert_eq!(entity.energy(), 30);
}

#[test]
fn set_energy_clamps_to_the_character() {
    let mut entity = Entity::new(0, fighter(50, 30, 1_000), Vec2::zero(), 0);
    entity.set_energy(29);
    assert_eq!(entity.energy(), 29);
    entity.set_energy(31);
    assert_eq!(entity.energy(), 30);
    entity.set_energy(0);
    assert_eq!(entity.energy(), 0);
    assert_eq!(entity.health(), 50);
}

#[test]
fn add_health_saturates_at_both_ends() {
    let mut entity = Entity::new(0, fighter(50, 30, 1_000), Vec2::zero(), 0);
    entity.add_health(-20);
    assert_eq!(entity.health(), 30);
    entity.add_health(5);
    assert_eq!(entity.health(), 35);
    entity.add_health(i32::MAX);
    assert_eq!(entity.health(), 50);
    entity.add_health(i32::MIN);
    assert_eq!(entity.health(), 0);
    entity.add_health(-1);
    assert_eq!(entity.health(), 0);
    entity.add_health(50);
    assert_eq!(entity.health(), 50);
    entity.add_health(1);
    assert_eq!(entity.health(), 50);
}

#[test]
fn add_health_never_wraps_with_a_huge_maximum() {
    let mut entity = Entity::new(0, fighter(usize::MAX, 1, 1_000), Vec2::zero(), 0);
    assert_eq!(entity.health(), usize::MAX);
    entity.add_health(i32::MAX);
    assert_eq!(entity.health(), usize::MAX);
    entity.add_health(-1);
    assert_eq!(entity.health(), usize::MAX - 1);
    entity.add_health(i32::MIN);
    assert_eq!(entity.health(), usize::MAX - 1 - (1usize << 31));
}

#[test]
fn add_energy_saturates_at_both_ends() {
    let mut entity = Entity::new(0, fighter(50, 30, 1_000), Vec2::zero(), 0);
    entity.add_energy(-10);
    assert_eq!(entity.energy(), 20);
    entity.add_energy(i32::MAX);
    assert_eq!(entity.energy(), 30);
    entity.add_energy(i32::MIN);
    assert_eq!(entity.energy(), 0);
    entity.add_energy(7);
    assert_eq!(entity.energy(), 7);
}

#[test]
fn health_stays_in_range_over_a_long_sequence() {
    let mut entity = Entity::new(0, fighter(17, 9, 1_000), Vec2::zero(), 0);
    let mut seed: u32 = 12345;
    for round in 0..2_000 {
        seed = seed.wrapping_mul(1_103_515_245).wrapping_add(12_345);
        let delta = (seed >> 8) as i32 % 40 - 20;
        if round % 7 == 0 {
            entity.set_health((seed % 64) as usize);
            entity.set_energy((seed % 32) as usize);
        } else {
            entity.add_health(delta);
            entity.add_energy(-delta);
        }
        assert!(entity.health() <= 17);
        assert!(entity.energy() <= 9);
    }
}

#[test]
fn walk_waits_for_its_time() {
    let mut entity = Entity::new(0, fighter(50, 30, 8_000), Vec2::xy(5, 5), 1_000);
    assert!(!entity.walk(999));
    assert!(!entity.walk(1_000));
    assert_eq!(entity.position(), Vec2 { x: 5, y: 5 });
    assert_eq!(entity.next_walk_time(), 1_000);
    assert!(entity.walk(1_001));
    assert_eq!(entity.position(), Vec2 { x: 5, y: 6 });
    assert_eq!(entity.next_walk_time(), 1_001 + 125_000_000);
}

#[test]
fn walking_twice_at_one_moment_moves_once() {
    let mut entity = Entity::new(0, fighter(50, 30, 8_000), Vec2::xy(5, 5), 0);
    entity.set_direction(Direction::Right);
    assert!(entity.walk(10));
    assert!(!entity.walk(10));
    assert_eq!(entity.position(), Vec2 { x: 6, y: 5 });
    assert!(!entity.walk(10 + 125_000_000));
    assert!(entity.walk(10 + 125_000_001));
    assert_eq!(entity.position(), Vec2 { x: 7, y: 5 });
}

#[test]
fn turning_is_free_and_stepping_is_not() {
    let mut entity = Entity::new(0, fighter(50, 30, 1_000), Vec2::xy(0, 0), 0);
    assert!(entity.walk(1));
    entity.set_direction(Direction::Left);
    entity.set_direction(Direction::Up);
    assert_eq!(entity.direction(), Direction::Up);
    assert!(!entity.walk(2));
    assert_eq!(entity.position(), Vec2 { x: 0, y: 1 });
    assert!(entity.walk(1_000_000_002));
    assert_eq!(entity.position(), Vec2 { x: 0, y: 0 });
}

#[test]
fn an_entity_without_speed_steps_once() {
    let mut entity = Entity::new(0, fighter(50, 30, 0), Vec2::xy(0, 0), 0);
    assert!(entity.walk(1));
    assert_eq!(entity.next_walk_time(), u64::MAX);
    assert!(!entity.walk(u64::MAX));
    assert_eq!(entity.position(), Vec2 { x: 0, y: 1 });
}

#[test]
fn displace_and_set_position_move_the_entity() {
    let mut entity = Entity::new(0, fighter(50, 30, 1_000), Vec2::xy(1, 1), 0);
    entity.displace(Vec2::xy(3, -5));
    assert_eq!(entity.position(), Vec2 { x: 4, y: -4 });
    entity.set_position(Vec2::xy(i32::MAX, 0));
    entity.displace(Vec2::xy(5, 5));
    assert_eq!(entity.position(), Vec2 { x: i32::MAX, y: 5 });
    assert_eq!(entity.health(), 50);
    assert_eq!(entity.direction(), Direction::Down);
}
