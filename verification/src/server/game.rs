//! A game: the players, their characters, and the arena of the round that is
//! being played.
//!
//! The game does not run by itself. Its driver starts a round with
//! [`Game::create_new_arena`], calls [`Game::step`] once per tick, and asks
//! [`Game::has_finished`] whether somebody has won.

pub mod arena;
pub mod player;
pub mod ranking;

use vstd::prelude::*;
use std::rc::Rc;
use crate::character::{share, Character, CharacterBuilder, CharacterId};
use crate::server::game::arena::entity::{behaviour_registered, Behaviour, EntityState};
use crate::server::game::arena::map::{
    lemma_initial_positions_distinct, lemma_spawn_cell_on_map, MapView, MAX_MAP_SIZE,
};
use crate::server::game::arena::{idle_stay_idle, Arena, ArenaView};
use crate::server::game::player::{death_reward, Player, PlayerView, MAX_ENERGY, MAX_LIFE, SPEED_BASE};
use crate::server::game::ranking::{lemma_ranking_sorted, rank, ranking};
use crate::time::Timestamp;

verus! {

/// The symbols of `symbols` without repetitions: each symbol stands where it
/// occurs first.
pub open spec fn roster(symbols: Seq<char>) -> Seq<char>
    decreases symbols.len(),
{
    if symbols.len() == 0 {
        Seq::empty()
    } else {
        let earlier = roster(symbols.drop_last());
        if earlier.contains(symbols.last()) {
            earlier
        } else {
            earlier.push(symbols.last())
        }
    }
}

/// The character that a game makes for the participant with the given
/// symbol: that of a player, driven from outside.
pub open spec fn player_character(id: CharacterId, symbol: char) -> Character {
    Character {
        id,
        symbol,
        behaviour_name: "",
        max_health: MAX_LIFE,
        max_energy: MAX_ENERGY,
        speed_base: SPEED_BASE,
    }
}

/// What a game is.
pub struct GameView {
    /// The length of a side of every arena of the game.
    pub map_size: usize,
    /// The points with which a player wins the game.
    pub winner_points: usize,
    /// The number of rounds that were started.
    pub arena_number: usize,
    /// The arena of the round that is being played, if one is.
    pub arena: Option<ArenaView>,
    /// The characters of the game: each has its place as its number.
    pub characters: Seq<Rc<Character>>,
    /// The number that the next character will get.
    pub next_character_id: nat,
    /// The players, in the order in which they joined.
    pub players: Seq<PlayerView>,
}

impl GameView {
    /// What holds of every game: each player plays the character with the
    /// player's place as its number, no two players share a symbol, every
    /// character has a behaviour that the arena knows, and the arena, if
    /// there is one, is sound.
    pub open spec fn wf(self) -> bool {
        &&& self.characters.len() == self.players.len()
        &&& self.next_character_id == self.characters.len()
        &&& forall|i: int|
            0 <= i < self.players.len() ==> {
                &&& (#[trigger] self.players[i]).character == self.characters[i]
                &&& self.characters[i].id == i
                &&& behaviour_registered(self.characters[i].behaviour_name@)
            }
        &&& forall|i: int, j: int|
            0 <= i < j < self.players.len() ==> (#[trigger] self.players[i]).character.symbol != (
            #[trigger] self.players[j]).character.symbol
        &&& self.arena matches Some(arena) ==> arena.wf()
    }

    /// The symbols of the players, in their order.
    pub open spec fn symbols(self) -> Seq<char> {
        Seq::new(self.players.len(), |i: int| self.players[i].character.symbol)
    }

    /// Whether the player at `index` is out of the current round. Between
    /// rounds everybody is.
    pub open spec fn is_dead(self, index: int) -> bool {
        match self.arena {
            Some(arena) => self.players[index].is_dead(arena),
            None => true,
        }
    }

    /// The symbols of those among the first `count` players that are still in
    /// the round, in the order of the players.
    pub open spec fn living_among(self, count: nat) -> Seq<char>
        decreases count,
    {
        if count == 0 {
            Seq::empty()
        } else {
            let earlier = self.living_among((count - 1) as nat);
            if self.is_dead(count - 1) {
                earlier
            } else {
                earlier.push(self.players[count - 1].character.symbol)
            }
        }
    }

    /// The symbols of the players that are still in the round, in the order
    /// of the players.
    pub open spec fn living(self) -> Seq<char> {
        self.living_among(self.players.len())
    }

    /// The players after the deaths of a tick have been paid. A player whose
    /// symbol is in `living_before` and who is out of the round now died in
    /// this tick, and wins one point for each player that was no longer alive
    /// before it. Players that die in the same tick win the same. Everybody
    /// else keeps what they had.
    pub open spec fn scored(self, living_before: Seq<char>) -> Seq<PlayerView> {
        Seq::new(
            self.players.len(),
            |i: int|
                if living_before.contains(self.players[i].character.symbol) && self.is_dead(i) {
                    self.players[i].rewarded(
                        death_reward(self.players.len(), living_before.len()) as usize,
                    )
                } else {
                    self.players[i]
                },
        )
    }

    /// The points of the players in the game, in the order of the players.
    pub open spec fn points(self) -> Seq<usize> {
        Seq::new(self.players.len(), |i: int| self.players[i].total_points)
    }

    /// Whether some player has the points that win the game.
    pub open spec fn has_winner(self) -> bool {
        exists|i: int|
            0 <= i < self.players.len() && (#[trigger] self.players[i]).total_points
                >= self.winner_points
    }

    /// The players at the start of a round in which the entity with
    /// identifier `i` stands for the player at `i`: the points of the last
    /// round are forgotten, the points of the game are kept.
    pub open spec fn lined_up(self) -> Seq<PlayerView> {
        Seq::new(
            self.players.len(),
            |i: int|
                PlayerView { entity_id: Some(i as usize), partial_points: 0, ..self.players[i] },
        )
    }

    /// The state in which the entity of the player at `index` starts a round
    /// at the moment `now`, on the spawn slot with the player's place as its
    /// number.
    pub open spec fn starting_state(self, index: int, now: Timestamp) -> EntityState {
        EntityState::fresh(
            index as usize,
            self.players[index].character,
            MapView::fresh(self.map_size as nat, self.players.len()).initial_position(index as nat),
            now,
        )
    }
}

/// No more players are alive than there are players.
pub proof fn lemma_living_bounded(game: GameView, count: nat)
    ensures
        game.living_among(count).len() <= count,
    decreases count,
{
    if count > 0 {
        lemma_living_bounded(game, (count - 1) as nat);
    }
}

/// Among players with different symbols, the symbol of a player is among the
/// living exactly when the player is still in the round.
pub proof fn lemma_living_are_not_dead(game: GameView, count: nat, index: int)
    requires
        game.wf(),
        count <= game.players.len(),
        0 <= index < game.players.len(),
    ensures
        game.living_among(count).contains(game.players[index].character.symbol) <==> (index < count
            && !game.is_dead(index)),
    decreases count,
{
    let symbol = game.players[index].character.symbol;
    if count > 0 {
        let earlier = game.living_among((count - 1) as nat);
        let last = game.players[count - 1].character.symbol;
        lemma_living_are_not_dead(game, (count - 1) as nat, index);
        if !game.is_dead(count - 1) {
            let all = earlier.push(last);
            assert(all.last() == last);
            if index == count - 1 {
                assert(all[all.len() - 1] == symbol);
            } else {
                assert(last != symbol);
                if all.contains(symbol) {
                    let at = choose|k: int| 0 <= k < all.len() && all[k] == symbol;
                    assert(earlier[at] == symbol);
                }
                if earlier.contains(symbol) {
                    let at = choose|k: int| 0 <= k < earlier.len() && earlier[k] == symbol;
                    assert(all[at] == symbol);
                }
            }
        }
    }
}

/// A new round pays nobody: when the players line up for it, everybody has
/// the points of the game that they had, and no points of the round.
pub proof fn lemma_new_round_keeps_points(game: GameView, index: int)
    requires
        0 <= index < game.players.len(),
    ensures
        game.lined_up()[index].total_points == game.players[index].total_points,
        game.lined_up()[index].partial_points == 0,
        game.lined_up()[index].character == game.players[index].character,
{
}

/// A death is paid in the tick in which it happens, and never again. Whoever
/// was out of the round before a tick, or is still in it afterwards, has
/// after the tick what they had before. So a player that was paid for dying
/// in one round is not paid for it a second time, in that round or in the
/// next.
pub proof fn lemma_only_deaths_are_paid(before: GameView, after: GameView, index: int)
    requires
        before.wf(),
        0 <= index < before.players.len(),
        after.players == before.players,
        before.is_dead(index) || !after.is_dead(index),
    ensures
        after.scored(before.living())[index] == before.players[index],
{
    lemma_living_are_not_dead(before, before.players.len(), index);
}

/// A session of the game: several rounds, played by the same players.
pub struct Game {
    map_size: usize,
    winner_points: usize,
    arena_number: usize,
    arena: Option<Arena>,
    characters: Vec<Rc<Character>>,
    next_character_id: usize,
    players: Vec<Player>,
}

/// The views of `players`, in their order.
pub open spec fn player_views(players: Seq<Player>) -> Seq<PlayerView> {
    Seq::new(players.len(), |i: int| players[i]@)
}

impl View for Game {
    type V = GameView;

    closed spec fn view(&self) -> GameView {
        GameView {
            map_size: self.map_size,
            winner_points: self.winner_points,
            arena_number: self.arena_number,
            arena: match self.arena {
                Some(arena) => Some(arena@),
                None => None,
            },
            characters: self.characters@,
            next_character_id: self.next_character_id as nat,
            players: player_views(self.players@),
        }
    }
}

impl Game {
    /// What holds of every game: see [`GameView::wf`].
    pub open spec fn wf(&self) -> bool {
        self@.wf()
    }

    /// The place among the players of the one with `symbol`, or the number
    /// of players if there is none.
    fn find(&self, symbol: char) -> (index: usize)
        ensures
            index <= self.players@.len(),
            index < self.players@.len() ==> self.players@[index as int]@.character.symbol == symbol,
            forall|i: int| 0 <= i < index ==> (#[trigger] self.players@[i])@.character.symbol != symbol,
    {
        let mut index: usize = 0;
        while index < self.players.len() && self.players[index].character().symbol() != symbol
            invariant
                index <= self.players@.len(),
                forall|i: int|
                    0 <= i < index ==> (#[trigger] self.players@[i])@.character.symbol != symbol,
            decreases self.players@.len() - index,
        {
            index += 1;
        }
        index
    }

    /// A game on arenas with a side of `map_size` cells, which is won with
    /// `winner_points` points, for the participants with the given symbols.
    /// Each symbol gets a character, numbered in the order of the symbols,
    /// and a player of that character. A symbol that occurs again is passed
    /// over. No round is being played yet.
    pub fn new(map_size: usize, winner_points: usize, player_characters: Vec<char>) -> (game: Game)
        ensures
            game@.map_size == map_size,
            game@.winner_points == winner_points,
            game@.arena_number == 0,
            game@.arena.is_none(),
            game@.symbols() == roster(player_characters@),
            forall|i: int|
                0 <= i < game@.players.len() ==> {
                    &&& *(#[trigger] game@.players[i]).character == player_character(
                        i as usize,
                        roster(player_characters@)[i],
                    )
                    &&& game@.players[i].entity_id.is_none()
                    &&& game@.players[i].partial_points == 0
                    &&& game@.players[i].total_points == 0
                },
            game.wf(),
    {
        let mut game = Game {
            map_size,
            winner_points,
            arena_number: 0,
            arena: None,
            characters: Vec::new(),
            next_character_id: 0,
            players: Vec::new(),
        };
        let mut read: usize = 0;
        assert(player_characters@.subrange(0, 0) =~= Seq::<char>::empty());
        assert(game@.symbols() =~= Seq::<char>::empty());
        while read < player_characters.len()
            invariant
                read <= player_characters@.len(),
                game@.map_size == map_size,
                game@.winner_points == winner_points,
                game@.arena_number == 0,
                game@.arena.is_none(),
                game@.symbols() == roster(player_characters@.subrange(0, read as int)),
                forall|i: int|
                    0 <= i < game@.players.len() ==> {
                        &&& *(#[trigger] game@.players[i]).character == player_character(
                            i as usize,
                            game@.symbols()[i],
                        )
                        &&& game@.players[i].entity_id.is_none()
                        &&& game@.players[i].partial_points == 0
                        &&& game@.players[i].total_points == 0
                    },
                game.wf(),
                game@.players.len() <= read,
            decreases player_characters@.len() - read,
        {
            let symbol = player_characters[read];
            let ghost before = game@;
            let ghost seen = player_characters@.subrange(0, read as int);
            proof {
                let next = player_characters@.subrange(0, read + 1);
                assert(next.drop_last() =~= seen);
                assert(next.last() == symbol);
            }
            let found = game.find(symbol);
            if found == game.players.len() {
                assert(!before.symbols().contains(symbol)) by {
                    if before.symbols().contains(symbol) {
                        let at = choose|i: int|
                            0 <= i < before.symbols().len() && before.symbols()[i] == symbol;
                        assert(game.players@[at]@.character.symbol == symbol);
                    }
                }
                let id = game.next_character_id;
                let built = CharacterBuilder::default().id(id).symbol(symbol).max_live(
                    MAX_LIFE,
                ).max_energy(MAX_ENERGY).speed_base(SPEED_BASE).build();
                let character = Rc::new(built.unwrap());
                proof {
                    reveal_strlit("");
                }
                game.characters.push(share(&character));
                game.players.push(Player::new(character));
                game.next_character_id = id + 1;
                proof {
                    assert(game@.symbols() =~= before.symbols().push(symbol));
                    assert forall|i: int| 0 <= i < game@.players.len() implies {
                        &&& (#[trigger] game@.players[i]).character == game@.characters[i]
                        &&& game@.characters[i].id == i
                        &&& behaviour_registered(game@.characters[i].behaviour_name@)
                        &&& *game@.players[i].character == player_character(
                            i as usize,
                            game@.symbols()[i],
                        )
                        &&& game@.players[i].entity_id.is_none()
                        &&& game@.players[i].partial_points == 0
                        &&& game@.players[i].total_points == 0
                    } by {
                        if i < before.players.len() {
                            assert(game@.players[i] == before.players[i]);
                            assert(game@.characters[i] == before.characters[i]);
                            assert(game@.symbols()[i] == before.symbols()[i]);
                        }
                    }
                    assert forall|i: int, j: int| 0 <= i < j < game@.players.len() implies (
                    #[trigger] game@.players[i]).character.symbol != (
                    #[trigger] game@.players[j]).character.symbol by {
                        assert(game@.players[i] == before.players[i]);
                        if j < before.players.len() {
                            assert(game@.players[j] == before.players[j]);
                        } else {
                            assert(before.symbols()[i] == before.players[i].character.symbol);
                        }
                    }
                }
            } else {
                assert(before.symbols().contains(symbol)) by {
                    assert(before.symbols()[found as int] == symbol);
                }
            }
            read += 1;
        }
        assert(player_characters@.subrange(0, read as int) =~= player_characters@);
        game
    }

    /// The arena of the round that is being played, if one is.
    pub fn arena(&self) -> (arena: Option<&Arena>)
        ensures
            match arena {
                Some(arena) => self@.arena == Some(arena@),
                None => self@.arena.is_none(),
            },
    {
        match &self.arena {
            Some(arena) => Some(arena),
            None => None,
        }
    }

    /// The number of rounds that were started so far.
    pub fn arena_number(&self) -> (number: usize)
        ensures
            number == self@.arena_number,
    {
        self.arena_number
    }

    /// The player with `character_symbol`, if there is one.
    pub fn player(&self, character_symbol: char) -> (found: Option<&Player>)
        ensures
            match found {
                Some(player) => exists|i: int|
                    0 <= i < self@.players.len() && #[trigger] self@.players[i] == player@
                        && player@.character.symbol == character_symbol,
                None => forall|i: int|
                    0 <= i < self@.players.len() ==> (#[trigger] self@.players[i]).character.symbol
                        != character_symbol,
            },
    {
        let index = self.find(character_symbol);
        if index < self.players.len() {
            assert(self@.players[index as int] == self.players@[index as int]@);
            Some(&self.players[index])
        } else {
            assert forall|i: int| 0 <= i < self@.players.len() implies (
            #[trigger] self@.players[i]).character.symbol != character_symbol by {
                assert(self@.players[i] == self.players@[i]@);
            }
            None
        }
    }

    /// The arena of the round that is being played, if one is, to be changed
    /// between ticks.
    pub fn arena_mut(&mut self) -> (arena: Option<&mut Arena>)
        ensures
            match arena {
                Some(arena) => old(self)@.arena == Some(arena@) && final(self)@ == (GameView {
                    arena: Some(final(arena)@),
                    ..old(self)@
                }),
                None => old(self)@.arena.is_none() && final(self)@ == old(self)@,
            },
    {
        match &mut self.arena {
            Some(arena) => Some(arena),
            None => None,
        }
    }

    /// The player with `character_symbol`, if there is one, to be changed.
    pub fn player_mut(&mut self, character_symbol: char) -> (found: Option<&mut Player>)
        ensures
            match found {
                Some(player) => exists|i: int|
                    0 <= i < old(self)@.players.len() && #[trigger] old(self)@.players[i] == player@
                        && player@.character.symbol == character_symbol && final(self)@ == (
                    GameView { players: old(self)@.players.update(i, final(player)@), ..old(self)@ }),
                None => final(self)@ == old(self)@ && forall|i: int|
                    0 <= i < old(self)@.players.len() ==> (
                    #[trigger] old(self)@.players[i]).character.symbol != character_symbol,
            },
    {
        let index = self.find(character_symbol);
        if index < self.players.len() {
            let ghost before = self.players@;
            assert(self@.players[index as int] == self.players@[index as int]@);
            let player = &mut self.players[index];
            proof {
                let after = before.update(index as int, *final(player));
                assert(player_views(after) =~= player_views(before).update(
                    index as int,
                    final(player)@,
                ));
            }
            Some(player)
        } else {
            assert forall|i: int| 0 <= i < self@.players.len() implies (
            #[trigger] self@.players[i]).character.symbol != character_symbol by {
                assert(self@.players[i] == self.players@[i]@);
            }
            None
        }
    }

    /// Starts a round at the moment `now`: a new arena takes the place of the
    /// old one, the player at place `i` gets an entity on spawn slot `i`, and
    /// everybody's points of the last round are forgotten. The points of the
    /// game are what they were.
    ///
    /// There have to be players, and the arena has to have a cell for each
    /// of them to start on.
    pub fn create_new_arena(&mut self, now: Timestamp)
        requires
            old(self).wf(),
            old(self)@.players.len() > 0,
            old(self)@.map_size <= MAX_MAP_SIZE,
            old(self)@.players.len() <= old(self)@.map_size * old(self)@.map_size,
            old(self)@.arena_number < usize::MAX,
        ensures
            final(self)@.map_size == old(self)@.map_size,
            final(self)@.winner_points == old(self)@.winner_points,
            final(self)@.characters == old(self)@.characters,
            final(self)@.next_character_id == old(self)@.next_character_id,
            final(self)@.arena_number == old(self)@.arena_number + 1,
            final(self)@.players == old(self)@.lined_up(),
            forall|i: int|
                0 <= i < old(self)@.players.len() ==> (#[trigger] final(self)@.players[i]).total_points
                    == old(self)@.players[i].total_points,
            final(self)@.arena matches Some(arena) && {
                &&& arena.map == MapView::fresh(
                    old(self)@.map_size as nat,
                    old(self)@.players.len(),
                )
                &&& arena.next_entity_id == old(self)@.players.len()
                &&& arena.entities.len() == old(self)@.players.len()
                &&& forall|i: int|
                    0 <= i < arena.entities.len() ==> {
                        &&& (#[trigger] arena.entities[i])@ == old(self)@.starting_state(i, now)
                        &&& arena.entities[i].driver() == Behaviour::Idle
                    }
                &&& forall|i: int, j: int|
                    0 <= i < j < arena.entities.len() ==> (#[trigger] arena.entities[i])@.position
                        != (#[trigger] arena.entities[j])@.position
                &&& forall|i: int|
                    0 <= i < arena.entities.len() ==> arena.map.contains(
                        (#[trigger] arena.entities[i])@.position,
                    )
            },
            final(self).wf(),
    {
        let count = self.players.len();
        let mut arena = Arena::new(self.map_size, count);
        let ghost map = arena@.map;
        let mut index: usize = 0;
        while index < count
            invariant
                index <= count,
                count == old(self).players@.len(),
                self.players@.len() == count,
                self.map_size == old(self).map_size,
                self.winner_points == old(self).winner_points,
                self.arena_number == old(self).arena_number,
                self.characters == old(self).characters,
                self.next_character_id == old(self).next_character_id,
                self.arena == old(self).arena,
                old(self).wf(),
                map == MapView::fresh(self.map_size as nat, count as nat),
                map.spawn_slots == count,
                arena.wf(),
                arena@.map == map,
                arena@.next_entity_id == index,
                arena@.entities.len() == index,
                forall|i: int|
                    0 <= i < index ==> {
                        &&& (#[trigger] arena@.entities[i])@ == old(self)@.starting_state(i, now)
                        &&& arena@.entities[i].driver() == Behaviour::Idle
                    },
                forall|i: int|
                    0 <= i < index ==> (#[trigger] self.players@[i])@ == old(self)@.lined_up()[i],
                forall|i: int|
                    index <= i < count ==> (#[trigger] self.players@[i]) == old(self).players@[i],
            decreases count - index,
        {
            let ghost entities_before = arena@.entities;
            assert(old(self)@.players[index as int] == old(self).players@[index as int]@);
            let position = arena.map().initial_position(index);
            let character = share(self.players[index].character());
            let id = arena.create_entity(character, position, now);
            self.players[index].attach_entity(id);
            self.players[index].reset_partial_points();
            proof {
                assert forall|i: int| 0 <= i < index + 1 implies {
                    &&& (#[trigger] arena@.entities[i])@ == old(self)@.starting_state(i, now)
                    &&& arena@.entities[i].driver() == Behaviour::Idle
                } by {
                    if i < index {
                        assert(arena@.entities[i] == arena@.entities.drop_last()[i]);
                    }
                }
            }
            index += 1;
        }
        self.arena = Some(arena);
        self.arena_number += 1;
        proof {
            let started = self@.arena.unwrap();
            assert(self@.players =~= old(self)@.lined_up());
            assert forall|i: int, j: int| 0 <= i < j < started.entities.len() implies (
            #[trigger] started.entities[i])@.position != (
            #[trigger] started.entities[j])@.position by {
                lemma_initial_positions_distinct(map, i as nat, j as nat);
            }
            assert forall|i: int| 0 <= i < started.entities.len() implies map.contains(
                (#[trigger] started.entities[i])@.position,
            ) by {
                lemma_spawn_cell_on_map(map, i as nat);
            }
            assert forall|i: int| 0 <= i < self@.players.len() implies {
                &&& (#[trigger] self@.players[i]).character == self@.characters[i]
                &&& self@.characters[i].id == i
                &&& behaviour_registered(self@.characters[i].behaviour_name@)
            } by {
                assert(old(self)@.players[i].character == old(self)@.characters[i]);
            }
            assert forall|i: int, j: int| 0 <= i < j < self@.players.len() implies (
            #[trigger] self@.players[i]).character.symbol != (
            #[trigger] self@.players[j]).character.symbol by {
                assert(old(self)@.players[i].character.symbol != old(
                    self,
                )@.players[j].character.symbol);
            }
        }
    }

    /// The symbols of the players that are still in the round, in the order
    /// of the players. Between rounds nobody is.
    pub fn living_players(&self) -> (living: Vec<char>)
        requires
            self.wf(),
        ensures
            living@ == self@.living(),
            living@.len() <= self@.players.len(),
            forall|i: int|
                0 <= i < self@.players.len() ==> (living@.contains(
                    (#[trigger] self@.players[i]).character.symbol,
                ) <==> !self@.is_dead(i)),
    {
        let mut living: Vec<char> = Vec::new();
        let mut index: usize = 0;
        while index < self.players.len()
            invariant
                index <= self.players@.len(),
                self.wf(),
                living@ == self@.living_among(index as nat),
            decreases self.players@.len() - index,
        {
            assert(self@.players[index as int] == self.players@[index as int]@);
            let dead = match &self.arena {
                Some(arena) => self.players[index].is_dead(arena),
                None => true,
            };
            if !dead {
                living.push(self.players[index].character().symbol());
            }
            index += 1;
        }
        proof {
            lemma_living_bounded(self@, self@.players.len());
            assert forall|i: int| 0 <= i < self@.players.len() implies (living@.contains(
                (#[trigger] self@.players[i]).character.symbol,
            ) <==> !self@.is_dead(i)) by {
                lemma_living_are_not_dead(self@, self@.players.len(), i);
            }
        }
        living
    }

    /// Whether `symbol` is among `symbols`.
    fn listed(symbols: &Vec<char>, symbol: char) -> (found: bool)
        ensures
            found == symbols@.contains(symbol),
    {
        let mut index: usize = 0;
        while index < symbols.len()
            invariant
                index <= symbols@.len(),
                forall|i: int| 0 <= i < index ==> symbols@[i] != symbol,
            decreases symbols@.len() - index,
        {
            if symbols[index] == symbol {
                return true;
            }
            index += 1;
        }
        false
    }

    /// Pays the deaths of a tick: `living_before` holds the symbols of the
    /// players that were in the round before it. Each of them that is out of
    /// the round now wins one point for every player that was no longer alive
    /// before the tick, so that the later a player dies, the more it wins.
    /// Players that die in the same tick win the same.
    pub fn settle(&mut self, living_before: &Vec<char>)
        requires
            old(self).wf(),
            living_before@.len() <= old(self)@.players.len(),
        ensures
            final(self)@ == (GameView {
                players: old(self)@.scored(living_before@),
                ..old(self)@
            }),
            forall|i: int|
                0 <= i < old(self)@.players.len() ==> (#[trigger] final(self)@.players[i]).total_points
                    >= old(self)@.players[i].total_points,
            final(self).wf(),
    {
        let reward: usize = self.players.len() - living_before.len();
        let mut index: usize = 0;
        while index < self.players.len()
            invariant
                index <= self.players@.len(),
                self.players@.len() == old(self).players@.len(),
                self.map_size == old(self).map_size,
                self.winner_points == old(self).winner_points,
                self.arena_number == old(self).arena_number,
                self.characters == old(self).characters,
                self.next_character_id == old(self).next_character_id,
                self.arena == old(self).arena,
                old(self).wf(),
                reward == death_reward(old(self)@.players.len(), living_before@.len()),
                forall|i: int|
                    0 <= i < index ==> (#[trigger] self.players@[i])@ == old(self)@.scored(
                        living_before@,
                    )[i],
                forall|i: int|
                    index <= i < self.players@.len() ==> (#[trigger] self.players@[i]) == old(
                        self,
                    ).players@[i],
            decreases self.players@.len() - index,
        {
            assert(old(self)@.players[index as int] == old(self).players@[index as int]@);
            let symbol = self.players[index].character().symbol();
            if Self::listed(living_before, symbol) {
                let dead = match &self.arena {
                    Some(arena) => self.players[index].is_dead(arena),
                    None => true,
                };
                if dead {
                    self.players[index].update_points(reward);
                }
            }
            index += 1;
        }
        proof {
            assert(self@.players =~= old(self)@.scored(living_before@));
            assert forall|i: int| 0 <= i < self@.players.len() implies {
                &&& (#[trigger] self@.players[i]).character == self@.characters[i]
                &&& self@.characters[i].id == i
                &&& behaviour_registered(self@.characters[i].behaviour_name@)
            } by {
                assert(old(self)@.players[i].character == old(self)@.characters[i]);
            }
            assert forall|i: int, j: int| 0 <= i < j < self@.players.len() implies (
            #[trigger] self@.players[i]).character.symbol != (
            #[trigger] self@.players[j]).character.symbol by {
                assert(old(self)@.players[i].character.symbol != old(
                    self,
                )@.players[j].character.symbol);
            }
        }
    }

    /// Advances the round by one tick, at the moment `now`: the arena is
    /// updated, and every player that was in the round before the tick and is
    /// out of it after is paid for its death.
    ///
    /// A round has to be in play.
    pub fn step(&mut self, now: Timestamp)
        requires
            old(self).wf(),
            old(self)@.arena.is_some(),
        ensures
            final(self)@.map_size == old(self)@.map_size,
            final(self)@.winner_points == old(self)@.winner_points,
            final(self)@.arena_number == old(self)@.arena_number,
            final(self)@.characters == old(self)@.characters,
            final(self)@.next_character_id == old(self)@.next_character_id,
            final(self)@.arena matches Some(arena) && {
                &&& arena.states() == old(self)@.arena.unwrap().after_tick(now)
                &&& arena.map == old(self)@.arena.unwrap().map
                &&& arena.next_entity_id == old(self)@.arena.unwrap().next_entity_id
                &&& idle_stay_idle(old(self)@.arena.unwrap().entities, arena.entities)
            },
            final(self)@.players == (GameView { arena: final(self)@.arena, ..old(self)@ }).scored(
                old(self)@.living(),
            ),
            forall|i: int|
                0 <= i < old(self)@.players.len() ==> (#[trigger] final(self)@.players[i]).total_points
                    >= old(self)@.players[i].total_points,
            final(self).wf(),
    {
        let living_players_before = self.living_players();
        match &mut self.arena {
            Some(arena) => {
                arena.update(now);
            },
            None => {},
        }
        self.settle(&living_players_before);
    }

    /// The players by their points in the game, most points first. Players
    /// with the same points stand in the order in which they joined.
    pub fn pole(&self) -> (order: Vec<&Player>)
        ensures
            order@.len() == self@.players.len(),
            forall|k: int|
                0 <= k < order@.len() ==> (#[trigger] order@[k])@ == self@.players[ranking(
                    self@.points(),
                )[k] as int],
            forall|a: int, b: int|
                0 <= a < b < order@.len() ==> (#[trigger] order@[a])@.total_points >= (
                #[trigger] order@[b])@.total_points,
    {
        let mut points: Vec<usize> = Vec::new();
        let mut index: usize = 0;
        while index < self.players.len()
            invariant
                index <= self.players@.len(),
                points@.len() == index,
                forall|i: int| 0 <= i < index ==> points@[i] == self@.players[i].total_points,
            decreases self.players@.len() - index,
        {
            assert(self@.players[index as int] == self.players@[index as int]@);
            points.push(self.players[index].total_points());
            index += 1;
        }
        assert(points@ =~= self@.points());
        let places = rank(&points);
        proof {
            lemma_ranking_sorted(points@);
        }
        let mut order: Vec<&Player> = Vec::new();
        let mut row: usize = 0;
        while row < places.len()
            invariant
                row <= places@.len(),
                places@.len() == self.players@.len(),
                places@ == ranking(self@.points()),
                forall|k: int| 0 <= k < places@.len() ==> (#[trigger] places@[k]) < self.players@.len(),
                order@.len() == row,
                forall|k: int|
                    0 <= k < row ==> (#[trigger] order@[k])@ == self@.players[places@[k] as int],
            decreases places@.len() - row,
        {
            let place = places[row];
            assert(self@.players[place as int] == self.players@[place as int]@);
            order.push(&self.players[place]);
            row += 1;
        }
        assert forall|a: int, b: int| 0 <= a < b < order@.len() implies (
        #[trigger] order@[a])@.total_points >= (#[trigger] order@[b])@.total_points by {
            assert(self@.points()[places@[a] as int] >= self@.points()[places@[b] as int]);
        }
        order
    }

    /// Whether somebody has won: some player has at least the points that
    /// win the game.
    pub fn has_finished(&self) -> (finished: bool)
        ensures
            finished == self@.has_winner(),
    {
        let mut index: usize = 0;
        while index < self.players.len()
            invariant
                index <= self.players@.len(),
                forall|i: int|
                    0 <= i < index ==> (#[trigger] self@.players[i]).total_points
                        < self@.winner_points,
            decreases self.players@.len() - index,
        {
            assert(self@.players[index as int] == self.players@[index as int]@);
            if self.players[index].total_points() >= self.winner_points {
                return true;
            }
            index += 1;
        }
        false
    }
}

} // verus!
