//! What the client knows: about its user, about the server, and about the game
//! that the server reports.

use vstd::prelude::*;
use std::collections::HashMap;
use crate::character::{Character, CharacterId};
use crate::client::configuration::{Config, ServerAddress};
use crate::client::server_proxy::ConnectionStatus;
use crate::direction::Direction;
use crate::ids::{EntityId, SpellId};
use crate::message::{EntityData, LoginStatus, SpellData, Terrain};
use crate::time::Timestamp;
use crate::vec2::Vec2;
use crate::version::Compatibility;

verus! {

/// The user of this client.
pub struct User {
    pub character_symbol: Option<char>,
    pub login_status: Option<LoginStatus>,
}

impl User {
    /// Whether the server has accepted the user's login.
    pub fn is_logged(&self) -> (logged: bool)
        ensures
            logged == (self.login_status matches Some(LoginStatus::Logged(_, _))),
    {
        if let Some(LoginStatus::Logged(_, _)) = self.login_status {
            return true;
        }
        false
    }
}

/// The version of the server, and how well it goes with ours.
pub struct VersionInfo {
    pub version: String,
    pub compatibility: Compatibility,
}

/// What stays the same for a whole game.
pub struct StaticGameInfo {
    pub players_number: usize,
    pub map_size: usize,
    pub winner_points: usize,
}

/// The player that the user plays.
pub struct UserPlayer {
    /// The place of the player among the players of the game.
    pub player_id: usize,
    pub direction: Direction,
}

/// The arena as the server reported it.
pub struct Arena {
    pub user_player: UserPlayer,
    pub entities: HashMap<EntityId, EntityData>,
    pub spells: HashMap<SpellId, SpellData>,
    pub size: usize,
    /// The cells row by row.
    pub ground: Vec<Terrain>,
}

impl Arena {
    /// Whether `position` names a cell of the arena, and the ground has a
    /// terrain for it.
    pub open spec fn contains(&self, position: Vec2) -> bool {
        &&& 0 <= position.x < self.size
        &&& 0 <= position.y < self.size
        &&& position.y * self.size + position.x < self.ground@.len()
    }

    /// The terrain of the cell at `position`, which has to lie in the arena.
    pub fn terrain(&self, position: Vec2) -> (terrain: Terrain)
        requires
            self.contains(position),
        ensures
            terrain == self.ground@[position.y * self.size + position.x],
    {
        let row: usize = position.y as usize;
        let column: usize = position.x as usize;
        assert(0 <= row * self.size) by (nonlinear_arith);
        assert(row * self.size + column == position.y * self.size + position.x);
        assert(row * self.size + column < self.ground.len());
        self.ground[row * self.size + column]
    }
}

/// Where a game stands.
#[derive(Debug, Clone, Copy, PartialEq, Eq, Structural)]
pub enum GameStatus {
    NotStarted,
    Started,
    Finished,
}

/// A player as the server reported it.
pub struct Player {
    /// The place of the player among the players of the game.
    pub id: usize,
    pub character_id: CharacterId,
    pub entity_id: EntityId,
    pub points: usize,
}

/// The game as the server reported it.
pub struct Game {
    pub status: GameStatus,
    /// The moment at which the next round begins, once it is known.
    pub next_arena_timestamp: Option<Timestamp>,
    pub arena_number: usize,
    pub arena: Option<Arena>,
    pub characters: HashMap<CharacterId, Character>,
    pub players: Vec<Player>,
}

impl Game {
    /// The arena of the round that is being played. There has to be one.
    pub fn arena(&self) -> (arena: &Arena)
        requires
            self.arena.is_some(),
        ensures
            self.arena == Some(*arena),
    {
        self.arena.as_ref().unwrap()
    }

    /// The arena of the round that is being played, to be changed. There has
    /// to be one.
    pub fn arena_mut(&mut self) -> (arena: &mut Arena)
        requires
            old(self).arena.is_some(),
        ensures
            old(self).arena == Some(*arena),
            *final(self) == (Game { arena: Some(*final(arena)), ..*old(self) }),
    {
        match &mut self.arena {
            Some(arena) => arena,
            None => vstd::pervasive::unreached(),
        }
    }
}

/// What the client knows about the server.
pub struct Server {
    pub addr: Option<ServerAddress>,
    pub connection_status: ConnectionStatus,
    pub udp_port: Option<u16>,
    pub udp_confirmed: Option<bool>,
    pub version_info: Option<VersionInfo>,
    pub game_info: Option<StaticGameInfo>,
    pub logged_players: Vec<char>,
    pub game: Game,
}

impl Server {
    /// Whether as many players have logged in as the game takes.
    pub fn is_full(&self) -> (full: bool)
        ensures
            full == (self.game_info matches Some(info) && info.players_number
                == self.logged_players@.len()),
    {
        if let Some(StaticGameInfo { players_number, .. }) = self.game_info {
            if players_number == self.logged_players.len() {
                return true;
            }
        }
        false
    }

    /// Whether the connection to the server stands.
    pub fn is_connected(&self) -> (connected: bool)
        ensures
            connected == (self.connection_status == ConnectionStatus::Connected),
    {
        match self.connection_status {
            ConnectionStatus::Connected => true,
            _ => false,
        }
    }

    /// What stays the same for the whole game. The server has to have told.
    pub fn game_info(&self) -> (info: &StaticGameInfo)
        requires
            self.game_info.is_some(),
        ensures
            self.game_info == Some(*info),
    {
        self.game_info.as_ref().unwrap()
    }

    /// Whether the server has told its version, and it goes with ours.
    pub fn has_compatible_version(&self) -> (compatible: bool)
        ensures
            compatible == (self.version_info matches Some(info)
                && info.compatibility.is_compatible()),
    {
        if let Some(version_info) = &self.version_info {
            return version_info.compatibility.is_compatible();
        }
        false
    }
}

/// Everything that the client knows.
pub struct State {
    pub user: User,
    pub server: Server,
}

impl State {
    /// What a client knows when it starts: what its settings say, and nothing
    /// about the server or a game.
    pub fn new(config: &Config) -> (state: State)
        ensures
            state.user.character_symbol == config.character,
            state.user.login_status.is_none(),
            state.server.addr == config.server_addr,
            state.server.connection_status == ConnectionStatus::NotConnected,
            state.server.udp_port.is_none(),
            state.server.udp_confirmed.is_none(),
            state.server.version_info.is_none(),
            state.server.game_info.is_none(),
            state.server.logged_players@.len() == 0,
            state.server.game.status == GameStatus::NotStarted,
            state.server.game.arena_number == 0,
            state.server.game.next_arena_timestamp.is_none(),
            state.server.game.arena.is_none(),
            state.server.game.characters@ == Map::<CharacterId, Character>::empty(),
            state.server.game.players@.len() == 0,
    {
        State {
            user: User { character_symbol: config.character, login_status: None },
            server: Server {
                addr: config.server_addr,
                connection_status: ConnectionStatus::NotConnected,
                udp_port: None,
                udp_confirmed: None,
                version_info: None,
                game_info: None,
                logged_players: Vec::new(),
                game: Game {
                    status: GameStatus::NotStarted,
                    arena_number: 0,
                    next_arena_timestamp: None,
                    arena: None,
                    characters: HashMap::new(),
                    players: Vec::new(),
                },
            },
        }
    }
}

} // verus!
