//! What server and client tell each other about a game.

use vstd::prelude::*;
use crate::character::CharacterId;
use crate::ids::{EntityId, SpellId};
use crate::vec2::Vec2;
use crate::version::Compatibility;

verus! {

/// What a cell of an arena is made of.
#[derive(Clone, Copy, Debug, PartialEq, Eq, Structural)]
pub enum Terrain {
    Floor,
    Wall,
}

/// Names the session of a player that has logged in.
pub type SessionToken = usize;

/// How a player came to be logged in.
#[derive(Clone, Copy, Debug, PartialEq, Eq, Structural)]
pub enum LoggedKind {
    FirstTime,
    Reconnection,
}

/// What the server answered to a login.
#[derive(Clone, Copy, Debug, PartialEq, Eq, Structural)]
pub enum LoginStatus {
    Logged(SessionToken, LoggedKind),
    InvalidPlayerName,
    AlreadyLogged,
    PlayerLimit,
}

/// What a client is told about an entity.
#[derive(Clone, Copy, Debug, PartialEq, Eq, Structural)]
pub struct EntityData {
    pub id: EntityId,
    pub character_id: CharacterId,
    pub position: Vec2,
    pub live: usize,
    pub energy: usize,
}

/// What a client is told about a spell.
#[derive(Clone, Copy, Debug, PartialEq, Eq, Structural)]
pub struct SpellData {
    pub id: SpellId,
    pub position: Vec2,
}

/// What a client says to the server.
#[derive(Debug)]
pub enum ClientMessage {
    /// The version of the client.
    Version(String),
}

/// What the server says to a client.
#[derive(Debug)]
pub enum ServerMessage {
    /// The version of the server, and how well it goes with the client's.
    Version(String, Compatibility),
}

} // verus!
