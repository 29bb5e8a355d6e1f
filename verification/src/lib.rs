//! The simulation core of a multiplayer arena game played on a terminal.
//!
//! The server side owns the world: characters, players, the arena of a round
//! and the entities in it, advanced one tick at a time. The client side keeps
//! the state that a terminal front end shows, and decides what each key press
//! means. Time is a number that the driver of the simulation supplies; nothing
//! here reads a clock, a socket or a terminal.

pub mod character;
pub mod client;
pub mod direction;
pub mod ids;
pub mod time;
pub mod vec2;
pub mod message;
pub mod server;
pub mod server_manager;
pub mod text;
pub mod version;
