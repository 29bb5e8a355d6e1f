//! The side that shows the game to a user and takes the user's keys.

pub mod configuration;
pub mod server_proxy;
pub mod state;
pub mod store;
pub mod terminal;
