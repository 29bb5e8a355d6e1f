//! The parts of the screen: what each of them holds, how large it is, and
//! what it makes of a key. Drawing them is left to the front end.

pub mod arena;
pub mod gui;
pub mod menu;
pub mod util;
