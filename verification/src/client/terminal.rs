//! The front end on a terminal.

pub mod input;
pub mod widgets;
