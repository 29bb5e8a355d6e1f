//! What a front end can ask the client to do.

use vstd::prelude::*;

verus! {

/// A request of the front end.
#[derive(Clone, Copy, Debug, PartialEq, Eq, Structural)]
pub enum Action {
    /// Leave the game that has finished, and go back to the menu.
    CloseGame,
    /// Close the client.
    Close,
}

} // verus!
