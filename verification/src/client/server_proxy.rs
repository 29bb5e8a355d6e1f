//! The client's end of the connection to a server.

use vstd::prelude::*;

verus! {

/// How the connection to the server stands.
#[derive(Clone, Copy, Debug, PartialEq, Eq, Structural)]
pub enum ConnectionStatus {
    Connected,
    NotConnected,
    NotFound,
    Lost,
}

} // verus!
