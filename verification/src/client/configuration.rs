//! What the user asked for when starting the client.

use vstd::prelude::*;

verus! {

/// The address of a host on the network, as the number that its bytes spell
/// out, first byte first.
#[derive(Clone, Copy, Debug, PartialEq, Eq, Structural)]
pub enum HostAddress {
    V4(u32),
    V6(u128),
}

/// Where a server listens: a host and a port.
#[derive(Clone, Copy, Debug, PartialEq, Eq, Structural)]
pub struct ServerAddress {
    pub host: HostAddress,
    pub port: u16,
}

/// The settings of a client.
#[derive(Clone, Copy, Debug)]
pub struct Config {
    /// The symbol that the user wants to play with.
    pub character: Option<char>,
    /// The server that the user wants to play on.
    pub server_addr: Option<ServerAddress>,
}

} // verus!
