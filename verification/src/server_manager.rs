//! What the server does with what arrives from the network.
//!
//! The network itself is not here. Whoever runs the server receives the
//! events, asks [`react`] what to do about each, and does it.

use vstd::prelude::*;
use vstd::string::StringExecFns;
use crate::message::{ClientMessage, ServerMessage};
use crate::version::{check, compatibility, current, Compatibility, VERSION};

verus! {

/// Something that happens to the server.
#[derive(Debug)]
pub enum Event {
    /// A client sent a message.
    Message(ClientMessage),
    /// A client connected.
    AddedEndpoint,
    /// A client went away.
    RemovedEndpoint,
    /// The server was asked to close.
    Close,
}

/// What the server does about an event.
#[derive(Debug)]
pub enum Reaction {
    /// Nothing.
    Ignore,
    /// Send `message` to the client the event came from, and drop the
    /// client afterwards if `reject` says so.
    Answer { message: ServerMessage, reject: bool },
    /// Stop serving.
    Stop,
}

/// The answer to a client of version `client_version`: the version of the
/// server, and how well the two go together. A client that does not go with
/// the server at all is rejected.
pub open spec fn version_answer(client_version: Seq<char>, reaction: Reaction) -> bool {
    reaction matches Reaction::Answer { message: ServerMessage::Version(version, verdict), reject }
        && version@ == VERSION@ && verdict == compatibility(client_version, VERSION@) && reject == (
    verdict == Compatibility::NotCompatible)
}

/// Answers a client that told its version.
pub fn process_version(client_version: &str) -> (reaction: Reaction)
    ensures
        version_answer(client_version@, reaction),
{
    let verdict = check(client_version, current());
    let reject = match verdict {
        Compatibility::NotCompatible => true,
        _ => false,
    };
    Reaction::Answer {
        message: ServerMessage::Version(String::from_str(current()), verdict),
        reject,
    }
}

/// Says what the server does about `event`: a client that tells its version
/// is answered, the request to close stops the server, and clients may come
/// and go without further ado.
pub fn react(event: &Event) -> (reaction: Reaction)
    ensures
        match event {
            Event::Message(ClientMessage::Version(client_version)) => version_answer(
                client_version@,
                reaction,
            ),
            Event::AddedEndpoint => reaction is Ignore,
            Event::RemovedEndpoint => reaction is Ignore,
            Event::Close => reaction is Stop,
        },
{
    match event {
        Event::Message(message) => match message {
            ClientMessage::Version(client_version) => process_version(client_version.as_str()),
        },
        Event::AddedEndpoint => Reaction::Ignore,
        Event::RemovedEndpoint => Reaction::Ignore,
        Event::Close => Reaction::Stop,
    }
}

} // verus!
