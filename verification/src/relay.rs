//! The WebSocket chat relay: what the server does with each event on a
//! client's connection, and what the console client does with each line.

use vstd::prelude::*;
use crate::text::{str_eq, str_trim, trim_of};

verus! {

/// An event on one client's connection.
#[derive(Debug)]
pub enum RelayEvent {
    /// A text or binary message from the client, as text.
    ClientMessage(String),
    /// Any other frame from the client (ping, pong, close).
    ClientControl,
    /// Reading from the client failed.
    ClientError,
    /// The client's stream ended.
    ClientClosed,
    /// A message published by some client (this one included).
    Broadcast(String),
}

/// What the relay does next for this connection.
#[derive(Debug)]
pub enum RelayAction {
    /// Publish the message to every connection.
    Publish(String),
    /// Send the message to this client.
    Deliver(String),
    /// Wait for the next event.
    Ignore,
    /// Stop serving this connection.
    Stop,
}

/// One step of the relay loop of a connection.
pub fn relay_step(event: RelayEvent) -> (res: RelayAction)
    ensures
        match event {
            RelayEvent::ClientMessage(m) => res matches RelayAction::Publish(p) && p@ == m@,
            RelayEvent::ClientControl => res is Ignore,
            RelayEvent::ClientError => res is Stop,
            RelayEvent::ClientClosed => res is Stop,
            RelayEvent::Broadcast(m) => res matches RelayAction::Deliver(d) && d@ == m@,
        },
{
    match event {
        RelayEvent::ClientMessage(message) => RelayAction::Publish(message),
        RelayEvent::ClientControl => RelayAction::Ignore,
        RelayEvent::ClientError => RelayAction::Stop,
        RelayEvent::ClientClosed => RelayAction::Stop,
        RelayEvent::Broadcast(message) => RelayAction::Deliver(message),
    }
}

/// What the console client does with a line typed by the user.
#[derive(Debug)]
pub enum ClientCommand {
    /// Leave.
    Exit,
    /// Send this text.
    Send(String),
}

/// The command for an already trimmed line: "exit" leaves, anything else is
/// sent as it is.
pub fn client_command(trimmed: &str) -> (res: ClientCommand)
    ensures
        trimmed@ == "exit"@ ==> res is Exit,
        trimmed@ != "exit"@ ==> (res matches ClientCommand::Send(s) && s@ == trimmed@),
{
    if str_eq(trimmed, "exit") {
        ClientCommand::Exit
    } else {
        ClientCommand::Send(String::from_str(trimmed))
    }
}

/// The command for a typed line: the line without its surrounding white
/// space, read by `client_command`.
pub fn client_input(line: &str) -> (res: ClientCommand)
    ensures
        trim_of(line@) == "exit"@ ==> res is Exit,
        trim_of(line@) != "exit"@ ==> (res matches ClientCommand::Send(s) && s@ == trim_of(line@)),
{
    let trimmed = str_trim(line);
    client_command(trimmed)
}

} // verus!
