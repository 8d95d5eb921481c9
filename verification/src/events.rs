//! The plain data that crosses the boundary between the verified core
//! and the task/socket layer around it: frames read from a connection,
//! messages queued for writing, and the lifecycle events surfaced to the
//! surrounding application.

use vstd::prelude::*;
use crate::codec::Command;

verus! {

/// A message bound for one connection's private outbound queue.
pub enum Outbound {
    /// A text frame, already encoded.
    Text(String),
    /// A ping control frame, for keep-alive.
    Ping,
    /// A pong control frame.
    Pong,
}

/// A frame read from a connection, as the transport layer hands it over.
pub enum InboundFrame {
    Text(String),
    Binary,
    Ping,
    Pong,
    Close,
    /// A raw control frame the transport handles by itself.
    Raw,
}

/// A lifecycle or command-arrival event surfaced to the surrounding
/// application (not sent over the wire).
pub enum Event {
    Start,
    Stop,
    PortUnavailable(u16),
    Connect { id: u32, address: String },
    ConnectionEstablished(Command),
    CommandArrived(Command),
    Disconnect { id: u32, address: String, client_id: String },
}

/// One effect of a protocol step, in order: either a message to enqueue
/// on this connection's outbound queue, or an event to surface upstream.
pub enum Output {
    Enqueue(Outbound),
    Emit(Event),
}

} // verus!
