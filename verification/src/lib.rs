//! Core of a local message relay: clients connect over a text-frame
//! transport, introduce themselves, and exchange structured commands with
//! observer front-ends.  This crate holds the verified logic: the wire
//! codec, the client registry, the subscription set, the per-connection
//! protocol state machine, and the server supervisor's decisions.
//! The surrounding application owns the sockets and the task runtime and
//! drives these types with the events it observes.

pub mod actor;
pub mod codec;
pub mod events;
pub mod idgen;
pub mod json;
pub mod registry;
pub mod server;
pub mod strutil;
pub mod subscriptions;
