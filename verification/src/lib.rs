//! Core of a client for an append-only event store speaking a framed TCP
//! protocol: the wire package codec, the connection state machine, the
//! operation registry with timeouts and retries, the heartbeat monitor and
//! the subscription runtime.

pub mod catchup;
pub mod commands;
pub mod driver;
pub mod events;
pub mod heartbeat;
mod id_gen;
pub mod metadata;
pub mod package;
pub mod registry;
pub mod subscription;
pub mod supervisor;
pub mod types;
