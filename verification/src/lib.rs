//! IPC client and event-bridge layer for a screenplay-project desktop shell.
//!
//! The daemon speaks a line-delimited JSON protocol over a local byte stream.
//! This crate holds the verified core: the envelope codec, the request
//! correlation rules of the daemon client, the normalization of daemon events,
//! the event-bridge state machine, and the two-channel dispatch policy that
//! falls back to a CLI subprocess when the daemon is unreachable. All I/O
//! (sockets, files, processes) lives outside, in the surrounding application.

pub mod analysis;
pub mod bridge;
pub mod client;
pub mod dashboard;
pub mod discovery;
pub mod dispatch;
pub mod events;
pub mod import;
pub mod json;
pub mod keychain;
pub mod protocol;
pub mod query;
pub mod runs;
pub mod settings;
pub mod strutil;
pub mod types;
