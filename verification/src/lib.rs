//! Federation activity engine for a social-content node.
//!
//! The engine authenticates, deduplicates and dispatches signed activities
//! exchanged with other nodes, drives the follow/accept handshake, and builds
//! the outbound activity envelopes that propagate local edits to remote
//! subscribers. Network transport, JSON framing and storage plumbing live
//! outside the library; the engine works on plain values and in-memory stores.

pub mod activities;
pub mod activity_log;
pub mod actors;
pub mod edits;
pub mod errors;
pub mod follows;
pub mod inbox;
pub mod outbound;
pub mod settings;
pub mod sign;
pub mod text;
pub mod urls;
