//! A minimal tailing consumer for an append-only, sharded stream.
//!
//! The library holds the verified core: the per-shard cursor state machine,
//! the poller that drives startup and the round-robin fetch schedule, and the
//! decoding and re-rendering of record payloads. The network calls themselves
//! are issued by the surrounding binary, which feeds their results back in as
//! plain events.

pub mod cursor;
pub mod laws;
pub mod poller;
pub mod render;
