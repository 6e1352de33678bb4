//! Verified core of a ZeroMQ-based trading backend: socket readiness
//! bookkeeping, multipart message framing, the socket poll loop's decisions,
//! stream and sink state machines, socket builder plans, an embedded-file
//! registry, and the records and decisions of the strategy store.
use vstd::prelude::*;

pub mod config;
pub mod derive;
pub mod evented;
pub mod frames;
pub mod includedir;
pub mod message;
pub mod poll_kind;
pub mod poll_thread;
pub mod send_state;
pub mod sink_stream;
pub mod pollable;
pub mod store;
pub mod strategy;
pub mod streams;

verus! {

/// A clock tick that drives periodic work, by its time in milliseconds.
#[derive(Clone, Copy, PartialEq, Eq, Structural, Debug)]
pub struct DummyUpdate {
    pub time: u64,
}

} // verus!
