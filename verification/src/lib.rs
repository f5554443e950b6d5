//! A minimal in-memory message board: an ordered store of text messages, a
//! per-instance request counter, a process-wide instance-identity allocator,
//! and the request handlers that compose them into response payloads.
//!
//! All state-changing operations are specified against a mathematical model
//! of the instance, so that the behaviour of any sequence of requests —
//! which is what concurrent handlers produce once serialised by a lock —
//! is pinned down exactly.

pub mod counter;
pub mod handlers;
pub mod identity;
pub mod model;
pub mod server;
pub mod shared;
pub mod store;
