//! Live process session management: launching an external command-line tool
//! as an interactive session, framing its output streams into lines,
//! fanning events out to any number of subscribers over a bounded broadcast
//! channel, and cancelling or reaping the underlying process with
//! take-exactly-once ownership semantics.
//!
//! The concurrency-free core lives here, fully verified; an embedding
//! application serializes access to the registry and performs the actual
//! process and network input/output.

pub mod api;
pub mod channel;
pub mod config;
pub mod encode;
pub mod error;
pub mod events;
pub mod framing;
pub mod launch;
pub mod models;
pub mod registry;
pub mod relay;
pub mod response;
pub mod services;
pub mod storage;
