//! Core of a proof-of-work consensus engine: proof-of-work primitives, the
//! consensus payload format, ancestor walks over a recorded chain view, the
//! difficulty controller, the miner's search steps and the node's publishing
//! and fork-choice state machine.
//!
//! The library performs no input or output. Every exchange with the
//! validator is a `Request` handed to the caller, whose answer comes back as
//! a `Reply`.

pub mod block;
pub mod decimal;
pub mod engine;
pub mod futures;
pub mod miner;
pub mod node;
pub mod primitives;
pub mod timestamp;
pub mod wide;
pub mod work;
