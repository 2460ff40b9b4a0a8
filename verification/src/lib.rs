//! Synchronization core for a snapshot-based fuzzing setup: a driver-side
//! client and a simulator-embedded module exchange typed messages, with every
//! send and receive gated by a shared protocol state machine, so that the two
//! sides never desynchronize.
//!
//! The client exposes blocking `initialize` / `reset` / `run` / `exit` calls;
//! the module validates the incoming messages, decides which privileged
//! simulator actions to perform (snapshot save/restore, memory and register
//! writes, resume), and classifies why each run stopped.

pub mod channel;
pub mod client;
pub mod messages;
pub mod module;
pub mod state;
