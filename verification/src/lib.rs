//! A signal-to-event bridge and a multiplexed wait loop.
//!
//! The library converts an asynchronous, process-wide interruption request
//! into a synchronous event that a program can wait on alongside periodic
//! tick events, with at-most-one effective shutdown transition and a
//! race-free, graceful exit. The multiplexer's behaviour is stated over a
//! mathematical model of the event history and proved against it.

pub mod events;
pub mod mux;
pub mod queue;
pub mod search;
pub mod sources;
pub mod wordcount;
