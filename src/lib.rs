//! Desktop-automation command layer: argument normalization, a command
//! table, backend status translation and the state machine that sequences
//! each invocation's backend calls.

pub mod args;
pub mod error;
pub mod command;
pub mod bridge;
pub mod laws;
