//! A stateful graph engine: named nodes, static and conditional routing,
//! an iteration bound, and suspension at interrupts with later resumption.
//!
//! Node and branch behaviour belongs to the caller. The engine decides what
//! happens next from plain values that describe each outcome.

pub mod constants;
pub mod error;
pub mod table;
pub mod graph;
pub mod executor;
pub mod trace;
