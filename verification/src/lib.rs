//! A verified single-counter state machine.
//!
//! The library decodes an instruction byte buffer into a typed operation
//! (increment, decrement, update, reset), applies it to a persisted `u32`
//! counter with well-defined arithmetic semantics, and re-encodes the new
//! counter value for persistence. Every function is specified and proved.

pub mod errors;
pub mod instructions;
pub mod processor;
pub mod state;
