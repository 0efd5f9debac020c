//! Control of an IEEE 1149.1 TAP through an MPSSE command engine.
//!
//! The library holds the protocol layer only: the sixteen-state controller
//! automaton, shortest TMS paths between its states, the command bytes for
//! each operation, and the handshake that aligns commands with responses.
//! It performs no device I/O; callers write the bytes it produces and hand
//! back what the device answered.

pub mod error;
pub mod state;
pub mod path;
pub mod encoder;
pub mod wire;
pub mod controller;
pub mod sync;
