//! Secret-aggregation protocol controller.
//!
//! A state machine that accepts confidential numeric contributions from
//! multiple parties, lets a single administrator start a secure summation
//! over them, and publishes only the aggregate once the computation is
//! complete.  The secret-computation engine itself and the hosting
//! environment that dispatches calls are external collaborators: the
//! library receives their reports as plain values and decides every
//! transition with a verified contract.

pub mod codec;
pub mod controller;
pub mod state;
pub mod summation;
pub mod voting;
