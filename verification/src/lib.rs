//! Pricing and wire encoding for a two-token automated market maker.
//!
//! The crate computes what a trade does to a pool's reserves and which fees it
//! owes, and fixes the byte layout of the pool's configuration and of the
//! requests a caller may send. Every function is total on the inputs its
//! contract admits: a malformed buffer or an arithmetic overflow is reported as
//! a value, never as a panic.

pub mod curve;
pub mod error;
pub mod host;
pub mod instruction;
pub mod processor;
pub mod wire;
