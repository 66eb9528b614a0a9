//! A bilateral trade escrow and a royalty-distribution registry, each a
//! keyed record store behind a guarded state machine.

pub mod error;
pub mod escrow;
pub mod identity;
pub mod royalty;
pub mod store;
