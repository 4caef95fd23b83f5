//! A capped, time-windowed, fixed-ratio conversion ledger.
//!
//! Holders exchange units of an old asset for units of a new asset at a fixed
//! rational ratio, under a migration cap, an open/close window, a pause switch
//! and a one-way finalization latch. Every transition is a pure function from
//! the persisted record and the caller's inputs to the next record and the
//! asset-ledger actions that the host must carry out atomically.
pub mod convert;
pub mod types;
pub mod config;
pub mod redeem;
pub mod admin;
pub mod laws;
