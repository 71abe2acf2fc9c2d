//! An account-based voting state machine.
//!
//! An administrator initializes two global sequence counters, anyone may
//! create a poll with a time window, register as a candidate for a poll, and
//! cast one vote per poll for a registered candidate.  All state lives in
//! fixed-size records addressed by a deterministic, content-independent
//! derivation from each record's logical key.

pub mod address;
pub mod errors;
pub mod instructions;
pub mod ledger;
pub mod model;
pub mod state;
