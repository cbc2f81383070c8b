//! A verified non-fungible-token registry: a state machine that tracks
//! ownership, transfer and delegated-authority (approval) rights over
//! uniquely identified assets.
//!
//! The registry itself is pure: every operation takes the current ledger
//! state and plain values, and returns the new state together with the
//! attributes that describe the transition.  The host environment (storage
//! engine, message codec, address validator) lives outside this crate and
//! hands it plain values.

pub mod contract;
pub mod error;
pub mod execute;
pub mod expiration;
pub mod hello;
pub mod key_order;
pub mod laws;
pub mod metadata;
pub mod msg;
pub mod query;
pub mod response;
pub mod state;
