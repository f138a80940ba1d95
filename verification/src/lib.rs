//! A minimal stateful ledger entry: one persisted counter record with an
//! owner-gated reset, exposed through three entry points (instantiate,
//! execute, query).
//!
//! The record lives in a single named slot of a host key-value store; every
//! mutation is an atomic load-transform-store within one call.

pub mod bytes;
pub mod codec;
pub mod contract;
pub mod error;
pub mod msg;
pub mod numfmt;
pub mod response;
pub mod state;
pub mod store;
