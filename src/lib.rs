//! Client for a ledger node: agent identifiers, storage address derivation,
//! reply decoding and the request/connection bookkeeping of an RPC session.
//!
//! Everything here computes on plain values. Opening sockets, sending frames
//! and waiting for replies is left to the caller, who hands the raw replies
//! back to the decoders of this crate.

pub mod client;
pub mod codec;
pub mod error;
pub mod hashing;
pub mod hex;
pub mod json;
pub mod keys;
pub mod laws;
pub mod types;

pub use client::ClawChainClient;
pub use error::{ClawChainError, Result};
pub use types::{AgentDID, AgentInfo, ChainEvent, Proposal};
