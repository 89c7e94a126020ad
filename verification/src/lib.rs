//! Client for a remote threshold key-derivation authority.
//!
//! The library shapes the two requests the protocol knows — a public-key
//! fetch and a per-user derive-key call — and classifies the outcome of a
//! round trip to the authority. It holds no state between calls and never
//! sees key material in the clear: derived keys come back encrypted under a
//! caller-supplied transport public key.

pub mod config;
pub mod laws;
pub mod outcome;
pub mod protocol;
