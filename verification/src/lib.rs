//! A cross-chain message relay: configuration cross-validation, a chain
//! adapter capability with a retry policy, an authenticated message engine
//! (signing, nonce-ordered verification, expiry), and the relay orchestration
//! loop with deduplication.

use vstd::prelude::*;

pub mod chain_adapter;
pub mod codec;
pub mod config;
pub mod relayer;
pub mod types;
pub mod verify;

verus! {

/// The relay's error taxonomy.
///
/// `Config` is fatal at startup; `Chain` covers remote failures and
/// protocol-level rejection; `Serialization` covers payload encode and decode
/// failures; `Validation` covers business-rule and cryptographic check
/// failures on a single message.
#[derive(Clone, Copy, Debug, PartialEq, Eq, Structural)]
pub enum Error {
    Config,
    Chain,
    Network,
    Serialization,
    Validation,
}

} // verus!
