//! The chain adapter capability: the interface every chain family supplies,
//! and the uniform retry-with-exponential-backoff policy its implementations
//! wrap around every remote call.
//!
//! The remote calls themselves (RPC transport, wire encoding) live with the
//! program embedding the relay; it implements `ChainAdapter` and asks
//! `backoff_after_failure` what to do when a call fails.

use vstd::prelude::*;

verus! {

use crate::Error;
use crate::config::ChainConfig;
use crate::types::MessageStatus;
use crate::types::SignedMessage;

/// How many times a remote call is attempted before its last failure is
/// propagated.
pub const MAX_RETRIES: u32 = 3;

/// The base, in seconds, of the exponential backoff between attempts.
pub const RETRY_DELAY: u64 = 2;

/// The capability set a chain family must provide: listen for inbound
/// events, submit an outbound message, and query a message's status.
pub trait ChainAdapter {
    /// The adapter-type tag of this chain family.
    fn chain_type(&self) -> &str;

    /// Polls the chain for newly observed signed messages.
    fn listen_events(&self, config: &ChainConfig) -> Result<Vec<SignedMessage>, Error>;

    /// Submits a message to the chain.
    fn submit_message(&self, config: &ChainConfig, message: &SignedMessage) -> Result<(), Error>;

    /// Queries the chain for the status of a previously submitted message.
    fn verify_message(&self, config: &ChainConfig, message: &SignedMessage) -> Result<
        MessageStatus,
        Error,
    >;
}

/// Builds an adapter from an adapter-type tag; an unknown tag must be an
/// error, never a silent default.
pub trait ChainAdapterFactory {
    type Adapter: ChainAdapter;

    fn create_adapter(&self, chain_type: &str) -> Result<Self::Adapter, Error>;
}

/// `base` raised to the power `exp`.
pub open spec fn spec_pow(base: int, exp: nat) -> int
    decreases exp,
{
    if exp == 0 {
        1
    } else {
        base * spec_pow(base, (exp - 1) as nat)
    }
}

/// The retry decorator's decision after the `failures`-th failed attempt at a
/// remote call: wait `RETRY_DELAY` to the power `failures` seconds and try
/// again, or, once `MAX_RETRIES` attempts have failed, give up and propagate
/// the last failure.
pub fn backoff_after_failure(failures: u32) -> (r: Option<u64>)
    requires
        1 <= failures,
    ensures
        failures >= MAX_RETRIES ==> r is None,
        failures < MAX_RETRIES ==> (r matches Some(d) && d as int == spec_pow(
            RETRY_DELAY as int,
            failures as nat,
        )),
{
    if failures >= MAX_RETRIES {
        return None;
    }
    let mut d: u64 = 1;
    let mut k: u32 = 0;
    while k < failures
        invariant
            k <= failures,
            failures < MAX_RETRIES,
            d as int == spec_pow(RETRY_DELAY as int, k as nat),
            d <= 4,
        decreases failures - k,
    {
        proof {
            reveal_with_fuel(spec_pow, 4);
        }
        d = d * RETRY_DELAY;
        k = k + 1;
    }
    Some(d)
}

/// The identity of a Rooch chain adapter: its RPC endpoint and tag. The RPC
/// calls themselves are made by the program embedding the relay, which wraps
/// each of them in the retry policy above.
pub struct RoochAdapter {
    rpc_url: String,
}

impl RoochAdapter {
    /// The endpoint this adapter talks to.
    pub closed spec fn spec_rpc_url(self) -> Seq<char> {
        self.rpc_url@
    }

    pub fn new(rpc_url: &str) -> (r: Result<RoochAdapter, Error>)
        ensures
            r matches Ok(a) && a.spec_rpc_url() == rpc_url@,
    {
        Ok(RoochAdapter { rpc_url: rpc_url.to_owned() })
    }

    /// The endpoint this adapter talks to.
    pub fn rpc_url(&self) -> (r: &str)
        ensures
            r@ == self.spec_rpc_url(),
    {
        self.rpc_url.as_str()
    }

    /// The adapter-type tag of the Rooch chain family.
    pub fn chain_type(&self) -> (r: &'static str)
        ensures
            r@ == "rooch"@,
    {
        "rooch"
    }
}

} // verus!
