//! The relay orchestrator: builds one adapter per configured chain, polls
//! each chain in configuration order, deduplicates messages by the hex
//! encoding of their signature, runs business-rule verification, and
//! dispatches to the target adapter with linearly growing retry delays.
//!
//! A chain's or message's failure is absorbed: it never halts the loop. The
//! unbounded loop itself — one `run_cycle`, then one `poll_interval` wait,
//! forever — is driven by the embedding program, which also supplies the
//! `Sleeper` that does the waiting.

use vstd::prelude::*;

verus! {

use crate::Error;
use crate::chain_adapter::ChainAdapter;
use crate::codec::hex_encode;
use crate::codec::str_eq;
use crate::config::AssetMapping;
use crate::config::ChainConfig;
use crate::config::Config;
use crate::config::spec_valid_adapter_type;
use crate::types::SignedMessage;
use crate::verify::current_unix_time;

/// The widest age, in seconds, at which the orchestrator still relays a
/// message.
pub const RELAY_MESSAGE_MAX_AGE: u64 = 3600;

/// Performs the waiting the orchestrator decides on: between dispatch
/// retries and between polling cycles. Supplied by the embedding program.
pub trait Sleeper {
    fn sleep_seconds(&self, seconds: u64);
}

/// Builds one adapter per configured chain; any failure aborts startup.
pub trait ChainAdapterFactory {
    type Adapter: ChainAdapter;

    fn create_adapter(&self, config: &ChainConfig) -> Result<Self::Adapter, Error>;
}

/// The closed registry of adapter-type tags the relay itself knows. The
/// embedding program implements `ChainAdapterFactory` for the chain families
/// it can reach and must fail, not default, on any other tag.
pub struct DefaultChainAdapterFactory;

impl DefaultChainAdapterFactory {
    /// Whether `adapter_type` is a tag the registry supports; anything else
    /// is refused closed.
    pub fn supported_adapter_type(adapter_type: &str) -> (r: bool)
        ensures
            r == spec_valid_adapter_type(adapter_type@),
    {
        str_eq(adapter_type, "sui") || str_eq(adapter_type, "rooch")
    }
}

/// Whether `ms` has an entry keyed by `key`.
pub open spec fn spec_mapping_has_key(ms: Seq<AssetMapping>, key: Seq<char>) -> bool {
    exists|j: int| 0 <= j < ms.len() && (#[trigger] ms[j]).chain_id@ == key
}

/// Whether some configured asset is native to `source` and mapped onto
/// `target`.
pub open spec fn spec_transfer_covered(c: Config, source: Seq<char>, target: Seq<char>) -> bool {
    exists|i: int|
        0 <= i < c.assets@.len() && (#[trigger] c.assets@[i]).native_chain@ == source
            && spec_mapping_has_key(c.assets@[i].mappings@, target)
}

/// The business rules checked before dispatch: the message is not from the
/// future and at most an hour old, both chains are configured, and a
/// transfer's route is covered by some asset mapping.
pub open spec fn spec_relay_rules_ok(c: Config, sm: SignedMessage, now: u64) -> bool {
    &&& sm.timestamp <= now
    &&& now - sm.timestamp <= RELAY_MESSAGE_MAX_AGE
    &&& c.spec_has_chain(sm.message.source_chain@)
    &&& c.spec_has_chain(sm.message.target_chain@)
    &&& (sm.message.message_type@ == "transfer"@ ==> spec_transfer_covered(
        c,
        sm.message.source_chain@,
        sm.message.target_chain@,
    ))
}

/// Whether `ids` holds `id`.
pub open spec fn spec_contains_id(ids: Seq<Seq<u8>>, id: Seq<u8>) -> bool {
    exists|i: int| 0 <= i < ids.len() && ids[i] == id
}

/// Whether all entries of `ids` differ: the dedup set holds each identifier
/// once.
pub open spec fn spec_no_dup_ids(ids: Seq<Seq<u8>>) -> bool {
    forall|i: int, j: int| 0 <= i < j < ids.len() ==> ids[i] != ids[j]
}

fn mapping_has_key(ms: &Vec<AssetMapping>, key: &str) -> (r: bool)
    ensures
        r == spec_mapping_has_key(ms@, key@),
{
    let mut j: usize = 0;
    while j < ms.len()
        invariant
            j <= ms@.len(),
            forall|k: int| 0 <= k < j ==> (#[trigger] ms@[k]).chain_id@ != key@,
        decreases ms@.len() - j,
    {
        if str_eq(ms[j].chain_id.as_str(), key) {
            return true;
        }
        j = j + 1;
    }
    false
}

fn transfer_covered(c: &Config, source: &str, target: &str) -> (r: bool)
    ensures
        r == spec_transfer_covered(*c, source@, target@),
{
    let mut i: usize = 0;
    while i < c.assets.len()
        invariant
            i <= c.assets@.len(),
            forall|k: int|
                0 <= k < i ==> !((#[trigger] c.assets@[k]).native_chain@ == source@
                    && spec_mapping_has_key(c.assets@[k].mappings@, target@)),
        decreases c.assets@.len() - i,
    {
        if str_eq(c.assets[i].native_chain.as_str(), source) && mapping_has_key(
            &c.assets[i].mappings,
            target,
        ) {
            return true;
        }
        i = i + 1;
    }
    false
}

fn bytes_eq(a: &Vec<u8>, b: &Vec<u8>) -> (r: bool)
    ensures
        r == (a@ == b@),
{
    if a.len() != b.len() {
        return false;
    }
    let mut i: usize = 0;
    while i < a.len()
        invariant
            a@.len() == b@.len(),
            i <= a@.len(),
            forall|k: int| 0 <= k < i ==> a@[k] == b@[k],
        decreases a@.len() - i,
    {
        if a[i] != b[i] {
            return false;
        }
        i = i + 1;
    }
    proof {
        assert(a@ =~= b@);
    }
    true
}

fn contains_id(ids: &Vec<Vec<u8>>, id: &Vec<u8>) -> (r: bool)
    ensures
        r == spec_contains_id(ids.deep_view(), id@),
{
    let mut i: usize = 0;
    while i < ids.len()
        invariant
            i <= ids@.len(),
            forall|k: int| 0 <= k < i ==> ids.deep_view()[k] != id@,
        decreases ids@.len() - i,
    {
        if bytes_eq(&ids[i], id) {
            proof {
                assert(ids.deep_view()[i as int] == ids@[i as int]@);
            }
            return true;
        }
        proof {
            assert(ids.deep_view()[i as int] == ids@[i as int]@);
        }
        i = i + 1;
    }
    false
}

/// The relay orchestrator: the configuration and one adapter per configured
/// chain, keyed by chain id.
pub struct Relayer<A> {
    config: Config,
    chain_adapters: Vec<(String, A)>,
}

impl<A> Relayer<A> {
    /// The configuration the orchestrator was built from.
    pub closed spec fn spec_config(self) -> Config {
        self.config
    }

    /// The chain ids the orchestrator holds adapters for, in order.
    pub closed spec fn spec_adapter_keys(self) -> Seq<Seq<char>> {
        Seq::new(self.chain_adapters@.len(), |i: int| self.chain_adapters@[i].0@)
    }

    /// The seconds to wait between polling cycles.
    pub fn poll_interval(&self) -> (r: u64)
        ensures
            r == self.spec_config().relayer.poll_interval,
    {
        self.config.relayer.poll_interval
    }

    /// One adapter per configured chain, in configuration order, keyed by
    /// that chain's id.
    #[verifier::type_invariant]
    closed spec fn wf(self) -> bool {
        &&& self.chain_adapters@.len() == self.config.chains@.len()
        &&& forall|i: int|
            0 <= i < self.chain_adapters@.len() ==> (#[trigger] self.chain_adapters@[i].0)@
                == self.config.chains@[i].id@
    }
}

impl<A: ChainAdapter> Relayer<A> {
    /// Builds one adapter per configured chain through `factory`; any
    /// construction failure aborts startup with that failure. A successful
    /// start holds exactly one adapter per configured chain, keyed by that
    /// chain's id, in configuration order; with no chains configured,
    /// startup always succeeds.
    pub fn new<F: ChainAdapterFactory<Adapter = A>>(config: Config, factory: &F) -> (r: Result<
        Relayer<A>,
        Error,
    >)
        ensures
            r matches Ok(rl) ==> {
                &&& rl.spec_config() == config
                &&& rl.spec_adapter_keys().len() == config.chains@.len()
                &&& forall|i: int|
                    0 <= i < config.chains@.len() ==> rl.spec_adapter_keys()[i]
                        == config.chains@[i].id@
            },
            config.chains@.len() == 0 ==> r.is_ok(),
    {
        let mut chain_adapters: Vec<(String, A)> = Vec::new();
        let mut i: usize = 0;
        while i < config.chains.len()
            invariant
                i <= config.chains@.len(),
                chain_adapters@.len() == i,
                forall|k: int|
                    0 <= k < i ==> (#[trigger] chain_adapters@[k].0)@ == config.chains@[k].id@,
            decreases config.chains@.len() - i,
        {
            let adapter = match factory.create_adapter(&config.chains[i]) {
                Ok(a) => a,
                Err(e) => {
                    return Err(e);
                },
            };
            chain_adapters.push((config.chains[i].id.clone(), adapter));
            i = i + 1;
        }
        Ok(Relayer { config, chain_adapters })
    }

    fn process_chain_events(&self, chain_id: &str, adapter: &A) -> (r: Result<
        Vec<SignedMessage>,
        Error,
    >)
        ensures
            !self.spec_config().spec_has_chain(chain_id@) ==> r == Err::<Vec<SignedMessage>, Error>(
                Error::Config,
            ),
    {
        let chain_config = match self.config.get_chain_config(chain_id) {
            Some(c) => c,
            None => {
                return Err(Error::Config);
            },
        };
        adapter.listen_events(chain_config)
    }

    /// Checks the pre-dispatch business rules for `message` as of `now`:
    /// freshness, chain membership, and asset coverage for transfers. Every
    /// failure is a validation error; a message that passes is reported
    /// true.
    pub fn verify_message(&self, message: &SignedMessage, now: u64) -> (r: Result<bool, Error>)
        ensures
            r.is_ok() <==> spec_relay_rules_ok(self.spec_config(), *message, now),
            r matches Ok(b) ==> b,
            r.is_err() ==> r == Err::<bool, Error>(Error::Validation),
    {
        if message.timestamp > now {
            return Err(Error::Validation);
        }
        if now - message.timestamp > RELAY_MESSAGE_MAX_AGE {
            return Err(Error::Validation);
        }
        if self.config.get_chain_config(message.message.source_chain.as_str()).is_none() {
            return Err(Error::Validation);
        }
        if self.config.get_chain_config(message.message.target_chain.as_str()).is_none() {
            return Err(Error::Validation);
        }
        if str_eq(message.message.message_type.as_str(), "transfer") {
            if !transfer_covered(
                &self.config,
                message.message.source_chain.as_str(),
                message.message.target_chain.as_str(),
            ) {
                return Err(Error::Validation);
            }
        }
        Ok(true)
    }

    /// Relays one message to its target chain: a missing target adapter is a
    /// permanent failure; the business rules are checked first; then the
    /// submission is attempted up to `max_retries` times, waiting
    /// `retry_delay * k` seconds after the `k`-th failure.
    pub fn relay_message<S: Sleeper>(
        &self,
        source_chain_id: &str,
        message: &SignedMessage,
        sleeper: &S,
    ) -> (r: Result<(), Error>)
        ensures
            !self.spec_config().spec_has_chain(message.message.target_chain@) ==> r == Err::<
                (),
                Error,
            >(Error::Chain),
            r.is_ok() ==> self.spec_config().spec_has_chain(message.message.target_chain@) && (
            exists|now: u64| spec_relay_rules_ok(self.spec_config(), *message, now)),
    {
        proof {
            use_type_invariant(&*self);
        }
        let mut idx: usize = 0;
        let n = self.chain_adapters.len();
        let mut found = false;
        while idx < n && !found
            invariant
                n == self.chain_adapters@.len(),
                idx <= n,
                self.wf(),
                !found ==> forall|k: int|
                    0 <= k < idx ==> (#[trigger] self.chain_adapters@[k].0)@
                        != message.message.target_chain@,
                found ==> idx < n && self.chain_adapters@[idx as int].0@
                    == message.message.target_chain@,
            decreases n - idx + (if found { 0int } else { 1int }),
        {
            if str_eq(self.chain_adapters[idx].0.as_str(), message.message.target_chain.as_str()) {
                found = true;
            } else {
                idx = idx + 1;
            }
        }
        if !found {
            proof {
                assert(forall|k: int|
                    0 <= k < self.config.chains@.len() ==> (#[trigger] self.config.chains@[k].id)@
                        == self.chain_adapters@[k].0@);
            }
            return Err(Error::Chain);
        }
        let target_adapter = &self.chain_adapters[idx].1;
        let target_config = match self.config.get_chain_config(
            message.message.target_chain.as_str(),
        ) {
            Some(c) => c,
            None => {
                return Err(Error::Config);
            },
        };
        let now = current_unix_time();
        match self.verify_message(message, now) {
            Err(e) => {
                return Err(e);
            },
            Ok(_) => {},
        }
        let max_retries = self.config.relayer.max_retries;
        let base_delay = self.config.relayer.retry_delay;
        let mut retry_count: u32 = 0;
        loop
            invariant
                retry_count == 0 || retry_count < max_retries,
                spec_relay_rules_ok(self.spec_config(), *message, now),
                self.spec_config().spec_has_chain(message.message.target_chain@),
            decreases max_retries - retry_count,
        {
            match target_adapter.submit_message(target_config, message) {
                Ok(_) => {
                    return Ok(());
                },
                Err(_) => {
                    retry_count = retry_count + 1;
                    if retry_count >= max_retries {
                        return Err(Error::Chain);
                    }
                    let delay = match base_delay.checked_mul(retry_count as u64) {
                        Some(d) => d,
                        None => u64::MAX,
                    };
                    sleeper.sleep_seconds(delay);
                },
            }
        }
    }

    /// One polling cycle: visits every chain in configuration order, skips a
    /// chain whose listen fails, skips messages whose identifier is already
    /// in the dedup set, and records the identifier of each message that was
    /// relayed. The dedup set only grows, and never holds an identifier
    /// twice.
    pub fn run_cycle<S: Sleeper>(&self, processed_messages: &mut Vec<Vec<u8>>, sleeper: &S)
        requires
            spec_no_dup_ids(old(processed_messages).deep_view()),
        ensures
            spec_no_dup_ids(final(processed_messages).deep_view()),
            old(processed_messages)@.len() <= final(processed_messages)@.len(),
            forall|k: int|
                0 <= k < old(processed_messages)@.len() ==> final(processed_messages)@[k] == old(
                    processed_messages,
                )@[k],
    {
        let mut ci: usize = 0;
        while ci < self.chain_adapters.len()
            invariant
                spec_no_dup_ids(processed_messages.deep_view()),
                old(processed_messages)@.len() <= processed_messages@.len(),
                forall|k: int|
                    0 <= k < old(processed_messages)@.len() ==> processed_messages@[k] == old(
                        processed_messages,
                    )@[k],
                ci <= self.chain_adapters@.len(),
            decreases self.chain_adapters@.len() - ci,
        {
            match self.process_chain_events(self.chain_adapters[ci].0.as_str(), &self.chain_adapters[ci].1) {
                Ok(messages) => {
                    let mut mi: usize = 0;
                    while mi < messages.len()
                        invariant
                            spec_no_dup_ids(processed_messages.deep_view()),
                            old(processed_messages)@.len() <= processed_messages@.len(),
                            forall|k: int|
                                0 <= k < old(processed_messages)@.len() ==> processed_messages@[k]
                                    == old(processed_messages)@[k],
                            mi <= messages@.len(),
                            ci < self.chain_adapters@.len(),
                        decreases messages@.len() - mi,
                    {
                        let message_id = hex_encode(messages[mi].signature.as_slice());
                        if !contains_id(processed_messages, &message_id) {
                            match self.relay_message(
                                self.chain_adapters[ci].0.as_str(),
                                &messages[mi],
                                sleeper,
                            ) {
                                Ok(_) => {
                                    push_new_id(processed_messages, message_id);
                                },
                                Err(_) => {},
                            }
                        }
                        mi = mi + 1;
                    }
                },
                Err(_) => {},
            }
            ci = ci + 1;
        }
    }

    /// Submits `message` directly to the chain with id `chain_id`, bypassing
    /// deduplication, business-rule verification and orchestrator-level
    /// retries.
    pub fn process_message(&self, chain_id: &str, message: &SignedMessage) -> (r: Result<(), Error>)
        ensures
            !self.spec_config().spec_has_chain(chain_id@) ==> r == Err::<(), Error>(Error::Config),
            r.is_ok() ==> self.spec_config().spec_has_chain(chain_id@),
    {
        proof {
            use_type_invariant(&*self);
        }
        let chain_config = match self.config.get_chain_config(chain_id) {
            Some(c) => c,
            None => {
                return Err(Error::Config);
            },
        };
        let mut j: usize = 0;
        while j < self.chain_adapters.len()
            invariant
                j <= self.chain_adapters@.len(),
                self.spec_config().spec_has_chain(chain_id@),
            decreases self.chain_adapters@.len() - j,
        {
            if str_eq(self.chain_adapters[j].0.as_str(), chain_id) {
                return self.chain_adapters[j].1.submit_message(chain_config, message);
            }
            j = j + 1;
        }
        Err(Error::Chain)
    }
}

/// Adds an identifier the set does not hold yet; the set stays duplicate-free
/// and what it held is kept.
fn push_new_id(ids: &mut Vec<Vec<u8>>, id: Vec<u8>)
    requires
        spec_no_dup_ids(old(ids).deep_view()),
        !spec_contains_id(old(ids).deep_view(), id@),
    ensures
        spec_no_dup_ids(final(ids).deep_view()),
        old(ids)@.len() < final(ids)@.len(),
        forall|k: int| 0 <= k < old(ids)@.len() ==> final(ids)@[k] == old(ids)@[k],
{
    ids.push(id);
    proof {
        assert(ids.deep_view() =~~= old(ids).deep_view().push(id@));
        assert forall|i: int, j: int| 0 <= i < j < ids.deep_view().len() implies ids.deep_view()[i]
            != ids.deep_view()[j] by {
            if j < old(ids).deep_view().len() {
            } else {
                assert(ids.deep_view()[j] == id@);
                assert(!spec_contains_id(old(ids).deep_view(), id@));
            }
        }
    }
}

} // verus!
