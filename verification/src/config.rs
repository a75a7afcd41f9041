//! The configuration model and its referential-integrity validation, plus the
//! pure lookup accessors. Loading a file from disk is left to the surrounding
//! program; it hands the parsed records to this module and must call
//! `validate` before using them.

use vstd::prelude::*;

verus! {

use vstd::utf8::encode_utf8;
use crate::Error;
use crate::codec::hex_valid;
use crate::codec::is_hex_str;
use crate::codec::str_eq;

/// A named event filter on a chain's bridge contract.
#[derive(Clone, Debug)]
pub struct EventFilter {
    pub name: String,
    pub handler: String,
}

/// One configured chain.
#[derive(Clone, Debug)]
pub struct ChainConfig {
    pub id: String,
    pub adapter_type: String,
    pub name: String,
    pub rpc_url: String,
    pub bridge_address: String,
    pub event_filters: Vec<EventFilter>,
}

/// One entry of an asset's chain-to-identifier mapping.
#[derive(Clone, Debug)]
pub struct AssetMapping {
    pub chain_id: String,
    pub asset_id: String,
}

/// One configured asset and where it lives.
#[derive(Clone, Debug)]
pub struct AssetConfig {
    pub name: String,
    pub native_chain: String,
    pub type_: String,
    pub decimals: u8,
    pub mappings: Vec<AssetMapping>,
}

/// One configured validator and the chains it covers.
#[derive(Clone, Debug)]
pub struct ValidatorConfig {
    pub address: String,
    pub public_key: String,
    pub weight: u64,
    pub chains: Vec<String>,
}

/// The relayer's polling and retry policy.
#[derive(Clone, Copy, Debug)]
pub struct RelayerConfig {
    pub poll_interval: u64,
    pub max_retries: u32,
    pub retry_delay: u64,
}

/// The whole configuration: chains, assets, validators and the relayer policy.
#[derive(Clone, Debug)]
pub struct Config {
    pub chains: Vec<ChainConfig>,
    pub assets: Vec<AssetConfig>,
    pub validators: Vec<ValidatorConfig>,
    pub relayer: RelayerConfig,
}

/// Whether `t` is one of the adapter-type tags the relay supports.
pub open spec fn spec_valid_adapter_type(t: Seq<char>) -> bool {
    t == "sui"@ || t == "rooch"@
}

/// Whether validator `v` covers the chain with id `chain_id`.
pub open spec fn spec_validator_covers(v: ValidatorConfig, chain_id: Seq<char>) -> bool {
    exists|j: int| 0 <= j < v.chains@.len() && v.chains@[j]@ == chain_id
}

impl Config {
    /// Whether some configured chain has id `id`.
    pub open spec fn spec_has_chain(self, id: Seq<char>) -> bool {
        exists|i: int| 0 <= i < self.chains@.len() && self.chains@[i].id@ == id
    }

    /// Whether asset `a` only references configured chains.
    pub open spec fn spec_asset_valid(self, a: AssetConfig) -> bool {
        &&& self.spec_has_chain(a.native_chain@)
        &&& forall|j: int|
            0 <= j < a.mappings@.len() ==> self.spec_has_chain(#[trigger] a.mappings@[j].chain_id@)
    }

    /// Whether validator `v` has a hex-encoded public key and only references
    /// configured chains.
    pub open spec fn spec_validator_valid(self, v: ValidatorConfig) -> bool {
        &&& hex_valid(encode_utf8(v.public_key@))
        &&& forall|j: int| 0 <= j < v.chains@.len() ==> self.spec_has_chain(#[trigger] v.chains@[j]@)
    }

    /// Referential integrity of the whole configuration: unique chain ids,
    /// known adapter types, assets and validators that reference only
    /// configured chains, and a positive polling interval and retry budget.
    pub open spec fn spec_valid(self) -> bool {
        &&& forall|i: int, j: int|
            0 <= i < j < self.chains@.len() ==> (#[trigger] self.chains@[i].id@) != (
            #[trigger] self.chains@[j].id@)
        &&& forall|i: int|
            0 <= i < self.chains@.len() ==> spec_valid_adapter_type(
                #[trigger] self.chains@[i].adapter_type@,
            )
        &&& forall|i: int|
            0 <= i < self.assets@.len() ==> self.spec_asset_valid(#[trigger] self.assets@[i])
        &&& forall|i: int|
            0 <= i < self.validators@.len() ==> self.spec_validator_valid(
                #[trigger] self.validators@[i],
            )
        &&& self.relayer.poll_interval > 0
        &&& self.relayer.max_retries > 0
    }

    fn has_chain_id(&self, id: &str) -> (r: bool)
        ensures
            r == self.spec_has_chain(id@),
    {
        let mut i: usize = 0;
        while i < self.chains.len()
            invariant
                i <= self.chains@.len(),
                forall|k: int| 0 <= k < i ==> self.chains@[k].id@ != id@,
            decreases self.chains@.len() - i,
        {
            if str_eq(self.chains[i].id.as_str(), id) {
                return true;
            }
            i = i + 1;
        }
        false
    }

    fn asset_ok(&self, a: &AssetConfig) -> (r: bool)
        ensures
            r == self.spec_asset_valid(*a),
    {
        if !self.has_chain_id(a.native_chain.as_str()) {
            return false;
        }
        let mut j: usize = 0;
        while j < a.mappings.len()
            invariant
                j <= a.mappings@.len(),
                self.spec_has_chain(a.native_chain@),
                forall|k: int| 0 <= k < j ==> self.spec_has_chain(#[trigger] a.mappings@[k].chain_id@),
            decreases a.mappings@.len() - j,
        {
            if !self.has_chain_id(a.mappings[j].chain_id.as_str()) {
                return false;
            }
            j = j + 1;
        }
        true
    }

    fn validator_ok(&self, v: &ValidatorConfig) -> (r: bool)
        ensures
            r == self.spec_validator_valid(*v),
    {
        if !is_hex_str(v.public_key.as_str()) {
            return false;
        }
        let mut j: usize = 0;
        while j < v.chains.len()
            invariant
                j <= v.chains@.len(),
                hex_valid(encode_utf8(v.public_key@)),
                forall|k: int| 0 <= k < j ==> self.spec_has_chain(#[trigger] v.chains@[k]@),
            decreases v.chains@.len() - j,
        {
            if !self.has_chain_id(v.chains[j].as_str()) {
                return false;
            }
            j = j + 1;
        }
        true
    }

    /// Cross-validates the configuration, failing on the first violation: a
    /// repeated chain id, an unknown adapter type, an asset or validator
    /// referencing an unknown chain, a public key that is not hex, or a zero
    /// polling interval or retry budget.
    pub fn validate(&self) -> (r: Result<(), Error>)
        ensures
            r.is_ok() <==> self.spec_valid(),
            r.is_err() ==> r == Err::<(), Error>(Error::Config),
    {
        let mut i: usize = 0;
        while i < self.chains.len()
            invariant
                i <= self.chains@.len(),
                forall|k1: int, k2: int|
                    0 <= k1 < k2 < i ==> (#[trigger] self.chains@[k1].id@) != (
                    #[trigger] self.chains@[k2].id@),
                forall|k: int|
                    0 <= k < i ==> spec_valid_adapter_type(#[trigger] self.chains@[k].adapter_type@),
            decreases self.chains@.len() - i,
        {
            let t = self.chains[i].adapter_type.as_str();
            if !(str_eq(t, "sui") || str_eq(t, "rooch")) {
                return Err(Error::Config);
            }
            let mut j: usize = 0;
            while j < i
                invariant
                    j <= i < self.chains@.len(),
                    forall|k: int| 0 <= k < j ==> (#[trigger] self.chains@[k].id@) != self.chains@[
                        i as int
                    ].id@,
                decreases i - j,
            {
                if str_eq(self.chains[j].id.as_str(), self.chains[i].id.as_str()) {
                    return Err(Error::Config);
                }
                j = j + 1;
            }
            i = i + 1;
        }
        let mut i: usize = 0;
        while i < self.assets.len()
            invariant
                i <= self.assets@.len(),
                forall|k: int| 0 <= k < i ==> self.spec_asset_valid(#[trigger] self.assets@[k]),
            decreases self.assets@.len() - i,
        {
            if !self.asset_ok(&self.assets[i]) {
                return Err(Error::Config);
            }
            i = i + 1;
        }
        let mut i: usize = 0;
        while i < self.validators.len()
            invariant
                i <= self.validators@.len(),
                forall|k: int|
                    0 <= k < i ==> self.spec_validator_valid(#[trigger] self.validators@[k]),
            decreases self.validators@.len() - i,
        {
            if !self.validator_ok(&self.validators[i]) {
                return Err(Error::Config);
            }
            i = i + 1;
        }
        if self.relayer.poll_interval == 0 {
            return Err(Error::Config);
        }
        if self.relayer.max_retries == 0 {
            return Err(Error::Config);
        }
        Ok(())
    }

    /// Returns the first configured chain whose id is `chain_id`, or nothing
    /// when no configured chain has that id.
    pub fn get_chain_config(&self, chain_id: &str) -> (r: Option<&ChainConfig>)
        ensures
            match r {
                Some(c) => exists|i: int|
                    0 <= i < self.chains@.len() && #[trigger] self.chains@[i] == *c && c.id@
                        == chain_id@ && (forall|k: int|
                        0 <= k < i ==> (#[trigger] self.chains@[k].id@) != chain_id@),
                None => !self.spec_has_chain(chain_id@),
            },
            r.is_some() <==> self.spec_has_chain(chain_id@),
    {
        let mut i: usize = 0;
        while i < self.chains.len()
            invariant
                i <= self.chains@.len(),
                forall|k: int| 0 <= k < i ==> self.chains@[k].id@ != chain_id@,
            decreases self.chains@.len() - i,
        {
            if str_eq(self.chains[i].id.as_str(), chain_id) {
                return Some(&self.chains[i]);
            }
            i = i + 1;
        }
        None
    }

    /// Returns the first configured asset named `asset_name`, or nothing when
    /// no configured asset has that name.
    pub fn get_asset_config(&self, asset_name: &str) -> (r: Option<&AssetConfig>)
        ensures
            match r {
                Some(a) => exists|i: int|
                    0 <= i < self.assets@.len() && self.assets@[i] == *a && a.name@ == asset_name@,
                None => forall|i: int|
                    0 <= i < self.assets@.len() ==> (#[trigger] self.assets@[i].name@) != asset_name@,
            },
    {
        let mut i: usize = 0;
        while i < self.assets.len()
            invariant
                i <= self.assets@.len(),
                forall|k: int| 0 <= k < i ==> (#[trigger] self.assets@[k].name@) != asset_name@,
            decreases self.assets@.len() - i,
        {
            if str_eq(self.assets[i].name.as_str(), asset_name) {
                return Some(&self.assets[i]);
            }
            i = i + 1;
        }
        None
    }

    /// The validators covering the chain with id `chain_id`, in configuration
    /// order.
    pub open spec fn spec_validators_for_chain(self, chain_id: Seq<char>) -> Seq<ValidatorConfig> {
        spec_validators_covering(self.validators@, chain_id)
    }

    /// Returns the validators that cover `chain_id`, in configuration order.
    pub fn get_validators_for_chain(&self, chain_id: &str) -> (r: Vec<&ValidatorConfig>)
        ensures
            r@.len() == self.spec_validators_for_chain(chain_id@).len(),
            forall|k: int|
                0 <= k < r@.len() ==> *(#[trigger] r@[k]) == self.spec_validators_for_chain(
                    chain_id@,
                )[k],
    {
        let mut r: Vec<&ValidatorConfig> = Vec::new();
        let mut i: usize = 0;
        while i < self.validators.len()
            invariant
                i <= self.validators@.len(),
                r@.len() == spec_validators_covering(
                    self.validators@.take(i as int),
                    chain_id@,
                ).len(),
                forall|k: int|
                    0 <= k < r@.len() ==> *(#[trigger] r@[k]) == spec_validators_covering(
                        self.validators@.take(i as int),
                        chain_id@,
                    )[k],
            decreases self.validators@.len() - i,
        {
            let covers = validator_covers(&self.validators[i], chain_id);
            proof {
                let prefix = self.validators@.take(i as int);
                let step = self.validators@.take(i + 1);
                assert(step.drop_last() =~= prefix);
                assert(step.last() == self.validators@[i as int]);
                if spec_validator_covers(self.validators@[i as int], chain_id@) {
                    assert(spec_validators_covering(step, chain_id@) == spec_validators_covering(
                        prefix,
                        chain_id@,
                    ).push(self.validators@[i as int]));
                } else {
                    assert(spec_validators_covering(step, chain_id@) == spec_validators_covering(
                        prefix,
                        chain_id@,
                    ));
                }
            }
            if covers {
                r.push(&self.validators[i]);
            }
            i = i + 1;
        }
        proof {
            assert(self.validators@.take(self.validators@.len() as int) =~= self.validators@);
        }
        r
    }
}

/// The subsequence of `vs` whose validators cover the chain with id
/// `chain_id`, in order.
pub open spec fn spec_validators_covering(vs: Seq<ValidatorConfig>, chain_id: Seq<char>) -> Seq<
    ValidatorConfig,
>
    decreases vs.len(),
{
    if vs.len() == 0 {
        Seq::empty()
    } else {
        let rest = spec_validators_covering(vs.drop_last(), chain_id);
        if spec_validator_covers(vs.last(), chain_id) {
            rest.push(vs.last())
        } else {
            rest
        }
    }
}

fn validator_covers(v: &ValidatorConfig, chain_id: &str) -> (r: bool)
    ensures
        r == spec_validator_covers(*v, chain_id@),
{
    let mut j: usize = 0;
    while j < v.chains.len()
        invariant
            j <= v.chains@.len(),
            forall|k: int| 0 <= k < j ==> (#[trigger] v.chains@[k]@) != chain_id@,
        decreases v.chains@.len() - j,
    {
        if str_eq(v.chains[j].as_str(), chain_id) {
            return true;
        }
        j = j + 1;
    }
    false
}

} // verus!
