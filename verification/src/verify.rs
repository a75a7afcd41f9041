//! The message authenticator: holds an Ed25519 keypair and a policy, signs
//! outgoing messages and verifies incoming ones under a strictly increasing
//! nonce watermark and an expiry window.
//!
//! The cryptography itself is done by outside code: Blake2b-512 hashes the
//! canonical message encoding, and Ed25519 signs and checks the hash. Their
//! results are named by uninterpreted functions; everything around them —
//! policy checks, nonce ordering, expiry, and the shape of what is signed —
//! is verified.

use vstd::prelude::*;

use blake2::Digest;
use ed25519_dalek::Signer;
use ed25519_dalek::Verifier;

verus! {

use crate::Error;
use crate::codec::encode_message;
use crate::codec::encoding_of;
use crate::codec::str_eq;
use crate::types::ChainType;
use crate::types::CrossChainMessage;
use crate::types::MessageView;
use crate::types::SignedMessage;

/// The widest age, in seconds, at which a signed message still verifies.
pub const MAX_MESSAGE_AGE: u64 = 3600;

/// The smallest nonce a message may carry.
pub const MIN_NONCE: u64 = 1;

/// The public key derived from a 32-byte Ed25519 secret key.
pub uninterp spec fn ed_pubkey(sk: Seq<u8>) -> Seq<u8>;

/// The Ed25519 signature of `msg` under the secret key `sk`.
pub uninterp spec fn ed_sig(sk: Seq<u8>, msg: Seq<u8>) -> Seq<u8>;

/// Whether `sig` is a valid Ed25519 signature of `msg` under the public key
/// `pk`.
pub uninterp spec fn ed_verify(pk: Seq<u8>, msg: Seq<u8>, sig: Seq<u8>) -> bool;

/// The Blake2b-512 digest of `bytes`.
pub uninterp spec fn blake2b_of(bytes: Seq<u8>) -> Seq<u8>;

/// Relies on `ed25519_dalek::Keypair::generate` with the operating system's
/// random number generator: a fresh secret key of 32 bytes. Nothing else can
/// be said of a random result.
#[verifier::external_body]
fn generate_secret_key() -> (r: Vec<u8>)
    ensures
        r@.len() == 32,
{
    let mut csprng = rand::rngs::OsRng {};
    let keypair = ed25519_dalek::Keypair::generate(&mut csprng);
    keypair.secret.to_bytes().to_vec()
}

/// Relies on `ed25519_dalek::SecretKey::from_bytes` (total on 32 bytes) and
/// `ed25519_dalek::PublicKey::from(&SecretKey)`: the public key is 32 bytes
/// and a function of the secret key bytes alone.
#[verifier::external_body]
fn derive_public_key(sk: &Vec<u8>) -> (r: Vec<u8>)
    requires
        sk@.len() == 32,
    ensures
        r@ == ed_pubkey(sk@),
        r@.len() == 32,
{
    let secret = ed25519_dalek::SecretKey::from_bytes(sk.as_slice()).unwrap();
    ed25519_dalek::PublicKey::from(&secret).to_bytes().to_vec()
}

/// Relies on `ed25519_dalek::Keypair::sign` (RFC 8032 Ed25519): the signature
/// is 64 bytes, deterministic in the secret key and message, and valid for
/// that message under the derived public key. Its scalar half is reduced
/// modulo the group order, which is below two to the 253rd power, so the top
/// three bits of the last byte are unset.
#[verifier::external_body]
fn ed25519_sign(sk: &Vec<u8>, msg: &Vec<u8>) -> (r: Vec<u8>)
    requires
        sk@.len() == 32,
    ensures
        r@ == ed_sig(sk@, msg@),
        spec_signature_wellformed(r@),
        ed_verify(ed_pubkey(sk@), msg@, r@),
{
    let secret = ed25519_dalek::SecretKey::from_bytes(sk.as_slice()).unwrap();
    let public = ed25519_dalek::PublicKey::from(&secret);
    let keypair = ed25519_dalek::Keypair { secret, public };
    keypair.sign(msg.as_slice()).to_bytes().to_vec()
}

/// Relies on `ed25519_dalek::PublicKey::verify`: it accepts or rejects as a
/// function of the key, message and signature bytes alone. A key or signature
/// that does not parse never verifies.
#[verifier::external_body]
fn ed25519_check(pk: &Vec<u8>, msg: &Vec<u8>, sig: &Vec<u8>) -> (r: bool)
    ensures
        r == ed_verify(pk@, msg@, sig@),
{
    let public = match ed25519_dalek::PublicKey::from_bytes(pk.as_slice()) {
        Ok(p) => p,
        Err(_) => return false,
    };
    let signature = match ed25519_dalek::Signature::from_bytes(sig.as_slice()) {
        Ok(s) => s,
        Err(_) => return false,
    };
    public.verify(msg.as_slice(), &signature).is_ok()
}

/// Relies on `blake2::Blake2b512`: a 64-byte digest that is a function of the
/// input bytes alone.
#[verifier::external_body]
fn blake2b512(bytes: &Vec<u8>) -> (r: Vec<u8>)
    ensures
        r@ == blake2b_of(bytes@),
        r@.len() == 64,
{
    let mut hasher = blake2::Blake2b512::new();
    hasher.update(bytes.as_slice());
    hasher.finalize().to_vec()
}

/// Relies on `std::time::SystemTime::now`: the clock's seconds since the Unix
/// epoch, or zero before it. The result depends on the machine's clock, so
/// nothing is promised of it.
#[verifier::external_body]
pub fn current_unix_time() -> (r: u64) {
    match std::time::SystemTime::now().duration_since(std::time::UNIX_EPOCH) {
        Ok(d) => d.as_secs(),
        Err(_) => 0,
    }
}

/// The hash that gets signed: Blake2b-512 over the canonical encoding.
pub open spec fn spec_message_hash(m: MessageView) -> Seq<u8> {
    blake2b_of(encoding_of(m))
}

/// Whether `chain` is the tag of one of the chain families in `allowed`.
pub open spec fn spec_chain_allowed(allowed: Seq<ChainType>, chain: Seq<char>) -> bool {
    exists|i: int| 0 <= i < allowed.len() && allowed[i].spec_name() == chain
}

/// Whether the policy `config` accepts `m` when the watermark stands at
/// `watermark`: both chains allowed, and the nonce at least `MIN_NONCE` and
/// above the watermark.
pub open spec fn spec_props_ok_at(config: VerifierConfig, watermark: u64, m: MessageView) -> bool {
    &&& spec_chain_allowed(config.allowed_source_chains@, m.source_chain)
    &&& spec_chain_allowed(config.allowed_target_chains@, m.target_chain)
    &&& m.nonce > watermark
    &&& m.nonce >= MIN_NONCE
}

/// Whether a message signed at `timestamp` is still fresh at `now`: not from
/// the future, and aged at most `max_age` seconds.
pub open spec fn spec_fresh(max_age: u64, timestamp: u64, now: u64) -> bool {
    timestamp <= now && now - timestamp <= max_age
}

/// Whether `sig` has the shape of an Ed25519 signature: 64 bytes whose
/// scalar half is at least partially reduced (the top three bits of the last
/// byte unset). Anything else is rejected as malformed before the
/// cryptographic check.
pub open spec fn spec_signature_wellformed(sig: Seq<u8>) -> bool {
    sig.len() == 64 && sig[63] & 0xe0 == 0
}

/// The authenticator's policy: an expiry window and the chain families it
/// accepts as sources and targets.
#[derive(Clone, Debug)]
pub struct VerifierConfig {
    pub max_message_age: u64,
    pub allowed_source_chains: Vec<ChainType>,
    pub allowed_target_chains: Vec<ChainType>,
}

impl Default for VerifierConfig {
    /// A one-hour expiry window, with every known chain family allowed on
    /// both sides.
    fn default() -> (r: VerifierConfig)
        ensures
            r.max_message_age == MAX_MESSAGE_AGE,
            r.allowed_source_chains@ == seq![ChainType::Sui, ChainType::Rooch],
            r.allowed_target_chains@ == seq![ChainType::Sui, ChainType::Rooch],
    {
        let mut sources: Vec<ChainType> = Vec::new();
        sources.push(ChainType::Sui);
        sources.push(ChainType::Rooch);
        let mut targets: Vec<ChainType> = Vec::new();
        targets.push(ChainType::Sui);
        targets.push(ChainType::Rooch);
        proof {
            assert(sources@ =~= seq![ChainType::Sui, ChainType::Rooch]);
            assert(targets@ =~= seq![ChainType::Sui, ChainType::Rooch]);
        }
        VerifierConfig { max_message_age: MAX_MESSAGE_AGE, allowed_source_chains: sources, allowed_target_chains: targets }
    }
}

fn chain_listed(list: &Vec<ChainType>, chain: &str) -> (r: bool)
    ensures
        r == spec_chain_allowed(list@, chain@),
{
    let mut i: usize = 0;
    while i < list.len()
        invariant
            i <= list@.len(),
            forall|k: int| 0 <= k < i ==> (#[trigger] list@[k].spec_name()) != chain@,
        decreases list@.len() - i,
    {
        let ct = list[i];
        if str_eq(ct.as_str(), chain) {
            return true;
        }
        i = i + 1;
    }
    false
}

/// Signs messages and verifies them in nonce order under an expiry window.
pub struct MessageVerifier {
    secret_key: Vec<u8>,
    public_bytes: Vec<u8>,
    config: VerifierConfig,
    last_processed_nonce: u64,
}

impl MessageVerifier {
    /// The held secret key.
    pub closed spec fn spec_secret_key(self) -> Seq<u8> {
        self.secret_key@
    }

    /// The held public key.
    pub closed spec fn spec_public_key(self) -> Seq<u8> {
        self.public_bytes@
    }

    /// The held policy.
    pub closed spec fn spec_config(self) -> VerifierConfig {
        self.config
    }

    /// The highest nonce verified so far.
    pub closed spec fn spec_watermark(self) -> u64 {
        self.last_processed_nonce
    }

    /// The keypair is coherent: 32 secret bytes, with the public key derived
    /// from them.
    #[verifier::type_invariant]
    closed spec fn wf(self) -> bool {
        &&& self.secret_key@.len() == 32
        &&& self.public_bytes@ == ed_pubkey(self.secret_key@)
        &&& self.public_bytes@.len() == 32
    }

    /// Whether the authenticator accepts `m`'s chains and nonce: both chains
    /// allowed by the policy, and the nonce at least `MIN_NONCE` and above
    /// the watermark.
    pub open spec fn spec_props_ok(self, m: MessageView) -> bool {
        spec_props_ok_at(self.spec_config(), self.spec_watermark(), m)
    }

    /// Creates an authenticator with a fresh random keypair, the default
    /// policy, and a zero watermark.
    pub fn new() -> (r: MessageVerifier)
        ensures
            r.spec_watermark() == 0,
            r.spec_config().max_message_age == MAX_MESSAGE_AGE,
            r.spec_config().allowed_source_chains@ == seq![ChainType::Sui, ChainType::Rooch],
            r.spec_config().allowed_target_chains@ == seq![ChainType::Sui, ChainType::Rooch],
            r.spec_public_key() == ed_pubkey(r.spec_secret_key()),
    {
        let secret_key = generate_secret_key();
        let public_bytes = derive_public_key(&secret_key);
        MessageVerifier {
            secret_key,
            public_bytes,
            config: VerifierConfig::default(),
            last_processed_nonce: 0,
        }
    }

    /// Creates an authenticator from an existing 32-byte secret key and an
    /// optional policy; any other key length is rejected.
    pub fn from_keypair(secret_key: &[u8], config: Option<VerifierConfig>) -> (r: Result<
        MessageVerifier,
        Error,
    >)
        ensures
            r.is_ok() <==> secret_key@.len() == 32,
            r matches Ok(v) ==> {
                &&& v.spec_secret_key() == secret_key@
                &&& v.spec_public_key() == ed_pubkey(secret_key@)
                &&& v.spec_watermark() == 0
                &&& (config matches Some(c) ==> v.spec_config() == c)
                &&& (config is None ==> v.spec_config().max_message_age == MAX_MESSAGE_AGE)
                &&& (config is None ==> v.spec_config().allowed_source_chains@ == seq![
                    ChainType::Sui,
                    ChainType::Rooch,
                ])
                &&& (config is None ==> v.spec_config().allowed_target_chains@ == seq![
                    ChainType::Sui,
                    ChainType::Rooch,
                ])
            },
            r.is_err() ==> r == Err::<MessageVerifier, Error>(Error::Validation),
    {
        if secret_key.len() != 32 {
            return Err(Error::Validation);
        }
        let sk = vstd::slice::slice_to_vec(secret_key);
        let public_bytes = derive_public_key(&sk);
        let config = match config {
            Some(c) => c,
            None => VerifierConfig::default(),
        };
        Ok(MessageVerifier { secret_key: sk, public_bytes, config, last_processed_nonce: 0 })
    }

    /// The held public key, as 32 bytes.
    pub fn public_key(&self) -> (r: [u8; 32])
        ensures
            r@ == self.spec_public_key(),
    {
        proof {
            use_type_invariant(self);
        }
        to_array_32(&self.public_bytes)
    }

    fn validate_message_properties(&self, message: &CrossChainMessage) -> (r: Result<(), Error>)
        ensures
            r.is_ok() <==> self.spec_props_ok(message@),
            r.is_err() ==> r == Err::<(), Error>(Error::Validation),
    {
        if !chain_listed(&self.config.allowed_source_chains, message.source_chain.as_str()) {
            return Err(Error::Validation);
        }
        if !chain_listed(&self.config.allowed_target_chains, message.target_chain.as_str()) {
            return Err(Error::Validation);
        }
        if message.nonce <= self.last_processed_nonce || message.nonce < MIN_NONCE {
            return Err(Error::Validation);
        }
        Ok(())
    }

    /// Signs `message` as of time `now`: rejects a disallowed chain or a
    /// stale nonce, otherwise hashes the canonical encoding, signs the hash,
    /// and bundles message, signature and `now`. Signing never advances the
    /// watermark.
    pub fn sign_message_at(&self, message: CrossChainMessage, now: u64) -> (r: Result<
        SignedMessage,
        Error,
    >)
        ensures
            r.is_ok() <==> self.spec_props_ok(message@),
            r matches Ok(sm) ==> {
                &&& sm.message@ == message@
                &&& sm.timestamp == now
                &&& sm.signature@ == ed_sig(self.spec_secret_key(), spec_message_hash(message@))
                &&& spec_signature_wellformed(sm.signature@)
                &&& ed_verify(self.spec_public_key(), spec_message_hash(message@), sm.signature@)
            },
            r.is_err() ==> r == Err::<SignedMessage, Error>(Error::Validation),
    {
        proof {
            use_type_invariant(self);
        }
        match self.validate_message_properties(&message) {
            Err(e) => {
                return Err(e);
            },
            Ok(_) => {},
        }
        let encoded = encode_message(&message);
        let hash = blake2b512(&encoded);
        let signature = ed25519_sign(&self.secret_key, &hash);
        Ok(SignedMessage::new(message, signature, now))
    }

    /// Signs `message` with the current time as its timestamp.
    pub fn sign_message(&self, message: CrossChainMessage) -> (r: Result<SignedMessage, Error>)
        ensures
            r.is_ok() <==> self.spec_props_ok(message@),
            r matches Ok(sm) ==> {
                &&& sm.message@ == message@
                &&& sm.signature@ == ed_sig(self.spec_secret_key(), spec_message_hash(message@))
                &&& spec_signature_wellformed(sm.signature@)
                &&& ed_verify(self.spec_public_key(), spec_message_hash(message@), sm.signature@)
            },
            r.is_err() ==> r == Err::<SignedMessage, Error>(Error::Validation),
    {
        let now = current_unix_time();
        self.sign_message_at(message, now)
    }

    /// Signs each message in order, one outcome per input, with no early
    /// termination.
    pub fn sign_messages(&self, messages: Vec<CrossChainMessage>) -> (r: Vec<
        Result<SignedMessage, Error>,
    >)
        ensures
            r@.len() == messages@.len(),
            forall|i: int|
                0 <= i < r@.len() ==> ((#[trigger] r@[i]).is_ok() <==> self.spec_props_ok(
                    messages@[i]@,
                )),
            forall|i: int|
                0 <= i < r@.len() ==> ((#[trigger] r@[i]).is_err() ==> r@[i] == Err::<
                    SignedMessage,
                    Error,
                >(Error::Validation)),
            forall|i: int|
                0 <= i < r@.len() ==> ((#[trigger] r@[i]) matches Ok(sm) ==> sm.message@
                    == messages@[i]@ && sm.signature@ == ed_sig(
                    self.spec_secret_key(),
                    spec_message_hash(messages@[i]@),
                )),
    {
        let mut out: Vec<Result<SignedMessage, Error>> = Vec::new();
        let mut i: usize = 0;
        while i < messages.len()
            invariant
                i <= messages@.len(),
                out@.len() == i,
                forall|k: int|
                    0 <= k < i ==> ((#[trigger] out@[k]).is_ok() <==> self.spec_props_ok(
                        messages@[k]@,
                    )),
                forall|k: int|
                    0 <= k < i ==> ((#[trigger] out@[k]).is_err() ==> out@[k] == Err::<
                        SignedMessage,
                        Error,
                    >(Error::Validation)),
                forall|k: int|
                    0 <= k < i ==> ((#[trigger] out@[k]) matches Ok(sm) ==> sm.message@
                        == messages@[k]@ && sm.signature@ == ed_sig(
                        self.spec_secret_key(),
                        spec_message_hash(messages@[k]@),
                    )),
            decreases messages@.len() - i,
        {
            let msg = crate::types::clone_message(&messages[i]);
            out.push(self.sign_message(msg));
            i = i + 1;
        }
        out
    }

    /// Verifies `signed_message` as of time `now`. A message that is not
    /// fresh verifies false; a disallowed chain, a stale nonce or a malformed
    /// signature is an error; a signature mismatch verifies false; and only a
    /// successful verification advances the watermark, to the message's
    /// nonce.
    pub fn verify_message_at(&mut self, signed_message: &SignedMessage, now: u64) -> (r: Result<
        bool,
        Error,
    >)
        ensures
            final(self).spec_watermark() >= old(self).spec_watermark(),
            final(self).spec_secret_key() == old(self).spec_secret_key(),
            final(self).spec_public_key() == old(self).spec_public_key(),
            final(self).spec_config() == old(self).spec_config(),
            ({
                let fresh = spec_fresh(
                    old(self).spec_config().max_message_age,
                    signed_message.timestamp,
                    now,
                );
                let props = old(self).spec_props_ok(signed_message.message@);
                let wellformed = spec_signature_wellformed(signed_message.signature@);
                let valid = ed_verify(
                    old(self).spec_public_key(),
                    spec_message_hash(signed_message.message@),
                    signed_message.signature@,
                );
                &&& (!fresh ==> r == Ok::<bool, Error>(false)
                    && final(self).spec_watermark() == old(self).spec_watermark())
                &&& (fresh && !props ==> r == Err::<bool, Error>(Error::Validation)
                    && final(self).spec_watermark() == old(self).spec_watermark())
                &&& (fresh && props && !wellformed ==> r == Err::<bool, Error>(Error::Validation)
                    && final(self).spec_watermark() == old(self).spec_watermark())
                &&& (fresh && props && wellformed && valid ==> r == Ok::<bool, Error>(true)
                    && final(self).spec_watermark() == signed_message.message.nonce)
                &&& (fresh && props && wellformed && !valid ==> r == Ok::<bool, Error>(false)
                    && final(self).spec_watermark() == old(self).spec_watermark())
            }),
    {
        proof {
            use_type_invariant(&*self);
        }
        if signed_message.timestamp > now {
            return Ok(false);
        }
        if now - signed_message.timestamp > self.config.max_message_age {
            return Ok(false);
        }
        match self.validate_message_properties(&signed_message.message) {
            Err(e) => {
                return Err(e);
            },
            Ok(_) => {},
        }
        if signed_message.signature.len() != 64 {
            return Err(Error::Validation);
        }
        if signed_message.signature[63] & 0xe0 != 0 {
            return Err(Error::Validation);
        }
        let encoded = encode_message(&signed_message.message);
        let hash = blake2b512(&encoded);
        if ed25519_check(&self.public_bytes, &hash, &signed_message.signature) {
            self.last_processed_nonce = signed_message.message.nonce;
            Ok(true)
        } else {
            Ok(false)
        }
    }

    /// Verifies `signed_message` against the current time.
    pub fn verify_message(&mut self, signed_message: &SignedMessage) -> (r: Result<bool, Error>)
        ensures
            final(self).spec_watermark() >= old(self).spec_watermark(),
            final(self).spec_secret_key() == old(self).spec_secret_key(),
            final(self).spec_public_key() == old(self).spec_public_key(),
            final(self).spec_config() == old(self).spec_config(),
            r.is_err() ==> r == Err::<bool, Error>(Error::Validation)
                && !(old(self).spec_props_ok(signed_message.message@)
                && spec_signature_wellformed(signed_message.signature@))
                && final(self).spec_watermark() == old(self).spec_watermark(),
            r == Ok::<bool, Error>(true) ==> old(self).spec_props_ok(signed_message.message@)
                && spec_signature_wellformed(signed_message.signature@) && ed_verify(
                old(self).spec_public_key(),
                spec_message_hash(signed_message.message@),
                signed_message.signature@,
            ) && final(self).spec_watermark() == signed_message.message.nonce,
            r == Ok::<bool, Error>(false) ==> final(self).spec_watermark()
                == old(self).spec_watermark(),
    {
        let now = current_unix_time();
        self.verify_message_at(signed_message, now)
    }

    /// Verifies each signed message in order against the current time, one
    /// outcome per input, with no early termination and no rollback of prior
    /// successes: each element is judged against the watermark left by the
    /// elements before it, and each `Ok(true)` moves that watermark to its
    /// message's nonce.
    pub fn verify_messages(&mut self, messages: Vec<SignedMessage>) -> (r: Vec<Result<bool, Error>>)
        ensures
            r@.len() == messages@.len(),
            final(self).spec_watermark() == spec_watermark_after(
                old(self).spec_watermark(),
                messages@,
                r@,
                r@.len() as int,
            ),
            final(self).spec_watermark() >= old(self).spec_watermark(),
            final(self).spec_secret_key() == old(self).spec_secret_key(),
            final(self).spec_public_key() == old(self).spec_public_key(),
            final(self).spec_config() == old(self).spec_config(),
            forall|i: int|
                0 <= i < r@.len() ==> ((#[trigger] r@[i]).is_err() ==> r@[i] == Err::<bool, Error>(
                    Error::Validation,
                ) && !(spec_props_ok_at(
                    old(self).spec_config(),
                    spec_watermark_after(old(self).spec_watermark(), messages@, r@, i),
                    messages@[i].message@,
                ) && spec_signature_wellformed(messages@[i].signature@))),
            forall|i: int|
                0 <= i < r@.len() ==> ((#[trigger] r@[i]) == Ok::<bool, Error>(true)
                    ==> spec_props_ok_at(
                    old(self).spec_config(),
                    spec_watermark_after(old(self).spec_watermark(), messages@, r@, i),
                    messages@[i].message@,
                ) && spec_signature_wellformed(messages@[i].signature@) && ed_verify(
                    old(self).spec_public_key(),
                    spec_message_hash(messages@[i].message@),
                    messages@[i].signature@,
                )),
    {
        let ghost start = self.spec_watermark();
        let mut out: Vec<Result<bool, Error>> = Vec::new();
        let mut i: usize = 0;
        while i < messages.len()
            invariant
                i <= messages@.len(),
                out@.len() == i,
                self.spec_watermark() == spec_watermark_after(start, messages@, out@, i as int),
                self.spec_watermark() >= old(self).spec_watermark(),
                start == old(self).spec_watermark(),
                self.spec_secret_key() == old(self).spec_secret_key(),
                self.spec_public_key() == old(self).spec_public_key(),
                self.spec_config() == old(self).spec_config(),
                forall|k: int|
                    0 <= k < i ==> ((#[trigger] out@[k]).is_err() ==> out@[k] == Err::<bool, Error>(
                        Error::Validation,
                    ) && !(spec_props_ok_at(
                        old(self).spec_config(),
                        spec_watermark_after(start, messages@, out@, k),
                        messages@[k].message@,
                    ) && spec_signature_wellformed(messages@[k].signature@))),
                forall|k: int|
                    0 <= k < i ==> ((#[trigger] out@[k]) == Ok::<bool, Error>(true)
                        ==> spec_props_ok_at(
                        old(self).spec_config(),
                        spec_watermark_after(start, messages@, out@, k),
                        messages@[k].message@,
                    ) && spec_signature_wellformed(messages@[k].signature@) && ed_verify(
                        old(self).spec_public_key(),
                        spec_message_hash(messages@[k].message@),
                        messages@[k].signature@,
                    )),
            decreases messages@.len() - i,
        {
            let ghost out_before = out@;
            let ghost pre_watermark = self.spec_watermark();
            let res = self.verify_message(&messages[i]);
            out.push(res);
            i = i + 1;
            proof {
                assert(out@ == out_before.push(res));
                assert(out@[i - 1] == res);
                assert forall|k: int| 0 <= k < i implies spec_watermark_after(
                    start,
                    messages@,
                    out@,
                    k,
                ) == spec_watermark_after(start, messages@, out_before, k) by {
                    lemma_watermark_after_prefix(start, messages@, out@, out_before, k);
                }
                assert(pre_watermark == spec_watermark_after(start, messages@, out_before, i - 1));
                match res {
                    Ok(true) => {
                        assert(self.spec_watermark() == messages@[i - 1].message.nonce);
                    },
                    Ok(false) => {
                        assert(res == Ok::<bool, Error>(false));
                        assert(self.spec_watermark() == pre_watermark);
                    },
                    Err(_) => {
                        assert(self.spec_watermark() == pre_watermark);
                    },
                }
                assert(spec_watermark_after(start, messages@, out@, i as int) == (if out@[i - 1]
                    == Ok::<bool, Error>(true) {
                    messages@[i - 1].message.nonce
                } else {
                    spec_watermark_after(start, messages@, out@, i - 1)
                }));
            }
        }
        out
    }

    /// A copy of the held policy.
    pub fn export_config(&self) -> (r: VerifierConfig)
        ensures
            r.max_message_age == self.spec_config().max_message_age,
            r.allowed_source_chains@ == self.spec_config().allowed_source_chains@,
            r.allowed_target_chains@ == self.spec_config().allowed_target_chains@,
    {
        VerifierConfig {
            max_message_age: self.config.max_message_age,
            allowed_source_chains: copy_chain_list(&self.config.allowed_source_chains),
            allowed_target_chains: copy_chain_list(&self.config.allowed_target_chains),
        }
    }

    /// Replaces the held policy.
    pub fn update_config(&mut self, config: VerifierConfig)
        ensures
            final(self).spec_config() == config,
            final(self).spec_secret_key() == old(self).spec_secret_key(),
            final(self).spec_public_key() == old(self).spec_public_key(),
            final(self).spec_watermark() == old(self).spec_watermark(),
    {
        proof {
            use_type_invariant(&*self);
        }
        self.config = config;
    }
}

/// The watermark standing before element `i` of a batch verification that
/// started at `start` and produced `results`: each earlier `Ok(true)`
/// outcome moved it to that message's nonce.
pub open spec fn spec_watermark_after(
    start: u64,
    msgs: Seq<SignedMessage>,
    results: Seq<Result<bool, Error>>,
    i: int,
) -> u64
    decreases i,
{
    if i <= 0 {
        start
    } else if results[i - 1] == Ok::<bool, Error>(true) {
        msgs[i - 1].message.nonce
    } else {
        spec_watermark_after(start, msgs, results, i - 1)
    }
}

proof fn lemma_watermark_after_prefix(
    start: u64,
    msgs: Seq<SignedMessage>,
    r1: Seq<Result<bool, Error>>,
    r2: Seq<Result<bool, Error>>,
    i: int,
)
    requires
        0 <= i,
        forall|k: int| 0 <= k < i ==> r1[k] == r2[k],
    ensures
        spec_watermark_after(start, msgs, r1, i) == spec_watermark_after(start, msgs, r2, i),
    decreases i,
{
    if i > 0 {
        lemma_watermark_after_prefix(start, msgs, r1, r2, i - 1);
    }
}

/// Signing a message the authenticator accepts and immediately verifying it
/// at the same time succeeds and advances the watermark to that message's
/// nonce: the round-trip law.
pub fn sign_and_verify(v: &mut MessageVerifier, message: CrossChainMessage, now: u64) -> (ok: bool)
    requires
        old(v).spec_props_ok(message@),
    ensures
        ok,
        final(v).spec_watermark() == message@.nonce,
        final(v).spec_secret_key() == old(v).spec_secret_key(),
        final(v).spec_public_key() == old(v).spec_public_key(),
        final(v).spec_config() == old(v).spec_config(),
{
    let signed = match v.sign_message_at(message, now) {
        Ok(sm) => sm,
        Err(_) => {
            return vstd::pervasive::unreached();
        },
    };
    let outcome = v.verify_message_at(&signed, now);
    match outcome {
        Ok(b) => b,
        Err(_) => vstd::pervasive::unreached(),
    }
}

fn copy_chain_list(v: &Vec<ChainType>) -> (r: Vec<ChainType>)
    ensures
        r@ == v@,
{
    let mut r: Vec<ChainType> = Vec::new();
    let mut i: usize = 0;
    while i < v.len()
        invariant
            i <= v@.len(),
            r@ == v@.take(i as int),
        decreases v@.len() - i,
    {
        r.push(v[i]);
        proof {
            assert(v@.take(i + 1) =~= v@.take(i as int).push(v@[i as int]));
        }
        i = i + 1;
    }
    proof {
        assert(v@.take(v@.len() as int) =~= v@);
    }
    r
}

/// Relies on the standard library's `copy_from_slice` for `[u8]`: a plain
/// copy of the 32 bytes into an array.
#[verifier::external_body]
fn to_array_32(v: &Vec<u8>) -> (r: [u8; 32])
    requires
        v@.len() == 32,
    ensures
        r@ == v@,
{
    let mut out = [0u8; 32];
    out.copy_from_slice(v.as_slice());
    out
}

} // verus!
