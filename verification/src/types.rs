//! The message model shared by the authenticator and the orchestrator.
//!
//! Messages carry their chains and kind as plain strings, which is what the
//! orchestrator's configuration lookups key on; `ChainType` and `MessageType`
//! enumerate the known tags and give the authenticator its allow-list form.

use vstd::prelude::*;
use vstd::slice::slice_to_vec;

verus! {

/// A chain family known to the relay.
#[derive(Clone, Copy, Debug, PartialEq, Eq, Structural)]
pub enum ChainType {
    Sui,
    Rooch,
}

impl ChainType {
    /// The string tag this chain family goes by in configuration and messages.
    pub open spec fn spec_name(self) -> Seq<char> {
        match self {
            ChainType::Sui => "sui"@,
            ChainType::Rooch => "rooch"@,
        }
    }

    pub fn as_str(&self) -> (r: &'static str)
        ensures
            r@ == self.spec_name(),
    {
        match self {
            ChainType::Sui => "sui",
            ChainType::Rooch => "rooch",
        }
    }
}

/// The kind of a cross-chain message.
#[derive(Clone, Copy, Debug, PartialEq, Eq, Structural)]
pub enum MessageType {
    AssetTransfer,
}

impl MessageType {
    /// The string tag this message kind goes by in messages.
    pub open spec fn spec_name(self) -> Seq<char> {
        match self {
            MessageType::AssetTransfer => "transfer"@,
        }
    }

    pub fn as_str(&self) -> (r: &'static str)
        ensures
            r@ == self.spec_name(),
    {
        match self {
            MessageType::AssetTransfer => "transfer",
        }
    }
}

/// The mathematical value of a `CrossChainMessage`: its fields as sequences.
#[verifier::ext_equal]
pub struct MessageView {
    pub nonce: u64,
    pub source_chain: Seq<char>,
    pub target_chain: Seq<char>,
    pub message_type: Seq<char>,
    pub sender: Seq<u8>,
    pub payload: Seq<u8>,
}

/// A message to be carried from one chain to another.
#[derive(Clone, Debug)]
pub struct CrossChainMessage {
    pub nonce: u64,
    pub source_chain: String,
    pub target_chain: String,
    pub message_type: String,
    pub sender: Vec<u8>,
    pub payload: Vec<u8>,
}

impl View for CrossChainMessage {
    type V = MessageView;

    open spec fn view(&self) -> MessageView {
        MessageView {
            nonce: self.nonce,
            source_chain: self.source_chain@,
            target_chain: self.target_chain@,
            message_type: self.message_type@,
            sender: self.sender@,
            payload: self.payload@,
        }
    }
}

impl CrossChainMessage {
    pub fn new(
        source_chain: ChainType,
        target_chain: ChainType,
        message_type: MessageType,
        nonce: u64,
        sender: [u8; 32],
        payload: Vec<u8>,
    ) -> (r: CrossChainMessage)
        ensures
            r.nonce == nonce,
            r.source_chain@ == source_chain.spec_name(),
            r.target_chain@ == target_chain.spec_name(),
            r.message_type@ == message_type.spec_name(),
            r.sender@ == sender@,
            r.payload == payload,
    {
        CrossChainMessage {
            nonce,
            source_chain: source_chain.as_str().to_owned(),
            target_chain: target_chain.as_str().to_owned(),
            message_type: message_type.as_str().to_owned(),
            sender: slice_to_vec(sender.as_slice()),
            payload,
        }
    }
}

/// Copies a message field by field; the copy has the same view.
pub fn clone_message(m: &CrossChainMessage) -> (r: CrossChainMessage)
    ensures
        r@ == m@,
{
    let r = CrossChainMessage {
        nonce: m.nonce,
        source_chain: m.source_chain.clone(),
        target_chain: m.target_chain.clone(),
        message_type: m.message_type.clone(),
        sender: slice_to_vec(m.sender.as_slice()),
        payload: slice_to_vec(m.payload.as_slice()),
    };
    proof {
        assert(r@ =~= m@);
    }
    r
}

/// A message together with its signature and the time it was signed.
#[derive(Clone, Debug)]
pub struct SignedMessage {
    pub message: CrossChainMessage,
    pub signature: Vec<u8>,
    pub timestamp: u64,
}

impl SignedMessage {
    pub fn new(message: CrossChainMessage, signature: Vec<u8>, timestamp: u64) -> (r: SignedMessage)
        ensures
            r.message == message,
            r.signature == signature,
            r.timestamp == timestamp,
    {
        SignedMessage { message, signature, timestamp }
    }
}

/// The state of a message as reported by a target chain.
#[derive(Clone, Copy, Debug, PartialEq, Eq, Structural)]
pub enum MessageStatus {
    Pending,
    Processed,
    Failed,
}

} // verus!
