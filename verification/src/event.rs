//! The typed replica events the projection consumes: account writes,
//! transactions (with their legacy-or-versioned message union), slot status
//! transitions and block metadata.

use crate::codec::is_identity;
use vstd::prelude::*;

verus! {

/// One account write observed by the replica.
pub struct AccountEvent {
    /// The written account's 32-byte identity.
    pub identity: Vec<u8>,
    /// The 32-byte identity of the account's owning program.
    pub owner: Vec<u8>,
    pub lamports: u64,
    pub executable: bool,
    pub rent_epoch: u64,
    /// The account's data, an opaque byte sequence.
    pub data: Vec<u8>,
    pub write_version: u64,
}

impl AccountEvent {
    /// Identity and owner are always exactly 32 bytes.
    pub open spec fn wf(self) -> bool {
        is_identity(self.identity@) && is_identity(self.owner@)
    }
}

/// The fixed counts at the head of a transaction message.
pub struct MessageHeader {
    pub num_required_signatures: u8,
    pub num_readonly_signed_accounts: u8,
    pub num_readonly_unsigned_accounts: u8,
}

/// One instruction of a transaction message.
pub struct Instruction {
    pub program_id_index: u8,
    /// Indices into the message's account keys, an ordered byte sequence.
    pub account_indices: Vec<u8>,
    /// The instruction's data, an opaque byte sequence.
    pub data: Vec<u8>,
}

/// A legacy-format transaction message.
pub struct LegacyMessage {
    pub header: MessageHeader,
    /// The message's account keys; insertion order is the on-chain index.
    pub account_keys: Vec<Vec<u8>>,
    /// The 32-byte digest of the block this message builds on.
    pub recent_blockhash: Vec<u8>,
    pub instructions: Vec<Instruction>,
}

impl LegacyMessage {
    /// Every account key is a 32-byte identity, and the blockhash a 32-byte
    /// digest.
    pub open spec fn wf(self) -> bool {
        &&& forall|i: int|
            0 <= i < self.account_keys@.len() ==> is_identity(#[trigger] self.account_keys@[i]@)
        &&& self.recent_blockhash@.len() == 32
    }
}

/// The union of transaction message formats. Versioned messages are carried
/// as a variant of their own so that the builder can refuse them loudly
/// instead of mis-encoding them.
pub enum TransactionMessage {
    Legacy(LegacyMessage),
    Versioned,
}

/// One executed transaction observed by the replica.
pub struct TransactionEvent {
    /// The transaction signature in its canonical text form.
    pub signature: String,
    pub is_vote: bool,
    /// The 32-byte hash of the transaction's message.
    pub message_hash: Vec<u8>,
    pub message: TransactionMessage,
}

impl TransactionEvent {
    /// The message hash is a 32-byte digest and the message well-formed.
    pub open spec fn wf(self) -> bool {
        &&& self.message_hash@.len() == 32
        &&& (self.message matches TransactionMessage::Legacy(m) ==> m.wf())
    }
}

/// The commitment a slot has reached.
#[derive(Clone, Copy, Debug, PartialEq, Eq, Structural)]
pub enum SlotStatus {
    Processed,
    Confirmed,
    Rooted,
}

/// The text label of a slot status.
pub open spec fn status_label(s: SlotStatus) -> Seq<char> {
    match s {
        SlotStatus::Processed => "processed"@,
        SlotStatus::Confirmed => "confirmed"@,
        SlotStatus::Rooted => "rooted"@,
    }
}

impl SlotStatus {
    /// The text label of this status.
    pub fn label(&self) -> (r: &'static str)
        ensures
            r@ == status_label(*self),
    {
        match self {
            SlotStatus::Processed => "processed",
            SlotStatus::Confirmed => "confirmed",
            SlotStatus::Rooted => "rooted",
        }
    }
}

/// The class of a block reward.
#[derive(Clone, Copy, Debug, PartialEq, Eq, Structural)]
pub enum RewardType {
    Fee,
    Rent,
    Staking,
    Voting,
}

/// The text label of a reward type.
pub open spec fn reward_type_label(t: RewardType) -> Seq<char> {
    match t {
        RewardType::Fee => "Fee"@,
        RewardType::Rent => "Rent"@,
        RewardType::Staking => "Staking"@,
        RewardType::Voting => "Voting"@,
    }
}

impl RewardType {
    /// The text label of this reward type.
    pub fn label(&self) -> (r: &'static str)
        ensures
            r@ == reward_type_label(*self),
    {
        match self {
            RewardType::Fee => "Fee",
            RewardType::Rent => "Rent",
            RewardType::Staking => "Staking",
            RewardType::Voting => "Voting",
        }
    }
}

/// One reward paid (or burnt, when negative) at the end of a block.
pub struct Reward {
    /// The rewarded account's identity, already in text form.
    pub pubkey: String,
    /// Signed: burns are negative.
    pub lamports: i64,
    pub post_balance: u64,
    pub reward_type: Option<RewardType>,
    /// Commission percentage, when the reward came through a validator.
    pub commission: Option<u8>,
}

/// The metadata of one finalized block.
pub struct BlockMetadataEvent {
    pub slot: u64,
    /// The block's hash, already in text form.
    pub blockhash: String,
    pub rewards: Vec<Reward>,
    /// Unix seconds, when known.
    pub block_time: Option<i64>,
    pub block_height: Option<u64>,
}

} // verus!
