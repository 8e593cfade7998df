//! Blocks and the payloads they carry.
use vstd::prelude::*;

use crate::types::{Digest, MilestoneIndex, Output, OutputId};

verus! {

/// An input of a transaction.
#[derive(Clone, Copy, Debug, PartialEq, Eq, Structural)]
pub enum Input {
    /// Spends the output with this id.
    Utxo(OutputId),
    /// Spends the treasury of the milestone with this id.
    Treasury(Digest),
}

/// The essence of a transaction: what it consumes and what it creates.
#[derive(Clone, Debug)]
pub enum TransactionEssence {
    Regular { inputs: Vec<Input>, outputs: Vec<Output> },
}

#[derive(Clone, Debug)]
pub struct TransactionPayload {
    pub transaction_id: Digest,
    pub essence: TransactionEssence,
}

#[derive(Clone, Debug)]
pub struct MilestonePayload {
    pub milestone_id: Digest,
    pub index: MilestoneIndex,
    pub timestamp: u32,
}

#[derive(Clone, Debug)]
pub struct TreasuryTransactionPayload {
    pub input_milestone_id: Digest,
    pub output_amount: u64,
}

#[derive(Clone, Debug)]
pub struct TaggedDataPayload {
    pub tag: Vec<u8>,
    pub data: Vec<u8>,
}

/// The payload that a block may carry.
#[derive(Clone, Debug)]
pub enum Payload {
    Transaction(Box<TransactionPayload>),
    Milestone(Box<MilestonePayload>),
    TreasuryTransaction(Box<TreasuryTransactionPayload>),
    TaggedData(Box<TaggedDataPayload>),
}

/// The name of each kind of payload.
pub open spec fn payload_kind_name(p: Payload) -> Seq<char> {
    match p {
        Payload::Transaction(_) => "transaction"@,
        Payload::Milestone(_) => "milestone"@,
        Payload::TreasuryTransaction(_) => "treasury_transaction"@,
        Payload::TaggedData(_) => "tagged_data"@,
    }
}

/// A payload was asked for as one kind but is of another.
#[derive(Clone, Copy, Debug)]
pub struct WrongPayloadError {
    pub expected: &'static str,
    pub found: &'static str,
}

impl Payload {
    /// The name of the payload's kind.
    pub fn kind(&self) -> (r: &'static str)
        ensures
            r@ == payload_kind_name(*self),
    {
        match self {
            Payload::Transaction(_) => "transaction",
            Payload::Milestone(_) => "milestone",
            Payload::TreasuryTransaction(_) => "treasury_transaction",
            Payload::TaggedData(_) => "tagged_data",
        }
    }

    /// The transaction payload, or an error naming the kind that was found instead.
    pub fn into_transaction(self) -> (r: Result<TransactionPayload, WrongPayloadError>)
        ensures
            match self {
                Payload::Transaction(p) => r == Ok::<TransactionPayload, WrongPayloadError>(*p),
                _ => r matches Err(e) && e.expected@ == "transaction"@ && e.found@
                    == payload_kind_name(self),
            },
    {
        match self {
            Payload::Transaction(p) => Ok(*p),
            _ => Err(WrongPayloadError { expected: "transaction", found: self.kind() }),
        }
    }

    /// The milestone payload, or an error naming the kind that was found instead.
    pub fn into_milestone(self) -> (r: Result<MilestonePayload, WrongPayloadError>)
        ensures
            match self {
                Payload::Milestone(p) => r == Ok::<MilestonePayload, WrongPayloadError>(*p),
                _ => r matches Err(e) && e.expected@ == "milestone"@ && e.found@
                    == payload_kind_name(self),
            },
    {
        match self {
            Payload::Milestone(p) => Ok(*p),
            _ => Err(WrongPayloadError { expected: "milestone", found: self.kind() }),
        }
    }

    /// The treasury transaction payload, or an error naming the kind that was found instead.
    pub fn into_treasury_transaction(self) -> (r: Result<TreasuryTransactionPayload, WrongPayloadError>)
        ensures
            match self {
                Payload::TreasuryTransaction(p) => r == Ok::<
                    TreasuryTransactionPayload,
                    WrongPayloadError,
                >(*p),
                _ => r matches Err(e) && e.expected@ == "treasury_transaction"@ && e.found@
                    == payload_kind_name(self),
            },
    {
        match self {
            Payload::TreasuryTransaction(p) => Ok(*p),
            _ => Err(WrongPayloadError { expected: "treasury_transaction", found: self.kind() }),
        }
    }

    /// The tagged data payload, or an error naming the kind that was found instead.
    pub fn into_tagged_data(self) -> (r: Result<TaggedDataPayload, WrongPayloadError>)
        ensures
            match self {
                Payload::TaggedData(p) => r == Ok::<TaggedDataPayload, WrongPayloadError>(*p),
                _ => r matches Err(e) && e.expected@ == "tagged_data"@ && e.found@
                    == payload_kind_name(self),
            },
    {
        match self {
            Payload::TaggedData(p) => Ok(*p),
            _ => Err(WrongPayloadError { expected: "tagged_data", found: self.kind() }),
        }
    }
}

/// A block, reduced to the payload that the analytics read.
#[derive(Clone, Debug)]
pub struct Block {
    pub payload: Option<Payload>,
}

/// How a block's transaction fared in the ledger.
#[derive(Clone, Copy, Debug, PartialEq, Eq, Structural)]
pub enum LedgerInclusionState {
    Conflicting,
    Included,
    NoTransaction,
}

#[derive(Clone, Copy, Debug, PartialEq, Eq, Structural)]
pub struct BlockMetadata {
    pub inclusion_state: LedgerInclusionState,
    pub referenced_by_milestone_index: MilestoneIndex,
}

/// A block of a milestone's cone, with its raw bytes and its metadata.
#[derive(Clone, Debug)]
pub struct BlockData {
    pub block_id: Digest,
    pub block: Block,
    pub raw: Vec<u8>,
    pub metadata: BlockMetadata,
}

} // verus!
