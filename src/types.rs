//! The ledger data that the analytics consume: milestones, addresses, outputs and the
//! records of their creation and consumption.
use vstd::prelude::*;

verus! {

/// The index of a milestone.
pub type MilestoneIndex = u32;

/// A milestone index together with the milestone's timestamp (seconds since the Unix epoch).
#[derive(Clone, Copy, Debug, PartialEq, Eq, Structural)]
pub struct MilestoneIndexTimestamp {
    pub milestone_index: MilestoneIndex,
    pub milestone_timestamp: u32,
}

/// A 32-byte digest, held as its big-endian upper and lower halves.
#[derive(Clone, Copy, Debug, PartialEq, Eq, Structural)]
pub struct Digest {
    pub high: u128,
    pub low: u128,
}

/// The kinds of address that can own an output.
#[derive(Clone, Copy, Debug, PartialEq, Eq, Structural)]
pub enum AddressKind {
    Ed25519,
    Alias,
    Nft,
}

/// An address: its kind and the digest that identifies it. Two addresses are the same
/// exactly when their kind and digest agree.
#[derive(Clone, Copy, Debug, PartialEq, Eq, Structural)]
pub struct Address {
    pub kind: AddressKind,
    pub hash: Digest,
}

/// The identifier of an output: the transaction that created it and its position there.
#[derive(Clone, Copy, Debug, PartialEq, Eq, Structural)]
pub struct OutputId {
    pub transaction_id: Digest,
    pub index: u16,
}

/// The kinds of output.
#[derive(Clone, Copy, Debug, PartialEq, Eq, Structural)]
pub enum OutputKind {
    Basic,
    Alias,
    Foundry,
    Nft,
    Treasury,
}

/// The identifier of a foundry: its controlling alias, its serial number and its token scheme.
#[derive(Clone, Copy, Debug, PartialEq, Eq, Structural)]
pub struct FoundryId {
    pub alias_id: Digest,
    pub serial_number: u32,
    pub token_scheme_kind: u8,
}

/// The identifier that follows an alias, NFT or foundry through the transactions that
/// update it. For an alias or NFT minted by a transaction it is the one derived from the
/// minting output's id.
#[derive(Clone, Copy, Debug, PartialEq, Eq, Structural)]
pub enum ChainId {
    Alias(Digest),
    Nft(Digest),
    Foundry(FoundryId),
}

/// The unlock conditions of an output that the analytics look at.
#[derive(Clone, Copy, Debug, PartialEq, Eq, Structural)]
pub struct UnlockConditions {
    pub timelock: bool,
    pub expiration: bool,
    /// The amount that must be returned, where a storage deposit return condition is present.
    pub storage_deposit_return: Option<u64>,
    /// The governor of an alias output.
    pub governor: Option<Address>,
}

/// An output, reduced to what the analytics read.
#[derive(Clone, Copy, Debug, PartialEq, Eq, Structural)]
pub struct Output {
    pub kind: OutputKind,
    pub amount: u64,
    /// The address that controls the output; none for a treasury output.
    pub owning_address: Option<Address>,
    /// The chain identifier of an alias, NFT or foundry output.
    pub chain_id: Option<ChainId>,
    /// The state index of an alias output.
    pub state_index: u32,
    pub unlock_conditions: UnlockConditions,
    /// The length in bytes of the output's canonical binary encoding.
    pub packed_len: u16,
}

/// An output as it was booked on the ledger.
#[derive(Clone, Copy, Debug, PartialEq, Eq, Structural)]
pub struct LedgerOutput {
    pub output_id: OutputId,
    pub block_id: Digest,
    pub booked: MilestoneIndexTimestamp,
    pub output: Output,
}

/// An output that a milestone consumed.
#[derive(Clone, Copy, Debug, PartialEq, Eq, Structural)]
pub struct LedgerSpent {
    pub output: LedgerOutput,
    pub spent_at: MilestoneIndexTimestamp,
}

/// The cost model that maps an output's size to its minimum storage deposit.
#[derive(Clone, Copy, Debug, PartialEq, Eq, Structural)]
pub struct RentStructure {
    pub v_byte_cost: u32,
    pub v_byte_factor_data: u8,
    pub v_byte_factor_key: u8,
}

/// The protocol parameters in force at a milestone.
#[derive(Debug)]
pub struct ProtocolParameters {
    pub version: u8,
    pub network_name: String,
    pub bech32_hrp: String,
    pub min_pow_score: u32,
    pub below_max_depth: u8,
    pub rent_structure: RentStructure,
    pub token_supply: u64,
}

impl Clone for ProtocolParameters {
    fn clone(&self) -> (r: Self)
        ensures
            r == *self,
    {
        ProtocolParameters {
            version: self.version,
            network_name: self.network_name.clone(),
            bech32_hrp: self.bech32_hrp.clone(),
            min_pow_score: self.min_pow_score,
            below_max_depth: self.below_max_depth,
            rent_structure: self.rent_structure,
            token_supply: self.token_supply,
        }
    }
}

impl ProtocolParameters {
    /// Whether two sets of parameters agree in every field, names compared by their text.
    pub open spec fn agrees_with(self, other: ProtocolParameters) -> bool {
        &&& self.version == other.version
        &&& self.network_name@ == other.network_name@
        &&& self.bech32_hrp@ == other.bech32_hrp@
        &&& self.min_pow_score == other.min_pow_score
        &&& self.below_max_depth == other.below_max_depth
        &&& self.rent_structure == other.rent_structure
        &&& self.token_supply == other.token_supply
    }

    /// Whether two sets of parameters agree in every field.
    pub fn same_as(&self, other: &ProtocolParameters) -> (r: bool)
        ensures
            r == self.agrees_with(*other),
    {
        self.version == other.version && self.network_name == other.network_name
            && self.bech32_hrp == other.bech32_hrp && self.min_pow_score == other.min_pow_score
            && self.below_max_depth == other.below_max_depth && self.rent_structure
            == other.rent_structure && self.token_supply == other.token_supply
    }
}

} // verus!
