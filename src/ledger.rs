//! Ledger-wide aggregates that are kept up to date from each transaction: outputs per kind,
//! storage size, unlock conditions and unclaimed genesis tokens.
use vstd::prelude::*;

use crate::analytics::{Analytics, AnalyticsContext};
use crate::payload::BlockData;
use crate::sums::{
    apply_delta, clamp_u64, outputs_of, saturating_delta, tally, total, Booked, OutputFilter,
    OutputValue,
};
use crate::types::{
    LedgerOutput, LedgerSpent, MilestoneIndex, MilestoneIndexTimestamp, OutputKind,
    ProtocolParameters, RentStructure,
};

verus! {

/// The number of outputs and the tokens they hold.
#[derive(Clone, Copy, Debug, Default, PartialEq, Eq, Structural)]
pub struct CountAndAmount {
    pub count: u64,
    pub amount: u64,
}

/// A counter that starts from nothing and takes in `value` over `s`.
pub open spec fn initial_total(s: Seq<LedgerOutput>, filter: OutputFilter, value: OutputValue) -> u64 {
    clamp_u64(tally(s, filter, value)) as u64
}

/// A counter updated by what a transaction created and consumed: created outputs are added,
/// consumed ones taken off, each saturating.
pub open spec fn updated_total(
    old: u64,
    created: Seq<LedgerOutput>,
    consumed: Seq<LedgerOutput>,
    filter: OutputFilter,
    value: OutputValue,
) -> u64 {
    apply_delta(old, tally(created, filter, value), tally(consumed, filter, value))
}

/// Takes in `value` over the outputs of `items` that `filter` admits, starting from nothing.
pub fn initial_total_exec<T: Booked>(items: &[T], filter: OutputFilter, value: OutputValue) -> (r: u64)
    ensures
        r == initial_total(outputs_of(items@), filter, value),
{
    saturating_delta(0, total(items, filter, value), 0)
}

/// Updates a counter by the outputs of a transaction.
pub fn updated_total_exec(
    old: u64,
    created: &[LedgerOutput],
    consumed: &[LedgerSpent],
    filter: OutputFilter,
    value: OutputValue,
) -> (r: u64)
    ensures
        r == updated_total(old, outputs_of(created@), outputs_of(consumed@), filter, value),
{
    saturating_delta(old, total(created, filter, value), total(consumed, filter, value))
}

impl CountAndAmount {
    pub open spec fn initial(s: Seq<LedgerOutput>, filter: OutputFilter) -> Self {
        CountAndAmount {
            count: initial_total(s, filter, OutputValue::One),
            amount: initial_total(s, filter, OutputValue::Amount),
        }
    }

    pub open spec fn updated(
        self,
        created: Seq<LedgerOutput>,
        consumed: Seq<LedgerOutput>,
        filter: OutputFilter,
    ) -> Self {
        CountAndAmount {
            count: updated_total(self.count, created, consumed, filter, OutputValue::One),
            amount: updated_total(self.amount, created, consumed, filter, OutputValue::Amount),
        }
    }

    pub fn init<T: Booked>(items: &[T], filter: OutputFilter) -> (r: Self)
        ensures
            r == Self::initial(outputs_of(items@), filter),
    {
        CountAndAmount {
            count: initial_total_exec(items, filter, OutputValue::One),
            amount: initial_total_exec(items, filter, OutputValue::Amount),
        }
    }

    pub fn update(&mut self, created: &[LedgerOutput], consumed: &[LedgerSpent], filter: OutputFilter)
        ensures
            *final(self) == old(self).updated(outputs_of(created@), outputs_of(consumed@), filter),
    {
        self.count = updated_total_exec(self.count, created, consumed, filter, OutputValue::One);
        self.amount = updated_total_exec(self.amount, created, consumed, filter, OutputValue::Amount);
    }
}

/// The number of unspent outputs, and the tokens they hold, per kind of output.
#[derive(Clone, Copy, Debug, Default, PartialEq, Eq, Structural)]
pub struct LedgerOutputMeasurement {
    pub alias: CountAndAmount,
    pub basic: CountAndAmount,
    pub nft: CountAndAmount,
    pub foundry: CountAndAmount,
}

impl LedgerOutputMeasurement {
    pub open spec fn initial(s: Seq<LedgerOutput>) -> Self {
        LedgerOutputMeasurement {
            alias: CountAndAmount::initial(s, OutputFilter::Kind(OutputKind::Alias)),
            basic: CountAndAmount::initial(s, OutputFilter::Kind(OutputKind::Basic)),
            nft: CountAndAmount::initial(s, OutputFilter::Kind(OutputKind::Nft)),
            foundry: CountAndAmount::initial(s, OutputFilter::Kind(OutputKind::Foundry)),
        }
    }

    pub open spec fn updated(self, created: Seq<LedgerOutput>, consumed: Seq<LedgerOutput>) -> Self {
        LedgerOutputMeasurement {
            alias: self.alias.updated(created, consumed, OutputFilter::Kind(OutputKind::Alias)),
            basic: self.basic.updated(created, consumed, OutputFilter::Kind(OutputKind::Basic)),
            nft: self.nft.updated(created, consumed, OutputFilter::Kind(OutputKind::Nft)),
            foundry: self.foundry.updated(created, consumed, OutputFilter::Kind(OutputKind::Foundry)),
        }
    }

    /// Initialize the analytic by reading the unspent outputs of the ledger.
    pub fn init(unspent_outputs: &[LedgerOutput]) -> (r: Self)
        ensures
            r == Self::initial(unspent_outputs@),
    {
        proof {
            assert(outputs_of(unspent_outputs@) =~= unspent_outputs@);
        }
        LedgerOutputMeasurement {
            alias: CountAndAmount::init(unspent_outputs, OutputFilter::Kind(OutputKind::Alias)),
            basic: CountAndAmount::init(unspent_outputs, OutputFilter::Kind(OutputKind::Basic)),
            nft: CountAndAmount::init(unspent_outputs, OutputFilter::Kind(OutputKind::Nft)),
            foundry: CountAndAmount::init(unspent_outputs, OutputFilter::Kind(OutputKind::Foundry)),
        }
    }
}

impl Analytics for LedgerOutputMeasurement {
    type Measurement = LedgerOutputMeasurement;

    open spec fn inv(self) -> bool {
        true
    }

    open spec fn transaction_post(
        self,
        consumed: Seq<LedgerSpent>,
        created: Seq<LedgerOutput>,
        next: Self,
    ) -> bool {
        next == self.updated(outputs_of(created), outputs_of(consumed))
    }

    open spec fn block_post(self, block: BlockData, next: Self) -> bool {
        next == self
    }

    open spec fn milestone_post(
        self,
        at: MilestoneIndexTimestamp,
        params: ProtocolParameters,
        next: Self,
        out: Option<Self>,
    ) -> bool {
        next == self && out == Some(self)
    }

    fn handle_transaction<C: AnalyticsContext>(
        &mut self,
        consumed: &[LedgerSpent],
        created: &[LedgerOutput],
        ctx: &C,
    ) {
        self.alias.update(created, consumed, OutputFilter::Kind(OutputKind::Alias));
        self.basic.update(created, consumed, OutputFilter::Kind(OutputKind::Basic));
        self.nft.update(created, consumed, OutputFilter::Kind(OutputKind::Nft));
        self.foundry.update(created, consumed, OutputFilter::Kind(OutputKind::Foundry));
    }

    fn handle_block<C: AnalyticsContext>(&mut self, block_data: &BlockData, ctx: &C) {
    }

    fn end_milestone<C: AnalyticsContext>(&mut self, ctx: &C) -> (r: Option<Self>) {
        Some(*self)
    }
}

/// The storage that the unspent outputs take: key bytes, data bytes, and the storage
/// deposit that the rent structure asks for them.
#[derive(Clone, Copy, Debug, Default, PartialEq, Eq, Structural)]
pub struct LedgerSizeMeasurement {
    pub total_key_bytes: u64,
    pub total_data_bytes: u64,
    pub total_storage_deposit_amount: u64,
}

/// Keeps the ledger size up to date under the rent structure it was created with.
#[derive(Clone, Copy, Debug, PartialEq, Eq, Structural)]
pub struct LedgerSizeAnalytics {
    pub rent_structure: RentStructure,
    pub measurement: LedgerSizeMeasurement,
}

impl LedgerSizeAnalytics {
    pub open spec fn initial(rent: RentStructure, s: Seq<LedgerOutput>) -> Self {
        LedgerSizeAnalytics {
            rent_structure: rent,
            measurement: LedgerSizeMeasurement {
                total_key_bytes: initial_total(s, OutputFilter::All, OutputValue::KeyBytes),
                total_data_bytes: initial_total(s, OutputFilter::All, OutputValue::DataBytes),
                total_storage_deposit_amount: initial_total(
                    s,
                    OutputFilter::All,
                    OutputValue::StorageDeposit(rent),
                ),
            },
        }
    }

    pub open spec fn updated(self, created: Seq<LedgerOutput>, consumed: Seq<LedgerOutput>) -> Self {
        let m = self.measurement;
        let rent = OutputValue::StorageDeposit(self.rent_structure);
        LedgerSizeAnalytics {
            rent_structure: self.rent_structure,
            measurement: LedgerSizeMeasurement {
                total_key_bytes: updated_total(
                    m.total_key_bytes,
                    created,
                    consumed,
                    OutputFilter::All,
                    OutputValue::KeyBytes,
                ),
                total_data_bytes: updated_total(
                    m.total_data_bytes,
                    created,
                    consumed,
                    OutputFilter::All,
                    OutputValue::DataBytes,
                ),
                total_storage_deposit_amount: updated_total(
                    m.total_storage_deposit_amount,
                    created,
                    consumed,
                    OutputFilter::All,
                    rent,
                ),
            },
        }
    }

    /// Initialize the analytic by reading the unspent outputs of the ledger.
    pub fn init(protocol_params: &ProtocolParameters, unspent_outputs: &[LedgerOutput]) -> (r: Self)
        ensures
            r == Self::initial(protocol_params.rent_structure, unspent_outputs@),
    {
        proof {
            assert(outputs_of(unspent_outputs@) =~= unspent_outputs@);
        }
        let rent = protocol_params.rent_structure;
        LedgerSizeAnalytics {
            rent_structure: rent,
            measurement: LedgerSizeMeasurement {
                total_key_bytes: initial_total_exec(unspent_outputs, OutputFilter::All, OutputValue::KeyBytes),
                total_data_bytes: initial_total_exec(unspent_outputs, OutputFilter::All, OutputValue::DataBytes),
                total_storage_deposit_amount: initial_total_exec(
                    unspent_outputs,
                    OutputFilter::All,
                    OutputValue::StorageDeposit(rent),
                ),
            },
        }
    }
}

impl Analytics for LedgerSizeAnalytics {
    type Measurement = LedgerSizeMeasurement;

    open spec fn inv(self) -> bool {
        true
    }

    open spec fn transaction_post(
        self,
        consumed: Seq<LedgerSpent>,
        created: Seq<LedgerOutput>,
        next: Self,
    ) -> bool {
        next == self.updated(outputs_of(created), outputs_of(consumed))
    }

    open spec fn block_post(self, block: BlockData, next: Self) -> bool {
        next == self
    }

    open spec fn milestone_post(
        self,
        at: MilestoneIndexTimestamp,
        params: ProtocolParameters,
        next: Self,
        out: Option<LedgerSizeMeasurement>,
    ) -> bool {
        next == self && out == Some(self.measurement)
    }

    fn handle_transaction<C: AnalyticsContext>(
        &mut self,
        consumed: &[LedgerSpent],
        created: &[LedgerOutput],
        ctx: &C,
    ) {
        let rent = OutputValue::StorageDeposit(self.rent_structure);
        self.measurement.total_key_bytes = updated_total_exec(
            self.measurement.total_key_bytes,
            created,
            consumed,
            OutputFilter::All,
            OutputValue::KeyBytes,
        );
        self.measurement.total_data_bytes = updated_total_exec(
            self.measurement.total_data_bytes,
            created,
            consumed,
            OutputFilter::All,
            OutputValue::DataBytes,
        );
        self.measurement.total_storage_deposit_amount = updated_total_exec(
            self.measurement.total_storage_deposit_amount,
            created,
            consumed,
            OutputFilter::All,
            rent,
        );
    }

    fn handle_block<C: AnalyticsContext>(&mut self, block_data: &BlockData, ctx: &C) {
    }

    fn end_milestone<C: AnalyticsContext>(&mut self, ctx: &C) -> (r: Option<LedgerSizeMeasurement>) {
        Some(self.measurement)
    }
}

/// Outputs with a timelock, an expiration or a storage deposit return condition, and the
/// amounts that storage deposit return conditions ask back.
#[derive(Clone, Copy, Debug, Default, PartialEq, Eq, Structural)]
pub struct UnlockConditionMeasurement {
    pub timelock: CountAndAmount,
    pub expiration: CountAndAmount,
    pub storage_deposit_return: CountAndAmount,
    pub storage_deposit_return_inner_amount: u64,
}

impl UnlockConditionMeasurement {
    pub open spec fn initial(s: Seq<LedgerOutput>) -> Self {
        UnlockConditionMeasurement {
            timelock: CountAndAmount::initial(s, OutputFilter::Timelock),
            expiration: CountAndAmount::initial(s, OutputFilter::Expiration),
            storage_deposit_return: CountAndAmount::initial(s, OutputFilter::StorageDepositReturn),
            storage_deposit_return_inner_amount: initial_total(
                s,
                OutputFilter::All,
                OutputValue::ReturnAmount,
            ),
        }
    }

    pub open spec fn updated(self, created: Seq<LedgerOutput>, consumed: Seq<LedgerOutput>) -> Self {
        UnlockConditionMeasurement {
            timelock: self.timelock.updated(created, consumed, OutputFilter::Timelock),
            expiration: self.expiration.updated(created, consumed, OutputFilter::Expiration),
            storage_deposit_return: self.storage_deposit_return.updated(
                created,
                consumed,
                OutputFilter::StorageDepositReturn,
            ),
            storage_deposit_return_inner_amount: updated_total(
                self.storage_deposit_return_inner_amount,
                created,
                consumed,
                OutputFilter::All,
                OutputValue::ReturnAmount,
            ),
        }
    }

    /// Initialize the analytic by reading the unspent outputs of the ledger.
    pub fn init(unspent_outputs: &[LedgerOutput]) -> (r: Self)
        ensures
            r == Self::initial(unspent_outputs@),
    {
        proof {
            assert(outputs_of(unspent_outputs@) =~= unspent_outputs@);
        }
        UnlockConditionMeasurement {
            timelock: CountAndAmount::init(unspent_outputs, OutputFilter::Timelock),
            expiration: CountAndAmount::init(unspent_outputs, OutputFilter::Expiration),
            storage_deposit_return: CountAndAmount::init(
                unspent_outputs,
                OutputFilter::StorageDepositReturn,
            ),
            storage_deposit_return_inner_amount: initial_total_exec(
                unspent_outputs,
                OutputFilter::All,
                OutputValue::ReturnAmount,
            ),
        }
    }
}

impl Analytics for UnlockConditionMeasurement {
    type Measurement = UnlockConditionMeasurement;

    open spec fn inv(self) -> bool {
        true
    }

    open spec fn transaction_post(
        self,
        consumed: Seq<LedgerSpent>,
        created: Seq<LedgerOutput>,
        next: Self,
    ) -> bool {
        next == self.updated(outputs_of(created), outputs_of(consumed))
    }

    open spec fn block_post(self, block: BlockData, next: Self) -> bool {
        next == self
    }

    open spec fn milestone_post(
        self,
        at: MilestoneIndexTimestamp,
        params: ProtocolParameters,
        next: Self,
        out: Option<Self>,
    ) -> bool {
        next == self && out == Some(self)
    }

    fn handle_transaction<C: AnalyticsContext>(
        &mut self,
        consumed: &[LedgerSpent],
        created: &[LedgerOutput],
        ctx: &C,
    ) {
        self.timelock.update(created, consumed, OutputFilter::Timelock);
        self.expiration.update(created, consumed, OutputFilter::Expiration);
        self.storage_deposit_return.update(created, consumed, OutputFilter::StorageDepositReturn);
        self.storage_deposit_return_inner_amount = updated_total_exec(
            self.storage_deposit_return_inner_amount,
            created,
            consumed,
            OutputFilter::All,
            OutputValue::ReturnAmount,
        );
    }

    fn handle_block<C: AnalyticsContext>(&mut self, block_data: &BlockData, ctx: &C) {
    }

    fn end_milestone<C: AnalyticsContext>(&mut self, ctx: &C) -> (r: Option<Self>) {
        Some(*self)
    }
}

/// The milestone whose outputs are the genesis outputs.
pub const GENESIS_MILESTONE_INDEX: MilestoneIndex = 0;

/// The genesis outputs that have not been consumed yet, and the tokens they hold. The outputs
/// tracked are those booked at the genesis milestone, index 0 (`GENESIS_MILESTONE_INDEX`):
/// they are the unclaimed tokens whatever milestone the analytics are bootstrapped at.
#[derive(Clone, Copy, Debug, Default, PartialEq, Eq, Structural)]
pub struct UnclaimedTokenMeasurement {
    pub unclaimed_count: u64,
    pub unclaimed_amount: u64,
}

impl UnclaimedTokenMeasurement {
    pub open spec fn initial(s: Seq<LedgerOutput>) -> Self {
        let genesis = OutputFilter::BookedAt(GENESIS_MILESTONE_INDEX);
        UnclaimedTokenMeasurement {
            unclaimed_count: initial_total(s, genesis, OutputValue::One),
            unclaimed_amount: initial_total(s, genesis, OutputValue::Amount),
        }
    }

    /// Consumed genesis outputs are taken off; created outputs never count.
    pub open spec fn updated(self, consumed: Seq<LedgerOutput>) -> Self {
        let genesis = OutputFilter::BookedAt(GENESIS_MILESTONE_INDEX);
        UnclaimedTokenMeasurement {
            unclaimed_count: updated_total(self.unclaimed_count, seq![], consumed, genesis, OutputValue::One),
            unclaimed_amount: updated_total(
                self.unclaimed_amount,
                seq![],
                consumed,
                genesis,
                OutputValue::Amount,
            ),
        }
    }

    /// Initialize the analytic by reading the unspent outputs of the ledger.
    pub fn init(unspent_outputs: &[LedgerOutput]) -> (r: Self)
        ensures
            r == Self::initial(unspent_outputs@),
    {
        proof {
            assert(outputs_of(unspent_outputs@) =~= unspent_outputs@);
        }
        let genesis = OutputFilter::BookedAt(GENESIS_MILESTONE_INDEX);
        UnclaimedTokenMeasurement {
            unclaimed_count: initial_total_exec(unspent_outputs, genesis, OutputValue::One),
            unclaimed_amount: initial_total_exec(unspent_outputs, genesis, OutputValue::Amount),
        }
    }
}

impl Analytics for UnclaimedTokenMeasurement {
    type Measurement = UnclaimedTokenMeasurement;

    open spec fn inv(self) -> bool {
        true
    }

    open spec fn transaction_post(
        self,
        consumed: Seq<LedgerSpent>,
        created: Seq<LedgerOutput>,
        next: Self,
    ) -> bool {
        next == self.updated(outputs_of(consumed))
    }

    open spec fn block_post(self, block: BlockData, next: Self) -> bool {
        next == self
    }

    open spec fn milestone_post(
        self,
        at: MilestoneIndexTimestamp,
        params: ProtocolParameters,
        next: Self,
        out: Option<Self>,
    ) -> bool {
        next == self && out == Some(self)
    }

    fn handle_transaction<C: AnalyticsContext>(
        &mut self,
        consumed: &[LedgerSpent],
        created: &[LedgerOutput],
        ctx: &C,
    ) {
        let genesis = OutputFilter::BookedAt(GENESIS_MILESTONE_INDEX);
        let none: [LedgerOutput; 0] = [];
        proof {
            assert(outputs_of(none@) =~= seq![]);
        }
        self.unclaimed_count = updated_total_exec(self.unclaimed_count, &none, consumed, genesis, OutputValue::One);
        self.unclaimed_amount = updated_total_exec(
            self.unclaimed_amount,
            &none,
            consumed,
            genesis,
            OutputValue::Amount,
        );
    }

    fn handle_block<C: AnalyticsContext>(&mut self, block_data: &BlockData, ctx: &C) {
    }

    fn end_milestone<C: AnalyticsContext>(&mut self, ctx: &C) -> (r: Option<Self>) {
        Some(*self)
    }
}

} // verus!
