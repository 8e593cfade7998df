//! Analytics over the blocks of a milestone: payload and inclusion counts, byte sizes, and
//! the protocol parameters in force.
use vstd::prelude::*;

use crate::analytics::{Analytics, AnalyticsContext};
use crate::payload::{BlockData, LedgerInclusionState, Payload};
use crate::types::{LedgerOutput, LedgerSpent, MilestoneIndexTimestamp, ProtocolParameters};

verus! {

/// Adds one to a counter, saturating at the largest value.
pub open spec fn bump(x: u64) -> u64 {
    x.saturating_add(1)
}

/// The number of blocks of a milestone per payload kind and per inclusion state.
#[derive(Clone, Copy, Debug, Default, PartialEq, Eq, Structural)]
pub struct BlockActivityMeasurement {
    pub milestone_count: u64,
    pub no_payload_count: u64,
    pub tagged_data_count: u64,
    pub transaction_count: u64,
    pub treasury_transaction_count: u64,
    pub confirmed_count: u64,
    pub conflicting_count: u64,
    pub no_transaction_count: u64,
}

impl BlockActivityMeasurement {
    /// All counters at zero.
    pub open spec fn zero() -> Self {
        BlockActivityMeasurement {
            milestone_count: 0,
            no_payload_count: 0,
            tagged_data_count: 0,
            transaction_count: 0,
            treasury_transaction_count: 0,
            confirmed_count: 0,
            conflicting_count: 0,
            no_transaction_count: 0,
        }
    }

    /// The counters after one more block.
    pub open spec fn count_block(self, block: BlockData) -> Self {
        let s = match block.block.payload {
            Some(Payload::Milestone(_)) => Self { milestone_count: bump(self.milestone_count), ..self },
            Some(Payload::TaggedData(_)) => Self {
                tagged_data_count: bump(self.tagged_data_count),
                ..self
            },
            Some(Payload::Transaction(_)) => Self {
                transaction_count: bump(self.transaction_count),
                ..self
            },
            Some(Payload::TreasuryTransaction(_)) => Self {
                treasury_transaction_count: bump(self.treasury_transaction_count),
                ..self
            },
            None => Self { no_payload_count: bump(self.no_payload_count), ..self },
        };
        match block.metadata.inclusion_state {
            LedgerInclusionState::Conflicting => Self {
                conflicting_count: bump(s.conflicting_count),
                ..s
            },
            LedgerInclusionState::Included => Self { confirmed_count: bump(s.confirmed_count), ..s },
            LedgerInclusionState::NoTransaction => Self {
                no_transaction_count: bump(s.no_transaction_count),
                ..s
            },
        }
    }

    pub fn new() -> (r: Self)
        ensures
            r == Self::zero(),
    {
        BlockActivityMeasurement {
            milestone_count: 0,
            no_payload_count: 0,
            tagged_data_count: 0,
            transaction_count: 0,
            treasury_transaction_count: 0,
            confirmed_count: 0,
            conflicting_count: 0,
            no_transaction_count: 0,
        }
    }
}

impl Analytics for BlockActivityMeasurement {
    type Measurement = BlockActivityMeasurement;

    open spec fn inv(self) -> bool {
        true
    }

    open spec fn transaction_post(
        self,
        consumed: Seq<LedgerSpent>,
        created: Seq<LedgerOutput>,
        next: Self,
    ) -> bool {
        next == self
    }

    open spec fn block_post(self, block: BlockData, next: Self) -> bool {
        next == self.count_block(block)
    }

    open spec fn milestone_post(
        self,
        at: MilestoneIndexTimestamp,
        params: ProtocolParameters,
        next: Self,
        out: Option<Self>,
    ) -> bool {
        next == Self::zero() && out == Some(self)
    }

    fn handle_transaction<C: AnalyticsContext>(
        &mut self,
        consumed: &[LedgerSpent],
        created: &[LedgerOutput],
        ctx: &C,
    ) {
    }

    fn handle_block<C: AnalyticsContext>(&mut self, block_data: &BlockData, ctx: &C) {
        match &block_data.block.payload {
            Some(Payload::Milestone(_)) => self.milestone_count = self.milestone_count.saturating_add(1),
            Some(Payload::TaggedData(_)) => self.tagged_data_count = self.tagged_data_count.saturating_add(1),
            Some(Payload::Transaction(_)) => self.transaction_count = self.transaction_count.saturating_add(1),
            Some(Payload::TreasuryTransaction(_)) => self.treasury_transaction_count = self.treasury_transaction_count.saturating_add(1),
            None => self.no_payload_count = self.no_payload_count.saturating_add(1),
        }
        match block_data.metadata.inclusion_state {
            LedgerInclusionState::Conflicting => self.conflicting_count = self.conflicting_count.saturating_add(1),
            LedgerInclusionState::Included => self.confirmed_count = self.confirmed_count.saturating_add(1),
            LedgerInclusionState::NoTransaction => self.no_transaction_count = self.no_transaction_count.saturating_add(1),
        }
    }

    fn end_milestone<C: AnalyticsContext>(&mut self, ctx: &C) -> (r: Option<Self>) {
        let r = *self;
        *self = Self::new();
        Some(r)
    }
}

/// The number of bytes of a milestone's blocks, per payload kind and in all.
#[derive(Clone, Copy, Debug, Default, PartialEq, Eq, Structural)]
pub struct MilestoneSizeMeasurement {
    pub total_milestone_payload_bytes: u64,
    pub total_tagged_data_payload_bytes: u64,
    pub total_transaction_payload_bytes: u64,
    pub total_treasury_transaction_payload_bytes: u64,
    pub total_milestone_bytes: u64,
}

impl MilestoneSizeMeasurement {
    /// All sums at zero.
    pub open spec fn zero() -> Self {
        MilestoneSizeMeasurement {
            total_milestone_payload_bytes: 0,
            total_tagged_data_payload_bytes: 0,
            total_transaction_payload_bytes: 0,
            total_treasury_transaction_payload_bytes: 0,
            total_milestone_bytes: 0,
        }
    }

    /// The sums after one more block: its raw length counts towards the total and towards
    /// the kind of its payload.
    pub open spec fn count_block(self, block: BlockData) -> Self {
        let n = block.raw@.len() as u64;
        let s = Self { total_milestone_bytes: self.total_milestone_bytes.saturating_add(n), ..self };
        match block.block.payload {
            Some(Payload::Milestone(_)) => Self {
                total_milestone_payload_bytes: s.total_milestone_payload_bytes.saturating_add(n),
                ..s
            },
            Some(Payload::TaggedData(_)) => Self {
                total_tagged_data_payload_bytes: s.total_tagged_data_payload_bytes.saturating_add(n),
                ..s
            },
            Some(Payload::Transaction(_)) => Self {
                total_transaction_payload_bytes: s.total_transaction_payload_bytes.saturating_add(n),
                ..s
            },
            Some(Payload::TreasuryTransaction(_)) => Self {
                total_treasury_transaction_payload_bytes: s.total_treasury_transaction_payload_bytes.saturating_add(n),
                ..s
            },
            None => s,
        }
    }

    pub fn new() -> (r: Self)
        ensures
            r == Self::zero(),
    {
        MilestoneSizeMeasurement {
            total_milestone_payload_bytes: 0,
            total_tagged_data_payload_bytes: 0,
            total_transaction_payload_bytes: 0,
            total_treasury_transaction_payload_bytes: 0,
            total_milestone_bytes: 0,
        }
    }
}

impl Analytics for MilestoneSizeMeasurement {
    type Measurement = MilestoneSizeMeasurement;

    open spec fn inv(self) -> bool {
        true
    }

    open spec fn transaction_post(
        self,
        consumed: Seq<LedgerSpent>,
        created: Seq<LedgerOutput>,
        next: Self,
    ) -> bool {
        next == self
    }

    open spec fn block_post(self, block: BlockData, next: Self) -> bool {
        next == self.count_block(block)
    }

    open spec fn milestone_post(
        self,
        at: MilestoneIndexTimestamp,
        params: ProtocolParameters,
        next: Self,
        out: Option<Self>,
    ) -> bool {
        next == Self::zero() && out == Some(self)
    }

    fn handle_transaction<C: AnalyticsContext>(
        &mut self,
        consumed: &[LedgerSpent],
        created: &[LedgerOutput],
        ctx: &C,
    ) {
    }

    fn handle_block<C: AnalyticsContext>(&mut self, block_data: &BlockData, ctx: &C) {
        let n = block_data.raw.len() as u64;
        self.total_milestone_bytes = self.total_milestone_bytes.saturating_add(n);
        match &block_data.block.payload {
            Some(Payload::Milestone(_)) => self.total_milestone_payload_bytes = self.total_milestone_payload_bytes.saturating_add(n),
            Some(Payload::TaggedData(_)) => self.total_tagged_data_payload_bytes = self.total_tagged_data_payload_bytes.saturating_add(n),
            Some(Payload::Transaction(_)) => self.total_transaction_payload_bytes = self.total_transaction_payload_bytes.saturating_add(n),
            Some(Payload::TreasuryTransaction(_)) => self.total_treasury_transaction_payload_bytes = self.total_treasury_transaction_payload_bytes.saturating_add(n),
            None => {},
        }
    }

    fn end_milestone<C: AnalyticsContext>(&mut self, ctx: &C) -> (r: Option<Self>) {
        let r = *self;
        *self = Self::new();
        Some(r)
    }
}

/// Keeps the protocol parameters that were last reported.
#[derive(Clone, Debug, Default)]
pub struct ProtocolParamsMeasurement {
    pub params: Option<ProtocolParameters>,
}

impl Analytics for ProtocolParamsMeasurement {
    type Measurement = ProtocolParameters;

    open spec fn inv(self) -> bool {
        true
    }

    open spec fn transaction_post(
        self,
        consumed: Seq<LedgerSpent>,
        created: Seq<LedgerOutput>,
        next: Self,
    ) -> bool {
        next == self
    }

    open spec fn block_post(self, block: BlockData, next: Self) -> bool {
        next == self
    }

    /// The parameters are reported when none were reported before or when they differ from
    /// the last reported ones.
    open spec fn milestone_post(
        self,
        at: MilestoneIndexTimestamp,
        params: ProtocolParameters,
        next: Self,
        out: Option<ProtocolParameters>,
    ) -> bool {
        if self.params matches Some(last) && last.agrees_with(params) {
            next == self && out == None::<ProtocolParameters>
        } else {
            next == (Self { params: Some(params) }) && out == Some(params)
        }
    }

    fn handle_transaction<C: AnalyticsContext>(
        &mut self,
        consumed: &[LedgerSpent],
        created: &[LedgerOutput],
        ctx: &C,
    ) {
    }

    fn handle_block<C: AnalyticsContext>(&mut self, block_data: &BlockData, ctx: &C) {
    }

    fn end_milestone<C: AnalyticsContext>(&mut self, ctx: &C) -> (r: Option<ProtocolParameters>) {
        let params = ctx.protocol_params();
        let unchanged = match &self.params {
            Some(last) => last.same_as(params),
            None => false,
        };
        if unchanged {
            None
        } else {
            self.params = Some(params.clone());
            Some(params.clone())
        }
    }
}

} // verus!
