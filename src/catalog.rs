//! The catalogue of analytics: a closed set chosen by name, and the list that drives them together.
use vstd::prelude::*;

use crate::activity::{BaseTokenActivityMeasurement, OutputActivityMeasurement, TransactionSizeMeasurement};
use crate::addresses::{AddressActivityAnalytics, AddressActivityMeasurement};
use crate::analytics::{Analytics, AnalyticsContext};
use crate::balances::{AddressBalanceMeasurement, AddressBalancesAnalytics};
use crate::ledger::{
    LedgerOutputMeasurement, LedgerSizeAnalytics, LedgerSizeMeasurement, UnclaimedTokenMeasurement,
    UnlockConditionMeasurement,
};
use crate::payload::BlockData;
use crate::tangle::{BlockActivityMeasurement, MilestoneSizeMeasurement, ProtocolParamsMeasurement};
use crate::types::{LedgerOutput, LedgerSpent, MilestoneIndexTimestamp, ProtocolParameters};

verus! {

/// The analytics that can be chosen.
#[derive(Clone, Copy, Debug, PartialEq, Eq, Structural)]
pub enum AnalyticsChoice {
    AddressBalance,
    BaseTokenActivity,
    BlockActivity,
    ActiveAddresses,
    LedgerOutputs,
    LedgerSize,
    MilestoneSize,
    OutputActivity,
    ProtocolParameters,
    TransactionSizeDistribution,
    UnclaimedTokens,
    UnlockConditions,
}

/// A measurement of any of the analytics.
#[derive(Clone, Debug)]
pub enum Measurement {
    AddressBalance(AddressBalanceMeasurement),
    BaseTokenActivity(BaseTokenActivityMeasurement),
    BlockActivity(BlockActivityMeasurement),
    ActiveAddresses(AddressActivityMeasurement),
    LedgerOutputs(LedgerOutputMeasurement),
    LedgerSize(LedgerSizeMeasurement),
    MilestoneSize(MilestoneSizeMeasurement),
    OutputActivity(OutputActivityMeasurement),
    ProtocolParameters(ProtocolParameters),
    TransactionSizeDistribution(TransactionSizeMeasurement),
    UnclaimedTokens(UnclaimedTokenMeasurement),
    UnlockConditions(UnlockConditionMeasurement),
}

/// A measurement tagged with the milestone it was taken at.
#[derive(Clone, Debug)]
pub struct PerMilestone<M> {
    pub at: MilestoneIndexTimestamp,
    pub inner: M,
}

/// The time that synchronisation took, in seconds.
#[derive(Clone, Copy, Debug, Default, PartialEq, Eq, Structural)]
pub struct SyncAnalytics {
    pub sync_time: u64,
}

/// One analytic of any kind.
#[derive(Clone, Debug)]
pub enum Analytic {
    AddressBalance(AddressBalancesAnalytics),
    BaseTokenActivity(BaseTokenActivityMeasurement),
    BlockActivity(BlockActivityMeasurement),
    ActiveAddresses(AddressActivityAnalytics),
    LedgerOutputs(LedgerOutputMeasurement),
    LedgerSize(LedgerSizeAnalytics),
    MilestoneSize(MilestoneSizeMeasurement),
    OutputActivity(OutputActivityMeasurement),
    ProtocolParameters(ProtocolParamsMeasurement),
    TransactionSizeDistribution(TransactionSizeMeasurement),
    UnclaimedTokens(UnclaimedTokenMeasurement),
    UnlockConditions(UnlockConditionMeasurement),
}

impl Analytic {
    /// What an analytic initialised for `choice` from the unspent outputs `unspent` is.
    pub open spec fn init_post(
        choice: AnalyticsChoice,
        params: ProtocolParameters,
        unspent: Seq<LedgerOutput>,
        r: Analytic,
    ) -> bool {
        match choice {
            AnalyticsChoice::AddressBalance => r matches Analytic::AddressBalance(a) && a.balances@
                == AddressBalancesAnalytics::initial(unspent),
            AnalyticsChoice::BaseTokenActivity => r == Analytic::BaseTokenActivity(
                BaseTokenActivityMeasurement { booked_amount: 0, transferred_amount: 0 },
            ),
            AnalyticsChoice::BlockActivity => r == Analytic::BlockActivity(BlockActivityMeasurement::zero()),
            AnalyticsChoice::ActiveAddresses => r matches Analytic::ActiveAddresses(a) && a.addresses@
                == Set::<crate::types::Address>::empty(),
            AnalyticsChoice::LedgerOutputs => r == Analytic::LedgerOutputs(LedgerOutputMeasurement::initial(unspent)),
            AnalyticsChoice::LedgerSize => r == Analytic::LedgerSize(
                LedgerSizeAnalytics::initial(params.rent_structure, unspent),
            ),
            AnalyticsChoice::MilestoneSize => r == Analytic::MilestoneSize(MilestoneSizeMeasurement::zero()),
            AnalyticsChoice::OutputActivity => r == Analytic::OutputActivity(OutputActivityMeasurement::zero()),
            AnalyticsChoice::ProtocolParameters => r == Analytic::ProtocolParameters(
                ProtocolParamsMeasurement { params: None },
            ),
            AnalyticsChoice::TransactionSizeDistribution => r == Analytic::TransactionSizeDistribution(
                TransactionSizeMeasurement::zero(),
            ),
            AnalyticsChoice::UnclaimedTokens => r == Analytic::UnclaimedTokens(
                UnclaimedTokenMeasurement::initial(unspent),
            ),
            AnalyticsChoice::UnlockConditions => r == Analytic::UnlockConditions(
                UnlockConditionMeasurement::initial(unspent),
            ),
        }
    }

    /// Init an analytic from a choice and ledger state.
    pub fn init(
        choice: &AnalyticsChoice,
        protocol_params: &ProtocolParameters,
        unspent_outputs: &[LedgerOutput],
    ) -> (r: Self)
        ensures
            r.inv(),
            Self::init_post(*choice, *protocol_params, unspent_outputs@, r),
    {
        match choice {
            AnalyticsChoice::AddressBalance => Analytic::AddressBalance(
                AddressBalancesAnalytics::init(unspent_outputs),
            ),
            AnalyticsChoice::BaseTokenActivity => Analytic::BaseTokenActivity(BaseTokenActivityMeasurement::new()),
            AnalyticsChoice::BlockActivity => Analytic::BlockActivity(BlockActivityMeasurement::new()),
            AnalyticsChoice::ActiveAddresses => Analytic::ActiveAddresses(AddressActivityAnalytics::new()),
            AnalyticsChoice::LedgerOutputs => Analytic::LedgerOutputs(LedgerOutputMeasurement::init(unspent_outputs)),
            AnalyticsChoice::LedgerSize => Analytic::LedgerSize(
                LedgerSizeAnalytics::init(protocol_params, unspent_outputs),
            ),
            AnalyticsChoice::MilestoneSize => Analytic::MilestoneSize(MilestoneSizeMeasurement::new()),
            AnalyticsChoice::OutputActivity => Analytic::OutputActivity(OutputActivityMeasurement::new()),
            AnalyticsChoice::ProtocolParameters => Analytic::ProtocolParameters(
                ProtocolParamsMeasurement { params: None },
            ),
            AnalyticsChoice::TransactionSizeDistribution => Analytic::TransactionSizeDistribution(
                TransactionSizeMeasurement::new(),
            ),
            AnalyticsChoice::UnclaimedTokens => Analytic::UnclaimedTokens(
                UnclaimedTokenMeasurement::init(unspent_outputs),
            ),
            AnalyticsChoice::UnlockConditions => Analytic::UnlockConditions(
                UnlockConditionMeasurement::init(unspent_outputs),
            ),
        }
    }
}

impl Analytics for Analytic {
    type Measurement = PerMilestone<Measurement>;

    open spec fn inv(self) -> bool {
        match self {
            Analytic::AddressBalance(a) => a.inv(),
            Analytic::BaseTokenActivity(a) => a.inv(),
            Analytic::BlockActivity(a) => a.inv(),
            Analytic::ActiveAddresses(a) => a.inv(),
            Analytic::LedgerOutputs(a) => a.inv(),
            Analytic::LedgerSize(a) => a.inv(),
            Analytic::MilestoneSize(a) => a.inv(),
            Analytic::OutputActivity(a) => a.inv(),
            Analytic::ProtocolParameters(a) => a.inv(),
            Analytic::TransactionSizeDistribution(a) => a.inv(),
            Analytic::UnclaimedTokens(a) => a.inv(),
            Analytic::UnlockConditions(a) => a.inv(),
        }
    }

    open spec fn transaction_post(
        self,
        consumed: Seq<LedgerSpent>,
        created: Seq<LedgerOutput>,
        next: Self,
    ) -> bool {
        match (self, next) {
            (Analytic::AddressBalance(a), Analytic::AddressBalance(b)) => a.transaction_post(consumed, created, b),
            (Analytic::BaseTokenActivity(a), Analytic::BaseTokenActivity(b)) => a.transaction_post(consumed, created, b),
            (Analytic::BlockActivity(a), Analytic::BlockActivity(b)) => a.transaction_post(consumed, created, b),
            (Analytic::ActiveAddresses(a), Analytic::ActiveAddresses(b)) => a.transaction_post(consumed, created, b),
            (Analytic::LedgerOutputs(a), Analytic::LedgerOutputs(b)) => a.transaction_post(consumed, created, b),
            (Analytic::LedgerSize(a), Analytic::LedgerSize(b)) => a.transaction_post(consumed, created, b),
            (Analytic::MilestoneSize(a), Analytic::MilestoneSize(b)) => a.transaction_post(consumed, created, b),
            (Analytic::OutputActivity(a), Analytic::OutputActivity(b)) => a.transaction_post(consumed, created, b),
            (Analytic::ProtocolParameters(a), Analytic::ProtocolParameters(b)) => a.transaction_post(consumed, created, b),
            (Analytic::TransactionSizeDistribution(a), Analytic::TransactionSizeDistribution(b)) => a.transaction_post(consumed, created, b),
            (Analytic::UnclaimedTokens(a), Analytic::UnclaimedTokens(b)) => a.transaction_post(consumed, created, b),
            (Analytic::UnlockConditions(a), Analytic::UnlockConditions(b)) => a.transaction_post(consumed, created, b),
            _ => false,
        }
    }

    open spec fn block_post(self, block: BlockData, next: Self) -> bool {
        match (self, next) {
            (Analytic::AddressBalance(a), Analytic::AddressBalance(b)) => a.block_post(block, b),
            (Analytic::BaseTokenActivity(a), Analytic::BaseTokenActivity(b)) => a.block_post(block, b),
            (Analytic::BlockActivity(a), Analytic::BlockActivity(b)) => a.block_post(block, b),
            (Analytic::ActiveAddresses(a), Analytic::ActiveAddresses(b)) => a.block_post(block, b),
            (Analytic::LedgerOutputs(a), Analytic::LedgerOutputs(b)) => a.block_post(block, b),
            (Analytic::LedgerSize(a), Analytic::LedgerSize(b)) => a.block_post(block, b),
            (Analytic::MilestoneSize(a), Analytic::MilestoneSize(b)) => a.block_post(block, b),
            (Analytic::OutputActivity(a), Analytic::OutputActivity(b)) => a.block_post(block, b),
            (Analytic::ProtocolParameters(a), Analytic::ProtocolParameters(b)) => a.block_post(block, b),
            (Analytic::TransactionSizeDistribution(a), Analytic::TransactionSizeDistribution(b)) => a.block_post(block, b),
            (Analytic::UnclaimedTokens(a), Analytic::UnclaimedTokens(b)) => a.block_post(block, b),
            (Analytic::UnlockConditions(a), Analytic::UnlockConditions(b)) => a.block_post(block, b),
            _ => false,
        }
    }

    /// The analytic's own measurement, tagged with the milestone.
    open spec fn milestone_post(
        self,
        at: MilestoneIndexTimestamp,
        params: ProtocolParameters,
        next: Self,
        out: Option<PerMilestone<Measurement>>,
    ) -> bool {
        match (self, next) {
            (Analytic::AddressBalance(a), Analytic::AddressBalance(b)) => match out {
                Some(p) => p.at == at && (p.inner matches Measurement::AddressBalance(m) && a.milestone_post(at, params, b, Some(m))),
                None => a.milestone_post(at, params, b, None),
            },
            (Analytic::BaseTokenActivity(a), Analytic::BaseTokenActivity(b)) => match out {
                Some(p) => p.at == at && (p.inner matches Measurement::BaseTokenActivity(m) && a.milestone_post(at, params, b, Some(m))),
                None => a.milestone_post(at, params, b, None),
            },
            (Analytic::BlockActivity(a), Analytic::BlockActivity(b)) => match out {
                Some(p) => p.at == at && (p.inner matches Measurement::BlockActivity(m) && a.milestone_post(at, params, b, Some(m))),
                None => a.milestone_post(at, params, b, None),
            },
            (Analytic::ActiveAddresses(a), Analytic::ActiveAddresses(b)) => match out {
                Some(p) => p.at == at && (p.inner matches Measurement::ActiveAddresses(m) && a.milestone_post(at, params, b, Some(m))),
                None => a.milestone_post(at, params, b, None),
            },
            (Analytic::LedgerOutputs(a), Analytic::LedgerOutputs(b)) => match out {
                Some(p) => p.at == at && (p.inner matches Measurement::LedgerOutputs(m) && a.milestone_post(at, params, b, Some(m))),
                None => a.milestone_post(at, params, b, None),
            },
            (Analytic::LedgerSize(a), Analytic::LedgerSize(b)) => match out {
                Some(p) => p.at == at && (p.inner matches Measurement::LedgerSize(m) && a.milestone_post(at, params, b, Some(m))),
                None => a.milestone_post(at, params, b, None),
            },
            (Analytic::MilestoneSize(a), Analytic::MilestoneSize(b)) => match out {
                Some(p) => p.at == at && (p.inner matches Measurement::MilestoneSize(m) && a.milestone_post(at, params, b, Some(m))),
                None => a.milestone_post(at, params, b, None),
            },
            (Analytic::OutputActivity(a), Analytic::OutputActivity(b)) => match out {
                Some(p) => p.at == at && (p.inner matches Measurement::OutputActivity(m) && a.milestone_post(at, params, b, Some(m))),
                None => a.milestone_post(at, params, b, None),
            },
            (Analytic::ProtocolParameters(a), Analytic::ProtocolParameters(b)) => match out {
                Some(p) => p.at == at && (p.inner matches Measurement::ProtocolParameters(m) && a.milestone_post(at, params, b, Some(m))),
                None => a.milestone_post(at, params, b, None),
            },
            (Analytic::TransactionSizeDistribution(a), Analytic::TransactionSizeDistribution(b)) => match out {
                Some(p) => p.at == at && (p.inner matches Measurement::TransactionSizeDistribution(m) && a.milestone_post(at, params, b, Some(m))),
                None => a.milestone_post(at, params, b, None),
            },
            (Analytic::UnclaimedTokens(a), Analytic::UnclaimedTokens(b)) => match out {
                Some(p) => p.at == at && (p.inner matches Measurement::UnclaimedTokens(m) && a.milestone_post(at, params, b, Some(m))),
                None => a.milestone_post(at, params, b, None),
            },
            (Analytic::UnlockConditions(a), Analytic::UnlockConditions(b)) => match out {
                Some(p) => p.at == at && (p.inner matches Measurement::UnlockConditions(m) && a.milestone_post(at, params, b, Some(m))),
                None => a.milestone_post(at, params, b, None),
            },
            _ => false,
        }
    }

    fn handle_transaction<C: AnalyticsContext>(
        &mut self,
        consumed: &[LedgerSpent],
        created: &[LedgerOutput],
        ctx: &C,
    ) {
        match self {
            Analytic::AddressBalance(a) => a.handle_transaction(consumed, created, ctx),
            Analytic::BaseTokenActivity(a) => a.handle_transaction(consumed, created, ctx),
            Analytic::BlockActivity(a) => a.handle_transaction(consumed, created, ctx),
            Analytic::ActiveAddresses(a) => a.handle_transaction(consumed, created, ctx),
            Analytic::LedgerOutputs(a) => a.handle_transaction(consumed, created, ctx),
            Analytic::LedgerSize(a) => a.handle_transaction(consumed, created, ctx),
            Analytic::MilestoneSize(a) => a.handle_transaction(consumed, created, ctx),
            Analytic::OutputActivity(a) => a.handle_transaction(consumed, created, ctx),
            Analytic::ProtocolParameters(a) => a.handle_transaction(consumed, created, ctx),
            Analytic::TransactionSizeDistribution(a) => a.handle_transaction(consumed, created, ctx),
            Analytic::UnclaimedTokens(a) => a.handle_transaction(consumed, created, ctx),
            Analytic::UnlockConditions(a) => a.handle_transaction(consumed, created, ctx),
        }
    }

    fn handle_block<C: AnalyticsContext>(&mut self, block_data: &BlockData, ctx: &C) {
        match self {
            Analytic::AddressBalance(a) => a.handle_block(block_data, ctx),
            Analytic::BaseTokenActivity(a) => a.handle_block(block_data, ctx),
            Analytic::BlockActivity(a) => a.handle_block(block_data, ctx),
            Analytic::ActiveAddresses(a) => a.handle_block(block_data, ctx),
            Analytic::LedgerOutputs(a) => a.handle_block(block_data, ctx),
            Analytic::LedgerSize(a) => a.handle_block(block_data, ctx),
            Analytic::MilestoneSize(a) => a.handle_block(block_data, ctx),
            Analytic::OutputActivity(a) => a.handle_block(block_data, ctx),
            Analytic::ProtocolParameters(a) => a.handle_block(block_data, ctx),
            Analytic::TransactionSizeDistribution(a) => a.handle_block(block_data, ctx),
            Analytic::UnclaimedTokens(a) => a.handle_block(block_data, ctx),
            Analytic::UnlockConditions(a) => a.handle_block(block_data, ctx),
        }
    }

    fn end_milestone<C: AnalyticsContext>(&mut self, ctx: &C) -> (r: Option<PerMilestone<Measurement>>) {
        let at = *ctx.at();
        match self {
            Analytic::AddressBalance(a) => match a.end_milestone(ctx) {
                Some(m) => Some(PerMilestone { at, inner: Measurement::AddressBalance(m) }),
                None => None,
            },
            Analytic::BaseTokenActivity(a) => match a.end_milestone(ctx) {
                Some(m) => Some(PerMilestone { at, inner: Measurement::BaseTokenActivity(m) }),
                None => None,
            },
            Analytic::BlockActivity(a) => match a.end_milestone(ctx) {
                Some(m) => Some(PerMilestone { at, inner: Measurement::BlockActivity(m) }),
                None => None,
            },
            Analytic::ActiveAddresses(a) => match a.end_milestone(ctx) {
                Some(m) => Some(PerMilestone { at, inner: Measurement::ActiveAddresses(m) }),
                None => None,
            },
            Analytic::LedgerOutputs(a) => match a.end_milestone(ctx) {
                Some(m) => Some(PerMilestone { at, inner: Measurement::LedgerOutputs(m) }),
                None => None,
            },
            Analytic::LedgerSize(a) => match a.end_milestone(ctx) {
                Some(m) => Some(PerMilestone { at, inner: Measurement::LedgerSize(m) }),
                None => None,
            },
            Analytic::MilestoneSize(a) => match a.end_milestone(ctx) {
                Some(m) => Some(PerMilestone { at, inner: Measurement::MilestoneSize(m) }),
                None => None,
            },
            Analytic::OutputActivity(a) => match a.end_milestone(ctx) {
                Some(m) => Some(PerMilestone { at, inner: Measurement::OutputActivity(m) }),
                None => None,
            },
            Analytic::ProtocolParameters(a) => match a.end_milestone(ctx) {
                Some(m) => Some(PerMilestone { at, inner: Measurement::ProtocolParameters(m) }),
                None => None,
            },
            Analytic::TransactionSizeDistribution(a) => match a.end_milestone(ctx) {
                Some(m) => Some(PerMilestone { at, inner: Measurement::TransactionSizeDistribution(m) }),
                None => None,
            },
            Analytic::UnclaimedTokens(a) => match a.end_milestone(ctx) {
                Some(m) => Some(PerMilestone { at, inner: Measurement::UnclaimedTokens(m) }),
                None => None,
            },
            Analytic::UnlockConditions(a) => match a.end_milestone(ctx) {
                Some(m) => Some(PerMilestone { at, inner: Measurement::UnlockConditions(m) }),
                None => None,
            },
        }
    }
}

/// The measurements among `outs`, in order.
pub open spec fn produced<M>(outs: Seq<Option<M>>) -> Seq<M>
    decreases outs.len(),
{
    if outs.len() == 0 {
        Seq::empty()
    } else {
        let r = produced(outs.drop_last());
        match outs.last() {
            Some(m) => r.push(m),
            None => r,
        }
    }
}

/// A list of analytics, each handed every event in turn.
impl Analytics for Vec<Analytic> {
    type Measurement = Vec<PerMilestone<Measurement>>;

    open spec fn inv(self) -> bool {
        forall|i: int| 0 <= i < self@.len() ==> #[trigger] self@[i].inv()
    }

    open spec fn transaction_post(
        self,
        consumed: Seq<LedgerSpent>,
        created: Seq<LedgerOutput>,
        next: Self,
    ) -> bool {
        &&& next@.len() == self@.len()
        &&& forall|i: int|
            0 <= i < self@.len() ==> #[trigger] self@[i].transaction_post(consumed, created, next@[i])
    }

    open spec fn block_post(self, block: BlockData, next: Self) -> bool {
        &&& next@.len() == self@.len()
        &&& forall|i: int| 0 <= i < self@.len() ==> #[trigger] self@[i].block_post(block, next@[i])
    }

    /// Every analytic ends the milestone, and the measurements they produce are collected in
    /// order.
    open spec fn milestone_post(
        self,
        at: MilestoneIndexTimestamp,
        params: ProtocolParameters,
        next: Self,
        out: Option<Vec<PerMilestone<Measurement>>>,
    ) -> bool {
        &&& next@.len() == self@.len()
        &&& out matches Some(v)
        &&& exists|outs: Seq<Option<PerMilestone<Measurement>>>|
            {
                &&& outs.len() == self@.len()
                &&& forall|i: int|
                    0 <= i < self@.len() ==> #[trigger] self@[i].milestone_post(
                        at,
                        params,
                        next@[i],
                        outs[i],
                    )
                &&& v@ == produced(outs)
            }
    }

    fn handle_transaction<C: AnalyticsContext>(
        &mut self,
        consumed: &[LedgerSpent],
        created: &[LedgerOutput],
        ctx: &C,
    ) {
        let mut i: usize = 0;
        while i < self.len()
            invariant
                i <= self@.len(),
                self@.len() == old(self)@.len(),
                forall|k: int| 0 <= k < old(self)@.len() ==> #[trigger] old(self)@[k].inv(),
                forall|k: int|
                    0 <= k < i ==> #[trigger] old(self)@[k].transaction_post(
                        consumed@,
                        created@,
                        self@[k],
                    ),
                forall|k: int| 0 <= k < i ==> #[trigger] self@[k].inv(),
                forall|k: int| i <= k < self@.len() ==> #[trigger] self@[k] == old(self)@[k],
            decreases self.len() - i,
        {
            self[i].handle_transaction(consumed, created, ctx);
            i = i + 1;
        }
    }

    fn handle_block<C: AnalyticsContext>(&mut self, block_data: &BlockData, ctx: &C) {
        let mut i: usize = 0;
        while i < self.len()
            invariant
                i <= self@.len(),
                self@.len() == old(self)@.len(),
                forall|k: int| 0 <= k < old(self)@.len() ==> #[trigger] old(self)@[k].inv(),
                forall|k: int|
                    0 <= k < i ==> #[trigger] old(self)@[k].block_post(*block_data, self@[k]),
                forall|k: int| 0 <= k < i ==> #[trigger] self@[k].inv(),
                forall|k: int| i <= k < self@.len() ==> #[trigger] self@[k] == old(self)@[k],
            decreases self.len() - i,
        {
            self[i].handle_block(block_data, ctx);
            i = i + 1;
        }
    }

    fn end_milestone<C: AnalyticsContext>(&mut self, ctx: &C) -> (r: Option<Vec<PerMilestone<Measurement>>>) {
        let mut out: Vec<PerMilestone<Measurement>> = Vec::new();
        let ghost mut outs: Seq<Option<PerMilestone<Measurement>>> = Seq::empty();
        let mut i: usize = 0;
        while i < self.len()
            invariant
                i <= self@.len(),
                self@.len() == old(self)@.len(),
                outs.len() == i,
                out@ == produced(outs),
                forall|k: int| 0 <= k < old(self)@.len() ==> #[trigger] old(self)@[k].inv(),
                forall|k: int|
                    0 <= k < i ==> #[trigger] old(self)@[k].milestone_post(
                        ctx.spec_at(),
                        ctx.spec_protocol_params(),
                        self@[k],
                        outs[k],
                    ),
                forall|k: int| 0 <= k < i ==> #[trigger] self@[k].inv(),
                forall|k: int| i <= k < self@.len() ==> #[trigger] self@[k] == old(self)@[k],
            decreases self.len() - i,
        {
            let m = self[i].end_milestone(ctx);
            let ghost prev = outs;
            proof {
                outs = outs.push(m);
                assert(outs.drop_last() =~= prev);
            }
            match m {
                Some(p) => out.push(p),
                None => {},
            }
            i = i + 1;
        }
        Some(out)
    }
}

} // verus!
