//! The contract that every per-milestone analytic follows.
use vstd::prelude::*;

use crate::payload::BlockData;
use crate::types::{LedgerOutput, LedgerSpent, MilestoneIndexTimestamp, ProtocolParameters};

verus! {

/// Read-only facts about the milestone whose events are being delivered.
pub trait AnalyticsContext {
    spec fn spec_protocol_params(&self) -> ProtocolParameters;

    spec fn spec_at(&self) -> MilestoneIndexTimestamp;

    fn protocol_params(&self) -> (r: &ProtocolParameters)
        ensures
            *r == self.spec_protocol_params(),
    ;

    fn at(&self) -> (r: &MilestoneIndexTimestamp)
        ensures
            *r == self.spec_at(),
    ;
}

/// An analytic: state that the events of each milestone update, and that yields a
/// measurement when the milestone ends. Each step is described by a relation between the
/// state before and after it.
pub trait Analytics: Sized {
    /// The resulting measurement.
    type Measurement;

    /// What the state keeps true between events.
    spec fn inv(self) -> bool;

    /// The state after a transaction that consumed `consumed` and created `created`.
    spec fn transaction_post(
        self,
        consumed: Seq<LedgerSpent>,
        created: Seq<LedgerOutput>,
        next: Self,
    ) -> bool;

    /// The state after a block.
    spec fn block_post(self, block: BlockData, next: Self) -> bool;

    /// The state and the measurement at the end of a milestone.
    spec fn milestone_post(
        self,
        at: MilestoneIndexTimestamp,
        params: ProtocolParameters,
        next: Self,
        out: Option<Self::Measurement>,
    ) -> bool;

    /// Handle a transaction consisting of inputs (consumed) and outputs (created).
    fn handle_transaction<C: AnalyticsContext>(
        &mut self,
        consumed: &[LedgerSpent],
        created: &[LedgerOutput],
        ctx: &C,
    )
        requires
            old(self).inv(),
        ensures
            final(self).inv(),
            old(self).transaction_post(consumed@, created@, *final(self)),
    ;

    /// Handle a block.
    fn handle_block<C: AnalyticsContext>(&mut self, block_data: &BlockData, ctx: &C)
        requires
            old(self).inv(),
        ensures
            final(self).inv(),
            old(self).block_post(*block_data, *final(self)),
    ;

    /// Finish a milestone and return the measurement if one was created.
    fn end_milestone<C: AnalyticsContext>(&mut self, ctx: &C) -> (r: Option<Self::Measurement>)
        requires
            old(self).inv(),
        ensures
            final(self).inv(),
            old(self).milestone_post(ctx.spec_at(), ctx.spec_protocol_params(), *final(self), r),
    ;
}

} // verus!
