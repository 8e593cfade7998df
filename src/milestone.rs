//! Feeding the blocks of a milestone to analytics: each included transaction is resolved
//! against the milestone's ledger updates before the analytics see it.
use vstd::prelude::*;

use crate::analytics::{Analytics, AnalyticsContext};
use crate::payload::{BlockData, Input, LedgerInclusionState, Payload, TransactionEssence};
use crate::types::{
    Digest, LedgerOutput, LedgerSpent, MilestoneIndex, MilestoneIndexTimestamp, OutputId,
    ProtocolParameters,
};

verus! {

/// Why a milestone could not be analysed.
#[derive(Clone, Copy, Debug, PartialEq, Eq, Structural)]
pub enum AnalyticsError {
    /// An output that a transaction created is missing from the ledger updates.
    MissingLedgerOutput { output_id: OutputId, milestone_index: MilestoneIndex },
    /// An output that a transaction consumed is missing from the ledger updates.
    MissingLedgerSpent { output_id: OutputId, milestone_index: MilestoneIndex },
}

/// The first of the first `n` consumed outputs with the id `id`.
pub open spec fn find_spent(s: Seq<LedgerSpent>, id: OutputId, n: int) -> Option<LedgerSpent>
    decreases n,
{
    if n <= 0 {
        None
    } else {
        match find_spent(s, id, n - 1) {
            Some(x) => Some(x),
            None => if s[n - 1].output.output_id == id {
                Some(s[n - 1])
            } else {
                None
            },
        }
    }
}

/// The first of the first `n` created outputs with the id `id`.
pub open spec fn find_created(s: Seq<LedgerOutput>, id: OutputId, n: int) -> Option<LedgerOutput>
    decreases n,
{
    if n <= 0 {
        None
    } else {
        match find_created(s, id, n - 1) {
            Some(x) => Some(x),
            None => if s[n - 1].output_id == id {
                Some(s[n - 1])
            } else {
                None
            },
        }
    }
}

/// The outputs that a milestone consumed and created.
#[derive(Clone, Debug)]
pub struct LedgerUpdates {
    pub consumed: Vec<LedgerSpent>,
    pub created: Vec<LedgerOutput>,
}

impl LedgerUpdates {
    pub open spec fn spec_consumed(self, id: OutputId) -> Option<LedgerSpent> {
        find_spent(self.consumed@, id, self.consumed@.len() as int)
    }

    pub open spec fn spec_created(self, id: OutputId) -> Option<LedgerOutput> {
        find_created(self.created@, id, self.created@.len() as int)
    }

    /// The consumed output with the id `output_id`.
    pub fn get_consumed(&self, output_id: &OutputId) -> (r: Option<LedgerSpent>)
        ensures
            r == self.spec_consumed(*output_id),
    {
        let mut i: usize = 0;
        while i < self.consumed.len()
            invariant
                i <= self.consumed.len(),
                find_spent(self.consumed@, *output_id, i as int) is None,
            decreases self.consumed.len() - i,
        {
            if self.consumed[i].output.output_id == *output_id {
                proof {
                    lemma_find_spent_settled(self.consumed@, *output_id, i + 1, self.consumed@.len() as int);
                }
                return Some(self.consumed[i]);
            }
            i = i + 1;
        }
        None
    }

    /// The created output with the id `output_id`.
    pub fn get_created(&self, output_id: &OutputId) -> (r: Option<LedgerOutput>)
        ensures
            r == self.spec_created(*output_id),
    {
        let mut i: usize = 0;
        while i < self.created.len()
            invariant
                i <= self.created.len(),
                find_created(self.created@, *output_id, i as int) is None,
            decreases self.created.len() - i,
        {
            if self.created[i].output_id == *output_id {
                proof {
                    lemma_find_created_settled(self.created@, *output_id, i + 1, self.created@.len() as int);
                }
                return Some(self.created[i]);
            }
            i = i + 1;
        }
        None
    }
}

proof fn lemma_find_spent_settled(s: Seq<LedgerSpent>, id: OutputId, m: int, n: int)
    requires
        m <= n,
        find_spent(s, id, m) is Some,
    ensures
        find_spent(s, id, n) == find_spent(s, id, m),
    decreases n - m,
{
    if m < n {
        lemma_find_spent_settled(s, id, m, n - 1);
    }
}

proof fn lemma_find_created_settled(s: Seq<LedgerOutput>, id: OutputId, m: int, n: int)
    requires
        m <= n,
        find_created(s, id, m) is Some,
    ensures
        find_created(s, id, n) == find_created(s, id, m),
    decreases n - m,
{
    if m < n {
        lemma_find_created_settled(s, id, m, n - 1);
    }
}

/// The consumed outputs of the first `n` inputs, in order, or the id of the first one that
/// the ledger updates lack. Treasury inputs consume no output.
pub open spec fn resolve_inputs(lu: LedgerUpdates, inputs: Seq<Input>, n: int) -> Result<Seq<LedgerSpent>, OutputId>
    decreases n,
{
    if n <= 0 {
        Ok(Seq::empty())
    } else {
        match resolve_inputs(lu, inputs, n - 1) {
            Err(id) => Err(id),
            Ok(s) => match inputs[n - 1] {
                Input::Utxo(id) => match lu.spec_consumed(id) {
                    Some(x) => Ok(s.push(x)),
                    None => Err(id),
                },
                Input::Treasury(_) => Ok(s),
            },
        }
    }
}

/// The id of the output at `index` of the transaction `transaction_id`.
pub open spec fn created_output_id(transaction_id: Digest, index: int) -> OutputId {
    OutputId { transaction_id, index: index as u16 }
}

/// The first `n` created outputs of a transaction, in order, or the id of the first one that
/// the ledger updates lack.
pub open spec fn resolve_outputs(lu: LedgerUpdates, transaction_id: Digest, n: int) -> Result<Seq<LedgerOutput>, OutputId>
    decreases n,
{
    if n <= 0 {
        Ok(Seq::empty())
    } else {
        match resolve_outputs(lu, transaction_id, n - 1) {
            Err(id) => Err(id),
            Ok(s) => match lu.spec_created(created_output_id(transaction_id, n - 1)) {
                Some(x) => Ok(s.push(x)),
                None => Err(created_output_id(transaction_id, n - 1)),
            },
        }
    }
}

proof fn lemma_resolve_inputs_failed(lu: LedgerUpdates, inputs: Seq<Input>, m: int, n: int)
    requires
        m <= n,
        resolve_inputs(lu, inputs, m) is Err,
    ensures
        resolve_inputs(lu, inputs, n) == resolve_inputs(lu, inputs, m),
    decreases n - m,
{
    if m < n {
        lemma_resolve_inputs_failed(lu, inputs, m, n - 1);
    }
}

proof fn lemma_resolve_outputs_failed(lu: LedgerUpdates, transaction_id: Digest, m: int, n: int)
    requires
        m <= n,
        resolve_outputs(lu, transaction_id, m) is Err,
    ensures
        resolve_outputs(lu, transaction_id, n) == resolve_outputs(lu, transaction_id, m),
    decreases n - m,
{
    if m < n {
        lemma_resolve_outputs_failed(lu, transaction_id, m, n - 1);
    }
}

/// The transaction that a block hands to the analytics: the one it carries, when the ledger
/// included it.
pub open spec fn included_transaction(block: BlockData) -> Option<(Digest, Seq<Input>, int)> {
    if block.metadata.inclusion_state == LedgerInclusionState::Included {
        match block.block.payload {
            Some(Payload::Transaction(p)) => match p.essence {
                TransactionEssence::Regular { inputs, outputs } => Some(
                    (p.transaction_id, inputs@, outputs@.len() as int),
                ),
            },
            _ => None,
        }
    } else {
        None
    }
}

/// A milestone: its stamp, the protocol parameters in force, and the outputs it consumed and
/// created.
#[derive(Clone, Debug)]
pub struct Milestone {
    pub at: MilestoneIndexTimestamp,
    pub protocol_params: ProtocolParameters,
    pub ledger_updates: LedgerUpdates,
}

impl AnalyticsContext for Milestone {
    open spec fn spec_protocol_params(&self) -> ProtocolParameters {
        self.protocol_params
    }

    open spec fn spec_at(&self) -> MilestoneIndexTimestamp {
        self.at
    }

    fn protocol_params(&self) -> (r: &ProtocolParameters) {
        &self.protocol_params
    }

    fn at(&self) -> (r: &MilestoneIndexTimestamp) {
        &self.at
    }
}

impl Milestone {
    /// What a block hands to the analytics: nothing but itself, the consumed and created
    /// outputs of the transaction it carries, or the error of an output that cannot be
    /// resolved.
    pub open spec fn resolution(self, block: BlockData) -> Result<
        Option<(Seq<LedgerSpent>, Seq<LedgerOutput>)>,
        AnalyticsError,
    > {
        let milestone_index = block.metadata.referenced_by_milestone_index;
        match included_transaction(block) {
            Some((transaction_id, inputs, n_outputs)) => match resolve_inputs(
                self.ledger_updates,
                inputs,
                inputs.len() as int,
            ) {
                Err(id) => Err(AnalyticsError::MissingLedgerSpent { output_id: id, milestone_index }),
                Ok(consumed) => match resolve_outputs(self.ledger_updates, transaction_id, n_outputs) {
                    Err(id) => Err(AnalyticsError::MissingLedgerOutput { output_id: id, milestone_index }),
                    Ok(created) => Ok(Some((consumed, created))),
                },
            },
            None => Ok(None),
        }
    }

    /// What handing a block to the analytics does: an included transaction is handed over
    /// first, then the block itself. Where an output cannot be resolved the analytics are
    /// left as they were.
    pub open spec fn block_outcome<A: Analytics>(
        self,
        old: A,
        block: BlockData,
        new: A,
        r: Result<(), AnalyticsError>,
    ) -> bool {
        match self.resolution(block) {
            Err(e) => r == Err::<(), AnalyticsError>(e) && new == old,
            Ok(Some((consumed, created))) => r is Ok && exists|mid: A|
                old.transaction_post(consumed, created, mid) && mid.inv() && mid.block_post(block, new),
            Ok(None) => r is Ok && old.block_post(block, new),
        }
    }

    /// The analytics after every block of `blocks`, in order.
    pub open spec fn blocks_outcome<A: Analytics>(self, old: A, blocks: Seq<BlockData>, new: A) -> bool
        decreases blocks.len(),
    {
        if blocks.len() == 0 {
            new == old
        } else {
            exists|mid: A|
                self.blocks_outcome(old, blocks.drop_last(), mid) && mid.inv() && self.block_outcome(
                    mid,
                    blocks.last(),
                    new,
                    Ok(()),
                )
        }
    }

    /// The error of the first of the first `n` blocks that cannot be resolved.
    pub open spec fn first_failure(self, blocks: Seq<BlockData>, n: int) -> Option<AnalyticsError>
        decreases n,
    {
        if n <= 0 {
            None
        } else {
            match self.first_failure(blocks, n - 1) {
                Some(e) => Some(e),
                None => match self.resolution(blocks[n - 1]) {
                    Err(e) => Some(e),
                    Ok(_) => None,
                },
            }
        }
    }

    proof fn lemma_first_failure_settled(self, blocks: Seq<BlockData>, m: int, n: int)
        requires
            m <= n,
            self.first_failure(blocks, m) is Some,
        ensures
            self.first_failure(blocks, n) == self.first_failure(blocks, m),
        decreases n - m,
    {
        if m < n {
            self.lemma_first_failure_settled(blocks, m, n - 1);
        }
    }

    /// Resolves what a block hands to the analytics.
    fn resolve(&self, block_data: &BlockData) -> (r: Result<
        Option<(Vec<LedgerSpent>, Vec<LedgerOutput>)>,
        AnalyticsError,
    >)
        ensures
            match self.resolution(*block_data) {
                Ok(Some((consumed, created))) => r matches Ok(Some((c, d))) && c@ == consumed && d@
                    == created,
                Ok(None) => r matches Ok(None),
                Err(e) => r == Err::<Option<(Vec<LedgerSpent>, Vec<LedgerOutput>)>, AnalyticsError>(e),
            },
    {
        let milestone_index = block_data.metadata.referenced_by_milestone_index;
        if block_data.metadata.inclusion_state == LedgerInclusionState::Included {
            if let Some(Payload::Transaction(payload)) = &block_data.block.payload {
                let TransactionEssence::Regular { inputs, outputs } = &payload.essence;
                let consumed = match self.resolve_consumed(inputs) {
                    Ok(c) => c,
                    Err(output_id) => {
                        return Err(AnalyticsError::MissingLedgerSpent { output_id, milestone_index });
                    },
                };
                let created = match self.resolve_created(payload.transaction_id, outputs.len()) {
                    Ok(c) => c,
                    Err(output_id) => {
                        return Err(AnalyticsError::MissingLedgerOutput { output_id, milestone_index });
                    },
                };
                return Ok(Some((consumed, created)));
            }
        }
        Ok(None)
    }

    /// Resolves the consumed outputs of a transaction's inputs.
    fn resolve_consumed(&self, inputs: &Vec<Input>) -> (r: Result<Vec<LedgerSpent>, OutputId>)
        ensures
            match resolve_inputs(self.ledger_updates, inputs@, inputs@.len() as int) {
                Ok(s) => r matches Ok(v) && v@ == s,
                Err(id) => r == Err::<Vec<LedgerSpent>, OutputId>(id),
            },
    {
        let mut consumed: Vec<LedgerSpent> = Vec::new();
        let mut i: usize = 0;
        while i < inputs.len()
            invariant
                i <= inputs.len(),
                resolve_inputs(self.ledger_updates, inputs@, i as int) == Ok::<
                    Seq<LedgerSpent>,
                    OutputId,
                >(consumed@),
            decreases inputs.len() - i,
        {
            match inputs[i] {
                Input::Utxo(output_id) => match self.ledger_updates.get_consumed(&output_id) {
                    Some(spent) => consumed.push(spent),
                    None => {
                        proof {
                            lemma_resolve_inputs_failed(
                                self.ledger_updates,
                                inputs@,
                                i + 1,
                                inputs@.len() as int,
                            );
                        }
                        return Err(output_id);
                    },
                },
                Input::Treasury(_) => {},
            }
            i = i + 1;
        }
        Ok(consumed)
    }

    /// Resolves the outputs that the transaction `transaction_id` created.
    fn resolve_created(&self, transaction_id: Digest, n: usize) -> (r: Result<Vec<LedgerOutput>, OutputId>)
        ensures
            match resolve_outputs(self.ledger_updates, transaction_id, n as int) {
                Ok(s) => r matches Ok(v) && v@ == s,
                Err(id) => r == Err::<Vec<LedgerOutput>, OutputId>(id),
            },
    {
        let mut created: Vec<LedgerOutput> = Vec::new();
        let mut j: usize = 0;
        while j < n
            invariant
                j <= n,
                resolve_outputs(self.ledger_updates, transaction_id, j as int) == Ok::<
                    Seq<LedgerOutput>,
                    OutputId,
                >(created@),
            decreases n - j,
        {
            let output_id = OutputId { transaction_id, index: j as u16 };
            match self.ledger_updates.get_created(&output_id) {
                Some(output) => created.push(output),
                None => {
                    proof {
                        lemma_resolve_outputs_failed(self.ledger_updates, transaction_id, j + 1, n as int);
                    }
                    return Err(output_id);
                },
            }
            j = j + 1;
        }
        Ok(created)
    }

    /// Hands a block of this milestone to the analytics.
    pub fn handle_block<A: Analytics>(&self, analytics: &mut A, block_data: &BlockData) -> (r: Result<
        (),
        AnalyticsError,
    >)
        requires
            old(analytics).inv(),
        ensures
            final(analytics).inv(),
            self.block_outcome(*old(analytics), *block_data, *final(analytics), r),
    {
        match self.resolve(block_data) {
            Err(e) => Err(e),
            Ok(Some((consumed, created))) => {
                analytics.handle_transaction(consumed.as_slice(), created.as_slice(), self);
                let ghost mid = *analytics;
                analytics.handle_block(block_data, self);
                proof {
                    assert(mid.inv());
                }
                Ok(())
            },
            Ok(None) => {
                analytics.handle_block(block_data, self);
                Ok(())
            },
        }
    }

    /// Updates the analytics with the blocks of this milestone's cone, in order, and ends the
    /// milestone. Every block is resolved before any is handed over, so that where an output
    /// cannot be resolved the analytics are left as they were and the first such error is
    /// returned.
    pub fn update_analytics<A: Analytics>(&self, analytics: &mut A, cone: &[BlockData]) -> (r: Result<
        Option<A::Measurement>,
        AnalyticsError,
    >)
        requires
            old(analytics).inv(),
        ensures
            final(analytics).inv(),
            match self.first_failure(cone@, cone@.len() as int) {
                Some(e) => r == Err::<Option<A::Measurement>, AnalyticsError>(e) && *final(analytics)
                    == *old(analytics),
                None => r matches Ok(m) && exists|mid: A|
                    self.blocks_outcome(*old(analytics), cone@, mid) && mid.inv() && mid.milestone_post(
                        self.at,
                        self.protocol_params,
                        *final(analytics),
                        m,
                    ),
            },
    {
        let mut i: usize = 0;
        while i < cone.len()
            invariant
                i <= cone.len(),
                *analytics == *old(analytics),
                analytics.inv(),
                self.first_failure(cone@, i as int) is None,
            decreases cone.len() - i,
        {
            match self.resolve(&cone[i]) {
                Err(e) => {
                    proof {
                        self.lemma_first_failure_settled(cone@, i + 1, cone@.len() as int);
                    }
                    return Err(e);
                },
                Ok(_) => {},
            }
            i = i + 1;
        }
        let mut j: usize = 0;
        while j < cone.len()
            invariant
                j <= cone.len(),
                self.first_failure(cone@, cone@.len() as int) is None,
                analytics.inv(),
                self.blocks_outcome(*old(analytics), cone@.take(j as int), *analytics),
            decreases cone.len() - j,
        {
            let ghost before = *analytics;
            proof {
                self.lemma_no_failure_prefix(cone@, j + 1, cone@.len() as int);
            }
            let handled = self.handle_block(analytics, &cone[j]);
            proof {
                assert(cone@.take(j + 1).drop_last() =~= cone@.take(j as int));
                assert(cone@.take(j + 1).last() == cone@[j as int]);
                assert(self.blocks_outcome(*old(analytics), cone@.take(j + 1).drop_last(), before));
                assert(self.resolution(cone@[j as int]) is Ok);
                assert(handled is Ok);
                assert(self.block_outcome(before, cone@.take(j + 1).last(), *analytics, Ok(())));
            }
            j = j + 1;
        }
        proof {
            assert(cone@.take(cone@.len() as int) =~= cone@);
        }
        let ghost mid = *analytics;
        let m = analytics.end_milestone(self);
        Ok(m)
    }

    proof fn lemma_no_failure_prefix(self, blocks: Seq<BlockData>, m: int, n: int)
        requires
            0 < m <= n,
            self.first_failure(blocks, n) is None,
        ensures
            self.first_failure(blocks, m) is None,
            self.resolution(blocks[m - 1]) is Ok,
        decreases n - m,
    {
        if m < n {
            self.lemma_no_failure_prefix(blocks, m + 1, n);
        }
    }

    /// Ends the milestone for the analytics and returns what they measured.
    pub fn end_milestone<A: Analytics>(&self, analytics: &mut A) -> (r: Option<A::Measurement>)
        requires
            old(analytics).inv(),
        ensures
            final(analytics).inv(),
            old(analytics).milestone_post(self.at, self.protocol_params, *final(analytics), r),
    {
        analytics.end_milestone(self)
    }
}

} // verus!
