//! Per-milestone activity: tokens booked and moved, transaction sizes, and what happened to
//! aliases, NFTs and foundries.
use vstd::prelude::*;

use crate::analytics::{Analytics, AnalyticsContext};
use crate::payload::BlockData;
use crate::sums::{clamp_u64, outputs_of, saturating_delta, tally, total, Booked, OutputFilter, OutputValue};
use crate::types::{
    Address, ChainId, LedgerOutput, LedgerSpent, MilestoneIndexTimestamp, ProtocolParameters,
};

verus! {

/// Whether the output at `i` has an owner that no earlier output of `s` has.
pub open spec fn first_owner_at(s: Seq<LedgerOutput>, i: int) -> bool {
    &&& s[i].output.owning_address is Some
    &&& forall|j: int| 0 <= j < i ==> s[j].output.owning_address != s[i].output.owning_address
}

/// What an address gained in a transaction: what it received less what it spent, or zero.
pub open spec fn net_gain(created: Seq<LedgerOutput>, consumed: Seq<LedgerOutput>, a: Address) -> int {
    let received = tally(created, OutputFilter::OwnedBy(a), OutputValue::Amount);
    let spent = tally(consumed, OutputFilter::OwnedBy(a), OutputValue::Amount);
    if received > spent {
        received - spent
    } else {
        0
    }
}

/// The gains of the distinct owners among the first `n` created outputs.
pub open spec fn gains_upto(created: Seq<LedgerOutput>, consumed: Seq<LedgerOutput>, n: int) -> int
    decreases n,
{
    if n <= 0 {
        0
    } else {
        gains_upto(created, consumed, n - 1) + if first_owner_at(created, n - 1) {
            net_gain(created, consumed, created[n - 1].output.owning_address->0)
        } else {
            0
        }
    }
}

/// The tokens that a transaction moved to other owners: the sum over the owners of created
/// outputs of what each gained.
pub open spec fn transferred(created: Seq<LedgerOutput>, consumed: Seq<LedgerOutput>) -> int {
    gains_upto(created, consumed, created.len() as int)
}

proof fn lemma_clamp_add(y: int, t: int)
    requires
        y >= 0,
        t >= 0,
    ensures
        clamp_u64(clamp_u64(y) + t) == clamp_u64(y + t),
        clamp_u64(y) + (if t > u64::MAX { u64::MAX as int } else { t }) > u64::MAX ==> clamp_u64(
            y + t,
        ) == u64::MAX,
{
}

/// Tokens booked on created outputs, and tokens moved between owners, within a milestone.
#[derive(Clone, Copy, Debug, Default, PartialEq, Eq, Structural)]
pub struct BaseTokenActivityMeasurement {
    pub booked_amount: u64,
    pub transferred_amount: u64,
}

impl BaseTokenActivityMeasurement {
    pub open spec fn updated(self, created: Seq<LedgerOutput>, consumed: Seq<LedgerOutput>) -> Self {
        BaseTokenActivityMeasurement {
            booked_amount: clamp_u64(
                self.booked_amount + tally(created, OutputFilter::All, OutputValue::Amount),
            ) as u64,
            transferred_amount: clamp_u64(self.transferred_amount + transferred(created, consumed)) as u64,
        }
    }

    pub fn new() -> (r: Self)
        ensures
            r == (BaseTokenActivityMeasurement { booked_amount: 0, transferred_amount: 0 }),
    {
        BaseTokenActivityMeasurement { booked_amount: 0, transferred_amount: 0 }
    }

    /// Whether an earlier created output has the same owner as the one at `i`.
    fn owner_seen_before(created: &[LedgerOutput], i: usize, a: Address) -> (r: bool)
        requires
            i < created.len(),
            created@[i as int].output.owning_address == Some(a),
        ensures
            r == !first_owner_at(created@, i as int),
    {
        let mut j: usize = 0;
        while j < i
            invariant
                j <= i < created.len(),
                created@[i as int].output.owning_address == Some(a),
                forall|k: int| 0 <= k < j ==> created@[k].output.owning_address != Some(a),
            decreases i - j,
        {
            if created[j].output.owning_address == Some(a) {
                return true;
            }
            j = j + 1;
        }
        false
    }
}

impl Analytics for BaseTokenActivityMeasurement {
    type Measurement = BaseTokenActivityMeasurement;

    open spec fn inv(self) -> bool {
        true
    }

    open spec fn transaction_post(
        self,
        consumed: Seq<LedgerSpent>,
        created: Seq<LedgerOutput>,
        next: Self,
    ) -> bool {
        next == self.updated(outputs_of(created), outputs_of(consumed))
    }

    open spec fn block_post(self, block: BlockData, next: Self) -> bool {
        next == self
    }

    open spec fn milestone_post(
        self,
        at: MilestoneIndexTimestamp,
        params: ProtocolParameters,
        next: Self,
        out: Option<Self>,
    ) -> bool {
        next == (BaseTokenActivityMeasurement { booked_amount: 0, transferred_amount: 0 }) && out
            == Some(self)
    }

    fn handle_transaction<C: AnalyticsContext>(
        &mut self,
        consumed: &[LedgerSpent],
        created: &[LedgerOutput],
        ctx: &C,
    ) {
        let ghost cr = outputs_of(created@);
        let ghost co = outputs_of(consumed@);
        proof {
            assert(cr =~= created@);
        }
        let booked = total(created, OutputFilter::All, OutputValue::Amount);
        self.booked_amount = saturating_delta(self.booked_amount, booked, 0);
        let ghost start = self.transferred_amount;
        let mut moved: u64 = self.transferred_amount;
        let mut i: usize = 0;
        while i < created.len()
            invariant
                i <= created.len(),
                cr == created@,
                cr == outputs_of(created@),
                co == outputs_of(consumed@),
                moved == clamp_u64(start + gains_upto(cr, co, i as int)),
                gains_upto(cr, co, i as int) >= 0,
            decreases created.len() - i,
        {
            match created[i].output.owning_address {
                Some(a) => {
                    if !Self::owner_seen_before(created, i, a) {
                        let received = total(created, OutputFilter::OwnedBy(a), OutputValue::Amount);
                        let spent = total(consumed, OutputFilter::OwnedBy(a), OutputValue::Amount);
                        let gain: u128 = if received > spent {
                            received - spent
                        } else {
                            0
                        };
                        let capped: u64 = if gain > u64::MAX as u128 {
                            u64::MAX
                        } else {
                            gain as u64
                        };
                        proof {
                            lemma_clamp_add(start + gains_upto(cr, co, i as int), gain as int);
                            assert(gain == net_gain(cr, co, a));
                        }
                        moved = moved.saturating_add(capped);
                    }
                },
                None => {},
            }
            proof {
                assert(gains_upto(cr, co, i + 1) == gains_upto(cr, co, i as int) + if first_owner_at(
                    cr,
                    i as int,
                ) {
                    net_gain(cr, co, cr[i as int].output.owning_address->0)
                } else {
                    0
                });
            }
            i = i + 1;
        }
        self.transferred_amount = moved;
    }

    fn handle_block<C: AnalyticsContext>(&mut self, block_data: &BlockData, ctx: &C) {
    }

    fn end_milestone<C: AnalyticsContext>(&mut self, ctx: &C) -> (r: Option<Self>) {
        let r = *self;
        *self = Self::new();
        Some(r)
    }
}

/// Counts of transactions by how many inputs or outputs they have: one count for each size
/// from 1 to 7, then `small` (8 to 16), `medium` (17 to 32), `large` (33 to 64) and `huge`
/// (65 and more). A transaction without inputs or without outputs counts in no bucket of
/// that side.
#[derive(Clone, Copy, Debug, Default)]
pub struct TransactionSizeBuckets {
    pub single: [u64; 7],
    pub small: u64,
    pub medium: u64,
    pub large: u64,
    pub huge: u64,
}

impl TransactionSizeBuckets {
    pub open spec fn zero() -> Self {
        TransactionSizeBuckets {
            single: vstd::array::spec_array_fill_for_copy_type::<u64, 7>(0),
            small: 0,
            medium: 0,
            large: 0,
            huge: 0,
        }
    }

    /// The counts after one more transaction of size `n`.
    pub open spec fn counted(self, n: int) -> Self {
        if 1 <= n <= 7 {
            TransactionSizeBuckets {
                single: vstd::array::spec_array_update(
                    self.single,
                    n - 1,
                    self.single@[n - 1].saturating_add(1),
                ),
                ..self
            }
        } else if 8 <= n <= 16 {
            TransactionSizeBuckets { small: self.small.saturating_add(1), ..self }
        } else if 17 <= n <= 32 {
            TransactionSizeBuckets { medium: self.medium.saturating_add(1), ..self }
        } else if 33 <= n <= 64 {
            TransactionSizeBuckets { large: self.large.saturating_add(1), ..self }
        } else if n >= 65 {
            TransactionSizeBuckets { huge: self.huge.saturating_add(1), ..self }
        } else {
            self
        }
    }

    pub fn new() -> (r: Self)
        ensures
            r == Self::zero(),
    {
        TransactionSizeBuckets { single: [0u64; 7], small: 0, medium: 0, large: 0, huge: 0 }
    }

    /// Counts one more transaction of size `n`.
    pub fn add(&mut self, n: usize)
        ensures
            *final(self) == old(self).counted(n as int),
    {
        if 1 <= n && n <= 7 {
            let v = self.single[n - 1].saturating_add(1);
            self.single[n - 1] = v;
            assert(self.single =~= old(self).counted(n as int).single);
        } else if 8 <= n && n <= 16 {
            self.small = self.small.saturating_add(1);
        } else if 17 <= n && n <= 32 {
            self.medium = self.medium.saturating_add(1);
        } else if 33 <= n && n <= 64 {
            self.large = self.large.saturating_add(1);
        } else if n >= 65 {
            self.huge = self.huge.saturating_add(1);
        }
    }

    /// The number of transactions of size `i`, for `i` from 1 to 7.
    pub fn single(&self, i: usize) -> (r: u64)
        requires
            1 <= i <= 7,
        ensures
            r == self.single@[i - 1],
    {
        self.single[i - 1]
    }
}

/// Histograms of the number of inputs and of outputs of the transactions of a milestone.
#[derive(Clone, Copy, Debug, Default)]
pub struct TransactionSizeMeasurement {
    pub input_buckets: TransactionSizeBuckets,
    pub output_buckets: TransactionSizeBuckets,
}

impl TransactionSizeMeasurement {
    pub open spec fn zero() -> Self {
        TransactionSizeMeasurement {
            input_buckets: TransactionSizeBuckets::zero(),
            output_buckets: TransactionSizeBuckets::zero(),
        }
    }

    pub fn new() -> (r: Self)
        ensures
            r == Self::zero(),
    {
        TransactionSizeMeasurement {
            input_buckets: TransactionSizeBuckets::new(),
            output_buckets: TransactionSizeBuckets::new(),
        }
    }
}

impl Analytics for TransactionSizeMeasurement {
    type Measurement = TransactionSizeMeasurement;

    open spec fn inv(self) -> bool {
        true
    }

    open spec fn transaction_post(
        self,
        consumed: Seq<LedgerSpent>,
        created: Seq<LedgerOutput>,
        next: Self,
    ) -> bool {
        next == (TransactionSizeMeasurement {
            input_buckets: self.input_buckets.counted(consumed.len() as int),
            output_buckets: self.output_buckets.counted(created.len() as int),
        })
    }

    open spec fn block_post(self, block: BlockData, next: Self) -> bool {
        next == self
    }

    open spec fn milestone_post(
        self,
        at: MilestoneIndexTimestamp,
        params: ProtocolParameters,
        next: Self,
        out: Option<Self>,
    ) -> bool {
        next == Self::zero() && out == Some(self)
    }

    fn handle_transaction<C: AnalyticsContext>(
        &mut self,
        consumed: &[LedgerSpent],
        created: &[LedgerOutput],
        ctx: &C,
    ) {
        self.input_buckets.add(consumed.len());
        self.output_buckets.add(created.len());
    }

    fn handle_block<C: AnalyticsContext>(&mut self, block_data: &BlockData, ctx: &C) {
    }

    fn end_milestone<C: AnalyticsContext>(&mut self, ctx: &C) -> (r: Option<Self>) {
        let r = *self;
        *self = Self::new();
        Some(r)
    }
}

/// The position of the first of the first `n` outputs of `s` that carries the chain `c`.
pub open spec fn find_chain(s: Seq<LedgerOutput>, c: ChainId, n: int) -> Option<int>
    decreases n,
{
    if n <= 0 {
        None
    } else {
        match find_chain(s, c, n - 1) {
            Some(k) => Some(k),
            None => if s[n - 1].output.chain_id == Some(c) {
                Some(n - 1)
            } else {
                None
            },
        }
    }
}

/// Once found among the first `m` outputs, the first carrier stays the first.
proof fn lemma_find_chain_settled(s: Seq<LedgerOutput>, c: ChainId, m: int, n: int)
    requires
        m <= n,
        find_chain(s, c, m) is Some,
    ensures
        find_chain(s, c, n) == find_chain(s, c, m),
    decreases n - m,
{
    if m < n {
        lemma_find_chain_settled(s, c, m, n - 1);
    }
}

/// Finds the first of the first `n` items whose output carries the chain `c`.
pub fn find_chain_exec<T: Booked>(items: &[T], c: ChainId, n: usize) -> (r: Option<usize>)
    requires
        n <= items.len(),
    ensures
        match r {
            Some(k) => k < n && find_chain(outputs_of(items@), c, n as int) == Some(k as int),
            None => find_chain(outputs_of(items@), c, n as int) is None,
        },
{
    let ghost s = outputs_of(items@);
    let mut j: usize = 0;
    while j < n
        invariant
            j <= n <= items.len(),
            s == outputs_of(items@),
            find_chain(s, c, j as int) is None,
        decreases n - j,
    {
        let o = items[j].ledger_output();
        proof {
            assert(s[j as int] == *o);
        }
        if o.output.chain_id == Some(c) {
            proof {
                assert(find_chain(s, c, j + 1) == Some(j as int));
                lemma_find_chain_settled(s, c, j + 1, n as int);
            }
            return Some(j);
        }
        j = j + 1;
    }
    None
}

#[derive(Clone, Copy, Debug, Default, PartialEq, Eq, Structural)]
pub struct AliasActivityMeasurement {
    pub created_count: u64,
    pub governor_changed_count: u64,
    pub state_changed_count: u64,
    pub destroyed_count: u64,
}

#[derive(Clone, Copy, Debug, Default, PartialEq, Eq, Structural)]
pub struct NftActivityMeasurement {
    pub created_count: u64,
    pub transferred_count: u64,
    pub destroyed_count: u64,
}

#[derive(Clone, Copy, Debug, Default, PartialEq, Eq, Structural)]
pub struct FoundryActivityMeasurement {
    pub created_count: u64,
    pub transferred_count: u64,
    pub destroyed_count: u64,
}

/// What happened to aliases, NFTs and foundries within a milestone. A chain that a
/// transaction creates but did not consume was created; one that it consumed but does not
/// create was destroyed; one on both sides was transferred, and for an alias the transfer
/// changed its state when the state index differs, and else its governor.
#[derive(Clone, Copy, Debug, Default, PartialEq, Eq, Structural)]
pub struct OutputActivityMeasurement {
    pub nft: NftActivityMeasurement,
    pub alias: AliasActivityMeasurement,
    pub foundry: FoundryActivityMeasurement,
}

impl OutputActivityMeasurement {
    pub open spec fn zero() -> Self {
        OutputActivityMeasurement {
            nft: NftActivityMeasurement { created_count: 0, transferred_count: 0, destroyed_count: 0 },
            alias: AliasActivityMeasurement {
                created_count: 0,
                governor_changed_count: 0,
                state_changed_count: 0,
                destroyed_count: 0,
            },
            foundry: FoundryActivityMeasurement {
                created_count: 0,
                transferred_count: 0,
                destroyed_count: 0,
            },
        }
    }

    /// Counts a created output that carries the chain `c`, given the consumed output that
    /// carried it before, if there was one.
    pub open spec fn record_created(self, c: ChainId, o: LedgerOutput, prior: Option<LedgerOutput>) -> Self {
        let (nft, alias, foundry) = (self.nft, self.alias, self.foundry);
        match c {
            ChainId::Nft(_) => match prior {
                None => Self {
                    nft: NftActivityMeasurement { created_count: nft.created_count.saturating_add(1), ..nft },
                    ..self
                },
                Some(_) => Self {
                    nft: NftActivityMeasurement {
                        transferred_count: nft.transferred_count.saturating_add(1),
                        ..nft
                    },
                    ..self
                },
            },
            ChainId::Alias(_) => match prior {
                None => Self {
                    alias: AliasActivityMeasurement {
                        created_count: alias.created_count.saturating_add(1),
                        ..alias
                    },
                    ..self
                },
                Some(p) => if p.output.state_index != o.output.state_index {
                    Self {
                        alias: AliasActivityMeasurement {
                            state_changed_count: alias.state_changed_count.saturating_add(1),
                            ..alias
                        },
                        ..self
                    }
                } else {
                    Self {
                        alias: AliasActivityMeasurement {
                            governor_changed_count: alias.governor_changed_count.saturating_add(1),
                            ..alias
                        },
                        ..self
                    }
                },
            },
            ChainId::Foundry(_) => match prior {
                None => Self {
                    foundry: FoundryActivityMeasurement {
                        created_count: foundry.created_count.saturating_add(1),
                        ..foundry
                    },
                    ..self
                },
                Some(_) => Self {
                    foundry: FoundryActivityMeasurement {
                        transferred_count: foundry.transferred_count.saturating_add(1),
                        ..foundry
                    },
                    ..self
                },
            },
        }
    }

    /// Counts a chain that was consumed and not created again.
    pub open spec fn record_destroyed(self, c: ChainId) -> Self {
        let (nft, alias, foundry) = (self.nft, self.alias, self.foundry);
        match c {
            ChainId::Nft(_) => Self {
                nft: NftActivityMeasurement { destroyed_count: nft.destroyed_count.saturating_add(1), ..nft },
                ..self
            },
            ChainId::Alias(_) => Self {
                alias: AliasActivityMeasurement {
                    destroyed_count: alias.destroyed_count.saturating_add(1),
                    ..alias
                },
                ..self
            },
            ChainId::Foundry(_) => Self {
                foundry: FoundryActivityMeasurement {
                    destroyed_count: foundry.destroyed_count.saturating_add(1),
                    ..foundry
                },
                ..self
            },
        }
    }

    /// The counts after the first `n` created outputs, each chain counted once.
    pub open spec fn after_created(self, created: Seq<LedgerOutput>, consumed: Seq<LedgerOutput>, n: int) -> Self
        decreases n,
    {
        if n <= 0 {
            self
        } else {
            let prev = self.after_created(created, consumed, n - 1);
            let o = created[n - 1];
            match o.output.chain_id {
                Some(c) => if find_chain(created, c, n - 1) is None {
                    let prior = match find_chain(consumed, c, consumed.len() as int) {
                        Some(k) => Some(consumed[k]),
                        None => None,
                    };
                    prev.record_created(c, o, prior)
                } else {
                    prev
                },
                None => prev,
            }
        }
    }

    /// The counts after the first `n` consumed outputs, each chain counted once.
    pub open spec fn after_consumed(self, created: Seq<LedgerOutput>, consumed: Seq<LedgerOutput>, n: int) -> Self
        decreases n,
    {
        if n <= 0 {
            self
        } else {
            let prev = self.after_consumed(created, consumed, n - 1);
            match consumed[n - 1].output.chain_id {
                Some(c) => if find_chain(consumed, c, n - 1) is None && find_chain(
                    created,
                    c,
                    created.len() as int,
                ) is None {
                    prev.record_destroyed(c)
                } else {
                    prev
                },
                None => prev,
            }
        }
    }

    pub open spec fn updated(self, created: Seq<LedgerOutput>, consumed: Seq<LedgerOutput>) -> Self {
        self.after_created(created, consumed, created.len() as int).after_consumed(
            created,
            consumed,
            consumed.len() as int,
        )
    }

    pub fn new() -> (r: Self)
        ensures
            r == Self::zero(),
    {
        OutputActivityMeasurement {
            nft: NftActivityMeasurement { created_count: 0, transferred_count: 0, destroyed_count: 0 },
            alias: AliasActivityMeasurement {
                created_count: 0,
                governor_changed_count: 0,
                state_changed_count: 0,
                destroyed_count: 0,
            },
            foundry: FoundryActivityMeasurement {
                created_count: 0,
                transferred_count: 0,
                destroyed_count: 0,
            },
        }
    }

    fn count_created(&mut self, c: ChainId, o: &LedgerOutput, prior: Option<LedgerOutput>)
        ensures
            *final(self) == old(self).record_created(c, *o, prior),
    {
        match c {
            ChainId::Nft(_) => match prior {
                None => self.nft.created_count = self.nft.created_count.saturating_add(1),
                Some(_) => self.nft.transferred_count = self.nft.transferred_count.saturating_add(1),
            },
            ChainId::Alias(_) => match prior {
                None => self.alias.created_count = self.alias.created_count.saturating_add(1),
                Some(p) => if p.output.state_index != o.output.state_index {
                    self.alias.state_changed_count = self.alias.state_changed_count.saturating_add(1);
                } else {
                    self.alias.governor_changed_count = self.alias.governor_changed_count.saturating_add(1);
                },
            },
            ChainId::Foundry(_) => match prior {
                None => self.foundry.created_count = self.foundry.created_count.saturating_add(1),
                Some(_) => self.foundry.transferred_count = self.foundry.transferred_count.saturating_add(1),
            },
        }
    }

    fn count_destroyed(&mut self, c: ChainId)
        ensures
            *final(self) == old(self).record_destroyed(c),
    {
        match c {
            ChainId::Nft(_) => self.nft.destroyed_count = self.nft.destroyed_count.saturating_add(1),
            ChainId::Alias(_) => self.alias.destroyed_count = self.alias.destroyed_count.saturating_add(1),
            ChainId::Foundry(_) => self.foundry.destroyed_count = self.foundry.destroyed_count.saturating_add(1),
        }
    }
}

impl Analytics for OutputActivityMeasurement {
    type Measurement = OutputActivityMeasurement;

    open spec fn inv(self) -> bool {
        true
    }

    open spec fn transaction_post(
        self,
        consumed: Seq<LedgerSpent>,
        created: Seq<LedgerOutput>,
        next: Self,
    ) -> bool {
        next == self.updated(outputs_of(created), outputs_of(consumed))
    }

    open spec fn block_post(self, block: BlockData, next: Self) -> bool {
        next == self
    }

    open spec fn milestone_post(
        self,
        at: MilestoneIndexTimestamp,
        params: ProtocolParameters,
        next: Self,
        out: Option<Self>,
    ) -> bool {
        next == Self::zero() && out == Some(self)
    }

    fn handle_transaction<C: AnalyticsContext>(
        &mut self,
        consumed: &[LedgerSpent],
        created: &[LedgerOutput],
        ctx: &C,
    ) {
        let ghost cr = outputs_of(created@);
        let ghost co = outputs_of(consumed@);
        let ghost start = *self;
        let mut i: usize = 0;
        while i < created.len()
            invariant
                i <= created.len(),
                cr == outputs_of(created@),
                co == outputs_of(consumed@),
                *self == start.after_created(cr, co, i as int),
            decreases created.len() - i,
        {
            let o = &created[i];
            proof {
                assert(cr[i as int] == *o);
            }
            match o.output.chain_id {
                Some(c) => {
                    if find_chain_exec(created, c, i).is_none() {
                        let prior = match find_chain_exec(consumed, c, consumed.len()) {
                            Some(k) => Some(consumed[k].output),
                            None => None,
                        };
                        self.count_created(c, o, prior);
                    }
                },
                None => {},
            }
            i = i + 1;
        }
        let ghost mid = *self;
        let mut j: usize = 0;
        while j < consumed.len()
            invariant
                j <= consumed.len(),
                cr == outputs_of(created@),
                co == outputs_of(consumed@),
                mid == start.after_created(cr, co, cr.len() as int),
                *self == mid.after_consumed(cr, co, j as int),
            decreases consumed.len() - j,
        {
            let o = consumed[j].ledger_output();
            proof {
                assert(co[j as int] == *o);
            }
            match o.output.chain_id {
                Some(c) => {
                    if find_chain_exec(consumed, c, j).is_none() && find_chain_exec(
                        created,
                        c,
                        created.len(),
                    ).is_none() {
                        self.count_destroyed(c);
                    }
                },
                None => {},
            }
            j = j + 1;
        }
    }

    fn handle_block<C: AnalyticsContext>(&mut self, block_data: &BlockData, ctx: &C) {
    }

    fn end_milestone<C: AnalyticsContext>(&mut self, ctx: &C) -> (r: Option<Self>) {
        let r = *self;
        *self = Self::new();
        Some(r)
    }
}

} // verus!
