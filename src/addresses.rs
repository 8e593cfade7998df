//! Analytics over the addresses that transactions touch.
use vstd::prelude::*;

use crate::analytics::{Analytics, AnalyticsContext};
use crate::payload::BlockData;
use crate::sums::{outputs_of, Booked};
use crate::types::{Address, LedgerOutput, LedgerSpent, MilestoneIndexTimestamp, ProtocolParameters};

verus! {

/// A set of addresses, each held once.
#[derive(Clone, Debug)]
pub struct AddressSet {
    pub addresses: Vec<Address>,
}

impl View for AddressSet {
    type V = Set<Address>;

    open spec fn view(&self) -> Set<Address> {
        self.addresses@.to_set()
    }
}

impl AddressSet {
    pub open spec fn wf(self) -> bool {
        self.addresses@.no_duplicates()
    }

    pub fn new() -> (r: Self)
        ensures
            r.wf(),
            r@ == Set::<Address>::empty(),
    {
        let r = AddressSet { addresses: Vec::new() };
        proof {
            assert(r@ =~= Set::<Address>::empty());
        }
        r
    }

    pub fn contains(&self, a: &Address) -> (r: bool)
        ensures
            r == self@.contains(*a),
    {
        let mut i: usize = 0;
        while i < self.addresses.len()
            invariant
                i <= self.addresses.len(),
                forall|k: int| 0 <= k < i ==> self.addresses@[k] != *a,
            decreases self.addresses.len() - i,
        {
            if self.addresses[i] == *a {
                proof {
                    assert(self.addresses@.contains(*a));
                }
                return true;
            }
            i = i + 1;
        }
        proof {
            assert(!self.addresses@.contains(*a));
        }
        false
    }

    pub fn insert(&mut self, a: Address)
        requires
            old(self).wf(),
        ensures
            final(self).wf(),
            final(self)@ == old(self)@.insert(a),
    {
        if !self.contains(&a) {
            self.addresses.push(a);
            proof {
                assert(self.addresses@ =~= old(self).addresses@.push(a));
                assert forall|i: int, j: int|
                    0 <= i < self.addresses@.len() && 0 <= j < self.addresses@.len() && i != j implies self.addresses@[i]
                    != self.addresses@[j] by {
                    if i == old(self).addresses@.len() as int {
                        assert(old(self).addresses@.contains(self.addresses@[j]));
                    } else if j == old(self).addresses@.len() as int {
                        assert(old(self).addresses@.contains(self.addresses@[i]));
                    }
                }
                assert forall|x: Address| #[trigger] self@.contains(x) == old(self)@.insert(a).contains(x) by {
                    if x == a {
                        assert(self.addresses@[old(self).addresses@.len() as int] == a);
                    }
                    if old(self).addresses@.contains(x) {
                        let k = choose|k: int| 0 <= k < old(self).addresses@.len() && old(self).addresses@[k] == x;
                        assert(self.addresses@[k] == x);
                    }
                }
                assert(self@ =~= old(self)@.insert(a));
            }
        } else {
            proof {
                assert(self@ =~= old(self)@.insert(a));
            }
        }
    }

    pub fn len(&self) -> (r: usize)
        requires
            self.wf(),
        ensures
            r == self@.len(),
    {
        proof {
            self.addresses@.unique_seq_to_set();
        }
        self.addresses.len()
    }

    pub fn clear(&mut self)
        ensures
            final(self).wf(),
            final(self)@ == Set::<Address>::empty(),
    {
        self.addresses.clear();
        proof {
            assert(self@ =~= Set::<Address>::empty());
        }
    }
}

/// The addresses that own one of the first `n` outputs of `s`.
pub open spec fn owners_upto(s: Seq<LedgerOutput>, n: int) -> Set<Address> {
    Set::new(|a: Address| exists|k: int| 0 <= k < n && s[k].output.owning_address == Some(a))
}

/// The addresses that own an output of `s`.
pub open spec fn owners(s: Seq<LedgerOutput>) -> Set<Address> {
    owners_upto(s, s.len() as int)
}

/// Inserts into `set` the owner of every item's output.
fn insert_owners<T: Booked>(set: &mut AddressSet, items: &[T])
    requires
        old(set).wf(),
    ensures
        final(set).wf(),
        final(set)@ == old(set)@.union(owners(outputs_of(items@))),
{
    let ghost s = outputs_of(items@);
    let mut i: usize = 0;
    while i < items.len()
        invariant
            i <= items.len(),
            s == outputs_of(items@),
            set.wf(),
            set@ == old(set)@.union(owners_upto(s, i as int)),
        decreases items.len() - i,
    {
        let o = items[i].ledger_output();
        proof {
            assert(s[i as int] == *o);
        }
        match o.output.owning_address {
            Some(a) => {
                set.insert(a);
                proof {
                    assert(owners_upto(s, i + 1) =~= owners_upto(s, i as int).insert(a));
                    assert(set@ =~= old(set)@.union(owners_upto(s, i + 1)));
                }
            },
            None => {
                proof {
                    assert(owners_upto(s, i + 1) =~= owners_upto(s, i as int));
                }
            },
        }
        i = i + 1;
    }
}

/// The number of distinct addresses touched in a milestone.
#[derive(Clone, Copy, Debug, Default, PartialEq, Eq, Structural)]
pub struct AddressActivityMeasurement {
    pub count: usize,
}

/// Collects the addresses that the transactions of a milestone consume from or create for.
#[derive(Clone, Debug)]
pub struct AddressActivityAnalytics {
    pub addresses: AddressSet,
}

impl AddressActivityAnalytics {
    pub fn new() -> (r: Self)
        ensures
            r.inv(),
            r.addresses@ == Set::<Address>::empty(),
    {
        AddressActivityAnalytics { addresses: AddressSet::new() }
    }
}

impl Analytics for AddressActivityAnalytics {
    type Measurement = AddressActivityMeasurement;

    open spec fn inv(self) -> bool {
        self.addresses.wf()
    }

    open spec fn transaction_post(
        self,
        consumed: Seq<LedgerSpent>,
        created: Seq<LedgerOutput>,
        next: Self,
    ) -> bool {
        next.addresses@ == self.addresses@.union(owners(outputs_of(consumed))).union(
            owners(outputs_of(created)),
        )
    }

    open spec fn block_post(self, block: BlockData, next: Self) -> bool {
        next.addresses@ == self.addresses@
    }

    open spec fn milestone_post(
        self,
        at: MilestoneIndexTimestamp,
        params: ProtocolParameters,
        next: Self,
        out: Option<AddressActivityMeasurement>,
    ) -> bool {
        &&& next.addresses@ == Set::<Address>::empty()
        &&& out == Some(AddressActivityMeasurement { count: self.addresses@.len() as usize })
    }

    fn handle_transaction<C: AnalyticsContext>(
        &mut self,
        consumed: &[LedgerSpent],
        created: &[LedgerOutput],
        ctx: &C,
    ) {
        insert_owners(&mut self.addresses, consumed);
        insert_owners(&mut self.addresses, created);
    }

    fn handle_block<C: AnalyticsContext>(&mut self, block_data: &BlockData, ctx: &C) {
    }

    fn end_milestone<C: AnalyticsContext>(&mut self, ctx: &C) -> (r: Option<AddressActivityMeasurement>) {
        let count = self.addresses.len();
        self.addresses.clear();
        Some(AddressActivityMeasurement { count })
    }
}

/// The number of addresses seen in one interval.
#[derive(Clone, Copy, Debug, PartialEq, Eq, Structural)]
pub struct AddressCount(pub usize);

/// Counts the addresses active in consecutive intervals of time, and reports each
/// interval's count once the first milestone after it begins.
#[derive(Clone, Debug)]
pub struct ActiveAddresses {
    /// The start of the current interval, in seconds since the Unix epoch.
    pub start_time: u32,
    /// The length of an interval, in seconds.
    pub interval: u32,
    pub addresses: AddressSet,
    /// The count of the interval that ended, until it is reported.
    pub flush: Option<usize>,
}

/// The addresses that own an output booked in `[start, start + interval)`.
pub open spec fn owners_booked_within(s: Seq<LedgerOutput>, start: int, interval: int) -> Set<Address> {
    Set::new(
        |a: Address|
            exists|k: int|
                0 <= k < s.len() && start <= s[k].booked.milestone_timestamp < start + interval
                    && s[k].output.owning_address == Some(a),
    )
}

impl ActiveAddresses {
    pub open spec fn inv(self) -> bool {
        self.addresses.wf()
    }

    /// Initialize the analytic with the owners of the unspent outputs booked in the first
    /// interval.
    pub fn init(start_time: u32, interval: u32, unspent_outputs: &[LedgerOutput]) -> (r: Self)
        ensures
            r.inv(),
            r.start_time == start_time,
            r.interval == interval,
            r.flush is None,
            r.addresses@ == owners_booked_within(unspent_outputs@, start_time as int, interval as int),
    {
        let ghost s = unspent_outputs@;
        let mut addresses = AddressSet::new();
        let end: u64 = start_time as u64 + interval as u64;
        let mut i: usize = 0;
        while i < unspent_outputs.len()
            invariant
                i <= unspent_outputs.len(),
                s == unspent_outputs@,
                end == start_time + interval,
                addresses.wf(),
                addresses@ == owners_booked_within(s.take(i as int), start_time as int, interval as int),
            decreases unspent_outputs.len() - i,
        {
            let o = &unspent_outputs[i];
            let booked = o.booked.milestone_timestamp as u64;
            let ghost before = addresses@;
            if start_time as u64 <= booked && booked < end {
                match o.output.owning_address {
                    Some(a) => addresses.insert(a),
                    None => {},
                }
            }
            proof {
                let p = s.take(i as int);
                let q = s.take(i + 1);
                assert forall|k: int| 0 <= k < p.len() implies q[k] == p[k] by {}
                assert(q[i as int] == *o);
                assert(addresses@ =~= owners_booked_within(q, start_time as int, interval as int));
            }
            i = i + 1;
        }
        proof {
            assert(s.take(s.len() as int) =~= s);
        }
        ActiveAddresses { start_time, interval, addresses, flush: None }
    }

    /// The state after `begin_milestone(at)`: past the end of the current interval, its count
    /// waits to be reported, the set starts empty and the next interval begins where the
    /// current one ends.
    pub open spec fn begin_post(self, at: MilestoneIndexTimestamp, next: Self) -> bool {
        &&& next.inv()
        &&& next.interval == self.interval
        &&& if at.milestone_timestamp > self.start_time + self.interval {
            &&& next.flush == Some(self.addresses@.len() as usize)
            &&& next.addresses@ == Set::<Address>::empty()
            &&& next.start_time == self.start_time + self.interval
        } else {
            &&& next.flush == self.flush
            &&& next.addresses@ == self.addresses@
            &&& next.start_time == self.start_time
        }
    }

    /// The state and the report after `end_milestone`: the waiting count, once.
    pub open spec fn end_post(self, next: Self, r: Option<AddressCount>) -> bool {
        &&& next == (ActiveAddresses { flush: None, ..self })
        &&& r == match self.flush {
            Some(n) => Some(AddressCount(n)),
            None => None,
        }
    }

    /// Move on to the next interval when the milestone lies past the end of the current one.
    pub fn begin_milestone(&mut self, at: MilestoneIndexTimestamp)
        requires
            old(self).inv(),
        ensures
            old(self).begin_post(at, *final(self)),
    {
        let end: u64 = self.start_time as u64 + self.interval as u64;
        if at.milestone_timestamp as u64 > end {
            self.flush = Some(self.addresses.len());
            self.addresses.clear();
            self.start_time = end as u32;
        }
    }

    /// Adds the owners of every consumed and created output.
    pub fn handle_transaction(&mut self, inputs: &[LedgerSpent], outputs: &[LedgerOutput])
        requires
            old(self).inv(),
        ensures
            final(self).inv(),
            final(self).start_time == old(self).start_time,
            final(self).interval == old(self).interval,
            final(self).flush == old(self).flush,
            final(self).addresses@ == old(self).addresses@.union(owners(outputs_of(inputs@))).union(
                owners(outputs_of(outputs@)),
            ),
    {
        insert_owners(&mut self.addresses, inputs);
        insert_owners(&mut self.addresses, outputs);
    }

    /// Reports the count of the interval that ended, once.
    pub fn end_milestone(&mut self, at: MilestoneIndexTimestamp) -> (r: Option<AddressCount>)
        ensures
            old(self).end_post(*final(self), r),
    {
        match self.flush.take() {
            Some(n) => Some(AddressCount(n)),
            None => None,
        }
    }
}

} // verus!
