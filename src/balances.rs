//! The balance of every address that holds tokens, and how balances are distributed.
use vstd::prelude::*;

use crate::analytics::{Analytics, AnalyticsContext};
use crate::payload::BlockData;
use crate::sums::{clamp_u64, outputs_of, Booked};
use crate::types::{Address, LedgerOutput, LedgerSpent, MilestoneIndexTimestamp, ProtocolParameters};

verus! {

/// The balance that an address holds.
#[derive(Clone, Copy, Debug, PartialEq, Eq, Structural)]
pub struct BalanceEntry {
    pub address: Address,
    pub balance: u64,
}

/// No address appears twice.
pub open spec fn unique_addresses(s: Seq<BalanceEntry>) -> bool {
    forall|i: int, j: int| 0 <= i < s.len() && 0 <= j < s.len() && i != j ==> s[i].address != s[j].address
}

/// Every balance is positive.
pub open spec fn positive_balances(s: Seq<BalanceEntry>) -> bool {
    forall|i: int| 0 <= i < s.len() ==> s[i].balance > 0
}

/// Where the entry of `a` stands, if there is one.
pub open spec fn position(s: Seq<BalanceEntry>, a: Address) -> Option<int> {
    if exists|i: int| 0 <= i < s.len() && s[i].address == a {
        Some(choose|i: int| 0 <= i < s.len() && s[i].address == a)
    } else {
        None
    }
}

/// The balance of `a`: zero where it has no entry.
pub open spec fn balance_of(s: Seq<BalanceEntry>, a: Address) -> int {
    match position(s, a) {
        Some(i) => s[i].balance as int,
        None => 0,
    }
}

/// The balances after an output is consumed: its owner's balance goes down by its amount,
/// and an owner left with nothing is dropped. An owner without an entry is left alone.
pub open spec fn debit(s: Seq<BalanceEntry>, o: LedgerOutput) -> Seq<BalanceEntry> {
    match o.output.owning_address {
        Some(a) => match position(s, a) {
            Some(i) => {
                let b = s[i].balance.saturating_sub(o.output.amount);
                if b == 0 {
                    s.remove(i)
                } else {
                    s.update(i, BalanceEntry { address: a, balance: b })
                }
            },
            None => s,
        },
        None => s,
    }
}

/// The balances after an output is created: its owner's balance goes up by its amount.
pub open spec fn credit(s: Seq<BalanceEntry>, o: LedgerOutput) -> Seq<BalanceEntry> {
    match o.output.owning_address {
        Some(a) => match position(s, a) {
            Some(i) => s.update(
                i,
                BalanceEntry { address: a, balance: s[i].balance.saturating_add(o.output.amount) },
            ),
            None => if o.output.amount == 0 {
                s
            } else {
                s.push(BalanceEntry { address: a, balance: o.output.amount })
            },
        },
        None => s,
    }
}

/// The balances after the first `n` outputs of `outs` are consumed, in order.
pub open spec fn debit_all(s: Seq<BalanceEntry>, outs: Seq<LedgerOutput>, n: int) -> Seq<BalanceEntry>
    decreases n,
{
    if n <= 0 {
        s
    } else {
        debit(debit_all(s, outs, n - 1), outs[n - 1])
    }
}

/// The balances after the first `n` outputs of `outs` are created, in order.
pub open spec fn credit_all(s: Seq<BalanceEntry>, outs: Seq<LedgerOutput>, n: int) -> Seq<BalanceEntry>
    decreases n,
{
    if n <= 0 {
        s
    } else {
        credit(credit_all(s, outs, n - 1), outs[n - 1])
    }
}

/// The number of decimal digits of `x`.
pub open spec fn decimal_digits(x: nat) -> nat
    decreases x,
{
    if x < 10 {
        1
    } else {
        1 + decimal_digits(x / 10)
    }
}

/// The bucket of a balance among `buckets` buckets: balances in `[10^k, 10^(k+1))` go to
/// bucket `k`, and those too large for the last bucket go to the last.
pub open spec fn bucket_of(balance: u64, buckets: int) -> int {
    let k = decimal_digits(balance as nat) - 1;
    if k < buckets {
        k
    } else {
        buckets - 1
    }
}

/// The number of the first `n` entries whose balance falls in bucket `k`.
pub open spec fn bucket_count(s: Seq<BalanceEntry>, buckets: int, k: int, n: int) -> int
    decreases n,
{
    if n <= 0 {
        0
    } else {
        bucket_count(s, buckets, k, n - 1) + if bucket_of(s[n - 1].balance, buckets) == k {
            1int
        } else {
            0
        }
    }
}

/// The sum of the balances of the first `n` entries that fall in bucket `k`.
pub open spec fn bucket_sum(s: Seq<BalanceEntry>, buckets: int, k: int, n: int) -> int
    decreases n,
{
    if n <= 0 {
        0
    } else {
        bucket_sum(s, buckets, k, n - 1) + if bucket_of(s[n - 1].balance, buckets) == k {
            s[n - 1].balance as int
        } else {
            0
        }
    }
}

/// The number of addresses, and the tokens they hold, in one bucket of balances.
#[derive(Clone, Copy, Debug, Default, PartialEq, Eq, Structural)]
pub struct DistributionStat {
    pub address_count: u64,
    pub total_amount: u64,
}

/// The distribution of balances over as many buckets as the token supply has decimal digits.
pub open spec fn distribution(s: Seq<BalanceEntry>, token_supply: u64) -> Seq<DistributionStat> {
    let buckets = decimal_digits(token_supply as nat) as int;
    Seq::new(
        buckets as nat,
        |k: int|
            DistributionStat {
                address_count: bucket_count(s, buckets, k, s.len() as int) as u64,
                total_amount: clamp_u64(bucket_sum(s, buckets, k, s.len() as int)) as u64,
            },
    )
}

/// The number of addresses with a balance, and how balances are distributed.
#[derive(Clone, Debug)]
pub struct AddressBalanceMeasurement {
    pub address_with_balance_count: usize,
    pub token_distribution: Vec<DistributionStat>,
}

/// The balance of every address that holds tokens.
#[derive(Clone, Debug)]
pub struct AddressBalancesAnalytics {
    pub balances: Vec<BalanceEntry>,
}

/// Counts the decimal digits of `x`.
pub fn count_decimal_digits(x: u64) -> (r: usize)
    ensures
        r == decimal_digits(x as nat),
        1 <= r <= 20,
{
    proof {
        lemma_digits_bound(x as nat);
    }
    let mut d: usize = 1;
    let mut y: u64 = x;
    while y >= 10
        invariant
            decimal_digits(x as nat) == d - 1 + decimal_digits(y as nat),
            decimal_digits(x as nat) <= 20,
            1 <= d,
        decreases y,
    {
        proof {
            lemma_digits_monotone(0, (y / 10) as nat);
        }
        y = y / 10;
        d = d + 1;
    }
    d
}

proof fn lemma_digits_monotone(x: nat, y: nat)
    requires
        x <= y,
    ensures
        1 <= decimal_digits(x) <= decimal_digits(y),
    decreases y,
{
    if y >= 10 && x >= 10 {
        lemma_digits_monotone(x / 10, y / 10);
    } else if y >= 10 {
        lemma_digits_monotone(0, y / 10);
    }
}

proof fn lemma_digits_bound(x: nat)
    requires
        x <= u64::MAX,
    ensures
        1 <= decimal_digits(x) <= 20,
{
    lemma_digits_monotone(x, u64::MAX as nat);
    reveal_with_fuel(decimal_digits, 21);
    assert(decimal_digits(18446744073709551615nat) == 20);
}

/// Finds the entry of `a`.
fn find(entries: &Vec<BalanceEntry>, a: Address) -> (r: Option<usize>)
    requires
        unique_addresses(entries@),
    ensures
        match r {
            Some(i) => i < entries.len() && position(entries@, a) == Some(i as int),
            None => position(entries@, a) is None,
        },
{
    let mut i: usize = 0;
    while i < entries.len()
        invariant
            i <= entries.len(),
            unique_addresses(entries@),
            forall|k: int| 0 <= k < i ==> entries@[k].address != a,
        decreases entries.len() - i,
    {
        if entries[i].address == a {
            proof {
                assert(entries@[i as int].address == a);
                let j = choose|j: int| 0 <= j < entries@.len() && entries@[j].address == a;
                if j != i as int {
                    assert(entries@[j].address != entries@[i as int].address);
                }
            }
            return Some(i);
        }
        i = i + 1;
    }
    None
}

/// Which bucket a balance goes to.
fn bucket_index(balance: u64, buckets: usize) -> (r: usize)
    requires
        buckets >= 1,
    ensures
        r == bucket_of(balance, buckets as int),
        r < buckets,
{
    let k = count_decimal_digits(balance) - 1;
    if k < buckets {
        k
    } else {
        buckets - 1
    }
}

impl AddressBalancesAnalytics {
    pub open spec fn wf(self) -> bool {
        unique_addresses(self.balances@) && positive_balances(self.balances@)
    }

    pub open spec fn initial(unspent: Seq<LedgerOutput>) -> Seq<BalanceEntry> {
        credit_all(Seq::empty(), unspent, unspent.len() as int)
    }

    pub open spec fn updated(s: Seq<BalanceEntry>, created: Seq<LedgerOutput>, consumed: Seq<LedgerOutput>) -> Seq<
        BalanceEntry,
    > {
        credit_all(debit_all(s, consumed, consumed.len() as int), created, created.len() as int)
    }

    /// Takes a consumed output off its owner's balance.
    fn debit_one(&mut self, o: &LedgerOutput)
        requires
            old(self).wf(),
        ensures
            final(self).wf(),
            final(self).balances@ == debit(old(self).balances@, *o),
    {
        match o.output.owning_address {
            Some(a) => match find(&self.balances, a) {
                Some(i) => {
                    let b = self.balances[i].balance.saturating_sub(o.output.amount);
                    if b == 0 {
                        self.balances.remove(i);
                        proof {
                            let s = old(self).balances@;
                            assert forall|x: int, y: int|
                                0 <= x < self.balances@.len() && 0 <= y < self.balances@.len() && x
                                    != y implies self.balances@[x].address != self.balances@[y].address by {
                                let xx = if x < i { x } else { x + 1 };
                                let yy = if y < i { y } else { y + 1 };
                                assert(self.balances@[x] == s[xx]);
                                assert(self.balances@[y] == s[yy]);
                            }
                            assert forall|x: int| 0 <= x < self.balances@.len() implies self.balances@[x].balance > 0 by {
                                let xx = if x < i { x } else { x + 1 };
                                assert(self.balances@[x] == s[xx]);
                            }
                        }
                    } else {
                        self.balances.set(i, BalanceEntry { address: a, balance: b });
                    }
                },
                None => {},
            },
            None => {},
        }
    }

    /// Adds a created output to its owner's balance.
    fn credit_one(&mut self, o: &LedgerOutput)
        requires
            old(self).wf(),
        ensures
            final(self).wf(),
            final(self).balances@ == credit(old(self).balances@, *o),
    {
        match o.output.owning_address {
            Some(a) => match find(&self.balances, a) {
                Some(i) => {
                    let b = self.balances[i].balance.saturating_add(o.output.amount);
                    self.balances.set(i, BalanceEntry { address: a, balance: b });
                },
                None => {
                    if o.output.amount != 0 {
                        self.balances.push(BalanceEntry { address: a, balance: o.output.amount });
                        proof {
                            let s = old(self).balances@;
                            assert forall|x: int, y: int|
                                0 <= x < self.balances@.len() && 0 <= y < self.balances@.len() && x
                                    != y implies self.balances@[x].address != self.balances@[y].address by {
                                if x == s.len() {
                                    assert(s[y].address != a);
                                } else if y == s.len() {
                                    assert(s[x].address != a);
                                }
                            }
                        }
                    }
                },
            },
            None => {},
        }
    }

    fn debit_items<T: Booked>(&mut self, items: &[T])
        requires
            old(self).wf(),
        ensures
            final(self).wf(),
            final(self).balances@ == debit_all(
                old(self).balances@,
                outputs_of(items@),
                items@.len() as int,
            ),
    {
        let ghost s = outputs_of(items@);
        let mut i: usize = 0;
        while i < items.len()
            invariant
                i <= items.len(),
                s == outputs_of(items@),
                self.wf(),
                self.balances@ == debit_all(old(self).balances@, s, i as int),
            decreases items.len() - i,
        {
            let o = items[i].ledger_output();
            proof {
                assert(s[i as int] == *o);
            }
            self.debit_one(o);
            i = i + 1;
        }
    }

    fn credit_items<T: Booked>(&mut self, items: &[T])
        requires
            old(self).wf(),
        ensures
            final(self).wf(),
            final(self).balances@ == credit_all(
                old(self).balances@,
                outputs_of(items@),
                items@.len() as int,
            ),
    {
        let ghost s = outputs_of(items@);
        let mut i: usize = 0;
        while i < items.len()
            invariant
                i <= items.len(),
                s == outputs_of(items@),
                self.wf(),
                self.balances@ == credit_all(old(self).balances@, s, i as int),
            decreases items.len() - i,
        {
            let o = items[i].ledger_output();
            proof {
                assert(s[i as int] == *o);
            }
            self.credit_one(o);
            i = i + 1;
        }
    }

    /// Initialize the analytic by reading the unspent outputs of the ledger.
    pub fn init(unspent_outputs: &[LedgerOutput]) -> (r: Self)
        ensures
            r.wf(),
            r.balances@ == Self::initial(unspent_outputs@),
    {
        let mut r = AddressBalancesAnalytics { balances: Vec::new() };
        r.credit_items(unspent_outputs);
        proof {
            assert(outputs_of(unspent_outputs@) =~= unspent_outputs@);
        }
        r
    }

    /// The distribution of the current balances.
    fn distribution_exec(&self, token_supply: u64) -> (r: Vec<DistributionStat>)
        ensures
            r@ == distribution(self.balances@, token_supply),
    {
        let ghost s = self.balances@;
        let buckets = count_decimal_digits(token_supply);
        let mut dist: Vec<DistributionStat> = Vec::new();
        let mut k: usize = 0;
        while k < buckets
            invariant
                k <= buckets,
                dist@.len() == k,
                forall|j: int| 0 <= j < k ==> dist@[j] == (DistributionStat { address_count: 0, total_amount: 0 }),
            decreases buckets - k,
        {
            dist.push(DistributionStat { address_count: 0, total_amount: 0 });
            k = k + 1;
        }
        let mut i: usize = 0;
        while i < self.balances.len()
            invariant
                i <= self.balances.len(),
                s == self.balances@,
                buckets >= 1,
                dist@.len() == buckets,
                forall|j: int|
                    0 <= j < buckets ==> 0 <= #[trigger] bucket_count(s, buckets as int, j, i as int) <= i,
                forall|j: int|
                    0 <= j < buckets ==> #[trigger] bucket_sum(s, buckets as int, j, i as int) >= 0,
                forall|j: int|
                    0 <= j < buckets ==> #[trigger] dist@[j] == (DistributionStat {
                        address_count: bucket_count(s, buckets as int, j, i as int) as u64,
                        total_amount: clamp_u64(bucket_sum(s, buckets as int, j, i as int)) as u64,
                    }),
            decreases self.balances.len() - i,
        {
            let e = self.balances[i];
            let b = bucket_index(e.balance, buckets);
            let old_stat = dist[b];
            let stat = DistributionStat {
                address_count: old_stat.address_count + 1,
                total_amount: old_stat.total_amount.saturating_add(e.balance),
            };
            dist.set(b, stat);
            proof {
                assert forall|j: int| 0 <= j < buckets implies #[trigger] bucket_count(
                    s,
                    buckets as int,
                    j,
                    i + 1,
                ) == bucket_count(s, buckets as int, j, i as int) + if j == b as int {
                    1int
                } else {
                    0
                } by {}
                assert forall|j: int| 0 <= j < buckets implies #[trigger] bucket_sum(
                    s,
                    buckets as int,
                    j,
                    i + 1,
                ) == bucket_sum(s, buckets as int, j, i as int) + if j == b as int {
                    e.balance as int
                } else {
                    0
                } by {}
            }
            i = i + 1;
        }
        proof {
            assert(dist@ =~= distribution(s, token_supply));
        }
        dist
    }
}

impl Analytics for AddressBalancesAnalytics {
    type Measurement = AddressBalanceMeasurement;

    open spec fn inv(self) -> bool {
        self.wf()
    }

    open spec fn transaction_post(
        self,
        consumed: Seq<LedgerSpent>,
        created: Seq<LedgerOutput>,
        next: Self,
    ) -> bool {
        next.balances@ == Self::updated(self.balances@, outputs_of(created), outputs_of(consumed))
    }

    open spec fn block_post(self, block: BlockData, next: Self) -> bool {
        next.balances@ == self.balances@
    }

    open spec fn milestone_post(
        self,
        at: MilestoneIndexTimestamp,
        params: ProtocolParameters,
        next: Self,
        out: Option<AddressBalanceMeasurement>,
    ) -> bool {
        &&& next.balances@ == self.balances@
        &&& out matches Some(m)
        &&& m.address_with_balance_count == self.balances@.len()
        &&& m.token_distribution@ == distribution(self.balances@, params.token_supply)
    }

    fn handle_transaction<C: AnalyticsContext>(
        &mut self,
        consumed: &[LedgerSpent],
        created: &[LedgerOutput],
        ctx: &C,
    ) {
        self.debit_items(consumed);
        self.credit_items(created);
    }

    fn handle_block<C: AnalyticsContext>(&mut self, block_data: &BlockData, ctx: &C) {
    }

    fn end_milestone<C: AnalyticsContext>(&mut self, ctx: &C) -> (r: Option<AddressBalanceMeasurement>) {
        let token_distribution = self.distribution_exec(ctx.protocol_params().token_supply);
        Some(AddressBalanceMeasurement { address_with_balance_count: self.balances.len(), token_distribution })
    }
}

} // verus!
