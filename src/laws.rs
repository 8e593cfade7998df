//! Properties that hold across calls: totals that follow the ledger, conservation of
//! balances, determinism of replay, unclaimed genesis tokens, and the reports of the sliding
//! address window.
use vstd::prelude::*;

use crate::addresses::{ActiveAddresses, AddressCount};
use crate::catalog::{produced, Analytic, Measurement, PerMilestone};
use crate::milestone::{AnalyticsError, Milestone};
use crate::balances::{
    balance_of, credit, credit_all, debit_all, position, positive_balances, unique_addresses,
    AddressBalancesAnalytics, BalanceEntry,
};
use crate::analytics::Analytics;
use crate::ledger::{LedgerOutputMeasurement, UnclaimedTokenMeasurement, GENESIS_MILESTONE_INDEX};
use crate::payload::BlockData;
use crate::sums::{lemma_sum_by_step, outputs_of, sum_by, tally, OutputFilter, OutputValue};
use crate::types::{Address, LedgerOutput, LedgerSpent, MilestoneIndexTimestamp, OutputKind, ProtocolParameters};

verus! {

// ---------------------------------------------------------------------------------------
// Ledger outputs follow the amounts that transactions create and consume.

/// The tokens held by the unspent outputs of all four kinds.
pub open spec fn ledger_total(m: LedgerOutputMeasurement) -> int {
    m.alias.amount + m.basic.amount + m.nft.amount + m.foundry.amount
}

/// No output of `s` is a treasury output.
pub open spec fn no_treasury(s: Seq<LedgerOutput>) -> bool {
    forall|i: int| 0 <= i < s.len() ==> s[i].output.kind != OutputKind::Treasury
}

/// Adding `added` to `old` and taking `removed` off neither overflows nor goes below zero.
pub open spec fn fits(old: u64, added: int, removed: int) -> bool {
    old + added <= u64::MAX && old + added - removed >= 0
}

/// The amount over all outputs of the four kinds.
pub open spec fn amount_of(s: Seq<LedgerOutput>, k: OutputKind) -> int {
    tally(s, OutputFilter::Kind(k), OutputValue::Amount)
}

/// No kind's counter saturates when the transaction is applied to `m`.
pub open spec fn applies_exactly(m: LedgerOutputMeasurement, created: Seq<LedgerOutput>, consumed: Seq<LedgerOutput>) -> bool {
    &&& fits(m.alias.amount, amount_of(created, OutputKind::Alias), amount_of(consumed, OutputKind::Alias))
    &&& fits(m.basic.amount, amount_of(created, OutputKind::Basic), amount_of(consumed, OutputKind::Basic))
    &&& fits(m.nft.amount, amount_of(created, OutputKind::Nft), amount_of(consumed, OutputKind::Nft))
    &&& fits(m.foundry.amount, amount_of(created, OutputKind::Foundry), amount_of(consumed, OutputKind::Foundry))
}

proof fn lemma_amount_by_kind(s: Seq<LedgerOutput>)
    requires
        no_treasury(s),
    ensures
        tally(s, OutputFilter::All, OutputValue::Amount) == amount_of(s, OutputKind::Alias) + amount_of(
            s,
            OutputKind::Basic,
        ) + amount_of(s, OutputKind::Nft) + amount_of(s, OutputKind::Foundry),
    decreases s.len(),
{
    if s.len() > 0 {
        let t = s.drop_last();
        assert forall|i: int| 0 <= i < t.len() implies t[i].output.kind != OutputKind::Treasury by {
            assert(t[i] == s[i]);
        }
        lemma_amount_by_kind(t);
        assert(s.last().output.kind != OutputKind::Treasury);
    }
}

/// For a transaction without treasury outputs on which no counter saturates, the tokens
/// held by the unspent outputs change by what the transaction created less what it consumed.
pub proof fn ledger_outputs_follow_transaction(
    m: LedgerOutputMeasurement,
    consumed: Seq<LedgerSpent>,
    created: Seq<LedgerOutput>,
    next: LedgerOutputMeasurement,
)
    requires
        no_treasury(created),
        no_treasury(outputs_of(consumed)),
        applies_exactly(m, created, outputs_of(consumed)),
        m.transaction_post(consumed, created, next),
    ensures
        ledger_total(next) == ledger_total(m) + tally(created, OutputFilter::All, OutputValue::Amount)
            - tally(outputs_of(consumed), OutputFilter::All, OutputValue::Amount),
{
    assert(outputs_of(created) =~= created);
    lemma_amount_by_kind(created);
    lemma_amount_by_kind(outputs_of(consumed));
    let kinds = seq![OutputKind::Alias, OutputKind::Basic, OutputKind::Nft, OutputKind::Foundry];
    assert forall|i: int| 0 <= i < 4 implies #[trigger] amount_of(created, kinds[i]) >= 0 && amount_of(
        outputs_of(consumed),
        kinds[i],
    ) >= 0 by {
        lemma_tally_nonnegative_by(created, OutputFilter::Kind(kinds[i]), OutputValue::Amount);
        lemma_tally_nonnegative_by(outputs_of(consumed), OutputFilter::Kind(kinds[i]), OutputValue::Amount);
    }
    assert(amount_of(created, kinds[0]) >= 0);
    assert(amount_of(created, kinds[1]) >= 0);
    assert(amount_of(created, kinds[2]) >= 0);
    assert(amount_of(created, kinds[3]) >= 0);
}

/// A milestone's transactions: what each consumed and what each created.
pub type Transactions = Seq<(Seq<LedgerSpent>, Seq<LedgerOutput>)>;

/// The ledger outputs after the first `n` transactions.
pub open spec fn ledger_outputs_after(m: LedgerOutputMeasurement, txs: Transactions, n: int) -> LedgerOutputMeasurement
    decreases n,
{
    if n <= 0 {
        m
    } else {
        ledger_outputs_after(m, txs, n - 1).updated(outputs_of(txs[n - 1].1), outputs_of(txs[n - 1].0))
    }
}

/// What the first `n` transactions created less what they consumed.
pub open spec fn net_created(txs: Transactions, n: int) -> int
    decreases n,
{
    if n <= 0 {
        0
    } else {
        net_created(txs, n - 1) + tally(txs[n - 1].1, OutputFilter::All, OutputValue::Amount) - tally(
            outputs_of(txs[n - 1].0),
            OutputFilter::All,
            OutputValue::Amount,
        )
    }
}

/// Over the transactions of a milestone, none with treasury outputs and none that saturates a
/// counter, the tokens held by the unspent outputs change by what the milestone created less
/// what it consumed.
pub proof fn ledger_outputs_follow_milestone(m: LedgerOutputMeasurement, txs: Transactions, n: int)
    requires
        0 <= n <= txs.len(),
        forall|i: int|
            0 <= i < n ==> no_treasury(#[trigger] txs[i].1) && no_treasury(outputs_of(txs[i].0)),
        forall|i: int|
            0 <= i < n ==> applies_exactly(
                #[trigger] ledger_outputs_after(m, txs, i),
                txs[i].1,
                outputs_of(txs[i].0),
            ),
    ensures
        ledger_total(ledger_outputs_after(m, txs, n)) == ledger_total(m) + net_created(txs, n),
    decreases n,
{
    if n > 0 {
        ledger_outputs_follow_milestone(m, txs, n - 1);
        let prev = ledger_outputs_after(m, txs, n - 1);
        assert(no_treasury(txs[n - 1].1));
        assert(applies_exactly(prev, txs[n - 1].1, outputs_of(txs[n - 1].0)));
        assert(outputs_of(txs[n - 1].1) =~= txs[n - 1].1);
        ledger_outputs_follow_transaction(prev, txs[n - 1].0, txs[n - 1].1, ledger_outputs_after(m, txs, n));
    }
}

// ---------------------------------------------------------------------------------------
// Balances are conserved.

/// The tokens held by all addresses.
pub open spec fn balance_total(s: Seq<BalanceEntry>) -> int
    decreases s.len(),
{
    if s.len() == 0 {
        0
    } else {
        balance_total(s.drop_last()) + s.last().balance
    }
}

proof fn lemma_total_update(s: Seq<BalanceEntry>, i: int, e: BalanceEntry)
    requires
        0 <= i < s.len(),
    ensures
        balance_total(s.update(i, e)) == balance_total(s) - s[i].balance + e.balance,
    decreases s.len(),
{
    if i == s.len() - 1 {
        assert(s.update(i, e).drop_last() =~= s.drop_last());
    } else {
        assert(s.update(i, e).drop_last() =~= s.drop_last().update(i, e));
        lemma_total_update(s.drop_last(), i, e);
    }
}

proof fn lemma_total_remove(s: Seq<BalanceEntry>, i: int)
    requires
        0 <= i < s.len(),
    ensures
        balance_total(s.remove(i)) == balance_total(s) - s[i].balance,
    decreases s.len(),
{
    if i == s.len() - 1 {
        assert(s.remove(i) =~= s.drop_last());
    } else {
        assert(s.remove(i).drop_last() =~= s.drop_last().remove(i));
        lemma_total_remove(s.drop_last(), i);
    }
}

/// The owner of a consumed output holds at least its amount.
pub open spec fn covers(s: Seq<BalanceEntry>, o: LedgerOutput) -> bool {
    &&& o.output.owning_address matches Some(a)
    &&& position(s, a) matches Some(i)
    &&& s[i].balance >= o.output.amount
}

/// The owner of a created output can take its amount without overflow.
pub open spec fn has_room(s: Seq<BalanceEntry>, o: LedgerOutput) -> bool {
    &&& o.output.owning_address is Some
    &&& position(s, o.output.owning_address->0) matches Some(i) ==> s[i].balance + o.output.amount
        <= u64::MAX
}

/// Each of the first `n` consumed outputs is covered when its turn comes.
pub open spec fn debits_covered(s: Seq<BalanceEntry>, outs: Seq<LedgerOutput>, n: int) -> bool
    decreases n,
{
    n <= 0 || (debits_covered(s, outs, n - 1) && covers(debit_all(s, outs, n - 1), outs[n - 1]))
}

/// Each of the first `n` created outputs has room when its turn comes.
pub open spec fn credits_fit(s: Seq<BalanceEntry>, outs: Seq<LedgerOutput>, n: int) -> bool
    decreases n,
{
    n <= 0 || (credits_fit(s, outs, n - 1) && has_room(credit_all(s, outs, n - 1), outs[n - 1]))
}

proof fn lemma_debit_all_total(s: Seq<BalanceEntry>, outs: Seq<LedgerOutput>, n: int)
    requires
        0 <= n <= outs.len(),
        debits_covered(s, outs, n),
    ensures
        balance_total(debit_all(s, outs, n)) == balance_total(s) - sum_by(
            outs.take(n),
            |o: LedgerOutput| if OutputFilter::All.admits(o) { OutputValue::Amount.of(o) } else { 0int },
        ),
    decreases n,
{
    let f = |o: LedgerOutput| if OutputFilter::All.admits(o) { OutputValue::Amount.of(o) } else { 0int };
    if n > 0 {
        lemma_debit_all_total(s, outs, n - 1);
        let t = debit_all(s, outs, n - 1);
        let o = outs[n - 1];
        let a = o.output.owning_address->0;
        let i = position(t, a)->0;
        let b = t[i].balance.saturating_sub(o.output.amount);
        if b == 0 {
            lemma_total_remove(t, i);
        } else {
            lemma_total_update(t, i, BalanceEntry { address: a, balance: b });
        }
        assert(outs.take(n).drop_last() =~= outs.take(n - 1));
    }
}

proof fn lemma_credit_all_total(s: Seq<BalanceEntry>, outs: Seq<LedgerOutput>, n: int)
    requires
        0 <= n <= outs.len(),
        credits_fit(s, outs, n),
    ensures
        balance_total(credit_all(s, outs, n)) == balance_total(s) + sum_by(
            outs.take(n),
            |o: LedgerOutput| if OutputFilter::All.admits(o) { OutputValue::Amount.of(o) } else { 0int },
        ),
    decreases n,
{
    if n > 0 {
        lemma_credit_all_total(s, outs, n - 1);
        let t = credit_all(s, outs, n - 1);
        let o = outs[n - 1];
        let a = o.output.owning_address->0;
        match position(t, a) {
            Some(i) => {
                lemma_total_update(
                    t,
                    i,
                    BalanceEntry { address: a, balance: t[i].balance.saturating_add(o.output.amount) },
                );
            },
            None => {
                if o.output.amount != 0 {
                    assert(t.push(BalanceEntry { address: a, balance: o.output.amount }).drop_last() =~= t);
                }
            },
        }
        assert(outs.take(n).drop_last() =~= outs.take(n - 1));
    }
}

proof fn lemma_position_at(s: Seq<BalanceEntry>, a: Address, i: int)
    requires
        unique_addresses(s),
        0 <= i < s.len(),
        s[i].address == a,
    ensures
        position(s, a) == Some(i),
{
    let j = choose|j: int| 0 <= j < s.len() && s[j].address == a;
    if j != i {
        assert(s[j].address != s[i].address);
    }
}

/// A credit keeps the entries unique and positive, and raises the balance of the output's
/// owner alone, by the output's amount.
proof fn lemma_credit_balance(s: Seq<BalanceEntry>, o: LedgerOutput, a: Address)
    requires
        unique_addresses(s),
        positive_balances(s),
        has_room(s, o),
    ensures
        unique_addresses(credit(s, o)),
        positive_balances(credit(s, o)),
        balance_of(credit(s, o), a) == balance_of(s, a) + if o.output.owning_address == Some(a) {
            o.output.amount as int
        } else {
            0
        },
{
    let b = o.output.owning_address->0;
    let t = credit(s, o);
    match position(s, b) {
        Some(i) => {
            assert(s[i].address == b);
            assert(t =~= s.update(i, BalanceEntry { address: b, balance: (s[i].balance + o.output.amount) as u64 }));
            assert forall|x: int, y: int| 0 <= x < t.len() && 0 <= y < t.len() && x != y implies t[x].address
                != t[y].address by {
                assert(t[x].address == s[x].address && t[y].address == s[y].address);
            }
            if a == b {
                lemma_position_at(t, a, i);
            } else if exists|k: int| 0 <= k < s.len() && s[k].address == a {
                let k = choose|k: int| 0 <= k < s.len() && s[k].address == a;
                lemma_position_at(s, a, k);
                assert(t[k].address == a);
                lemma_position_at(t, a, k);
            } else {
                assert forall|k: int| 0 <= k < t.len() implies t[k].address != a by {
                    assert(t[k].address == s[k].address);
                }
            }
        },
        None => {
            if o.output.amount != 0 {
                let e = BalanceEntry { address: b, balance: o.output.amount };
                assert(t == s.push(e));
                assert forall|x: int, y: int| 0 <= x < t.len() && 0 <= y < t.len() && x != y implies t[x].address
                    != t[y].address by {
                    if x == s.len() {
                        assert(s[y].address != b);
                    } else if y == s.len() {
                        assert(s[x].address != b);
                    }
                }
                if a == b {
                    lemma_position_at(t, a, s.len() as int);
                } else if exists|k: int| 0 <= k < s.len() && s[k].address == a {
                    let k = choose|k: int| 0 <= k < s.len() && s[k].address == a;
                    lemma_position_at(s, a, k);
                    assert(t[k] == s[k]);
                    lemma_position_at(t, a, k);
                } else {
                    assert forall|k: int| 0 <= k < t.len() implies t[k].address != a by {
                        if k < s.len() {
                            assert(t[k] == s[k]);
                        }
                    }
                }
            }
        },
    }
}

proof fn lemma_credit_all_balance(s: Seq<BalanceEntry>, outs: Seq<LedgerOutput>, n: int, a: Address)
    requires
        0 <= n <= outs.len(),
        unique_addresses(s),
        positive_balances(s),
        credits_fit(s, outs, n),
    ensures
        unique_addresses(credit_all(s, outs, n)),
        positive_balances(credit_all(s, outs, n)),
        balance_of(credit_all(s, outs, n), a) == balance_of(s, a) + tally(
            outs.take(n),
            OutputFilter::OwnedBy(a),
            OutputValue::Amount,
        ),
    decreases n,
{
    if n > 0 {
        lemma_credit_all_balance(s, outs, n - 1, a);
        lemma_credit_balance(credit_all(s, outs, n - 1), outs[n - 1], a);
        let f = OutputFilter::OwnedBy(a);
        let v = OutputValue::Amount;
        lemma_sum_by_step(outs, |o: LedgerOutput| if f.admits(o) { v.of(o) } else { 0int }, n - 1);
    }
}

/// Bootstrapped from unspent outputs that all have owners and whose owners' balances fit,
/// every address holds exactly the tokens of the snapshot outputs it owns, and no address is
/// held twice or with an empty balance.
pub proof fn balances_start_per_address(unspent: Seq<LedgerOutput>, a: Address)
    requires
        credits_fit(Seq::empty(), unspent, unspent.len() as int),
    ensures
        balance_of(AddressBalancesAnalytics::initial(unspent), a) == tally(
            unspent,
            OutputFilter::OwnedBy(a),
            OutputValue::Amount,
        ),
        unique_addresses(AddressBalancesAnalytics::initial(unspent)),
        positive_balances(AddressBalancesAnalytics::initial(unspent)),
{
    lemma_credit_all_balance(Seq::empty(), unspent, unspent.len() as int, a);
    assert(unspent.take(unspent.len() as int) =~= unspent);
}

/// Bootstrapped from unspent outputs that all have owners and whose owners' balances fit,
/// the balances hold exactly the tokens of those outputs: the token supply, where the
/// snapshot holds all of it.
pub proof fn balances_start_from_snapshot(unspent: Seq<LedgerOutput>)
    requires
        credits_fit(Seq::empty(), unspent, unspent.len() as int),
    ensures
        balance_total(AddressBalancesAnalytics::initial(unspent)) == tally(
            unspent,
            OutputFilter::All,
            OutputValue::Amount,
        ),
{
    lemma_credit_all_total(Seq::empty(), unspent, unspent.len() as int);
    assert(unspent.take(unspent.len() as int) =~= unspent);
}

/// A transaction that creates as many tokens as it consumes, whose consumed outputs are
/// covered by their owners' balances and whose created outputs fit, leaves the total of all
/// balances unchanged.
pub proof fn balances_are_conserved(
    a: AddressBalancesAnalytics,
    consumed: Seq<LedgerSpent>,
    created: Seq<LedgerOutput>,
    next: AddressBalancesAnalytics,
)
    requires
        debits_covered(a.balances@, outputs_of(consumed), consumed.len() as int),
        credits_fit(
            debit_all(a.balances@, outputs_of(consumed), consumed.len() as int),
            outputs_of(created),
            created.len() as int,
        ),
        tally(outputs_of(created), OutputFilter::All, OutputValue::Amount) == tally(
            outputs_of(consumed),
            OutputFilter::All,
            OutputValue::Amount,
        ),
        a.transaction_post(consumed, created, next),
    ensures
        balance_total(next.balances@) == balance_total(a.balances@),
{
    lemma_balanced_total(a.balances@, consumed, created);
}

/// The balances after the first `n` transactions of `txs`.
pub open spec fn balances_after(s: Seq<BalanceEntry>, txs: Transactions, n: int) -> Seq<BalanceEntry>
    decreases n,
{
    if n <= 0 {
        s
    } else {
        AddressBalancesAnalytics::updated(
            balances_after(s, txs, n - 1),
            outputs_of(txs[n - 1].1),
            outputs_of(txs[n - 1].0),
        )
    }
}

/// The transaction creates as many tokens as it consumes, its consumed outputs are covered
/// by their owners' balances in `s`, and its created outputs fit.
pub open spec fn balanced_on(s: Seq<BalanceEntry>, consumed: Seq<LedgerSpent>, created: Seq<LedgerOutput>) -> bool {
    &&& debits_covered(s, outputs_of(consumed), consumed.len() as int)
    &&& credits_fit(debit_all(s, outputs_of(consumed), consumed.len() as int), outputs_of(created), created.len() as int)
    &&& tally(outputs_of(created), OutputFilter::All, OutputValue::Amount) == tally(
        outputs_of(consumed),
        OutputFilter::All,
        OutputValue::Amount,
    )
}

proof fn lemma_balanced_total(s: Seq<BalanceEntry>, consumed: Seq<LedgerSpent>, created: Seq<LedgerOutput>)
    requires
        balanced_on(s, consumed, created),
    ensures
        balance_total(AddressBalancesAnalytics::updated(s, outputs_of(created), outputs_of(consumed)))
            == balance_total(s),
{
    let co = outputs_of(consumed);
    let cr = outputs_of(created);
    lemma_debit_all_total(s, co, co.len() as int);
    lemma_credit_all_total(debit_all(s, co, co.len() as int), cr, cr.len() as int);
    assert(co.take(co.len() as int) =~= co);
    assert(cr.take(cr.len() as int) =~= cr);
}

/// Bootstrapped from a snapshot of owned outputs that holds the whole token supply, the
/// balances hold the token supply after every balanced transaction.
pub proof fn balances_hold_token_supply(unspent: Seq<LedgerOutput>, token_supply: u64, txs: Transactions, n: int)
    requires
        0 <= n <= txs.len(),
        credits_fit(Seq::empty(), unspent, unspent.len() as int),
        tally(unspent, OutputFilter::All, OutputValue::Amount) == token_supply,
        forall|i: int|
            0 <= i < n ==> balanced_on(
                #[trigger] balances_after(AddressBalancesAnalytics::initial(unspent), txs, i),
                txs[i].0,
                txs[i].1,
            ),
    ensures
        balance_total(balances_after(AddressBalancesAnalytics::initial(unspent), txs, n)) == token_supply,
    decreases n,
{
    if n == 0 {
        balances_start_from_snapshot(unspent);
    } else {
        balances_hold_token_supply(unspent, token_supply, txs, n - 1);
        let prev = balances_after(AddressBalancesAnalytics::initial(unspent), txs, n - 1);
        assert(balanced_on(prev, txs[n - 1].0, txs[n - 1].1));
        lemma_balanced_total(prev, txs[n - 1].0, txs[n - 1].1);
    }
}

// ---------------------------------------------------------------------------------------
// What handing one block of a milestone does to these totals.

/// What a block hands to the analytics in consumed and created outputs, where it resolves.
pub open spec fn block_transaction(ms: Milestone, block: BlockData) -> Option<(Seq<LedgerOutput>, Seq<LedgerOutput>)> {
    match ms.resolution(block) {
        Ok(Some((consumed, created))) => Some((outputs_of(consumed), outputs_of(created))),
        _ => None,
    }
}

/// What a block's transaction created less what it consumed; zero for a block without one.
pub open spec fn block_net(ms: Milestone, block: BlockData) -> int {
    match block_transaction(ms, block) {
        Some((consumed, created)) => tally(created, OutputFilter::All, OutputValue::Amount) - tally(
            consumed,
            OutputFilter::All,
            OutputValue::Amount,
        ),
        None => 0,
    }
}

/// Handing a block to the ledger outputs analytic changes the tokens held by the unspent
/// outputs by what the block's transaction created less what it consumed, where the
/// transaction has no treasury outputs and saturates no counter.
pub proof fn ledger_outputs_follow_block(
    ms: Milestone,
    old: LedgerOutputMeasurement,
    block: BlockData,
    new: LedgerOutputMeasurement,
    r: Result<(), AnalyticsError>,
)
    requires
        ms.block_outcome(old, block, new, r),
        r is Ok,
        block_transaction(ms, block) matches Some((consumed, created)) ==> no_treasury(created)
            && no_treasury(consumed) && applies_exactly(old, created, consumed),
    ensures
        ledger_total(new) == ledger_total(old) + block_net(ms, block),
{
    match ms.resolution(block) {
        Ok(Some((consumed, created))) => {
            let mid = choose|mid: LedgerOutputMeasurement|
                old.transaction_post(consumed, created, mid) && mid.inv() && mid.block_post(block, new);
            assert(outputs_of(created) =~= created);
            ledger_outputs_follow_transaction(old, consumed, created, mid);
        },
        _ => {},
    }
}

/// The ledger outputs after the blocks of a cone, in order.
pub open spec fn ledger_after_cone(ms: Milestone, m: LedgerOutputMeasurement, blocks: Seq<BlockData>) -> LedgerOutputMeasurement
    decreases blocks.len(),
{
    if blocks.len() == 0 {
        m
    } else {
        let p = ledger_after_cone(ms, m, blocks.drop_last());
        match block_transaction(ms, blocks.last()) {
            Some((consumed, created)) => p.updated(created, consumed),
            None => p,
        }
    }
}

/// What the transactions of a cone created less what they consumed.
pub open spec fn cone_net(ms: Milestone, blocks: Seq<BlockData>) -> int
    decreases blocks.len(),
{
    if blocks.len() == 0 {
        0
    } else {
        cone_net(ms, blocks.drop_last()) + block_net(ms, blocks.last())
    }
}

/// No transaction of the cone has treasury outputs or saturates a counter when its turn comes.
pub open spec fn cone_applies_exactly(ms: Milestone, m: LedgerOutputMeasurement, blocks: Seq<BlockData>) -> bool
    decreases blocks.len(),
{
    blocks.len() == 0 || {
        &&& cone_applies_exactly(ms, m, blocks.drop_last())
        &&& block_transaction(ms, blocks.last()) matches Some((consumed, created)) ==> no_treasury(created)
            && no_treasury(consumed) && applies_exactly(
            ledger_after_cone(ms, m, blocks.drop_last()),
            created,
            consumed,
        )
    }
}

proof fn lemma_cone_outcome_is_fold(ms: Milestone, old: LedgerOutputMeasurement, blocks: Seq<BlockData>, new: LedgerOutputMeasurement)
    requires
        ms.blocks_outcome(old, blocks, new),
    ensures
        new == ledger_after_cone(ms, old, blocks),
    decreases blocks.len(),
{
    if blocks.len() > 0 {
        let mid = choose|mid: LedgerOutputMeasurement|
            ms.blocks_outcome(old, blocks.drop_last(), mid) && mid.inv() && ms.block_outcome(
                mid,
                blocks.last(),
                new,
                Ok(()),
            );
        lemma_cone_outcome_is_fold(ms, old, blocks.drop_last(), mid);
        match ms.resolution(blocks.last()) {
            Ok(Some((consumed, created))) => {
                let t = choose|t: LedgerOutputMeasurement|
                    mid.transaction_post(consumed, created, t) && t.inv() && t.block_post(blocks.last(), new);
            },
            _ => {},
        }
    }
}

/// Over the cone that `update_analytics` hands to the ledger outputs analytic, the tokens
/// held by the unspent outputs change by what the cone's transactions created less what
/// they consumed, where no transaction has treasury outputs or saturates a counter. Ending
/// the milestone leaves this analytic as it is, so its measurement reports that total.
pub proof fn ledger_outputs_follow_cone(
    ms: Milestone,
    old: LedgerOutputMeasurement,
    cone: Seq<BlockData>,
    new: LedgerOutputMeasurement,
)
    requires
        ms.blocks_outcome(old, cone, new),
        cone_applies_exactly(ms, old, cone),
    ensures
        ledger_total(new) == ledger_total(old) + cone_net(ms, cone),
{
    lemma_cone_outcome_is_fold(ms, old, cone, new);
    lemma_cone_total(ms, old, cone);
}

proof fn lemma_cone_total(ms: Milestone, old: LedgerOutputMeasurement, cone: Seq<BlockData>)
    requires
        cone_applies_exactly(ms, old, cone),
    ensures
        ledger_total(ledger_after_cone(ms, old, cone)) == ledger_total(old) + cone_net(ms, cone),
    decreases cone.len(),
{
    if cone.len() > 0 {
        lemma_cone_total(ms, old, cone.drop_last());
        let p = ledger_after_cone(ms, old, cone.drop_last());
        match ms.resolution(cone.last()) {
            Ok(Some((consumed, created))) => {
                let next = p.updated(outputs_of(created), outputs_of(consumed));
                lemma_outputs_of_outputs(created);
                ledger_outputs_follow_transaction(p, consumed, outputs_of(created), next);
            },
            _ => {},
        }
    }
}

proof fn lemma_outputs_of_outputs(s: Seq<LedgerOutput>)
    ensures
        outputs_of(s) == s,
{
    assert(outputs_of(s) =~= s);
}

/// Handing a block whose transaction is balanced (as many tokens created as consumed, each
/// consumed output covered by its owner's balance, each credit fitting) to the balances
/// analytic leaves the total of all balances unchanged: where it held the token supply, it
/// still does.
pub proof fn balances_follow_block(
    ms: Milestone,
    old: AddressBalancesAnalytics,
    block: BlockData,
    new: AddressBalancesAnalytics,
    r: Result<(), AnalyticsError>,
)
    requires
        ms.block_outcome(old, block, new, r),
        r is Ok,
        ms.resolution(block) matches Ok(Some((consumed, created))) ==> balanced_on(
            old.balances@,
            consumed,
            created,
        ),
    ensures
        balance_total(new.balances@) == balance_total(old.balances@),
        balance_total(old.balances@) == ms.protocol_params.token_supply ==> balance_total(new.balances@)
            == ms.protocol_params.token_supply,
{
    match ms.resolution(block) {
        Ok(Some((consumed, created))) => {
            let mid = choose|mid: AddressBalancesAnalytics|
                old.transaction_post(consumed, created, mid) && mid.inv() && mid.block_post(block, new);
            lemma_balanced_total(old.balances@, consumed, created);
        },
        _ => {},
    }
}

/// Handing a block to the unclaimed tokens analytic takes off exactly the genesis outputs
/// that the block's transaction consumed, where no more are consumed than are counted.
pub proof fn unclaimed_follow_block(
    ms: Milestone,
    old: UnclaimedTokenMeasurement,
    block: BlockData,
    new: UnclaimedTokenMeasurement,
    r: Result<(), AnalyticsError>,
)
    requires
        ms.block_outcome(old, block, new, r),
        r is Ok,
        block_transaction(ms, block) matches Some((consumed, created)) ==> tally(
            consumed,
            genesis(),
            OutputValue::One,
        ) <= old.unclaimed_count && tally(consumed, genesis(), OutputValue::Amount)
            <= old.unclaimed_amount,
    ensures
        block_transaction(ms, block) matches Some((consumed, created)) ==> new.unclaimed_count
            == old.unclaimed_count - tally(consumed, genesis(), OutputValue::One) && new.unclaimed_amount
            == old.unclaimed_amount - tally(consumed, genesis(), OutputValue::Amount),
        block_transaction(ms, block) is None ==> new == old,
{
    match ms.resolution(block) {
        Ok(Some((consumed, created))) => {
            let mid = choose|mid: UnclaimedTokenMeasurement|
                old.transaction_post(consumed, created, mid) && mid.inv() && mid.block_post(block, new);
            lemma_tally_nonnegative(outputs_of(consumed), OutputValue::One);
            lemma_tally_nonnegative(outputs_of(consumed), OutputValue::Amount);
            lemma_tally_nonnegative(seq![], OutputValue::One);
            lemma_tally_nonnegative(seq![], OutputValue::Amount);
        },
        _ => {},
    }
}

// ---------------------------------------------------------------------------------------
// Replay is deterministic.

/// Two analytics that hold the same data: no event can tell them apart.
pub open spec fn same_state(a: Analytic, b: Analytic) -> bool {
    match (a, b) {
        (Analytic::AddressBalance(x), Analytic::AddressBalance(y)) => x.balances@ == y.balances@,
        (Analytic::ActiveAddresses(x), Analytic::ActiveAddresses(y)) => x.addresses@ == y.addresses@,
        _ => a == b,
    }
}

/// Two measurements that report the same values.
pub open spec fn same_measurement(a: Option<PerMilestone<Measurement>>, b: Option<PerMilestone<Measurement>>) -> bool {
    match (a, b) {
        (None, None) => true,
        (Some(x), Some(y)) => x.at == y.at && match (x.inner, y.inner) {
            (Measurement::AddressBalance(m), Measurement::AddressBalance(n)) => m.address_with_balance_count
                == n.address_with_balance_count && m.token_distribution@ == n.token_distribution@,
            _ => x.inner == y.inner,
        },
        _ => false,
    }
}

/// The same transaction applied to analytics that hold the same data leaves them holding
/// the same data.
pub proof fn transactions_are_deterministic(
    a: Analytic,
    b: Analytic,
    consumed: Seq<LedgerSpent>,
    created: Seq<LedgerOutput>,
    a_next: Analytic,
    b_next: Analytic,
)
    requires
        same_state(a, b),
        a.transaction_post(consumed, created, a_next),
        b.transaction_post(consumed, created, b_next),
    ensures
        same_state(a_next, b_next),
{
}

/// The same block applied to analytics that hold the same data leaves them holding the same
/// data.
pub proof fn blocks_are_deterministic(a: Analytic, b: Analytic, block: BlockData, a_next: Analytic, b_next: Analytic)
    requires
        same_state(a, b),
        a.block_post(block, a_next),
        b.block_post(block, b_next),
    ensures
        same_state(a_next, b_next),
{
}

/// Ending the same milestone on analytics that hold the same data yields the same
/// measurement and leaves them holding the same data.
pub proof fn measurements_are_deterministic(
    a: Analytic,
    b: Analytic,
    at: MilestoneIndexTimestamp,
    params: ProtocolParameters,
    a_next: Analytic,
    b_next: Analytic,
    a_out: Option<PerMilestone<Measurement>>,
    b_out: Option<PerMilestone<Measurement>>,
)
    requires
        same_state(a, b),
        a.milestone_post(at, params, a_next, a_out),
        b.milestone_post(at, params, b_next, b_out),
    ensures
        same_state(a_next, b_next),
        same_measurement(a_out, b_out),
{
}

/// Two lists of analytics that hold the same data, analytic by analytic.
pub open spec fn same_states(a: Vec<Analytic>, b: Vec<Analytic>) -> bool {
    &&& a@.len() == b@.len()
    &&& forall|i: int| 0 <= i < a@.len() ==> #[trigger] same_state(a@[i], b@[i])
}

/// Two lists of measurements that report the same values, one by one.
pub open spec fn same_measurements(a: Seq<PerMilestone<Measurement>>, b: Seq<PerMilestone<Measurement>>) -> bool {
    &&& a.len() == b.len()
    &&& forall|i: int| 0 <= i < a.len() ==> #[trigger] same_measurement(Some(a[i]), Some(b[i]))
}

proof fn lemma_produced_same(x: Seq<Option<PerMilestone<Measurement>>>, y: Seq<Option<PerMilestone<Measurement>>>)
    requires
        x.len() == y.len(),
        forall|i: int| 0 <= i < x.len() ==> #[trigger] same_measurement(x[i], y[i]),
    ensures
        same_measurements(produced(x), produced(y)),
    decreases x.len(),
{
    if x.len() > 0 {
        let (xs, ys) = (x.drop_last(), y.drop_last());
        assert forall|i: int| 0 <= i < xs.len() implies #[trigger] same_measurement(xs[i], ys[i]) by {
            assert(xs[i] == x[i] && ys[i] == y[i]);
        }
        lemma_produced_same(xs, ys);
        assert(same_measurement(x[x.len() - 1], y[y.len() - 1]));
        let (px, py) = (produced(xs), produced(ys));
        match (x.last(), y.last()) {
            (Some(m), Some(n)) => {
                assert forall|i: int| 0 <= i < px.len() + 1 implies #[trigger] same_measurement(
                    Some(px.push(m)[i]),
                    Some(py.push(n)[i]),
                ) by {
                    if i < px.len() {
                        assert(px.push(m)[i] == px[i] && py.push(n)[i] == py[i]);
                    }
                }
            },
            _ => {},
        }
    }
}

/// The same transaction applied to lists of analytics that hold the same data leaves them
/// holding the same data.
pub proof fn list_transactions_are_deterministic(
    a: Vec<Analytic>,
    b: Vec<Analytic>,
    consumed: Seq<LedgerSpent>,
    created: Seq<LedgerOutput>,
    a_next: Vec<Analytic>,
    b_next: Vec<Analytic>,
)
    requires
        same_states(a, b),
        a.transaction_post(consumed, created, a_next),
        b.transaction_post(consumed, created, b_next),
    ensures
        same_states(a_next, b_next),
{
    assert forall|i: int| 0 <= i < a_next@.len() implies #[trigger] same_state(a_next@[i], b_next@[i]) by {
        assert(same_state(a@[i], b@[i]));
        transactions_are_deterministic(a@[i], b@[i], consumed, created, a_next@[i], b_next@[i]);
    }
}

/// The same block applied to lists of analytics that hold the same data leaves them holding
/// the same data.
pub proof fn list_blocks_are_deterministic(
    a: Vec<Analytic>,
    b: Vec<Analytic>,
    block: BlockData,
    a_next: Vec<Analytic>,
    b_next: Vec<Analytic>,
)
    requires
        same_states(a, b),
        a.block_post(block, a_next),
        b.block_post(block, b_next),
    ensures
        same_states(a_next, b_next),
{
    assert forall|i: int| 0 <= i < a_next@.len() implies #[trigger] same_state(a_next@[i], b_next@[i]) by {
        assert(same_state(a@[i], b@[i]));
        blocks_are_deterministic(a@[i], b@[i], block, a_next@[i], b_next@[i]);
    }
}

/// Ending the same milestone on lists of analytics that hold the same data yields the same
/// measurements, in the same order, and leaves them holding the same data.
pub proof fn list_measurements_are_deterministic(
    a: Vec<Analytic>,
    b: Vec<Analytic>,
    at: MilestoneIndexTimestamp,
    params: ProtocolParameters,
    a_next: Vec<Analytic>,
    b_next: Vec<Analytic>,
    a_out: Option<Vec<PerMilestone<Measurement>>>,
    b_out: Option<Vec<PerMilestone<Measurement>>>,
)
    requires
        same_states(a, b),
        a.milestone_post(at, params, a_next, a_out),
        b.milestone_post(at, params, b_next, b_out),
    ensures
        same_states(a_next, b_next),
        a_out matches Some(x) && b_out matches Some(y) && same_measurements(x@, y@),
{
    let x = a_out->0;
    let y = b_out->0;
    let xs = choose|outs: Seq<Option<PerMilestone<Measurement>>>|
        {
            &&& outs.len() == a@.len()
            &&& forall|i: int|
                0 <= i < a@.len() ==> #[trigger] a@[i].milestone_post(at, params, a_next@[i], outs[i])
            &&& x@ == produced(outs)
        };
    let ys = choose|outs: Seq<Option<PerMilestone<Measurement>>>|
        {
            &&& outs.len() == b@.len()
            &&& forall|i: int|
                0 <= i < b@.len() ==> #[trigger] b@[i].milestone_post(at, params, b_next@[i], outs[i])
            &&& y@ == produced(outs)
        };
    assert forall|i: int| 0 <= i < a@.len() implies #[trigger] same_state(a_next@[i], b_next@[i]) && same_measurement(
        xs[i],
        ys[i],
    ) by {
        assert(same_state(a@[i], b@[i]));
        assert(a@[i].milestone_post(at, params, a_next@[i], xs[i]));
        assert(b@[i].milestone_post(at, params, b_next@[i], ys[i]));
        measurements_are_deterministic(a@[i], b@[i], at, params, a_next@[i], b_next@[i], xs[i], ys[i]);
    }
    assert forall|i: int| 0 <= i < xs.len() implies #[trigger] same_measurement(xs[i], ys[i]) by {
        assert(same_state(a_next@[i], b_next@[i]));
    }
    lemma_produced_same(xs, ys);
}

/// The same blocks handed, one after the other, to lists of analytics that hold the same data
/// leave them holding the same data: replaying a milestone's cone is deterministic.
pub proof fn cone_replay_is_deterministic(
    ms: Milestone,
    a: Vec<Analytic>,
    b: Vec<Analytic>,
    blocks: Seq<BlockData>,
    a_next: Vec<Analytic>,
    b_next: Vec<Analytic>,
)
    requires
        same_states(a, b),
        ms.blocks_outcome(a, blocks, a_next),
        ms.blocks_outcome(b, blocks, b_next),
    ensures
        same_states(a_next, b_next),
    decreases blocks.len(),
{
    if blocks.len() > 0 {
        let am = choose|mid: Vec<Analytic>|
            ms.blocks_outcome(a, blocks.drop_last(), mid) && mid.inv() && ms.block_outcome(
                mid,
                blocks.last(),
                a_next,
                Ok(()),
            );
        let bm = choose|mid: Vec<Analytic>|
            ms.blocks_outcome(b, blocks.drop_last(), mid) && mid.inv() && ms.block_outcome(
                mid,
                blocks.last(),
                b_next,
                Ok(()),
            );
        cone_replay_is_deterministic(ms, a, b, blocks.drop_last(), am, bm);
        let block = blocks.last();
        match ms.resolution(block) {
            Ok(Some((consumed, created))) => {
                let at = choose|t: Vec<Analytic>|
                    am.transaction_post(consumed, created, t) && t.inv() && t.block_post(block, a_next);
                let bt = choose|t: Vec<Analytic>|
                    bm.transaction_post(consumed, created, t) && t.inv() && t.block_post(block, b_next);
                list_transactions_are_deterministic(am, bm, consumed, created, at, bt);
                list_blocks_are_deterministic(at, bt, block, a_next, b_next);
            },
            Ok(None) => {
                list_blocks_are_deterministic(am, bm, block, a_next, b_next);
            },
            Err(_) => {},
        }
    }
}

/// Two runs of `update_analytics` on the same milestone and cone, from lists of analytics that
/// hold the same data, end holding the same data and report the same measurements in the
/// same order.
pub proof fn milestone_replay_is_deterministic(
    ms: Milestone,
    a: Vec<Analytic>,
    b: Vec<Analytic>,
    cone: Seq<BlockData>,
    a_mid: Vec<Analytic>,
    b_mid: Vec<Analytic>,
    a_next: Vec<Analytic>,
    b_next: Vec<Analytic>,
    a_out: Option<Vec<PerMilestone<Measurement>>>,
    b_out: Option<Vec<PerMilestone<Measurement>>>,
)
    requires
        same_states(a, b),
        ms.blocks_outcome(a, cone, a_mid),
        ms.blocks_outcome(b, cone, b_mid),
        a_mid.milestone_post(ms.at, ms.protocol_params, a_next, a_out),
        b_mid.milestone_post(ms.at, ms.protocol_params, b_next, b_out),
    ensures
        same_states(a_next, b_next),
        a_out matches Some(x) && b_out matches Some(y) && same_measurements(x@, y@),
{
    cone_replay_is_deterministic(ms, a, b, cone, a_mid, b_mid);
    list_measurements_are_deterministic(a_mid, b_mid, ms.at, ms.protocol_params, a_next, b_next, a_out, b_out);
}

// ---------------------------------------------------------------------------------------
// Unclaimed genesis tokens.

/// The genesis outputs.
pub open spec fn genesis() -> OutputFilter {
    OutputFilter::BookedAt(GENESIS_MILESTONE_INDEX)
}

/// The unclaimed tokens after outputs were consumed in the order of `spent`.
pub open spec fn unclaimed_after(m: UnclaimedTokenMeasurement, spent: Seq<Seq<LedgerOutput>>) -> UnclaimedTokenMeasurement
    decreases spent.len(),
{
    if spent.len() == 0 {
        m
    } else {
        unclaimed_after(m, spent.drop_last()).updated(spent.last())
    }
}

/// The sum of `value` over the genesis outputs among all of `spent`.
pub open spec fn genesis_spent(spent: Seq<Seq<LedgerOutput>>, value: OutputValue) -> int
    decreases spent.len(),
{
    if spent.len() == 0 {
        0
    } else {
        genesis_spent(spent.drop_last(), value) + tally(spent.last(), genesis(), value)
    }
}

proof fn lemma_genesis_spent_nonnegative(spent: Seq<Seq<LedgerOutput>>, value: OutputValue)
    requires
        value == OutputValue::One || value == OutputValue::Amount,
    ensures
        genesis_spent(spent, value) >= 0,
    decreases spent.len(),
{
    if spent.len() > 0 {
        lemma_genesis_spent_nonnegative(spent.drop_last(), value);
        lemma_tally_nonnegative(spent.last(), value);
    }
}

proof fn lemma_tally_nonnegative_by(s: Seq<LedgerOutput>, filter: OutputFilter, value: OutputValue)
    requires
        value == OutputValue::One || value == OutputValue::Amount,
    ensures
        tally(s, filter, value) >= 0,
    decreases s.len(),
{
    if s.len() > 0 {
        lemma_tally_nonnegative_by(s.drop_last(), filter, value);
    }
}

proof fn lemma_tally_nonnegative(s: Seq<LedgerOutput>, value: OutputValue)
    requires
        value == OutputValue::One || value == OutputValue::Amount,
    ensures
        tally(s, genesis(), value) >= 0,
{
    lemma_tally_nonnegative_by(s, genesis(), value);
}

/// Starting from the unspent outputs, and with no more genesis outputs consumed than the
/// snapshot holds, the unclaimed count and amount are those of the snapshot's genesis
/// outputs less those of the genesis outputs consumed since: every genesis output that was
/// never consumed is counted.
pub proof fn unclaimed_counts_unconsumed_genesis_outputs(snapshot: Seq<LedgerOutput>, spent: Seq<Seq<LedgerOutput>>)
    requires
        genesis_spent(spent, OutputValue::One) <= tally(snapshot, genesis(), OutputValue::One),
        genesis_spent(spent, OutputValue::Amount) <= tally(snapshot, genesis(), OutputValue::Amount),
        tally(snapshot, genesis(), OutputValue::One) <= u64::MAX,
        tally(snapshot, genesis(), OutputValue::Amount) <= u64::MAX,
    ensures
        unclaimed_after(UnclaimedTokenMeasurement::initial(snapshot), spent).unclaimed_count == tally(
            snapshot,
            genesis(),
            OutputValue::One,
        ) - genesis_spent(spent, OutputValue::One),
        unclaimed_after(UnclaimedTokenMeasurement::initial(snapshot), spent).unclaimed_amount == tally(
            snapshot,
            genesis(),
            OutputValue::Amount,
        ) - genesis_spent(spent, OutputValue::Amount),
    decreases spent.len(),
{
    lemma_tally_nonnegative(snapshot, OutputValue::One);
    lemma_tally_nonnegative(snapshot, OutputValue::Amount);
    if spent.len() > 0 {
        lemma_genesis_spent_nonnegative(spent, OutputValue::One);
        lemma_genesis_spent_nonnegative(spent, OutputValue::Amount);
        lemma_tally_nonnegative(spent.last(), OutputValue::One);
        lemma_tally_nonnegative(spent.last(), OutputValue::Amount);
        unclaimed_counts_unconsumed_genesis_outputs(snapshot, spent.drop_last());
    }
}

// ---------------------------------------------------------------------------------------
// The sliding address window reports once per interval boundary.

/// A milestone past the end of the current interval yields exactly one report, of the
/// interval's count; any other milestone yields none. Either way nothing is left waiting.
pub proof fn active_addresses_report_once_per_boundary(
    s: ActiveAddresses,
    at: MilestoneIndexTimestamp,
    begun: ActiveAddresses,
    ended: ActiveAddresses,
    r: Option<AddressCount>,
)
    requires
        s.flush is None,
        s.begin_post(at, begun),
        begun.end_post(ended, r),
    ensures
        r is Some <==> at.milestone_timestamp > s.start_time + s.interval,
        r is Some ==> r == Some(AddressCount(s.addresses@.len() as usize)),
        ended.flush is None,
{
}

/// Ending a milestone again, with no boundary crossed in between, reports nothing.
pub proof fn active_addresses_report_nothing_twice(
    s: ActiveAddresses,
    once: ActiveAddresses,
    r1: Option<AddressCount>,
    twice: ActiveAddresses,
    r2: Option<AddressCount>,
)
    requires
        s.end_post(once, r1),
        once.end_post(twice, r2),
    ensures
        r2 is None,
{
}

/// One round of the sliding window: the milestone at `at` begins, transactions add
/// addresses, and the milestone ends with the report `r`.
pub open spec fn window_round(s: ActiveAddresses, at: MilestoneIndexTimestamp, next: ActiveAddresses, r: Option<AddressCount>) -> bool {
    exists|begun: ActiveAddresses, handled: ActiveAddresses|
        {
            &&& s.begin_post(at, begun)
            &&& handled.inv()
            &&& handled.start_time == begun.start_time
            &&& handled.interval == begun.interval
            &&& handled.flush == begun.flush
            &&& handled.end_post(next, r)
        }
}

/// The number of reports among the first `n` rounds.
pub open spec fn reports_upto(rs: Seq<Option<AddressCount>>, n: int) -> int
    decreases n,
{
    if n <= 0 {
        0
    } else {
        reports_upto(rs, n - 1) + if rs[n - 1] is Some {
            1int
        } else {
            0
        }
    }
}

/// The number of the first `n` rounds whose milestone lies past the end of the window.
pub open spec fn crossings_upto(ss: Seq<ActiveAddresses>, ats: Seq<MilestoneIndexTimestamp>, n: int) -> int
    decreases n,
{
    if n <= 0 {
        0
    } else {
        crossings_upto(ss, ats, n - 1) + if ats[n - 1].milestone_timestamp > ss[n - 1].start_time
            + ss[n - 1].interval {
            1int
        } else {
            0
        }
    }
}

/// Over any number of rounds from a window with nothing waiting (as `init` leaves it), the
/// reports are exactly one per round whose milestone crossed the end of the window, none for
/// the other rounds, and each reports the size of the set that the crossing closed.
pub proof fn active_addresses_report_each_boundary(
    ss: Seq<ActiveAddresses>,
    ats: Seq<MilestoneIndexTimestamp>,
    rs: Seq<Option<AddressCount>>,
    n: int,
)
    requires
        0 <= n <= ats.len(),
        ss.len() == ats.len() + 1,
        rs.len() == ats.len(),
        ss[0].flush is None,
        forall|i: int| 0 <= i < ats.len() ==> #[trigger] window_round(ss[i], ats[i], ss[i + 1], rs[i]),
    ensures
        reports_upto(rs, n) == crossings_upto(ss, ats, n),
        forall|i: int|
            0 <= i < n ==> (#[trigger] rs[i] is Some <==> ats[i].milestone_timestamp > ss[i].start_time
                + ss[i].interval),
        forall|i: int|
            0 <= i < n ==> (#[trigger] rs[i] is Some ==> rs[i] == Some(AddressCount(ss[i].addresses@.len() as usize))),
        ss[n].flush is None,
    decreases n,
{
    if n > 0 {
        active_addresses_report_each_boundary(ss, ats, rs, n - 1);
        let i = n - 1;
        assert(window_round(ss[i], ats[i], ss[i + 1], rs[i]));
        let (begun, handled) = choose|begun: ActiveAddresses, handled: ActiveAddresses|
            {
                &&& ss[i].begin_post(ats[i], begun)
                &&& handled.inv()
                &&& handled.start_time == begun.start_time
                &&& handled.interval == begun.interval
                &&& handled.flush == begun.flush
                &&& handled.end_post(ss[i + 1], rs[i])
            };
        assert(rs[i] is Some <==> ats[i].milestone_timestamp > ss[i].start_time + ss[i].interval);
    }
}

} // verus!
