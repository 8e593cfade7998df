//! Sums over sequences of booked outputs, and the saturating arithmetic that the
//! analytics' counters follow.
use vstd::prelude::*;

use crate::types::{Address, LedgerOutput, LedgerSpent, OutputKind, RentStructure};

verus! {

/// Something that carries a booked output: a created output, or a consumed one.
pub trait Booked: Sized {
    spec fn booked_output(self) -> LedgerOutput;

    fn ledger_output(&self) -> (r: &LedgerOutput)
        ensures
            *r == self.booked_output(),
    ;
}

impl Booked for LedgerOutput {
    open spec fn booked_output(self) -> LedgerOutput {
        self
    }

    fn ledger_output(&self) -> (r: &LedgerOutput) {
        self
    }
}

impl Booked for LedgerSpent {
    open spec fn booked_output(self) -> LedgerOutput {
        self.output
    }

    fn ledger_output(&self) -> (r: &LedgerOutput) {
        &self.output
    }
}

/// The booked outputs that a sequence of items carries, in order.
pub open spec fn outputs_of<T: Booked>(items: Seq<T>) -> Seq<LedgerOutput> {
    items.map_values(|t: T| t.booked_output())
}

/// The sum of `f` over a sequence of outputs.
pub open spec fn sum_by(s: Seq<LedgerOutput>, f: spec_fn(LedgerOutput) -> int) -> int
    decreases s.len(),
{
    if s.len() == 0 {
        0
    } else {
        sum_by(s.drop_last(), f) + f(s.last())
    }
}

/// `x` clamped to the range of `u64`.
pub open spec fn clamp_u64(x: int) -> int {
    if x < 0 {
        0
    } else if x > u64::MAX {
        u64::MAX as int
    } else {
        x
    }
}

/// A counter after a saturating addition of `added` followed by a saturating subtraction
/// of `removed`.
pub open spec fn apply_delta(old: u64, added: int, removed: int) -> u64 {
    clamp_u64(clamp_u64(old + added) - removed) as u64
}

/// Extending a prefix by one element adds that element's term to the sum.
pub proof fn lemma_sum_by_step(s: Seq<LedgerOutput>, f: spec_fn(LedgerOutput) -> int, i: int)
    requires
        0 <= i < s.len(),
    ensures
        sum_by(s.take(i + 1), f) == sum_by(s.take(i), f) + f(s[i]),
{
    assert(s.take(i + 1).drop_last() =~= s.take(i));
}

/// A running sum of `u64` terms over at most `usize::MAX` items fits in a `u128`.
pub proof fn lemma_running_sum_fits(i: int, acc: int, term: int)
    requires
        0 <= i < usize::MAX,
        0 <= acc <= i * (u64::MAX as int),
        0 <= term <= u64::MAX,
    ensures
        0 <= acc + term <= (i + 1) * (u64::MAX as int),
        (i + 1) * (u64::MAX as int) <= u128::MAX,
{
    assert((i + 1) * (u64::MAX as int) <= (usize::MAX as int) * (u64::MAX as int)) by (nonlinear_arith)
        requires
            i + 1 <= usize::MAX,
    ;
    assert((usize::MAX as int) * (u64::MAX as int) <= u128::MAX) by (nonlinear_arith)
        requires
            usize::MAX <= u64::MAX,
    ;
    assert(acc + term <= (i + 1) * (u64::MAX as int)) by (nonlinear_arith)
        requires
            acc <= i * (u64::MAX as int),
            term <= u64::MAX,
    ;
}

/// Applies a saturating addition of `added` and then a saturating subtraction of `removed`.
pub fn saturating_delta(old: u64, added: u128, removed: u128) -> (r: u64)
    ensures
        r == apply_delta(old, added as int, removed as int),
{
    let raised: u64 = if added > (u64::MAX - old) as u128 {
        u64::MAX
    } else {
        old + added as u64
    };
    if removed > raised as u128 {
        0
    } else {
        raised - removed as u64
    }
}

/// The length of an output id, the key under which an output is stored.
pub const OUTPUT_ID_LENGTH: u64 = 34;

/// What is stored beside an output's encoding: the id of the block that booked it, and the
/// index and timestamp of the milestone that booked it.
pub const OUTPUT_METADATA_LENGTH: u64 = 40;

/// Which outputs a tally takes in.
#[derive(Clone, Copy, Debug, PartialEq, Eq, Structural)]
pub enum OutputFilter {
    All,
    Kind(OutputKind),
    Timelock,
    Expiration,
    StorageDepositReturn,
    BookedAt(u32),
    OwnedBy(Address),
}

/// What a tally adds up for each output that it takes in.
#[derive(Clone, Copy, Debug, PartialEq, Eq, Structural)]
pub enum OutputValue {
    One,
    Amount,
    ReturnAmount,
    KeyBytes,
    DataBytes,
    StorageDeposit(RentStructure),
}

/// The number of bytes that the storage deposit charges for an output's key.
pub open spec fn key_bytes(o: LedgerOutput) -> int {
    OUTPUT_ID_LENGTH as int
}

/// The number of bytes that the storage deposit charges for an output's data.
pub open spec fn data_bytes(o: LedgerOutput) -> int {
    o.output.packed_len + OUTPUT_METADATA_LENGTH
}

/// The storage deposit that the rent structure asks of an output.
pub open spec fn storage_deposit(o: LedgerOutput, rent: RentStructure) -> int {
    rent.v_byte_cost * (rent.v_byte_factor_key * key_bytes(o) + rent.v_byte_factor_data
        * data_bytes(o))
}

impl OutputFilter {
    pub open spec fn admits(self, o: LedgerOutput) -> bool {
        match self {
            OutputFilter::All => true,
            OutputFilter::Kind(k) => o.output.kind == k,
            OutputFilter::Timelock => o.output.unlock_conditions.timelock,
            OutputFilter::Expiration => o.output.unlock_conditions.expiration,
            OutputFilter::StorageDepositReturn => o.output.unlock_conditions.storage_deposit_return is Some,
            OutputFilter::BookedAt(index) => o.booked.milestone_index == index,
            OutputFilter::OwnedBy(a) => o.output.owning_address == Some(a),
        }
    }

    pub fn admits_exec(&self, o: &LedgerOutput) -> (r: bool)
        ensures
            r == self.admits(*o),
    {
        match self {
            OutputFilter::All => true,
            OutputFilter::Kind(k) => o.output.kind == *k,
            OutputFilter::Timelock => o.output.unlock_conditions.timelock,
            OutputFilter::Expiration => o.output.unlock_conditions.expiration,
            OutputFilter::StorageDepositReturn => o.output.unlock_conditions.storage_deposit_return.is_some(),
            OutputFilter::BookedAt(index) => o.booked.milestone_index == *index,
            OutputFilter::OwnedBy(a) => match o.output.owning_address {
                Some(b) => b == *a,
                None => false,
            },
        }
    }
}

impl OutputValue {
    pub open spec fn of(self, o: LedgerOutput) -> int {
        match self {
            OutputValue::One => 1,
            OutputValue::Amount => o.output.amount as int,
            OutputValue::ReturnAmount => match o.output.unlock_conditions.storage_deposit_return {
                Some(a) => a as int,
                None => 0,
            },
            OutputValue::KeyBytes => key_bytes(o),
            OutputValue::DataBytes => data_bytes(o),
            OutputValue::StorageDeposit(rent) => storage_deposit(o, rent),
        }
    }

    pub fn of_exec(&self, o: &LedgerOutput) -> (r: u64)
        ensures
            r == self.of(*o),
    {
        match self {
            OutputValue::One => 1,
            OutputValue::Amount => o.output.amount,
            OutputValue::ReturnAmount => match o.output.unlock_conditions.storage_deposit_return {
                Some(a) => a,
                None => 0,
            },
            OutputValue::KeyBytes => OUTPUT_ID_LENGTH,
            OutputValue::DataBytes => o.output.packed_len as u64 + OUTPUT_METADATA_LENGTH,
            OutputValue::StorageDeposit(rent) => {
                let key = rent.v_byte_factor_key as u64 * OUTPUT_ID_LENGTH;
                let len = o.output.packed_len as u64 + OUTPUT_METADATA_LENGTH;
                proof {
                    assert(rent.v_byte_factor_data as u64 * len <= 255 * 65575) by (nonlinear_arith)
                        requires
                            rent.v_byte_factor_data <= 255,
                            len <= 65575,
                    ;
                }
                let data = rent.v_byte_factor_data as u64 * len;
                proof {
                    assert(key <= 255 * 34) by (nonlinear_arith)
                        requires
                            key == rent.v_byte_factor_key as u64 * 34,
                            rent.v_byte_factor_key <= 255,
                    ;
                    assert(data <= 255 * 65575) by (nonlinear_arith)
                        requires
                            data == rent.v_byte_factor_data as u64 * (o.output.packed_len as u64
                                + 40),
                            rent.v_byte_factor_data <= 255,
                            o.output.packed_len <= 65535,
                    ;
                    assert(rent.v_byte_cost as u64 * (key + data) <= 4294967295 * (255 * 34 + 255
                        * 65575)) by (nonlinear_arith)
                        requires
                            key + data <= 255 * 34 + 255 * 65575,
                            rent.v_byte_cost <= 4294967295,
                    ;
                }
                rent.v_byte_cost as u64 * (key + data)
            },
        }
    }
}

/// The sum of `value` over the outputs of `s` that `filter` admits.
pub open spec fn tally(s: Seq<LedgerOutput>, filter: OutputFilter, value: OutputValue) -> int {
    sum_by(s, |o: LedgerOutput| if filter.admits(o) { value.of(o) } else { 0int })
}

/// Adds up `value` over the outputs of `items` that `filter` admits.
pub fn total<T: Booked>(items: &[T], filter: OutputFilter, value: OutputValue) -> (r: u128)
    ensures
        r == tally(outputs_of(items@), filter, value),
{
    let ghost s = outputs_of(items@);
    let ghost f = |o: LedgerOutput| if filter.admits(o) { value.of(o) } else { 0int };
    let mut acc: u128 = 0;
    let mut i: usize = 0;
    while i < items.len()
        invariant
            i <= items.len(),
            s == outputs_of(items@),
            f == (|o: LedgerOutput| if filter.admits(o) { value.of(o) } else { 0int }),
            acc == sum_by(s.take(i as int), f),
            acc <= i * (u64::MAX as int),
        decreases items.len() - i,
    {
        let o = items[i].ledger_output();
        let term: u64 = if filter.admits_exec(o) {
            value.of_exec(o)
        } else {
            0
        };
        proof {
            assert(s[i as int] == *o);
            lemma_sum_by_step(s, f, i as int);
            lemma_running_sum_fits(i as int, acc as int, term as int);
        }
        acc = acc + term as u128;
        i = i + 1;
    }
    proof {
        assert(s.take(items.len() as int) =~= s);
    }
    acc
}

} // verus!
