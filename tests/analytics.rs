use chronicle::activity::{BaseTokenActivityMeasurement, OutputActivityMeasurement, TransactionSizeMeasurement};
use chronicle::addresses::{ActiveAddresses, AddressActivityAnalytics, AddressCount};
use chronicle::catalog::{Analytic, AnalyticsChoice, Measurement};
use chronicle::analytics::Analytics;
use chronicle::balances::AddressBalancesAnalytics;
use chronicle::interval::{AnalyticsInterval, CalendarDate, IntervalAnalytic, IntervalAnalyticsChoice};
use chronicle::ledger::{LedgerOutputMeasurement, LedgerSizeAnalytics, UnclaimedTokenMeasurement, UnlockConditionMeasurement};
use chronicle::milestone::{AnalyticsError, LedgerUpdates, Milestone};
use chronicle::payload::{
    Block, BlockData, BlockMetadata, Input, LedgerInclusionState, MilestonePayload, Payload, TaggedDataPayload,
    TransactionEssence, TransactionPayload, TreasuryTransactionPayload,
};
use chronicle::sync::{check_network, check_next_milestone, check_node_index, check_unspent_output_index, InxWorkerError};
use chronicle::tangle::{BlockActivityMeasurement, MilestoneSizeMeasurement, ProtocolParamsMeasurement};
use chronicle::types::{
    Address, AddressKind, ChainId, Digest, LedgerOutput, LedgerSpent, MilestoneIndexTimestamp, Output, OutputId,
    OutputKind, ProtocolParameters, RentStructure, UnlockConditions,
};

fn digest(n: u128) -> Digest {
    Digest { high: 7, low: n }
}

fn addr(n: u128) -> Address {
    Address { kind: AddressKind::Ed25519, hash: digest(n) }
}

fn no_conditions() -> UnlockConditions {
    UnlockConditions { timelock: false, expiration: false, storage_deposit_return: None, governor: None }
}

fn output(kind: OutputKind, amount: u64, owner: Option<Address>) -> Output {
    Output {
        kind,
        amount,
        owning_address: owner,
        chain_id: None,
        state_index: 0,
        unlock_conditions: no_conditions(),
        packed_len: 60,
    }
}

fn basic(amount: u64, owner: u128) -> Output {
    output(OutputKind::Basic, amount, Some(addr(owner)))
}

fn stamp(index: u32, timestamp: u32) -> MilestoneIndexTimestamp {
    MilestoneIndexTimestamp { milestone_index: index, milestone_timestamp: timestamp }
}

fn booked(tx: u128, index: u16, at: u32, output: Output) -> LedgerOutput {
    LedgerOutput {
        output_id: OutputId { transaction_id: digest(tx), index },
        block_id: digest(1000 + tx),
        booked: stamp(at, 1_000 + at),
        output,
    }
}

fn spent(output: LedgerOutput, at: u32) -> LedgerSpent {
    LedgerSpent { output, spent_at: stamp(at, 1_000 + at) }
}

fn params() -> ProtocolParameters {
    ProtocolParameters {
        version: 2,
        network_name: "shimmer".to_string(),
        bech32_hrp: "smr".to_string(),
        min_pow_score: 1500,
        below_max_depth: 15,
        rent_structure: RentStructure { v_byte_cost: 100, v_byte_factor_data: 1, v_byte_factor_key: 10 },
        token_supply: 1_813_620_509_061_365,
    }
}

fn milestone(index: u32, consumed: Vec<LedgerSpent>, created: Vec<LedgerOutput>) -> Milestone {
    Milestone {
        at: stamp(index, 1_000 + index),
        protocol_params: params(),
        ledger_updates: LedgerUpdates { consumed, created },
    }
}

fn block(payload: Option<Payload>, state: LedgerInclusionState, raw_len: usize, ms: u32) -> BlockData {
    BlockData {
        block_id: digest(5000 + raw_len as u128),
        block: Block { payload },
        raw: vec![0u8; raw_len],
        metadata: BlockMetadata { inclusion_state: state, referenced_by_milestone_index: ms },
    }
}

fn tx_payload(tx: u128, inputs: Vec<Input>, outputs: Vec<Output>) -> Payload {
    Payload::Transaction(Box::new(TransactionPayload {
        transaction_id: digest(tx),
        essence: TransactionEssence::Regular { inputs, outputs },
    }))
}

fn tagged() -> Payload {
    Payload::TaggedData(Box::new(TaggedDataPayload { tag: vec![1, 2], data: vec![3] }))
}

fn milestone_payload() -> Payload {
    Payload::Milestone(Box::new(MilestonePayload { milestone_id: digest(9), index: 10, timestamp: 1010 }))
}

fn treasury_payload() -> Payload {
    Payload::TreasuryTransaction(Box::new(TreasuryTransactionPayload { input_milestone_id: digest(8), output_amount: 5 }))
}

/// A ledger where address 1 holds two genesis outputs and address 2 one later output, and a
/// milestone in which address 1 sends one of its outputs to address 3, keeping change.
struct Scenario {
    snapshot: Vec<LedgerOutput>,
    milestone: Milestone,
    consumed: Vec<LedgerSpent>,
    created: Vec<LedgerOutput>,
    block: BlockData,
}

fn scenario() -> Scenario {
    let a = booked(1, 0, 0, basic(1_000, 1));
    let b = booked(1, 1, 0, basic(500, 1));
    let c = booked(2, 0, 4, basic(250, 2));
    let snapshot = vec![a, b, c];
    let consumed = vec![spent(a, 10)];
    let created = vec![booked(3, 0, 10, basic(700, 3)), booked(3, 1, 10, basic(300, 1))];
    let block = block(
        Some(tx_payload(3, vec![Input::Utxo(a.output_id)], vec![basic(700, 3), basic(300, 1)])),
        LedgerInclusionState::Included,
        300,
        10,
    );
    let milestone = milestone(10, consumed.clone(), created.clone());
    Scenario { snapshot, milestone, consumed, created, block }
}

#[test]
fn payload_kind_names() {
    assert_eq!(tx_payload(1, vec![], vec![]).kind(), "transaction");
    assert_eq!(milestone_payload().kind(), "milestone");
    assert_eq!(treasury_payload().kind(), "treasury_transaction");
    assert_eq!(tagged().kind(), "tagged_data");
}

#[test]
fn payload_coercion_reports_wrong_kind() {
    let err = tagged().into_milestone().unwrap_err();
    assert_eq!(err.expected, "milestone");
    assert_eq!(err.found, "tagged_data");
    let ms = milestone_payload().into_milestone().unwrap();
    assert_eq!(ms.index, 10);
    assert!(milestone_payload().into_transaction().is_err());
    assert!(treasury_payload().into_treasury_transaction().is_ok());
    assert_eq!(tagged().into_tagged_data().unwrap().tag, vec![1, 2]);
}

#[test]
fn block_activity_counts_payloads_and_states() {
    let m = milestone(10, vec![], vec![]);
    let mut a = BlockActivityMeasurement::new();
    a.handle_block(&block(Some(milestone_payload()), LedgerInclusionState::NoTransaction, 10, 10), &m);
    a.handle_block(&block(Some(tagged()), LedgerInclusionState::NoTransaction, 10, 10), &m);
    a.handle_block(&block(Some(tagged()), LedgerInclusionState::NoTransaction, 10, 10), &m);
    a.handle_block(&block(Some(tx_payload(1, vec![], vec![])), LedgerInclusionState::Included, 10, 10), &m);
    a.handle_block(&block(Some(tx_payload(2, vec![], vec![])), LedgerInclusionState::Conflicting, 10, 10), &m);
    a.handle_block(&block(None, LedgerInclusionState::NoTransaction, 10, 10), &m);
    let r = a.end_milestone(&m).unwrap();
    assert_eq!(r.milestone_count, 1);
    assert_eq!(r.tagged_data_count, 2);
    assert_eq!(r.transaction_count, 2);
    assert_eq!(r.treasury_transaction_count, 0);
    assert_eq!(r.no_payload_count, 1);
    assert_eq!(r.confirmed_count, 1);
    assert_eq!(r.conflicting_count, 1);
    assert_eq!(r.no_transaction_count, 4);
    assert_eq!(a, BlockActivityMeasurement::new());
}

#[test]
fn milestone_size_sums_raw_bytes() {
    let m = milestone(10, vec![], vec![]);
    let mut a = MilestoneSizeMeasurement::new();
    a.handle_block(&block(Some(milestone_payload()), LedgerInclusionState::NoTransaction, 100, 10), &m);
    a.handle_block(&block(Some(tagged()), LedgerInclusionState::NoTransaction, 40, 10), &m);
    a.handle_block(&block(Some(tx_payload(1, vec![], vec![])), LedgerInclusionState::Included, 300, 10), &m);
    a.handle_block(&block(None, LedgerInclusionState::NoTransaction, 7, 10), &m);
    let r = a.end_milestone(&m).unwrap();
    assert_eq!(r.total_milestone_payload_bytes, 100);
    assert_eq!(r.total_tagged_data_payload_bytes, 40);
    assert_eq!(r.total_transaction_payload_bytes, 300);
    assert_eq!(r.total_treasury_transaction_payload_bytes, 0);
    assert_eq!(r.total_milestone_bytes, 447);
}

#[test]
fn ledger_outputs_follow_created_less_consumed() {
    let s = scenario();
    let mut m = LedgerOutputMeasurement::init(&s.snapshot);
    assert_eq!(m.basic.count, 3);
    assert_eq!(m.basic.amount, 1_750);
    let before = m.basic.amount + m.alias.amount + m.nft.amount + m.foundry.amount;
    m.handle_transaction(&s.consumed, &s.created, &s.milestone);
    let after = m.basic.amount + m.alias.amount + m.nft.amount + m.foundry.amount;
    assert_eq!(m.basic.count, 4);
    assert_eq!(after as i128 - before as i128, (700 + 300) - 1_000);
    assert_eq!(m.end_milestone(&s.milestone).unwrap(), m);
}

#[test]
fn ledger_outputs_by_kind() {
    let outs = vec![
        booked(1, 0, 0, output(OutputKind::Alias, 10, Some(addr(1)))),
        booked(1, 1, 0, output(OutputKind::Nft, 20, Some(addr(1)))),
        booked(1, 2, 0, output(OutputKind::Foundry, 30, Some(addr(1)))),
        booked(1, 3, 0, output(OutputKind::Treasury, 40, None)),
    ];
    let m = LedgerOutputMeasurement::init(&outs);
    assert_eq!((m.alias.count, m.alias.amount), (1, 10));
    assert_eq!((m.nft.count, m.nft.amount), (1, 20));
    assert_eq!((m.foundry.count, m.foundry.amount), (1, 30));
    assert_eq!((m.basic.count, m.basic.amount), (0, 0));
}

#[test]
fn ledger_size_applies_rent_structure() {
    let s = scenario();
    let mut a = LedgerSizeAnalytics::init(&params(), &s.snapshot);
    assert_eq!(a.measurement.total_key_bytes, 3 * 34);
    assert_eq!(a.measurement.total_data_bytes, 3 * 100);
    assert_eq!(a.measurement.total_storage_deposit_amount, 3 * 100 * (10 * 34 + 100));
    a.handle_transaction(&s.consumed, &s.created, &s.milestone);
    let r = a.end_milestone(&s.milestone).unwrap();
    assert_eq!(r.total_key_bytes, 4 * 34);
    assert_eq!(r.total_data_bytes, 4 * 100);
    assert_eq!(r.total_storage_deposit_amount, 4 * 44_000);
}

#[test]
fn unlock_conditions_track_inner_return_amount() {
    let mut o = basic(1_000, 1);
    o.unlock_conditions.storage_deposit_return = Some(42);
    o.unlock_conditions.expiration = true;
    let mut t = basic(80, 2);
    t.unlock_conditions.timelock = true;
    let snapshot = vec![booked(1, 0, 0, o), booked(1, 1, 0, t), booked(1, 2, 0, basic(5, 3))];
    let mut m = UnlockConditionMeasurement::init(&snapshot);
    assert_eq!((m.storage_deposit_return.count, m.storage_deposit_return.amount), (1, 1_000));
    assert_eq!(m.storage_deposit_return_inner_amount, 42);
    assert_eq!((m.expiration.count, m.expiration.amount), (1, 1_000));
    assert_eq!((m.timelock.count, m.timelock.amount), (1, 80));
    let ms = milestone(10, vec![], vec![]);
    m.handle_transaction(&[spent(snapshot[0], 10)], &[], &ms);
    assert_eq!((m.storage_deposit_return.count, m.storage_deposit_return.amount), (0, 0));
    assert_eq!(m.storage_deposit_return_inner_amount, 0);
    assert_eq!(m.expiration.count, 0);
}

#[test]
fn unclaimed_tokens_count_unconsumed_genesis_outputs() {
    let s = scenario();
    let mut m = UnclaimedTokenMeasurement::init(&s.snapshot);
    assert_eq!((m.unclaimed_count, m.unclaimed_amount), (2, 1_500));
    m.handle_transaction(&s.consumed, &s.created, &s.milestone);
    assert_eq!((m.unclaimed_count, m.unclaimed_amount), (1, 500));
    let later = spent(s.snapshot[2], 11);
    m.handle_transaction(&[later], &[], &s.milestone);
    assert_eq!((m.unclaimed_count, m.unclaimed_amount), (1, 500));
}

#[test]
fn base_token_activity_counts_booked_and_transferred() {
    let s = scenario();
    let mut m = BaseTokenActivityMeasurement::new();
    m.handle_transaction(&s.consumed, &s.created, &s.milestone);
    let r = m.end_milestone(&s.milestone).unwrap();
    assert_eq!(r.booked_amount, 1_000);
    assert_eq!(r.transferred_amount, 700);
    assert_eq!(m, BaseTokenActivityMeasurement::new());
}

#[test]
fn base_token_activity_counts_each_receiver_once() {
    let ms = milestone(10, vec![], vec![]);
    let input = spent(booked(1, 0, 0, basic(100, 1)), 10);
    let created = vec![booked(2, 0, 10, basic(30, 2)), booked(2, 1, 10, basic(20, 2)), booked(2, 2, 10, basic(50, 1))];
    let mut m = BaseTokenActivityMeasurement::new();
    m.handle_transaction(&[input], &created, &ms);
    assert_eq!(m.booked_amount, 100);
    assert_eq!(m.transferred_amount, 50);
}

#[test]
fn transaction_size_buckets() {
    let ms = milestone(10, vec![], vec![]);
    let one = vec![spent(booked(1, 0, 0, basic(1, 1)), 10)];
    let three: Vec<LedgerOutput> = (0..3).map(|i| booked(2, i, 10, basic(1, 1))).collect();
    let seventeen: Vec<LedgerOutput> = (0..17).map(|i| booked(3, i, 10, basic(1, 1))).collect();
    let sixteen: Vec<LedgerOutput> = (0..16).map(|i| booked(4, i, 10, basic(1, 1))).collect();
    let seventy: Vec<LedgerSpent> = (0..70).map(|i| spent(booked(5, i, 0, basic(1, 1)), 10)).collect();
    let mut m = TransactionSizeMeasurement::new();
    m.handle_transaction(&one, &three, &ms);
    m.handle_transaction(&one, &seventeen, &ms);
    m.handle_transaction(&seventy, &sixteen, &ms);
    let r = m.end_milestone(&ms).unwrap();
    assert_eq!(r.input_buckets.single(1), 2);
    assert_eq!(r.input_buckets.huge, 1);
    assert_eq!(r.output_buckets.single(3), 1);
    assert_eq!(r.output_buckets.small, 1);
    assert_eq!(r.output_buckets.medium, 1);
    assert_eq!(r.output_buckets.large, 0);
    assert_eq!(r.input_buckets.single(2), 0);
    let cleared = m.end_milestone(&ms).unwrap();
    assert_eq!(cleared.input_buckets.single(1), 0);
}

fn chained(kind: OutputKind, chain: ChainId, state_index: u32, governor: u128) -> Output {
    let mut o = output(kind, 100, Some(addr(1)));
    o.chain_id = Some(chain);
    o.state_index = state_index;
    o.unlock_conditions.governor = Some(addr(governor));
    o
}

#[test]
fn output_activity_classifies_chains() {
    let ms = milestone(10, vec![], vec![]);
    let nft_kept = ChainId::Nft(digest(1));
    let nft_new = ChainId::Nft(digest(2));
    let nft_burnt = ChainId::Nft(digest(3));
    let alias_state = ChainId::Alias(digest(4));
    let alias_gov = ChainId::Alias(digest(5));
    let consumed = vec![
        spent(booked(1, 0, 0, chained(OutputKind::Nft, nft_kept, 0, 0)), 10),
        spent(booked(1, 1, 0, chained(OutputKind::Nft, nft_burnt, 0, 0)), 10),
        spent(booked(1, 2, 0, chained(OutputKind::Alias, alias_state, 3, 9)), 10),
        spent(booked(1, 3, 0, chained(OutputKind::Alias, alias_gov, 3, 9)), 10),
    ];
    let created = vec![
        booked(2, 0, 10, chained(OutputKind::Nft, nft_kept, 0, 0)),
        booked(2, 1, 10, chained(OutputKind::Nft, nft_new, 0, 0)),
        booked(2, 2, 10, chained(OutputKind::Alias, alias_state, 4, 8)),
        booked(2, 3, 10, chained(OutputKind::Alias, alias_gov, 3, 8)),
    ];
    let mut m = OutputActivityMeasurement::new();
    m.handle_transaction(&consumed, &created, &ms);
    let r = m.end_milestone(&ms).unwrap();
    assert_eq!(r.nft.created_count, 1);
    assert_eq!(r.nft.transferred_count, 1);
    assert_eq!(r.nft.destroyed_count, 1);
    assert_eq!(r.alias.created_count, 0);
    assert_eq!(r.alias.state_changed_count, 1);
    assert_eq!(r.alias.governor_changed_count, 1);
    assert_eq!(r.alias.destroyed_count, 0);
    assert_eq!(r.foundry.created_count, 0);
    assert_eq!(m, OutputActivityMeasurement::new());
}

#[test]
fn address_balances_conserve_tokens() {
    let s = scenario();
    let mut a = AddressBalancesAnalytics::init(&s.snapshot);
    let total = |a: &AddressBalancesAnalytics| a.balances.iter().map(|e| e.balance).sum::<u64>();
    assert_eq!(a.balances.len(), 2);
    assert_eq!(total(&a), 1_750);
    a.handle_transaction(&s.consumed, &s.created, &s.milestone);
    assert_eq!(total(&a), 1_750);
    let r = a.end_milestone(&s.milestone).unwrap();
    assert_eq!(r.address_with_balance_count, 3);
    assert_eq!(r.token_distribution.len(), 16);
    assert_eq!(r.token_distribution[2].address_count, 3);
    assert_eq!(r.token_distribution[2].total_amount, 1_750);
    assert_eq!(r.token_distribution[3].address_count, 0);
}

#[test]
fn address_balances_drop_emptied_addresses() {
    let ms = milestone(10, vec![], vec![]);
    let o = booked(1, 0, 0, basic(1_000, 1));
    let mut a = AddressBalancesAnalytics::init(&[o]);
    a.handle_transaction(&[spent(o, 10)], &[booked(2, 0, 10, basic(1_000, 2))], &ms);
    assert_eq!(a.balances.len(), 1);
    assert_eq!(a.balances[0].address, addr(2));
    let r = a.end_milestone(&ms).unwrap();
    assert_eq!(r.token_distribution[3].address_count, 1);
    assert_eq!(r.token_distribution[3].total_amount, 1_000);
}

#[test]
fn address_activity_counts_distinct_addresses() {
    let s = scenario();
    let mut a = AddressActivityAnalytics::new();
    a.handle_transaction(&s.consumed, &s.created, &s.milestone);
    a.handle_transaction(&s.consumed, &s.created, &s.milestone);
    assert_eq!(a.end_milestone(&s.milestone).unwrap().count, 2);
    assert_eq!(a.end_milestone(&s.milestone).unwrap().count, 0);
}

#[test]
fn active_addresses_report_once_per_boundary() {
    let snapshot = vec![booked(1, 0, 0, basic(1, 1)), booked(1, 1, 200, basic(1, 2))];
    let mut a = ActiveAddresses::init(1_000, 100, &snapshot);
    assert_eq!(a.addresses.addresses.len(), 1);
    a.begin_milestone(stamp(1, 1_050));
    a.handle_transaction(&[], &[booked(2, 0, 1, basic(1, 5))]);
    assert_eq!(a.end_milestone(stamp(1, 1_050)), None);
    a.begin_milestone(stamp(2, 1_100));
    assert_eq!(a.end_milestone(stamp(2, 1_100)), None);
    a.begin_milestone(stamp(3, 1_101));
    assert_eq!(a.end_milestone(stamp(3, 1_101)), Some(AddressCount(2)));
    assert_eq!(a.end_milestone(stamp(3, 1_101)), None);
    assert_eq!(a.start_time, 1_100);
    a.begin_milestone(stamp(4, 1_500));
    assert_eq!(a.end_milestone(stamp(4, 1_500)), Some(AddressCount(0)));
    assert_eq!(a.start_time, 1_200);
}

#[test]
fn protocol_parameters_reported_when_changed() {
    let mut p = ProtocolParamsMeasurement::default();
    let m = milestone(10, vec![], vec![]);
    assert_eq!(p.end_milestone(&m).unwrap().network_name, "shimmer");
    assert!(p.end_milestone(&m).is_none());
    let mut changed = milestone(11, vec![], vec![]);
    changed.protocol_params.token_supply = 5;
    assert_eq!(p.end_milestone(&changed).unwrap().token_supply, 5);
    assert!(p.end_milestone(&changed).is_none());
}

#[test]
fn intervals_durations_and_end_dates() {
    let feb = CalendarDate { year: 2024, month: 2, day: 10 };
    assert_eq!(AnalyticsInterval::Day.to_duration(&feb), 1);
    assert_eq!(AnalyticsInterval::Week.to_duration(&feb), 7);
    assert_eq!(AnalyticsInterval::Month.to_duration(&feb), 29);
    assert_eq!(AnalyticsInterval::Year.to_duration(&feb), 366);
    let jan = CalendarDate { year: 2023, month: 1, day: 31 };
    assert_eq!(AnalyticsInterval::Month.to_duration(&jan), 31);
    assert_eq!(AnalyticsInterval::Year.to_duration(&jan), 365);
    assert_eq!(AnalyticsInterval::Month.end_date(&jan), CalendarDate { year: 2023, month: 3, day: 3 });
    assert_eq!(AnalyticsInterval::Week.end_date(&jan), CalendarDate { year: 2023, month: 2, day: 7 });
    assert_eq!(AnalyticsInterval::Day.end_date(&CalendarDate { year: 2023, month: 12, day: 31 }), CalendarDate {
        year: 2024,
        month: 1,
        day: 1
    });
    assert_eq!(AnalyticsInterval::Year.end_date(&feb), CalendarDate { year: 2025, month: 2, day: 10 });
    assert_eq!(AnalyticsInterval::Day.name(), "daily");
    assert_eq!(AnalyticsInterval::Week.name(), "weekly");
    assert_eq!(AnalyticsInterval::Month.name(), "monthly");
    assert_eq!(AnalyticsInterval::Year.name(), "yearly");
}

#[test]
fn intervals_end_in_the_last_representable_year() {
    let start = CalendarDate { year: 9999, month: 1, day: 1 };
    assert_eq!(AnalyticsInterval::Day.end_date(&start), CalendarDate { year: 9999, month: 1, day: 2 });
    assert_eq!(AnalyticsInterval::Month.end_date(&start), CalendarDate { year: 9999, month: 2, day: 1 });
    let last = CalendarDate { year: 9999, month: 12, day: 30 };
    assert_eq!(AnalyticsInterval::Day.end_date(&last), CalendarDate { year: 9999, month: 12, day: 31 });
}

#[test]
fn interval_analytic_counts_distinct_addresses() {
    let a = IntervalAnalytic::init(&IntervalAnalyticsChoice::ActiveAddresses);
    let start = CalendarDate { year: 2023, month: 5, day: 1 };
    let r = a.handle_date_range(start, AnalyticsInterval::Week, &[addr(1), addr(2), addr(1), addr(3)]);
    assert_eq!(r.inner.count, 3);
    assert_eq!(r.start_date, start);
    assert_eq!(r.interval, AnalyticsInterval::Week);
}

#[test]
fn missing_consumed_output_is_reported_and_leaves_state() {
    let s = scenario();
    let ms = milestone(10, vec![], s.created.clone());
    let mut analytics = vec![Analytic::init(&AnalyticsChoice::LedgerOutputs, &params(), &s.snapshot)];
    let err = ms.handle_block(&mut analytics, &s.block).unwrap_err();
    assert_eq!(
        err,
        AnalyticsError::MissingLedgerSpent { output_id: s.snapshot[0].output_id, milestone_index: 10 }
    );
    match &analytics[0] {
        Analytic::LedgerOutputs(m) => assert_eq!(m.basic.count, 3),
        _ => panic!("wrong analytic"),
    }
}

#[test]
fn missing_created_output_is_reported() {
    let s = scenario();
    let ms = milestone(10, s.consumed.clone(), vec![s.created[0]]);
    let mut a = LedgerOutputMeasurement::init(&s.snapshot);
    let err = ms.handle_block(&mut a, &s.block).unwrap_err();
    assert_eq!(
        err,
        AnalyticsError::MissingLedgerOutput {
            output_id: OutputId { transaction_id: digest(3), index: 1 },
            milestone_index: 10
        }
    );
    assert_eq!(a, LedgerOutputMeasurement::init(&s.snapshot));
}

#[test]
fn conflicting_transaction_is_not_resolved() {
    let s = scenario();
    let mut b = s.block.clone();
    b.metadata.inclusion_state = LedgerInclusionState::Conflicting;
    let ms = milestone(10, vec![], vec![]);
    let mut a = LedgerOutputMeasurement::init(&s.snapshot);
    assert!(ms.handle_block(&mut a, &b).is_ok());
    assert_eq!(a.basic.count, 3);
}

#[test]
fn update_analytics_bails_before_any_change() {
    let s = scenario();
    let broken = milestone(10, vec![], vec![]);
    let cone = vec![block(Some(tagged()), LedgerInclusionState::NoTransaction, 10, 10), s.block.clone()];
    let mut a = BlockActivityMeasurement::new();
    assert!(broken.update_analytics(&mut a, &cone).is_err());
    assert_eq!(a, BlockActivityMeasurement::new());
    let r = s.milestone.update_analytics(&mut a, &cone).unwrap().unwrap();
    assert_eq!(r.tagged_data_count, 1);
    assert_eq!(r.transaction_count, 1);
    assert_eq!(r.confirmed_count, 1);
    assert_eq!(r.no_transaction_count, 1);
}

fn all_choices() -> Vec<AnalyticsChoice> {
    vec![
        AnalyticsChoice::AddressBalance,
        AnalyticsChoice::BaseTokenActivity,
        AnalyticsChoice::BlockActivity,
        AnalyticsChoice::ActiveAddresses,
        AnalyticsChoice::LedgerOutputs,
        AnalyticsChoice::LedgerSize,
        AnalyticsChoice::MilestoneSize,
        AnalyticsChoice::OutputActivity,
        AnalyticsChoice::ProtocolParameters,
        AnalyticsChoice::TransactionSizeDistribution,
        AnalyticsChoice::UnclaimedTokens,
        AnalyticsChoice::UnlockConditions,
    ]
}

fn replay() -> Vec<String> {
    let s = scenario();
    let mut analytics: Vec<Analytic> =
        all_choices().iter().map(|c| Analytic::init(c, &params(), &s.snapshot)).collect();
    let cone = vec![block(Some(tagged()), LedgerInclusionState::NoTransaction, 10, 10), s.block.clone()];
    let measurements = s.milestone.update_analytics(&mut analytics, &cone).unwrap().unwrap();
    measurements.iter().map(|m| format!("{:?} {:?}", m.at, m.inner)).collect()
}

#[test]
fn every_analytic_reports_at_the_milestone() {
    let s = scenario();
    let mut analytics: Vec<Analytic> =
        all_choices().iter().map(|c| Analytic::init(c, &params(), &s.snapshot)).collect();
    let cone = vec![s.block.clone()];
    let measurements = s.milestone.update_analytics(&mut analytics, &cone).unwrap().unwrap();
    assert_eq!(measurements.len(), 12);
    assert!(measurements.iter().all(|m| m.at == stamp(10, 1_010)));
    match &measurements[4].inner {
        Measurement::LedgerOutputs(m) => assert_eq!((m.basic.count, m.basic.amount), (4, 1_750)),
        other => panic!("unexpected {:?}", other),
    }
    match &measurements[1].inner {
        Measurement::BaseTokenActivity(m) => assert_eq!((m.booked_amount, m.transferred_amount), (1_000, 700)),
        other => panic!("unexpected {:?}", other),
    }
    let again = s.milestone.end_milestone(&mut analytics).unwrap();
    assert_eq!(again.len(), 11);
}

#[test]
fn replay_is_deterministic() {
    assert_eq!(replay(), replay());
}

#[test]
fn sync_checks() {
    assert!(check_next_milestone(5, 6).is_ok());
    assert!(matches!(check_next_milestone(5, 9), Err(InxWorkerError::SyncMilestoneGap { start: 6, end: 8 })));
    assert!(matches!(
        check_next_milestone(5, 5),
        Err(InxWorkerError::SyncMilestoneIndexMismatch { node: 5, db: 5 })
    ));
    assert!(check_node_index(7, 7).is_ok());
    assert!(matches!(check_node_index(6, 7), Err(InxWorkerError::SyncMilestoneIndexMismatch { node: 6, db: 7 })));
    assert!(check_unspent_output_index(3, 3).is_ok());
    assert!(matches!(
        check_unspent_output_index(2, 3),
        Err(InxWorkerError::InvalidUnspentOutputIndex { found: 2, expected: 3 })
    ));
    let mut other = params();
    assert!(check_network(&params(), &other).is_ok());
    other.network_name = "testnet".to_string();
    match check_network(&params(), &other) {
        Err(InxWorkerError::NetworkChanged(old, new)) => assert_eq!((old.as_str(), new.as_str()), ("shimmer", "testnet")),
        other => panic!("unexpected {:?}", other),
    }
}
