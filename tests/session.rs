use zebra_komodo::error::TransactionError;
use zebra_komodo::fee::{FeeRate, FeeRateLimiter};
use zebra_komodo::parameters::{Network, NetworkUpgrade, MAINNET_SAPLING_HEIGHT};
use zebra_komodo::session::{Action, BlockQuery, Phase, Verification, Verifier};
use zebra_komodo::transaction::{
    Hash256, Input, JoinSplit, OrchardAction, OrchardData, OutPoint, Output, SaplingOutput,
    SaplingSpend, Transaction, TxVersion,
};
use zebra_komodo::verify::{
    checks_for_version, verify_v4_transaction_network_upgrade,
    verify_v5_transaction_network_upgrade, AsyncChecks, CheckItem, KnownUtxo, Request, Response, Utxo,
};

const SAPLING: u32 = MAINNET_SAPLING_HEIGHT + 10;
const BLOCK_TIME: i64 = 1_700_000_000;

fn h(n: u64) -> Hash256 {
    Hash256 { w0: n, w1: 0, w2: 0, w3: 0 }
}

fn op(n: u64) -> OutPoint {
    OutPoint { hash: h(n), index: 0 }
}

fn utxo(value: u64) -> Utxo {
    Utxo { output: Output { value }, height: 10, from_coinbase: false, lock_time: 0 }
}

fn tx(version: TxVersion, inputs: Vec<Input>, outputs: Vec<u64>) -> Transaction {
    Transaction {
        version,
        hash: h(777),
        inputs,
        outputs: outputs.into_iter().map(|value| Output { value }).collect(),
        lock_time: 0,
        expiry_height: 0,
        joinsplits: Vec::new(),
        sapling_spends: Vec::new(),
        sapling_outputs: Vec::new(),
        sapling_value_balance: 0,
        orchard: None,
        size: 250,
    }
}

fn spend(n: u64) -> Input {
    Input::PrevOut { outpoint: op(n), sequence: u32::MAX }
}

fn block_request(t: Transaction, known: Vec<KnownUtxo>) -> Request {
    Request::Block {
        transaction: t,
        known_utxos: known,
        height: SAPLING,
        time: BLOCK_TIME,
        previous_hash: h(5),
        last_tx_verify_data: None,
    }
}

fn mempool_request(t: Transaction, check_low_fee: bool, reject_absurd_fee: bool) -> Request {
    Request::Mempool { transaction: t, height: SAPLING, check_low_fee, reject_absurd_fee }
}

/// Answers every action the way a state service holding `chain` would,
/// with all checks passing, and settles.
fn run(
    request: Request,
    chain: &[(OutPoint, Utxo)],
    limiter: &mut FeeRateLimiter,
    rate: FeeRate,
    sigops: u64,
) -> Result<Response, TransactionError> {
    let (mut v, mut action) = Verification::start(Network::Mainnet, request);
    loop {
        action = match action {
            Action::MedianTimePast(_) => v.on_median_time_past(Some(BLOCK_TIME - 600)),
            Action::BlockTime(_) => v.on_block_time(Some(BLOCK_TIME - 60)),
            Action::Utxo { outpoint, .. } => {
                let found = chain.iter().find(|(o, _)| *o == outpoint).map(|(_, u)| *u);
                v.on_utxo(found)
            }
            Action::RunChecks(_) => v.on_checks(true),
            Action::Settle => return v.settle(limiter, BLOCK_TIME, rate, sigops),
            Action::Fail(e) => return Err(e),
        }
    }
}

#[test]
fn coinbase_in_mempool_is_refused() {
    let t = tx(TxVersion::V4, vec![Input::Coinbase { sequence: u32::MAX }], vec![1_000]);
    let request = Request::Mempool { transaction: t, height: 100, check_low_fee: false, reject_absurd_fee: false };
    let (_, action) = Verification::start(Network::Mainnet, request);
    assert!(matches!(action, Action::Fail(TransactionError::CoinbaseInMempool)));
}

#[test]
fn minimal_v4_block_transaction() {
    let t = tx(TxVersion::V4, vec![spend(1)], vec![90_000]);
    let known = vec![KnownUtxo { outpoint: op(1), utxo: utxo(100_000) }];
    let mut limiter = FeeRateLimiter::new(0);
    let r = run(block_request(t, known), &[], &mut limiter, FeeRate::new(1_000), 1).unwrap();
    assert_eq!(r.miner_fee(), Some(10_000));
    assert_eq!(r.legacy_sigop_count(), Some(1));
    assert_eq!(r.komodo_interest(), Some(0));
    assert!(!r.is_mempool());
    assert_eq!(r.tx_id(), h(777));
}

#[test]
fn block_transaction_looks_up_unknown_outputs_in_order() {
    let t = tx(TxVersion::V4, vec![spend(1), spend(2), spend(3)], vec![50_000]);
    let known = vec![KnownUtxo { outpoint: op(2), utxo: utxo(20_000) }];
    let (mut v, a) = Verification::start(Network::Mainnet, block_request(t, known));
    assert!(matches!(a, Action::BlockTime(BlockQuery::AwaitBlock(x)) if x == h(5)));
    let a = v.on_block_time(Some(BLOCK_TIME));
    assert!(matches!(a, Action::Utxo { outpoint, mempool: false } if outpoint == op(1)));
    let a = v.on_utxo(Some(utxo(30_000)));
    assert!(matches!(a, Action::Utxo { outpoint, .. } if outpoint == op(3)));
    let a = v.on_utxo(Some(utxo(40_000)));
    match a {
        Action::RunChecks(c) => {
            let scripts: Vec<CheckItem> = (0..3)
                .map(|i| CheckItem::Script { upgrade: NetworkUpgrade::Sapling, input_index: i })
                .collect();
            assert_eq!(c.items, scripts);
        }
        other => panic!("unexpected {:?}", other),
    }
    assert_eq!(v.spent.iter().map(|k| k.outpoint).collect::<Vec<_>>(), vec![op(1), op(2), op(3)]);
    assert_eq!(v.on_checks(true), Action::Settle);
    let mut limiter = FeeRateLimiter::new(0);
    let r = v.settle(&mut limiter, BLOCK_TIME, FeeRate::new(1_000), 3).unwrap();
    assert_eq!(r.miner_fee(), Some(40_000));
}

#[test]
fn mempool_missing_input_is_refused() {
    let t = tx(TxVersion::V4, vec![spend(1)], vec![90_000]);
    let mut limiter = FeeRateLimiter::new(0);
    let r = run(mempool_request(t, false, false), &[], &mut limiter, FeeRate::new(1_000), 0);
    assert_eq!(r.unwrap_err(), TransactionError::TransparentInputNotFound);
}

#[test]
fn mempool_asks_tip_median_time_and_previous_height() {
    let t = tx(TxVersion::V4, vec![spend(1)], vec![90_000]);
    let (mut v, a) = Verification::start(Network::Mainnet, mempool_request(t, false, false));
    assert!(matches!(a, Action::MedianTimePast(None)));
    let a = v.on_median_time_past(Some(BLOCK_TIME));
    assert!(matches!(a, Action::BlockTime(BlockQuery::Height(x)) if x == SAPLING - 1));
    let a = v.on_block_time(None);
    assert!(matches!(a, Action::Fail(TransactionError::KomodoTipTimeError)));
}

#[test]
fn missing_median_time_past_is_refused() {
    let t = tx(TxVersion::V4, vec![spend(1)], vec![90_000]);
    let (mut v, _) = Verification::start(Network::Mainnet, mempool_request(t, false, false));
    assert!(matches!(
        v.on_median_time_past(None),
        Action::Fail(TransactionError::KomodoMedianTimePastError)
    ));
}

#[test]
fn absurd_fee_in_mempool() {
    // outputs 1_000_000, fee 3_000_000: above 10_000 times the 250 floor
    // and above a nineteenth of the outputs
    let t = tx(TxVersion::V4, vec![spend(1)], vec![400_000, 600_000]);
    let chain = [(op(1), utxo(4_000_000))];
    let mut limiter = FeeRateLimiter::new(0);
    let r = run(mempool_request(t, false, true), &chain, &mut limiter, FeeRate::new(1_000), 0);
    assert_eq!(r.unwrap_err(), TransactionError::KomodoAbsurdFee(h(777), 3_000_000));
}

#[test]
fn absurd_fee_threshold_not_reached() {
    // fee 300_000 does not exceed 10_000 times the 250 floor
    let t = tx(TxVersion::V4, vec![spend(1)], vec![400_000, 600_000]);
    let chain = [(op(1), utxo(1_300_000))];
    let mut limiter = FeeRateLimiter::new(0);
    let r = run(mempool_request(t, false, true), &chain, &mut limiter, FeeRate::new(1_000), 0).unwrap();
    assert!(r.is_mempool());
    assert_eq!(r.miner_fee(), Some(300_000));
}

#[test]
fn low_fee_over_limiter() {
    let chain = [(op(1), utxo(90_001))];
    let mut limiter = FeeRateLimiter::with_rate(2_000, 0, 0);
    for _ in 0..2 {
        let t = tx(TxVersion::V4, vec![spend(1)], vec![90_000]);
        let r = run(mempool_request(t, true, false), &chain, &mut limiter, FeeRate::new(1_000), 0);
        assert_eq!(r.unwrap().miner_fee(), Some(1));
    }
    let t = tx(TxVersion::V4, vec![spend(1)], vec![90_000]);
    let r = run(mempool_request(t, true, false), &chain, &mut limiter, FeeRate::new(1_000), 0);
    assert_eq!(
        r.unwrap_err(),
        TransactionError::KomodoLowFeeLimit(h(777), String::from("low txfee limit reached"))
    );
}

#[test]
fn fee_at_floor_skips_limiter() {
    let chain = [(op(1), utxo(90_250))];
    let mut limiter = FeeRateLimiter::with_rate(0, 0, 0);
    let t = tx(TxVersion::V4, vec![spend(1)], vec![90_000]);
    let r = run(mempool_request(t, true, false), &chain, &mut limiter, FeeRate::new(1_000), 0);
    assert_eq!(r.unwrap().miner_fee(), Some(250));
}

#[test]
fn outputs_above_inputs_is_incorrect_fee() {
    let t = tx(TxVersion::V4, vec![spend(1)], vec![90_000]);
    let known = vec![KnownUtxo { outpoint: op(1), utxo: utxo(80_000) }];
    let mut limiter = FeeRateLimiter::new(0);
    let r = run(block_request(t, known), &[], &mut limiter, FeeRate::new(1_000), 0);
    assert_eq!(r.unwrap_err(), TransactionError::IncorrectFee);
}

#[test]
fn old_versions_are_wrong_version() {
    for version in [TxVersion::V1, TxVersion::V2, TxVersion::V3] {
        let t = tx(version, vec![spend(1)], vec![90_000]);
        let known = vec![KnownUtxo { outpoint: op(1), utxo: utxo(100_000) }];
        let mut limiter = FeeRateLimiter::new(0);
        let r = run(block_request(t, known), &[], &mut limiter, FeeRate::new(1_000), 0);
        assert_eq!(r.unwrap_err(), TransactionError::WrongVersion);
    }
}

#[test]
fn v4_before_sapling_and_v5_before_nu5_are_refused() {
    let t = tx(TxVersion::V4, vec![spend(1)], vec![1]);
    assert_eq!(
        checks_for_version(&t, NetworkUpgrade::BeforeOverwinter).unwrap_err(),
        TransactionError::UnsupportedByNetworkUpgrade(TxVersion::V4, NetworkUpgrade::BeforeOverwinter)
    );
    let t = tx(TxVersion::V5, vec![spend(1)], vec![1]);
    assert_eq!(
        checks_for_version(&t, NetworkUpgrade::Sapling).unwrap_err(),
        TransactionError::UnsupportedByNetworkUpgrade(TxVersion::V5, NetworkUpgrade::Sapling)
    );
    assert!(checks_for_version(&t, NetworkUpgrade::Nu5).is_ok());
}

#[test]
fn v4_shielded_checks() {
    let mut t = tx(TxVersion::V4, vec![spend(1)], vec![1]);
    t.joinsplits.push(JoinSplit { vpub_old: 0, vpub_new: 0, nullifier0: h(1), nullifier1: h(2) });
    t.sapling_spends.push(SaplingSpend { nullifier: h(3) });
    t.sapling_outputs.push(SaplingOutput { note_commitment: h(4) });
    let c = checks_for_version(&t, NetworkUpgrade::Sapling).unwrap();
    assert_eq!(
        c.items,
        vec![
            CheckItem::Script { upgrade: NetworkUpgrade::Sapling, input_index: 0 },
            CheckItem::JoinSplitProof { index: 0 },
            CheckItem::JoinSplitSignature,
            CheckItem::SaplingSpendProof { index: 0 },
            CheckItem::SaplingSpendAuth { index: 0 },
            CheckItem::SaplingOutputProof { index: 0 },
            CheckItem::SaplingBindingSignature,
        ]
    );
}

#[test]
fn async_checks_and_concatenates() {
    let mut a = AsyncChecks::new();
    a.push(CheckItem::OrchardProof);
    let mut b = AsyncChecks::new();
    b.push(CheckItem::JoinSplitSignature);
    b.push(CheckItem::SaplingBindingSignature);
    let c = a.and(b);
    assert_eq!(
        c.items,
        vec![CheckItem::OrchardProof, CheckItem::JoinSplitSignature, CheckItem::SaplingBindingSignature]
    );
    let ok = |i: &CheckItem| *i != CheckItem::JoinSplitSignature;
    assert!(!c.items.iter().all(ok));
}

#[test]
fn failed_checks_refuse() {
    let t = tx(TxVersion::V4, vec![spend(1)], vec![90_000]);
    let known = vec![KnownUtxo { outpoint: op(1), utxo: utxo(100_000) }];
    let (mut v, _) = Verification::start(Network::Mainnet, block_request(t, known));
    let a = v.on_block_time(Some(BLOCK_TIME));
    assert!(matches!(a, Action::RunChecks(_)));
    assert_eq!(v.on_checks(false), Action::Fail(TransactionError::CheckFailed));
}

#[test]
fn verifier_defaults() {
    let v = Verifier::new(Network::Testnet);
    assert_eq!(v.network, Network::Testnet);
    assert_eq!(v.min_relay_txfee, FeeRate::new(100));
}

#[test]
fn orchard_bundle_checks() {
    let mut t = tx(TxVersion::V5, vec![spend(1)], vec![1]);
    t.orchard = Some(OrchardData {
        actions: vec![OrchardAction { nullifier: h(1) }, OrchardAction { nullifier: h(2) }],
        enable_spends: true,
        enable_outputs: true,
        value_balance: 0,
    });
    let c = checks_for_version(&t, NetworkUpgrade::Nu5).unwrap();
    assert_eq!(
        c.items,
        vec![
            CheckItem::Script { upgrade: NetworkUpgrade::Nu5, input_index: 0 },
            CheckItem::OrchardProof,
            CheckItem::OrchardSpendAuth { index: 0 },
            CheckItem::OrchardSpendAuth { index: 1 },
            CheckItem::OrchardBindingSignature,
        ]
    );
    t.orchard.as_mut().unwrap().actions.clear();
    let c = checks_for_version(&t, NetworkUpgrade::Nu5).unwrap();
    assert_eq!(
        c.items,
        vec![
            CheckItem::Script { upgrade: NetworkUpgrade::Nu5, input_index: 0 },
            CheckItem::OrchardProof,
            CheckItem::OrchardBindingSignature,
        ]
    );
}

#[test]
fn verification_phases_follow_actions() {
    let t = tx(TxVersion::V4, vec![spend(1)], vec![90_000]);
    let (mut v, a) = Verification::start(Network::Mainnet, mempool_request(t, false, false));
    assert!(matches!(a, Action::MedianTimePast(None)));
    assert_eq!(v.phase, Phase::MedianTime);
    let a = v.on_median_time_past(Some(BLOCK_TIME));
    assert!(matches!(a, Action::BlockTime(_)));
    assert_eq!(v.phase, Phase::TipTime);
    let a = v.on_block_time(Some(BLOCK_TIME));
    assert!(matches!(a, Action::Utxo { .. }));
    assert_eq!(v.phase, Phase::Utxos);
    let a = v.on_utxo(Some(utxo(100_000)));
    assert!(matches!(a, Action::RunChecks(_)));
    assert_eq!(v.phase, Phase::Checks);
}

#[test]
fn version_errors_carry_the_transaction_version() {
    let t = tx(TxVersion::V5, vec![spend(1)], vec![1]);
    assert_eq!(
        verify_v4_transaction_network_upgrade(&t, NetworkUpgrade::Overwinter),
        Err(TransactionError::UnsupportedByNetworkUpgrade(TxVersion::V5, NetworkUpgrade::Overwinter))
    );
    let t = tx(TxVersion::V4, vec![spend(1)], vec![1]);
    assert_eq!(
        verify_v5_transaction_network_upgrade(&t, NetworkUpgrade::Sapling),
        Err(TransactionError::UnsupportedByNetworkUpgrade(TxVersion::V4, NetworkUpgrade::Sapling))
    );
    assert_eq!(verify_v4_transaction_network_upgrade(&t, NetworkUpgrade::Sapling), Ok(()));
}

#[test]
fn first_known_output_wins() {
    let t = tx(TxVersion::V4, vec![spend(1)], vec![90_000]);
    let known = vec![
        KnownUtxo { outpoint: op(1), utxo: utxo(100_000) },
        KnownUtxo { outpoint: op(1), utxo: utxo(500_000) },
    ];
    let mut limiter = FeeRateLimiter::new(0);
    let r = run(block_request(t, known), &[], &mut limiter, FeeRate::new(1_000), 1).unwrap();
    assert_eq!(r.miner_fee(), Some(10_000));
}
