use zebra_komodo::check::{
    check_for_duplicates, coinbase_expiry_height, coinbase_outputs_are_decryptable,
    coinbase_tx_no_prevout_joinsplit_spend, disabled_add_to_sprout_pool, has_enough_orchard_flags,
    has_inputs_and_outputs, is_final_tx_komodo, joinsplit_has_vpub_zero, lock_time_has_passed,
    non_coinbase_expiry_height, spend_conflicts, DECEMBER_HARDFORK_HEIGHT,
};
use zebra_komodo::error::TransactionError;
use zebra_komodo::fee::{
    komodo_miner_fee_valid_for_mempool, transaction_output_value, FeeRate, FeeRateLimiter,
};
use zebra_komodo::interest::{komodo_interest, komodo_validate_interest_locktime};
use zebra_komodo::parameters::{Network, MAX_EXPIRY_HEIGHT};
use zebra_komodo::transaction::{
    Hash256, Input, JoinSplit, OrchardAction, OrchardData, OutPoint, Output, SaplingOutput,
    SaplingSpend, Transaction, TxVersion,
};

fn h(n: u64) -> Hash256 {
    Hash256 { w0: n, w1: 0, w2: 0, w3: 0 }
}

fn prevout(n: u64, index: u32, sequence: u32) -> Input {
    Input::PrevOut { outpoint: OutPoint { hash: h(n), index }, sequence }
}

fn tx_v4(inputs: Vec<Input>, outputs: Vec<Output>) -> Transaction {
    Transaction {
        version: TxVersion::V4,
        hash: h(9999),
        inputs,
        outputs,
        lock_time: 0,
        expiry_height: 0,
        joinsplits: Vec::new(),
        sapling_spends: Vec::new(),
        sapling_outputs: Vec::new(),
        sapling_value_balance: 0,
        orchard: None,
        size: 250,
    }
}

fn simple() -> Transaction {
    tx_v4(vec![prevout(1, 0, u32::MAX)], vec![Output { value: 90_000 }])
}

fn coinbase() -> Transaction {
    tx_v4(vec![Input::Coinbase { sequence: u32::MAX }], vec![Output { value: 1_000 }])
}

fn js(vpub_old: u64, vpub_new: u64, a: u64, b: u64) -> JoinSplit {
    JoinSplit { vpub_old, vpub_new, nullifier0: h(a), nullifier1: h(b) }
}

#[test]
fn inputs_and_outputs_required() {
    let mut tx = simple();
    assert_eq!(has_inputs_and_outputs(&tx), Ok(()));
    tx.outputs.clear();
    assert_eq!(has_inputs_and_outputs(&tx), Err(TransactionError::NoOutputs));
    tx.inputs.clear();
    assert_eq!(has_inputs_and_outputs(&tx), Err(TransactionError::NoInputs));
    tx.joinsplits.push(js(0, 0, 1, 2));
    assert_eq!(has_inputs_and_outputs(&tx), Ok(()));
}

#[test]
fn orchard_flags_needed_with_actions() {
    let mut tx = simple();
    tx.version = TxVersion::V5;
    tx.orchard = Some(OrchardData {
        actions: vec![OrchardAction { nullifier: h(5) }],
        enable_spends: false,
        enable_outputs: false,
        value_balance: 0,
    });
    assert_eq!(has_enough_orchard_flags(&tx), Err(TransactionError::NotEnoughFlags));
    tx.orchard.as_mut().unwrap().enable_outputs = true;
    assert_eq!(has_enough_orchard_flags(&tx), Ok(()));
}

#[test]
fn coinbase_spend_rules() {
    let mut tx = coinbase();
    assert_eq!(coinbase_tx_no_prevout_joinsplit_spend(&tx), Ok(()));
    tx.sapling_spends.push(SaplingSpend { nullifier: h(3) });
    assert_eq!(coinbase_tx_no_prevout_joinsplit_spend(&tx), Err(TransactionError::CoinbaseHasSpend));
    tx.joinsplits.push(js(0, 0, 1, 2));
    assert_eq!(coinbase_tx_no_prevout_joinsplit_spend(&tx), Err(TransactionError::CoinbaseHasJoinSplit));
    let mut tx = coinbase();
    tx.orchard = Some(OrchardData {
        actions: vec![OrchardAction { nullifier: h(5) }],
        enable_spends: true,
        enable_outputs: true,
        value_balance: 0,
    });
    assert_eq!(
        coinbase_tx_no_prevout_joinsplit_spend(&tx),
        Err(TransactionError::CoinbaseHasEnableSpendsOrchard)
    );
    // not a coinbase: nothing to check
    let mut tx = simple();
    tx.joinsplits.push(js(0, 0, 1, 2));
    assert_eq!(coinbase_tx_no_prevout_joinsplit_spend(&tx), Ok(()));
}

#[test]
fn joinsplit_vpub_rules() {
    let mut tx = simple();
    tx.joinsplits.push(js(5, 0, 1, 2));
    tx.joinsplits.push(js(0, 7, 3, 4));
    assert_eq!(joinsplit_has_vpub_zero(&tx), Ok(()));
    tx.joinsplits.push(js(1, 1, 5, 6));
    assert_eq!(joinsplit_has_vpub_zero(&tx), Err(TransactionError::BothVPubsNonZero));
    // Canopy never activates under these parameters: deposits stay allowed.
    assert_eq!(disabled_add_to_sprout_pool(&tx, 3_000_000, Network::Mainnet), Ok(()));
}

#[test]
fn spend_conflicts_per_pool() {
    let tx = tx_v4(vec![prevout(1, 0, 0), prevout(1, 1, 0)], vec![Output { value: 1 }]);
    assert_eq!(spend_conflicts(&tx), Ok(()));

    let tx = tx_v4(vec![prevout(1, 0, 0), prevout(2, 0, 0), prevout(1, 0, 0)], vec![]);
    assert_eq!(
        spend_conflicts(&tx),
        Err(TransactionError::DuplicateTransparentSpend(OutPoint { hash: h(1), index: 0 }))
    );

    let mut tx = simple();
    tx.joinsplits.push(js(0, 0, 10, 11));
    tx.joinsplits.push(js(0, 0, 12, 10));
    assert_eq!(spend_conflicts(&tx), Err(TransactionError::DuplicateSproutNullifier(h(10))));

    let mut tx = simple();
    tx.sapling_spends.push(SaplingSpend { nullifier: h(20) });
    tx.sapling_spends.push(SaplingSpend { nullifier: h(20) });
    assert_eq!(spend_conflicts(&tx), Err(TransactionError::DuplicateSaplingNullifier(h(20))));

    let mut tx = simple();
    tx.orchard = Some(OrchardData {
        actions: vec![OrchardAction { nullifier: h(30) }, OrchardAction { nullifier: h(30) }],
        enable_spends: true,
        enable_outputs: true,
        value_balance: 0,
    });
    assert_eq!(spend_conflicts(&tx), Err(TransactionError::DuplicateOrchardNullifier(h(30))));

    // the same bits in different pools do not conflict
    let mut tx = simple();
    tx.joinsplits.push(js(0, 0, 40, 41));
    tx.sapling_spends.push(SaplingSpend { nullifier: h(40) });
    tx.orchard = Some(OrchardData {
        actions: vec![OrchardAction { nullifier: h(40) }],
        enable_spends: true,
        enable_outputs: true,
        value_balance: 0,
    });
    assert_eq!(spend_conflicts(&tx), Ok(()));
}

#[test]
fn duplicates_found() {
    assert_eq!(check_for_duplicates(&vec![h(1), h(2), h(3)]), None);
    assert_eq!(check_for_duplicates(&vec![h(1), h(2), h(2)]), Some(h(2)));
    assert_eq!(check_for_duplicates(&vec![]), None);
}

#[test]
fn expiry_height_boundaries() {
    let mut tx = simple();
    tx.expiry_height = MAX_EXPIRY_HEIGHT;
    assert_eq!(non_coinbase_expiry_height(100, &tx), Ok(()));
    tx.expiry_height = MAX_EXPIRY_HEIGHT + 1;
    assert_eq!(
        non_coinbase_expiry_height(100, &tx),
        Err(TransactionError::MaximumExpiryHeight {
            expiry_height: MAX_EXPIRY_HEIGHT + 1,
            is_coinbase: false,
            block_height: 100,
            transaction_hash: tx.hash,
        })
    );
    tx.expiry_height = 99;
    assert_eq!(
        non_coinbase_expiry_height(100, &tx),
        Err(TransactionError::ExpiredTransaction {
            expiry_height: 99,
            block_height: 100,
            transaction_hash: tx.hash,
        })
    );
    tx.expiry_height = 100;
    assert_eq!(non_coinbase_expiry_height(100, &tx), Ok(()));
    tx.expiry_height = 0;
    assert_eq!(non_coinbase_expiry_height(100, &tx), Ok(()));

    let mut cb = coinbase();
    cb.expiry_height = MAX_EXPIRY_HEIGHT + 1;
    assert!(matches!(
        coinbase_expiry_height(100, &cb, Network::Mainnet),
        Err(TransactionError::MaximumExpiryHeight { is_coinbase: true, .. })
    ));
    cb.expiry_height = 5;
    assert_eq!(coinbase_expiry_height(100, &cb, Network::Mainnet), Ok(()));
}

#[test]
fn decryptable_coinbase_outputs() {
    // Heartwood never activates under these parameters.
    assert_eq!(coinbase_outputs_are_decryptable(&coinbase(), Network::Mainnet, 5_000_000, false), Ok(()));
}

#[test]
fn zcash_lock_time_rule() {
    let mut tx = tx_v4(vec![prevout(1, 0, 0)], vec![Output { value: 1 }]);
    tx.lock_time = 100;
    assert_eq!(lock_time_has_passed(Network::Mainnet, &tx, 101, 0), Ok(()));
    assert_eq!(
        lock_time_has_passed(Network::Mainnet, &tx, 100, 0),
        Err(TransactionError::LockedUntilAfterBlockHeight(100))
    );
    tx.lock_time = 600_000_000;
    assert_eq!(
        lock_time_has_passed(Network::Mainnet, &tx, 100, 600_000_000),
        Err(TransactionError::LockedUntilAfterBlockTime(600_000_000))
    );
    assert_eq!(lock_time_has_passed(Network::Mainnet, &tx, 100, 600_000_001), Ok(()));
    // all sequences final: lock time ignored
    tx.inputs = vec![prevout(1, 0, u32::MAX)];
    assert_eq!(lock_time_has_passed(Network::Mainnet, &tx, 100, 0), Ok(()));
}

#[test]
fn komodo_finality() {
    let mut tx = tx_v4(vec![prevout(1, 0, 0)], vec![Output { value: 1 }]);
    tx.lock_time = 0;
    assert_eq!(is_final_tx_komodo(Network::Mainnet, &tx, 10, 0), Ok(()));
    tx.lock_time = 9;
    assert_eq!(is_final_tx_komodo(Network::Mainnet, &tx, 10, 0), Ok(()));
    tx.lock_time = 10;
    assert_eq!(
        is_final_tx_komodo(Network::Mainnet, &tx, 10, 0),
        Err(TransactionError::LockedUntilAfterBlockHeight(10))
    );
    tx.inputs = vec![prevout(1, 0, u32::MAX)];
    assert_eq!(is_final_tx_komodo(Network::Mainnet, &tx, 10, 0), Ok(()));

    // the exceptional sequence before the December hardfork: final only
    // when the lock is after the block
    tx.inputs = vec![prevout(1, 0, u32::MAX - 1)];
    tx.lock_time = 11;
    assert_eq!(is_final_tx_komodo(Network::Mainnet, &tx, 10, 0), Ok(()));
    tx.lock_time = 10;
    assert_eq!(
        is_final_tx_komodo(Network::Mainnet, &tx, 10, 0),
        Err(TransactionError::LockedUntilAfterBlockHeight(10))
    );
    // after it (tip above the hardfork height): final only when not after
    let height = DECEMBER_HARDFORK_HEIGHT + 2;
    tx.lock_time = height;
    assert_eq!(is_final_tx_komodo(Network::Mainnet, &tx, height, 0), Ok(()));
    tx.lock_time = height + 1;
    assert_eq!(
        is_final_tx_komodo(Network::Mainnet, &tx, height, 0),
        Err(TransactionError::LockedUntilAfterBlockHeight(height + 1))
    );
    // time locks compare with the block time
    tx.inputs = vec![prevout(1, 0, 0)];
    tx.lock_time = 600_000_000;
    assert_eq!(is_final_tx_komodo(Network::Mainnet, &tx, 10, 600_000_001), Ok(()));
    assert_eq!(
        is_final_tx_komodo(Network::Mainnet, &tx, 10, 600_000_000),
        Err(TransactionError::LockedUntilAfterBlockTime(600_000_000))
    );
}

#[test]
fn interest_lock_time_rule() {
    let mut tx = simple();
    tx.lock_time = 1_000_000_000;
    // cmp time far ahead: too early above the activation height
    let cmp = 1_000_000_000i128 + 3_601;
    assert_eq!(
        komodo_validate_interest_locktime(Network::Mainnet, &tx, 300_000, cmp),
        Err(TransactionError::KomodoTxLockTimeTooEarly(1_000_000_000, 300_000))
    );
    assert_eq!(
        komodo_validate_interest_locktime(Network::Mainnet, &tx, 300_000, cmp - 1),
        Ok(())
    );
    // inactive below the activation height
    assert_eq!(komodo_validate_interest_locktime(Network::Mainnet, &tx, 1_000, cmp), Ok(()));
    // the early window subtracts 16000 seconds
    assert_eq!(
        komodo_validate_interest_locktime(Network::Mainnet, &tx, 247_000, cmp + 16_000 - 1),
        Ok(())
    );
    // height locks are not concerned
    tx.lock_time = 5;
    assert_eq!(komodo_validate_interest_locktime(Network::Mainnet, &tx, 300_000, cmp), Ok(()));
}

#[test]
fn interest_formula() {
    // 100 coins, locked an hour and a half before the tip
    let value = 100 * 100_000_000u64;
    let lock = 1_600_000_000u32;
    let tip = lock as i64 + 90 * 60;
    assert_eq!(komodo_interest(2_000_000, value, lock, tip), (value / 10_512_000) * 31);
    // below ten coins: nothing
    assert_eq!(komodo_interest(2_000_000, 9 * 100_000_000, lock, tip), 0);
    // less than an hour: nothing
    assert_eq!(komodo_interest(2_000_000, value, lock, lock as i64 + 59 * 60), 0);
    // capped at a month from height one million on
    let year_later = lock as i64 + 400 * 24 * 3600;
    assert_eq!(komodo_interest(2_000_000, value, lock, year_later), (value / 10_512_000) * (44_640 - 59));
    assert_eq!(komodo_interest(900_000, value, lock, year_later), (value / 10_512_000) * (525_600 - 59));
}

#[test]
fn low_fee_at_floor_is_not_low() {
    let tx = simple();
    let rate = FeeRate::new(1_000);
    let floor = rate.get_fee(tx.size) as i64;
    assert_eq!(floor, 250);
    let mut limiter = FeeRateLimiter::with_rate(0, 0, 0);
    assert_eq!(
        komodo_miner_fee_valid_for_mempool(&mut limiter, 0, rate, &tx, floor, true, false),
        Ok(())
    );
    assert!(matches!(
        komodo_miner_fee_valid_for_mempool(&mut limiter, 0, rate, &tx, floor - 1, true, false),
        Err(TransactionError::KomodoLowFeeLimit(_, ref s)) if s == "low txfee limit reached"
    ));
}

#[test]
fn fee_rate_rounding() {
    assert_eq!(FeeRate::new(1_000).get_fee(250), 250);
    assert_eq!(FeeRate::new(100).get_fee(5), 100);
    assert_eq!(FeeRate::new(0).get_fee(5), 0);
}

#[test]
fn absurd_fee_needs_both_bounds() {
    let mut tx = simple();
    tx.outputs = vec![Output { value: 400_000 }, Output { value: 600_000 }];
    assert_eq!(transaction_output_value(&tx), 1_000_000);
    let rate = FeeRate::new(1_000);
    let mut limiter = FeeRateLimiter::new(0);
    // 300_000 is above a nineteenth of the outputs, but not above
    // 10_000 times the 250 floor
    assert_eq!(
        komodo_miner_fee_valid_for_mempool(&mut limiter, 0, rate, &tx, 300_000, false, true),
        Ok(())
    );
    assert_eq!(
        komodo_miner_fee_valid_for_mempool(&mut limiter, 0, rate, &tx, 2_500_001, false, true),
        Err(TransactionError::KomodoAbsurdFee(tx.hash, 2_500_001))
    );
    assert_eq!(
        komodo_miner_fee_valid_for_mempool(&mut limiter, 0, rate, &tx, 2_500_001, false, false),
        Ok(())
    );
}

#[test]
fn limiter_refills_and_caps() {
    let mut l = FeeRateLimiter::with_rate(2_000, 100, 0);
    assert!(l.check_rate_limit(0));
    assert!(l.check_rate_limit(0));
    assert!(!l.check_rate_limit(0));
    assert!(!l.check_rate_limit(9));
    assert!(l.check_rate_limit(10));
    assert_eq!(l.tokens, 0);
    assert!(l.check_rate_limit(1_000_000));
    assert_eq!(l.tokens, 1_000);
    assert_eq!(l.last_refill, 1_000_000);
}

#[test]
fn sapling_outputs_count_as_outputs() {
    let mut tx = simple();
    tx.outputs.clear();
    tx.sapling_outputs.push(SaplingOutput { note_commitment: h(1) });
    assert_eq!(has_inputs_and_outputs(&tx), Ok(()));
}

#[test]
fn orchard_flags_needed_in_any_version() {
    let mut tx = simple();
    tx.orchard = Some(OrchardData {
        actions: vec![OrchardAction { nullifier: h(5) }],
        enable_spends: false,
        enable_outputs: false,
        value_balance: 0,
    });
    assert_eq!(has_enough_orchard_flags(&tx), Err(TransactionError::NotEnoughFlags));
}

#[test]
fn first_repeat_is_reported() {
    assert_eq!(check_for_duplicates(&vec![h(1), h(2), h(2), h(1)]), Some(h(2)));
    assert_eq!(check_for_duplicates(&vec![h(1), h(2), h(1), h(2)]), Some(h(1)));
    let tx = tx_v4(
        vec![prevout(1, 0, 0), prevout(2, 0, 0), prevout(2, 0, 0), prevout(1, 0, 0)],
        vec![],
    );
    assert_eq!(
        spend_conflicts(&tx),
        Err(TransactionError::DuplicateTransparentSpend(OutPoint { hash: h(2), index: 0 }))
    );
}

#[test]
fn well_formed_transactions() {
    let tx = simple();
    assert!(tx.is_well_formed());
    let mut v4_orchard = simple();
    v4_orchard.orchard = Some(OrchardData {
        actions: vec![OrchardAction { nullifier: h(5) }],
        enable_spends: true,
        enable_outputs: true,
        value_balance: 0,
    });
    assert!(!v4_orchard.is_well_formed());
    let mut v5_empty = simple();
    v5_empty.version = TxVersion::V5;
    v5_empty.orchard = Some(OrchardData {
        actions: vec![],
        enable_spends: true,
        enable_outputs: true,
        value_balance: 0,
    });
    assert!(!v5_empty.is_well_formed());
    let mut balance_alone = simple();
    balance_alone.sapling_value_balance = 5;
    assert!(!balance_alone.is_well_formed());
    let mut v5_sprout = simple();
    v5_sprout.version = TxVersion::V5;
    v5_sprout.joinsplits.push(js(0, 0, 1, 2));
    assert!(!v5_sprout.is_well_formed());
}

#[test]
fn admitted_low_fee_takes_a_token() {
    let tx = simple();
    let rate = FeeRate::new(1_000);
    let mut limiter = FeeRateLimiter::with_rate(3_000, 0, 0);
    assert_eq!(
        komodo_miner_fee_valid_for_mempool(&mut limiter, 0, rate, &tx, 1, true, false),
        Ok(())
    );
    assert_eq!(limiter.tokens, 2_000);
    assert_eq!(
        komodo_miner_fee_valid_for_mempool(&mut limiter, 0, rate, &tx, 250, true, false),
        Ok(())
    );
    assert_eq!(limiter.tokens, 2_000);
}
