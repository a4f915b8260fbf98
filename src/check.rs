//! Synchronous consensus checks on a single transaction.
use vstd::prelude::*;

use crate::error::TransactionError;
use crate::parameters::{activation, Network, NetworkUpgrade, MAX_EXPIRY_HEIGHT};
use crate::transaction::{
    expiry_spec, has_shielded_inputs_spec, has_shielded_outputs_spec, input_sequence,
    is_coinbase_spec, is_overwintered_spec, orchard_action_count, orchard_nullifiers_spec,
    orchard_outputs_enabled, orchard_spends_enabled, sapling_nullifiers_spec, spent_outpoints_spec,
    sprout_nullifiers_spec, Hash256, JoinSplit, OutPoint, Transaction, TxVersion, LOCKTIME_THRESHOLD,
    SEQUENCE_FINAL,
};

verus! {

/// Height after which the December hardfork rules on final inputs apply:
/// the KMD chain's `nDecemberHardforkHeight` of komodod. The Komodo rules in
/// this library go by the KMD chain's heights on either network, so the
/// `network` arguments of the hardfork functions do not change the result.
pub const DECEMBER_HARDFORK_HEIGHT: u32 = 1670000;

/// The rule on the exceptional sequence number `SEQUENCE_FINAL - 1` changes
/// with the December hardfork, which is active once the tip is above its height.
pub open spec fn december_hardfork_active_spec(tip: u32) -> bool {
    tip > DECEMBER_HARDFORK_HEIGHT
}

/// Whether the December hardfork is active at tip height `tip`.
pub fn komodo_s1_december_hardfork_active(network: Network, tip: u32) -> (r: bool)
    ensures
        r == december_hardfork_active_spec(tip),
{
    tip > DECEMBER_HARDFORK_HEIGHT
}

// ---------------------------------------------------------------------------
// Lock time

/// The raw lock time is a block height.
pub open spec fn is_height_lock(lock: u32) -> bool {
    lock < LOCKTIME_THRESHOLD
}

/// The lock time is strictly before the block: heights against heights,
/// times against times.
pub open spec fn lock_before_block(lock: u32, block_height: u32, block_time: i64) -> bool {
    if is_height_lock(lock) {
        lock < block_height
    } else {
        (lock as int) < block_time as int
    }
}

/// The lock time is strictly after the block, like with like.
pub open spec fn lock_after_block(lock: u32, block_height: u32, block_time: i64) -> bool {
    if is_height_lock(lock) {
        lock > block_height
    } else {
        (lock as int) > block_time as int
    }
}

/// An input whose sequence number leaves the transaction final, given whether
/// the December hardfork is active and whether the lock is after the block.
pub open spec fn input_is_final(sequence: u32, hf_active: bool, lock_after: bool) -> bool {
    sequence == SEQUENCE_FINAL || (sequence == SEQUENCE_FINAL - 1 && ((!hf_active && lock_after)
        || (hf_active && !lock_after)))
}

/// The December hardfork as seen when validating a block at `block_height`:
/// evaluated at the tip, one block below; never at the genesis block.
pub open spec fn hf_at_block(block_height: u32) -> bool {
    block_height > 0 && december_hardfork_active_spec((block_height - 1) as u32)
}

/// Komodo finality of a transaction in a block at `block_height` and `block_time`.
pub open spec fn is_final_komodo_spec(tx: Transaction, block_height: u32, block_time: i64) -> bool {
    ||| tx.lock_time == 0
    ||| lock_before_block(tx.lock_time, block_height, block_time)
    ||| forall|i: int|
        0 <= i < tx.inputs@.len() ==> input_is_final(
            input_sequence(#[trigger] tx.inputs@[i]),
            hf_at_block(block_height),
            lock_after_block(tx.lock_time, block_height, block_time),
        )
}

/// The error reported for a transaction locked past the block.
pub open spec fn locked_error(lock: u32) -> TransactionError {
    if is_height_lock(lock) {
        TransactionError::LockedUntilAfterBlockHeight(lock)
    } else {
        TransactionError::LockedUntilAfterBlockTime(lock)
    }
}

/// The lock time that applies under the Zcash rule: none when it is zero or
/// when every input's sequence number waives it.
pub open spec fn effective_lock_time(tx: Transaction) -> Option<u32> {
    if tx.lock_time == 0 || forall|i: int|
        0 <= i < tx.inputs@.len() ==> input_sequence(#[trigger] tx.inputs@[i]) == SEQUENCE_FINAL {
        None
    } else {
        Some(tx.lock_time)
    }
}

/// Whether all inputs carry the final sequence number.
fn all_sequences_final(tx: &Transaction) -> (r: bool)
    ensures
        r == forall|i: int|
            0 <= i < tx.inputs@.len() ==> input_sequence(#[trigger] tx.inputs@[i]) == SEQUENCE_FINAL,
{
    let mut i: usize = 0;
    while i < tx.inputs.len()
        invariant
            i <= tx.inputs@.len(),
            forall|k: int| 0 <= k < i ==> input_sequence(#[trigger] tx.inputs@[k]) == SEQUENCE_FINAL,
        decreases tx.inputs@.len() - i,
    {
        if tx.inputs[i].sequence() != SEQUENCE_FINAL {
            return false;
        }
        i = i + 1;
    }
    true
}

/// Zcash lock-time rule: the block must be strictly past the lock time,
/// unless the lock time does not apply.
pub fn lock_time_has_passed(
    network: Network,
    tx: &Transaction,
    block_height: u32,
    block_time: i64,
) -> (r: Result<(), TransactionError>)
    ensures
        r == (match effective_lock_time(*tx) {
            None => Ok(()),
            Some(lock) => if lock_before_block(lock, block_height, block_time) {
                Ok(())
            } else {
                Err(locked_error(lock))
            },
        }),
{
    if tx.lock_time == 0 || all_sequences_final(tx) {
        return Ok(());
    }
    let lock = tx.lock_time;
    if lock < LOCKTIME_THRESHOLD {
        if block_height > lock {
            Ok(())
        } else {
            Err(TransactionError::LockedUntilAfterBlockHeight(lock))
        }
    } else {
        if block_time > lock as i64 {
            Ok(())
        } else {
            Err(TransactionError::LockedUntilAfterBlockTime(lock))
        }
    }
}

/// Result of the Komodo finality rule.
pub open spec fn is_final_komodo_result(tx: Transaction, block_height: u32, block_time: i64) -> Result<(), TransactionError> {
    if is_final_komodo_spec(tx, block_height, block_time) {
        Ok(())
    } else {
        Err(locked_error(tx.lock_time))
    }
}

/// Komodo finality rule: final when the lock time is zero, or strictly before
/// the block, or when every input is final (sequence `SEQUENCE_FINAL`, or the
/// Komodo exception for `SEQUENCE_FINAL - 1`, which depends on the December
/// hardfork at the tip below the block).
pub fn is_final_tx_komodo(
    network: Network,
    tx: &Transaction,
    block_height: u32,
    block_time: i64,
) -> (r: Result<(), TransactionError>)
    ensures
        r == is_final_komodo_result(*tx, block_height, block_time),
{
    let lock = tx.lock_time;
    if lock == 0 {
        return Ok(());
    }
    let is_height = lock < LOCKTIME_THRESHOLD;
    if is_height {
        if lock < block_height {
            return Ok(());
        }
    } else {
        if (lock as i64) < block_time {
            return Ok(());
        }
    }
    let hf_active = if block_height > 0 {
        komodo_s1_december_hardfork_active(network, block_height - 1)
    } else {
        false
    };
    let lock_after = if is_height {
        lock > block_height
    } else {
        lock as i64 > block_time
    };
    let mut i: usize = 0;
    while i < tx.inputs.len()
        invariant
            i <= tx.inputs@.len(),
            lock == tx.lock_time,
            hf_active == hf_at_block(block_height),
            lock_after == lock_after_block(lock, block_height, block_time),
            is_height == is_height_lock(lock),
            !lock_before_block(lock, block_height, block_time),
            lock != 0,
            forall|k: int|
                0 <= k < i ==> input_is_final(
                    input_sequence(#[trigger] tx.inputs@[k]),
                    hf_active,
                    lock_after,
                ),
        decreases tx.inputs@.len() - i,
    {
        let s = tx.inputs[i].sequence();
        let exempt = s == SEQUENCE_FINAL - 1 && ((!hf_active && lock_after) || (hf_active
            && !lock_after));
        if s != SEQUENCE_FINAL && !exempt {
            assert(!input_is_final(input_sequence(tx.inputs@[i as int]), hf_active, lock_after));
            if is_height {
                return Err(TransactionError::LockedUntilAfterBlockHeight(lock));
            } else {
                return Err(TransactionError::LockedUntilAfterBlockTime(lock));
            }
        }
        i = i + 1;
    }
    Ok(())
}

// ---------------------------------------------------------------------------
// Inputs, outputs and shielded data

/// Result of the inputs-and-outputs rule.
pub open spec fn inputs_outputs_result(tx: Transaction) -> Result<(), TransactionError> {
    if !(tx.inputs@.len() > 0 || has_shielded_inputs_spec(tx)) {
        Err(TransactionError::NoInputs)
    } else if !(tx.outputs@.len() > 0 || has_shielded_outputs_spec(tx)) {
        Err(TransactionError::NoOutputs)
    } else {
        Ok(())
    }
}

/// Fails `NoInputs` without any transparent input or shielded spend, then
/// `NoOutputs` without any transparent output or shielded output.
pub fn has_inputs_and_outputs(tx: &Transaction) -> (r: Result<(), TransactionError>)
    ensures
        r == inputs_outputs_result(*tx),
{
    if !(tx.inputs.len() > 0 || tx.has_shielded_inputs()) {
        Err(TransactionError::NoInputs)
    } else if !(tx.outputs.len() > 0 || tx.has_shielded_outputs()) {
        Err(TransactionError::NoOutputs)
    } else {
        Ok(())
    }
}

/// A transaction with Orchard actions sets at least one Orchard flag.
pub open spec fn enough_orchard_flags_spec(tx: Transaction) -> bool {
    orchard_action_count(tx) == 0 || orchard_spends_enabled(tx) || orchard_outputs_enabled(tx)
}

/// Result of the Orchard flags rule.
pub open spec fn orchard_flags_result(tx: Transaction) -> Result<(), TransactionError> {
    if enough_orchard_flags_spec(tx) {
        Ok(())
    } else {
        Err(TransactionError::NotEnoughFlags)
    }
}

/// Fails `NotEnoughFlags` when Orchard actions come with neither flag set.
pub fn has_enough_orchard_flags(tx: &Transaction) -> (r: Result<(), TransactionError>)
    ensures
        r == orchard_flags_result(*tx),
{
    if tx.orchard_action_count() == 0 {
        return Ok(());
    }
    match &tx.orchard {
        Some(o) => if o.enable_spends || o.enable_outputs {
            Ok(())
        } else {
            Err(TransactionError::NotEnoughFlags)
        },
        None => Ok(()),
    }
}

/// Result of the coinbase spends rule.
pub open spec fn coinbase_spends_result(tx: Transaction) -> Result<(), TransactionError> {
    if !is_coinbase_spec(tx) {
        Ok(())
    } else if tx.joinsplits@.len() > 0 {
        Err(TransactionError::CoinbaseHasJoinSplit)
    } else if tx.sapling_spends@.len() > 0 {
        Err(TransactionError::CoinbaseHasSpend)
    } else if orchard_spends_enabled(tx) {
        Err(TransactionError::CoinbaseHasEnableSpendsOrchard)
    } else {
        Ok(())
    }
}

/// A coinbase transaction has no JoinSplits, no Sapling spends and no Orchard
/// spends flag; the first of these found is the error.
pub fn coinbase_tx_no_prevout_joinsplit_spend(tx: &Transaction) -> (r: Result<(), TransactionError>)
    ensures
        r == coinbase_spends_result(*tx),
{
    if tx.is_coinbase() {
        if tx.joinsplits.len() > 0 {
            return Err(TransactionError::CoinbaseHasJoinSplit);
        } else if tx.sapling_spends.len() > 0 {
            return Err(TransactionError::CoinbaseHasSpend);
        }
        match &tx.orchard {
            Some(o) => {
                if o.enable_spends {
                    return Err(TransactionError::CoinbaseHasEnableSpendsOrchard);
                }
            },
            None => {},
        }
    }
    Ok(())
}

/// Every JoinSplit has `vpub_old` or `vpub_new` equal to zero.
pub open spec fn vpubs_have_zero(js: Seq<JoinSplit>) -> bool {
    forall|i: int| 0 <= i < js.len() ==> (#[trigger] js[i]).vpub_old == 0 || js[i].vpub_new == 0
}

/// Result of the JoinSplit public values rule.
pub open spec fn vpub_zero_result(tx: Transaction) -> Result<(), TransactionError> {
    if vpubs_have_zero(tx.joinsplits@) {
        Ok(())
    } else {
        Err(TransactionError::BothVPubsNonZero)
    }
}

/// Fails `BothVPubsNonZero` when a JoinSplit has both public values nonzero.
pub fn joinsplit_has_vpub_zero(tx: &Transaction) -> (r: Result<(), TransactionError>)
    ensures
        r == vpub_zero_result(*tx),
{
    let mut i: usize = 0;
    while i < tx.joinsplits.len()
        invariant
            i <= tx.joinsplits@.len(),
            vpubs_have_zero(tx.joinsplits@.take(i as int)),
        decreases tx.joinsplits@.len() - i,
    {
        let js = tx.joinsplits[i];
        if js.vpub_old != 0 && js.vpub_new != 0 {
            assert(!vpubs_have_zero(tx.joinsplits@)) by {
                assert(tx.joinsplits@[i as int] == js);
            }
            return Err(TransactionError::BothVPubsNonZero);
        }
        i = i + 1;
        assert(forall|k: int| 0 <= k < i ==> tx.joinsplits@.take(i as int)[k] == tx.joinsplits@[k]);
    }
    assert(tx.joinsplits@.take(i as int) =~= tx.joinsplits@);
    Ok(())
}

/// Canopy is active on `n` at `height`.
pub open spec fn canopy_active(n: Network, height: u32) -> bool {
    activation(n, NetworkUpgrade::Canopy) is Some && height >= activation(
        n,
        NetworkUpgrade::Canopy,
    )->0
}

/// Every JoinSplit has `vpub_old` zero.
pub open spec fn no_sprout_deposits(js: Seq<JoinSplit>) -> bool {
    forall|i: int| 0 <= i < js.len() ==> (#[trigger] js[i]).vpub_old == 0
}

/// Result of the Sprout pool rule.
pub open spec fn sprout_pool_result(tx: Transaction, height: u32, network: Network) -> Result<(), TransactionError> {
    if canopy_active(network, height) && !no_sprout_deposits(tx.joinsplits@) {
        Err(TransactionError::DisabledAddToSproutPool)
    } else {
        Ok(())
    }
}

/// From Canopy on, fails `DisabledAddToSproutPool` when a JoinSplit moves
/// value into the Sprout pool.
pub fn disabled_add_to_sprout_pool(tx: &Transaction, height: u32, network: Network) -> (r: Result<
    (),
    TransactionError,
>)
    ensures
        r == sprout_pool_result(*tx, height, network),
{
    match NetworkUpgrade::Canopy.activation_height(network) {
        Some(canopy) => {
            if height >= canopy {
                let mut i: usize = 0;
                while i < tx.joinsplits.len()
                    invariant
                        i <= tx.joinsplits@.len(),
                        canopy_active(network, height),
                        forall|k: int| 0 <= k < i ==> (#[trigger] tx.joinsplits@[k]).vpub_old == 0,
                    decreases tx.joinsplits@.len() - i,
                {
                    if tx.joinsplits[i].vpub_old != 0 {
                        assert(tx.joinsplits@[i as int].vpub_old != 0);
                        return Err(TransactionError::DisabledAddToSproutPool);
                    }
                    i = i + 1;
                }
            }
            Ok(())
        },
        None => Ok(()),
    }
}

// ---------------------------------------------------------------------------
// Spend conflicts

/// No item of `s` occurs twice.
pub open spec fn all_distinct<T>(s: Seq<T>) -> bool {
    forall|i: int, j: int| 0 <= i < j < s.len() ==> s[i] != s[j]
}

/// `x` is the first item of `s`, in order, that equals an earlier one.
pub open spec fn is_first_repeat<T>(s: Seq<T>, x: T) -> bool {
    exists|j: int|
        0 <= j < s.len() && s[j] == x && (exists|i: int| 0 <= i < j && s[i] == x) && all_distinct(
            s.take(j),
        )
}

/// Returns the first item of `items` that equals an earlier one, if any.
pub fn check_for_duplicates(items: &Vec<Hash256>) -> (r: Option<Hash256>)
    ensures
        r is None <==> all_distinct(items@),
        r is Some ==> is_first_repeat(items@, r->0),
{
    let n = items.len();
    let mut j: usize = 0;
    while j < n
        invariant
            n == items@.len(),
            j <= n,
            forall|a: int, b: int| 0 <= a < b < j ==> items@[a] != items@[b],
        decreases n - j,
    {
        let mut i: usize = 0;
        while i < j
            invariant
                n == items@.len(),
                i <= j < n,
                forall|a: int, b: int| 0 <= a < b < j ==> items@[a] != items@[b],
                forall|a: int| 0 <= a < i ==> items@[a] != items@[j as int],
            decreases j - i,
        {
            if items[i] == items[j] {
                assert(all_distinct(items@.take(j as int)));
                return Some(items[j]);
            }
            i = i + 1;
        }
        j = j + 1;
    }
    None
}

/// Returns the first outpoint of `items` that equals an earlier one, if any.
pub fn check_for_duplicate_outpoints(items: &Vec<OutPoint>) -> (r: Option<OutPoint>)
    ensures
        r is None <==> all_distinct(items@),
        r is Some ==> is_first_repeat(items@, r->0),
{
    let n = items.len();
    let mut j: usize = 0;
    while j < n
        invariant
            n == items@.len(),
            j <= n,
            forall|a: int, b: int| 0 <= a < b < j ==> items@[a] != items@[b],
        decreases n - j,
    {
        let mut i: usize = 0;
        while i < j
            invariant
                n == items@.len(),
                i <= j < n,
                forall|a: int, b: int| 0 <= a < b < j ==> items@[a] != items@[b],
                forall|a: int| 0 <= a < i ==> items@[a] != items@[j as int],
            decreases j - i,
        {
            if items[i] == items[j] {
                assert(all_distinct(items@.take(j as int)));
                return Some(items[j]);
            }
            i = i + 1;
        }
        j = j + 1;
    }
    None
}

/// No transparent outpoint and no nullifier of any one pool repeats.
pub open spec fn no_spend_conflicts(tx: Transaction) -> bool {
    &&& all_distinct(spent_outpoints_spec(tx.inputs@))
    &&& all_distinct(sprout_nullifiers_spec(tx.joinsplits@))
    &&& all_distinct(sapling_nullifiers_spec(tx.sapling_spends@))
    &&& all_distinct(orchard_nullifiers_spec(tx))
}

/// The error `spend_conflicts` reports for a transaction with a conflict:
/// the first pool (transparent, Sprout, Sapling, Orchard) with a repeat, and
/// the first item of it that equals an earlier one.
pub open spec fn is_conflict_error(tx: Transaction, e: TransactionError) -> bool {
    if !all_distinct(spent_outpoints_spec(tx.inputs@)) {
        e is DuplicateTransparentSpend && is_first_repeat(
            spent_outpoints_spec(tx.inputs@),
            e->DuplicateTransparentSpend_0,
        )
    } else if !all_distinct(sprout_nullifiers_spec(tx.joinsplits@)) {
        e is DuplicateSproutNullifier && is_first_repeat(
            sprout_nullifiers_spec(tx.joinsplits@),
            e->DuplicateSproutNullifier_0,
        )
    } else if !all_distinct(sapling_nullifiers_spec(tx.sapling_spends@)) {
        e is DuplicateSaplingNullifier && is_first_repeat(
            sapling_nullifiers_spec(tx.sapling_spends@),
            e->DuplicateSaplingNullifier_0,
        )
    } else {
        e is DuplicateOrchardNullifier && is_first_repeat(
            orchard_nullifiers_spec(tx),
            e->DuplicateOrchardNullifier_0,
        )
    }
}

/// Succeeds iff the transaction spends no outpoint twice and reveals no
/// nullifier twice within one pool (pools are disjoint).
pub fn spend_conflicts(tx: &Transaction) -> (r: Result<(), TransactionError>)
    ensures
        r is Ok <==> no_spend_conflicts(*tx),
        r is Err ==> is_conflict_error(*tx, r->Err_0),
{
    match check_for_duplicate_outpoints(&tx.spent_outpoints()) {
        Some(d) => {
            return Err(TransactionError::DuplicateTransparentSpend(d));
        },
        None => {},
    }
    match check_for_duplicates(&tx.sprout_nullifiers()) {
        Some(d) => {
            return Err(TransactionError::DuplicateSproutNullifier(d));
        },
        None => {},
    }
    match check_for_duplicates(&tx.sapling_nullifiers()) {
        Some(d) => {
            return Err(TransactionError::DuplicateSaplingNullifier(d));
        },
        None => {},
    }
    match check_for_duplicates(&tx.orchard_nullifiers()) {
        Some(d) => {
            return Err(TransactionError::DuplicateOrchardNullifier(d));
        },
        None => {},
    }
    Ok(())
}

// ---------------------------------------------------------------------------
// Coinbase outputs and expiry heights

/// Heartwood is active on `n` at `height`.
pub open spec fn heartwood_active(n: Network, height: u32) -> bool {
    activation(n, NetworkUpgrade::Heartwood) is Some && height >= activation(
        n,
        NetworkUpgrade::Heartwood,
    )->0
}

/// From Heartwood on, fails `CoinbaseOutputsNotDecryptable` unless every
/// shielded output of the coinbase decrypts with the all-zero outgoing
/// viewing key; `decrypts` is the outcome of that trial decryption.
pub fn coinbase_outputs_are_decryptable(
    tx: &Transaction,
    network: Network,
    height: u32,
    decrypts: bool,
) -> (r: Result<(), TransactionError>)
    ensures
        r == if heartwood_active(network, height) && !decrypts {
            Err(TransactionError::CoinbaseOutputsNotDecryptable)
        } else {
            Ok(())
        },
{
    match NetworkUpgrade::Heartwood.activation_height(network) {
        Some(h) => {
            if height < h {
                return Ok(());
            }
        },
        None => {
            return Ok(());
        },
    }
    if !decrypts {
        return Err(TransactionError::CoinbaseOutputsNotDecryptable);
    }
    Ok(())
}

/// Fails `MaximumExpiryHeight` when the expiry height is above `MAX_EXPIRY_HEIGHT`.
pub fn validate_expiry_height_max(
    expiry_height: Option<u32>,
    is_coinbase: bool,
    block_height: u32,
    tx: &Transaction,
) -> (r: Result<(), TransactionError>)
    ensures
        r == match expiry_height {
            Some(e) => if e > MAX_EXPIRY_HEIGHT {
                Err(
                    TransactionError::MaximumExpiryHeight {
                        expiry_height: e,
                        is_coinbase,
                        block_height,
                        transaction_hash: tx.hash,
                    },
                )
            } else {
                Ok(())
            },
            None => Ok(()),
        },
{
    match expiry_height {
        Some(e) => {
            if e > MAX_EXPIRY_HEIGHT {
                return Err(
                    TransactionError::MaximumExpiryHeight {
                        expiry_height: e,
                        is_coinbase,
                        block_height,
                        transaction_hash: tx.hash,
                    },
                );
            }
        },
        None => {},
    }
    Ok(())
}

/// Fails `ExpiredTransaction` when the block is above the expiry height.
pub fn validate_expiry_height_mined(
    expiry_height: Option<u32>,
    block_height: u32,
    tx: &Transaction,
) -> (r: Result<(), TransactionError>)
    ensures
        r == match expiry_height {
            Some(e) => if block_height > e {
                Err(
                    TransactionError::ExpiredTransaction {
                        expiry_height: e,
                        block_height,
                        transaction_hash: tx.hash,
                    },
                )
            } else {
                Ok(())
            },
            None => Ok(()),
        },
{
    match expiry_height {
        Some(e) => {
            if block_height > e {
                return Err(
                    TransactionError::ExpiredTransaction {
                        expiry_height: e,
                        block_height,
                        transaction_hash: tx.hash,
                    },
                );
            }
        },
        None => {},
    }
    Ok(())
}

/// Result of the coinbase expiry rules.
pub open spec fn coinbase_expiry_result(block_height: u32, coinbase: Transaction, network: Network) -> Result<(), TransactionError> {
    if activation(network, NetworkUpgrade::Nu5) is Some && block_height >= activation(
        network,
        NetworkUpgrade::Nu5,
    )->0 {
        if expiry_spec(coinbase) != Some(block_height) {
            Err(
                TransactionError::CoinbaseExpiryBlockHeight {
                    expiry_height: expiry_spec(coinbase),
                    block_height,
                    transaction_hash: coinbase.hash,
                },
            )
        } else {
            Ok(())
        }
    } else {
        match expiry_spec(coinbase) {
            Some(e) => if e > MAX_EXPIRY_HEIGHT {
                Err(
                    TransactionError::MaximumExpiryHeight {
                        expiry_height: e,
                        is_coinbase: true,
                        block_height,
                        transaction_hash: coinbase.hash,
                    },
                )
            } else {
                Ok(())
            },
            None => Ok(()),
        }
    }
}

/// From NU5 on, a coinbase's expiry height equals its block height; before,
/// it is at most `MAX_EXPIRY_HEIGHT`.
pub fn coinbase_expiry_height(block_height: u32, coinbase: &Transaction, network: Network) -> (r:
    Result<(), TransactionError>)
    ensures
        r == coinbase_expiry_result(block_height, *coinbase, network),
{
    let expiry_height = coinbase.expiry();
    match NetworkUpgrade::Nu5.activation_height(network) {
        Some(nu5) => {
            if block_height >= nu5 {
                if expiry_height != Some(block_height) {
                    return Err(
                        TransactionError::CoinbaseExpiryBlockHeight {
                            expiry_height,
                            block_height,
                            transaction_hash: coinbase.hash,
                        },
                    );
                } else {
                    return Ok(());
                }
            }
        },
        None => {},
    }
    validate_expiry_height_max(expiry_height, true, block_height, coinbase)
}

/// Result of the non-coinbase expiry rules.
pub open spec fn non_coinbase_expiry_result(block_height: u32, tx: Transaction) -> Result<(), TransactionError> {
    if !is_overwintered_spec(tx) {
        Ok(())
    } else {
        match expiry_spec(tx) {
            Some(e) => if e > MAX_EXPIRY_HEIGHT {
                Err(
                    TransactionError::MaximumExpiryHeight {
                        expiry_height: e,
                        is_coinbase: false,
                        block_height,
                        transaction_hash: tx.hash,
                    },
                )
            } else if block_height > e {
                Err(
                    TransactionError::ExpiredTransaction {
                        expiry_height: e,
                        block_height,
                        transaction_hash: tx.hash,
                    },
                )
            } else {
                Ok(())
            },
            None => Ok(()),
        }
    }
}

/// For versions from Overwinter on: the expiry height is at most
/// `MAX_EXPIRY_HEIGHT`, and a nonzero one is not below the block height.
pub fn non_coinbase_expiry_height(block_height: u32, tx: &Transaction) -> (r: Result<
    (),
    TransactionError,
>)
    ensures
        r == non_coinbase_expiry_result(block_height, *tx),
{
    if tx.is_overwintered() {
        let expiry_height = tx.expiry();
        let r1 = validate_expiry_height_max(expiry_height, false, block_height, tx);
        if r1.is_err() {
            return r1;
        }
        let r2 = validate_expiry_height_mined(expiry_height, block_height, tx);
        if r2.is_err() {
            return r2;
        }
    }
    Ok(())
}

} // verus!
