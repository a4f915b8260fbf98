//! Komodo interest on transparent outputs, and the lock-time rule that keeps
//! the start of the interest period honest.
//!
//! The heights and times below are those of the KMD chain in komodod
//! (`komodo_interestnew`, `komodo_validate_interest` and the hardfork
//! schedule). The rules go by those heights on either network: testnet
//! shares them, and the `network` arguments do not change any result.
use vstd::prelude::*;

use crate::error::TransactionError;
use crate::parameters::Network;
use crate::transaction::{Transaction, LOCKTIME_THRESHOLD};

verus! {

/// How far, in seconds, a time lock may lag behind the comparison time.
pub const KOMODO_MAXMEMPOOLTIME: i64 = 3600;

/// Seconds added to a median time past to get the comparison time.
pub const MEDIAN_TIME_PAST_ALLOWANCE: i64 = 777;

/// Seconds taken off the comparison time while the early adjustment applies.
pub const EARLY_LOCKTIME_ADJUSTMENT: i64 = 16000;

/// Above this height the interest lock-time rule applies.
pub const INTEREST_LOCKTIME_HEIGHT: u32 = 246748;

/// Below this height (and above `INTEREST_LOCKTIME_HEIGHT`) the comparison
/// time is moved back by `EARLY_LOCKTIME_ADJUSTMENT`.
pub const INTEREST_ADJUSTMENT_END_HEIGHT: u32 = 247205;

/// From this height on, block transactions compare against the previous
/// block's median time past instead of the block time.
pub const GAP_AFTER_SECOND_BLOCK_HEIGHT: u32 = 3484958;

/// No interest accrues in blocks from this height on.
pub const KOMODO_ENDOFERA: u32 = 7777777;

/// Zatoshis per coin.
pub const COIN: u64 = 100000000;

/// Outputs below this value earn no interest.
pub const INTEREST_MIN_VALUE: u64 = 1000000000;

/// From this height on, interest accrues for at most a month.
pub const INTEREST_MONTH_CAP_HEIGHT: u32 = 1000000;

/// Minutes in a year.
pub const MINUTES_PER_YEAR: i64 = 525600;

/// Minutes in 31 days.
pub const MINUTES_PER_MONTH: i64 = 44640;

/// Interest per minute is the value divided by this.
pub const INTEREST_DIVISOR: u64 = 10512000;

pub open spec fn interest_locktime_active(height: u32) -> bool {
    height > INTEREST_LOCKTIME_HEIGHT
}

pub open spec fn max_mempool_time_adjustment_active(height: u32) -> bool {
    height > INTEREST_LOCKTIME_HEIGHT && height < INTEREST_ADJUSTMENT_END_HEIGHT
}

pub open spec fn gap_after_second_block_allowed(height: u32) -> bool {
    height >= GAP_AFTER_SECOND_BLOCK_HEIGHT
}

/// Whether the interest lock-time rule applies at `height`.
pub fn komodo_interest_validate_locktime_active(network: Network, height: u32) -> (r: bool)
    ensures
        r == interest_locktime_active(height),
{
    height > INTEREST_LOCKTIME_HEIGHT
}

/// Whether the early adjustment of the comparison time applies at `height`.
pub fn komodo_interest_adjust_max_mempool_time_active(network: Network, height: u32) -> (r: bool)
    ensures
        r == max_mempool_time_adjustment_active(height),
{
    height > INTEREST_LOCKTIME_HEIGHT && height < INTEREST_ADJUSTMENT_END_HEIGHT
}

/// Whether block transactions at `height` compare against the previous
/// block's median time past.
pub fn komodo_is_gap_after_second_block_allowed(network: Network, height: u32) -> (r: bool)
    ensures
        r == gap_after_second_block_allowed(height),
{
    height >= GAP_AFTER_SECOND_BLOCK_HEIGHT
}

/// The earliest time lock accepted at `height` against `cmp_time`.
pub open spec fn earliest_lock_time(height: u32, cmp_time: int) -> int {
    let adjusted = if max_mempool_time_adjustment_active(height) {
        cmp_time - EARLY_LOCKTIME_ADJUSTMENT
    } else {
        cmp_time
    };
    adjusted - KOMODO_MAXMEMPOOLTIME
}

/// A time lock too early for the interest rule at `height`.
pub open spec fn lock_time_too_early(tx: Transaction, height: u32, cmp_time: int) -> bool {
    &&& tx.lock_time != 0
    &&& tx.lock_time >= LOCKTIME_THRESHOLD
    &&& interest_locktime_active(height)
    &&& (tx.lock_time as int) < earliest_lock_time(height, cmp_time)
}

/// Where the interest rule applies, a time lock must not be older than the
/// comparison time less `KOMODO_MAXMEMPOOLTIME` (and less
/// `EARLY_LOCKTIME_ADJUSTMENT` in the early window).
pub fn komodo_validate_interest_locktime(
    network: Network,
    tx: &Transaction,
    tx_height: u32,
    cmp_time: i128,
) -> (r: Result<(), TransactionError>)
    requires
        -0x1_0000_0000_0000_0000 <= cmp_time <= 0x1_0000_0000_0000_0000,
    ensures
        r == if lock_time_too_early(*tx, tx_height, cmp_time as int) {
            Err(TransactionError::KomodoTxLockTimeTooEarly(tx.lock_time as i64, tx_height))
        } else {
            Ok(())
        },
{
    let lock = tx.lock_time;
    if lock != 0 && lock >= LOCKTIME_THRESHOLD {
        if komodo_interest_validate_locktime_active(network, tx_height) {
            let mut adjusted = cmp_time;
            if komodo_interest_adjust_max_mempool_time_active(network, tx_height) {
                adjusted = adjusted - EARLY_LOCKTIME_ADJUSTMENT as i128;
            }
            if (lock as i128) < adjusted - KOMODO_MAXMEMPOOLTIME as i128 {
                return Err(TransactionError::KomodoTxLockTimeTooEarly(lock as i64, tx_height));
            }
        }
    }
    Ok(())
}

/// Interest accrued by an output of `value` locked at `lock_time`, spent at
/// `tx_height` when the tip time is `tip_time`: one `INTEREST_DIVISOR`-th of
/// the value per minute, for the minutes beyond the first
/// `KOMODO_MAXMEMPOOLTIME` less one, capped at a year (a month from
/// `INTEREST_MONTH_CAP_HEIGHT` on).
pub open spec fn interest_spec(tx_height: u32, value: u64, lock_time: u32, tip_time: i64) -> int {
    if tx_height >= KOMODO_ENDOFERA || value < INTEREST_MIN_VALUE || lock_time < LOCKTIME_THRESHOLD
        || tip_time <= lock_time {
        0
    } else {
        let m0 = (tip_time - lock_time) / 60;
        if m0 < KOMODO_MAXMEMPOOLTIME / 60 {
            0
        } else {
            let m1 = if m0 > MINUTES_PER_YEAR {
                MINUTES_PER_YEAR as int
            } else {
                m0
            };
            let m2 = if tx_height >= INTEREST_MONTH_CAP_HEIGHT && m1 > MINUTES_PER_MONTH {
                MINUTES_PER_MONTH as int
            } else {
                m1
            };
            (value / INTEREST_DIVISOR) as int * (m2 - (KOMODO_MAXMEMPOOLTIME / 60 - 1))
        }
    }
}

/// Interest accrued by one output; see `interest_spec`.
pub fn komodo_interest(tx_height: u32, value: u64, lock_time: u32, tip_time: i64) -> (r: u64)
    ensures
        r as int == interest_spec(tx_height, value, lock_time, tip_time),
{
    if tx_height >= KOMODO_ENDOFERA || value < INTEREST_MIN_VALUE || lock_time < LOCKTIME_THRESHOLD
        || tip_time <= lock_time as i64 {
        return 0;
    }
    let m0: i64 = (tip_time - lock_time as i64) / 60;
    if m0 < KOMODO_MAXMEMPOOLTIME / 60 {
        return 0;
    }
    let m1: i64 = if m0 > MINUTES_PER_YEAR {
        MINUTES_PER_YEAR
    } else {
        m0
    };
    let m2: i64 = if tx_height >= INTEREST_MONTH_CAP_HEIGHT && m1 > MINUTES_PER_MONTH {
        MINUTES_PER_MONTH
    } else {
        m1
    };
    let per_minute: u64 = value / INTEREST_DIVISOR;
    let minutes: u64 = (m2 - (KOMODO_MAXMEMPOOLTIME / 60 - 1)) as u64;
    assert(per_minute * minutes <= 1755000000000 * 525600) by (nonlinear_arith)
        requires
            per_minute <= 1755000000000,
            minutes <= 525600,
    ;
    per_minute * minutes
}

} // verus!
