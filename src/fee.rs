//! Relay fee floor, the limiter for below-floor transactions, and the mempool
//! fee rules.
use vstd::prelude::*;

use crate::error::TransactionError;
use crate::transaction::{Output, Transaction};

verus! {

/// Default minimum relay fee, in zatoshis per 1000 bytes.
pub const DEFAULT_MIN_RELAY_TX_FEE: u64 = 100;

/// Largest amount of money, in zatoshis.
pub const MAX_MONEY: u64 = 20000000000000000;

/// A fee is absurd when above this many times the relay fee floor (and above
/// a nineteenth of the outputs).
pub const ABSURD_FEE_FACTOR: u64 = 10000;

/// Divisor of the output value in the absurd fee rule.
pub const ABSURD_OUTPUT_DIVISOR: u64 = 19;

/// One token, in thousandths of a token.
pub const TOKEN: u64 = 1000;

/// Default capacity of the limiter: ten tokens.
pub const DEFAULT_LIMITER_CAPACITY: u64 = 10000;

/// Default refill of the limiter: one token per ten seconds.
pub const DEFAULT_LIMITER_REFILL_PER_SEC: u64 = 100;

/// A fee rate, in zatoshis per 1000 bytes.
#[derive(Clone, Copy, Debug, PartialEq, Eq, Structural)]
pub struct FeeRate {
    pub per_kb: u64,
}

/// Fee for `size` bytes at `per_kb`: proportional, rounded down, but at least
/// the rate itself when that rounds to zero and the rate is not zero.
pub open spec fn fee_for_size(per_kb: u64, size: u64) -> int {
    let f = (per_kb as int * size as int) / 1000;
    if f == 0 && per_kb > 0 {
        per_kb as int
    } else {
        f
    }
}

impl FeeRate {
    /// A rate of `per_kb` zatoshis per 1000 bytes.
    pub fn new(per_kb: u64) -> (r: FeeRate)
        ensures
            r.per_kb == per_kb,
    {
        FeeRate { per_kb }
    }

    /// The fee for a transaction of `size` bytes.
    pub fn get_fee(&self, size: u64) -> (r: u128)
        ensures
            r as int == fee_for_size(self.per_kb, size),
    {
        let p = self.per_kb as u128;
        let s = size as u128;
        assert(p * s <= 0xffff_ffff_ffff_ffffu128 * 0xffff_ffff_ffff_ffffu128) by (nonlinear_arith)
            requires
                p <= 0xffff_ffff_ffff_ffffu128,
                s <= 0xffff_ffff_ffff_ffffu128,
        ;
        let f = p * s / 1000;
        if f == 0 && self.per_kb > 0 {
            p
        } else {
            f
        }
    }
}

/// A token bucket that admits a bounded number of below-floor transactions
/// per unit of time. Tokens are counted in thousandths.
#[derive(Clone, Copy, Debug, PartialEq, Eq, Structural)]
pub struct FeeRateLimiter {
    pub tokens: u64,
    pub last_refill: i64,
    pub capacity: u64,
    pub refill_per_sec: u64,
}

/// Tokens after refilling from `last` to `now`, capped at the capacity.
pub open spec fn refilled(l: FeeRateLimiter, now: i64) -> int {
    let elapsed = if now > l.last_refill {
        now - l.last_refill
    } else {
        0
    };
    let t = l.tokens + elapsed * l.refill_per_sec;
    if t > l.capacity {
        l.capacity as int
    } else {
        t
    }
}

/// The limiter after a check at `now`: refilled, moved to `now` if later,
/// and less one token when a whole one was there.
pub open spec fn limiter_after(l: FeeRateLimiter, now: i64) -> FeeRateLimiter {
    FeeRateLimiter {
        tokens: if refilled(l, now) >= TOKEN {
            (refilled(l, now) - TOKEN) as u64
        } else {
            refilled(l, now) as u64
        },
        last_refill: if now > l.last_refill {
            now
        } else {
            l.last_refill
        },
        capacity: l.capacity,
        refill_per_sec: l.refill_per_sec,
    }
}

impl FeeRateLimiter {
    /// The bucket never holds more than its capacity.
    pub open spec fn wf(&self) -> bool {
        self.tokens <= self.capacity
    }

    /// A full bucket with the default capacity and refill rate, as of `now`.
    pub fn new(now: i64) -> (r: FeeRateLimiter)
        ensures
            r.wf(),
            r.tokens == DEFAULT_LIMITER_CAPACITY,
            r.capacity == DEFAULT_LIMITER_CAPACITY,
            r.refill_per_sec == DEFAULT_LIMITER_REFILL_PER_SEC,
            r.last_refill == now,
    {
        FeeRateLimiter {
            tokens: DEFAULT_LIMITER_CAPACITY,
            last_refill: now,
            capacity: DEFAULT_LIMITER_CAPACITY,
            refill_per_sec: DEFAULT_LIMITER_REFILL_PER_SEC,
        }
    }

    /// A full bucket of `capacity` thousandths of a token, refilled by
    /// `refill_per_sec` thousandths a second, as of `now`.
    pub fn with_rate(capacity: u64, refill_per_sec: u64, now: i64) -> (r: FeeRateLimiter)
        ensures
            r.wf(),
            r.tokens == capacity,
            r.capacity == capacity,
            r.refill_per_sec == refill_per_sec,
            r.last_refill == now,
    {
        FeeRateLimiter { tokens: capacity, last_refill: now, capacity, refill_per_sec }
    }

    /// Refills the bucket up to `now`, then admits one transaction when a
    /// whole token is there, taking it.
    pub fn check_rate_limit(&mut self, now: i64) -> (r: bool)
        requires
            old(self).wf(),
        ensures
            final(self).wf(),
            final(self).capacity == old(self).capacity,
            final(self).refill_per_sec == old(self).refill_per_sec,
            final(self).last_refill == if now > old(self).last_refill {
                now
            } else {
                old(self).last_refill
            },
            r == (refilled(*old(self), now) >= TOKEN),
            *final(self) == limiter_after(*old(self), now),
            final(self).tokens == if r {
                refilled(*old(self), now) - TOKEN
            } else {
                refilled(*old(self), now)
            },
    {
        let elapsed: u128 = if now > self.last_refill {
            (now as i128 - self.last_refill as i128) as u128
        } else {
            0
        };
        assert(elapsed * (self.refill_per_sec as u128) <= 0xffff_ffff_ffff_ffffu128 * 0xffff_ffff_ffff_ffffu128) by (nonlinear_arith)
            requires
                elapsed <= 0xffff_ffff_ffff_ffffu128,
                self.refill_per_sec <= 0xffff_ffff_ffff_ffffu64,
        ;
        let added: u128 = elapsed * (self.refill_per_sec as u128);
        let t: u128 = if added > (self.capacity - self.tokens) as u128 {
            self.capacity as u128
        } else {
            self.tokens as u128 + added
        };
        if now > self.last_refill {
            self.last_refill = now;
        }
        if t >= TOKEN as u128 {
            self.tokens = (t - TOKEN as u128) as u64;
            true
        } else {
            self.tokens = t as u64;
            false
        }
    }
}

/// Sum of output values.
pub open spec fn output_sum(outs: Seq<Output>) -> int
    decreases outs.len(),
{
    if outs.len() == 0 {
        0
    } else {
        output_sum(outs.drop_last()) + outs.last().value
    }
}

/// Sum of output values, or zero when it exceeds `MAX_MONEY`.
pub open spec fn output_value(outs: Seq<Output>) -> int {
    if output_sum(outs) > MAX_MONEY {
        0
    } else {
        output_sum(outs)
    }
}

/// The output value of a transaction: the sum of its outputs, or zero when
/// that sum is not a valid amount.
pub fn transaction_output_value(tx: &Transaction) -> (r: u64)
    ensures
        r as int == output_value(tx.outputs@),
{
    let mut s: u64 = 0;
    let mut i: usize = 0;
    while i < tx.outputs.len()
        invariant
            i <= tx.outputs@.len(),
            s as int == output_sum(tx.outputs@.take(i as int)),
            s <= MAX_MONEY,
        decreases tx.outputs@.len() - i,
    {
        assert(tx.outputs@.take(i as int + 1).drop_last() =~= tx.outputs@.take(i as int));
        let v = tx.outputs[i].value;
        if v > MAX_MONEY - s {
            proof {
                lemma_output_sum_prefix_monotone(tx.outputs@, i as int + 1);
            }
            return 0;
        }
        s = s + v;
        i = i + 1;
    }
    assert(tx.outputs@.take(i as int) =~= tx.outputs@);
    s
}

/// Sums of longer prefixes are no smaller.
proof fn lemma_output_sum_prefix_monotone(outs: Seq<Output>, k: int)
    requires
        0 <= k <= outs.len(),
    ensures
        output_sum(outs.take(k)) <= output_sum(outs),
    decreases outs.len() - k,
{
    if k < outs.len() {
        lemma_output_sum_prefix_monotone(outs, k + 1);
        assert(outs.take(k + 1).drop_last() =~= outs.take(k));
    } else {
        assert(outs.take(k) =~= outs);
    }
}

/// The fee is below the relay floor for the transaction's size.
pub open spec fn is_low_fee(rate: FeeRate, tx: Transaction, fee: i64) -> bool {
    (fee as int) < fee_for_size(rate.per_kb, tx.size)
}

/// The fee exceeds both `ABSURD_FEE_FACTOR` times the floor and a nineteenth
/// of the output value.
pub open spec fn is_absurd_fee(rate: FeeRate, tx: Transaction, fee: i64) -> bool {
    &&& fee as int > fee_for_size(rate.per_kb, tx.size) * ABSURD_FEE_FACTOR
    &&& fee as int > output_value(tx.outputs@) / ABSURD_OUTPUT_DIVISOR as int
}

/// A below-floor fee that the limiter, refilled up to `now`, has no token for.
pub open spec fn low_fee_denied(
    l: FeeRateLimiter,
    now: i64,
    rate: FeeRate,
    tx: Transaction,
    fee: i64,
    check_low_fee: bool,
) -> bool {
    check_low_fee && is_low_fee(rate, tx, fee) && refilled(l, now) < TOKEN
}

/// Mempool fee rules: a below-floor fee (when `check_low_fee`) needs a token
/// from the limiter, else `KomodoLowFeeLimit`; an absurd fee (when
/// `reject_absurd_fee`) is `KomodoAbsurdFee`.
pub fn komodo_miner_fee_valid_for_mempool(
    rate_limiter: &mut FeeRateLimiter,
    now: i64,
    min_relay_txfee: FeeRate,
    tx: &Transaction,
    tx_fee: i64,
    check_low_fee: bool,
    reject_absurd_fee: bool,
) -> (r: Result<(), TransactionError>)
    requires
        old(rate_limiter).wf(),
    ensures
        final(rate_limiter).wf(),
        !(check_low_fee && is_low_fee(min_relay_txfee, *tx, tx_fee)) ==> *final(rate_limiter)
            == *old(rate_limiter),
        check_low_fee && is_low_fee(min_relay_txfee, *tx, tx_fee) ==> *final(rate_limiter)
            == limiter_after(*old(rate_limiter), now),
        low_fee_denied(*old(rate_limiter), now, min_relay_txfee, *tx, tx_fee, check_low_fee) ==> r
            is Err && r->Err_0 is KomodoLowFeeLimit && r->Err_0->KomodoLowFeeLimit_0 == tx.hash
            && r->Err_0->KomodoLowFeeLimit_1@ == "low txfee limit reached"@,
        !low_fee_denied(*old(rate_limiter), now, min_relay_txfee, *tx, tx_fee, check_low_fee) ==> r
            == if reject_absurd_fee && is_absurd_fee(min_relay_txfee, *tx, tx_fee) {
            Err(TransactionError::KomodoAbsurdFee(tx.hash, tx_fee))
        } else {
            Ok(())
        },
{
    let floor = min_relay_txfee.get_fee(tx.size);
    if check_low_fee && (tx_fee < 0 || (tx_fee as u128) < floor) {
        if !rate_limiter.check_rate_limit(now) {
            let reason = "low txfee limit reached".to_owned();
            return Err(TransactionError::KomodoLowFeeLimit(tx.hash, reason));
        }
    }
    if reject_absurd_fee {
        let output_value = transaction_output_value(tx);
        let above_floor = if floor > 0x7fff_ffff_ffff_ffffu128 / (ABSURD_FEE_FACTOR as u128) {
            assert(floor * ABSURD_FEE_FACTOR as int > 0x7fff_ffff_ffff_ffff) by (nonlinear_arith)
                requires
                    floor > 0x7fff_ffff_ffff_ffffu128 / 10000,
            ;
            false
        } else {
            assert(floor * 10000 <= 0x7fff_ffff_ffff_ffff) by (nonlinear_arith)
                requires
                    floor <= 0x7fff_ffff_ffff_ffffu128 / 10000,
            ;
            (tx_fee as i128) > (floor * (ABSURD_FEE_FACTOR as u128)) as i128
        };
        if above_floor && tx_fee as i128 > (output_value / ABSURD_OUTPUT_DIVISOR) as i128 {
            return Err(TransactionError::KomodoAbsurdFee(tx.hash, tx_fee));
        }
    }
    Ok(())
}

} // verus!
