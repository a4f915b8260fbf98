//! Why a transaction was refused.
use vstd::prelude::*;

use crate::parameters::NetworkUpgrade;
use crate::transaction::{Hash256, OutPoint, TxVersion};

verus! {

/// A reason for refusing a transaction.
#[derive(Clone, Debug, PartialEq, Eq)]
pub enum TransactionError {
    NoInputs,
    NoOutputs,
    CoinbaseInMempool,
    NonCoinbaseHasCoinbaseInput,
    CoinbaseHasJoinSplit,
    CoinbaseHasSpend,
    CoinbaseHasEnableSpendsOrchard,
    BothVPubsNonZero,
    DisabledAddToSproutPool,
    DuplicateTransparentSpend(OutPoint),
    DuplicateSproutNullifier(Hash256),
    DuplicateSaplingNullifier(Hash256),
    DuplicateOrchardNullifier(Hash256),
    /// Locked until after this block height.
    LockedUntilAfterBlockHeight(u32),
    /// Locked until after this Unix time.
    LockedUntilAfterBlockTime(u32),
    WrongVersion,
    UnsupportedByNetworkUpgrade(TxVersion, NetworkUpgrade),
    CoinbaseExpiryBlockHeight {
        expiry_height: Option<u32>,
        block_height: u32,
        transaction_hash: Hash256,
    },
    MaximumExpiryHeight {
        expiry_height: u32,
        is_coinbase: bool,
        block_height: u32,
        transaction_hash: Hash256,
    },
    ExpiredTransaction { expiry_height: u32, block_height: u32, transaction_hash: Hash256 },
    CoinbaseOutputsNotDecryptable,
    TransparentInputNotFound,
    IncorrectFee,
    NotEnoughFlags,
    /// A below-floor fee was refused: the transaction and the reason.
    KomodoLowFeeLimit(Hash256, String),
    /// The fee is absurdly high: the transaction and its fee.
    KomodoAbsurdFee(Hash256, i64),
    /// The time lock (Unix time) is too early for the height.
    KomodoTxLockTimeTooEarly(i64, u32),
    KomodoTipTimeError,
    KomodoMedianTimePastError,
    /// A script, proof or signature check failed.
    CheckFailed,
    /// A state query failed or timed out, with the state's message.
    StateError(String),
}

} // verus!
