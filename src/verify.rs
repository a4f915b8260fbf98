//! Requests, responses, the set of asynchronous checks a transaction needs,
//! and the decisions of one verification, step by step.
use vstd::prelude::*;

use crate::check::{
    coinbase_expiry_height, coinbase_expiry_result, coinbase_spends_result,
    coinbase_tx_no_prevout_joinsplit_spend, disabled_add_to_sprout_pool, has_enough_orchard_flags,
    has_inputs_and_outputs, inputs_outputs_result, is_conflict_error, is_final_komodo_result,
    is_final_tx_komodo, joinsplit_has_vpub_zero, no_spend_conflicts, non_coinbase_expiry_height,
    non_coinbase_expiry_result, orchard_flags_result, spend_conflicts, sprout_pool_result,
    vpub_zero_result,
};
use crate::error::TransactionError;
use crate::parameters::{is_current, upgrade_index, Network, NetworkUpgrade};
use crate::transaction::{
    all_prevout, is_coinbase_spec, orchard_action_count, Hash256, OutPoint, Output,
    Transaction, TxVersion,
};

verus! {

/// An unspent transparent output, with what interest and coinbase rules need.
#[derive(Clone, Copy, Debug, PartialEq, Eq, Structural)]
pub struct Utxo {
    pub output: Output,
    /// Height of the block that created it.
    pub height: u32,
    pub from_coinbase: bool,
    /// Lock time of the transaction that created it.
    pub lock_time: u32,
}

/// An outpoint with the output it refers to.
#[derive(Clone, Copy, Debug, PartialEq, Eq, Structural)]
pub struct KnownUtxo {
    pub outpoint: OutPoint,
    pub utxo: Utxo,
}

/// Data for checking the last transaction of a block (the Komodo deposit
/// and OP_RETURN rules). This library does not implement those rules, nor
/// the banned-input rule, so the data is carried but not read here.
#[derive(Clone, Debug)]
pub struct LastTxVerifyData {
    pub coinbase: Transaction,
    pub difficulty: u32,
    pub merkle_root: Hash256,
}

/// A transaction to verify, in a block or for the mempool.
#[derive(Clone, Debug)]
pub enum Request {
    Block {
        transaction: Transaction,
        /// Outputs created earlier in the same block, by outpoint; where an
        /// outpoint appears more than once, its first entry is the one used.
        known_utxos: Vec<KnownUtxo>,
        height: u32,
        /// Block time, Unix seconds.
        time: i64,
        previous_hash: Hash256,
        last_tx_verify_data: Option<LastTxVerifyData>,
    },
    Mempool {
        transaction: Transaction,
        /// Height of the next block.
        height: u32,
        /// Apply the limiter to below-floor fees.
        check_low_fee: bool,
        /// Refuse absurdly high fees.
        reject_absurd_fee: bool,
    },
}

/// A verified mempool transaction with its fee and interest.
#[derive(Clone, Debug)]
pub struct VerifiedUnminedTx {
    pub transaction: Transaction,
    pub miner_fee: u64,
    pub interest: u64,
}

/// The outcome of a successful verification.
#[derive(Clone, Debug)]
pub enum Response {
    Block {
        tx_id: Hash256,
        /// `None` for coinbase transactions.
        miner_fee: Option<u64>,
        legacy_sigop_count: u64,
        interest: Option<u64>,
    },
    Mempool { transaction: VerifiedUnminedTx },
}

pub open spec fn req_tx(r: Request) -> Transaction {
    match r {
        Request::Block { transaction, .. } => transaction,
        Request::Mempool { transaction, .. } => transaction,
    }
}

pub open spec fn req_height(r: Request) -> u32 {
    match r {
        Request::Block { height, .. } => height,
        Request::Mempool { height, .. } => height,
    }
}

pub open spec fn req_known(r: Request) -> Seq<KnownUtxo> {
    match r {
        Request::Block { known_utxos, .. } => known_utxos@,
        Request::Mempool { .. } => Seq::empty(),
    }
}

impl Request {
    /// The transaction to verify.
    pub fn transaction(&self) -> (r: &Transaction)
        ensures
            *r == req_tx(*self),
    {
        match self {
            Request::Block { transaction, .. } => transaction,
            Request::Mempool { transaction, .. } => transaction,
        }
    }

    /// The transaction, if this is a mempool request.
    pub fn into_mempool_transaction(self) -> (r: Option<Transaction>)
        ensures
            r == (match self {
                Request::Block { .. } => None,
                Request::Mempool { transaction, .. } => Some(transaction),
            }),
    {
        match self {
            Request::Block { .. } => None,
            Request::Mempool { transaction, .. } => Some(transaction),
        }
    }

    /// The id of the transaction to verify.
    pub fn tx_id(&self) -> (r: Hash256)
        ensures
            r == req_tx(*self).hash,
    {
        self.transaction().hash
    }

    /// Outputs known from earlier in the block; none for the mempool.
    pub fn known_utxos(&self) -> (r: &[KnownUtxo])
        ensures
            r@ == req_known(*self),
    {
        match self {
            Request::Block { known_utxos, .. } => known_utxos.as_slice(),
            Request::Mempool { .. } => &[],
        }
    }

    /// The height whose rules apply.
    pub fn height(&self) -> (r: u32)
        ensures
            r == req_height(*self),
    {
        match self {
            Request::Block { height, .. } => *height,
            Request::Mempool { height, .. } => *height,
        }
    }

    /// The block time, for block requests.
    pub fn block_time(&self) -> (r: Option<i64>)
        ensures
            r == (match *self {
                Request::Block { time, .. } => Some(time),
                Request::Mempool { .. } => None,
            }),
    {
        match self {
            Request::Block { time, .. } => Some(*time),
            Request::Mempool { .. } => None,
        }
    }

    /// The upgrade in force at the request's height.
    pub fn upgrade(&self, network: Network) -> (r: NetworkUpgrade)
        ensures
            is_current(network, req_height(*self), r),
    {
        NetworkUpgrade::current(network, self.height())
    }

    /// Whether this is a mempool request.
    pub fn is_mempool(&self) -> (r: bool)
        ensures
            r == (*self is Mempool),
    {
        match self {
            Request::Block { .. } => false,
            Request::Mempool { .. } => true,
        }
    }

    /// The data for checking the last transaction of a block, if given.
    pub fn get_last_tx_verify_data(&self) -> (r: Option<&LastTxVerifyData>)
        ensures
            r == (match *self {
                Request::Block { last_tx_verify_data, .. } => match last_tx_verify_data {
                    Some(d) => Some(&d),
                    None => None,
                },
                Request::Mempool { .. } => None,
            }),
    {
        match self {
            Request::Block { last_tx_verify_data, .. } => match last_tx_verify_data {
                Some(d) => Some(d),
                None => None,
            },
            Request::Mempool { .. } => None,
        }
    }
}

impl Response {
    /// The verified transaction, if this is a mempool response.
    pub fn into_mempool_transaction(self) -> (r: Option<VerifiedUnminedTx>)
        ensures
            r == (match self {
                Response::Block { .. } => None,
                Response::Mempool { transaction } => Some(transaction),
            }),
    {
        match self {
            Response::Block { .. } => None,
            Response::Mempool { transaction } => Some(transaction),
        }
    }

    /// The id of the verified transaction.
    pub fn tx_id(&self) -> (r: Hash256)
        ensures
            r == (match *self {
                Response::Block { tx_id, .. } => tx_id,
                Response::Mempool { transaction } => transaction.transaction.hash,
            }),
    {
        match self {
            Response::Block { tx_id, .. } => *tx_id,
            Response::Mempool { transaction } => transaction.transaction.hash,
        }
    }

    /// The miner fee; `None` for a coinbase transaction in a block.
    pub fn miner_fee(&self) -> (r: Option<u64>)
        ensures
            r == (match *self {
                Response::Block { miner_fee, .. } => miner_fee,
                Response::Mempool { transaction } => Some(transaction.miner_fee),
            }),
    {
        match self {
            Response::Block { miner_fee, .. } => *miner_fee,
            Response::Mempool { transaction } => Some(transaction.miner_fee),
        }
    }

    /// The legacy signature operation count, for block responses.
    pub fn legacy_sigop_count(&self) -> (r: Option<u64>)
        ensures
            r == (match *self {
                Response::Block { legacy_sigop_count, .. } => Some(legacy_sigop_count),
                Response::Mempool { .. } => None,
            }),
    {
        match self {
            Response::Block { legacy_sigop_count, .. } => Some(*legacy_sigop_count),
            Response::Mempool { .. } => None,
        }
    }

    /// Whether this is a mempool response.
    pub fn is_mempool(&self) -> (r: bool)
        ensures
            r == (*self is Mempool),
    {
        match self {
            Response::Block { .. } => false,
            Response::Mempool { .. } => true,
        }
    }

    /// The Komodo interest of the transaction.
    pub fn komodo_interest(&self) -> (r: Option<u64>)
        ensures
            r == (match *self {
                Response::Block { interest, .. } => interest,
                Response::Mempool { transaction } => Some(transaction.interest),
            }),
    {
        match self {
            Response::Block { interest, .. } => *interest,
            Response::Mempool { transaction } => Some(transaction.interest),
        }
    }
}

// ---------------------------------------------------------------------------
// Asynchronous checks

/// One script, proof or signature check, run by an outside verifier.
#[derive(Clone, Copy, Debug, PartialEq, Eq, Structural)]
pub enum CheckItem {
    /// The script of a transparent input, under an upgrade's rules.
    Script { upgrade: NetworkUpgrade, input_index: u64 },
    /// The Groth16 proof of a JoinSplit.
    JoinSplitProof { index: u64 },
    /// The Ed25519 signature over all JoinSplits.
    JoinSplitSignature,
    /// The Groth16 proof of a Sapling spend.
    SaplingSpendProof { index: u64 },
    /// The RedJubjub spend authorization of a Sapling spend.
    SaplingSpendAuth { index: u64 },
    /// The Groth16 proof of a Sapling output.
    SaplingOutputProof { index: u64 },
    /// The RedJubjub binding signature of the Sapling bundle.
    SaplingBindingSignature,
    /// The Halo2 proof of the Orchard bundle.
    OrchardProof,
    /// The RedPallas spend authorization of an Orchard action.
    OrchardSpendAuth { index: u64 },
    /// The RedPallas binding signature of the Orchard bundle.
    OrchardBindingSignature,
}

/// Checks that must all succeed; they may run in any order.
#[derive(Clone, Debug, PartialEq, Eq)]
pub struct AsyncChecks {
    pub items: Vec<CheckItem>,
}

impl View for AsyncChecks {
    type V = Seq<CheckItem>;

    open spec fn view(&self) -> Seq<CheckItem> {
        self.items@
    }
}

/// Every check in `s` succeeds, given the outcome `ok` of each check.
pub open spec fn all_pass(s: Seq<CheckItem>, ok: spec_fn(CheckItem) -> bool) -> bool {
    forall|i: int| 0 <= i < s.len() ==> ok(#[trigger] s[i])
}

impl AsyncChecks {
    /// No checks.
    pub fn new() -> (r: AsyncChecks)
        ensures
            r@ == Seq::<CheckItem>::empty(),
    {
        AsyncChecks { items: Vec::new() }
    }

    /// Adds one check.
    pub fn push(&mut self, check: CheckItem)
        ensures
            final(self)@ == old(self)@.push(check),
    {
        self.items.push(check);
    }

    /// All checks of `self` and of `other`.
    pub fn and(self, other: AsyncChecks) -> (r: AsyncChecks)
        ensures
            r@ == self@ + other@,
    {
        let mut items = self.items;
        let mut other_items = other.items;
        items.append(&mut other_items);
        AsyncChecks { items }
    }
}

/// The combined checks succeed exactly when the checks of both parts do,
/// whatever the outcome of each single check.
pub proof fn lemma_and_passes_iff_both(a: AsyncChecks, b: AsyncChecks, ok: spec_fn(CheckItem) -> bool)
    ensures
        all_pass(a@ + b@, ok) <==> all_pass(a@, ok) && all_pass(b@, ok),
{
    let s = a@ + b@;
    if all_pass(a@, ok) && all_pass(b@, ok) {
        assert forall|i: int| 0 <= i < s.len() implies ok(#[trigger] s[i]) by {
            if i < a@.len() {
                assert(s[i] == a@[i]);
            } else {
                assert(s[i] == b@[i - a@.len()]);
            }
        }
    }
    if all_pass(s, ok) {
        assert forall|i: int| 0 <= i < a@.len() implies ok(#[trigger] a@[i]) by {
            assert(s[i] == a@[i]);
        }
        assert forall|i: int| 0 <= i < b@.len() implies ok(#[trigger] b@[i]) by {
            assert(s[i + a@.len()] == b@[i]);
        }
    }
}

/// Script checks: one per input, none for a coinbase.
pub open spec fn script_checks(tx: Transaction, upgrade: NetworkUpgrade) -> Seq<CheckItem> {
    if is_coinbase_spec(tx) {
        Seq::empty()
    } else {
        Seq::new(
            tx.inputs@.len(),
            |i: int| CheckItem::Script { upgrade, input_index: i as u64 },
        )
    }
}

/// Sprout checks: a proof per JoinSplit, then one signature if there is any.
pub open spec fn sprout_checks(tx: Transaction) -> Seq<CheckItem> {
    if tx.joinsplits@.len() == 0 {
        Seq::empty()
    } else {
        Seq::new(tx.joinsplits@.len(), |i: int| CheckItem::JoinSplitProof { index: i as u64 }).push(
            CheckItem::JoinSplitSignature,
        )
    }
}

/// Sapling checks: proof and authorization per spend, proof per output,
/// then the binding signature, when there is any spend or output.
pub open spec fn sapling_checks(tx: Transaction) -> Seq<CheckItem> {
    let ns = tx.sapling_spends@.len();
    let no = tx.sapling_outputs@.len();
    if ns + no == 0 {
        Seq::empty()
    } else {
        Seq::new(
            2 * ns,
            |i: int|
                if i % 2 == 0 {
                    CheckItem::SaplingSpendProof { index: (i / 2) as u64 }
                } else {
                    CheckItem::SaplingSpendAuth { index: (i / 2) as u64 }
                },
        ) + Seq::new(no, |i: int| CheckItem::SaplingOutputProof { index: i as u64 }).push(
            CheckItem::SaplingBindingSignature,
        )
    }
}

/// Orchard checks of a bundle: one proof, an authorization per action,
/// then the binding signature; none without a bundle.
pub open spec fn orchard_checks(tx: Transaction) -> Seq<CheckItem> {
    match tx.orchard {
        Some(o) => seq![CheckItem::OrchardProof] + Seq::new(
            o.actions@.len(),
            |i: int| CheckItem::OrchardSpendAuth { index: i as u64 },
        ).push(CheckItem::OrchardBindingSignature),
        None => Seq::empty(),
    }
}

/// Script checks of the transparent inputs; none for a coinbase.
pub fn verify_transparent_inputs_and_outputs(tx: &Transaction, upgrade: NetworkUpgrade) -> (r: AsyncChecks)
    ensures
        r@ == script_checks(*tx, upgrade),
{
    let mut r = AsyncChecks::new();
    if tx.is_coinbase() {
        return r;
    }
    let mut i: usize = 0;
    while i < tx.inputs.len()
        invariant
            i <= tx.inputs@.len(),
            r@ =~= Seq::new(i as nat, |k: int| CheckItem::Script { upgrade, input_index: k as u64 }),
        decreases tx.inputs@.len() - i,
    {
        r.push(CheckItem::Script { upgrade, input_index: i as u64 });
        i = i + 1;
    }
    r
}

/// Checks for the Sprout JoinSplits.
pub fn verify_sprout_shielded_data(tx: &Transaction) -> (r: AsyncChecks)
    ensures
        r@ == sprout_checks(*tx),
{
    let mut r = AsyncChecks::new();
    if tx.joinsplits.len() == 0 {
        return r;
    }
    let mut i: usize = 0;
    while i < tx.joinsplits.len()
        invariant
            i <= tx.joinsplits@.len(),
            r@ =~= Seq::new(i as nat, |k: int| CheckItem::JoinSplitProof { index: k as u64 }),
        decreases tx.joinsplits@.len() - i,
    {
        r.push(CheckItem::JoinSplitProof { index: i as u64 });
        i = i + 1;
    }
    r.push(CheckItem::JoinSplitSignature);
    r
}

/// Checks for the Sapling spends and outputs.
pub fn verify_sapling_shielded_data(tx: &Transaction) -> (r: AsyncChecks)
    ensures
        r@ == sapling_checks(*tx),
{
    let mut r = AsyncChecks::new();
    let ns = tx.sapling_spends.len();
    let no = tx.sapling_outputs.len();
    if ns == 0 && no == 0 {
        return r;
    }
    let mut i: usize = 0;
    while i < ns
        invariant
            ns == tx.sapling_spends@.len(),
            i <= ns,
            r@ =~= Seq::new(
                2 * i as nat,
                |k: int|
                    if k % 2 == 0 {
                        CheckItem::SaplingSpendProof { index: (k / 2) as u64 }
                    } else {
                        CheckItem::SaplingSpendAuth { index: (k / 2) as u64 }
                    },
            ),
        decreases ns - i,
    {
        r.push(CheckItem::SaplingSpendProof { index: i as u64 });
        r.push(CheckItem::SaplingSpendAuth { index: i as u64 });
        i = i + 1;
    }
    let ghost spends = r@;
    let mut j: usize = 0;
    while j < no
        invariant
            no == tx.sapling_outputs@.len(),
            j <= no,
            r@ =~= spends + Seq::new(j as nat, |k: int| CheckItem::SaplingOutputProof { index: k as u64 }),
        decreases no - j,
    {
        r.push(CheckItem::SaplingOutputProof { index: j as u64 });
        j = j + 1;
    }
    r.push(CheckItem::SaplingBindingSignature);
    r
}

/// Checks for the Orchard bundle.
pub fn verify_orchard_shielded_data(tx: &Transaction) -> (r: AsyncChecks)
    ensures
        r@ == orchard_checks(*tx),
{
    let mut r = AsyncChecks::new();
    match &tx.orchard {
        None => r,
        Some(o) => {
            r.push(CheckItem::OrchardProof);
            let na = o.actions.len();
            let mut i: usize = 0;
            while i < na
                invariant
                    na == o.actions@.len(),
                    i <= na,
                    r@ =~= seq![CheckItem::OrchardProof] + Seq::new(
                        i as nat,
                        |k: int| CheckItem::OrchardSpendAuth { index: k as u64 },
                    ),
                decreases na - i,
            {
                r.push(CheckItem::OrchardSpendAuth { index: i as u64 });
                i = i + 1;
            }
            r.push(CheckItem::OrchardBindingSignature);
            r
        },
    }
}

/// The checks a transaction needs under `upgrade`, or why its version is not
/// allowed there: V1 to V3 never; V4 from Sapling on; V5 under NU5 only.
pub open spec fn required_checks(tx: Transaction, upgrade: NetworkUpgrade) -> Result<
    Seq<CheckItem>,
    TransactionError,
> {
    match tx.version {
        TxVersion::V4 => if upgrade_index(upgrade) < upgrade_index(NetworkUpgrade::Sapling) {
            Err(TransactionError::UnsupportedByNetworkUpgrade(TxVersion::V4, upgrade))
        } else {
            Ok(script_checks(tx, upgrade) + sprout_checks(tx) + sapling_checks(tx))
        },
        TxVersion::V5 => if upgrade != NetworkUpgrade::Nu5 {
            Err(TransactionError::UnsupportedByNetworkUpgrade(TxVersion::V5, upgrade))
        } else {
            Ok(script_checks(tx, upgrade) + sapling_checks(tx) + orchard_checks(tx))
        },
        _ => Err(TransactionError::WrongVersion),
    }
}

/// Whether a V4 transaction is allowed under `upgrade`: from Sapling on.
/// The error carries the transaction's own version.
pub fn verify_v4_transaction_network_upgrade(tx: &Transaction, upgrade: NetworkUpgrade) -> (r:
    Result<(), TransactionError>)
    ensures
        r == if upgrade_index(upgrade) < upgrade_index(NetworkUpgrade::Sapling) {
            Err(TransactionError::UnsupportedByNetworkUpgrade(tx.version, upgrade))
        } else {
            Ok(())
        },
{
    if upgrade.index() < 3 {
        Err(TransactionError::UnsupportedByNetworkUpgrade(tx.version, upgrade))
    } else {
        Ok(())
    }
}

/// Whether a V5 transaction is allowed under `upgrade`: only under NU5.
/// The error carries the transaction's own version.
pub fn verify_v5_transaction_network_upgrade(tx: &Transaction, upgrade: NetworkUpgrade) -> (r:
    Result<(), TransactionError>)
    ensures
        r == if upgrade != NetworkUpgrade::Nu5 {
            Err(TransactionError::UnsupportedByNetworkUpgrade(tx.version, upgrade))
        } else {
            Ok(())
        },
{
    match upgrade {
        NetworkUpgrade::Nu5 => Ok(()),
        _ => Err(TransactionError::UnsupportedByNetworkUpgrade(tx.version, upgrade)),
    }
}

/// Checks of a V4 transaction: scripts, Sprout, Sapling.
pub fn verify_v4_transaction(tx: &Transaction, upgrade: NetworkUpgrade) -> (r: Result<
    AsyncChecks,
    TransactionError,
>)
    requires
        tx.version is V4,
    ensures
        r is Ok <==> required_checks(*tx, upgrade) is Ok,
        r is Ok ==> r->Ok_0@ == required_checks(*tx, upgrade)->Ok_0,
        r is Err ==> r->Err_0 == required_checks(*tx, upgrade)->Err_0,
{
    match verify_v4_transaction_network_upgrade(tx, upgrade) {
        Err(e) => Err(e),
        Ok(()) => Ok(
            verify_transparent_inputs_and_outputs(tx, upgrade).and(verify_sprout_shielded_data(tx)).and(
                verify_sapling_shielded_data(tx),
            ),
        ),
    }
}

/// Checks of a V5 transaction: scripts, Sapling, Orchard.
pub fn verify_v5_transaction(tx: &Transaction, upgrade: NetworkUpgrade) -> (r: Result<
    AsyncChecks,
    TransactionError,
>)
    requires
        tx.version is V5,
    ensures
        r is Ok <==> required_checks(*tx, upgrade) is Ok,
        r is Ok ==> r->Ok_0@ == required_checks(*tx, upgrade)->Ok_0,
        r is Err ==> r->Err_0 == required_checks(*tx, upgrade)->Err_0,
{
    match verify_v5_transaction_network_upgrade(tx, upgrade) {
        Err(e) => Err(e),
        Ok(()) => Ok(
            verify_transparent_inputs_and_outputs(tx, upgrade).and(verify_sapling_shielded_data(tx)).and(
                verify_orchard_shielded_data(tx),
            ),
        ),
    }
}

/// The checks a transaction needs under `upgrade`, by version.
pub fn checks_for_version(tx: &Transaction, upgrade: NetworkUpgrade) -> (r: Result<
    AsyncChecks,
    TransactionError,
>)
    ensures
        r is Ok <==> required_checks(*tx, upgrade) is Ok,
        r is Ok ==> r->Ok_0@ == required_checks(*tx, upgrade)->Ok_0,
        r is Err ==> r->Err_0 == required_checks(*tx, upgrade)->Err_0,
{
    match tx.version {
        TxVersion::V4 => verify_v4_transaction(tx, upgrade),
        TxVersion::V5 => verify_v5_transaction(tx, upgrade),
        _ => Err(TransactionError::WrongVersion),
    }
}

/// Transactions of versions 1 to 3 are refused as `WrongVersion`, whatever
/// the upgrade in force.
pub proof fn lemma_old_versions_refused(tx: Transaction, upgrade: NetworkUpgrade)
    requires
        tx.version is V1 || tx.version is V2 || tx.version is V3,
    ensures
        required_checks(tx, upgrade) == Err::<Seq<CheckItem>, TransactionError>(
            TransactionError::WrongVersion,
        ),
{
}

// ---------------------------------------------------------------------------
// Synchronous checks of a request

/// Outcome of the synchronous checks in their order, leaving out internal
/// spend conflicts: finality (blocks only), inputs and outputs, Orchard
/// flags, no coinbase in the mempool, coinbase spends or all-`PrevOut`
/// inputs, expiry heights, JoinSplit public values, the Sprout pool.
pub open spec fn precheck_result(network: Network, req: Request) -> Result<(), TransactionError> {
    let tx = req_tx(req);
    let h = req_height(req);
    let cb = is_coinbase_spec(tx);
    let fin = match req {
        Request::Block { time, .. } => is_final_komodo_result(tx, h, time),
        Request::Mempool { .. } => Ok(()),
    };
    if fin is Err {
        fin
    } else if inputs_outputs_result(tx) is Err {
        inputs_outputs_result(tx)
    } else if orchard_flags_result(tx) is Err {
        orchard_flags_result(tx)
    } else if req is Mempool && cb {
        Err(TransactionError::CoinbaseInMempool)
    } else if cb && coinbase_spends_result(tx) is Err {
        coinbase_spends_result(tx)
    } else if !cb && !all_prevout(tx) {
        Err(TransactionError::NonCoinbaseHasCoinbaseInput)
    } else if cb && coinbase_expiry_result(h, tx, network) is Err {
        coinbase_expiry_result(h, tx, network)
    } else if !cb && non_coinbase_expiry_result(h, tx) is Err {
        non_coinbase_expiry_result(h, tx)
    } else if vpub_zero_result(tx) is Err {
        vpub_zero_result(tx)
    } else if sprout_pool_result(tx, h, network) is Err {
        sprout_pool_result(tx, h, network)
    } else {
        Ok(())
    }
}

/// Runs the synchronous checks in order and stops at the first failure;
/// internal spend conflicts come last.
pub fn precheck(network: Network, req: &Request) -> (r: Result<(), TransactionError>)
    ensures
        precheck_result(network, *req) is Err ==> r == precheck_result(network, *req),
        precheck_result(network, *req) is Ok ==> (r is Ok <==> no_spend_conflicts(req_tx(*req))),
        precheck_result(network, *req) is Ok && r is Err ==> is_conflict_error(
            req_tx(*req),
            r->Err_0,
        ),
{
    let tx = req.transaction();
    let h = req.height();
    match req {
        Request::Block { time, .. } => {
            let f = is_final_tx_komodo(network, tx, h, *time);
            if f.is_err() {
                return f;
            }
        },
        Request::Mempool { .. } => {},
    }
    let r = has_inputs_and_outputs(tx);
    if r.is_err() {
        return r;
    }
    let r = has_enough_orchard_flags(tx);
    if r.is_err() {
        return r;
    }
    let cb = tx.is_coinbase();
    if req.is_mempool() && cb {
        return Err(TransactionError::CoinbaseInMempool);
    }
    if cb {
        let r = coinbase_tx_no_prevout_joinsplit_spend(tx);
        if r.is_err() {
            return r;
        }
    } else if !tx.is_valid_non_coinbase() {
        return Err(TransactionError::NonCoinbaseHasCoinbaseInput);
    }
    if cb {
        let r = coinbase_expiry_height(h, tx, network);
        if r.is_err() {
            return r;
        }
    } else {
        let r = non_coinbase_expiry_height(h, tx);
        if r.is_err() {
            return r;
        }
    }
    let r = joinsplit_has_vpub_zero(tx);
    if r.is_err() {
        return r;
    }
    let r = disabled_add_to_sprout_pool(tx, h, network);
    if r.is_err() {
        return r;
    }
    spend_conflicts(tx)
}

} // verus!
