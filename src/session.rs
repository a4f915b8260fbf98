//! One transaction verification as a sequence of decisions: the caller
//! performs each action (a state query, the asynchronous checks) and hands
//! the answer back.
use vstd::prelude::*;

use crate::check::{is_conflict_error, no_spend_conflicts};
use crate::error::TransactionError;
use crate::fee::{
    is_absurd_fee, is_low_fee, komodo_miner_fee_valid_for_mempool, limiter_after, low_fee_denied, FeeRate,
    FeeRateLimiter, DEFAULT_MIN_RELAY_TX_FEE, MAX_MONEY,
};
use crate::interest::{
    gap_after_second_block_allowed, interest_spec, komodo_interest,
    komodo_is_gap_after_second_block_allowed, komodo_validate_interest_locktime,
    lock_time_too_early, MEDIAN_TIME_PAST_ALLOWANCE,
};
use crate::parameters::{is_current, lemma_current_unique, Network, NetworkUpgrade};
use crate::transaction::{
    is_coinbase_spec, spent_outpoints_spec, Hash256, Input, JoinSplit, OutPoint, Output, Transaction,
};
use crate::verify::{
    checks_for_version, precheck, precheck_result, req_height, req_known, req_tx,
    required_checks, AsyncChecks, KnownUtxo, Request, Response, Utxo, VerifiedUnminedTx,
};

verus! {

/// Which block's time to read from the state.
#[derive(Clone, Copy, Debug, PartialEq, Eq, Structural)]
pub enum BlockQuery {
    /// Wait for the block with this hash.
    AwaitBlock(Hash256),
    /// The block at this height of the best chain.
    Height(u32),
}

/// What the caller does next.
#[derive(Clone, Debug, PartialEq, Eq)]
pub enum Action {
    /// Read a median time past: of the tip, or of the given block once it is
    /// there; answer with `on_median_time_past`.
    MedianTimePast(Option<Hash256>),
    /// Read a block's time; answer with `on_block_time`.
    BlockTime(BlockQuery),
    /// Look up an output: unspent in the best chain for the mempool, else
    /// awaited; answer with `on_utxo`.
    Utxo { outpoint: OutPoint, mempool: bool },
    /// Run all these checks; answer with `on_checks`.
    RunChecks(AsyncChecks),
    /// All checks passed: call `settle`.
    Settle,
    /// The transaction is refused.
    Fail(TransactionError),
}

/// Where a verification stands.
#[derive(Clone, Copy, Debug, PartialEq, Eq, Structural)]
pub enum Phase {
    MedianTime,
    TipTime,
    Utxos,
    Checks,
    Settle,
    Done,
}

/// One verification in progress.
#[derive(Clone, Debug)]
pub struct Verification {
    pub network: Network,
    pub request: Request,
    pub phase: Phase,
    /// Time of the tip block, read for non-coinbase transactions.
    pub tip_time: Option<i64>,
    /// Outputs spent so far, in input order.
    pub spent: Vec<KnownUtxo>,
    /// Index of the input being resolved.
    pub next_input: usize,
}

/// The phase a verification is left in after returning `a`: the one that
/// takes the answer to `a`.
pub open spec fn phase_matches(a: Action, p: Phase) -> bool {
    match a {
        Action::MedianTimePast(_) => p is MedianTime,
        Action::BlockTime(_) => p is TipTime,
        Action::Utxo { .. } => p is Utxos,
        Action::RunChecks(_) => p is Checks,
        Action::Settle => p is Settle,
        Action::Fail(_) => p is Done,
    }
}

/// The first known output for `op`, in order.
pub open spec fn lookup_known(known: Seq<KnownUtxo>, op: OutPoint) -> Option<Utxo>
    decreases known.len(),
{
    if known.len() == 0 {
        None
    } else if known[0].outpoint == op {
        Some(known[0].utxo)
    } else {
        lookup_known(known.subrange(1, known.len() as int), op)
    }
}

/// The first input from `from` on that spends an outpoint not known in advance.
pub open spec fn next_unknown(inputs: Seq<Input>, known: Seq<KnownUtxo>, from: int) -> Option<int>
    decreases inputs.len() - from,
{
    if from < 0 || from >= inputs.len() {
        None
    } else {
        match inputs[from] {
            Input::PrevOut { outpoint, .. } => if lookup_known(known, outpoint) is None {
                Some(from)
            } else {
                next_unknown(inputs, known, from + 1)
            },
            Input::Coinbase { .. } => next_unknown(inputs, known, from + 1),
        }
    }
}

/// An input found by `next_unknown` lies at or after `from`, spends an
/// outpoint, and that outpoint is not known in advance.
proof fn lemma_next_unknown_found(inputs: Seq<Input>, known: Seq<KnownUtxo>, from: int)
    requires
        next_unknown(inputs, known, from) is Some,
    ensures
        from <= next_unknown(inputs, known, from)->0 < inputs.len(),
        inputs[next_unknown(inputs, known, from)->0] is PrevOut,
        lookup_known(
            known,
            inputs[next_unknown(inputs, known, from)->0]->PrevOut_outpoint,
        ) is None,
    decreases inputs.len() - from,
{
    if 0 <= from < inputs.len() {
        match inputs[from] {
            Input::PrevOut { outpoint, .. } => {
                if lookup_known(known, outpoint) is Some {
                    lemma_next_unknown_found(inputs, known, from + 1);
                }
            },
            Input::Coinbase { .. } => {
                lemma_next_unknown_found(inputs, known, from + 1);
            },
        }
    }
}

/// The first known output for `op`.
pub fn find_known(known: &[KnownUtxo], op: OutPoint) -> (r: Option<Utxo>)
    ensures
        r == lookup_known(known@, op),
{
    let mut i: usize = 0;
    assert(known@.subrange(0, known@.len() as int) =~= known@);
    while i < known.len()
        invariant
            i <= known@.len(),
            lookup_known(known@, op) == lookup_known(known@.subrange(i as int, known@.len() as int), op),
        decreases known@.len() - i,
    {
        let k = known[i];
        assert(known@.subrange(i as int, known@.len() as int)[0] == k);
        if k.outpoint == op {
            return Some(k.utxo);
        }
        assert(known@.subrange(i as int, known@.len() as int).subrange(1, known@.len() - i) =~= known@.subrange(i as int + 1, known@.len() as int));
        i = i + 1;
    }
    assert(known@.subrange(i as int, known@.len() as int).len() == 0);
    None
}

/// The query for the tip block's time: the previous block for a block
/// request, the block below the next height for the mempool.
pub open spec fn tip_query(req: Request) -> BlockQuery {
    match req {
        Request::Block { previous_hash, .. } => BlockQuery::AwaitBlock(previous_hash),
        Request::Mempool { height, .. } => BlockQuery::Height(
            if height == 0 {
                0
            } else {
                (height - 1) as u32
            },
        ),
    }
}

fn tip_block_query(req: &Request) -> (r: BlockQuery)
    ensures
        r == tip_query(*req),
{
    match req {
        Request::Block { previous_hash, .. } => BlockQuery::AwaitBlock(*previous_hash),
        Request::Mempool { height, .. } => BlockQuery::Height(
            if *height == 0 {
                0
            } else {
                *height - 1
            },
        ),
    }
}

/// What follows once every input from `from` on is resolved or needs a
/// lookup: the lookup of the first unknown outpoint, or else the checks for
/// the version under the upgrade in force (or why the version is refused).
pub open spec fn resolves_to(network: Network, req: Request, from: int, a: Action) -> bool {
    let tx = req_tx(req);
    match next_unknown(tx.inputs@, req_known(req), from) {
        Some(i) => a is Utxo && a->outpoint == tx.inputs@[i]->PrevOut_outpoint && a->mempool == (
        req is Mempool),
        None => {
            let u = choose|u: NetworkUpgrade| is_current(network, req_height(req), u);
            match required_checks(tx, u) {
                Ok(c) => a is RunChecks && a->RunChecks_0@ == c,
                Err(e) => a == Action::Fail(e),
            }
        },
    }
}

/// What follows the interest lock-time rule: the tip time for a
/// non-coinbase transaction, else input resolution.
pub open spec fn after_interest(network: Network, req: Request, a: Action) -> bool {
    if !is_coinbase_spec(req_tx(req)) {
        a == Action::BlockTime(tip_query(req))
    } else {
        resolves_to(network, req, 0, a)
    }
}

/// The interest lock-time rule against `cmp_time`, then what follows it.
pub open spec fn interest_then(network: Network, req: Request, cmp_time: int, a: Action) -> bool {
    let tx = req_tx(req);
    if lock_time_too_early(tx, req_height(req), cmp_time) {
        a == Action::Fail(TransactionError::KomodoTxLockTimeTooEarly(tx.lock_time as i64, req_height(req)))
    } else {
        after_interest(network, req, a)
    }
}

impl Verification {
    /// The spent outputs so far match the inputs before `next_input`, and
    /// outputs known in advance were taken from the request.
    pub open spec fn spent_ok(&self) -> bool {
        let inputs = req_tx(self.request).inputs@;
        let ops = spent_outpoints_spec(inputs.take(self.next_input as int));
        &&& self.next_input <= inputs.len()
        &&& self.spent@.len() == ops.len()
        &&& forall|k: int| 0 <= k < ops.len() ==> (#[trigger] self.spent@[k]).outpoint == ops[k]
        &&& forall|k: int|
            0 <= k < ops.len() && lookup_known(req_known(self.request), ops[k]) is Some ==> (
            #[trigger] self.spent@[k]).utxo == lookup_known(req_known(self.request), ops[k])->0
    }

    /// Passed the synchronous checks, with the spent outputs in order.
    pub open spec fn live(&self) -> bool {
        &&& req_tx(self.request).wf()
        &&& precheck_result(self.network, self.request) is Ok
        &&& no_spend_conflicts(req_tx(self.request))
        &&& self.spent_ok()
    }

    /// A live verification has passed the synchronous checks; once the tip
    /// time is due it is known for non-coinbase transactions; checks and
    /// settlement come after every input is resolved.
    pub open spec fn wf(&self) -> bool {
        let tx = req_tx(self.request);
        self.phase is Done || {
            &&& self.live()
            &&& (self.phase is MedianTime || self.phase is TipTime) ==> self.next_input == 0
                && self.spent@.len() == 0
            &&& (self.phase is Utxos || self.phase is Checks || self.phase is Settle) ==> (
            !is_coinbase_spec(tx) ==> self.tip_time is Some)
            &&& (self.phase is Checks || self.phase is Settle) ==> self.next_input
                == tx.inputs@.len()
            &&& self.phase is Utxos ==> next_unknown(
                tx.inputs@,
                req_known(self.request),
                self.next_input as int,
            ) == Some(self.next_input as int)
        }
    }

    /// What follows once every input from `self.next_input` on is resolved
    /// or needs a lookup.
    pub open spec fn resolution_action(&self, a: Action) -> bool {
        resolves_to(self.network, self.request, self.next_input as int, a)
    }

    /// Resolves inputs from outputs known in advance until one needs a
    /// lookup, or all are resolved and the checks are due.
    fn advance(&mut self) -> (a: Action)
        requires
            old(self).live(),
            !is_coinbase_spec(req_tx(old(self).request)) ==> old(self).tip_time is Some,
        ensures
            phase_matches(a, final(self).phase),
            final(self).wf(),
            final(self).request == old(self).request,
            final(self).network == old(self).network,
            final(self).tip_time == old(self).tip_time,
            old(self).spent@.len() <= final(self).spent@.len(),
            final(self).spent@.take(old(self).spent@.len() as int) == old(self).spent@,
            old(self).resolution_action(a),
            a is Utxo ==> final(self).phase is Utxos,
            a is RunChecks ==> final(self).phase is Checks,
            a is Fail ==> final(self).phase is Done,
    {
        assert(precheck_result(self.network, self.request) is Ok);
        let n = self.request.transaction().inputs.len();
        let ghost start = self.next_input as int;
        while self.next_input < n
            invariant
                n == req_tx(self.request).inputs@.len(),
                start <= self.next_input <= n,
                next_unknown(req_tx(self.request).inputs@, req_known(self.request), start)
                    == next_unknown(
                    req_tx(self.request).inputs@,
                    req_known(self.request),
                    self.next_input as int,
                ),
                self.spent_ok(),
                !is_coinbase_spec(req_tx(self.request)) ==> self.tip_time is Some,
                start == old(self).next_input,
                old(self).spent@.len() <= self.spent@.len(),
                self.spent@.take(old(self).spent@.len() as int) =~= old(self).spent@,
                precheck_result(self.network, self.request) is Ok,
                no_spend_conflicts(req_tx(self.request)),
                req_tx(self.request).wf(),
                self.request == old(self).request,
                self.network == old(self).network,
                self.tip_time == old(self).tip_time,
                self.phase == old(self).phase,
            decreases n - self.next_input,
        {
            let i = self.next_input;
            let ghost inputs = req_tx(self.request).inputs@;
            assert(inputs.take(i as int + 1).drop_last() =~= inputs.take(i as int));
            let inp = self.request.transaction().inputs[i];
            assert(inp == inputs[i as int]);
            match inp {
                Input::Coinbase { .. } => {
                    self.next_input = i + 1;
                },
                Input::PrevOut { outpoint, .. } => {
                    match find_known(self.request.known_utxos(), outpoint) {
                        Some(u) => {
                            self.spent.push(KnownUtxo { outpoint, utxo: u });
                            self.next_input = i + 1;
                        },
                        None => {
                            assert(lookup_known(req_known(self.request), outpoint) is None);
                            assert(next_unknown(inputs, req_known(self.request), i as int) == Some(
                                i as int,
                            ));
                            self.phase = Phase::Utxos;
                            return Action::Utxo { outpoint, mempool: self.request.is_mempool() };
                        },
                    }
                },
            }
        }
        let upgrade = self.request.upgrade(self.network);
        proof {
            let u = choose|u: NetworkUpgrade| is_current(self.network, req_height(self.request), u);
            lemma_current_unique(self.network, req_height(self.request), u, upgrade);
        }
        match checks_for_version(self.request.transaction(), upgrade) {
            Ok(c) => {
                self.phase = Phase::Checks;
                Action::RunChecks(c)
            },
            Err(e) => {
                self.phase = Phase::Done;
                Action::Fail(e)
            },
        }
    }
}

impl Verification {
    /// Continues after the interest lock-time rule passed.
    fn continue_after_interest(&mut self) -> (a: Action)
        requires
            old(self).wf(),
            old(self).phase is MedianTime,
        ensures
            phase_matches(a, final(self).phase),
            final(self).wf(),
            final(self).request == old(self).request,
            final(self).network == old(self).network,
            after_interest(old(self).network, old(self).request, a),
            a is BlockTime ==> final(self).phase is TipTime,
    {
        if !self.request.transaction().is_coinbase() {
            self.phase = Phase::TipTime;
            Action::BlockTime(tip_block_query(&self.request))
        } else {
            self.advance()
        }
    }

    /// Applies the interest lock-time rule against `cmp_time`.
    fn check_interest(&mut self, cmp_time: i128) -> (a: Action)
        requires
            old(self).wf(),
            old(self).phase is MedianTime,
            -0x1_0000_0000_0000_0000 <= cmp_time <= 0x1_0000_0000_0000_0000,
        ensures
            phase_matches(a, final(self).phase),
            final(self).wf(),
            final(self).request == old(self).request,
            final(self).network == old(self).network,
            interest_then(old(self).network, old(self).request, cmp_time as int, a),
    {
        let h = self.request.height();
        match komodo_validate_interest_locktime(self.network, self.request.transaction(), h, cmp_time) {
            Err(e) => {
                self.phase = Phase::Done;
                Action::Fail(e)
            },
            Ok(()) => self.continue_after_interest(),
        }
    }

    /// Starts verifying `request`: the synchronous checks, then the median
    /// time past when the interest rule needs it, else the interest rule
    /// against the block time and what follows.
    pub fn start(network: Network, request: Request) -> (r: (Verification, Action))
        requires
            req_tx(request).wf(),
        ensures
            phase_matches(r.1, r.0.phase),
            r.0.wf(),
            r.0.network == network,
            r.0.request == request,
            precheck_result(network, request) is Err ==> r.1 == Action::Fail(
                precheck_result(network, request)->Err_0,
            ),
            precheck_result(network, request) is Ok && !no_spend_conflicts(req_tx(request))
                ==> r.1 is Fail && is_conflict_error(req_tx(request), r.1->Fail_0),
            precheck_result(network, request) is Ok && no_spend_conflicts(req_tx(request)) ==> (
            match request {
                Request::Mempool { .. } => r.1 == Action::MedianTimePast(None) && r.0.phase is MedianTime,
                Request::Block { height, time, previous_hash, .. } => if gap_after_second_block_allowed(
                    height,
                ) {
                    r.1 == Action::MedianTimePast(Some(previous_hash)) && r.0.phase is MedianTime
                } else {
                    interest_then(network, request, time as int, r.1)
                },
            }),
    {
        let pre = precheck(network, &request);
        let mut v = Verification {
            network,
            request,
            phase: Phase::Done,
            tip_time: None,
            spent: Vec::new(),
            next_input: 0,
        };
        match pre {
            Err(e) => {
                return (v, Action::Fail(e));
            },
            Ok(()) => {},
        }
        v.phase = Phase::MedianTime;
        assert(req_tx(v.request).inputs@.take(0) =~= Seq::<Input>::empty());
        match &v.request {
            Request::Mempool { .. } => (v, Action::MedianTimePast(None)),
            Request::Block { height, time, previous_hash, .. } => {
                if komodo_is_gap_after_second_block_allowed(network, *height) {
                    let hash = *previous_hash;
                    (v, Action::MedianTimePast(Some(hash)))
                } else {
                    let t = *time as i128;
                    let a = v.check_interest(t);
                    (v, a)
                }
            },
        }
    }

    /// Takes the median time past: without one the transaction is refused;
    /// with one the interest rule runs against it plus
    /// `MEDIAN_TIME_PAST_ALLOWANCE`.
    pub fn on_median_time_past(&mut self, median_time_past: Option<i64>) -> (a: Action)
        requires
            old(self).wf(),
            old(self).phase is MedianTime,
        ensures
            phase_matches(a, final(self).phase),
            final(self).wf(),
            final(self).request == old(self).request,
            final(self).network == old(self).network,
            median_time_past is None ==> a == Action::Fail(TransactionError::KomodoMedianTimePastError),
            median_time_past is Some ==> interest_then(
                old(self).network,
                old(self).request,
                median_time_past->0 + MEDIAN_TIME_PAST_ALLOWANCE,
                a,
            ),
    {
        match median_time_past {
            None => {
                self.phase = Phase::Done;
                Action::Fail(TransactionError::KomodoMedianTimePastError)
            },
            Some(t) => self.check_interest(t as i128 + MEDIAN_TIME_PAST_ALLOWANCE as i128),
        }
    }

    /// Takes the tip block's time: without one the transaction is refused;
    /// with one, input resolution starts.
    pub fn on_block_time(&mut self, block_time: Option<i64>) -> (a: Action)
        requires
            old(self).wf(),
            old(self).phase is TipTime,
        ensures
            phase_matches(a, final(self).phase),
            final(self).wf(),
            final(self).request == old(self).request,
            final(self).network == old(self).network,
            block_time is None ==> a == Action::Fail(TransactionError::KomodoTipTimeError),
            block_time is Some ==> final(self).tip_time == block_time && resolves_to(
                old(self).network,
                old(self).request,
                0,
                a,
            ),
    {
        match block_time {
            None => {
                self.phase = Phase::Done;
                Action::Fail(TransactionError::KomodoTipTimeError)
            },
            Some(t) => {
                self.tip_time = Some(t);
                self.advance()
            },
        }
    }

    /// Takes the looked-up output for the pending input: without one the
    /// transaction is refused; with one, resolution goes on after it.
    pub fn on_utxo(&mut self, utxo: Option<Utxo>) -> (a: Action)
        requires
            old(self).wf(),
            old(self).phase is Utxos,
        ensures
            phase_matches(a, final(self).phase),
            final(self).wf(),
            final(self).request == old(self).request,
            final(self).network == old(self).network,
            utxo is None ==> a == Action::Fail(TransactionError::TransparentInputNotFound),
            utxo is Some ==> final(self).spent@.take(old(self).spent@.len() + 1int) == old(self).spent@.push(
                KnownUtxo {
                    outpoint: req_tx(old(self).request).inputs@[old(
                        self,
                    ).next_input as int]->PrevOut_outpoint,
                    utxo: utxo->0,
                },
            ),
            utxo is Some ==> resolves_to(
                old(self).network,
                old(self).request,
                old(self).next_input + 1,
                a,
            ),
    {
        match utxo {
            None => {
                self.phase = Phase::Done;
                Action::Fail(TransactionError::TransparentInputNotFound)
            },
            Some(u) => {
                let i = self.next_input;
                let ghost inputs = req_tx(self.request).inputs@;
                proof {
                    lemma_next_unknown_found(inputs, req_known(self.request), i as int);
                }
                let n = self.request.transaction().inputs.len();
                assert(i < n);
                assert(inputs.take(i as int + 1).drop_last() =~= inputs.take(i as int));
                match self.request.transaction().inputs[i] {
                    Input::PrevOut { outpoint, .. } => {
                        self.spent.push(KnownUtxo { outpoint, utxo: u });
                    },
                    Input::Coinbase { .. } => {},
                }
                self.next_input = i + 1;
                self.advance()
            },
        }
    }

    /// Takes the outcome of the asynchronous checks.
    pub fn on_checks(&mut self, passed: bool) -> (a: Action)
        requires
            old(self).wf(),
            old(self).phase is Checks,
        ensures
            phase_matches(a, final(self).phase),
            final(self).wf(),
            final(self).request == old(self).request,
            final(self).network == old(self).network,
            final(self).spent == old(self).spent,
            final(self).tip_time == old(self).tip_time,
            !passed ==> a == Action::Fail(TransactionError::CheckFailed) && final(self).phase is Done,
            passed ==> a == Action::Settle && final(self).phase is Settle,
    {
        if passed {
            self.phase = Phase::Settle;
            Action::Settle
        } else {
            self.phase = Phase::Done;
            Action::Fail(TransactionError::CheckFailed)
        }
    }
}

// ---------------------------------------------------------------------------
// Value balance

/// Sum of amounts.
pub open spec fn amount_total(s: Seq<u64>) -> int
    decreases s.len(),
{
    if s.len() == 0 {
        0
    } else {
        amount_total(s.drop_last()) + s.last()
    }
}

proof fn lemma_amount_total_prefix(s: Seq<u64>, k: int)
    requires
        0 <= k <= s.len(),
    ensures
        amount_total(s.take(k)) <= amount_total(s),
    decreases s.len() - k,
{
    if k < s.len() {
        lemma_amount_total_prefix(s, k + 1);
        assert(s.take(k + 1).drop_last() =~= s.take(k));
    } else {
        assert(s.take(k) =~= s);
    }
}

/// The total of `v`, when it is a valid amount (at most `MAX_MONEY`).
fn checked_total(v: &Vec<u64>) -> (r: Option<u64>)
    ensures
        r is Some <==> amount_total(v@) <= MAX_MONEY,
        r is Some ==> r->0 as int == amount_total(v@),
{
    let mut t: u64 = 0;
    let mut i: usize = 0;
    while i < v.len()
        invariant
            i <= v@.len(),
            t as int == amount_total(v@.take(i as int)),
            t <= MAX_MONEY,
        decreases v@.len() - i,
    {
        assert(v@.take(i as int + 1).drop_last() =~= v@.take(i as int));
        if v[i] > MAX_MONEY - t {
            proof {
                lemma_amount_total_prefix(v@, i as int + 1);
            }
            return None;
        }
        t = t + v[i];
        i = i + 1;
    }
    assert(v@.take(i as int) =~= v@);
    Some(t)
}

pub open spec fn spent_values(s: Seq<KnownUtxo>) -> Seq<u64> {
    s.map_values(|k: KnownUtxo| k.utxo.output.value)
}

/// Interest of each spent output, given the tip time; none without one.
pub open spec fn spent_interests(s: Seq<KnownUtxo>, height: u32, tip: Option<i64>) -> Seq<u64> {
    match tip {
        Some(t) => s.map_values(
            |k: KnownUtxo| interest_spec(height, k.utxo.output.value, k.utxo.lock_time, t) as u64,
        ),
        None => Seq::empty(),
    }
}

pub open spec fn vpub_new_values(tx: Transaction) -> Seq<u64> {
    tx.joinsplits@.map_values(|j: JoinSplit| j.vpub_new)
}

pub open spec fn vpub_old_values(tx: Transaction) -> Seq<u64> {
    tx.joinsplits@.map_values(|j: JoinSplit| j.vpub_old)
}

pub open spec fn output_values(tx: Transaction) -> Seq<u64> {
    tx.outputs@.map_values(|o: Output| o.value)
}

pub open spec fn orchard_balance(tx: Transaction) -> int {
    match tx.orchard {
        Some(o) => o.value_balance as int,
        None => 0,
    }
}

/// Interest of the spent outputs of a verification.
pub open spec fn interest_of(v: Verification) -> int {
    amount_total(spent_interests(v.spent@, req_height(v.request), v.tip_time))
}

/// The fee: what the spent outputs, their interest and the shielded pools
/// bring in, less the transparent outputs; `None` when a total is not a
/// valid amount or the fee is negative or above `MAX_MONEY`.
pub open spec fn remaining_value(v: Verification) -> Option<int> {
    let tx = req_tx(v.request);
    let tin = amount_total(spent_values(v.spent@));
    let int_total = interest_of(v);
    let vnew = amount_total(vpub_new_values(tx));
    let vold = amount_total(vpub_old_values(tx));
    let out = amount_total(output_values(tx));
    if tin > MAX_MONEY || int_total > MAX_MONEY || vnew > MAX_MONEY || vold > MAX_MONEY || out
        > MAX_MONEY {
        None
    } else {
        let r = tin + int_total + vnew - vold + tx.sapling_value_balance + orchard_balance(tx) - out;
        if 0 <= r <= MAX_MONEY {
            Some(r)
        } else {
            None
        }
    }
}

impl Verification {
    fn spent_value_list(&self) -> (r: Vec<u64>)
        ensures
            r@ == spent_values(self.spent@),
    {
        let mut r: Vec<u64> = Vec::new();
        let mut i: usize = 0;
        while i < self.spent.len()
            invariant
                i <= self.spent@.len(),
                r@ =~= spent_values(self.spent@.take(i as int)),
            decreases self.spent@.len() - i,
        {
            r.push(self.spent[i].utxo.output.value);
            i = i + 1;
            assert(r@ =~= spent_values(self.spent@.take(i as int)));
        }
        assert(self.spent@.take(i as int) =~= self.spent@);
        r
    }

    fn interest_list(&self) -> (r: Vec<u64>)
        ensures
            r@ == spent_interests(self.spent@, req_height(self.request), self.tip_time),
    {
        let mut r: Vec<u64> = Vec::new();
        let h = self.request.height();
        match self.tip_time {
            None => r,
            Some(t) => {
                let mut i: usize = 0;
                while i < self.spent.len()
                    invariant
                        i <= self.spent@.len(),
                        h == req_height(self.request),
                        self.tip_time == Some(t),
                        r@ =~= spent_interests(self.spent@.take(i as int), h, Some(t)),
                    decreases self.spent@.len() - i,
                {
                    let k = self.spent[i];
                    r.push(komodo_interest(h, k.utxo.output.value, k.utxo.lock_time, t));
                    i = i + 1;
                    assert(r@ =~= spent_interests(self.spent@.take(i as int), h, Some(t)));
                }
                assert(self.spent@.take(i as int) =~= self.spent@);
                r
            },
        }
    }
}

fn vpub_lists(tx: &Transaction) -> (r: (Vec<u64>, Vec<u64>))
    ensures
        r.0@ == vpub_new_values(*tx),
        r.1@ == vpub_old_values(*tx),
{
    let mut a: Vec<u64> = Vec::new();
    let mut b: Vec<u64> = Vec::new();
    let mut i: usize = 0;
    while i < tx.joinsplits.len()
        invariant
            i <= tx.joinsplits@.len(),
            a@ =~= tx.joinsplits@.take(i as int).map_values(|j: JoinSplit| j.vpub_new),
            b@ =~= tx.joinsplits@.take(i as int).map_values(|j: JoinSplit| j.vpub_old),
        decreases tx.joinsplits@.len() - i,
    {
        a.push(tx.joinsplits[i].vpub_new);
        b.push(tx.joinsplits[i].vpub_old);
        i = i + 1;
        assert(a@ =~= tx.joinsplits@.take(i as int).map_values(|j: JoinSplit| j.vpub_new));
        assert(b@ =~= tx.joinsplits@.take(i as int).map_values(|j: JoinSplit| j.vpub_old));
    }
    assert(tx.joinsplits@.take(i as int) =~= tx.joinsplits@);
    (a, b)
}

fn output_list(tx: &Transaction) -> (r: Vec<u64>)
    ensures
        r@ == output_values(*tx),
{
    let mut r: Vec<u64> = Vec::new();
    let mut i: usize = 0;
    while i < tx.outputs.len()
        invariant
            i <= tx.outputs@.len(),
            r@ =~= tx.outputs@.take(i as int).map_values(|o: Output| o.value),
        decreases tx.outputs@.len() - i,
    {
        r.push(tx.outputs[i].value);
        i = i + 1;
        assert(r@ =~= tx.outputs@.take(i as int).map_values(|o: Output| o.value));
    }
    assert(tx.outputs@.take(i as int) =~= tx.outputs@);
    r
}

impl Verification {
    /// The fee and the interest, or `None` when the value balance is not valid.
    pub fn value_balance(&self) -> (r: Option<(u64, u64)>)
        ensures
            r is Some <==> remaining_value(*self) is Some,
            r is Some ==> ({
                let (fee, interest) = r->0;
                fee as int == remaining_value(*self)->0 && interest as int == interest_of(*self)
            }),
    {
        let tx = self.request.transaction();
        let tin = checked_total(&self.spent_value_list());
        let interest = checked_total(&self.interest_list());
        let (news, olds) = vpub_lists(tx);
        let vnew = checked_total(&news);
        let vold = checked_total(&olds);
        let out = checked_total(&output_list(tx));
        match (tin, interest, vnew, vold, out) {
            (Some(a), Some(i), Some(n), Some(o), Some(u)) => {
                let orchard: i128 = match &tx.orchard {
                    Some(ob) => ob.value_balance as i128,
                    None => 0,
                };
                let r: i128 = a as i128 + i as i128 + n as i128 - o as i128
                    + tx.sapling_value_balance as i128 + orchard - u as i128;
                if 0 <= r && r <= MAX_MONEY as i128 {
                    Some((r as u64, i))
                } else {
                    None
                }
            },
            _ => None,
        }
    }

    /// Finishes a verification whose checks all passed: a coinbase in a
    /// block has no fee; otherwise the value balance gives the fee
    /// (`IncorrectFee` when it is not valid), mempool transactions go through
    /// the fee rules, and the response carries fee and interest.
    pub fn settle(
        self,
        rate_limiter: &mut FeeRateLimiter,
        now: i64,
        min_relay_txfee: FeeRate,
        legacy_sigop_count: u64,
    ) -> (r: Result<Response, TransactionError>)
        requires
            self.wf(),
            self.phase is Settle,
            old(rate_limiter).wf(),
        ensures
            final(rate_limiter).wf(),
            ({
                let tx = req_tx(self.request);
                if is_coinbase_spec(tx) {
                    &&& r == Ok::<Response, TransactionError>(
                        Response::Block {
                            tx_id: tx.hash,
                            miner_fee: None,
                            legacy_sigop_count,
                            interest: Some(interest_of(self) as u64),
                        },
                    )
                    &&& *final(rate_limiter) == *old(rate_limiter)
                } else {
                    match remaining_value(self) {
                        None => r == Err::<Response, TransactionError>(TransactionError::IncorrectFee)
                            && *final(rate_limiter) == *old(rate_limiter),
                        Some(fee) => match self.request {
                            Request::Block { .. } => {
                                &&& r == Ok::<Response, TransactionError>(
                                    Response::Block {
                                        tx_id: tx.hash,
                                        miner_fee: Some(fee as u64),
                                        legacy_sigop_count,
                                        interest: Some(interest_of(self) as u64),
                                    },
                                )
                                &&& *final(rate_limiter) == *old(rate_limiter)
                            },
                            Request::Mempool { check_low_fee, reject_absurd_fee, .. } => {
                                &&& low_fee_denied(
                                    *old(rate_limiter),
                                    now,
                                    min_relay_txfee,
                                    tx,
                                    fee as i64,
                                    check_low_fee,
                                ) ==> r is Err && r->Err_0 is KomodoLowFeeLimit
                                    && r->Err_0->KomodoLowFeeLimit_0 == tx.hash
                                    && r->Err_0->KomodoLowFeeLimit_1@ == "low txfee limit reached"@
                                &&& !low_fee_denied(
                                    *old(rate_limiter),
                                    now,
                                    min_relay_txfee,
                                    tx,
                                    fee as i64,
                                    check_low_fee,
                                ) ==> r == if reject_absurd_fee && is_absurd_fee(
                                    min_relay_txfee,
                                    tx,
                                    fee as i64,
                                ) {
                                    Err(TransactionError::KomodoAbsurdFee(tx.hash, fee as i64))
                                } else {
                                    Ok(
                                        Response::Mempool {
                                            transaction: VerifiedUnminedTx {
                                                transaction: tx,
                                                miner_fee: fee as u64,
                                                interest: interest_of(self) as u64,
                                            },
                                        },
                                    )
                                }
                                &&& !(check_low_fee && is_low_fee(min_relay_txfee, tx, fee as i64))
                                    ==> *final(rate_limiter) == *old(rate_limiter)
                                &&& check_low_fee && is_low_fee(min_relay_txfee, tx, fee as i64)
                                    ==> *final(rate_limiter) == limiter_after(*old(rate_limiter), now)
                            },
                        },
                    }
                }
            }),
    {
        let cb = self.request.transaction().is_coinbase();
        let balance = self.value_balance();
        if cb {
            let interest = match balance {
                Some((_, i)) => i,
                None => 0,
            };
            proof {
                let inputs = req_tx(self.request).inputs@;
                assert(inputs.take(self.next_input as int) =~= inputs);
                assert(inputs.drop_last() =~= Seq::<Input>::empty());
                assert(spent_outpoints_spec(inputs.drop_last()).len() == 0);
                assert(inputs.last() is Coinbase);
                assert(spent_outpoints_spec(inputs).len() == 0);
                assert(self.spent@.len() == 0);
                assert(spent_interests(self.spent@, req_height(self.request), self.tip_time).len() == 0);
            }
            return Ok(
                Response::Block {
                    tx_id: self.request.tx_id(),
                    miner_fee: None,
                    legacy_sigop_count,
                    interest: Some(interest),
                },
            );
        }
        match balance {
            None => Err(TransactionError::IncorrectFee),
            Some((fee, interest)) => {
                match self.request {
                    Request::Block { transaction, .. } => Ok(
                        Response::Block {
                            tx_id: transaction.hash,
                            miner_fee: Some(fee),
                            legacy_sigop_count,
                            interest: Some(interest),
                        },
                    ),
                    Request::Mempool { transaction, check_low_fee, reject_absurd_fee, .. } => {
                        let checked = komodo_miner_fee_valid_for_mempool(
                            rate_limiter,
                            now,
                            min_relay_txfee,
                            &transaction,
                            fee as i64,
                            check_low_fee,
                            reject_absurd_fee,
                        );
                        match checked {
                            Err(e) => Err(e),
                            Ok(()) => Ok(
                                Response::Mempool {
                                    transaction: VerifiedUnminedTx {
                                        transaction,
                                        miner_fee: fee,
                                        interest,
                                    },
                                },
                            ),
                        }
                    },
                }
            },
        }
    }
}

/// Settings of the transaction verifier shared by its verifications.
#[derive(Clone, Copy, Debug, PartialEq, Eq, Structural)]
pub struct Verifier {
    pub network: Network,
    pub min_relay_txfee: FeeRate,
}

impl Verifier {
    /// A verifier for `network` with the default relay fee floor.
    pub fn new(network: Network) -> (r: Verifier)
        ensures
            r.network == network,
            r.min_relay_txfee.per_kb == DEFAULT_MIN_RELAY_TX_FEE,
    {
        Verifier { network, min_relay_txfee: FeeRate::new(DEFAULT_MIN_RELAY_TX_FEE) }
    }
}

/// Once its inputs are resolved, a transaction of version 1 to 3 is refused
/// as `WrongVersion`, whatever the upgrade in force.
pub proof fn lemma_old_versions_fail(network: Network, req: Request, from: int, a: Action)
    requires
        req_tx(req).version is V1 || req_tx(req).version is V2 || req_tx(req).version is V3,
        next_unknown(req_tx(req).inputs@, req_known(req), from) is None,
        resolves_to(network, req, from, a),
    ensures
        a == Action::Fail(TransactionError::WrongVersion),
{
}

} // verus!
