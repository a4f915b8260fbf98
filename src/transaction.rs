//! The transaction data the consensus checks read.
use vstd::prelude::*;

verus! {

/// Lock times below this value are block heights; the others are Unix times.
pub const LOCKTIME_THRESHOLD: u32 = 500000000;

/// Sequence number of an input that waives the lock time.
pub const SEQUENCE_FINAL: u32 = 0xffffffff;

/// A 256-bit value (transaction hash, nullifier), as four 64-bit words.
#[derive(Clone, Copy, Debug, PartialEq, Eq, Hash, Structural)]
pub struct Hash256 {
    pub w0: u64,
    pub w1: u64,
    pub w2: u64,
    pub w3: u64,
}

/// A reference to an output of an earlier transaction.
#[derive(Clone, Copy, Debug, PartialEq, Eq, Hash, Structural)]
pub struct OutPoint {
    pub hash: Hash256,
    pub index: u32,
}

/// A transparent input.
#[derive(Clone, Copy, Debug, PartialEq, Eq, Structural)]
pub enum Input {
    /// The input of a coinbase transaction, which mints new coins.
    Coinbase { sequence: u32 },
    /// An input that spends an earlier output.
    PrevOut { outpoint: OutPoint, sequence: u32 },
}

/// A transparent output.
#[derive(Clone, Copy, Debug, PartialEq, Eq, Structural)]
pub struct Output {
    /// Value in zatoshis.
    pub value: u64,
}

/// A Sprout JoinSplit description: its two nullifiers and public values.
#[derive(Clone, Copy, Debug, PartialEq, Eq, Structural)]
pub struct JoinSplit {
    pub vpub_old: u64,
    pub vpub_new: u64,
    pub nullifier0: Hash256,
    pub nullifier1: Hash256,
}

/// A Sapling spend description.
#[derive(Clone, Copy, Debug, PartialEq, Eq, Structural)]
pub struct SaplingSpend {
    pub nullifier: Hash256,
}

/// A Sapling output description.
#[derive(Clone, Copy, Debug, PartialEq, Eq, Structural)]
pub struct SaplingOutput {
    pub note_commitment: Hash256,
}

/// An Orchard action.
#[derive(Clone, Copy, Debug, PartialEq, Eq, Structural)]
pub struct OrchardAction {
    pub nullifier: Hash256,
}

/// An Orchard bundle: its actions and flags.
#[derive(Clone, Debug)]
pub struct OrchardData {
    pub actions: Vec<OrchardAction>,
    pub enable_spends: bool,
    pub enable_outputs: bool,
    /// Net value leaving the Orchard pool, in zatoshis.
    pub value_balance: i64,
}

/// Transaction format version.
#[derive(Clone, Copy, Debug, PartialEq, Eq, Structural)]
pub enum TxVersion {
    V1,
    V2,
    V3,
    V4,
    V5,
}

/// A transaction, as far as consensus checks read it.
#[derive(Clone, Debug)]
pub struct Transaction {
    pub version: TxVersion,
    /// The transaction id.
    pub hash: Hash256,
    pub inputs: Vec<Input>,
    pub outputs: Vec<Output>,
    /// Raw lock time: a height below `LOCKTIME_THRESHOLD`, else a Unix time.
    pub lock_time: u32,
    /// Raw expiry height; zero means none.
    pub expiry_height: u32,
    pub joinsplits: Vec<JoinSplit>,
    pub sapling_spends: Vec<SaplingSpend>,
    pub sapling_outputs: Vec<SaplingOutput>,
    /// Net value leaving the Sapling pool, in zatoshis.
    pub sapling_value_balance: i64,
    pub orchard: Option<OrchardData>,
    /// Serialized size in bytes.
    pub size: u64,
}

pub open spec fn input_sequence(i: Input) -> u32 {
    match i {
        Input::Coinbase { sequence } => sequence,
        Input::PrevOut { sequence, .. } => sequence,
    }
}

impl Input {
    /// The input's sequence number.
    pub fn sequence(&self) -> (r: u32)
        ensures
            r == input_sequence(*self),
    {
        match self {
            Input::Coinbase { sequence } => *sequence,
            Input::PrevOut { sequence, .. } => *sequence,
        }
    }
}

/// Number of Orchard actions.
pub open spec fn orchard_action_count(tx: Transaction) -> nat {
    match tx.orchard {
        Some(o) => o.actions@.len(),
        None => 0,
    }
}

/// The Orchard spends flag; unset without an Orchard bundle.
pub open spec fn orchard_spends_enabled(tx: Transaction) -> bool {
    match tx.orchard {
        Some(o) => o.enable_spends,
        None => false,
    }
}

/// The Orchard outputs flag; unset without an Orchard bundle.
pub open spec fn orchard_outputs_enabled(tx: Transaction) -> bool {
    match tx.orchard {
        Some(o) => o.enable_outputs,
        None => false,
    }
}

/// A coinbase transaction: its only input is a coinbase input.
pub open spec fn is_coinbase_spec(tx: Transaction) -> bool {
    tx.inputs@.len() == 1 && tx.inputs@[0] is Coinbase
}

/// Every input spends an earlier output.
pub open spec fn all_prevout(tx: Transaction) -> bool {
    forall|i: int| 0 <= i < tx.inputs@.len() ==> (#[trigger] tx.inputs@[i]) is PrevOut
}

pub open spec fn has_shielded_inputs_spec(tx: Transaction) -> bool {
    tx.joinsplits@.len() > 0 || tx.sapling_spends@.len() > 0 || (orchard_action_count(tx) > 0
        && orchard_spends_enabled(tx))
}

pub open spec fn has_shielded_outputs_spec(tx: Transaction) -> bool {
    tx.joinsplits@.len() > 0 || tx.sapling_outputs@.len() > 0 || (orchard_action_count(tx) > 0
        && orchard_outputs_enabled(tx))
}

/// The expiry height, for versions that have one and when it is nonzero.
pub open spec fn expiry_spec(tx: Transaction) -> Option<u32> {
    if (tx.version is V1 || tx.version is V2) || tx.expiry_height == 0 {
        None
    } else {
        Some(tx.expiry_height)
    }
}

/// Versions from Overwinter on.
pub open spec fn is_overwintered_spec(tx: Transaction) -> bool {
    !(tx.version is V1 || tx.version is V2)
}

/// Outpoints spent by the transaction, in input order.
pub open spec fn spent_outpoints_spec(inputs: Seq<Input>) -> Seq<OutPoint>
    decreases inputs.len(),
{
    if inputs.len() == 0 {
        Seq::empty()
    } else {
        let rest = spent_outpoints_spec(inputs.drop_last());
        match inputs.last() {
            Input::PrevOut { outpoint, .. } => rest.push(outpoint),
            Input::Coinbase { .. } => rest,
        }
    }
}

/// Sprout nullifiers, two per JoinSplit, in order.
pub open spec fn sprout_nullifiers_spec(js: Seq<JoinSplit>) -> Seq<Hash256> {
    Seq::new(
        2 * js.len(),
        |i: int|
            if i % 2 == 0 {
                js[i / 2].nullifier0
            } else {
                js[i / 2].nullifier1
            },
    )
}

pub open spec fn sapling_nullifiers_spec(s: Seq<SaplingSpend>) -> Seq<Hash256> {
    s.map_values(|x: SaplingSpend| x.nullifier)
}

pub open spec fn orchard_nullifiers_spec(tx: Transaction) -> Seq<Hash256> {
    match tx.orchard {
        Some(o) => o.actions@.map_values(|a: OrchardAction| a.nullifier),
        None => Seq::empty(),
    }
}

impl Transaction {
    /// Shielded data fits the version: JoinSplits only before V5, an Orchard
    /// bundle only in V5 and with at least one action, and a Sapling value
    /// balance only with Sapling spends or outputs.
    pub open spec fn wf(&self) -> bool {
        &&& self.version is V5 ==> self.joinsplits@.len() == 0
        &&& self.orchard is Some ==> self.version is V5 && orchard_action_count(*self) > 0
        &&& self.sapling_spends@.len() + self.sapling_outputs@.len() == 0 ==> self.sapling_value_balance
            == 0
    }

    /// Whether the shielded data fits the version; see `wf`.
    pub fn is_well_formed(&self) -> (r: bool)
        ensures
            r == self.wf(),
    {
        let is_v5 = match self.version {
            TxVersion::V5 => true,
            _ => false,
        };
        if is_v5 && self.joinsplits.len() > 0 {
            return false;
        }
        match &self.orchard {
            Some(o) => {
                if !is_v5 || o.actions.len() == 0 {
                    return false;
                }
            },
            None => {},
        }
        !(self.sapling_spends.len() == 0 && self.sapling_outputs.len() == 0
            && self.sapling_value_balance != 0)
    }

    /// Whether this is a coinbase transaction.
    pub fn is_coinbase(&self) -> (r: bool)
        ensures
            r == is_coinbase_spec(*self),
    {
        self.inputs.len() == 1 && match self.inputs[0] {
            Input::Coinbase { .. } => true,
            Input::PrevOut { .. } => false,
        }
    }

    /// Whether every input spends an earlier output (no coinbase input).
    pub fn is_valid_non_coinbase(&self) -> (r: bool)
        ensures
            r == all_prevout(*self),
    {
        let mut i: usize = 0;
        while i < self.inputs.len()
            invariant
                i <= self.inputs@.len(),
                forall|k: int| 0 <= k < i ==> (#[trigger] self.inputs@[k]) is PrevOut,
            decreases self.inputs@.len() - i,
        {
            match self.inputs[i] {
                Input::Coinbase { .. } => {
                    return false;
                },
                Input::PrevOut { .. } => {},
            }
            i = i + 1;
        }
        true
    }

    /// Number of Orchard actions.
    pub fn orchard_action_count(&self) -> (r: usize)
        ensures
            r as nat == orchard_action_count(*self),
    {
        match &self.orchard {
            Some(o) => o.actions.len(),
            None => 0,
        }
    }

    /// Whether the transaction has JoinSplits, Sapling spends or enabled Orchard spends.
    pub fn has_shielded_inputs(&self) -> (r: bool)
        ensures
            r == has_shielded_inputs_spec(*self),
    {
        self.joinsplits.len() > 0 || self.sapling_spends.len() > 0 || (self.orchard_action_count()
            > 0 && match &self.orchard {
            Some(o) => o.enable_spends,
            None => false,
        })
    }

    /// Whether the transaction has JoinSplits, Sapling outputs or enabled Orchard outputs.
    pub fn has_shielded_outputs(&self) -> (r: bool)
        ensures
            r == has_shielded_outputs_spec(*self),
    {
        self.joinsplits.len() > 0 || self.sapling_outputs.len() > 0 || (self.orchard_action_count()
            > 0 && match &self.orchard {
            Some(o) => o.enable_outputs,
            None => false,
        })
    }

    /// The expiry height, if the version has one and it is nonzero.
    pub fn expiry(&self) -> (r: Option<u32>)
        ensures
            r == expiry_spec(*self),
    {
        match self.version {
            TxVersion::V1 | TxVersion::V2 => None,
            _ => if self.expiry_height == 0 {
                None
            } else {
                Some(self.expiry_height)
            },
        }
    }

    /// Whether the version is from Overwinter on.
    pub fn is_overwintered(&self) -> (r: bool)
        ensures
            r == is_overwintered_spec(*self),
    {
        match self.version {
            TxVersion::V1 | TxVersion::V2 => false,
            _ => true,
        }
    }

    /// Outpoints spent by the transparent inputs, in input order.
    pub fn spent_outpoints(&self) -> (r: Vec<OutPoint>)
        ensures
            r@ == spent_outpoints_spec(self.inputs@),
    {
        let mut r: Vec<OutPoint> = Vec::new();
        let mut i: usize = 0;
        while i < self.inputs.len()
            invariant
                i <= self.inputs@.len(),
                r@ == spent_outpoints_spec(self.inputs@.take(i as int)),
            decreases self.inputs@.len() - i,
        {
            assert(self.inputs@.take(i as int + 1).drop_last() =~= self.inputs@.take(i as int));
            match self.inputs[i] {
                Input::PrevOut { outpoint, .. } => r.push(outpoint),
                Input::Coinbase { .. } => {},
            }
            i = i + 1;
        }
        assert(self.inputs@.take(i as int) =~= self.inputs@);
        r
    }

    /// Sprout nullifiers, two per JoinSplit, in order.
    pub fn sprout_nullifiers(&self) -> (r: Vec<Hash256>)
        ensures
            r@ == sprout_nullifiers_spec(self.joinsplits@),
    {
        let mut r: Vec<Hash256> = Vec::new();
        let mut i: usize = 0;
        while i < self.joinsplits.len()
            invariant
                i <= self.joinsplits@.len(),
                r@ =~= sprout_nullifiers_spec(self.joinsplits@.take(i as int)),
            decreases self.joinsplits@.len() - i,
        {
            r.push(self.joinsplits[i].nullifier0);
            r.push(self.joinsplits[i].nullifier1);
            i = i + 1;
            assert(r@ =~= sprout_nullifiers_spec(self.joinsplits@.take(i as int)));
        }
        assert(self.joinsplits@.take(i as int) =~= self.joinsplits@);
        r
    }

    /// Sapling nullifiers, in spend order.
    pub fn sapling_nullifiers(&self) -> (r: Vec<Hash256>)
        ensures
            r@ == sapling_nullifiers_spec(self.sapling_spends@),
    {
        let mut r: Vec<Hash256> = Vec::new();
        let mut i: usize = 0;
        while i < self.sapling_spends.len()
            invariant
                i <= self.sapling_spends@.len(),
                r@ =~= sapling_nullifiers_spec(self.sapling_spends@.take(i as int)),
            decreases self.sapling_spends@.len() - i,
        {
            r.push(self.sapling_spends[i].nullifier);
            i = i + 1;
            assert(r@ =~= sapling_nullifiers_spec(self.sapling_spends@.take(i as int)));
        }
        assert(self.sapling_spends@.take(i as int) =~= self.sapling_spends@);
        r
    }

    /// Orchard nullifiers, in action order.
    pub fn orchard_nullifiers(&self) -> (r: Vec<Hash256>)
        ensures
            r@ == orchard_nullifiers_spec(*self),
    {
        let mut r: Vec<Hash256> = Vec::new();
        match &self.orchard {
            Some(o) => {
                let mut i: usize = 0;
                while i < o.actions.len()
                    invariant
                        i <= o.actions@.len(),
                        r@ =~= o.actions@.take(i as int).map_values(|a: OrchardAction| a.nullifier),
                    decreases o.actions@.len() - i,
                {
                    r.push(o.actions[i].nullifier);
                    i = i + 1;
                    assert(r@ =~= o.actions@.take(i as int).map_values(|a: OrchardAction| a.nullifier));
                }
                assert(o.actions@.take(i as int) =~= o.actions@);
            },
            None => {
                assert(r@ =~= Seq::<Hash256>::empty());
            },
        }
        r
    }
}

} // verus!
