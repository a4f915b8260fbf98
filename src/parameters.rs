//! Networks, network upgrades, their activation heights and consensus branch ids.
use vstd::prelude::*;

verus! {

/// The largest block height.
pub const HEIGHT_MAX: u32 = 2147483647;

/// The largest expiry height a transaction may carry.
pub const MAX_EXPIRY_HEIGHT: u32 = 499999999;

/// Height at which Overwinter and Sapling activate on mainnet.
pub const MAINNET_SAPLING_HEIGHT: u32 = 1140409;

/// Height at which Overwinter and Sapling activate on testnet.
pub const TESTNET_SAPLING_HEIGHT: u32 = 280000;

/// A chain the node can follow.
#[derive(Clone, Copy, Debug, PartialEq, Eq, Structural)]
pub enum Network {
    Mainnet,
    Testnet,
}

/// A consensus rule epoch, in activation order.
#[derive(Clone, Copy, Debug, PartialEq, Eq, Hash, Structural)]
pub enum NetworkUpgrade {
    Genesis,
    BeforeOverwinter,
    Overwinter,
    Sapling,
    Blossom,
    Heartwood,
    Canopy,
    Nu5,
}

/// Position of an upgrade in activation order.
pub open spec fn upgrade_index(u: NetworkUpgrade) -> nat {
    match u {
        NetworkUpgrade::Genesis => 0,
        NetworkUpgrade::BeforeOverwinter => 1,
        NetworkUpgrade::Overwinter => 2,
        NetworkUpgrade::Sapling => 3,
        NetworkUpgrade::Blossom => 4,
        NetworkUpgrade::Heartwood => 5,
        NetworkUpgrade::Canopy => 6,
        NetworkUpgrade::Nu5 => 7,
    }
}

/// The upgrade at a position in activation order.
pub open spec fn upgrade_at(i: nat) -> NetworkUpgrade {
    if i == 0 {
        NetworkUpgrade::Genesis
    } else if i == 1 {
        NetworkUpgrade::BeforeOverwinter
    } else if i == 2 {
        NetworkUpgrade::Overwinter
    } else if i == 3 {
        NetworkUpgrade::Sapling
    } else if i == 4 {
        NetworkUpgrade::Blossom
    } else if i == 5 {
        NetworkUpgrade::Heartwood
    } else if i == 6 {
        NetworkUpgrade::Canopy
    } else {
        NetworkUpgrade::Nu5
    }
}

/// The height at which an upgrade activates on a network; `None` for an
/// upgrade that never activates there.
pub open spec fn activation(n: Network, u: NetworkUpgrade) -> Option<u32> {
    match u {
        NetworkUpgrade::Genesis => Some(0),
        NetworkUpgrade::BeforeOverwinter => Some(1),
        NetworkUpgrade::Overwinter | NetworkUpgrade::Sapling => match n {
            Network::Mainnet => Some(MAINNET_SAPLING_HEIGHT),
            Network::Testnet => Some(TESTNET_SAPLING_HEIGHT),
        },
        _ => None,
    }
}

/// `u` has activated on `n` at height `h`.
pub open spec fn active_at(n: Network, u: NetworkUpgrade, h: u32) -> bool {
    activation(n, u) is Some && activation(n, u)->0 <= h
}

/// `u` activates on `n` strictly after height `h`.
pub open spec fn pending_at(n: Network, u: NetworkUpgrade, h: u32) -> bool {
    activation(n, u) is Some && activation(n, u)->0 > h
}

/// The upgrade in force on `n` at height `h`: the latest one in activation
/// order among those active at `h`.
pub open spec fn is_current(n: Network, h: u32, r: NetworkUpgrade) -> bool {
    &&& active_at(n, r, h)
    &&& forall|u: NetworkUpgrade| active_at(n, u, h) ==> upgrade_index(u) <= upgrade_index(r)
}

/// The upgrade that next takes effect on `n` after height `h`: among the
/// pending upgrades, one with the smallest activation height, the latest of
/// those in activation order.
pub open spec fn is_next(n: Network, h: u32, r: NetworkUpgrade) -> bool {
    &&& pending_at(n, r, h)
    &&& forall|u: NetworkUpgrade|
        pending_at(n, u, h) ==> activation(n, r)->0 <= activation(n, u)->0
    &&& forall|u: NetworkUpgrade|
        pending_at(n, u, h) && activation(n, u) == activation(n, r) ==> upgrade_index(u)
            <= upgrade_index(r)
}

/// Branch id bound into transaction signatures under an upgrade.
pub open spec fn branch_id_of(u: NetworkUpgrade) -> Option<u32> {
    match u {
        NetworkUpgrade::Genesis | NetworkUpgrade::BeforeOverwinter => None,
        NetworkUpgrade::Overwinter => Some(0x5ba81b19u32),
        NetworkUpgrade::Sapling => Some(0x76b809bbu32),
        NetworkUpgrade::Blossom => Some(0x2bb40e60u32),
        NetworkUpgrade::Heartwood => Some(0xf5b9230bu32),
        NetworkUpgrade::Canopy => Some(0xe9ff75a6u32),
        NetworkUpgrade::Nu5 => Some(0xc2d6d0b4u32),
    }
}

/// Branch id of an upgrade, as the library's type.
pub open spec fn branch_id_spec(u: NetworkUpgrade) -> Option<ConsensusBranchId> {
    match branch_id_of(u) {
        Some(b) => Some(ConsensusBranchId(b)),
        None => None,
    }
}

/// `l` lists, in increasing height order, each activation height of `n`
/// with the upgrade in force from it: every upgrade that is in force at its
/// own activation height appears, with that height.
pub open spec fn is_activation_list(n: Network, l: Seq<(u32, NetworkUpgrade)>) -> bool {
    &&& forall|i: int|
        0 <= i < l.len() ==> activation(n, (#[trigger] l[i]).1) == Some(l[i].0) && is_current(
            n,
            l[i].0,
            l[i].1,
        )
    &&& forall|i: int, j: int| 0 <= i < j < l.len() ==> l[i].0 < l[j].0
    &&& forall|u: NetworkUpgrade|
        activation(n, u) is Some && is_current(n, activation(n, u)->0, u) ==> exists|i: int|
            0 <= i < l.len() && (#[trigger] l[i]) == (activation(n, u)->0, u)
}

impl NetworkUpgrade {
    /// Position of this upgrade in activation order.
    pub fn index(&self) -> (r: u8)
        ensures
            r as nat == upgrade_index(*self),
    {
        match self {
            NetworkUpgrade::Genesis => 0,
            NetworkUpgrade::BeforeOverwinter => 1,
            NetworkUpgrade::Overwinter => 2,
            NetworkUpgrade::Sapling => 3,
            NetworkUpgrade::Blossom => 4,
            NetworkUpgrade::Heartwood => 5,
            NetworkUpgrade::Canopy => 6,
            NetworkUpgrade::Nu5 => 7,
        }
    }

    /// The upgrade at position `i` in activation order.
    pub fn from_index(i: u8) -> (r: NetworkUpgrade)
        requires
            i < 8,
        ensures
            r == upgrade_at(i as nat),
            upgrade_index(r) == i as nat,
    {
        if i == 0 {
            NetworkUpgrade::Genesis
        } else if i == 1 {
            NetworkUpgrade::BeforeOverwinter
        } else if i == 2 {
            NetworkUpgrade::Overwinter
        } else if i == 3 {
            NetworkUpgrade::Sapling
        } else if i == 4 {
            NetworkUpgrade::Blossom
        } else if i == 5 {
            NetworkUpgrade::Heartwood
        } else if i == 6 {
            NetworkUpgrade::Canopy
        } else {
            NetworkUpgrade::Nu5
        }
    }

    /// The height at which this upgrade activates on `network`, if it ever does.
    pub fn activation_height(&self, network: Network) -> (r: Option<u32>)
        ensures
            r == activation(network, *self),
    {
        match self {
            NetworkUpgrade::Genesis => Some(0),
            NetworkUpgrade::BeforeOverwinter => Some(1),
            NetworkUpgrade::Overwinter | NetworkUpgrade::Sapling => match network {
                Network::Mainnet => Some(MAINNET_SAPLING_HEIGHT),
                Network::Testnet => Some(TESTNET_SAPLING_HEIGHT),
            },
            _ => None,
        }
    }

    /// Whether some upgrade activates on `network` exactly at `height`.
    pub fn is_activation_height(network: Network, height: u32) -> (r: bool)
        ensures
            r == exists|u: NetworkUpgrade| activation(network, u) == Some(height),
    {
        let mut i: u8 = 0;
        while i < 8
            invariant
                i <= 8,
                forall|j: nat| j < i ==> activation(network, upgrade_at(j)) != Some(height),
            decreases 8 - i,
        {
            let u = NetworkUpgrade::from_index(i);
            if u.activation_height(network) == Some(height) {
                return true;
            }
            i = i + 1;
        }
        assert forall|u: NetworkUpgrade| activation(network, u) != Some(height) by {
            assert(upgrade_at(upgrade_index(u)) == u);
        }
        false
    }

    /// The upgrade in force on `network` at `height`.
    pub fn current(network: Network, height: u32) -> (r: NetworkUpgrade)
        ensures
            is_current(network, height, r),
    {
        let mut r = NetworkUpgrade::Genesis;
        let mut i: u8 = 1;
        while i < 8
            invariant
                1 <= i <= 8,
                active_at(network, r, height),
                upgrade_index(r) < i,
                forall|j: nat| j < i && active_at(network, upgrade_at(j), height) ==> j <= upgrade_index(r),
            decreases 8 - i,
        {
            let u = NetworkUpgrade::from_index(i);
            match u.activation_height(network) {
                Some(a) => {
                    if a <= height {
                        r = u;
                    }
                },
                None => {},
            }
            i = i + 1;
        }
        assert forall|u: NetworkUpgrade| active_at(network, u, height) implies upgrade_index(u) <= upgrade_index(r) by {
            assert(upgrade_at(upgrade_index(u)) == u);
        }
        r
    }

    /// The upgrade that next takes effect on `network` after `height`, if any.
    pub fn next(network: Network, height: u32) -> (r: Option<NetworkUpgrade>)
        ensures
            r is None <==> forall|u: NetworkUpgrade| !pending_at(network, u, height),
            r is Some ==> is_next(network, height, r->0),
    {
        let mut r: Option<NetworkUpgrade> = None;
        let mut i: u8 = 0;
        while i < 8
            invariant
                i <= 8,
                r is None <==> forall|j: nat| j < i ==> !pending_at(network, upgrade_at(j), height),
                r is Some ==> pending_at(network, r->0, height) && upgrade_index(r->0) < i,
                r is Some ==> forall|j: nat|
                    j < i && pending_at(network, upgrade_at(j), height) ==> activation(network, r->0)->0
                        <= activation(network, upgrade_at(j))->0,
                r is Some ==> forall|j: nat|
                    j < i && pending_at(network, upgrade_at(j), height) && activation(
                        network,
                        upgrade_at(j),
                    ) == activation(network, r->0) ==> j <= upgrade_index(r->0),
            decreases 8 - i,
        {
            let u = NetworkUpgrade::from_index(i);
            match u.activation_height(network) {
                Some(a) => {
                    if a > height {
                        match r {
                            None => {
                                r = Some(u);
                            },
                            Some(best) => {
                                let b = best.activation_height(network).unwrap();
                                if a <= b {
                                    r = Some(u);
                                }
                            },
                        }
                    }
                },
                None => {},
            }
            i = i + 1;
        }
        assert forall|u: NetworkUpgrade| #[trigger] pending_at(network, u, height) implies r is Some && activation(network, r->0)->0 <= activation(network, u)->0 && (activation(network, u) == activation(network, r->0) ==> upgrade_index(u) <= upgrade_index(r->0)) by {
            assert(upgrade_at(upgrade_index(u)) == u);
        }
        r
    }

    /// Activation heights with the upgrade that takes effect at each, in
    /// height order; where upgrades share a height, the latest of them.
    pub fn activation_list(network: Network) -> (r: Vec<(u32, NetworkUpgrade)>)
        ensures
            is_activation_list(network, r@),
    {
        let mut r: Vec<(u32, NetworkUpgrade)> = Vec::new();
        let mut i: u8 = 0;
        while i < 8
            invariant
                i <= 8,
                forall|k: int|
                    0 <= k < r@.len() ==> activation(network, (#[trigger] r@[k]).1) == Some(r@[k].0)
                        && is_current(network, r@[k].0, r@[k].1) && upgrade_index(r@[k].1) < i,
                forall|a: int, b: int| 0 <= a < b < r@.len() ==> r@[a].0 < r@[b].0,
                forall|j: nat|
                    j < i && activation(network, upgrade_at(j)) is Some && is_current(
                        network,
                        activation(network, upgrade_at(j))->0,
                        upgrade_at(j),
                    ) ==> exists|k: int|
                        0 <= k < r@.len() && (#[trigger] r@[k]) == (
                            activation(network, upgrade_at(j))->0,
                            upgrade_at(j),
                        ),
            decreases 8 - i,
        {
            let u = NetworkUpgrade::from_index(i);
            let ghost r0 = r@;
            match u.activation_height(network) {
                Some(h) => {
                    let c = NetworkUpgrade::current(network, h);
                    if c == u {
                        proof {
                            assert forall|k: int| 0 <= k < r@.len() implies r@[k].0 < h by {
                                lemma_activation_monotone(network, r@[k].1, u);
                                if r@[k].0 == h {
                                    assert(active_at(network, u, r@[k].0));
                                }
                            }
                        }
                        r.push((h, u));
                    } else {
                        proof {
                            lemma_current_unique(network, h, c, c);
                        }
                    }
                },
                None => {},
            }
            proof {
                assert forall|j: nat|
                    j < i + 1 && activation(network, upgrade_at(j)) is Some && is_current(
                        network,
                        activation(network, upgrade_at(j))->0,
                        upgrade_at(j),
                    ) implies exists|k: int|
                        0 <= k < r@.len() && (#[trigger] r@[k]) == (
                            activation(network, upgrade_at(j))->0,
                            upgrade_at(j),
                        ) by {
                    if j < i {
                        let k = choose|k: int|
                            0 <= k < r0.len() && (#[trigger] r0[k]) == (
                                activation(network, upgrade_at(j))->0,
                                upgrade_at(j),
                            );
                        assert(r@[k] == r0[k]);
                    } else {
                        assert(r@[r@.len() - 1] == (activation(network, upgrade_at(j))->0, upgrade_at(j)));
                    }
                }
            }
            i = i + 1;
        }
        assert forall|u: NetworkUpgrade|
            activation(network, u) is Some && is_current(network, activation(network, u)->0, u)
                implies exists|k: int| 0 <= k < r@.len() && (#[trigger] r@[k]) == (activation(network, u)->0, u) by {
            assert(upgrade_at(upgrade_index(u)) == u);
        }
        r
    }

    /// Every upgrade that has a branch id, with it, in activation order.
    pub fn branch_id_list() -> (r: Vec<(NetworkUpgrade, ConsensusBranchId)>)
        ensures
            forall|i: int|
                0 <= i < r@.len() ==> branch_id_spec((#[trigger] r@[i]).0) == Some(r@[i].1),
            forall|u: NetworkUpgrade|
                branch_id_of(u) is Some ==> exists|i: int| 0 <= i < r@.len() && (#[trigger] r@[i]).0 == u,
    {
        let mut r: Vec<(NetworkUpgrade, ConsensusBranchId)> = Vec::new();
        let mut i: u8 = 0;
        while i < 8
            invariant
                i <= 8,
                forall|k: int|
                    0 <= k < r@.len() ==> branch_id_spec((#[trigger] r@[k]).0) == Some(r@[k].1),
                forall|j: nat|
                    j < i && branch_id_of(upgrade_at(j)) is Some ==> exists|k: int|
                        0 <= k < r@.len() && (#[trigger] r@[k]).0 == upgrade_at(j),
            decreases 8 - i,
        {
            let u = NetworkUpgrade::from_index(i);
            let ghost r0 = r@;
            match u.branch_id() {
                Some(b) => {
                    r.push((u, b));
                },
                None => {},
            }
            proof {
                assert forall|j: nat| j < i + 1 && branch_id_of(upgrade_at(j)) is Some implies exists|k: int|
                    0 <= k < r@.len() && (#[trigger] r@[k]).0 == upgrade_at(j) by {
                    if j < i {
                        let k = choose|k: int| 0 <= k < r0.len() && (#[trigger] r0[k]).0 == upgrade_at(j);
                        assert(r@[k] == r0[k]);
                    } else {
                        assert(r@[r@.len() - 1].0 == upgrade_at(j));
                    }
                }
            }
            i = i + 1;
        }
        assert forall|u: NetworkUpgrade| branch_id_of(u) is Some implies exists|i: int|
            0 <= i < r@.len() && (#[trigger] r@[i]).0 == u by {
            assert(upgrade_at(upgrade_index(u)) == u);
        }
        r
    }

    /// The consensus branch id of this upgrade, if it has one.
    pub fn branch_id(&self) -> (r: Option<ConsensusBranchId>)
        ensures
            r == branch_id_spec(*self),
    {
        match self {
            NetworkUpgrade::Genesis | NetworkUpgrade::BeforeOverwinter => None,
            NetworkUpgrade::Overwinter => Some(ConsensusBranchId(0x5ba81b19u32)),
            NetworkUpgrade::Sapling => Some(ConsensusBranchId(0x76b809bbu32)),
            NetworkUpgrade::Blossom => Some(ConsensusBranchId(0x2bb40e60u32)),
            NetworkUpgrade::Heartwood => Some(ConsensusBranchId(0xf5b9230bu32)),
            NetworkUpgrade::Canopy => Some(ConsensusBranchId(0xe9ff75a6u32)),
            NetworkUpgrade::Nu5 => Some(ConsensusBranchId(0xc2d6d0b4u32)),
        }
    }
}

/// A 32-bit consensus branch id.
#[derive(Clone, Copy, Debug, PartialEq, Eq, Hash, Structural)]
pub struct ConsensusBranchId(pub u32);

/// Lower-case hex digit of a value below 16.
pub open spec fn hex_digit(v: int) -> char {
    if v < 10 {
        (48 + v) as char
    } else {
        (87 + v) as char
    }
}

/// A character that hex decoding accepts (either case).
pub open spec fn is_hex_char(c: char) -> bool {
    ('0' <= c && c <= '9') || ('a' <= c && c <= 'f') || ('A' <= c && c <= 'F')
}

/// Value of a hex character.
pub open spec fn hex_value(c: char) -> int {
    if '0' <= c && c <= '9' {
        c as int - 48
    } else if 'a' <= c && c <= 'f' {
        c as int - 87
    } else {
        c as int - 55
    }
}

/// Lower-case hex text of a byte string, two digits per byte, high nibble first.
pub open spec fn hex_encoding(b: Seq<u8>) -> Seq<char> {
    Seq::new(
        2 * b.len(),
        |i: int|
            if i % 2 == 0 {
                hex_digit(b[i / 2] as int / 16)
            } else {
                hex_digit(b[i / 2] as int % 16)
            },
    )
}

/// Text that hex decoding accepts: an even number of hex characters.
pub open spec fn is_hex_text(s: Seq<char>) -> bool {
    s.len() % 2 == 0 && forall|i: int| 0 <= i < s.len() ==> is_hex_char(#[trigger] s[i])
}

/// Bytes denoted by hex text.
pub open spec fn hex_decoding(s: Seq<char>) -> Seq<u8> {
    Seq::new(
        s.len() / 2,
        |i: int| (hex_value(s[2 * i]) * 16 + hex_value(s[2 * i + 1])) as u8,
    )
}

/// Big-endian bytes of a 32-bit value.
pub open spec fn be_bytes(x: u32) -> Seq<u8> {
    seq![(x / 0x1000000) as u8, (x / 0x10000 % 0x100) as u8, (x / 0x100 % 0x100) as u8, (x % 0x100) as u8]
}

/// The 32-bit value of four big-endian bytes.
pub open spec fn from_be(b: Seq<u8>) -> int {
    b[0] as int * 0x1000000 + b[1] as int * 0x10000 + b[2] as int * 0x100 + b[3] as int
}

/// Hex text of a branch id: its big-endian bytes.
pub open spec fn branch_id_hex(id: ConsensusBranchId) -> Seq<char> {
    hex_encoding(be_bytes(id.0))
}

/// Relies on hex::encode: lower-case digits, two per byte, high nibble first.
#[verifier::external_body]
fn encode_hex(b: &Vec<u8>) -> (r: String)
    ensures
        r@ == hex_encoding(b@),
{
    hex::encode(b)
}

/// Relies on hex::decode: even-length text of hex digits of either case
/// decodes, two digits per byte; anything else is refused.
#[verifier::external_body]
fn decode_hex(s: &str) -> (r: Option<Vec<u8>>)
    ensures
        r is Some <==> is_hex_text(s@),
        r is Some ==> r->0@ == hex_decoding(s@),
{
    hex::decode(s).ok()
}

impl ConsensusBranchId {
    /// The branch id of the upgrade in force on `network` at `height`.
    pub fn current(network: Network, height: u32) -> (r: Option<ConsensusBranchId>)
        ensures
            exists|u: NetworkUpgrade| is_current(network, height, u) && r == branch_id_spec(u),
    {
        NetworkUpgrade::current(network, height).branch_id()
    }

    /// Big-endian bytes, as the id is displayed.
    pub fn bytes_in_display_order(&self) -> (r: Vec<u8>)
        ensures
            r@ == be_bytes(self.0),
    {
        let x = self.0;
        let mut v: Vec<u8> = Vec::new();
        v.push((x / 0x1000000) as u8);
        v.push((x / 0x10000 % 0x100) as u8);
        v.push((x / 0x100 % 0x100) as u8);
        v.push((x % 0x100) as u8);
        assert(v@ =~= be_bytes(x));
        v
    }

    /// Lower-case hex text of the id's big-endian bytes.
    pub fn to_hex(&self) -> (r: String)
        ensures
            r@ == branch_id_hex(*self),
    {
        encode_hex(&self.bytes_in_display_order())
    }

    /// Parses eight hex digits, big-endian; `None` for any other text.
    pub fn from_hex(s: &str) -> (r: Option<ConsensusBranchId>)
        ensures
            r is Some <==> is_hex_text(s@) && s@.len() == 8,
            r is Some ==> r == Some(ConsensusBranchId(from_be(hex_decoding(s@)) as u32)),
    {
        match decode_hex(s) {
            Some(b) => {
                if b.len() == 4 {
                    let x: u32 = (b[0] as u32) * 0x1000000 + (b[1] as u32) * 0x10000 + (b[2] as u32)
                        * 0x100 + (b[3] as u32);
                    Some(ConsensusBranchId(x))
                } else {
                    None
                }
            },
            None => None,
        }
    }
}

} // verus!

verus! {

/// Activation heights never decrease along activation order.
proof fn lemma_activation_monotone(n: Network, u: NetworkUpgrade, v: NetworkUpgrade)
    requires
        activation(n, u) is Some,
        activation(n, v) is Some,
        upgrade_index(u) <= upgrade_index(v),
    ensures
        activation(n, u)->0 <= activation(n, v)->0,
{
}

/// The upgrade in force at a height has the largest activation height not
/// above that height, and is the only upgrade with that activation height
/// except for upgrades that share it and come earlier in activation order.
pub proof fn lemma_current_is_latest_activation(n: Network, h: u32, r: NetworkUpgrade, u: NetworkUpgrade)
    requires
        is_current(n, h, r),
        active_at(n, u, h),
    ensures
        activation(n, u)->0 <= activation(n, r)->0 <= h,
        activation(n, u) == activation(n, r) ==> upgrade_index(u) <= upgrade_index(r),
{
    lemma_activation_monotone(n, u, r);
}

/// The upgrade in force at a height is determined by the height.
pub proof fn lemma_current_unique(n: Network, h: u32, r: NetworkUpgrade, s: NetworkUpgrade)
    requires
        is_current(n, h, r),
        is_current(n, h, s),
    ensures
        r == s,
{
}

/// Distinct upgrades that activate on a network activate at distinct heights,
/// but for Overwinter and Sapling, which share theirs.
pub proof fn lemma_activation_injective(n: Network, u: NetworkUpgrade, v: NetworkUpgrade)
    requires
        activation(n, u) is Some,
        activation(n, u) == activation(n, v),
        !(u == NetworkUpgrade::Overwinter && v == NetworkUpgrade::Sapling),
        !(u == NetworkUpgrade::Sapling && v == NetworkUpgrade::Overwinter),
    ensures
        u == v,
{
}

/// At its own activation height, an upgrade with a branch id is the upgrade
/// in force, so the current branch id there is its own; Overwinter, whose
/// height Sapling shares, is the exception.
pub proof fn lemma_branch_id_at_activation(n: Network, u: NetworkUpgrade, r: NetworkUpgrade)
    requires
        branch_id_of(u) is Some,
        activation(n, u) is Some,
        u != NetworkUpgrade::Overwinter,
        is_current(n, activation(n, u)->0, r),
    ensures
        r == u,
        branch_id_spec(r) == branch_id_spec(u),
{
    assert(active_at(n, u, activation(n, u)->0));
}

proof fn lemma_hex_digit_value(v: int)
    requires
        0 <= v < 16,
    ensures
        is_hex_char(hex_digit(v)),
        hex_value(hex_digit(v)) == v,
{
}

/// Hex text of a branch id is eight hex digits that decode back to the id.
pub proof fn lemma_branch_id_hex_round_trip(id: ConsensusBranchId)
    ensures
        is_hex_text(branch_id_hex(id)),
        branch_id_hex(id).len() == 8,
        from_be(hex_decoding(branch_id_hex(id))) == id.0 as int,
{
    let b = be_bytes(id.0);
    let t = branch_id_hex(id);
    assert forall|i: int| 0 <= i < t.len() implies is_hex_char(#[trigger] t[i]) by {
        if i % 2 == 0 {
            lemma_hex_digit_value(b[i / 2] as int / 16);
        } else {
            lemma_hex_digit_value(b[i / 2] as int % 16);
        }
    }
    let d = hex_decoding(t);
    assert forall|k: int| 0 <= k < 4 implies d[k] == b[k] by {
        lemma_hex_digit_value(b[k] as int / 16);
        lemma_hex_digit_value(b[k] as int % 16);
        assert(t[2 * k] == hex_digit(b[k] as int / 16));
        assert(t[2 * k + 1] == hex_digit(b[k] as int % 16));
    }
    let x = id.0 as int;
    assert(x == (x / 0x1000000) * 0x1000000 + (x / 0x10000 % 0x100) * 0x10000 + (x / 0x100 % 0x100)
        * 0x100 + x % 0x100) by (nonlinear_arith)
        requires
            0 <= x < 0x100000000,
    ;
}

/// The next upgrade after a height is the entry of the activation list with
/// the smallest height above it.
pub proof fn lemma_next_is_first_list_entry_above(
    n: Network,
    h: u32,
    r: NetworkUpgrade,
    l: Seq<(u32, NetworkUpgrade)>,
)
    requires
        is_activation_list(n, l),
        is_next(n, h, r),
    ensures
        exists|i: int| 0 <= i < l.len() && (#[trigger] l[i]) == (activation(n, r)->0, r),
        forall|j: int| 0 <= j < l.len() && (#[trigger] l[j]).0 > h ==> activation(n, r)->0 <= l[j].0,
{
    let a = activation(n, r)->0;
    assert forall|u: NetworkUpgrade| active_at(n, u, a) implies upgrade_index(u) <= upgrade_index(r) by {
        if upgrade_index(u) > upgrade_index(r) {
            lemma_activation_monotone(n, r, u);
        }
    }
    assert(is_current(n, a, r));
    assert forall|j: int| 0 <= j < l.len() && (#[trigger] l[j]).0 > h implies a <= l[j].0 by {
        assert(pending_at(n, l[j].1, h));
    }
}

/// Without a next upgrade, no entry of the activation list lies above the height.
pub proof fn lemma_no_next_no_list_entry_above(n: Network, h: u32, l: Seq<(u32, NetworkUpgrade)>)
    requires
        is_activation_list(n, l),
        forall|u: NetworkUpgrade| !pending_at(n, u, h),
    ensures
        forall|j: int| 0 <= j < l.len() ==> (#[trigger] l[j]).0 <= h,
{
    assert forall|j: int| 0 <= j < l.len() implies (#[trigger] l[j]).0 <= h by {
        assert(!pending_at(n, l[j].1, h));
    }
}

} // verus!
