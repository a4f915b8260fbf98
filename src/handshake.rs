//! Peer addresses, the in-flight nonce set, and the decisions of the version
//! handshake and of inventory registration.
use vstd::prelude::*;

use crate::parameters::{is_current, Network, NetworkUpgrade};
use crate::transaction::Hash256;

verus! {

/// The protocol version this node speaks.
pub const CURRENT_NETWORK_PROTOCOL_VERSION: u32 = 170010;

/// Service bit of a node that serves the full chain.
pub const NODE_NETWORK: u64 = 1;

/// Default port on mainnet.
pub const MAINNET_DEFAULT_PORT: u16 = 7770;

/// Default port on testnet.
pub const TESTNET_DEFAULT_PORT: u16 = 17770;

/// Version timestamps are rounded down to a multiple of this many seconds.
pub const TIMESTAMP_TRUNCATION_SECONDS: i64 = 300;

/// An IP address: IPv4 as a 32-bit number, IPv6 as a 128-bit number.
#[derive(Clone, Copy, Debug, PartialEq, Eq, Structural)]
pub enum IpAddr {
    V4(u32),
    V6(u128),
}

/// An IP address and a port.
#[derive(Clone, Copy, Debug, PartialEq, Eq, Structural)]
pub struct PeerAddr {
    pub ip: IpAddr,
    pub port: u16,
}

pub open spec fn ip_unspecified(ip: IpAddr) -> bool {
    match ip {
        IpAddr::V4(a) => a == 0,
        IpAddr::V6(a) => a == 0,
    }
}

impl IpAddr {
    /// Whether this is the unspecified address of its family.
    pub fn is_unspecified(&self) -> (r: bool)
        ensures
            r == ip_unspecified(*self),
    {
        match self {
            IpAddr::V4(a) => *a == 0,
            IpAddr::V6(a) => *a == 0,
        }
    }
}

pub open spec fn default_port(n: Network) -> u16 {
    match n {
        Network::Mainnet => MAINNET_DEFAULT_PORT,
        Network::Testnet => TESTNET_DEFAULT_PORT,
    }
}

/// The unspecified IPv4 address with the network's default port.
pub fn get_unspecified_ipv4_addr(network: Network) -> (r: PeerAddr)
    ensures
        r == (PeerAddr { ip: IpAddr::V4(0), port: default_port(network) }),
{
    let port = match network {
        Network::Mainnet => MAINNET_DEFAULT_PORT,
        Network::Testnet => TESTNET_DEFAULT_PORT,
    };
    PeerAddr { ip: IpAddr::V4(0), port }
}

/// How a connection was made, with what each kind may reveal of the peer.
#[derive(Clone, Copy, Debug, PartialEq, Eq, Structural)]
pub enum ConnectedAddr {
    /// We connected to the peer at `addr`.
    OutboundDirect { addr: PeerAddr },
    /// The peer connected to us from this IP and a transient port.
    InboundDirect { maybe_ip: IpAddr, transient_port: u16 },
    /// We connected through a proxy.
    OutboundProxy { proxy_addr: PeerAddr, transient_local_addr: PeerAddr },
    /// The peer connected through a proxy.
    InboundProxy { transient_addr: PeerAddr },
    /// A connection that reveals nothing.
    Isolated,
}

pub open spec fn transient_addr_spec(c: ConnectedAddr) -> Option<PeerAddr> {
    match c {
        ConnectedAddr::OutboundDirect { addr } => Some(addr),
        ConnectedAddr::InboundDirect { maybe_ip, transient_port } => Some(
            PeerAddr { ip: maybe_ip, port: transient_port },
        ),
        ConnectedAddr::OutboundProxy { transient_local_addr, .. } => Some(transient_local_addr),
        ConnectedAddr::InboundProxy { transient_addr } => Some(transient_addr),
        ConnectedAddr::Isolated => None,
    }
}

/// Alternate addresses learnt from the peer's canonical address.
pub open spec fn alternate_addrs_spec(c: ConnectedAddr, canonical: PeerAddr) -> Seq<PeerAddr> {
    match c {
        ConnectedAddr::OutboundDirect { addr } => {
            let ip = if ip_unspecified(canonical.ip) {
                addr.ip
            } else {
                canonical.ip
            };
            let port = if canonical.port == 0 {
                addr.port
            } else {
                canonical.port
            };
            let fixed = PeerAddr { ip, port };
            if fixed != addr {
                seq![fixed]
            } else {
                Seq::empty()
            }
        },
        ConnectedAddr::InboundDirect { maybe_ip, .. } => {
            let maybe_addr = PeerAddr { ip: maybe_ip, port: canonical.port };
            if canonical != maybe_addr {
                seq![canonical, maybe_addr]
            } else {
                seq![canonical]
            }
        },
        ConnectedAddr::OutboundProxy { .. } | ConnectedAddr::InboundProxy { .. } => seq![canonical],
        ConnectedAddr::Isolated => Seq::empty(),
    }
}

impl ConnectedAddr {
    pub fn new_outbound_direct(addr: PeerAddr) -> (r: ConnectedAddr)
        ensures
            r == (ConnectedAddr::OutboundDirect { addr }),
    {
        ConnectedAddr::OutboundDirect { addr }
    }

    pub fn new_inbound_direct(addr: PeerAddr) -> (r: ConnectedAddr)
        ensures
            r == (ConnectedAddr::InboundDirect { maybe_ip: addr.ip, transient_port: addr.port }),
    {
        ConnectedAddr::InboundDirect { maybe_ip: addr.ip, transient_port: addr.port }
    }

    pub fn new_outbound_proxy(proxy: PeerAddr, local_addr: PeerAddr) -> (r: ConnectedAddr)
        ensures
            r == (ConnectedAddr::OutboundProxy { proxy_addr: proxy, transient_local_addr: local_addr }),
    {
        ConnectedAddr::OutboundProxy { proxy_addr: proxy, transient_local_addr: local_addr }
    }

    pub fn new_inbound_proxy(proxy: PeerAddr) -> (r: ConnectedAddr)
        ensures
            r == (ConnectedAddr::InboundProxy { transient_addr: proxy }),
    {
        ConnectedAddr::InboundProxy { transient_addr: proxy }
    }

    pub fn new_isolated() -> (r: ConnectedAddr)
        ensures
            r == ConnectedAddr::Isolated,
    {
        ConnectedAddr::Isolated
    }

    /// The address to track in the address book: direct connections expose
    /// the peer's address (for inbound ones, its IP and transient port);
    /// proxied and isolated connections expose none.
    pub fn get_address_book_addr(&self) -> (r: Option<PeerAddr>)
        ensures
            r == (match *self {
                ConnectedAddr::OutboundDirect { addr } => Some(addr),
                ConnectedAddr::InboundDirect { maybe_ip, transient_port } => Some(
                    PeerAddr { ip: maybe_ip, port: transient_port },
                ),
                _ => None,
            }),
    {
        match self {
            ConnectedAddr::OutboundDirect { addr } => Some(*addr),
            ConnectedAddr::InboundDirect { maybe_ip, transient_port } => Some(
                PeerAddr { ip: *maybe_ip, port: *transient_port },
            ),
            _ => None,
        }
    }

    /// The address of the other end of the connection; none when isolated.
    pub fn get_transient_addr(&self) -> (r: Option<PeerAddr>)
        ensures
            r == transient_addr_spec(*self),
    {
        match self {
            ConnectedAddr::OutboundDirect { addr } => Some(*addr),
            ConnectedAddr::InboundDirect { maybe_ip, transient_port } => Some(
                PeerAddr { ip: *maybe_ip, port: *transient_port },
            ),
            ConnectedAddr::OutboundProxy { transient_local_addr, .. } => Some(*transient_local_addr),
            ConnectedAddr::InboundProxy { transient_addr } => Some(*transient_addr),
            ConnectedAddr::Isolated => None,
        }
    }

    /// A short label of the connection kind.
    pub fn get_short_kind_label(&self) -> (r: &'static str)
        ensures
            r@ == (match *self {
                ConnectedAddr::OutboundDirect { .. } => "Out"@,
                ConnectedAddr::InboundDirect { .. } => "In"@,
                ConnectedAddr::OutboundProxy { .. } => "ProxOut"@,
                ConnectedAddr::InboundProxy { .. } => "ProxIn"@,
                ConnectedAddr::Isolated => "Isol"@,
            }),
    {
        proof {
            reveal_strlit("Out");
            reveal_strlit("In");
            reveal_strlit("ProxOut");
            reveal_strlit("ProxIn");
            reveal_strlit("Isol");
        }
        match self {
            ConnectedAddr::OutboundDirect { .. } => "Out",
            ConnectedAddr::InboundDirect { .. } => "In",
            ConnectedAddr::OutboundProxy { .. } => "ProxOut",
            ConnectedAddr::InboundProxy { .. } => "ProxIn",
            ConnectedAddr::Isolated => "Isol",
        }
    }

    /// Addresses worth trying for reconnection, learnt from the address the
    /// peer claims: for outbound direct connections the claimed address with
    /// unspecified parts filled in, if it differs from ours; for inbound
    /// direct ones the claimed address and the connection's IP with the
    /// claimed port; for proxies the claimed address; nothing when isolated.
    pub fn get_alternate_addrs(&self, canonical_remote: PeerAddr) -> (r: Vec<PeerAddr>)
        ensures
            r@ == alternate_addrs_spec(*self, canonical_remote),
    {
        let mut v: Vec<PeerAddr> = Vec::new();
        match self {
            ConnectedAddr::OutboundDirect { addr } => {
                let mut c = canonical_remote;
                if c.ip.is_unspecified() {
                    c.ip = addr.ip;
                }
                if c.port == 0 {
                    c.port = addr.port;
                }
                if c != *addr {
                    v.push(c);
                }
            },
            ConnectedAddr::InboundDirect { maybe_ip, .. } => {
                let maybe_addr = PeerAddr { ip: *maybe_ip, port: canonical_remote.port };
                v.push(canonical_remote);
                if canonical_remote != maybe_addr {
                    v.push(maybe_addr);
                }
            },
            ConnectedAddr::OutboundProxy { .. } | ConnectedAddr::InboundProxy { .. } => {
                v.push(canonical_remote);
            },
            ConnectedAddr::Isolated => {},
        }
        assert(v@ =~= alternate_addrs_spec(*self, canonical_remote));
        v
    }
}

// ---------------------------------------------------------------------------
// Nonces

/// The nonces of our outbound handshakes in flight. A peer that echoes one
/// of them is this node itself.
pub struct NonceSet {
    pub nonces: std::collections::HashSet<u64>,
}

impl View for NonceSet {
    type V = Set<u64>;

    open spec fn view(&self) -> Set<u64> {
        self.nonces@
    }
}

impl NonceSet {
    /// An empty set.
    pub fn new() -> (r: NonceSet)
        ensures
            r@ == Set::<u64>::empty(),
    {
        NonceSet { nonces: std::collections::HashSet::new() }
    }

    /// Records the nonce of a handshake we start.
    pub fn insert_local(&mut self, local: u64)
        ensures
            final(self)@ == old(self)@.insert(local),
    {
        broadcast use vstd::std_specs::hash::group_hash_axioms;

        self.nonces.insert(local);
    }

    /// Whether `nonce` is in flight.
    pub fn contains(&self, nonce: u64) -> (r: bool)
        ensures
            r == self@.contains(nonce),
    {
        broadcast use vstd::std_specs::hash::group_hash_axioms;

        self.nonces.contains(&nonce)
    }

    /// Retires our nonce of a handshake that ended before the peer's nonce
    /// was checked.
    pub fn release(&mut self, local: u64)
        ensures
            final(self)@ == old(self)@.remove(local),
    {
        broadcast use vstd::std_specs::hash::group_hash_axioms;

        self.nonces.remove(&local);
    }

    /// Checks the peer's nonce against every nonce in flight, ours
    /// included, and only then retires our own: returns whether the peer
    /// echoed one of them.
    pub fn check_remote(&mut self, remote: u64, local: u64) -> (reuse: bool)
        ensures
            reuse == old(self)@.contains(remote),
            final(self)@ == old(self)@.remove(local),
    {
        broadcast use vstd::std_specs::hash::group_hash_axioms;

        let reuse = self.nonces.contains(&remote);
        self.nonces.remove(&local);
        reuse
    }
}

/// Two handshakes that each insert their nonce and retire it again, by
/// `check_remote` or by `release`, leave an empty nonce set empty, whether
/// both insert before either retires (in either order of retiring) or one
/// finishes before the other starts.
pub proof fn lemma_handshakes_leave_nonces_empty(s: Set<u64>, a: u64, b: u64)
    requires
        s == Set::<u64>::empty(),
    ensures
        s.insert(a).insert(b).remove(a).remove(b) == Set::<u64>::empty(),
        s.insert(a).insert(b).remove(b).remove(a) == Set::<u64>::empty(),
        s.insert(a).remove(a).insert(b).remove(b) == Set::<u64>::empty(),
{
    assert(s.insert(a).insert(b).remove(a).remove(b) =~= Set::<u64>::empty());
    assert(s.insert(a).insert(b).remove(b).remove(a) =~= Set::<u64>::empty());
    assert(s.insert(a).remove(a).insert(b).remove(b) =~= Set::<u64>::empty());
}

// ---------------------------------------------------------------------------
// Version messages

/// A peer address as carried in a version message, with its services.
#[derive(Clone, Copy, Debug, PartialEq, Eq, Structural)]
pub struct AddrInVersion {
    pub addr: PeerAddr,
    pub services: u64,
}

/// A `version` message.
#[derive(Clone, Debug)]
pub struct VersionMessage {
    pub version: u32,
    pub services: u64,
    /// Unix seconds.
    pub timestamp: i64,
    pub address_recv: AddrInVersion,
    pub address_from: AddrInVersion,
    pub nonce: u64,
    pub user_agent: String,
    pub start_height: u32,
    pub relay: bool,
}

/// `now` rounded down to a multiple of `TIMESTAMP_TRUNCATION_SECONDS`.
pub open spec fn truncated_time(now: i64) -> int {
    now - (now as int % TIMESTAMP_TRUNCATION_SECONDS as int)
}

/// Our version message: the peer's address and our listen address with our
/// services, or for isolated connections the unspecified IPv4 address and
/// the default port in both places with no services.
pub fn build_version_message(
    network: Network,
    connected_addr: &ConnectedAddr,
    listen_addr: PeerAddr,
    our_services: u64,
    local_nonce: u64,
    now: i64,
    user_agent: String,
    relay: bool,
) -> (r: VersionMessage)
    requires
        now >= i64::MIN + TIMESTAMP_TRUNCATION_SECONDS,
    ensures
        r.version == CURRENT_NETWORK_PROTOCOL_VERSION,
        r.timestamp as int == truncated_time(now),
        r.nonce == local_nonce,
        r.user_agent == user_agent,
        r.start_height == 0,
        r.relay == relay,
        r.address_recv.services == NODE_NETWORK,
        *connected_addr is Isolated ==> {
            &&& r.services == 0
            &&& r.address_recv.addr == get_unspecified_spec(network)
            &&& r.address_from == (AddrInVersion { addr: get_unspecified_spec(network), services: 0 })
        },
        !(*connected_addr is Isolated) ==> {
            &&& r.services == our_services
            &&& r.address_recv.addr == transient_addr_spec(*connected_addr)->0
            &&& r.address_from == (AddrInVersion { addr: listen_addr, services: our_services })
        },
{
    let rem: i64 = if now >= 0 {
        now % TIMESTAMP_TRUNCATION_SECONDS
    } else {
        TIMESTAMP_TRUNCATION_SECONDS - 1 - (-(now + 1)) % TIMESTAMP_TRUNCATION_SECONDS
    };
    assert(rem as int == now as int % 300) by (nonlinear_arith)
        requires
            now >= 0 ==> rem as int == now as int % 300,
            now < 0 ==> rem as int == 299 - (-(now as int + 1)) % 300,
    ;
    assert(0 <= rem < 300);
    let timestamp = now - rem;
    let (their_addr, services, from_addr) = match connected_addr.get_transient_addr() {
        Some(a) => (a, our_services, listen_addr),
        None => {
            let u = get_unspecified_ipv4_addr(network);
            (u, 0u64, u)
        },
    };
    VersionMessage {
        version: CURRENT_NETWORK_PROTOCOL_VERSION,
        services,
        timestamp,
        address_recv: AddrInVersion { addr: their_addr, services: NODE_NETWORK },
        address_from: AddrInVersion { addr: from_addr, services },
        nonce: local_nonce,
        user_agent,
        start_height: 0,
        relay,
    }
}

pub open spec fn get_unspecified_spec(n: Network) -> PeerAddr {
    PeerAddr { ip: IpAddr::V4(0), port: default_port(n) }
}

// ---------------------------------------------------------------------------
// Minimum peer version

/// Lowest protocol version a peer may have under an upgrade: the minimum
/// peer versions of zcashd's upgrade schedule (mainnet values). Both
/// networks use them here; a network's upgrades only differ in their
/// activation heights.
pub open spec fn min_version_for(u: NetworkUpgrade) -> u32 {
    match u {
        NetworkUpgrade::Genesis | NetworkUpgrade::BeforeOverwinter => 170002,
        NetworkUpgrade::Overwinter => 170005,
        NetworkUpgrade::Sapling => 170007,
        NetworkUpgrade::Blossom => 170009,
        NetworkUpgrade::Heartwood => 170011,
        NetworkUpgrade::Canopy => 170013,
        NetworkUpgrade::Nu5 => 170100,
    }
}

fn min_version_for_upgrade(u: NetworkUpgrade) -> (r: u32)
    ensures
        r == min_version_for(u),
{
    match u {
        NetworkUpgrade::Genesis | NetworkUpgrade::BeforeOverwinter => 170002,
        NetworkUpgrade::Overwinter => 170005,
        NetworkUpgrade::Sapling => 170007,
        NetworkUpgrade::Blossom => 170009,
        NetworkUpgrade::Heartwood => 170011,
        NetworkUpgrade::Canopy => 170013,
        NetworkUpgrade::Nu5 => 170100,
    }
}

/// The minimum peer version at the current tip: that of the upgrade in
/// force at the tip height, or of the genesis rules without a tip. It is
/// read afresh at every handshake.
pub fn minimum_peer_version(network: Network, tip_height: Option<u32>) -> (r: u32)
    ensures
        tip_height is None ==> r == min_version_for(NetworkUpgrade::Genesis),
        tip_height is Some ==> exists|u: NetworkUpgrade|
            is_current(network, tip_height->0, u) && r == min_version_for(u),
{
    match tip_height {
        None => min_version_for_upgrade(NetworkUpgrade::Genesis),
        Some(h) => min_version_for_upgrade(NetworkUpgrade::current(network, h)),
    }
}

// ---------------------------------------------------------------------------
// Negotiation

/// Why a handshake failed.
#[derive(Clone, Copy, Debug, PartialEq, Eq, Structural)]
pub enum HandshakeError {
    /// The peer closed the connection mid-handshake.
    ConnectionClosed,
    /// The peer sent a message the handshake cannot take.
    UnexpectedMessage,
    /// The peer echoed a nonce of ours: we connected to ourselves.
    NonceReuse,
    /// The peer's protocol version is below the minimum.
    ObsoleteVersion(u32),
    /// A message could not be decoded.
    Serialization,
    /// The transport failed.
    Io,
}

/// What the peer said in its version message.
#[derive(Clone, Copy, Debug, PartialEq, Eq, Structural)]
pub struct RemoteVersion {
    pub version: u32,
    pub services: u64,
    pub canonical_addr: PeerAddr,
    pub nonce: u64,
}

/// The decision on the peer's version: refuse a reused nonce first, then an
/// obsolete version; else the negotiated version, the lower of the two.
pub open spec fn version_decision(nonce_reuse: bool, remote_version: u32, min_version: u32) -> Result<
    u32,
    HandshakeError,
> {
    if nonce_reuse {
        Err(HandshakeError::NonceReuse)
    } else if remote_version < min_version {
        Err(HandshakeError::ObsoleteVersion(remote_version))
    } else if remote_version < CURRENT_NETWORK_PROTOCOL_VERSION {
        Ok(remote_version)
    } else {
        Ok(CURRENT_NETWORK_PROTOCOL_VERSION)
    }
}

/// Where a handshake stands.
#[derive(Clone, Copy, Debug, PartialEq, Eq, Structural)]
pub enum HandshakePhase {
    /// Our version is sent; waiting for theirs.
    VersionSent,
    /// Their version is accepted and our verack sent; waiting for theirs.
    VerackSent,
    /// Both veracks exchanged.
    Finished,
    /// Refused.
    Failed,
}

/// What the caller does next.
#[derive(Clone, Copy, Debug, PartialEq, Eq, Structural)]
pub enum HandshakeStep {
    /// Read the next message and hand it back.
    ReadNext,
    /// Send our verack, then read on.
    SendVerack,
    /// Done: the negotiated version.
    Finished(u32),
    /// Refused.
    Fail(HandshakeError),
}

/// A message read during the handshake, as far as the handshake cares.
#[derive(Clone, Copy, Debug, PartialEq, Eq, Structural)]
pub enum HandshakeMessage {
    Version(RemoteVersion),
    Verack,
    Other,
}

/// One handshake in progress, after our version was sent.
#[derive(Clone, Copy, Debug, PartialEq, Eq, Structural)]
pub struct Negotiation {
    pub local_nonce: u64,
    pub phase: HandshakePhase,
    /// The peer's version, once accepted.
    pub remote: Option<RemoteVersion>,
    /// The negotiated version, once accepted.
    pub negotiated: u32,
}

impl Negotiation {
    /// Past the version exchange only with an accepted peer version.
    pub open spec fn wf(&self) -> bool {
        (self.phase is VerackSent || self.phase is Finished) ==> self.remote is Some
    }

    /// A handshake whose version message with `local_nonce` was sent.
    pub fn new(local_nonce: u64) -> (r: Negotiation)
        ensures
            r.wf(),
            r.phase is VersionSent,
            r.local_nonce == local_nonce,
            r.remote is None,
    {
        Negotiation { local_nonce, phase: HandshakePhase::VersionSent, remote: None, negotiated: 0 }
    }

    /// Takes the next message. While waiting for the peer's version, other
    /// messages are skipped; the version is then judged by
    /// `version_decision`, with `nonce_reuse` the outcome of
    /// `NonceSet::check_remote` on its nonce and `min_version` the current
    /// minimum. While waiting for the verack, other messages are skipped.
    pub fn on_message(&mut self, msg: HandshakeMessage, nonce_reuse: bool, min_version: u32) -> (step:
        HandshakeStep)
        requires
            old(self).wf(),
            old(self).phase is VersionSent || old(self).phase is VerackSent,
        ensures
            final(self).wf(),
            final(self).local_nonce == old(self).local_nonce,
            old(self).phase is VersionSent ==> match msg {
                HandshakeMessage::Version(v) => match version_decision(
                    nonce_reuse,
                    v.version,
                    min_version,
                ) {
                    Ok(n) => step == HandshakeStep::SendVerack && final(self).phase is VerackSent
                        && final(self).remote == Some(v) && final(self).negotiated == n,
                    Err(e) => step == HandshakeStep::Fail(e) && final(self).phase is Failed,
                },
                _ => step == HandshakeStep::ReadNext && *final(self) == *old(self),
            },
            old(self).phase is VerackSent ==> match msg {
                HandshakeMessage::Verack => step == HandshakeStep::Finished(old(self).negotiated)
                    && final(self).phase is Finished && final(self).remote == old(self).remote,
                _ => step == HandshakeStep::ReadNext && *final(self) == *old(self),
            },
    {
        match self.phase {
            HandshakePhase::VersionSent => match msg {
                HandshakeMessage::Version(v) => {
                    if nonce_reuse {
                        self.phase = HandshakePhase::Failed;
                        HandshakeStep::Fail(HandshakeError::NonceReuse)
                    } else if v.version < min_version {
                        self.phase = HandshakePhase::Failed;
                        HandshakeStep::Fail(HandshakeError::ObsoleteVersion(v.version))
                    } else {
                        let n = if v.version < CURRENT_NETWORK_PROTOCOL_VERSION {
                            v.version
                        } else {
                            CURRENT_NETWORK_PROTOCOL_VERSION
                        };
                        self.phase = HandshakePhase::VerackSent;
                        self.remote = Some(v);
                        self.negotiated = n;
                        HandshakeStep::SendVerack
                    }
                },
                _ => HandshakeStep::ReadNext,
            },
            _ => match msg {
                HandshakeMessage::Verack => {
                    self.phase = HandshakePhase::Finished;
                    HandshakeStep::Finished(self.negotiated)
                },
                _ => HandshakeStep::ReadNext,
            },
        }
    }
}

/// A handshake never goes on once the peer echoed a nonce in flight: the
/// decision on such a version is `NonceReuse`, whatever the versions.
pub proof fn lemma_nonce_reuse_stops_handshake(remote_version: u32, min_version: u32)
    ensures
        version_decision(true, remote_version, min_version) == Err::<u32, HandshakeError>(
            HandshakeError::NonceReuse,
        ),
{
}

/// A verack is sent only for a peer version at or above the minimum: a
/// lower one is refused.
pub proof fn lemma_obsolete_peer_gets_no_verack(
    nonce_reuse: bool,
    remote_version: u32,
    min_version: u32,
)
    requires
        remote_version < min_version,
    ensures
        version_decision(nonce_reuse, remote_version, min_version) is Err,
{
}

/// The negotiated version is the lower of ours and the peer's.
pub proof fn lemma_negotiated_is_min(remote_version: u32, min_version: u32)
    requires
        remote_version >= min_version,
    ensures
        version_decision(false, remote_version, min_version) == Ok::<u32, HandshakeError>(
            if remote_version < CURRENT_NETWORK_PROTOCOL_VERSION {
                remote_version
            } else {
                CURRENT_NETWORK_PROTOCOL_VERSION
            },
        ),
{
}

// ---------------------------------------------------------------------------
// Inventory registration

/// An inventory entry.
#[derive(Clone, Copy, Debug, PartialEq, Eq, Structural)]
pub enum InventoryHash {
    Error,
    Tx(Hash256),
    Block(Hash256),
    FilteredBlock(Hash256),
    /// A transaction id with its authorizing data hash.
    Wtx(Hash256, Hash256),
}

pub open spec fn is_tx_entry(h: InventoryHash) -> bool {
    h is Tx || h is Wtx
}

/// An inbound message, as far as inventory registration cares.
#[derive(Clone, Debug)]
pub enum InboundMessage {
    Inv(Vec<InventoryHash>),
    NotFound(Vec<InventoryHash>),
    Other,
}

/// Inventory to record for a peer.
#[derive(Clone, Debug)]
pub enum InventoryChange {
    /// The peer advertised these entries.
    Available { hashes: Vec<InventoryHash>, peer: PeerAddr },
    /// The peer does not have these entries.
    Missing { hashes: Vec<InventoryHash>, peer: PeerAddr },
}

/// The entries of `s` that satisfy `keep`, in order.
pub open spec fn filter_entries(s: Seq<InventoryHash>, keep: spec_fn(InventoryHash) -> bool) -> Seq<
    InventoryHash,
>
    decreases s.len(),
{
    if s.len() == 0 {
        Seq::empty()
    } else {
        let rest = filter_entries(s.drop_last(), keep);
        if keep(s.last()) {
            rest.push(s.last())
        } else {
            rest
        }
    }
}

fn transaction_entries(s: &Vec<InventoryHash>) -> (r: Vec<InventoryHash>)
    ensures
        r@ == filter_entries(s@, |h: InventoryHash| is_tx_entry(h)),
{
    let mut r: Vec<InventoryHash> = Vec::new();
    let mut i: usize = 0;
    while i < s.len()
        invariant
            i <= s@.len(),
            r@ == filter_entries(s@.take(i as int), |h: InventoryHash| is_tx_entry(h)),
        decreases s@.len() - i,
    {
        assert(s@.take(i as int + 1).drop_last() =~= s@.take(i as int));
        let h = s[i];
        match h {
            InventoryHash::Tx(_) | InventoryHash::Wtx(_, _) => r.push(h),
            _ => {},
        }
        i = i + 1;
    }
    assert(s@.take(i as int) =~= s@);
    r
}

fn known_entries(s: &Vec<InventoryHash>) -> (r: Vec<InventoryHash>)
    ensures
        r@ == filter_entries(s@, |h: InventoryHash| is_tx_entry(h) || h is Block),
{
    let mut r: Vec<InventoryHash> = Vec::new();
    let mut i: usize = 0;
    while i < s.len()
        invariant
            i <= s@.len(),
            r@ == filter_entries(
                s@.take(i as int),
                |h: InventoryHash| is_tx_entry(h) || h is Block,
            ),
        decreases s@.len() - i,
    {
        assert(s@.take(i as int + 1).drop_last() =~= s@.take(i as int));
        let h = s[i];
        match h {
            InventoryHash::Tx(_) | InventoryHash::Wtx(_, _) | InventoryHash::Block(_) => r.push(h),
            _ => {},
        }
        i = i + 1;
    }
    assert(s@.take(i as int) =~= s@);
    r
}

/// What an inbound message tells about a peer's inventory, for connections
/// that have a peer address: a lone advertised block; the transactions of
/// any other advertisement (blocks in a list are most likely answers to a
/// query); the transactions and plain blocks (not filtered blocks)
/// reported missing. Nothing when that leaves no entry, for other messages,
/// and for isolated connections.
pub fn register_inventory_status(msg: &InboundMessage, connected_addr: &ConnectedAddr) -> (r: Option<
    InventoryChange,
>)
    ensures
        transient_addr_spec(*connected_addr) is None ==> r is None,
        transient_addr_spec(*connected_addr) is Some ==> match *msg {
            InboundMessage::Inv(v) => if v@.len() == 1 && v@[0] is Block {
                r is Some && r->0 is Available && r->0->Available_hashes@ == v@ && r->0->Available_peer
                    == transient_addr_spec(*connected_addr)->0
            } else {
                let txs = filter_entries(v@, |h: InventoryHash| is_tx_entry(h));
                if txs.len() == 0 {
                    r is None
                } else {
                    r is Some && r->0 is Available && r->0->Available_hashes@ == txs
                        && r->0->Available_peer == transient_addr_spec(*connected_addr)->0
                }
            },
            InboundMessage::NotFound(v) => {
                let known = filter_entries(
                    v@,
                    |h: InventoryHash| is_tx_entry(h) || h is Block,
                );
                if known.len() == 0 {
                    r is None
                } else {
                    r is Some && r->0 is Missing && r->0->Missing_hashes@ == known
                        && r->0->Missing_peer == transient_addr_spec(*connected_addr)->0
                }
            },
            InboundMessage::Other => r is None,
        },
{
    let peer = match connected_addr.get_transient_addr() {
        Some(a) => a,
        None => {
            return None;
        },
    };
    match msg {
        InboundMessage::Inv(v) => {
            if v.len() == 1 {
                match v[0] {
                    InventoryHash::Block(_) => {
                        let mut one: Vec<InventoryHash> = Vec::new();
                        one.push(v[0]);
                        assert(one@ =~= v@);
                        return Some(InventoryChange::Available { hashes: one, peer });
                    },
                    _ => {},
                }
            }
            let txs = transaction_entries(v);
            if txs.len() == 0 {
                None
            } else {
                Some(InventoryChange::Available { hashes: txs, peer })
            }
        },
        InboundMessage::NotFound(v) => {
            let known = known_entries(v);
            if known.len() == 0 {
                None
            } else {
                Some(InventoryChange::Missing { hashes: known, peer })
            }
        },
        InboundMessage::Other => None,
    }
}

// ---------------------------------------------------------------------------
// Heartbeats

/// Why the heartbeat task of a peer stops.
#[derive(Clone, Copy, Debug, PartialEq, Eq, Structural)]
pub enum PeerError {
    /// The client asked the heartbeat task to stop.
    ClientCancelledHeartbeatTask,
    /// The client went away without asking.
    ClientDropped,
    /// The connection closed.
    ConnectionClosed,
    /// A heartbeat was not answered in time.
    HeartbeatTimeout,
}

/// The heartbeat task's decision on waking, given the shutdown signal if
/// one is ready (`true`: sent, `false`: its sender dropped): a ready signal
/// stops the task even when a tick is ready too; otherwise the tick sends
/// one more heartbeat (`None`).
pub fn heartbeat_decision(shutdown: Option<bool>) -> (r: Option<PeerError>)
    ensures
        shutdown == Some(true) ==> r == Some(PeerError::ClientCancelledHeartbeatTask),
        shutdown == Some(false) ==> r == Some(PeerError::ClientDropped),
        shutdown is None ==> r is None,
{
    match shutdown {
        Some(true) => Some(PeerError::ClientCancelledHeartbeatTask),
        Some(false) => Some(PeerError::ClientDropped),
        None => None,
    }
}

} // verus!
