use zebra_komodo::handshake::{
    build_version_message, get_unspecified_ipv4_addr, heartbeat_decision, minimum_peer_version,
    register_inventory_status, ConnectedAddr, HandshakeError, HandshakeMessage, HandshakePhase,
    HandshakeStep, InboundMessage, InventoryChange, InventoryHash, IpAddr, Negotiation, NonceSet,
    PeerAddr, PeerError, RemoteVersion, CURRENT_NETWORK_PROTOCOL_VERSION, NODE_NETWORK,
};
use zebra_komodo::parameters::{Network, MAINNET_SAPLING_HEIGHT};
use zebra_komodo::transaction::Hash256;

fn addr(a: u32, port: u16) -> PeerAddr {
    PeerAddr { ip: IpAddr::V4(a), port }
}

fn h(n: u64) -> Hash256 {
    Hash256 { w0: n, w1: 0, w2: 0, w3: 0 }
}

fn remote(version: u32, nonce: u64) -> RemoteVersion {
    RemoteVersion { version, services: NODE_NETWORK, canonical_addr: addr(0x7f00_0001, 7770), nonce }
}

#[test]
fn self_connection_detected() {
    let mut nonces = NonceSet::new();
    // A initiates to itself: both sides record their nonce
    nonces.insert_local(11);
    nonces.insert_local(22);
    // the inbound side (nonce 22) receives the outbound side's version (nonce 11)
    let reuse = nonces.check_remote(11, 22);
    assert!(reuse);
    let mut inbound = Negotiation::new(22);
    let step = inbound.on_message(HandshakeMessage::Version(remote(170_010, 11)), reuse, 170_002);
    assert_eq!(step, HandshakeStep::Fail(HandshakeError::NonceReuse));
    assert_eq!(inbound.phase, HandshakePhase::Failed);
    // the outbound side unwinds too and retires its nonce
    nonces.check_remote(22, 11);
    assert!(!nonces.contains(11));
    assert!(!nonces.contains(22));
}

#[test]
fn unrelated_same_valued_nonce_accepted() {
    let mut nonces = NonceSet::new();
    nonces.insert_local(5);
    // the peer's nonce equals no nonce in flight
    let reuse = nonces.check_remote(6, 5);
    assert!(!reuse);
    let mut n = Negotiation::new(5);
    let step = n.on_message(HandshakeMessage::Version(remote(170_010, 6)), reuse, 170_002);
    assert_eq!(step, HandshakeStep::SendVerack);
}

#[test]
fn obsolete_peer_refused_without_verack() {
    let min = minimum_peer_version(Network::Mainnet, Some(MAINNET_SAPLING_HEIGHT));
    assert_eq!(min, 170_007);
    let mut n = Negotiation::new(1);
    let step = n.on_message(HandshakeMessage::Version(remote(min - 1, 2)), false, min);
    assert_eq!(step, HandshakeStep::Fail(HandshakeError::ObsoleteVersion(min - 1)));
    assert_eq!(n.phase, HandshakePhase::Failed);
}

#[test]
fn minimum_version_rises_with_the_tip() {
    assert_eq!(minimum_peer_version(Network::Mainnet, None), 170_002);
    assert_eq!(minimum_peer_version(Network::Mainnet, Some(10)), 170_002);
    assert_eq!(minimum_peer_version(Network::Mainnet, Some(MAINNET_SAPLING_HEIGHT)), 170_007);
}

#[test]
fn negotiation_skips_other_messages() {
    let mut n = Negotiation::new(1);
    assert_eq!(n.on_message(HandshakeMessage::Other, false, 170_002), HandshakeStep::ReadNext);
    assert_eq!(n.on_message(HandshakeMessage::Verack, false, 170_002), HandshakeStep::ReadNext);
    assert_eq!(
        n.on_message(HandshakeMessage::Version(remote(170_100, 2)), false, 170_002),
        HandshakeStep::SendVerack
    );
    assert_eq!(n.on_message(HandshakeMessage::Other, false, 170_002), HandshakeStep::ReadNext);
    assert_eq!(
        n.on_message(HandshakeMessage::Verack, false, 170_002),
        HandshakeStep::Finished(CURRENT_NETWORK_PROTOCOL_VERSION)
    );
    assert_eq!(n.remote, Some(remote(170_100, 2)));

    let mut n = Negotiation::new(1);
    n.on_message(HandshakeMessage::Version(remote(170_007, 2)), false, 170_002);
    assert_eq!(n.on_message(HandshakeMessage::Verack, false, 170_002), HandshakeStep::Finished(170_007));
}

#[test]
fn version_message_contents() {
    let peer = addr(0x0a00_0001, 7770);
    let listen = addr(0, 7770);
    let m = build_version_message(
        Network::Mainnet,
        &ConnectedAddr::new_outbound_direct(peer),
        listen,
        NODE_NETWORK,
        42,
        1_700_000_123,
        String::from("/test:1.0/"),
        true,
    );
    assert_eq!(m.version, CURRENT_NETWORK_PROTOCOL_VERSION);
    assert_eq!(m.timestamp, 1_700_000_100);
    assert_eq!(m.address_recv.addr, peer);
    assert_eq!(m.address_from.addr, listen);
    assert_eq!(m.services, NODE_NETWORK);
    assert_eq!(m.nonce, 42);
    assert_eq!(m.start_height, 0);
    assert!(m.relay);

    let m = build_version_message(
        Network::Testnet,
        &ConnectedAddr::new_isolated(),
        listen,
        NODE_NETWORK,
        42,
        -1,
        String::new(),
        false,
    );
    assert_eq!(m.services, 0);
    assert_eq!(m.timestamp, -300);
    assert_eq!(m.address_recv.addr, get_unspecified_ipv4_addr(Network::Testnet));
    assert_eq!(m.address_from.addr, addr(0, 17770));
}

#[test]
fn connected_addr_views() {
    let a = addr(0x0a00_0001, 7770);
    let out = ConnectedAddr::new_outbound_direct(a);
    assert_eq!(out.get_address_book_addr(), Some(a));
    assert_eq!(out.get_transient_addr(), Some(a));
    assert_eq!(out.get_short_kind_label(), "Out");

    let inbound = ConnectedAddr::new_inbound_direct(a);
    assert_eq!(inbound.get_address_book_addr(), Some(a));
    assert_eq!(inbound.get_transient_addr(), Some(a));
    assert_eq!(inbound.get_short_kind_label(), "In");

    let iso = ConnectedAddr::new_isolated();
    assert_eq!(iso.get_address_book_addr(), None);
    assert_eq!(iso.get_transient_addr(), None);
    assert_eq!(iso.get_short_kind_label(), "Isol");

    let p = ConnectedAddr::new_outbound_proxy(addr(1, 9050), addr(2, 40000));
    assert_eq!(p.get_transient_addr(), Some(addr(2, 40000)));
    assert_eq!(p.get_address_book_addr(), None);
    assert_eq!(p.get_short_kind_label(), "ProxOut");
    assert_eq!(ConnectedAddr::new_inbound_proxy(addr(3, 1)).get_short_kind_label(), "ProxIn");
}

#[test]
fn alternate_addresses() {
    let a = addr(0x0a00_0001, 7770);
    let out = ConnectedAddr::new_outbound_direct(a);
    assert_eq!(out.get_alternate_addrs(addr(0, 0)), vec![]);
    assert_eq!(out.get_alternate_addrs(addr(0, 8000)), vec![addr(0x0a00_0001, 8000)]);

    let inbound = ConnectedAddr::new_inbound_direct(addr(0x0a00_0002, 50000));
    assert_eq!(
        inbound.get_alternate_addrs(addr(0x0b00_0001, 7770)),
        vec![addr(0x0b00_0001, 7770), addr(0x0a00_0002, 7770)]
    );
    assert_eq!(inbound.get_alternate_addrs(addr(0x0a00_0002, 7770)), vec![addr(0x0a00_0002, 7770)]);
    assert_eq!(ConnectedAddr::new_isolated().get_alternate_addrs(a), vec![]);
}

#[test]
fn inventory_registration() {
    let peer = addr(0x0a00_0001, 7770);
    let c = ConnectedAddr::new_outbound_direct(peer);

    let one_block = InboundMessage::Inv(vec![InventoryHash::Block(h(1))]);
    match register_inventory_status(&one_block, &c) {
        Some(InventoryChange::Available { hashes, peer: p }) => {
            assert_eq!(hashes, vec![InventoryHash::Block(h(1))]);
            assert_eq!(p, peer);
        }
        other => panic!("unexpected {:?}", other),
    }

    let mixed = InboundMessage::Inv(vec![
        InventoryHash::Block(h(1)),
        InventoryHash::Tx(h(2)),
        InventoryHash::Block(h(3)),
    ]);
    match register_inventory_status(&mixed, &c) {
        Some(InventoryChange::Available { hashes, .. }) => {
            assert_eq!(hashes, vec![InventoryHash::Tx(h(2))]);
        }
        other => panic!("unexpected {:?}", other),
    }

    let blocks_only = InboundMessage::Inv(vec![InventoryHash::Block(h(1)), InventoryHash::Block(h(3))]);
    assert!(register_inventory_status(&blocks_only, &c).is_none());

    let missing = InboundMessage::NotFound(vec![
        InventoryHash::Error,
        InventoryHash::Block(h(4)),
        InventoryHash::Wtx(h(5), h(6)),
    ]);
    match register_inventory_status(&missing, &c) {
        Some(InventoryChange::Missing { hashes, .. }) => {
            assert_eq!(hashes, vec![InventoryHash::Block(h(4)), InventoryHash::Wtx(h(5), h(6))]);
        }
        other => panic!("unexpected {:?}", other),
    }

    assert!(register_inventory_status(&InboundMessage::Other, &c).is_none());
    assert!(register_inventory_status(&one_block, &ConnectedAddr::new_isolated()).is_none());
}

#[test]
fn heartbeat_shutdown_first() {
    assert_eq!(heartbeat_decision(Some(true)), Some(PeerError::ClientCancelledHeartbeatTask));
    assert_eq!(heartbeat_decision(Some(false)), Some(PeerError::ClientDropped));
    assert_eq!(heartbeat_decision(None), None);
}

#[test]
fn early_failure_releases_nonce() {
    let mut nonces = NonceSet::new();
    nonces.insert_local(7);
    nonces.insert_local(8);
    nonces.release(7);
    assert!(!nonces.contains(7));
    assert!(nonces.contains(8));
    let reuse = nonces.check_remote(1, 8);
    assert!(!reuse);
    assert!(!nonces.contains(8));
}

#[test]
fn notfound_drops_filtered_blocks() {
    let c = ConnectedAddr::new_outbound_direct(addr(0x0a00_0001, 7770));
    let missing = InboundMessage::NotFound(vec![
        InventoryHash::FilteredBlock(h(1)),
        InventoryHash::Block(h(2)),
        InventoryHash::Tx(h(3)),
    ]);
    match register_inventory_status(&missing, &c) {
        Some(InventoryChange::Missing { hashes, .. }) => {
            assert_eq!(hashes, vec![InventoryHash::Block(h(2)), InventoryHash::Tx(h(3))]);
        }
        other => panic!("unexpected {:?}", other),
    }
    let only_filtered = InboundMessage::NotFound(vec![InventoryHash::FilteredBlock(h(1))]);
    assert!(register_inventory_status(&only_filtered, &c).is_none());
}
