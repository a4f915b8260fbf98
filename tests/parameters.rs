use std::collections::HashSet;

use zebra_komodo::parameters::{
    ConsensusBranchId, Network, NetworkUpgrade, HEIGHT_MAX, MAINNET_SAPLING_HEIGHT,
    TESTNET_SAPLING_HEIGHT,
};

use Network::{Mainnet, Testnet};
use NetworkUpgrade::{BeforeOverwinter, Genesis, Overwinter, Sapling};

fn list_get(network: Network, height: u32) -> Option<NetworkUpgrade> {
    NetworkUpgrade::activation_list(network)
        .into_iter()
        .find(|(h, _)| *h == height)
        .map(|(_, u)| u)
}

fn branch_list_get(upgrade: NetworkUpgrade) -> Option<ConsensusBranchId> {
    NetworkUpgrade::branch_id_list()
        .into_iter()
        .find(|(u, _)| *u == upgrade)
        .map(|(_, b)| b)
}

fn komodo_activation_extremes(network: Network) {
    assert_eq!(list_get(network, 0), Some(Genesis));
    assert_eq!(Genesis.activation_height(network), Some(0));
    assert!(NetworkUpgrade::is_activation_height(network, 0));

    assert_eq!(NetworkUpgrade::current(network, 0), Genesis);
    assert_eq!(NetworkUpgrade::next(network, 0), Some(BeforeOverwinter));

    assert_eq!(list_get(network, 1), Some(BeforeOverwinter));
    assert_eq!(BeforeOverwinter.activation_height(network), Some(1));
    assert!(NetworkUpgrade::is_activation_height(network, 1));

    assert_eq!(NetworkUpgrade::current(network, 1), BeforeOverwinter);

    assert_eq!(
        Overwinter.activation_height(network),
        Sapling.activation_height(network),
    );

    assert_eq!(NetworkUpgrade::next(network, 1), Some(Sapling));

    assert!(!NetworkUpgrade::is_activation_height(network, 2));

    assert_ne!(list_get(network, HEIGHT_MAX), Some(Genesis));

    assert_ne!(NetworkUpgrade::current(network, HEIGHT_MAX), Genesis);
    assert_eq!(NetworkUpgrade::next(network, HEIGHT_MAX), None);
}

#[test]
fn komodo_activation_extremes_mainnet() {
    komodo_activation_extremes(Mainnet)
}

#[test]
fn komodo_activation_extremes_testnet() {
    komodo_activation_extremes(Testnet)
}

#[test]
fn branch_id_bijective() {
    let branch_id_list = NetworkUpgrade::branch_id_list();
    let nus: HashSet<&NetworkUpgrade> = branch_id_list.iter().map(|(u, _)| u).collect();
    assert_eq!(branch_id_list.len(), nus.len());

    let branch_ids: HashSet<&ConsensusBranchId> = branch_id_list.iter().map(|(_, b)| b).collect();
    assert_eq!(branch_id_list.len(), branch_ids.len());
}

fn branch_id_extremes(network: Network) {
    assert_eq!(branch_list_get(BeforeOverwinter), None);
    assert_eq!(ConsensusBranchId::current(network, 0), None);
    assert_eq!(branch_list_get(Overwinter), Overwinter.branch_id());

    assert_ne!(
        branch_list_get(NetworkUpgrade::current(network, HEIGHT_MAX)),
        None
    );
    assert_ne!(ConsensusBranchId::current(network, HEIGHT_MAX), None);
}

#[test]
fn branch_id_extremes_mainnet() {
    branch_id_extremes(Mainnet)
}

#[test]
fn branch_id_extremes_testnet() {
    branch_id_extremes(Testnet)
}

const ALL: [NetworkUpgrade; 8] = [
    NetworkUpgrade::Genesis,
    NetworkUpgrade::BeforeOverwinter,
    NetworkUpgrade::Overwinter,
    NetworkUpgrade::Sapling,
    NetworkUpgrade::Blossom,
    NetworkUpgrade::Heartwood,
    NetworkUpgrade::Canopy,
    NetworkUpgrade::Nu5,
];

#[test]
fn branch_id_hex_roundtrip() {
    for nu in ALL {
        if let Some(branch) = nu.branch_id() {
            let hex_branch = branch.to_hex();
            let new_branch = ConsensusBranchId::from_hex(&hex_branch).expect("hex branch_id should parse");
            assert_eq!(branch, new_branch);
            assert_eq!(hex_branch, new_branch.to_hex());
        }
    }
}

#[test]
fn branch_id_hex_is_big_endian_lowercase() {
    assert_eq!(Sapling.branch_id().unwrap().to_hex(), "76b809bb");
    assert_eq!(Overwinter.branch_id().unwrap().to_hex(), "5ba81b19");
    assert_eq!(
        ConsensusBranchId::from_hex("76B809BB"),
        Some(ConsensusBranchId(0x76b8_09bb))
    );
}

#[test]
fn branch_id_from_bad_hex() {
    assert_eq!(ConsensusBranchId::from_hex("76b809b"), None);
    assert_eq!(ConsensusBranchId::from_hex("76b809bbaa"), None);
    assert_eq!(ConsensusBranchId::from_hex("76b809bg"), None);
    assert_eq!(ConsensusBranchId::from_hex(""), None);
}

#[test]
fn current_is_latest_activation_at_or_below() {
    assert_eq!(NetworkUpgrade::current(Mainnet, MAINNET_SAPLING_HEIGHT - 1), BeforeOverwinter);
    assert_eq!(NetworkUpgrade::current(Mainnet, MAINNET_SAPLING_HEIGHT), Sapling);
    assert_eq!(NetworkUpgrade::current(Testnet, TESTNET_SAPLING_HEIGHT + 5), Sapling);
    assert_eq!(NetworkUpgrade::next(Mainnet, MAINNET_SAPLING_HEIGHT), None);
    assert_eq!(NetworkUpgrade::next(Mainnet, MAINNET_SAPLING_HEIGHT - 1), Some(Sapling));
}

#[test]
fn activation_heights_distinct_but_overwinter_sapling() {
    for network in [Mainnet, Testnet] {
        for a in ALL {
            for b in ALL {
                let (ha, hb) = (a.activation_height(network), b.activation_height(network));
                let shared = matches!((a, b), (Overwinter, Sapling) | (Sapling, Overwinter));
                if ha.is_some() && ha == hb && !shared {
                    assert_eq!(a, b);
                }
            }
        }
    }
}

#[test]
fn branch_id_current_at_own_activation() {
    for network in [Mainnet, Testnet] {
        for u in ALL {
            if let (Some(b), Some(h)) = (u.branch_id(), u.activation_height(network)) {
                if u != Overwinter {
                    assert_eq!(ConsensusBranchId::current(network, h), Some(b));
                }
            }
        }
    }
    let h = Overwinter.activation_height(Mainnet).unwrap();
    assert_eq!(ConsensusBranchId::current(Mainnet, h), Sapling.branch_id());
}
