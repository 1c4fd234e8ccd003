use zaino_state::chain_info::{
    chain_info_at, estimated_height, network_upgrades, resume_chain_info, start_chain_info,
    ChainInfoQuery, ChainInfoStep, ChainTip, NetworkUpgradeInfo, NetworkUpgradeStatus,
    TipConsensusBranch,
};
use zaino_state::error::StateServiceError;
use zaino_state::network::{
    has_reached, is_extrapolable, NetworkUpgrade, Timestamp, MAX_TIME, MIN_TIME,
};
use zaino_state::requests::{FoundHeader, Header, ReadRequest, ReadResponse, Solution};
use zaino_state::text::{BlockHash, HashOrHeight};
use zebra_chain::amount::NonNegative;
use zebra_chain::parameters::testnet::ConfiguredActivationHeights;
use zebra_chain::parameters::Network;
use zebra_chain::value_balance::ValueBalance;
use zebra_chain::work::difficulty::CompactDifficulty;

fn at(secs: i64) -> Timestamp {
    Timestamp { secs, nanos: 0 }
}

fn tip(height: u32, secs: i64) -> ChainTip {
    ChainTip {
        height,
        hash: BlockHash([3; 32]),
        value_balance: ValueBalance::<NonNegative>::zero(),
        time: at(secs),
    }
}

fn regtest(nu5: u32, nu6: u32) -> Network {
    let heights = ConfiguredActivationHeights {
        nu5: Some(nu5),
        nu6: Some(nu6),
        ..Default::default()
    };
    Network::new_regtest(heights.into())
}

fn header_at(time: Timestamp) -> FoundHeader {
    FoundHeader {
        header: Header {
            version: 4,
            previous_block_hash: BlockHash([1; 32]),
            merkle_root: [2; 32],
            commitment_bytes: [3; 32],
            time,
            difficulty_threshold: CompactDifficulty::from_bytes_in_display_order(&[
                0x1f, 0x07, 0xff, 0xff,
            ])
            .unwrap(),
            nonce: [4; 32],
            solution: Solution::Regtest([5; 36]),
        },
        hash: BlockHash([3; 32]),
        height: 100,
        next_block_hash: None,
    }
}

#[test]
fn mainnet_upgrades_below_sapling() {
    let info = chain_info_at(&Network::Mainnet, &tip(347_500, 1_000), &at(1_000));
    assert_eq!(info.chain, "main");
    assert_eq!(info.blocks, 347_500);
    assert_eq!(info.best_block_hash, BlockHash([3; 32]));
    assert_eq!(info.value_pools, ValueBalance::<NonNegative>::zero());
    assert_eq!(
        info.upgrades.get(&0x5ba81b19),
        Some(&NetworkUpgradeInfo {
            name: NetworkUpgrade::Overwinter,
            activation_height: 347_500,
            status: NetworkUpgradeStatus::Active,
        })
    );
    assert_eq!(
        info.upgrades.get(&0x76b809bb),
        Some(&NetworkUpgradeInfo {
            name: NetworkUpgrade::Sapling,
            activation_height: 419_200,
            status: NetworkUpgradeStatus::Pending,
        })
    );
    assert_eq!(
        info.consensus,
        TipConsensusBranch { chain_tip: 0x5ba81b19, next_block: 0x5ba81b19 }
    );
}

#[test]
fn mainnet_lists_every_branch_id_in_height_order() {
    let info = chain_info_at(&Network::Mainnet, &tip(1, 1_000), &at(1_000));
    let ids: Vec<u32> = info.upgrades.keys().cloned().collect();
    assert_eq!(
        ids,
        vec![
            0x5ba81b19, 0x76b809bb, 0x2bb40e60, 0xf5b9230b, 0xe9ff75a6, 0xc2d6d0b4, 0xc8e71055,
            0x4dec4df0, 0x5437f330, 0x37a5165b, 0x77190ad9,
        ]
    );
    let heights: Vec<u32> = info.upgrades.values().map(|u| u.activation_height).collect();
    let mut sorted = heights.clone();
    sorted.sort();
    assert_eq!(heights, sorted);
    assert_eq!(heights[5], 1_687_104);
}

#[test]
fn branch_ids_change_between_tip_and_next_block() {
    let info = chain_info_at(&Network::Mainnet, &tip(419_199, 1_000), &at(1_000));
    assert_eq!(
        info.consensus,
        TipConsensusBranch { chain_tip: 0x5ba81b19, next_block: 0x76b809bb }
    );
    assert_eq!(info.upgrades[&0x5ba81b19].status, NetworkUpgradeStatus::Active);
    assert_eq!(info.upgrades[&0x76b809bb].status, NetworkUpgradeStatus::Pending);
}

#[test]
fn missing_branch_id_is_zero() {
    let info = chain_info_at(&Network::Mainnet, &tip(347_498, 1_000), &at(1_000));
    assert_eq!(info.consensus, TipConsensusBranch { chain_tip: 0, next_block: 0 });
    let info = chain_info_at(&Network::Mainnet, &tip(347_499, 1_000), &at(1_000));
    assert_eq!(info.consensus, TipConsensusBranch { chain_tip: 0, next_block: 0x5ba81b19 });
}

#[test]
fn tip_branch_is_listed_as_active() {
    for height in [347_500u32, 500_000, 1_046_400, 2_000_000, 3_400_000] {
        let info = chain_info_at(&Network::Mainnet, &tip(height, 1_000), &at(1_000));
        let current = info.upgrades.get(&info.consensus.chain_tip).unwrap();
        assert_eq!(current.status, NetworkUpgradeStatus::Active);
        let next = info.upgrades.get(&info.consensus.next_block).unwrap();
        assert!(next.activation_height <= height + 1);
    }
}

#[test]
fn test_networks_are_called_test() {
    let testnet = Network::new_default_testnet();
    assert_eq!(chain_info_at(&testnet, &tip(1, 1_000), &at(1_000)).chain, "test");
    assert_eq!(chain_info_at(&regtest(1, 1), &tip(1, 1_000), &at(1_000)).chain, "test");
}

#[test]
fn upgrades_scheduled_together_share_a_height() {
    let info = chain_info_at(&regtest(1, 1), &tip(0, 1_000), &at(1_000));
    let entries: Vec<(u32, NetworkUpgrade, u32)> = info
        .upgrades
        .iter()
        .map(|(id, u)| (*id, u.name, u.activation_height))
        .collect();
    assert_eq!(
        entries,
        vec![
            (0x5ba81b19, NetworkUpgrade::Overwinter, 1),
            (0x76b809bb, NetworkUpgrade::Sapling, 1),
            (0x2bb40e60, NetworkUpgrade::Blossom, 1),
            (0xf5b9230b, NetworkUpgrade::Heartwood, 1),
            (0xe9ff75a6, NetworkUpgrade::Canopy, 1),
            (0xc2d6d0b4, NetworkUpgrade::Nu5, 1),
            (0xc8e71055, NetworkUpgrade::Nu6, 1),
        ]
    );
    assert!(info.upgrades.values().all(|u| u.status == NetworkUpgradeStatus::Pending));
    assert_eq!(info.consensus, TipConsensusBranch { chain_tip: 0, next_block: 0xc8e71055 });
}

#[test]
fn estimate_counts_target_spacings() {
    // Blocks come every 75 seconds after Blossom.
    let info = chain_info_at(&Network::Mainnet, &tip(1_500_000, 1_000_000), &at(1_000_750));
    assert_eq!(info.estimated_height, 1_500_010);
    // Blocks came every 150 seconds before it.
    let info = chain_info_at(&Network::Mainnet, &tip(400_000, 1_000_000), &at(1_000_750));
    assert_eq!(info.estimated_height, 400_005);
}

#[test]
fn estimate_is_not_below_tip() {
    let info = chain_info_at(&Network::Mainnet, &tip(1_500_000, 1_000_000), &at(1_000_000));
    assert_eq!(info.estimated_height, 1_500_000);
    let info = chain_info_at(&Network::Mainnet, &tip(1_500_000, 1_000_000), &at(0));
    assert_eq!(info.estimated_height, 1_500_000);
}

#[test]
fn estimate_is_made_for_every_clock() {
    let network = Network::Mainnet;
    for (now, estimate) in [(MIN_TIME, 1_500_000), (MAX_TIME, 0x7fff_ffff)] {
        let info = chain_info_at(&network, &tip(1_500_000, 1_000_000), &at(now));
        assert_eq!(info.estimated_height, estimate);
    }
    let leap = Timestamp { secs: 1_000_799, nanos: 1_900_000_000 };
    let info = chain_info_at(&network, &tip(1_500_000, 1_000_049), &leap);
    assert_eq!(info.estimated_height, 1_500_010);
}

#[test]
fn estimate_is_made_from_far_tips() {
    let late = MAX_TIME - 150 * (0x7fff_ffff - 1);
    for network in [Network::Mainnet, regtest(0x7fff_fffe, 0x7fff_fffe)] {
        assert!(is_extrapolable(&at(late), 1, &at(MAX_TIME)));
        let info = chain_info_at(&network, &tip(1, late), &at(MAX_TIME));
        assert!(info.estimated_height >= 1);
        let early = MIN_TIME + 150 * 0x7fff_fffe;
        assert!(is_extrapolable(&at(early), 0x7fff_fffe, &at(MIN_TIME)));
        let info = chain_info_at(&network, &tip(0x7fff_fffe, early), &at(MIN_TIME));
        assert_eq!(info.estimated_height, 0x7fff_fffe);
    }
    assert!(!is_extrapolable(&at(late + 1), 1, &at(MAX_TIME)));
    assert!(!is_extrapolable(&at(0), 1, &at(MAX_TIME + 1)));
    assert!(!is_extrapolable(&at(0), 1, &at(MIN_TIME - 1)));
}

#[test]
fn estimate_prefers_the_extrapolation_unless_it_falls_behind() {
    assert_eq!(estimated_height(10, &at(5), &at(5), 12), 12);
    assert_eq!(estimated_height(10, &at(5), &at(9), 10), 10);
    assert_eq!(estimated_height(10, &at(5), &at(9), 9), 10);
}

#[test]
fn tip_from_the_future_is_its_own_estimate() {
    assert_eq!(estimated_height(10, &at(6), &at(5), 12), 10);
    let later = Timestamp { secs: 5, nanos: 1 };
    assert_eq!(estimated_height(10, &later, &at(5), 12), 10);
    assert_eq!(estimated_height(10, &at(5), &later, 12), 12);
}

#[test]
fn repeated_upgrade_keeps_its_place_and_takes_the_last_height() {
    let list = vec![
        (1u32, NetworkUpgrade::Genesis),
        (5, NetworkUpgrade::Sapling),
        (6, NetworkUpgrade::Blossom),
        (9, NetworkUpgrade::Sapling),
    ];
    let upgrades = network_upgrades(&list, 6);
    let entries: Vec<(u32, u32, NetworkUpgradeStatus)> =
        upgrades.iter().map(|(id, u)| (*id, u.activation_height, u.status)).collect();
    assert_eq!(
        entries,
        vec![
            (0x76b809bb, 9, NetworkUpgradeStatus::Pending),
            (0x2bb40e60, 6, NetworkUpgradeStatus::Active),
        ]
    );
}

#[test]
fn activation_heights_are_reached_from_the_height_on() {
    assert!(has_reached(Some(5), 5));
    assert!(!has_reached(Some(5), 4));
    assert!(!has_reached(None, u32::MAX));
}

#[test]
fn query_follows_the_tip_to_its_header() {
    let ChainInfoStep::Call(ReadRequest::TipPoolValues, query) = start_chain_info() else {
        panic!("expected a lookup of the tip");
    };
    let reply = Ok(ReadResponse::TipPoolValues {
        tip_height: 100,
        tip_hash: BlockHash([3; 32]),
        value_balance: ValueBalance::zero(),
    });
    let ChainInfoStep::Call(request, query) = resume_chain_info(query, reply) else {
        panic!("expected a lookup of the tip's header");
    };
    assert_eq!(request, ReadRequest::BlockHeader(HashOrHeight::Hash(BlockHash([3; 32]))));
    let reply = Ok(ReadResponse::BlockHeader(header_at(at(77))));
    let ChainInfoStep::ReadClock(found) = resume_chain_info(query, reply) else {
        panic!("expected a look at the clock");
    };
    assert_eq!(found.height, 100);
    assert_eq!(found.hash, BlockHash([3; 32]));
    assert_eq!(found.time, at(77));
}

#[test]
fn failed_lookups_end_the_query_with_their_reason() {
    for query in [
        ChainInfoQuery::PoolValues,
        ChainInfoQuery::TipHeader {
            height: 1,
            hash: BlockHash([0; 32]),
            value_balance: ValueBalance::zero(),
        },
    ] {
        match resume_chain_info(query, Err("no state".to_string())) {
            ChainInfoStep::Failed(StateServiceError::Generic(reason)) => {
                assert_eq!(reason, "no state")
            }
            other => panic!("unexpected step {:?}", other),
        }
    }
}

#[test]
fn unexpected_replies_end_the_query() {
    match resume_chain_info(ChainInfoQuery::PoolValues, Ok(ReadResponse::Other)) {
        ChainInfoStep::Failed(StateServiceError::Custom(message)) => {
            assert_eq!(message, "Unexpected response type for TipPoolValues")
        }
        other => panic!("unexpected step {:?}", other),
    }
    let query = ChainInfoQuery::TipHeader {
        height: 1,
        hash: BlockHash([0; 32]),
        value_balance: ValueBalance::zero(),
    };
    match resume_chain_info(query, Ok(ReadResponse::Depth(None))) {
        ChainInfoStep::Failed(StateServiceError::Custom(message)) => {
            assert_eq!(message, "Unexpected response type for BlockHeader")
        }
        other => panic!("unexpected step {:?}", other),
    }
}
