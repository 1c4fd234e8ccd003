use zaino_state::block::BlockStep;
use zaino_state::block_header::BlockHeaderStep;
use zaino_state::chain_info::{ChainInfoStep, ChainTip};
use zaino_state::error::StateServiceError;
use zaino_state::network::Timestamp;
use zaino_state::requests::ReadRequest;
use zaino_state::service::{BuildInfo, Readiness, StateService, StatusType};
use zaino_state::text::{BlockHash, HashOrHeight};
use zaino_state::trees::{orchard_tree_state, sapling_tree_state};
use zebra_chain::parameters::Network;
use zebra_chain::value_balance::ValueBalance;
use zebra_chain::{orchard, sapling};

fn build_info() -> BuildInfo {
    BuildInfo {
        commit_hash: "0123abc".to_string(),
        branch: "main".to_string(),
        build_date: "2025-01-31".to_string(),
        build_user: "builder".to_string(),
        version: "0.1.0".to_string(),
    }
}

fn syncing() -> StateService {
    StateService::spawn(
        build_info(),
        Network::Mainnet,
        "v2.1.0".to_string(),
        "/Zebra:2.1.0/".to_string(),
    )
}

#[test]
fn service_is_ready_once_the_state_is() {
    assert_eq!(syncing().status(), StatusType::Syncing);
    let service = syncing().finish_spawn(Ok(())).unwrap();
    assert_eq!(service.status(), StatusType::Ready);
    assert_eq!(service.data.network, Network::Mainnet);
    assert_eq!(service.data.build_info, build_info());
}

#[test]
fn failed_state_makes_no_service() {
    match syncing().finish_spawn(Err("closed".to_string())) {
        Err(StateServiceError::Generic(reason)) => assert_eq!(reason, "closed"),
        other => panic!("unexpected outcome {:?}", other),
    }
}

#[test]
fn info_is_what_the_validator_told() {
    let mut service = syncing().finish_spawn(Ok(())).unwrap();
    service.fetch_status_from_validator(Readiness::Pending);
    let info = service.get_info().unwrap();
    assert_eq!(info.build, "v2.1.0");
    assert_eq!(info.subversion, "/Zebra:2.1.0/");
}

#[test]
fn status_follows_the_readiness_of_the_state() {
    let mut service = syncing().finish_spawn(Ok(())).unwrap();
    assert_eq!(service.fetch_status_from_validator(Readiness::Pending), None);
    assert_eq!(service.status(), StatusType::Busy);
    assert_eq!(
        service.fetch_status_from_validator(Readiness::Ready),
        Some(StatusType::Ready)
    );
    assert_eq!(service.status(), StatusType::Ready);
    assert_eq!(
        service.fetch_status_from_validator(Readiness::Failed("closed".to_string())),
        Some(StatusType::CriticalError)
    );
    assert_eq!(service.status(), StatusType::CriticalError);
}

#[test]
fn queries_start_with_their_first_lookup() {
    let service = syncing();
    match service.get_blockchain_info() {
        ChainInfoStep::Call(request, _) => assert_eq!(request, ReadRequest::TipPoolValues),
        other => panic!("unexpected step {:?}", other),
    }
    match service.get_block("7".to_string(), Some(0)) {
        BlockStep::Call(request, _) => {
            assert_eq!(request, ReadRequest::Block(HashOrHeight::Height(7)))
        }
        other => panic!("unexpected step {:?}", other),
    }
    match service.get_block_header("7".to_string(), None) {
        BlockHeaderStep::Call(request, _) => {
            assert_eq!(request, ReadRequest::BlockHeader(HashOrHeight::Height(7)))
        }
        other => panic!("unexpected step {:?}", other),
    }
}

#[test]
fn blockchain_info_is_about_the_network_of_the_service() {
    let tip = ChainTip {
        height: 419_200,
        hash: BlockHash([1; 32]),
        value_balance: ValueBalance::zero(),
        time: Timestamp { secs: 1_000, nanos: 0 },
    };
    let info = syncing().finish_blockchain_info(&tip, &Timestamp { secs: 1_000, nanos: 5 });
    assert_eq!(info.chain, "main");
    assert_eq!(info.estimated_height, 419_200);
    assert_eq!(info.consensus.chain_tip, 0x76b809bb);
}

#[test]
fn empty_trees_have_no_notes() {
    let tree = sapling::tree::NoteCommitmentTree::default();
    let state = sapling_tree_state(&tree);
    assert_eq!(state.size, 0);
    assert_eq!(state.root, tree.hash());
    assert_ne!(state.root, [0; 32]);
    let tree = orchard::tree::NoteCommitmentTree::default();
    let state = orchard_tree_state(&tree);
    assert_eq!(state.size, 0);
    assert_eq!(state.root, <[u8; 32]>::from(tree.root()));
    assert_ne!(state.root, [0; 32]);
}

#[test]
fn trees_count_their_notes() {
    let mut tree = sapling::tree::NoteCommitmentTree::default();
    let empty = sapling_tree_state(&tree);
    let note = sapling::tree::NoteCommitmentUpdate::from_bytes(&[1; 32]).unwrap();
    tree.append(note).unwrap();
    let state = sapling_tree_state(&tree);
    assert_eq!(state.size, 1);
    assert_ne!(state.root, empty.root);
    let mut tree = orchard::tree::NoteCommitmentTree::default();
    let empty = orchard_tree_state(&tree);
    tree.append(Default::default()).unwrap();
    tree.append(Default::default()).unwrap();
    let state = orchard_tree_state(&tree);
    assert_eq!(state.size, 2);
    assert_ne!(state.root, empty.root);
}
