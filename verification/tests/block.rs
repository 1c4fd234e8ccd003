use zaino_state::block::{
    block_object, resume_block, start_block, BlockEvent, BlockObject, BlockQuery, BlockStep,
    BlockTrees, GetBlock, TransactionData,
};
use zaino_state::block_header::{header_object, BlockHeaderObject, BlockHeaderQuery};
use zaino_state::error::StateServiceError;
use zaino_state::network::Timestamp;
use zaino_state::requests::{
    FoundHeader, Header, ReadRequest, ReadResponse, Reply, Solution, TreeState,
};
use zaino_state::text::{BlockHash, HashOrHeight, TransactionId};
use zebra_chain::parameters::Network;
use zebra_chain::work::difficulty::CompactDifficulty;

const NU5: u32 = 1_687_104;

fn hash() -> BlockHash {
    BlockHash([8; 32])
}

fn found(height: u32) -> FoundHeader {
    let mut nonce = [0; 32];
    nonce[0] = 1;
    FoundHeader {
        header: Header {
            version: 4,
            previous_block_hash: BlockHash([1; 32]),
            merkle_root: [2; 32],
            commitment_bytes: [3; 32],
            time: Timestamp { secs: 1_700_000_000, nanos: 0 },
            difficulty_threshold: CompactDifficulty::from_bytes_in_display_order(&[
                0x1f, 0x07, 0xff, 0xff,
            ])
            .unwrap(),
            nonce,
            solution: Solution::Regtest([5; 36]),
        },
        hash: hash(),
        height,
        next_block_hash: None,
    }
}

fn sapling() -> TreeState {
    TreeState { size: 20, root: [6; 32] }
}

fn orchard() -> TreeState {
    TreeState { size: 30, root: [7; 32] }
}

fn resume(query: BlockQuery, event: BlockEvent) -> BlockStep {
    resume_block(&Network::Mainnet, query, event)
}

fn call(step: BlockStep) -> (ReadRequest, BlockQuery) {
    match step {
        BlockStep::Call(request, query) => (request, query),
        other => panic!("unexpected step {:?}", other),
    }
}

fn object(step: BlockStep) -> BlockObject {
    match step {
        BlockStep::Done(Ok(GetBlock::Object(object))) => object,
        other => panic!("unexpected step {:?}", other),
    }
}

fn rpc_error(step: BlockStep) -> (i64, String) {
    match step {
        BlockStep::Done(Err(StateServiceError::RpcError(error))) => {
            assert!(error.data.is_none());
            (error.code, error.message)
        }
        other => panic!("unexpected step {:?}", other),
    }
}

fn generic_error(step: BlockStep) -> String {
    match step {
        BlockStep::Done(Err(StateServiceError::Generic(reason))) => reason,
        other => panic!("unexpected step {:?}", other),
    }
}

fn header(height: u32) -> BlockHeaderObject {
    header_object(&found(height), &sapling(), Some(9), Some(419_200))
}

fn body(block: HashOrHeight, height: u32) -> BlockQuery {
    BlockQuery::Body {
        block,
        header: header(height),
        tx: None,
        transactions: TransactionData::Omitted,
        orchard_tree: None,
    }
}

fn body_with_data(block: HashOrHeight, height: u32) -> BlockQuery {
    BlockQuery::Body {
        block,
        header: header(height),
        tx: None,
        transactions: TransactionData::Awaited,
        orchard_tree: None,
    }
}

fn ids() -> BlockEvent {
    let ids = vec![TransactionId([0xab; 32]), TransactionId([0xcd; 32])];
    BlockEvent::TransactionIds(Ok(ReadResponse::TransactionIdsForBlock(Some(ids))))
}

fn data() -> BlockEvent {
    let data = vec![vec![1, 2], vec![3]];
    BlockEvent::Transactions(Ok(ReadResponse::BlockTransactions(Some(data))))
}

fn tree() -> BlockEvent {
    BlockEvent::OrchardTree(Ok(ReadResponse::OrchardTree(Some(orchard()))))
}

fn check_object(object: BlockObject, height: u32, orchard_root: Option<[u8; 32]>) {
    let mut nonce = [0; 32];
    nonce[31] = 1;
    assert_eq!(object.hash, hash());
    assert_eq!(object.confirmations, 10);
    assert_eq!(object.size, None);
    assert_eq!(object.height, Some(height));
    assert_eq!(object.version, Some(4));
    assert_eq!(object.merkle_root, Some([2; 32]));
    assert_eq!(object.final_sapling_root, Some([6; 32]));
    assert_eq!(object.final_orchard_root, orchard_root);
    assert_eq!(object.tx, vec!["ab".repeat(32), "cd".repeat(32)]);
    assert_eq!(object.time, Some(1_700_000_000));
    assert_eq!(object.nonce, Some(nonce));
    assert!(matches!(object.solution, Some(Solution::Regtest(bytes)) if bytes == [5; 36]));
    assert_eq!(object.bits.unwrap().bytes_in_display_order(), [0x1f, 0x07, 0xff, 0xff]);
    assert_eq!(object.trees, BlockTrees { sapling: 20, orchard: 30 });
    assert_eq!(object.previous_block_hash, Some(BlockHash([1; 32])));
    assert_eq!(object.next_block_hash, None);
}

#[test]
fn raw_block_takes_one_lookup() {
    let (request, query) = call(start_block("1", Some(0)));
    assert_eq!(request, ReadRequest::Block(HashOrHeight::Height(1)));
    let reply = Ok(ReadResponse::Block(Some(vec![1, 2, 3])));
    match resume(query, BlockEvent::Reply(reply)) {
        BlockStep::Done(Ok(GetBlock::Raw(bytes))) => assert_eq!(bytes, vec![1, 2, 3]),
        other => panic!("unexpected step {:?}", other),
    }
}

#[test]
fn block_object_is_gathered_from_five_lookups() {
    for verbosity in [None, Some(1), Some(3)] {
        let (request, query) = call(start_block(&NU5.to_string(), verbosity));
        assert_eq!(request, ReadRequest::BlockHeader(HashOrHeight::Height(NU5)));
        let reply: Reply = Ok(ReadResponse::BlockHeader(found(NU5)));
        let (request, query) = call(resume(query, BlockEvent::Reply(reply)));
        assert_eq!(request, ReadRequest::SaplingTree(HashOrHeight::Height(NU5)));
        let reply: Reply = Ok(ReadResponse::SaplingTree(Some(sapling())));
        let (request, query) = call(resume(query, BlockEvent::Reply(reply)));
        assert_eq!(request, ReadRequest::Depth(hash()));
        let reply: Reply = Ok(ReadResponse::Depth(Some(9)));
        let step = resume(query, BlockEvent::Reply(reply));
        let BlockStep::CallBody { transaction_ids, transactions, orchard_tree, query } = step else {
            panic!("expected the lookups of the body");
        };
        assert_eq!(transactions, None);
        assert_eq!(
            transaction_ids,
            ReadRequest::TransactionIdsForBlock(HashOrHeight::Hash(hash()))
        );
        assert_eq!(orchard_tree, ReadRequest::OrchardTree(HashOrHeight::Hash(hash())));
        let BlockStep::Wait(query) = resume(query, ids()) else {
            panic!("expected to wait for the tree");
        };
        let answer = object(resume(query, tree()));
        assert_eq!(answer.transactions, None);
        check_object(answer, NU5, Some([7; 32]));
    }
}

#[test]
fn verbosity_two_carries_transaction_data() {
    let (request, query) = call(start_block(&NU5.to_string(), Some(2)));
    assert_eq!(request, ReadRequest::BlockHeader(HashOrHeight::Height(NU5)));
    let reply: Reply = Ok(ReadResponse::BlockHeader(found(NU5)));
    let (_, query) = call(resume(query, BlockEvent::Reply(reply)));
    let reply: Reply = Ok(ReadResponse::SaplingTree(Some(sapling())));
    let (_, query) = call(resume(query, BlockEvent::Reply(reply)));
    let reply: Reply = Ok(ReadResponse::Depth(Some(9)));
    let step = resume(query, BlockEvent::Reply(reply));
    let BlockStep::CallBody { transaction_ids, transactions, orchard_tree, query } = step else {
        panic!("expected the lookups of the body");
    };
    let by_hash = HashOrHeight::Hash(hash());
    assert_eq!(transaction_ids, ReadRequest::TransactionIdsForBlock(by_hash));
    assert_eq!(transactions, Some(ReadRequest::Block(by_hash)));
    assert_eq!(orchard_tree, ReadRequest::OrchardTree(by_hash));
    let BlockStep::Wait(query) = resume(query, ids()) else {
        panic!("expected to wait for the tree and the data");
    };
    let BlockStep::Wait(query) = resume(query, tree()) else {
        panic!("expected to wait for the data");
    };
    let answer = object(resume(query, data()));
    assert_eq!(answer.transactions, Some(vec![vec![1, 2], vec![3]]));
    check_object(answer, NU5, Some([7; 32]));
}

#[test]
fn data_may_come_at_any_time() {
    let orders: [[fn() -> BlockEvent; 3]; 6] = [
        [ids, data, tree],
        [ids, tree, data],
        [data, ids, tree],
        [data, tree, ids],
        [tree, ids, data],
        [tree, data, ids],
    ];
    for order in orders {
        let mut query = body_with_data(HashOrHeight::Height(NU5), NU5);
        for event in &order[..2] {
            query = match resume(query, event()) {
                BlockStep::Wait(query) => query,
                other => panic!("unexpected step {:?}", other),
            };
        }
        let answer = object(resume(query, order[2]()));
        assert_eq!(answer.transactions, Some(vec![vec![1, 2], vec![3]]));
        check_object(answer, NU5, Some([7; 32]));
    }
}

#[test]
fn answer_does_not_depend_on_which_lookup_is_first() {
    let BlockStep::Wait(query) = resume(body(HashOrHeight::Height(NU5), NU5), tree()) else {
        panic!("expected to wait for the ids");
    };
    check_object(object(resume(query, ids())), NU5, Some([7; 32]));
    let BlockStep::Wait(query) = resume(body(HashOrHeight::Height(NU5), NU5), ids()) else {
        panic!("expected to wait for the tree");
    };
    check_object(object(resume(query, tree())), NU5, Some([7; 32]));
}

#[test]
fn orchard_root_is_left_out_before_nu5() {
    let BlockStep::Wait(query) = resume(body(HashOrHeight::Height(NU5 - 1), NU5 - 1), ids()) else {
        panic!("expected to wait for the tree");
    };
    check_object(object(resume(query, tree())), NU5 - 1, None);
}

#[test]
fn orchard_root_is_left_out_without_nu5() {
    let without = block_object(&header(NU5), Vec::new(), None, &orchard(), None);
    assert_eq!(without.final_orchard_root, None);
    assert_eq!(without.trees.orchard, 30);
    let with = block_object(&header(NU5), Vec::new(), None, &orchard(), Some(NU5));
    assert_eq!(with.final_orchard_root, Some([7; 32]));
}

#[test]
fn missing_block_code_tells_hash_from_height() {
    for (block, code) in [(HashOrHeight::Hash(hash()), -5), (HashOrHeight::Height(1), -8)] {
        let missing = BlockEvent::Reply(Ok(ReadResponse::Block(None)));
        assert_eq!(
            rpc_error(resume(BlockQuery::Raw { block }, missing)),
            (code, "Block not found".to_string())
        );
        let query = BlockHeaderQuery::Header { block, verbose: true };
        let missing = BlockEvent::Reply(Err("gone".to_string()));
        assert_eq!(
            rpc_error(resume(BlockQuery::Header { block, with_data: false, query }, missing)),
            (code, "block height not in best chain".to_string())
        );
        let missing =
            BlockEvent::TransactionIds(Ok(ReadResponse::TransactionIdsForBlock(None)));
        assert_eq!(
            rpc_error(resume(body(block, 1), missing)),
            (code, "Block not found".to_string())
        );
        let query = BlockHeaderQuery::SaplingTree { block, found: found(1) };
        let missing = BlockEvent::Reply(Ok(ReadResponse::SaplingTree(None)));
        assert_eq!(
            rpc_error(resume(BlockQuery::Header { block, with_data: true, query }, missing)),
            (code, "missing sapling tree for block".to_string())
        );
        let missing = BlockEvent::Transactions(Ok(ReadResponse::BlockTransactions(None)));
        assert_eq!(
            rpc_error(resume(body_with_data(block, 1), missing)),
            (code, "Block not found".to_string())
        );
        let missing = BlockEvent::OrchardTree(Ok(ReadResponse::OrchardTree(None)));
        assert_eq!(
            rpc_error(resume(body(block, 1), missing)),
            (code, "Missing orchard tree for block.".to_string())
        );
    }
}

#[test]
fn failed_body_lookups_end_the_query_with_their_reason() {
    let block = HashOrHeight::Height(1);
    let failed = || Err("no state".to_string());
    assert_eq!(
        generic_error(resume(BlockQuery::Raw { block }, BlockEvent::Reply(failed()))),
        "no state"
    );
    assert_eq!(
        generic_error(resume(body(block, 1), BlockEvent::TransactionIds(failed()))),
        "no state"
    );
    assert_eq!(
        generic_error(resume(body_with_data(block, 1), BlockEvent::Transactions(failed()))),
        "no state"
    );
    let BlockStep::Wait(query) = resume(body(block, 1), ids()) else {
        panic!("expected to wait for the tree");
    };
    assert_eq!(generic_error(resume(query, BlockEvent::OrchardTree(failed()))), "no state");
}

#[test]
fn unexpected_header_replies_end_the_query() {
    let (_, query) = call(start_block("1", None));
    match resume(query, BlockEvent::Reply(Ok(ReadResponse::Other))) {
        BlockStep::Done(Err(StateServiceError::Custom(message))) => {
            assert_eq!(message, "Unexpected response to BlockHeader request")
        }
        other => panic!("unexpected step {:?}", other),
    }
    let query = BlockQuery::Header {
        block: HashOrHeight::Height(1),
        with_data: false,
        query: BlockHeaderQuery::Header { block: HashOrHeight::Height(1), verbose: false },
    };
    match resume(query, BlockEvent::Reply(Ok(ReadResponse::BlockHeader(found(1))))) {
        BlockStep::Done(Err(StateServiceError::Custom(message))) => {
            assert_eq!(message, "Unexpected response type for BlockHeader")
        }
        other => panic!("unexpected step {:?}", other),
    }
}

#[test]
fn unknown_verbosity_is_refused() {
    for verbosity in [4, 255] {
        assert_eq!(
            rpc_error(start_block("1", Some(verbosity))),
            (-32602, "Invalid verbosity value".to_string())
        );
    }
}

#[test]
fn text_that_names_no_block_is_refused_whatever_the_verbosity() {
    for verbosity in [None, Some(0), Some(1), Some(2), Some(3), Some(4)] {
        match start_block("tip", verbosity) {
            BlockStep::Done(Err(StateServiceError::SerializationError(message))) => {
                assert_eq!(message, "could not convert the input string to a hash or height")
            }
            other => panic!("unexpected step {:?}", other),
        }
    }
}
