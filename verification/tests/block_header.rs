use zaino_state::block_header::{
    header_object, is_serializable, resume_block_header, start_block_header, BlockHeaderQuery,
    BlockHeaderStep, GetBlockHeader,
};
use zaino_state::error::StateServiceError;
use zaino_state::network::Timestamp;
use zaino_state::requests::{
    FoundHeader, Header, ReadRequest, ReadResponse, Reply, Solution, TreeState,
};
use zaino_state::text::{BlockHash, HashOrHeight};
use zebra_chain::parameters::Network;
use zebra_chain::serialization::{ZcashDeserialize, ZcashSerialize};
use zebra_chain::work::difficulty::CompactDifficulty;

fn counting(start: u8) -> [u8; 32] {
    let mut bytes = [0u8; 32];
    for i in 0..32u8 {
        bytes[i as usize] = start + i;
    }
    bytes
}

fn backwards(start: u8) -> [u8; 32] {
    let mut bytes = counting(start);
    bytes.reverse();
    bytes
}

fn header(solution: Solution) -> Header {
    Header {
        version: 4,
        previous_block_hash: BlockHash(counting(1)),
        merkle_root: counting(40),
        commitment_bytes: counting(80),
        time: Timestamp { secs: 0x0102_0304, nanos: 0 },
        difficulty_threshold: CompactDifficulty::from_bytes_in_display_order(&[
            0x1f, 0x07, 0xfe, 0xfd,
        ])
        .unwrap(),
        nonce: counting(120),
        solution,
    }
}

fn found(height: u32) -> FoundHeader {
    FoundHeader {
        header: header(Solution::Regtest([9; 36])),
        hash: BlockHash(counting(200)),
        height,
        next_block_hash: Some(BlockHash([7; 32])),
    }
}

fn tree() -> TreeState {
    TreeState { size: 12, root: counting(160) }
}

fn resume(query: BlockHeaderQuery, reply: Reply) -> BlockHeaderStep {
    resume_block_header(&Network::Mainnet, query, reply)
}

fn first_query(text: &str, verbose: Option<bool>) -> BlockHeaderQuery {
    match start_block_header(text, verbose) {
        BlockHeaderStep::Call(ReadRequest::BlockHeader(_), query) => query,
        other => panic!("unexpected step {:?}", other),
    }
}

fn rpc_error(step: BlockHeaderStep) -> (i64, String) {
    match step {
        BlockHeaderStep::Done(Err(StateServiceError::RpcError(error))) => {
            assert!(error.data.is_none());
            (error.code, error.message)
        }
        other => panic!("unexpected step {:?}", other),
    }
}

fn custom_error(step: BlockHeaderStep) -> String {
    match step {
        BlockHeaderStep::Done(Err(StateServiceError::Custom(message))) => message,
        other => panic!("unexpected step {:?}", other),
    }
}

fn generic_error(step: BlockHeaderStep) -> String {
    match step {
        BlockHeaderStep::Done(Err(StateServiceError::Generic(reason))) => reason,
        other => panic!("unexpected step {:?}", other),
    }
}

#[test]
fn verbose_query_makes_three_lookups() {
    let BlockHeaderStep::Call(request, query) = start_block_header("419200", Some(true)) else {
        panic!("expected a lookup of the header");
    };
    assert_eq!(request, ReadRequest::BlockHeader(HashOrHeight::Height(419200)));
    let step = resume(query, Ok(ReadResponse::BlockHeader(found(419200))));
    let BlockHeaderStep::Call(request, query) = step else {
        panic!("expected a lookup of the tree");
    };
    assert_eq!(request, ReadRequest::SaplingTree(HashOrHeight::Height(419200)));
    let step = resume(query, Ok(ReadResponse::SaplingTree(Some(tree()))));
    let BlockHeaderStep::Call(request, query) = step else {
        panic!("expected a lookup of the depth");
    };
    assert_eq!(request, ReadRequest::Depth(BlockHash(counting(200))));
    let step = resume(query, Ok(ReadResponse::Depth(Some(4))));
    let BlockHeaderStep::Done(Ok(GetBlockHeader::Object(object))) = step else {
        panic!("expected the header spelled out");
    };
    assert_eq!(object.hash, BlockHash(counting(200)));
    assert_eq!(object.confirmations, 5);
    assert_eq!(object.height, 419200);
    assert_eq!(object.version, 4);
    assert_eq!(object.merkle_root, counting(40));
    assert_eq!(object.final_sapling_root, backwards(160));
    assert_eq!(object.sapling_tree_size, 12);
    assert_eq!(object.time, 0x0102_0304);
    assert_eq!(object.nonce, backwards(120));
    assert!(matches!(object.solution, Solution::Regtest(bytes) if bytes == [9; 36]));
    assert_eq!(object.bits.bytes_in_display_order(), [0x1f, 0x07, 0xfe, 0xfd]);
    assert_eq!(object.previous_block_hash, BlockHash(counting(1)));
    assert_eq!(object.next_block_hash, Some(BlockHash([7; 32])));
}

#[test]
fn sapling_root_is_zero_before_sapling() {
    let query = BlockHeaderQuery::Depth { found: found(419_199), sapling_tree: tree() };
    match resume(query, Ok(ReadResponse::Depth(None))) {
        BlockHeaderStep::Done(Ok(GetBlockHeader::Object(object))) => {
            assert_eq!(object.final_sapling_root, [0; 32]);
            assert_eq!(object.sapling_tree_size, 12);
        }
        other => panic!("unexpected step {:?}", other),
    }
}

#[test]
fn sapling_root_is_zero_without_sapling() {
    let object = header_object(&found(5), &tree(), None, None);
    assert_eq!(object.final_sapling_root, [0; 32]);
    let object = header_object(&found(5), &tree(), None, Some(5));
    assert_eq!(object.final_sapling_root, backwards(160));
}

#[test]
fn confirmations_are_one_more_than_the_depth() {
    assert_eq!(header_object(&found(5), &tree(), Some(0), None).confirmations, 1);
    assert_eq!(header_object(&found(5), &tree(), Some(u32::MAX), None).confirmations, 4294967296);
    assert_eq!(header_object(&found(5), &tree(), None, None).confirmations, -1);
}

#[test]
fn nonce_and_root_turn_round_to_those_of_the_header_and_tree() {
    let mut object = header_object(&found(5), &tree(), None, Some(0));
    object.nonce.reverse();
    object.final_sapling_root.reverse();
    assert_eq!(object.nonce, found(5).header.nonce);
    assert_eq!(object.final_sapling_root, tree().root);
}

#[test]
fn query_is_raw_by_default() {
    for verbose in [None, Some(false)] {
        let query = first_query("5", verbose);
        match resume(query, Ok(ReadResponse::BlockHeader(found(5)))) {
            BlockHeaderStep::Done(Ok(GetBlockHeader::Raw(bytes))) => assert_eq!(bytes.len(), 177),
            other => panic!("unexpected step {:?}", other),
        }
    }
}

fn raw(header: Header) -> Vec<u8> {
    let found = FoundHeader {
        header,
        hash: BlockHash([0; 32]),
        height: 5,
        next_block_hash: None,
    };
    match resume(first_query("5", None), Ok(ReadResponse::BlockHeader(found))) {
        BlockHeaderStep::Done(Ok(GetBlockHeader::Raw(bytes))) => bytes,
        other => panic!("unexpected step {:?}", other),
    }
}

#[test]
fn serialized_header_holds_the_fields_in_order() {
    let bytes = raw(header(Solution::Regtest([9; 36])));
    assert_eq!(bytes[0..4], [4, 0, 0, 0]);
    assert_eq!(bytes[4..36], counting(1));
    assert_eq!(bytes[36..68], counting(40));
    assert_eq!(bytes[68..100], counting(80));
    assert_eq!(bytes[100..104], [4, 3, 2, 1]);
    assert_eq!(bytes[104..108], [0xfd, 0xfe, 0x07, 0x1f]);
    assert_eq!(bytes[108..140], counting(120));
    assert_eq!(bytes[140], 36);
    assert_eq!(bytes[141..177], [9; 36]);
}

#[test]
fn serialized_header_has_a_long_solution_on_public_networks() {
    let bytes = raw(header(Solution::Common([6; 1344])));
    assert_eq!(bytes.len(), 1487);
    assert_eq!(bytes[140..143], [0xfd, 0x40, 0x05]);
    assert_eq!(bytes[143..1487], [6; 1344]);
}

#[test]
fn serialized_header_can_be_read_back() {
    let bytes = raw(header(Solution::Common([6; 1344])));
    let read = zebra_chain::block::Header::zcash_deserialize(&bytes[..]).unwrap();
    assert_eq!(read.version, 4);
    assert_eq!(read.merkle_root.0, counting(40));
    assert_eq!(read.time.timestamp(), 0x0102_0304);
    assert_eq!(read.zcash_serialize_to_vec().unwrap(), bytes);
}

#[test]
fn greatest_version_and_time_have_a_serialized_form() {
    let mut newest = header(Solution::Regtest([9; 36]));
    newest.version = 0x7fff_ffff;
    newest.time = Timestamp { secs: 0xffff_ffff, nanos: 999_999_999 };
    let bytes = raw(newest);
    assert_eq!(bytes[0..4], [0xff, 0xff, 0xff, 0x7f]);
    assert_eq!(bytes[100..104], [0xff; 4]);
}

#[test]
fn serialized_headers_tell_headers_apart() {
    let plain = header(Solution::Regtest([9; 36]));
    let bytes = raw(plain);
    let mut other = plain;
    other.version = 5;
    assert_ne!(raw(other), bytes);
    let mut other = plain;
    other.previous_block_hash = BlockHash([0; 32]);
    assert_ne!(raw(other), bytes);
    let mut other = plain;
    other.merkle_root = [0; 32];
    assert_ne!(raw(other), bytes);
    let mut other = plain;
    other.time.secs = 0;
    assert_ne!(raw(other), bytes);
    let mut other = plain;
    other.nonce = [0; 32];
    assert_ne!(raw(other), bytes);
    assert_ne!(raw(header(Solution::Regtest([8; 36]))), bytes);
}

#[test]
fn headers_without_a_serialized_form_are_told() {
    let plain = header(Solution::Regtest([9; 36]));
    assert!(is_serializable(&plain));
    let mut leap = plain;
    leap.time = Timestamp { secs: 59, nanos: 1_500_000_000 };
    assert!(is_serializable(&leap));
    assert_eq!(raw(leap)[100..104], [59, 0, 0, 0]);
    for version in [3, 0x8000_0000] {
        let mut other = plain;
        other.version = version;
        assert!(!is_serializable(&other));
    }
    for (secs, nanos) in [(-1, 0), (0x1_0000_0000, 0), (60, 1_000_000_000), (59, 2_000_000_000)] {
        let mut other = plain;
        other.time = Timestamp { secs, nanos };
        assert!(!is_serializable(&other));
    }
}

#[test]
fn missing_header_code_tells_hash_from_height() {
    let text = "00".repeat(32);
    for verbose in [None, Some(true)] {
        let query = first_query(&text, verbose);
        assert_eq!(
            rpc_error(resume(query, Err("gone".to_string()))),
            (-5, "block height not in best chain".to_string())
        );
        let query = first_query("5", verbose);
        assert_eq!(
            rpc_error(resume(query, Err("gone".to_string()))),
            (-8, "block height not in best chain".to_string())
        );
    }
}

#[test]
fn missing_sapling_tree_is_an_error() {
    let by_hash = HashOrHeight::Hash(BlockHash([1; 32]));
    for (block, code) in [(by_hash, -5), (HashOrHeight::Height(5), -8)] {
        let query = BlockHeaderQuery::SaplingTree { block, found: found(5) };
        assert_eq!(
            rpc_error(resume(query, Ok(ReadResponse::SaplingTree(None)))),
            (code, "missing sapling tree for block".to_string())
        );
    }
}

#[test]
fn later_lookups_that_fail_pass_their_reason_on() {
    let query = BlockHeaderQuery::SaplingTree { block: HashOrHeight::Height(5), found: found(5) };
    assert_eq!(generic_error(resume(query, Err("no tree".to_string()))), "no tree");
    let query = BlockHeaderQuery::Depth { found: found(5), sapling_tree: tree() };
    assert_eq!(generic_error(resume(query, Err("no depth".to_string()))), "no depth");
}

#[test]
fn replies_of_another_kind_are_errors() {
    let query = first_query("5", Some(true));
    assert_eq!(
        custom_error(resume(query, Ok(ReadResponse::Other))),
        "Unexpected response to BlockHeader request"
    );
    let query = BlockHeaderQuery::SaplingTree { block: HashOrHeight::Height(5), found: found(5) };
    assert_eq!(
        custom_error(resume(query, Ok(ReadResponse::OrchardTree(Some(tree()))))),
        "Unexpected response to SaplingTree request"
    );
    let query = BlockHeaderQuery::Depth { found: found(5), sapling_tree: tree() };
    assert_eq!(
        custom_error(resume(query, Ok(ReadResponse::Block(None)))),
        "Unexpected response to Depth request"
    );
}

#[test]
fn text_that_names_no_block_ends_the_query() {
    match start_block_header("tip", Some(true)) {
        BlockHeaderStep::Done(Err(StateServiceError::SerializationError(message))) => {
            assert_eq!(message, "could not convert the input string to a hash or height")
        }
        other => panic!("unexpected step {:?}", other),
    }
}
