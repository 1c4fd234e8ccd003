use std::sync::Arc;
use zaino_state::block_data::{serialize_block, transaction_data, Block, MAX_TRANSACTIONS};
use zaino_state::network::Timestamp;
use zaino_state::requests::{Header, Solution};
use zaino_state::text::BlockHash;
use zebra_chain::serialization::{ZcashDeserialize, ZcashSerialize};
use zebra_chain::transaction::Transaction;
use zebra_chain::work::difficulty::CompactDifficulty;

/// A transaction with one input and one output, as it is serialized.
fn transaction_bytes(value: u8) -> Vec<u8> {
    let mut bytes = vec![1, 0, 0, 0, 1];
    bytes.extend([6; 32]);
    bytes.extend([0, 0, 0, 0, 0]);
    bytes.extend([0xff; 4]);
    bytes.extend([1, value, 0, 0, 0, 0, 0, 0, 0, 1, 0x51]);
    bytes.extend([0; 4]);
    bytes
}

fn transaction(value: u8) -> Arc<Transaction> {
    Arc::new(Transaction::zcash_deserialize(&transaction_bytes(value)[..]).unwrap())
}

fn header() -> Header {
    Header {
        version: 4,
        previous_block_hash: BlockHash([1; 32]),
        merkle_root: [2; 32],
        commitment_bytes: [3; 32],
        time: Timestamp { secs: 1_700_000_000, nanos: 0 },
        difficulty_threshold: CompactDifficulty::from_bytes_in_display_order(&[
            0x1f, 0x07, 0xff, 0xff,
        ])
        .unwrap(),
        nonce: [4; 32],
        solution: Solution::Regtest([5; 36]),
    }
}

fn block(transactions: Vec<Arc<Transaction>>) -> Block {
    Block { header: header(), transactions }
}

#[test]
fn transactions_are_serialized_in_block_order() {
    let data = transaction_data(&vec![transaction(7), transaction(9), transaction(8)]);
    assert_eq!(
        data,
        Some(vec![transaction_bytes(7), transaction_bytes(9), transaction_bytes(8)])
    );
    assert_eq!(transaction_data(&Vec::new()), Some(Vec::new()));
}

#[test]
fn serialized_block_holds_header_and_transactions() {
    let bytes = serialize_block(&block(vec![transaction(7), transaction(9)])).unwrap();
    assert_eq!(bytes[0..4], [4, 0, 0, 0]);
    assert_eq!(bytes[4..36], [1; 32]);
    assert_eq!(bytes[36..68], [2; 32]);
    assert_eq!(bytes[141..177], [5; 36]);
    assert_eq!(bytes[177], 2);
    assert_eq!(bytes[178..], [transaction_bytes(7), transaction_bytes(9)].concat());
}

#[test]
fn serialized_block_can_be_read_back() {
    let bytes = serialize_block(&block(vec![transaction(7), transaction(9)])).unwrap();
    let read = zebra_chain::block::Block::zcash_deserialize(&bytes[..]).unwrap();
    assert_eq!(read.transactions.len(), 2);
    assert_eq!(read.header.nonce[..], [4; 32]);
    assert_eq!(read.zcash_serialize_to_vec().unwrap(), bytes);
}

#[test]
fn number_of_transactions_takes_as_many_bytes_as_it_needs() {
    for (count, expected) in [
        (0usize, vec![0u8]),
        (0xfc, vec![0xfc]),
        (0xfd, vec![0xfd, 0xfd, 0]),
        (0xffff, vec![0xfd, 0xff, 0xff]),
        (0x1_0000, vec![0xfe, 0, 0, 1, 0]),
    ] {
        let bytes = serialize_block(&block(vec![transaction(7); count])).unwrap();
        assert_eq!(bytes[177..177 + expected.len()], expected);
        assert_eq!(
            bytes.len(),
            177 + expected.len() + count * transaction_bytes(7).len()
        );
    }
}

#[test]
fn blocks_without_a_serialized_form_give_nothing() {
    let mut old = block(vec![transaction(7)]);
    old.header.version = 3;
    assert_eq!(serialize_block(&old), None);
    let mut early = block(vec![transaction(7)]);
    early.header.time.secs = -1;
    assert_eq!(serialize_block(&early), None);
    assert_eq!(serialize_block(&block(vec![transaction(7); MAX_TRANSACTIONS + 1])), None);
}
