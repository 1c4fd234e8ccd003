//! What the queries read off the blocks that the state returns.

use vstd::prelude::*;

use std::sync::Arc;
use zebra_chain::block::merkle::Root;
use zebra_chain::serialization::ZcashSerialize;
use zebra_chain::transaction::Transaction;
use zebra_chain::work::equihash::Solution as ZebraSolution;

use crate::block_header::{has_serialized_form, header_bytes, is_serializable, le_bytes};
use crate::requests::{Header, Solution};

verus! {

/// `zebra_chain::transaction::Transaction`, a transaction in a block.
#[verifier::external_type_specification]
#[verifier::external_body]
pub struct ExTransaction(Transaction);

/// The greatest number of transactions that a serialized block can count.
pub const MAX_TRANSACTIONS: usize = 0x20_0000;

/// A whole block.
#[derive(Clone, Debug)]
pub struct Block {
    pub header: Header,
    /// The transactions, in block order.
    pub transactions: Vec<Arc<Transaction>>,
}

/// The serialized form of a transaction, or nothing where it has none: what
/// `ZcashSerialize::zcash_serialize_to_vec` gives.
pub uninterp spec fn serialized_transaction(transaction: Transaction) -> Option<Seq<u8>>;

/// The serialized form of each of some transactions, in order, or nothing where one has none.
pub open spec fn serialized_transactions(transactions: Seq<Arc<Transaction>>) -> Option<
    Seq<Seq<u8>>,
> {
    if forall|i: int|
        0 <= i < transactions.len() ==> serialized_transaction(
            *#[trigger] transactions[i],
        ) is Some {
        Some(Seq::new(transactions.len(), |i: int| serialized_transaction(*transactions[i])->0))
    } else {
        None
    }
}

/// A serialized count: one byte where that is enough, else a mark and the bytes of the number, the
/// lowest first.
pub open spec fn compact_size(count: nat) -> Seq<u8> {
    if count < 0xfd {
        seq![count as u8]
    } else if count <= 0xffff {
        seq![0xfdu8] + le_bytes(count as int).take(2)
    } else {
        seq![0xfeu8] + le_bytes(count as int)
    }
}

/// The serialized form of a block, or nothing where it has none: its header, the number of its
/// transactions, and the transactions in order.
pub open spec fn serialized_block(block: Block) -> Option<Seq<u8>> {
    match serialized_transactions(block.transactions@) {
        Some(transactions) if has_serialized_form(block.header) && transactions.len()
            <= MAX_TRANSACTIONS => Some(
            header_bytes(block.header) + compact_size(transactions.len()) + transactions.flatten(),
        ),
        _ => None,
    }
}

/// The contents of some byte vectors.
pub open spec fn bytes_of(data: Seq<Vec<u8>>) -> Seq<Seq<u8>> {
    data.map_values(|bytes: Vec<u8>| bytes@)
}

/// Calls `zebra_chain::serialization::ZcashSerialize::zcash_serialize_to_vec` on a
/// `zebra_chain::transaction::Transaction`.
///
/// Claims that the bytes, and whether there are any, depend on the transaction alone.
#[verifier::external_body]
fn serialize_transaction(transaction: &Transaction) -> (bytes: Option<Vec<u8>>)
    ensures
        match bytes {
            Some(bytes) => serialized_transaction(*transaction) == Some(bytes@),
            None => serialized_transaction(*transaction) is None,
        },
{
    transaction.zcash_serialize_to_vec().ok()
}

/// Calls `zebra_chain::serialization::ZcashSerialize::zcash_serialize_to_vec` on a
/// `zebra_chain::block::Block`.
///
/// Claims that the bytes are those of the header, of the number of transactions, and of the
/// transactions in order, and that there are none where a transaction has no serialized form.
#[verifier::external_body]
fn serialize_sound_block(block: &Block) -> (bytes: Option<Vec<u8>>)
    requires
        has_serialized_form(block.header),
        block.transactions@.len() <= MAX_TRANSACTIONS,
    ensures
        match bytes {
            Some(bytes) => serialized_block(*block) == Some(bytes@),
            None => serialized_block(*block) is None,
        },
{
    let header = &block.header;
    zebra_chain::block::Block {
        header: Arc::new(zebra_chain::block::Header {
            version: header.version,
            previous_block_hash: zebra_chain::block::Hash(header.previous_block_hash.0),
            merkle_root: Root(header.merkle_root),
            commitment_bytes: header.commitment_bytes.into(),
            time: chrono::DateTime::from_timestamp(header.time.secs, header.time.nanos).unwrap(),
            difficulty_threshold: header.difficulty_threshold,
            nonce: header.nonce.into(),
            solution: match header.solution { Solution::Common(b) => ZebraSolution::Common(b),
                Solution::Regtest(b) => ZebraSolution::Regtest(b) },
        }),
        transactions: block.transactions.clone(),
    }.zcash_serialize_to_vec().ok()
}

/// Serializes a block. Returns nothing where the block has no serialized form.
pub fn serialize_block(block: &Block) -> (bytes: Option<Vec<u8>>)
    ensures
        match bytes {
            Some(bytes) => serialized_block(*block) == Some(bytes@),
            None => serialized_block(*block) is None,
        },
        bytes is Some <==> has_serialized_form(block.header) && block.transactions@.len()
            <= MAX_TRANSACTIONS && forall|i: int|
            0 <= i < block.transactions@.len() ==> serialized_transaction(
                *#[trigger] block.transactions@[i],
            ) is Some,
{
    if is_serializable(&block.header) && block.transactions.len() <= MAX_TRANSACTIONS {
        serialize_sound_block(block)
    } else {
        None
    }
}

/// Serializes each of some transactions. Returns nothing where one has no serialized form.
pub fn transaction_data(transactions: &Vec<Arc<Transaction>>) -> (data: Option<Vec<Vec<u8>>>)
    ensures
        match data {
            Some(data) => serialized_transactions(transactions@) == Some(bytes_of(data@)),
            None => serialized_transactions(transactions@) is None,
        },
        data is Some ==> data->0@.len() == transactions@.len() && forall|i: int|
            0 <= i < transactions@.len() ==> serialized_transaction(*#[trigger] transactions@[i])
                == Some(data->0@[i]@),
        data is None ==> exists|i: int|
            0 <= i < transactions@.len() && serialized_transaction(
                *#[trigger] transactions@[i],
            ) is None,
{
    let mut data: Vec<Vec<u8>> = Vec::new();
    let mut i: usize = 0;
    while i < transactions.len()
        invariant
            i <= transactions.len(),
            data.len() == i,
            forall|j: int|
                0 <= j < i ==> serialized_transaction(*#[trigger] transactions@[j]) == Some(
                    data@[j]@,
                ),
        decreases transactions.len() - i,
    {
        match serialize_transaction(&transactions[i]) {
            Some(bytes) => {
                data.push(bytes);
            },
            None => {
                assert(serialized_transaction(*transactions@[i as int]) is None);
                return None;
            },
        }
        i = i + 1;
    }
    assert(serialized_transactions(transactions@)->0 =~= bytes_of(data@));
    Some(data)
}

/// A block with a serialized form starts with its header, and the data of its transactions follows
/// the number of them, in block order.
pub proof fn law_serialized_block_holds_header_and_transactions(block: Block)
    requires
        serialized_block(block) is Some,
    ensures
        ({
            let bytes = serialized_block(block)->0;
            let header = header_bytes(block.header);
            let count = compact_size(block.transactions@.len());
            &&& serialized_transactions(block.transactions@) is Some
            &&& header.is_prefix_of(bytes)
            &&& bytes.skip((header.len() + count.len()) as int) == serialized_transactions(
                block.transactions@,
            )->0.flatten()
        }),
{
    let bytes = serialized_block(block)->0;
    let header = header_bytes(block.header);
    let transactions = serialized_transactions(block.transactions@)->0;
    let count = compact_size(transactions.len());
    assert(bytes.take(header.len() as int) =~= header);
    assert(bytes.skip((header.len() + count.len()) as int) =~= transactions.flatten());
}

/// Transactions have serialized forms together exactly where each has one, and then the form at
/// each index is that of the transaction at that index.
pub proof fn law_serialized_transactions_keep_block_order(
    transactions: Seq<Arc<Transaction>>,
    i: int,
)
    ensures
        serialized_transactions(transactions) is Some <==> forall|k: int|
            0 <= k < transactions.len() ==> serialized_transaction(
                *#[trigger] transactions[k],
            ) is Some,
        serialized_transactions(transactions) matches Some(forms) ==> forms.len()
            == transactions.len(),
        serialized_transactions(transactions) is Some && 0 <= i < transactions.len() ==> Some(
            serialized_transactions(transactions)->0[i],
        ) == serialized_transaction(*transactions[i]),
{
    if serialized_transactions(transactions) is Some && 0 <= i < transactions.len() {
        assert(serialized_transaction(*transactions[i]) is Some);
    }
}

/// A block has a serialized form exactly where its version is at least 4 with its highest bit
/// clear, its time is a valid number of seconds in 32 bits, its transactions are not too many to
/// count, and each of them has one, whatever else it holds; and the form is the header's, the
/// number of transactions, and theirs in order.
pub proof fn law_which_blocks_have_a_serialized_form(block: Block)
    ensures
        serialized_block(block) is Some <==> {
            &&& 4 <= block.header.version < 0x8000_0000
            &&& 0 <= block.header.time.secs < 0x1_0000_0000
            &&& block.header.time.valid()
            &&& block.transactions@.len() <= 2 * 1024 * 1024
            &&& forall|k: int|
                0 <= k < block.transactions@.len() ==> serialized_transaction(
                    *#[trigger] block.transactions@[k],
                ) is Some
        },
        serialized_block(block) is Some ==> serialized_block(block)->0 == header_bytes(block.header)
            + compact_size(block.transactions@.len()) + Seq::new(
            block.transactions@.len(),
            |k: int| serialized_transaction(*block.transactions@[k])->0,
        ).flatten(),
{
    if serialized_block(block) is Some {
        assert(serialized_transactions(block.transactions@)->0 =~= Seq::new(
            block.transactions@.len(),
            |k: int| serialized_transaction(*block.transactions@[k])->0,
        ));
    }
}

/// Whether a block has a serialized form does not depend on its hashes, difficulty, nonce or
/// solution.
pub proof fn law_other_fields_do_not_decide_on_a_serialized_form(a: Block, b: Block)
    requires
        a.header.version == b.header.version,
        a.header.time == b.header.time,
        a.transactions@ == b.transactions@,
    ensures
        serialized_block(a) is Some <==> serialized_block(b) is Some,
{
}

/// A serialized count reads back: its first byte is the count, or marks a count in the two or four
/// bytes that follow, the lowest first; and it is as short as that allows.
pub proof fn law_compact_size_reads_back(count: nat)
    requires
        count <= u32::MAX,
    ensures
        ({
            let bytes = compact_size(count);
            &&& count < 0xfd ==> bytes.len() == 1 && bytes[0] as int == count
            &&& 0xfd <= count < 0x1_0000 ==> bytes.len() == 3 && bytes[0] == 0xfd && bytes[1]
                + 0x100 * bytes[2] == count
            &&& 0x1_0000 <= count ==> bytes.len() == 5 && bytes[0] == 0xfe && bytes[1] + 0x100
                * bytes[2] + 0x1_0000 * bytes[3] + 0x100_0000 * bytes[4] == count
        }),
{
}

/// Blocks that differ in the number of their transactions differ in the bytes of that number.
pub proof fn law_compact_sizes_tell_counts_apart(a: nat, b: nat)
    requires
        a <= u32::MAX,
        b <= u32::MAX,
        compact_size(a) == compact_size(b),
    ensures
        a == b,
{
    law_compact_size_reads_back(a);
    law_compact_size_reads_back(b);
}

/// The view of some byte vectors holds the bytes at each index.
pub proof fn law_bytes_of_shows_each_vector(data: Seq<Vec<u8>>, i: int)
    requires
        0 <= i < data.len(),
    ensures
        bytes_of(data).len() == data.len(),
        bytes_of(data)[i] == data[i]@,
{
}

} // verus!
