//! The block query: a block in its serialized form, or spelled out as its header, the ids of its
//! transactions, their data where it is asked for, and the sizes and roots of the note commitment
//! trees after it.

use vstd::pervasive::unreached;
use vstd::prelude::*;

use zebra_chain::parameters::Network;
use zebra_chain::work::difficulty::CompactDifficulty;

use crate::block_data::{bytes_of, serialized_block, serialized_transactions, Block};
use crate::block_header::{
    header_lookups_left, header_object_view, header_query_next, header_query_start,
    header_reply_fits, law_header_query_ends, law_nonce_and_root_are_reversed, resume_block_header,
    start_block_header, BlockHeaderObject, BlockHeaderQuery, BlockHeaderStep, GetBlockHeader,
    HeaderAnswerView, HeaderObjectView, HeaderQueryView, HeaderStepView,
};
use crate::error::{
    invalid_params_code, missing_block_code, missing_block_code_view, rpc_error, rpc_error_view,
    unexpected_reply, ErrorView, StateServiceError, INVALID_PARAMS_ERROR_CODE,
};
use crate::network::{
    activation_height, activation_height_view, activation_list, has_reached, reached,
    NetworkUpgrade,
};
use crate::requests::{
    FoundHeader, ReadRequest, ReadResponse, Reply, RequestView, Solution, TreeState,
};
use crate::text::{
    block_of_text, encode_transaction_ids, hash_text, no_block_named, parse_hash_or_height,
    texts_view, transaction_texts, BlockHash, BlockId, HashOrHeight, TransactionId,
};

verus! {

/// The verbosity of a block query that does not say.
pub const DEFAULT_GETBLOCK_VERBOSITY: u8 = 1;

/// The numbers of note commitments after a block.
#[derive(Clone, Copy, Debug, PartialEq, Eq)]
pub struct BlockTrees {
    pub sapling: u64,
    pub orchard: u64,
}

/// A block, spelled out.
#[derive(Clone, Debug)]
pub struct BlockObject {
    pub hash: BlockHash,
    pub confirmations: i64,
    pub size: Option<i64>,
    pub height: Option<u32>,
    pub version: Option<u32>,
    pub merkle_root: Option<[u8; 32]>,
    pub final_sapling_root: Option<[u8; 32]>,
    pub final_orchard_root: Option<[u8; 32]>,
    /// The ids of the transactions, in block order.
    pub tx: Vec<String>,
    /// The serialized transactions, in block order, where their data was asked for.
    pub transactions: Option<Vec<Vec<u8>>>,
    pub time: Option<i64>,
    pub nonce: Option<[u8; 32]>,
    pub solution: Option<Solution>,
    pub bits: Option<CompactDifficulty>,
    pub trees: BlockTrees,
    pub previous_block_hash: Option<BlockHash>,
    pub next_block_hash: Option<BlockHash>,
}

/// The answer to a block query.
#[derive(Clone, Debug)]
pub enum GetBlock {
    /// The serialized block.
    Raw(Vec<u8>),
    /// The block, spelled out.
    Object(BlockObject),
}

/// What a [`BlockObject`] says.
pub ghost struct BlockObjectView {
    pub hash: BlockHash,
    pub confirmations: i64,
    pub size: Option<i64>,
    pub height: Option<u32>,
    pub version: Option<u32>,
    pub merkle_root: Option<[u8; 32]>,
    pub final_sapling_root: Option<Seq<u8>>,
    pub final_orchard_root: Option<[u8; 32]>,
    pub tx: Seq<Seq<char>>,
    pub transactions: Option<Seq<Seq<u8>>>,
    pub time: Option<i64>,
    pub nonce: Option<Seq<u8>>,
    pub solution: Option<Solution>,
    pub bits: Option<CompactDifficulty>,
    pub trees: BlockTrees,
    pub previous_block_hash: Option<BlockHash>,
    pub next_block_hash: Option<BlockHash>,
}

/// The bytes of an array, where there is one.
pub open spec fn bytes_view(bytes: Option<[u8; 32]>) -> Option<Seq<u8>> {
    match bytes {
        Some(bytes) => Some(bytes@),
        None => None,
    }
}

impl View for BlockObject {
    type V = BlockObjectView;

    open spec fn view(&self) -> BlockObjectView {
        BlockObjectView {
            hash: self.hash,
            confirmations: self.confirmations,
            size: self.size,
            height: self.height,
            version: self.version,
            merkle_root: self.merkle_root,
            final_sapling_root: bytes_view(self.final_sapling_root),
            final_orchard_root: self.final_orchard_root,
            tx: texts_view(self.tx@),
            transactions: match self.transactions {
                Some(transactions) => Some(bytes_of(transactions@)),
                None => None,
            },
            time: self.time,
            nonce: bytes_view(self.nonce),
            solution: self.solution,
            bits: self.bits,
            trees: self.trees,
            previous_block_hash: self.previous_block_hash,
            next_block_hash: self.next_block_hash,
        }
    }
}

/// What a [`GetBlock`] says.
pub ghost enum BlockAnswerView {
    Raw(Seq<u8>),
    Object(BlockObjectView),
}

impl View for GetBlock {
    type V = BlockAnswerView;

    open spec fn view(&self) -> BlockAnswerView {
        match *self {
            GetBlock::Raw(bytes) => BlockAnswerView::Raw(bytes@),
            GetBlock::Object(object) => BlockAnswerView::Object(object@),
        }
    }
}

/// The data of a block's transactions within a block query.
#[derive(Clone, Debug)]
pub enum TransactionData {
    /// It was not asked for.
    Omitted,
    /// It has yet to come.
    Awaited,
    /// It has come.
    Found(Vec<Vec<u8>>),
}

/// What a [`TransactionData`] holds.
pub ghost enum TransactionDataView {
    Omitted,
    Awaited,
    Found(Seq<Seq<u8>>),
}

impl View for TransactionData {
    type V = TransactionDataView;

    open spec fn view(&self) -> TransactionDataView {
        match *self {
            TransactionData::Omitted => TransactionDataView::Omitted,
            TransactionData::Awaited => TransactionDataView::Awaited,
            TransactionData::Found(data) => TransactionDataView::Found(bytes_of(data@)),
        }
    }
}

/// What an unfinished block query waits for.
#[derive(Clone, Debug)]
pub enum BlockQuery {
    /// The whole block.
    Raw { block: HashOrHeight },
    /// The header of the block.
    Header { block: HashOrHeight, with_data: bool, query: BlockHeaderQuery },
    /// The transaction ids, the transactions' data where it was asked for, and the Orchard tree, of
    /// which some may have come already.
    Body {
        block: HashOrHeight,
        header: BlockHeaderObject,
        tx: Option<Vec<String>>,
        transactions: TransactionData,
        orchard_tree: Option<TreeState>,
    },
}

/// What a [`BlockQuery`] waits for.
pub ghost enum BlockQueryView {
    Raw { block: BlockId },
    Header { block: BlockId, with_data: bool, query: HeaderQueryView },
    Body {
        block: BlockId,
        header: HeaderObjectView,
        tx: Option<Seq<Seq<char>>>,
        transactions: TransactionDataView,
        orchard_tree: Option<TreeState>,
    },
}

impl View for BlockQuery {
    type V = BlockQueryView;

    open spec fn view(&self) -> BlockQueryView {
        match *self {
            BlockQuery::Raw { block } => BlockQueryView::Raw { block: block@ },
            BlockQuery::Header { block, with_data, query } => BlockQueryView::Header {
                block: block@,
                with_data,
                query: query@,
            },
            BlockQuery::Body { block, header, tx, transactions, orchard_tree } => {
                BlockQueryView::Body {
                    block: block@,
                    header: header@,
                    tx: match tx {
                        Some(tx) => Some(texts_view(tx@)),
                        None => None,
                    },
                    transactions: transactions@,
                    orchard_tree,
                }
            },
        }
    }
}

/// What a block query goes on with.
#[derive(Debug)]
pub enum BlockEvent {
    /// The reply to the one lookup under way.
    Reply(Reply),
    /// The reply to the lookup of the transaction ids, of those under way.
    TransactionIds(Reply),
    /// The transactions' data out of the reply to the lookup of the block, of those under way.
    Transactions(Reply),
    /// The reply to the lookup of the Orchard tree, of those under way.
    OrchardTree(Reply),
}

/// What a block query does next.
#[derive(Debug)]
pub enum BlockStep {
    /// Make a lookup, and go on with the reply.
    Call(ReadRequest, BlockQuery),
    /// Look up the transaction ids, the Orchard tree and, for the transactions' data, the block at
    /// once, and go on with the reply that comes first.
    CallBody {
        transaction_ids: ReadRequest,
        transactions: Option<ReadRequest>,
        orchard_tree: ReadRequest,
        query: BlockQuery,
    },
    /// Go on with the next reply to the lookups under way.
    Wait(BlockQuery),
    /// Answer.
    Done(Result<GetBlock, StateServiceError>),
}

/// What a [`BlockStep`] does.
pub ghost enum BlockStepView {
    Call(RequestView, BlockQueryView),
    CallBody {
        transaction_ids: RequestView,
        transactions: Option<RequestView>,
        orchard_tree: RequestView,
        query: BlockQueryView,
    },
    Wait(BlockQueryView),
    Done(Result<BlockAnswerView, ErrorView>),
}

impl View for BlockStep {
    type V = BlockStepView;

    open spec fn view(&self) -> BlockStepView {
        match *self {
            BlockStep::Call(request, query) => BlockStepView::Call(request@, query@),
            BlockStep::CallBody { transaction_ids, transactions, orchard_tree, query } => {
                BlockStepView::CallBody {
                    transaction_ids: transaction_ids@,
                    transactions: match transactions {
                        Some(request) => Some(request@),
                        None => None,
                    },
                    orchard_tree: orchard_tree@,
                    query: query@,
                }
            },
            BlockStep::Wait(query) => BlockStepView::Wait(query@),
            BlockStep::Done(Ok(answer)) => BlockStepView::Done(Ok(answer@)),
            BlockStep::Done(Err(error)) => BlockStepView::Done(Err(error@)),
        }
    }
}

/// A block, spelled out, where the NU5 upgrade activates at the given height.
pub open spec fn block_object_view(
    header: HeaderObjectView,
    tx: Seq<Seq<char>>,
    transactions: Option<Seq<Seq<u8>>>,
    orchard_tree: TreeState,
    nu5_activation: Option<u32>,
) -> BlockObjectView {
    BlockObjectView {
        hash: header.hash,
        confirmations: header.confirmations,
        size: None,
        height: Some(header.height),
        version: Some(header.version),
        merkle_root: Some(header.merkle_root),
        final_sapling_root: Some(header.final_sapling_root),
        final_orchard_root: if reached(nu5_activation, header.height) {
            Some(orchard_tree.root)
        } else {
            None
        },
        tx,
        transactions,
        time: Some(header.time),
        nonce: Some(header.nonce),
        solution: Some(header.solution),
        bits: Some(header.bits),
        trees: BlockTrees { sapling: header.sapling_tree_size, orchard: orchard_tree.size },
        previous_block_hash: Some(header.previous_block_hash),
        next_block_hash: header.next_block_hash,
    }
}

/// The first step of a block query.
pub open spec fn block_query_start(text: Seq<char>, verbosity: Option<u8>) -> BlockStepView {
    let level = match verbosity {
        Some(level) => level,
        None => DEFAULT_GETBLOCK_VERBOSITY,
    };
    match block_of_text(text) {
        None => BlockStepView::Done(Err(no_block_named())),
        Some(block) => if level == 0 {
            BlockStepView::Call(RequestView::Block(block), BlockQueryView::Raw { block })
        } else if level <= 3 {
            block_step_after_header(block, level == 2, header_query_start(text, Some(true)))
        } else {
            BlockStepView::Done(
                Err(rpc_error_view(INVALID_PARAMS_ERROR_CODE, "Invalid verbosity value"@)),
            )
        },
    }
}

/// The query for the body of a block, before any of its lookups has come back.
pub open spec fn body_query(
    block: BlockId,
    with_data: bool,
    header: HeaderObjectView,
) -> BlockQueryView {
    BlockQueryView::Body {
        block,
        header,
        tx: None,
        transactions: if with_data {
            TransactionDataView::Awaited
        } else {
            TransactionDataView::Omitted
        },
        orchard_tree: None,
    }
}

/// The lookups for the body of a block: all by the hash in the header that was found.
pub open spec fn body_lookups(
    block: BlockId,
    with_data: bool,
    header: HeaderObjectView,
) -> BlockStepView {
    let by_hash = BlockId::Hash(header.hash@);
    BlockStepView::CallBody {
        transaction_ids: RequestView::TransactionIdsForBlock(by_hash),
        transactions: if with_data {
            Some(RequestView::Block(by_hash))
        } else {
            None
        },
        orchard_tree: RequestView::OrchardTree(by_hash),
        query: body_query(block, with_data, header),
    }
}

/// What a block query does after a step of the header query within it.
pub open spec fn block_step_after_header(
    block: BlockId,
    with_data: bool,
    step: HeaderStepView,
) -> BlockStepView {
    match step {
        HeaderStepView::Call(request, query) => BlockStepView::Call(
            request,
            BlockQueryView::Header { block, with_data, query },
        ),
        HeaderStepView::Done(Ok(HeaderAnswerView::Object(header))) => {
            body_lookups(block, with_data, header)
        },
        HeaderStepView::Done(Ok(HeaderAnswerView::Raw(_))) => BlockStepView::Done(
            Err(ErrorView::Custom("Unexpected response type for BlockHeader"@)),
        ),
        HeaderStepView::Done(Err(error)) => BlockStepView::Done(Err(error)),
    }
}

/// What a block query does once it has some of the body: it answers when nothing is missing.
pub open spec fn block_step_with_body(
    upgrades: Map<u32, NetworkUpgrade>,
    block: BlockId,
    header: HeaderObjectView,
    tx: Option<Seq<Seq<char>>>,
    transactions: TransactionDataView,
    orchard_tree: Option<TreeState>,
) -> BlockStepView {
    if tx is Some && transactions !is Awaited && orchard_tree is Some {
        BlockStepView::Done(
            Ok(
                BlockAnswerView::Object(
                    block_object_view(
                        header,
                        tx->0,
                        match transactions {
                            TransactionDataView::Found(data) => Some(data),
                            _ => None,
                        },
                        orchard_tree->0,
                        activation_height_view(upgrades, NetworkUpgrade::Nu5),
                    ),
                ),
            ),
        )
    } else {
        BlockStepView::Wait(BlockQueryView::Body { block, header, tx, transactions, orchard_tree })
    }
}

/// The step of a block query on an event.
pub open spec fn block_query_next(
    upgrades: Map<u32, NetworkUpgrade>,
    query: BlockQueryView,
    event: BlockEvent,
) -> BlockStepView {
    match (query, event) {
        (BlockQueryView::Raw { block }, BlockEvent::Reply(reply)) => match reply {
            Ok(ReadResponse::Block(Some(bytes))) => BlockStepView::Done(
                Ok(BlockAnswerView::Raw(bytes@)),
            ),
            Ok(ReadResponse::Block(None)) => BlockStepView::Done(
                Err(rpc_error_view(missing_block_code_view(block), "Block not found"@)),
            ),
            Ok(_) => arbitrary(),
            Err(reason) => BlockStepView::Done(Err(ErrorView::Generic(reason@))),
        },
        (BlockQueryView::Header { block, with_data, query }, BlockEvent::Reply(reply)) => {
            block_step_after_header(block, with_data, header_query_next(upgrades, query, reply))
        },
        (
            BlockQueryView::Body { block, header, tx, transactions, orchard_tree },
            BlockEvent::TransactionIds(reply),
        ) => match reply {
            Ok(ReadResponse::TransactionIdsForBlock(Some(ids))) => block_step_with_body(
                upgrades,
                block,
                header,
                Some(transaction_texts(ids@)),
                transactions,
                orchard_tree,
            ),
            Ok(ReadResponse::TransactionIdsForBlock(None)) => BlockStepView::Done(
                Err(rpc_error_view(missing_block_code_view(block), "Block not found"@)),
            ),
            Ok(_) => arbitrary(),
            Err(reason) => BlockStepView::Done(Err(ErrorView::Generic(reason@))),
        },
        (
            BlockQueryView::Body { block, header, tx, transactions, orchard_tree },
            BlockEvent::Transactions(reply),
        ) => match reply {
            Ok(ReadResponse::BlockTransactions(Some(data))) => block_step_with_body(
                upgrades,
                block,
                header,
                tx,
                TransactionDataView::Found(bytes_of(data@)),
                orchard_tree,
            ),
            Ok(ReadResponse::BlockTransactions(None)) => BlockStepView::Done(
                Err(rpc_error_view(missing_block_code_view(block), "Block not found"@)),
            ),
            Ok(_) => arbitrary(),
            Err(reason) => BlockStepView::Done(Err(ErrorView::Generic(reason@))),
        },
        (
            BlockQueryView::Body { block, header, tx, transactions, orchard_tree },
            BlockEvent::OrchardTree(reply),
        ) => match reply {
            Ok(ReadResponse::OrchardTree(Some(tree))) => block_step_with_body(
                upgrades,
                block,
                header,
                tx,
                transactions,
                Some(tree),
            ),
            Ok(ReadResponse::OrchardTree(None)) => BlockStepView::Done(
                Err(
                    rpc_error_view(
                        missing_block_code_view(block),
                        "Missing orchard tree for block."@,
                    ),
                ),
            ),
            Ok(_) => arbitrary(),
            Err(reason) => BlockStepView::Done(Err(ErrorView::Generic(reason@))),
        },
        _ => arbitrary(),
    }
}

/// Whether an event is one that a query waits for, with a reply of the kind that was asked for
/// where the query relies on it.
pub open spec fn block_event_fits(query: BlockQueryView, event: BlockEvent) -> bool {
    match (query, event) {
        (BlockQueryView::Raw { .. }, BlockEvent::Reply(reply)) => {
            reply matches Ok(response) ==> response is Block
        },
        (BlockQueryView::Header { query, .. }, BlockEvent::Reply(reply)) => {
            header_reply_fits(query, reply)
        },
        (BlockQueryView::Body { tx, .. }, BlockEvent::TransactionIds(reply)) => {
            &&& tx is None
            &&& reply matches Ok(response) ==> response is TransactionIdsForBlock
        },
        (BlockQueryView::Body { transactions, .. }, BlockEvent::Transactions(reply)) => {
            &&& transactions is Awaited
            &&& reply matches Ok(response) ==> response is BlockTransactions
        },
        (BlockQueryView::Body { orchard_tree, .. }, BlockEvent::OrchardTree(reply)) => {
            &&& orchard_tree is None
            &&& reply matches Ok(response) ==> response is OrchardTree
        },
        _ => false,
    }
}

/// Spells out a block, given the height at which the NU5 upgrade activates.
pub fn block_object(
    header: &BlockHeaderObject,
    tx: Vec<String>,
    transactions: Option<Vec<Vec<u8>>>,
    orchard_tree: &TreeState,
    nu5_activation: Option<u32>,
) -> (object: BlockObject)
    ensures
        object@ == block_object_view(
            header@,
            texts_view(tx@),
            match transactions {
                Some(transactions) => Some(bytes_of(transactions@)),
                None => None,
            },
            *orchard_tree,
            nu5_activation,
        ),
        object.hash == header.hash,
        object.confirmations == header.confirmations,
        object.size is None,
        object.height == Some(header.height),
        object.version == Some(header.version),
        object.merkle_root == Some(header.merkle_root),
        object.final_sapling_root == Some(header.final_sapling_root),
        object.final_orchard_root == (if nu5_activation is Some && header.height
            >= nu5_activation->0 {
            Some(orchard_tree.root)
        } else {
            None
        }),
        object.tx == tx,
        object.transactions == transactions,
        object.time == Some(header.time),
        object.nonce == Some(header.nonce),
        object.solution == Some(header.solution),
        object.bits == Some(header.bits),
        object.trees.sapling == header.sapling_tree_size,
        object.trees.orchard == orchard_tree.size,
        object.previous_block_hash == Some(header.previous_block_hash),
        object.next_block_hash == header.next_block_hash,
{
    let final_orchard_root: Option<[u8; 32]> = if has_reached(nu5_activation, header.height) {
        Some(orchard_tree.root)
    } else {
        None
    };
    BlockObject {
        hash: header.hash,
        confirmations: header.confirmations,
        size: None,
        height: Some(header.height),
        version: Some(header.version),
        merkle_root: Some(header.merkle_root),
        final_sapling_root: Some(header.final_sapling_root),
        final_orchard_root,
        tx,
        transactions,
        time: Some(header.time),
        nonce: Some(header.nonce),
        solution: Some(header.solution),
        bits: Some(header.bits),
        trees: BlockTrees { sapling: header.sapling_tree_size, orchard: orchard_tree.size },
        previous_block_hash: Some(header.previous_block_hash),
        next_block_hash: header.next_block_hash,
    }
}

/// Turns a step of the header query within a block query into a step of the block query.
fn after_header(block: HashOrHeight, with_data: bool, step: BlockHeaderStep) -> (next: BlockStep)
    ensures
        next@ == block_step_after_header(block@, with_data, step@),
{
    match step {
        BlockHeaderStep::Call(request, query) => BlockStep::Call(
            request,
            BlockQuery::Header { block, with_data, query },
        ),
        BlockHeaderStep::Done(Ok(GetBlockHeader::Object(header))) => {
            // Looking up by hash keeps the transactions and the tree consistent with the header.
            let by_hash = HashOrHeight::Hash(header.hash);
            let (lookup, transactions): (Option<ReadRequest>, TransactionData) = if with_data {
                (Some(ReadRequest::Block(by_hash)), TransactionData::Awaited)
            } else {
                (None, TransactionData::Omitted)
            };
            BlockStep::CallBody {
                transaction_ids: ReadRequest::TransactionIdsForBlock(by_hash),
                transactions: lookup,
                orchard_tree: ReadRequest::OrchardTree(by_hash),
                query: BlockQuery::Body {
                    block,
                    header,
                    tx: None,
                    transactions,
                    orchard_tree: None,
                },
            }
        },
        BlockHeaderStep::Done(Ok(GetBlockHeader::Raw(_))) => BlockStep::Done(
            Err(unexpected_reply("Unexpected response type for BlockHeader")),
        ),
        BlockHeaderStep::Done(Err(error)) => BlockStep::Done(Err(error)),
    }
}

/// Answers a block query that has the whole body, and lets it wait otherwise.
fn with_body(
    network: &Network,
    block: HashOrHeight,
    header: BlockHeaderObject,
    tx: Option<Vec<String>>,
    transactions: TransactionData,
    orchard_tree: Option<TreeState>,
) -> (next: BlockStep)
    ensures
        next@ == block_step_with_body(
            activation_list(*network),
            block@,
            header@,
            match tx {
                Some(tx) => Some(texts_view(tx@)),
                None => None,
            },
            transactions@,
            orchard_tree,
        ),
{
    match (tx, transactions, orchard_tree) {
        (Some(tx), TransactionData::Omitted, Some(tree)) => {
            let nu5_activation = activation_height(NetworkUpgrade::Nu5, network);
            let object = block_object(&header, tx, None, &tree, nu5_activation);
            BlockStep::Done(Ok(GetBlock::Object(object)))
        },
        (Some(tx), TransactionData::Found(data), Some(tree)) => {
            let nu5_activation = activation_height(NetworkUpgrade::Nu5, network);
            let object = block_object(&header, tx, Some(data), &tree, nu5_activation);
            BlockStep::Done(Ok(GetBlock::Object(object)))
        },
        (tx, transactions, orchard_tree) => BlockStep::Wait(
            BlockQuery::Body { block, header, tx, transactions, orchard_tree },
        ),
    }
}

/// Starts a block query: verbosity 0 asks for the serialized block, 1, the default, for the block
/// spelled out, 2 for the data of its transactions besides, and 3 for what callers that read the
/// transaction ids alone need, which 1 gives them.
pub fn start_block(block: &str, verbosity: Option<u8>) -> (step: BlockStep)
    ensures
        step@ == block_query_start(block@, verbosity),
{
    let level: u8 = match verbosity {
        Some(level) => level,
        None => DEFAULT_GETBLOCK_VERBOSITY,
    };
    match parse_hash_or_height(block) {
        Err(error) => BlockStep::Done(Err(error)),
        Ok(named) => if level == 0 {
            BlockStep::Call(ReadRequest::Block(named), BlockQuery::Raw { block: named })
        } else if level <= 3 {
            after_header(named, level == 2, start_block_header(block, Some(true)))
        } else {
            BlockStep::Done(Err(rpc_error(invalid_params_code(), "Invalid verbosity value")))
        },
    }
}

/// Goes on with a block query.
pub fn resume_block(network: &Network, query: BlockQuery, event: BlockEvent) -> (step: BlockStep)
    requires
        block_event_fits(query@, event),
    ensures
        step@ == block_query_next(activation_list(*network), query@, event),
{
    match (query, event) {
        (BlockQuery::Raw { block }, BlockEvent::Reply(reply)) => match reply {
            Ok(ReadResponse::Block(Some(bytes))) => BlockStep::Done(Ok(GetBlock::Raw(bytes))),
            Ok(ReadResponse::Block(None)) => BlockStep::Done(
                Err(rpc_error(missing_block_code(&block), "Block not found")),
            ),
            Ok(_) => unreached(),
            Err(reason) => BlockStep::Done(Err(StateServiceError::Generic(reason))),
        },
        (BlockQuery::Header { block, with_data, query }, BlockEvent::Reply(reply)) => {
            after_header(block, with_data, resume_block_header(network, query, reply))
        },
        (
            BlockQuery::Body { block, header, tx: _, transactions, orchard_tree },
            BlockEvent::TransactionIds(reply),
        ) => match reply {
            Ok(ReadResponse::TransactionIdsForBlock(Some(ids))) => {
                let texts = encode_transaction_ids(&ids);
                with_body(network, block, header, Some(texts), transactions, orchard_tree)
            },
            Ok(ReadResponse::TransactionIdsForBlock(None)) => BlockStep::Done(
                Err(rpc_error(missing_block_code(&block), "Block not found")),
            ),
            Ok(_) => unreached(),
            Err(reason) => BlockStep::Done(Err(StateServiceError::Generic(reason))),
        },
        (
            BlockQuery::Body { block, header, tx, transactions: _, orchard_tree },
            BlockEvent::Transactions(reply),
        ) => match reply {
            Ok(ReadResponse::BlockTransactions(Some(data))) => with_body(
                network,
                block,
                header,
                tx,
                TransactionData::Found(data),
                orchard_tree,
            ),
            Ok(ReadResponse::BlockTransactions(None)) => BlockStep::Done(
                Err(rpc_error(missing_block_code(&block), "Block not found")),
            ),
            Ok(_) => unreached(),
            Err(reason) => BlockStep::Done(Err(StateServiceError::Generic(reason))),
        },
        (
            BlockQuery::Body { block, header, tx, transactions, orchard_tree: _ },
            BlockEvent::OrchardTree(reply),
        ) => match reply {
            Ok(ReadResponse::OrchardTree(Some(tree))) => with_body(
                network,
                block,
                header,
                tx,
                transactions,
                Some(tree),
            ),
            Ok(ReadResponse::OrchardTree(None)) => BlockStep::Done(
                Err(rpc_error(missing_block_code(&block), "Missing orchard tree for block.")),
            ),
            Ok(_) => unreached(),
            Err(reason) => BlockStep::Done(Err(StateServiceError::Generic(reason))),
        },
        _ => unreached(),
    }
}

/// A block that is not in the state is reported with code -5 if a hash was passed, and with code -8
/// if a height was passed, whichever lookup found it missing: that of the whole block, of its
/// header, of its transaction ids or their data, or of a tree after it. Those of the body go by
/// hash, and still the code tells what the caller passed.
pub proof fn law_missing_block_code_tells_hash_from_height(
    upgrades: Map<u32, NetworkUpgrade>,
    text: Seq<char>,
    with_data: bool,
    found: FoundHeader,
    header: HeaderObjectView,
    tx: Option<Seq<Seq<char>>>,
    transactions: TransactionDataView,
    orchard_tree: Option<TreeState>,
    reason: String,
)
    requires
        block_of_text(text) is Some,
    ensures
        ({
            let block = block_of_text(text)->0;
            let code: i64 = if block is Hash {
                -5i64
            } else {
                -8i64
            };
            let whole = BlockQueryView::Raw { block };
            let its_header = BlockQueryView::Header {
                block,
                with_data,
                query: HeaderQueryView::Header { block, verbose: true },
            };
            let its_sapling_tree = BlockQueryView::Header {
                block,
                with_data,
                query: HeaderQueryView::SaplingTree { block, found },
            };
            let its_body = BlockQueryView::Body { block, header, tx, transactions, orchard_tree };
            &&& block_query_start(text, Some(0)) == BlockStepView::Call(
                RequestView::Block(block),
                whole,
            )
            &&& block_query_start(
                text,
                Some(
                    if with_data {
                        2u8
                    } else {
                        1u8
                    },
                ),
            ) == BlockStepView::Call(RequestView::BlockHeader(block), its_header)
            &&& block_query_next(upgrades, whole, BlockEvent::Reply(Ok(ReadResponse::Block(None))))
                == BlockStepView::Done(Err(rpc_error_view(code, "Block not found"@)))
            &&& block_query_next(upgrades, its_header, BlockEvent::Reply(Err(reason)))
                == BlockStepView::Done(
                Err(rpc_error_view(code, "block height not in best chain"@)),
            )
            &&& block_query_next(
                upgrades,
                its_sapling_tree,
                BlockEvent::Reply(Ok(ReadResponse::SaplingTree(None))),
            ) == BlockStepView::Done(Err(rpc_error_view(code, "missing sapling tree for block"@)))
            &&& block_query_next(
                upgrades,
                its_body,
                BlockEvent::TransactionIds(Ok(ReadResponse::TransactionIdsForBlock(None))),
            ) == BlockStepView::Done(Err(rpc_error_view(code, "Block not found"@)))
            &&& block_query_next(
                upgrades,
                its_body,
                BlockEvent::Transactions(Ok(ReadResponse::BlockTransactions(None))),
            ) == BlockStepView::Done(Err(rpc_error_view(code, "Block not found"@)))
            &&& block_query_next(
                upgrades,
                its_body,
                BlockEvent::OrchardTree(Ok(ReadResponse::OrchardTree(None))),
            ) == BlockStepView::Done(Err(rpc_error_view(code, "Missing orchard tree for block."@)))
        }),
{
}

/// Once a header is found, the body is looked up by the hash in that header, however the caller
/// named the block; the query keeps the name that the caller gave, and has nothing of the body yet.
pub proof fn law_body_is_looked_up_by_hash(
    upgrades: Map<u32, NetworkUpgrade>,
    block: BlockId,
    with_data: bool,
    query: HeaderQueryView,
    reply: Reply,
    header: HeaderObjectView,
)
    requires
        header_query_next(upgrades, query, reply) == HeaderStepView::Done(
            Ok(HeaderAnswerView::Object(header)),
        ),
    ensures
        block_query_next(
            upgrades,
            BlockQueryView::Header { block, with_data, query },
            BlockEvent::Reply(reply),
        ) == (BlockStepView::CallBody {
            transaction_ids: RequestView::TransactionIdsForBlock(BlockId::Hash(header.hash@)),
            transactions: if with_data {
                Some(RequestView::Block(BlockId::Hash(header.hash@)))
            } else {
                None
            },
            orchard_tree: RequestView::OrchardTree(BlockId::Hash(header.hash@)),
            query: BlockQueryView::Body {
                block,
                header,
                tx: None,
                transactions: if with_data {
                    TransactionDataView::Awaited
                } else {
                    TransactionDataView::Omitted
                },
                orchard_tree: None,
            },
        }),
{
}

/// Whether an event brings a part of a block's body.
pub open spec fn brings_body(event: BlockEvent) -> bool {
    match event {
        BlockEvent::Reply(_) => false,
        BlockEvent::TransactionIds(reply) => {
            reply matches Ok(ReadResponse::TransactionIdsForBlock(Some(_)))
        },
        BlockEvent::Transactions(reply) => {
            reply matches Ok(ReadResponse::BlockTransactions(Some(_)))
        },
        BlockEvent::OrchardTree(reply) => reply matches Ok(ReadResponse::OrchardTree(Some(_))),
    }
}

/// Whether two events are the replies to different lookups of a block's body.
pub open spec fn differ_in_lookup(a: BlockEvent, b: BlockEvent) -> bool {
    ||| a is TransactionIds && b !is TransactionIds
    ||| a is Transactions && b !is Transactions
    ||| a is OrchardTree && b !is OrchardTree
}

/// The answer does not depend on the order in which the parts of the body come: two that a query
/// waits for lead to the same step either way.
pub proof fn law_answer_does_not_depend_on_which_lookup_is_first(
    upgrades: Map<u32, NetworkUpgrade>,
    query: BlockQueryView,
    a: BlockEvent,
    b: BlockEvent,
)
    requires
        block_event_fits(query, a),
        block_event_fits(query, b),
        brings_body(a),
        brings_body(b),
        differ_in_lookup(a, b),
    ensures
        block_query_next(upgrades, query, a) matches BlockStepView::Wait(after_a)
            && block_query_next(upgrades, query, b) matches BlockStepView::Wait(after_b)
            && block_event_fits(after_a, b) && block_event_fits(after_b, a)
            && block_query_next(upgrades, after_a, b) == block_query_next(upgrades, after_b, a),
{
}

/// A lookup of the body that fails ends the query with the same error whether the others have come
/// back or not.
pub proof fn law_failed_lookup_ends_the_query(
    upgrades: Map<u32, NetworkUpgrade>,
    block: BlockId,
    header: HeaderObjectView,
    tx: Option<Seq<Seq<char>>>,
    transactions: TransactionDataView,
    orchard_tree: Option<TreeState>,
    reason: String,
)
    ensures
        ({
            let query = BlockQueryView::Body { block, header, tx, transactions, orchard_tree };
            let failed = BlockStepView::Done(Err(ErrorView::Generic(reason@)));
            &&& block_query_next(upgrades, query, BlockEvent::TransactionIds(Err(reason)))
                == failed
            &&& block_query_next(upgrades, query, BlockEvent::Transactions(Err(reason))) == failed
            &&& block_query_next(upgrades, query, BlockEvent::OrchardTree(Err(reason))) == failed
        }),
{
}

/// Verbosity 1 is the default, and verbosity 3 gives what it gives.
pub proof fn law_verbosity_one_is_the_default(text: Seq<char>)
    ensures
        block_query_start(text, None) == block_query_start(text, Some(1)),
        block_query_start(text, Some(3)) == block_query_start(text, Some(1)),
{
}

/// A text that names no block is refused before anything is said of the verbosity; any verbosity
/// above 3 is refused without a lookup.
pub proof fn law_bad_parameters_are_refused(text: Seq<char>, verbosity: Option<u8>)
    ensures
        block_of_text(text) is None ==> block_query_start(text, verbosity) == BlockStepView::Done(
            Err(no_block_named()),
        ),
        block_of_text(text) is Some && verbosity is Some && verbosity->0 > 3 ==> block_query_start(
            text,
            verbosity,
        ) == BlockStepView::Done(
            Err(rpc_error_view(INVALID_PARAMS_ERROR_CODE, "Invalid verbosity value"@)),
        ),
{
}

/// A raw query is answered with the bytes that its one lookup brings, all of them and whatever they
/// are.
pub proof fn law_raw_query_hands_the_bytes_on(
    upgrades: Map<u32, NetworkUpgrade>,
    text: Seq<char>,
    bytes: Vec<u8>,
)
    requires
        block_of_text(text) is Some,
    ensures
        block_query_start(text, Some(0)) matches BlockStepView::Call(request, query) && {
            &&& request == RequestView::Block(block_of_text(text)->0)
            &&& block_query_next(
                upgrades,
                query,
                BlockEvent::Reply(Ok(ReadResponse::Block(Some(bytes)))),
            ) == BlockStepView::Done(Ok(BlockAnswerView::Raw(bytes@)))
        },
{
}

/// A raw query is answered with the serialized form of the block that was found.
pub proof fn law_raw_query_answers_with_serialized_block(
    upgrades: Map<u32, NetworkUpgrade>,
    text: Seq<char>,
    block: Block,
    bytes: Vec<u8>,
)
    requires
        block_of_text(text) is Some,
        serialized_block(block) == Some(bytes@),
    ensures
        block_query_start(text, Some(0)) matches BlockStepView::Call(request, query) && {
            &&& request == RequestView::Block(block_of_text(text)->0)
            &&& block_query_next(
                upgrades,
                query,
                BlockEvent::Reply(Ok(ReadResponse::Block(Some(bytes)))),
            ) == BlockStepView::Done(Ok(BlockAnswerView::Raw(serialized_block(block)->0)))
        },
{
}

/// A block spelled out agrees with its header in every field that they share, has one text for each
/// transaction id, and has the root of its Orchard tree exactly from the NU5 upgrade on.
pub proof fn law_block_agrees_with_header_and_trees(
    header: HeaderObjectView,
    ids: Seq<TransactionId>,
    transactions: Option<Seq<Seq<u8>>>,
    orchard_tree: TreeState,
    nu5_activation: Option<u32>,
)
    ensures
        ({
            let object = block_object_view(
                header,
                transaction_texts(ids),
                transactions,
                orchard_tree,
                nu5_activation,
            );
            &&& object.hash == header.hash
            &&& object.height == Some(header.height)
            &&& object.confirmations == header.confirmations
            &&& object.version == Some(header.version)
            &&& object.merkle_root == Some(header.merkle_root)
            &&& object.final_sapling_root == Some(header.final_sapling_root)
            &&& object.time == Some(header.time)
            &&& object.nonce == Some(header.nonce)
            &&& object.solution == Some(header.solution)
            &&& object.bits == Some(header.bits)
            &&& object.previous_block_hash == Some(header.previous_block_hash)
            &&& object.next_block_hash == header.next_block_hash
            &&& object.size is None
            &&& object.trees.sapling == header.sapling_tree_size
            &&& object.trees.orchard == orchard_tree.size
            &&& object.tx.len() == ids.len()
            &&& object.tx == transaction_texts(ids)
            &&& object.transactions == transactions
            &&& object.final_orchard_root is Some <==> reached(nu5_activation, header.height)
            &&& nu5_activation is Some && header.height >= nu5_activation->0
                ==> object.final_orchard_root == Some(orchard_tree.root)
            &&& nu5_activation is None || header.height < nu5_activation->0
                ==> object.final_orchard_root is None
        }),
{
}

/// A query for a block spelled out whose lookups succeed asks for the header, then for the Sapling
/// tree of the same block, then for the depth of the hash that was found, and then for the body of
/// that hash at once, the transactions' data at verbosity 2 alone, with the header spelled out in
/// hand.
pub proof fn law_verbose_block_query(
    upgrades: Map<u32, NetworkUpgrade>,
    text: Seq<char>,
    verbosity: u8,
    found: FoundHeader,
    sapling_tree: TreeState,
    depth: Option<u32>,
)
    requires
        block_of_text(text) is Some,
        1 <= verbosity <= 3,
    ensures
        ({
            let block = block_of_text(text)->0;
            let with_data = verbosity == 2;
            let first = BlockQueryView::Header {
                block,
                with_data,
                query: HeaderQueryView::Header { block, verbose: true },
            };
            let second = BlockQueryView::Header {
                block,
                with_data,
                query: HeaderQueryView::SaplingTree { block, found },
            };
            let third = BlockQueryView::Header {
                block,
                with_data,
                query: HeaderQueryView::Depth { found, sapling_tree },
            };
            let header = header_object_view(
                found,
                sapling_tree,
                depth,
                activation_height_view(upgrades, NetworkUpgrade::Sapling),
            );
            &&& block_query_start(text, Some(verbosity)) == BlockStepView::Call(
                RequestView::BlockHeader(block),
                first,
            )
            &&& block_query_next(
                upgrades,
                first,
                BlockEvent::Reply(Ok(ReadResponse::BlockHeader(found))),
            ) == BlockStepView::Call(RequestView::SaplingTree(block), second)
            &&& block_query_next(
                upgrades,
                second,
                BlockEvent::Reply(Ok(ReadResponse::SaplingTree(Some(sapling_tree)))),
            ) == BlockStepView::Call(RequestView::Depth(found.hash@), third)
            &&& block_query_next(
                upgrades,
                third,
                BlockEvent::Reply(Ok(ReadResponse::Depth(depth))),
            ) == body_lookups(block, with_data, header)
        }),
{
}

/// At verbosity 2 the answer for a block that was found carries the data of each of its
/// transactions, in block order, beside their ids.
pub proof fn law_verbosity_two_carries_transaction_data(
    upgrades: Map<u32, NetworkUpgrade>,
    block: BlockId,
    header: HeaderObjectView,
    found: Block,
    ids: Vec<TransactionId>,
    data: Vec<Vec<u8>>,
    tree: TreeState,
)
    requires
        serialized_transactions(found.transactions@) == Some(bytes_of(data@)),
    ensures
        ({
            let ids_reply = BlockEvent::TransactionIds(
                Ok(ReadResponse::TransactionIdsForBlock(Some(ids))),
            );
            let data_reply = BlockEvent::Transactions(
                Ok(ReadResponse::BlockTransactions(Some(data))),
            );
            let tree_reply = BlockEvent::OrchardTree(Ok(ReadResponse::OrchardTree(Some(tree))));
            let object = block_object_view(
                header,
                transaction_texts(ids@),
                serialized_transactions(found.transactions@),
                tree,
                activation_height_view(upgrades, NetworkUpgrade::Nu5),
            );
            &&& body_lookups(block, true, header) == (BlockStepView::CallBody {
                transaction_ids: RequestView::TransactionIdsForBlock(BlockId::Hash(header.hash@)),
                transactions: Some(RequestView::Block(BlockId::Hash(header.hash@))),
                orchard_tree: RequestView::OrchardTree(BlockId::Hash(header.hash@)),
                query: body_query(block, true, header),
            })
            &&& block_query_next(upgrades, body_query(block, true, header), ids_reply) matches
                BlockStepView::Wait(second)
                && block_query_next(upgrades, second, tree_reply) matches BlockStepView::Wait(third)
                && block_query_next(upgrades, third, data_reply)
                == BlockStepView::Done(Ok(BlockAnswerView::Object(object)))
            &&& object.transactions == Some(bytes_of(data@))
            &&& object.tx == transaction_texts(ids@)
        }),
{
}

/// At verbosity 1 and 3 the answer for a block that was found carries the ids of its transactions,
/// in block order, and not their data.
pub proof fn law_verbosities_one_and_three_carry_transaction_ids(
    upgrades: Map<u32, NetworkUpgrade>,
    block: BlockId,
    header: HeaderObjectView,
    ids: Vec<TransactionId>,
    tree: TreeState,
)
    ensures
        ({
            let ids_reply = BlockEvent::TransactionIds(
                Ok(ReadResponse::TransactionIdsForBlock(Some(ids))),
            );
            let tree_reply = BlockEvent::OrchardTree(Ok(ReadResponse::OrchardTree(Some(tree))));
            let object = block_object_view(
                header,
                transaction_texts(ids@),
                None,
                tree,
                activation_height_view(upgrades, NetworkUpgrade::Nu5),
            );
            &&& body_lookups(block, false, header) == (BlockStepView::CallBody {
                transaction_ids: RequestView::TransactionIdsForBlock(BlockId::Hash(header.hash@)),
                transactions: None,
                orchard_tree: RequestView::OrchardTree(BlockId::Hash(header.hash@)),
                query: body_query(block, false, header),
            })
            &&& block_query_next(upgrades, body_query(block, false, header), ids_reply) matches
                BlockStepView::Wait(second) && block_query_next(upgrades, second, tree_reply)
                == BlockStepView::Done(Ok(BlockAnswerView::Object(object)))
            &&& object.tx == transaction_texts(ids@)
            &&& object.transactions is None
        }),
{
}

/// One for a lookup that is under way, and zero for one that is not.
pub open spec fn pending(under_way: bool) -> nat {
    if under_way {
        1
    } else {
        0
    }
}

/// The number of lookups whose replies a block query can still take.
pub open spec fn block_lookups_left(query: BlockQueryView) -> nat {
    match query {
        BlockQueryView::Raw { .. } => 1,
        BlockQueryView::Header { with_data, query, .. } => header_lookups_left(query) + 2 + pending(
            with_data,
        ),
        BlockQueryView::Body { tx, transactions, orchard_tree, .. } => pending(tx is None)
            + pending(transactions is Awaited) + pending(orchard_tree is None),
    }
}

/// Every reply brings a block query closer to its answer, so it makes six lookups at most; and a
/// query that waits has a lookup under way.
pub proof fn law_block_query_ends(
    upgrades: Map<u32, NetworkUpgrade>,
    query: BlockQueryView,
    event: BlockEvent,
)
    requires
        block_event_fits(query, event),
    ensures
        match block_query_next(upgrades, query, event) {
            BlockStepView::Call(_, rest) => block_lookups_left(rest) < block_lookups_left(query),
            BlockStepView::CallBody { transactions, query: rest, .. } => block_lookups_left(rest)
                == 2 + pending(transactions is Some) && block_lookups_left(rest)
                < block_lookups_left(query),
            BlockStepView::Wait(rest) => 1 <= block_lookups_left(rest) < block_lookups_left(query),
            BlockStepView::Done(_) => true,
        },
{
    if let BlockQueryView::Header { query: inner, .. } = query {
        if let BlockEvent::Reply(reply) = event {
            law_header_query_ends(upgrades, inner, reply);
        }
    }
}

/// A block that is asked for spelled out, with the ids and the tree as its body, is answered with
/// what the lookups found: the header's fields, its neighbours, the confirmations by the depth, the
/// sizes of both trees, and the ids in block order.
pub proof fn law_block_answer_comes_from_the_lookups(
    upgrades: Map<u32, NetworkUpgrade>,
    text: Seq<char>,
    verbosity: Option<u8>,
    found: FoundHeader,
    sapling_tree: TreeState,
    depth: Option<u32>,
    ids: Vec<TransactionId>,
    orchard_tree: TreeState,
)
    requires
        block_of_text(text) is Some,
        verbosity is None || verbosity == Some(1u8) || verbosity == Some(3u8),
    ensures
        block_query_start(text, verbosity) matches BlockStepView::Call(_, first)
            && block_query_next(
            upgrades,
            first,
            BlockEvent::Reply(Ok(ReadResponse::BlockHeader(found))),
        ) matches BlockStepView::Call(_, second) && block_query_next(
            upgrades,
            second,
            BlockEvent::Reply(Ok(ReadResponse::SaplingTree(Some(sapling_tree)))),
        ) matches BlockStepView::Call(_, third) && block_query_next(
            upgrades,
            third,
            BlockEvent::Reply(Ok(ReadResponse::Depth(depth))),
        ) matches BlockStepView::CallBody { query: fourth, .. } && block_query_next(
            upgrades,
            fourth,
            BlockEvent::TransactionIds(Ok(ReadResponse::TransactionIdsForBlock(Some(ids)))),
        ) matches BlockStepView::Wait(fifth) && block_query_next(
            upgrades,
            fifth,
            BlockEvent::OrchardTree(Ok(ReadResponse::OrchardTree(Some(orchard_tree)))),
        ) matches BlockStepView::Done(Ok(BlockAnswerView::Object(object))) && {
            let nu5 = activation_height_view(upgrades, NetworkUpgrade::Nu5);
            &&& object.hash == found.hash
            &&& object.height == Some(found.height)
            &&& object.version == Some(found.header.version)
            &&& object.merkle_root == Some(found.header.merkle_root)
            &&& object.time == Some(found.header.time.secs)
            &&& object.solution == Some(found.header.solution)
            &&& object.bits == Some(found.header.difficulty_threshold)
            &&& object.previous_block_hash == Some(found.header.previous_block_hash)
            &&& object.next_block_hash == found.next_block_hash
            &&& object.nonce is Some && object.nonce->0.reverse() == found.header.nonce@
            &&& depth is Some ==> object.confirmations == depth->0 + 1
            &&& depth is None ==> object.confirmations == -1
            &&& object.trees.sapling == sapling_tree.size
            &&& object.trees.orchard == orchard_tree.size
            &&& object.final_orchard_root == (if nu5 is Some && found.height >= nu5->0 {
                Some(orchard_tree.root)
            } else {
                None
            })
            &&& object.tx.len() == ids@.len()
            &&& forall|i: int| 0 <= i < ids@.len() ==> object.tx[i] == hash_text(ids@[i].0@)
            &&& object.transactions is None
            &&& object.size is None
        },
{
    law_nonce_and_root_are_reversed(
        found,
        sapling_tree,
        depth,
        activation_height_view(upgrades, NetworkUpgrade::Sapling),
    );
}

/// At verbosity 2 the answer is that of verbosity 1 from the same lookups, with the data of the
/// transactions added at each index.
pub proof fn law_data_is_all_that_verbosity_two_adds(
    upgrades: Map<u32, NetworkUpgrade>,
    block: BlockId,
    header: HeaderObjectView,
    ids: Vec<TransactionId>,
    data: Vec<Vec<u8>>,
    tree: TreeState,
)
    ensures
        ({
            let ids_reply = BlockEvent::TransactionIds(
                Ok(ReadResponse::TransactionIdsForBlock(Some(ids))),
            );
            let data_reply = BlockEvent::Transactions(
                Ok(ReadResponse::BlockTransactions(Some(data))),
            );
            let tree_reply = BlockEvent::OrchardTree(Ok(ReadResponse::OrchardTree(Some(tree))));
            block_query_next(upgrades, body_query(block, false, header), ids_reply) matches
                BlockStepView::Wait(short) && block_query_next(upgrades, short, tree_reply) matches
                BlockStepView::Done(Ok(BlockAnswerView::Object(without))) && block_query_next(
                upgrades,
                body_query(block, true, header),
                ids_reply,
            ) matches BlockStepView::Wait(long) && block_query_next(upgrades, long, tree_reply)
                matches BlockStepView::Wait(longer) && block_query_next(
                upgrades,
                longer,
                data_reply,
            ) matches BlockStepView::Done(Ok(BlockAnswerView::Object(with))) && {
                &&& with == (BlockObjectView { transactions: with.transactions, ..without })
                &&& with.transactions is Some
                &&& with.transactions->0.len() == data@.len()
                &&& forall|i: int| 0 <= i < data@.len() ==> with.transactions->0[i] == data@[i]@
            }
        }),
{
}

/// A raw lookup that fails passes its reason on, and so does an error of the header query within a
/// block query; an answer of that query that is not spelled out is an error too.
pub proof fn law_block_query_reports_failures(
    upgrades: Map<u32, NetworkUpgrade>,
    block: BlockId,
    with_data: bool,
    query: HeaderQueryView,
    reply: Reply,
    reason: String,
    error: ErrorView,
)
    ensures
        block_query_next(
            upgrades,
            BlockQueryView::Raw { block },
            BlockEvent::Reply(Err(reason)),
        ) == BlockStepView::Done(Err(ErrorView::Generic(reason@))),
        header_query_next(upgrades, query, reply) == HeaderStepView::Done(Err(error))
            ==> block_query_next(
            upgrades,
            BlockQueryView::Header { block, with_data, query },
            BlockEvent::Reply(reply),
        ) == BlockStepView::Done(Err(error)),
        header_query_next(upgrades, query, reply) matches HeaderStepView::Done(
            Ok(HeaderAnswerView::Raw(_)),
        ) ==> block_query_next(
            upgrades,
            BlockQueryView::Header { block, with_data, query },
            BlockEvent::Reply(reply),
        ) == BlockStepView::Done(
            Err(ErrorView::Custom("Unexpected response type for BlockHeader"@)),
        ),
{
}

/// The view of a block spelled out shows each of its fields.
pub proof fn law_block_object_view_shows_each_field(object: BlockObject, i: int)
    ensures
        ({
            let view = object@;
            &&& view.hash == object.hash
            &&& view.confirmations == object.confirmations
            &&& view.size == object.size
            &&& view.height == object.height
            &&& view.version == object.version
            &&& view.merkle_root == object.merkle_root
            &&& view.final_sapling_root is Some <==> object.final_sapling_root is Some
            &&& object.final_sapling_root is Some ==> view.final_sapling_root->0
                == object.final_sapling_root->0@
            &&& view.final_orchard_root == object.final_orchard_root
            &&& view.tx.len() == object.tx@.len()
            &&& 0 <= i < object.tx@.len() ==> view.tx[i] == object.tx@[i]@
            &&& view.transactions is Some <==> object.transactions is Some
            &&& object.transactions is Some ==> view.transactions->0.len()
                == object.transactions->0@.len()
            &&& object.transactions is Some && 0 <= i < object.transactions->0@.len()
                ==> view.transactions->0[i] == object.transactions->0@[i]@
            &&& view.time == object.time
            &&& view.nonce is Some <==> object.nonce is Some
            &&& object.nonce is Some ==> view.nonce->0 == object.nonce->0@
            &&& view.solution == object.solution
            &&& view.bits == object.bits
            &&& view.trees == object.trees
            &&& view.previous_block_hash == object.previous_block_hash
            &&& view.next_block_hash == object.next_block_hash
        }),
{
}

/// The views of answers, queries and steps show what they hold.
pub proof fn law_block_step_views_show_each_step(
    bytes: Vec<u8>,
    object: BlockObject,
    request: ReadRequest,
    other_request: ReadRequest,
    transactions: Option<ReadRequest>,
    query: BlockQuery,
    answer: GetBlock,
    error: StateServiceError,
)
    ensures
        GetBlock::Raw(bytes)@ == BlockAnswerView::Raw(bytes@),
        GetBlock::Object(object)@ == BlockAnswerView::Object(object@),
        BlockStep::Call(request, query)@ == BlockStepView::Call(request@, query@),
        BlockStep::Wait(query)@ == BlockStepView::Wait(query@),
        BlockStep::Done(Ok(answer))@ == BlockStepView::Done(Ok(answer@)),
        BlockStep::Done(Err(error))@ == BlockStepView::Done(Err(error@)),
        (BlockStep::CallBody {
            transaction_ids: request,
            transactions,
            orchard_tree: other_request,
            query,
        })@ == (BlockStepView::CallBody {
            transaction_ids: request@,
            transactions: match transactions {
                Some(transactions) => Some(transactions@),
                None => None,
            },
            orchard_tree: other_request@,
            query: query@,
        }),
{
}

/// The views of what a block query waits for show the block as the caller named it, and all that
/// has come so far.
pub proof fn law_block_query_views_show_each_part(
    block: HashOrHeight,
    with_data: bool,
    query: BlockHeaderQuery,
    header: BlockHeaderObject,
    tx: Vec<String>,
    data: Vec<Vec<u8>>,
    transactions: TransactionData,
    orchard_tree: Option<TreeState>,
)
    ensures
        (BlockQuery::Raw { block })@ == (BlockQueryView::Raw { block: block@ }),
        (BlockQuery::Header { block, with_data, query })@ == (BlockQueryView::Header {
            block: block@,
            with_data,
            query: query@,
        }),
        (BlockQuery::Body { block, header, tx: Some(tx), transactions, orchard_tree })@ == (
        BlockQueryView::Body {
            block: block@,
            header: header@,
            tx: Some(texts_view(tx@)),
            transactions: transactions@,
            orchard_tree,
        }),
        (BlockQuery::Body { block, header, tx: None, transactions, orchard_tree })@ == (
        BlockQueryView::Body {
            block: block@,
            header: header@,
            tx: None,
            transactions: transactions@,
            orchard_tree,
        }),
        TransactionData::Omitted@ == TransactionDataView::Omitted,
        TransactionData::Awaited@ == TransactionDataView::Awaited,
        TransactionData::Found(data)@ == TransactionDataView::Found(bytes_of(data@)),
{
}

/// A query that goes on waiting keeps the block as the caller named it, its header, and all that
/// had come before; what the reply brought is added, and nothing else changes.
pub proof fn law_waiting_query_keeps_what_it_has(
    upgrades: Map<u32, NetworkUpgrade>,
    query: BlockQueryView,
    event: BlockEvent,
)
    requires
        block_event_fits(query, event),
        brings_body(event),
    ensures
        query is Body,
        match block_query_next(upgrades, query, event) {
            BlockStepView::Wait(rest) => {
                &&& rest is Body
                &&& rest->Body_block == query->Body_block
                &&& rest->Body_header == query->header
                &&& event matches BlockEvent::TransactionIds(reply) ==> rest->tx == Some(
                    transaction_texts(reply->Ok_0->TransactionIdsForBlock_0->0@),
                )
                &&& event !is TransactionIds ==> rest->tx == query->tx
                &&& event matches BlockEvent::Transactions(reply) ==> rest->transactions
                    == TransactionDataView::Found(bytes_of(reply->Ok_0->BlockTransactions_0->0@))
                &&& event !is Transactions ==> rest->transactions == query->transactions
                &&& event matches BlockEvent::OrchardTree(reply) ==> rest->orchard_tree == Some(
                    reply->Ok_0->OrchardTree_0->0,
                )
                &&& event !is OrchardTree ==> rest->orchard_tree == query->orchard_tree
            },
            BlockStepView::Done(Ok(BlockAnswerView::Object(object))) => {
                &&& object.hash == query->header.hash
                &&& object.next_block_hash == query->header.next_block_hash
                &&& event !is TransactionIds ==> query->tx == Some(object.tx)
                &&& event matches BlockEvent::TransactionIds(reply) ==> object.tx
                    == transaction_texts(reply->Ok_0->TransactionIdsForBlock_0->0@)
                &&& event !is OrchardTree ==> query->orchard_tree is Some && object.trees.orchard
                    == query->orchard_tree->0.size
            },
            _ => false,
        },
{
}

/// A block that leaves the state after its header was found is reported, at any verbosity that
/// spells it out, with code -5 if the caller passed a hash and -8 if they passed a height, though
/// its body is looked up by hash.
pub proof fn law_block_gone_before_its_body_is_reported_by_its_name(
    upgrades: Map<u32, NetworkUpgrade>,
    text: Seq<char>,
    verbosity: u8,
    found: FoundHeader,
    sapling_tree: TreeState,
    depth: Option<u32>,
)
    requires
        block_of_text(text) is Some,
        1 <= verbosity <= 3,
    ensures
        block_query_start(text, Some(verbosity)) matches BlockStepView::Call(_, first)
            && block_query_next(
            upgrades,
            first,
            BlockEvent::Reply(Ok(ReadResponse::BlockHeader(found))),
        ) matches BlockStepView::Call(_, second) && block_query_next(
            upgrades,
            second,
            BlockEvent::Reply(Ok(ReadResponse::SaplingTree(Some(sapling_tree)))),
        ) matches BlockStepView::Call(_, third) && block_query_next(
            upgrades,
            third,
            BlockEvent::Reply(Ok(ReadResponse::Depth(depth))),
        ) matches BlockStepView::CallBody { transactions, query: body, .. } && {
            let code: i64 = if block_of_text(text)->0 is Hash {
                -5i64
            } else {
                -8i64
            };
            &&& transactions is Some <==> verbosity == 2
            &&& block_query_next(
                upgrades,
                body,
                BlockEvent::TransactionIds(Ok(ReadResponse::TransactionIdsForBlock(None))),
            ) == BlockStepView::Done(Err(rpc_error_view(code, "Block not found"@)))
            &&& block_query_next(
                upgrades,
                body,
                BlockEvent::Transactions(Ok(ReadResponse::BlockTransactions(None))),
            ) == BlockStepView::Done(Err(rpc_error_view(code, "Block not found"@)))
            &&& block_query_next(
                upgrades,
                body,
                BlockEvent::OrchardTree(Ok(ReadResponse::OrchardTree(None))),
            ) == BlockStepView::Done(Err(rpc_error_view(code, "Missing orchard tree for block."@)))
        },
{
}

} // verus!
