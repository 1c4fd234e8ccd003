//! The block header query: a header in its serialized form, or spelled out with what the state
//! knows about its block.

use vstd::prelude::*;

use zebra_chain::block::merkle::Root;
use zebra_chain::parameters::Network;
use zebra_chain::serialization::ZcashSerialize;
use zebra_chain::work::difficulty::CompactDifficulty;
use zebra_chain::work::equihash::Solution as ZebraSolution;

use crate::error::{
    missing_block_code, missing_block_code_view, rpc_error, rpc_error_view, unexpected_reply,
    ErrorView, StateServiceError,
};
use crate::network::{
    activation_height, activation_height_view, activation_list, has_reached, reached,
    NetworkUpgrade,
};
use crate::requests::{
    FoundHeader, Header, ReadRequest, ReadResponse, Reply, RequestView, Solution, TreeState,
};
use crate::text::{
    block_of_text, no_block_named, parse_hash_or_height, BlockHash, BlockId, HashOrHeight,
};

verus! {

/// The number of confirmations of a block that is not in the best chain.
pub const NOT_IN_BEST_CHAIN_CONFIRMATIONS: i64 = -1;

/// A block header, spelled out.
#[derive(Clone, Copy, Debug)]
pub struct BlockHeaderObject {
    pub hash: BlockHash,
    pub confirmations: i64,
    pub height: u32,
    pub version: u32,
    pub merkle_root: [u8; 32],
    pub final_sapling_root: [u8; 32],
    pub sapling_tree_size: u64,
    pub time: i64,
    pub nonce: [u8; 32],
    pub solution: Solution,
    pub bits: CompactDifficulty,
    pub previous_block_hash: BlockHash,
    pub next_block_hash: Option<BlockHash>,
}

/// The answer to a block header query.
#[derive(Clone, Debug)]
pub enum GetBlockHeader {
    /// The serialized header.
    Raw(Vec<u8>),
    /// The header, spelled out.
    Object(BlockHeaderObject),
}

/// What a [`BlockHeaderObject`] says.
pub ghost struct HeaderObjectView {
    pub hash: BlockHash,
    pub confirmations: i64,
    pub height: u32,
    pub version: u32,
    pub merkle_root: [u8; 32],
    pub final_sapling_root: Seq<u8>,
    pub sapling_tree_size: u64,
    pub time: i64,
    pub nonce: Seq<u8>,
    pub solution: Solution,
    pub bits: CompactDifficulty,
    pub previous_block_hash: BlockHash,
    pub next_block_hash: Option<BlockHash>,
}

impl View for BlockHeaderObject {
    type V = HeaderObjectView;

    open spec fn view(&self) -> HeaderObjectView {
        HeaderObjectView {
            hash: self.hash,
            confirmations: self.confirmations,
            height: self.height,
            version: self.version,
            merkle_root: self.merkle_root,
            final_sapling_root: self.final_sapling_root@,
            sapling_tree_size: self.sapling_tree_size,
            time: self.time,
            nonce: self.nonce@,
            solution: self.solution,
            bits: self.bits,
            previous_block_hash: self.previous_block_hash,
            next_block_hash: self.next_block_hash,
        }
    }
}

/// What a [`GetBlockHeader`] says.
pub ghost enum HeaderAnswerView {
    Raw(Seq<u8>),
    Object(HeaderObjectView),
}

impl View for GetBlockHeader {
    type V = HeaderAnswerView;

    open spec fn view(&self) -> HeaderAnswerView {
        match *self {
            GetBlockHeader::Raw(bytes) => HeaderAnswerView::Raw(bytes@),
            GetBlockHeader::Object(object) => HeaderAnswerView::Object(object@),
        }
    }
}

/// What an unfinished block header query waits for.
#[derive(Clone, Copy, Debug)]
pub enum BlockHeaderQuery {
    /// The header itself.
    Header { block: HashOrHeight, verbose: bool },
    /// The Sapling tree after the block.
    SaplingTree { block: HashOrHeight, found: FoundHeader },
    /// The depth of the block.
    Depth { found: FoundHeader, sapling_tree: TreeState },
}

/// What a [`BlockHeaderQuery`] waits for.
pub ghost enum HeaderQueryView {
    Header { block: BlockId, verbose: bool },
    SaplingTree { block: BlockId, found: FoundHeader },
    Depth { found: FoundHeader, sapling_tree: TreeState },
}

impl View for BlockHeaderQuery {
    type V = HeaderQueryView;

    open spec fn view(&self) -> HeaderQueryView {
        match *self {
            BlockHeaderQuery::Header { block, verbose } => HeaderQueryView::Header {
                block: block@,
                verbose,
            },
            BlockHeaderQuery::SaplingTree { block, found } => HeaderQueryView::SaplingTree {
                block: block@,
                found,
            },
            BlockHeaderQuery::Depth { found, sapling_tree } => HeaderQueryView::Depth {
                found,
                sapling_tree,
            },
        }
    }
}

/// What a block header query does next.
#[derive(Debug)]
pub enum BlockHeaderStep {
    /// Make a lookup, and go on with the reply.
    Call(ReadRequest, BlockHeaderQuery),
    /// Answer.
    Done(Result<GetBlockHeader, StateServiceError>),
}

/// What a [`BlockHeaderStep`] does.
pub ghost enum HeaderStepView {
    Call(RequestView, HeaderQueryView),
    Done(Result<HeaderAnswerView, ErrorView>),
}

impl View for BlockHeaderStep {
    type V = HeaderStepView;

    open spec fn view(&self) -> HeaderStepView {
        match *self {
            BlockHeaderStep::Call(request, query) => HeaderStepView::Call(request@, query@),
            BlockHeaderStep::Done(Ok(answer)) => HeaderStepView::Done(Ok(answer@)),
            BlockHeaderStep::Done(Err(error)) => HeaderStepView::Done(Err(error@)),
        }
    }
}

/// The bytes of a number, the lowest first.
pub open spec fn le_bytes(number: int) -> Seq<u8> {
    seq![
        (number % 0x100) as u8,
        (number / 0x100 % 0x100) as u8,
        (number / 0x1_0000 % 0x100) as u8,
        (number / 0x100_0000 % 0x100) as u8,
    ]
}

/// A serialized solution: its length, and its bytes.
pub open spec fn solution_bytes(solution: Solution) -> Seq<u8> {
    match solution {
        Solution::Common(bytes) => seq![0xfdu8, 0x40u8, 0x05u8] + bytes@,
        Solution::Regtest(bytes) => seq![0x24u8] + bytes@,
    }
}

/// The number that a compact difficulty holds: what `CompactDifficulty::bytes_in_display_order`
/// spells, the highest byte first.
pub uninterp spec fn compact_difficulty_bits(threshold: CompactDifficulty) -> u32;

/// A serialized header, given the number that its difficulty threshold holds.
pub open spec fn header_layout(header: Header, bits: u32) -> Seq<u8> {
    le_bytes(header.version as int) + header.previous_block_hash@ + header.merkle_root@
        + header.commitment_bytes@ + le_bytes(header.time.secs as int) + le_bytes(bits as int)
        + header.nonce@ + solution_bytes(header.solution)
}

/// A serialized header.
pub open spec fn header_bytes(header: Header) -> Seq<u8> {
    header_layout(header, compact_difficulty_bits(header.difficulty_threshold))
}

/// Whether a header has a serialized form: its version is at least four and has its highest bit
/// clear, and its time is an unsigned number of seconds.
pub open spec fn has_serialized_form(header: Header) -> bool {
    &&& 4 <= header.version < 0x8000_0000
    &&& 0 <= header.time.secs <= u32::MAX
    &&& header.time.valid()
}

/// Returns whether a header has a serialized form.
pub fn is_serializable(header: &Header) -> (serializable: bool)
    ensures
        serializable == has_serialized_form(*header),
{
    4 <= header.version && header.version < 0x8000_0000 && 0 <= header.time.secs
        && header.time.secs <= 0xffff_ffff && header.time.is_valid()
}

/// Calls `zebra_chain::serialization::ZcashSerialize::zcash_serialize_to_vec` on a
/// `zebra_chain::block::Header`.
///
/// Claims that the bytes are the header's fields in order, numbers with their lowest byte first,
/// and the solution with its length in front.
#[verifier::external_body]
fn serialize_header(header: &Header) -> (bytes: Vec<u8>)
    requires
        has_serialized_form(*header),
    ensures
        bytes@ == header_layout(*header, compact_difficulty_bits(header.difficulty_threshold)),
{
    zebra_chain::block::Header {
        version: header.version,
        previous_block_hash: zebra_chain::block::Hash(header.previous_block_hash.0),
        merkle_root: Root(header.merkle_root),
        commitment_bytes: header.commitment_bytes.into(),
        time: chrono::DateTime::from_timestamp(header.time.secs, header.time.nanos).unwrap(),
        difficulty_threshold: header.difficulty_threshold,
        nonce: header.nonce.into(),
        solution: match header.solution {
            Solution::Common(bytes) => ZebraSolution::Common(bytes),
            Solution::Regtest(bytes) => ZebraSolution::Regtest(bytes),
        },
    }.zcash_serialize_to_vec().unwrap()
}

/// Returns the bytes of an array, the last one first.
fn reversed(bytes: &[u8; 32]) -> (out: [u8; 32])
    ensures
        out@ == bytes@.reverse(),
{
    let mut out: [u8; 32] = [0u8; 32];
    let mut i: usize = 0;
    while i < 32
        invariant
            i <= 32,
            forall|j: int| 0 <= j < i ==> out@[j] == bytes@[31 - j],
        decreases 32 - i,
    {
        out[i] = bytes[31 - i];
        i = i + 1;
    }
    assert(out@ =~= bytes@.reverse());
    out
}

/// The number of confirmations of a block: one more than its depth in the best chain.
pub open spec fn confirmations_view(depth: Option<u32>) -> int {
    match depth {
        Some(depth) => depth + 1,
        None => NOT_IN_BEST_CHAIN_CONFIRMATIONS as int,
    }
}

/// The header of a block, spelled out, where the Sapling upgrade activates at the given height.
pub open spec fn header_object_view(
    found: FoundHeader,
    sapling_tree: TreeState,
    depth: Option<u32>,
    sapling_activation: Option<u32>,
) -> HeaderObjectView {
    HeaderObjectView {
        hash: found.hash,
        confirmations: confirmations_view(depth) as i64,
        height: found.height,
        version: found.header.version,
        merkle_root: found.header.merkle_root,
        final_sapling_root: if reached(sapling_activation, found.height) {
            sapling_tree.root@.reverse()
        } else {
            Seq::new(32, |i: int| 0u8)
        },
        sapling_tree_size: sapling_tree.size,
        time: found.header.time.secs,
        nonce: found.header.nonce@.reverse(),
        solution: found.header.solution,
        bits: found.header.difficulty_threshold,
        previous_block_hash: found.header.previous_block_hash,
        next_block_hash: found.next_block_hash,
    }
}

/// The first step of a block header query.
pub open spec fn header_query_start(text: Seq<char>, verbose: Option<bool>) -> HeaderStepView {
    match block_of_text(text) {
        Some(block) => HeaderStepView::Call(
            RequestView::BlockHeader(block),
            HeaderQueryView::Header { block, verbose: verbose == Some(true) },
        ),
        None => HeaderStepView::Done(Err(no_block_named())),
    }
}

/// The step of a block header query on a reply.
pub open spec fn header_query_next(
    upgrades: Map<u32, NetworkUpgrade>,
    query: HeaderQueryView,
    reply: Reply,
) -> HeaderStepView {
    match query {
        HeaderQueryView::Header { block, verbose } => match reply {
            Ok(ReadResponse::BlockHeader(found)) => if verbose {
                HeaderStepView::Call(
                    RequestView::SaplingTree(block),
                    HeaderQueryView::SaplingTree { block, found },
                )
            } else {
                HeaderStepView::Done(Ok(HeaderAnswerView::Raw(header_bytes(found.header))))
            },
            Ok(_) => HeaderStepView::Done(
                Err(ErrorView::Custom("Unexpected response to BlockHeader request"@)),
            ),
            Err(_) => HeaderStepView::Done(
                Err(
                    rpc_error_view(
                        missing_block_code_view(block),
                        "block height not in best chain"@,
                    ),
                ),
            ),
        },
        HeaderQueryView::SaplingTree { block, found } => match reply {
            Ok(ReadResponse::SaplingTree(Some(sapling_tree))) => HeaderStepView::Call(
                RequestView::Depth(found.hash@),
                HeaderQueryView::Depth { found, sapling_tree },
            ),
            Ok(ReadResponse::SaplingTree(None)) => HeaderStepView::Done(
                Err(
                    rpc_error_view(
                        missing_block_code_view(block),
                        "missing sapling tree for block"@,
                    ),
                ),
            ),
            Ok(_) => HeaderStepView::Done(
                Err(ErrorView::Custom("Unexpected response to SaplingTree request"@)),
            ),
            Err(reason) => HeaderStepView::Done(Err(ErrorView::Generic(reason@))),
        },
        HeaderQueryView::Depth { found, sapling_tree } => match reply {
            Ok(ReadResponse::Depth(depth)) => HeaderStepView::Done(
                Ok(
                    HeaderAnswerView::Object(
                        header_object_view(
                            found,
                            sapling_tree,
                            depth,
                            activation_height_view(upgrades, NetworkUpgrade::Sapling),
                        ),
                    ),
                ),
            ),
            Ok(_) => HeaderStepView::Done(
                Err(ErrorView::Custom("Unexpected response to Depth request"@)),
            ),
            Err(reason) => HeaderStepView::Done(Err(ErrorView::Generic(reason@))),
        },
    }
}

/// Whether a query can go on with a reply: a header that is to be serialized has a serialized form.
pub open spec fn header_reply_fits(query: HeaderQueryView, reply: Reply) -> bool {
    (query matches HeaderQueryView::Header { block, verbose } && !verbose) ==> (reply matches Ok(
        ReadResponse::BlockHeader(found),
    ) ==> has_serialized_form(found.header))
}

/// Spells out the header of a block, given what the state knows about the block and the height at
/// which the Sapling upgrade activates.
pub fn header_object(
    found: &FoundHeader,
    sapling_tree: &TreeState,
    depth: Option<u32>,
    sapling_activation: Option<u32>,
) -> (object: BlockHeaderObject)
    ensures
        object@ == header_object_view(*found, *sapling_tree, depth, sapling_activation),
        object.hash == found.hash,
        object.height == found.height,
        object.version == found.header.version,
        object.merkle_root == found.header.merkle_root,
        object.sapling_tree_size == sapling_tree.size,
        object.time == found.header.time.secs,
        object.solution == found.header.solution,
        object.bits == found.header.difficulty_threshold,
        object.previous_block_hash == found.header.previous_block_hash,
        object.next_block_hash == found.next_block_hash,
        depth is Some ==> object.confirmations == depth->0 + 1,
        depth is None ==> object.confirmations == -1,
        forall|i: int| 0 <= i < 32 ==> #[trigger] object.nonce@[i] == found.header.nonce@[31 - i],
        forall|i: int|
            0 <= i < 32 ==> #[trigger] object.final_sapling_root@[i] == (if sapling_activation
                is Some && found.height >= sapling_activation->0 {
                sapling_tree.root@[31 - i]
            } else {
                0
            }),
{
    let confirmations: i64 = match depth {
        Some(depth) => depth as i64 + 1,
        None => NOT_IN_BEST_CHAIN_CONFIRMATIONS,
    };
    let sapling_active = has_reached(sapling_activation, found.height);
    let final_sapling_root: [u8; 32] = if sapling_active {
        reversed(&sapling_tree.root)
    } else {
        [0u8; 32]
    };
    assert(!sapling_active ==> final_sapling_root@ =~= Seq::new(32, |i: int| 0u8));
    BlockHeaderObject {
        hash: found.hash,
        confirmations,
        height: found.height,
        version: found.header.version,
        merkle_root: found.header.merkle_root,
        final_sapling_root,
        sapling_tree_size: sapling_tree.size,
        time: found.header.time.secs,
        nonce: reversed(&found.header.nonce),
        solution: found.header.solution,
        bits: found.header.difficulty_threshold,
        previous_block_hash: found.header.previous_block_hash,
        next_block_hash: found.next_block_hash,
    }
}

/// Starts a block header query: `verbose` asks for the header spelled out, and is off by default.
pub fn start_block_header(block: &str, verbose: Option<bool>) -> (step: BlockHeaderStep)
    ensures
        step@ == header_query_start(block@, verbose),
{
    let verbose: bool = match verbose {
        Some(verbose) => verbose,
        None => false,
    };
    match parse_hash_or_height(block) {
        Ok(block) => BlockHeaderStep::Call(
            ReadRequest::BlockHeader(block),
            BlockHeaderQuery::Header { block, verbose },
        ),
        Err(error) => BlockHeaderStep::Done(Err(error)),
    }
}

/// Goes on with a block header query.
pub fn resume_block_header(network: &Network, query: BlockHeaderQuery, reply: Reply) -> (step:
    BlockHeaderStep)
    requires
        header_reply_fits(query@, reply),
    ensures
        step@ == header_query_next(activation_list(*network), query@, reply),
{
    match query {
        BlockHeaderQuery::Header { block, verbose } => match reply {
            Ok(ReadResponse::BlockHeader(found)) => if verbose {
                BlockHeaderStep::Call(
                    ReadRequest::SaplingTree(block),
                    BlockHeaderQuery::SaplingTree { block, found },
                )
            } else {
                BlockHeaderStep::Done(Ok(GetBlockHeader::Raw(serialize_header(&found.header))))
            },
            Ok(_) => BlockHeaderStep::Done(
                Err(unexpected_reply("Unexpected response to BlockHeader request")),
            ),
            Err(_) => BlockHeaderStep::Done(
                Err(rpc_error(missing_block_code(&block), "block height not in best chain")),
            ),
        },
        BlockHeaderQuery::SaplingTree { block, found } => match reply {
            Ok(ReadResponse::SaplingTree(Some(sapling_tree))) => BlockHeaderStep::Call(
                ReadRequest::Depth(found.hash),
                BlockHeaderQuery::Depth { found, sapling_tree },
            ),
            // The block left the best chain since its header was found.
            Ok(ReadResponse::SaplingTree(None)) => BlockHeaderStep::Done(
                Err(rpc_error(missing_block_code(&block), "missing sapling tree for block")),
            ),
            Ok(_) => BlockHeaderStep::Done(
                Err(unexpected_reply("Unexpected response to SaplingTree request")),
            ),
            Err(reason) => BlockHeaderStep::Done(Err(StateServiceError::Generic(reason))),
        },
        BlockHeaderQuery::Depth { found, sapling_tree } => match reply {
            Ok(ReadResponse::Depth(depth)) => {
                let sapling_activation = activation_height(NetworkUpgrade::Sapling, network);
                BlockHeaderStep::Done(
                    Ok(
                        GetBlockHeader::Object(
                            header_object(&found, &sapling_tree, depth, sapling_activation),
                        ),
                    ),
                )
            },
            Ok(_) => BlockHeaderStep::Done(
                Err(unexpected_reply("Unexpected response to Depth request")),
            ),
            Err(reason) => BlockHeaderStep::Done(Err(StateServiceError::Generic(reason))),
        },
    }
}

/// Confirmations are one more than the depth, so a block in the best chain has at least one; a
/// block outside of it has minus one, and no other block has.
pub proof fn law_confirmations_tell_the_best_chain(
    found: FoundHeader,
    sapling_tree: TreeState,
    depth: Option<u32>,
    sapling_activation: Option<u32>,
)
    ensures
        ({
            let confirmations = header_object_view(
                found,
                sapling_tree,
                depth,
                sapling_activation,
            ).confirmations;
            &&& depth is Some ==> confirmations == depth->0 + 1 && confirmations >= 1
            &&& depth is None <==> confirmations == NOT_IN_BEST_CHAIN_CONFIRMATIONS
        }),
{
}

/// The nonce and, from the Sapling upgrade on, the Sapling root are given in reverse: turned round
/// again, they are those of the header and the tree. Before the upgrade the root is all zeros.
pub proof fn law_nonce_and_root_are_reversed(
    found: FoundHeader,
    sapling_tree: TreeState,
    depth: Option<u32>,
    sapling_activation: Option<u32>,
)
    ensures
        ({
            let object = header_object_view(found, sapling_tree, depth, sapling_activation);
            &&& object.nonce.reverse() == found.header.nonce@
            &&& reached(sapling_activation, found.height) ==> object.final_sapling_root.reverse()
                == sapling_tree.root@
            &&& !reached(sapling_activation, found.height) ==> forall|i: int|
                0 <= i < 32 ==> object.final_sapling_root[i] == 0
        }),
{
    let object = header_object_view(found, sapling_tree, depth, sapling_activation);
    assert(found.header.nonce@.reverse().reverse() =~= found.header.nonce@);
    assert(sapling_tree.root@.reverse().reverse() =~= sapling_tree.root@);
}

/// A query for a block that is not in the state is answered with code -5 if a hash was passed, and
/// with code -8 if a height was passed: where its header is not found, whatever the state's account
/// of the failure, and where the block is gone by the time its Sapling tree is looked up.
pub proof fn law_missing_header_code_tells_hash_from_height(
    upgrades: Map<u32, NetworkUpgrade>,
    text: Seq<char>,
    verbose: Option<bool>,
    reason: String,
    found: FoundHeader,
)
    requires
        block_of_text(text) is Some,
    ensures
        ({
            let block = block_of_text(text)->0;
            let code: i64 = if block is Hash {
                -5i64
            } else {
                -8i64
            };
            let its_header = HeaderQueryView::Header { block, verbose: verbose == Some(true) };
            let its_tree = HeaderQueryView::SaplingTree { block, found };
            &&& header_query_start(text, verbose) == HeaderStepView::Call(
                RequestView::BlockHeader(block),
                its_header,
            )
            &&& header_query_next(upgrades, its_header, Err(reason)) == HeaderStepView::Done(
                Err(rpc_error_view(code, "block height not in best chain"@)),
            )
            &&& verbose == Some(true) ==> header_query_next(
                upgrades,
                its_header,
                Ok(ReadResponse::BlockHeader(found)),
            ) == HeaderStepView::Call(RequestView::SaplingTree(block), its_tree)
            &&& header_query_next(upgrades, its_tree, Ok(ReadResponse::SaplingTree(None)))
                == HeaderStepView::Done(
                Err(rpc_error_view(code, "missing sapling tree for block"@)),
            )
        }),
{
}

/// A verbose query whose lookups all succeed asks for the header, then for the Sapling tree of the
/// same block, then for the depth of the hash that was found, and answers with the header spelled
/// out.
pub proof fn law_verbose_header_query(
    upgrades: Map<u32, NetworkUpgrade>,
    text: Seq<char>,
    found: FoundHeader,
    sapling_tree: TreeState,
    depth: Option<u32>,
)
    requires
        block_of_text(text) is Some,
    ensures
        ({
            let block = block_of_text(text)->0;
            let first = HeaderQueryView::Header { block, verbose: true };
            let second = HeaderQueryView::SaplingTree { block, found };
            let third = HeaderQueryView::Depth { found, sapling_tree };
            &&& header_query_start(text, Some(true)) == HeaderStepView::Call(
                RequestView::BlockHeader(block),
                first,
            )
            &&& header_query_next(upgrades, first, Ok(ReadResponse::BlockHeader(found)))
                == HeaderStepView::Call(RequestView::SaplingTree(block), second)
            &&& header_query_next(
                upgrades,
                second,
                Ok(ReadResponse::SaplingTree(Some(sapling_tree))),
            ) == HeaderStepView::Call(RequestView::Depth(found.hash@), third)
            &&& header_query_next(upgrades, third, Ok(ReadResponse::Depth(depth)))
                == HeaderStepView::Done(
                Ok(
                    HeaderAnswerView::Object(
                        header_object_view(
                            found,
                            sapling_tree,
                            depth,
                            activation_height_view(upgrades, NetworkUpgrade::Sapling),
                        ),
                    ),
                ),
            )
        }),
{
}

/// A query that is not verbose, or does not say, is answered with the serialized header after the
/// one lookup.
pub proof fn law_header_query_is_raw_by_default(
    upgrades: Map<u32, NetworkUpgrade>,
    text: Seq<char>,
    verbose: Option<bool>,
    found: FoundHeader,
)
    requires
        block_of_text(text) is Some,
        verbose != Some(true),
    ensures
        header_query_start(text, verbose) matches HeaderStepView::Call(_, query)
            && header_query_next(upgrades, query, Ok(ReadResponse::BlockHeader(found)))
            == HeaderStepView::Done(Ok(HeaderAnswerView::Raw(header_bytes(found.header)))),
{
}

/// A serialized header takes 140 bytes and the solution with its length in front.
pub proof fn law_serialized_header_length(header: Header)
    ensures
        header_bytes(header).len() == (match header.solution {
            Solution::Common(_) => 1487int,
            Solution::Regtest(_) => 177int,
        }),
{
}

/// Headers with the same serialized form agree in everything that is serialized: the version, the
/// hashes, the seconds of the time, the difficulty threshold's number, the nonce and the solution.
pub proof fn law_serialized_headers_tell_headers_apart(a: Header, b: Header)
    requires
        has_serialized_form(a),
        has_serialized_form(b),
        header_bytes(a) == header_bytes(b),
    ensures
        a.version == b.version,
        a.previous_block_hash == b.previous_block_hash,
        a.merkle_root == b.merkle_root,
        a.commitment_bytes == b.commitment_bytes,
        a.time.secs == b.time.secs,
        compact_difficulty_bits(a.difficulty_threshold) == compact_difficulty_bits(
            b.difficulty_threshold,
        ),
        a.nonce == b.nonce,
        a.solution == b.solution,
{
    let bytes = header_bytes(a);
    let a_bits = compact_difficulty_bits(a.difficulty_threshold);
    let b_bits = compact_difficulty_bits(b.difficulty_threshold);
    law_serialized_header_length(a);
    law_serialized_header_length(b);
    assert(le_bytes(a.version as int) =~= bytes.subrange(0, 4));
    assert(le_bytes(b.version as int) =~= bytes.subrange(0, 4));
    lemma_le_bytes_tell_numbers_apart(a.version as int, b.version as int);
    assert(a.previous_block_hash@ =~= bytes.subrange(4, 36));
    assert(b.previous_block_hash@ =~= bytes.subrange(4, 36));
    assert(a.previous_block_hash.0 =~= b.previous_block_hash.0);
    assert(a.merkle_root@ =~= bytes.subrange(36, 68));
    assert(b.merkle_root@ =~= bytes.subrange(36, 68));
    assert(a.merkle_root =~= b.merkle_root);
    assert(a.commitment_bytes@ =~= bytes.subrange(68, 100));
    assert(b.commitment_bytes@ =~= bytes.subrange(68, 100));
    assert(a.commitment_bytes =~= b.commitment_bytes);
    assert(le_bytes(a.time.secs as int) =~= bytes.subrange(100, 104));
    assert(le_bytes(b.time.secs as int) =~= bytes.subrange(100, 104));
    lemma_le_bytes_tell_numbers_apart(a.time.secs as int, b.time.secs as int);
    assert(le_bytes(a_bits as int) =~= bytes.subrange(104, 108));
    assert(le_bytes(b_bits as int) =~= bytes.subrange(104, 108));
    lemma_le_bytes_tell_numbers_apart(a_bits as int, b_bits as int);
    assert(a.nonce@ =~= bytes.subrange(108, 140));
    assert(b.nonce@ =~= bytes.subrange(108, 140));
    assert(a.nonce =~= b.nonce);
    assert(solution_bytes(a.solution) =~= bytes.skip(140));
    assert(solution_bytes(b.solution) =~= bytes.skip(140));
    match (a.solution, b.solution) {
        (Solution::Common(x), Solution::Common(y)) => {
            assert(x@ =~= bytes.skip(143));
            assert(y@ =~= bytes.skip(143));
            assert(x =~= y);
        },
        (Solution::Regtest(x), Solution::Regtest(y)) => {
            assert(x@ =~= bytes.skip(141));
            assert(y@ =~= bytes.skip(141));
            assert(x =~= y);
        },
        _ => {},
    }
}

proof fn lemma_le_bytes_tell_numbers_apart(a: int, b: int)
    requires
        0 <= a <= u32::MAX,
        0 <= b <= u32::MAX,
        le_bytes(a) == le_bytes(b),
    ensures
        a == b,
{
    assert(le_bytes(a)[0] == le_bytes(b)[0]);
    assert(le_bytes(a)[1] == le_bytes(b)[1]);
    assert(le_bytes(a)[2] == le_bytes(b)[2]);
    assert(le_bytes(a)[3] == le_bytes(b)[3]);
}

/// The number of lookups that a header query can still make, the one under way among them.
pub open spec fn header_lookups_left(query: HeaderQueryView) -> nat {
    match query {
        HeaderQueryView::Header { .. } => 3,
        HeaderQueryView::SaplingTree { .. } => 2,
        HeaderQueryView::Depth { .. } => 1,
    }
}

/// Every reply brings a header query closer to its answer, so it makes three lookups at most.
pub proof fn law_header_query_ends(
    upgrades: Map<u32, NetworkUpgrade>,
    query: HeaderQueryView,
    reply: Reply,
)
    ensures
        header_query_next(upgrades, query, reply) matches HeaderStepView::Call(_, rest)
            ==> header_lookups_left(rest) < header_lookups_left(query),
{
}

/// A header spelled out agrees with the header that was found in its hash, height, version, Merkle
/// root, time, solution, difficulty threshold and neighbours, and with the Sapling tree in its
/// size.
pub proof fn law_header_object_agrees_with_header_and_tree(
    found: FoundHeader,
    sapling_tree: TreeState,
    depth: Option<u32>,
    sapling_activation: Option<u32>,
)
    ensures
        ({
            let object = header_object_view(found, sapling_tree, depth, sapling_activation);
            &&& object.hash == found.hash
            &&& object.height == found.height
            &&& object.version == found.header.version
            &&& object.merkle_root == found.header.merkle_root
            &&& object.time == found.header.time.secs
            &&& object.solution == found.header.solution
            &&& object.bits == found.header.difficulty_threshold
            &&& object.previous_block_hash == found.header.previous_block_hash
            &&& object.next_block_hash == found.next_block_hash
            &&& object.sapling_tree_size == sapling_tree.size
            &&& object.nonce.len() == 32
            &&& object.final_sapling_root.len() == 32
        }),
{
}

/// The nonce and the Sapling root turn each byte of the header's nonce and the tree's root to the
/// opposite place, the root from the activation height on; below it the root is all zeros.
pub proof fn law_nonce_and_root_turn_each_byte(
    found: FoundHeader,
    sapling_tree: TreeState,
    depth: Option<u32>,
    sapling_activation: Option<u32>,
    i: int,
)
    requires
        0 <= i < 32,
    ensures
        ({
            let object = header_object_view(found, sapling_tree, depth, sapling_activation);
            &&& object.nonce[i] == found.header.nonce@[31 - i]
            &&& sapling_activation is Some && found.height >= sapling_activation->0
                ==> object.final_sapling_root[i] == sapling_tree.root@[31 - i]
            &&& sapling_activation is None || found.height < sapling_activation->0
                ==> object.final_sapling_root[i] == 0
        }),
{
}

/// Only what was asked of the tree and the depth tells two objects of one header apart: the tree
/// decides on its size and root, the depth on the confirmations, and neither on anything else.
pub proof fn law_tree_and_depth_decide_on_their_fields_alone(
    found: FoundHeader,
    a_tree: TreeState,
    b_tree: TreeState,
    a_depth: Option<u32>,
    b_depth: Option<u32>,
    sapling_activation: Option<u32>,
)
    ensures
        ({
            let a = header_object_view(found, a_tree, a_depth, sapling_activation);
            let b = header_object_view(found, b_tree, b_depth, sapling_activation);
            &&& a == (HeaderObjectView {
                confirmations: a.confirmations,
                final_sapling_root: a.final_sapling_root,
                sapling_tree_size: a.sapling_tree_size,
                ..b
            })
            &&& a.confirmations == b.confirmations <==> a_depth == b_depth
            &&& a.sapling_tree_size == b.sapling_tree_size <==> a_tree.size == b_tree.size
        }),
{
}

/// A serialized header holds each field at its place: numbers of four bytes with the lowest first,
/// hashes and nonce as they are, and the solution's length in front of it.
pub proof fn law_serialized_header_holds_each_field(header: Header)
    requires
        has_serialized_form(header),
    ensures
        ({
            let bytes = header_bytes(header);
            let number = |at: int|
                bytes[at] + 0x100 * bytes[at + 1] + 0x1_0000 * bytes[at + 2] + 0x100_0000 * bytes[at
                    + 3];
            &&& number(0) == header.version
            &&& bytes.subrange(4, 36) == header.previous_block_hash.0@
            &&& bytes.subrange(36, 68) == header.merkle_root@
            &&& bytes.subrange(68, 100) == header.commitment_bytes@
            &&& number(100) == header.time.secs
            &&& number(104) == compact_difficulty_bits(header.difficulty_threshold)
            &&& bytes.subrange(108, 140) == header.nonce@
            &&& header.solution matches Solution::Common(solution) ==> bytes[140] == 0xfd
                && bytes[141] + 0x100 * bytes[142] == solution@.len() && bytes.skip(143)
                == solution@
            &&& header.solution matches Solution::Regtest(solution) ==> bytes[140]
                == solution@.len() && bytes.skip(141) == solution@
        }),
{
    let bytes = header_bytes(header);
    let bits = compact_difficulty_bits(header.difficulty_threshold);
    law_serialized_header_length(header);
    assert(bytes.subrange(0, 4) =~= le_bytes(header.version as int));
    assert(bytes.subrange(4, 36) =~= header.previous_block_hash.0@);
    assert(bytes.subrange(36, 68) =~= header.merkle_root@);
    assert(bytes.subrange(68, 100) =~= header.commitment_bytes@);
    assert(bytes.subrange(100, 104) =~= le_bytes(header.time.secs as int));
    assert(bytes.subrange(104, 108) =~= le_bytes(bits as int));
    assert(bytes.subrange(108, 140) =~= header.nonce@);
    lemma_le_bytes_read_back(bytes, 0, header.version as int);
    lemma_le_bytes_read_back(bytes, 100, header.time.secs as int);
    lemma_le_bytes_read_back(bytes, 104, bits as int);
    match header.solution {
        Solution::Common(solution) => {
            assert(bytes.skip(143) =~= solution@);
        },
        Solution::Regtest(solution) => {
            assert(bytes.skip(141) =~= solution@);
        },
    }
}

proof fn lemma_le_bytes_read_back(bytes: Seq<u8>, at: int, number: int)
    requires
        0 <= at <= bytes.len() - 4,
        0 <= number <= u32::MAX,
        bytes.subrange(at, at + 4) == le_bytes(number),
    ensures
        bytes[at] + 0x100 * bytes[at + 1] + 0x1_0000 * bytes[at + 2] + 0x100_0000 * bytes[at + 3]
            == number,
{
    let part = bytes.subrange(at, at + 4);
    assert(part[0] == bytes[at]);
    assert(part[1] == bytes[at + 1]);
    assert(part[2] == bytes[at + 2]);
    assert(part[3] == bytes[at + 3]);
}

/// A header has a serialized form exactly where its version is at least 4 with its highest bit
/// clear and its time is a valid number of seconds in 32 bits; no other field decides on it.
pub proof fn law_which_headers_have_a_serialized_form(a: Header, b: Header)
    ensures
        has_serialized_form(a) <==> 4 <= a.version < 0x8000_0000 && 0 <= a.time.secs < 0x1_0000_0000
            && a.time.valid(),
        a.version == b.version && a.time == b.time ==> (has_serialized_form(a)
            <==> has_serialized_form(b)),
{
}

/// A verbose query whose lookups succeed ends with an object made of what they found: the header's
/// fields, the tree's size, the confirmations by the depth, and the Sapling root by the network's
/// upgrades.
pub proof fn law_verbose_header_answer_comes_from_the_lookups(
    upgrades: Map<u32, NetworkUpgrade>,
    text: Seq<char>,
    found: FoundHeader,
    sapling_tree: TreeState,
    depth: Option<u32>,
)
    requires
        block_of_text(text) is Some,
    ensures
        header_query_start(text, Some(true)) matches HeaderStepView::Call(_, first)
            && header_query_next(upgrades, first, Ok(ReadResponse::BlockHeader(found))) matches
            HeaderStepView::Call(_, second) && header_query_next(
            upgrades,
            second,
            Ok(ReadResponse::SaplingTree(Some(sapling_tree))),
        ) matches HeaderStepView::Call(_, third) && header_query_next(
            upgrades,
            third,
            Ok(ReadResponse::Depth(depth)),
        ) matches HeaderStepView::Done(Ok(HeaderAnswerView::Object(object))) && {
            let activation = activation_height_view(upgrades, NetworkUpgrade::Sapling);
            &&& object.hash == found.hash
            &&& object.height == found.height
            &&& object.version == found.header.version
            &&& object.merkle_root == found.header.merkle_root
            &&& object.time == found.header.time.secs
            &&& object.solution == found.header.solution
            &&& object.bits == found.header.difficulty_threshold
            &&& object.previous_block_hash == found.header.previous_block_hash
            &&& object.next_block_hash == found.next_block_hash
            &&& object.sapling_tree_size == sapling_tree.size
            &&& object.nonce.reverse() == found.header.nonce@
            &&& depth is Some ==> object.confirmations == depth->0 + 1
            &&& depth is None ==> object.confirmations == -1
            &&& activation is Some && found.height >= activation->0
                ==> object.final_sapling_root.reverse() == sapling_tree.root@
            &&& activation is None || found.height < activation->0 ==> forall|i: int|
                0 <= i < 32 ==> object.final_sapling_root[i] == 0
        },
{
    law_nonce_and_root_are_reversed(
        found,
        sapling_tree,
        depth,
        activation_height_view(upgrades, NetworkUpgrade::Sapling),
    );
}

/// A reply of another kind than was asked for, and a later lookup that fails, end a header query
/// with an error that says so; a text that names no block ends it at once.
pub proof fn law_header_query_reports_failures(
    upgrades: Map<u32, NetworkUpgrade>,
    text: Seq<char>,
    verbose: Option<bool>,
    block: BlockId,
    is_verbose: bool,
    found: FoundHeader,
    sapling_tree: TreeState,
    response: ReadResponse,
    reason: String,
)
    ensures
        block_of_text(text) is None ==> header_query_start(text, verbose) == HeaderStepView::Done(
            Err(
                ErrorView::SerializationError(
                    "could not convert the input string to a hash or height"@,
                ),
            ),
        ),
        ({
            let its_header = HeaderQueryView::Header { block, verbose: is_verbose };
            let its_tree = HeaderQueryView::SaplingTree { block, found };
            let its_depth = HeaderQueryView::Depth { found, sapling_tree };
            let failed = HeaderStepView::Done(Err(ErrorView::Generic(reason@)));
            &&& response !is BlockHeader ==> header_query_next(upgrades, its_header, Ok(response))
                == HeaderStepView::Done(
                Err(ErrorView::Custom("Unexpected response to BlockHeader request"@)),
            )
            &&& response !is SaplingTree ==> header_query_next(upgrades, its_tree, Ok(response))
                == HeaderStepView::Done(
                Err(ErrorView::Custom("Unexpected response to SaplingTree request"@)),
            )
            &&& response !is Depth ==> header_query_next(upgrades, its_depth, Ok(response))
                == HeaderStepView::Done(
                Err(ErrorView::Custom("Unexpected response to Depth request"@)),
            )
            &&& header_query_next(upgrades, its_tree, Err(reason)) == failed
            &&& header_query_next(upgrades, its_depth, Err(reason)) == failed
        }),
{
}

/// The view of a header spelled out shows each of its fields.
pub proof fn law_header_object_view_shows_each_field(object: BlockHeaderObject)
    ensures
        object@ == (HeaderObjectView {
            hash: object.hash,
            confirmations: object.confirmations,
            height: object.height,
            version: object.version,
            merkle_root: object.merkle_root,
            final_sapling_root: object.final_sapling_root@,
            sapling_tree_size: object.sapling_tree_size,
            time: object.time,
            nonce: object.nonce@,
            solution: object.solution,
            bits: object.bits,
            previous_block_hash: object.previous_block_hash,
            next_block_hash: object.next_block_hash,
        }),
{
}

/// The views of answers, queries and steps show what they hold.
pub proof fn law_header_step_views_show_each_step(
    bytes: Vec<u8>,
    object: BlockHeaderObject,
    request: ReadRequest,
    query: BlockHeaderQuery,
    answer: GetBlockHeader,
    error: StateServiceError,
    block: HashOrHeight,
    verbose: bool,
    found: FoundHeader,
    sapling_tree: TreeState,
)
    ensures
        GetBlockHeader::Raw(bytes)@ == HeaderAnswerView::Raw(bytes@),
        GetBlockHeader::Object(object)@ == HeaderAnswerView::Object(object@),
        BlockHeaderStep::Call(request, query)@ == HeaderStepView::Call(request@, query@),
        BlockHeaderStep::Done(Ok(answer))@ == HeaderStepView::Done(Ok(answer@)),
        BlockHeaderStep::Done(Err(error))@ == HeaderStepView::Done(Err(error@)),
        (BlockHeaderQuery::Header { block, verbose })@ == (HeaderQueryView::Header {
            block: block@,
            verbose,
        }),
        (BlockHeaderQuery::SaplingTree { block, found })@ == (HeaderQueryView::SaplingTree {
            block: block@,
            found,
        }),
        (BlockHeaderQuery::Depth { found, sapling_tree })@ == (HeaderQueryView::Depth {
            found,
            sapling_tree,
        }),
{
}

} // verus!
