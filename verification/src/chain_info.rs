//! The blockchain info query: the tip of the best chain, the height that the network has probably
//! reached, and the network's upgrades.

use vstd::prelude::*;

use indexmap::IndexMap;
use std::hash::RandomState;
use zebra_chain::amount::NonNegative;
use zebra_chain::parameters::Network;
use zebra_chain::value_balance::ValueBalance;

use crate::error::{unexpected_reply, ErrorView, StateServiceError};
use crate::network::{
    activation_height_view, activation_list, activations_from, bip70_network_name, branch_id,
    branch_id_view, can_extrapolate, current_upgrade, current_upgrade_view, estimate_height_at,
    extrapolated_height, full_activation_list, full_activation_list_view, is_main_network,
    next_upgrade, scheduled_at, upgrades_left, NetworkUpgrade, Timestamp,
};
use crate::requests::{ReadRequest, ReadResponse, Reply, RequestView};
use crate::text::{BlockHash, BlockId, HashOrHeight, MAX_HEIGHT};

verus! {

/// The branch id that stands for an upgrade that has none.
pub const RPC_MISSING_ID: u32 = 0;

/// Whether an upgrade has activated.
#[derive(Clone, Copy, Debug, PartialEq, Eq, Structural)]
pub enum NetworkUpgradeStatus {
    Active,
    Pending,
}

/// An upgrade, and whether the tip has reached it.
#[derive(Clone, Copy, Debug, PartialEq, Eq, Structural)]
pub struct NetworkUpgradeInfo {
    pub name: NetworkUpgrade,
    pub activation_height: u32,
    pub status: NetworkUpgradeStatus,
}

/// The branch ids under which the tip was made and the block after it will be.
#[derive(Clone, Copy, Debug, PartialEq, Eq, Structural)]
pub struct TipConsensusBranch {
    pub chain_tip: u32,
    pub next_block: u32,
}

/// `indexmap::IndexMap`, a map that keeps its entries in the order of insertion.
#[verifier::external_type_specification]
#[verifier::external_body]
#[verifier::reject_recursive_types(K)]
#[verifier::reject_recursive_types(V)]
#[verifier::reject_recursive_types(S)]
pub struct ExIndexMap<K, V, S>(IndexMap<K, V, S>);

/// The entries of a map of upgrades by branch id, in order.
pub uninterp spec fn upgrade_entries(
    upgrades: IndexMap<u32, NetworkUpgradeInfo, RandomState>,
) -> Seq<(u32, NetworkUpgradeInfo)>;

/// Entries after an insertion: an entry with the same branch id is replaced where it stands, and
/// any other is added at the end.
pub open spec fn with_entry(
    entries: Seq<(u32, NetworkUpgradeInfo)>,
    id: u32,
    upgrade: NetworkUpgradeInfo,
) -> Seq<(u32, NetworkUpgradeInfo)> {
    if exists|i: int| 0 <= i < entries.len() && (#[trigger] entries[i]).0 == id {
        let i = choose|i: int| 0 <= i < entries.len() && (#[trigger] entries[i]).0 == id;
        entries.update(i, (id, upgrade))
    } else {
        entries.push((id, upgrade))
    }
}

/// Calls `indexmap::IndexMap::new`.
///
/// Claims that the map has no entries.
#[verifier::external_body]
fn new_upgrades() -> (upgrades: IndexMap<u32, NetworkUpgradeInfo>)
    ensures
        upgrade_entries(upgrades) == Seq::<(u32, NetworkUpgradeInfo)>::empty(),
{
    IndexMap::new()
}

/// Calls `indexmap::IndexMap::insert`.
///
/// Claims that an entry with the same key gets the new value and keeps its place, and that a new
/// key goes to the end.
#[verifier::external_body]
fn insert_upgrade(
    upgrades: &mut IndexMap<u32, NetworkUpgradeInfo>,
    id: u32,
    upgrade: NetworkUpgradeInfo,
)
    ensures
        upgrade_entries(*final(upgrades)) == with_entry(
            upgrade_entries(*old(upgrades)),
            id,
            upgrade,
        ),
{
    upgrades.insert(id, upgrade);
}

/// The answer to a blockchain info query.
#[derive(Debug)]
pub struct GetBlockChainInfo {
    /// The name of the network.
    pub chain: String,
    /// The height of the tip.
    pub blocks: u32,
    /// The hash of the tip.
    pub best_block_hash: BlockHash,
    /// The height that the network has probably reached.
    pub estimated_height: u32,
    /// The value held in each pool at the tip.
    pub value_pools: ValueBalance<NonNegative>,
    /// The upgrades by branch id.
    pub upgrades: IndexMap<u32, NetworkUpgradeInfo>,
    /// The branch ids around the tip.
    pub consensus: TipConsensusBranch,
}

/// What a [`GetBlockChainInfo`] says.
pub ghost struct ChainInfoView {
    pub chain: Seq<char>,
    pub blocks: u32,
    pub best_block_hash: BlockHash,
    pub estimated_height: u32,
    pub value_pools: ValueBalance<NonNegative>,
    pub upgrades: Seq<(u32, NetworkUpgradeInfo)>,
    pub consensus: TipConsensusBranch,
}

impl View for GetBlockChainInfo {
    type V = ChainInfoView;

    open spec fn view(&self) -> ChainInfoView {
        ChainInfoView {
            chain: self.chain@,
            blocks: self.blocks,
            best_block_hash: self.best_block_hash,
            estimated_height: self.estimated_height,
            value_pools: self.value_pools,
            upgrades: upgrade_entries(self.upgrades),
            consensus: self.consensus,
        }
    }
}

/// The tip of the best chain.
#[derive(Clone, Copy, Debug)]
pub struct ChainTip {
    pub height: u32,
    pub hash: BlockHash,
    pub value_balance: ValueBalance<NonNegative>,
    pub time: Timestamp,
}

/// What an unfinished blockchain info query waits for.
#[derive(Clone, Copy, Debug)]
pub enum ChainInfoQuery {
    /// The tip and its pool values.
    PoolValues,
    /// The header of the tip.
    TipHeader { height: u32, hash: BlockHash, value_balance: ValueBalance<NonNegative> },
}

/// What a blockchain info query does next.
#[derive(Debug)]
pub enum ChainInfoStep {
    /// Make a lookup, and go on with the reply.
    Call(ReadRequest, ChainInfoQuery),
    /// Read the clock, and answer for that time.
    ReadClock(ChainTip),
    /// Answer with an error.
    Failed(StateServiceError),
}

/// What a [`ChainInfoStep`] does.
pub ghost enum ChainInfoStepView {
    Call(RequestView, ChainInfoQuery),
    ReadClock(ChainTip),
    Failed(ErrorView),
}

impl View for ChainInfoStep {
    type V = ChainInfoStepView;

    open spec fn view(&self) -> ChainInfoStepView {
        match *self {
            ChainInfoStep::Call(request, query) => ChainInfoStepView::Call(request@, query),
            ChainInfoStep::ReadClock(tip) => ChainInfoStepView::ReadClock(tip),
            ChainInfoStep::Failed(error) => ChainInfoStepView::Failed(error@),
        }
    }
}

/// The step of a blockchain info query on a reply.
pub open spec fn chain_info_next(query: ChainInfoQuery, reply: Reply) -> ChainInfoStepView {
    match (query, reply) {
        (_, Err(reason)) => ChainInfoStepView::Failed(ErrorView::Generic(reason@)),
        (
            ChainInfoQuery::PoolValues,
            Ok(ReadResponse::TipPoolValues { tip_height, tip_hash, value_balance }),
        ) => ChainInfoStepView::Call(
            RequestView::BlockHeader(BlockId::Hash(tip_hash@)),
            ChainInfoQuery::TipHeader { height: tip_height, hash: tip_hash, value_balance },
        ),
        (ChainInfoQuery::PoolValues, Ok(_)) => ChainInfoStepView::Failed(
            ErrorView::Custom("Unexpected response type for TipPoolValues"@),
        ),
        (
            ChainInfoQuery::TipHeader { height, hash, value_balance },
            Ok(ReadResponse::BlockHeader(found)),
        ) => ChainInfoStepView::ReadClock(
            ChainTip { height, hash, value_balance, time: found.header.time },
        ),
        (ChainInfoQuery::TipHeader { .. }, Ok(_)) => ChainInfoStepView::Failed(
            ErrorView::Custom("Unexpected response type for BlockHeader"@),
        ),
    }
}

/// The height that the network has probably reached, given the one extrapolated from the tip: the
/// tip's own where the tip is from the future or the extrapolation fell behind it.
pub open spec fn estimated_height_view(
    tip_height: u32,
    tip_time: Timestamp,
    now: Timestamp,
    extrapolated: u32,
) -> u32 {
    if tip_time.after(now) || extrapolated < tip_height {
        tip_height
    } else {
        extrapolated
    }
}

/// An upgrade that activates at a height, as seen from the tip.
pub open spec fn upgrade_info_view(
    activation: (u32, NetworkUpgrade),
    tip_height: u32,
) -> NetworkUpgradeInfo {
    NetworkUpgradeInfo {
        name: activation.1,
        activation_height: activation.0,
        status: if tip_height >= activation.0 {
            NetworkUpgradeStatus::Active
        } else {
            NetworkUpgradeStatus::Pending
        },
    }
}

/// The upgrades in a list that have a branch id, each under its id, in the order of the list.
pub open spec fn upgrades_by_branch_id(
    activations: Seq<(u32, NetworkUpgrade)>,
    tip_height: u32,
) -> Seq<(u32, NetworkUpgradeInfo)>
    decreases activations.len(),
{
    if activations.len() == 0 {
        Seq::empty()
    } else {
        let rest = upgrades_by_branch_id(activations.drop_last(), tip_height);
        match branch_id_view(activations.last().1) {
            Some(id) => rest.push((id, upgrade_info_view(activations.last(), tip_height))),
            None => rest,
        }
    }
}

/// The entries left after the upgrades in a list are inserted one by one: an upgrade that the list
/// names twice has its last height, at its first place.
pub open spec fn inserted_upgrades(
    activations: Seq<(u32, NetworkUpgrade)>,
    tip_height: u32,
) -> Seq<(u32, NetworkUpgradeInfo)>
    decreases activations.len(),
{
    if activations.len() == 0 {
        Seq::empty()
    } else {
        let rest = inserted_upgrades(activations.drop_last(), tip_height);
        match branch_id_view(activations.last().1) {
            Some(id) => with_entry(rest, id, upgrade_info_view(activations.last(), tip_height)),
            None => rest,
        }
    }
}

/// The branch id of an upgrade, or the one that stands for none.
pub open spec fn rpc_branch_id_view(upgrade: NetworkUpgrade) -> u32 {
    match branch_id_view(upgrade) {
        Some(id) => id,
        None => RPC_MISSING_ID,
    }
}

/// The branch ids of the tip and of the block after it.
pub open spec fn tip_consensus_view(
    upgrades: Map<u32, NetworkUpgrade>,
    tip_height: u32,
) -> TipConsensusBranch {
    TipConsensusBranch {
        chain_tip: rpc_branch_id_view(current_upgrade_view(upgrades, tip_height)),
        next_block: rpc_branch_id_view(current_upgrade_view(upgrades, (tip_height + 1) as u32)),
    }
}

/// The answer to a blockchain info query at a time.
pub open spec fn chain_info_view(network: Network, tip: ChainTip, now: Timestamp) -> ChainInfoView {
    let upgrades = activation_list(network);
    ChainInfoView {
        chain: if is_main_network(network) {
            "main"@
        } else {
            "test"@
        },
        blocks: tip.height,
        best_block_hash: tip.hash,
        estimated_height: estimated_height_view(
            tip.height,
            tip.time,
            now,
            extrapolated_height(
                upgrades,
                tip.time.secs,
                tip.time.nanos,
                tip.height,
                now.secs,
                now.nanos,
            ),
        ),
        value_pools: tip.value_balance,
        upgrades: upgrades_by_branch_id(full_activation_list_view(upgrades), tip.height),
        consensus: tip_consensus_view(upgrades, tip.height),
    }
}

/// Starts a blockchain info query.
pub fn start_chain_info() -> (step: ChainInfoStep)
    ensures
        step@ == ChainInfoStepView::Call(RequestView::TipPoolValues, ChainInfoQuery::PoolValues),
{
    ChainInfoStep::Call(ReadRequest::TipPoolValues, ChainInfoQuery::PoolValues)
}

/// Goes on with a blockchain info query.
pub fn resume_chain_info(query: ChainInfoQuery, reply: Reply) -> (step: ChainInfoStep)
    ensures
        step@ == chain_info_next(query, reply),
{
    match (query, reply) {
        (_, Err(reason)) => ChainInfoStep::Failed(StateServiceError::Generic(reason)),
        (
            ChainInfoQuery::PoolValues,
            Ok(ReadResponse::TipPoolValues { tip_height, tip_hash, value_balance }),
        ) => ChainInfoStep::Call(
            ReadRequest::BlockHeader(HashOrHeight::Hash(tip_hash)),
            ChainInfoQuery::TipHeader { height: tip_height, hash: tip_hash, value_balance },
        ),
        (ChainInfoQuery::PoolValues, Ok(_)) => ChainInfoStep::Failed(
            unexpected_reply("Unexpected response type for TipPoolValues"),
        ),
        (
            ChainInfoQuery::TipHeader { height, hash, value_balance },
            Ok(ReadResponse::BlockHeader(found)),
        ) => ChainInfoStep::ReadClock(
            ChainTip { height, hash, value_balance, time: found.header.time },
        ),
        (ChainInfoQuery::TipHeader { .. }, Ok(_)) => ChainInfoStep::Failed(
            unexpected_reply("Unexpected response type for BlockHeader"),
        ),
    }
}

/// Settles the height that the network has probably reached, given the one extrapolated from the
/// tip.
pub fn estimated_height(
    tip_height: u32,
    tip_time: &Timestamp,
    now: &Timestamp,
    extrapolated: u32,
) -> (height: u32)
    ensures
        height == estimated_height_view(tip_height, *tip_time, *now, extrapolated),
        height >= tip_height,
        height == tip_height || height == extrapolated,
{
    if tip_time.is_after(now) || extrapolated < tip_height {
        tip_height
    } else {
        extrapolated
    }
}

/// Maps the upgrades in a list by branch id, leaving out those that have none.
pub fn network_upgrades(activations: &Vec<(u32, NetworkUpgrade)>, tip_height: u32) -> (upgrades:
    IndexMap<u32, NetworkUpgradeInfo>)
    ensures
        upgrade_entries(upgrades) == inserted_upgrades(activations@, tip_height),
{
    let mut upgrades: IndexMap<u32, NetworkUpgradeInfo> = new_upgrades();
    let mut i: usize = 0;
    assert(activations@.take(0) =~= Seq::empty());
    while i < activations.len()
        invariant
            i <= activations.len(),
            upgrade_entries(upgrades) == inserted_upgrades(
                activations@.take(i as int),
                tip_height,
            ),
        decreases activations.len() - i,
    {
        let (activation_height, name) = activations[i];
        assert(activations@.take(i + 1).drop_last() =~= activations@.take(i as int));
        match branch_id(name) {
            Some(id) => {
                let status = if tip_height >= activation_height {
                    NetworkUpgradeStatus::Active
                } else {
                    NetworkUpgradeStatus::Pending
                };
                insert_upgrade(
                    &mut upgrades,
                    id,
                    NetworkUpgradeInfo { name, activation_height, status },
                );
            },
            None => {},
        }
        i = i + 1;
    }
    assert(activations@.take(i as int) =~= activations@);
    upgrades
}

/// Returns the branch id of an upgrade, or the one that stands for none.
fn rpc_branch_id(upgrade: NetworkUpgrade) -> (id: u32)
    ensures
        id == rpc_branch_id_view(upgrade),
{
    match branch_id(upgrade) {
        Some(id) => id,
        None => RPC_MISSING_ID,
    }
}

/// Answers a blockchain info query for the time `now`.
pub fn chain_info_at(network: &Network, tip: &ChainTip, now: &Timestamp) -> (info:
    GetBlockChainInfo)
    requires
        tip.height < MAX_HEIGHT,
        can_extrapolate(tip.time, tip.height, *now),
    ensures
        info@ == chain_info_view(*network, *tip, *now),
        in_height_order(info@.upgrades),
        info.blocks == tip.height,
        info.best_block_hash == tip.hash,
        info.value_pools == tip.value_balance,
        info.estimated_height >= tip.height,
{
    let chain = bip70_network_name(network);
    let extrapolated = estimate_height_at(network, &tip.time, tip.height, now);
    let activations = full_activation_list(network);
    proof {
        lemma_activations_name_no_upgrade_twice(
            activation_list(*network),
            NetworkUpgrade::Genesis,
        );
        lemma_inserted_upgrades_of_distinct(activations@, tip.height);
        lemma_upgrades_keep_height_order(activations@, tip.height);
    }
    let consensus = TipConsensusBranch {
        chain_tip: rpc_branch_id(current_upgrade(network, tip.height)),
        next_block: rpc_branch_id(current_upgrade(network, tip.height + 1)),
    };
    GetBlockChainInfo {
        chain,
        blocks: tip.height,
        best_block_hash: tip.hash,
        estimated_height: estimated_height(tip.height, &tip.time, now, extrapolated),
        value_pools: tip.value_balance,
        upgrades: network_upgrades(&activations, tip.height),
        consensus,
    }
}

/// Whether a list names each upgrade after those that precede it.
pub open spec fn in_upgrade_order(activations: Seq<(u32, NetworkUpgrade)>) -> bool {
    forall|i: int, j: int|
        0 <= i < j < activations.len() ==> upgrades_left((#[trigger] activations[i]).1)
            > upgrades_left((#[trigger] activations[j]).1)
}

proof fn lemma_activations_name_no_upgrade_twice(
    upgrades: Map<u32, NetworkUpgrade>,
    upgrade: NetworkUpgrade,
)
    ensures
        in_upgrade_order(activations_from(upgrades, upgrade)),
        forall|i: int|
            0 <= i < activations_from(upgrades, upgrade).len() ==> upgrades_left(
                (#[trigger] activations_from(upgrades, upgrade)[i]).1,
            ) <= upgrades_left(upgrade),
    decreases upgrades_left(upgrade),
{
    match next_upgrade(upgrade) {
        Some(next) => lemma_activations_name_no_upgrade_twice(upgrades, next),
        None => {},
    }
}

proof fn lemma_branch_ids_tell_upgrades_apart(a: NetworkUpgrade, b: NetworkUpgrade)
    requires
        branch_id_view(a) is Some,
        branch_id_view(a) == branch_id_view(b),
    ensures
        a == b,
{
}

proof fn lemma_upgrade_entries_come_from_list(
    activations: Seq<(u32, NetworkUpgrade)>,
    tip_height: u32,
    i: int,
) -> (j: int)
    requires
        0 <= i < upgrades_by_branch_id(activations, tip_height).len(),
    ensures
        0 <= j < activations.len(),
        branch_id_view(activations[j].1) == Some(
            upgrades_by_branch_id(activations, tip_height)[i].0,
        ),
        upgrades_by_branch_id(activations, tip_height)[i].1 == upgrade_info_view(
            activations[j],
            tip_height,
        ),
    decreases activations.len(),
{
    let rest = upgrades_by_branch_id(activations.drop_last(), tip_height);
    if i < rest.len() {
        lemma_upgrade_entries_come_from_list(activations.drop_last(), tip_height, i)
    } else {
        activations.len() - 1
    }
}

proof fn lemma_inserted_upgrades_of_distinct(
    activations: Seq<(u32, NetworkUpgrade)>,
    tip_height: u32,
)
    requires
        in_upgrade_order(activations),
    ensures
        inserted_upgrades(activations, tip_height) == upgrades_by_branch_id(
            activations,
            tip_height,
        ),
    decreases activations.len(),
{
    if activations.len() > 0 {
        let shorter = activations.drop_last();
        lemma_inserted_upgrades_of_distinct(shorter, tip_height);
        let rest = upgrades_by_branch_id(shorter, tip_height);
        let last = activations.last();
        if let Some(id) = branch_id_view(last.1) {
            assert forall|i: int| 0 <= i < rest.len() implies (#[trigger] rest[i]).0 != id by {
                let j = lemma_upgrade_entries_come_from_list(shorter, tip_height, i);
                if rest[i].0 == id {
                    lemma_branch_ids_tell_upgrades_apart(shorter[j].1, last.1);
                    assert(activations[j].1 == activations[activations.len() - 1].1);
                }
            }
        }
    }
}

/// Whether the heights in a list never decrease.
pub open spec fn heights_ascend(activations: Seq<(u32, NetworkUpgrade)>) -> bool {
    forall|i: int, j: int|
        0 <= i <= j < activations.len() ==> (#[trigger] activations[i]).0 <= (
        #[trigger] activations[j]).0
}

/// Whether upgrades stand in the order of their activation heights.
pub open spec fn in_height_order(entries: Seq<(u32, NetworkUpgradeInfo)>) -> bool {
    forall|i: int, j: int|
        0 <= i <= j < entries.len() ==> (#[trigger] entries[i]).1.activation_height <= (
        #[trigger] entries[j]).1.activation_height
}

proof fn lemma_upgrades_keep_height_order(
    activations: Seq<(u32, NetworkUpgrade)>,
    tip_height: u32,
)
    requires
        heights_ascend(activations),
    ensures
        in_height_order(upgrades_by_branch_id(activations, tip_height)),
    decreases activations.len(),
{
    if activations.len() > 0 {
        let shorter = activations.drop_last();
        lemma_upgrades_keep_height_order(shorter, tip_height);
        let rest = upgrades_by_branch_id(shorter, tip_height);
        assert forall|i: int| 0 <= i < rest.len() implies (
        #[trigger] rest[i]).1.activation_height <= activations.last().0 by {
            let j = lemma_upgrade_entries_come_from_list(shorter, tip_height, i);
            assert(activations[j].0 <= activations[activations.len() - 1].0);
        }
    }
}

proof fn lemma_current_upgrade_is_scheduled(
    upgrades: Map<u32, NetworkUpgrade>,
    height: u32,
) -> (at: u32)
    requires
        current_upgrade_view(upgrades, height) != NetworkUpgrade::Genesis,
    ensures
        at <= height,
        upgrades.contains_key(at),
        upgrades[at] == current_upgrade_view(upgrades, height),
    decreases height,
{
    if upgrades.contains_key(height) {
        height
    } else {
        lemma_current_upgrade_is_scheduled(upgrades, (height - 1) as u32)
    }
}

proof fn lemma_lowest_height_of_upgrade(
    upgrades: Map<u32, NetworkUpgrade>,
    upgrade: NetworkUpgrade,
    height: u32,
)
    requires
        upgrades.contains_key(height),
        upgrades[height] == upgrade,
    ensures
        activation_height_view(upgrades, upgrade) is Some,
        activation_height_view(upgrades, upgrade)->0 <= height,
    decreases height,
{
    if scheduled_at(upgrades, upgrade, height) {
        let lowest = choose|lowest: u32| scheduled_at(upgrades, upgrade, lowest);
        assert(scheduled_at(upgrades, upgrade, lowest));
        if lowest > height {
            assert(upgrades.contains_key(height));
        }
    } else {
        let lower = choose|lower: u32|
            lower < height && #[trigger] upgrades.contains_key(lower) && upgrades[lower] == upgrade;
        lemma_lowest_height_of_upgrade(upgrades, upgrade, lower);
    }
}

proof fn lemma_activations_name_upgrade(
    upgrades: Map<u32, NetworkUpgrade>,
    first: NetworkUpgrade,
    upgrade: NetworkUpgrade,
)
    requires
        upgrades_left(upgrade) <= upgrades_left(first),
        activation_height_view(upgrades, upgrade) is Some,
    ensures
        activations_from(upgrades, first).contains(
            (activation_height_view(upgrades, upgrade)->0, upgrade),
        ),
    decreases upgrades_left(first),
{
    let entry = (activation_height_view(upgrades, upgrade)->0, upgrade);
    let list = activations_from(upgrades, first);
    if first == upgrade {
        assert(list[0] == entry);
    } else {
        let next = next_upgrade(first)->0;
        lemma_activations_name_upgrade(upgrades, next, upgrade);
        let rest = activations_from(upgrades, next);
        let i = choose|i: int| 0 <= i < rest.len() && rest[i] == entry;
        if activation_height_view(upgrades, first) is Some {
            assert(list[i + 1] == entry);
        } else {
            assert(list[i] == entry);
        }
    }
}

proof fn lemma_listed_upgrade_has_entry(
    activations: Seq<(u32, NetworkUpgrade)>,
    tip_height: u32,
    j: int,
) -> (i: int)
    requires
        0 <= j < activations.len(),
        branch_id_view(activations[j].1) is Some,
    ensures
        0 <= i < upgrades_by_branch_id(activations, tip_height).len(),
        upgrades_by_branch_id(activations, tip_height)[i] == (
            branch_id_view(activations[j].1)->0,
            upgrade_info_view(activations[j], tip_height),
        ),
    decreases activations.len(),
{
    if j == activations.len() - 1 {
        upgrades_by_branch_id(activations, tip_height).len() - 1
    } else {
        lemma_listed_upgrade_has_entry(activations.drop_last(), tip_height, j)
    }
}

/// The estimated height is never below the tip.
pub proof fn law_estimate_is_not_below_tip(network: Network, tip: ChainTip, now: Timestamp)
    ensures
        chain_info_view(network, tip, now).estimated_height >= chain_info_view(
            network,
            tip,
            now,
        ).blocks,
{
}

/// A tip that the clock has yet to reach is its own estimate.
pub proof fn law_tip_from_the_future_is_its_own_estimate(
    network: Network,
    tip: ChainTip,
    now: Timestamp,
)
    requires
        tip.time.after(now),
    ensures
        chain_info_view(network, tip, now).estimated_height == tip.height,
{
}

/// The listed upgrades are those that have both a branch id and an activation height. Each stands
/// under its own id, at its own height, and is active exactly where the tip has reached that
/// height.
pub proof fn law_upgrades_are_those_with_branch_id_and_height(
    network: Network,
    tip: ChainTip,
    now: Timestamp,
    id: u32,
    upgrade: NetworkUpgradeInfo,
)
    ensures
        chain_info_view(network, tip, now).upgrades.contains((id, upgrade)) <==> {
            &&& branch_id_view(upgrade.name) == Some(id)
            &&& activation_height_view(activation_list(network), upgrade.name) == Some(
                upgrade.activation_height,
            )
            &&& upgrade.status == (if tip.height >= upgrade.activation_height {
                NetworkUpgradeStatus::Active
            } else {
                NetworkUpgradeStatus::Pending
            })
        },
{
    let upgrades = activation_list(network);
    let activations = full_activation_list_view(upgrades);
    let entries = upgrades_by_branch_id(activations, tip.height);
    if entries.contains((id, upgrade)) {
        let i = choose|i: int| 0 <= i < entries.len() && entries[i] == (id, upgrade);
        let j = lemma_upgrade_entries_come_from_list(activations, tip.height, i);
        lemma_activations_have_activation_heights(upgrades, NetworkUpgrade::Genesis, j);
    }
    if branch_id_view(upgrade.name) == Some(id) && activation_height_view(upgrades, upgrade.name)
        == Some(upgrade.activation_height) && upgrade == upgrade_info_view(
        (upgrade.activation_height, upgrade.name),
        tip.height,
    ) {
        lemma_activations_name_upgrade(upgrades, NetworkUpgrade::Genesis, upgrade.name);
        let entry = (upgrade.activation_height, upgrade.name);
        let j = choose|j: int| 0 <= j < activations.len() && activations[j] == entry;
        let i = lemma_listed_upgrade_has_entry(activations, tip.height, j);
        assert(entries[i] == (id, upgrade));
    }
}

proof fn lemma_activations_have_activation_heights(
    upgrades: Map<u32, NetworkUpgrade>,
    first: NetworkUpgrade,
    j: int,
)
    requires
        0 <= j < activations_from(upgrades, first).len(),
    ensures
        activation_height_view(upgrades, activations_from(upgrades, first)[j].1) == Some(
            activations_from(upgrades, first)[j].0,
        ),
    decreases upgrades_left(first),
{
    let offset: int = if activation_height_view(upgrades, first) is Some {
        1
    } else {
        0
    };
    if j >= offset {
        let next = next_upgrade(first)->0;
        lemma_activations_have_activation_heights(upgrades, next, j - offset);
    }
}

/// No branch id is listed twice.
pub proof fn law_branch_ids_are_listed_once(
    network: Network,
    tip: ChainTip,
    now: Timestamp,
    i: int,
    j: int,
)
    requires
        0 <= i < j < chain_info_view(network, tip, now).upgrades.len(),
    ensures
        chain_info_view(network, tip, now).upgrades[i].0 != chain_info_view(
            network,
            tip,
            now,
        ).upgrades[j].0,
{
    let activations = full_activation_list_view(activation_list(network));
    lemma_activations_name_no_upgrade_twice(activation_list(network), NetworkUpgrade::Genesis);
    lemma_entries_of_distinct_differ(activations, tip.height, i, j);
}

proof fn lemma_entries_of_distinct_differ(
    activations: Seq<(u32, NetworkUpgrade)>,
    tip_height: u32,
    i: int,
    j: int,
)
    requires
        in_upgrade_order(activations),
        0 <= i < j < upgrades_by_branch_id(activations, tip_height).len(),
    ensures
        upgrades_by_branch_id(activations, tip_height)[i].0 != upgrades_by_branch_id(
            activations,
            tip_height,
        )[j].0,
    decreases activations.len(),
{
    let shorter = activations.drop_last();
    let rest = upgrades_by_branch_id(shorter, tip_height);
    if j < rest.len() {
        lemma_entries_of_distinct_differ(shorter, tip_height, i, j);
    } else {
        let k = lemma_upgrade_entries_come_from_list(shorter, tip_height, i);
        if rest[i].0 == branch_id_view(activations.last().1)->0 {
            lemma_branch_ids_tell_upgrades_apart(shorter[k].1, activations.last().1);
            assert(activations[k].1 == activations[activations.len() - 1].1);
        }
    }
}

/// The branch id of the tip, where it has one, is that of a listed upgrade that is active.
pub proof fn law_tip_branch_is_active(network: Network, tip: ChainTip, now: Timestamp)
    requires
        chain_info_view(network, tip, now).consensus.chain_tip != RPC_MISSING_ID,
    ensures
        exists|upgrade: NetworkUpgradeInfo|
            {
                &&& #[trigger] chain_info_view(network, tip, now).upgrades.contains(
                    (chain_info_view(network, tip, now).consensus.chain_tip, upgrade),
                )
                &&& upgrade.status == NetworkUpgradeStatus::Active
            },
{
    let upgrades = activation_list(network);
    let name = current_upgrade_view(upgrades, tip.height);
    let at = lemma_current_upgrade_is_scheduled(upgrades, tip.height);
    lemma_lowest_height_of_upgrade(upgrades, name, at);
    let upgrade = upgrade_info_view((activation_height_view(upgrades, name)->0, name), tip.height);
    let id = branch_id_view(name)->0;
    law_upgrades_are_those_with_branch_id_and_height(network, tip, now, id, upgrade);
    assert(chain_info_view(network, tip, now).upgrades.contains((id, upgrade)));
}

/// The next block's branch id, where it has one, is that of a listed upgrade that activates no
/// later than the next block.
pub proof fn law_next_block_branch_is_listed(network: Network, tip: ChainTip, now: Timestamp)
    requires
        tip.height < MAX_HEIGHT,
        chain_info_view(network, tip, now).consensus.next_block != RPC_MISSING_ID,
    ensures
        exists|upgrade: NetworkUpgradeInfo|
            {
                &&& #[trigger] chain_info_view(network, tip, now).upgrades.contains(
                    (chain_info_view(network, tip, now).consensus.next_block, upgrade),
                )
                &&& upgrade.activation_height <= tip.height + 1
            },
{
    let upgrades = activation_list(network);
    let next_height = (tip.height + 1) as u32;
    let name = current_upgrade_view(upgrades, next_height);
    let at = lemma_current_upgrade_is_scheduled(upgrades, next_height);
    lemma_lowest_height_of_upgrade(upgrades, name, at);
    let upgrade = upgrade_info_view((activation_height_view(upgrades, name)->0, name), tip.height);
    let id = branch_id_view(name)->0;
    law_upgrades_are_those_with_branch_id_and_height(network, tip, now, id, upgrade);
    assert(chain_info_view(network, tip, now).upgrades.contains((id, upgrade)));
}

/// A query whose lookups all succeed asks for the tip and then for the tip's header by its hash,
/// and ends with that tip at the time in that header.
pub proof fn law_chain_info_follows_the_tip(tip_pool_values: Reply, tip_header: Reply)
    requires
        tip_pool_values matches Ok(response) && response is TipPoolValues,
        tip_header matches Ok(response) && response is BlockHeader,
    ensures
        ({
            let tip = tip_pool_values->Ok_0;
            let query = ChainInfoQuery::TipHeader {
                height: tip->tip_height,
                hash: tip->tip_hash,
                value_balance: tip->value_balance,
            };
            &&& chain_info_next(ChainInfoQuery::PoolValues, tip_pool_values)
                == ChainInfoStepView::Call(
                RequestView::BlockHeader(BlockId::Hash(tip->tip_hash@)),
                query,
            )
            &&& chain_info_next(query, tip_header) == ChainInfoStepView::ReadClock(
                ChainTip {
                    height: tip->tip_height,
                    hash: tip->tip_hash,
                    value_balance: tip->value_balance,
                    time: tip_header->Ok_0->BlockHeader_0.header.time,
                },
            )
        }),
{
}

/// The answer reports the tip that the lookups found, whatever the clock says: its height, its hash
/// and its pools. The network is called by its name.
pub proof fn law_chain_info_reports_the_tip(network: Network, tip: ChainTip, now: Timestamp)
    ensures
        ({
            let info = chain_info_view(network, tip, now);
            &&& info.blocks == tip.height
            &&& info.best_block_hash == tip.hash
            &&& info.value_pools == tip.value_balance
            &&& is_main_network(network) ==> info.chain == "main"@
            &&& !is_main_network(network) ==> info.chain == "test"@
        }),
{
}

/// The clock and the tip's time decide on the estimated height alone.
pub proof fn law_clock_decides_on_the_estimate_alone(
    network: Network,
    tip: ChainTip,
    other: ChainTip,
    now: Timestamp,
    later: Timestamp,
)
    requires
        other == (ChainTip { time: other.time, ..tip }),
    ensures
        ({
            let a = chain_info_view(network, tip, now);
            let b = chain_info_view(network, other, later);
            a == (ChainInfoView { estimated_height: a.estimated_height, ..b })
        }),
{
}

/// The tip's hash and pools decide on nothing but the hash and the pools of the answer.
pub proof fn law_hash_and_pools_decide_on_their_fields_alone(
    network: Network,
    tip: ChainTip,
    other: ChainTip,
    now: Timestamp,
)
    requires
        other.height == tip.height,
        other.time == tip.time,
    ensures
        ({
            let a = chain_info_view(network, tip, now);
            let b = chain_info_view(network, other, now);
            a == (ChainInfoView {
                best_block_hash: tip.hash,
                value_pools: tip.value_balance,
                ..b
            })
        }),
{
}

/// Where the tip is not from the future, the estimate is the greater of the tip's height and the
/// height extrapolated from it.
pub proof fn law_estimate_is_the_greater_height(network: Network, tip: ChainTip, now: Timestamp)
    requires
        !tip.time.after(now),
    ensures
        ({
            let estimate = chain_info_view(network, tip, now).estimated_height;
            let extrapolated = extrapolated_height(
                activation_list(network),
                tip.time.secs,
                tip.time.nanos,
                tip.height,
                now.secs,
                now.nanos,
            );
            &&& estimate >= tip.height
            &&& estimate >= extrapolated
            &&& estimate == tip.height || estimate == extrapolated
        }),
{
}

/// The same holds of a settled estimate, whatever height was extrapolated.
pub proof fn law_settled_estimate(
    tip_height: u32,
    tip_time: Timestamp,
    now: Timestamp,
    extrapolated: u32,
)
    ensures
        ({
            let estimate = estimated_height_view(tip_height, tip_time, now, extrapolated);
            &&& tip_time.after(now) ==> estimate == tip_height
            &&& !tip_time.after(now) ==> estimate >= tip_height && estimate >= extrapolated
            &&& estimate == tip_height || estimate == extrapolated
        }),
{
}

/// The tip's branch id is that of the upgrade in force at its height, or zero where that upgrade
/// has none; and the next block's is the one that a tip at the next height has.
pub proof fn law_branch_ids_follow_the_upgrades_in_force(
    network: Network,
    tip: ChainTip,
    next: ChainTip,
    now: Timestamp,
)
    requires
        next.height == tip.height + 1,
    ensures
        ({
            let info = chain_info_view(network, tip, now);
            let in_force = current_upgrade_view(activation_list(network), tip.height);
            &&& branch_id_view(in_force) is Some ==> info.consensus.chain_tip == branch_id_view(
                in_force,
            )->0
            &&& branch_id_view(in_force) is None ==> info.consensus.chain_tip == 0
            &&& info.consensus.next_block == chain_info_view(network, next, now).consensus.chain_tip
        }),
{
}

/// The listed upgrades stand in the order of the upgrades, each before those that follow it.
pub proof fn law_upgrades_stand_in_their_order(
    network: Network,
    tip: ChainTip,
    now: Timestamp,
    i: int,
    j: int,
)
    requires
        0 <= i < j < chain_info_view(network, tip, now).upgrades.len(),
    ensures
        upgrades_left(chain_info_view(network, tip, now).upgrades[i].1.name) > upgrades_left(
            chain_info_view(network, tip, now).upgrades[j].1.name,
        ),
{
    let activations = full_activation_list_view(activation_list(network));
    lemma_activations_name_no_upgrade_twice(activation_list(network), NetworkUpgrade::Genesis);
    lemma_entries_stand_in_upgrade_order(activations, tip.height, i, j);
}

proof fn lemma_entries_stand_in_upgrade_order(
    activations: Seq<(u32, NetworkUpgrade)>,
    tip_height: u32,
    i: int,
    j: int,
)
    requires
        in_upgrade_order(activations),
        0 <= i < j < upgrades_by_branch_id(activations, tip_height).len(),
    ensures
        upgrades_left(upgrades_by_branch_id(activations, tip_height)[i].1.name) > upgrades_left(
            upgrades_by_branch_id(activations, tip_height)[j].1.name,
        ),
    decreases activations.len(),
{
    let shorter = activations.drop_last();
    let rest = upgrades_by_branch_id(shorter, tip_height);
    if j < rest.len() {
        lemma_entries_stand_in_upgrade_order(shorter, tip_height, i, j);
    } else {
        let k = lemma_upgrade_entries_come_from_list(shorter, tip_height, i);
        assert(upgrades_left(activations[k].1) > upgrades_left(
            activations[activations.len() - 1].1,
        ));
    }
}

/// Mapping one more upgrade leaves the map as it is where the upgrade has no branch id; replaces
/// the entry of its id where it stands, if there is one; and adds an entry at the end otherwise. An
/// upgrade is active exactly where the tip has reached its height.
pub proof fn law_one_more_upgrade_is_mapped_by_its_id(
    activations: Seq<(u32, NetworkUpgrade)>,
    height: u32,
    name: NetworkUpgrade,
    tip_height: u32,
    i: int,
)
    ensures
        ({
            let before = inserted_upgrades(activations, tip_height);
            let after = inserted_upgrades(activations.push((height, name)), tip_height);
            let entry = NetworkUpgradeInfo {
                name,
                activation_height: height,
                status: if tip_height >= height {
                    NetworkUpgradeStatus::Active
                } else {
                    NetworkUpgradeStatus::Pending
                },
            };
            let known = exists|k: int|
                0 <= k < before.len() && Some((#[trigger] before[k]).0) == branch_id_view(name);
            &&& branch_id_view(name) is None ==> after == before
            &&& branch_id_view(name) is Some && !known ==> after == before.push(
                (branch_id_view(name)->0, entry),
            )
            &&& branch_id_view(name) is Some && known ==> after.len() == before.len()
            &&& branch_id_view(name) is Some && known && 0 <= i < before.len() ==> after[i] == (
            if before[i].0 == branch_id_view(name)->0 {
                (before[i].0, entry)
            } else {
                before[i]
            })
        }),
        inserted_upgrades(Seq::empty(), tip_height).len() == 0,
{
    let longer = activations.push((height, name));
    assert(longer.drop_last() =~= activations);
    let before = inserted_upgrades(activations, tip_height);
    lemma_inserted_ids_differ(activations, tip_height);
    if let Some(id) = branch_id_view(name) {
        if exists|k: int| 0 <= k < before.len() && (#[trigger] before[k]).0 == id {
            let k = choose|k: int| 0 <= k < before.len() && (#[trigger] before[k]).0 == id;
            assert(Some(before[k].0) == branch_id_view(name));
            if 0 <= i < before.len() && i != k {
                assert(before[i].0 != before[k].0);
            }
        }
    }
}

proof fn lemma_inserted_ids_differ(activations: Seq<(u32, NetworkUpgrade)>, tip_height: u32)
    ensures
        forall|i: int, j: int|
            0 <= i < j < inserted_upgrades(activations, tip_height).len() ==> (
            #[trigger] inserted_upgrades(activations, tip_height)[i]).0 != (
            #[trigger] inserted_upgrades(activations, tip_height)[j]).0,
    decreases activations.len(),
{
    if activations.len() > 0 {
        lemma_inserted_ids_differ(activations.drop_last(), tip_height);
        let before = inserted_upgrades(activations.drop_last(), tip_height);
        let after = inserted_upgrades(activations, tip_height);
        assert forall|i: int, j: int| 0 <= i < j < after.len() implies (#[trigger] after[i]).0 != (
        #[trigger] after[j]).0 by {
            if let Some(id) = branch_id_view(activations.last().1) {
                if exists|k: int| 0 <= k < before.len() && (#[trigger] before[k]).0 == id {
                    let k = choose|k: int| 0 <= k < before.len() && (#[trigger] before[k]).0 == id;
                    assert(after[i].0 == before[i].0);
                    assert(after[j].0 == before[j].0);
                } else {
                    assert(after[i] == before[i]);
                }
            }
            assert(i < before.len() && j < before.len() ==> before[i].0 != before[j].0);
        }
    }
}

/// No branch id is mapped twice, whatever the list.
pub proof fn law_mapped_branch_ids_differ(
    activations: Seq<(u32, NetworkUpgrade)>,
    tip_height: u32,
    i: int,
    j: int,
)
    requires
        0 <= i < j < inserted_upgrades(activations, tip_height).len(),
    ensures
        inserted_upgrades(activations, tip_height)[i].0 != inserted_upgrades(
            activations,
            tip_height,
        )[j].0,
{
    lemma_inserted_ids_differ(activations, tip_height);
}

/// A lookup that fails passes its reason on, and a reply of another kind than was asked for is an
/// error that names the lookup.
pub proof fn law_chain_info_query_reports_failures(
    query: ChainInfoQuery,
    response: ReadResponse,
    reason: String,
)
    ensures
        chain_info_next(query, Err(reason)) == ChainInfoStepView::Failed(
            ErrorView::Generic(reason@),
        ),
        query is PoolValues && response !is TipPoolValues ==> chain_info_next(query, Ok(response))
            == ChainInfoStepView::Failed(
            ErrorView::Custom("Unexpected response type for TipPoolValues"@),
        ),
        query is TipHeader && response !is BlockHeader ==> chain_info_next(query, Ok(response))
            == ChainInfoStepView::Failed(
            ErrorView::Custom("Unexpected response type for BlockHeader"@),
        ),
{
}

/// The view of an answer shows each of its fields, and that of a step what the step is.
pub proof fn law_chain_info_views_show_each_field(
    info: GetBlockChainInfo,
    request: ReadRequest,
    query: ChainInfoQuery,
    tip: ChainTip,
    error: StateServiceError,
)
    ensures
        info@.chain == info.chain@,
        info@.blocks == info.blocks,
        info@.best_block_hash == info.best_block_hash,
        info@.estimated_height == info.estimated_height,
        info@.value_pools == info.value_pools,
        info@.upgrades == upgrade_entries(info.upgrades),
        info@.consensus == info.consensus,
        ChainInfoStep::Call(request, query)@ == ChainInfoStepView::Call(request@, query),
        ChainInfoStep::ReadClock(tip)@ == ChainInfoStepView::ReadClock(tip),
        ChainInfoStep::Failed(error)@ == ChainInfoStepView::Failed(error@),
{
}

} // verus!
