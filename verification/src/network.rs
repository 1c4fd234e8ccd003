//! Networks and the consensus upgrades that they schedule.

use vstd::prelude::*;

use zebra_chain::block::Height;
use zebra_chain::chain_tip::NetworkChainTipHeightEstimator;
use zebra_chain::parameters::{Network, NetworkUpgrade as ZebraUpgrade};

use crate::text::MAX_HEIGHT;

verus! {

/// `zebra_chain::parameters::Network`, the network that a validator follows.
#[verifier::external_type_specification]
#[verifier::external_body]
pub struct ExNetwork(Network);

/// A network upgrade, in the order in which upgrades activate.
#[derive(Clone, Copy, Debug, PartialEq, Eq, Structural)]
pub enum NetworkUpgrade {
    Genesis,
    BeforeOverwinter,
    Overwinter,
    Sapling,
    Blossom,
    Heartwood,
    Canopy,
    Nu5,
    Nu6,
    Nu6_1,
    Nu6_2,
    Nu6_3,
    Nu7,
}

/// A point in time: seconds since the Unix epoch, and nanoseconds into the second.
#[derive(Clone, Copy, Debug, PartialEq, Eq, Structural)]
pub struct Timestamp {
    pub secs: i64,
    pub nanos: u32,
}

/// The second of the earliest time that `chrono` can hold, at the start of the year -262143.
pub const MIN_TIME: i64 = -8_334_601_228_800;

/// The second of the latest time that `chrono` can hold, at the end of the year 262142.
pub const MAX_TIME: i64 = 8_210_266_876_799;

/// The longest time, in seconds, that any upgrade aims at between two blocks.
pub const LONGEST_SPACING: i64 = 150;

/// The number of nanoseconds in a second.
pub const NANOS_PER_SEC: u32 = 1_000_000_000;

impl Timestamp {
    /// Whether `chrono` can hold this time: the nanoseconds pass a second only in a leap second,
    /// which is the last of a minute.
    pub open spec fn valid(self) -> bool {
        &&& MIN_TIME <= self.secs <= MAX_TIME
        &&& self.nanos < NANOS_PER_SEC || (self.secs % 60 == 59 && self.nanos < 2 * NANOS_PER_SEC)
    }

    /// Returns whether `chrono` can hold this time.
    pub fn is_valid(&self) -> (valid: bool)
        ensures
            valid == self.valid(),
    {
        MIN_TIME <= self.secs && self.secs <= MAX_TIME && (self.nanos < NANOS_PER_SEC || ((self.secs
            - MIN_TIME) % 60 == 59 && self.nanos < 2 * NANOS_PER_SEC))
    }

    /// Whether this time lies after another.
    pub open spec fn after(self, other: Timestamp) -> bool {
        self.secs > other.secs || (self.secs == other.secs && self.nanos > other.nanos)
    }

    /// Returns whether this time lies after another.
    pub fn is_after(&self, other: &Timestamp) -> (after: bool)
        ensures
            after == self.after(*other),
    {
        self.secs > other.secs || (self.secs == other.secs && self.nanos > other.nanos)
    }
}

/// Whether the height at `now` can be extrapolated from a block: both times are ones that `chrono`
/// can hold, and so is the block's time after it is moved, by up to the longest spacing for each
/// block in between, to any height towards `now` at which the spacing may change.
pub open spec fn can_extrapolate(time: Timestamp, height: u32, now: Timestamp) -> bool {
    &&& time.valid()
    &&& now.valid()
    &&& if time.after(now) {
        time.secs - LONGEST_SPACING * height >= MIN_TIME
    } else {
        time.secs + LONGEST_SPACING * (MAX_HEIGHT - height) <= MAX_TIME
    }
}

/// Returns whether the height at `now` can be extrapolated from a block.
pub fn is_extrapolable(time: &Timestamp, height: u32, now: &Timestamp) -> (extrapolable: bool)
    ensures
        extrapolable == can_extrapolate(*time, height, *now),
{
    time.is_valid() && now.is_valid() && if time.is_after(now) {
        time.secs - LONGEST_SPACING * height as i64 >= MIN_TIME
    } else {
        time.secs + LONGEST_SPACING * (MAX_HEIGHT as i64 - height as i64) <= MAX_TIME
    }
}

/// The upgrade that follows another.
pub open spec fn next_upgrade(upgrade: NetworkUpgrade) -> Option<NetworkUpgrade> {
    match upgrade {
        NetworkUpgrade::Genesis => Some(NetworkUpgrade::BeforeOverwinter),
        NetworkUpgrade::BeforeOverwinter => Some(NetworkUpgrade::Overwinter),
        NetworkUpgrade::Overwinter => Some(NetworkUpgrade::Sapling),
        NetworkUpgrade::Sapling => Some(NetworkUpgrade::Blossom),
        NetworkUpgrade::Blossom => Some(NetworkUpgrade::Heartwood),
        NetworkUpgrade::Heartwood => Some(NetworkUpgrade::Canopy),
        NetworkUpgrade::Canopy => Some(NetworkUpgrade::Nu5),
        NetworkUpgrade::Nu5 => Some(NetworkUpgrade::Nu6),
        NetworkUpgrade::Nu6 => Some(NetworkUpgrade::Nu6_1),
        NetworkUpgrade::Nu6_1 => Some(NetworkUpgrade::Nu6_2),
        NetworkUpgrade::Nu6_2 => Some(NetworkUpgrade::Nu6_3),
        NetworkUpgrade::Nu6_3 => Some(NetworkUpgrade::Nu7),
        NetworkUpgrade::Nu7 => None,
    }
}

/// How many upgrades follow an upgrade.
pub open spec fn upgrades_left(upgrade: NetworkUpgrade) -> nat {
    match upgrade {
        NetworkUpgrade::Genesis => 12,
        NetworkUpgrade::BeforeOverwinter => 11,
        NetworkUpgrade::Overwinter => 10,
        NetworkUpgrade::Sapling => 9,
        NetworkUpgrade::Blossom => 8,
        NetworkUpgrade::Heartwood => 7,
        NetworkUpgrade::Canopy => 6,
        NetworkUpgrade::Nu5 => 5,
        NetworkUpgrade::Nu6 => 4,
        NetworkUpgrade::Nu6_1 => 3,
        NetworkUpgrade::Nu6_2 => 2,
        NetworkUpgrade::Nu6_3 => 1,
        NetworkUpgrade::Nu7 => 0,
    }
}

/// The consensus branch id of an upgrade, if it has one.
pub open spec fn branch_id_view(upgrade: NetworkUpgrade) -> Option<u32> {
    match upgrade {
        NetworkUpgrade::Genesis => None,
        NetworkUpgrade::BeforeOverwinter => None,
        NetworkUpgrade::Overwinter => Some(0x5ba81b19),
        NetworkUpgrade::Sapling => Some(0x76b809bb),
        NetworkUpgrade::Blossom => Some(0x2bb40e60),
        NetworkUpgrade::Heartwood => Some(0xf5b9230b),
        NetworkUpgrade::Canopy => Some(0xe9ff75a6),
        NetworkUpgrade::Nu5 => Some(0xc2d6d0b4),
        NetworkUpgrade::Nu6 => Some(0xc8e71055),
        NetworkUpgrade::Nu6_1 => Some(0x4dec4df0),
        NetworkUpgrade::Nu6_2 => Some(0x5437f330),
        NetworkUpgrade::Nu6_3 => Some(0x37a5165b),
        NetworkUpgrade::Nu7 => Some(0x77190ad9),
    }
}

/// The upgrades that a network schedules, each at the height where it activates: what
/// `Network::activation_list` holds.
pub uninterp spec fn activation_list(network: Network) -> Map<u32, NetworkUpgrade>;

/// Whether a network is the production network rather than one for tests.
pub uninterp spec fn is_main_network(network: Network) -> bool;

/// The height that `NetworkChainTipHeightEstimator` extrapolates to `now` for a network with the
/// given upgrades, from a block at `height` mined at `time`.
pub uninterp spec fn extrapolated_height(
    upgrades: Map<u32, NetworkUpgrade>,
    time_secs: i64,
    time_nanos: u32,
    height: u32,
    now_secs: i64,
    now_nanos: u32,
) -> u32;

/// Whether `height` is the lowest at which an upgrade is scheduled.
pub open spec fn scheduled_at(
    upgrades: Map<u32, NetworkUpgrade>,
    upgrade: NetworkUpgrade,
    height: u32,
) -> bool {
    &&& upgrades.contains_key(height)
    &&& upgrades[height] == upgrade
    &&& forall|lower: u32|
        lower < height && #[trigger] upgrades.contains_key(lower) ==> upgrades[lower] != upgrade
}

/// The height from which an upgrade is active: where it is scheduled or, where it is not, the
/// height of the upgrade that follows.
pub open spec fn activation_height_view(
    upgrades: Map<u32, NetworkUpgrade>,
    upgrade: NetworkUpgrade,
) -> Option<u32>
    decreases upgrades_left(upgrade),
{
    if exists|height: u32| scheduled_at(upgrades, upgrade, height) {
        Some(choose|height: u32| scheduled_at(upgrades, upgrade, height))
    } else {
        match next_upgrade(upgrade) {
            Some(next) => activation_height_view(upgrades, next),
            None => None,
        }
    }
}

/// The upgrades from one on that have an activation height, with their heights.
pub open spec fn activations_from(
    upgrades: Map<u32, NetworkUpgrade>,
    upgrade: NetworkUpgrade,
) -> Seq<(u32, NetworkUpgrade)>
    decreases upgrades_left(upgrade),
{
    let rest = match next_upgrade(upgrade) {
        Some(next) => activations_from(upgrades, next),
        None => Seq::empty(),
    };
    match activation_height_view(upgrades, upgrade) {
        Some(height) => seq![(height, upgrade)] + rest,
        None => rest,
    }
}

/// All upgrades that have an activation height, with their heights.
pub open spec fn full_activation_list_view(
    upgrades: Map<u32, NetworkUpgrade>,
) -> Seq<(u32, NetworkUpgrade)> {
    activations_from(upgrades, NetworkUpgrade::Genesis)
}

/// The upgrade scheduled at the greatest height that is not above `height`.
pub open spec fn current_upgrade_view(
    upgrades: Map<u32, NetworkUpgrade>,
    height: u32,
) -> NetworkUpgrade
    decreases height,
{
    if upgrades.contains_key(height) {
        upgrades[height]
    } else if height == 0 {
        NetworkUpgrade::Genesis
    } else {
        current_upgrade_view(upgrades, (height - 1) as u32)
    }
}

/// Whether a height has reached the activation height of an upgrade, if the upgrade has one.
pub open spec fn reached(activation_height: Option<u32>, height: u32) -> bool {
    match activation_height {
        Some(activation_height) => height >= activation_height,
        None => false,
    }
}

/// Returns whether a height has reached the activation height of an upgrade.
pub fn has_reached(activation_height: Option<u32>, height: u32) -> (active: bool)
    ensures
        active == reached(activation_height, height),
{
    match activation_height {
        Some(activation_height) => height >= activation_height,
        None => false,
    }
}

/// Calls `zebra_chain::parameters::Network::full_activation_list`.
///
/// Claims that it lists every upgrade that has an activation height, in the order of the upgrades,
/// and that the heights never decrease.
#[verifier::external_body]
pub(crate) fn full_activation_list(network: &Network) -> (list: Vec<(u32, NetworkUpgrade)>)
    ensures
        list@ == full_activation_list_view(activation_list(*network)),
        forall|i: int, j: int| 0 <= i <= j < list@.len() ==> list@[i].0 <= list@[j].0,
{
    network.full_activation_list().into_iter().map(|(height, upgrade)| (height.0, match upgrade {
        ZebraUpgrade::Genesis => NetworkUpgrade::Genesis,
        ZebraUpgrade::BeforeOverwinter => NetworkUpgrade::BeforeOverwinter,
        ZebraUpgrade::Overwinter => NetworkUpgrade::Overwinter,
        ZebraUpgrade::Sapling => NetworkUpgrade::Sapling,
        ZebraUpgrade::Blossom => NetworkUpgrade::Blossom,
        ZebraUpgrade::Heartwood => NetworkUpgrade::Heartwood,
        ZebraUpgrade::Canopy => NetworkUpgrade::Canopy,
        ZebraUpgrade::Nu5 => NetworkUpgrade::Nu5,
        ZebraUpgrade::Nu6 => NetworkUpgrade::Nu6,
        ZebraUpgrade::Nu6_1 => NetworkUpgrade::Nu6_1,
        ZebraUpgrade::Nu6_2 => NetworkUpgrade::Nu6_2,
        ZebraUpgrade::Nu6_3 => NetworkUpgrade::Nu6_3,
        ZebraUpgrade::Nu7 => NetworkUpgrade::Nu7,
    })).collect()
}

/// Calls `zebra_chain::parameters::NetworkUpgrade::current`.
///
/// Claims that it returns the upgrade scheduled at the greatest height that is not above `height`.
#[verifier::external_body]
pub(crate) fn current_upgrade(network: &Network, height: u32) -> (upgrade: NetworkUpgrade)
    ensures
        upgrade == current_upgrade_view(activation_list(*network), height),
{
    match ZebraUpgrade::current(network, Height(height)) {
        ZebraUpgrade::Genesis => NetworkUpgrade::Genesis,
        ZebraUpgrade::BeforeOverwinter => NetworkUpgrade::BeforeOverwinter,
        ZebraUpgrade::Overwinter => NetworkUpgrade::Overwinter,
        ZebraUpgrade::Sapling => NetworkUpgrade::Sapling,
        ZebraUpgrade::Blossom => NetworkUpgrade::Blossom,
        ZebraUpgrade::Heartwood => NetworkUpgrade::Heartwood,
        ZebraUpgrade::Canopy => NetworkUpgrade::Canopy,
        ZebraUpgrade::Nu5 => NetworkUpgrade::Nu5,
        ZebraUpgrade::Nu6 => NetworkUpgrade::Nu6,
        ZebraUpgrade::Nu6_1 => NetworkUpgrade::Nu6_1,
        ZebraUpgrade::Nu6_2 => NetworkUpgrade::Nu6_2,
        ZebraUpgrade::Nu6_3 => NetworkUpgrade::Nu6_3,
        ZebraUpgrade::Nu7 => NetworkUpgrade::Nu7,
    }
}

/// Calls `zebra_chain::parameters::NetworkUpgrade::activation_height`.
///
/// Claims that it returns the height where the upgrade is scheduled or, where it is not, the height
/// of the first upgrade after it that is.
#[verifier::external_body]
pub(crate) fn activation_height(upgrade: NetworkUpgrade, network: &Network) -> (height: Option<u32>)
    ensures
        height == activation_height_view(activation_list(*network), upgrade),
{
    (match upgrade {
        NetworkUpgrade::Genesis => ZebraUpgrade::Genesis,
        NetworkUpgrade::BeforeOverwinter => ZebraUpgrade::BeforeOverwinter,
        NetworkUpgrade::Overwinter => ZebraUpgrade::Overwinter,
        NetworkUpgrade::Sapling => ZebraUpgrade::Sapling,
        NetworkUpgrade::Blossom => ZebraUpgrade::Blossom,
        NetworkUpgrade::Heartwood => ZebraUpgrade::Heartwood,
        NetworkUpgrade::Canopy => ZebraUpgrade::Canopy,
        NetworkUpgrade::Nu5 => ZebraUpgrade::Nu5,
        NetworkUpgrade::Nu6 => ZebraUpgrade::Nu6,
        NetworkUpgrade::Nu6_1 => ZebraUpgrade::Nu6_1,
        NetworkUpgrade::Nu6_2 => ZebraUpgrade::Nu6_2,
        NetworkUpgrade::Nu6_3 => ZebraUpgrade::Nu6_3,
        NetworkUpgrade::Nu7 => ZebraUpgrade::Nu7,
    }).activation_height(network).map(|height| height.0)
}

/// Calls `zebra_chain::parameters::NetworkUpgrade::branch_id`.
///
/// Claims that every upgrade from Overwinter on has the id in the table, and that no earlier one
/// has an id.
#[verifier::external_body]
pub(crate) fn branch_id(upgrade: NetworkUpgrade) -> (id: Option<u32>)
    ensures
        id == branch_id_view(upgrade),
{
    (match upgrade {
        NetworkUpgrade::Genesis => ZebraUpgrade::Genesis,
        NetworkUpgrade::BeforeOverwinter => ZebraUpgrade::BeforeOverwinter,
        NetworkUpgrade::Overwinter => ZebraUpgrade::Overwinter,
        NetworkUpgrade::Sapling => ZebraUpgrade::Sapling,
        NetworkUpgrade::Blossom => ZebraUpgrade::Blossom,
        NetworkUpgrade::Heartwood => ZebraUpgrade::Heartwood,
        NetworkUpgrade::Canopy => ZebraUpgrade::Canopy,
        NetworkUpgrade::Nu5 => ZebraUpgrade::Nu5,
        NetworkUpgrade::Nu6 => ZebraUpgrade::Nu6,
        NetworkUpgrade::Nu6_1 => ZebraUpgrade::Nu6_1,
        NetworkUpgrade::Nu6_2 => ZebraUpgrade::Nu6_2,
        NetworkUpgrade::Nu6_3 => ZebraUpgrade::Nu6_3,
        NetworkUpgrade::Nu7 => ZebraUpgrade::Nu7,
    }).branch_id().map(|id| id.into())
}

/// Calls `zebra_chain::parameters::Network::bip70_network_name`.
///
/// Claims that the name is `main` for the production network and `test` for every other.
#[verifier::external_body]
pub(crate) fn bip70_network_name(network: &Network) -> (name: String)
    ensures
        name@ == (if is_main_network(*network) {
            "main"@
        } else {
            "test"@
        }),
{
    network.bip70_network_name()
}

/// Calls `zebra_chain::chain_tip::NetworkChainTipHeightEstimator::estimate_height_at`.
///
/// Claims that the estimate depends on nothing but the network's upgrades, the block's time and
/// height, and the time for which the estimate is made. The estimator moves the block's time
/// towards `now`, from one change of the target spacing to the next, and that time stays among
/// those that `chrono` can hold.
#[verifier::external_body]
pub(crate) fn estimate_height_at(
    network: &Network,
    time: &Timestamp,
    height: u32,
    now: &Timestamp,
) -> (estimate: u32)
    requires
        can_extrapolate(*time, height, *now),
    ensures
        estimate == extrapolated_height(
            activation_list(*network),
            time.secs,
            time.nanos,
            height,
            now.secs,
            now.nanos,
        ),
{
    NetworkChainTipHeightEstimator::new(
        chrono::DateTime::from_timestamp(time.secs, time.nanos).unwrap(),
        Height(height),
        network,
    ).estimate_height_at(chrono::DateTime::from_timestamp(now.secs, now.nanos).unwrap()).0
}

/// Times are ordered strictly and totally.
pub proof fn law_times_are_ordered(a: Timestamp, b: Timestamp, c: Timestamp)
    ensures
        !a.after(a),
        a.after(b) ==> !b.after(a),
        a.after(b) && b.after(c) ==> a.after(c),
        a == b || a.after(b) || b.after(a),
{
}

/// One time lies after another exactly where more nanoseconds have passed since the epoch; a leap
/// second lies before the second that follows it.
pub proof fn law_later_times_have_more_nanoseconds(a: Timestamp, b: Timestamp)
    ensures
        a.nanos < NANOS_PER_SEC && b.nanos < NANOS_PER_SEC ==> (a.after(b) <==> a.secs
            * 1_000_000_000 + a.nanos > b.secs * 1_000_000_000 + b.nanos),
        a.secs > b.secs ==> a.after(b),
        a.secs == b.secs ==> (a.after(b) <==> a.nanos > b.nanos),
{
}

/// Every time between the first and the last that can be held is valid, in whole seconds and within
/// a second, and none outside is.
pub proof fn law_valid_times(time: Timestamp)
    ensures
        -8_334_601_228_800 <= time.secs <= 8_210_266_876_799 && time.nanos < 1_000_000_000
            ==> time.valid(),
        time.secs < -8_334_601_228_800 || time.secs > 8_210_266_876_799 ==> !time.valid(),
        time.valid() && time.nanos >= 1_000_000_000 ==> time.secs % 60 == 59 && time.nanos
            < 2_000_000_000,
        0 <= time.secs <= u32::MAX && time.nanos < 1_000_000_000 ==> time.valid(),
{
}

/// The height at any valid time can be extrapolated from any block whose time is that of a
/// serialized header, at any height.
pub proof fn law_heights_can_be_extrapolated_from_headers(
    time: Timestamp,
    height: u32,
    now: Timestamp,
)
    requires
        0 <= time.secs <= u32::MAX,
        time.valid(),
        now.valid(),
    ensures
        can_extrapolate(time, height, now),
{
}

/// An upgrade is reached at its activation height, not at the height before, and at every height
/// from a reached one on; an upgrade without an activation height is never reached.
pub proof fn law_upgrades_are_reached_from_their_height_on(
    activation_height: u32,
    height: u32,
    higher: u32,
)
    ensures
        reached(Some(activation_height), activation_height),
        height < activation_height ==> !reached(Some(activation_height), height),
        height <= higher && reached(Some(activation_height), height) ==> reached(
            Some(activation_height),
            higher,
        ),
        height >= activation_height ==> reached(Some(activation_height), height),
        !reached(None, height),
{
}

/// Each upgrade is followed by the one after it, and the last by none.
pub proof fn law_upgrades_follow_each_other(upgrade: NetworkUpgrade)
    ensures
        next_upgrade(upgrade) is None <==> upgrade == NetworkUpgrade::Nu7,
        next_upgrade(upgrade) matches Some(next) ==> upgrades_left(upgrade) == upgrades_left(next)
            + 1,
        upgrades_left(NetworkUpgrade::Genesis) == 12,
{
}

/// The upgrades from Overwinter on, and no others, have a branch id, and each has its own.
pub proof fn law_branch_ids_tell_upgrades_apart(a: NetworkUpgrade, b: NetworkUpgrade)
    ensures
        branch_id_view(a) is None <==> a == NetworkUpgrade::Genesis || a
            == NetworkUpgrade::BeforeOverwinter,
        branch_id_view(a) is Some && branch_id_view(a) == branch_id_view(b) ==> a == b,
        branch_id_view(a) is Some ==> branch_id_view(a)->0 != 0,
{
}

/// An upgrade that is scheduled activates at the lowest height where it is; one that is not
/// activates with the upgrade that follows it, if there is one.
pub proof fn law_activation_height_is_the_lowest_scheduled(
    upgrades: Map<u32, NetworkUpgrade>,
    upgrade: NetworkUpgrade,
    height: u32,
)
    ensures
        upgrades.contains_key(height) && upgrades[height] == upgrade ==> {
            &&& activation_height_view(upgrades, upgrade) matches Some(lowest)
            &&& lowest <= height
            &&& upgrades.contains_key(lowest)
            &&& upgrades[lowest] == upgrade
        },
        (forall|h: u32| #[trigger] upgrades.contains_key(h) ==> upgrades[h] != upgrade)
            ==> activation_height_view(upgrades, upgrade) == (match next_upgrade(upgrade) {
            Some(next) => activation_height_view(upgrades, next),
            None => None,
        }),
{
    if upgrades.contains_key(height) && upgrades[height] == upgrade {
        let lowest = lemma_scheduled_upgrade_has_lowest_height(upgrades, upgrade, height);
        let chosen = choose|h: u32| scheduled_at(upgrades, upgrade, h);
        assert(scheduled_at(upgrades, upgrade, lowest));
        assert(scheduled_at(upgrades, upgrade, chosen));
        if chosen > lowest {
            assert(upgrades.contains_key(lowest));
        }
    }
}

proof fn lemma_scheduled_upgrade_has_lowest_height(
    upgrades: Map<u32, NetworkUpgrade>,
    upgrade: NetworkUpgrade,
    height: u32,
) -> (lowest: u32)
    requires
        upgrades.contains_key(height),
        upgrades[height] == upgrade,
    ensures
        lowest <= height,
        scheduled_at(upgrades, upgrade, lowest),
    decreases height,
{
    if scheduled_at(upgrades, upgrade, height) {
        height
    } else {
        let lower = choose|lower: u32|
            lower < height && #[trigger] upgrades.contains_key(lower) && upgrades[lower] == upgrade;
        lemma_scheduled_upgrade_has_lowest_height(upgrades, upgrade, lower)
    }
}

/// The upgrade in force is the one scheduled at the height itself and, where none is, the one in
/// force at the height before.
pub proof fn law_upgrade_is_in_force_until_the_next(
    upgrades: Map<u32, NetworkUpgrade>,
    height: u32,
)
    ensures
        upgrades.contains_key(height) ==> current_upgrade_view(upgrades, height)
            == upgrades[height],
        !upgrades.contains_key(height) && height > 0 ==> current_upgrade_view(upgrades, height)
            == current_upgrade_view(upgrades, (height - 1) as u32),
        !upgrades.contains_key(0) ==> current_upgrade_view(upgrades, 0) == NetworkUpgrade::Genesis,
{
}

/// The full list names exactly the upgrades that have an activation height, each with that height,
/// and in the order of the upgrades.
pub proof fn law_full_list_names_upgrades_with_a_height(
    upgrades: Map<u32, NetworkUpgrade>,
    upgrade: NetworkUpgrade,
    height: u32,
    i: int,
    j: int,
)
    ensures
        full_activation_list_view(upgrades).contains((height, upgrade)) <==> activation_height_view(
            upgrades,
            upgrade,
        ) == Some(height),
        0 <= i < j < full_activation_list_view(upgrades).len() ==> upgrades_left(
            full_activation_list_view(upgrades)[i].1,
        ) > upgrades_left(full_activation_list_view(upgrades)[j].1),
{
    lemma_list_from(upgrades, NetworkUpgrade::Genesis);
    let list = full_activation_list_view(upgrades);
    if list.contains((height, upgrade)) {
        let k = choose|k: int| 0 <= k < list.len() && list[k] == (height, upgrade);
        assert(list[k].1 == upgrade);
    }
}

proof fn lemma_list_from(upgrades: Map<u32, NetworkUpgrade>, first: NetworkUpgrade)
    ensures
        forall|i: int|
            0 <= i < activations_from(upgrades, first).len() ==> {
                let entry = #[trigger] activations_from(upgrades, first)[i];
                &&& activation_height_view(upgrades, entry.1) == Some(entry.0)
                &&& upgrades_left(entry.1) <= upgrades_left(first)
            },
        forall|i: int, j: int|
            0 <= i < j < activations_from(upgrades, first).len() ==> upgrades_left(
                (#[trigger] activations_from(upgrades, first)[i]).1,
            ) > upgrades_left((#[trigger] activations_from(upgrades, first)[j]).1),
        forall|u: NetworkUpgrade|
            upgrades_left(u) <= upgrades_left(first) && (#[trigger] activation_height_view(
                upgrades,
                u,
            )) is Some ==> activations_from(upgrades, first).contains(
                (activation_height_view(upgrades, u)->0, u),
            ),
    decreases upgrades_left(first),
{
    let list = activations_from(upgrades, first);
    let rest = match next_upgrade(first) {
        Some(next) => {
            lemma_list_from(upgrades, next);
            activations_from(upgrades, next)
        },
        None => Seq::empty(),
    };
    assert forall|u: NetworkUpgrade|
        upgrades_left(u) <= upgrades_left(first) && (#[trigger] activation_height_view(
            upgrades,
            u,
        )) is Some implies list.contains((activation_height_view(upgrades, u)->0, u)) by {
        let entry = (activation_height_view(upgrades, u)->0, u);
        if u == first {
            assert(list[0] == entry);
        } else {
            assert(next_upgrade(first) is Some);
            assert(rest.contains(entry));
            let k = choose|k: int| 0 <= k < rest.len() && rest[k] == entry;
            if activation_height_view(upgrades, first) is Some {
                assert(list[k + 1] == entry);
            } else {
                assert(list[k] == entry);
            }
        }
    }
}

} // verus!
