//! The listings that the third scenario asks for, and the replays that
//! each of them is expected to hold.

use crate::api::Demo;
use crate::expect::{check_ids, check_listing, listing_verdict};
use crate::failure::{failure_of, Failure};
use crate::harness::seed_steam_id;
use vstd::prelude::*;

verus! {

/// A player of the first, the fourth and the fifth replay.
pub const REGULAR: u64 = 76561197992327511;

/// The seed user, a player of the first and the fourth replay.
pub const SEEDED: u64 = 76561198024494988;

/// Another player of the fourth replay.
pub const FOURTH: u64 = 76561198011495003;

/// A player of the fourth replay who left it and came back.
pub const RECONNECTED: u64 = 76561197998883586;

/// A steam id that is in none of the replays.
pub const STRANGER: u64 = 76561197992320000;

/// The order of a listing, by the ids of the replays.
#[derive(Clone, Copy, Debug, PartialEq, Eq, Structural)]
pub enum ListOrder {
    Ascending,
    Descending,
}

/// The kinds of game that the service tells apart.
#[derive(Clone, Copy, Debug, PartialEq, Eq, Structural)]
pub enum GameType {
    HL,
    Prolander,
    Sixes,
    Fours,
}

/// What a listing is asked with, as plain values. Times are in seconds
/// since 1970.
pub struct ListParamsView {
    pub order: ListOrder,
    pub map: Option<Seq<char>>,
    pub players: Seq<u64>,
    pub ty: Option<GameType>,
    pub after: Option<i64>,
    pub before: Option<i64>,
    pub before_id: Option<u64>,
    pub after_id: Option<u64>,
}

/// What a listing is asked with: the order, and what the replays must
/// have to be listed.
#[derive(Clone, Debug)]
pub struct ListParams {
    pub order: ListOrder,
    pub map: Option<String>,
    pub players: Vec<u64>,
    pub ty: Option<GameType>,
    pub after: Option<i64>,
    pub before: Option<i64>,
    pub before_id: Option<u64>,
    pub after_id: Option<u64>,
}

impl View for ListParams {
    type V = ListParamsView;

    open spec fn view(&self) -> ListParamsView {
        ListParamsView {
            order: self.order,
            map: match self.map {
                Some(map) => Some(map@),
                None => None,
            },
            players: self.players@,
            ty: self.ty,
            after: self.after,
            before: self.before,
            before_id: self.before_id,
            after_id: self.after_id,
        }
    }
}

/// A listing of all replays, the newest first.
pub open spec fn unfiltered() -> ListParamsView {
    ListParamsView {
        order: ListOrder::Descending,
        map: None,
        players: Seq::empty(),
        ty: None,
        after: None,
        before: None,
        before_id: None,
        after_id: None,
    }
}

impl ListParams {
    /// A listing of all replays, the newest first.
    pub fn new() -> (params: ListParams)
        ensures
            params@ == unfiltered(),
    {
        let params = ListParams {
            order: ListOrder::Descending,
            map: None,
            players: Vec::new(),
            ty: None,
            after: None,
            before: None,
            before_id: None,
            after_id: None,
        };
        assert(params@.players =~= Seq::<u64>::empty());
        params
    }
}

/// The listings of the third scenario, in the order in which they are
/// asked for.
#[derive(Clone, Copy, Debug, PartialEq, Eq, Structural)]
pub enum Listing {
    Defaults,
    Ascending,
    ByMap,
    SinglePlayer,
    MultiplePlayers,
    ReconnectedPlayer,
    UnknownPlayer,
    PlayerAndMap,
    ByType,
    TimeAfter,
    TimeBefore,
    IdAfter,
    IdBefore,
}

/// The listings, in the order in which they are asked for.
pub open spec fn all_listings() -> Seq<Listing> {
    seq![
        Listing::Defaults,
        Listing::Ascending,
        Listing::ByMap,
        Listing::SinglePlayer,
        Listing::MultiplePlayers,
        Listing::ReconnectedPlayer,
        Listing::UnknownPlayer,
        Listing::PlayerAndMap,
        Listing::ByType,
        Listing::TimeAfter,
        Listing::TimeBefore,
        Listing::IdAfter,
        Listing::IdBefore,
    ]
}

/// The name of the step that asks for a listing.
pub open spec fn listing_name(listing: Listing) -> Seq<char> {
    match listing {
        Listing::Defaults => "list defaults"@,
        Listing::Ascending => "list asc"@,
        Listing::ByMap => "list map filter"@,
        Listing::SinglePlayer => "list single player filter"@,
        Listing::MultiplePlayers => "list multiple player filter"@,
        Listing::ReconnectedPlayer => "list reconnected player filter"@,
        Listing::UnknownPlayer => "list unknown player filter"@,
        Listing::PlayerAndMap => "list player and map filter"@,
        Listing::ByType => "list type filter"@,
        Listing::TimeAfter => "list time filter after"@,
        Listing::TimeBefore => "list time filter before"@,
        Listing::IdAfter => "list id filter after"@,
        Listing::IdBefore => "list id filter before"@,
    }
}

/// What a listing is asked with. `pivot` is the time of the one replay of
/// four against four, the third that was uploaded: the two listings by
/// time are cut there.
pub open spec fn listing_params(listing: Listing, pivot: i64) -> ListParamsView {
    match listing {
        Listing::Defaults => unfiltered(),
        Listing::Ascending => ListParamsView { order: ListOrder::Ascending, ..unfiltered() },
        Listing::ByMap => ListParamsView { map: Some("cp_process"@), ..unfiltered() },
        Listing::SinglePlayer => ListParamsView { players: seq![REGULAR], ..unfiltered() },
        Listing::MultiplePlayers => ListParamsView {
            players: seq![REGULAR, SEEDED],
            ..unfiltered()
        },
        Listing::ReconnectedPlayer => ListParamsView {
            players: seq![SEEDED, FOURTH, RECONNECTED],
            ..unfiltered()
        },
        Listing::UnknownPlayer => ListParamsView { players: seq![STRANGER], ..unfiltered() },
        Listing::PlayerAndMap => ListParamsView {
            players: seq![REGULAR],
            map: Some("cp_granary_pro"@),
            ..unfiltered()
        },
        Listing::ByType => ListParamsView { ty: Some(GameType::Fours), ..unfiltered() },
        Listing::TimeAfter => ListParamsView { after: Some(pivot), ..unfiltered() },
        Listing::TimeBefore => ListParamsView { before: Some(pivot), ..unfiltered() },
        Listing::IdAfter => ListParamsView { after_id: Some(3), ..unfiltered() },
        Listing::IdBefore => ListParamsView { before_id: Some(3), ..unfiltered() },
    }
}

/// The ids of the replays that a listing is expected to hold, in the
/// order in which it holds them. The replays have the ids 1 to 5, in the
/// order of their upload.
pub open spec fn listing_ids(listing: Listing) -> Seq<u32> {
    match listing {
        Listing::Defaults => seq![5u32, 4u32, 3u32, 2u32, 1u32],
        Listing::Ascending => seq![1u32, 2u32, 3u32, 4u32, 5u32],
        Listing::ByMap => seq![2u32],
        Listing::SinglePlayer => seq![5u32, 4u32, 1u32],
        Listing::MultiplePlayers => seq![4u32, 1u32],
        Listing::ReconnectedPlayer => seq![4u32],
        Listing::UnknownPlayer => seq![],
        Listing::PlayerAndMap => seq![1u32],
        Listing::ByType => seq![3u32],
        Listing::TimeAfter => seq![5u32, 4u32],
        Listing::TimeBefore => seq![2u32, 1u32],
        Listing::IdAfter => seq![5u32, 4u32],
        Listing::IdBefore => seq![2u32, 1u32],
    }
}

/// Whether the listing is the one whose replay gives the time at which
/// the listings by time are cut.
pub open spec fn gives_pivot(listing: Listing) -> bool {
    listing is ByType
}

/// Whether the listing is cut at the time of that replay.
pub open spec fn cut_at_pivot(listing: Listing) -> bool {
    listing is TimeAfter || listing is TimeBefore
}

/// Whether the players of the first replay of the listing are looked at
/// too.
pub open spec fn asks_players(listing: Listing) -> bool {
    listing is ReconnectedPlayer
}

fn ids(first: Option<u32>, second: Option<u32>, third: Option<u32>) -> (ids: Vec<u32>)
    requires
        second is Some ==> first is Some,
        third is Some ==> second is Some,
    ensures
        ids@ == match (first, second, third) {
            (Some(a), Some(b), Some(c)) => seq![a, b, c],
            (Some(a), Some(b), _) => seq![a, b],
            (Some(a), _, _) => seq![a],
            _ => seq![],
        },
{
    let mut ids: Vec<u32> = Vec::new();
    if let Some(a) = first {
        ids.push(a);
    }
    if let Some(b) = second {
        ids.push(b);
    }
    if let Some(c) = third {
        ids.push(c);
    }
    assert(ids@ =~= match (first, second, third) {
        (Some(a), Some(b), Some(c)) => seq![a, b, c],
        (Some(a), Some(b), _) => seq![a, b],
        (Some(a), _, _) => seq![a],
        _ => seq![],
    });
    ids
}

fn players(first: u64, second: Option<u64>, third: Option<u64>) -> (players: Vec<u64>)
    requires
        third is Some ==> second is Some,
    ensures
        players@ == match (second, third) {
            (Some(b), Some(c)) => seq![first, b, c],
            (Some(b), _) => seq![first, b],
            _ => seq![first],
        },
{
    let mut players: Vec<u64> = Vec::new();
    players.push(first);
    if let Some(b) = second {
        players.push(b);
    }
    if let Some(c) = third {
        players.push(c);
    }
    assert(players@ =~= match (second, third) {
        (Some(b), Some(c)) => seq![first, b, c],
        (Some(b), _) => seq![first, b],
        _ => seq![first],
    });
    players
}

impl Listing {
    /// The listings, in the order in which they are asked for.
    pub fn all() -> (all: Vec<Listing>)
        ensures
            all@ == all_listings(),
    {
        let mut all: Vec<Listing> = Vec::new();
        all.push(Listing::Defaults);
        all.push(Listing::Ascending);
        all.push(Listing::ByMap);
        all.push(Listing::SinglePlayer);
        all.push(Listing::MultiplePlayers);
        all.push(Listing::ReconnectedPlayer);
        all.push(Listing::UnknownPlayer);
        all.push(Listing::PlayerAndMap);
        all.push(Listing::ByType);
        all.push(Listing::TimeAfter);
        all.push(Listing::TimeBefore);
        all.push(Listing::IdAfter);
        all.push(Listing::IdBefore);
        assert(all@ =~= all_listings());
        all
    }

    /// The name of the step that asks for the listing.
    pub fn name(&self) -> (name: String)
        ensures
            name@ == listing_name(*self),
    {
        match self {
            Listing::Defaults => String::from_str("list defaults"),
            Listing::Ascending => String::from_str("list asc"),
            Listing::ByMap => String::from_str("list map filter"),
            Listing::SinglePlayer => String::from_str("list single player filter"),
            Listing::MultiplePlayers => String::from_str("list multiple player filter"),
            Listing::ReconnectedPlayer => String::from_str("list reconnected player filter"),
            Listing::UnknownPlayer => String::from_str("list unknown player filter"),
            Listing::PlayerAndMap => String::from_str("list player and map filter"),
            Listing::ByType => String::from_str("list type filter"),
            Listing::TimeAfter => String::from_str("list time filter after"),
            Listing::TimeBefore => String::from_str("list time filter before"),
            Listing::IdAfter => String::from_str("list id filter after"),
            Listing::IdBefore => String::from_str("list id filter before"),
        }
    }

    /// What the listing is asked with. `pivot` is the time of the replay
    /// that the listing by type holds; only the two listings by time use
    /// it.
    pub fn params(&self, pivot: i64) -> (params: ListParams)
        ensures
            params@ == listing_params(*self, pivot),
    {
        let mut params = ListParams::new();
        match self {
            Listing::Defaults => {},
            Listing::Ascending => {
                params.order = ListOrder::Ascending;
            },
            Listing::ByMap => {
                params.map = Some(String::from_str("cp_process"));
            },
            Listing::SinglePlayer => {
                params.players = players(REGULAR, None, None);
            },
            Listing::MultiplePlayers => {
                params.players = players(REGULAR, Some(SEEDED), None);
            },
            Listing::ReconnectedPlayer => {
                params.players = players(SEEDED, Some(FOURTH), Some(RECONNECTED));
            },
            Listing::UnknownPlayer => {
                params.players = players(STRANGER, None, None);
            },
            Listing::PlayerAndMap => {
                params.players = players(REGULAR, None, None);
                params.map = Some(String::from_str("cp_granary_pro"));
            },
            Listing::ByType => {
                params.ty = Some(GameType::Fours);
            },
            Listing::TimeAfter => {
                params.after = Some(pivot);
            },
            Listing::TimeBefore => {
                params.before = Some(pivot);
            },
            Listing::IdAfter => {
                params.after_id = Some(3);
            },
            Listing::IdBefore => {
                params.before_id = Some(3);
            },
        }
        params
    }

    /// Whether the time of the first replay of this listing is the pivot
    /// of the listings that follow.
    pub fn gives_pivot(&self) -> (gives: bool)
        ensures
            gives == gives_pivot(*self),
    {
        match self {
            Listing::ByType => true,
            _ => false,
        }
    }

    /// Whether the players of the first replay of this listing are looked
    /// at too, for the score of the one who came back.
    pub fn asks_players(&self) -> (asks: bool)
        ensures
            asks == asks_players(*self),
    {
        match self {
            Listing::ReconnectedPlayer => true,
            _ => false,
        }
    }

    /// The ids that the listing is expected to hold, in their order.
    pub fn expected(&self) -> (expected: Vec<u32>)
        ensures
            expected@ == listing_ids(*self),
    {
        match self {
            Listing::Defaults => {
                let mut all = ids(Some(5), Some(4), Some(3));
                all.push(2);
                all.push(1);
                assert(all@ =~= listing_ids(*self));
                all
            },
            Listing::Ascending => {
                let mut all = ids(Some(1), Some(2), Some(3));
                all.push(4);
                all.push(5);
                assert(all@ =~= listing_ids(*self));
                all
            },
            Listing::ByMap => ids(Some(2), None, None),
            Listing::SinglePlayer => ids(Some(5), Some(4), Some(1)),
            Listing::MultiplePlayers => ids(Some(4), Some(1), None),
            Listing::ReconnectedPlayer => ids(Some(4), None, None),
            Listing::UnknownPlayer => ids(None, None, None),
            Listing::PlayerAndMap => ids(Some(1), None, None),
            Listing::ByType => ids(Some(3), None, None),
            Listing::TimeAfter => ids(Some(5), Some(4), None),
            Listing::TimeBefore => ids(Some(2), Some(1), None),
            Listing::IdAfter => ids(Some(5), Some(4), None),
            Listing::IdBefore => ids(Some(2), Some(1), None),
        }
    }

    /// Holds what the service lists against the ids that the listing is
    /// expected to hold: first their number, then each id in its place.
    pub fn check(&self, list: &[Demo]) -> (outcome: Result<(), Failure>)
        ensures
            failure_of(outcome) == listing_verdict(
                list@,
                listing_ids(*self).len() as usize,
                listing_ids(*self),
            ),
    {
        let expected = self.expected();
        check_ids(list, expected.as_slice())
    }
}

/// Whose uploads the last step of the third scenario asks for.
#[derive(Clone, Copy, Debug, PartialEq, Eq, Structural)]
pub enum Uploader {
    /// A player who uploaded nothing.
    Regular,
    /// The seed user, who uploaded all five replays.
    Seeded,
}

/// The steam id of an uploader.
pub open spec fn uploader_id(uploader: Uploader) -> u64 {
    match uploader {
        Uploader::Regular => REGULAR,
        Uploader::Seeded => SEEDED,
    }
}

/// How many replays an uploader is expected to have, and the ids that
/// are expected to lead the list, the oldest first.
pub open spec fn uploads_by(uploader: Uploader) -> (usize, Seq<u32>) {
    match uploader {
        Uploader::Regular => (0, seq![]),
        Uploader::Seeded => (5, seq![1u32]),
    }
}

impl Uploader {
    /// The two uploaders, in the order in which their uploads are asked
    /// for.
    pub fn all() -> (all: Vec<Uploader>)
        ensures
            all@ == seq![Uploader::Regular, Uploader::Seeded],
    {
        let mut all: Vec<Uploader> = Vec::new();
        all.push(Uploader::Regular);
        all.push(Uploader::Seeded);
        assert(all@ =~= seq![Uploader::Regular, Uploader::Seeded]);
        all
    }

    /// The steam id of the uploader.
    pub fn steam_id(&self) -> (id: u64)
        ensures
            id == uploader_id(*self),
    {
        match self {
            Uploader::Regular => REGULAR,
            Uploader::Seeded => SEEDED,
        }
    }

    /// What the uploads are asked with: all of them, the oldest first.
    pub fn params(&self) -> (params: ListParams)
        ensures
            params@ == listing_params(Listing::Ascending, 0),
    {
        Listing::Ascending.params(0)
    }

    /// Holds the uploads that the service lists against what is expected
    /// of the uploader: none of the player who uploaded nothing, and five
    /// of the seed user, led by the first replay.
    pub fn check(&self, list: &[Demo]) -> (outcome: Result<(), Failure>)
        ensures
            failure_of(outcome) == listing_verdict(
                list@,
                uploads_by(*self).0,
                uploads_by(*self).1,
            ),
    {
        match self {
            Uploader::Regular => {
                let leading = ids(None, None, None);
                check_listing(list, 0, leading.as_slice())
            },
            Uploader::Seeded => {
                let leading = ids(Some(1), None, None);
                check_listing(list, 5, leading.as_slice())
            },
        }
    }
}

/// Whether a listing asked with `narrow` can hold only replays that one
/// asked with `wide` holds too: it asks for all that `wide` asks for, in
/// whatever order.
pub open spec fn narrows(narrow: ListParamsView, wide: ListParamsView) -> bool {
    &&& wide.map is Some ==> narrow.map == wide.map
    &&& forall|i: int| 0 <= i < wide.players.len() ==> narrow.players.contains(wide.players[i])
    &&& wide.ty is Some ==> narrow.ty == wide.ty
    &&& wide.after is Some ==> narrow.after == wide.after
    &&& wide.before is Some ==> narrow.before == wide.before
    &&& wide.after_id is Some ==> narrow.after_id == wide.after_id
    &&& wide.before_id is Some ==> narrow.before_id == wide.before_id
}

/// The player who is in the first and the fourth replay and uploaded
/// all five is the seed user.
pub proof fn lemma_seeded_is_the_seed_user()
    ensures
        SEEDED == seed_steam_id(),
        uploader_id(Uploader::Seeded) == seed_steam_id(),
        uploader_id(Uploader::Regular) != seed_steam_id(),
{
}

/// A listing of which the first replay is looked at is expected to hold
/// one, and the listing that gives the pivot is asked for before those
/// that are cut at it.
pub proof fn lemma_first_replay_is_there(listing: Listing)
    ensures
        gives_pivot(listing) || asks_players(listing) ==> listing_ids(listing).len() >= 1,
        gives_pivot(Listing::ByType),
        cut_at_pivot(listing) ==> listing == Listing::TimeAfter || listing == Listing::TimeBefore,
{
}

/// Only the listings by time depend on the pivot.
pub proof fn lemma_pivot_only_cuts_by_time(listing: Listing, one: i64, other: i64)
    requires
        !cut_at_pivot(listing),
    ensures
        listing_params(listing, one) == listing_params(listing, other),
{
}

/// Each listing is expected in the order that it asks for: ascending by
/// id where it asks so, else descending.
pub proof fn lemma_listing_in_order(listing: Listing, pivot: i64)
    ensures
        forall|i: int, j: int|
            0 <= i < j < listing_ids(listing).len() ==> if listing_params(listing, pivot).order
                is Ascending {
                listing_ids(listing)[i] < listing_ids(listing)[j]
            } else {
                listing_ids(listing)[i] > listing_ids(listing)[j]
            },
{
}

/// Each listing is expected to hold only replays that were uploaded: the
/// five of the scenario, with the ids 1 to 5.
pub proof fn lemma_listing_holds_uploads(listing: Listing)
    ensures
        forall|i: int|
            0 <= i < listing_ids(listing).len() ==> 1 <= #[trigger] listing_ids(listing)[i] <= 5,
{
}

/// The listing without a filter is expected to hold every replay that
/// was uploaded, in either order.
pub proof fn lemma_unfiltered_holds_all(id: u32)
    requires
        1 <= id <= 5,
    ensures
        listing_ids(Listing::Defaults).contains(id),
        listing_ids(Listing::Ascending).contains(id),
        listing_ids(Listing::Defaults).len() == 5,
        listing_ids(Listing::Ascending) == listing_ids(Listing::Defaults).reverse(),
{
    let down = listing_ids(Listing::Defaults);
    let up = listing_ids(Listing::Ascending);
    assert(down[5 - id] == id);
    assert(up[id - 1] == id);
    assert(up =~= down.reverse());
}

/// A listing that is cut at an id is expected to hold only ids on the
/// side that it asks for.
pub proof fn lemma_listing_within_id_bounds(listing: Listing, pivot: i64)
    ensures
        forall|i: int|
            0 <= i < listing_ids(listing).len() ==> {
                &&& listing_params(listing, pivot).after_id matches Some(bound)
                    ==> #[trigger] listing_ids(listing)[i] > bound
                &&& listing_params(listing, pivot).before_id matches Some(bound)
                    ==> listing_ids(listing)[i] < bound
            },
{
}

/// The replays are uploaded in the order of time, so the listings that
/// are cut at the time of the third replay are expected to hold what
/// those hold that are cut at its id.
pub proof fn lemma_time_cuts_as_id_cuts()
    ensures
        listing_ids(Listing::TimeAfter) == listing_ids(Listing::IdAfter),
        listing_ids(Listing::TimeBefore) == listing_ids(Listing::IdBefore),
        listing_ids(Listing::ByType) == seq![3u32],
{
}

/// A listing that asks for more is expected to hold no replay that a
/// listing that asks for less does not hold: with more players named,
/// only replays with all of them.
pub proof fn lemma_narrower_listing_holds_less(narrow: Listing, wide: Listing, pivot: i64)
    requires
        narrows(listing_params(narrow, pivot), listing_params(wide, pivot)),
    ensures
        forall|i: int|
            0 <= i < listing_ids(narrow).len() ==> listing_ids(wide).contains(
                #[trigger] listing_ids(narrow)[i],
            ),
{
    let held = listing_ids(wide);
    let asked = listing_params(wide, pivot);
    let by = listing_params(narrow, pivot);
    assert("cp_process"@ != "cp_granary_pro"@) by {
        reveal_strlit("cp_process");
        reveal_strlit("cp_granary_pro");
        assert("cp_process"@.len() == 10);
        assert("cp_granary_pro"@.len() == 14);
    }
    if asked.players.len() > 0 {
        assert(by.players.contains(asked.players[0]));
    }
    if asked.players.len() > 1 {
        assert(by.players.contains(asked.players[1]));
    }
    assert forall|i: int| 0 <= i < listing_ids(narrow).len() implies held.contains(
        #[trigger] listing_ids(narrow)[i],
    ) by {
        let id = listing_ids(narrow)[i];
        if held.len() == 5 {
            assert(held[0] == id || held[1] == id || held[2] == id || held[3] == id || held[4]
                == id);
        } else if held.len() == 3 {
            assert(held[0] == id || held[1] == id || held[2] == id);
        } else if held.len() == 2 {
            assert(held[0] == id || held[1] == id);
        } else if held.len() == 1 {
            assert(held[0] == id);
        }
    }
}

} // verus!
