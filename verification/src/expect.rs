//! What a scenario expects of an answer of the service: a refusal of one
//! kind, the summary of an upload, the ids of a listing, the score of a
//! player.

use crate::api::{Demo, Player};
use crate::failure::{
    bare, failure_of, first_failure, lemma_first_failure_stays, mismatch_text, or_else, Failure,
    FailureView,
};
use crate::report::{compare, compared};
use crate::show::debug_quoted;
use vstd::prelude::*;

verus! {

/// The kind of an error of the service.
#[derive(Clone, Copy, Debug, PartialEq, Eq, Structural)]
pub enum ErrorKind {
    InvalidApiKey,
    HashMisMatch,
    DemoNotFound(u32),
    Other,
}

/// An error of the service: its kind, and the text that describes it.
#[derive(Clone, Debug)]
pub struct ApiError {
    pub kind: ErrorKind,
    pub text: String,
}

/// The refusal that a scenario expects.
#[derive(Clone, Copy, Debug, PartialEq, Eq, Structural)]
pub enum Refusal {
    /// The key is not accepted.
    InvalidApiKey,
    /// The hash is not that of the stored replay.
    HashMisMatch,
    /// There is no replay with this id.
    DemoNotFound(u32),
    /// There is no replay with the id that was asked for, whichever.
    NoSuchDemo,
}

/// Whether an error of kind `kind` is the refusal `expected`.
pub open spec fn refused_as(expected: Refusal, kind: ErrorKind) -> bool {
    match expected {
        Refusal::InvalidApiKey => kind is InvalidApiKey,
        Refusal::HashMisMatch => kind is HashMisMatch,
        Refusal::DemoNotFound(id) => kind == ErrorKind::DemoNotFound(id),
        Refusal::NoSuchDemo => kind is DemoNotFound,
    }
}

/// What expecting a refusal yields: a failure where the service accepted
/// the request, nothing where it refused as expected, and a failure that
/// names the error where it failed otherwise. `during` says what was
/// being tried.
pub open spec fn refusal_verdict(answer: Option<ApiError>, expected: Refusal, during: Seq<char>)
    -> Option<FailureView> {
    match answer {
        None => Some(bare("Expected error during upload"@)),
        Some(error) => if refused_as(expected, error.kind) {
            None
        } else {
            Some(bare("Unexpected error during "@ + during + ": "@ + error.text@))
        },
    }
}

/// Holds the answer to a request that should be refused against the
/// refusal that is expected: `answer` is the error, or `None` where the
/// service accepted the request.
pub fn expect_refused(answer: Option<&ApiError>, expected: Refusal, during: &str) -> (outcome:
    Result<(), Failure>)
    ensures
        failure_of(outcome) == refusal_verdict(
            match answer {
                Some(error) => Some(*error),
                None => None,
            },
            expected,
            during@,
        ),
{
    match answer {
        None => Err(Failure::msg(String::from_str("Expected error during upload"))),
        Some(error) => {
            let as_expected = match expected {
                Refusal::InvalidApiKey => match error.kind {
                    ErrorKind::InvalidApiKey => true,
                    _ => false,
                },
                Refusal::HashMisMatch => match error.kind {
                    ErrorKind::HashMisMatch => true,
                    _ => false,
                },
                Refusal::DemoNotFound(id) => match error.kind {
                    ErrorKind::DemoNotFound(found) => found == id,
                    _ => false,
                },
                Refusal::NoSuchDemo => match error.kind {
                    ErrorKind::DemoNotFound(_) => true,
                    _ => false,
                },
            };
            if as_expected {
                Ok(())
            } else {
                let mut message = String::from_str("Unexpected error during ");
                message.append(during);
                message.append(": ");
                message.append(error.text.as_str());
                Err(Failure::msg(message))
            }
        },
    }
}

/// What a request that should be accepted yields: nothing where the
/// service accepted it, else the failure with the text of the error.
pub open spec fn acceptance_verdict(answer: Option<ApiError>) -> Option<FailureView> {
    match answer {
        None => None,
        Some(error) => Some(bare(error.text@)),
    }
}

/// Holds the answer to a request that should be accepted: `answer` is the
/// error, or `None` where the service accepted the request.
pub fn expect_accepted(answer: Option<&ApiError>) -> (outcome: Result<(), Failure>)
    ensures
        failure_of(outcome) == acceptance_verdict(
            match answer {
                Some(error) => Some(*error),
                None => None,
            },
        ),
{
    match answer {
        None => Ok(()),
        Some(error) => Err(Failure::msg(error.text.clone())),
    }
}

/// Where a replay is stored, as plain text.
pub struct PlaceView {
    pub url: Seq<char>,
    pub backend: Seq<char>,
}

/// Where a replay is stored.
#[derive(Clone, Debug)]
pub struct Place {
    pub url: String,
    pub backend: String,
}

impl View for Place {
    type V = PlaceView;

    open spec fn view(&self) -> PlaceView {
        PlaceView { url: self.url@, backend: self.backend@ }
    }
}

/// What a scenario expects of an uploaded replay, as plain text.
pub struct SummaryView {
    pub id: u32,
    pub name: Seq<char>,
    pub map: Seq<char>,
    pub red_score: u8,
    pub blue_score: u8,
    pub player_count: u8,
    pub place: Option<PlaceView>,
}

/// What a scenario expects of an uploaded replay; the place only where it
/// asks for it.
#[derive(Clone, Debug)]
pub struct Summary {
    pub id: u32,
    pub name: String,
    pub map: String,
    pub red_score: u8,
    pub blue_score: u8,
    pub player_count: u8,
    pub place: Option<Place>,
}

impl View for Summary {
    type V = SummaryView;

    open spec fn view(&self) -> SummaryView {
        SummaryView {
            id: self.id,
            name: self.name@,
            map: self.map@,
            red_score: self.red_score,
            blue_score: self.blue_score,
            player_count: self.player_count,
            place: match self.place {
                Some(place) => Some(place@),
                None => None,
            },
        }
    }
}

/// What comparing two texts yields: nothing where they are equal, else
/// the failure that shows both in quotes.
pub open spec fn compared_text(observed: Seq<char>, expected: Seq<char>) -> Option<FailureView> {
    if expected == observed {
        None
    } else {
        Some(bare(mismatch_text(debug_quoted(observed), debug_quoted(expected))))
    }
}

/// What holding the place of a replay against the expected one yields.
pub open spec fn place_verdict(demo: &Demo, expected: Option<PlaceView>) -> Option<FailureView> {
    match expected {
        None => None,
        Some(place) => or_else(
            compared_text(demo.url@, place.url),
            compared_text(demo.backend@, place.backend),
        ),
    }
}

/// What holding a replay against its expected summary yields: the id, the
/// name, the map, the scores, the number of players and, where it is
/// expected, the place, in this order.
pub open spec fn summary_verdict(demo: &Demo, expected: SummaryView) -> Option<FailureView> {
    or_else(
        compared(demo.id, expected.id),
        or_else(
            compared_text(demo.name@, expected.name),
            or_else(
                compared_text(demo.map@, expected.map),
                or_else(
                    compared(demo.red_score, expected.red_score),
                    or_else(
                        compared(demo.blue_score, expected.blue_score),
                        or_else(
                            compared(demo.player_count, expected.player_count),
                            place_verdict(demo, expected.place),
                        ),
                    ),
                ),
            ),
        ),
    )
}

/// Holds a replay, as the service describes it, against its expected
/// summary. The first field that differs ends it.
pub fn check_summary(demo: &Demo, expected: &Summary) -> (outcome: Result<(), Failure>)
    ensures
        failure_of(outcome) == summary_verdict(demo, expected@),
{
    let id = compare(&demo.id, &expected.id);
    if id.is_err() {
        return id;
    }
    let name = compare(&demo.name, &expected.name);
    if name.is_err() {
        return name;
    }
    let map = compare(&demo.map, &expected.map);
    if map.is_err() {
        return map;
    }
    let red = compare(&demo.red_score, &expected.red_score);
    if red.is_err() {
        return red;
    }
    let blue = compare(&demo.blue_score, &expected.blue_score);
    if blue.is_err() {
        return blue;
    }
    let count = compare(&demo.player_count, &expected.player_count);
    if count.is_err() {
        return count;
    }
    match &expected.place {
        None => Ok(()),
        Some(place) => {
            let url = compare(&demo.url, &place.url);
            if url.is_err() {
                return url;
            }
            compare(&demo.backend, &place.backend)
        },
    }
}

/// What holding the id of each listed replay against the expected one
/// yields.
pub open spec fn id_verdict(list: Seq<Demo>, expected: Seq<u32>) -> spec_fn(int) -> Option<
    FailureView,
> {
    |i: int| compared(list[i].id, expected[i])
}

/// What holding a listing against the ids that lead it yields: first the
/// number of replays, then the ids in their order.
pub open spec fn listing_verdict(list: Seq<Demo>, count: usize, leading: Seq<u32>) -> Option<
    FailureView,
> {
    or_else(
        compared(list.len() as usize, count),
        first_failure(leading.len() as int, id_verdict(list, leading)),
    )
}

/// Holds a listing against the number of replays that it should have and
/// the ids that should lead it, in their order.
pub fn check_listing(list: &[Demo], count: usize, leading: &[u32]) -> (outcome: Result<(), Failure>)
    requires
        leading@.len() <= count,
    ensures
        failure_of(outcome) == listing_verdict(list@, count, leading@),
{
    let listed = list.len();
    let length = compare(&listed, &count);
    if length.is_err() {
        return length;
    }
    let ghost ids = id_verdict(list@, leading@);
    let mut at: usize = 0;
    while at < leading.len()
        invariant
            at <= leading@.len(),
            leading@.len() <= list@.len(),
            ids == id_verdict(list@, leading@),
            first_failure(at as int, ids) is None,
            compared(list@.len() as usize, count) is None,
        decreases leading@.len() - at,
    {
        let id = compare(&list[at].id, &leading[at]);
        if id.is_err() {
            proof {
                assert(failure_of(id) == ids(at as int));
                lemma_first_failure_stays(at + 1, leading@.len() as int, ids);
            }
            return id;
        }
        assert(ids(at as int) is None);
        at = at + 1;
    }
    Ok(())
}

/// Holds a listing against all of its expected ids, in their order.
pub fn check_ids(list: &[Demo], expected: &[u32]) -> (outcome: Result<(), Failure>)
    ensures
        failure_of(outcome) == listing_verdict(list@, expected@.len() as usize, expected@),
{
    check_listing(list, expected.len(), expected)
}

/// Whether `at` is the place of the first player with the given steam id.
pub open spec fn is_first_with(players: Seq<Player>, steam_id: u64, at: int) -> bool {
    &&& 0 <= at < players.len()
    &&& players[at].user.steam_id == steam_id
    &&& forall|earlier: int| 0 <= earlier < at ==> players[earlier].user.steam_id != steam_id
}

/// The place of the first player with the given steam id, if there is
/// one.
pub fn find_player(players: &[Player], steam_id: u64) -> (found: Option<usize>)
    ensures
        match found {
            Some(at) => is_first_with(players@, steam_id, at as int),
            None => forall|at: int| 0 <= at < players@.len() ==> players@[at].user.steam_id != steam_id,
        },
{
    let mut at: usize = 0;
    while at < players.len()
        invariant
            at <= players@.len(),
            forall|earlier: int| 0 <= earlier < at ==> players@[earlier].user.steam_id != steam_id,
        decreases players@.len() - at,
    {
        if players[at].user.steam_id == steam_id {
            return Some(at);
        }
        at = at + 1;
    }
    None
}

/// What holding the score of a player against the expected one yields:
/// the kills, the assists and the deaths, in this order.
pub open spec fn score_verdict(player: &Player, kills: u8, assists: u8, deaths: u8) -> Option<
    FailureView,
> {
    or_else(
        compared(player.kills, kills),
        or_else(compared(player.assists, assists), compared(player.deaths, deaths)),
    )
}

/// Holds the score of a player against the expected one.
pub fn check_score(player: &Player, kills: u8, assists: u8, deaths: u8) -> (outcome: Result<
    (),
    Failure,
>)
    ensures
        failure_of(outcome) == score_verdict(player, kills, assists, deaths),
{
    let killed = compare(&player.kills, &kills);
    if killed.is_err() {
        return killed;
    }
    let assisted = compare(&player.assists, &assists);
    if assisted.is_err() {
        return assisted;
    }
    compare(&player.deaths, &deaths)
}

} // verus!
