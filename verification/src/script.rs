//! The scenarios: what is uploaded, what is asked of the service, and
//! what it is expected to answer.

use crate::api::{Demo, Player, User};
use crate::expect::{
    acceptance_verdict, check_score, check_summary, compared_text, expect_accepted,
    expect_refused, find_player, is_first_with, refusal_verdict, score_verdict, summary_verdict,
    ApiError, Place, PlaceView, Refusal, Summary, SummaryView,
};
use crate::failure::{failure_of, or_else, Failure, FailureView};
use crate::harness::{seed_name, seed_token};
use crate::listing::RECONNECTED;
use crate::replay::{Header, MatchState};
use crate::report::{compare, compared};
use crate::verify::{can_verify, demo_verdict, try_verify_demo};
use vstd::prelude::*;

verus! {

/// The replay files that the scenarios upload.
#[derive(Clone, Copy, Debug, PartialEq, Eq, Structural)]
pub enum Replay {
    Granary,
    Process,
    Warmfrost,
    Reconnect,
    Ultiduo,
}

/// One upload, as plain text. `pause` is the number of seconds to wait
/// after it, so that the uploads that follow are later in time.
pub struct UploadView {
    pub name: Seq<char>,
    pub replay: Replay,
    pub red: Seq<char>,
    pub blue: Seq<char>,
    pub token: Seq<char>,
    pub pause: u64,
}

/// One upload: the name under which the replay is stored, the names of
/// the two teams, and the token of the uploader.
#[derive(Clone, Debug)]
pub struct Upload {
    pub name: String,
    pub replay: Replay,
    pub red: String,
    pub blue: String,
    pub token: String,
    pub pause: u64,
}

impl DeepView for Upload {
    type V = UploadView;

    open spec fn deep_view(&self) -> UploadView {
        UploadView {
            name: self.name@,
            replay: self.replay,
            red: self.red@,
            blue: self.blue@,
            token: self.token@,
            pause: self.pause,
        }
    }
}

/// The scenarios, in the order in which they are run.
#[derive(Clone, Copy, Debug, PartialEq, Eq, Structural)]
pub enum Scenario {
    InvalidCredentials,
    Retrieve,
    Listings,
    SetUrl,
}

/// An upload of the teams RED and BLUE.
pub open spec fn upload_of(name: Seq<char>, replay: Replay, token: Seq<char>, pause: u64)
    -> UploadView {
    UploadView { name, replay, red: "RED"@, blue: "BLUE"@, token, pause }
}

/// The name of a scenario.
pub open spec fn scenario_name(scenario: Scenario) -> Seq<char> {
    match scenario {
        Scenario::InvalidCredentials => "Upload with invalid credentials"@,
        Scenario::Retrieve => "Upload demo, then retrieve info"@,
        Scenario::Listings => "Listings"@,
        Scenario::SetUrl => "Set url"@,
    }
}

/// The replay whose file a scenario holds the answers of the service
/// against: the second scenario does so, with the replay that it
/// uploads.
pub open spec fn replay_read(scenario: Scenario) -> Option<Replay> {
    if scenario is Retrieve {
        Some(Replay::Granary)
    } else {
        None
    }
}

/// What a scenario uploads, in this order. Only the first scenario
/// uploads with a token that the service does not know.
pub open spec fn uploads_of(scenario: Scenario) -> Seq<UploadView> {
    match scenario {
        Scenario::InvalidCredentials => seq![
            upload_of("test.dem"@, Replay::Granary, "wrong_token"@, 0),
        ],
        Scenario::Retrieve => seq![upload_of("test.dem"@, Replay::Granary, "token"@, 0)],
        Scenario::Listings => seq![
            upload_of("test1.dem"@, Replay::Granary, "token"@, 0),
            upload_of("test2.dem"@, Replay::Process, "token"@, 1),
            upload_of("test3.dem"@, Replay::Warmfrost, "token"@, 1),
            upload_of("test4.dem"@, Replay::Reconnect, "token"@, 0),
            upload_of("test5.dem"@, Replay::Ultiduo, "token"@, 0),
        ],
        Scenario::SetUrl => seq![upload_of("test.dem"@, Replay::Granary, "token"@, 0)],
    }
}

fn upload(name: &str, replay: Replay, token: &str, pause: u64) -> (upload: Upload)
    ensures
        upload.deep_view() == upload_of(name@, replay, token@, pause),
{
    Upload {
        name: String::from_str(name),
        replay,
        red: String::from_str("RED"),
        blue: String::from_str("BLUE"),
        token: String::from_str(token),
        pause,
    }
}

impl Scenario {
    /// The scenarios, in the order in which they are run.
    pub fn all() -> (all: Vec<Scenario>)
        ensures
            all@ == seq![
                Scenario::InvalidCredentials,
                Scenario::Retrieve,
                Scenario::Listings,
                Scenario::SetUrl,
            ],
    {
        let mut all: Vec<Scenario> = Vec::new();
        all.push(Scenario::InvalidCredentials);
        all.push(Scenario::Retrieve);
        all.push(Scenario::Listings);
        all.push(Scenario::SetUrl);
        assert(all@ =~= seq![
            Scenario::InvalidCredentials,
            Scenario::Retrieve,
            Scenario::Listings,
            Scenario::SetUrl,
        ]);
        all
    }

    /// Whether the service must refuse what the scenario uploads.
    pub fn rejects_upload(&self) -> (rejects: bool)
        ensures
            rejects == (*self is InvalidCredentials),
    {
        match self {
            Scenario::InvalidCredentials => true,
            _ => false,
        }
    }

    /// The replay whose file the scenario holds the answers of the
    /// service against, if it does so with any.
    pub fn reads(&self) -> (replay: Option<Replay>)
        ensures
            replay == replay_read(*self),
    {
        match self {
            Scenario::Retrieve => Some(Replay::Granary),
            _ => None,
        }
    }

    /// The name of the scenario.
    pub fn name(&self) -> (name: String)
        ensures
            name@ == scenario_name(*self),
    {
        match self {
            Scenario::InvalidCredentials => String::from_str("Upload with invalid credentials"),
            Scenario::Retrieve => String::from_str("Upload demo, then retrieve info"),
            Scenario::Listings => String::from_str("Listings"),
            Scenario::SetUrl => String::from_str("Set url"),
        }
    }

    /// What the scenario uploads, in this order.
    pub fn uploads(&self) -> (uploads: Vec<Upload>)
        ensures
            uploads.deep_view() == uploads_of(*self),
    {
        let mut uploads: Vec<Upload> = Vec::new();
        match self {
            Scenario::InvalidCredentials => {
                uploads.push(upload("test.dem", Replay::Granary, "wrong_token", 0));
            },
            Scenario::Retrieve => {
                uploads.push(upload("test.dem", Replay::Granary, "token", 0));
            },
            Scenario::Listings => {
                uploads.push(upload("test1.dem", Replay::Granary, "token", 0));
                uploads.push(upload("test2.dem", Replay::Process, "token", 1));
                uploads.push(upload("test3.dem", Replay::Warmfrost, "token", 1));
                uploads.push(upload("test4.dem", Replay::Reconnect, "token", 0));
                uploads.push(upload("test5.dem", Replay::Ultiduo, "token", 0));
            },
            Scenario::SetUrl => {
                uploads.push(upload("test.dem", Replay::Granary, "token", 0));
            },
        }
        assert(uploads.deep_view() =~= uploads_of(*self));
        uploads
    }
}

/// A request to store a replay elsewhere, as plain text.
pub struct SetUrlView {
    pub id: u32,
    pub backend: Seq<char>,
    pub path: Seq<char>,
    pub url: Seq<char>,
    pub hash: Seq<u8>,
    pub key: Seq<char>,
}

/// A request to store a replay elsewhere: the service takes it only with
/// the hash of the replay and with the key for edits.
#[derive(Clone, Debug)]
pub struct SetUrl {
    pub id: u32,
    pub backend: String,
    pub path: String,
    pub url: String,
    pub hash: [u8; 16],
    pub key: String,
}

impl View for SetUrl {
    type V = SetUrlView;

    open spec fn view(&self) -> SetUrlView {
        SetUrlView {
            id: self.id,
            backend: self.backend@,
            path: self.path@,
            url: self.url@,
            hash: self.hash@,
            key: self.key@,
        }
    }
}

/// The ways in which the last scenario asks to store the replay
/// elsewhere: once as it should, then with a key, a hash and an id that
/// the service must refuse.
#[derive(Clone, Copy, Debug, PartialEq, Eq, Structural)]
pub enum Relocation {
    Valid,
    InvalidKey,
    InvalidHash,
    UnknownDemo,
}

/// A hash that is not the hash of any of the replays: sixteen ones.
pub open spec fn wrong_hash() -> Seq<u8> {
    seq![1u8, 1u8, 1u8, 1u8, 1u8, 1u8, 1u8, 1u8, 1u8, 1u8, 1u8, 1u8, 1u8, 1u8, 1u8, 1u8]
}

/// The request of a relocation, for the replay `id` with the hash `hash`
/// and the key `edit_key`: only the valid one names a place that the
/// replay may end up at, and each of the others is wrong in one thing.
pub open spec fn relocation_request(
    relocation: Relocation,
    id: u32,
    hash: Seq<u8>,
    edit_key: Seq<char>,
) -> SetUrlView {
    SetUrlView {
        id: if relocation is UnknownDemo {
            999999
        } else {
            id
        },
        backend: "example"@,
        path: "somedemo.dem"@,
        url: if relocation is Valid {
            "https://example.com/somedemo.dem"@
        } else {
            "https://invalid.com/somedemo.dem"@
        },
        hash: if relocation is Valid || relocation is InvalidKey {
            hash
        } else {
            wrong_hash()
        },
        key: if relocation is InvalidKey {
            "invalid"@
        } else {
            edit_key
        },
    }
}

/// The refusal that a relocation must meet; none for the valid one.
pub open spec fn relocation_refusal(relocation: Relocation) -> Option<Refusal> {
    match relocation {
        Relocation::Valid => None,
        Relocation::InvalidKey => Some(Refusal::InvalidApiKey),
        Relocation::InvalidHash => Some(Refusal::HashMisMatch),
        Relocation::UnknownDemo => Some(Refusal::NoSuchDemo),
    }
}

/// The name of the step that tries a relocation.
pub open spec fn relocation_name(relocation: Relocation) -> Seq<char> {
    match relocation {
        Relocation::Valid => "set url"@,
        Relocation::InvalidKey => "set url invalid key"@,
        Relocation::InvalidHash => "set url invalid hash"@,
        Relocation::UnknownDemo => "set url of unknown demo"@,
    }
}

/// A relocation is expected to be accepted only where it is asked with
/// the hash of the replay and with the key for edits, for the replay that
/// was uploaded.
pub proof fn lemma_accepted_only_with_hash_and_key(
    relocation: Relocation,
    id: u32,
    hash: Seq<u8>,
    edit_key: Seq<char>,
)
    requires
        id != 999999,
        hash != wrong_hash(),
        edit_key != "invalid"@,
    ensures
        relocation_refusal(relocation) is None <==> {
            &&& relocation_request(relocation, id, hash, edit_key).id == id
            &&& relocation_request(relocation, id, hash, edit_key).hash == hash
            &&& relocation_request(relocation, id, hash, edit_key).key == edit_key
        },
        relocation_refusal(relocation) == Some(Refusal::InvalidApiKey) <==> relocation_request(
            relocation,
            id,
            hash,
            edit_key,
        ).key != edit_key,
        relocation_refusal(relocation) == Some(Refusal::HashMisMatch) ==> relocation_request(
            relocation,
            id,
            hash,
            edit_key,
        ).hash != hash,
{
}

/// What the answer to a relocation yields.
pub open spec fn relocation_verdict(relocation: Relocation, answer: Option<ApiError>) -> Option<
    FailureView,
> {
    match relocation_refusal(relocation) {
        None => acceptance_verdict(answer),
        Some(refusal) => refusal_verdict(answer, refusal, "set url"@),
    }
}

impl Relocation {
    /// The name of the step that tries the relocation.
    pub fn name(&self) -> (name: String)
        ensures
            name@ == relocation_name(*self),
    {
        match self {
            Relocation::Valid => String::from_str("set url"),
            Relocation::InvalidKey => String::from_str("set url invalid key"),
            Relocation::InvalidHash => String::from_str("set url invalid hash"),
            Relocation::UnknownDemo => String::from_str("set url of unknown demo"),
        }
    }

    /// The request of the relocation.
    pub fn request(&self, id: u32, hash: [u8; 16], edit_key: &str) -> (request: SetUrl)
        ensures
            request@ == relocation_request(*self, id, hash@, edit_key@),
    {
        let wrong: [u8; 16] = [1, 1, 1, 1, 1, 1, 1, 1, 1, 1, 1, 1, 1, 1, 1, 1];
        assert(wrong@ =~= wrong_hash());
        let valid = match self {
            Relocation::Valid => true,
            _ => false,
        };
        SetUrl {
            id: match self {
                Relocation::UnknownDemo => 999999,
                _ => id,
            },
            backend: String::from_str("example"),
            path: String::from_str("somedemo.dem"),
            url: if valid {
                String::from_str("https://example.com/somedemo.dem")
            } else {
                String::from_str("https://invalid.com/somedemo.dem")
            },
            hash: match self {
                Relocation::Valid => hash,
                Relocation::InvalidKey => hash,
                _ => wrong,
            },
            key: match self {
                Relocation::InvalidKey => String::from_str("invalid"),
                _ => String::from_str(edit_key),
            },
        }
    }

    /// Holds the answer to the relocation against what is expected of it:
    /// `answer` is the error, or `None` where the service accepted the
    /// request.
    pub fn check(&self, answer: Option<&ApiError>) -> (outcome: Result<(), Failure>)
        ensures
            failure_of(outcome) == relocation_verdict(
                *self,
                match answer {
                    Some(error) => Some(*error),
                    None => None,
                },
            ),
    {
        match self {
            Relocation::Valid => expect_accepted(answer),
            Relocation::InvalidKey => expect_refused(answer, Refusal::InvalidApiKey, "set url"),
            Relocation::InvalidHash => expect_refused(answer, Refusal::HashMisMatch, "set url"),
            Relocation::UnknownDemo => expect_refused(answer, Refusal::NoSuchDemo, "set url"),
        }
    }
}

/// Where the service stores a replay.
#[derive(Clone, Copy, Debug, PartialEq, Eq, Structural)]
pub enum Stored {
    /// Where an upload puts it.
    Uploaded,
    /// Where the valid relocation puts it.
    Moved,
}

/// The place that the service gives to the first upload, or that the
/// valid relocation gives to it.
pub open spec fn place_of(stored: Stored) -> PlaceView {
    match stored {
        Stored::Uploaded => PlaceView {
            url: "https://localhost/ec/68/ec681d1b4846a7e3cb2c129fcbd858ac_test.dem"@,
            backend: "static"@,
        },
        Stored::Moved => PlaceView {
            url: "https://example.com/somedemo.dem"@,
            backend: "example"@,
        },
    }
}

/// What is expected of the first replay, uploaded as `test.dem`: a match
/// of twelve players on `cp_granary_pro_rc8` that the blue team won by
/// one round to none. The place is held against the answer only where one
/// is named.
pub open spec fn granary_summary(stored: Option<Stored>) -> SummaryView {
    SummaryView {
        id: 1,
        name: "test.dem"@,
        map: "cp_granary_pro_rc8"@,
        red_score: 0,
        blue_score: 1,
        player_count: 12,
        place: match stored {
            Some(stored) => Some(place_of(stored)),
            None => None,
        },
    }
}

/// What is expected of the first replay.
pub fn granary(stored: Option<Stored>) -> (summary: Summary)
    ensures
        summary@ == granary_summary(stored),
{
    let place = match stored {
        None => None,
        Some(Stored::Uploaded) => Some(
            Place {
                url: String::from_str(
                    "https://localhost/ec/68/ec681d1b4846a7e3cb2c129fcbd858ac_test.dem",
                ),
                backend: String::from_str("static"),
            },
        ),
        Some(Stored::Moved) => Some(
            Place {
                url: String::from_str("https://example.com/somedemo.dem"),
                backend: String::from_str("example"),
            },
        ),
    };
    Summary {
        id: 1,
        name: String::from_str("test.dem"),
        map: String::from_str("cp_granary_pro_rc8"),
        red_score: 0,
        blue_score: 1,
        player_count: 12,
        place,
    }
}

/// The valid relocation asks for the place at which the replay is
/// expected afterwards.
pub proof fn lemma_moved_where_asked(id: u32, hash: Seq<u8>, edit_key: Seq<char>)
    ensures
        relocation_request(Relocation::Valid, id, hash, edit_key).url == place_of(
            Stored::Moved,
        ).url,
        relocation_request(Relocation::Valid, id, hash, edit_key).backend == place_of(
            Stored::Moved,
        ).backend,
{
}

/// Every upload but that of the first scenario carries the token of the
/// seed user, and that one does not.
pub proof fn lemma_uploads_carry_the_seed_token(scenario: Scenario, at: int)
    requires
        0 <= at < uploads_of(scenario).len(),
    ensures
        uploads_of(scenario)[at].token == seed_token() <==> !(scenario is InvalidCredentials),
{
    assert("wrong_token"@ != "token"@) by {
        reveal_strlit("wrong_token");
        reveal_strlit("token");
        assert("wrong_token"@.len() == 11);
        assert("token"@.len() == 5);
    }
}

/// A scenario reads the file of the replay that it uploads first.
pub proof fn lemma_reads_what_it_uploads(scenario: Scenario)
    ensures
        replay_read(scenario) matches Some(replay) ==> uploads_of(scenario)[0].replay == replay,
{
}

/// What is expected of the first replay is expected of what the
/// scenarios upload first: the replay of the match on granary, under the
/// name that the summary has.
pub proof fn lemma_summary_is_of_the_first_upload(scenario: Scenario, stored: Option<Stored>)
    ensures
        uploads_of(scenario)[0].replay == Replay::Granary,
        !(scenario is Listings) ==> uploads_of(scenario)[0].name == granary_summary(stored).name,
{
}

/// The id of a replay that was never uploaded.
pub const MISSING: u32 = 10;

/// Holds the id that the first upload of a scenario got against the id
/// that the first replay of a fresh store gets.
pub fn check_first_id(id: u32) -> (outcome: Result<(), Failure>)
    ensures
        failure_of(outcome) == compared(id, 1u32),
{
    compare(&id, &1)
}

/// Holds the id that a second upload of the same replay got against the
/// id that the first upload got.
pub fn check_same_id(first: u32, again: u32) -> (outcome: Result<(), Failure>)
    ensures
        failure_of(outcome) == compared(first, again),
{
    compare(&first, &again)
}

/// Holds the answer to the upload with the unknown token against the
/// refusal that is expected.
pub fn check_rejected_upload(answer: Option<&ApiError>) -> (outcome: Result<(), Failure>)
    ensures
        failure_of(outcome) == refusal_verdict(
            match answer {
                Some(error) => Some(*error),
                None => None,
            },
            Refusal::InvalidApiKey,
            "upload"@,
        ),
{
    expect_refused(answer, Refusal::InvalidApiKey, "upload")
}

/// Holds the answer to asking for the replay `MISSING` against the
/// refusal that is expected.
pub fn check_missing(answer: Option<&ApiError>) -> (outcome: Result<(), Failure>)
    ensures
        failure_of(outcome) == refusal_verdict(
            match answer {
                Some(error) => Some(*error),
                None => None,
            },
            Refusal::DemoNotFound(MISSING),
            "set url"@,
        ),
{
    expect_refused(answer, Refusal::DemoNotFound(MISSING), "set url")
}

/// What holding the first replay, as the service describes it, against
/// what is expected of it yields: its summary with the place of an
/// upload, then the replay file itself, then the id of the uploader.
pub open spec fn retrieved_verdict(demo: &Demo, header: &Header, state: &MatchState) -> Option<
    FailureView,
> {
    or_else(
        summary_verdict(demo, granary_summary(Some(Stored::Uploaded))),
        or_else(demo_verdict(demo, header, state), compared(demo.uploader, 1u32)),
    )
}

/// Holds the first replay, as the service describes it, against what is
/// expected of it and against the replay file. `None` where the summary
/// is as expected and the file cannot be held against the answer.
pub fn check_retrieved(demo: &Demo, header: &Header, state: &MatchState) -> (outcome: Option<
    Result<(), Failure>,
>)
    ensures
        outcome is None <==> {
            &&& summary_verdict(demo, granary_summary(Some(Stored::Uploaded))) is None
            &&& !can_verify(demo, header, state)
        },
        outcome matches Some(verdict) ==> failure_of(verdict) == retrieved_verdict(
            demo,
            header,
            state,
        ),
{
    let summary = check_summary(demo, &granary(Some(Stored::Uploaded)));
    if summary.is_err() {
        return Some(summary);
    }
    match try_verify_demo(demo, header, state) {
        None => None,
        Some(verified) => {
            if verified.is_err() {
                return Some(verified);
            }
            Some(compare(&demo.uploader, &1))
        },
    }
}

/// Holds the user who uploaded the first replay against the seed user.
pub fn check_uploader(user: &User) -> (outcome: Result<(), Failure>)
    ensures
        failure_of(outcome) == compared_text(user.name@, seed_name()),
{
    let expected = String::from_str("Icewind");
    compare(&user.name, &expected)
}

/// What holding the first page of the listing of the second scenario
/// against what is expected yields: one replay, with the summary of the
/// first replay, uploaded by the first user.
pub open spec fn first_page_verdict(list: Seq<Demo>) -> Option<FailureView> {
    or_else(
        compared(list.len() as usize, 1usize),
        or_else(summary_verdict(&list[0], granary_summary(None)), compared(list[0].uploader, 1u32)),
    )
}

/// Holds the first page of the listing of the second scenario against
/// what is expected of it.
pub fn check_first_page(list: &[Demo]) -> (outcome: Result<(), Failure>)
    ensures
        failure_of(outcome) == first_page_verdict(list@),
{
    let listed = list.len();
    let length = compare(&listed, &1);
    if length.is_err() {
        return length;
    }
    let summary = check_summary(&list[0], &granary(None));
    if summary.is_err() {
        return summary;
    }
    compare(&list[0].uploader, &1)
}

/// Holds the second page of that listing against what is expected of it:
/// that it is empty.
pub fn check_second_page(list: &[Demo]) -> (outcome: Result<(), Failure>)
    ensures
        failure_of(outcome) == compared(list@.len() as usize, 0usize),
{
    let listed = list.len();
    compare(&listed, &0)
}

/// Holds the score of the player who left the fourth replay and came
/// back against what is expected: 26 kills, 22 assists and 14 deaths,
/// those after the end of the match counted in. `None` where the player
/// is not among `players`.
pub fn check_reconnected(players: &[Player]) -> (outcome: Option<Result<(), Failure>>)
    ensures
        match outcome {
            Some(verdict) => exists|at: int|
                is_first_with(players@, RECONNECTED, at) && failure_of(verdict) == score_verdict(
                    &players@[at],
                    26,
                    22,
                    14,
                ),
            None => forall|at: int|
                0 <= at < players@.len() ==> players@[at].user.steam_id != RECONNECTED,
        },
{
    match find_player(players, RECONNECTED) {
        None => None,
        Some(at) => {
            let verdict = check_score(&players[at], 26, 22, 14);
            assert(is_first_with(players@, RECONNECTED, at as int));
            Some(verdict)
        },
    }
}

/// Holds the first replay, as the service describes it, against its
/// summary with the place at which it is expected.
pub fn check_stored(demo: &Demo, stored: Stored) -> (outcome: Result<(), Failure>)
    ensures
        failure_of(outcome) == summary_verdict(demo, granary_summary(Some(stored))),
{
    check_summary(demo, &granary(Some(stored)))
}

} // verus!
