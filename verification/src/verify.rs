//! Holding an uploaded replay, as the service describes it, against what
//! the replay file itself says.

use crate::api;
use crate::api::{class_of, map_class, map_team, team_of, Demo, Player};
use crate::failure::{
    failure_of, first_failure, lemma_first_failure_is_one_of, lemma_first_failure_none,
    lemma_first_failure_same, lemma_first_failure_stays, or_else, Failure, FailureView,
};
use crate::order::{
    each_is_among, is_among, is_ranking, keys_differ, lemma_order_is_immaterial,
    lemma_ranking_of_few, rank, ranking, taken_in_order,
};
use crate::replay::{
    main_class, never_spawned, plays, ChatMessage, Death, Header, MatchState, Round, Team,
    UserInfo,
};
use crate::report::{check, check_for, checked};
use crate::steam::{account_id, account_of, parsed_steam_id, steam_id_of, SteamId};
use vstd::prelude::*;

verus! {

/// What is left of a count in a byte: its low eight bits.
pub open spec fn low_byte(count: nat) -> u8 {
    (count % 256) as u8
}

/// The rounds that `team` won.
pub open spec fn won_by(team: Team) -> spec_fn(Round) -> bool {
    |round: Round| round.winner == team
}

/// How many rounds `team` won.
pub open spec fn rounds_won(rounds: Seq<Round>, team: Team) -> nat {
    rounds.filter(won_by(team)).len()
}

/// The part that a user has in a kill.
#[derive(Clone, Copy, Debug, PartialEq, Eq, Structural)]
pub enum Part {
    Killer,
    Assister,
    Victim,
}

/// Whether `user` had `part` in the kill.
pub open spec fn took_part(death: Death, user: u16, part: Part) -> bool {
    match part {
        Part::Killer => death.killer == user,
        Part::Assister => death.assister == Some(user),
        Part::Victim => death.victim == user,
    }
}

/// The kills in which `user` had `part`.
pub open spec fn with_part(user: u16, part: Part) -> spec_fn(Death) -> bool {
    |death: Death| took_part(death, user, part)
}

/// In how many kills `user` had `part`.
pub open spec fn tally(deaths: Seq<Death>, user: u16, part: Part) -> nat {
    deaths.filter(with_part(user, part)).len()
}

/// The users who play.
pub open spec fn playing() -> spec_fn(UserInfo) -> bool {
    |user: UserInfo| plays(user.team)
}

/// The players of the match: the users on the red and on the blue team, in
/// the order of the users.
pub open spec fn roster(users: Seq<UserInfo>) -> Seq<UserInfo> {
    users.filter(playing())
}

/// Whether `picked` holds the positions of the players among the users,
/// one after the other.
pub open spec fn picks_roster(picked: Seq<usize>, users: Seq<UserInfo>) -> bool {
    &&& picked.len() == roster(users).len()
    &&& forall|k: int|
        0 <= k < picked.len() ==> {
            &&& 0 <= #[trigger] picked[k] < users.len()
            &&& users[picked[k] as int] == roster(users)[k]
        }
}

/// Whether the steam id of each player of the roster can be read.
pub open spec fn roster_is_read(roster: Seq<UserInfo>) -> bool {
    forall|k: int|
        0 <= k < roster.len() ==> parsed_steam_id((#[trigger] roster[k]).steam_id@) is Some
}

/// The account number that the steam id of a user of the replay stands
/// for.
pub open spec fn account_in_replay(user: UserInfo) -> u32 {
    account_of(parsed_steam_id(user.steam_id@).unwrap())
}

/// The account numbers of the players of the match.
pub open spec fn roster_accounts(roster: Seq<UserInfo>) -> Seq<u32> {
    Seq::new(roster.len(), |k: int| account_in_replay(roster[k]))
}

/// The account numbers of the players that the service lists.
pub open spec fn listed_accounts(players: Seq<Player>) -> Seq<u32> {
    Seq::new(players.len(), |k: int| account_of(players[k].user.steam_id))
}

/// What holding the head of the replay against the answer yields.
pub open spec fn header_verdict(api_result: &Demo, header: &Header, state: &MatchState) -> Option<
    FailureView,
> {
    or_else(
        checked(api_result.map, header.map, "Failed to compare map"@),
        or_else(
            checked(
                api_result.red_score,
                low_byte(rounds_won(state.rounds@, Team::Red)),
                "Failed to compare red score"@,
            ),
            or_else(
                checked(
                    api_result.blue_score,
                    low_byte(rounds_won(state.rounds@, Team::Blue)),
                    "Failed to compare blue score"@,
                ),
                or_else(
                    checked(api_result.server, header.server, "Failed to compare server"@),
                    or_else(
                        checked(api_result.nick, header.nick, "Failed to compare server"@),
                        checked(
                            api_result.duration,
                            header.duration,
                            "Failed to compare server"@,
                        ),
                    ),
                ),
            ),
        ),
    )
}

/// What holding one listed player against one player of the replay yields.
pub open spec fn player_verdict(player: Player, user: UserInfo, deaths: Seq<Death>) -> Option<
    FailureView,
> {
    let name = player.user.name@;
    or_else(
        checked(player.user.name, user.name, "Failed to compare player name for "@ + name),
        or_else(
            checked(
                SteamId(player.user.steam_id),
                SteamId(parsed_steam_id(user.steam_id@).unwrap()),
                "Failed to compare steam id for "@ + name,
            ),
            or_else(
                checked(team_of(player.team), user.team, "Failed to compare team for "@ + name),
                or_else(
                    checked(
                        class_of(player.class),
                        main_class(user.classes@).unwrap(),
                        "Failed to compare class for "@ + name,
                    ),
                    or_else(
                        checked(
                            player.kills,
                            low_byte(tally(deaths, user.user_id, Part::Killer)),
                            "Failed to compare kills for "@ + name,
                        ),
                        or_else(
                            checked(
                                player.assists,
                                low_byte(tally(deaths, user.user_id, Part::Assister)),
                                "Failed to compare assists for "@ + name,
                            ),
                            checked(
                                player.deaths,
                                low_byte(tally(deaths, user.user_id, Part::Victim)),
                                "Failed to compare deaths for "@ + name,
                            ),
                        ),
                    ),
                ),
            ),
        ),
    )
}

/// What holding the listed players against the players of the replay
/// yields, pair by pair, both taken in the order of their account numbers.
pub open spec fn pair_verdict(players: Seq<Player>, roster: Seq<UserInfo>, deaths: Seq<Death>)
    -> spec_fn(int) -> Option<FailureView> {
    |i: int|
        player_verdict(
            players[ranking(listed_accounts(players))[i] as int],
            roster[ranking(roster_accounts(roster))[i] as int],
            deaths,
        )
}

/// What holding the answer against the replay yields: the failure of the
/// first comparison that fails, or nothing where all of them hold.
pub open spec fn demo_verdict(api_result: &Demo, header: &Header, state: &MatchState) -> Option<
    FailureView,
> {
    let players = api_result.players.unwrap()@;
    let roster = roster(state.users@);
    or_else(
        header_verdict(api_result, header, state),
        or_else(
            checked(
                api_result.player_count,
                low_byte(roster.len()),
                "Failed to compare player count"@,
            ),
            or_else(
                checked(
                    players.len() as usize,
                    roster.len() as usize,
                    "Failed to compare player count"@,
                ),
                first_failure(roster.len() as int, pair_verdict(players, roster, state.deaths@)),
            ),
        ),
    )
}

/// Whether a listed player can be held against a user of the replay as
/// far as their comparison goes: the steam id of the user must be
/// readable once the names agree, and the user must have spawned once the
/// steam ids and the teams agree too.
pub open spec fn player_comparable(player: Player, user: UserInfo) -> bool {
    player.user.name@ == user.name@ ==> {
        &&& parsed_steam_id(user.steam_id@) is Some
        &&& (player.user.steam_id == parsed_steam_id(user.steam_id@).unwrap() && team_of(
            player.team,
        ) == user.team) ==> !never_spawned(user.classes@)
    }
}

/// Whether the players of a pair can be held against each other, both
/// sides taken in the order of their account numbers.
pub open spec fn pair_comparable(players: Seq<Player>, roster: Seq<UserInfo>) -> spec_fn(
    int,
) -> bool {
    |i: int|
        player_comparable(
            players[ranking(listed_accounts(players))[i] as int],
            roster[ranking(roster_accounts(roster))[i] as int],
        )
}

/// Whether each pair that the comparison comes to can be compared: each
/// before which no pair fails.
pub open spec fn pairs_comparable(players: Seq<Player>, roster: Seq<UserInfo>, deaths: Seq<Death>)
    -> bool {
    forall|i: int|
        0 <= i < roster.len() && first_failure(i, pair_verdict(players, roster, deaths))
            is None ==> #[trigger] pair_comparable(players, roster)(i)
}

/// Whether the answer can be held against the replay as far as the
/// comparison goes. Nothing more is needed where the head fails. Else
/// the steam ids of the players of the replay are read to put them in
/// order, where there are two of them or more; the answer must list its
/// players; and where the numbers of players agree, each pair that the
/// comparison comes to must be comparable.
pub open spec fn can_verify(api_result: &Demo, header: &Header, state: &MatchState) -> bool {
    let roster = roster(state.users@);
    header_verdict(api_result, header, state) is None ==> {
        &&& roster.len() >= 2 ==> roster_is_read(roster)
        &&& api_result.players is Some
        &&& (api_result.player_count == low_byte(roster.len())
            && api_result.players.unwrap()@.len() as usize == roster.len() as usize)
            ==> pairs_comparable(api_result.players.unwrap()@, roster, state.deaths@)
    }
}

/// The answer agrees with the replay exactly when the head agrees, the
/// number of players agrees both ways, and each pair of players agrees.
pub proof fn lemma_demo_passes_when_all_agree(
    api_result: &Demo,
    header: &Header,
    state: &MatchState,
)
    ensures
        demo_verdict(api_result, header, state) is None <==> {
            &&& header_verdict(api_result, header, state) is None
            &&& api_result.player_count == low_byte(roster(state.users@).len())
            &&& api_result.players.unwrap()@.len() as usize == roster(state.users@).len() as usize
            &&& forall|i: int|
                0 <= i < roster(state.users@).len() ==> (#[trigger] pair_verdict(
                    api_result.players.unwrap()@,
                    roster(state.users@),
                    state.deaths@,
                )(i)) is None
        },
{
    lemma_first_failure_none(
        roster(state.users@).len() as int,
        pair_verdict(api_result.players.unwrap()@, roster(state.users@), state.deaths@),
    );
}

/// A failure of a player names what was compared, and for whom.
pub proof fn lemma_player_failure_names_its_comparison(
    player: Player,
    user: UserInfo,
    deaths: Seq<Death>,
)
    ensures
        player_verdict(player, user, deaths) matches Some(failure) ==> failure.context.len() == 1,
{
}

/// Every failure of holding an answer against a replay names what was
/// compared: it has one context, around the two values that differ.
pub proof fn lemma_demo_failure_names_its_comparison(
    api_result: &Demo,
    header: &Header,
    state: &MatchState,
)
    ensures
        demo_verdict(api_result, header, state) matches Some(failure) ==> failure.context.len()
            == 1,
{
    let players = api_result.players.unwrap()@;
    let roster = roster(state.users@);
    let pairs = pair_verdict(players, roster, state.deaths@);
    if first_failure(roster.len() as int, pairs) is Some {
        let at = lemma_first_failure_is_one_of(roster.len() as int, pairs);
        lemma_player_failure_names_its_comparison(
            players[ranking(listed_accounts(players))[at] as int],
            roster[ranking(roster_accounts(roster))[at] as int],
            state.deaths@,
        );
    }
}

/// Whether two lists hold the same players, in whatever order, and no
/// two players of a list have one account number.
pub open spec fn same_players(players: Seq<Player>, others: Seq<Player>) -> bool {
    &&& players.len() == others.len()
    &&& keys_differ(listed_accounts(players))
    &&& keys_differ(listed_accounts(others))
    &&& each_is_among(players, listed_accounts(players), others, listed_accounts(others))
    &&& each_is_among(others, listed_accounts(others), players, listed_accounts(players))
}

/// Whether two rosters hold the same users, in whatever order, and no
/// two users of a roster have one account number.
pub open spec fn same_roster(roster: Seq<UserInfo>, others: Seq<UserInfo>) -> bool {
    &&& roster.len() == others.len()
    &&& keys_differ(roster_accounts(roster))
    &&& keys_differ(roster_accounts(others))
    &&& each_is_among(roster, roster_accounts(roster), others, roster_accounts(others))
    &&& each_is_among(others, roster_accounts(others), roster, roster_accounts(roster))
}

/// The order in which the service lists the players, and the order in
/// which the replay lists them, do not matter where the account numbers
/// tell the players apart: the players are paired in the same way, and
/// the outcome is the same.
pub proof fn lemma_order_of_players_is_immaterial(
    players: Seq<Player>,
    other_players: Seq<Player>,
    roster: Seq<UserInfo>,
    other_roster: Seq<UserInfo>,
    deaths: Seq<Death>,
)
    requires
        same_players(players, other_players),
        same_roster(roster, other_roster),
        players.len() <= usize::MAX,
        roster.len() <= usize::MAX,
        roster.len() <= players.len(),
    ensures
        first_failure(roster.len() as int, pair_verdict(players, roster, deaths)) == first_failure(
            roster.len() as int,
            pair_verdict(other_players, other_roster, deaths),
        ),
{
    lemma_order_is_immaterial(
        players,
        listed_accounts(players),
        other_players,
        listed_accounts(other_players),
    );
    lemma_order_is_immaterial(
        roster,
        roster_accounts(roster),
        other_roster,
        roster_accounts(other_roster),
    );
    let pairs = pair_verdict(players, roster, deaths);
    let other_pairs = pair_verdict(other_players, other_roster, deaths);
    assert forall|i: int| 0 <= i < roster.len() implies #[trigger] pairs(i) == other_pairs(i) by {
        assert(taken_in_order(players, listed_accounts(players))[i] == taken_in_order(
            other_players,
            listed_accounts(other_players),
        )[i]);
        assert(taken_in_order(roster, roster_accounts(roster))[i] == taken_in_order(
            other_roster,
            roster_accounts(other_roster),
        )[i]);
    }
    lemma_first_failure_same(roster.len() as int, pairs, other_pairs);
}

/// The order in which the service lists the players of a replay does
/// not change the outcome, where the account numbers tell them apart.
pub proof fn lemma_order_of_listing_is_immaterial(
    api_result: &Demo,
    other: &Demo,
    header: &Header,
    state: &MatchState,
)
    requires
        api_result.players is Some,
        other.players is Some,
        *other == (Demo { players: other.players, ..*api_result }),
        same_players(api_result.players.unwrap()@, other.players.unwrap()@),
        keys_differ(roster_accounts(roster(state.users@))),
    ensures
        demo_verdict(api_result, header, state) == demo_verdict(other, header, state),
{
    let players = api_result.players.unwrap()@;
    let other_players = other.players.unwrap()@;
    let roster = roster(state.users@);
    assert(players.len() == api_result.players.unwrap().len());
    assert(roster.len() <= state.users.len()) by {
        state.users@.lemma_filter_len(playing());
    }
    assert forall|k: int| 0 <= k < roster.len() implies #[trigger] is_among(
        roster[k],
        roster_accounts(roster)[k],
        roster,
        roster_accounts(roster),
    ) by {
        assert(roster[k] == roster[k] && roster_accounts(roster)[k] == roster_accounts(roster)[k]);
    }
    if players.len() as usize == roster.len() as usize {
        lemma_order_of_players_is_immaterial(players, other_players, roster, roster, state.deaths@);
    }
}

/// What is left of a count in a byte.
fn low(count: usize) -> (byte: u8)
    ensures
        byte == low_byte(count as nat),
{
    (count % 256) as u8
}

/// Counts the rounds that `team` won.
pub fn count_rounds_won(rounds: &Vec<Round>, team: Team) -> (count: usize)
    ensures
        count == rounds_won(rounds@, team),
{
    let mut count: usize = 0;
    let mut at: usize = 0;
    proof {
        reveal(Seq::filter);
        assert(rounds@.take(0).filter(won_by(team)).len() == 0);
    }
    while at < rounds.len()
        invariant
            at <= rounds.len(),
            count <= at,
            count == rounds@.take(at as int).filter(won_by(team)).len(),
        decreases rounds.len() - at,
    {
        proof {
            reveal(Seq::filter);
            let next = rounds@.take(at + 1);
            assert(next.drop_last() =~= rounds@.take(at as int));
            assert(next.last() == rounds@[at as int]);
        }
        if rounds[at].winner == team {
            count = count + 1;
        }
        at = at + 1;
    }
    proof {
        assert(rounds@.take(at as int) =~= rounds@);
    }
    count
}

/// Counts the kills in which `user` had `part`.
pub fn count_part(deaths: &Vec<Death>, user: u16, part: Part) -> (count: usize)
    ensures
        count == tally(deaths@, user, part),
{
    let mut count: usize = 0;
    let mut at: usize = 0;
    proof {
        reveal(Seq::filter);
        assert(deaths@.take(0).filter(with_part(user, part)).len() == 0);
    }
    while at < deaths.len()
        invariant
            at <= deaths.len(),
            count <= at,
            count == deaths@.take(at as int).filter(with_part(user, part)).len(),
        decreases deaths.len() - at,
    {
        proof {
            reveal(Seq::filter);
            let next = deaths@.take(at + 1);
            assert(next.drop_last() =~= deaths@.take(at as int));
            assert(next.last() == deaths@[at as int]);
        }
        let death = &deaths[at];
        let took = match part {
            Part::Killer => death.killer == user,
            Part::Assister => match death.assister {
                Some(assister) => assister == user,
                None => false,
            },
            Part::Victim => death.victim == user,
        };
        if took {
            count = count + 1;
        }
        at = at + 1;
    }
    proof {
        assert(deaths@.take(at as int) =~= deaths@);
    }
    count
}

/// The positions of the users who play, in ascending order: each of them
/// once, and no other. The user at the `k`-th of them is the `k`-th player
/// of the roster.
pub fn players_of(users: &Vec<UserInfo>) -> (picked: Vec<usize>)
    ensures
        picks_roster(picked@, users@),
        forall|k: int| 0 <= k < picked@.len() ==> plays(roster(users@)[k].team),
        forall|k: int, l: int| 0 <= k < l < picked@.len() ==> picked@[k] < picked@[l],
        forall|i: int|
            0 <= i < users@.len() ==> (plays((#[trigger] users@[i]).team) <==> picked@.contains(
                i as usize,
            )),
{
    let mut picked: Vec<usize> = Vec::new();
    let mut at: usize = 0;
    proof {
        reveal(Seq::filter);
        assert(users@.take(0).filter(playing()).len() == 0);
    }
    while at < users.len()
        invariant
            at <= users.len(),
            picked@.len() == users@.take(at as int).filter(playing()).len(),
            forall|k: int|
                0 <= k < picked@.len() ==> 0 <= #[trigger] picked@[k] < at && users@[picked@[k] as int]
                    == users@.take(at as int).filter(playing())[k],
            forall|k: int|
                0 <= k < picked@.len() ==> plays(
                    (#[trigger] users@.take(at as int).filter(playing())[k]).team,
                ),
            forall|k: int, l: int| 0 <= k < l < picked@.len() ==> picked@[k] < picked@[l],
            forall|i: int|
                0 <= i < at ==> (plays((#[trigger] users@[i]).team) <==> picked@.contains(
                    i as usize,
                )),
        decreases users.len() - at,
    {
        proof {
            reveal(Seq::filter);
            let next = users@.take(at + 1);
            assert(next.drop_last() =~= users@.take(at as int));
            assert(next.last() == users@[at as int]);
        }
        let ghost before = picked@;
        if users[at].team.is_player() {
            picked.push(at);
            proof {
                assert(picked@[before.len() as int] == at);
                assert forall|i: int| 0 <= i < at + 1 implies (plays((#[trigger] users@[i]).team)
                    <==> picked@.contains(i as usize)) by {
                    if i < at {
                        if before.contains(i as usize) {
                            let k = choose|k: int| 0 <= k < before.len() && before[k] == i as usize;
                            assert(picked@[k] == i as usize);
                        }
                        if picked@.contains(i as usize) {
                            let k = choose|k: int| 0 <= k < picked@.len() && picked@[k] == i as usize;
                            assert(before[k] == i as usize);
                        }
                    }
                }
            }
        } else {
            proof {
                assert forall|i: int| 0 <= i < at + 1 implies (plays((#[trigger] users@[i]).team)
                    <==> picked@.contains(i as usize)) by {
                    if i == at && picked@.contains(i as usize) {
                        let k = choose|k: int| 0 <= k < picked@.len() && picked@[k] == i as usize;
                        assert(picked@[k] < at);
                    }
                }
            }
        }
        at = at + 1;
    }
    proof {
        assert(users@.take(at as int) =~= users@);
    }
    picked
}

/// Holds the head of the replay against the answer: the map, the scores,
/// the server, the nick and the duration.
pub fn verify_header(api_result: &Demo, header: &Header, state: &MatchState) -> (outcome: Result<
    (),
    Failure,
>)
    ensures
        failure_of(outcome) == header_verdict(api_result, header, state),
{
    let map = check(&api_result.map, &header.map, "Failed to compare map");
    if map.is_err() {
        return map;
    }
    let red = low(count_rounds_won(&state.rounds, Team::Red));
    let red_score = check(&api_result.red_score, &red, "Failed to compare red score");
    if red_score.is_err() {
        return red_score;
    }
    let blue = low(count_rounds_won(&state.rounds, Team::Blue));
    let blue_score = check(&api_result.blue_score, &blue, "Failed to compare blue score");
    if blue_score.is_err() {
        return blue_score;
    }
    let server = check(&api_result.server, &header.server, "Failed to compare server");
    if server.is_err() {
        return server;
    }
    let nick = check(&api_result.nick, &header.nick, "Failed to compare server");
    if nick.is_err() {
        return nick;
    }
    check(&api_result.duration, &header.duration, "Failed to compare server")
}

/// Holds one listed player against one player of the replay: the name,
/// the steam id, the team, the class played most, and the kills, assists
/// and deaths counted from the kills of the replay. The first that
/// differs ends it. `None` where it comes to the steam id and that of
/// the user cannot be read, or to the class and the user never spawned.
pub fn try_verify_player(player: &Player, user: &UserInfo, deaths: &Vec<Death>) -> (outcome: Option<
    Result<(), Failure>,
>)
    ensures
        outcome is Some <==> player_comparable(*player, *user),
        outcome matches Some(verdict) ==> failure_of(verdict) == player_verdict(
            *player,
            *user,
            deaths@,
        ),
{
    let called = player.user.name.as_str();
    let name = check_for(&player.user.name, &user.name, "Failed to compare player name for ", called);
    if name.is_err() {
        return Some(name);
    }
    let listed = SteamId(player.user.steam_id);
    let found = match steam_id_of(user.steam_id.as_str()) {
        Some(steam_id) => SteamId(steam_id),
        None => {
            return None;
        },
    };
    let id = check_for(&listed, &found, "Failed to compare steam id for ", called);
    if id.is_err() {
        return Some(id);
    }
    let team = check_for(&map_team(player.team), &user.team, "Failed to compare team for ", called);
    if team.is_err() {
        return Some(team);
    }
    let played = match user.main_class() {
        Some(class) => class,
        None => {
            return None;
        },
    };
    let class = check_for(&map_class(player.class), &played, "Failed to compare class for ", called);
    if class.is_err() {
        return Some(class);
    }
    let killed = low(count_part(deaths, user.user_id, Part::Killer));
    let kills = check_for(&player.kills, &killed, "Failed to compare kills for ", called);
    if kills.is_err() {
        return Some(kills);
    }
    let assisted = low(count_part(deaths, user.user_id, Part::Assister));
    let assists = check_for(&player.assists, &assisted, "Failed to compare assists for ", called);
    if assists.is_err() {
        return Some(assists);
    }
    let died = low(count_part(deaths, user.user_id, Part::Victim));
    Some(check_for(&player.deaths, &died, "Failed to compare deaths for ", called))
}

/// Holds one listed player against one player of the replay, where the
/// two can be compared.
pub fn verify_player(player: &Player, user: &UserInfo, deaths: &Vec<Death>) -> (outcome: Result<
    (),
    Failure,
>)
    requires
        player_comparable(*player, *user),
    ensures
        failure_of(outcome) == player_verdict(*player, *user, deaths@),
{
    try_verify_player(player, user, deaths).unwrap()
}

/// The order in which the players at the positions `picked` are taken: by
/// their account numbers. Fewer than two are in order as they are, and
/// no steam id is read. `None` where there are two or more, and the
/// steam id of one cannot be read.
fn order_of_roster(users: &Vec<UserInfo>, picked: &Vec<usize>) -> (order: Option<Vec<usize>>)
    requires
        picks_roster(picked@, users@),
    ensures
        order is Some <==> (picked@.len() >= 2 ==> roster_is_read(roster(users@))),
        order matches Some(order) ==> {
            &&& order@ == ranking(roster_accounts(roster(users@)))
            &&& is_ranking(order@, roster_accounts(roster(users@)))
        },
{
    if picked.len() < 2 {
        let mut order: Vec<usize> = Vec::new();
        if picked.len() == 1 {
            order.push(0);
        }
        proof {
            let accounts = roster_accounts(roster(users@));
            lemma_ranking_of_few(accounts);
            assert(order@ =~= Seq::new(accounts.len(), |i: int| i as usize));
        }
        return Some(order);
    }
    let mut accounts: Vec<u32> = Vec::new();
    let mut at: usize = 0;
    while at < picked.len()
        invariant
            at <= picked@.len(),
            picked@.len() >= 2,
            picks_roster(picked@, users@),
            accounts@.len() == at,
            forall|k: int|
                0 <= k < at ==> parsed_steam_id((#[trigger] roster(users@)[k]).steam_id@) is Some,
            forall|k: int|
                0 <= k < at ==> #[trigger] accounts@[k] == account_in_replay(roster(users@)[k]),
        decreases picked@.len() - at,
    {
        let user = &users[picked[at]];
        assert(*user == roster(users@)[at as int]);
        match steam_id_of(user.steam_id.as_str()) {
            Some(steam_id) => {
                accounts.push(account_id(steam_id));
            },
            None => {
                assert(parsed_steam_id(roster(users@)[at as int].steam_id@) is None);
                return None;
            },
        }
        at = at + 1;
    }
    assert(accounts@ =~= roster_accounts(roster(users@)));
    Some(rank(&accounts))
}

/// The account numbers of the listed players.
fn accounts_listed(players: &Vec<Player>) -> (accounts: Vec<u32>)
    ensures
        accounts@ == listed_accounts(players@),
{
    let mut accounts: Vec<u32> = Vec::new();
    let mut at: usize = 0;
    while at < players.len()
        invariant
            at <= players@.len(),
            accounts@.len() == at,
            forall|k: int|
                0 <= k < at ==> #[trigger] accounts@[k] == account_of(players@[k].user.steam_id),
        decreases players@.len() - at,
    {
        accounts.push(account_id(players[at].user.steam_id));
        at = at + 1;
    }
    assert(accounts@ =~= listed_accounts(players@));
    accounts
}

/// Holds what the service says of an uploaded replay against the replay
/// itself, as far as that can be done. The head comes first, then the
/// number of players, then the players pair by pair, both sides taken in
/// the order of their account numbers. The first comparison that fails
/// ends it. `None` where the comparison comes to something that is not
/// there: the players of the answer, a steam id that cannot be read, the
/// class of a user who never spawned.
pub fn try_verify_demo(api_result: &Demo, header: &Header, state: &MatchState) -> (outcome: Option<
    Result<(), Failure>,
>)
    ensures
        outcome is Some <==> can_verify(api_result, header, state),
        outcome matches Some(verdict) ==> failure_of(verdict) == demo_verdict(
            api_result,
            header,
            state,
        ),
{
    let head = verify_header(api_result, header, state);
    if head.is_err() {
        return Some(head);
    }
    let picked = players_of(&state.users);
    let order = match order_of_roster(&state.users, &picked) {
        Some(order) => order,
        None => {
            return None;
        },
    };
    let api_players = match api_result.players.as_ref() {
        Some(players) => players,
        None => {
            return None;
        },
    };
    let api_order = rank(&accounts_listed(api_players));

    let players = low(picked.len());
    let count = check(&api_result.player_count, &players, "Failed to compare player count");
    if count.is_err() {
        return Some(count);
    }
    let listed = api_players.len();
    let found = picked.len();
    let length = check(&listed, &found, "Failed to compare player count");
    if length.is_err() {
        return Some(length);
    }
    let ghost pairs = pair_verdict(api_players@, roster(state.users@), state.deaths@);
    let ghost comparable = pair_comparable(api_players@, roster(state.users@));
    let mut at: usize = 0;
    while at < picked.len()
        invariant
            at <= picked@.len(),
            api_players@.len() == picked@.len(),
            picks_roster(picked@, state.users@),
            picked@.len() >= 2 ==> roster_is_read(roster(state.users@)),
            order@ == ranking(roster_accounts(roster(state.users@))),
            is_ranking(order@, roster_accounts(roster(state.users@))),
            api_order@ == ranking(listed_accounts(api_players@)),
            is_ranking(api_order@, listed_accounts(api_players@)),
            pairs == pair_verdict(api_players@, roster(state.users@), state.deaths@),
            comparable == pair_comparable(api_players@, roster(state.users@)),
            first_failure(at as int, pairs) is None,
            forall|i: int| 0 <= i < at ==> #[trigger] comparable(i),
            api_result.players == Some(*api_players),
            header_verdict(api_result, header, state) is None,
            api_result.player_count == low_byte(roster(state.users@).len()),
            api_players@.len() as usize == roster(state.users@).len() as usize,
        decreases picked@.len() - at,
    {
        let player = &api_players[api_order[at]];
        let spot = order[at];
        let user = &state.users[picked[spot]];
        assert(*user == roster(state.users@)[spot as int]);
        let pair = match try_verify_player(player, user, &state.deaths) {
            Some(pair) => pair,
            None => {
                assert(!comparable(at as int));
                return None;
            },
        };
        assert(comparable(at as int));
        assert(failure_of(pair) == pairs(at as int));
        if pair.is_err() {
            proof {
                lemma_first_failure_stays(at + 1, picked@.len() as int, pairs);
                assert forall|i: int|
                    0 <= i < picked@.len() && first_failure(i, pairs) is None implies #[trigger] comparable(
                    i,
                ) by {
                    if i > at {
                        lemma_first_failure_stays(at + 1, i, pairs);
                    }
                }
            }
            return Some(pair);
        }
        at = at + 1;
    }
    Some(Ok(()))
}

/// Holds what the service says of an uploaded replay against the replay
/// itself, where that can be done. The head comes first, then the number
/// of players, then the players pair by pair, both sides taken in the
/// order of their account numbers. The first comparison that fails ends
/// it.
pub fn verify_demo(api_result: &Demo, header: &Header, state: &MatchState) -> (outcome: Result<
    (),
    Failure,
>)
    requires
        can_verify(api_result, header, state),
    ensures
        failure_of(outcome) == demo_verdict(api_result, header, state),
{
    try_verify_demo(api_result, header, state).unwrap()
}

/// The ticks at which the lines of chat were said.
pub open spec fn ticks(chat: Seq<ChatMessage>) -> Seq<u32> {
    Seq::new(chat.len(), |k: int| chat[k].tick)
}

/// What holding one listed line of chat against one line of the replay
/// yields.
pub open spec fn line_verdict(listed: api::ChatMessage, said: ChatMessage) -> Option<FailureView> {
    or_else(
        checked(listed.message, said.text, "Failed to compare chat message"@),
        checked(listed.user, said.from, "Failed to compare chat message sender"@),
    )
}

/// What holding the listed lines against the lines of the replay yields,
/// line by line, the lines of the replay taken in the order of their ticks.
pub open spec fn said_verdict(chat: Seq<api::ChatMessage>, said: Seq<ChatMessage>) -> spec_fn(
    int,
) -> Option<FailureView> {
    |i: int| line_verdict(chat[i], said[ranking(ticks(said))[i] as int])
}

/// What holding the listed chat against the chat of the replay yields: the
/// failure of the first comparison that fails, or nothing.
pub open spec fn chat_verdict(chat: Seq<api::ChatMessage>, state: &MatchState) -> Option<
    FailureView,
> {
    or_else(
        checked(
            chat.len() as usize,
            state.chat@.len() as usize,
            "Failed to compare number of chat messages"@,
        ),
        first_failure(state.chat@.len() as int, said_verdict(chat, state.chat@)),
    )
}

/// The listed chat agrees with the chat of the replay exactly when both
/// have as many lines and each line agrees with the line at its place in
/// the order of the ticks.
pub proof fn lemma_chat_passes_when_all_agree(chat: Seq<api::ChatMessage>, state: &MatchState)
    ensures
        chat_verdict(chat, state) is None <==> {
            &&& chat.len() as usize == state.chat@.len() as usize
            &&& forall|i: int|
                0 <= i < state.chat@.len() ==> (#[trigger] said_verdict(chat, state.chat@)(i))
                    is None
        },
{
    lemma_first_failure_none(state.chat@.len() as int, said_verdict(chat, state.chat@));
}

/// The ticks of the lines of chat.
fn ticks_of(chat: &Vec<ChatMessage>) -> (found: Vec<u32>)
    ensures
        found@ == ticks(chat@),
{
    let mut found: Vec<u32> = Vec::new();
    let mut at: usize = 0;
    while at < chat.len()
        invariant
            at <= chat@.len(),
            found@.len() == at,
            forall|k: int| 0 <= k < at ==> #[trigger] found@[k] == chat@[k].tick,
        decreases chat@.len() - at,
    {
        found.push(chat[at].tick);
        at = at + 1;
    }
    assert(found@ =~= ticks(chat@));
    found
}

/// Holds the chat that the service lists against the chat of the replay:
/// first the number of lines, then line by line the text and the sender,
/// the lines of the replay taken in the order of their ticks, lines of one
/// tick in the order they have in the replay. The first comparison that
/// fails ends it.
pub fn verify_chat(chat: &[api::ChatMessage], state: &MatchState) -> (outcome: Result<(), Failure>)
    ensures
        failure_of(outcome) == chat_verdict(chat@, state),
{
    let listed = chat.len();
    let found = state.chat.len();
    let length = check(&listed, &found, "Failed to compare number of chat messages");
    if length.is_err() {
        return length;
    }
    let order = rank(&ticks_of(&state.chat));
    let ghost lines = said_verdict(chat@, state.chat@);
    let mut at: usize = 0;
    while at < chat.len()
        invariant
            at <= chat@.len(),
            chat@.len() == state.chat@.len(),
            order@ == ranking(ticks(state.chat@)),
            is_ranking(order@, ticks(state.chat@)),
            lines == said_verdict(chat@, state.chat@),
            first_failure(at as int, lines) is None,
            checked(
                chat@.len() as usize,
                state.chat@.len() as usize,
                "Failed to compare number of chat messages"@,
            ) is None,
        decreases chat@.len() - at,
    {
        let said = &state.chat[order[at]];
        let text = check(&chat[at].message, &said.text, "Failed to compare chat message");
        if text.is_err() {
            proof {
                assert(failure_of(text) == lines(at as int));
                lemma_first_failure_stays(at + 1, chat@.len() as int, lines);
            }
            return text;
        }
        let sender = check(&chat[at].user, &said.from, "Failed to compare chat message sender");
        if sender.is_err() {
            proof {
                assert(failure_of(sender) == lines(at as int));
                lemma_first_failure_stays(at + 1, chat@.len() as int, lines);
            }
            return sender;
        }
        assert(lines(at as int) is None);
        at = at + 1;
    }
    Ok(())
}

} // verus!
