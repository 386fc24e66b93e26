use api_test::api::{Class, Demo, Player, Team, User};
use api_test::replay::{Death, Header, MatchState, Round, UserInfo};
use api_test::verify::{
    count_part, count_rounds_won, players_of, try_verify_demo, try_verify_player, verify_demo,
    verify_header, verify_player, Part,
};

const ALICE: u64 = 76561197960265828;
const BOB: u64 = 76561197960265778;

fn spawns(class: usize, count: u16) -> [u16; 10] {
    let mut classes = [0u16; 10];
    classes[class] = count;
    classes
}

fn header() -> Header {
    Header {
        server: String::from("match.tf"),
        nick: String::from("SourceTV"),
        map: String::from("cp_granary_pro_rc8"),
        duration: 1800,
    }
}

fn state() -> MatchState {
    MatchState {
        chat: vec![],
        users: vec![
            UserInfo {
                classes: [0; 10],
                name: String::from("carol"),
                user_id: 1,
                steam_id: String::from("BOT"),
                team: api_test::replay::Team::Spectator,
            },
            UserInfo {
                classes: spawns(1, 3),
                name: String::from("alice"),
                user_id: 2,
                steam_id: String::from("[U:1:100]"),
                team: api_test::replay::Team::Red,
            },
            UserInfo {
                classes: [0, 0, 0, 2, 0, 2, 0, 0, 0, 0],
                name: String::from("bob"),
                user_id: 3,
                steam_id: String::from("STEAM_0:0:25"),
                team: api_test::replay::Team::Blue,
            },
        ],
        deaths: vec![
            Death { victim: 3, assister: None, killer: 2 },
            Death { victim: 3, assister: Some(3), killer: 2 },
            Death { victim: 2, assister: None, killer: 3 },
            Death { victim: 1, assister: Some(2), killer: 3 },
        ],
        rounds: vec![
            Round { winner: api_test::replay::Team::Blue },
            Round { winner: api_test::replay::Team::Other },
        ],
    }
}

fn player(name: &str, steam_id: u64, team: Team, class: Class, score: (u8, u8, u8)) -> Player {
    Player {
        player_id: 0,
        user: User { id: 0, steam_id, name: String::from(name) },
        team,
        class,
        kills: score.0,
        assists: score.1,
        deaths: score.2,
    }
}

fn demo() -> Demo {
    Demo {
        id: 1,
        url: String::from("https://localhost/test.dem"),
        name: String::from("test.dem"),
        server: String::from("match.tf"),
        duration: 1800,
        nick: String::from("SourceTV"),
        map: String::from("cp_granary_pro_rc8"),
        time: 1600000000,
        red: String::from("RED"),
        blue: String::from("BLUE"),
        red_score: 0,
        blue_score: 1,
        player_count: 2,
        uploader: 1,
        hash: [0; 16],
        backend: String::from("static"),
        path: String::from("/test.dem"),
        players: Some(vec![
            player("alice", ALICE, Team::Red, Class::Scout, (2, 1, 1)),
            player("bob", BOB, Team::Blue, Class::Soldier, (2, 1, 2)),
        ]),
    }
}

fn failure_of(demo: &Demo, header: &Header, state: &MatchState) -> (Vec<String>, String) {
    let failure = verify_demo(demo, header, state).unwrap_err();
    (failure.context, failure.message)
}

fn expect(context: &str, message: &str) -> (Vec<String>, String) {
    (vec![String::from(context)], String::from(message))
}

#[test]
fn an_answer_that_agrees_with_the_replay_passes() {
    assert!(verify_demo(&demo(), &header(), &state()).is_ok());
    assert!(matches!(try_verify_demo(&demo(), &header(), &state()), Some(Ok(()))));
}

#[test]
fn the_players_are_paired_by_account_whatever_their_order() {
    let mut listed = demo();
    listed.players.as_mut().unwrap().reverse();
    assert!(verify_demo(&listed, &header(), &state()).is_ok());
    let mut replay = state();
    replay.users.reverse();
    assert!(verify_demo(&demo(), &header(), &replay).is_ok());
}

#[test]
fn the_map_is_compared_first() {
    let mut listed = demo();
    listed.map = String::from("cp_process");
    listed.red_score = 9;
    assert_eq!(
        failure_of(&listed, &header(), &state()),
        expect(
            "Failed to compare map",
            "Failed asserting that \"cp_process\" equals \"cp_granary_pro_rc8\""
        )
    );
}

#[test]
fn the_scores_are_the_rounds_won() {
    let mut listed = demo();
    listed.red_score = 1;
    listed.blue_score = 0;
    assert_eq!(
        failure_of(&listed, &header(), &state()),
        expect("Failed to compare red score", "Failed asserting that 1 equals 0")
    );
    listed.red_score = 0;
    assert_eq!(
        failure_of(&listed, &header(), &state()),
        expect("Failed to compare blue score", "Failed asserting that 0 equals 1")
    );
}

#[test]
fn the_scores_are_counted_in_a_byte() {
    let mut replay = state();
    replay.rounds = vec![Round { winner: api_test::replay::Team::Red }; 257];
    let mut listed = demo();
    listed.red_score = 1;
    listed.blue_score = 0;
    assert!(verify_demo(&listed, &header(), &replay).is_ok());
    assert_eq!(count_rounds_won(&replay.rounds, api_test::replay::Team::Red), 257);
    assert_eq!(count_rounds_won(&replay.rounds, api_test::replay::Team::Blue), 0);
}

#[test]
fn the_server_the_nick_and_the_duration_fail_under_one_context() {
    let mut listed = demo();
    listed.server = String::from("other.tf");
    assert_eq!(
        failure_of(&listed, &header(), &state()),
        expect(
            "Failed to compare server",
            "Failed asserting that \"other.tf\" equals \"match.tf\""
        )
    );
    let mut listed = demo();
    listed.nick = String::from("STV");
    assert_eq!(
        failure_of(&listed, &header(), &state()),
        expect("Failed to compare server", "Failed asserting that \"STV\" equals \"SourceTV\"")
    );
    let mut listed = demo();
    listed.duration = 1799;
    assert_eq!(
        failure_of(&listed, &header(), &state()),
        expect("Failed to compare server", "Failed asserting that 1799 equals 1800")
    );
    assert_eq!(
        verify_header(&listed, &header(), &state()).unwrap_err().message,
        "Failed asserting that 1799 equals 1800"
    );
}

#[test]
fn the_head_passes_without_a_look_at_the_players() {
    let mut listed = demo();
    listed.players = None;
    listed.player_count = 200;
    assert!(verify_header(&listed, &header(), &state()).is_ok());
}

#[test]
fn the_number_of_players_is_compared_twice() {
    let mut listed = demo();
    listed.player_count = 3;
    assert_eq!(
        failure_of(&listed, &header(), &state()),
        expect("Failed to compare player count", "Failed asserting that 3 equals 2")
    );
    let mut listed = demo();
    listed.players.as_mut().unwrap().pop();
    assert_eq!(
        failure_of(&listed, &header(), &state()),
        expect("Failed to compare player count", "Failed asserting that 1 equals 2")
    );
}

#[test]
fn spectators_are_no_players() {
    assert_eq!(players_of(&state().users), vec![1, 2]);
    let mut replay = state();
    replay.users[0].team = api_test::replay::Team::Other;
    assert_eq!(players_of(&replay.users), vec![1, 2]);
    assert!(players_of(&vec![]).is_empty());
}

#[test]
fn the_name_of_a_player_is_compared_first() {
    let mut listed = demo();
    listed.players.as_mut().unwrap()[1].user.name = String::from("bobby");
    listed.players.as_mut().unwrap()[1].kills = 99;
    assert_eq!(
        failure_of(&listed, &header(), &state()),
        expect(
            "Failed to compare player name for bobby",
            "Failed asserting that \"bobby\" equals \"bob\""
        )
    );
}

#[test]
fn the_steam_id_is_compared_as_a_whole() {
    let mut listed = demo();
    listed.players.as_mut().unwrap()[0].user.steam_id = ALICE + (1 << 32);
    assert_eq!(
        failure_of(&listed, &header(), &state()),
        expect(
            "Failed to compare steam id for alice",
            &format!(
                "Failed asserting that {:?} equals {:?}",
                demostf_client::SteamID::from_steam64(ALICE + (1 << 32)).unwrap(),
                demostf_client::SteamID::from_steam64(ALICE).unwrap()
            )
        )
    );
}

#[test]
fn the_team_and_the_class_are_compared_by_name() {
    let mut listed = demo();
    listed.players.as_mut().unwrap()[0].team = Team::Blue;
    assert_eq!(
        failure_of(&listed, &header(), &state()),
        expect("Failed to compare team for alice", "Failed asserting that Blue equals Red")
    );
    let mut listed = demo();
    listed.players.as_mut().unwrap()[1].class = Class::Medic;
    assert_eq!(
        failure_of(&listed, &header(), &state()),
        expect("Failed to compare class for bob", "Failed asserting that Medic equals Soldier")
    );
    let mut listed = demo();
    listed.players.as_mut().unwrap()[1].class = Class::HeavyWeapons;
    assert_eq!(
        failure_of(&listed, &header(), &state()),
        expect("Failed to compare class for bob", "Failed asserting that Heavy equals Soldier")
    );
}

#[test]
fn the_score_is_counted_from_the_kills() {
    let mut listed = demo();
    listed.players.as_mut().unwrap()[0].kills = 3;
    assert_eq!(
        failure_of(&listed, &header(), &state()),
        expect("Failed to compare kills for alice", "Failed asserting that 3 equals 2")
    );
    let mut listed = demo();
    listed.players.as_mut().unwrap()[0].assists = 0;
    assert_eq!(
        failure_of(&listed, &header(), &state()),
        expect("Failed to compare assists for alice", "Failed asserting that 0 equals 1")
    );
    let mut listed = demo();
    listed.players.as_mut().unwrap()[1].deaths = 3;
    assert_eq!(
        failure_of(&listed, &header(), &state()),
        expect("Failed to compare deaths for bob", "Failed asserting that 3 equals 2")
    );
}

#[test]
fn the_player_with_the_lower_account_fails_first() {
    let mut listed = demo();
    listed.players.as_mut().unwrap()[0].kills = 9;
    listed.players.as_mut().unwrap()[1].kills = 9;
    assert_eq!(
        failure_of(&listed, &header(), &state()),
        expect("Failed to compare kills for bob", "Failed asserting that 9 equals 2")
    );
}

#[test]
fn kills_are_counted_by_the_part_taken() {
    let deaths = state().deaths;
    assert_eq!(count_part(&deaths, 2, Part::Killer), 2);
    assert_eq!(count_part(&deaths, 2, Part::Assister), 1);
    assert_eq!(count_part(&deaths, 2, Part::Victim), 1);
    assert_eq!(count_part(&deaths, 3, Part::Killer), 2);
    assert_eq!(count_part(&deaths, 3, Part::Assister), 1);
    assert_eq!(count_part(&deaths, 3, Part::Victim), 2);
    assert_eq!(count_part(&deaths, 9, Part::Killer), 0);
    assert_eq!(count_part(&vec![], 2, Part::Victim), 0);
}

#[test]
fn the_score_is_counted_in_a_byte() {
    let mut replay = state();
    replay.deaths = vec![Death { victim: 3, assister: None, killer: 2 }; 258];
    let mut listed = demo();
    listed.players.as_mut().unwrap()[0].kills = 2;
    listed.players.as_mut().unwrap()[0].assists = 0;
    listed.players.as_mut().unwrap()[0].deaths = 0;
    listed.players.as_mut().unwrap()[1].kills = 0;
    listed.players.as_mut().unwrap()[1].assists = 0;
    listed.players.as_mut().unwrap()[1].deaths = 2;
    assert!(verify_demo(&listed, &header(), &replay).is_ok());
}

#[test]
fn one_player_is_held_against_one_user() {
    let replay = state();
    let listed = demo();
    let players = listed.players.unwrap();
    assert!(verify_player(&players[0], &replay.users[1], &replay.deaths).is_ok());
    let failure = verify_player(&players[0], &replay.users[2], &replay.deaths).unwrap_err();
    assert_eq!(failure.context, vec![String::from("Failed to compare player name for alice")]);
    assert_eq!(failure.message, "Failed asserting that \"alice\" equals \"bob\"");
}

#[test]
fn players_with_one_account_keep_their_order() {
    let mut replay = state();
    replay.users = vec![
        UserInfo {
            classes: spawns(1, 1),
            name: String::from("first"),
            user_id: 2,
            steam_id: String::from("[U:1:7]"),
            team: api_test::replay::Team::Red,
        },
        UserInfo {
            classes: spawns(1, 1),
            name: String::from("second"),
            user_id: 3,
            steam_id: String::from("[U:1:7:2]"),
            team: api_test::replay::Team::Red,
        },
    ];
    replay.deaths = vec![];
    let first = api_test::steam::steam_id_of("[U:1:7]").unwrap();
    let second = api_test::steam::steam_id_of("[U:1:7:2]").unwrap();
    assert_ne!(first, second);
    let mut listed = demo();
    listed.players = Some(vec![
        player("first", first, Team::Red, Class::Scout, (0, 0, 0)),
        player("second", second, Team::Red, Class::Scout, (0, 0, 0)),
    ]);
    assert!(verify_demo(&listed, &header(), &replay).is_ok());
    listed.players.as_mut().unwrap().reverse();
    assert_eq!(
        failure_of(&listed, &header(), &replay),
        expect(
            "Failed to compare player name for second",
            "Failed asserting that \"second\" equals \"first\""
        )
    );
}

#[test]
fn an_answer_without_players_cannot_be_verified() {
    let mut listed = demo();
    listed.players = None;
    assert!(try_verify_demo(&listed, &header(), &state()).is_none());
}

#[test]
fn a_player_whose_steam_id_cannot_be_read_cannot_be_verified() {
    let mut replay = state();
    replay.users[1].steam_id = String::from("BOT");
    assert!(try_verify_demo(&demo(), &header(), &replay).is_none());
}

#[test]
fn a_player_who_never_spawned_cannot_be_verified() {
    let mut replay = state();
    replay.users[2].classes = [0; 10];
    assert!(try_verify_demo(&demo(), &header(), &replay).is_none());
}

#[test]
fn the_head_is_compared_before_the_players_are_looked_for() {
    let mut listed = demo();
    listed.players = None;
    listed.nick = String::from("STV");
    let failure = try_verify_demo(&listed, &header(), &state()).unwrap().unwrap_err();
    assert_eq!(failure.context, vec![String::from("Failed to compare server")]);
    assert_eq!(failure.message, "Failed asserting that \"STV\" equals \"SourceTV\"");

    let mut replay = state();
    replay.users[1].steam_id = String::from("BOT");
    replay.rounds.clear();
    let failure = try_verify_demo(&demo(), &header(), &replay).unwrap().unwrap_err();
    assert_eq!(failure.context, vec![String::from("Failed to compare blue score")]);
}

#[test]
fn a_spectator_need_not_be_known() {
    let mut replay = state();
    replay.users[0].steam_id = String::from("");
    replay.users[0].classes = [0; 10];
    assert!(matches!(try_verify_demo(&demo(), &header(), &replay), Some(Ok(()))));
}

#[test]
fn the_number_of_players_is_compared_before_a_class_is_looked_for() {
    let mut replay = state();
    replay.users[2].classes = [0; 10];
    let mut listed = demo();
    listed.player_count = 3;
    let failure = try_verify_demo(&listed, &header(), &replay).unwrap().unwrap_err();
    assert_eq!(failure.context, vec![String::from("Failed to compare player count")]);
    assert_eq!(failure.message, "Failed asserting that 3 equals 2");
}

#[test]
fn a_pair_behind_one_that_fails_need_not_be_comparable() {
    // bob has the lower account number and is compared first
    let mut replay = state();
    replay.users[1].classes = [0; 10];
    let mut listed = demo();
    listed.players.as_mut().unwrap()[1].kills = 9;
    let failure = try_verify_demo(&listed, &header(), &replay).unwrap().unwrap_err();
    assert_eq!(failure.context, vec![String::from("Failed to compare kills for bob")]);
    listed.players.as_mut().unwrap()[1].kills = 2;
    assert!(try_verify_demo(&listed, &header(), &replay).is_none());
}

#[test]
fn one_player_alone_is_not_put_in_order() {
    let mut replay = state();
    replay.users.pop();
    replay.users[1].steam_id = String::from("BOT");
    replay.deaths.clear();
    let mut listed = demo();
    listed.player_count = 1;
    listed.players.as_mut().unwrap().pop();
    listed.players.as_mut().unwrap()[0].kills = 0;
    listed.players.as_mut().unwrap()[0].assists = 0;
    listed.players.as_mut().unwrap()[0].deaths = 0;
    // the names agree, so the comparison comes to the steam id
    assert!(try_verify_demo(&listed, &header(), &replay).is_none());
    // the names differ, so it does not
    listed.players.as_mut().unwrap()[0].user.name = String::from("alicia");
    let failure = try_verify_demo(&listed, &header(), &replay).unwrap().unwrap_err();
    assert_eq!(failure.context, vec![String::from("Failed to compare player name for alicia")]);
    assert!(verify_demo(&listed, &header(), &replay).is_err());
}

#[test]
fn one_player_is_compared_as_far_as_can_be() {
    let replay = state();
    let listed = demo();
    let players = listed.players.unwrap();
    assert!(matches!(
        try_verify_player(&players[0], &replay.users[1], &replay.deaths),
        Some(Ok(()))
    ));

    let mut unread = replay.users[1].clone();
    unread.steam_id = String::from("BOT");
    assert!(try_verify_player(&players[0], &unread, &replay.deaths).is_none());
    unread.name = String::from("alicia");
    let failure = try_verify_player(&players[0], &unread, &replay.deaths).unwrap().unwrap_err();
    assert_eq!(failure.message, "Failed asserting that \"alice\" equals \"alicia\"");

    let mut unspawned = replay.users[1].clone();
    unspawned.classes = [0; 10];
    assert!(try_verify_player(&players[0], &unspawned, &replay.deaths).is_none());
    unspawned.team = api_test::replay::Team::Blue;
    let failure =
        try_verify_player(&players[0], &unspawned, &replay.deaths).unwrap().unwrap_err();
    assert_eq!(failure.context, vec![String::from("Failed to compare team for alice")]);
    unspawned.team = api_test::replay::Team::Red;
    unspawned.steam_id = String::from("[U:1:101]");
    let failure =
        try_verify_player(&players[0], &unspawned, &replay.deaths).unwrap().unwrap_err();
    assert_eq!(failure.context, vec![String::from("Failed to compare steam id for alice")]);
}

#[test]
fn a_failure_is_handed_on_by_the_checked_entry() {
    let mut listed = demo();
    listed.map = String::from("cp_process");
    let failure = try_verify_demo(&listed, &header(), &state()).unwrap().unwrap_err();
    assert_eq!(failure.context, vec![String::from("Failed to compare map")]);
}

#[test]
fn an_empty_match_agrees_with_an_empty_answer() {
    let replay = MatchState { chat: vec![], users: vec![], deaths: vec![], rounds: vec![] };
    let mut listed = demo();
    listed.blue_score = 0;
    listed.player_count = 0;
    listed.players = Some(vec![]);
    assert!(verify_demo(&listed, &header(), &replay).is_ok());
}
