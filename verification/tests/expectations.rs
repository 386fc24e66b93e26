use api_test::api::{Class, Demo, Player, Team, User};
use api_test::expect::{
    check_ids, check_listing, check_score, check_summary, expect_accepted, expect_refused,
    find_player, ApiError, ErrorKind, Place, Refusal, Summary,
};

fn error(kind: ErrorKind, text: &str) -> ApiError {
    ApiError { kind, text: String::from(text) }
}

fn demo(id: u32) -> Demo {
    Demo {
        id,
        url: String::from("https://localhost/test.dem"),
        name: String::from("test.dem"),
        server: String::from("match.tf"),
        duration: 1800,
        nick: String::from("SourceTV"),
        map: String::from("cp_granary_pro_rc8"),
        time: 1600000000,
        red: String::from("RED"),
        blue: String::from("BLUE"),
        red_score: 0,
        blue_score: 1,
        player_count: 12,
        uploader: 1,
        hash: [0; 16],
        backend: String::from("static"),
        path: String::from("/test.dem"),
        players: None,
    }
}

fn summary(place: Option<Place>) -> Summary {
    Summary {
        id: 1,
        name: String::from("test.dem"),
        map: String::from("cp_granary_pro_rc8"),
        red_score: 0,
        blue_score: 1,
        player_count: 12,
        place,
    }
}

fn player(steam_id: u64, kills: u8, assists: u8, deaths: u8) -> Player {
    Player {
        player_id: 0,
        user: User { id: 0, steam_id, name: String::from("p") },
        team: Team::Red,
        class: Class::Scout,
        kills,
        assists,
        deaths,
    }
}

#[test]
fn a_request_that_was_accepted_was_not_refused() {
    let failure = expect_refused(None, Refusal::InvalidApiKey, "upload").unwrap_err();
    assert_eq!(failure.message, "Expected error during upload");
    assert!(failure.context.is_empty());
    let failure = expect_refused(None, Refusal::HashMisMatch, "set url").unwrap_err();
    assert_eq!(failure.message, "Expected error during upload");
}

#[test]
fn the_expected_refusal_passes() {
    let key = error(ErrorKind::InvalidApiKey, "Invalid api key");
    assert!(expect_refused(Some(&key), Refusal::InvalidApiKey, "upload").is_ok());
    let hash = error(ErrorKind::HashMisMatch, "Hash mismatch");
    assert!(expect_refused(Some(&hash), Refusal::HashMisMatch, "set url").is_ok());
    let missing = error(ErrorKind::DemoNotFound(10), "Demo 10 not found");
    assert!(expect_refused(Some(&missing), Refusal::DemoNotFound(10), "set url").is_ok());
    assert!(expect_refused(Some(&missing), Refusal::NoSuchDemo, "set url").is_ok());
}

#[test]
fn another_error_is_named_in_the_failure() {
    let hash = error(ErrorKind::HashMisMatch, "Hash mismatch");
    let failure = expect_refused(Some(&hash), Refusal::InvalidApiKey, "upload").unwrap_err();
    assert_eq!(failure.message, "Unexpected error during upload: Hash mismatch");
    let other = error(ErrorKind::Other, "Unknown server error 500");
    let failure = expect_refused(Some(&other), Refusal::NoSuchDemo, "set url").unwrap_err();
    assert_eq!(failure.message, "Unexpected error during set url: Unknown server error 500");
    let key = error(ErrorKind::InvalidApiKey, "Invalid api key");
    let failure = expect_refused(Some(&key), Refusal::HashMisMatch, "set url").unwrap_err();
    assert_eq!(failure.message, "Unexpected error during set url: Invalid api key");
}

#[test]
fn a_missing_replay_must_be_the_one_asked_for() {
    let missing = error(ErrorKind::DemoNotFound(11), "Demo 11 not found");
    let failure =
        expect_refused(Some(&missing), Refusal::DemoNotFound(10), "set url").unwrap_err();
    assert_eq!(failure.message, "Unexpected error during set url: Demo 11 not found");
}

#[test]
fn a_request_that_should_be_accepted_fails_with_the_error() {
    assert!(expect_accepted(None).is_ok());
    let key = error(ErrorKind::InvalidApiKey, "Invalid api key");
    let failure = expect_accepted(Some(&key)).unwrap_err();
    assert_eq!(failure.message, "Invalid api key");
    assert!(failure.context.is_empty());
}

#[test]
fn a_summary_without_a_place_leaves_the_place_alone() {
    let mut listed = demo(1);
    listed.url = String::from("anywhere");
    listed.backend = String::from("anything");
    assert!(check_summary(&listed, &summary(None)).is_ok());
}

#[test]
fn a_summary_with_a_place_holds_the_url_and_the_backend() {
    let place = Place {
        url: String::from("https://localhost/test.dem"),
        backend: String::from("static"),
    };
    assert!(check_summary(&demo(1), &summary(Some(place.clone()))).is_ok());
    let mut moved = demo(1);
    moved.url = String::from("https://example.com/somedemo.dem");
    moved.backend = String::from("example");
    let failure = check_summary(&moved, &summary(Some(place.clone()))).unwrap_err();
    assert_eq!(
        failure.message,
        "Failed asserting that \"https://example.com/somedemo.dem\" equals \"https://localhost/test.dem\""
    );
    moved.url = String::from("https://localhost/test.dem");
    let failure = check_summary(&moved, &summary(Some(place))).unwrap_err();
    assert_eq!(failure.message, "Failed asserting that \"example\" equals \"static\"");
    assert!(failure.context.is_empty());
}

#[test]
fn the_fields_of_a_summary_are_held_in_their_order() {
    let mut listed = demo(2);
    listed.name = String::from("other.dem");
    let failure = check_summary(&listed, &summary(None)).unwrap_err();
    assert_eq!(failure.message, "Failed asserting that 2 equals 1");
    listed.id = 1;
    listed.map = String::from("cp_process");
    let failure = check_summary(&listed, &summary(None)).unwrap_err();
    assert_eq!(failure.message, "Failed asserting that \"other.dem\" equals \"test.dem\"");
    listed.name = String::from("test.dem");
    listed.red_score = 3;
    let failure = check_summary(&listed, &summary(None)).unwrap_err();
    assert_eq!(
        failure.message,
        "Failed asserting that \"cp_process\" equals \"cp_granary_pro_rc8\""
    );
    listed.map = String::from("cp_granary_pro_rc8");
    listed.blue_score = 4;
    let failure = check_summary(&listed, &summary(None)).unwrap_err();
    assert_eq!(failure.message, "Failed asserting that 3 equals 0");
    listed.red_score = 0;
    listed.player_count = 18;
    let failure = check_summary(&listed, &summary(None)).unwrap_err();
    assert_eq!(failure.message, "Failed asserting that 4 equals 1");
    listed.blue_score = 1;
    let failure = check_summary(&listed, &summary(None)).unwrap_err();
    assert_eq!(failure.message, "Failed asserting that 18 equals 12");
}

#[test]
fn a_listing_with_the_expected_ids_passes() {
    let list = vec![demo(5), demo(4), demo(1)];
    assert!(check_ids(&list, &[5, 4, 1]).is_ok());
    assert!(check_ids(&[], &[]).is_ok());
    assert!(check_listing(&list, 3, &[5]).is_ok());
    assert!(check_listing(&list, 3, &[]).is_ok());
}

#[test]
fn the_number_of_listed_replays_is_held_first() {
    let list = vec![demo(9), demo(4)];
    let failure = check_ids(&list, &[5, 4, 1]).unwrap_err();
    assert_eq!(failure.message, "Failed asserting that 2 equals 3");
    let failure = check_ids(&list, &[]).unwrap_err();
    assert_eq!(failure.message, "Failed asserting that 2 equals 0");
    let failure = check_listing(&list, 5, &[9]).unwrap_err();
    assert_eq!(failure.message, "Failed asserting that 2 equals 5");
    assert!(failure.context.is_empty());
}

#[test]
fn the_first_id_out_of_place_fails() {
    let list = vec![demo(5), demo(1), demo(4)];
    let failure = check_ids(&list, &[5, 4, 1]).unwrap_err();
    assert_eq!(failure.message, "Failed asserting that 1 equals 4");
    let failure = check_listing(&list, 3, &[1]).unwrap_err();
    assert_eq!(failure.message, "Failed asserting that 5 equals 1");
}

#[test]
fn a_player_is_found_by_the_steam_id() {
    let players = vec![player(7, 0, 0, 0), player(8, 1, 1, 1), player(8, 2, 2, 2)];
    assert_eq!(find_player(&players, 7), Some(0));
    assert_eq!(find_player(&players, 8), Some(1));
    assert_eq!(find_player(&players, 9), None);
    assert_eq!(find_player(&[], 7), None);
}

#[test]
fn the_score_is_held_kills_first() {
    let scored = player(7, 26, 22, 14);
    assert!(check_score(&scored, 26, 22, 14).is_ok());
    let failure = check_score(&scored, 25, 21, 13).unwrap_err();
    assert_eq!(failure.message, "Failed asserting that 26 equals 25");
    let failure = check_score(&scored, 26, 21, 13).unwrap_err();
    assert_eq!(failure.message, "Failed asserting that 22 equals 21");
    let failure = check_score(&scored, 26, 22, 13).unwrap_err();
    assert_eq!(failure.message, "Failed asserting that 14 equals 13");
}
