use api_test::api::Demo;
use api_test::listing::{
    GameType, ListOrder, ListParams, Listing, Uploader, FOURTH, RECONNECTED, REGULAR, SEEDED,
    STRANGER,
};

fn demo(id: u32) -> Demo {
    Demo {
        id,
        url: String::new(),
        name: String::new(),
        server: String::new(),
        duration: 0,
        nick: String::new(),
        map: String::new(),
        time: 0,
        red: String::new(),
        blue: String::new(),
        red_score: 0,
        blue_score: 0,
        player_count: 0,
        uploader: 1,
        hash: [0; 16],
        backend: String::new(),
        path: String::new(),
        players: None,
    }
}

type Asked = (
    ListOrder,
    Option<String>,
    Vec<u64>,
    Option<GameType>,
    Option<i64>,
    Option<i64>,
    Option<u64>,
    Option<u64>,
);

fn asked(params: &ListParams) -> Asked {
    (
        params.order,
        params.map.clone(),
        params.players.clone(),
        params.ty,
        params.after,
        params.before,
        params.before_id,
        params.after_id,
    )
}

fn unfiltered() -> Asked {
    (ListOrder::Descending, None, vec![], None, None, None, None, None)
}

#[test]
fn the_players_of_the_listings_have_their_steam_ids() {
    assert_eq!(REGULAR, 76561197992327511);
    assert_eq!(SEEDED, 76561198024494988);
    assert_eq!(FOURTH, 76561198011495003);
    assert_eq!(RECONNECTED, 76561197998883586);
    assert_eq!(STRANGER, 76561197992320000);
}

#[test]
fn a_new_listing_is_unfiltered_and_descending() {
    assert_eq!(asked(&ListParams::new()), unfiltered());
}

#[test]
fn the_listings_are_asked_for_in_their_order() {
    let names: Vec<String> = Listing::all().iter().map(|listing| listing.name()).collect();
    assert_eq!(
        names,
        vec![
            "list defaults",
            "list asc",
            "list map filter",
            "list single player filter",
            "list multiple player filter",
            "list reconnected player filter",
            "list unknown player filter",
            "list player and map filter",
            "list type filter",
            "list time filter after",
            "list time filter before",
            "list id filter after",
            "list id filter before",
        ]
    );
}

#[test]
fn each_listing_asks_with_its_own_filter() {
    assert_eq!(asked(&Listing::Defaults.params(77)), unfiltered());
    let mut expected = unfiltered();
    expected.0 = ListOrder::Ascending;
    assert_eq!(asked(&Listing::Ascending.params(77)), expected);
    let mut expected = unfiltered();
    expected.1 = Some(String::from("cp_process"));
    assert_eq!(asked(&Listing::ByMap.params(77)), expected);
    let mut expected = unfiltered();
    expected.2 = vec![76561197992327511];
    assert_eq!(asked(&Listing::SinglePlayer.params(77)), expected);
    let mut expected = unfiltered();
    expected.2 = vec![76561197992327511, 76561198024494988];
    assert_eq!(asked(&Listing::MultiplePlayers.params(77)), expected);
    let mut expected = unfiltered();
    expected.2 = vec![76561198024494988, 76561198011495003, 76561197998883586];
    assert_eq!(asked(&Listing::ReconnectedPlayer.params(77)), expected);
    let mut expected = unfiltered();
    expected.2 = vec![76561197992320000];
    assert_eq!(asked(&Listing::UnknownPlayer.params(77)), expected);
    let mut expected = unfiltered();
    expected.1 = Some(String::from("cp_granary_pro"));
    expected.2 = vec![76561197992327511];
    assert_eq!(asked(&Listing::PlayerAndMap.params(77)), expected);
    let mut expected = unfiltered();
    expected.3 = Some(GameType::Fours);
    assert_eq!(asked(&Listing::ByType.params(77)), expected);
    let mut expected = unfiltered();
    expected.7 = Some(3);
    assert_eq!(asked(&Listing::IdAfter.params(77)), expected);
    let mut expected = unfiltered();
    expected.6 = Some(3);
    assert_eq!(asked(&Listing::IdBefore.params(77)), expected);
}

#[test]
fn the_listings_by_time_are_cut_at_the_pivot() {
    let mut expected = unfiltered();
    expected.4 = Some(1600000000);
    assert_eq!(asked(&Listing::TimeAfter.params(1600000000)), expected);
    let mut expected = unfiltered();
    expected.5 = Some(-5);
    assert_eq!(asked(&Listing::TimeBefore.params(-5)), expected);
}

#[test]
fn each_listing_expects_its_ids() {
    assert_eq!(Listing::Defaults.expected(), vec![5, 4, 3, 2, 1]);
    assert_eq!(Listing::Ascending.expected(), vec![1, 2, 3, 4, 5]);
    assert_eq!(Listing::ByMap.expected(), vec![2]);
    assert_eq!(Listing::SinglePlayer.expected(), vec![5, 4, 1]);
    assert_eq!(Listing::MultiplePlayers.expected(), vec![4, 1]);
    assert_eq!(Listing::ReconnectedPlayer.expected(), vec![4]);
    assert_eq!(Listing::UnknownPlayer.expected(), Vec::<u32>::new());
    assert_eq!(Listing::PlayerAndMap.expected(), vec![1]);
    assert_eq!(Listing::ByType.expected(), vec![3]);
    assert_eq!(Listing::TimeAfter.expected(), vec![5, 4]);
    assert_eq!(Listing::TimeBefore.expected(), vec![2, 1]);
    assert_eq!(Listing::IdAfter.expected(), vec![5, 4]);
    assert_eq!(Listing::IdBefore.expected(), vec![2, 1]);
}

#[test]
fn a_listing_passes_on_its_expected_ids_only() {
    for listing in Listing::all() {
        let list: Vec<Demo> = listing.expected().iter().map(|id| demo(*id)).collect();
        assert!(listing.check(&list).is_ok());
        let mut longer = list.clone();
        longer.push(demo(6));
        assert!(listing.check(&longer).is_err());
    }
    let failure = Listing::SinglePlayer.check(&[demo(5), demo(4), demo(2)]).unwrap_err();
    assert_eq!(failure.message, "Failed asserting that 2 equals 1");
    let failure = Listing::UnknownPlayer.check(&[demo(5)]).unwrap_err();
    assert_eq!(failure.message, "Failed asserting that 1 equals 0");
}

#[test]
fn listings_are_descending_unless_asked_ascending() {
    for listing in Listing::all() {
        let ids = listing.expected();
        let ascending = listing.params(0).order == ListOrder::Ascending;
        for pair in ids.windows(2) {
            assert_eq!(pair[0] < pair[1], ascending);
            assert_ne!(pair[0], pair[1]);
        }
        for id in ids {
            assert!((1..=5).contains(&id));
        }
    }
}

#[test]
fn more_players_named_list_no_more_replays() {
    let single = Listing::SinglePlayer.expected();
    for id in Listing::MultiplePlayers.expected() {
        assert!(single.contains(&id));
    }
    for id in Listing::PlayerAndMap.expected() {
        assert!(single.contains(&id));
    }
}

#[test]
fn one_listing_gives_the_pivot_and_one_asks_for_players() {
    for listing in Listing::all() {
        assert_eq!(listing.gives_pivot(), listing == Listing::ByType);
        assert_eq!(listing.asks_players(), listing == Listing::ReconnectedPlayer);
        if listing.gives_pivot() || listing.asks_players() {
            assert!(!listing.expected().is_empty());
        }
    }
    let all = Listing::all();
    let gives = all.iter().position(|listing| listing.gives_pivot()).unwrap();
    let after = all.iter().position(|listing| *listing == Listing::TimeAfter).unwrap();
    let before = all.iter().position(|listing| *listing == Listing::TimeBefore).unwrap();
    assert!(gives < after && gives < before);
}

#[test]
fn only_the_listings_by_time_depend_on_the_pivot() {
    for listing in Listing::all() {
        let same = asked(&listing.params(1)) == asked(&listing.params(2));
        assert_eq!(same, listing != Listing::TimeAfter && listing != Listing::TimeBefore);
    }
}

#[test]
fn the_uploads_of_two_users_are_asked_for() {
    assert_eq!(Uploader::all(), vec![Uploader::Regular, Uploader::Seeded]);
}

#[test]
fn the_uploads_are_asked_for_ascending() {
    let mut expected = unfiltered();
    expected.0 = ListOrder::Ascending;
    assert_eq!(asked(&Uploader::Regular.params()), expected);
    assert_eq!(asked(&Uploader::Seeded.params()), expected);
    assert_eq!(Uploader::Regular.steam_id(), 76561197992327511);
    assert_eq!(Uploader::Seeded.steam_id(), 76561198024494988);
}

#[test]
fn only_the_seed_user_has_uploads() {
    assert!(Uploader::Regular.check(&[]).is_ok());
    let failure = Uploader::Regular.check(&[demo(1)]).unwrap_err();
    assert_eq!(failure.message, "Failed asserting that 1 equals 0");
    let all: Vec<Demo> = (1..=5).map(demo).collect();
    assert!(Uploader::Seeded.check(&all).is_ok());
    let led_by_another = vec![demo(2), demo(1), demo(3), demo(4), demo(5)];
    let failure = Uploader::Seeded.check(&led_by_another).unwrap_err();
    assert_eq!(failure.message, "Failed asserting that 2 equals 1");
    let failure = Uploader::Seeded.check(&all[..4]).unwrap_err();
    assert_eq!(failure.message, "Failed asserting that 4 equals 5");
    let unordered_behind = vec![demo(1), demo(5), demo(4), demo(3), demo(2)];
    assert!(Uploader::Seeded.check(&unordered_behind).is_ok());
}
