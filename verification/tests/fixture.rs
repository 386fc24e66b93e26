use api_test::harness::Harness;

#[test]
fn the_fixture_names_the_tables_of_the_service() {
    let harness = Harness::new();
    assert_eq!(
        harness.tables,
        vec![
            "chat",
            "demos",
            "players",
            "storage_keys",
            "teams",
            "upload_blacklist",
            "users",
        ]
    );
}

#[test]
fn the_fixture_seeds_the_user_icewind() {
    let harness = Harness::new();
    assert_eq!(harness.seed.steam_id, 76561198024494988);
    assert_eq!(harness.seed.name, "Icewind");
    assert_eq!(harness.seed.token, "token");
    assert_eq!(
        harness.seed.avatar,
        "http://cdn.akamai.steamstatic.com/steamcommunity/public/images/avatars/75/75b84075b70535c5cfb3499af03b3e4e7a7b556f_medium.jpg"
    );
}

#[test]
fn a_reset_empties_each_table_and_restarts_its_ids() {
    let plan = Harness::new().reset();
    assert_eq!(plan.len(), 15);
    let tables = [
        "chat",
        "demos",
        "players",
        "storage_keys",
        "teams",
        "upload_blacklist",
        "users",
    ];
    for (at, table) in tables.iter().enumerate() {
        assert_eq!(plan[2 * at], format!("TRUNCATE TABLE {}", table));
        assert_eq!(
            plan[2 * at + 1],
            format!("ALTER SEQUENCE {}_id_seq RESTART with 1", table)
        );
    }
    assert_eq!(plan[0], "TRUNCATE TABLE chat");
    assert_eq!(plan[1], "ALTER SEQUENCE chat_id_seq RESTART with 1");
    assert_eq!(plan[13], "ALTER SEQUENCE users_id_seq RESTART with 1");
}

#[test]
fn a_reset_ends_with_the_seed_user() {
    let plan = Harness::new().reset();
    assert_eq!(
        plan[14],
        "INSERT INTO users(steamid, name, avatar, token)VALUES(76561198024494988, 'Icewind', 'http://cdn.akamai.steamstatic.com/steamcommunity/public/images/avatars/75/75b84075b70535c5cfb3499af03b3e4e7a7b556f_medium.jpg', 'token')"
    );
}

#[test]
fn a_reset_of_a_fixture_without_tables_only_seeds() {
    let mut harness = Harness::new();
    harness.tables.clear();
    harness.seed.steam_id = 0;
    harness.seed.name = String::from("n");
    harness.seed.avatar = String::from("a");
    harness.seed.token = String::from("t");
    assert_eq!(
        harness.reset(),
        vec!["INSERT INTO users(steamid, name, avatar, token)VALUES(0, 'n', 'a', 't')"]
    );
}
