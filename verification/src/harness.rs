//! The known state that every scenario starts from: which tables are
//! emptied, and the one user that is put back.

use crate::show::{decimal, decimal_text};
use vstd::prelude::*;

verus! {

/// The user that every scenario finds in the store.
#[derive(Clone, Debug)]
pub struct SeedUser {
    pub steam_id: u64,
    pub name: String,
    pub avatar: String,
    pub token: String,
}

/// The fixture: the tables that a reset empties, in that order, and the
/// user that it puts back.
#[derive(Clone, Debug)]
pub struct Harness {
    pub tables: Vec<String>,
    pub seed: SeedUser,
}

/// The steam id of the seed user.
pub open spec fn seed_steam_id() -> u64 {
    76561198024494988
}

/// The name of the seed user.
pub open spec fn seed_name() -> Seq<char> {
    "Icewind"@
}

/// The token with which the seed user uploads.
pub open spec fn seed_token() -> Seq<char> {
    "token"@
}

/// The names of the tables that the service keeps.
pub open spec fn service_tables() -> Seq<Seq<char>> {
    seq![
        "chat"@,
        "demos"@,
        "players"@,
        "storage_keys"@,
        "teams"@,
        "upload_blacklist"@,
        "users"@,
    ]
}

/// The statement that empties a table.
pub open spec fn truncate(table: Seq<char>) -> Seq<char> {
    "TRUNCATE TABLE "@ + table
}

/// The statement that makes the ids of a table start at 1 again.
pub open spec fn restart(table: Seq<char>) -> Seq<char> {
    "ALTER SEQUENCE "@ + table + "_id_seq RESTART with 1"@
}

/// The statement that puts the seed user back.
pub open spec fn insert(seed: SeedUser) -> Seq<char> {
    "INSERT INTO users(steamid, name, avatar, token)VALUES("@ + decimal(seed.steam_id as nat)
        + ", '"@ + seed.name@ + "', '"@ + seed.avatar@ + "', '"@ + seed.token@ + "')"@
}

/// The statement at place `k` of a reset: for each table in turn the one
/// that empties it and the one that restarts its ids, and after the last
/// table the one that puts the seed user back.
pub open spec fn statement(tables: Seq<Seq<char>>, seed: SeedUser, k: int) -> Seq<char> {
    if k == 2 * tables.len() {
        insert(seed)
    } else if k % 2 == 0 {
        truncate(tables[k / 2])
    } else {
        restart(tables[k / 2])
    }
}

/// The statements of a reset, in the order in which they are run.
pub open spec fn reset_plan(tables: Seq<Seq<char>>, seed: SeedUser) -> Seq<Seq<char>> {
    Seq::new(2 * tables.len() + 1, |k: int| statement(tables, seed, k))
}

impl Harness {
    /// The fixture of the service: its seven tables, and the user Icewind
    /// with the token `token`.
    pub fn new() -> (harness: Harness)
        ensures
            harness.tables.deep_view() == service_tables(),
            harness.seed.steam_id == seed_steam_id(),
            harness.seed.name@ == seed_name(),
            harness.seed.avatar@
                == "http://cdn.akamai.steamstatic.com/steamcommunity/public/images/avatars/75/75b84075b70535c5cfb3499af03b3e4e7a7b556f_medium.jpg"@,
            harness.seed.token@ == seed_token(),
    {
        let mut tables: Vec<String> = Vec::new();
        tables.push(String::from_str("chat"));
        tables.push(String::from_str("demos"));
        tables.push(String::from_str("players"));
        tables.push(String::from_str("storage_keys"));
        tables.push(String::from_str("teams"));
        tables.push(String::from_str("upload_blacklist"));
        tables.push(String::from_str("users"));
        assert(tables.deep_view() =~= service_tables());
        let seed = SeedUser {
            steam_id: 76561198024494988,
            name: String::from_str("Icewind"),
            avatar: String::from_str(
                "http://cdn.akamai.steamstatic.com/steamcommunity/public/images/avatars/75/75b84075b70535c5cfb3499af03b3e4e7a7b556f_medium.jpg",
            ),
            token: String::from_str("token"),
        };
        Harness { tables, seed }
    }

    /// The statements that bring the store back to the fixture, in the
    /// order in which they are to be run, all of them or none: each table
    /// is emptied and its ids start at 1 again, then the seed user is put
    /// back.
    pub fn reset(&self) -> (plan: Vec<String>)
        ensures
            plan.deep_view() == reset_plan(self.tables.deep_view(), self.seed),
    {
        let ghost tables = self.tables.deep_view();
        let mut plan: Vec<String> = Vec::new();
        let mut at: usize = 0;
        while at < self.tables.len()
            invariant
                at <= self.tables@.len(),
                tables == self.tables.deep_view(),
                plan@.len() == 2 * at,
                forall|k: int|
                    0 <= k < 2 * at ==> (#[trigger] plan@[k])@ == statement(tables, self.seed, k),
            decreases self.tables@.len() - at,
        {
            let table = self.tables[at].as_str();
            assert(table@ == tables[at as int]);
            let mut empty = String::from_str("TRUNCATE TABLE ");
            empty.append(table);
            let mut again = String::from_str("ALTER SEQUENCE ");
            again.append(table);
            again.append("_id_seq RESTART with 1");
            plan.push(empty);
            plan.push(again);
            at = at + 1;
        }
        let mut seed = String::from_str("INSERT INTO users(steamid, name, avatar, token)VALUES(");
        seed.append(decimal_text(self.seed.steam_id).as_str());
        seed.append(", '");
        seed.append(self.seed.name.as_str());
        seed.append("', '");
        seed.append(self.seed.avatar.as_str());
        seed.append("', '");
        seed.append(self.seed.token.as_str());
        seed.append("')");
        plan.push(seed);
        assert(plan.deep_view() =~= reset_plan(tables, self.seed));
        plan
    }
}

/// A reset has two statements for each table and one more: the one that
/// puts the seed user back comes last, and no statement before it puts
/// a user in.
pub proof fn lemma_reset_seeds_once(tables: Seq<Seq<char>>, seed: SeedUser)
    ensures
        reset_plan(tables, seed).len() == 2 * tables.len() + 1,
        reset_plan(tables, seed).last() == insert(seed),
        forall|k: int|
            0 <= k < 2 * tables.len() ==> #[trigger] reset_plan(tables, seed)[k] != insert(seed),
{
    reveal_strlit("TRUNCATE TABLE ");
    reveal_strlit("ALTER SEQUENCE ");
    reveal_strlit("INSERT INTO users(steamid, name, avatar, token)VALUES(");
    assert(insert(seed)[0] == 'I');
    assert forall|k: int| 0 <= k < 2 * tables.len() implies #[trigger] reset_plan(tables, seed)[k]
        != insert(seed) by {
        let table = tables[k / 2];
        if k % 2 == 0 {
            assert(truncate(table)[0] == 'T');
        } else {
            assert(restart(table)[0] == 'A');
        }
    }
}

/// A reset of the service empties the table of the users before it puts
/// the seed user back, so that the seed user is the only one.
pub proof fn lemma_reset_empties_the_users(seed: SeedUser)
    ensures
        reset_plan(service_tables(), seed)[12] == truncate("users"@),
        reset_plan(service_tables(), seed)[13] == restart("users"@),
        reset_plan(service_tables(), seed)[14] == insert(seed),
{
    assert(service_tables().len() == 7);
    assert(service_tables()[6] == "users"@);
}

} // verus!
