//! What a replay file says of a match, once it has been parsed.

use crate::show::Comparable;
use vstd::prelude::*;

verus! {

/// The side a user of the replay is on.
#[derive(Clone, Copy, Debug, PartialEq, Eq, Structural)]
pub enum Team {
    Other,
    Spectator,
    Red,
    Blue,
}

/// The class that a player spawned as. The order is that of the class
/// numbers, `Other` being 0.
#[derive(Clone, Copy, Debug, PartialEq, Eq, Structural)]
pub enum Class {
    Other,
    Scout,
    Sniper,
    Soldier,
    Demoman,
    Medic,
    Heavy,
    Pyro,
    Spy,
    Engineer,
}

/// A user that the replay knows of. `classes` holds, for each class number,
/// how often the user spawned as that class.
#[derive(Clone, Debug)]
pub struct UserInfo {
    pub classes: [u16; 10],
    pub name: String,
    pub user_id: u16,
    pub steam_id: String,
    pub team: Team,
}

/// One kill, by the user ids of those involved.
#[derive(Clone, Copy, Debug)]
pub struct Death {
    pub victim: u16,
    pub assister: Option<u16>,
    pub killer: u16,
}

/// One round that was played to a win.
#[derive(Clone, Copy, Debug)]
pub struct Round {
    pub winner: Team,
}

/// One line of chat, with the tick at which it was said.
#[derive(Clone, Debug)]
pub struct ChatMessage {
    pub from: String,
    pub text: String,
    pub tick: u32,
}

/// The head of a replay file. `duration` is in whole seconds.
#[derive(Clone, Debug)]
pub struct Header {
    pub server: String,
    pub nick: String,
    pub map: String,
    pub duration: u16,
}

/// What happened in the match, each list in the order of the replay.
#[derive(Clone, Debug)]
pub struct MatchState {
    pub chat: Vec<ChatMessage>,
    pub users: Vec<UserInfo>,
    pub deaths: Vec<Death>,
    pub rounds: Vec<Round>,
}

/// Whether a team is one of the two that play.
pub open spec fn plays(team: Team) -> bool {
    team is Red || team is Blue
}

/// `Team::is_player` of tf-demo-parser: true of the red and the blue team,
/// false of spectators and of the rest.
#[verifier::external_body]
fn team_is_player(team: Team) -> (player: bool)
    ensures
        player == plays(team),
{
    let team = match team {
        Team::Other => tf_demo_parser::demo::parser::analyser::Team::Other,
        Team::Spectator => tf_demo_parser::demo::parser::analyser::Team::Spectator,
        Team::Red => tf_demo_parser::demo::parser::analyser::Team::Red,
        Team::Blue => tf_demo_parser::demo::parser::analyser::Team::Blue,
    };
    team.is_player()
}

/// Whether `number` is the class that leads in `spawns`: the class with the
/// most spawns, and of several with as many the one with the lowest number.
/// A class without a spawn never leads.
pub open spec fn leads(spawns: Seq<u16>, number: int) -> bool {
    &&& 0 <= number < spawns.len()
    &&& spawns[number] > 0
    &&& forall|other: int| 0 <= other < spawns.len() ==> spawns[other] <= spawns[number]
    &&& forall|other: int| 0 <= other < number ==> spawns[other] < spawns[number]
}

/// Whether no class has a spawn.
pub open spec fn never_spawned(spawns: Seq<u16>) -> bool {
    forall|number: int| 0 <= number < spawns.len() ==> spawns[number] == 0
}

/// The first item of `ClassList::sorted` of tf-demo-parser, as a class
/// number. That method lists the classes with at least one spawn by their
/// number, sorts them by their spawns, the most first, and keeps the order
/// of those with as many. So the first item is the class that leads, and
/// there is none where no class has a spawn.
#[verifier::external_body]
fn first_sorted_class(spawns: &[u16; 10]) -> (first: Option<u8>)
    ensures
        match first {
            Some(number) => leads(spawns@, number as int),
            None => never_spawned(spawns@),
        },
{
    let mut list = tf_demo_parser::demo::parser::analyser::ClassList::default();
    for (number, count) in spawns.iter().enumerate() {
        *list.get_mut(tf_demo_parser::demo::parser::analyser::Class::new(number)) = *count;
    }
    let first = list.sorted().next();
    first.map(|(class, _)| class as u8)
}

impl Team {
    /// Whether the team is one of the two that play.
    pub fn is_player(&self) -> (player: bool)
        ensures
            player == plays(*self),
    {
        team_is_player(*self)
    }

    /// The name of the team.
    pub open spec fn name(self) -> Seq<char> {
        match self {
            Team::Other => "Other"@,
            Team::Spectator => "Spectator"@,
            Team::Red => "Red"@,
            Team::Blue => "Blue"@,
        }
    }
}

impl Class {
    /// The number of the class.
    pub open spec fn number(self) -> int {
        match self {
            Class::Other => 0,
            Class::Scout => 1,
            Class::Sniper => 2,
            Class::Soldier => 3,
            Class::Demoman => 4,
            Class::Medic => 5,
            Class::Heavy => 6,
            Class::Pyro => 7,
            Class::Spy => 8,
            Class::Engineer => 9,
        }
    }

    /// The class with the given number; `Other` for a number that no class
    /// has.
    pub fn new(number: u8) -> (class: Class)
        ensures
            number < 10 ==> class.number() == number,
            number >= 10 ==> class == Class::Other,
    {
        match number {
            1 => Class::Scout,
            2 => Class::Sniper,
            3 => Class::Soldier,
            4 => Class::Demoman,
            5 => Class::Medic,
            6 => Class::Heavy,
            7 => Class::Pyro,
            8 => Class::Spy,
            9 => Class::Engineer,
            _ => Class::Other,
        }
    }

    /// The name of the class.
    pub open spec fn name(self) -> Seq<char> {
        match self {
            Class::Other => "Other"@,
            Class::Scout => "Scout"@,
            Class::Sniper => "Sniper"@,
            Class::Soldier => "Soldier"@,
            Class::Demoman => "Demoman"@,
            Class::Medic => "Medic"@,
            Class::Heavy => "Heavy"@,
            Class::Pyro => "Pyro"@,
            Class::Spy => "Spy"@,
            Class::Engineer => "Engineer"@,
        }
    }
}

/// The class that a user played most, if the user ever spawned.
pub open spec fn main_class(spawns: Seq<u16>) -> Option<Class> {
    if never_spawned(spawns) {
        None
    } else {
        Some(choose|class: Class| leads(spawns, class.number()))
    }
}

impl UserInfo {
    /// The class that the user played most: the one with the most spawns,
    /// and of several with as many the one with the lowest number. `None`
    /// for a user who never spawned.
    pub fn main_class(&self) -> (class: Option<Class>)
        ensures
            class == main_class(self.classes@),
            class matches Some(c) ==> leads(self.classes@, c.number()),
    {
        match first_sorted_class(&self.classes) {
            Some(number) => {
                let class = Class::new(number);
                proof {
                    lemma_leader_is_unique(self.classes@);
                    assert(self.classes@[number as int] > 0);
                }
                Some(class)
            },
            None => None,
        }
    }
}

/// At most one class leads.
pub proof fn lemma_leader_is_unique(spawns: Seq<u16>)
    ensures
        forall|a: Class, b: Class|
            leads(spawns, a.number()) && leads(spawns, b.number()) ==> a == b,
{
    assert forall|a: Class, b: Class|
        leads(spawns, a.number()) && leads(spawns, b.number()) implies a == b by {
        if a.number() < b.number() {
            assert(spawns[a.number()] < spawns[b.number()]);
        } else if b.number() < a.number() {
            assert(spawns[b.number()] < spawns[a.number()]);
        }
    }
}

impl Comparable for Team {
    open spec fn text(&self) -> Seq<char> {
        self.name()
    }

    open spec fn agrees(&self, other: &Self) -> bool {
        *self == *other
    }

    fn show(&self) -> (text: String) {
        match self {
            Team::Other => String::from_str("Other"),
            Team::Spectator => String::from_str("Spectator"),
            Team::Red => String::from_str("Red"),
            Team::Blue => String::from_str("Blue"),
        }
    }

    fn same(&self, other: &Self) -> (same: bool) {
        *self == *other
    }
}

impl Comparable for Class {
    open spec fn text(&self) -> Seq<char> {
        self.name()
    }

    open spec fn agrees(&self, other: &Self) -> bool {
        *self == *other
    }

    fn show(&self) -> (text: String) {
        match self {
            Class::Other => String::from_str("Other"),
            Class::Scout => String::from_str("Scout"),
            Class::Sniper => String::from_str("Sniper"),
            Class::Soldier => String::from_str("Soldier"),
            Class::Demoman => String::from_str("Demoman"),
            Class::Medic => String::from_str("Medic"),
            Class::Heavy => String::from_str("Heavy"),
            Class::Pyro => String::from_str("Pyro"),
            Class::Spy => String::from_str("Spy"),
            Class::Engineer => String::from_str("Engineer"),
        }
    }

    fn same(&self, other: &Self) -> (same: bool) {
        *self == *other
    }
}

} // verus!
