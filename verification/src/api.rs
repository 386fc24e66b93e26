//! What the service answers, as plain values.

use crate::replay;
use vstd::prelude::*;

verus! {

/// The team of a player, as the service names it.
#[derive(Clone, Copy, Debug, PartialEq, Eq, Structural)]
pub enum Team {
    Red,
    Blue,
}

/// The class of a player, as the service names it.
#[derive(Clone, Copy, Debug, PartialEq, Eq, Structural)]
pub enum Class {
    Scout,
    Soldier,
    Pyro,
    Demoman,
    HeavyWeapons,
    Engineer,
    Medic,
    Sniper,
    Spy,
}

/// A user of the service. `steam_id` is the 64-bit number of the id.
#[derive(Clone, Debug)]
pub struct User {
    pub id: u32,
    pub steam_id: u64,
    pub name: String,
}

/// A player of an uploaded replay.
#[derive(Clone, Debug)]
pub struct Player {
    pub player_id: u32,
    pub user: User,
    pub team: Team,
    pub class: Class,
    pub kills: u8,
    pub assists: u8,
    pub deaths: u8,
}

/// An uploaded replay. `time` is in seconds since 1970, `uploader` is the
/// id of the user who uploaded it. A replay that was taken from a listing
/// has no players.
#[derive(Clone, Debug)]
pub struct Demo {
    pub id: u32,
    pub url: String,
    pub name: String,
    pub server: String,
    pub duration: u16,
    pub nick: String,
    pub map: String,
    pub time: i64,
    pub red: String,
    pub blue: String,
    pub red_score: u8,
    pub blue_score: u8,
    pub player_count: u8,
    pub uploader: u32,
    pub hash: [u8; 16],
    pub backend: String,
    pub path: String,
    pub players: Option<Vec<Player>>,
}

/// One line of chat. `time` is in seconds from the start of the replay.
#[derive(Clone, Debug)]
pub struct ChatMessage {
    pub user: String,
    pub time: u32,
    pub message: String,
}

/// The team of the replay that the service's team stands for.
pub open spec fn team_of(team: Team) -> replay::Team {
    match team {
        Team::Red => replay::Team::Red,
        Team::Blue => replay::Team::Blue,
    }
}

/// The class of the replay that the service's class stands for.
pub open spec fn class_of(class: Class) -> replay::Class {
    match class {
        Class::Scout => replay::Class::Scout,
        Class::Soldier => replay::Class::Soldier,
        Class::Pyro => replay::Class::Pyro,
        Class::Demoman => replay::Class::Demoman,
        Class::HeavyWeapons => replay::Class::Heavy,
        Class::Medic => replay::Class::Medic,
        Class::Engineer => replay::Class::Engineer,
        Class::Sniper => replay::Class::Sniper,
        Class::Spy => replay::Class::Spy,
    }
}

/// The team of the replay that the service's team stands for.
pub fn map_team(team: Team) -> (mapped: replay::Team)
    ensures
        mapped == team_of(team),
{
    match team {
        Team::Red => replay::Team::Red,
        Team::Blue => replay::Team::Blue,
    }
}

/// The class of the replay that the service's class stands for.
pub fn map_class(class: Class) -> (mapped: replay::Class)
    ensures
        mapped == class_of(class),
{
    match class {
        Class::Scout => replay::Class::Scout,
        Class::Soldier => replay::Class::Soldier,
        Class::Pyro => replay::Class::Pyro,
        Class::Demoman => replay::Class::Demoman,
        Class::HeavyWeapons => replay::Class::Heavy,
        Class::Medic => replay::Class::Medic,
        Class::Engineer => replay::Class::Engineer,
        Class::Sniper => replay::Class::Sniper,
        Class::Spy => replay::Class::Spy,
    }
}

/// No class of the service stands for the class without a name, and no
/// two stand for the same class.
pub proof fn lemma_classes_map_apart(a: Class, b: Class)
    ensures
        class_of(a) != replay::Class::Other,
        class_of(a) == class_of(b) ==> a == b,
{
}

/// Each team of the service stands for a team that plays, and the two
/// stand for different teams.
pub proof fn lemma_teams_map_apart(a: Team, b: Team)
    ensures
        replay::plays(team_of(a)),
        team_of(a) == team_of(b) ==> a == b,
{
}

} // verus!
