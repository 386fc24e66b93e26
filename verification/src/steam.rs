//! Steam ids: the 64-bit number of a player, and the texts that stand for it.

use crate::show::Comparable;
use demostf_client::SteamID;
use vstd::prelude::*;

verus! {

/// The id that a text stands for, in any of the forms in which a steam id
/// is written (the 64-bit number in decimal, `STEAM_1:0:11101`,
/// `[U:1:22202]`); `None` where the text is none of them.
pub uninterp spec fn parsed_steam_id(text: Seq<char>) -> Option<u64>;

/// `SteamID::from_str` of steamid-ng, which demostf-client hands on. The
/// contract names what it returns, a function of the text alone: the id as
/// its 64-bit number, or `None` where the parser refuses the text.
#[verifier::external_body]
fn parse_steam_id(text: &str) -> (id: Option<u64>)
    ensures
        id == parsed_steam_id(text@),
{
    text.parse::<SteamID>().ok().map(u64::from)
}

/// Reads a steam id from its text.
pub fn steam_id_of(text: &str) -> (id: Option<u64>)
    ensures
        id == parsed_steam_id(text@),
{
    parse_steam_id(text)
}

/// The account number of a steam id: its low 32 bits.
pub open spec fn account_of(steam_id: u64) -> u32 {
    (steam_id as int % 0x1_0000_0000) as u32
}

/// The account number of a steam id.
pub fn account_id(steam_id: u64) -> (account: u32)
    ensures
        account == account_of(steam_id),
{
    let low: u64 = steam_id & 0xFFFF_FFFF;
    assert(steam_id & 0xFFFF_FFFF == steam_id % 0x1_0000_0000) by (bit_vector);
    low as u32
}

/// What `{:?}` writes for the steam id with the given 64-bit number: the
/// number, and the account, the instance, the type and the universe that
/// it is made of.
pub uninterp spec fn debug_steam_id(steam_id: u64) -> Seq<char>;

/// The `Debug` output of `SteamID` of steamid-ng, for the steam id that
/// `SteamID::try_from` makes of the number; where it makes none, the
/// `Debug` output of its error. The contract names the text, which depends
/// on the number alone, and says nothing more of it.
#[verifier::external_body]
fn steam_id_debug(steam_id: u64) -> (text: String)
    ensures
        text@ == debug_steam_id(steam_id),
{
    match SteamID::try_from(steam_id) {
        Ok(steam_id) => format!("{:?}", steam_id),
        Err(error) => format!("{:?}", error),
    }
}

/// A steam id, by its 64-bit number. Two are equal when their numbers
/// are, and a failure shows one with all that it is made of.
#[derive(Clone, Copy, Debug, PartialEq, Eq, Structural)]
pub struct SteamId(pub u64);

impl Comparable for SteamId {
    open spec fn text(&self) -> Seq<char> {
        debug_steam_id(self.0)
    }

    open spec fn agrees(&self, other: &Self) -> bool {
        self.0 == other.0
    }

    fn show(&self) -> (text: String) {
        steam_id_debug(self.0)
    }

    fn same(&self, other: &Self) -> (same: bool) {
        self.0 == other.0
    }
}

} // verus!
