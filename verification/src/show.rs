//! Values as text, as a failure shows them.

use vstd::prelude::*;

verus! {

/// The character of the decimal digit `d`.
pub open spec fn digit(d: nat) -> char {
    if d == 0 {
        '0'
    } else if d == 1 {
        '1'
    } else if d == 2 {
        '2'
    } else if d == 3 {
        '3'
    } else if d == 4 {
        '4'
    } else if d == 5 {
        '5'
    } else if d == 6 {
        '6'
    } else if d == 7 {
        '7'
    } else if d == 8 {
        '8'
    } else {
        '9'
    }
}

/// The decimal digits of `n`, the most significant first, without leading
/// zeros.
pub open spec fn decimal(n: nat) -> Seq<char>
    decreases n,
{
    if n < 10 {
        seq![digit(n)]
    } else {
        decimal(n / 10).push(digit(n % 10))
    }
}

/// What `{:?}` writes for a string: the text between double quotes, with
/// the characters escaped that the standard library escapes.
pub uninterp spec fn debug_quoted(text: Seq<char>) -> Seq<char>;

/// `format!("{:?}", text)` of the standard library. The contract names its
/// result, which depends on the text alone, and says nothing more of it.
#[verifier::external_body]
fn quote(text: &str) -> (quoted: String)
    ensures
        quoted@ == debug_quoted(text@),
{
    format!("{:?}", text)
}

fn digit_text(d: u64) -> (text: &'static str)
    requires
        d < 10,
    ensures
        text@ == seq![digit(d as nat)],
{
    proof {
        reveal_strlit("0");
        reveal_strlit("1");
        reveal_strlit("2");
        reveal_strlit("3");
        reveal_strlit("4");
        reveal_strlit("5");
        reveal_strlit("6");
        reveal_strlit("7");
        reveal_strlit("8");
        reveal_strlit("9");
    }
    let text = if d == 0 {
        "0"
    } else if d == 1 {
        "1"
    } else if d == 2 {
        "2"
    } else if d == 3 {
        "3"
    } else if d == 4 {
        "4"
    } else if d == 5 {
        "5"
    } else if d == 6 {
        "6"
    } else if d == 7 {
        "7"
    } else if d == 8 {
        "8"
    } else {
        "9"
    };
    assert(text@ =~= seq![digit(d as nat)]);
    text
}

/// The number `n` in decimal digits.
pub fn decimal_text(n: u64) -> (text: String)
    ensures
        text@ == decimal(n as nat),
    decreases n,
{
    if n < 10 {
        String::from_str(digit_text(n))
    } else {
        let mut text = decimal_text(n / 10);
        text.append(digit_text(n % 10));
        text
    }
}

/// A value that a check can compare with another of its kind and show in a
/// failure.
pub trait Comparable {
    /// The value as a failure shows it.
    spec fn text(&self) -> Seq<char>;

    /// Whether the two values count as equal.
    spec fn agrees(&self, other: &Self) -> bool;

    /// The value as text.
    fn show(&self) -> (text: String)
        ensures
            text@ == self.text(),
    ;

    /// Compares the two values.
    fn same(&self, other: &Self) -> (same: bool)
        ensures
            same == self.agrees(other),
    ;
}

impl Comparable for u8 {
    open spec fn text(&self) -> Seq<char> {
        decimal(*self as nat)
    }

    open spec fn agrees(&self, other: &Self) -> bool {
        *self == *other
    }

    fn show(&self) -> (text: String) {
        decimal_text(*self as u64)
    }

    fn same(&self, other: &Self) -> (same: bool) {
        *self == *other
    }
}

impl Comparable for u16 {
    open spec fn text(&self) -> Seq<char> {
        decimal(*self as nat)
    }

    open spec fn agrees(&self, other: &Self) -> bool {
        *self == *other
    }

    fn show(&self) -> (text: String) {
        decimal_text(*self as u64)
    }

    fn same(&self, other: &Self) -> (same: bool) {
        *self == *other
    }
}

impl Comparable for u32 {
    open spec fn text(&self) -> Seq<char> {
        decimal(*self as nat)
    }

    open spec fn agrees(&self, other: &Self) -> bool {
        *self == *other
    }

    fn show(&self) -> (text: String) {
        decimal_text(*self as u64)
    }

    fn same(&self, other: &Self) -> (same: bool) {
        *self == *other
    }
}

impl Comparable for u64 {
    open spec fn text(&self) -> Seq<char> {
        decimal(*self as nat)
    }

    open spec fn agrees(&self, other: &Self) -> bool {
        *self == *other
    }

    fn show(&self) -> (text: String) {
        decimal_text(*self)
    }

    fn same(&self, other: &Self) -> (same: bool) {
        *self == *other
    }
}

impl Comparable for usize {
    open spec fn text(&self) -> Seq<char> {
        decimal(*self as nat)
    }

    open spec fn agrees(&self, other: &Self) -> bool {
        *self == *other
    }

    fn show(&self) -> (text: String) {
        decimal_text(*self as u64)
    }

    fn same(&self, other: &Self) -> (same: bool) {
        *self == *other
    }
}

impl Comparable for String {
    open spec fn text(&self) -> Seq<char> {
        debug_quoted(self@)
    }

    open spec fn agrees(&self, other: &Self) -> bool {
        self@ == other@
    }

    fn show(&self) -> (text: String) {
        quote(self.as_str())
    }

    fn same(&self, other: &Self) -> (same: bool) {
        *self == *other
    }
}

} // verus!
