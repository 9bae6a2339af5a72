//! Small text utilities shared by the handlers: comparison, prefixes and the
//! decimal form of identifiers that appear in messages.

use vstd::prelude::*;
use vstd::string::*;

verus! {

/// Whether two strings hold the same characters.
pub fn same_text(a: &str, b: &str) -> (same: bool)
    ensures
        same == (a@ == b@),
{
    let x = a.to_owned();
    let y = b.to_owned();
    x == y
}

/// `prefix` followed by `rest` reads as `whole`.
pub open spec fn splits_as(whole: Seq<char>, prefix: Seq<char>, rest: Seq<char>) -> bool {
    whole == prefix + rest
}

/// Whether `whole` begins with `prefix`.
pub open spec fn begins_with(whole: Seq<char>, prefix: Seq<char>) -> bool {
    prefix.len() <= whole.len() && whole.subrange(0, prefix.len() as int) == prefix
}

/// The part of `whole` that follows its first `n` characters.
pub open spec fn after(whole: Seq<char>, n: nat) -> Seq<char>
    recommends
        n <= whole.len(),
{
    whole.subrange(n as int, whole.len() as int)
}

/// Removes `prefix` from the front of `whole`, if `whole` begins with it.
pub fn strip_prefix<'a>(whole: &'a str, prefix: &str) -> (rest: Option<&'a str>)
    ensures
        rest is Some <==> begins_with(whole@, prefix@),
        rest matches Some(r) ==> r@ == after(whole@, prefix@.len()) && splits_as(whole@, prefix@, r@),
{
    let n: usize = prefix.unicode_len();
    let m: usize = whole.unicode_len();
    if m < n {
        return None;
    }
    let head = whole.substring_char(0, n);
    if same_text(head, prefix) {
        let tail = whole.substring_char(n, m);
        assert(whole@ =~= prefix@ + tail@);
        Some(tail)
    } else {
        None
    }
}

/// The character that writes the digit `d`.
pub open spec fn digit_char(d: nat) -> char
    recommends
        d < 10,
{
    if d == 0 {
        '0'
    } else if d == 1 {
        '1'
    } else if d == 2 {
        '2'
    } else if d == 3 {
        '3'
    } else if d == 4 {
        '4'
    } else if d == 5 {
        '5'
    } else if d == 6 {
        '6'
    } else if d == 7 {
        '7'
    } else if d == 8 {
        '8'
    } else {
        '9'
    }
}

/// The decimal digits of `n`, most significant first, without leading zeros.
pub open spec fn digits(n: nat) -> Seq<char>
    decreases n,
{
    if n < 10 {
        seq![digit_char(n)]
    } else {
        digits(n / 10).push(digit_char(n % 10))
    }
}

/// The decimal form of `i`, with a minus sign when it is negative.
pub open spec fn decimal(i: int) -> Seq<char> {
    if i < 0 {
        seq!['-'] + digits((-i) as nat)
    } else {
        digits(i as nat)
    }
}

fn digit_text(d: u64) -> (text: &'static str)
    requires
        d < 10,
    ensures
        text@ == seq![digit_char(d as nat)],
{
    proof {
        reveal_strlit("0");
        reveal_strlit("1");
        reveal_strlit("2");
        reveal_strlit("3");
        reveal_strlit("4");
        reveal_strlit("5");
        reveal_strlit("6");
        reveal_strlit("7");
        reveal_strlit("8");
        reveal_strlit("9");
    }
    let text = if d == 0 {
        "0"
    } else if d == 1 {
        "1"
    } else if d == 2 {
        "2"
    } else if d == 3 {
        "3"
    } else if d == 4 {
        "4"
    } else if d == 5 {
        "5"
    } else if d == 6 {
        "6"
    } else if d == 7 {
        "7"
    } else if d == 8 {
        "8"
    } else {
        "9"
    };
    assert(text@ =~= seq![digit_char(d as nat)]);
    text
}

/// Writes a natural number in decimal.
pub fn natural_to_string(n: u64) -> (text: String)
    ensures
        text@ == digits(n as nat),
    decreases n,
{
    if n < 10 {
        digit_text(n).to_owned()
    } else {
        let mut text = natural_to_string(n / 10);
        text.append(digit_text(n % 10));
        text
    }
}

/// Writes an identifier in decimal, as it appears in messages.
pub fn id_to_string(id: i32) -> (text: String)
    ensures
        text@ == decimal(id as int),
{
    if id < 0 {
        let magnitude: u64 = (-(id as i64)) as u64;
        let mut text = "-".to_owned();
        proof {
            reveal_strlit("-");
        }
        let tail = natural_to_string(magnitude);
        text.append(tail.as_str());
        assert(text@ =~= seq!['-'] + digits((-(id as int)) as nat));
        text
    } else {
        natural_to_string(id as u64)
    }
}

/// A message that names an identifier: `before`, the identifier in decimal,
/// and `after`.
pub open spec fn naming(before: Seq<char>, id: i32, after: Seq<char>) -> Seq<char> {
    before + decimal(id as int) + after
}

/// Words a message that names an identifier.
pub fn worded(before: &str, id: i32, after: &str) -> (text: String)
    ensures
        text@ == naming(before@, id, after@),
{
    let number = id_to_string(id);
    join3(before, number.as_str(), after)
}

/// Joins three pieces of text.
pub fn join3(a: &str, b: &str, c: &str) -> (text: String)
    ensures
        text@ == a@ + b@ + c@,
{
    let mut text = a.to_owned();
    text.append(b);
    text.append(c);
    text
}

} // verus!
