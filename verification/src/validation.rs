//! What a request's payload has to look like before a handler opens a
//! transaction for it.

use vstd::prelude::*;
use vstd::string::*;

verus! {

/// A Latin letter, a digit or an underscore.
pub open spec fn is_word_char(c: char) -> bool {
    ('a' <= c && c <= 'z') || ('A' <= c && c <= 'Z') || ('0' <= c && c <= '9') || c == '_'
}

/// A word character, or one of the signs `! @ # $ % ^ & * ( ) +`.
pub open spec fn is_password_char(c: char) -> bool {
    is_word_char(c) || c == '!' || c == '@' || c == '#' || c == '$' || c == '%' || c == '^' || c == '&'
        || c == '*' || c == '(' || c == ')' || c == '+'
}

/// A user name: 3 to 25 word characters.
pub open spec fn is_username(s: Seq<char>) -> bool {
    3 <= s.len() <= 25 && forall|i: int| 0 <= i < s.len() ==> is_word_char(#[trigger] s[i])
}

/// A password: 8 to 15 password characters.
pub open spec fn is_password(s: Seq<char>) -> bool {
    8 <= s.len() <= 15 && forall|i: int| 0 <= i < s.len() ==> is_password_char(#[trigger] s[i])
}

/// The name under which an image is filed: 3 to 25 word characters.
pub open spec fn is_file_name(s: Seq<char>) -> bool {
    is_username(s)
}

/// The name of a category or of a product: at least 3 characters.
pub open spec fn is_resource_name(s: Seq<char>) -> bool {
    s.len() >= 3
}

fn word_char(c: char) -> (r: bool)
    ensures
        r == is_word_char(c),
{
    (c >= 'a' && c <= 'z') || (c >= 'A' && c <= 'Z') || (c >= '0' && c <= '9') || c == '_'
}

fn password_char(c: char) -> (r: bool)
    ensures
        r == is_password_char(c),
{
    word_char(c) || c == '!' || c == '@' || c == '#' || c == '$' || c == '%' || c == '^' || c == '&'
        || c == '*' || c == '(' || c == ')' || c == '+'
}

/// Whether `s` is a user name.
pub fn valid_username(s: &str) -> (valid: bool)
    ensures
        valid == is_username(s@),
{
    let n: usize = s.unicode_len();
    if n < 3 || n > 25 {
        return false;
    }
    let mut i: usize = 0;
    while i < n
        invariant
            i <= n,
            n == s@.len(),
            forall|j: int| 0 <= j < i ==> is_word_char(#[trigger] s@[j]),
        decreases n - i,
    {
        if !word_char(s.get_char(i)) {
            return false;
        }
        i += 1;
    }
    true
}

/// Whether `s` is a password.
pub fn valid_password(s: &str) -> (valid: bool)
    ensures
        valid == is_password(s@),
{
    let n: usize = s.unicode_len();
    if n < 8 || n > 15 {
        return false;
    }
    let mut i: usize = 0;
    while i < n
        invariant
            i <= n,
            n == s@.len(),
            forall|j: int| 0 <= j < i ==> is_password_char(#[trigger] s@[j]),
        decreases n - i,
    {
        if !password_char(s.get_char(i)) {
            return false;
        }
        i += 1;
    }
    true
}

/// Whether `s` is a name under which an image can be filed.
pub fn valid_file_name(s: &str) -> (valid: bool)
    ensures
        valid == is_file_name(s@),
{
    valid_username(s)
}

/// Whether `s` is long enough for the name of a category or a product.
pub fn valid_resource_name(s: &str) -> (valid: bool)
    ensures
        valid == is_resource_name(s@),
{
    s.unicode_len() >= 3
}

} // verus!
