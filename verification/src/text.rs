//! Small string helpers shared by the status parsers.

use vstd::prelude::*;

verus! {

/// The ASCII lower-case image of one character: the letters 'A' through 'Z'
/// move down by the distance between the two cases, every other character is
/// unchanged.
pub open spec fn ascii_lower_char(c: char) -> char {
    if 'A' <= c && c <= 'Z' {
        (c as int + 32) as char
    } else {
        c
    }
}

/// A character sequence with every ASCII upper-case letter lowered.
pub open spec fn ascii_lower(s: Seq<char>) -> Seq<char> {
    s.map_values(|c: char| ascii_lower_char(c))
}

/// Exact string comparison, character for character.
pub fn str_eq(a: &str, b: &str) -> (r: bool)
    ensures
        r == (a@ == b@),
{
    let owned_a: String = a.to_owned();
    let owned_b: String = b.to_owned();
    owned_a.eq(&owned_b)
}

/// Relies on str::eq_ignore_ascii_case: the strings are equal exactly when
/// their character sequences agree after ASCII upper-case letters are mapped
/// to lower case.
#[verifier::external_body]
pub fn str_eq_ignore_ascii_case(a: &str, b: &str) -> (r: bool)
    ensures
        r == (ascii_lower(a@) == ascii_lower(b@)),
{
    a.eq_ignore_ascii_case(b)
}

} // verus!
