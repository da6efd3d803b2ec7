//! Lines of input: trimming and comparing.

use vstd::prelude::*;
use vstd::string::*;

verus! {

/// Whether `char::is_whitespace` holds of `c`.
pub uninterp spec fn is_whitespace(c: char) -> bool;

/// `s` without the whitespace it starts with.
pub open spec fn skip_leading(s: Seq<char>) -> Seq<char>
    decreases s.len(),
{
    if s.len() > 0 && is_whitespace(s[0]) {
        skip_leading(s.drop_first())
    } else {
        s
    }
}

/// `s` without the whitespace it ends with.
pub open spec fn skip_trailing(s: Seq<char>) -> Seq<char>
    decreases s.len(),
{
    if s.len() > 0 && is_whitespace(s.last()) {
        skip_trailing(s.drop_last())
    } else {
        s
    }
}

/// `s` without the whitespace around it.
pub open spec fn trimmed(s: Seq<char>) -> Seq<char> {
    skip_trailing(skip_leading(s))
}

/// Calls `str::trim`.
///
/// Trusted: the result is the line without its leading and trailing whitespace, where
/// whitespace is what `char::is_whitespace` accepts.
#[verifier::external_body]
pub(crate) fn trim(line: &str) -> (r: &str)
    ensures
        r@ == trimmed(line@),
        r@.len() > 0 ==> !is_whitespace(r@.first()) && !is_whitespace(r@.last()),
{
    line.trim()
}

/// Whether two texts hold the same characters.
pub fn same_text(a: &str, b: &str) -> (r: bool)
    ensures
        r == (a@ == b@),
{
    String::from_str(a) == String::from_str(b)
}

} // verus!
