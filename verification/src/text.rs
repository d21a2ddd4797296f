//! Small helpers on strings.

use vstd::prelude::*;
use vstd::string::StringExecFns;

verus! {

/// Whether `needle` occurs in `hay` as a run of consecutive characters.
pub open spec fn is_substring(needle: Seq<char>, hay: Seq<char>) -> bool {
    exists|i: int|
        0 <= i <= hay.len() - needle.len() && #[trigger] hay.subrange(i, i + needle.len())
            == needle
}

/// `str::contains` with a string as pattern: whether the pattern matches a
/// sub-slice of the text.
#[verifier::external_body]
pub(crate) fn contains(hay: &str, needle: &str) -> (r: bool)
    ensures
        r == is_substring(needle@, hay@),
{
    hay.contains(needle)
}

/// A prefix followed by a text.
pub fn prefixed(prefix: &str, text: &str) -> (r: String)
    ensures
        r@ == prefix@ + text@,
{
    let head = prefix.to_owned();
    head.concat(text)
}

/// An owned copy of a text.
pub fn owned(text: &str) -> (r: String)
    ensures
        r@ == text@,
{
    text.to_owned()
}

} // verus!
