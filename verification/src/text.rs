//! Text helpers shared by the name lookups.

use vstd::prelude::*;

verus! {

/// The characters that `str::to_lowercase` gives back for a string: its
/// Unicode lowercase form, in which most characters map on their own and a
/// few (such as a capital sigma at the end of a word) by their context.
pub uninterp spec fn unicode_lowercase(s: Seq<char>) -> Seq<char>;

/// Calls `str::to_lowercase` from std.
///
/// Trusted: the characters of the result are `unicode_lowercase` of the
/// characters of `s`, so two strings with the same characters lower to the
/// same string. Nothing more of the Unicode mapping is stated.
#[verifier::external_body]
pub(crate) fn to_lowercase(s: &str) -> (lowered: String)
    ensures
        lowered@ == unicode_lowercase(s@),
{
    s.to_lowercase()
}

/// `parts` joined with `sep` between each two neighbours.
pub open spec fn joined(parts: Seq<Seq<char>>, sep: Seq<char>) -> Seq<char>
    decreases parts.len(),
{
    if parts.len() == 0 {
        Seq::empty()
    } else if parts.len() == 1 {
        parts[0]
    } else {
        joined(parts.drop_last(), sep) + sep + parts.last()
    }
}

/// Whether the characters of `s` are those of `lit`.
pub(crate) fn same_text(s: &str, lit: &str) -> (same: bool)
    ensures
        same == (s@ == lit@),
{
    let a = s.to_owned();
    let b = lit.to_owned();
    a == b
}

} // verus!
