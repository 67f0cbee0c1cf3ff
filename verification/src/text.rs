//! String helpers shared by the modules.

use vstd::prelude::*;

verus! {

// The text that `str::to_lowercase` yields for `s`: Unicode lowercasing, which is
// fixed by the character tables of the standard library and by nothing else.
pub uninterp spec fn lowercase_of(s: Seq<char>) -> Seq<char>;

/// The characters of each string.
pub open spec fn string_views(items: Seq<String>) -> Seq<Seq<char>> {
    items.map_values(|item: String| item@)
}

/// `needle` occurs in `hay` as a contiguous run of characters.
pub open spec fn contains_subseq(hay: Seq<char>, needle: Seq<char>) -> bool {
    exists|i: int|
        0 <= i && i + needle.len() <= hay.len() && #[trigger] hay.subrange(
            i,
            i + needle.len(),
        ) == needle
}

/// Calls `str::to_lowercase`. Trusted: the result is the Unicode lowercase form
/// of `s`, which this crate only knows by the name `lowercase_of`.
#[verifier::external_body]
pub(crate) fn to_lowercase(s: &str) -> (r: String)
    ensures
        r@ == lowercase_of(s@),
{
    s.to_lowercase()
}

/// Calls `str::contains` with a string pattern. Trusted: the answer is `true`
/// exactly when `needle` occurs in `hay` as a contiguous run of characters
/// (the empty needle occurs everywhere).
#[verifier::external_body]
pub(crate) fn contains_text(hay: &str, needle: &str) -> (r: bool)
    ensures
        r == contains_subseq(hay@, needle@),
{
    hay.contains(needle)
}

/// Whether two string slices hold the same characters.
pub fn str_eq(a: &str, b: &str) -> (r: bool)
    ensures
        r == (a@ == b@),
{
    let x = a.to_owned();
    let y = b.to_owned();
    x == y
}

} // verus!
