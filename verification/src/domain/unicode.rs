//! Grapheme counting, through `unicode-segmentation`.
use unicode_segmentation::UnicodeSegmentation;
use vstd::prelude::*;

verus! {

/// What `UnicodeSegmentation::graphemes(s, true).count()` returns for `s`:
/// the number of extended grapheme clusters, whose rules fill UAX #29.
pub uninterp spec fn grapheme_count(s: Seq<char>) -> nat;

/// `UnicodeSegmentation::graphemes(s, true)` (unicode-segmentation), counted.
#[verifier::external_body]
pub(crate) fn count_graphemes(s: &str) -> (n: usize)
    ensures
        n == grapheme_count(s@),
{
    s.graphemes(true).count()
}

} // verus!
