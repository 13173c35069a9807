//! Segmentation of text into extended grapheme clusters.
//!
//! The decomposition itself comes from the `unicode-segmentation` crate;
//! everything downstream of it is verified against the two facts stated
//! here: the clusters are exactly `graphemes_of` the input, and their
//! concatenation is the input itself.

use unicode_segmentation::UnicodeSegmentation;
use vstd::prelude::*;

verus! {

/// The extended grapheme clusters of a character sequence, in order.
pub uninterp spec fn graphemes_of(s: Seq<char>) -> Seq<Seq<char>>;

/// Relies on `UnicodeSegmentation::graphemes` (extended grapheme clusters):
/// the iterator yields consecutive substrings of the input, in order, from
/// its start to its end, so their concatenation is the input itself; the
/// decomposition depends on the characters alone.
#[verifier::external_body]
pub(crate) fn split_graphemes(s: &str) -> (r: Vec<String>)
    ensures
        r.deep_view() == graphemes_of(s@),
        r.deep_view().flatten() == s@,
{
    s.graphemes(true).map(|g| g.to_string()).collect()
}

} // verus!
