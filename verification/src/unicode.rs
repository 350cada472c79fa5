//! What this library takes on trust from the Unicode crates: how a text
//! divides into grapheme clusters, and how many columns a cluster takes up.
//! Nothing here is proved; each contract says what the call is believed to do.

use unicode_segmentation::UnicodeSegmentation;
use unicode_width::UnicodeWidthStr;
use vstd::prelude::*;

verus! {

/// The extended grapheme clusters of `text`, in reading order, as
/// `UnicodeSegmentation::graphemes(text, true)` yields them.
pub uninterp spec fn grapheme_clusters(text: Seq<char>) -> Seq<Seq<char>>;

/// The number of columns `text` takes up on screen, as
/// `UnicodeWidthStr::width(text)` measures it.
pub uninterp spec fn display_width(text: Seq<char>) -> usize;

/// Calls `UnicodeSegmentation::graphemes` of unicode-segmentation, asking for
/// extended clusters, and copies each cluster into a `String`. The contract
/// claims that the clusters handed back, in order, are the ones the iterator
/// yields for this text, and what its source shows of them: the iterator
/// cuts the text into consecutive pieces from its beginning to its end, so
/// no cluster is empty and the clusters joined give the text again.
#[verifier::external_body]
pub(crate) fn split_graphemes(text: &str) -> (clusters: Vec<String>)
    ensures
        clusters.deep_view() == grapheme_clusters(text@),
        clusters.deep_view().flatten() == text@,
        forall|i: int| 0 <= i < clusters@.len() ==> (#[trigger] clusters@[i])@.len() > 0,
{
    text.graphemes(true).map(String::from).collect()
}

/// Calls `UnicodeWidthStr::width` of unicode-width. The contract claims only
/// that the number handed back is the one the crate computes for this text.
#[verifier::external_body]
pub(crate) fn measure_width(text: &str) -> (columns: usize)
    ensures
        columns == display_width(text@),
{
    text.width()
}

} // verus!
