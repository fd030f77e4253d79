//! Unicode segmentation of text into grapheme clusters and words.
//!
//! The segmentation rules themselves come from the `unicode-segmentation`
//! crate. What this crate relies on is stated here and taken on trust.
use vstd::prelude::*;
use unicode_segmentation::UnicodeSegmentation;
use crate::text::{texts, utf8_len};

verus! {

/// The extended grapheme clusters of `text`, in order, as
/// `UnicodeSegmentation::graphemes(text, true)` yields them.
pub uninterp spec fn grapheme_split(text: Seq<char>) -> Seq<Seq<char>>;

/// The pieces of `text` between word boundaries, in order, as
/// `UnicodeSegmentation::split_word_bound_indices` yields them.
pub uninterp spec fn word_split(text: Seq<char>) -> Seq<Seq<char>>;

/// `parts` cuts `text` into consecutive non-empty pieces.
pub open spec fn is_partition(parts: Seq<Seq<char>>, text: Seq<char>) -> bool {
    &&& parts.flatten() == text
    &&& forall|i: int| 0 <= i < parts.len() ==> (#[trigger] parts[i]).len() > 0
}

/// The text of each piece of a word split.
pub open spec fn word_texts(words: Seq<(usize, String)>) -> Seq<Seq<char>> {
    Seq::new(words.len(), |i: int| words[i].1@)
}

/// Calls `UnicodeSegmentation::graphemes(s, true)` and collects the clusters.
///
/// Trusted: the result is a function of the text alone; the iterator hands
/// out consecutive slices of `s`, each at least one character long, until
/// the end of `s` is reached.
#[verifier::external_body]
pub(crate) fn grapheme_clusters(s: &str) -> (r: Vec<String>)
    ensures
        texts(r@) == grapheme_split(s@),
        is_partition(texts(r@), s@),
{
    s.graphemes(true).map(|g| g.to_string()).collect()
}

/// Calls `UnicodeSegmentation::split_word_bound_indices(s)` and collects the
/// pieces with their byte offsets.
///
/// Trusted: the result is a function of the text alone; the pieces are
/// consecutive slices of `s` whose concatenation is `s`, and each comes with
/// the byte offset at which it starts.
#[verifier::external_body]
pub(crate) fn word_bound_indices(s: &str) -> (r: Vec<(usize, String)>)
    ensures
        word_texts(r@) == word_split(s@),
        word_texts(r@).flatten() == s@,
        forall|i: int|
            0 <= i < r.len() ==> (#[trigger] r[i]).0 == utf8_len(word_texts(r@).take(i).flatten()),
{
    s.split_word_bound_indices().map(|(i, w)| (i, w.to_string())).collect()
}

} // verus!
