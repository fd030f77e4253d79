//! One line of text, indexed by grapheme cluster.
//!
//! A line keeps its raw text together with one fragment per grapheme
//! cluster. The fragments are always derived from the raw text as a whole:
//! every change to the text segments it anew.
use vstd::prelude::*;
use core::ops::Range;
use vstd::string::StringExecFns;
use vstd::string::StrSliceExecFns;
use crate::annotated_string::{
    joined_text, lemma_parts_cover, parts_from, AnnotatedModel, AnnotatedString, Annotation,
    AnnotationType,
};
use crate::segmentation::{grapheme_clusters, grapheme_split, is_partition};
use crate::text::{
    byte_len, lemma_encode_concat, lemma_flatten_split, lemma_flatten_take_next, split_str, texts,
    utf8_len,
};
use crate::width::{
    cluster_width, lemma_width_le_bytes, replacement_for, replacement_of, width_of_char,
};

verus! {

/// Columns that a fragment takes on screen.
#[derive(Clone, Copy, Debug, PartialEq, Eq, Structural)]
pub enum GraphemeWidth {
    Zero,
    Half,
    Full,
}

impl GraphemeWidth {
    /// The number of columns.
    pub open spec fn cols(self) -> nat {
        match self {
            GraphemeWidth::Zero => 0,
            GraphemeWidth::Half => 1,
            GraphemeWidth::Full => 2,
        }
    }

    /// The number of columns.
    pub fn as_usize(self) -> (n: usize)
        ensures
            n == self.cols(),
    {
        match self {
            GraphemeWidth::Zero => 0,
            GraphemeWidth::Half => 1,
            GraphemeWidth::Full => 2,
        }
    }

    /// The width that takes `cols` columns; anything above two counts as two.
    pub fn from_cols(cols: usize) -> (w: GraphemeWidth)
        ensures
            w.cols() == if cols <= 2 { cols as nat } else { 2 },
    {
        if cols == 0 {
            GraphemeWidth::Zero
        } else if cols == 1 {
            GraphemeWidth::Half
        } else {
            GraphemeWidth::Full
        }
    }
}

/// One grapheme cluster of a line.
#[derive(Clone, Debug)]
pub struct TextFragment {
    /// The cluster's text.
    pub grapheme: String,
    /// The columns it takes on screen.
    pub rendered_width: GraphemeWidth,
    /// The glyph drawn in its place, if any.
    pub replacement: Option<char>,
    /// The byte offset at which it starts in the line's raw text.
    pub start: usize,
}

/// What a fragment holds, as plain values.
pub struct FragmentModel {
    pub grapheme: Seq<char>,
    pub width: nat,
    pub replacement: Option<char>,
    pub start: nat,
}

impl View for TextFragment {
    type V = FragmentModel;

    open spec fn view(&self) -> FragmentModel {
        FragmentModel {
            grapheme: self.grapheme@,
            width: self.rendered_width.cols(),
            replacement: self.replacement,
            start: self.start as nat,
        }
    }
}

/// The models of a sequence of fragments.
pub open spec fn fragment_models(fragments: Seq<TextFragment>) -> Seq<FragmentModel> {
    Seq::new(fragments.len(), |i: int| fragments[i]@)
}

/// Total width of the first `n` clusters.
pub open spec fn prefix_width(clusters: Seq<Seq<char>>, n: int) -> nat
    decreases n,
{
    if n <= 0 {
        0
    } else {
        prefix_width(clusters, n - 1) + cluster_width(clusters[n - 1])
    }
}

/// Number of characters in the first `n` clusters.
pub open spec fn prefix_chars(clusters: Seq<Seq<char>>, n: int) -> nat {
    clusters.take(n).flatten().len()
}

/// Number of bytes in the first `n` clusters.
pub open spec fn prefix_bytes(clusters: Seq<Seq<char>>, n: int) -> nat {
    utf8_len(clusters.take(n).flatten())
}

/// The fragment that stands for cluster `i` of `clusters`.
pub open spec fn fragment_at(clusters: Seq<Seq<char>>, i: int) -> FragmentModel {
    FragmentModel {
        grapheme: clusters[i],
        width: cluster_width(clusters[i]),
        replacement: replacement_of(clusters[i]),
        start: prefix_bytes(clusters, i),
    }
}

/// The fragments that stand for `clusters`.
pub open spec fn fragments_for(clusters: Seq<Seq<char>>) -> Seq<FragmentModel> {
    Seq::new(clusters.len(), |i: int| fragment_at(clusters, i))
}

/// The fragments of a line whose raw text is `text`.
pub open spec fn fragments_of(text: Seq<char>) -> Seq<FragmentModel> {
    fragments_for(grapheme_split(text))
}

/// Sum of the widths of `fragments`.
pub open spec fn total_width(fragments: Seq<FragmentModel>) -> nat
    decreases fragments.len(),
{
    if fragments.len() == 0 {
        0
    } else {
        fragments[0].width + total_width(fragments.drop_first())
    }
}

/// Number of grapheme clusters in `text`.
pub open spec fn count_of(text: Seq<char>) -> nat {
    grapheme_split(text).len()
}

/// A grapheme index, clamped to the number of clusters in `text`.
pub open spec fn clamp_index(text: Seq<char>, g: int) -> int {
    if g < 0 {
        0
    } else if g < count_of(text) {
        g
    } else {
        count_of(text) as int
    }
}

/// Columns taken by the clusters of `text` before grapheme index `g`.
pub open spec fn width_until_of(text: Seq<char>, g: int) -> nat {
    prefix_width(grapheme_split(text), clamp_index(text, g))
}

/// Byte offset in `text` at which grapheme index `g` starts.
pub open spec fn byte_offset_of(text: Seq<char>, g: int) -> nat {
    prefix_bytes(grapheme_split(text), clamp_index(text, g))
}

/// The text before grapheme index `g`.
pub open spec fn text_before(text: Seq<char>, g: int) -> Seq<char> {
    grapheme_split(text).take(clamp_index(text, g)).flatten()
}

/// The text from grapheme index `g` on.
pub open spec fn text_from(text: Seq<char>, g: int) -> Seq<char> {
    grapheme_split(text).skip(clamp_index(text, g)).flatten()
}

/// `text` with `c` put in front of grapheme index `g`.
pub open spec fn insert_of(text: Seq<char>, c: char, g: int) -> Seq<char> {
    text_before(text, g).push(c) + text_from(text, g)
}

/// `text` without the cluster at grapheme index `g`; unchanged where there
/// is no such cluster.
pub open spec fn delete_of(text: Seq<char>, g: int) -> Seq<char> {
    if 0 <= g < count_of(text) {
        text_before(text, g) + text_from(text, g + 1)
    } else {
        text
    }
}

/// `needle`, which has `n` clusters, stands at grapheme index `i`: the `n`
/// clusters from `i` on spell it.
pub open spec fn occurs_at(clusters: Seq<Seq<char>>, needle: Seq<char>, n: int, i: int) -> bool {
    &&& n > 0
    &&& 0 <= i
    &&& i + n <= clusters.len()
    &&& clusters.subrange(i, i + n).flatten() == needle
}

/// The `n` clusters from `i` on lie inside the byte window from `lo` to `hi`.
pub open spec fn in_window(clusters: Seq<Seq<char>>, n: int, i: int, lo: int, hi: int) -> bool {
    lo <= prefix_bytes(clusters, i) && prefix_bytes(clusters, i + n) <= hi
}

/// The occurrences of `needle` inside the byte window, found from grapheme
/// index `pos` on: the leftmost first, each next one sought after the end
/// of the one before, so that no two overlap.
pub open spec fn matches_from(
    clusters: Seq<Seq<char>>,
    needle: Seq<char>,
    n: int,
    lo: int,
    hi: int,
    pos: int,
) -> Seq<(usize, usize)>
    decreases clusters.len() - pos,
{
    if pos < 0 || n <= 0 || pos + n > clusters.len() {
        Seq::empty()
    } else if occurs_at(clusters, needle, n, pos) && in_window(clusters, n, pos, lo, hi) {
        seq![(pos as usize, (pos + n) as usize)] + matches_from(
            clusters,
            needle,
            n,
            lo,
            hi,
            pos + n,
        )
    } else {
        matches_from(clusters, needle, n, lo, hi, pos + 1)
    }
}

/// The occurrences of `needle` in `text` inside the byte window from `lo`
/// to `hi`, each as the grapheme indices of its start and its end.
pub open spec fn find_all_of(text: Seq<char>, needle: Seq<char>, lo: int, hi: int) -> Seq<
    (usize, usize),
> {
    matches_from(grapheme_split(text), needle, count_of(needle) as int, lo, hi, 0)
}

/// Where a search forward from grapheme index `from` ends: at the first
/// index at or after `from` where `needle` stands.
pub open spec fn is_first_match(
    text: Seq<char>,
    needle: Seq<char>,
    from: int,
    found: Option<usize>,
) -> bool {
    let clusters = grapheme_split(text);
    let n = count_of(needle) as int;
    match found {
        Some(i) => {
            &&& from <= i
            &&& occurs_at(clusters, needle, n, i as int)
            &&& forall|j: int| from <= j < i ==> !occurs_at(clusters, needle, n, j)
        },
        None => forall|j: int| from <= j ==> !occurs_at(clusters, needle, n, j),
    }
}

/// Where a search backward from grapheme index `from` ends: at the last of
/// the occurrences that end at or before `from`.
pub open spec fn last_match_of(text: Seq<char>, needle: Seq<char>, from: int) -> Option<usize> {
    let found = find_all_of(text, needle, 0, byte_offset_of(text, from) as int);
    if found.len() > 0 {
        Some(found.last().0)
    } else {
        None
    }
}

/// What a cluster shows as on screen: its replacement glyph where it has
/// one, else its own text.
pub open spec fn display_of(cluster: Seq<char>) -> Seq<char> {
    match replacement_of(cluster) {
        Some(glyph) => seq![glyph],
        None => cluster,
    }
}

/// The first grapheme index at or after `from` whose cluster starts at
/// column `col` or further right; the number of clusters where there is
/// none.
pub open spec fn column_index(clusters: Seq<Seq<char>>, col: int, from: int) -> int
    decreases clusters.len() - from,
{
    if from < 0 || from >= clusters.len() || prefix_width(clusters, from) >= col {
        from
    } else {
        column_index(clusters, col, from + 1)
    }
}

/// What the clusters from `lo` up to `hi` show as.
pub open spec fn visible_cells(clusters: Seq<Seq<char>>, lo: int, hi: int) -> Seq<Seq<char>> {
    Seq::new((hi - lo) as nat, |j: int| display_of(clusters[lo + j]))
}

/// The annotation of kind `kind` for an occurrence, cut to the clusters
/// from `lo` up to `hi` and counted from `lo`.
pub open spec fn clipped(
    occurrence: (usize, usize),
    lo: int,
    hi: int,
    kind: AnnotationType,
) -> Annotation {
    Annotation {
        annotation_type: kind,
        start: if occurrence.0 < lo {
            0
        } else {
            (occurrence.0 - lo) as usize
        },
        end: if occurrence.1 < hi {
            (occurrence.1 - lo) as usize
        } else {
            (hi - lo) as usize
        },
    }
}

/// Whether an occurrence gets an annotation: it has to reach into the
/// clusters from `lo` up to `hi`, and to start at `only` where that is set.
pub open spec fn is_annotated(occurrence: (usize, usize), lo: int, hi: int, only: Option<usize>) -> bool {
    &&& occurrence.0 < hi
    &&& lo < occurrence.1
    &&& (only is None || only == Some(occurrence.0))
}

/// The annotations of kind `kind` for the occurrences `found`, in their
/// order.
pub open spec fn window_annotations(
    found: Seq<(usize, usize)>,
    lo: int,
    hi: int,
    kind: AnnotationType,
    only: Option<usize>,
) -> Seq<Annotation>
    decreases found.len(),
{
    if found.len() == 0 {
        Seq::empty()
    } else {
        let earlier = window_annotations(found.drop_last(), lo, hi, kind, only);
        if is_annotated(found.last(), lo, hi, only) {
            earlier.push(clipped(found.last(), lo, hi, kind))
        } else {
            earlier
        }
    }
}

/// The annotations of a visible stretch: one of kind `Match` for every
/// occurrence of the query, and after them one of kind `SelectedMatch`
/// for the occurrence that starts at the selected grapheme index.
pub open spec fn visible_annotations(
    text: Seq<char>,
    lo: int,
    hi: int,
    query: Option<Seq<char>>,
    selected: Option<usize>,
) -> Seq<Annotation> {
    match query {
        None => Seq::empty(),
        Some(needle) => {
            let found = find_all_of(text, needle, 0, utf8_len(text) as int);
            let matches = window_annotations(found, lo, hi, AnnotationType::Match, None);
            match selected {
                None => matches,
                Some(g) => matches + window_annotations(
                    found,
                    lo,
                    hi,
                    AnnotationType::SelectedMatch,
                    Some(g),
                ),
            }
        },
    }
}

/// What of a line with raw text `text` shows in the columns from `start`
/// up to `end`: the fragments that start in one of these columns, each whole,
/// with the annotations of the query.
pub open spec fn visible_of(
    text: Seq<char>,
    start: int,
    end: int,
    query: Option<Seq<char>>,
    selected: Option<usize>,
) -> AnnotatedModel {
    let clusters = grapheme_split(text);
    let lo = column_index(clusters, start, 0);
    let hi = column_index(clusters, end, 0);
    if start >= end {
        AnnotatedModel { cells: Seq::empty(), annotations: Seq::empty() }
    } else {
        AnnotatedModel {
            cells: visible_cells(clusters, lo, hi),
            annotations: visible_annotations(text, lo, hi, query, selected),
        }
    }
}

/// A column index lies within the clusters, and what it finds is the
/// first cluster that starts at the column or further right.
pub proof fn lemma_column_index(clusters: Seq<Seq<char>>, col: int, from: int)
    requires
        0 <= from <= clusters.len(),
    ensures
        from <= column_index(clusters, col, from) <= clusters.len(),
        column_index(clusters, col, from) < clusters.len() ==> prefix_width(
            clusters,
            column_index(clusters, col, from),
        ) >= col,
        forall|i: int|
            from <= i < column_index(clusters, col, from) ==> prefix_width(clusters, i) < col,
    decreases clusters.len() - from,
{
    if from < clusters.len() && prefix_width(clusters, from) < col {
        lemma_column_index(clusters, col, from + 1);
    }
}

/// A column further right is found at the same index or further on.
pub proof fn lemma_column_index_grows(clusters: Seq<Seq<char>>, left: int, right: int, from: int)
    requires
        0 <= from <= clusters.len(),
        left <= right,
    ensures
        column_index(clusters, left, from) <= column_index(clusters, right, from),
    decreases clusters.len() - from,
{
    lemma_column_index(clusters, right, from);
    if from < clusters.len() && prefix_width(clusters, from) < left {
        lemma_column_index_grows(clusters, left, right, from + 1);
    }
}

/// The first grapheme index at or after `from` whose cluster starts at
/// byte offset `byte` or further on; the number of clusters where there is
/// none.
pub open spec fn byte_index(clusters: Seq<Seq<char>>, byte: int, from: int) -> int
    decreases clusters.len() - from,
{
    if from < 0 || from >= clusters.len() || prefix_bytes(clusters, from) >= byte {
        from
    } else {
        byte_index(clusters, byte, from + 1)
    }
}

/// The grapheme index that byte offset `byte` of `text` falls to.
pub open spec fn grapheme_index_of(text: Seq<char>, byte: int) -> int {
    byte_index(grapheme_split(text), byte, 0)
}

/// A line as an annotated string: one cell for each cluster, with its own
/// text, and the given annotations.
pub open spec fn annotated_of(text: Seq<char>, annotations: Seq<Annotation>) -> AnnotatedModel {
    AnnotatedModel { cells: grapheme_split(text), annotations }
}

/// Whether `c`, put into `text` in front of grapheme index `g`, stands as
/// a cluster of its own there: cluster `g` of the new text is `c` alone and
/// starts where `c` was put.
pub open spec fn stands_alone(text: Seq<char>, c: char, g: int) -> bool {
    let after = grapheme_split(insert_of(text, c, g));
    let at = clamp_index(text, g);
    &&& at < after.len()
    &&& after[at] == seq![c]
    &&& prefix_chars(after, at) == text_before(text, g).len()
}

/// The clusters of `text` cut it into consecutive non-empty pieces, and its
/// encoding fits the address space.
pub open spec fn well_segmented(text: Seq<char>) -> bool {
    &&& is_partition(grapheme_split(text), text)
    &&& utf8_len(text) <= usize::MAX
}

/// Text without characters has no clusters.
pub proof fn lemma_empty_has_no_clusters(text: Seq<char>)
    requires
        well_segmented(text),
        text.len() == 0,
    ensures
        count_of(text) == 0,
{
    let clusters = grapheme_split(text);
    if clusters.len() > 0 {
        assert(clusters[0].len() > 0);
        assert(clusters.flatten() =~= clusters[0] + clusters.drop_first().flatten());
    }
}

/// The bytes of a prefix of clusters never exceed those of all of them.
pub proof fn lemma_prefix_bytes(clusters: Seq<Seq<char>>, i: int)
    requires
        0 <= i <= clusters.len(),
    ensures
        prefix_bytes(clusters, i) + utf8_len(clusters.skip(i).flatten()) == utf8_len(
            clusters.flatten(),
        ),
        i < clusters.len() ==> prefix_bytes(clusters, i + 1) == prefix_bytes(clusters, i)
            + utf8_len(clusters[i]),
        i < clusters.len() ==> prefix_bytes(clusters, i + 1) <= utf8_len(clusters.flatten()),
        prefix_bytes(clusters, 0) == 0,
        i == clusters.len() ==> prefix_bytes(clusters, i) == utf8_len(clusters.flatten()),
{
    lemma_flatten_split(clusters, i);
    lemma_encode_concat(clusters.take(i).flatten(), clusters.skip(i).flatten());
    assert(clusters.take(0).flatten() =~= Seq::<char>::empty());
    if i < clusters.len() {
        lemma_flatten_take_next(clusters, i);
        lemma_encode_concat(clusters.take(i).flatten(), clusters[i]);
        lemma_flatten_split(clusters, i + 1);
        lemma_encode_concat(clusters.take(i + 1).flatten(), clusters.skip(i + 1).flatten());
    } else {
        assert(clusters.take(i) =~= clusters);
    }
}

/// The width of a prefix of clusters never exceeds its bytes, and grows
/// with the prefix.
pub proof fn lemma_prefix_width(clusters: Seq<Seq<char>>, i: int, j: int)
    requires
        0 <= i <= j <= clusters.len(),
    ensures
        prefix_width(clusters, i) <= prefix_width(clusters, j),
        prefix_width(clusters, j) <= prefix_bytes(clusters, j),
        prefix_width(clusters, j) <= 2 * j,
    decreases j,
{
    if j > 0 {
        lemma_width_le_bytes(clusters[j - 1]);
        lemma_prefix_bytes(clusters, j - 1);
        if i < j {
            lemma_prefix_width(clusters, i, j - 1);
        } else {
            lemma_prefix_width(clusters, i - 1, j - 1);
        }
    } else {
        lemma_prefix_bytes(clusters, 0);
    }
}

/// The sum of the widths of a sequence of fragments with one more at its end.
proof fn lemma_total_width_push(fragments: Seq<FragmentModel>, last: FragmentModel)
    ensures
        total_width(fragments.push(last)) == total_width(fragments) + last.width,
    decreases fragments.len(),
{
    if fragments.len() == 0 {
        assert(fragments.push(last).drop_first() =~= fragments);
    } else {
        assert(fragments.push(last).drop_first() =~= fragments.drop_first().push(last));
        lemma_total_width_push(fragments.drop_first(), last);
    }
}

/// The width of the first `n` clusters is the sum of the widths of their
/// fragments.
proof fn lemma_prefix_width_is_sum(clusters: Seq<Seq<char>>, n: int)
    requires
        0 <= n <= clusters.len(),
    ensures
        prefix_width(clusters, n) == total_width(fragments_for(clusters).take(n)),
    decreases n,
{
    let fragments = fragments_for(clusters);
    if n > 0 {
        lemma_prefix_width_is_sum(clusters, n - 1);
        assert(fragments.take(n) =~= fragments.take(n - 1).push(fragments[n - 1]));
        lemma_total_width_push(fragments.take(n - 1), fragments[n - 1]);
    }
}

/// The columns before a grapheme index of a well-segmented text are never
/// more than the bytes of the text, so that they can be counted.
pub proof fn lemma_width_fits(text: Seq<char>, g: int)
    requires
        well_segmented(text),
    ensures
        width_until_of(text, g) <= utf8_len(text) <= usize::MAX,
{
    let clusters = grapheme_split(text);
    let k = clamp_index(text, g);
    lemma_prefix_width(clusters, k, k);
    lemma_prefix_bytes(clusters, k);
}

/// The columns before a grapheme index never shrink as the index grows.
pub proof fn lemma_width_until_grows(text: Seq<char>, g1: int, g2: int)
    requires
        0 <= g1 <= g2,
    ensures
        width_until_of(text, g1) <= width_until_of(text, g2),
{
    lemma_prefix_width(grapheme_split(text), clamp_index(text, g1), clamp_index(text, g2));
}

/// The columns before the end of a line are the sum of the widths of all
/// its fragments.
pub proof fn lemma_width_until_end(text: Seq<char>)
    ensures
        width_until_of(text, count_of(text) as int) == total_width(fragments_of(text)),
{
    let clusters = grapheme_split(text);
    lemma_prefix_width_is_sum(clusters, clusters.len() as int);
    assert(fragments_for(clusters).take(clusters.len() as int) =~= fragments_for(clusters));
}

/// Inserting a character and deleting at the same grapheme index gives the
/// text back, wherever the character stands as a cluster of its own.
pub proof fn lemma_insert_then_delete(text: Seq<char>, c: char, g: int)
    requires
        well_segmented(text),
        well_segmented(insert_of(text, c, g)),
        0 <= g <= count_of(text),
        stands_alone(text, c, g),
    ensures
        delete_of(insert_of(text, c, g), g) == text,
{
    let at = clamp_index(text, g);
    let before = text_before(text, g);
    let rest = text_from(text, g);
    let longer = insert_of(text, c, g);
    let after = grapheme_split(longer);
    lemma_flatten_split(grapheme_split(text), at);
    lemma_flatten_split(after, at);
    lemma_flatten_take_next(after, at);
    let head = after.take(at).flatten();
    let tail = after.skip(at + 1).flatten();
    assert(longer =~= head + seq![c] + tail);
    assert(longer =~= before + seq![c] + rest);
    assert(head.len() == before.len());
    assert(head =~= longer.subrange(0, head.len() as int));
    assert(before =~= longer.subrange(0, before.len() as int));
    assert(tail =~= longer.subrange(head.len() as int + 1, longer.len() as int));
    assert(rest =~= longer.subrange(before.len() as int + 1, longer.len() as int));
    assert(clamp_index(longer, at) == at);
    assert(clamp_index(longer, at + 1) == at + 1);
    assert(text =~= before + rest);
}

/// Whether `found` are occurrences of `needle` as a search for all
/// occurrences gives them: each is an occurrence inside the byte window,
/// none starts before `from`, and each starts at or after the end of the
/// one before, so that no two overlap.
pub open spec fn are_matches(
    found: Seq<(usize, usize)>,
    clusters: Seq<Seq<char>>,
    needle: Seq<char>,
    n: int,
    lo: int,
    hi: int,
    from: int,
) -> bool {
    &&& forall|k: int|
        0 <= k < found.len() ==> {
            let occurrence = #[trigger] found[k];
            &&& from <= occurrence.0
            &&& occurrence.1 == occurrence.0 + n
            &&& occurs_at(clusters, needle, n, occurrence.0 as int)
            &&& in_window(clusters, n, occurrence.0 as int, lo, hi)
        }
    &&& forall|k: int| 0 <= k < found.len() - 1 ==> (#[trigger] found[k]).1 <= found[k + 1].0
}

/// A search for all occurrences gives occurrences inside the byte window,
/// from the left to the right, and no two of them overlap.
pub proof fn lemma_matches_from(
    clusters: Seq<Seq<char>>,
    needle: Seq<char>,
    n: int,
    lo: int,
    hi: int,
    pos: int,
)
    requires
        0 <= pos,
        clusters.len() <= usize::MAX,
    ensures
        are_matches(
            matches_from(clusters, needle, n, lo, hi, pos),
            clusters,
            needle,
            n,
            lo,
            hi,
            pos,
        ),
    decreases clusters.len() - pos,
{
    let all = matches_from(clusters, needle, n, lo, hi, pos);
    if n <= 0 || pos + n > clusters.len() {
    } else if occurs_at(clusters, needle, n, pos) && in_window(clusters, n, pos, lo, hi) {
        let later = matches_from(clusters, needle, n, lo, hi, pos + n);
        lemma_matches_from(clusters, needle, n, lo, hi, pos + n);
        assert(all =~= seq![(pos as usize, (pos + n) as usize)] + later);
        assert forall|k: int| 0 <= k < all.len() implies {
            let occurrence = #[trigger] all[k];
            &&& pos <= occurrence.0
            &&& occurrence.1 == occurrence.0 + n
            &&& occurs_at(clusters, needle, n, occurrence.0 as int)
            &&& in_window(clusters, n, occurrence.0 as int, lo, hi)
        } by {
            if k > 0 {
                assert(all[k] == later[k - 1]);
            }
        }
        assert forall|k: int| 0 <= k < all.len() - 1 implies (#[trigger] all[k]).1 <= all[k
            + 1].0 by {
            assert(all[k + 1] == later[k]);
            if k > 0 {
                assert(all[k] == later[k - 1]);
            }
        }
    } else {
        let later = matches_from(clusters, needle, n, lo, hi, pos + 1);
        lemma_matches_from(clusters, needle, n, lo, hi, pos + 1);
        assert(all == later);
        assert forall|k: int| 0 <= k < all.len() implies pos <= (#[trigger] all[k]).0 by {
            assert(all[k] == later[k]);
        }
    }
}

/// The fragments that stand for `clusters`: for each cluster its text, the
/// width of its first scalar value by the width table, its replacement
/// glyph, and the byte offset at which it starts.
pub fn build_fragments(clusters: &Vec<String>) -> (fragments: Vec<TextFragment>)
    requires
        utf8_len(texts(clusters@).flatten()) <= usize::MAX,
    ensures
        fragment_models(fragments@) == fragments_for(texts(clusters@)),
{
    let ghost parts = texts(clusters@);
    let mut fragments: Vec<TextFragment> = Vec::new();
    let mut offset: usize = 0;
    let mut i: usize = 0;
    while i < clusters.len()
        invariant
            parts == texts(clusters@),
            utf8_len(parts.flatten()) <= usize::MAX,
            0 <= i <= clusters.len(),
            fragments.len() == i,
            offset == prefix_bytes(parts, i as int),
            forall|j: int| 0 <= j < i ==> (#[trigger] fragments[j])@ == fragment_at(parts, j),
        decreases clusters.len() - i,
    {
        let cluster: &String = &clusters[i];
        assert(cluster@ == parts[i as int]);
        let (rendered_width, replacement) = if cluster.as_str().is_empty() {
            (GraphemeWidth::Zero, None)
        } else {
            let first: char = cluster.as_str().get_char(0);
            (GraphemeWidth::from_cols(width_of_char(first)), replacement_for(first))
        };
        proof {
            lemma_prefix_bytes(parts, i as int);
        }
        let size: usize = byte_len(cluster.as_str());
        fragments.push(
            TextFragment { grapheme: cluster.clone(), rendered_width, replacement, start: offset },
        );
        offset = offset + size;
        i = i + 1;
    }
    assert(fragment_models(fragments@) =~= fragments_for(parts));
    fragments
}

/// One line of text.
pub struct Line {
    fragments: Vec<TextFragment>,
    string: String,
}

impl View for Line {
    type V = Seq<char>;

    /// The raw text.
    closed spec fn view(&self) -> Seq<char> {
        self.string@
    }
}

impl Line {
    /// The fragments are those of the raw text.
    pub closed spec fn wf(&self) -> bool {
        &&& well_segmented(self.string@)
        &&& fragment_models(self.fragments@) == fragments_of(self.string@)
    }

    /// The fragments that the line holds.
    pub closed spec fn fragment_view(&self) -> Seq<FragmentModel> {
        fragment_models(self.fragments@)
    }

    /// What a well-formed line guarantees to the outside.
    pub proof fn lemma_wf(&self)
        requires
            self.wf(),
        ensures
            well_segmented(self@),
            self.fragment_view() == fragments_of(self@),
    {
    }

    /// The clusters of a well-formed line can be counted.
    pub proof fn lemma_count(&self)
        requires
            self.wf(),
        ensures
            count_of(self@) <= usize::MAX,
    {
        assert(self.fragments@.len() == fragment_models(self.fragments@).len());
        assert(self.fragments@.len() == self.fragments.len());
    }

    /// Segments `line_str` into grapheme clusters.
    pub fn from(line_str: &str) -> (line: Line)
        ensures
            line.wf(),
            line@ == line_str@,
    {
        let clusters = grapheme_clusters(line_str);
        let size: usize = byte_len(line_str);
        let fragments = build_fragments(&clusters);
        Line { fragments, string: line_str.to_owned() }
    }

    /// The raw text of the line.
    pub fn raw_text(&self) -> (text: &str)
        ensures
            text@ == self@,
    {
        self.string.as_str()
    }

    /// The fragments of the line, one per grapheme cluster.
    pub fn fragments(&self) -> (fragments: &Vec<TextFragment>)
        ensures
            fragment_models(fragments@) == self.fragment_view(),
            self.wf() ==> fragment_models(fragments@) == fragments_of(self@),
    {
        &self.fragments
    }

    /// Derives the fragments from the raw text anew, whatever fragments
    /// the line held before: afterwards they are those of the raw text, which
    /// stays as it is. Of a well-formed line the fragments come out as they
    /// were.
    pub fn resegment(&mut self)
        ensures
            final(self).wf(),
            final(self)@ == old(self)@,
            final(self).fragment_view() == fragments_of(old(self)@),
            old(self).wf() ==> final(self).fragment_view() == old(self).fragment_view(),
    {
        let clusters = grapheme_clusters(self.string.as_str());
        let size: usize = byte_len(self.string.as_str());
        self.fragments = build_fragments(&clusters);
    }

    /// Number of grapheme clusters.
    pub fn grapheme_count(&self) -> (count: usize)
        requires
            self.wf(),
        ensures
            count == count_of(self@),
    {
        assert(self.fragments@.len() == fragment_models(self.fragments@).len());
        self.fragments.len()
    }

    /// Length of the raw text in bytes.
    pub fn len(&self) -> (n: usize)
        ensures
            n == utf8_len(self@),
    {
        byte_len(self.string.as_str())
    }

    /// Whether the line holds no text.
    pub fn is_empty(&self) -> (empty: bool)
        ensures
            empty == (self@.len() == 0),
    {
        self.string.as_str().is_empty()
    }

    /// Columns taken by the fragments before `grapheme_idx`. An index past
    /// the end gives the width of the whole line.
    pub fn width_until(&self, grapheme_idx: usize) -> (width: usize)
        requires
            self.wf(),
        ensures
            width == width_until_of(self@, grapheme_idx as int),
    {
        let ghost clusters = grapheme_split(self@);
        let end: usize = if grapheme_idx < self.fragments.len() {
            grapheme_idx
        } else {
            self.fragments.len()
        };
        assert(self.fragments@.len() == fragment_models(self.fragments@).len());
        let mut width: usize = 0;
        let mut i: usize = 0;
        while i < end
            invariant
                self.wf(),
                clusters == grapheme_split(self@),
                0 <= i <= end <= self.fragments.len(),
                self.fragments.len() == clusters.len(),
                width == prefix_width(clusters, i as int),
            decreases end - i,
        {
            proof {
                lemma_prefix_width(clusters, i as int, i + 1);
                lemma_prefix_bytes(clusters, i as int);
                assert(self.fragments[i as int]@ == fragment_models(self.fragments@)[i as int]);
            }
            width = width + self.fragments[i].rendered_width.as_usize();
            i = i + 1;
        }
        width
    }

    /// Columns taken by the whole line.
    pub fn width(&self) -> (width: usize)
        requires
            self.wf(),
        ensures
            width == width_until_of(self@, count_of(self@) as int),
    {
        let count: usize = self.grapheme_count();
        self.width_until(count)
    }

    /// Byte offset at which the fragment at `grapheme_idx` starts. An index
    /// past the end gives the length of the raw text.
    pub fn byte_offset(&self, grapheme_idx: usize) -> (offset: usize)
        requires
            self.wf(),
        ensures
            offset == byte_offset_of(self@, grapheme_idx as int),
    {
        let ghost clusters = grapheme_split(self@);
        assert(self.fragments@.len() == fragment_models(self.fragments@).len());
        if grapheme_idx < self.fragments.len() {
            assert(self.fragments[grapheme_idx as int]@ == fragment_models(
                self.fragments@,
            )[grapheme_idx as int]);
            self.fragments[grapheme_idx].start
        } else {
            proof {
                lemma_prefix_bytes(clusters, clusters.len() as int);
            }
            byte_len(self.string.as_str())
        }
    }

    /// The raw text is the text before a grapheme index followed by the
    /// text from that index on, and the first part ends at the byte offset
    /// of the index.
    proof fn lemma_cut(&self, g: int)
        requires
            self.wf(),
        ensures
            self@ =~= text_before(self@, g) + text_from(self@, g),
            text_before(self@, g) =~= self@.subrange(0, text_before(self@, g).len() as int),
            text_from(self@, g) =~= self@.subrange(
                text_before(self@, g).len() as int,
                self@.len() as int,
            ),
            utf8_len(text_before(self@, g)) == byte_offset_of(self@, g),
    {
        lemma_flatten_split(grapheme_split(self@), clamp_index(self@, g));
    }

    /// Puts `character` in front of the fragment at `grapheme_idx`, or at
    /// the end of the line where the index is past it.
    pub fn insert(&mut self, character: char, grapheme_idx: usize)
        requires
            old(self).wf(),
        ensures
            final(self).wf(),
            final(self)@ == insert_of(old(self)@, character, grapheme_idx as int),
    {
        let at: usize = self.byte_offset(grapheme_idx);
        let ghost k = text_before(self@, grapheme_idx as int).len() as int;
        proof {
            self.lemma_cut(grapheme_idx as int);
        }
        let (left, right) = split_str(self.string.as_str(), at, Ghost(k));
        let mut text: String = left.to_owned();
        text.push(character);
        text.append(right);
        *self = Line::from(text.as_str());
    }

    /// Removes the fragment at `grapheme_idx`. Nothing changes where the
    /// index is at or past the end of the line.
    pub fn delete(&mut self, grapheme_idx: usize)
        requires
            old(self).wf(),
        ensures
            final(self).wf(),
            final(self)@ == delete_of(old(self)@, grapheme_idx as int),
    {
        if grapheme_idx < self.grapheme_count() {
            let start: usize = self.byte_offset(grapheme_idx);
            let end: usize = self.byte_offset(grapheme_idx + 1);
            let ghost k1 = text_before(self@, grapheme_idx as int).len() as int;
            let ghost k2 = text_before(self@, grapheme_idx + 1).len() as int;
            proof {
                self.lemma_cut(grapheme_idx as int);
                self.lemma_cut(grapheme_idx + 1);
            }
            let (left, _) = split_str(self.string.as_str(), start, Ghost(k1));
            let (_, right) = split_str(self.string.as_str(), end, Ghost(k2));
            let mut text: String = left.to_owned();
            text.append(right);
            *self = Line::from(text.as_str());
        }
    }

    /// Cuts the line in front of the fragment at `grapheme_idx`: the first
    /// line holds what stands before it, the second the rest.
    pub fn split(&self, grapheme_idx: usize) -> (parts: (Line, Line))
        requires
            self.wf(),
        ensures
            parts.0.wf(),
            parts.1.wf(),
            parts.0@ == text_before(self@, grapheme_idx as int),
            parts.1@ == text_from(self@, grapheme_idx as int),
    {
        let at: usize = self.byte_offset(grapheme_idx);
        let ghost k = text_before(self@, grapheme_idx as int).len() as int;
        proof {
            self.lemma_cut(grapheme_idx as int);
        }
        let (left, right) = split_str(self.string.as_str(), at, Ghost(k));
        (Line::from(left), Line::from(right))
    }

    /// Joins the text of `other` onto the end of the line.
    pub fn append(&mut self, other: &Line)
        requires
            old(self).wf(),
        ensures
            final(self).wf(),
            final(self)@ == old(self)@ + other@,
    {
        let mut text: String = self.string.clone();
        text.append(other.string.as_str());
        *self = Line::from(text.as_str());
    }

    /// Whether `needle` stands at grapheme index `pos`.
    fn occurs(&self, needle: &Line, pos: usize) -> (found: bool)
        requires
            self.wf(),
            needle.wf(),
            count_of(needle@) > 0,
            pos + count_of(needle@) <= count_of(self@),
        ensures
            found == occurs_at(
                grapheme_split(self@),
                needle@,
                count_of(needle@) as int,
                pos as int,
            ),
    {
        let ghost clusters = grapheme_split(self@);
        let n: usize = needle.grapheme_count();
        assert(self.fragments@.len() == fragment_models(self.fragments@).len());
        let mut candidate: String = String::new();
        let mut j: usize = 0;
        assert(clusters.subrange(pos as int, pos as int).flatten() =~= Seq::<char>::empty());
        while j < n
            invariant
                self.wf(),
                clusters == grapheme_split(self@),
                self.fragments.len() == clusters.len(),
                0 <= j <= n,
                pos + n <= clusters.len(),
                candidate@ == clusters.subrange(pos as int, pos + j).flatten(),
            decreases n - j,
        {
            proof {
                assert(self.fragments[pos + j]@ == fragment_models(self.fragments@)[pos + j]);
                assert(clusters.subrange(pos as int, pos + j + 1) =~= clusters.subrange(
                    pos as int,
                    pos + j,
                ).push(clusters[pos + j]));
                clusters.subrange(pos as int, pos + j).lemma_flatten_push(clusters[pos + j]);
            }
            candidate.append(self.fragments[pos + j].grapheme.as_str());
            j = j + 1;
        }
        candidate == needle.string
    }

    /// Every occurrence of `needle` inside the byte window `byte_range`, as
    /// the grapheme indices of its start and its end. The search is
    /// case-sensitive; the leftmost occurrence comes first and no two
    /// overlap. An empty needle occurs nowhere.
    pub fn find_all(&self, needle: &Line, byte_range: Range<usize>) -> (found: Vec<(usize, usize)>)
        requires
            self.wf(),
            needle.wf(),
        ensures
            found@ == find_all_of(self@, needle@, byte_range.start as int, byte_range.end as int),
            are_matches(
                found@,
                grapheme_split(self@),
                needle@,
                count_of(needle@) as int,
                byte_range.start as int,
                byte_range.end as int,
                0,
            ),
    {
        let ghost clusters = grapheme_split(self@);
        let ghost lo = byte_range.start as int;
        let ghost hi = byte_range.end as int;
        let n: usize = needle.grapheme_count();
        let count: usize = self.grapheme_count();
        proof {
            lemma_matches_from(clusters, needle@, n as int, lo, hi, 0);
        }
        let mut found: Vec<(usize, usize)> = Vec::new();
        if n == 0 || n > count {
            return found;
        }
        let mut pos: usize = 0;
        while pos <= count - n
            invariant
                self.wf(),
                needle.wf(),
                clusters == grapheme_split(self@),
                count == clusters.len(),
                n == count_of(needle@),
                0 < n <= count,
                lo == byte_range.start,
                hi == byte_range.end,
                0 <= pos <= count,
                found@ + matches_from(clusters, needle@, n as int, lo, hi, pos as int)
                    == matches_from(clusters, needle@, n as int, lo, hi, 0),
            decreases count - pos,
        {
            let start: usize = self.byte_offset(pos);
            let end: usize = self.byte_offset(pos + n);
            if byte_range.start <= start && end <= byte_range.end && self.occurs(needle, pos) {
                let ghost before = found@;
                found.push((pos, pos + n));
                assert(found@ + matches_from(clusters, needle@, n as int, lo, hi, pos + n)
                    =~= before + matches_from(clusters, needle@, n as int, lo, hi, pos as int));
                pos = pos + n;
            } else {
                pos = pos + 1;
            }
        }
        assert(found@ + Seq::<(usize, usize)>::empty() =~= found@);
        found
    }

    /// The first grapheme index at or after `from_grapheme_idx` where
    /// `query` stands, if there is one.
    pub fn search_forward(&self, query: &Line, from_grapheme_idx: usize) -> (found: Option<usize>)
        requires
            self.wf(),
            query.wf(),
        ensures
            is_first_match(self@, query@, from_grapheme_idx as int, found),
    {
        let ghost clusters = grapheme_split(self@);
        let n: usize = query.grapheme_count();
        let count: usize = self.grapheme_count();
        if n == 0 || n > count {
            return None;
        }
        let mut pos: usize = from_grapheme_idx;
        while pos <= count - n
            invariant
                self.wf(),
                query.wf(),
                clusters == grapheme_split(self@),
                count == clusters.len(),
                n == count_of(query@),
                0 < n <= count,
                from_grapheme_idx <= pos,
                forall|j: int|
                    from_grapheme_idx <= j < pos ==> !occurs_at(clusters, query@, n as int, j),
            decreases count - pos,
        {
            if self.occurs(query, pos) {
                return Some(pos);
            }
            pos = pos + 1;
        }
        None
    }

    /// The start of the last occurrence of `query` that ends at or before
    /// `from_grapheme_idx`, if there is one.
    pub fn search_backward(&self, query: &Line, from_grapheme_idx: usize) -> (found: Option<usize>)
        requires
            self.wf(),
            query.wf(),
        ensures
            found == last_match_of(self@, query@, from_grapheme_idx as int),
    {
        let end: usize = self.byte_offset(from_grapheme_idx);
        let found = self.find_all(query, 0..end);
        if found.len() > 0 {
            Some(found[found.len() - 1].0)
        } else {
            None
        }
    }

    /// The index of the first fragment that starts at column `col` or
    /// further right; the number of fragments where there is none.
    pub fn index_at_column(&self, col: usize) -> (index: usize)
        requires
            self.wf(),
        ensures
            index == column_index(grapheme_split(self@), col as int, 0),
            index <= count_of(self@),
    {
        let ghost clusters = grapheme_split(self@);
        assert(self.fragments@.len() == fragment_models(self.fragments@).len());
        let mut width: usize = 0;
        let mut i: usize = 0;
        while i < self.fragments.len() && width < col
            invariant
                self.wf(),
                clusters == grapheme_split(self@),
                self.fragments.len() == clusters.len(),
                0 <= i <= clusters.len(),
                width == prefix_width(clusters, i as int),
                column_index(clusters, col as int, 0) == column_index(
                    clusters,
                    col as int,
                    i as int,
                ),
            decreases clusters.len() - i,
        {
            proof {
                lemma_prefix_width(clusters, i as int, i + 1);
                lemma_prefix_bytes(clusters, i as int);
                assert(self.fragments[i as int]@ == fragment_models(self.fragments@)[i as int]);
            }
            width = width + self.fragments[i].rendered_width.as_usize();
            i = i + 1;
        }
        i
    }

    /// The annotations of kind `kind` for the occurrences `found`, pushed
    /// onto `target` in their order.
    fn annotate_matches(
        target: &mut AnnotatedString,
        found: &Vec<(usize, usize)>,
        lo: usize,
        hi: usize,
        kind: AnnotationType,
        only: Option<usize>,
    )
        requires
            lo <= hi,
        ensures
            final(target)@.cells == old(target)@.cells,
            final(target)@.annotations == old(target)@.annotations + window_annotations(
                found@,
                lo as int,
                hi as int,
                kind,
                only,
            ),
    {
        let mut i: usize = 0;
        assert(found@.take(0) =~= Seq::<(usize, usize)>::empty());
        assert(target@.annotations + Seq::<Annotation>::empty() =~= target@.annotations);
        while i < found.len()
            invariant
                lo <= hi,
                0 <= i <= found.len(),
                target@.cells == old(target)@.cells,
                target@.annotations == old(target)@.annotations + window_annotations(
                    found@.take(i as int),
                    lo as int,
                    hi as int,
                    kind,
                    only,
                ),
            decreases found.len() - i,
        {
            let occurrence: (usize, usize) = found[i];
            let wanted: bool = match only {
                Some(g) => g == occurrence.0,
                None => true,
            };
            proof {
                assert(found@.take(i + 1).drop_last() =~= found@.take(i as int));
                assert(found@.take(i + 1).last() == occurrence);
            }
            if occurrence.0 < hi && lo < occurrence.1 && wanted {
                let start: usize = if occurrence.0 < lo {
                    0
                } else {
                    occurrence.0 - lo
                };
                let end: usize = if occurrence.1 < hi {
                    occurrence.1 - lo
                } else {
                    hi - lo
                };
                let ghost before = target@.annotations;
                target.add_annotation(kind, start, end);
                assert(target@.annotations =~= old(target)@.annotations + window_annotations(
                    found@.take(i + 1),
                    lo as int,
                    hi as int,
                    kind,
                    only,
                ));
            }
            i = i + 1;
        }
        assert(found@.take(found.len() as int) =~= found@);
    }

    /// What of the line shows in the columns of `range`: the fragments
    /// that start in one of these columns. A fragment is shown whole or not
    /// at all, and as its replacement glyph where it has one. The
    /// occurrences of `query` are annotated as matches, and the one that
    /// starts at `selected_match` once more as the selected match.
    pub fn visible_substring(
        &self,
        range: Range<usize>,
        query: Option<&Line>,
        selected_match: Option<usize>,
    ) -> (visible: AnnotatedString)
        requires
            self.wf(),
            query is Some ==> query->0.wf(),
        ensures
            visible@ == visible_of(
                self@,
                range.start as int,
                range.end as int,
                match query {
                    Some(q) => Some(q@),
                    None => None,
                },
                selected_match,
            ),
    {
        let ghost clusters = grapheme_split(self@);
        if range.start >= range.end {
            let empty = AnnotatedString::new(Vec::new());
            assert(empty@.cells =~= Seq::<Seq<char>>::empty());
            return empty;
        }
        let lo: usize = self.index_at_column(range.start);
        let hi: usize = self.index_at_column(range.end);
        proof {
            lemma_column_index_grows(clusters, range.start as int, range.end as int, 0);
        }
        assert(self.fragments@.len() == fragment_models(self.fragments@).len());
        let mut cells: Vec<String> = Vec::new();
        let mut i: usize = lo;
        while i < hi
            invariant
                self.wf(),
                clusters == grapheme_split(self@),
                self.fragments.len() == clusters.len(),
                lo <= i <= hi <= clusters.len(),
                cells.len() == i - lo,
                forall|j: int| 0 <= j < i - lo ==> (#[trigger] cells[j])@ == display_of(clusters[lo + j]),
            decreases hi - i,
        {
            assert(self.fragments[i as int]@ == fragment_models(self.fragments@)[i as int]);
            let fragment: &TextFragment = &self.fragments[i];
            let cell: String = match fragment.replacement {
                Some(glyph) => {
                    let mut shown: String = String::new();
                    shown.push(glyph);
                    assert(shown@ =~= seq![glyph]);
                    shown
                },
                None => fragment.grapheme.clone(),
            };
            cells.push(cell);
            i = i + 1;
        }
        let mut visible = AnnotatedString::new(cells);
        assert(visible@.cells =~= visible_cells(clusters, lo as int, hi as int));
        if let Some(needle) = query {
            let found = self.find_all(needle, 0..self.len());
            Self::annotate_matches(&mut visible, &found, lo, hi, AnnotationType::Match, None);
            if let Some(g) = selected_match {
                Self::annotate_matches(&mut visible, &found, lo, hi, AnnotationType::SelectedMatch, Some(g));
            }
        }
        assert(visible@.annotations =~= visible_annotations(
            self@,
            lo as int,
            hi as int,
            match query {
                Some(q) => Some(q@),
                None => None,
            },
            selected_match,
        ));
        visible
    }

    /// The index of the first fragment that starts at byte offset
    /// `byte_idx` or further on; the number of fragments where there is none.
    pub fn grapheme_index_at(&self, byte_idx: usize) -> (index: usize)
        requires
            self.wf(),
        ensures
            index == grapheme_index_of(self@, byte_idx as int),
            index <= count_of(self@),
    {
        let ghost clusters = grapheme_split(self@);
        assert(self.fragments@.len() == fragment_models(self.fragments@).len());
        let mut i: usize = 0;
        while i < self.fragments.len()
            invariant
                self.wf(),
                clusters == grapheme_split(self@),
                self.fragments.len() == clusters.len(),
                0 <= i <= clusters.len(),
                byte_index(clusters, byte_idx as int, 0) == byte_index(
                    clusters,
                    byte_idx as int,
                    i as int,
                ),
            decreases clusters.len() - i,
        {
            assert(self.fragments[i as int]@ == fragment_models(self.fragments@)[i as int]);
            if self.fragments[i].start >= byte_idx {
                return i;
            }
            i = i + 1;
        }
        i
    }

    /// The line as an annotated string: one cell for each fragment, with
    /// its own text, and the given annotations. Its parts spell the raw text
    /// of the line, whatever the annotations are.
    pub fn annotate(&self, annotations: &Vec<Annotation>) -> (annotated: AnnotatedString)
        requires
            self.wf(),
        ensures
            annotated@ == annotated_of(self@, annotations@),
            joined_text(parts_from(annotated@, 0)) == self@,
    {
        let ghost clusters = grapheme_split(self@);
        assert(self.fragments@.len() == fragment_models(self.fragments@).len());
        let mut cells: Vec<String> = Vec::new();
        let mut i: usize = 0;
        while i < self.fragments.len()
            invariant
                self.wf(),
                clusters == grapheme_split(self@),
                self.fragments.len() == clusters.len(),
                0 <= i <= clusters.len(),
                cells.len() == i,
                forall|j: int| 0 <= j < i ==> (#[trigger] cells[j])@ == clusters[j],
            decreases clusters.len() - i,
        {
            assert(self.fragments[i as int]@ == fragment_models(self.fragments@)[i as int]);
            cells.push(self.fragments[i].grapheme.clone());
            i = i + 1;
        }
        let mut annotated = AnnotatedString::new(cells);
        assert(annotated@.cells =~= clusters);
        let mut k: usize = 0;
        while k < annotations.len()
            invariant
                0 <= k <= annotations.len(),
                annotated@.cells == clusters,
                annotated@.annotations == annotations@.take(k as int),
            decreases annotations.len() - k,
        {
            let annotation: Annotation = annotations[k];
            annotated.add_annotation(annotation.annotation_type, annotation.start, annotation.end);
            assert(annotations@.take(k + 1) =~= annotations@.take(k as int).push(annotation));
            k = k + 1;
        }
        proof {
            assert(annotations@.take(annotations.len() as int) =~= annotations@);
            lemma_parts_cover(annotated@);
        }
        annotated
    }

    /// Puts `character` at the end of the line.
    pub fn append_char(&mut self, character: char)
        requires
            old(self).wf(),
        ensures
            final(self).wf(),
            final(self)@ == insert_of(old(self)@, character, count_of(old(self)@) as int),
            final(self)@ == old(self)@.push(character),
    {
        proof {
            self.lemma_cut(count_of(self@) as int);
            assert(grapheme_split(self@).skip(count_of(self@) as int) =~= Seq::<
                Seq<char>,
            >::empty());
        }
        let count: usize = self.grapheme_count();
        self.insert(character, count);
    }

    /// Removes the last fragment of the line, if it has one.
    pub fn delete_last(&mut self)
        requires
            old(self).wf(),
        ensures
            final(self).wf(),
            final(self)@ == delete_of(old(self)@, count_of(old(self)@) - 1),
    {
        let count: usize = self.grapheme_count();
        if count > 0 {
            self.delete(count - 1);
        }
    }

    /// The text that shows in the columns of `range`, without annotations.
    pub fn visible_text(&self, range: Range<usize>) -> (text: String)
        requires
            self.wf(),
        ensures
            text@ == visible_of(self@, range.start as int, range.end as int, None, None).text(),
    {
        self.visible_substring(range, None, None).text()
    }
}

} // verus!
