//! Text with overlapping style annotations, and its resolution into a
//! left-to-right partition of singly styled parts.
//!
//! An annotated string is a row of cells, one per grapheme cluster shown,
//! with a list of annotations in the order in which they were registered.
//! Annotation bounds count cells.
use vstd::prelude::*;
use vstd::string::StringExecFns;
use crate::text::texts;

verus! {

/// The kinds of style that a span of text can carry.
#[derive(Copy, Clone, Eq, PartialEq, Debug, Structural)]
pub enum AnnotationType {
    Match,
    SelectedMatch,
    Number,
    KeyWord,
    Type,
    KnownValue,
    Char,
    LifetimeSpecifier,
}

/// A half-open range of cells that carries one style.
#[derive(Copy, Clone, Eq, PartialEq, Debug, Structural)]
pub struct Annotation {
    pub annotation_type: AnnotationType,
    pub start: usize,
    pub end: usize,
}

/// A run of text that carries at most one style.
#[derive(Debug)]
pub struct AnnotationStringPart {
    pub string: String,
    pub annotation_type: Option<AnnotationType>,
}

/// What a part holds, as plain values.
pub struct PartModel {
    pub text: Seq<char>,
    pub annotation_type: Option<AnnotationType>,
}

impl View for AnnotationStringPart {
    type V = PartModel;

    open spec fn view(&self) -> PartModel {
        PartModel { text: self.string@, annotation_type: self.annotation_type }
    }
}

/// The models of a sequence of parts.
pub open spec fn part_models(parts: Seq<AnnotationStringPart>) -> Seq<PartModel> {
    Seq::new(parts.len(), |i: int| parts[i]@)
}

/// What an annotated string holds, as plain values.
pub struct AnnotatedModel {
    pub cells: Seq<Seq<char>>,
    pub annotations: Seq<Annotation>,
}

impl AnnotatedModel {
    /// The whole text.
    pub open spec fn text(self) -> Seq<char> {
        self.cells.flatten()
    }
}

/// The cells from `start` up to `end`, both clamped to the cells that there are.
pub open spec fn cells_between(cells: Seq<Seq<char>>, start: int, end: int) -> Seq<Seq<char>> {
    let stop = if end < cells.len() {
        end
    } else {
        cells.len() as int
    };
    let from = if start < stop {
        start
    } else {
        stop
    };
    cells.subrange(from, stop)
}

/// An annotation is active at the positions of its half-open range: from
/// its start on, and before its end.
pub open spec fn is_active(annotation: Annotation, pos: int) -> bool {
    annotation.start <= pos && pos < annotation.end
}

/// The annotation that wins at `pos` among the first `n`: of those active
/// there the one that starts last, and of several that start together
/// the one registered last.
pub open spec fn active_among(annotations: Seq<Annotation>, pos: int, n: int) -> Option<int>
    decreases n,
{
    if n <= 0 {
        None
    } else {
        let earlier = active_among(annotations, pos, n - 1);
        let candidate = annotations[n - 1];
        if is_active(candidate, pos) && (earlier is None || annotations[earlier->0].start
            <= candidate.start) {
            Some(n - 1)
        } else {
            earlier
        }
    }
}

/// The nearest annotation start after `pos` among the first `n`
/// annotations, or `limit` where none starts before it.
pub open spec fn next_start(annotations: Seq<Annotation>, pos: int, limit: int, n: int) -> int
    decreases n,
{
    if n <= 0 {
        limit
    } else {
        let earlier = next_start(annotations, pos, limit, n - 1);
        let candidate = annotations[n - 1];
        if pos < candidate.start && candidate.start < earlier {
            candidate.start as int
        } else {
            earlier
        }
    }
}

/// The annotation that wins at `pos`.
pub open spec fn active_at(m: AnnotatedModel, pos: int) -> Option<int> {
    active_among(m.annotations, pos, m.annotations.len() as int)
}

/// Where the part that starts at `pos` ends: at the end of the winning
/// annotation, clamped to the number of cells; without a winner, at the
/// nearest annotation start ahead, or at the last cell.
pub open spec fn part_end(m: AnnotatedModel, pos: int) -> int {
    match active_at(m, pos) {
        Some(i) => if m.annotations[i].end < m.cells.len() {
            m.annotations[i].end as int
        } else {
            m.cells.len() as int
        },
        None => next_start(m.annotations, pos, m.cells.len() as int, m.annotations.len() as int),
    }
}

/// The part that starts at `pos`.
pub open spec fn part_at(m: AnnotatedModel, pos: int) -> PartModel {
    PartModel {
        text: m.cells.subrange(pos, part_end(m, pos)).flatten(),
        annotation_type: match active_at(m, pos) {
            Some(i) => Some(m.annotations[i].annotation_type),
            None => None,
        },
    }
}

/// The parts from `pos` to the end, left to right.
pub open spec fn parts_from(m: AnnotatedModel, pos: int) -> Seq<PartModel>
    decreases m.cells.len() - pos,
    via parts_from_decreases
{
    if pos < 0 || pos >= m.cells.len() {
        Seq::empty()
    } else {
        seq![part_at(m, pos)] + parts_from(m, part_end(m, pos))
    }
}

#[via_fn]
proof fn parts_from_decreases(m: AnnotatedModel, pos: int) {
    if 0 <= pos < m.cells.len() {
        lemma_part_end(m, pos);
    }
}

/// The texts of `parts`, joined.
pub open spec fn joined_text(parts: Seq<PartModel>) -> Seq<char>
    decreases parts.len(),
{
    if parts.len() == 0 {
        Seq::empty()
    } else {
        parts[0].text + joined_text(parts.drop_first())
    }
}

/// The winner at a position is active there; no active annotation starts
/// after it, and none that starts with it was registered after it. Where
/// there is no winner, no annotation is active.
pub proof fn lemma_active_among(annotations: Seq<Annotation>, pos: int, n: int)
    requires
        0 <= n <= annotations.len(),
    ensures
        match active_among(annotations, pos, n) {
            Some(i) => {
                &&& 0 <= i < n
                &&& is_active(annotations[i], pos)
                &&& forall|j: int|
                    0 <= j < n && is_active(#[trigger] annotations[j], pos) ==> annotations[j].start
                        < annotations[i].start || (annotations[j].start == annotations[i].start
                        && j <= i)
            },
            None => forall|j: int| 0 <= j < n ==> !is_active(#[trigger] annotations[j], pos),
        },
    decreases n,
{
    if n > 0 {
        lemma_active_among(annotations, pos, n - 1);
    }
}

/// The nearest start ahead lies after the position and within the limit,
/// and no annotation starts between the position and it.
pub proof fn lemma_next_start(annotations: Seq<Annotation>, pos: int, limit: int, n: int)
    requires
        0 <= n <= annotations.len(),
        pos < limit,
    ensures
        pos < next_start(annotations, pos, limit, n) <= limit,
        forall|j: int|
            0 <= j < n && pos < (#[trigger] annotations[j]).start ==> next_start(
                annotations,
                pos,
                limit,
                n,
            ) <= annotations[j].start,
    decreases n,
{
    if n > 0 {
        lemma_next_start(annotations, pos, limit, n - 1);
    }
}

/// Every part ends after its start and within the cells.
pub proof fn lemma_part_end(m: AnnotatedModel, pos: int)
    requires
        0 <= pos < m.cells.len(),
    ensures
        pos < part_end(m, pos) <= m.cells.len(),
{
    lemma_active_among(m.annotations, pos, m.annotations.len() as int);
    lemma_next_start(m.annotations, pos, m.cells.len() as int, m.annotations.len() as int);
}

/// The parts from a position on spell exactly the cells from that position
/// on: nothing is left out and nothing comes twice, whatever the
/// annotations are.
pub proof fn lemma_parts_cover_from(m: AnnotatedModel, pos: int)
    requires
        0 <= pos <= m.cells.len(),
    ensures
        joined_text(parts_from(m, pos)) == m.cells.skip(pos).flatten(),
    decreases m.cells.len() - pos,
{
    if pos < m.cells.len() {
        lemma_part_end(m, pos);
        let end = part_end(m, pos);
        lemma_parts_cover_from(m, end);
        let parts = parts_from(m, pos);
        assert(parts.drop_first() =~= parts_from(m, end));
        assert(m.cells.skip(pos).take(end - pos) =~= m.cells.subrange(pos, end));
        assert(m.cells.skip(pos).skip(end - pos) =~= m.cells.skip(end));
        crate::text::lemma_flatten_split(m.cells.skip(pos), end - pos);
    } else {
        assert(m.cells.skip(pos) =~= Seq::<Seq<char>>::empty());
    }
}

/// The parts of an annotated string spell exactly its text, whatever the
/// annotations are.
pub proof fn lemma_parts_cover(m: AnnotatedModel)
    ensures
        joined_text(parts_from(m, 0)) == m.text(),
{
    lemma_parts_cover_from(m, 0);
    assert(m.cells.skip(0) =~= m.cells);
}

/// Text with style annotations.
pub struct AnnotatedString {
    cells: Vec<String>,
    annotations: Vec<Annotation>,
}

impl View for AnnotatedString {
    type V = AnnotatedModel;

    closed spec fn view(&self) -> AnnotatedModel {
        AnnotatedModel { cells: texts(self.cells@), annotations: self.annotations@ }
    }
}

impl AnnotatedString {
    /// A string of the given cells, without annotations.
    pub fn new(cells: Vec<String>) -> (s: AnnotatedString)
        ensures
            s@.cells == texts(cells@),
            s@.annotations == Seq::<Annotation>::empty(),
    {
        AnnotatedString { cells, annotations: Vec::new() }
    }

    /// Registers an annotation after those already there.
    pub fn add_annotation(&mut self, annotation_type: AnnotationType, start: usize, end: usize)
        ensures
            final(self)@.cells == old(self)@.cells,
            final(self)@.annotations == old(self)@.annotations.push(
                Annotation { annotation_type, start, end },
            ),
    {
        self.annotations.push(Annotation { annotation_type, start, end });
    }

    /// Number of cells.
    pub fn cell_count(&self) -> (n: usize)
        ensures
            n == self@.cells.len(),
    {
        self.cells.len()
    }

    /// The annotations, in the order in which they were registered.
    pub fn annotations(&self) -> (annotations: &Vec<Annotation>)
        ensures
            annotations@ == self@.annotations,
    {
        &self.annotations
    }

    /// The text of the cells from `start` up to `end`, as far as there
    /// are such cells.
    pub fn text_between(&self, start: usize, end: usize) -> (text: String)
        ensures
            text@ == cells_between(self@.cells, start as int, end as int).flatten(),
    {
        let ghost cells = self@.cells;
        let end: usize = if end < self.cells.len() {
            end
        } else {
            self.cells.len()
        };
        let start: usize = if start < end {
            start
        } else {
            end
        };
        let mut text: String = String::new();
        let mut i: usize = start;
        assert(cells.subrange(start as int, start as int).flatten() =~= Seq::<char>::empty());
        while i < end
            invariant
                cells == self@.cells,
                start <= i <= end <= cells.len(),
                text@ == cells.subrange(start as int, i as int).flatten(),
            decreases end - i,
        {
            proof {
                assert(cells.subrange(start as int, i + 1) =~= cells.subrange(
                    start as int,
                    i as int,
                ).push(cells[i as int]));
                cells.subrange(start as int, i as int).lemma_flatten_push(cells[i as int]);
            }
            text.append(self.cells[i].as_str());
            i = i + 1;
        }
        text
    }

    /// The whole text, without the annotations.
    pub fn text(&self) -> (text: String)
        ensures
            text@ == self@.text(),
    {
        assert(self@.cells.subrange(0, self@.cells.len() as int) =~= self@.cells);
        self.text_between(0, self.cells.len())
    }

    /// An iterator over the parts, placed at the start.
    pub fn iter(&self) -> (it: AnnotatedStringIterator<'_>)
        ensures
            it.annotated_string == self,
            it.current == 0,
    {
        AnnotatedStringIterator { annotated_string: self, current: 0 }
    }

    /// All parts, left to right.
    pub fn parts(&self) -> (parts: Vec<AnnotationStringPart>)
        ensures
            part_models(parts@) == parts_from(self@, 0),
            joined_text(part_models(parts@)) == self@.text(),
    {
        let ghost m = self@;
        let mut parts: Vec<AnnotationStringPart> = Vec::new();
        let mut it = self.iter();
        loop
            invariant
                m == self@,
                it.annotated_string == self,
                it.current <= m.cells.len(),
                part_models(parts@) + parts_from(m, it.current as int) == parts_from(m, 0),
            decreases m.cells.len() - it.current,
        {
            let ghost before = part_models(parts@);
            let ghost pos = it.current as int;
            match it.next() {
                Some(part) => {
                    proof {
                        lemma_part_end(m, pos);
                    }
                    parts.push(part);
                    assert(part_models(parts@) =~= before.push(part@));
                    assert(part_models(parts@) + parts_from(m, it.current as int) =~= before
                        + parts_from(m, pos));
                },
                None => {
                    assert(part_models(parts@) + Seq::<PartModel>::empty() =~= part_models(
                        parts@,
                    ));
                    proof {
                        lemma_parts_cover(m);
                    }
                    return parts;
                },
            }
        }
    }
}

/// A scan over the parts of an annotated string, left to right.
pub struct AnnotatedStringIterator<'a> {
    pub annotated_string: &'a AnnotatedString,
    pub current: usize,
}

impl<'a> AnnotatedStringIterator<'a> {
    /// The part that starts at the current position, if the scan has not
    /// reached the end; the scan moves to the end of that part.
    pub fn next(&mut self) -> (part: Option<AnnotationStringPart>)
        ensures
            final(self).annotated_string == old(self).annotated_string,
            old(self).current >= old(self).annotated_string@.cells.len() ==> part is None
                && final(self).current == old(self).current,
            old(self).current < old(self).annotated_string@.cells.len() ==> part is Some
                && part->0@ == part_at(old(self).annotated_string@, old(self).current as int)
                && final(self).current == part_end(
                old(self).annotated_string@,
                old(self).current as int,
            ),
    {
        let source: &AnnotatedString = self.annotated_string;
        let ghost m = source@;
        let len: usize = source.cells.len();
        let current: usize = self.current;
        if current >= len {
            return None;
        }
        let annotations: &Vec<Annotation> = &source.annotations;
        let mut active: Option<usize> = None;
        let mut nearest: usize = len;
        let mut i: usize = 0;
        while i < annotations.len()
            invariant
                0 <= i <= annotations.len(),
                annotations@ == m.annotations,
                len == m.cells.len(),
                current < len,
                match active {
                    Some(k) => active_among(m.annotations, current as int, i as int) == Some(
                        k as int,
                    ) && k < i,
                    None => active_among(m.annotations, current as int, i as int) is None,
                },
                nearest == next_start(m.annotations, current as int, len as int, i as int),
            decreases annotations.len() - i,
        {
            let candidate: Annotation = annotations[i];
            if candidate.start <= current && current < candidate.end {
                let wins: bool = match active {
                    Some(k) => annotations[k].start <= candidate.start,
                    None => true,
                };
                if wins {
                    active = Some(i);
                }
            }
            if current < candidate.start && candidate.start < nearest {
                nearest = candidate.start;
            }
            i = i + 1;
        }
        proof {
            lemma_part_end(m, current as int);
        }
        let (end, annotation_type) = match active {
            Some(k) => {
                let annotation: Annotation = annotations[k];
                let end: usize = if annotation.end < len {
                    annotation.end
                } else {
                    len
                };
                (end, Some(annotation.annotation_type))
            },
            None => (nearest, None),
        };
        let string: String = source.text_between(current, end);
        self.current = end;
        Some(AnnotationStringPart { string, annotation_type })
    }
}

} // verus!
