//! The document: an ordered sequence of lines with a dirty flag and the
//! name of the file it belongs to.
use vstd::prelude::*;
use vstd::string::StringExecFns;
use crate::line::{
    count_of, delete_of, insert_of, last_match_of, lemma_empty_has_no_clusters,
    lemma_insert_then_delete,
    occurs_at, stands_alone, text_before, text_from, well_segmented, width_until_of, Line,
};
use crate::position::Location;
use crate::segmentation::grapheme_split;

verus! {

/// Why reading or writing a file failed.
#[derive(Copy, Clone, Debug, PartialEq, Eq, Structural)]
pub enum IoFailure {
    NotFound,
    PermissionDenied,
    WriteFailure,
}

/// What a buffer holds, as plain values.
pub struct BufferModel {
    pub lines: Seq<Seq<char>>,
    pub dirty: bool,
    pub path: Option<Seq<char>>,
}

/// The lines of `text`: what stands between its newline characters.
pub open spec fn split_lines(text: Seq<char>) -> Seq<Seq<char>>
    decreases text.len(),
{
    if text.len() == 0 {
        seq![Seq::empty()]
    } else {
        let earlier = split_lines(text.drop_last());
        if text.last() == '\n' {
            earlier.push(Seq::empty())
        } else {
            earlier.drop_last().push(earlier.last().push(text.last()))
        }
    }
}

/// `lines` with a newline character between each two neighbours.
pub open spec fn join_lines(lines: Seq<Seq<char>>) -> Seq<char>
    decreases lines.len(),
{
    if lines.len() == 0 {
        Seq::empty()
    } else if lines.len() == 1 {
        lines[0]
    } else {
        join_lines(lines.drop_last()) + seq!['\n'] + lines.last()
    }
}

/// `needle` stands at grapheme index `g` of line `l`.
pub open spec fn occurs_in(lines: Seq<Seq<char>>, needle: Seq<char>, l: int, g: int) -> bool {
    &&& 0 <= l < lines.len()
    &&& occurs_at(grapheme_split(lines[l]), needle, count_of(needle) as int, g)
}

/// Whether a forward search that starts at `from` comes to `a` before it
/// comes to `b`. The search runs from `from` to the end of its line, through
/// the lines below, and from the top of the document back to `from`.
pub open spec fn forward_before(from: Location, a: Location, b: Location) -> bool {
    let wrapped_a = a.line_idx < from.line_idx || (a.line_idx == from.line_idx && a.grapheme_idx
        < from.grapheme_idx);
    let wrapped_b = b.line_idx < from.line_idx || (b.line_idx == from.line_idx && b.grapheme_idx
        < from.grapheme_idx);
    if wrapped_a != wrapped_b {
        wrapped_b
    } else {
        a.line_idx < b.line_idx || (a.line_idx == b.line_idx && a.grapheme_idx < b.grapheme_idx)
    }
}

/// What a forward search from `from` finds: the occurrence that it comes
/// to first, or nothing where `needle` stands nowhere in the document.
pub open spec fn is_forward_hit(
    lines: Seq<Seq<char>>,
    needle: Seq<char>,
    from: Location,
    found: Option<Location>,
) -> bool {
    match found {
        Some(hit) => {
            &&& occurs_in(lines, needle, hit.line_idx as int, hit.grapheme_idx as int)
            &&& forall|l: int, g: int|
                0 <= l <= usize::MAX && 0 <= g <= usize::MAX && #[trigger] occurs_in(
                    lines,
                    needle,
                    l,
                    g,
                ) ==> !forward_before(
                    from,
                    Location { line_idx: l as usize, grapheme_idx: g as usize },
                    hit,
                )
        },
        None => forall|l: int, g: int| !#[trigger] occurs_in(lines, needle, l, g),
    }
}

/// The lowest line from `hi - 1` down to `lo` that holds an occurrence of
/// `needle`, with the start of the last occurrence in it.
pub open spec fn last_line_with(lines: Seq<Seq<char>>, needle: Seq<char>, lo: int, hi: int) -> Option<
    Location,
>
    decreases hi - lo,
{
    if lo >= hi {
        None
    } else {
        match last_match_of(lines[hi - 1], needle, count_of(lines[hi - 1]) as int) {
            Some(g) => Some(Location { line_idx: (hi - 1) as usize, grapheme_idx: g }),
            None => last_line_with(lines, needle, lo, hi - 1),
        }
    }
}

/// What a backward search from `from` finds. It looks at the line of `from`
/// up to `from`, at the lines above from the nearest up, and from the
/// bottom of the document back to the line of `from`; in each it takes the
/// last occurrence.
pub open spec fn backward_hit(lines: Seq<Seq<char>>, needle: Seq<char>, from: Location) -> Option<
    Location,
> {
    let line = if from.line_idx < lines.len() {
        from.line_idx as int
    } else {
        lines.len() as int
    };
    let here = if line < lines.len() {
        last_match_of(lines[line], needle, from.grapheme_idx as int)
    } else {
        None
    };
    match here {
        Some(g) => Some(Location { line_idx: from.line_idx, grapheme_idx: g }),
        None => match last_line_with(lines, needle, 0, line) {
            Some(hit) => Some(hit),
            None => last_line_with(lines, needle, line, lines.len() as int),
        },
    }
}

/// `lines` with `c` put into line `l` in front of grapheme index `g`.
pub open spec fn insert_char_of(lines: Seq<Seq<char>>, c: char, l: int, g: int) -> Seq<Seq<char>> {
    if 0 <= l < lines.len() {
        lines.update(l, insert_of(lines[l], c, g))
    } else {
        lines
    }
}

/// `lines` with line `l` cut in two in front of grapheme index `g`.
pub open spec fn insert_newline_of(lines: Seq<Seq<char>>, l: int, g: int) -> Seq<Seq<char>> {
    if 0 <= l < lines.len() {
        lines.take(l).push(text_before(lines[l], g)).push(text_from(lines[l], g)) + lines.skip(
            l + 1,
        )
    } else {
        lines
    }
}

/// `lines` after a deletion in line `l` at grapheme index `g`: without
/// that cluster, or, at the end of a line that is not the last, with the
/// next line joined on.
pub open spec fn delete_at_of(lines: Seq<Seq<char>>, l: int, g: int) -> Seq<Seq<char>> {
    if 0 <= l < lines.len() {
        if g < count_of(lines[l]) {
            lines.update(l, delete_of(lines[l], g))
        } else if l + 1 < lines.len() {
            lines.take(l).push(lines[l] + lines[l + 1]) + lines.skip(l + 2)
        } else {
            lines
        }
    } else {
        lines
    }
}

/// Splitting text into lines and joining them again gives the text back.
pub proof fn lemma_join_split(text: Seq<char>)
    ensures
        split_lines(text).len() >= 1,
        join_lines(split_lines(text)) == text,
    decreases text.len(),
{
    if text.len() > 0 {
        let shorter = text.drop_last();
        lemma_join_split(shorter);
        let earlier = split_lines(shorter);
        let c = text.last();
        assert(text =~= shorter.push(c));
        if c == '\n' {
            assert(earlier.push(Seq::empty()).drop_last() =~= earlier);
            assert(join_lines(earlier.push(Seq::empty())) =~= join_lines(earlier) + seq!['\n']);
        } else {
            let last = earlier.last().push(c);
            let lines = earlier.drop_last().push(last);
            assert(lines.drop_last() =~= earlier.drop_last());
            if earlier.len() == 1 {
                assert(join_lines(lines) =~= join_lines(earlier).push(c));
            } else {
                assert(join_lines(lines) =~= join_lines(earlier.drop_last()) + seq!['\n'] + last);
                assert(join_lines(earlier) =~= join_lines(earlier.drop_last()) + seq!['\n']
                    + earlier.last());
                assert(join_lines(lines) =~= join_lines(earlier).push(c));
            }
        }
    }
}

/// Splitting `text + tail` where `tail` holds no newline extends the last line.
proof fn lemma_split_extend(text: Seq<char>, tail: Seq<char>)
    requires
        !tail.contains('\n'),
    ensures
        split_lines(text).len() >= 1,
        split_lines(text + tail) == split_lines(text).drop_last().push(
            split_lines(text).last() + tail,
        ),
    decreases tail.len(),
{
    lemma_join_split(text);
    let lines = split_lines(text);
    if tail.len() == 0 {
        assert(text + tail =~= text);
        assert(lines.last() + tail =~= lines.last());
        assert(lines.drop_last().push(lines.last()) =~= lines);
    } else {
        let shorter = tail.drop_last();
        let c = tail.last();
        assert(tail[tail.len() - 1] == c);
        assert(c != '\n');
        assert forall|i: int| 0 <= i < shorter.len() implies shorter[i] != '\n' by {
            assert(tail[i] == shorter[i]);
        }
        lemma_split_extend(text, shorter);
        assert((text + tail).drop_last() =~= text + shorter);
        assert((text + tail).last() == c);
        let earlier = split_lines(text + shorter);
        assert(earlier.drop_last() =~= lines.drop_last());
        assert(earlier.last().push(c) =~= lines.last() + tail);
    }
}

/// Joining lines that hold no newline and splitting the result gives the
/// lines back.
pub proof fn lemma_split_join(lines: Seq<Seq<char>>)
    requires
        lines.len() >= 1,
        forall|i: int| 0 <= i < lines.len() ==> !(#[trigger] lines[i]).contains('\n'),
    ensures
        split_lines(join_lines(lines)) == lines,
    decreases lines.len(),
{
    let empty = Seq::<char>::empty();
    if lines.len() == 1 {
        lemma_split_extend(empty, lines[0]);
        assert(empty + lines[0] =~= lines[0]);
        assert(split_lines(empty) =~= seq![empty]);
        assert(split_lines(lines[0]) =~= lines);
    } else {
        let earlier = lines.drop_last();
        lemma_split_join(earlier);
        let joined = join_lines(earlier);
        let broken = joined + seq!['\n'];
        assert(broken.drop_last() =~= joined);
        assert(split_lines(broken) =~= earlier.push(empty));
        lemma_split_extend(broken, lines.last());
        assert(empty + lines.last() =~= lines.last());
        assert(earlier.push(empty).drop_last() =~= earlier);
        assert(earlier.push(lines.last()) =~= lines);
    }
}

/// Inserting a character and deleting at the same place gives the
/// document back, wherever the character stands as a cluster of its own.
pub proof fn lemma_insert_then_delete_restores(lines: Seq<Seq<char>>, c: char, at: Location)
    requires
        at.line_idx < lines.len(),
        at.grapheme_idx <= count_of(lines[at.line_idx as int]),
        well_segmented(lines[at.line_idx as int]),
        well_segmented(insert_of(lines[at.line_idx as int], c, at.grapheme_idx as int)),
        stands_alone(lines[at.line_idx as int], c, at.grapheme_idx as int),
    ensures
        delete_at_of(
            insert_char_of(lines, c, at.line_idx as int, at.grapheme_idx as int),
            at.line_idx as int,
            at.grapheme_idx as int,
        ) == lines,
{
    let l = at.line_idx as int;
    let g = at.grapheme_idx as int;
    lemma_insert_then_delete(lines[l], c, g);
    let longer = insert_char_of(lines, c, l, g);
    assert(longer[l] == insert_of(lines[l], c, g));
    assert(longer.update(l, lines[l]) =~= lines);
}

/// In a document in which `needle` stands at exactly one place, a forward
/// search finds that place, wherever it starts. So the search for the next
/// match finds it from any place, and from the match itself it wraps
/// around the document and finds the same match again.
pub proof fn lemma_single_occurrence_is_found(
    lines: Seq<Seq<char>>,
    needle: Seq<char>,
    at: Location,
    from: Location,
    found: Option<Location>,
)
    requires
        occurs_in(lines, needle, at.line_idx as int, at.grapheme_idx as int),
        forall|l: int, g: int| #[trigger]
            occurs_in(lines, needle, l, g) ==> l == at.line_idx && g == at.grapheme_idx,
        is_forward_hit(lines, needle, from, found),
    ensures
        found == Some(at),
{
}

/// A query without characters stands nowhere: no search finds it.
pub proof fn lemma_empty_query_is_not_found(
    lines: Seq<Seq<char>>,
    needle: Seq<char>,
    from: Location,
    found: Option<Location>,
)
    requires
        well_segmented(needle),
        needle.len() == 0,
    ensures
        is_forward_hit(lines, needle, from, found) ==> found is None,
        backward_hit(lines, needle, from) is None,
{
    lemma_empty_has_no_clusters(needle);
    assert forall|lo: int, hi: int| last_line_with(lines, needle, lo, hi) is None by {
        lemma_last_line_with_none(lines, needle, lo, hi);
    }
}

/// A query without clusters is in no line.
proof fn lemma_last_line_with_none(lines: Seq<Seq<char>>, needle: Seq<char>, lo: int, hi: int)
    requires
        count_of(needle) == 0,
    ensures
        last_line_with(lines, needle, lo, hi) is None,
    decreases hi - lo,
{
    if lo < hi {
        lemma_last_line_with_none(lines, needle, lo, hi - 1);
    }
}

/// The name of the file that a document belongs to.
#[derive(Debug)]
pub struct FileInfo {
    path: Option<String>,
}

impl FileInfo {
    /// The path, as characters.
    pub closed spec fn path_view(&self) -> Option<Seq<char>> {
        match self.path {
            Some(p) => Some(p@),
            None => None,
        }
    }

    /// No file.
    pub fn new() -> (info: FileInfo)
        ensures
            info.path_view() is None,
    {
        FileInfo { path: None }
    }

    /// The file named `file_name`.
    pub fn from(file_name: &str) -> (info: FileInfo)
        ensures
            info.path_view() == Some(file_name@),
    {
        FileInfo { path: Some(file_name.to_owned()) }
    }

    /// Whether a file is named.
    pub fn has_path(&self) -> (has: bool)
        ensures
            has == self.path_view() is Some,
    {
        self.path.is_some()
    }

    /// The path, if a file is named.
    pub fn get_path(&self) -> (path: Option<&str>)
        ensures
            match path {
                Some(p) => self.path_view() == Some(p@),
                None => self.path_view() is None,
            },
    {
        match &self.path {
            Some(p) => Some(p.as_str()),
            None => None,
        }
    }
}

/// The text of a document.
pub struct Buffer {
    lines: Vec<Line>,
    file_info: FileInfo,
    dirty: bool,
}

impl View for Buffer {
    type V = BufferModel;

    closed spec fn view(&self) -> BufferModel {
        BufferModel {
            lines: Seq::new(self.lines.len() as nat, |i: int| self.lines[i]@),
            dirty: self.dirty,
            path: self.file_info.path_view(),
        }
    }
}

impl Buffer {
    /// Every line is well-formed.
    pub closed spec fn lines_wf(&self) -> bool {
        forall|i: int| 0 <= i < self.lines.len() ==> (#[trigger] self.lines[i]).wf()
    }

    /// Every line is well-formed, and there is at least one line.
    pub open spec fn wf(&self) -> bool {
        &&& self.lines_wf()
        &&& self@.lines.len() >= 1
    }

    /// A well-formed document fits the address space: its lines can be
    /// counted, and so can the clusters of each line.
    pub proof fn lemma_height(&self)
        requires
            self.wf(),
        ensures
            1 <= self@.lines.len() <= usize::MAX,
    {
    }

    /// Every line of a well-formed document is well segmented.
    pub proof fn lemma_line(&self, i: int)
        requires
            self.wf(),
            0 <= i < self@.lines.len(),
        ensures
            crate::line::well_segmented(self@.lines[i]),
            count_of(self@.lines[i]) <= usize::MAX,
    {
        self.lines[i].lemma_wf();
        self.lines[i].lemma_count();
    }

    /// A document of one empty line that belongs to no file.
    pub fn new() -> (buffer: Buffer)
        ensures
            buffer.wf(),
            buffer@.lines == seq![Seq::<char>::empty()],
            !buffer@.dirty,
            buffer@.path is None,
    {
        let mut lines: Vec<Line> = Vec::new();
        let empty: String = String::new();
        lines.push(Line::from(empty.as_str()));
        let buffer = Buffer { lines, file_info: FileInfo::new(), dirty: false };
        assert(buffer@.lines =~= seq![Seq::<char>::empty()]);
        buffer
    }

    /// The document with the given text, which belongs to the file
    /// `file_name`. Every newline character ends a line.
    fn from_text(file_name: &str, contents: &str) -> (buffer: Buffer)
        ensures
            buffer.wf(),
            buffer@ == (BufferModel {
                lines: split_lines(contents@),
                dirty: false,
                path: Some(file_name@),
            }),
    {
        let mut lines: Vec<Line> = Vec::new();
        let mut current: String = String::new();
        let ghost empty = Seq::<char>::empty();
        assert(contents@.take(0) =~= empty);
        for c in it: contents.chars()
            invariant
                it.seq() == contents@,
                forall|i: int| 0 <= i < lines.len() ==> (#[trigger] lines[i]).wf(),
                Seq::new(lines.len() as nat, |i: int| lines[i]@).push(current@) == split_lines(
                    contents@.take(it.index() as int),
                ),
        {
            let ghost before = Seq::new(lines.len() as nat, |i: int| lines[i]@);
            let ghost seen = contents@.take(it.index() as int);
            let ghost ended = current@;
            proof {
                assert(contents@.take(it.index() + 1).drop_last() =~= seen);
                assert(contents@.take(it.index() + 1).last() == c);
                assert(before.push(current@).drop_last() =~= before);
            }
            if c == '\n' {
                lines.push(Line::from(current.as_str()));
                current = String::new();
                assert(Seq::new(lines.len() as nat, |i: int| lines[i]@) =~= before.push(ended));
            } else {
                current.push(c);
                assert(Seq::new(lines.len() as nat, |i: int| lines[i]@) =~= before);
            }
        }
        assert(contents@.take(contents@.len() as int) =~= contents@);
        let ghost before = Seq::new(lines.len() as nat, |i: int| lines[i]@);
        lines.push(Line::from(current.as_str()));
        let buffer = Buffer { lines, file_info: FileInfo::from(file_name), dirty: false };
        assert(buffer@.lines =~= before.push(current@));
        buffer
    }

    /// Takes what reading the file `file_name` gave. Its contents become a
    /// document that belongs to that file and has no unsaved changes; every
    /// newline character ends a line. A failure to read is handed on.
    pub fn load(file_name: &str, contents: Result<&str, IoFailure>) -> (r: Result<Buffer, IoFailure>)
        ensures
            match contents {
                Ok(text) => r is Ok && r->Ok_0.wf() && r->Ok_0@ == (BufferModel {
                    lines: split_lines(text@),
                    dirty: false,
                    path: Some(file_name@),
                }),
                Err(failure) => r is Err && r->Err_0 == failure,
            },
    {
        match contents {
            Ok(text) => Ok(Self::from_text(file_name, text)),
            Err(failure) => Err(failure),
        }
    }

    /// The document as one text, the lines joined by newline characters.
    pub fn contents(&self) -> (text: String)
        requires
            self.wf(),
        ensures
            text@ == join_lines(self@.lines),
    {
        let ghost lines = self@.lines;
        let mut text: String = self.lines[0].raw_text().to_owned();
        let mut i: usize = 1;
        assert(lines.take(1) =~= seq![lines[0]]);
        while i < self.lines.len()
            invariant
                lines == self@.lines,
                1 <= i <= self.lines.len(),
                text@ == join_lines(lines.take(i as int)),
            decreases self.lines.len() - i,
        {
            proof {
                assert(lines.take(i + 1).drop_last() =~= lines.take(i as int));
                assert(lines.take(i + 1).last() == lines[i as int]);
            }
            text.push('\n');
            text.append(self.lines[i].raw_text());
            assert(text@ =~= join_lines(lines.take(i as int)) + seq!['\n'] + lines[i as int]);
            i = i + 1;
        }
        assert(lines.take(lines.len() as int) =~= lines);
        text
    }

    /// Takes what writing the document to its file gave. After a
    /// successful write the document has no unsaved changes; a failure
    /// leaves everything as it is. A document that belongs to no file cannot
    /// have been written.
    pub fn save(&mut self, outcome: Result<(), IoFailure>) -> (r: Result<(), IoFailure>)
        ensures
            r == if old(self)@.path is None {
                Err::<(), IoFailure>(IoFailure::NotFound)
            } else {
                outcome
            },
            final(self)@ == if r is Ok {
                BufferModel { dirty: false, ..old(self)@ }
            } else {
                old(self)@
            },
            old(self).wf() ==> final(self).wf(),
    {
        if !self.file_info.has_path() {
            return Err(IoFailure::NotFound);
        }
        if outcome.is_ok() {
            self.dirty = false;
        }
        assert(self@.lines =~= old(self)@.lines);
        outcome
    }

    /// Takes what writing the document to the file `file_name` gave. After
    /// a successful write the document belongs to that file and has no
    /// unsaved changes; a failure leaves everything as it is.
    pub fn save_as(&mut self, file_name: &str, outcome: Result<(), IoFailure>) -> (r: Result<
        (),
        IoFailure,
    >)
        ensures
            r == outcome,
            final(self)@ == if r is Ok {
                BufferModel { dirty: false, path: Some(file_name@), ..old(self)@ }
            } else {
                old(self)@
            },
            old(self).wf() ==> final(self).wf(),
    {
        if outcome.is_ok() {
            self.file_info = FileInfo::from(file_name);
            self.dirty = false;
        }
        assert(self@.lines =~= old(self)@.lines);
        outcome
    }

    /// Whether the document is one empty line.
    pub fn is_empty(&self) -> (empty: bool)
        requires
            self.wf(),
        ensures
            empty == (self@.lines.len() == 1 && self@.lines[0].len() == 0),
    {
        self.lines.len() == 1 && self.lines[0].is_empty()
    }

    /// Whether the document belongs to a file.
    pub fn is_file_loaded(&self) -> (loaded: bool)
        ensures
            loaded == self@.path is Some,
    {
        self.file_info.has_path()
    }

    /// Whether the document has changes that no save has recorded.
    pub fn is_dirty(&self) -> (dirty: bool)
        ensures
            dirty == self@.dirty,
    {
        self.dirty
    }

    /// The name of the file, if the document belongs to one.
    pub fn file_name(&self) -> (name: Option<&str>)
        ensures
            match name {
                Some(n) => self@.path == Some(n@),
                None => self@.path is None,
            },
    {
        self.file_info.get_path()
    }

    /// Number of lines.
    pub fn height(&self) -> (height: usize)
        ensures
            height == self@.lines.len(),
    {
        self.lines.len()
    }

    /// The line at `line_idx`, if there is one.
    pub fn line(&self, line_idx: usize) -> (line: Option<&Line>)
        requires
            self.wf(),
        ensures
            match line {
                Some(l) => line_idx < self@.lines.len() && l.wf() && l@ == self@.lines[line_idx as int],
                None => line_idx >= self@.lines.len(),
            },
    {
        if line_idx < self.lines.len() {
            Some(&self.lines[line_idx])
        } else {
            None
        }
    }

    /// Number of grapheme clusters in the line at `line_idx`; zero where
    /// there is no such line.
    pub fn grapheme_count_at(&self, line_idx: usize) -> (count: usize)
        requires
            self.wf(),
        ensures
            count == line_count_of(self@.lines, line_idx as int),
    {
        match self.line(line_idx) {
            Some(line) => line.grapheme_count(),
            None => 0,
        }
    }

    /// Columns before `at` in its line; zero where there is no such line.
    pub fn width_until(&self, at: Location) -> (width: usize)
        requires
            self.wf(),
        ensures
            width == column_of(self@.lines, at),
    {
        match self.line(at.line_idx) {
            Some(line) => line.width_until(at.grapheme_idx),
            None => 0,
        }
    }

    /// Puts `character` into the line at `at`, in front of the cluster
    /// there. Nothing changes where there is no such line.
    pub fn insert_char(&mut self, character: char, at: Location)
        requires
            old(self).wf(),
        ensures
            final(self).wf(),
            final(self)@.lines == insert_char_of(
                old(self)@.lines,
                character,
                at.line_idx as int,
                at.grapheme_idx as int,
            ),
            final(self)@.dirty == (old(self)@.dirty || at.line_idx < old(self)@.lines.len()),
            final(self)@.path == old(self)@.path,
    {
        if at.line_idx < self.lines.len() {
            let mut line: Line = self.lines.remove(at.line_idx);
            line.insert(character, at.grapheme_idx);
            self.lines.insert(at.line_idx, line);
            self.dirty = true;
            assert(self@.lines =~= insert_char_of(
                old(self)@.lines,
                character,
                at.line_idx as int,
                at.grapheme_idx as int,
            ));
        }
    }

    /// Cuts the line at `at` in two in front of the cluster there. Nothing
    /// changes where there is no such line.
    pub fn insert_newline(&mut self, at: Location)
        requires
            old(self).wf(),
        ensures
            final(self).wf(),
            final(self)@.lines == insert_newline_of(
                old(self)@.lines,
                at.line_idx as int,
                at.grapheme_idx as int,
            ),
            final(self)@.dirty == (old(self)@.dirty || at.line_idx < old(self)@.lines.len()),
            final(self)@.path == old(self)@.path,
    {
        if at.line_idx < self.lines.len() {
            let line: Line = self.lines.remove(at.line_idx);
            let (head, tail) = line.split(at.grapheme_idx);
            self.lines.insert(at.line_idx, tail);
            self.lines.insert(at.line_idx, head);
            self.dirty = true;
            assert(self@.lines =~= insert_newline_of(
                old(self)@.lines,
                at.line_idx as int,
                at.grapheme_idx as int,
            ));
        }
    }

    /// Deletes at `at`: the cluster there, or, at the end of a line that is
    /// not the last, the line break. Nothing changes at the end of the
    /// document, nor where there is no such line.
    pub fn delete(&mut self, at: Location)
        requires
            old(self).wf(),
        ensures
            final(self).wf(),
            final(self)@.lines == delete_at_of(
                old(self)@.lines,
                at.line_idx as int,
                at.grapheme_idx as int,
            ),
            final(self)@.dirty == (old(self)@.dirty || deletes(old(self)@.lines, at)),
            final(self)@.path == old(self)@.path,
    {
        if at.line_idx < self.lines.len() {
            let count: usize = self.lines[at.line_idx].grapheme_count();
            if at.grapheme_idx < count {
                let mut line: Line = self.lines.remove(at.line_idx);
                line.delete(at.grapheme_idx);
                self.lines.insert(at.line_idx, line);
                self.dirty = true;
                assert(self@.lines =~= delete_at_of(
                    old(self)@.lines,
                    at.line_idx as int,
                    at.grapheme_idx as int,
                ));
            } else if at.line_idx + 1 < self.lines.len() {
                let next: Line = self.lines.remove(at.line_idx + 1);
                let mut line: Line = self.lines.remove(at.line_idx);
                line.append(&next);
                self.lines.insert(at.line_idx, line);
                self.dirty = true;
                assert(self@.lines =~= delete_at_of(
                    old(self)@.lines,
                    at.line_idx as int,
                    at.grapheme_idx as int,
                ));
            }
        }
    }

    /// The first occurrence of `query` that a search from `from` comes to:
    /// it runs from `from` to the end of that line, through the lines
    /// below, and from the top of the document back to `from`.
    pub fn search_forward(&self, query: &Line, from: Location) -> (found: Option<Location>)
        requires
            self.wf(),
            query.wf(),
        ensures
            is_forward_hit(self@.lines, query@, from, found),
    {
        let ghost lines = self@.lines;
        let height: usize = self.lines.len();
        if from.line_idx < height {
            if let Some(g) = self.lines[from.line_idx].search_forward(query, from.grapheme_idx) {
                return Some(Location { line_idx: from.line_idx, grapheme_idx: g });
            }
        }
        let below: usize = if from.line_idx < height {
            from.line_idx + 1
        } else {
            height
        };
        let mut l: usize = below;
        while l < height
            invariant
                self.wf(),
                query.wf(),
                lines == self@.lines,
                height == lines.len(),
                below <= l <= height,
                below == if from.line_idx < height {
                    from.line_idx + 1
                } else {
                    height as int
                },
                from.line_idx < height ==> forall|g: int|
                    from.grapheme_idx <= g ==> !occurs_in(lines, query@, from.line_idx as int, g),
                forall|k: int, g: int| below <= k < l ==> !occurs_in(lines, query@, k, g),
            decreases height - l,
        {
            if let Some(g) = self.lines[l].search_forward(query, 0) {
                return Some(Location { line_idx: l, grapheme_idx: g });
            }
            l = l + 1;
        }
        let mut l: usize = 0;
        while l < below
            invariant
                self.wf(),
                query.wf(),
                lines == self@.lines,
                height == lines.len(),
                0 <= l <= below <= height,
                below == if from.line_idx < height {
                    from.line_idx + 1
                } else {
                    height as int
                },
                from.line_idx < height ==> forall|g: int|
                    from.grapheme_idx <= g ==> !occurs_in(lines, query@, from.line_idx as int, g),
                forall|k: int, g: int| below <= k ==> !occurs_in(lines, query@, k, g),
                forall|k: int, g: int| 0 <= k < l ==> !occurs_in(lines, query@, k, g),
            decreases below - l,
        {
            if let Some(g) = self.lines[l].search_forward(query, 0) {
                return Some(Location { line_idx: l, grapheme_idx: g });
            }
            l = l + 1;
        }
        None
    }

    /// The last occurrence of `query` in the lines from `hi - 1` down to
    /// `lo`: the lowest line that holds one, and the last one in it.
    fn last_in_lines(&self, query: &Line, lo: usize, hi: usize) -> (found: Option<Location>)
        requires
            self.wf(),
            query.wf(),
            lo <= hi <= self@.lines.len(),
        ensures
            found == last_line_with(self@.lines, query@, lo as int, hi as int),
    {
        let ghost lines = self@.lines;
        let mut l: usize = hi;
        while l > lo
            invariant
                self.wf(),
                query.wf(),
                lines == self@.lines,
                lo <= l <= hi <= lines.len(),
                last_line_with(lines, query@, lo as int, hi as int) == last_line_with(
                    lines,
                    query@,
                    lo as int,
                    l as int,
                ),
            decreases l - lo,
        {
            let line: &Line = &self.lines[l - 1];
            if let Some(g) = line.search_backward(query, line.grapheme_count()) {
                return Some(Location { line_idx: l - 1, grapheme_idx: g });
            }
            l = l - 1;
        }
        None
    }

    /// The occurrence of `query` that a backward search from `from` comes
    /// to: it looks at the line of `from` up to `from`, at the lines above
    /// from the nearest up, and from the bottom of the document back to the
    /// line of `from`, and takes the last occurrence in the first line
    /// that holds one.
    pub fn search_backward(&self, query: &Line, from: Location) -> (found: Option<Location>)
        requires
            self.wf(),
            query.wf(),
        ensures
            found == backward_hit(self@.lines, query@, from),
    {
        let height: usize = self.lines.len();
        let line: usize = if from.line_idx < height {
            from.line_idx
        } else {
            height
        };
        if line < height {
            if let Some(g) = self.lines[line].search_backward(query, from.grapheme_idx) {
                return Some(Location { line_idx: from.line_idx, grapheme_idx: g });
            }
        }
        match self.last_in_lines(query, 0, line) {
            Some(hit) => Some(hit),
            None => self.last_in_lines(query, line, height),
        }
    }
}

/// Number of grapheme clusters in line `l`; zero where there is no such line.
pub open spec fn line_count_of(lines: Seq<Seq<char>>, l: int) -> nat {
    if 0 <= l < lines.len() {
        count_of(lines[l])
    } else {
        0
    }
}

/// The column at which `at` stands in its line; zero where there is no
/// such line.
pub open spec fn column_of(lines: Seq<Seq<char>>, at: Location) -> nat {
    if at.line_idx < lines.len() {
        width_until_of(lines[at.line_idx as int], at.grapheme_idx as int)
    } else {
        0
    }
}

/// Whether a deletion at `at` changes anything.
pub open spec fn deletes(lines: Seq<Seq<char>>, at: Location) -> bool {
    at.line_idx < lines.len() && (at.grapheme_idx < count_of(lines[at.line_idx as int])
        || at.line_idx + 1 < lines.len())
}

} // verus!
