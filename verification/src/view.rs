//! The viewport: the document with a cursor, a scroll offset and a screen
//! size, and the search session that moves the cursor between matches.
use vstd::prelude::*;
use vstd::view::View as _;
use crate::buffer::{
    backward_hit, column_of, delete_at_of, insert_char_of, insert_newline_of, is_forward_hit,
    lemma_insert_then_delete_restores, lemma_single_occurrence_is_found, line_count_of, occurs_in,
    split_lines, Buffer, BufferModel, IoFailure,
};
use crate::annotated_string::AnnotatedString;
use crate::command::{Direction, Edit, EditCommand, Move};
use crate::document_status::{shown_name, DocumentStatus, StatusModel};
use crate::line::{
    count_of, insert_of, lemma_empty_has_no_clusters, lemma_width_fits, stands_alone, visible_of,
    well_segmented, Line,
};
use crate::terminal::{annotated_row_image, drawn, row_image, Drawn, Terminal, TerminalCommand};
use crate::text::utf8_len;
use vstd::string::StringExecFns;
use vstd::string::StrSliceExecFns;
use crate::position::{
    half_rounded_up, half_up, minus, plus, saturating_add, saturating_sub, Location, Position,
    Size,
};

verus! {

/// The direction of a search.
#[derive(Copy, Clone, Debug, PartialEq, Eq, Structural)]
pub enum SearchDirection {
    Forward,
    Backward,
}

impl Default for SearchDirection {
    fn default() -> (direction: SearchDirection)
        ensures
            direction == SearchDirection::Forward,
    {
        SearchDirection::Forward
    }
}

/// What is wrong with a search that cannot be made.
#[derive(Copy, Clone, Debug, PartialEq, Eq, Structural)]
pub enum SearchError {
    /// No search session is active, or the session has no query yet.
    MalformedSearchState,
}

/// A search session: where the cursor and the viewport stood when it
/// began, and what is sought.
pub struct SearchInfo {
    pub prev_location: Location,
    pub prev_scroll_offset: Position,
    pub query: Option<Line>,
}

/// What a search session holds, as plain values.
pub struct SearchModel {
    pub prev_location: Location,
    pub prev_scroll_offset: Position,
    pub query: Option<Seq<char>>,
}

impl vstd::view::View for SearchInfo {
    type V = SearchModel;

    open spec fn view(&self) -> SearchModel {
        SearchModel {
            prev_location: self.prev_location,
            prev_scroll_offset: self.prev_scroll_offset,
            query: match self.query {
                Some(line) => Some(line@),
                None => None,
            },
        }
    }
}

/// What a viewport holds, as plain values.
pub struct ViewModel {
    pub buffer: BufferModel,
    pub need_redraw: bool,
    pub size: Size,
    pub location: Location,
    pub scroll_offset: Position,
    pub search: Option<SearchModel>,
}

/// The index of the last line.
pub open spec fn last_line(lines: Seq<Seq<char>>) -> usize {
    if lines.len() > 0 {
        (lines.len() - 1) as usize
    } else {
        0
    }
}

/// Whether `at` names a line of the document and a place in it.
pub open spec fn is_valid(lines: Seq<Seq<char>>, at: Location) -> bool {
    at.line_idx < lines.len() && at.grapheme_idx <= line_count_of(lines, at.line_idx as int)
}

/// `at` with its grapheme index clamped to the length of its line; zero where
/// there is no such line.
pub open spec fn snapped_grapheme(lines: Seq<Seq<char>>, at: Location) -> Location {
    let count = line_count_of(lines, at.line_idx as int);
    Location {
        line_idx: at.line_idx,
        grapheme_idx: if at.grapheme_idx < count {
            at.grapheme_idx
        } else {
            count as usize
        },
    }
}

/// `at` with its line index clamped to the last line.
pub open spec fn snapped_line(lines: Seq<Seq<char>>, at: Location) -> Location {
    Location {
        line_idx: if at.line_idx < last_line(lines) {
            at.line_idx
        } else {
            last_line(lines)
        },
        grapheme_idx: at.grapheme_idx,
    }
}

/// `at` clamped to the document: first its line, and within that line its
/// grapheme index.
pub open spec fn snapped(lines: Seq<Seq<char>>, at: Location) -> Location {
    snapped_grapheme(lines, snapped_line(lines, at))
}

/// Where `step` lines up from `at` is.
pub open spec fn moved_up(lines: Seq<Seq<char>>, at: Location, step: usize) -> Location {
    snapped(lines, Location { line_idx: minus(at.line_idx, step), grapheme_idx: at.grapheme_idx })
}

/// Where `step` lines down from `at` is.
pub open spec fn moved_down(lines: Seq<Seq<char>>, at: Location, step: usize) -> Location {
    snapped(lines, Location { line_idx: plus(at.line_idx, step), grapheme_idx: at.grapheme_idx })
}

/// Where the start of the line of `at` is: the place is moved first and
/// clamped to the document afterwards.
pub open spec fn moved_to_start(lines: Seq<Seq<char>>, at: Location) -> Location {
    snapped(lines, Location { line_idx: at.line_idx, grapheme_idx: 0 })
}

/// Where the end of the line of `at` is: the place is moved to the length
/// of its line first, which is zero where there is no such line, and clamped
/// to the document afterwards.
pub open spec fn moved_to_end(lines: Seq<Seq<char>>, at: Location) -> Location {
    snapped(
        lines,
        Location {
            line_idx: at.line_idx,
            grapheme_idx: line_count_of(lines, at.line_idx as int) as usize,
        },
    )
}

/// Where one cluster to the right of `at` is. Inside a line it is the
/// next cluster. From the end of a line, and from any place at or past the
/// length of its line, it is the start of the next line. Where there is no
/// next line the cursor has nowhere to go: it stays, clamped to the document.
pub open spec fn moved_right(lines: Seq<Seq<char>>, at: Location) -> Location {
    if at.grapheme_idx < line_count_of(lines, at.line_idx as int) {
        Location { line_idx: at.line_idx, grapheme_idx: (at.grapheme_idx + 1) as usize }
    } else if at.line_idx < last_line(lines) {
        Location { line_idx: (at.line_idx + 1) as usize, grapheme_idx: 0 }
    } else {
        snapped(lines, at)
    }
}

/// Where one cluster to the left of `at` is: the place is moved first and
/// clamped to the document afterwards. Inside a line it is the cluster
/// before. From the start of a line it is one line up and there the end of
/// the line. At the start of the document the cursor stays.
pub open spec fn moved_left(lines: Seq<Seq<char>>, at: Location) -> Location {
    if at.grapheme_idx > 0 {
        snapped(
            lines,
            Location { line_idx: at.line_idx, grapheme_idx: (at.grapheme_idx - 1) as usize },
        )
    } else if at.line_idx > 0 {
        moved_to_end(lines, moved_up(lines, at, 1))
    } else {
        snapped(lines, at)
    }
}

/// Where a movement takes the cursor from `at`, on a screen `height` rows
/// high. A page is one row less than the screen.
pub open spec fn moved(lines: Seq<Seq<char>>, at: Location, movement: Move, height: usize) -> Location {
    match movement {
        Move::Up => moved_up(lines, at, 1),
        Move::Down => moved_down(lines, at, 1),
        Move::Left => moved_left(lines, at),
        Move::Right => moved_right(lines, at),
        Move::PageUp => moved_up(lines, at, minus(height, 1)),
        Move::PageDown => moved_down(lines, at, minus(height, 1)),
        Move::StartOfLine => moved_to_start(lines, at),
        Move::EndOfLine => moved_to_end(lines, at),
    }
}

/// The place of `at` in the document as a row and a column, before any
/// scrolling.
pub open spec fn position_of(lines: Seq<Seq<char>>, at: Location) -> Position {
    Position { row: at.line_idx, col: column_of(lines, at) as usize }
}

/// The scroll offset along one axis that shows coordinate `to` on a screen
/// of `extent` cells: `offset` itself where `to` is on screen; else the
/// nearest offset that brings `to` to the edge that it lies beyond.
pub open spec fn scrolled(offset: usize, extent: usize, to: usize) -> usize {
    if to < offset {
        to
    } else if to >= plus(offset, extent) {
        plus(minus(to, extent), 1)
    } else {
        offset
    }
}

/// Whether coordinate `to` lies off a screen of `extent` cells scrolled to
/// `offset`, so that showing it takes scrolling.
pub open spec fn off_screen(offset: usize, extent: usize, to: usize) -> bool {
    to < offset || to >= plus(offset, extent)
}

/// The scroll offset that shows position `to`.
pub open spec fn scrolled_to(offset: Position, size: Size, to: Position) -> Position {
    Position {
        row: scrolled(offset.row, size.height, to.row),
        col: scrolled(offset.col, size.width, to.col),
    }
}

/// The scroll offset that puts position `to` at the middle of the screen,
/// as far as the top and the left edge of the document allow.
pub open spec fn centered_on(size: Size, to: Position) -> Position {
    Position { row: minus(to.row, half_up(size.height)), col: minus(to.col, half_up(size.width)) }
}

/// Whether coordinate `to` is on a screen of `extent` cells scrolled to `offset`.
pub open spec fn shows(offset: usize, extent: usize, to: usize) -> bool {
    offset <= to < offset + extent
}

impl ViewModel {
    /// The lines of the document.
    pub open spec fn lines(self) -> Seq<Seq<char>> {
        self.buffer.lines
    }

    /// The place of the cursor in the document, as a row and a column.
    pub open spec fn cursor(self) -> Position {
        position_of(self.lines(), self.location)
    }

    /// The place of the cursor on the screen.
    pub open spec fn caret(self) -> Position {
        self.cursor().minus(self.scroll_offset)
    }

    /// Whether the cursor is on the screen.
    pub open spec fn cursor_visible(self) -> bool {
        &&& shows(self.scroll_offset.row, self.size.height, self.cursor().row)
        &&& shows(self.scroll_offset.col, self.size.width, self.cursor().col)
    }

    /// The viewport scrolled so far that it shows the cursor. Scrolling
    /// asks for a redraw.
    pub open spec fn scrolled_into_view(self) -> ViewModel {
        ViewModel {
            scroll_offset: scrolled_to(self.scroll_offset, self.size, self.cursor()),
            need_redraw: self.need_redraw || off_screen(
                self.scroll_offset.row,
                self.size.height,
                self.cursor().row,
            ) || off_screen(self.scroll_offset.col, self.size.width, self.cursor().col),
            ..self
        }
    }

    /// The viewport with the cursor at the middle of the screen.
    pub open spec fn centered(self) -> ViewModel {
        ViewModel {
            scroll_offset: centered_on(self.size, self.cursor()),
            need_redraw: true,
            ..self
        }
    }

    /// The viewport after a movement of the cursor.
    pub open spec fn after_move(self, movement: Move) -> ViewModel {
        (ViewModel {
            location: moved(self.lines(), self.location, movement, self.size.height),
            ..self
        }).scrolled_into_view()
    }

    /// The viewport with other text.
    pub open spec fn with_lines(self, lines: Seq<Seq<char>>, changed: bool) -> ViewModel {
        ViewModel {
            buffer: BufferModel { lines, dirty: self.buffer.dirty || changed, ..self.buffer },
            ..self
        }
    }

    /// The viewport with the cursor clamped to the document, and scrolled
    /// so far that it shows the cursor.
    pub open spec fn clamped(self) -> ViewModel {
        (ViewModel {
            location: snapped(self.lines(), self.location),
            ..self
        }).scrolled_into_view()
    }

    /// The viewport after a deletion at the cursor. The cursor stays where
    /// it is, clamped to what is left of the document.
    pub open spec fn after_delete(self) -> ViewModel {
        let at = self.location;
        ViewModel {
            need_redraw: true,
            ..self.with_lines(
                delete_at_of(self.lines(), at.line_idx as int, at.grapheme_idx as int),
                crate::buffer::deletes(self.lines(), at),
            ).clamped()
        }
    }

    /// The viewport after a deletion before the cursor: nothing at the
    /// start of the document; else one step to the left and a deletion there.
    pub open spec fn after_delete_backward(self) -> ViewModel {
        if self.location.line_idx != 0 || self.location.grapheme_idx != 0 {
            self.after_move(Move::Left).after_delete()
        } else {
            self
        }
    }

    /// The viewport after a line break at the cursor, which moves on to
    /// the start of the new line.
    pub open spec fn after_insert_newline(self) -> ViewModel {
        let at = self.location;
        ViewModel {
            need_redraw: true,
            ..self.with_lines(
                insert_newline_of(self.lines(), at.line_idx as int, at.grapheme_idx as int),
                at.line_idx < self.lines().len(),
            ).after_move(Move::Right)
        }
    }

    /// The viewport after the insertion of `c` at the cursor. The cursor
    /// moves on where the line has gained a cluster; else it stays where it
    /// is, clamped to the document.
    pub open spec fn after_insert_char(self, c: char) -> ViewModel {
        let at = self.location;
        let lines = insert_char_of(self.lines(), c, at.line_idx as int, at.grapheme_idx as int);
        let inserted = self.with_lines(lines, at.line_idx < self.lines().len());
        let grown = line_count_of(lines, at.line_idx as int) > line_count_of(
            self.lines(),
            at.line_idx as int,
        );
        ViewModel {
            need_redraw: true,
            ..if grown {
                inserted.after_move(Move::Right)
            } else {
                inserted.clamped()
            }
        }
    }

    /// The viewport after an edit.
    pub open spec fn after_edit(self, command: Edit) -> ViewModel {
        match command {
            Edit::Insert(c) => self.after_insert_char(c),
            Edit::Delete => self.after_delete(),
            Edit::DeleteBackward => self.after_delete_backward(),
            Edit::InsertNewLine => self.after_insert_newline(),
        }
    }

    /// What the search session seeks.
    pub open spec fn query(self) -> Option<Seq<char>> {
        match self.search {
            Some(session) => session.query,
            None => None,
        }
    }

    /// The viewport with a search session begun: the session keeps where
    /// the cursor and the viewport stand, and seeks nothing yet.
    pub open spec fn after_enter_search(self) -> ViewModel {
        ViewModel {
            search: Some(
                SearchModel {
                    prev_location: self.location,
                    prev_scroll_offset: self.scroll_offset,
                    query: None,
                },
            ),
            ..self
        }
    }

    /// The viewport with the search session ended and the cursor left
    /// where it is.
    pub open spec fn after_exit_search(self) -> ViewModel {
        ViewModel { search: None, need_redraw: true, ..self }
    }

    /// The viewport with the search session ended and the cursor and the
    /// scroll offset back where the session found them. The viewport still
    /// scrolls so far that the cursor is on the screen, which may have
    /// changed its size meanwhile.
    pub open spec fn after_dismiss_search(self) -> ViewModel {
        match self.search {
            Some(session) => (ViewModel {
                location: session.prev_location,
                scroll_offset: session.prev_scroll_offset,
                ..self
            }).scrolled_into_view().after_exit_search(),
            None => self.after_exit_search(),
        }
    }

    /// The viewport with `text` as what the search session seeks. Nothing
    /// changes where no session is active.
    pub open spec fn after_update_query(self, text: Seq<char>) -> ViewModel {
        match self.search {
            Some(session) => ViewModel {
                search: Some(SearchModel { query: Some(text), ..session }),
                need_redraw: true,
                ..self
            },
            None => self,
        }
    }

    /// Whether `found` is what a search from `from` in `direction` finds.
    /// Without a session, without a query, and for a query without
    /// characters it finds nothing.
    pub open spec fn is_hit(
        self,
        from: Location,
        direction: SearchDirection,
        found: Option<Location>,
    ) -> bool {
        match self.query() {
            Some(needle) => if needle.len() == 0 {
                found is None
            } else {
                match direction {
                    SearchDirection::Forward => is_forward_hit(self.lines(), needle, from, found),
                    SearchDirection::Backward => found == backward_hit(self.lines(), needle, from),
                }
            },
            None => found is None,
        }
    }

    /// The viewport after a search: with the cursor on what was found, at
    /// the middle of the screen; unchanged where nothing was found.
    pub open spec fn after_hit(self, found: Option<Location>) -> ViewModel {
        match found {
            Some(at) => (ViewModel { location: at, ..self }).centered(),
            None => self,
        }
    }

    /// Where the search for the next match starts: one cluster after the
    /// cursor.
    pub open spec fn next_from(self) -> Location {
        Location {
            line_idx: self.location.line_idx,
            grapheme_idx: plus(self.location.grapheme_idx, 1),
        }
    }

    /// The viewport with the contents of a file as its document.
    pub open spec fn after_load(self, file_name: Seq<char>, contents: Seq<char>) -> ViewModel {
        ViewModel {
            buffer: BufferModel {
                lines: split_lines(contents),
                dirty: false,
                path: Some(file_name),
            },
            need_redraw: true,
            ..self
        }
    }

    /// Whether rendering draws anything: a redraw has to be asked for, and
    /// the screen has to have cells.
    pub open spec fn draws(self) -> bool {
        self.need_redraw && self.size.height > 0 && self.size.width > 0
    }

    /// What the status bar tells about the document.
    pub open spec fn status(self) -> StatusModel {
        StatusModel {
            total_lines: self.lines().len() as usize,
            current_line_idx: self.location.line_idx,
            is_modified: self.buffer.dirty,
            file_name: shown_name(self.buffer.path),
        }
    }

    /// The viewport after a flat command: movements move the cursor, a
    /// resize takes the new size, edits change the text, and quitting and
    /// saving are not the viewport's business.
    pub open spec fn after_command(self, command: EditCommand) -> ViewModel {
        match command {
            EditCommand::Resize(size) => self.after_resize(size),
            EditCommand::Move(direction) => self.after_move(direction.movement()),
            EditCommand::Insert(c) => self.after_insert_char(c),
            EditCommand::Backspace => self.after_delete_backward(),
            EditCommand::Delete => self.after_delete(),
            EditCommand::Enter => self.after_insert_newline(),
            EditCommand::Quit => self,
            EditCommand::Save => self,
        }
    }

    /// The viewport on a screen of another size.
    pub open spec fn after_resize(self, size: Size) -> ViewModel {
        ViewModel { need_redraw: true, ..(ViewModel { size, ..self }).scrolled_into_view() }
    }
}

/// `n` spaces.
pub open spec fn spaces(n: int) -> Seq<char> {
    Seq::new(n as nat, |i: int| ' ')
}

/// What stands between the name and the version in the welcome message.
pub open spec fn welcome_infix() -> Seq<char> {
    " Editor -- version "@
}

/// The welcome message for a screen `width` columns wide: a tilde, and
/// after it the name and the version of the editor in the middle of the
/// columns that are left. Where these are too few, the tilde alone; on a
/// screen without columns, nothing.
pub open spec fn welcome_message(width: usize, name: Seq<char>, version: Seq<char>) -> Seq<char> {
    let message = name + welcome_infix() + version;
    let remaining = width - 1;
    if width == 0 {
        Seq::empty()
    } else if remaining < utf8_len(message) {
        seq!['~']
    } else {
        let padding = remaining - message.len();
        seq!['~'] + spaces(padding / 2) + message + spaces(padding - padding / 2)
    }
}

/// A third of `n`, rounded up.
pub open spec fn third_up(n: usize) -> usize {
    ((n + 2) / 3) as usize
}

/// Whether the document is one empty line.
pub open spec fn is_blank(lines: Seq<Seq<char>>) -> bool {
    lines.len() == 1 && lines[0].len() == 0
}

/// What is drawn in screen row `row` of a viewport whose first row is
/// `origin_row`: the visible stretch of the line that falls into the row,
/// with the matches of the search annotated and the one under the cursor
/// selected; below the document a tilde, or the welcome message a third
/// down the screen where the document is blank.
pub open spec fn row_of(
    m: ViewModel,
    origin_row: usize,
    row: usize,
    name: Seq<char>,
    version: Seq<char>,
) -> Seq<Drawn> {
    let line_idx = plus(minus(row, origin_row), m.scroll_offset.row);
    if line_idx < m.lines().len() {
        annotated_row_image(
            row,
            visible_of(
                m.lines()[line_idx as int],
                m.scroll_offset.col as int,
                plus(m.scroll_offset.col, m.size.width) as int,
                m.query(),
                if m.location.line_idx == line_idx && m.query() is Some {
                    Some(m.location.grapheme_idx)
                } else {
                    None
                },
            ),
        )
    } else if row == third_up(m.size.height) && is_blank(m.lines()) {
        row_image(row, welcome_message(m.size.width, name, version))
    } else {
        row_image(row, seq!['~'])
    }
}

/// What is drawn in the screen rows from `origin_row` up to `end`.
pub open spec fn rows_of(
    m: ViewModel,
    origin_row: usize,
    end: int,
    name: Seq<char>,
    version: Seq<char>,
) -> Seq<Drawn>
    decreases end - origin_row,
{
    if end <= origin_row {
        Seq::empty()
    } else {
        rows_of(m, origin_row, end - 1, name, version) + row_of(
            m,
            origin_row,
            (end - 1) as usize,
            name,
            version,
        )
    }
}

/// What is drawn for the whole viewport: its rows from the top down.
pub open spec fn frame_of(m: ViewModel, origin_row: usize, name: Seq<char>, version: Seq<char>) -> Seq<
    Drawn,
> {
    rows_of(m, origin_row, plus(origin_row, m.size.height) as int, name, version)
}

/// A scroll offset that `scrolled` gives shows the coordinate, on any
/// screen that has cells at all.
pub proof fn lemma_scrolled_shows(offset: usize, extent: usize, to: usize)
    requires
        extent > 0,
    ensures
        shows(scrolled(offset, extent, to), extent, to),
{
}

/// After scrolling into view the cursor is on the screen and its place on
/// the screen lies within the screen, on any screen that has cells at all.
pub proof fn lemma_scrolled_into_view(m: ViewModel)
    requires
        m.size.height > 0,
        m.size.width > 0,
    ensures
        m.scrolled_into_view().cursor_visible(),
        m.scrolled_into_view().caret().row < m.size.height,
        m.scrolled_into_view().caret().col < m.size.width,
{
    lemma_scrolled_shows(m.scroll_offset.row, m.size.height, m.cursor().row);
    lemma_scrolled_shows(m.scroll_offset.col, m.size.width, m.cursor().col);
}

/// Clamping a place to the document makes it valid, and leaves a valid
/// place as it is.
pub proof fn lemma_snapped(lines: Seq<Seq<char>>, at: Location)
    requires
        1 <= lines.len() <= usize::MAX,
        forall|i: int| 0 <= i < lines.len() ==> line_count_of(lines, i) <= usize::MAX,
    ensures
        is_valid(lines, snapped(lines, at)),
        is_valid(lines, at) ==> snapped(lines, at) == at,
{
}

/// Every movement ends at a valid place.
pub proof fn lemma_moved_valid(lines: Seq<Seq<char>>, at: Location, movement: Move, height: usize)
    requires
        1 <= lines.len() <= usize::MAX,
        forall|i: int| 0 <= i < lines.len() ==> line_count_of(lines, i) <= usize::MAX,
    ensures
        is_valid(lines, moved(lines, at, movement, height)),
{
    lemma_snapped(lines, at);
    lemma_snapped(
        lines,
        Location { line_idx: minus(at.line_idx, 1), grapheme_idx: at.grapheme_idx },
    );
    lemma_snapped(lines, Location { line_idx: plus(at.line_idx, 1), grapheme_idx: at.grapheme_idx });
    lemma_snapped(
        lines,
        Location { line_idx: minus(at.line_idx, minus(height, 1)), grapheme_idx: at.grapheme_idx },
    );
    lemma_snapped(
        lines,
        Location { line_idx: plus(at.line_idx, minus(height, 1)), grapheme_idx: at.grapheme_idx },
    );
}

/// Moving left from the start of a line wraps to the end of the line
/// above, also from the place just below the last line; moving right from
/// the end of a line wraps to the start of the line below.
pub proof fn lemma_moves_wrap(lines: Seq<Seq<char>>, at: Location)
    requires
        1 <= lines.len() <= usize::MAX,
        forall|i: int| 0 <= i < lines.len() ==> line_count_of(lines, i) <= usize::MAX,
    ensures
        at.grapheme_idx == 0 && 0 < at.line_idx <= lines.len() ==> moved_left(lines, at) == (
        Location {
            line_idx: (at.line_idx - 1) as usize,
            grapheme_idx: line_count_of(lines, at.line_idx - 1) as usize,
        }),
        at.grapheme_idx == line_count_of(lines, at.line_idx as int) && at.line_idx + 1
            < lines.len() ==> moved_right(lines, at) == (Location {
            line_idx: (at.line_idx + 1) as usize,
            grapheme_idx: 0,
        }),
{
}

/// In a document in which the query stands at exactly one place, the
/// search for the next match finds that place from wherever the cursor is,
/// and a second search for the next match, from the match, wraps around the
/// document and finds the same place again.
pub proof fn lemma_search_next_wraps(
    m: ViewModel,
    at: Location,
    first: Option<Location>,
    second: Option<Location>,
)
    requires
        m.query() is Some,
        well_segmented(m.query()->0),
        occurs_in(m.lines(), m.query()->0, at.line_idx as int, at.grapheme_idx as int),
        forall|l: int, g: int| #[trigger]
            occurs_in(m.lines(), m.query()->0, l, g) ==> l == at.line_idx && g == at.grapheme_idx,
        m.is_hit(m.next_from(), SearchDirection::Forward, first),
        m.after_hit(first).is_hit(m.after_hit(first).next_from(), SearchDirection::Forward, second),
    ensures
        first == Some(at),
        second == Some(at),
        m.after_hit(first).location == at,
        m.after_hit(first).after_hit(second).location == at,
{
    if m.query()->0.len() == 0 {
        lemma_empty_has_no_clusters(m.query()->0);
    }
    lemma_single_occurrence_is_found(m.lines(), m.query()->0, at, m.next_from(), first);
    let n = m.after_hit(first);
    lemma_single_occurrence_is_found(n.lines(), n.query()->0, at, n.next_from(), second);
}

/// A search puts what it finds at the middle of the screen: the row of
/// the cursor on the screen is half the height of the screen, rounded up,
/// unless the cursor stands nearer than that to the top of the document,
/// and likewise for its column.
pub proof fn lemma_hit_is_centered(m: ViewModel, at: Location)
    ensures
        m.after_hit(Some(at)).location == at,
        m.after_hit(Some(at)).caret().row == if at.line_idx >= half_up(m.size.height) {
            half_up(m.size.height)
        } else {
            at.line_idx
        },
        m.after_hit(Some(at)).caret().col == if column_of(m.lines(), at) as usize >= half_up(
            m.size.width,
        ) {
            half_up(m.size.width)
        } else {
            column_of(m.lines(), at) as usize
        },
{
}

/// Inserting a character at the cursor and deleting backward gives the
/// text back and takes the cursor back where it was, with the document
/// marked as changed, wherever the character stands as a cluster of its own
/// and the line has gained just that cluster.
pub proof fn lemma_insert_then_delete_backward(m: ViewModel, c: char)
    requires
        1 <= m.lines().len() <= usize::MAX,
        is_valid(m.lines(), m.location),
        well_segmented(m.lines()[m.location.line_idx as int]),
        well_segmented(
            insert_of(m.lines()[m.location.line_idx as int], c, m.location.grapheme_idx as int),
        ),
        stands_alone(m.lines()[m.location.line_idx as int], c, m.location.grapheme_idx as int),
        count_of(
            insert_of(m.lines()[m.location.line_idx as int], c, m.location.grapheme_idx as int),
        ) == count_of(m.lines()[m.location.line_idx as int]) + 1 <= usize::MAX,
    ensures
        m.after_edit(Edit::Insert(c)).after_edit(Edit::DeleteBackward).lines() == m.lines(),
        m.after_edit(Edit::Insert(c)).after_edit(Edit::DeleteBackward).location == m.location,
        m.after_edit(Edit::Insert(c)).after_edit(Edit::DeleteBackward).buffer.dirty,
        m.after_edit(Edit::Insert(c)).location == (Location {
            line_idx: m.location.line_idx,
            grapheme_idx: (m.location.grapheme_idx + 1) as usize,
        }),
{
    let at = m.location;
    let l = at.line_idx as int;
    let g = at.grapheme_idx as int;
    let longer = insert_char_of(m.lines(), c, l, g);
    assert(longer[l] == insert_of(m.lines()[l], c, g));
    lemma_insert_then_delete_restores(m.lines(), c, at);
    let inserted = m.after_edit(Edit::Insert(c));
    assert(inserted.lines() == longer);
    let moved_on = Location { line_idx: at.line_idx, grapheme_idx: (g + 1) as usize };
    assert(snapped(longer, at) == at);
    assert(inserted.location == moved_on);
    assert(snapped(longer, moved_on) == moved_on);
    let back = inserted.after_move(Move::Left);
    assert(back.location == at);
    assert(back.lines() == longer);
    assert(snapped(m.lines(), at) == at);
}

/// The document with its cursor, its scroll offset and its screen size.
pub struct View {
    buffer: Buffer,
    need_redraw: bool,
    size: Size,
    text_location: Location,
    scroll_offset: Position,
    search_info: Option<SearchInfo>,
}

impl vstd::view::View for View {
    type V = ViewModel;

    closed spec fn view(&self) -> ViewModel {
        ViewModel {
            buffer: self.buffer@,
            need_redraw: self.need_redraw,
            size: self.size,
            location: self.text_location,
            scroll_offset: self.scroll_offset,
            search: match self.search_info {
                Some(info) => Some(info@),
                None => None,
            },
        }
    }
}

impl View {
    /// The document and the query of the search session are well-formed.
    pub closed spec fn wf(&self) -> bool {
        &&& self.buffer.wf()
        &&& match self.search_info {
            Some(info) => match info.query {
                Some(query) => query.wf(),
                None => true,
            },
            None => true,
        }
    }

    /// What a well-formed viewport guarantees to the outside: its document
    /// has at least one line, every line is well segmented, and lines,
    /// clusters and columns can be counted.
    pub proof fn lemma_wf(&self)
        requires
            self.wf(),
        ensures
            1 <= self@.lines().len() <= usize::MAX,
            forall|i: int|
                0 <= i < self@.lines().len() ==> line_count_of(self@.lines(), i) <= usize::MAX,
            forall|i: int|
                0 <= i < self@.lines().len() ==> well_segmented(#[trigger] self@.lines()[i]),
            forall|at: Location| #[trigger] column_of(self@.lines(), at) <= usize::MAX,
    {
        assert forall|i: int| 0 <= i < self@.lines().len() implies line_count_of(self@.lines(), i)
            <= usize::MAX && well_segmented(#[trigger] self@.lines()[i]) by {
            self.buffer.lemma_line(i);
        }
        assert forall|at: Location| #[trigger] column_of(self@.lines(), at) <= usize::MAX by {
            if at.line_idx < self@.lines().len() {
                self.buffer.lemma_line(at.line_idx as int);
                lemma_width_fits(self@.lines()[at.line_idx as int], at.grapheme_idx as int);
            }
        }
        self.buffer.lemma_height();
    }

    /// What a new viewport holds: an empty document that belongs to no
    /// file, the cursor at its start, a screen without cells, no search
    /// session, and a request for a redraw.
    pub open spec fn new_model() -> ViewModel {
        ViewModel {
            buffer: BufferModel {
                lines: seq![Seq::<char>::empty()],
                dirty: false,
                path: None,
            },
            need_redraw: true,
            size: Size { height: 0, width: 0 },
            location: Location { line_idx: 0, grapheme_idx: 0 },
            scroll_offset: Position { row: 0, col: 0 },
            search: None,
        }
    }

    /// A viewport onto an empty document, on a screen without cells.
    pub fn new() -> (view: View)
        ensures
            view.wf(),
            view@ == Self::new_model(),
    {
        View {
            buffer: Buffer::new(),
            need_redraw: true,
            size: Size { height: 0, width: 0 },
            text_location: Location { line_idx: 0, grapheme_idx: 0 },
            scroll_offset: Position { row: 0, col: 0 },
            search_info: None,
        }
    }

    /// Asks for a redraw, or withdraws the request.
    pub fn set_needs_redraw(&mut self, value: bool)
        ensures
            final(self)@ == (ViewModel { need_redraw: value, ..old(self)@ }),
            old(self).wf() ==> final(self).wf(),
    {
        self.need_redraw = value;
    }

    /// Whether a redraw is asked for.
    pub fn needs_redraw(&self) -> (r: bool)
        ensures
            r == self@.need_redraw,
    {
        self.need_redraw
    }

    /// Sets the size of the screen.
    pub fn set_size(&mut self, size: Size)
        ensures
            final(self)@ == (ViewModel { size, ..old(self)@ }),
            old(self).wf() ==> final(self).wf(),
    {
        self.size = size;
    }

    /// The place of the cursor in the document.
    pub fn text_location(&self) -> (at: Location)
        ensures
            at == self@.location,
    {
        self.text_location
    }

    /// The scroll offset.
    pub fn scroll_offset(&self) -> (offset: Position)
        ensures
            offset == self@.scroll_offset,
    {
        self.scroll_offset
    }

    /// The document.
    pub fn buffer(&self) -> (buffer: &Buffer)
        ensures
            buffer@ == self@.buffer,
            self.wf() ==> buffer.wf(),
    {
        &self.buffer
    }

    /// Whether the document belongs to a file.
    pub fn is_file_loaded(&self) -> (loaded: bool)
        ensures
            loaded == self@.buffer.path is Some,
    {
        self.buffer.is_file_loaded()
    }

    /// Scrolls so far that row `to` is on the screen.
    pub fn scroll_vertically(&mut self, to: usize)
        ensures
            final(self)@ == (ViewModel {
                scroll_offset: Position {
                    row: scrolled(old(self)@.scroll_offset.row, old(self)@.size.height, to),
                    col: old(self)@.scroll_offset.col,
                },
                need_redraw: old(self)@.need_redraw || off_screen(
                    old(self)@.scroll_offset.row,
                    old(self)@.size.height,
                    to,
                ),
                ..old(self)@
            }),
            old(self).wf() ==> final(self).wf(),
    {
        let height: usize = self.size.height;
        let offset_changed: bool = if to < self.scroll_offset.row {
            self.scroll_offset.row = to;
            true
        } else if to >= saturating_add(self.scroll_offset.row, height) {
            self.scroll_offset.row = saturating_add(saturating_sub(to, height), 1);
            true
        } else {
            false
        };
        if offset_changed {
            self.set_needs_redraw(true);
        }
    }

    /// Scrolls so far that column `to` is on the screen.
    pub fn scroll_horizontally(&mut self, to: usize)
        ensures
            final(self)@ == (ViewModel {
                scroll_offset: Position {
                    row: old(self)@.scroll_offset.row,
                    col: scrolled(old(self)@.scroll_offset.col, old(self)@.size.width, to),
                },
                need_redraw: old(self)@.need_redraw || off_screen(
                    old(self)@.scroll_offset.col,
                    old(self)@.size.width,
                    to,
                ),
                ..old(self)@
            }),
            old(self).wf() ==> final(self).wf(),
    {
        let width: usize = self.size.width;
        let offset_changed: bool = if to < self.scroll_offset.col {
            self.scroll_offset.col = to;
            true
        } else if to >= saturating_add(self.scroll_offset.col, width) {
            self.scroll_offset.col = saturating_add(saturating_sub(to, width), 1);
            true
        } else {
            false
        };
        if offset_changed {
            self.set_needs_redraw(true);
        }
    }

    /// The place of the cursor in the document, as a row and a column.
    pub fn text_location_to_position(&self) -> (position: Position)
        requires
            self.wf(),
        ensures
            position == self@.cursor(),
            position.row == self@.location.line_idx,
            position.col == column_of(self@.lines(), self@.location),
    {
        let row: usize = self.text_location.line_idx;
        let col: usize = self.buffer.width_until(self.text_location);
        Position { col, row }
    }

    /// Scrolls so far that the cursor is on the screen.
    pub fn scroll_text_location_into_view(&mut self)
        requires
            old(self).wf(),
        ensures
            final(self).wf(),
            final(self)@ == old(self)@.scrolled_into_view(),
            final(self)@.size.height > 0 && final(self)@.size.width > 0
                ==> final(self)@.cursor_visible(),
    {
        proof {
            if self@.size.height > 0 && self@.size.width > 0 {
                lemma_scrolled_into_view(self@);
            }
        }
        let position: Position = self.text_location_to_position();
        self.scroll_vertically(position.row);
        self.scroll_horizontally(position.col);
    }

    /// Scrolls so that the cursor stands at the middle of the screen, as
    /// far as the top and the left edge of the document allow.
    pub fn center_text_location(&mut self)
        requires
            old(self).wf(),
        ensures
            final(self).wf(),
            final(self)@ == old(self)@.centered(),
    {
        let position: Position = self.text_location_to_position();
        let vertical_mid: usize = half_rounded_up(self.size.height);
        let horizontal_mid: usize = half_rounded_up(self.size.width);
        self.scroll_offset.row = saturating_sub(position.row, vertical_mid);
        self.scroll_offset.col = saturating_sub(position.col, horizontal_mid);
        self.set_needs_redraw(true);
    }

    /// The place of the cursor on the screen.
    pub fn caret_position(&self) -> (position: Position)
        requires
            self.wf(),
        ensures
            position == self@.caret(),
    {
        self.text_location_to_position().saturating_sub(self.scroll_offset)
    }

    /// The place of the cursor on the screen.
    pub fn get_position(&self) -> (position: Position)
        requires
            self.wf(),
        ensures
            position == self@.caret(),
    {
        self.caret_position()
    }

    /// Clamps the grapheme index of the cursor to the length of its line.
    pub fn snap_to_valid_grapheme(&mut self)
        requires
            old(self).wf(),
        ensures
            final(self).wf(),
            final(self)@ == (ViewModel {
                location: snapped_grapheme(old(self)@.lines(), old(self)@.location),
                ..old(self)@
            }),
    {
        let count: usize = self.buffer.grapheme_count_at(self.text_location.line_idx);
        if self.text_location.grapheme_idx > count {
            self.text_location.grapheme_idx = count;
        }
    }

    /// Clamps the line index of the cursor to the last line.
    pub fn snap_to_valid_line(&mut self)
        requires
            old(self).wf(),
        ensures
            final(self).wf(),
            final(self)@ == (ViewModel {
                location: snapped_line(old(self)@.lines(), old(self)@.location),
                ..old(self)@
            }),
    {
        let last: usize = self.buffer.height() - 1;
        if self.text_location.line_idx > last {
            self.text_location.line_idx = last;
        }
    }

    /// Clamps the cursor to the document.
    fn snap(&mut self)
        requires
            old(self).wf(),
        ensures
            final(self).wf(),
            final(self)@ == (ViewModel {
                location: snapped(old(self)@.lines(), old(self)@.location),
                ..old(self)@
            }),
            is_valid(final(self)@.lines(), final(self)@.location),
    {
        proof {
            self.lemma_wf();
            lemma_snapped(self@.lines(), self@.location);
        }
        self.snap_to_valid_line();
        self.snap_to_valid_grapheme();
    }

    /// Moves the cursor `step` lines up.
    pub fn move_up(&mut self, step: usize)
        requires
            old(self).wf(),
        ensures
            final(self).wf(),
            final(self)@ == (ViewModel {
                location: moved_up(old(self)@.lines(), old(self)@.location, step),
                ..old(self)@
            }),
    {
        self.text_location.line_idx = saturating_sub(self.text_location.line_idx, step);
        self.snap();
    }

    /// Moves the cursor `step` lines down.
    pub fn move_down(&mut self, step: usize)
        requires
            old(self).wf(),
        ensures
            final(self).wf(),
            final(self)@ == (ViewModel {
                location: moved_down(old(self)@.lines(), old(self)@.location, step),
                ..old(self)@
            }),
    {
        self.text_location.line_idx = saturating_add(self.text_location.line_idx, step);
        self.snap();
    }

    /// Moves the cursor one cluster to the right, and from the end of a
    /// line to the start of the next. At the end of the document the cursor
    /// stays.
    pub fn move_right(&mut self)
        requires
            old(self).wf(),
        ensures
            final(self).wf(),
            final(self)@ == (ViewModel {
                location: moved_right(old(self)@.lines(), old(self)@.location),
                ..old(self)@
            }),
    {
        let count: usize = self.buffer.grapheme_count_at(self.text_location.line_idx);
        if self.text_location.grapheme_idx < count {
            self.text_location.grapheme_idx = self.text_location.grapheme_idx + 1;
        } else if self.text_location.line_idx < self.buffer.height() - 1 {
            self.text_location.line_idx = self.text_location.line_idx + 1;
            self.text_location.grapheme_idx = 0;
        } else {
            self.snap();
        }
    }

    /// Moves the cursor one cluster to the left, and from the start of a
    /// line to the end of the line above. At the start of the document the
    /// cursor stays.
    pub fn move_left(&mut self)
        requires
            old(self).wf(),
        ensures
            final(self).wf(),
            final(self)@ == (ViewModel {
                location: moved_left(old(self)@.lines(), old(self)@.location),
                ..old(self)@
            }),
    {
        if self.text_location.grapheme_idx > 0 {
            self.text_location.grapheme_idx = self.text_location.grapheme_idx - 1;
            self.snap();
        } else if self.text_location.line_idx > 0 {
            self.move_up(1);
            self.move_to_end_of_line();
        } else {
            self.snap();
        }
    }

    /// Moves the cursor to the start of its line.
    pub fn move_to_start_of_line(&mut self)
        requires
            old(self).wf(),
        ensures
            final(self).wf(),
            final(self)@ == (ViewModel {
                location: moved_to_start(old(self)@.lines(), old(self)@.location),
                ..old(self)@
            }),
    {
        self.text_location.grapheme_idx = 0;
        self.snap();
    }

    /// Moves the cursor to the end of its line.
    pub fn move_to_end_of_line(&mut self)
        requires
            old(self).wf(),
        ensures
            final(self).wf(),
            final(self)@ == (ViewModel {
                location: moved_to_end(old(self)@.lines(), old(self)@.location),
                ..old(self)@
            }),
    {
        self.text_location.grapheme_idx = self.buffer.grapheme_count_at(
            self.text_location.line_idx,
        );
        self.snap();
    }

    /// Moves the cursor and scrolls so far that it stays on the screen.
    /// The cursor always ends at a place of the document.
    pub fn handle_move_command(&mut self, command: Move)
        requires
            old(self).wf(),
        ensures
            final(self).wf(),
            final(self)@ == old(self)@.after_move(command),
            is_valid(final(self)@.lines(), final(self)@.location),
            final(self)@.size.height > 0 && final(self)@.size.width > 0
                ==> final(self)@.cursor_visible(),
    {
        let height: usize = self.size.height;
        proof {
            self.lemma_wf();
            lemma_moved_valid(self@.lines(), self@.location, command, height);
            if self@.size.height > 0 && self@.size.width > 0 {
                lemma_scrolled_into_view(
                    ViewModel {
                        location: moved(self@.lines(), self@.location, command, height),
                        ..self@
                    },
                );
            }
        }
        match command {
            Move::Up => self.move_up(1),
            Move::Down => self.move_down(1),
            Move::Left => self.move_left(),
            Move::Right => self.move_right(),
            Move::PageUp => self.move_up(saturating_sub(height, 1)),
            Move::PageDown => self.move_down(saturating_sub(height, 1)),
            Move::StartOfLine => self.move_to_start_of_line(),
            Move::EndOfLine => self.move_to_end_of_line(),
        }
        self.scroll_text_location_into_view();
    }

    /// Moves the cursor in a direction.
    pub fn move_text_location(&mut self, direction: &Direction)
        requires
            old(self).wf(),
        ensures
            final(self).wf(),
            final(self)@ == old(self)@.after_move(direction.movement()),
    {
        self.handle_move_command(direction.as_move());
    }

    /// Deletes at the cursor: the cluster there, or the line break at the
    /// end of a line. The cursor stays where it is, clamped to what is left
    /// of the document, and on the screen.
    pub fn delete(&mut self)
        requires
            old(self).wf(),
        ensures
            final(self).wf(),
            final(self)@ == old(self)@.after_delete(),
            is_valid(final(self)@.lines(), final(self)@.location),
            final(self)@.size.height > 0 && final(self)@.size.width > 0
                ==> final(self)@.cursor_visible(),
    {
        self.buffer.delete(self.text_location);
        self.snap();
        self.scroll_text_location_into_view();
        self.set_needs_redraw(true);
    }

    /// Deletes before the cursor.
    pub fn delete_backward(&mut self)
        requires
            old(self).wf(),
        ensures
            final(self).wf(),
            final(self)@ == old(self)@.after_delete_backward(),
            is_valid(final(self)@.lines(), final(self)@.location),
    {
        if self.text_location.line_idx != 0 || self.text_location.grapheme_idx != 0 {
            self.handle_move_command(Move::Left);
            self.delete();
        } else {
            proof {
                self.lemma_wf();
            }
        }
    }

    /// Breaks the line at the cursor, which moves on to the start of the
    /// new line.
    pub fn insert_newline(&mut self)
        requires
            old(self).wf(),
        ensures
            final(self).wf(),
            final(self)@ == old(self)@.after_insert_newline(),
            is_valid(final(self)@.lines(), final(self)@.location),
            final(self)@.size.height > 0 && final(self)@.size.width > 0
                ==> final(self)@.cursor_visible(),
    {
        self.buffer.insert_newline(self.text_location);
        self.handle_move_command(Move::Right);
        self.set_needs_redraw(true);
    }

    /// Inserts `character` at the cursor, which moves on past it. Where
    /// the character joins a cluster that is there already, the cursor stays,
    /// clamped to the document.
    pub fn insert_char(&mut self, character: char)
        requires
            old(self).wf(),
        ensures
            final(self).wf(),
            final(self)@ == old(self)@.after_insert_char(character),
            is_valid(final(self)@.lines(), final(self)@.location),
            final(self)@.size.height > 0 && final(self)@.size.width > 0
                ==> final(self)@.cursor_visible(),
    {
        let old_len: usize = self.buffer.grapheme_count_at(self.text_location.line_idx);
        self.buffer.insert_char(character, self.text_location);
        let new_len: usize = self.buffer.grapheme_count_at(self.text_location.line_idx);
        if new_len > old_len {
            self.handle_move_command(Move::Right);
        } else {
            self.snap();
            self.scroll_text_location_into_view();
        }
        self.set_needs_redraw(true);
    }

    /// Carries out an edit at the cursor. The cursor always ends at a
    /// place of the document.
    pub fn handle_edit_command(&mut self, command: Edit)
        requires
            old(self).wf(),
        ensures
            final(self).wf(),
            final(self)@ == old(self)@.after_edit(command),
            is_valid(final(self)@.lines(), final(self)@.location),
    {
        match command {
            Edit::Insert(character) => self.insert_char(character),
            Edit::Delete => self.delete(),
            Edit::DeleteBackward => self.delete_backward(),
            Edit::InsertNewLine => self.insert_newline(),
        }
    }

    /// Takes a new screen size and scrolls so far that the cursor stays on
    /// the screen.
    pub fn resize(&mut self, to: Size)
        requires
            old(self).wf(),
        ensures
            final(self).wf(),
            final(self)@ == old(self)@.after_resize(to),
            to.height > 0 && to.width > 0 ==> final(self)@.cursor_visible(),
    {
        self.size = to;
        self.scroll_text_location_into_view();
        self.need_redraw = true;
    }

    /// Begins a search session.
    pub fn enter_search(&mut self)
        requires
            old(self).wf(),
        ensures
            final(self).wf(),
            final(self)@ == old(self)@.after_enter_search(),
    {
        self.search_info = Some(
            SearchInfo {
                prev_location: self.text_location,
                prev_scroll_offset: self.scroll_offset,
                query: None,
            },
        );
    }

    /// Ends the search session and leaves the cursor where it is.
    pub fn exit_search(&mut self)
        requires
            old(self).wf(),
        ensures
            final(self).wf(),
            final(self)@ == old(self)@.after_exit_search(),
    {
        self.search_info = None;
        self.set_needs_redraw(true);
    }

    /// Ends the search session and puts the cursor and the scroll offset
    /// back where the session found them.
    pub fn dismiss_search(&mut self)
        requires
            old(self).wf(),
        ensures
            final(self).wf(),
            final(self)@ == old(self)@.after_dismiss_search(),
    {
        let previous: Option<(Location, Position)> = match &self.search_info {
            Some(info) => Some((info.prev_location, info.prev_scroll_offset)),
            None => None,
        };
        if let Some((location, offset)) = previous {
            self.text_location = location;
            self.scroll_offset = offset;
            self.scroll_text_location_into_view();
        }
        self.exit_search();
    }

    /// Ends the search session: with `confirm` the cursor stays where it
    /// is, without it the cursor goes back where the session found it.
    pub fn exit(&mut self, confirm: bool)
        requires
            old(self).wf(),
        ensures
            final(self).wf(),
            final(self)@ == if confirm {
                old(self)@.after_exit_search()
            } else {
                old(self)@.after_dismiss_search()
            },
    {
        if confirm {
            self.exit_search();
        } else {
            self.dismiss_search();
        }
    }

    /// Makes `query` what the search session seeks.
    pub fn update_query(&mut self, query: &str)
        requires
            old(self).wf(),
        ensures
            final(self).wf(),
            final(self)@ == old(self)@.after_update_query(query@),
    {
        let previous: Option<(Location, Position)> = match &self.search_info {
            Some(info) => Some((info.prev_location, info.prev_scroll_offset)),
            None => None,
        };
        if let Some((location, offset)) = previous {
            self.search_info = Some(
                SearchInfo {
                    prev_location: location,
                    prev_scroll_offset: offset,
                    query: Some(Line::from(query)),
                },
            );
            self.need_redraw = true;
        }
    }

    /// What the search session seeks. Without an active session, and in a
    /// session without a query, the search state is malformed.
    pub fn get_search_query(&self) -> (query: Result<&Line, SearchError>)
        requires
            self.wf(),
        ensures
            match query {
                Ok(line) => line.wf() && self@.query() == Some(line@),
                Err(_) => self@.query() is None,
            },
    {
        match &self.search_info {
            Some(info) => match &info.query {
                Some(line) => Ok(line),
                None => Err(SearchError::MalformedSearchState),
            },
            None => Err(SearchError::MalformedSearchState),
        }
    }

    /// Seeks the query from `from` in `direction`. Where it is found the
    /// cursor goes there and the viewport puts it at the middle of the
    /// screen; where it is not, nothing changes.
    pub fn search_in_direction(&mut self, from: Location, direction: SearchDirection) -> (found:
        Option<Location>)
        requires
            old(self).wf(),
        ensures
            final(self).wf(),
            old(self)@.is_hit(from, direction, found),
            final(self)@ == old(self)@.after_hit(found),
    {
        let found: Option<Location> = match self.get_search_query() {
            Ok(query) => if query.is_empty() {
                None
            } else {
                match direction {
                    SearchDirection::Forward => self.buffer.search_forward(query, from),
                    SearchDirection::Backward => self.buffer.search_backward(query, from),
                }
            },
            Err(_) => None,
        };
        if let Some(at) = found {
            self.text_location = at;
            self.center_text_location();
        }
        found
    }

    /// Makes `query` what the session seeks, and seeks it forward from the
    /// cursor.
    pub fn search(&mut self, query: &str) -> (found: Option<Location>)
        requires
            old(self).wf(),
        ensures
            final(self).wf(),
            old(self)@.after_update_query(query@).is_hit(
                old(self)@.location,
                SearchDirection::Forward,
                found,
            ),
            final(self)@ == old(self)@.after_update_query(query@).after_hit(found),
    {
        self.update_query(query);
        self.search_in_direction(self.text_location, SearchDirection::Forward)
    }

    /// Seeks the next match: forward from one cluster after the cursor.
    pub fn search_next(&mut self) -> (found: Option<Location>)
        requires
            old(self).wf(),
        ensures
            final(self).wf(),
            old(self)@.is_hit(old(self)@.next_from(), SearchDirection::Forward, found),
            final(self)@ == old(self)@.after_hit(found),
    {
        let location = Location {
            line_idx: self.text_location.line_idx,
            grapheme_idx: saturating_add(self.text_location.grapheme_idx, 1),
        };
        self.search_in_direction(location, SearchDirection::Forward)
    }

    /// Seeks the match before: backward from the cursor.
    pub fn search_prev(&mut self) -> (found: Option<Location>)
        requires
            old(self).wf(),
        ensures
            final(self).wf(),
            old(self)@.is_hit(old(self)@.location, SearchDirection::Backward, found),
            final(self)@ == old(self)@.after_hit(found),
    {
        self.search_in_direction(self.text_location, SearchDirection::Backward)
    }

    /// Takes what reading the file `file_name` gave. Its contents become
    /// the document; a failure leaves everything as it is.
    pub fn load(&mut self, file_name: &str, contents: Result<&str, IoFailure>) -> (r: Result<
        (),
        IoFailure,
    >)
        requires
            old(self).wf(),
        ensures
            final(self).wf(),
            match contents {
                Ok(text) => r is Ok && final(self)@ == old(self)@.after_load(file_name@, text@),
                Err(failure) => r == Err::<(), IoFailure>(failure) && final(self)@ == old(self)@,
            },
    {
        match Buffer::load(file_name, contents) {
            Ok(buffer) => {
                self.buffer = buffer;
                self.set_needs_redraw(true);
                Ok(())
            },
            Err(failure) => Err(failure),
        }
    }

    /// The document as one text, as it is written to a file.
    pub fn contents(&self) -> (text: String)
        requires
            self.wf(),
        ensures
            text@ == crate::buffer::join_lines(self@.lines()),
    {
        self.buffer.contents()
    }

    /// Takes what writing the document to its file gave. After a
    /// successful write the document has no unsaved changes; a failure
    /// leaves everything as it is. A document that belongs to no file cannot
    /// have been written.
    pub fn save(&mut self, outcome: Result<(), IoFailure>) -> (r: Result<(), IoFailure>)
        requires
            old(self).wf(),
        ensures
            final(self).wf(),
            r == if old(self)@.buffer.path is None {
                Err::<(), IoFailure>(IoFailure::NotFound)
            } else {
                outcome
            },
            final(self)@ == if r is Ok {
                ViewModel { buffer: BufferModel { dirty: false, ..old(self)@.buffer }, ..old(self)@ }
            } else {
                old(self)@
            },
    {
        self.buffer.save(outcome)
    }

    /// Takes what writing the document to the file `file_name` gave. After
    /// a successful write the document belongs to that file and has no
    /// unsaved changes; a failure leaves everything as it is.
    pub fn save_as(&mut self, file_name: &str, outcome: Result<(), IoFailure>) -> (r: Result<
        (),
        IoFailure,
    >)
        requires
            old(self).wf(),
        ensures
            final(self).wf(),
            r == outcome,
            final(self)@ == if r is Ok {
                ViewModel {
                    buffer: BufferModel {
                        dirty: false,
                        path: Some(file_name@),
                        ..old(self)@.buffer
                    },
                    ..old(self)@
                }
            } else {
                old(self)@
            },
    {
        self.buffer.save_as(file_name, outcome)
    }

    /// What the status bar tells about the document.
    pub fn get_status(&self) -> (status: DocumentStatus)
        requires
            self.wf(),
        ensures
            status@ == self@.status(),
    {
        let file_name: String = match self.buffer.file_name() {
            Some(name) => name.to_owned(),
            None => "[No Name]".to_owned(),
        };
        DocumentStatus {
            total_lines: self.buffer.height(),
            current_line_idx: self.text_location.line_idx,
            file_name,
            is_modified: self.buffer.is_dirty(),
        }
    }

    /// Carries out a flat command.
    pub fn handle_command(&mut self, command: EditCommand)
        requires
            old(self).wf(),
        ensures
            final(self).wf(),
            final(self)@ == old(self)@.after_command(command),
    {
        match command {
            EditCommand::Resize(size) => self.resize(size),
            EditCommand::Move(direction) => self.move_text_location(&direction),
            EditCommand::Insert(character) => self.insert_char(character),
            EditCommand::Backspace => self.delete_backward(),
            EditCommand::Delete => self.delete(),
            EditCommand::Enter => self.insert_newline(),
            EditCommand::Quit => {},
            EditCommand::Save => {},
        }
    }

    /// The commands that draw `line_text` as the whole of row `at`.
    pub fn render_line(at: usize, line_text: &str) -> (commands: Vec<TerminalCommand>)
        ensures
            drawn(commands@) == row_image(at, line_text@),
    {
        Terminal::print_row(at, line_text)
    }

    /// The welcome message for a screen `width` columns wide, with the
    /// name and the version of the editor.
    pub fn build_welcome_message(width: usize, name: &str, version: &str) -> (message: String)
        ensures
            message@ == welcome_message(width, name@, version@),
    {
        if width == 0 {
            return String::new();
        }
        let mut welcome: String = name.to_owned();
        welcome.append(" Editor -- version ");
        welcome.append(version);
        let len: usize = crate::text::byte_len(welcome.as_str());
        let remaining_width: usize = width - 1;
        let mut message: String = String::new();
        message.push('~');
        if remaining_width < len {
            assert(message@ =~= seq!['~']);
            return message;
        }
        proof {
            crate::text::lemma_utf8_len_bounds(welcome@);
        }
        let padding: usize = remaining_width - welcome.as_str().unicode_len();
        let left: usize = padding / 2;
        let mut i: usize = 0;
        while i < left
            invariant
                i <= left,
                message@ == seq!['~'] + spaces(i as int),
            decreases left - i,
        {
            message.push(' ');
            i = i + 1;
            assert(message@ =~= seq!['~'] + spaces(i as int));
        }
        message.append(welcome.as_str());
        let right: usize = padding - left;
        let mut i: usize = 0;
        assert(message@ =~= seq!['~'] + spaces(left as int) + welcome@ + spaces(0));
        while i < right
            invariant
                i <= right,
                message@ == seq!['~'] + spaces(left as int) + welcome@ + spaces(i as int),
            decreases right - i,
        {
            message.push(' ');
            i = i + 1;
            assert(message@ =~= seq!['~'] + spaces(left as int) + welcome@ + spaces(i as int));
        }
        message
    }

    /// The commands that draw screen row `row` of the viewport.
    fn draw_row(&self, origin_row: usize, row: usize, name: &str, version: &str) -> (commands: Vec<
        TerminalCommand,
    >)
        requires
            self.wf(),
        ensures
            drawn(commands@) == row_of(self@, origin_row, row, name@, version@),
    {
        let width: usize = self.size.width;
        let line_idx: usize = saturating_add(
            saturating_sub(row, origin_row),
            self.scroll_offset.row,
        );
        if let Some(line) = self.buffer.line(line_idx) {
            let left: usize = self.scroll_offset.col;
            let right: usize = saturating_add(self.scroll_offset.col, width);
            let query: Option<&Line> = match self.get_search_query() {
                Ok(line) => Some(line),
                Err(_) => None,
            };
            let selected_match: Option<usize> = if self.text_location.line_idx == line_idx
                && query.is_some() {
                Some(self.text_location.grapheme_idx)
            } else {
                None
            };
            let visible: AnnotatedString = line.visible_substring(
                left..right,
                query,
                selected_match,
            );
            Terminal::print_annotated_row(row, &visible)
        } else if row == self.size.height / 3 + (if self.size.height % 3 == 0 {
            0
        } else {
            1
        }) && self.buffer.is_empty() {
            let message: String = Self::build_welcome_message(width, name, version);
            Self::render_line(row, message.as_str())
        } else {
            let tilde: &str = "~";
            proof {
                reveal_strlit("~");
                assert(tilde@ =~= seq!['~']);
            }
            Self::render_line(row, tilde)
        }
    }

    /// The commands that draw the viewport from screen row `origin_row`
    /// down, with the name and the version of the editor for the welcome
    /// message. Nothing is drawn unless a redraw is asked for, nor on a
    /// screen without cells; drawing withdraws the request.
    pub fn render(&mut self, origin_row: usize, name: &str, version: &str) -> (commands: Vec<
        TerminalCommand,
    >)
        requires
            old(self).wf(),
        ensures
            final(self).wf(),
            final(self)@ == if old(self)@.draws() {
                ViewModel { need_redraw: false, ..old(self)@ }
            } else {
                old(self)@
            },
            drawn(commands@) == if old(self)@.draws() {
                frame_of(old(self)@, origin_row, name@, version@)
            } else {
                Seq::empty()
            },
    {
        let mut commands: Vec<TerminalCommand> = Vec::new();
        if !self.need_redraw || self.size.height == 0 || self.size.width == 0 {
            assert(drawn(commands@) =~= Seq::<Drawn>::empty());
            return commands;
        }
        let end: usize = saturating_add(origin_row, self.size.height);
        let mut row: usize = origin_row;
        assert(drawn(commands@) =~= Seq::<Drawn>::empty());
        while row < end
            invariant
                self.wf(),
                self@ == old(self)@,
                origin_row <= row <= end,
                drawn(commands@) == rows_of(self@, origin_row, row as int, name@, version@),
            decreases end - row,
        {
            let mut drawn_row: Vec<TerminalCommand> = self.draw_row(origin_row, row, name, version);
            let ghost before = drawn(commands@);
            let ghost added = drawn(drawn_row@);
            commands.append(&mut drawn_row);
            assert(drawn(commands@) =~= before + added);
            row = row + 1;
        }
        self.set_needs_redraw(false);
        commands
    }
}

} // verus!
