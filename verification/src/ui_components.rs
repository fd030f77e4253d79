//! The bars below the text: the status bar, the message bar and the
//! command bar in which a prompt is answered.
use vstd::prelude::*;
use vstd::string::StringExecFns;
use crate::command::Edit;
use crate::document_status::{DocumentStatus, StatusModel};
use crate::line::{count_of, delete_of, visible_of, width_until_of, Line};
use crate::position::{minus, plus, saturating_add, saturating_sub, Size};
use crate::terminal::{
    drawn, inverted_row_image, row_image, Terminal, TerminalCommand,
};
use crate::text::{byte_len, utf8_len};

verus! {

/// The ten digits.
pub open spec fn digits() -> Seq<char> {
    seq!['0', '1', '2', '3', '4', '5', '6', '7', '8', '9']
}

/// `n` written in decimal.
pub open spec fn decimal_of(n: nat) -> Seq<char>
    decreases n,
{
    if n < 10 {
        seq![digits()[n as int]]
    } else {
        decimal_of(n / 10).push(digits()[(n % 10) as int])
    }
}

/// The digit that stands for `d`.
fn digit(d: usize) -> (c: char)
    requires
        d < 10,
    ensures
        c == digits()[d as int],
{
    let table: [char; 10] = ['0', '1', '2', '3', '4', '5', '6', '7', '8', '9'];
    table[d]
}

/// `n` written in decimal.
pub fn to_decimal(n: usize) -> (text: String)
    ensures
        text@ == decimal_of(n as nat),
    decreases n,
{
    if n < 10 {
        let mut text: String = String::new();
        text.push(digit(n));
        assert(text@ =~= seq![digits()[n as int]]);
        text
    } else {
        let mut text: String = to_decimal(n / 10);
        text.push(digit(n % 10));
        text
    }
}

/// `text` moved to the right end of `width` characters: as many spaces in
/// front of it as it takes to fill them. Text that is longer stays as it is.
pub open spec fn right_aligned(text: Seq<char>, width: usize) -> Seq<char> {
    Seq::new(minus(width, text.len() as usize) as nat, |i: int| ' ') + text
}

/// `text` if it takes no more than `width` bytes, else nothing.
pub open spec fn if_fits(text: Seq<char>, width: usize) -> Seq<char> {
    if utf8_len(text) <= width {
        text
    } else {
        Seq::empty()
    }
}

/// What the status bar says on the left: the name of the file, the number
/// of lines, and whether the document has unsaved changes.
pub open spec fn status_beginning(status: StatusModel) -> Seq<char> {
    status.file_name + " - "@ + decimal_of(status.total_lines as nat) + " lines "@ + if status.is_modified {
        "(modified)"@
    } else {
        Seq::empty()
    }
}

/// What the status bar says on the right: the number of the line of the
/// cursor, counted from one, and the number of lines.
pub open spec fn position_indicator(status: StatusModel) -> Seq<char> {
    decimal_of(plus(status.current_line_idx, 1) as nat) + "/"@ + decimal_of(
        status.total_lines as nat,
    )
}

/// What the status bar says on a screen `width` columns wide: the left
/// part, and the right part moved to the right edge. Nothing where this
/// does not fit.
pub open spec fn status_line(status: StatusModel, width: usize) -> Seq<char> {
    let beginning = status_beginning(status);
    let remainder = minus(width, utf8_len(beginning) as usize);
    if_fits(beginning + right_aligned(position_indicator(status), remainder), width)
}

/// The status bar.
pub struct StatusBar {
    current_status: DocumentStatus,
    size: Size,
}

impl StatusBar {
    /// What the bar tells.
    pub closed spec fn status(&self) -> StatusModel {
        self.current_status@
    }

    /// How wide the bar is.
    pub closed spec fn width(&self) -> usize {
        self.size.width
    }

    /// A status bar for a document without a name, on a screen without cells.
    pub fn new() -> (bar: StatusBar)
        ensures
            bar.width() == 0,
            bar.status() == (StatusModel {
                total_lines: 0,
                current_line_idx: 0,
                is_modified: false,
                file_name: Seq::empty(),
            }),
    {
        StatusBar {
            current_status: DocumentStatus {
                total_lines: 0,
                current_line_idx: 0,
                is_modified: false,
                file_name: String::new(),
            },
            size: Size { height: 0, width: 0 },
        }
    }

    /// Takes a new status.
    pub fn update_status(&mut self, new_status: DocumentStatus)
        ensures
            final(self).status() == new_status@,
            final(self).width() == old(self).width(),
    {
        self.current_status = new_status;
    }

    /// Takes a new size.
    pub fn resize(&mut self, size: Size)
        ensures
            final(self).status() == old(self).status(),
            final(self).width() == size.width,
    {
        self.size = size;
    }

    /// `text` with spaces in front so that it ends at `width` characters.
    pub fn align_right(text: &str, width: usize) -> (aligned: String)
        ensures
            aligned@ == right_aligned(text@, width),
    {
        let length: usize = vstd::string::StrSliceExecFns::unicode_len(text);
        let padding: usize = saturating_sub(width, length);
        let mut aligned: String = String::new();
        let mut i: usize = 0;
        while i < padding
            invariant
                i <= padding,
                aligned@ == Seq::new(i as nat, |k: int| ' '),
            decreases padding - i,
        {
            aligned.push(' ');
            i = i + 1;
            assert(aligned@ =~= Seq::new(i as nat, |k: int| ' '));
        }
        aligned.append(text);
        aligned
    }

    /// What the bar says.
    pub fn text(&self) -> (line: String)
        ensures
            line@ == status_line(self.status(), self.width()),
    {
        let status: &DocumentStatus = &self.current_status;
        let mut beginning: String = status.file_name.clone();
        beginning.append(" - ");
        beginning.append(to_decimal(status.total_lines).as_str());
        beginning.append(" lines ");
        if status.is_modified {
            beginning.append("(modified)");
        }
        assert(beginning@ =~= status_beginning(status@));
        let mut position: String = to_decimal(saturating_add(status.current_line_idx, 1));
        position.append("/");
        position.append(to_decimal(status.total_lines).as_str());
        let remainder: usize = saturating_sub(self.size.width, byte_len(beginning.as_str()));
        let mut line: String = beginning;
        line.append(Self::align_right(position.as_str(), remainder).as_str());
        if byte_len(line.as_str()) <= self.size.width {
            line
        } else {
            String::new()
        }
    }

    /// The commands that draw the bar in screen row `origin_row`, in
    /// reversed colours.
    pub fn render(&self, origin_row: usize) -> (commands: Vec<TerminalCommand>)
        ensures
            drawn(commands@) == inverted_row_image(
                origin_row,
                status_line(self.status(), self.width()),
                self.width(),
            ),
    {
        let line: String = self.text();
        Terminal::print_inverted_row(origin_row, line.as_str(), self.size.width)
    }
}

/// The message bar.
pub struct MessageBar {
    current_message: String,
}

impl MessageBar {
    /// What the bar says.
    pub closed spec fn message(&self) -> Seq<char> {
        self.current_message@
    }

    /// A message bar that says nothing.
    pub fn new() -> (bar: MessageBar)
        ensures
            bar.message() == Seq::<char>::empty(),
    {
        MessageBar { current_message: String::new() }
    }

    /// Takes a new message.
    pub fn update_message(&mut self, new_message: &str)
        ensures
            final(self).message() == new_message@,
    {
        self.current_message = new_message.to_owned();
    }

    /// What the bar says.
    pub fn text(&self) -> (text: &str)
        ensures
            text@ == self.message(),
    {
        self.current_message.as_str()
    }

    /// The commands that draw the bar in screen row `origin_row`.
    pub fn render(&self, origin_row: usize) -> (commands: Vec<TerminalCommand>)
        ensures
            drawn(commands@) == row_image(origin_row, self.message()),
    {
        Terminal::print_row(origin_row, self.current_message.as_str())
    }
}

/// What a command bar holds, as plain values.
pub struct CommandBarModel {
    pub prompt: Seq<char>,
    pub value: Seq<char>,
    pub width: usize,
}

impl CommandBarModel {
    /// The bar after an edit of the answer: a character goes to its end,
    /// a deletion backward takes its last cluster, and nothing else changes it.
    pub open spec fn after_edit(self, command: Edit) -> CommandBarModel {
        match command {
            Edit::Insert(c) => CommandBarModel { value: self.value.push(c), ..self },
            Edit::DeleteBackward => CommandBarModel {
                value: delete_of(self.value, count_of(self.value) - 1),
                ..self
            },
            Edit::Delete => self,
            Edit::InsertNewLine => self,
        }
    }

    /// The column of the caret: after the prompt and the answer, and no
    /// further right than the bar is wide.
    pub open spec fn caret_col(self) -> usize {
        let end = plus(utf8_len(self.prompt) as usize, count_of(self.value) as usize);
        if end < self.width {
            end
        } else {
            self.width
        }
    }

    /// What the bar says: the prompt, and after it as much of the end of
    /// the answer as the rest of the bar takes. Nothing where this does not
    /// fit.
    pub open spec fn line(self) -> Seq<char> {
        let area = minus(self.width, utf8_len(self.prompt) as usize);
        let end = width_until_of(self.value, count_of(self.value) as int) as usize;
        let start = minus(end, area);
        if_fits(
            self.prompt + visible_of(self.value, start as int, end as int, None, None).text(),
            self.width,
        )
    }
}

/// The bar in which a prompt is answered.
pub struct CommandBar {
    prompt: String,
    value: Line,
    size: Size,
}

impl View for CommandBar {
    type V = CommandBarModel;

    closed spec fn view(&self) -> CommandBarModel {
        CommandBarModel { prompt: self.prompt@, value: self.value@, width: self.size.width }
    }
}

impl CommandBar {
    /// The answer is well-formed.
    pub closed spec fn wf(&self) -> bool {
        self.value.wf()
    }

    /// A bar without prompt and without answer, on a screen without cells.
    pub fn new() -> (bar: CommandBar)
        ensures
            bar.wf(),
            bar@ == (CommandBarModel { prompt: Seq::empty(), value: Seq::empty(), width: 0 }),
    {
        let empty: String = String::new();
        CommandBar {
            prompt: String::new(),
            value: Line::from(empty.as_str()),
            size: Size { height: 0, width: 0 },
        }
    }

    /// Takes a new size.
    pub fn resize(&mut self, size: Size)
        ensures
            final(self)@ == (CommandBarModel { width: size.width, ..old(self)@ }),
            old(self).wf() ==> final(self).wf(),
    {
        self.size = size;
    }

    /// Edits the answer.
    pub fn handle_edit_command(&mut self, command: Edit)
        requires
            old(self).wf(),
        ensures
            final(self).wf(),
            final(self)@ == old(self)@.after_edit(command),
    {
        match command {
            Edit::Insert(character) => self.value.append_char(character),
            Edit::Delete => {},
            Edit::InsertNewLine => {},
            Edit::DeleteBackward => self.value.delete_last(),
        }
    }

    /// The column of the caret.
    pub fn caret_position_col(&self) -> (col: usize)
        requires
            self.wf(),
        ensures
            col == self@.caret_col(),
    {
        let max_width: usize = saturating_add(
            byte_len(self.prompt.as_str()),
            self.value.grapheme_count(),
        );
        if max_width < self.size.width {
            max_width
        } else {
            self.size.width
        }
    }

    /// The answer.
    pub fn value(&self) -> (value: String)
        ensures
            value@ == self@.value,
    {
        self.value.raw_text().to_owned()
    }

    /// Sets the prompt.
    pub fn set_prompt(&mut self, prompt: &str)
        ensures
            final(self)@ == (CommandBarModel { prompt: prompt@, ..old(self)@ }),
            old(self).wf() ==> final(self).wf(),
    {
        self.prompt = prompt.to_owned();
    }

    /// Empties the answer.
    pub fn clear_value(&mut self)
        ensures
            final(self).wf(),
            final(self)@ == (CommandBarModel { value: Seq::empty(), ..old(self)@ }),
    {
        let empty: String = String::new();
        self.value = Line::from(empty.as_str());
    }

    /// What the bar says.
    pub fn text(&self) -> (line: String)
        requires
            self.wf(),
        ensures
            line@ == self@.line(),
    {
        let area_for_value: usize = saturating_sub(
            self.size.width,
            byte_len(self.prompt.as_str()),
        );
        let value_end: usize = self.value.width();
        let value_start: usize = saturating_sub(value_end, area_for_value);
        let mut message: String = self.prompt.clone();
        message.append(self.value.visible_text(value_start..value_end).as_str());
        if byte_len(message.as_str()) <= self.size.width {
            message
        } else {
            String::new()
        }
    }

    /// The commands that draw the bar in screen row `origin_row`.
    pub fn render(&self, origin_row: usize) -> (commands: Vec<TerminalCommand>)
        requires
            self.wf(),
        ensures
            drawn(commands@) == row_image(origin_row, self@.line()),
    {
        let line: String = self.text();
        Terminal::print_row(origin_row, line.as_str())
    }
}

} // verus!
