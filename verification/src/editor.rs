//! The editor as a state machine: what each command does to the viewport,
//! the bars and the prompt, and what the screen shows.
//!
//! Reading events, writing files and talking to the terminal happen
//! elsewhere. The editor is handed each command, says what is to be written
//! or drawn, and is told how a write ended.
use vstd::prelude::*;
use vstd::view::View as _;
use vstd::string::StringExecFns;
use crate::buffer::{join_lines, BufferModel, IoFailure};
use crate::command::{
    command_of, is_processed, should_process, Command, Edit, Event, Move, System,
};
use crate::document_status::{DocumentStatus, StatusModel};
use crate::position::{minus, saturating_sub, Location, Position, Size};
use crate::terminal::{
    drawn, inverted_row_image, row_image, Drawn, TerminalCommand,
};
use crate::ui_components::{
    decimal_of, status_line, to_decimal, CommandBar, CommandBarModel, MessageBar, StatusBar,
};
use crate::view::{frame_of, SearchDirection, View, ViewModel};

verus! {

/// How often quitting has to be asked for to leave unsaved changes behind.
pub const QUIT_TIMES: u8 = 3;

/// What the command bar asks for.
#[derive(Copy, Clone, Debug, PartialEq, Eq, Structural)]
pub enum PromptType {
    Search,
    Save,
    NoPrompt,
}

impl Default for PromptType {
    fn default() -> (prompt: PromptType)
        ensures
            prompt == PromptType::NoPrompt,
    {
        PromptType::NoPrompt
    }
}

impl PromptType {
    /// Whether nothing is asked for.
    pub fn is_none(&self) -> (r: bool)
        ensures
            r == (*self == PromptType::NoPrompt),
    {
        match self {
            PromptType::NoPrompt => true,
            _ => false,
        }
    }
}

/// What the editor asks to be done outside after a command.
#[derive(Debug)]
pub enum Action {
    /// Nothing.
    Nothing,
    /// Write `contents` to the file `file_name`, which the document
    /// belongs to, and report with `Editor::save(None, ..)`.
    Save { file_name: String, contents: String },
    /// Write `contents` to the file `file_name`, which the document is to
    /// belong to, and report with `Editor::save(Some(file_name), ..)`.
    SaveAs { file_name: String, contents: String },
}

/// What an action holds, as plain values.
pub enum ActionModel {
    Nothing,
    Save { file_name: Seq<char>, contents: Seq<char> },
    SaveAs { file_name: Seq<char>, contents: Seq<char> },
}

impl vstd::view::View for Action {
    type V = ActionModel;

    open spec fn view(&self) -> ActionModel {
        match self {
            Action::Nothing => ActionModel::Nothing,
            Action::Save { file_name, contents } => ActionModel::Save {
                file_name: file_name@,
                contents: contents@,
            },
            Action::SaveAs { file_name, contents } => ActionModel::SaveAs {
                file_name: file_name@,
                contents: contents@,
            },
        }
    }
}

/// What an editor holds, as plain values.
pub struct EditorModel {
    pub should_quit: bool,
    pub view: ViewModel,
    pub status: StatusModel,
    pub title: Seq<char>,
    pub message: Seq<char>,
    pub command_bar: CommandBarModel,
    pub prompt_type: PromptType,
    pub terminal_size: Size,
    pub quit_times: u8,
    pub name: Seq<char>,
    pub version: Seq<char>,
}

/// The message that opens the editor.
pub open spec fn help_message() -> Seq<char> {
    "HELP: Ctrl-F = find | Ctrl-S = save | Ctrl-Q = quit"@
}

/// The warning after `quit_times` requests to quit that were not followed.
pub open spec fn quit_warning(quit_times: u8) -> Seq<char> {
    "WARNING! File has unsaved changes. Press Ctrl-Q "@ + decimal_of(
        (QUIT_TIMES - quit_times - 1) as nat,
    ) + " more times to quit."@
}

/// The message after a file could not be opened.
pub open spec fn open_failure(file_name: Seq<char>) -> Seq<char> {
    "ERR: Could not open file: "@ + file_name
}

/// The prompt of the command bar for each kind of prompt.
pub open spec fn prompt_text(prompt_type: PromptType) -> Seq<char> {
    match prompt_type {
        PromptType::NoPrompt => Seq::empty(),
        PromptType::Save => "Save as: "@,
        PromptType::Search => "Search (ESC to cancel, Arrows to navigate): "@,
    }
}

/// The title of the terminal window.
pub open spec fn title_of(file_name: Seq<char>, name: Seq<char>) -> Seq<char> {
    file_name + " - "@ + name
}

/// The size of the viewport on a terminal of size `size`: two rows less,
/// for the bars.
pub open spec fn view_size(size: Size) -> Size {
    Size { height: minus(size.height, 2), width: size.width }
}

impl EditorModel {
    /// Whether the command bar asks for something.
    pub open spec fn in_prompt(self) -> bool {
        self.prompt_type != PromptType::NoPrompt
    }

    /// The editor on a terminal of another size.
    pub open spec fn after_resize(self, size: Size) -> EditorModel {
        EditorModel {
            terminal_size: size,
            view: self.view.after_resize(view_size(size)),
            command_bar: CommandBarModel { width: size.width, ..self.command_bar },
            ..self
        }
    }

    /// The editor after a request to quit: it quits where the document has
    /// no unsaved changes, or at the last of the requests that it takes;
    /// else it warns and counts the request.
    pub open spec fn after_quit(self) -> EditorModel {
        if !self.view.buffer.dirty || self.quit_times + 1 == QUIT_TIMES {
            EditorModel { should_quit: true, ..self }
        } else {
            EditorModel {
                message: quit_warning(self.quit_times),
                quit_times: (self.quit_times + 1) as u8,
                ..self
            }
        }
    }

    /// The editor with the count of requests to quit back at zero, and
    /// the warning gone.
    pub open spec fn after_reset_quit_times(self) -> EditorModel {
        if self.quit_times > 0 {
            EditorModel { quit_times: 0, message: Seq::empty(), ..self }
        } else {
            self
        }
    }

    /// The editor with another prompt: the command bar asks for it with
    /// an empty answer, and a search prompt begins a search session.
    pub open spec fn after_set_prompt(self, prompt_type: PromptType) -> EditorModel {
        EditorModel {
            prompt_type,
            view: if prompt_type == PromptType::Search {
                self.view.after_enter_search()
            } else {
                self.view
            },
            command_bar: CommandBarModel {
                prompt: if prompt_type == PromptType::NoPrompt {
                    self.command_bar.prompt
                } else {
                    prompt_text(prompt_type)
                },
                value: Seq::empty(),
                ..self.command_bar
            },
            ..self
        }
    }

    /// The editor after it was told how a write ended.
    pub open spec fn after_save(self, file_name: Option<Seq<char>>, outcome: Result<(), IoFailure>) -> EditorModel {
        let saved = match file_name {
            Some(name) => outcome is Ok,
            None => outcome is Ok && self.view.buffer.path is Some,
        };
        EditorModel {
            view: if saved {
                ViewModel {
                    buffer: BufferModel {
                        dirty: false,
                        path: match file_name {
                            Some(name) => Some(name),
                            None => self.view.buffer.path,
                        },
                        ..self.view.buffer
                    },
                    ..self.view
                }
            } else {
                self.view
            },
            message: if saved {
                "File saved successfully."@
            } else {
                "Error writing file!"@
            },
            ..self
        }
    }

    /// Whether a command takes the editor to `next` and asks for `action`
    /// while the command bar asks for a file name: a dismissal ends the
    /// prompt, a new line ends it and asks for the document to be written
    /// under the name given, any other edit changes the name, and nothing
    /// else has any effect.
    pub open spec fn during_save(self, command: Command, next: EditorModel, action: ActionModel) -> bool {
        match command {
            Command::System(System::Dismiss) => next == (EditorModel {
                message: "Save aborted."@,
                ..self.after_set_prompt(PromptType::NoPrompt)
            }) && action == ActionModel::Nothing,
            Command::Edit(Edit::InsertNewLine) => next == self.after_set_prompt(
                PromptType::NoPrompt,
            ) && action == (ActionModel::SaveAs {
                file_name: self.command_bar.value,
                contents: join_lines(self.view.lines()),
            }),
            Command::Edit(edit) => next == (EditorModel {
                command_bar: self.command_bar.after_edit(edit),
                ..self
            }) && action == ActionModel::Nothing,
            _ => next == self && action == ActionModel::Nothing,
        }
    }

    /// Whether a command takes the editor to `next` while the command bar
    /// asks for what to search: edits change the query and search it anew
    /// from the cursor, movements down or right go to the next match and
    /// movements up or left to the one before, a new line ends the search
    /// and keeps the cursor where it is, a dismissal ends it and takes the
    /// cursor back where the search began, and nothing else has any effect.
    pub open spec fn during_search(self, command: Command, next: EditorModel) -> bool {
        match command {
            Command::System(System::Dismiss) => next == (EditorModel {
                view: self.view.after_dismiss_search(),
                ..self.after_set_prompt(PromptType::NoPrompt)
            }),
            Command::Edit(Edit::InsertNewLine) => next == (EditorModel {
                view: self.view.after_exit_search(),
                ..self.after_set_prompt(PromptType::NoPrompt)
            }),
            Command::Edit(edit) => {
                let bar = self.command_bar.after_edit(edit);
                let sought = self.view.after_update_query(bar.value);
                exists|found: Option<Location>|
                    sought.is_hit(sought.location, SearchDirection::Forward, found) && next == (
                    EditorModel { command_bar: bar, view: sought.after_hit(found), ..self })
            },
            Command::Move(Move::Down) | Command::Move(Move::Right) => exists|
                found: Option<Location>,
            |
                self.view.is_hit(self.view.next_from(), SearchDirection::Forward, found) && next
                    == (EditorModel { view: self.view.after_hit(found), ..self }),
            Command::Move(Move::Up) | Command::Move(Move::Left) => exists|found: Option<Location>|
                self.view.is_hit(self.view.location, SearchDirection::Backward, found) && next == (
                EditorModel { view: self.view.after_hit(found), ..self }),
            _ => next == self,
        }
    }

    /// Whether a command takes the editor to `next` and asks for `action`
    /// while the command bar asks for nothing: a request to quit is
    /// counted; anything else forgets earlier requests to quit, and edits
    /// and movements go to the text, a request to search opens the search
    /// prompt, and a request to save asks for the document to be written, or
    /// for a file name where it has none.
    pub open spec fn without_prompt(
        self,
        command: Command,
        next: EditorModel,
        action: ActionModel,
    ) -> bool {
        let calm = self.after_reset_quit_times();
        match command {
            Command::System(System::Quit) => next == self.after_quit() && action
                == ActionModel::Nothing,
            Command::System(System::Search) => next == calm.after_set_prompt(PromptType::Search)
                && action == ActionModel::Nothing,
            Command::System(System::Save) => match self.view.buffer.path {
                Some(path) => next == calm && action == (ActionModel::Save {
                    file_name: path,
                    contents: join_lines(self.view.lines()),
                }),
                None => next == calm.after_set_prompt(PromptType::Save) && action
                    == ActionModel::Nothing,
            },
            Command::System(_) => next == calm && action == ActionModel::Nothing,
            Command::Edit(edit) => next == (EditorModel {
                view: self.view.after_edit(edit),
                ..calm
            }) && action == ActionModel::Nothing,
            Command::Move(movement) => next == (EditorModel {
                view: self.view.after_move(movement),
                ..calm
            }) && action == ActionModel::Nothing,
        }
    }

    /// Whether a command takes the editor to `next` and asks for `action`.
    /// A resize is taken at once; any other command goes to whatever the
    /// command bar asks for, or to the text where it asks for nothing.
    pub open spec fn step(self, command: Command, next: EditorModel, action: ActionModel) -> bool {
        match command {
            Command::System(System::Resize(size)) => next == self.after_resize(size) && action
                == ActionModel::Nothing,
            _ => match self.prompt_type {
                PromptType::Search => self.during_search(command, next) && action
                    == ActionModel::Nothing,
                PromptType::Save => self.during_save(command, next, action),
                PromptType::NoPrompt => self.without_prompt(command, next, action),
            },
        }
    }

    /// What the status bar and the window title are brought to.
    pub open spec fn after_refresh_status(self) -> EditorModel {
        EditorModel { status: self.view.status(), ..self }
    }

    /// What the screen shows: the bottom bar, the status bar above it where
    /// the terminal has a row for it, the text where it has rows for it,
    /// and the caret, hidden while all this is drawn.
    pub open spec fn screen(self) -> Seq<Drawn> {
        let size = self.terminal_size;
        let bottom_row = minus(size.height, 1);
        if size.height == 0 || size.width == 0 {
            Seq::empty()
        } else {
            seq![Drawn::HideCaret] + row_image(
                bottom_row,
                if self.in_prompt() {
                    self.command_bar.line()
                } else {
                    self.message
                },
            ) + (if size.height > 1 {
                inverted_row_image(
                    minus(size.height, 2),
                    status_line(self.status, size.width),
                    size.width,
                )
            } else {
                Seq::empty()
            }) + (if size.height > 2 && self.view.draws() {
                frame_of(self.view, 0, self.name, self.version)
            } else {
                Seq::empty()
            }) + seq![
                Drawn::MoveCaretTo(
                    if self.in_prompt() {
                        Position { row: bottom_row, col: self.command_bar.caret_col() }
                    } else {
                        self.view.caret()
                    },
                ),
                Drawn::ShowCaret,
                Drawn::Execute,
            ]
        }
    }

    /// The editor after the screen was drawn: the viewport has withdrawn
    /// its request for a redraw where it was drawn.
    pub open spec fn after_refresh_screen(self) -> EditorModel {
        let size = self.terminal_size;
        if size.height > 2 && size.width > 0 && self.view.draws() {
            EditorModel { view: ViewModel { need_redraw: false, ..self.view }, ..self }
        } else {
            self
        }
    }
}

/// The editor.
pub struct Editor {
    should_quit: bool,
    view: View,
    status_bar: StatusBar,
    title: String,
    message_bar: MessageBar,
    command_bar: CommandBar,
    prompt_type: PromptType,
    terminal_size: Size,
    quit_times: u8,
    name: String,
    version: String,
}

impl vstd::view::View for Editor {
    type V = EditorModel;

    closed spec fn view(&self) -> EditorModel {
        EditorModel {
            should_quit: self.should_quit,
            view: self.view@,
            status: self.status_bar.status(),
            title: self.title@,
            message: self.message_bar.message(),
            command_bar: self.command_bar@,
            prompt_type: self.prompt_type,
            terminal_size: self.terminal_size,
            quit_times: self.quit_times,
            name: self.name@,
            version: self.version@,
        }
    }
}

impl Editor {
    /// The viewport and the command bar are well-formed, the bars are as
    /// wide as the terminal, and the count of requests to quit is below
    /// the number that it takes.
    pub closed spec fn wf(&self) -> bool {
        &&& self.view.wf()
        &&& self.command_bar.wf()
        &&& self.quit_times < QUIT_TIMES
        &&& self.status_bar.width() == self.terminal_size.width
        &&& self.command_bar@.width == self.terminal_size.width
    }

    /// An editor with the given name and version on a terminal of size
    /// `size`, with an empty document and the help message.
    pub fn new(name: &str, version: &str, size: Size) -> (editor: Editor)
        ensures
            editor.wf(),
            !editor@.should_quit,
            editor@.terminal_size == size,
            editor@.view == View::new_model().after_resize(view_size(size)),
            editor@.message == help_message(),
            editor@.prompt_type == PromptType::NoPrompt,
            editor@.quit_times == 0,
            editor@.name == name@,
            editor@.version == version@,
            editor@.status == editor@.view.status(),
            editor@.title == Seq::<char>::empty(),
    {
        let mut editor = Editor {
            should_quit: false,
            view: View::new(),
            status_bar: StatusBar::new(),
            title: String::new(),
            message_bar: MessageBar::new(),
            command_bar: CommandBar::new(),
            prompt_type: PromptType::NoPrompt,
            terminal_size: Size { height: 0, width: 0 },
            quit_times: 0,
            name: name.to_owned(),
            version: version.to_owned(),
        };
        editor.handle_resize_command(size);
        editor.update_message("HELP: Ctrl-F = find | Ctrl-S = save | Ctrl-Q = quit");
        let status: DocumentStatus = editor.view.get_status();
        editor.status_bar.update_status(status);
        editor
    }

    /// Takes what reading the file `file_name` gave: its contents become
    /// the document; a failure is told in the message bar.
    pub fn load(&mut self, file_name: &str, contents: Result<&str, IoFailure>)
        requires
            old(self).wf(),
        ensures
            final(self).wf(),
            final(self)@ == match contents {
                Ok(text) => EditorModel {
                    view: old(self)@.view.after_load(file_name@, text@),
                    ..old(self)@
                },
                Err(_) => EditorModel { message: open_failure(file_name@), ..old(self)@ },
            },
    {
        if self.view.load(file_name, contents).is_err() {
            let mut message: String = "ERR: Could not open file: ".to_owned();
            message.append(file_name);
            self.update_message(message.as_str());
        }
    }

    /// Whether the editor is to end.
    pub fn should_quit(&self) -> (r: bool)
        ensures
            r == self@.should_quit,
    {
        self.should_quit
    }

    /// The viewport.
    pub fn viewport(&self) -> (view: &View)
        ensures
            view@ == self@.view,
            self.wf() ==> view.wf(),
    {
        &self.view
    }

    /// What the message bar says.
    pub fn message(&self) -> (message: String)
        ensures
            message@ == self@.message,
    {
        self.message_bar.text().to_owned()
    }

    /// Whether the command bar asks for something.
    pub fn in_prompt(&self) -> (r: bool)
        ensures
            r == self@.in_prompt(),
    {
        !self.prompt_type.is_none()
    }

    /// What the command bar asks for.
    pub fn prompt_type(&self) -> (prompt: PromptType)
        ensures
            prompt == self@.prompt_type,
    {
        self.prompt_type
    }

    /// Puts `new_message` into the message bar.
    pub fn update_message(&mut self, new_message: &str)
        ensures
            final(self)@ == (EditorModel { message: new_message@, ..old(self)@ }),
            old(self).wf() ==> final(self).wf(),
    {
        self.message_bar.update_message(new_message);
    }

    /// Takes a new terminal size. The text gets all rows but two.
    pub fn handle_resize_command(&mut self, size: Size)
        requires
            old(self).wf(),
        ensures
            final(self).wf(),
            final(self)@ == old(self)@.after_resize(size),
    {
        self.terminal_size = size;
        self.view.resize(Size { height: saturating_sub(size.height, 2), width: size.width });
        let bar_size = Size { height: 1, width: size.width };
        self.status_bar.resize(bar_size);
        self.command_bar.resize(bar_size);
    }

    /// Takes a new terminal size.
    pub fn resize(&mut self, size: Size)
        requires
            old(self).wf(),
        ensures
            final(self).wf(),
            final(self)@ == old(self)@.after_resize(size),
    {
        self.handle_resize_command(size);
    }

    /// Takes a request to quit.
    pub fn handle_quit_command(&mut self)
        requires
            old(self).wf(),
        ensures
            final(self).wf(),
            final(self)@ == old(self)@.after_quit(),
    {
        let modified: bool = self.view.buffer().is_dirty();
        if !modified || self.quit_times + 1 == QUIT_TIMES {
            self.should_quit = true;
        } else {
            let left: u8 = QUIT_TIMES - self.quit_times - 1;
            let mut message: String = "WARNING! File has unsaved changes. Press Ctrl-Q ".to_owned();
            message.append(to_decimal(left as usize).as_str());
            message.append(" more times to quit.");
            self.update_message(message.as_str());
            self.quit_times = self.quit_times + 1;
        }
    }

    /// Forgets earlier requests to quit.
    pub fn reset_quit_times(&mut self)
        requires
            old(self).wf(),
        ensures
            final(self).wf(),
            final(self)@ == old(self)@.after_reset_quit_times(),
    {
        if self.quit_times > 0 {
            self.quit_times = 0;
            let empty: String = String::new();
            self.update_message(empty.as_str());
        }
    }

    /// Makes the command bar ask for something else.
    pub fn set_prompt(&mut self, prompt_type: PromptType)
        requires
            old(self).wf(),
        ensures
            final(self).wf(),
            final(self)@ == old(self)@.after_set_prompt(prompt_type),
    {
        match prompt_type {
            PromptType::NoPrompt => {},
            PromptType::Save => self.command_bar.set_prompt("Save as: "),
            PromptType::Search => {
                self.view.enter_search();
                self.command_bar.set_prompt("Search (ESC to cancel, Arrows to navigate): ");
            },
        }
        self.command_bar.clear_value();
        self.prompt_type = prompt_type;
    }

    /// Takes a request to save: a document that belongs to a file is to be
    /// written to it; for any other the command bar asks for a name.
    pub fn handle_save_command(&mut self) -> (action: Action)
        requires
            old(self).wf(),
        ensures
            final(self).wf(),
            match old(self)@.view.buffer.path {
                Some(path) => final(self)@ == old(self)@ && action@ == (ActionModel::Save {
                    file_name: path,
                    contents: join_lines(old(self)@.view.lines()),
                }),
                None => final(self)@ == old(self)@.after_set_prompt(PromptType::Save) && action@
                    == ActionModel::Nothing,
            },
    {
        let loaded: Option<String> = match self.view.buffer().file_name() {
            Some(name) => Some(name.to_owned()),
            None => None,
        };
        match loaded {
            Some(file_name) => Action::Save { file_name, contents: self.view.contents() },
            None => {
                self.set_prompt(PromptType::Save);
                Action::Nothing
            },
        }
    }

    /// Takes how a write ended: of the file that the document belongs to,
    /// or of the file `file_name` that it is to belong to. The message bar
    /// tells how it went.
    pub fn save(&mut self, file_name: Option<&str>, outcome: Result<(), IoFailure>)
        requires
            old(self).wf(),
        ensures
            final(self).wf(),
            final(self)@ == old(self)@.after_save(
                match file_name {
                    Some(name) => Some(name@),
                    None => None,
                },
                outcome,
            ),
    {
        let result: Result<(), IoFailure> = match file_name {
            Some(name) => self.view.save_as(name, outcome),
            None => self.view.save(outcome),
        };
        if result.is_ok() {
            self.update_message("File saved successfully.");
        } else {
            self.update_message("Error writing file!");
        }
    }

    /// Takes a command while the command bar asks for a file name.
    pub fn process_command_during_save(&mut self, command: Command) -> (action: Action)
        requires
            old(self).wf(),
        ensures
            final(self).wf(),
            old(self)@.during_save(command, final(self)@, action@),
    {
        match command {
            Command::System(System::Dismiss) => {
                self.set_prompt(PromptType::NoPrompt);
                self.update_message("Save aborted.");
                Action::Nothing
            },
            Command::Edit(Edit::InsertNewLine) => {
                let file_name: String = self.command_bar.value();
                let contents: String = self.view.contents();
                self.set_prompt(PromptType::NoPrompt);
                Action::SaveAs { file_name, contents }
            },
            Command::Edit(edit_command) => {
                self.command_bar.handle_edit_command(edit_command);
                Action::Nothing
            },
            _ => Action::Nothing,
        }
    }

    /// Takes a command while the command bar asks for what to search:
    /// edits change the query and search it anew, movements go to the next
    /// match or the one before, a new line keeps the cursor where the search
    /// took it, and a dismissal takes it back where the search began.
    pub fn process_command_during_search(&mut self, command: Command)
        requires
            old(self).wf(),
        ensures
            final(self).wf(),
            old(self)@.during_search(command, final(self)@),
    {
        match command {
            Command::System(System::Dismiss) => {
                self.set_prompt(PromptType::NoPrompt);
                self.view.dismiss_search();
            },
            Command::Edit(Edit::InsertNewLine) => {
                self.set_prompt(PromptType::NoPrompt);
                self.view.exit_search();
            },
            Command::Edit(edit_command) => {
                self.command_bar.handle_edit_command(edit_command);
                let query: String = self.command_bar.value();
                let found: Option<Location> = self.view.search(query.as_str());
                proof {
                    let bar = old(self)@.command_bar.after_edit(edit_command);
                    let sought = old(self)@.view.after_update_query(bar.value);
                    assert(sought.is_hit(sought.location, SearchDirection::Forward, found)
                        && self@ == (EditorModel {
                        command_bar: bar,
                        view: sought.after_hit(found),
                        ..old(self)@
                    }));
                }
            },
            Command::Move(Move::Down) | Command::Move(Move::Right) => {
                let found: Option<Location> = self.view.search_next();
                assert(old(self)@.view.is_hit(
                    old(self)@.view.next_from(),
                    SearchDirection::Forward,
                    found,
                ) && self@ == (EditorModel {
                    view: old(self)@.view.after_hit(found),
                    ..old(self)@
                }));
            },
            Command::Move(Move::Up) | Command::Move(Move::Left) => {
                let found: Option<Location> = self.view.search_prev();
                assert(old(self)@.view.is_hit(
                    old(self)@.view.location,
                    SearchDirection::Backward,
                    found,
                ) && self@ == (EditorModel {
                    view: old(self)@.view.after_hit(found),
                    ..old(self)@
                }));
            },
            _ => {},
        }
    }

    /// Takes a command while the command bar asks for nothing.
    pub fn process_command_no_prompt(&mut self, command: Command) -> (action: Action)
        requires
            old(self).wf(),
        ensures
            final(self).wf(),
            old(self)@.without_prompt(command, final(self)@, action@),
    {
        if let Command::System(System::Quit) = command {
            self.handle_quit_command();
            return Action::Nothing;
        }
        self.reset_quit_times();
        match command {
            Command::System(System::Search) => {
                self.set_prompt(PromptType::Search);
                Action::Nothing
            },
            Command::System(System::Save) => self.handle_save_command(),
            Command::System(_) => Action::Nothing,
            Command::Edit(edit_command) => {
                self.view.handle_edit_command(edit_command);
                Action::Nothing
            },
            Command::Move(move_command) => {
                self.view.handle_move_command(move_command);
                Action::Nothing
            },
        }
    }

    /// Takes a command. A resize is taken at once; any other command goes
    /// to whatever the command bar asks for, or to the text where it asks
    /// for nothing. The result says what is to be done outside.
    pub fn process_command(&mut self, command: Command) -> (action: Action)
        requires
            old(self).wf(),
        ensures
            final(self).wf(),
            old(self)@.step(command, final(self)@, action@),
    {
        if let Command::System(System::Resize(size)) = command {
            self.handle_resize_command(size);
            return Action::Nothing;
        }
        match self.prompt_type {
            PromptType::Search => {
                self.process_command_during_search(command);
                Action::Nothing
            },
            PromptType::Save => self.process_command_during_save(command),
            PromptType::NoPrompt => self.process_command_no_prompt(command),
        }
    }

    /// Takes an input event. Key presses and resizes that stand for a
    /// command are carried out as `process_command` does; any other event
    /// changes nothing.
    pub fn evaluate_event(&mut self, event: Event) -> (action: Action)
        requires
            old(self).wf(),
        ensures
            final(self).wf(),
            match command_of(event) {
                Ok(command) => if is_processed(event) {
                    old(self)@.step(command, final(self)@, action@)
                } else {
                    final(self)@ == old(self)@ && action@ == ActionModel::Nothing
                },
                Err(_) => final(self)@ == old(self)@ && action@ == ActionModel::Nothing,
            },
    {
        if should_process(event) {
            if let Ok(command) = Command::try_from(event) {
                return self.process_command(command);
            }
        }
        Action::Nothing
    }

    /// Brings the status bar up to date. The result is the title that the
    /// terminal window is to get, where that is another than the one it has.
    pub fn refresh_status(&mut self) -> (title: Option<String>)
        requires
            old(self).wf(),
        ensures
            final(self).wf(),
            final(self)@ == old(self)@.after_refresh_status(),
            match title {
                Some(t) => t@ == title_of(final(self)@.status.file_name, final(self)@.name) && t@
                    != old(self)@.title,
                None => title_of(final(self)@.status.file_name, final(self)@.name) == old(
                    self,
                )@.title,
            },
    {
        let status: DocumentStatus = self.view.get_status();
        let mut title: String = status.file_name.clone();
        title.append(" - ");
        title.append(self.name.as_str());
        self.status_bar.update_status(status);
        if title != self.title {
            Some(title)
        } else {
            None
        }
    }

    /// Records that the terminal window has got the title `title`.
    pub fn set_title(&mut self, title: String)
        ensures
            final(self)@ == (EditorModel { title: title@, ..old(self)@ }),
            old(self).wf() ==> final(self).wf(),
    {
        self.title = title;
    }

    /// The commands that draw the screen. Nothing is drawn on a terminal
    /// without cells.
    pub fn refresh_screen(&mut self) -> (commands: Vec<TerminalCommand>)
        requires
            old(self).wf(),
        ensures
            final(self).wf(),
            final(self)@ == old(self)@.after_refresh_screen(),
            drawn(commands@) == old(self)@.screen(),
    {
        let mut commands: Vec<TerminalCommand> = Vec::new();
        let size: Size = self.terminal_size;
        if size.height == 0 || size.width == 0 {
            assert(drawn(commands@) =~= Seq::<Drawn>::empty());
            return commands;
        }
        let bottom_bar_row: usize = saturating_sub(size.height, 1);
        commands.push(TerminalCommand::HideCaret);
        let ghost hidden = drawn(commands@);
        assert(hidden =~= seq![Drawn::HideCaret]);
        let mut bar: Vec<TerminalCommand> = if self.in_prompt() {
            self.command_bar.render(bottom_bar_row)
        } else {
            self.message_bar.render(bottom_bar_row)
        };
        let ghost bottom = drawn(bar@);
        commands.append(&mut bar);
        assert(drawn(commands@) =~= hidden + bottom);
        let ghost mut status = Seq::<Drawn>::empty();
        if size.height > 1 {
            let mut bar: Vec<TerminalCommand> = self.status_bar.render(
                saturating_sub(size.height, 2),
            );
            proof {
                status = drawn(bar@);
            }
            commands.append(&mut bar);
        }
        assert(drawn(commands@) =~= hidden + bottom + status);
        let ghost mut text = Seq::<Drawn>::empty();
        if size.height > 2 {
            let mut frame: Vec<TerminalCommand> = self.view.render(
                0,
                self.name.as_str(),
                self.version.as_str(),
            );
            proof {
                text = drawn(frame@);
            }
            commands.append(&mut frame);
        }
        assert(drawn(commands@) =~= hidden + bottom + status + text);
        let new_caret_pos: Position = if self.in_prompt() {
            Position { row: bottom_bar_row, col: self.command_bar.caret_position_col() }
        } else {
            self.view.caret_position()
        };
        commands.push(TerminalCommand::MoveCaretTo(new_caret_pos));
        commands.push(TerminalCommand::ShowCaret);
        commands.push(TerminalCommand::Execute);
        assert(drawn(commands@) =~= hidden + bottom + status + text + seq![
            Drawn::MoveCaretTo(new_caret_pos),
            Drawn::ShowCaret,
            Drawn::Execute,
        ]);
        commands
    }
}

} // verus!
