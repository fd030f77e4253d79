//! The closed set of commands, and how input events decode into them.
use vstd::prelude::*;
use crate::position::Size;

verus! {

/// A key, as far as the editor tells keys apart.
#[derive(Copy, Clone, Debug, PartialEq, Eq, Structural)]
pub enum KeyCode {
    Char(char),
    Up,
    Down,
    Left,
    Right,
    PageUp,
    PageDown,
    Home,
    End,
    Backspace,
    Delete,
    Tab,
    Enter,
    Esc,
    Other,
}

/// The modifier keys held down with a key. `other` stands for any modifier
/// besides shift, control and alt.
#[derive(Copy, Clone, Debug, PartialEq, Eq, Structural)]
pub struct KeyModifiers {
    pub shift: bool,
    pub control: bool,
    pub alt: bool,
    pub other: bool,
}

impl KeyModifiers {
    /// No modifier is held down.
    pub open spec fn is_none(self) -> bool {
        !self.shift && !self.control && !self.alt && !self.other
    }

    /// Shift alone is held down.
    pub open spec fn is_shift(self) -> bool {
        self.shift && !self.control && !self.alt && !self.other
    }

    /// Control alone is held down.
    pub open spec fn is_control(self) -> bool {
        !self.shift && self.control && !self.alt && !self.other
    }

    /// Whether no modifier is held down.
    pub fn none(self) -> (r: bool)
        ensures
            r == self.is_none(),
    {
        !self.shift && !self.control && !self.alt && !self.other
    }

    /// Whether shift alone is held down.
    pub fn only_shift(self) -> (r: bool)
        ensures
            r == self.is_shift(),
    {
        self.shift && !self.control && !self.alt && !self.other
    }

    /// Whether control alone is held down.
    pub fn only_control(self) -> (r: bool)
        ensures
            r == self.is_control(),
    {
        !self.shift && self.control && !self.alt && !self.other
    }
}

/// What happened to a key.
#[derive(Copy, Clone, Debug, PartialEq, Eq, Structural)]
pub enum KeyEventKind {
    Press,
    Repeat,
    Release,
}

/// A key event.
#[derive(Copy, Clone, Debug, PartialEq, Eq, Structural)]
pub struct KeyEvent {
    pub code: KeyCode,
    pub modifiers: KeyModifiers,
    pub kind: KeyEventKind,
}

/// An input event.
#[derive(Copy, Clone, Debug, PartialEq, Eq, Structural)]
pub enum Event {
    Key(KeyEvent),
    /// The terminal now has this many columns and rows.
    Resize(u16, u16),
    Other,
}

/// Whether an event is looked at at all: key presses and resizes are;
/// repeated and released keys and all other events are not.
pub open spec fn is_processed(event: Event) -> bool {
    match event {
        Event::Key(key) => key.kind == KeyEventKind::Press,
        Event::Resize(_, _) => true,
        Event::Other => false,
    }
}

/// Whether an event is looked at at all.
pub fn should_process(event: Event) -> (r: bool)
    ensures
        r == is_processed(event),
{
    match event {
        Event::Key(key) => match key.kind {
            KeyEventKind::Press => true,
            _ => false,
        },
        Event::Resize(_, _) => true,
        Event::Other => false,
    }
}

/// Why an event decodes into no command.
#[derive(Copy, Clone, Debug, PartialEq, Eq, Structural)]
pub enum CommandError {
    UnsupportedKey,
    UnsupportedEvent,
}

/// Cursor movements.
#[derive(Copy, Clone, Debug, PartialEq, Eq, Structural)]
pub enum Move {
    PageUp,
    PageDown,
    StartOfLine,
    EndOfLine,
    Up,
    Left,
    Right,
    Down,
}

/// Changes to the text.
#[derive(Copy, Clone, Debug, PartialEq, Eq, Structural)]
pub enum Edit {
    Insert(char),
    InsertNewLine,
    Delete,
    DeleteBackward,
}

/// Commands to the editor as a whole.
#[derive(Copy, Clone, Debug, PartialEq, Eq, Structural)]
pub enum System {
    Save,
    Resize(Size),
    Quit,
    Dismiss,
    Search,
}

/// Any command.
#[derive(Copy, Clone, Debug, PartialEq, Eq, Structural)]
pub enum Command {
    Move(Move),
    Edit(Edit),
    System(System),
}

/// The edit that a key press stands for.
pub open spec fn edit_of(key: KeyEvent) -> Option<Edit> {
    match key.code {
        KeyCode::Char(c) => if key.modifiers.is_none() || key.modifiers.is_shift() {
            Some(Edit::Insert(c))
        } else {
            None
        },
        KeyCode::Tab => if key.modifiers.is_none() {
            Some(Edit::Insert('\t'))
        } else {
            None
        },
        KeyCode::Enter => if key.modifiers.is_none() {
            Some(Edit::InsertNewLine)
        } else {
            None
        },
        KeyCode::Backspace => if key.modifiers.is_none() {
            Some(Edit::DeleteBackward)
        } else {
            None
        },
        KeyCode::Delete => if key.modifiers.is_none() {
            Some(Edit::Delete)
        } else {
            None
        },
        _ => None,
    }
}

/// The movement that a key press stands for.
pub open spec fn move_of(key: KeyEvent) -> Option<Move> {
    if !key.modifiers.is_none() {
        None
    } else {
        match key.code {
            KeyCode::Up => Some(Move::Up),
            KeyCode::Down => Some(Move::Down),
            KeyCode::Left => Some(Move::Left),
            KeyCode::Right => Some(Move::Right),
            KeyCode::PageDown => Some(Move::PageDown),
            KeyCode::PageUp => Some(Move::PageUp),
            KeyCode::Home => Some(Move::StartOfLine),
            KeyCode::End => Some(Move::EndOfLine),
            _ => None,
        }
    }
}

/// The system command that a key press stands for.
pub open spec fn system_of(key: KeyEvent) -> Option<System> {
    if key.modifiers.is_control() {
        if key.code == KeyCode::Char('q') {
            Some(System::Quit)
        } else if key.code == KeyCode::Char('s') {
            Some(System::Save)
        } else if key.code == KeyCode::Char('f') {
            Some(System::Search)
        } else {
            None
        }
    } else if key.modifiers.is_none() && key.code == KeyCode::Esc {
        Some(System::Dismiss)
    } else {
        None
    }
}

/// The command that an event stands for: for a key press its edit, else
/// its movement, else its system command; for a resize the new size.
pub open spec fn command_of(event: Event) -> Result<Command, CommandError> {
    match event {
        Event::Key(key) => match edit_of(key) {
            Some(edit) => Ok(Command::Edit(edit)),
            None => match move_of(key) {
                Some(movement) => Ok(Command::Move(movement)),
                None => match system_of(key) {
                    Some(system) => Ok(Command::System(system)),
                    None => Err(CommandError::UnsupportedKey),
                },
            },
        },
        Event::Resize(width, height) => Ok(
            Command::System(System::Resize(Size { height: height as usize, width: width as usize })),
        ),
        Event::Other => Err(CommandError::UnsupportedEvent),
    }
}

impl Edit {
    /// Decodes a key press into an edit.
    pub fn try_from(key: KeyEvent) -> (r: Result<Edit, CommandError>)
        ensures
            r == match edit_of(key) {
                Some(edit) => Ok::<Edit, CommandError>(edit),
                None => Err(CommandError::UnsupportedKey),
            },
    {
        let plain: bool = key.modifiers.none();
        match key.code {
            KeyCode::Char(c) => if plain || key.modifiers.only_shift() {
                Ok(Edit::Insert(c))
            } else {
                Err(CommandError::UnsupportedKey)
            },
            KeyCode::Tab => if plain {
                Ok(Edit::Insert('\t'))
            } else {
                Err(CommandError::UnsupportedKey)
            },
            KeyCode::Enter => if plain {
                Ok(Edit::InsertNewLine)
            } else {
                Err(CommandError::UnsupportedKey)
            },
            KeyCode::Backspace => if plain {
                Ok(Edit::DeleteBackward)
            } else {
                Err(CommandError::UnsupportedKey)
            },
            KeyCode::Delete => if plain {
                Ok(Edit::Delete)
            } else {
                Err(CommandError::UnsupportedKey)
            },
            _ => Err(CommandError::UnsupportedKey),
        }
    }
}

impl Move {
    /// Decodes a key press into a movement.
    pub fn try_from(key: KeyEvent) -> (r: Result<Move, CommandError>)
        ensures
            r == match move_of(key) {
                Some(movement) => Ok::<Move, CommandError>(movement),
                None => Err(CommandError::UnsupportedKey),
            },
    {
        if !key.modifiers.none() {
            return Err(CommandError::UnsupportedKey);
        }
        match key.code {
            KeyCode::Up => Ok(Move::Up),
            KeyCode::Down => Ok(Move::Down),
            KeyCode::Left => Ok(Move::Left),
            KeyCode::Right => Ok(Move::Right),
            KeyCode::PageDown => Ok(Move::PageDown),
            KeyCode::PageUp => Ok(Move::PageUp),
            KeyCode::Home => Ok(Move::StartOfLine),
            KeyCode::End => Ok(Move::EndOfLine),
            _ => Err(CommandError::UnsupportedKey),
        }
    }
}

impl System {
    /// Decodes a key press into a system command.
    pub fn try_from(key: KeyEvent) -> (r: Result<System, CommandError>)
        ensures
            r == match system_of(key) {
                Some(system) => Ok::<System, CommandError>(system),
                None => Err(CommandError::UnsupportedKey),
            },
    {
        if key.modifiers.only_control() {
            match key.code {
                KeyCode::Char(c) => if c == 'q' {
                    Ok(System::Quit)
                } else if c == 's' {
                    Ok(System::Save)
                } else if c == 'f' {
                    Ok(System::Search)
                } else {
                    Err(CommandError::UnsupportedKey)
                },
                _ => Err(CommandError::UnsupportedKey),
            }
        } else if key.modifiers.none() {
            match key.code {
                KeyCode::Esc => Ok(System::Dismiss),
                _ => Err(CommandError::UnsupportedKey),
            }
        } else {
            Err(CommandError::UnsupportedKey)
        }
    }
}

impl Command {
    /// Decodes an event into a command.
    pub fn try_from(event: Event) -> (r: Result<Command, CommandError>)
        ensures
            r == command_of(event),
    {
        match event {
            Event::Key(key) => match Edit::try_from(key) {
                Ok(edit) => Ok(Command::Edit(edit)),
                Err(_) => match Move::try_from(key) {
                    Ok(movement) => Ok(Command::Move(movement)),
                    Err(_) => match System::try_from(key) {
                        Ok(system) => Ok(Command::System(system)),
                        Err(_) => Err(CommandError::UnsupportedKey),
                    },
                },
            },
            Event::Resize(width, height) => Ok(
                Command::System(
                    System::Resize(Size { height: height as usize, width: width as usize }),
                ),
            ),
            Event::Other => Err(CommandError::UnsupportedEvent),
        }
    }
}

/// Directions in which the cursor moves.
#[derive(Copy, Clone, Debug, PartialEq, Eq, Structural)]
pub enum Direction {
    PageUp,
    PageDown,
    Home,
    End,
    Up,
    Left,
    Right,
    Down,
}

impl Direction {
    /// The movement in this direction.
    pub open spec fn movement(self) -> Move {
        match self {
            Direction::PageUp => Move::PageUp,
            Direction::PageDown => Move::PageDown,
            Direction::Home => Move::StartOfLine,
            Direction::End => Move::EndOfLine,
            Direction::Up => Move::Up,
            Direction::Left => Move::Left,
            Direction::Right => Move::Right,
            Direction::Down => Move::Down,
        }
    }

    /// The movement in this direction.
    pub fn as_move(self) -> (movement: Move)
        ensures
            movement == self.movement(),
    {
        match self {
            Direction::PageUp => Move::PageUp,
            Direction::PageDown => Move::PageDown,
            Direction::Home => Move::StartOfLine,
            Direction::End => Move::EndOfLine,
            Direction::Up => Move::Up,
            Direction::Left => Move::Left,
            Direction::Right => Move::Right,
            Direction::Down => Move::Down,
        }
    }
}

/// The commands of the editor in one flat set.
#[derive(Copy, Clone, Debug, PartialEq, Eq, Structural)]
pub enum EditCommand {
    Move(Direction),
    Resize(Size),
    Quit,
    Insert(char),
    Backspace,
    Delete,
    Enter,
    Save,
}

/// The flat command that an event stands for. Modifiers count for
/// characters alone: control with `q` quits, control with `s` saves, and a
/// character with no modifier or with shift is inserted.
pub open spec fn edit_command_of(event: Event) -> Result<EditCommand, CommandError> {
    match event {
        Event::Key(key) => match key.code {
            KeyCode::Char(c) => if c == 'q' && key.modifiers.is_control() {
                Ok(EditCommand::Quit)
            } else if c == 's' && key.modifiers.is_control() {
                Ok(EditCommand::Save)
            } else if key.modifiers.is_none() || key.modifiers.is_shift() {
                Ok(EditCommand::Insert(c))
            } else {
                Err(CommandError::UnsupportedKey)
            },
            KeyCode::Up => Ok(EditCommand::Move(Direction::Up)),
            KeyCode::Down => Ok(EditCommand::Move(Direction::Down)),
            KeyCode::Left => Ok(EditCommand::Move(Direction::Left)),
            KeyCode::Right => Ok(EditCommand::Move(Direction::Right)),
            KeyCode::PageDown => Ok(EditCommand::Move(Direction::PageDown)),
            KeyCode::PageUp => Ok(EditCommand::Move(Direction::PageUp)),
            KeyCode::Home => Ok(EditCommand::Move(Direction::Home)),
            KeyCode::End => Ok(EditCommand::Move(Direction::End)),
            KeyCode::Backspace => Ok(EditCommand::Backspace),
            KeyCode::Delete => Ok(EditCommand::Delete),
            KeyCode::Tab => Ok(EditCommand::Insert('\t')),
            KeyCode::Enter => Ok(EditCommand::Enter),
            _ => Err(CommandError::UnsupportedKey),
        },
        Event::Resize(width, height) => Ok(
            EditCommand::Resize(Size { height: height as usize, width: width as usize }),
        ),
        Event::Other => Err(CommandError::UnsupportedEvent),
    }
}

impl EditCommand {
    /// Decodes an event into a flat command.
    pub fn try_from(event: Event) -> (r: Result<EditCommand, CommandError>)
        ensures
            r == edit_command_of(event),
    {
        match event {
            Event::Key(key) => match key.code {
                KeyCode::Char(c) => if c == 'q' && key.modifiers.only_control() {
                    Ok(EditCommand::Quit)
                } else if c == 's' && key.modifiers.only_control() {
                    Ok(EditCommand::Save)
                } else if key.modifiers.none() || key.modifiers.only_shift() {
                    Ok(EditCommand::Insert(c))
                } else {
                    Err(CommandError::UnsupportedKey)
                },
                KeyCode::Up => Ok(EditCommand::Move(Direction::Up)),
                KeyCode::Down => Ok(EditCommand::Move(Direction::Down)),
                KeyCode::Left => Ok(EditCommand::Move(Direction::Left)),
                KeyCode::Right => Ok(EditCommand::Move(Direction::Right)),
                KeyCode::PageDown => Ok(EditCommand::Move(Direction::PageDown)),
                KeyCode::PageUp => Ok(EditCommand::Move(Direction::PageUp)),
                KeyCode::Home => Ok(EditCommand::Move(Direction::Home)),
                KeyCode::End => Ok(EditCommand::Move(Direction::End)),
                KeyCode::Backspace => Ok(EditCommand::Backspace),
                KeyCode::Delete => Ok(EditCommand::Delete),
                KeyCode::Tab => Ok(EditCommand::Insert('\t')),
                KeyCode::Enter => Ok(EditCommand::Enter),
                _ => Err(CommandError::UnsupportedKey),
            },
            Event::Resize(width, height) => Ok(
                EditCommand::Resize(Size { height: height as usize, width: width as usize }),
            ),
            Event::Other => Err(CommandError::UnsupportedEvent),
        }
    }
}

} // verus!
