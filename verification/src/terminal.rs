//! What the terminal is asked to do, as data.
//!
//! Drawing is decided here and carried out elsewhere: every function gives
//! the commands for the terminal in the order in which they are to be sent.
use vstd::prelude::*;
use crate::annotated_string::{
    part_models, parts_from, AnnotatedModel, AnnotatedString, AnnotationStringPart, PartModel,
};
use crate::attribute::{attribute_of, Attribute, Rgb};
use crate::position::Position;

verus! {

/// One request to the terminal.
#[derive(Debug)]
pub enum TerminalCommand {
    MoveCaretTo(Position),
    ClearLine,
    Print(String),
    SetForegroundColor(Rgb),
    SetBackgroundColor(Rgb),
    ResetColor,
    Reverse,
    Reset,
    HideCaret,
    ShowCaret,
    SetTitle(String),
    Execute,
}

/// A request to the terminal, as plain values.
pub enum Drawn {
    MoveCaretTo(Position),
    ClearLine,
    Print(Seq<char>),
    SetForegroundColor(Rgb),
    SetBackgroundColor(Rgb),
    ResetColor,
    Reverse,
    Reset,
    HideCaret,
    ShowCaret,
    SetTitle(Seq<char>),
    Execute,
}

impl View for TerminalCommand {
    type V = Drawn;

    open spec fn view(&self) -> Drawn {
        match self {
            TerminalCommand::MoveCaretTo(position) => Drawn::MoveCaretTo(*position),
            TerminalCommand::ClearLine => Drawn::ClearLine,
            TerminalCommand::Print(text) => Drawn::Print(text@),
            TerminalCommand::SetForegroundColor(color) => Drawn::SetForegroundColor(*color),
            TerminalCommand::SetBackgroundColor(color) => Drawn::SetBackgroundColor(*color),
            TerminalCommand::ResetColor => Drawn::ResetColor,
            TerminalCommand::Reverse => Drawn::Reverse,
            TerminalCommand::Reset => Drawn::Reset,
            TerminalCommand::HideCaret => Drawn::HideCaret,
            TerminalCommand::ShowCaret => Drawn::ShowCaret,
            TerminalCommand::SetTitle(title) => Drawn::SetTitle(title@),
            TerminalCommand::Execute => Drawn::Execute,
        }
    }
}

/// The requests that a sequence of commands makes.
pub open spec fn drawn(commands: Seq<TerminalCommand>) -> Seq<Drawn> {
    Seq::new(commands.len(), |i: int| commands[i]@)
}

/// Going to the start of `row` and clearing it.
pub open spec fn row_start(row: usize) -> Seq<Drawn> {
    seq![Drawn::MoveCaretTo(Position { row, col: 0 }), Drawn::ClearLine]
}

/// Drawing `text` as the whole of `row`.
pub open spec fn row_image(row: usize, text: Seq<char>) -> Seq<Drawn> {
    row_start(row).push(Drawn::Print(text))
}

/// Setting the colours of `attribute`.
pub open spec fn attribute_image(attribute: Attribute) -> Seq<Drawn> {
    let foreground = match attribute.foreground {
        Some(color) => seq![Drawn::SetForegroundColor(color)],
        None => Seq::empty(),
    };
    let background = match attribute.background {
        Some(color) => seq![Drawn::SetBackgroundColor(color)],
        None => Seq::empty(),
    };
    foreground + background
}

/// Drawing one part: its colours where it is styled, its text, and the
/// colours reset.
pub open spec fn part_image(part: PartModel) -> Seq<Drawn> {
    let colors = match part.annotation_type {
        Some(kind) => attribute_image(attribute_of(kind)),
        None => Seq::empty(),
    };
    colors.push(Drawn::Print(part.text)).push(Drawn::ResetColor)
}

/// Drawing `parts` one after the other.
pub open spec fn parts_image(parts: Seq<PartModel>) -> Seq<Drawn>
    decreases parts.len(),
{
    if parts.len() == 0 {
        Seq::empty()
    } else {
        parts_image(parts.drop_last()) + part_image(parts.last())
    }
}

/// Drawing an annotated string as the whole of `row`.
pub open spec fn annotated_row_image(row: usize, m: AnnotatedModel) -> Seq<Drawn> {
    row_start(row) + parts_image(parts_from(m, 0))
}

/// `text` cut or padded with spaces to exactly `width` characters.
pub open spec fn fitted(text: Seq<char>, width: usize) -> Seq<char> {
    Seq::new(
        width as nat,
        |i: int|
            if i < text.len() {
                text[i]
            } else {
                ' '
            },
    )
}

/// Drawing `text` as the whole of `row` in reversed colours, `width`
/// characters wide.
pub open spec fn inverted_row_image(row: usize, text: Seq<char>, width: usize) -> Seq<Drawn> {
    row_start(row).push(Drawn::Reverse).push(Drawn::Print(fitted(text, width))).push(Drawn::Reset)
}

/// `text` cut or padded with spaces to exactly `width` characters.
pub fn fit_to_width(text: &str, width: usize) -> (fit: String)
    ensures
        fit@ == fitted(text@, width),
{
    let mut fit: String = String::new();
    let mut n: usize = 0;
    for c in it: text.chars()
        invariant
            it.seq() == text@,
            n == if it.index() < width {
                it.index()
            } else {
                width as int
            },
            fit@ == fitted(text@, n),
    {
        if n < width {
            fit.push(c);
            n = n + 1;
            assert(fit@ =~= fitted(text@, n));
        }
    }
    while n < width
        invariant
            n <= width,
            text@.len() <= n || n == width,
            fit@ == fitted(text@, n),
        decreases width - n,
    {
        fit.push(' ');
        n = n + 1;
        assert(fit@ =~= fitted(text@, n));
    }
    fit
}

/// The terminal, as the commands that draw on it.
pub struct Terminal;

impl Terminal {
    /// The commands that draw `line_text` as the whole of `row`.
    pub fn print_row(row: usize, line_text: &str) -> (commands: Vec<TerminalCommand>)
        ensures
            drawn(commands@) == row_image(row, line_text@),
    {
        let mut commands: Vec<TerminalCommand> = Vec::new();
        commands.push(TerminalCommand::MoveCaretTo(Position { row, col: 0 }));
        commands.push(TerminalCommand::ClearLine);
        commands.push(TerminalCommand::Print(line_text.to_owned()));
        assert(drawn(commands@) =~= row_image(row, line_text@));
        commands
    }

    /// The commands that set the colours of `attribute`, pushed onto
    /// `commands`.
    pub fn set_attribute(commands: &mut Vec<TerminalCommand>, attribute: &Attribute)
        ensures
            drawn(final(commands)@) == drawn(old(commands)@) + attribute_image(*attribute),
    {
        if let Some(color) = attribute.foreground {
            commands.push(TerminalCommand::SetForegroundColor(color));
        }
        if let Some(color) = attribute.background {
            commands.push(TerminalCommand::SetBackgroundColor(color));
        }
        assert(drawn(commands@) =~= drawn(old(commands)@) + attribute_image(*attribute));
    }

    /// The commands that draw `annotated_string` as the whole of `row`: each
    /// part in the colours of its kind, with the colours reset after it.
    pub fn print_annotated_row(row: usize, annotated_string: &AnnotatedString) -> (commands: Vec<
        TerminalCommand,
    >)
        ensures
            drawn(commands@) == annotated_row_image(row, annotated_string@),
    {
        let parts: Vec<AnnotationStringPart> = annotated_string.parts();
        let ghost models = part_models(parts@);
        let mut commands: Vec<TerminalCommand> = Vec::new();
        commands.push(TerminalCommand::MoveCaretTo(Position { row, col: 0 }));
        commands.push(TerminalCommand::ClearLine);
        assert(drawn(commands@) =~= row_start(row));
        assert(models.take(0) =~= Seq::<PartModel>::empty());
        let mut i: usize = 0;
        while i < parts.len()
            invariant
                models == part_models(parts@),
                0 <= i <= parts.len(),
                drawn(commands@) == row_start(row) + parts_image(models.take(i as int)),
            decreases parts.len() - i,
        {
            let part: &AnnotationStringPart = &parts[i];
            let ghost before = drawn(commands@);
            proof {
                assert(models.take(i + 1).drop_last() =~= models.take(i as int));
                assert(models.take(i + 1).last() == part@);
            }
            if let Some(annotation_type) = part.annotation_type {
                let attribute: Attribute = Attribute::from(annotation_type);
                assert(attribute == attribute_of(annotation_type));
                Self::set_attribute(&mut commands, &attribute);
            }
            let ghost colored = drawn(commands@);
            commands.push(TerminalCommand::Print(part.string.clone()));
            commands.push(TerminalCommand::ResetColor);
            assert(drawn(commands@) =~= colored.push(Drawn::Print(part@.text)).push(
                Drawn::ResetColor,
            ));
            assert(drawn(commands@) =~= before + part_image(part@));
            i = i + 1;
        }
        assert(models.take(parts.len() as int) =~= models);
        commands
    }

    /// The commands that draw `line_text` as the whole of `row` in reversed
    /// colours, cut or padded to `width` characters.
    pub fn print_inverted_row(row: usize, line_text: &str, width: usize) -> (commands: Vec<
        TerminalCommand,
    >)
        ensures
            drawn(commands@) == inverted_row_image(row, line_text@, width),
    {
        let mut commands: Vec<TerminalCommand> = Vec::new();
        commands.push(TerminalCommand::MoveCaretTo(Position { row, col: 0 }));
        commands.push(TerminalCommand::ClearLine);
        commands.push(TerminalCommand::Reverse);
        commands.push(TerminalCommand::Print(fit_to_width(line_text, width)));
        commands.push(TerminalCommand::Reset);
        assert(drawn(commands@) =~= inverted_row_image(row, line_text@, width));
        commands
    }
}

} // verus!
