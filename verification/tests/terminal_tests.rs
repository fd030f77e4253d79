use editor_core::annotated_string::{AnnotatedString, AnnotationType};
use editor_core::attribute::{Attribute, Rgb};
use editor_core::position::{
    half_rounded_up, saturating_add, saturating_sub, Location, Position, Size,
};
use editor_core::terminal::{fit_to_width, Terminal, TerminalCommand};

fn shape(commands: &[TerminalCommand]) -> Vec<String> {
    commands
        .iter()
        .map(|c| match c {
            TerminalCommand::MoveCaretTo(p) => format!("move {} {}", p.row, p.col),
            TerminalCommand::ClearLine => "clear".to_string(),
            TerminalCommand::Print(t) => format!("print {t}"),
            TerminalCommand::SetForegroundColor(c) => format!("fg {} {} {}", c.r, c.g, c.b),
            TerminalCommand::SetBackgroundColor(c) => format!("bg {} {} {}", c.r, c.g, c.b),
            TerminalCommand::ResetColor => "reset color".to_string(),
            TerminalCommand::Reverse => "reverse".to_string(),
            TerminalCommand::Reset => "reset".to_string(),
            TerminalCommand::HideCaret => "hide".to_string(),
            TerminalCommand::ShowCaret => "show".to_string(),
            TerminalCommand::SetTitle(t) => format!("title {t}"),
            TerminalCommand::Execute => "execute".to_string(),
        })
        .collect()
}

#[test]
fn print_row_moves_clears_and_prints() {
    assert_eq!(shape(&Terminal::print_row(3, "hello")), vec!["move 3 0", "clear", "print hello"]);
}

#[test]
fn print_inverted_row_pads_and_cuts_to_the_width() {
    assert_eq!(
        shape(&Terminal::print_inverted_row(1, "ab", 4)),
        vec!["move 1 0", "clear", "reverse", "print ab  ", "reset"]
    );
    assert_eq!(
        shape(&Terminal::print_inverted_row(1, "abcdef", 4)),
        vec!["move 1 0", "clear", "reverse", "print abcd", "reset"]
    );
}

#[test]
fn fit_to_width_counts_characters() {
    assert_eq!(fit_to_width("\u{4F60}\u{597D}!", 2), "\u{4F60}\u{597D}");
    assert_eq!(fit_to_width("x", 3), "x  ");
    assert_eq!(fit_to_width("x", 0), "");
    assert_eq!(fit_to_width("", 2), "  ");
}

#[test]
fn print_annotated_row_colours_each_styled_part() {
    let mut s = AnnotatedString::new("ab12 cd".chars().map(|c| c.to_string()).collect());
    s.add_annotation(AnnotationType::Number, 2, 4);
    assert_eq!(
        shape(&Terminal::print_annotated_row(2, &s)),
        vec![
            "move 2 0",
            "clear",
            "print ab",
            "reset color",
            "fg 255 99 71",
            "print 12",
            "reset color",
            "print  cd",
            "reset color",
        ]
    );
    let mut s = AnnotatedString::new("abcd".chars().map(|c| c.to_string()).collect());
    s.add_annotation(AnnotationType::Match, 0, 2);
    s.add_annotation(AnnotationType::KeyWord, 2, 4);
    assert_eq!(
        shape(&Terminal::print_annotated_row(0, &s)),
        vec![
            "move 0 0",
            "clear",
            "fg 255 255 255",
            "bg 211 211 211",
            "print ab",
            "reset color",
            "fg 100 149 237",
            "print cd",
            "reset color",
        ]
    );
}

#[test]
fn set_attribute_pushes_the_colours_that_are_set() {
    let mut commands = Vec::new();
    Terminal::set_attribute(
        &mut commands,
        &Attribute { foreground: None, background: Some(Rgb { r: 1, g: 2, b: 3 }) },
    );
    assert_eq!(shape(&commands), vec!["bg 1 2 3"]);
    Terminal::set_attribute(&mut commands, &Attribute { foreground: None, background: None });
    assert_eq!(commands.len(), 1);
}

#[test]
fn every_annotation_type_has_its_colours() {
    let fg = |t: AnnotationType| Attribute::from(t).foreground.map(|c| (c.r, c.g, c.b));
    let bg = |t: AnnotationType| Attribute::from(t).background.map(|c| (c.r, c.g, c.b));
    assert_eq!(fg(AnnotationType::Match), Some((255, 255, 255)));
    assert_eq!(bg(AnnotationType::Match), Some((211, 211, 211)));
    assert_eq!(fg(AnnotationType::SelectedMatch), Some((255, 255, 255)));
    assert_eq!(bg(AnnotationType::SelectedMatch), Some((255, 255, 153)));
    assert_eq!(fg(AnnotationType::Number), Some((255, 99, 71)));
    assert_eq!(bg(AnnotationType::Number), None);
    assert_eq!(fg(AnnotationType::KeyWord), Some((100, 149, 237)));
    assert_eq!(fg(AnnotationType::Type), Some((175, 225, 175)));
    assert_eq!(fg(AnnotationType::KnownValue), Some((195, 177, 225)));
    assert_eq!(bg(AnnotationType::KnownValue), None);
    assert_eq!(fg(AnnotationType::Char), Some((255, 191, 0)));
    assert_eq!(fg(AnnotationType::LifetimeSpecifier), Some((102, 205, 170)));
    let into: Attribute = AnnotationType::Type.into();
    assert_eq!(into, Attribute::from(AnnotationType::Type));
}

#[test]
fn coordinates_saturate() {
    assert_eq!(saturating_sub(3, 5), 0);
    assert_eq!(saturating_sub(5, 3), 2);
    assert_eq!(saturating_add(usize::MAX, 1), usize::MAX);
    assert_eq!(saturating_add(2, 3), 5);
    assert_eq!(half_rounded_up(10), 5);
    assert_eq!(half_rounded_up(9), 5);
    assert_eq!(half_rounded_up(0), 0);
    assert_eq!(half_rounded_up(usize::MAX), usize::MAX / 2 + 1);
    let a = Position { row: 2, col: 9 };
    let b = Position { row: 5, col: 4 };
    assert_eq!(a.saturating_sub(b), Position { row: 0, col: 5 });
    assert_eq!(Size::default(), Size { height: 0, width: 0 });
    assert_eq!(Position::default(), Position { row: 0, col: 0 });
    assert_eq!(Location::default(), Location { line_idx: 0, grapheme_idx: 0 });
}
