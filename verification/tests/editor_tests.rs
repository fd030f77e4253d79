use editor_core::buffer::IoFailure;
use editor_core::command::{
    Command, Edit, Event, KeyCode, KeyEvent, KeyEventKind, KeyModifiers, Move, System,
};
use editor_core::document_status::DocumentStatus;
use editor_core::editor::{Action, Editor, PromptType};
use editor_core::position::{Location, Position, Size};
use editor_core::terminal::TerminalCommand;
use editor_core::ui_components::{to_decimal, CommandBar, MessageBar, StatusBar};

fn editor(height: usize, width: usize) -> Editor {
    Editor::new("ed", "1.0", Size { height, width })
}

fn type_text(editor: &mut Editor, text: &str) {
    for c in text.chars() {
        let action = editor.process_command(Command::Edit(Edit::Insert(c)));
        assert!(matches!(action, Action::Nothing));
    }
}

fn printed(commands: &[TerminalCommand]) -> Vec<(usize, String)> {
    let mut rows: Vec<(usize, String)> = Vec::new();
    for command in commands {
        match command {
            TerminalCommand::MoveCaretTo(p) => rows.push((p.row, String::new())),
            TerminalCommand::Print(text) => rows.last_mut().unwrap().1.push_str(text),
            _ => {}
        }
    }
    rows
}

#[test]
fn new_editor_shows_the_help_message() {
    let editor = editor(24, 80);
    assert!(!editor.should_quit());
    assert!(!editor.in_prompt());
    assert_eq!(editor.prompt_type(), PromptType::NoPrompt);
    assert_eq!(editor.message(), "HELP: Ctrl-F = find | Ctrl-S = save | Ctrl-Q = quit");
    assert_eq!(editor.viewport().contents(), "");
    assert!(PromptType::NoPrompt.is_none());
    assert!(!PromptType::Save.is_none());
    assert_eq!(PromptType::default(), PromptType::NoPrompt);
}

#[test]
fn typing_goes_to_the_text() {
    let mut editor = editor(24, 80);
    type_text(&mut editor, "hi");
    let _ = editor.process_command(Command::Edit(Edit::InsertNewLine));
    type_text(&mut editor, "x");
    let _ = editor.process_command(Command::Move(Move::Up));
    assert_eq!(editor.viewport().contents(), "hi\nx");
    assert_eq!(editor.viewport().text_location(), Location { line_idx: 0, grapheme_idx: 1 });
}

#[test]
fn quitting_with_unsaved_changes_takes_three_requests() {
    let mut editor = editor(24, 80);
    let _ = editor.process_command(Command::System(System::Quit));
    assert!(editor.should_quit());
    let mut editor = self::editor(24, 80);
    type_text(&mut editor, "x");
    let _ = editor.process_command(Command::System(System::Quit));
    assert!(!editor.should_quit());
    assert_eq!(
        editor.message(),
        "WARNING! File has unsaved changes. Press Ctrl-Q 2 more times to quit."
    );
    let _ = editor.process_command(Command::System(System::Quit));
    assert!(!editor.should_quit());
    assert_eq!(
        editor.message(),
        "WARNING! File has unsaved changes. Press Ctrl-Q 1 more times to quit."
    );
    let _ = editor.process_command(Command::System(System::Quit));
    assert!(editor.should_quit());
}

#[test]
fn any_other_command_forgets_requests_to_quit() {
    let mut editor = editor(24, 80);
    type_text(&mut editor, "x");
    let _ = editor.process_command(Command::System(System::Quit));
    let _ = editor.process_command(Command::System(System::Quit));
    let _ = editor.process_command(Command::Move(Move::Left));
    assert_eq!(editor.message(), "");
    let _ = editor.process_command(Command::System(System::Quit));
    let _ = editor.process_command(Command::System(System::Quit));
    assert!(!editor.should_quit());
    let _ = editor.process_command(Command::System(System::Quit));
    assert!(editor.should_quit());
}

#[test]
fn saving_a_document_without_a_file_asks_for_a_name() {
    let mut editor = editor(24, 80);
    type_text(&mut editor, "text");
    let action = editor.process_command(Command::System(System::Save));
    assert!(matches!(action, Action::Nothing));
    assert_eq!(editor.prompt_type(), PromptType::Save);
    type_text(&mut editor, "out.txtx");
    let _ = editor.process_command(Command::Edit(Edit::DeleteBackward));
    let _ = editor.process_command(Command::Move(Move::Up));
    let _ = editor.process_command(Command::System(System::Quit));
    assert_eq!(editor.viewport().contents(), "text");
    let action = editor.process_command(Command::Edit(Edit::InsertNewLine));
    match action {
        Action::SaveAs { file_name, contents } => {
            assert_eq!(file_name, "out.txt");
            assert_eq!(contents, "text");
        }
        _ => panic!("a write was expected"),
    }
    assert!(!editor.in_prompt());
    editor.save(Some("out.txt"), Ok(()));
    assert_eq!(editor.message(), "File saved successfully.");
    assert!(editor.viewport().is_file_loaded());
    assert!(!editor.viewport().get_status().is_modified);
    type_text(&mut editor, "!");
    let action = editor.process_command(Command::System(System::Save));
    match action {
        Action::Save { file_name, contents } => {
            assert_eq!(file_name, "out.txt");
            assert_eq!(contents, "text!");
        }
        _ => panic!("a write was expected"),
    }
    editor.save(None, Err(IoFailure::WriteFailure));
    assert_eq!(editor.message(), "Error writing file!");
    assert!(editor.viewport().get_status().is_modified);
}

#[test]
fn dismissing_the_save_prompt_aborts() {
    let mut editor = editor(24, 80);
    let _ = editor.handle_save_command();
    assert!(editor.in_prompt());
    let action = editor.process_command(Command::System(System::Dismiss));
    assert!(matches!(action, Action::Nothing));
    assert!(!editor.in_prompt());
    assert_eq!(editor.message(), "Save aborted.");
}

#[test]
fn search_prompt_searches_as_the_query_is_typed() {
    let mut editor = editor(12, 80);
    editor.load("f.rs", Ok("fn main() {\n    42\n}"));
    let _ = editor.process_command(Command::System(System::Search));
    assert_eq!(editor.prompt_type(), PromptType::Search);
    type_text(&mut editor, "4");
    assert_eq!(editor.viewport().text_location(), Location { line_idx: 1, grapheme_idx: 4 });
    type_text(&mut editor, "2");
    assert_eq!(editor.viewport().text_location(), Location { line_idx: 1, grapheme_idx: 4 });
    let _ = editor.process_command(Command::Move(Move::Down));
    assert_eq!(editor.viewport().text_location(), Location { line_idx: 1, grapheme_idx: 4 });
    let _ = editor.process_command(Command::Move(Move::Up));
    assert_eq!(editor.viewport().text_location(), Location { line_idx: 1, grapheme_idx: 4 });
    assert_eq!(editor.viewport().contents(), "fn main() {\n    42\n}");
    let _ = editor.process_command(Command::System(System::Dismiss));
    assert!(!editor.in_prompt());
    assert_eq!(editor.viewport().text_location(), Location { line_idx: 0, grapheme_idx: 0 });
    let _ = editor.process_command(Command::System(System::Search));
    type_text(&mut editor, "}");
    let _ = editor.process_command(Command::Edit(Edit::InsertNewLine));
    assert!(!editor.in_prompt());
    assert_eq!(editor.viewport().text_location(), Location { line_idx: 2, grapheme_idx: 0 });
}

#[test]
fn load_failure_is_told_in_the_message_bar() {
    let mut editor = editor(24, 80);
    editor.load("missing.txt", Err(IoFailure::NotFound));
    assert_eq!(editor.message(), "ERR: Could not open file: missing.txt");
    assert_eq!(editor.viewport().contents(), "");
}

#[test]
fn resize_leaves_two_rows_for_the_bars() {
    let mut editor = editor(24, 80);
    let text = "x\n".repeat(40);
    editor.load("f", Ok(&text));
    for _ in 0..30 {
        let _ = editor.process_command(Command::Move(Move::Down));
    }
    assert_eq!(editor.viewport().caret_position(), Position { row: 21, col: 0 });
    let _ = editor.process_command(Command::System(System::Resize(Size { height: 7, width: 20 })));
    assert_eq!(editor.viewport().caret_position(), Position { row: 4, col: 0 });
    editor.resize(Size { height: 1, width: 20 });
    assert_eq!(editor.viewport().text_location(), Location { line_idx: 30, grapheme_idx: 0 });
}

#[test]
fn refresh_status_gives_a_new_title_once() {
    let mut editor = editor(24, 80);
    let title = editor.refresh_status();
    assert_eq!(title.as_deref(), Some("[No Name] - ed"));
    assert_eq!(editor.refresh_status().as_deref(), Some("[No Name] - ed"));
    editor.set_title(title.unwrap());
    assert_eq!(editor.refresh_status(), None);
    editor.load("a.txt", Ok("abc"));
    assert_eq!(editor.refresh_status().as_deref(), Some("a.txt - ed"));
}

#[test]
fn refresh_screen_draws_bars_text_and_caret() {
    let mut editor = editor(5, 40);
    editor.load("a.txt", Ok("one\ntwo"));
    let _ = editor.refresh_status();
    let _ = editor.process_command(Command::Move(Move::Down));
    let _ = editor.process_command(Command::Move(Move::Right));
    let commands = editor.refresh_screen();
    assert!(matches!(commands[0], TerminalCommand::HideCaret));
    let n = commands.len();
    assert!(matches!(commands[n - 3], TerminalCommand::MoveCaretTo(Position { row: 1, col: 1 })));
    assert!(matches!(commands[n - 2], TerminalCommand::ShowCaret));
    assert!(matches!(commands[n - 1], TerminalCommand::Execute));
    let rows = printed(&commands[..n - 3]);
    assert_eq!(
        rows,
        vec![
            (4, "HELP: Ctrl-F = find | Ctrl-S = save | Ctrl-Q = quit".to_string()),
            (3, "a.txt - 2 lines                      1/2".to_string()),
            (0, "one".to_string()),
            (1, "two".to_string()),
            (2, "~".to_string()),
        ]
    );
    let again = editor.refresh_screen();
    assert_eq!(printed(&again[..again.len() - 3]).len(), 2);
}

#[test]
fn refresh_screen_puts_the_caret_into_the_prompt() {
    let mut editor = editor(5, 60);
    let _ = editor.process_command(Command::System(System::Search));
    type_text(&mut editor, "ab");
    let commands = editor.refresh_screen();
    let n = commands.len();
    assert!(matches!(commands[n - 3], TerminalCommand::MoveCaretTo(Position { row: 4, col: 46 })));
    assert_eq!(printed(&commands)[0], (4, "Search (ESC to cancel, Arrows to navigate): ab".to_string()));
}

#[test]
fn refresh_screen_draws_nothing_on_a_terminal_without_cells() {
    let mut editor = editor(0, 80);
    assert!(editor.refresh_screen().is_empty());
    editor.resize(Size { height: 3, width: 0 });
    assert!(editor.refresh_screen().is_empty());
    editor.resize(Size { height: 1, width: 9 });
    assert_eq!(printed(&editor.refresh_screen()).len(), 2);
    editor.resize(Size { height: 2, width: 9 });
    assert_eq!(printed(&editor.refresh_screen()).len(), 3);
}

#[test]
fn decimal_writes_numbers() {
    assert_eq!(to_decimal(0), "0");
    assert_eq!(to_decimal(7), "7");
    assert_eq!(to_decimal(10), "10");
    assert_eq!(to_decimal(1234567890), "1234567890");
    assert_eq!(to_decimal(usize::MAX), usize::MAX.to_string());
}

#[test]
fn status_bar_tells_name_lines_and_position() {
    let mut bar = StatusBar::new();
    bar.resize(Size { height: 1, width: 40 });
    bar.update_status(DocumentStatus {
        total_lines: 12,
        current_line_idx: 2,
        is_modified: true,
        file_name: "main.rs".to_string(),
    });
    assert_eq!(bar.text(), "main.rs - 12 lines (modified)       3/12");
    bar.resize(Size { height: 1, width: 20 });
    assert_eq!(bar.text(), "");
    assert_eq!(StatusBar::align_right("ab", 5), "   ab");
    assert_eq!(StatusBar::align_right("abcdef", 5), "abcdef");
    let commands = bar.render(7);
    assert!(matches!(commands[0], TerminalCommand::MoveCaretTo(Position { row: 7, col: 0 })));
    assert!(matches!(commands[2], TerminalCommand::Reverse));
}

#[test]
fn message_bar_keeps_the_last_message() {
    let mut bar = MessageBar::new();
    assert_eq!(bar.text(), "");
    bar.update_message("one");
    bar.update_message("two");
    assert_eq!(bar.text(), "two");
    assert_eq!(printed(&bar.render(2)), vec![(2, "two".to_string())]);
}

#[test]
fn command_bar_edits_its_answer() {
    let mut bar = CommandBar::new();
    bar.resize(Size { height: 1, width: 12 });
    bar.set_prompt("Name: ");
    bar.handle_edit_command(Edit::Insert('a'));
    bar.handle_edit_command(Edit::Insert('\u{4F60}'));
    bar.handle_edit_command(Edit::Insert('c'));
    bar.handle_edit_command(Edit::Delete);
    bar.handle_edit_command(Edit::InsertNewLine);
    assert_eq!(bar.value(), "a\u{4F60}c");
    assert_eq!(bar.caret_position_col(), 9);
    assert_eq!(bar.text(), "Name: a\u{4F60}c");
    bar.handle_edit_command(Edit::DeleteBackward);
    assert_eq!(bar.value(), "a\u{4F60}");
    for c in "0123456789".chars() {
        bar.handle_edit_command(Edit::Insert(c));
    }
    assert_eq!(bar.caret_position_col(), 12);
    assert_eq!(bar.text(), "Name: 456789");
    bar.clear_value();
    assert_eq!(bar.value(), "");
    bar.handle_edit_command(Edit::DeleteBackward);
    assert_eq!(bar.text(), "Name: ");
    assert_eq!(printed(&bar.render(1)), vec![(1, "Name: ".to_string())]);
}

#[test]
fn evaluate_event_takes_presses_and_resizes_only() {
    let mut editor = editor(24, 80);
    let plain = KeyModifiers { shift: false, control: false, alt: false, other: false };
    let key = |c, kind| Event::Key(KeyEvent { code: KeyCode::Char(c), modifiers: plain, kind });
    assert!(matches!(editor.evaluate_event(key('a', KeyEventKind::Press)), Action::Nothing));
    let _ = editor.evaluate_event(key('b', KeyEventKind::Release));
    let _ = editor.evaluate_event(key('c', KeyEventKind::Repeat));
    let _ = editor.evaluate_event(Event::Other);
    let _ = editor.evaluate_event(Event::Key(KeyEvent {
        code: KeyCode::Other,
        modifiers: plain,
        kind: KeyEventKind::Press,
    }));
    assert_eq!(editor.viewport().contents(), "a");
    let _ = editor.evaluate_event(Event::Resize(10, 3));
    let commands = editor.refresh_screen();
    assert!(commands.iter().any(
        |c| matches!(c, TerminalCommand::MoveCaretTo(Position { row: 2, col: 0 }))
    ));
}
