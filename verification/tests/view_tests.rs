use editor_core::buffer::IoFailure;
use editor_core::command::{Direction, Edit, EditCommand, Move};
use editor_core::position::{Location, Position, Size};
use editor_core::terminal::TerminalCommand;
use editor_core::view::{SearchDirection, SearchError, View};

fn at(line_idx: usize, grapheme_idx: usize) -> Location {
    Location { line_idx, grapheme_idx }
}

fn pos(row: usize, col: usize) -> Position {
    Position { row, col }
}

fn view_of(text: &str, height: usize, width: usize) -> View {
    let mut view = View::new();
    view.resize(Size { height, width });
    assert!(view.load("file.rs", Ok(text)).is_ok());
    view
}

fn goto(view: &mut View, line_idx: usize, grapheme_idx: usize) {
    for _ in 0..line_idx {
        view.handle_move_command(Move::Down);
    }
    view.handle_move_command(Move::StartOfLine);
    for _ in 0..grapheme_idx {
        view.handle_move_command(Move::Right);
    }
    assert_eq!(view.text_location(), at(line_idx, grapheme_idx));
}

fn printed(commands: &[TerminalCommand]) -> Vec<String> {
    let mut rows: Vec<String> = Vec::new();
    for command in commands {
        match command {
            TerminalCommand::MoveCaretTo(_) => rows.push(String::new()),
            TerminalCommand::Print(text) => rows.last_mut().unwrap().push_str(text),
            _ => {}
        }
    }
    rows
}

#[test]
fn new_view_is_empty_and_wants_a_redraw() {
    let view = View::new();
    assert_eq!(view.text_location(), at(0, 0));
    assert_eq!(view.scroll_offset(), pos(0, 0));
    assert_eq!(view.caret_position(), pos(0, 0));
    assert!(view.needs_redraw());
    assert!(!view.is_file_loaded());
    assert_eq!(view.buffer().height(), 1);
}

#[test]
fn search_scenario_finds_the_match_and_centers_it() {
    let mut view = view_of("fn main() {\n    42\n}", 10, 80);
    goto(&mut view, 1, 4);
    view.enter_search();
    assert_eq!(view.search("42"), Some(at(1, 4)));
    assert_eq!(view.text_location(), at(1, 4));
    assert_eq!(view.scroll_offset(), pos(0, 0));
    assert_eq!(view.caret_position(), pos(1, 4));
}

#[test]
fn search_puts_a_far_match_at_the_middle_of_the_screen() {
    let mut text = String::new();
    for i in 0..100 {
        if i == 60 {
            text.push_str(&" ".repeat(200));
            text.push_str("needle");
        }
        text.push('\n');
    }
    let mut view = view_of(&text, 10, 80);
    view.enter_search();
    assert_eq!(view.search("needle"), Some(at(60, 200)));
    assert_eq!(view.scroll_offset(), pos(55, 160));
    assert_eq!(view.caret_position(), pos(5, 40));
    view.resize(Size { height: 9, width: 7 });
    assert_eq!(view.search_next(), Some(at(60, 200)));
    assert_eq!(view.caret_position(), pos(5, 4));
}

#[test]
fn search_next_wraps_around_to_a_single_match() {
    let mut view = view_of("fn main() {\n    42\n}", 10, 80);
    view.enter_search();
    view.update_query("42");
    assert_eq!(view.search_next(), Some(at(1, 4)));
    assert_eq!(view.search_next(), Some(at(1, 4)));
    assert_eq!(view.text_location(), at(1, 4));
    assert_eq!(view.search_prev(), Some(at(1, 4)));
}

#[test]
fn search_next_steps_one_cluster_past_the_cursor() {
    let mut view = view_of("aaa\nb", 10, 80);
    view.enter_search();
    assert_eq!(view.search("aa"), Some(at(0, 0)));
    assert_eq!(view.search_next(), Some(at(0, 1)));
    assert_eq!(view.search_next(), Some(at(0, 0)));
}

#[test]
fn search_prev_goes_to_the_match_before_the_cursor() {
    let mut view = view_of("ab ab\nxx\nab", 10, 80);
    view.enter_search();
    assert_eq!(view.search("ab"), Some(at(0, 0)));
    assert_eq!(view.search_prev(), Some(at(2, 0)));
    assert_eq!(view.search_prev(), Some(at(0, 3)));
    assert_eq!(view.search_prev(), Some(at(0, 0)));
}

#[test]
fn failed_search_changes_nothing() {
    let mut view = view_of("abc\ndef", 10, 80);
    goto(&mut view, 1, 2);
    view.enter_search();
    let _ = view.render(0, "ed", "1");
    assert_eq!(view.search_in_direction(at(0, 0), SearchDirection::Forward), None);
    assert!(!view.needs_redraw());
    assert_eq!(view.search("zzz"), None);
    assert_eq!(view.text_location(), at(1, 2));
    assert_eq!(view.scroll_offset(), pos(0, 0));
    assert_eq!(view.search(""), None);
    assert_eq!(view.text_location(), at(1, 2));
    assert_eq!(view.search_next(), None);
    assert_eq!(view.search_prev(), None);
}

#[test]
fn search_without_a_session_finds_nothing() {
    let mut view = view_of("abc abc", 10, 80);
    assert_eq!(view.search("abc"), None);
    assert_eq!(view.get_search_query().err(), Some(SearchError::MalformedSearchState));
    view.enter_search();
    assert_eq!(view.get_search_query().err(), Some(SearchError::MalformedSearchState));
    view.update_query("abc");
    assert_eq!(view.get_search_query().map(|q| q.raw_text().to_string()), Ok("abc".to_string()));
    view.exit_search();
    assert_eq!(view.search_next(), None);
    assert_eq!(view.text_location(), at(0, 0));
}

#[test]
fn dismissing_a_search_restores_cursor_and_offset() {
    let mut text = String::from("start\n");
    text.push_str(&"\n".repeat(50));
    text.push_str("target");
    let mut view = view_of(&text, 10, 80);
    goto(&mut view, 0, 3);
    view.enter_search();
    assert_eq!(view.search("target"), Some(at(51, 0)));
    assert_eq!(view.scroll_offset(), pos(46, 0));
    view.dismiss_search();
    assert_eq!(view.text_location(), at(0, 3));
    assert_eq!(view.scroll_offset(), pos(0, 0));
    assert!(view.get_search_query().is_err());
    assert!(view.needs_redraw());
}

#[test]
fn confirming_a_search_keeps_the_cursor() {
    let mut view = view_of("one\ntwo\nthree", 10, 80);
    view.enter_search();
    assert_eq!(view.search("three"), Some(at(2, 0)));
    view.exit(true);
    assert_eq!(view.text_location(), at(2, 0));
    assert!(view.get_search_query().is_err());
    view.enter_search();
    assert_eq!(view.search("one"), Some(at(0, 0)));
    view.exit(false);
    assert_eq!(view.text_location(), at(2, 0));
}

#[test]
fn move_right_wraps_to_the_next_line() {
    let mut view = View::new();
    view.resize(Size { height: 10, width: 80 });
    view.handle_edit_command(Edit::InsertNewLine);
    assert_eq!(view.buffer().height(), 2);
    assert_eq!(view.text_location(), at(1, 0));
    view.handle_move_command(Move::Up);
    assert_eq!(view.text_location(), at(0, 0));
    view.handle_move_command(Move::Right);
    assert_eq!(view.text_location(), at(1, 0));
    view.handle_move_command(Move::Right);
    assert_eq!(view.text_location(), at(1, 0));
}

#[test]
fn move_left_wraps_to_the_end_of_the_line_above() {
    let mut view = view_of("abc\nde", 10, 80);
    view.handle_move_command(Move::Left);
    assert_eq!(view.text_location(), at(0, 0));
    goto(&mut view, 1, 0);
    view.handle_move_command(Move::Left);
    assert_eq!(view.text_location(), at(0, 3));
}

#[test]
fn vertical_moves_clamp_the_cursor_to_the_document() {
    let mut view = view_of("long line here\nab\n\nxyz", 3, 80);
    goto(&mut view, 0, 9);
    view.handle_move_command(Move::Down);
    assert_eq!(view.text_location(), at(1, 2));
    view.handle_move_command(Move::PageDown);
    assert_eq!(view.text_location(), at(3, 2));
    view.handle_move_command(Move::Down);
    assert_eq!(view.text_location(), at(3, 2));
    view.handle_move_command(Move::EndOfLine);
    assert_eq!(view.text_location(), at(3, 3));
    view.handle_move_command(Move::PageUp);
    assert_eq!(view.text_location(), at(1, 2));
    view.handle_move_command(Move::Up);
    view.handle_move_command(Move::Up);
    assert_eq!(view.text_location(), at(0, 2));
    view.handle_move_command(Move::EndOfLine);
    assert_eq!(view.text_location(), at(0, 14));
    view.handle_move_command(Move::StartOfLine);
    assert_eq!(view.text_location(), at(0, 0));
}

#[test]
fn scrolling_keeps_the_cursor_on_the_screen() {
    let text = "x\n".repeat(30);
    let mut view = view_of(&text, 5, 10);
    for expected_row in 1..=20 {
        view.handle_move_command(Move::Down);
        let caret = view.caret_position();
        assert!(caret.row < 5);
        assert_eq!(view.text_location().line_idx, expected_row);
    }
    assert_eq!(view.scroll_offset(), pos(16, 0));
    assert_eq!(view.caret_position(), pos(4, 0));
    for _ in 0..18 {
        view.handle_move_command(Move::Up);
    }
    assert_eq!(view.scroll_offset(), pos(2, 0));
    assert_eq!(view.caret_position(), pos(0, 0));
}

#[test]
fn horizontal_scrolling_counts_columns() {
    let mut view = view_of("\u{4F60}\u{597D}\u{4F60}\u{597D}\u{4F60}\u{597D}", 5, 4);
    for _ in 0..3 {
        view.handle_move_command(Move::Right);
    }
    assert_eq!(view.text_location(), at(0, 3));
    assert_eq!(view.scroll_offset(), pos(0, 3));
    assert_eq!(view.caret_position(), pos(0, 3));
    view.scroll_horizontally(0);
    assert_eq!(view.scroll_offset(), pos(0, 0));
    view.scroll_vertically(9);
    assert_eq!(view.scroll_offset(), pos(5, 0));
}

#[test]
fn resize_scrolls_the_cursor_back_into_view() {
    let text = "x\n".repeat(30);
    let mut view = view_of(&text, 20, 10);
    for _ in 0..15 {
        view.handle_move_command(Move::Down);
    }
    assert_eq!(view.scroll_offset(), pos(0, 0));
    view.resize(Size { height: 4, width: 10 });
    assert_eq!(view.scroll_offset(), pos(12, 0));
    assert_eq!(view.caret_position(), pos(3, 0));
    assert!(view.needs_redraw());
}

#[test]
fn zero_size_keeps_the_coordinates_valid() {
    let mut view = view_of("abc\ndef", 0, 0);
    view.handle_move_command(Move::Down);
    view.handle_move_command(Move::Right);
    assert_eq!(view.text_location(), at(1, 1));
    assert!(view.render(0, "ed", "1").is_empty());
    assert!(view.needs_redraw());
    view.resize(Size { height: 0, width: 5 });
    assert!(view.render(0, "ed", "1").is_empty());
}

#[test]
fn insert_char_moves_the_cursor_on() {
    let mut view = View::new();
    view.resize(Size { height: 10, width: 80 });
    view.handle_edit_command(Edit::Insert('h'));
    view.handle_edit_command(Edit::Insert('i'));
    assert_eq!(view.contents(), "hi");
    assert_eq!(view.text_location(), at(0, 2));
    view.handle_edit_command(Edit::Insert('\u{301}'));
    assert_eq!(view.text_location(), at(0, 2));
    assert_eq!(view.contents(), "hi\u{301}");
    assert!(view.get_status().is_modified);
}

#[test]
fn delete_backward_joins_lines_at_the_start_of_a_line() {
    let mut view = view_of("ab\ncd", 10, 80);
    view.handle_edit_command(Edit::DeleteBackward);
    assert_eq!(view.contents(), "ab\ncd");
    goto(&mut view, 1, 0);
    view.handle_edit_command(Edit::DeleteBackward);
    assert_eq!(view.contents(), "abcd");
    assert_eq!(view.text_location(), at(0, 2));
    view.handle_edit_command(Edit::DeleteBackward);
    assert_eq!(view.contents(), "acd");
    view.handle_edit_command(Edit::Delete);
    assert_eq!(view.contents(), "ad");
}

#[test]
fn handle_command_takes_flat_commands() {
    let mut view = View::new();
    view.handle_command(EditCommand::Resize(Size { height: 5, width: 20 }));
    view.handle_command(EditCommand::Insert('a'));
    view.handle_command(EditCommand::Enter);
    view.handle_command(EditCommand::Insert('b'));
    view.handle_command(EditCommand::Insert('c'));
    view.handle_command(EditCommand::Backspace);
    view.handle_command(EditCommand::Move(Direction::Home));
    view.handle_command(EditCommand::Delete);
    view.handle_command(EditCommand::Quit);
    view.handle_command(EditCommand::Save);
    assert_eq!(view.contents(), "a\n");
    view.handle_command(EditCommand::Move(Direction::Up));
    view.move_text_location(&Direction::End);
    assert_eq!(view.text_location(), at(0, 1));
    assert_eq!(view.get_position(), pos(0, 1));
}

#[test]
fn load_failure_leaves_the_document() {
    let mut view = view_of("keep", 10, 80);
    assert_eq!(view.load("other", Err(IoFailure::NotFound)), Err(IoFailure::NotFound));
    assert_eq!(view.contents(), "keep");
    assert_eq!(view.get_status().file_name, "file.rs");
    assert_eq!(view.load("other", Err(IoFailure::PermissionDenied)), Err(IoFailure::PermissionDenied));
}

#[test]
fn save_clears_the_dirty_flag_only_on_success() {
    let mut view = view_of("text", 10, 80);
    view.handle_edit_command(Edit::Insert('!'));
    assert!(view.get_status().is_modified);
    assert_eq!(view.save(Err(IoFailure::WriteFailure)), Err(IoFailure::WriteFailure));
    assert!(view.get_status().is_modified);
    assert_eq!(view.save(Ok(())), Ok(()));
    assert!(!view.get_status().is_modified);
}

#[test]
fn save_without_a_file_fails() {
    let mut view = View::new();
    view.handle_edit_command(Edit::Insert('!'));
    assert_eq!(view.save(Ok(())), Err(IoFailure::NotFound));
    assert!(view.get_status().is_modified);
    assert_eq!(view.save_as("n.txt", Err(IoFailure::PermissionDenied)), Err(IoFailure::PermissionDenied));
    assert!(!view.is_file_loaded());
    assert_eq!(view.save_as("n.txt", Ok(())), Ok(()));
    assert!(view.is_file_loaded());
    assert!(!view.get_status().is_modified);
    assert_eq!(view.get_status().file_name, "n.txt");
}

#[test]
fn status_tells_lines_cursor_and_name() {
    let mut view = View::new();
    let status = view.get_status();
    assert_eq!(status.total_lines, 1);
    assert_eq!(status.current_line_idx, 0);
    assert_eq!(status.file_name, "[No Name]");
    assert!(!status.is_modified);
    assert!(view.load("a.txt", Ok("1\n2\n3")).is_ok());
    view.handle_move_command(Move::Down);
    let status = view.get_status();
    assert_eq!(status.total_lines, 3);
    assert_eq!(status.current_line_idx, 1);
    assert_eq!(status.file_name, "a.txt");
}

#[test]
fn welcome_message_is_centered_after_a_tilde() {
    assert_eq!(View::build_welcome_message(0, "ed", "1.0"), "");
    assert_eq!(View::build_welcome_message(5, "ed", "1.0"), "~");
    let message = View::build_welcome_message(30, "ed", "1.0");
    assert_eq!(message, "~  ed Editor -- version 1.0   ");
    assert_eq!(message.len(), 30);
    assert_eq!(View::build_welcome_message(25, "ed", "1.0"), "~ed Editor -- version 1.0");
    assert_eq!(View::build_welcome_message(24, "ed", "1.0"), "~");
}

#[test]
fn render_draws_every_row_once() {
    let mut view = view_of("abc\ndefgh", 4, 3);
    let commands = view.render(0, "ed", "1");
    assert_eq!(printed(&commands), vec!["abc", "def", "~", "~"]);
    assert!(!view.needs_redraw());
    assert!(view.render(0, "ed", "1").is_empty());
    view.set_needs_redraw(true);
    let commands = view.render(2, "ed", "1");
    assert_eq!(printed(&commands), vec!["abc", "def", "~", "~"]);
    assert!(matches!(commands[0], TerminalCommand::MoveCaretTo(Position { row: 2, col: 0 })));
}

#[test]
fn render_shows_the_welcome_message_for_a_blank_document() {
    let mut view = View::new();
    view.resize(Size { height: 6, width: 40 });
    let rows = printed(&view.render(0, "ed", "1.0"));
    assert_eq!(rows.len(), 6);
    assert_eq!(rows[0], "");
    assert_eq!(rows[1], "~");
    assert_eq!(rows[2], View::build_welcome_message(40, "ed", "1.0"));
    assert_eq!(rows[3], "~");
}

#[test]
fn render_follows_the_scroll_offset() {
    let mut view = view_of("0123456789\nabcdefghij\nABCDEFGHIJ", 2, 4);
    goto(&mut view, 2, 6);
    assert_eq!(view.scroll_offset(), pos(1, 3));
    let rows = printed(&view.render(0, "ed", "1"));
    assert_eq!(rows, vec!["defg", "DEFG"]);
}

#[test]
fn render_highlights_matches_and_selects_the_one_under_the_cursor() {
    let mut view = view_of("42 and 42", 1, 20);
    view.enter_search();
    assert_eq!(view.search("42"), Some(at(0, 0)));
    let commands = view.render(0, "ed", "1");
    let shown: Vec<String> = commands
        .iter()
        .map(|c| match c {
            TerminalCommand::Print(t) => format!("print {t}"),
            TerminalCommand::SetBackgroundColor(c) => format!("bg {} {} {}", c.r, c.g, c.b),
            TerminalCommand::SetForegroundColor(_) => "fg".to_string(),
            TerminalCommand::ResetColor => "reset".to_string(),
            _ => String::new(),
        })
        .filter(|s| !s.is_empty())
        .collect();
    assert_eq!(
        shown,
        vec![
            "fg",
            "bg 255 255 153",
            "print 42",
            "reset",
            "print  and ",
            "reset",
            "fg",
            "bg 211 211 211",
            "print 42",
            "reset",
        ]
    );
}

#[test]
fn edits_leave_the_cursor_inside_its_line() {
    let mut view = view_of("ab\u{1100}", 5, 20);
    goto(&mut view, 0, 3);
    view.handle_edit_command(Edit::Insert('\u{1161}'));
    let count = view.buffer().grapheme_count_at(0);
    assert_eq!(count, 3);
    assert_eq!(view.text_location(), at(0, 3));
    assert!(view.text_location().grapheme_idx <= count);
    view.handle_edit_command(Edit::Delete);
    assert_eq!(view.text_location(), at(0, 3));
    view.handle_edit_command(Edit::DeleteBackward);
    assert_eq!(view.contents(), "ab");
    assert_eq!(view.text_location(), at(0, 2));
}

fn below_a_shorter_document() -> View {
    let mut view = View::new();
    view.resize(Size { height: 10, width: 80 });
    view.handle_edit_command(Edit::InsertNewLine);
    view.handle_edit_command(Edit::InsertNewLine);
    assert_eq!(view.text_location(), at(2, 0));
    assert!(view.load("short.txt", Ok("ab\ncde")).is_ok());
    assert_eq!(view.text_location(), at(2, 0));
    assert_eq!(view.buffer().height(), 2);
    view
}

#[test]
fn move_left_after_loading_a_shorter_document_goes_to_the_end_of_the_last_line() {
    let mut view = below_a_shorter_document();
    view.handle_move_command(Move::Left);
    assert_eq!(view.text_location(), at(1, 3));
    view.handle_move_command(Move::Left);
    assert_eq!(view.text_location(), at(1, 2));
}

#[test]
fn moves_after_loading_a_shorter_document_end_inside_the_document() {
    let mut view = below_a_shorter_document();
    view.handle_move_command(Move::Right);
    assert_eq!(view.text_location(), at(1, 0));
    let mut view = below_a_shorter_document();
    view.handle_move_command(Move::EndOfLine);
    assert_eq!(view.text_location(), at(1, 0));
    let mut view = below_a_shorter_document();
    view.handle_move_command(Move::StartOfLine);
    assert_eq!(view.text_location(), at(1, 0));
    let mut view = below_a_shorter_document();
    view.handle_move_command(Move::Up);
    assert_eq!(view.text_location(), at(1, 0));
    let mut view = below_a_shorter_document();
    view.handle_move_command(Move::Down);
    assert_eq!(view.text_location(), at(1, 0));
    let mut view = below_a_shorter_document();
    view.handle_move_command(Move::PageUp);
    assert_eq!(view.text_location(), at(0, 0));
}

#[test]
fn move_right_at_the_end_of_the_document_stays() {
    let mut view = view_of("ab\ncd", 10, 80);
    goto(&mut view, 1, 2);
    view.handle_move_command(Move::Right);
    assert_eq!(view.text_location(), at(1, 2));
    let mut view = view_of("ab\ncd", 10, 80);
    goto(&mut view, 0, 2);
    view.handle_move_command(Move::Right);
    assert_eq!(view.text_location(), at(1, 0));
}
