use editor_core::buffer::{Buffer, FileInfo, IoFailure};
use editor_core::line::Line;
use editor_core::position::Location;

fn at(line_idx: usize, grapheme_idx: usize) -> Location {
    Location { line_idx, grapheme_idx }
}

fn load(file_name: &str, contents: &str) -> Buffer {
    Buffer::load(file_name, Ok(contents)).unwrap()
}

fn lines_of(buffer: &Buffer) -> Vec<String> {
    (0..buffer.height()).map(|i| buffer.line(i).unwrap().raw_text().to_string()).collect()
}

#[test]
fn new_buffer_is_one_empty_line() {
    let buffer = Buffer::new();
    assert_eq!(buffer.height(), 1);
    assert!(buffer.is_empty());
    assert!(!buffer.is_dirty());
    assert!(!buffer.is_file_loaded());
    assert_eq!(buffer.file_name(), None);
    assert_eq!(lines_of(&buffer), vec![""]);
}

#[test]
fn load_splits_at_every_newline() {
    let buffer = load("a.rs", "fn main() {\n    42\n}");
    assert_eq!(lines_of(&buffer), vec!["fn main() {", "    42", "}"]);
    assert!(!buffer.is_dirty());
    assert!(buffer.is_file_loaded());
    assert_eq!(buffer.file_name(), Some("a.rs"));
    assert!(!buffer.is_empty());
    assert_eq!(lines_of(&load("x", "")), vec![""]);
    assert_eq!(lines_of(&load("x", "a\n")), vec!["a", ""]);
    assert_eq!(lines_of(&load("x", "\n\nb")), vec!["", "", "b"]);
}

#[test]
fn contents_joins_with_newlines_and_round_trips() {
    for text in ["", "a", "a\n", "\n", "one\ntwo\n\nfour", "\u{4F60}\n\u{597D}"] {
        let buffer = load("x", text);
        assert_eq!(buffer.contents(), text);
    }
}

#[test]
fn insert_char_changes_one_line_and_marks_dirty() {
    let mut buffer = load("x", "ab\ncd");
    buffer.insert_char('X', at(1, 1));
    assert_eq!(lines_of(&buffer), vec!["ab", "cXd"]);
    assert!(buffer.is_dirty());
}

#[test]
fn insert_char_out_of_range_changes_nothing() {
    let mut buffer = load("x", "ab\ncd");
    buffer.insert_char('X', at(2, 0));
    assert_eq!(lines_of(&buffer), vec!["ab", "cd"]);
    assert!(!buffer.is_dirty());
}

#[test]
fn insert_newline_splits_the_line() {
    let mut buffer = load("x", "hello world");
    buffer.insert_newline(at(0, 5));
    assert_eq!(lines_of(&buffer), vec!["hello", " world"]);
    assert!(buffer.is_dirty());
    buffer.insert_newline(at(1, 99));
    assert_eq!(lines_of(&buffer), vec!["hello", " world", ""]);
}

#[test]
fn insert_newline_in_empty_document_gives_two_empty_lines() {
    let mut buffer = Buffer::new();
    buffer.insert_newline(at(0, 0));
    assert_eq!(lines_of(&buffer), vec!["", ""]);
    assert_eq!(buffer.height(), 2);
    assert!(!buffer.is_empty());
}

#[test]
fn delete_removes_a_cluster_or_joins_lines() {
    let mut buffer = load("x", "ab\ncd\nef");
    buffer.delete(at(0, 0));
    assert_eq!(lines_of(&buffer), vec!["b", "cd", "ef"]);
    buffer.delete(at(0, 1));
    assert_eq!(lines_of(&buffer), vec!["bcd", "ef"]);
    assert!(buffer.is_dirty());
}

#[test]
fn delete_at_the_end_of_the_document_changes_nothing() {
    let mut buffer = load("x", "ab\ncd");
    buffer.delete(at(1, 2));
    assert_eq!(lines_of(&buffer), vec!["ab", "cd"]);
    assert!(!buffer.is_dirty());
    buffer.delete(at(7, 0));
    assert_eq!(lines_of(&buffer), vec!["ab", "cd"]);
    assert!(!buffer.is_dirty());
}

#[test]
fn insert_then_delete_restores_the_line() {
    let mut buffer = load("x", "fn main() {\n    42\n}");
    for loc in [at(0, 0), at(0, 11), at(1, 4), at(2, 1)] {
        buffer.insert_char('q', loc);
        buffer.delete(loc);
        assert_eq!(lines_of(&buffer), vec!["fn main() {", "    42", "}"]);
    }
}

#[test]
fn save_clears_the_dirty_flag_on_success() {
    let mut buffer = Buffer::new();
    buffer.insert_char('a', at(0, 0));
    assert!(buffer.is_dirty());
    assert_eq!(buffer.save(Ok(())), Err(IoFailure::NotFound));
    assert!(buffer.is_dirty());
    assert_eq!(buffer.save_as("new.txt", Err(IoFailure::PermissionDenied)), Err(IoFailure::PermissionDenied));
    assert!(buffer.is_dirty());
    assert!(!buffer.is_file_loaded());
    assert_eq!(buffer.save_as("new.txt", Ok(())), Ok(()));
    assert!(!buffer.is_dirty());
    assert_eq!(buffer.file_name(), Some("new.txt"));
    buffer.insert_char('b', at(0, 0));
    assert_eq!(buffer.save(Err(IoFailure::WriteFailure)), Err(IoFailure::WriteFailure));
    assert!(buffer.is_dirty());
    assert_eq!(buffer.save(Ok(())), Ok(()));
    assert!(!buffer.is_dirty());
    assert_eq!(lines_of(&buffer), vec!["ba"]);
}

#[test]
fn load_hands_a_failure_on() {
    assert!(matches!(Buffer::load("x", Err(IoFailure::NotFound)), Err(IoFailure::NotFound)));
    assert!(matches!(
        Buffer::load("x", Err(IoFailure::PermissionDenied)),
        Err(IoFailure::PermissionDenied)
    ));
}

#[test]
fn file_info_keeps_the_path() {
    assert!(!FileInfo::new().has_path());
    assert_eq!(FileInfo::new().get_path(), None);
    let info = FileInfo::from("dir/file.rs");
    assert!(info.has_path());
    assert_eq!(info.get_path(), Some("dir/file.rs"));
}

#[test]
fn counts_and_widths_of_missing_lines_are_zero() {
    let buffer = load("x", "a\u{4F60}b");
    assert_eq!(buffer.grapheme_count_at(0), 3);
    assert_eq!(buffer.grapheme_count_at(1), 0);
    assert_eq!(buffer.width_until(at(0, 2)), 3);
    assert_eq!(buffer.width_until(at(0, 9)), 4);
    assert_eq!(buffer.width_until(at(3, 2)), 0);
    assert!(buffer.line(1).is_none());
}

#[test]
fn search_forward_runs_to_the_end_and_wraps() {
    let buffer = load("x", "ab ab\nxx\nab");
    let query = Line::from("ab");
    assert_eq!(buffer.search_forward(&query, at(0, 0)), Some(at(0, 0)));
    assert_eq!(buffer.search_forward(&query, at(0, 1)), Some(at(0, 3)));
    assert_eq!(buffer.search_forward(&query, at(0, 4)), Some(at(2, 0)));
    assert_eq!(buffer.search_forward(&query, at(1, 0)), Some(at(2, 0)));
    assert_eq!(buffer.search_forward(&query, at(2, 1)), Some(at(0, 0)));
    assert_eq!(buffer.search_forward(&query, at(9, 9)), Some(at(0, 0)));
}

#[test]
fn search_forward_finds_a_single_match_from_anywhere() {
    let buffer = load("x", "fn main() {\n    42\n}");
    let query = Line::from("42");
    for line_idx in 0..4 {
        for grapheme_idx in 0..13 {
            assert_eq!(buffer.search_forward(&query, at(line_idx, grapheme_idx)), Some(at(1, 4)));
        }
    }
}

#[test]
fn search_finds_nothing_for_an_absent_or_empty_query() {
    let buffer = load("x", "ab ab\nxx\nab");
    assert_eq!(buffer.search_forward(&Line::from("zz"), at(0, 0)), None);
    assert_eq!(buffer.search_backward(&Line::from("zz"), at(0, 0)), None);
    assert_eq!(buffer.search_forward(&Line::from(""), at(0, 0)), None);
    assert_eq!(buffer.search_backward(&Line::from(""), at(1, 1)), None);
}

#[test]
fn search_backward_runs_to_the_start_and_wraps() {
    let buffer = load("x", "ab ab\nxx\nab");
    let query = Line::from("ab");
    assert_eq!(buffer.search_backward(&query, at(0, 5)), Some(at(0, 3)));
    assert_eq!(buffer.search_backward(&query, at(0, 3)), Some(at(0, 0)));
    assert_eq!(buffer.search_backward(&query, at(0, 0)), Some(at(2, 0)));
    assert_eq!(buffer.search_backward(&query, at(2, 0)), Some(at(0, 3)));
    assert_eq!(buffer.search_backward(&query, at(1, 2)), Some(at(0, 3)));
    assert_eq!(buffer.search_backward(&query, at(2, 1)), Some(at(0, 3)));
    assert_eq!(buffer.search_backward(&query, at(2, 2)), Some(at(2, 0)));
}
