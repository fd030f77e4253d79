use editor_core::annotated_string::AnnotationType;
use editor_core::highlighter::{
    is_digit_char, is_numeric_literal, is_valid_number, number_annotations, Highlighter,
    RustSyntaxHighlighter,
};
use editor_core::line::Line;
use editor_core::position::Location;

fn kinds(annotations: &[editor_core::annotated_string::Annotation]) -> Vec<(AnnotationType, usize, usize)> {
    annotations.iter().map(|a| (a.annotation_type, a.start, a.end)).collect()
}

#[test]
fn decimal_numbers_are_valid() {
    for word in ["0", "7", "42", "1_000", "3.14", "1e5", "1E5", "2.5e10", "1_0.0_1e1_0"] {
        assert!(is_valid_number(word), "{word}");
    }
}

#[test]
fn malformed_numbers_are_not_valid() {
    for word in [
        "", "a", "_1", ".5", "1.", "1_", "1e", "1..2", "1.2.3", "1e5e6", "1e5.5", "1__0", "1._0",
        "1e_5", "12a", "0b", "0x", "1 2", "\u{664}", "1\u{301}",
    ] {
        assert!(!is_valid_number(word), "{word}");
    }
}

#[test]
fn literals_need_a_base_and_digits_of_that_base() {
    for word in ["0b101", "0B0", "0o17", "0O7", "0xff", "0XdeadBEEF", "0x0"] {
        assert!(is_numeric_literal(word), "{word}");
        assert!(is_valid_number(word), "{word}");
    }
    for word in ["", "0", "0b", "0x", "0b102", "0o8", "0xg", "1x1", "0y1", "x01", "0b1_0", "0\u{E9}"] {
        assert!(!is_numeric_literal(word), "{word}");
    }
    assert!(!is_numeric_literal("12"));
    assert!(is_valid_number("12"));
}

#[test]
fn digit_test_knows_ascii_digits_only() {
    assert!(is_digit_char('0'));
    assert!(is_digit_char('9'));
    assert!(!is_digit_char('a'));
    assert!(!is_digit_char('\u{664}'));
}

#[test]
fn highlighter_registers_digits_then_matches_then_the_selected_match() {
    let line = Line::from("ab 12 ab");
    let mut highlighter =
        Highlighter::new(Some("ab"), Some(Location { line_idx: 3, grapheme_idx: 6 }));
    assert!(highlighter.get_annotations(3).is_none());
    highlighter.highlight(3, &line);
    assert_eq!(
        kinds(highlighter.get_annotations(3).unwrap()),
        vec![
            (AnnotationType::Number, 3, 4),
            (AnnotationType::Number, 4, 5),
            (AnnotationType::Match, 0, 2),
            (AnnotationType::Match, 6, 8),
            (AnnotationType::SelectedMatch, 6, 8),
        ]
    );
    highlighter.highlight(4, &line);
    assert_eq!(
        kinds(highlighter.get_annotations(4).unwrap()),
        vec![
            (AnnotationType::Number, 3, 4),
            (AnnotationType::Number, 4, 5),
            (AnnotationType::Match, 0, 2),
            (AnnotationType::Match, 6, 8),
        ]
    );
    assert_eq!(highlighter.get_annotations(3).unwrap().len(), 5);
    assert!(highlighter.get_annotations(5).is_none());
}

#[test]
fn highlighter_without_a_word_marks_digits_only() {
    let line = Line::from("a1");
    let mut plain = Highlighter::new(None, Some(Location { line_idx: 0, grapheme_idx: 0 }));
    plain.highlight(0, &line);
    assert_eq!(kinds(plain.get_annotations(0).unwrap()), vec![(AnnotationType::Number, 1, 2)]);
    let mut empty = Highlighter::new(Some(""), Some(Location { line_idx: 0, grapheme_idx: 0 }));
    empty.highlight(0, &line);
    assert_eq!(kinds(empty.get_annotations(0).unwrap()), vec![(AnnotationType::Number, 1, 2)]);
}

#[test]
fn highlight_parts_can_be_used_alone() {
    let line = Line::from("x9");
    let mut result = Vec::new();
    Highlighter::highlight_digits(&line, &mut result);
    let h = Highlighter::new(Some("x"), Some(Location { line_idx: 1, grapheme_idx: usize::MAX }));
    h.highlight_match_words(&line, &mut result);
    h.highlight_selected_match(0, &mut result);
    h.highlight_selected_match(1, &mut result);
    assert_eq!(
        kinds(&result),
        vec![
            (AnnotationType::Number, 1, 2),
            (AnnotationType::Match, 0, 1),
            (AnnotationType::SelectedMatch, usize::MAX, usize::MAX),
        ]
    );
}

#[test]
fn syntax_highlighter_marks_numbers_between_word_boundaries() {
    let line = Line::from("let x = 42 + 0xff - 3.5e2; \u{4F60} 7");
    let mut highlighter = RustSyntaxHighlighter::new();
    assert!(highlighter.get_annotations(0).is_none());
    highlighter.highlight(0, &line);
    assert_eq!(
        kinds(highlighter.get_annotations(0).unwrap()),
        vec![
            (AnnotationType::Number, 8, 10),
            (AnnotationType::Number, 13, 17),
            (AnnotationType::Number, 20, 25),
            (AnnotationType::Number, 29, 30),
        ]
    );
    highlighter.highlight(0, &Line::from("none"));
    assert!(highlighter.get_annotations(0).unwrap().is_empty());
}

#[test]
fn number_annotations_count_clusters_not_bytes() {
    let line = Line::from("\u{4F60}1 22");
    let words = vec![
        (0usize, "\u{4F60}".to_string()),
        (3usize, "1".to_string()),
        (4usize, " ".to_string()),
        (5usize, "22".to_string()),
    ];
    assert_eq!(
        kinds(&number_annotations(&line, &words)),
        vec![(AnnotationType::Number, 1, 2), (AnnotationType::Number, 3, 5)]
    );
    assert_eq!(line.grapheme_index_at(0), 0);
    assert_eq!(line.grapheme_index_at(1), 1);
    assert_eq!(line.grapheme_index_at(3), 1);
    assert_eq!(line.grapheme_index_at(4), 2);
    assert_eq!(line.grapheme_index_at(100), 5);
}

#[test]
fn annotated_line_spells_the_raw_text() {
    let line = Line::from("a\u{7}b 12");
    let mut highlighter = Highlighter::new(Some("b 1"), None);
    highlighter.highlight(0, &line);
    let annotated = line.annotate(highlighter.get_annotations(0).unwrap());
    let joined: String = annotated.parts().into_iter().map(|p| p.string).collect();
    assert_eq!(joined, "a\u{7}b 12");
    assert_eq!(annotated.annotations().len(), 3);
}
