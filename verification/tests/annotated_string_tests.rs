use editor_core::annotated_string::{AnnotatedString, AnnotationType};

fn cells(text: &str) -> Vec<String> {
    text.chars().map(|c| c.to_string()).collect()
}

fn parts_of(s: &AnnotatedString) -> Vec<(String, Option<AnnotationType>)> {
    s.parts().into_iter().map(|p| (p.string, p.annotation_type)).collect()
}

#[test]
fn parts_without_annotations_are_one_plain_run() {
    let s = AnnotatedString::new(cells("hello"));
    assert_eq!(parts_of(&s), vec![("hello".to_string(), None)]);
}

#[test]
fn parts_of_empty_text_are_none() {
    let mut s = AnnotatedString::new(Vec::new());
    s.add_annotation(AnnotationType::Match, 0, 4);
    assert!(s.parts().is_empty());
    assert!(s.iter().next().is_none());
}

#[test]
fn parts_always_spell_the_text() {
    let mut s = AnnotatedString::new(cells("0123456789"));
    s.add_annotation(AnnotationType::Number, 0, 4);
    s.add_annotation(AnnotationType::Match, 2, 7);
    s.add_annotation(AnnotationType::SelectedMatch, 2, 30);
    s.add_annotation(AnnotationType::KeyWord, 8, 3);
    s.add_annotation(AnnotationType::Type, 40, 50);
    let joined: String = s.parts().into_iter().map(|p| p.string).collect();
    assert_eq!(joined, "0123456789");
    assert_eq!(s.text(), "0123456789");
}

#[test]
fn an_annotation_is_active_from_its_start() {
    let mut s = AnnotatedString::new(cells("ab12"));
    s.add_annotation(AnnotationType::Number, 2, 4);
    assert_eq!(
        parts_of(&s),
        vec![("ab".to_string(), None), ("12".to_string(), Some(AnnotationType::Number))]
    );
    let mut it = s.iter();
    assert_eq!(it.next().map(|p| (p.string, p.annotation_type)), Some(("ab".to_string(), None)));
    assert_eq!(
        it.next().map(|p| (p.string, p.annotation_type)),
        Some(("12".to_string(), Some(AnnotationType::Number)))
    );
    assert!(it.next().is_none());
}

#[test]
fn an_annotation_is_not_active_at_its_end() {
    let mut s = AnnotatedString::new(cells("abcdefgh"));
    s.add_annotation(AnnotationType::Number, 0, 3);
    s.add_annotation(AnnotationType::Match, 5, 6);
    assert_eq!(
        parts_of(&s),
        vec![
            ("abc".to_string(), Some(AnnotationType::Number)),
            ("de".to_string(), None),
            ("f".to_string(), Some(AnnotationType::Match)),
            ("gh".to_string(), None),
        ]
    );
}

#[test]
fn a_part_runs_to_the_end_of_its_annotation() {
    let mut s = AnnotatedString::new(cells("abcdefgh"));
    s.add_annotation(AnnotationType::Number, 0, 6);
    s.add_annotation(AnnotationType::Match, 3, 5);
    assert_eq!(
        parts_of(&s),
        vec![("abcdef".to_string(), Some(AnnotationType::Number)), ("gh".to_string(), None)]
    );
}

#[test]
fn of_two_active_annotations_the_later_start_wins() {
    let mut s = AnnotatedString::new(cells("abcdefghij"));
    s.add_annotation(AnnotationType::KeyWord, 0, 3);
    s.add_annotation(AnnotationType::Match, 1, 9);
    s.add_annotation(AnnotationType::Number, 2, 7);
    assert_eq!(
        parts_of(&s),
        vec![
            ("abc".to_string(), Some(AnnotationType::KeyWord)),
            ("defg".to_string(), Some(AnnotationType::Number)),
            ("hi".to_string(), Some(AnnotationType::Match)),
            ("j".to_string(), None),
        ]
    );
    let mut s = AnnotatedString::new(cells("abcdefghij"));
    s.add_annotation(AnnotationType::KeyWord, 1, 7);
    s.add_annotation(AnnotationType::Match, 0, 5);
    s.add_annotation(AnnotationType::Number, 4, 9);
    assert_eq!(
        parts_of(&s),
        vec![
            ("abcde".to_string(), Some(AnnotationType::Match)),
            ("fghi".to_string(), Some(AnnotationType::Number)),
            ("j".to_string(), None),
        ]
    );
}

#[test]
fn of_annotations_that_start_together_the_last_registered_wins() {
    let mut s = AnnotatedString::new(cells("    42"));
    s.add_annotation(AnnotationType::Number, 4, 6);
    s.add_annotation(AnnotationType::Match, 4, 6);
    s.add_annotation(AnnotationType::SelectedMatch, 4, 6);
    assert_eq!(
        parts_of(&s),
        vec![
            ("    ".to_string(), None),
            ("42".to_string(), Some(AnnotationType::SelectedMatch)),
        ]
    );
    let mut s = AnnotatedString::new(cells("abcdefgh"));
    s.add_annotation(AnnotationType::Number, 0, 3);
    s.add_annotation(AnnotationType::Match, 1, 6);
    s.add_annotation(AnnotationType::SelectedMatch, 1, 4);
    assert_eq!(
        parts_of(&s),
        vec![
            ("abc".to_string(), Some(AnnotationType::Number)),
            ("d".to_string(), Some(AnnotationType::SelectedMatch)),
            ("ef".to_string(), Some(AnnotationType::Match)),
            ("gh".to_string(), None),
        ]
    );
}

#[test]
fn an_annotation_past_the_end_is_cut_at_the_end() {
    let mut s = AnnotatedString::new(cells("abcd"));
    s.add_annotation(AnnotationType::Char, 2, 100);
    assert_eq!(
        parts_of(&s),
        vec![("ab".to_string(), None), ("cd".to_string(), Some(AnnotationType::Char))]
    );
    let mut s = AnnotatedString::new(cells("abcd"));
    s.add_annotation(AnnotationType::Type, 0, 100);
    s.add_annotation(AnnotationType::Char, 2, 3);
    assert_eq!(parts_of(&s), vec![("abcd".to_string(), Some(AnnotationType::Type))]);
}

#[test]
fn the_scan_can_start_over() {
    let mut s = AnnotatedString::new(cells("abcd"));
    s.add_annotation(AnnotationType::Match, 2, 4);
    let mut first = s.iter();
    let a = first.next().map(|p| p.string);
    let mut second = s.iter();
    let b = second.next().map(|p| p.string);
    assert_eq!(a, Some("ab".to_string()));
    assert_eq!(a, b);
    assert_eq!(first.current, 2);
    assert_eq!(first.next().map(|p| p.string), Some("cd".to_string()));
    assert!(first.next().is_none());
    assert_eq!(first.current, 4);
}

#[test]
fn text_between_joins_the_cells() {
    let s = AnnotatedString::new(vec!["e\u{301}".to_string(), "x".to_string(), "\u{4F60}".to_string()]);
    assert_eq!(s.cell_count(), 3);
    assert_eq!(s.text_between(1, 3), "x\u{4F60}");
    assert_eq!(s.text_between(2, 2), "");
}
