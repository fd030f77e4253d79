//! Annotations for the lines of a document: the matches of a search, and a
//! minimal classification of numbers.
use vstd::prelude::*;
use vstd::std_specs::hash::*;
use vstd::string::StrSliceExecFns;
use std::collections::HashMap;
use crate::annotated_string::{Annotation, AnnotationType};
use crate::line::{
    count_of, find_all_of, fragment_models, fragments_of, grapheme_index_of, Line, TextFragment,
};
use crate::position::{plus, saturating_add, Location};
use crate::segmentation::{grapheme_split, word_bound_indices, word_split};
use crate::text::utf8_len;

verus! {

broadcast use group_hash_axioms;

/// The ten ASCII digits.
pub open spec fn is_ascii_digit(c: char) -> bool {
    '0' <= c <= '9'
}

/// Whether `c` is one of the ten ASCII digits.
pub fn is_digit_char(c: char) -> (r: bool)
    ensures
        r == is_ascii_digit(c),
{
    '0' <= c && c <= '9'
}

/// Whether `c` is a digit in base 2, 8 or 16.
pub open spec fn is_digit_in(c: char, base: u32) -> bool {
    if base == 2 {
        c == '0' || c == '1'
    } else if base == 8 {
        '0' <= c <= '7'
    } else {
        is_ascii_digit(c) || ('a' <= c <= 'f') || ('A' <= c <= 'F')
    }
}

/// The base that the second character of a literal announces.
pub open spec fn base_of(c: char) -> Option<u32> {
    if c == 'b' || c == 'B' {
        Some(2u32)
    } else if c == 'o' || c == 'O' {
        Some(8u32)
    } else if c == 'x' || c == 'X' {
        Some(16u32)
    } else {
        None
    }
}

/// A literal in base 2, 8 or 16: a zero, the letter of the base, and at
/// least one digit of that base, and nothing else.
pub open spec fn is_literal(word: Seq<char>) -> bool {
    &&& word.len() >= 3
    &&& word[0] == '0'
    &&& base_of(word[1]) is Some
    &&& forall|i: int| 2 <= i < word.len() ==> is_digit_in(#[trigger] word[i], base_of(word[1])->0)
}

/// A character that may stand between the digits of a decimal number.
pub open spec fn is_separator(c: char) -> bool {
    c == '_' || c == '.' || c == 'e' || c == 'E'
}

/// The exponent mark of a decimal number.
pub open spec fn is_exponent(c: char) -> bool {
    c == 'e' || c == 'E'
}

/// A decimal number: it begins and ends with a digit; between digits may
/// stand an underscore, a point or an exponent mark, each directly after
/// a digit; there is at most one point and at most one exponent mark, and
/// no point after the exponent mark.
pub open spec fn is_decimal(word: Seq<char>) -> bool {
    &&& word.len() > 0
    &&& is_ascii_digit(word[0])
    &&& is_ascii_digit(word[word.len() - 1])
    &&& forall|i: int|
        0 < i < word.len() ==> is_ascii_digit(#[trigger] word[i]) || (is_separator(word[i])
            && is_ascii_digit(word[i - 1]))
    &&& forall|i: int, j: int|
        0 <= i < j < word.len() ==> !(#[trigger] word[i] == '.' && #[trigger] word[j] == '.')
    &&& forall|i: int, j: int|
        0 <= i < j < word.len() ==> !(is_exponent(#[trigger] word[i]) && is_exponent(
            #[trigger] word[j],
        ))
    &&& forall|i: int, j: int|
        0 <= i < j < word.len() ==> !(is_exponent(#[trigger] word[i]) && #[trigger] word[j] == '.')
}

/// A number: a literal in base 2, 8 or 16, or a decimal number.
pub open spec fn is_number(word: Seq<char>) -> bool {
    is_literal(word) || is_decimal(word)
}

/// Whether `word` is a literal in base 2, 8 or 16.
pub fn is_numeric_literal(word: &str) -> (r: bool)
    ensures
        r == is_literal(word@),
{
    let mut base: u32 = 0;
    let mut n: usize = 0;
    for c in it: word.chars()
        invariant
            it.seq() == word@,
            n == if it.index() < 3 {
                it.index()
            } else {
                3
            },
            it.index() >= 1 ==> word@[0] == '0',
            it.index() >= 2 ==> base_of(word@[1]) == Some(base),
            forall|i: int| 2 <= i < it.index() ==> is_digit_in(#[trigger] word@[i], base),
    {
        if n == 0 {
            if c != '0' {
                return false;
            }
            n = 1;
        } else if n == 1 {
            if c == 'b' || c == 'B' {
                base = 2;
            } else if c == 'o' || c == 'O' {
                base = 8;
            } else if c == 'x' || c == 'X' {
                base = 16;
            } else {
                return false;
            }
            n = 2;
        } else {
            let fits: bool = if base == 2 {
                c == '0' || c == '1'
            } else if base == 8 {
                '0' <= c && c <= '7'
            } else {
                is_digit_char(c) || ('a' <= c && c <= 'f') || ('A' <= c && c <= 'F')
            };
            if !fits {
                return false;
            }
            n = 3;
        }
    }
    n == 3
}

/// Whether `word` is a number: a literal in base 2, 8 or 16, or a decimal
/// number.
pub fn is_valid_number(word: &str) -> (r: bool)
    ensures
        r == is_number(word@),
{
    if word.is_empty() {
        return false;
    }
    if is_numeric_literal(word) {
        return true;
    }
    let mut seen_dot: bool = false;
    let mut seen_e: bool = false;
    let mut prev_was_digit: bool = true;
    let mut first: bool = true;
    for c in it: word.chars()
        invariant
            it.seq() == word@,
            word@.len() > 0,
            !is_literal(word@),
            first == (it.index() == 0),
            it.index() == 0 ==> prev_was_digit,
            it.index() > 0 ==> is_ascii_digit(word@[0]),
            it.index() > 0 ==> prev_was_digit == is_ascii_digit(word@[it.index() - 1]),
            seen_dot == exists|i: int| 0 <= i < it.index() && #[trigger] word@[i] == '.',
            seen_e == exists|i: int| 0 <= i < it.index() && is_exponent(#[trigger] word@[i]),
            forall|i: int|
                0 < i < it.index() ==> is_ascii_digit(#[trigger] word@[i]) || (is_separator(
                    word@[i],
                ) && is_ascii_digit(word@[i - 1])),
            forall|i: int, j: int|
                0 <= i < j < it.index() ==> !(#[trigger] word@[i] == '.' && #[trigger] word@[j]
                    == '.'),
            forall|i: int, j: int|
                0 <= i < j < it.index() ==> !(is_exponent(#[trigger] word@[i]) && is_exponent(
                    #[trigger] word@[j],
                )),
            forall|i: int, j: int|
                0 <= i < j < it.index() ==> !(is_exponent(#[trigger] word@[i]) && #[trigger] word@[j]
                    == '.'),
    {
        let ghost k = it.index() as int;
        assert(word@[k] == c);
        if first {
            if !is_digit_char(c) {
                return false;
            }
            first = false;
        } else if is_digit_char(c) {
            prev_was_digit = true;
        } else if c == '_' {
            if !prev_was_digit {
                return false;
            }
            prev_was_digit = false;
        } else if c == '.' {
            if seen_dot || seen_e || !prev_was_digit {
                proof {
                    if seen_dot {
                        let i = choose|i: int| 0 <= i < k && #[trigger] word@[i] == '.';
                        assert(word@[i] == '.' && word@[k] == '.');
                    } else if seen_e {
                        let i = choose|i: int| 0 <= i < k && is_exponent(#[trigger] word@[i]);
                        assert(is_exponent(word@[i]) && word@[k] == '.');
                    }
                }
                return false;
            }
            seen_dot = true;
            prev_was_digit = false;
        } else if c == 'e' || c == 'E' {
            if seen_e || !prev_was_digit {
                proof {
                    if seen_e {
                        let i = choose|i: int| 0 <= i < k && is_exponent(#[trigger] word@[i]);
                        assert(is_exponent(word@[i]) && is_exponent(word@[k]));
                    }
                }
                return false;
            }
            seen_e = true;
            prev_was_digit = false;
        } else {
            return false;
        }
    }
    prev_was_digit
}

/// One annotation of kind `Number` for every cluster among the first `n`
/// that begins with an ASCII digit.
pub open spec fn digit_annotations(clusters: Seq<Seq<char>>, n: int) -> Seq<Annotation>
    decreases n,
{
    if n <= 0 {
        Seq::empty()
    } else {
        let earlier = digit_annotations(clusters, n - 1);
        if clusters[n - 1].len() > 0 && is_ascii_digit(clusters[n - 1][0]) {
            earlier.push(
                Annotation {
                    annotation_type: AnnotationType::Number,
                    start: (n - 1) as usize,
                    end: n as usize,
                },
            )
        } else {
            earlier
        }
    }
}

/// One annotation of kind `Match` for every occurrence.
pub open spec fn match_annotations(found: Seq<(usize, usize)>) -> Seq<Annotation> {
    Seq::new(
        found.len(),
        |i: int|
            Annotation {
                annotation_type: AnnotationType::Match,
                start: found[i].0,
                end: found[i].1,
            },
    )
}

/// The annotations for the occurrences of `word` in `text`; none without
/// a word, nor for a word without characters.
pub open spec fn word_annotations(text: Seq<char>, word: Option<Seq<char>>) -> Seq<Annotation> {
    match word {
        Some(w) => if w.len() > 0 {
            match_annotations(find_all_of(text, w, 0, utf8_len(text) as int))
        } else {
            Seq::empty()
        },
        None => Seq::empty(),
    }
}

/// The annotation for the selected match in line `idx`: as many clusters
/// as the word has, from the selected place on. None where the selected
/// match is in another line, without a word, or for a word without
/// characters.
pub open spec fn selected_annotations(
    idx: usize,
    word: Option<Seq<char>>,
    selected: Option<Location>,
) -> Seq<Annotation> {
    match (selected, word) {
        (Some(at), Some(w)) => if at.line_idx == idx && w.len() > 0 {
            seq![
                Annotation {
                    annotation_type: AnnotationType::SelectedMatch,
                    start: at.grapheme_idx,
                    end: plus(at.grapheme_idx, count_of(w) as usize),
                },
            ]
        } else {
            Seq::empty()
        },
        _ => Seq::empty(),
    }
}

/// The annotations of line `idx` with raw text `text`: the digits first,
/// after them the matches, and last the selected match.
pub open spec fn highlight_of(
    text: Seq<char>,
    idx: usize,
    word: Option<Seq<char>>,
    selected: Option<Location>,
) -> Seq<Annotation> {
    digit_annotations(grapheme_split(text), count_of(text) as int) + word_annotations(text, word)
        + selected_annotations(idx, word, selected)
}

/// The annotations of the lines of a document for a search: digits,
/// matches and the selected match.
pub struct Highlighter<'a> {
    matched_word: Option<&'a str>,
    selected_match: Option<Location>,
    highlights: HashMap<usize, Vec<Annotation>>,
}

impl<'a> Highlighter<'a> {
    /// The word that is sought.
    pub closed spec fn word(&self) -> Option<Seq<char>> {
        match self.matched_word {
            Some(w) => Some(w@),
            None => None,
        }
    }

    /// The place of the selected match.
    pub closed spec fn selected(&self) -> Option<Location> {
        self.selected_match
    }

    /// The lines that have been highlighted.
    pub closed spec fn lines(&self) -> Set<usize> {
        self.highlights@.dom()
    }

    /// The annotations of a line that has been highlighted.
    pub closed spec fn annotations(&self, idx: usize) -> Seq<Annotation> {
        self.highlights@[idx]@
    }

    /// A highlighter for a word and a selected match, with no line
    /// highlighted yet.
    pub fn new(matched_word: Option<&'a str>, selected_match: Option<Location>) -> (h: Self)
        ensures
            h.word() == match matched_word {
                Some(w) => Some(w@),
                None => None,
            },
            h.selected() == selected_match,
            h.lines() == Set::<usize>::empty(),
    {
        Self { matched_word, selected_match, highlights: HashMap::new() }
    }

    /// The annotations of line `idx`, if it has been highlighted.
    pub fn get_annotations(&self, idx: usize) -> (r: Option<&Vec<Annotation>>)
        ensures
            match r {
                Some(annotations) => self.lines().contains(idx) && annotations@
                    == self.annotations(idx),
                None => !self.lines().contains(idx),
            },
    {
        self.highlights.get(&idx)
    }

    /// One annotation of kind `Number` for every fragment of `line` that
    /// begins with an ASCII digit, pushed onto `result`.
    pub fn highlight_digits(line: &Line, result: &mut Vec<Annotation>)
        requires
            line.wf(),
        ensures
            final(result)@ == old(result)@ + digit_annotations(
                grapheme_split(line@),
                count_of(line@) as int,
            ),
    {
        let ghost clusters = grapheme_split(line@);
        let fragments: &Vec<TextFragment> = line.fragments();
        proof {
            line.lemma_wf();
            assert(fragments@.len() == fragment_models(fragments@).len());
            assert(old(result)@ + Seq::<Annotation>::empty() =~= old(result)@);
        }
        let mut i: usize = 0;
        while i < fragments.len()
            invariant
                clusters == grapheme_split(line@),
                fragment_models(fragments@) == fragments_of(line@),
                fragments.len() == clusters.len(),
                0 <= i <= fragments.len(),
                result@ == old(result)@ + digit_annotations(clusters, i as int),
            decreases fragments.len() - i,
        {
            assert(fragments[i as int]@ == fragment_models(fragments@)[i as int]);
            let text: &str = fragments[i].grapheme.as_str();
            if !text.is_empty() && is_digit_char(text.get_char(0)) {
                result.push(
                    Annotation { annotation_type: AnnotationType::Number, start: i, end: i + 1 },
                );
            }
            assert(result@ =~= old(result)@ + digit_annotations(clusters, i + 1));
            i = i + 1;
        }
    }

    /// One annotation of kind `Match` for every occurrence of the word in
    /// `line`, pushed onto `result`.
    pub fn highlight_match_words(&self, line: &Line, result: &mut Vec<Annotation>)
        requires
            line.wf(),
        ensures
            final(result)@ == old(result)@ + word_annotations(line@, self.word()),
    {
        assert(old(result)@ + Seq::<Annotation>::empty() =~= old(result)@);
        if let Some(matched_word) = self.matched_word {
            if matched_word.is_empty() {
                return;
            }
            let needle: Line = Line::from(matched_word);
            let found: Vec<(usize, usize)> = line.find_all(&needle, 0..line.len());
            let mut i: usize = 0;
            while i < found.len()
                invariant
                    0 <= i <= found.len(),
                    result@ == old(result)@ + match_annotations(found@).take(i as int),
                decreases found.len() - i,
            {
                let occurrence: (usize, usize) = found[i];
                result.push(
                    Annotation {
                        annotation_type: AnnotationType::Match,
                        start: occurrence.0,
                        end: occurrence.1,
                    },
                );
                assert(result@ =~= old(result)@ + match_annotations(found@).take(i + 1));
                i = i + 1;
            }
            assert(match_annotations(found@).take(found.len() as int) =~= match_annotations(
                found@,
            ));
        }
    }

    /// The annotation of kind `SelectedMatch` for the selected match in line
    /// `idx`, pushed onto `result`.
    pub fn highlight_selected_match(&self, idx: usize, result: &mut Vec<Annotation>)
        ensures
            final(result)@ == old(result)@ + selected_annotations(
                idx,
                self.word(),
                self.selected(),
            ),
    {
        assert(old(result)@ + Seq::<Annotation>::empty() =~= old(result)@);
        if let Some(selected_match) = self.selected_match {
            if selected_match.line_idx != idx {
                return;
            }
            if let Some(matched_word) = self.matched_word {
                if matched_word.is_empty() {
                    return;
                }
                let start: usize = selected_match.grapheme_idx;
                let length: usize = Line::from(matched_word).grapheme_count();
                result.push(
                    Annotation {
                        annotation_type: AnnotationType::SelectedMatch,
                        start,
                        end: saturating_add(start, length),
                    },
                );
                assert(result@ =~= old(result)@ + selected_annotations(
                    idx,
                    self.word(),
                    self.selected(),
                ));
            }
        }
    }

    /// Highlights line `idx`: its annotations are the digits, after them
    /// the matches of the word, and last the selected match. What other
    /// lines have stays.
    pub fn highlight(&mut self, idx: usize, line: &Line)
        requires
            line.wf(),
        ensures
            final(self).word() == old(self).word(),
            final(self).selected() == old(self).selected(),
            final(self).lines() == old(self).lines().insert(idx),
            final(self).annotations(idx) == highlight_of(
                line@,
                idx,
                old(self).word(),
                old(self).selected(),
            ),
            forall|other: usize|
                other != idx && old(self).lines().contains(other) ==> final(self).annotations(
                    other,
                ) == old(self).annotations(other),
    {
        let mut result: Vec<Annotation> = Vec::new();
        Self::highlight_digits(line, &mut result);
        self.highlight_match_words(line, &mut result);
        self.highlight_selected_match(idx, &mut result);
        assert(result@ =~= highlight_of(line@, idx, self.word(), self.selected()));
        self.highlights.insert(idx, result);
    }
}

/// The pieces of a word split as plain values: each with the byte offset
/// at which it starts.
pub open spec fn pieces(words: Seq<(usize, String)>) -> Seq<(usize, Seq<char>)> {
    Seq::new(words.len(), |i: int| (words[i].0, words[i].1@))
}

/// The pieces of `text` between word boundaries, each with the byte
/// offset at which it starts.
pub open spec fn word_pieces(text: Seq<char>) -> Seq<(usize, Seq<char>)> {
    let words = word_split(text);
    Seq::new(words.len(), |i: int| (utf8_len(words.take(i).flatten()) as usize, words[i]))
}

/// One annotation of kind `Number` for every piece among the first `n`
/// that is a number, from the fragment in which the piece starts up to the
/// fragment in which the next piece starts.
pub open spec fn number_annotations_of(
    text: Seq<char>,
    words: Seq<(usize, Seq<char>)>,
    n: int,
) -> Seq<Annotation>
    decreases n,
{
    if n <= 0 {
        Seq::empty()
    } else {
        let earlier = number_annotations_of(text, words, n - 1);
        let (start, word) = words[n - 1];
        if is_number(word) {
            earlier.push(
                Annotation {
                    annotation_type: AnnotationType::Number,
                    start: grapheme_index_of(text, start as int) as usize,
                    end: grapheme_index_of(text, plus(start, utf8_len(word) as usize) as int) as usize,
                },
            )
        } else {
            earlier
        }
    }
}

/// The annotations that mark the numbers among `words`, the pieces of
/// `line` between word boundaries, each with the byte offset at which it
/// starts.
pub fn number_annotations(line: &Line, words: &Vec<(usize, String)>) -> (result: Vec<Annotation>)
    requires
        line.wf(),
    ensures
        result@ == number_annotations_of(line@, pieces(words@), words.len() as int),
{
    let mut result: Vec<Annotation> = Vec::new();
    let mut i: usize = 0;
    while i < words.len()
        invariant
            line.wf(),
            0 <= i <= words.len(),
            result@ == number_annotations_of(line@, pieces(words@), i as int),
        decreases words.len() - i,
    {
        let start_idx: usize = words[i].0;
        let word: &str = words[i].1.as_str();
        assert(pieces(words@)[i as int] == (start_idx, word@));
        if is_valid_number(word) {
            let size: usize = crate::text::byte_len(word);
            result.push(
                Annotation {
                    annotation_type: AnnotationType::Number,
                    start: line.grapheme_index_at(start_idx),
                    end: line.grapheme_index_at(saturating_add(start_idx, size)),
                },
            );
        }
        i = i + 1;
    }
    result
}

/// The annotations of the lines of a document that mark numbers.
pub struct RustSyntaxHighlighter {
    highlights: HashMap<usize, Vec<Annotation>>,
}

impl RustSyntaxHighlighter {
    /// The lines that have been highlighted.
    pub closed spec fn lines(&self) -> Set<usize> {
        self.highlights@.dom()
    }

    /// The annotations of a line that has been highlighted.
    pub closed spec fn annotations(&self, idx: usize) -> Seq<Annotation> {
        self.highlights@[idx]@
    }

    /// A highlighter with no line highlighted yet.
    pub fn new() -> (h: Self)
        ensures
            h.lines() == Set::<usize>::empty(),
    {
        Self { highlights: HashMap::new() }
    }

    /// Highlights line `idx`: its annotations mark the pieces between word
    /// boundaries that are numbers. What other lines have stays.
    pub fn highlight(&mut self, idx: usize, line: &Line)
        requires
            line.wf(),
        ensures
            final(self).lines() == old(self).lines().insert(idx),
            final(self).annotations(idx) == number_annotations_of(
                line@,
                word_pieces(line@),
                word_pieces(line@).len() as int,
            ),
            forall|other: usize|
                other != idx && old(self).lines().contains(other) ==> final(self).annotations(
                    other,
                ) == old(self).annotations(other),
    {
        let words: Vec<(usize, String)> = word_bound_indices(line.raw_text());
        assert(pieces(words@) =~= word_pieces(line@));
        let result: Vec<Annotation> = number_annotations(line, &words);
        self.highlights.insert(idx, result);
    }

    /// The annotations of line `idx`, if it has been highlighted.
    pub fn get_annotations(&self, idx: usize) -> (r: Option<&Vec<Annotation>>)
        ensures
            match r {
                Some(annotations) => self.lines().contains(idx) && annotations@
                    == self.annotations(idx),
                None => !self.lines().contains(idx),
            },
    {
        self.highlights.get(&idx)
    }
}

} // verus!
