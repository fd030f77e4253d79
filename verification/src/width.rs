//! The fixed table of display widths, and the glyphs that stand in for
//! characters a terminal cannot show.
use vstd::prelude::*;
use vstd::utf8::*;
use crate::text::utf8_len;

verus! {

/// Glyph drawn in place of a control character.
pub const CONTROL_GLYPH: char = '\u{25AF}';

/// Glyph drawn in place of the zero-width non-breaking space.
pub const ZERO_WIDTH_GLYPH: char = '\u{00B7}';

/// The zero-width non-breaking space.
pub const ZERO_WIDTH_NO_BREAK_SPACE: char = '\u{FEFF}';

/// C0 and C1 control characters.
pub open spec fn is_control(c: char) -> bool {
    let v = c as u32;
    v <= 0x1F || (0x7F <= v <= 0x9F)
}

/// Combining marks and format characters that take no column.
pub open spec fn is_zero_width_mark(c: char) -> bool {
    let v = c as u32;
    ||| 0x0300 <= v <= 0x036F
    ||| 0x0483 <= v <= 0x0489
    ||| 0x0591 <= v <= 0x05BD
    ||| 0x0610 <= v <= 0x061A
    ||| 0x064B <= v <= 0x065F
    ||| 0x1AB0 <= v <= 0x1AFF
    ||| 0x1DC0 <= v <= 0x1DFF
    ||| 0x200B <= v <= 0x200F
    ||| 0x20D0 <= v <= 0x20FF
    ||| 0xFE00 <= v <= 0xFE0F
    ||| 0xFE20 <= v <= 0xFE2F
    ||| v == 0xFEFF
}

/// Wide East-Asian characters and emoji, which take two columns.
pub open spec fn is_wide(c: char) -> bool {
    let v = c as u32;
    ||| 0x1100 <= v <= 0x115F
    ||| 0x2E80 <= v <= 0x303E
    ||| 0x3041 <= v <= 0x33FF
    ||| 0x3400 <= v <= 0x4DBF
    ||| 0x4E00 <= v <= 0x9FFF
    ||| 0xA000 <= v <= 0xA4CF
    ||| 0xAC00 <= v <= 0xD7A3
    ||| 0xF900 <= v <= 0xFAFF
    ||| 0xFE30 <= v <= 0xFE4F
    ||| 0xFF00 <= v <= 0xFF60
    ||| 0xFFE0 <= v <= 0xFFE6
    ||| 0x1F300 <= v <= 0x1F64F
    ||| 0x1F900 <= v <= 0x1F9FF
    ||| 0x20000 <= v <= 0x3FFFD
}

/// Columns that one scalar value takes: zero for control characters and
/// combining marks, two for wide characters, one for anything else.
pub open spec fn scalar_width(c: char) -> nat {
    if is_control(c) || is_zero_width_mark(c) {
        0
    } else if is_wide(c) {
        2
    } else {
        1
    }
}

/// Columns that a grapheme cluster takes: those of its first scalar value.
pub open spec fn cluster_width(cluster: Seq<char>) -> nat {
    if cluster.len() == 0 {
        0
    } else {
        scalar_width(cluster[0])
    }
}

/// The glyph drawn in place of a cluster, if it has one: clusters that begin
/// with a control character or with the zero-width non-breaking space.
pub open spec fn replacement_of(cluster: Seq<char>) -> Option<char> {
    if cluster.len() == 0 {
        None
    } else if is_control(cluster[0]) {
        Some(CONTROL_GLYPH)
    } else if cluster[0] == ZERO_WIDTH_NO_BREAK_SPACE {
        Some(ZERO_WIDTH_GLYPH)
    } else {
        None
    }
}

/// A cluster never takes more columns than bytes.
pub proof fn lemma_width_le_bytes(cluster: Seq<char>)
    ensures
        cluster_width(cluster) <= utf8_len(cluster),
        cluster_width(cluster) <= 2,
{
    if cluster.len() > 0 {
        char_is_scalar(cluster[0]);
        assert(encode_utf8(cluster).len() >= encode_scalar(cluster[0] as u32).len());
    }
}

pub fn is_control_char(c: char) -> (r: bool)
    ensures
        r == is_control(c),
{
    let v: u32 = c as u32;
    v <= 0x1F || (0x7F <= v && v <= 0x9F)
}

pub fn is_zero_width_char(c: char) -> (r: bool)
    ensures
        r == is_zero_width_mark(c),
{
    let v: u32 = c as u32;
    (0x0300 <= v && v <= 0x036F) || (0x0483 <= v && v <= 0x0489) || (0x0591 <= v && v <= 0x05BD)
        || (0x0610 <= v && v <= 0x061A) || (0x064B <= v && v <= 0x065F) || (0x1AB0 <= v && v
        <= 0x1AFF) || (0x1DC0 <= v && v <= 0x1DFF) || (0x200B <= v && v <= 0x200F) || (0x20D0 <= v
        && v <= 0x20FF) || (0xFE00 <= v && v <= 0xFE0F) || (0xFE20 <= v && v <= 0xFE2F) || v
        == 0xFEFF
}

pub fn is_wide_char(c: char) -> (r: bool)
    ensures
        r == is_wide(c),
{
    let v: u32 = c as u32;
    (0x1100 <= v && v <= 0x115F) || (0x2E80 <= v && v <= 0x303E) || (0x3041 <= v && v <= 0x33FF)
        || (0x3400 <= v && v <= 0x4DBF) || (0x4E00 <= v && v <= 0x9FFF) || (0xA000 <= v && v
        <= 0xA4CF) || (0xAC00 <= v && v <= 0xD7A3) || (0xF900 <= v && v <= 0xFAFF) || (0xFE30 <= v
        && v <= 0xFE4F) || (0xFF00 <= v && v <= 0xFF60) || (0xFFE0 <= v && v <= 0xFFE6) || (0x1F300
        <= v && v <= 0x1F64F) || (0x1F900 <= v && v <= 0x1F9FF) || (0x20000 <= v && v <= 0x3FFFD)
}

/// Columns that `c` takes, by the width table.
pub fn width_of_char(c: char) -> (w: usize)
    ensures
        w == scalar_width(c),
{
    if is_control_char(c) || is_zero_width_char(c) {
        0
    } else if is_wide_char(c) {
        2
    } else {
        1
    }
}

/// The replacement glyph for a cluster that begins with `first`.
pub fn replacement_for(first: char) -> (r: Option<char>)
    ensures
        r == replacement_of(seq![first]),
        forall|cluster: Seq<char>|
            cluster.len() > 0 && cluster[0] == first ==> r == #[trigger] replacement_of(cluster),
{
    if is_control_char(first) {
        Some(CONTROL_GLYPH)
    } else if first == ZERO_WIDTH_NO_BREAK_SPACE {
        Some(ZERO_WIDTH_GLYPH)
    } else {
        None
    }
}

} // verus!
