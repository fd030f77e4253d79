//! Character sequences, their UTF-8 byte lengths, and the string helpers
//! that the rest of the crate builds on.
use vstd::prelude::*;
use vstd::utf8::*;

verus! {

/// Number of bytes that the UTF-8 encoding of `text` takes.
pub open spec fn utf8_len(text: Seq<char>) -> nat {
    encode_utf8(text).len()
}

/// The character sequences that a sequence of strings holds.
pub open spec fn texts(strings: Seq<String>) -> Seq<Seq<char>> {
    Seq::new(strings.len(), |i: int| strings[i]@)
}

/// Encoding a concatenation gives the concatenation of the encodings.
pub proof fn lemma_encode_concat(a: Seq<char>, b: Seq<char>)
    ensures
        encode_utf8(a + b) =~= encode_utf8(a) + encode_utf8(b),
        utf8_len(a + b) == utf8_len(a) + utf8_len(b),
    decreases a.len(),
{
    if a.len() == 0 {
        assert(a + b =~= b);
    } else {
        assert((a + b).drop_first() =~= a.drop_first() + b);
        lemma_encode_concat(a.drop_first(), b);
    }
}

/// Every character takes between one and four bytes.
pub proof fn lemma_utf8_len_bounds(text: Seq<char>)
    ensures
        text.len() <= utf8_len(text) <= 4 * text.len(),
    decreases text.len(),
{
    if text.len() > 0 {
        char_is_scalar(text[0]);
        lemma_utf8_len_bounds(text.drop_first());
    }
}

/// The end of an encoded prefix is a character boundary of the whole encoding.
pub proof fn lemma_prefix_is_boundary(a: Seq<char>, b: Seq<char>)
    ensures
        is_char_boundary(encode_utf8(a + b), utf8_len(a) as int),
    decreases a.len(),
{
    broadcast use encode_utf8_valid_utf8;

    let bytes = encode_utf8(a + b);
    if a.len() > 0 {
        encode_utf8_first_scalar(a + b);
        assert((a + b).drop_first() =~= a.drop_first() + b);
        assert(pop_first_scalar(bytes) =~= encode_utf8(a.drop_first() + b));
        lemma_prefix_is_boundary(a.drop_first(), b);
        char_is_scalar(a[0]);
    }
}

/// Flattening distributes over concatenation of the outer sequence.
pub proof fn lemma_flatten_add(a: Seq<Seq<char>>, b: Seq<Seq<char>>)
    ensures
        (a + b).flatten() =~= a.flatten() + b.flatten(),
    decreases a.len(),
{
    if a.len() == 0 {
        assert(a + b =~= b);
    } else {
        assert((a + b).drop_first() =~= a.drop_first() + b);
        lemma_flatten_add(a.drop_first(), b);
    }
}

/// A sequence of parts is the first `i` parts followed by the rest.
pub proof fn lemma_flatten_split(parts: Seq<Seq<char>>, i: int)
    requires
        0 <= i <= parts.len(),
    ensures
        parts.flatten() =~= parts.take(i).flatten() + parts.skip(i).flatten(),
{
    assert(parts =~= parts.take(i) + parts.skip(i));
    lemma_flatten_add(parts.take(i), parts.skip(i));
}

/// Taking one more part appends that part to the flattened prefix.
pub proof fn lemma_flatten_take_next(parts: Seq<Seq<char>>, i: int)
    requires
        0 <= i < parts.len(),
    ensures
        parts.take(i + 1).flatten() =~= parts.take(i).flatten() + parts[i],
        parts.skip(i).flatten() =~= parts[i] + parts.skip(i + 1).flatten(),
{
    assert(parts.take(i + 1) =~= parts.take(i).push(parts[i]));
    parts.take(i).lemma_flatten_push(parts[i]);
    assert(parts.skip(i).drop_first() =~= parts.skip(i + 1));
}

/// `String::push` of the standard library, which vstd leaves without a
/// specification. Trusted: after the call the string holds what it held
/// before, followed by `ch`.
pub assume_specification[ String::push ](s: &mut String, ch: char)
    ensures
        final(s)@ == old(s)@.push(ch),
;

/// Length of `s` in bytes.
pub fn byte_len(s: &str) -> (n: usize)
    ensures
        n == utf8_len(s@),
{
    s.as_bytes().len()
}

/// Splits `s` at the byte offset `mid`, which ends its first `k` characters.
pub(crate) fn split_str<'a>(s: &'a str, mid: usize, Ghost(k): Ghost<int>) -> (r: (&'a str, &'a str))
    requires
        0 <= k <= s@.len(),
        mid == utf8_len(s@.subrange(0, k)),
    ensures
        r.0@ == s@.subrange(0, k),
        r.1@ == s@.subrange(k, s@.len() as int),
{
    let ghost a = s@.subrange(0, k);
    let ghost b = s@.subrange(k, s@.len() as int);
    proof {
        assert(s@ =~= a + b);
        lemma_encode_concat(a, b);
        lemma_prefix_is_boundary(a, b);
    }
    let r = s.split_at(mid);
    proof {
        broadcast use encode_utf8_decode_utf8;

        assert(encode_utf8(r.0@) =~= encode_utf8(a));
        assert(encode_utf8(r.1@) =~= encode_utf8(b));
        assert(decode_utf8(encode_utf8(r.0@)) == r.0@);
        assert(decode_utf8(encode_utf8(r.1@)) == r.1@);
    }
    r
}

} // verus!
