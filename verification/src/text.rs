//! Character positions and byte positions in UTF-8 text, and the one place
//! where a character is spliced into a `String`.

use vstd::prelude::*;
use vstd::string::*;
use vstd::utf8::*;

verus! {

/// The number of bytes that the first `count` characters of `chars` take up
/// in UTF-8.
pub open spec fn byte_offset(chars: Seq<char>, count: int) -> nat
    recommends
        0 <= count <= chars.len(),
{
    encode_utf8(chars.subrange(0, count)).len()
}

/// Encoding a concatenation is concatenating the encodings.
pub proof fn lemma_encode_concat(a: Seq<char>, b: Seq<char>)
    ensures
        encode_utf8(a + b) == encode_utf8(a) + encode_utf8(b),
    decreases a.len(),
{
    if a.len() == 0 {
        assert(a + b == b);
        assert(encode_utf8(a) + encode_utf8(b) == encode_utf8(b));
    } else {
        lemma_encode_concat(a.drop_first(), b);
        assert((a + b).drop_first() == a.drop_first() + b);
        assert((a + b)[0] == a[0]);
        assert(encode_utf8(a + b) == encode_scalar(a[0] as u32) + (encode_utf8(a.drop_first())
            + encode_utf8(b)));
    }
}

/// The end of the encoding of a prefix is a character boundary of the whole
/// encoding.
pub proof fn lemma_prefix_ends_on_boundary(a: Seq<char>, b: Seq<char>)
    ensures
        is_char_boundary(encode_utf8(a + b), encode_utf8(a).len() as int),
    decreases a.len(),
{
    let whole = encode_utf8(a + b);
    encode_utf8_valid_utf8(a + b);
    if a.len() == 0 {
    } else {
        let rest = a.drop_first();
        lemma_prefix_ends_on_boundary(rest, b);
        assert((a + b).drop_first() == rest + b);
        encode_utf8_first_scalar(a + b);
        encode_utf8_first_scalar(a);
        assert(pop_first_scalar(whole) == encode_utf8(rest + b));
        assert(encode_utf8(a).len() == encode_scalar(a[0] as u32).len() + encode_utf8(rest).len());
        assert(encode_scalar(a[0] as u32).len() > 0);
        lemma_encode_concat(a, b);
    }
}

/// Two character sequences with the same encoding are the same sequence.
pub proof fn lemma_encode_injective(a: Seq<char>, b: Seq<char>)
    requires
        encode_utf8(a) == encode_utf8(b),
    ensures
        a == b,
{
    encode_utf8_decode_utf8(a);
    encode_utf8_decode_utf8(b);
}

/// Splicing the encoding of `c` into the encoding of `chars` at the byte
/// offset of character position `at` gives the encoding of `chars` with `c`
/// inserted at `at`.
pub proof fn lemma_splice_is_insert(chars: Seq<char>, at: int, c: char)
    requires
        0 <= at <= chars.len(),
    ensures
        is_char_boundary(encode_utf8(chars), byte_offset(chars, at) as int),
        encode_utf8(chars.insert(at, c)) == encode_utf8(chars).subrange(
            0,
            byte_offset(chars, at) as int,
        ) + encode_utf8(seq![c]) + encode_utf8(chars).subrange(
            byte_offset(chars, at) as int,
            encode_utf8(chars).len() as int,
        ),
{
    let head = chars.subrange(0, at);
    let tail = chars.subrange(at, chars.len() as int);
    assert(chars == head + tail);
    lemma_encode_concat(head, tail);
    lemma_prefix_ends_on_boundary(head, tail);
    assert(chars.insert(at, c) == head + seq![c] + tail);
    lemma_encode_concat(head + seq![c], tail);
    lemma_encode_concat(head, seq![c]);
    let bytes = encode_utf8(chars);
    let cut = encode_utf8(head).len() as int;
    assert(bytes.subrange(0, cut) == encode_utf8(head));
    assert(bytes.subrange(cut, bytes.len() as int) == encode_utf8(tail));
}

/// `String::insert`: puts `c` into `text` at byte position `at`. The call
/// panics unless `at` lies on a character boundary (the end of the text
/// counts as one), so that is required. What is claimed of it is over the
/// bytes of the text: those before `at` stay, the encoding of `c` follows,
/// then the bytes that stood from `at` on.
#[verifier::external_body]
pub(crate) fn insert_at_byte(text: &mut String, at: usize, c: char)
    requires
        is_char_boundary(encode_utf8(old(text)@), at as int),
    ensures
        encode_utf8(final(text)@) == encode_utf8(old(text)@).subrange(0, at as int) + encode_utf8(
            seq![c],
        ) + encode_utf8(old(text)@).subrange(at as int, encode_utf8(old(text)@).len() as int),
{
    text.insert(at, c);
}

/// `text` without its character at position `at`, counted in characters.
pub fn without_char(text: &String, at: usize) -> (r: String)
    requires
        at < text@.len(),
    ensures
        r@ == text@.remove(at as int),
{
    let line: &str = text.as_str();
    let count: usize = line.unicode_len();
    let mut r: String = String::from_str(line.substring_char(0, at));
    r.append(line.substring_char(at + 1, count));
    r
}

} // verus!
