//! Text as the standard library sees it.

use vstd::utf8::{encode_utf8, is_char_boundary};
use vstd::prelude::*;

verus! {

/// The code points with the Unicode property White_Space.
pub open spec fn is_white_space(c: char) -> bool {
    ||| '\u{9}' <= c <= '\u{D}'
    ||| c == '\u{20}'
    ||| c == '\u{85}'
    ||| c == '\u{A0}'
    ||| c == '\u{1680}'
    ||| '\u{2000}' <= c <= '\u{200A}'
    ||| c == '\u{2028}'
    ||| c == '\u{2029}'
    ||| c == '\u{202F}'
    ||| c == '\u{205F}'
    ||| c == '\u{3000}'
}

/// `text` without the white space at its front.
pub open spec fn trimmed_start(text: Seq<char>) -> Seq<char>
    decreases text.len(),
{
    if text.len() > 0 && is_white_space(text[0]) {
        trimmed_start(text.drop_first())
    } else {
        text
    }
}

/// `text` without the white space at its back.
pub open spec fn trimmed_end(text: Seq<char>) -> Seq<char>
    decreases text.len(),
{
    if text.len() > 0 && is_white_space(text.last()) {
        trimmed_end(text.drop_last())
    } else {
        text
    }
}

/// `text` without the white space at either end.
pub open spec fn trimmed(text: Seq<char>) -> Seq<char> {
    trimmed_end(trimmed_start(text))
}

/// Whether `part` stands somewhere in `text`.
pub open spec fn occurs_in(part: Seq<char>, text: Seq<char>) -> bool {
    exists|at: int|
        0 <= at <= text.len() - part.len() && #[trigger] text.subrange(at, at + part.len()) == part
}

/// `str::trim`: the text without leading and trailing white space, as Unicode defines it.
#[verifier::external_body]
pub(crate) fn trim(text: &str) -> (r: &str)
    ensures
        r@ == trimmed(text@),
{
    text.trim()
}

/// `str::starts_with` with a string: whether the text begins with `prefix`.
#[verifier::external_body]
pub(crate) fn starts_with(text: &str, prefix: &str) -> (r: bool)
    ensures
        r == prefix@.is_prefix_of(text@),
{
    text.starts_with(prefix)
}

/// `str::contains` with a string: whether `part` stands somewhere in the text.
#[verifier::external_body]
pub(crate) fn contains(text: &str, part: &str) -> (r: bool)
    ensures
        r == occurs_in(part@, text@),
{
    text.contains(part)
}

/// `to` is the last place at or before `limit` where UTF-8 text may be cut.
pub open spec fn is_last_cut(bytes: Seq<u8>, limit: int, to: int) -> bool {
    &&& 0 <= to <= limit
    &&& is_char_boundary(bytes, to)
    &&& forall|later: int|
        to < later <= limit ==> !#[trigger] is_char_boundary(bytes, later)
}

/// `cut` is the longest prefix of `text` of whole characters that takes at most `max_bytes` bytes
/// of UTF-8.
pub open spec fn is_truncation(text: Seq<char>, max_bytes: int, cut: Seq<char>) -> bool {
    let bytes = encode_utf8(text);
    let kept = encode_utf8(cut);
    &&& cut.is_prefix_of(text)
    &&& kept == bytes.take(kept.len() as int)
    &&& kept.len() <= max_bytes
    &&& if bytes.len() <= max_bytes {
        cut == text
    } else {
        is_last_cut(bytes, max_bytes, kept.len() as int)
    }
}

/// Text holds at most one truncation to a given length.
pub proof fn truncation_is_unique(
    text: Seq<char>,
    max_bytes: int,
    one: Seq<char>,
    other: Seq<char>,
)
    requires
        is_truncation(text, max_bytes, one),
        is_truncation(text, max_bytes, other),
    ensures
        one == other,
{
    let bytes = encode_utf8(text);
    let a = encode_utf8(one).len() as int;
    let b = encode_utf8(other).len() as int;
    if bytes.len() > max_bytes {
        assert(is_char_boundary(bytes, a) && is_char_boundary(bytes, b));
    }
    vstd::utf8::encode_utf8_decode_utf8(one);
    vstd::utf8::encode_utf8_decode_utf8(other);
}

/// Truncating again to the same length changes nothing.
pub proof fn truncation_is_idempotent(text: Seq<char>, max_bytes: int, cut: Seq<char>)
    requires
        is_truncation(text, max_bytes, cut),
    ensures
        is_truncation(cut, max_bytes, cut),
{
    assert(encode_utf8(cut).take(encode_utf8(cut).len() as int) =~= encode_utf8(cut));
    assert(cut.is_prefix_of(cut));
}

/// Truncation to at least one longest character never empties text.
pub proof fn truncation_keeps_something(text: Seq<char>, max_bytes: int, cut: Seq<char>)
    requires
        is_truncation(text, max_bytes, cut),
        text.len() > 0,
        max_bytes >= 4,
    ensures
        cut.len() > 0,
{
    let bytes = encode_utf8(text);
    vstd::utf8::encode_utf8_valid_utf8(text);
    vstd::utf8::encode_utf8_first_scalar(text);
    let first = vstd::utf8::length_of_first_scalar(bytes);
    if cut.len() == 0 && bytes.len() > max_bytes {
        assert(is_char_boundary(vstd::utf8::pop_first_scalar(bytes), 0));
        assert(is_char_boundary(bytes, first));
    }
}

/// The first characters of text take up the first bytes of its UTF-8, and it may be cut behind them.
proof fn lemma_prefix_ends_at_a_boundary(text: Seq<char>, count: int)
    requires
        0 <= count <= text.len(),
    ensures
        encode_utf8(text.take(count)).is_prefix_of(encode_utf8(text)),
        is_char_boundary(encode_utf8(text), encode_utf8(text.take(count)).len() as int),
        encode_utf8(text.take(count)).len() >= count,
    decreases count,
{
    let bytes = encode_utf8(text);
    let head = encode_utf8(text.take(count));
    vstd::utf8::encode_utf8_valid_utf8(text);
    if count == 0 {
        assert(head =~= Seq::<u8>::empty());
    } else {
        let rest = text.drop_first();
        lemma_prefix_ends_at_a_boundary(rest, count - 1);
        assert(text.take(count).drop_first() =~= rest.take(count - 1));
        let first = vstd::utf8::encode_scalar(text[0] as u32);
        assert(text.take(count)[0] == text[0]);
        assert(head == first + encode_utf8(rest.take(count - 1)));
        assert(bytes == first + encode_utf8(rest));
        vstd::utf8::encode_utf8_first_scalar(text);
        vstd::utf8::encode_utf8_valid_utf8(rest);
        assert(vstd::utf8::pop_first_scalar(bytes) =~= encode_utf8(rest));
        assert(first.len() >= 1);
    }
}

/// A truncation is a prefix, it fits, and one character more would not: whatever whole number of
/// characters more is kept, that is too long.
pub proof fn truncation_is_the_longest(text: Seq<char>, max_bytes: int, cut: Seq<char>, count: int)
    requires
        is_truncation(text, max_bytes, cut),
        cut.len() < count <= text.len(),
    ensures
        cut == text.take(cut.len() as int),
        encode_utf8(cut).len() <= max_bytes,
        encode_utf8(text.take(count)).len() > max_bytes,
{
    let bytes = encode_utf8(text);
    assert(cut =~= text.take(cut.len() as int));
    assert(bytes.len() > max_bytes);
    lemma_prefix_ends_at_a_boundary(text, count);
    let longer = text.take(count);
    lemma_prefix_ends_at_a_boundary(longer, cut.len() as int);
    assert(longer.take(cut.len() as int) =~= cut);
    if encode_utf8(longer).len() == encode_utf8(cut).len() {
        assert(encode_utf8(longer) =~= encode_utf8(cut));
        vstd::utf8::encode_utf8_decode_utf8(longer);
        vstd::utf8::encode_utf8_decode_utf8(cut);
    }
}

/// Text that fits is not truncated.
pub proof fn text_that_fits_is_kept(text: Seq<char>, max_bytes: int, cut: Seq<char>)
    requires
        is_truncation(text, max_bytes, cut),
        encode_utf8(text).len() <= max_bytes,
    ensures
        cut == text,
{
}

/// White space is taken off at both ends and nowhere else: what is left is the middle of the text,
/// all around it is white space, and it neither begins nor ends with any.
pub proof fn trimming_takes_off_the_ends(text: Seq<char>) -> (start: int)
    ensures
        0 <= start <= start + trimmed(text).len() <= text.len(),
        trimmed(text) == text.subrange(start, start + trimmed(text).len()),
        forall|i: int|
            0 <= i < text.len() && (i < start || i >= start + trimmed(text).len())
                ==> is_white_space(#[trigger] text[i]),
        trimmed(text).len() > 0 ==> !is_white_space(trimmed(text)[0]) && !is_white_space(
            trimmed(text).last(),
        ),
{
    let start = lemma_trimmed_start(text);
    let tail = trimmed_start(text);
    lemma_trimmed_end(tail);
    let kept = trimmed(text);
    assert(kept =~= text.subrange(start, start + kept.len()));
    assert forall|i: int|
        0 <= i < text.len() && (i < start || i >= start + kept.len()) implies is_white_space(
        #[trigger] text[i],
    ) by {
        if i >= start + kept.len() {
            assert(tail[i - start] == text[i]);
        }
    }
    start
}

proof fn lemma_trimmed_start(text: Seq<char>) -> (start: int)
    ensures
        0 <= start <= text.len(),
        trimmed_start(text) == text.subrange(start, text.len() as int),
        forall|i: int| 0 <= i < start ==> is_white_space(#[trigger] text[i]),
        start < text.len() ==> !is_white_space(text[start]),
    decreases text.len(),
{
    if text.len() > 0 && is_white_space(text[0]) {
        let rest = text.drop_first();
        let start = lemma_trimmed_start(rest) + 1;
        assert(text.subrange(start, text.len() as int) =~= rest.subrange(
            start - 1,
            rest.len() as int,
        ));
        assert forall|i: int| 0 <= i < start implies is_white_space(#[trigger] text[i]) by {
            if i > 0 {
                assert(rest[i - 1] == text[i]);
            }
        }
        start
    } else {
        assert(text.subrange(0, text.len() as int) =~= text);
        0
    }
}

proof fn lemma_trimmed_end(text: Seq<char>)
    ensures
        trimmed_end(text).len() <= text.len(),
        trimmed_end(text) == text.take(trimmed_end(text).len() as int),
        forall|i: int|
            trimmed_end(text).len() <= i < text.len() ==> is_white_space(#[trigger] text[i]),
        trimmed_end(text).len() > 0 ==> !is_white_space(trimmed_end(text).last()),
    decreases text.len(),
{
    if text.len() > 0 && is_white_space(text.last()) {
        let rest = text.drop_last();
        lemma_trimmed_end(rest);
        let kept = trimmed_end(text);
        assert(text.take(kept.len() as int) =~= rest.take(kept.len() as int));
        assert forall|i: int| kept.len() <= i < text.len() implies is_white_space(
            #[trigger] text[i],
        ) by {
            if i < rest.len() {
                assert(rest[i] == text[i]);
            }
        }
    } else {
        assert(text.take(text.len() as int) =~= text);
    }
}

/// The longest prefix of `value` of whole characters that takes at most `max_bytes` bytes.
pub fn truncate_utf8(value: &str, max_bytes: usize) -> (r: &str)
    ensures
        is_truncation(value@, max_bytes as int, r@),
{
    if value.as_bytes().len() <= max_bytes {
        assert(encode_utf8(value@).take(encode_utf8(value@).len() as int) =~= encode_utf8(value@));
        assert(value@.is_prefix_of(value@));
        return value;
    }
    let mut end: usize = max_bytes;
    proof {
        vstd::utf8::encode_utf8_valid_utf8(value@);
        vstd::utf8::is_char_boundary_start_end_of_seq(encode_utf8(value@));
    }
    while !value.is_char_boundary(end)
        invariant
            end <= max_bytes < encode_utf8(value@).len(),
            is_char_boundary(encode_utf8(value@), 0),
            forall|later: int|
                end < later <= max_bytes ==> !#[trigger] is_char_boundary(
                    encode_utf8(value@),
                    later,
                ),
        decreases end,
    {
        end = end - 1;
    }
    let r = value.split_at(end).0;
    proof {
        let bytes = encode_utf8(value@);
        assert(bytes.take(end as int) =~= bytes.subrange(0, end as int));
        vstd::utf8::decode_utf8_split(bytes, end as int);
        vstd::utf8::encode_utf8_decode_utf8(value@);
        vstd::utf8::encode_utf8_decode_utf8(r@);
        let rest = vstd::utf8::decode_utf8(bytes.subrange(end as int, bytes.len() as int));
        assert(value@ == r@ + rest);
        assert(r@.is_prefix_of(value@));
    }
    r
}

} // verus!
