//! Fixed-width integers as byte strings.

use vstd::prelude::*;

verus! {

/// The low `width` bytes of `value`, least significant first.
pub open spec fn le_bytes(value: nat, width: nat) -> Seq<u8>
    decreases width,
{
    if width == 0 {
        Seq::empty()
    } else {
        seq![(value % 256) as u8] + le_bytes(value / 256, (width - 1) as nat)
    }
}

/// The number that `bytes` spell, least significant first.
pub open spec fn le_value(bytes: Seq<u8>) -> nat
    decreases bytes.len(),
{
    if bytes.len() == 0 {
        0
    } else {
        bytes[0] as nat + 256 * le_value(bytes.drop_first())
    }
}

/// The low `width` bytes of `value`, most significant first.
pub open spec fn be_bytes(value: nat, width: nat) -> Seq<u8> {
    le_bytes(value, width).reverse()
}

/// The number that `bytes` spell, most significant first.
pub open spec fn be_value(bytes: Seq<u8>) -> nat {
    le_value(bytes.reverse())
}

/// How many numbers fit in `width` bytes.
pub open spec fn byte_span(width: nat) -> nat
    decreases width,
{
    if width == 0 {
        1
    } else {
        256 * byte_span((width - 1) as nat)
    }
}

/// A signed 64-bit number in two's complement.
pub open spec fn unsigned_of(value: i64) -> nat {
    if value < 0 {
        (value + 0x1_0000_0000_0000_0000) as nat
    } else {
        value as nat
    }
}

/// The signed 64-bit number whose two's complement is `word`.
pub open spec fn signed_of(word: nat) -> int {
    if word < 0x8000_0000_0000_0000 {
        word as int
    } else {
        word - 0x1_0000_0000_0000_0000
    }
}

/// The low 24 bits of a sample in two's complement.
pub open spec fn sample_bits(value: i32) -> nat {
    ((value as int) % 0x100_0000) as nat
}

/// The signed sample whose 24-bit two's complement is `word`.
pub open spec fn sample_of(word: nat) -> int {
    if word < 0x80_0000 {
        word as int
    } else {
        word - 0x100_0000
    }
}

pub proof fn lemma_le_bytes_len(value: nat, width: nat)
    ensures
        le_bytes(value, width).len() == width,
    decreases width,
{
    if width > 0 {
        lemma_le_bytes_len(value / 256, (width - 1) as nat);
    }
}

/// A little-endian number reads back as what was written.
pub proof fn le_round_trip(value: nat, width: nat)
    requires
        value < byte_span(width),
    ensures
        le_bytes(value, width).len() == width,
        le_value(le_bytes(value, width)) == value,
    decreases width,
{
    if width > 0 {
        let rest = le_bytes(value / 256, (width - 1) as nat);
        le_round_trip(value / 256, (width - 1) as nat);
        assert(le_bytes(value, width).drop_first() =~= rest);
    }
}

/// A big-endian number reads back as what was written.
pub proof fn be_round_trip(value: nat, width: nat)
    requires
        value < byte_span(width),
    ensures
        be_bytes(value, width).len() == width,
        be_value(be_bytes(value, width)) == value,
{
    le_round_trip(value, width);
    assert(le_bytes(value, width).reverse().reverse() =~= le_bytes(value, width));
}

/// Every sample position survives its two's complement.
pub proof fn signed_round_trip(value: i64)
    ensures
        unsigned_of(value) < byte_span(8),
        signed_of(unsigned_of(value)) == value,
{
    reveal_with_fuel(byte_span, 9);
}

/// Every sample that fits in 24 bits survives its two's complement.
pub proof fn sample_round_trip(value: i32)
    requires
        -0x80_0000 <= value < 0x80_0000,
    ensures
        sample_bits(value) < byte_span(3),
        sample_of(sample_bits(value)) == value,
{
    reveal_with_fuel(byte_span, 4);
}

/// There are 256 times as many numbers with every byte more.
pub proof fn byte_span_is_a_power(width: nat)
    ensures
        byte_span(width) == vstd::arithmetic::power::pow(256, width),
        byte_span(width) > 0,
    decreases width,
{
    reveal(vstd::arithmetic::power::pow);
    if width > 0 {
        byte_span_is_a_power((width - 1) as nat);
    }
}

/// Byte `index` of a number, least significant first, is the digit with the weight 256 to the
/// `index`.
pub proof fn le_bytes_are_digits(value: nat, width: nat, index: nat)
    requires
        index < width,
    ensures
        le_bytes(value, width).len() == width,
        le_bytes(value, width)[index as int] == (value / byte_span(index)) % 256,
    decreases width,
{
    lemma_le_bytes_len(value, width);
    lemma_le_bytes_len(value / 256, (width - 1) as nat);
    if index == 0 {
        assert(value / 1 == value);
    } else {
        le_bytes_are_digits(value / 256, (width - 1) as nat, (index - 1) as nat);
        byte_span_is_a_power((index - 1) as nat);
        vstd::arithmetic::div_mod::lemma_div_denominator(
            value as int,
            256,
            byte_span((index - 1) as nat) as int,
        );
    }
}

/// Byte `index` of a number, most significant first, is the digit with the weight 256 to the number
/// of bytes that follow.
pub proof fn be_bytes_are_digits(value: nat, width: nat, index: nat)
    requires
        index < width,
    ensures
        be_bytes(value, width).len() == width,
        be_bytes(value, width)[index as int] == (value / byte_span(
            (width - 1 - index) as nat,
        )) % 256,
{
    le_bytes_are_digits(value, width, (width - 1 - index) as nat);
}

/// The number that four bytes spell, least significant first.
pub proof fn le_value_of_four(bytes: Seq<u8>)
    requires
        bytes.len() == 4,
    ensures
        le_value(bytes) == bytes[0] + 0x100 * bytes[1] + 0x1_0000 * bytes[2] + 0x100_0000
            * bytes[3],
{
    reveal_with_fuel(le_value, 5);
}

/// The number that two bytes spell, least significant first.
pub proof fn le_value_of_two(bytes: Seq<u8>)
    requires
        bytes.len() == 2,
    ensures
        le_value(bytes) == bytes[0] + 0x100 * bytes[1],
{
    reveal_with_fuel(le_value, 3);
}

/// The number that eight bytes spell, least significant first.
pub proof fn le_value_of_eight(bytes: Seq<u8>)
    requires
        bytes.len() == 8,
    ensures
        le_value(bytes) == bytes[0] + 0x100 * bytes[1] + 0x1_0000 * bytes[2] + 0x100_0000
            * bytes[3] + 0x1_0000_0000 * bytes[4] + 0x100_0000_0000 * bytes[5]
            + 0x1_0000_0000_0000 * bytes[6] + 0x100_0000_0000_0000 * bytes[7],
{
    reveal_with_fuel(le_value, 9);
}

/// Appends the low `width` bytes of `value`, least significant first.
pub fn push_le(out: &mut Vec<u8>, value: u64, width: usize)
    requires
        width <= 8,
    ensures
        final(out)@ == old(out)@ + le_bytes(value as nat, width as nat),
{
    let mut rest: u64 = value;
    let mut left: usize = width;
    assert(out@ + le_bytes(value as nat, width as nat) =~= old(out)@ + le_bytes(
        value as nat,
        width as nat,
    ));
    while left > 0
        invariant
            out@ + le_bytes(rest as nat, left as nat) == old(out)@ + le_bytes(
                value as nat,
                width as nat,
            ),
        decreases left,
    {
        let ghost before = out@;
        out.push((rest % 256) as u8);
        proof {
            let tail = le_bytes(rest as nat / 256, (left - 1) as nat);
            assert(before + (seq![(rest as nat % 256) as u8] + tail) =~= out@ + tail);
        }
        rest = rest / 256;
        left = left - 1;
    }
    assert(out@ + le_bytes(rest as nat, 0) =~= out@);
}

/// Appends a signed 64-bit number in little-endian two's complement.
pub fn push_le_i64(out: &mut Vec<u8>, value: i64)
    ensures
        final(out)@ == old(out)@ + le_bytes(unsigned_of(value), 8),
{
    assert(value < 0 ==> value as u64 == value + 0x1_0000_0000_0000_0000) by (bit_vector);
    push_le(out, value as u64, 8);
}

/// Appends the low 24 bits of a sample, least significant byte first.
pub fn push_s24(out: &mut Vec<u8>, value: i32)
    ensures
        final(out)@ == old(out)@ + le_bytes(sample_bits(value), 3),
{
    let word: u32 = value as u32;
    assert(value < 0 ==> word == value + 0x1_0000_0000) by (bit_vector)
        requires
            word == value as u32,
    ;
    push_le(out, (word % 0x100_0000) as u64, 3);
}

/// The number that two little-endian bytes spell.
pub fn le_u16(bytes: [u8; 2]) -> (value: u16)
    ensures
        value as nat == le_value(bytes@),
{
    proof {
        reveal_with_fuel(le_value, 3);
        assert(bytes@.drop_first().drop_first().len() == 0);
    }
    bytes[0] as u16 + 256 * bytes[1] as u16
}

} // verus!
