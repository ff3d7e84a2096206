//! Little-endian register words.
//!
//! Every raw register value travels as 1, 2 or 4 bytes, least significant
//! byte first. Signed registers use two's complement.

use vstd::prelude::*;
use crate::error::Error;

verus! {

/// Whether `width` is a byte count a register may have.
pub open spec fn valid_width(width: int) -> bool {
    width == 1 || width == 2 || width == 4
}

/// Number of distinct words of `width` bytes: 256 to the power `width`.
pub open spec fn word_span(width: nat) -> nat
    decreases width,
{
    if width == 0 {
        1
    } else {
        256 * word_span((width - 1) as nat)
    }
}

/// The unsigned number that `bytes` spell, least significant byte first.
pub open spec fn le_value(bytes: Seq<u8>) -> nat
    decreases bytes.len(),
{
    if bytes.len() == 0 {
        0
    } else {
        bytes[0] as nat + 256 * le_value(bytes.skip(1))
    }
}

/// The integer that `bytes` spell: unsigned, or two's complement when `signed`.
pub open spec fn raw_value(bytes: Seq<u8>, signed: bool) -> int {
    let unsigned = le_value(bytes);
    if signed && 2 * unsigned >= word_span(bytes.len()) {
        unsigned - word_span(bytes.len())
    } else {
        unsigned as int
    }
}

/// Whether `value` can be stored in a register of `width` bytes.
pub open spec fn fits(value: int, width: nat, signed: bool) -> bool {
    if signed {
        -(word_span(width) as int) <= 2 * value < word_span(width)
    } else {
        0 <= value < word_span(width)
    }
}

/// The number below `word_span(width)` that stands for `value` in a word of
/// `width` bytes: `value` itself, or its two's complement when it is negative.
pub open spec fn unsigned_image(value: int, width: nat) -> nat {
    if value < 0 {
        (value + word_span(width)) as nat
    } else {
        value as nat
    }
}

/// The `width` low base-256 digits of `number`, least significant first.
pub open spec fn le_digits(number: nat, width: nat) -> Seq<u8>
    decreases width,
{
    if width == 0 {
        Seq::empty()
    } else {
        seq![(number % 256) as u8] + le_digits(number / 256, (width - 1) as nat)
    }
}

/// The `width` bytes that store `value`, least significant byte first.
/// Negative values come out in two's complement.
pub open spec fn le_bytes(value: int, width: nat) -> Seq<u8> {
    le_digits(unsigned_image(value, width), width)
}

/// The spans of the three register widths, and of the empty word.
pub proof fn lemma_word_span_values()
    ensures
        word_span(0) == 1,
        word_span(1) == 0x100,
        word_span(2) == 0x1_0000,
        word_span(3) == 0x100_0000,
        word_span(4) == 0x1_0000_0000,
{
    reveal_with_fuel(word_span, 5);
}

/// A word of `n` bytes spells a number below `word_span(n)`.
pub proof fn lemma_le_value_bound(bytes: Seq<u8>)
    ensures
        le_value(bytes) < word_span(bytes.len()),
    decreases bytes.len(),
{
    if bytes.len() > 0 {
        lemma_le_value_bound(bytes.skip(1));
    }
}

/// Every word denotes a value that fits its own width.
pub proof fn lemma_raw_value_fits(bytes: Seq<u8>, signed: bool)
    ensures
        fits(raw_value(bytes, signed), bytes.len(), signed),
{
    lemma_le_value_bound(bytes);
}

/// `le_digits` yields exactly `width` bytes.
pub proof fn lemma_le_digits_len(number: nat, width: nat)
    ensures
        le_digits(number, width).len() == width,
    decreases width,
{
    if width > 0 {
        lemma_le_digits_len(number / 256, (width - 1) as nat);
    }
}

/// The digits of a number below the span spell that number again.
pub proof fn lemma_le_value_of_digits(number: nat, width: nat)
    requires
        number < word_span(width),
    ensures
        le_value(le_digits(number, width)) == number,
    decreases width,
{
    if width > 0 {
        let rest = le_digits(number / 256, (width - 1) as nat);
        let all = le_digits(number, width);
        lemma_le_value_of_digits(number / 256, (width - 1) as nat);
        lemma_le_digits_len(number / 256, (width - 1) as nat);
        assert(all.skip(1) =~= rest);
        assert(all[0] == (number % 256) as u8);
    }
}

/// The digits of the number that a word spells are the word itself.
pub proof fn lemma_digits_of_le_value(bytes: Seq<u8>)
    ensures
        le_digits(le_value(bytes), bytes.len()) == bytes,
    decreases bytes.len(),
{
    if bytes.len() > 0 {
        let rest = bytes.skip(1);
        lemma_digits_of_le_value(rest);
        let number = le_value(bytes);
        assert(number % 256 == bytes[0] as nat);
        assert(number / 256 == le_value(rest));
        assert(le_digits(number, bytes.len()) =~= bytes);
    }
}

/// Storing a value that fits and reading the word back gives the value.
pub proof fn lemma_decode_encode(value: int, width: nat, signed: bool)
    requires
        fits(value, width, signed),
    ensures
        le_bytes(value, width).len() == width,
        raw_value(le_bytes(value, width), signed) == value,
{
    let image = unsigned_image(value, width);
    lemma_le_digits_len(image, width);
    lemma_le_value_of_digits(image, width);
}

/// Reading a word and storing the value again gives the same bytes.
pub proof fn lemma_encode_decode(bytes: Seq<u8>, signed: bool)
    ensures
        le_bytes(raw_value(bytes, signed), bytes.len()) == bytes,
{
    lemma_le_value_bound(bytes);
    lemma_digits_of_le_value(bytes);
}

/// Reads the `width` bytes of `bytes` that start at `offset` as one
/// little-endian integer, in two's complement when `signed`.
pub fn decode_word(bytes: &[u8], offset: usize, width: usize, signed: bool) -> (value: i64)
    requires
        valid_width(width as int),
        offset + width <= bytes@.len(),
    ensures
        value == raw_value(bytes@.subrange(offset as int, offset + width), signed),
{
    let total: usize = bytes.len();
    let mut acc: u64 = 0;
    let mut i: usize = width;
    while i > 0
        invariant
            i <= width <= 4,
            offset + width <= total,
            total == bytes@.len(),
            acc == le_value(bytes@.subrange(offset + i, offset + width)),
            acc < word_span((width - i) as nat),
        decreases i,
    {
        i = i - 1;
        let byte: u8 = bytes[offset + i];
        proof {
            let word = bytes@.subrange(offset + i, offset + width);
            assert(word.skip(1) =~= bytes@.subrange(offset + i + 1, offset + width));
            assert(word[0] == byte);
            lemma_word_span_values();
        }
        acc = acc * 256 + byte as u64;
    }
    proof {
        lemma_word_span_values();
    }
    let span: u64 = if width == 1 {
        0x100
    } else if width == 2 {
        0x1_0000
    } else {
        0x1_0000_0000
    };
    if signed && acc >= span / 2 {
        acc as i64 - span as i64
    } else {
        acc as i64
    }
}

/// Stores `value` as `width` little-endian bytes. A value that does not fit
/// the width and signedness is refused rather than truncated.
pub fn encode_word(value: i64, width: usize, signed: bool) -> (result: Result<Vec<u8>, Error>)
    requires
        valid_width(width as int),
    ensures
        fits(value as int, width as nat, signed) ==> result is Ok && result->Ok_0@ == le_bytes(
            value as int,
            width as nat,
        ),
        !fits(value as int, width as nat, signed) ==> result == Err::<Vec<u8>, Error>(
            Error::Domain,
        ),
{
    proof {
        lemma_word_span_values();
    }
    let span: i64 = if width == 1 {
        0x100
    } else if width == 2 {
        0x1_0000
    } else {
        0x1_0000_0000
    };
    let in_range: bool = if signed {
        -(span / 2) <= value && value < span / 2
    } else {
        0 <= value && value < span
    };
    if !in_range {
        return Err(Error::Domain);
    }
    let image: u64 = if value < 0 {
        (value + span) as u64
    } else {
        value as u64
    };
    let mut rest: u64 = image;
    let mut out: Vec<u8> = Vec::new();
    let mut i: usize = 0;
    while i < width
        invariant
            i <= width <= 4,
            out@ + le_digits(rest as nat, (width - i) as nat) =~= le_digits(
                image as nat,
                width as nat,
            ),
        decreases width - i,
    {
        out.push((rest % 256) as u8);
        rest = rest / 256;
        i = i + 1;
    }
    Ok(out)
}

} // verus!
