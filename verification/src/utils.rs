//! Bit and byte helpers shared by the protocol code.

use itertools::Itertools;
use vstd::prelude::*;

verus! {

/// Bit `index` of `byte`, counting from the most significant bit.
pub open spec fn bit_at(byte: u8, index: u8) -> bool {
    (byte >> (7 - index) as u8) & 1 == 1
}

/// The 16-bit value whose high byte is `hi` and whose low byte is `lo`.
pub open spec fn word_of(hi: u8, lo: u8) -> u16 {
    (hi as int * 256 + lo as int) as u16
}

/// The high byte of a 16-bit value.
pub open spec fn high_byte(value: u16) -> u8 {
    (value / 256) as u8
}

/// The low byte of a 16-bit value.
pub open spec fn low_byte(value: u16) -> u8 {
    (value % 256) as u8
}

/// The big-endian 16-bit values held by a byte sequence. A trailing odd byte
/// belongs to no value.
pub open spec fn words_of(bytes: Seq<u8>) -> Seq<u16> {
    Seq::new(bytes.len() / 2, |i: int| word_of(bytes[2 * i], bytes[2 * i + 1]))
}

/// The bytes of a sequence of 16-bit values, high byte first.
pub open spec fn bytes_of(words: Seq<u16>) -> Seq<u8> {
    Seq::new(
        2 * words.len(),
        |i: int|
            if i % 2 == 0 {
                high_byte(words[i / 2])
            } else {
                low_byte(words[i / 2])
            },
    )
}

/// Tells whether the bit at `bit_index` (0 is the most significant) is set.
pub fn get_bit_at_index(byte: u8, bit_index: u8) -> (set: bool)
    requires
        bit_index < 8,
    ensures
        set == bit_at(byte, bit_index),
{
    let mask: u8 = 0b10000000u8 >> bit_index;
    assert(((0b10000000u8 >> bit_index) & byte != 0) == ((byte >> (7 - bit_index) as u8) & 1
        == 1)) by (bit_vector)
        requires
            bit_index < 8,
    ;
    mask & byte != 0
}

/// Returns `byte` with the bit at `bit_index` (0 is the most significant) set
/// or cleared; every other bit keeps its value.
pub fn set_bit_at_index(byte: u8, bit_index: u8, enabled: bool) -> (out: u8)
    requires
        bit_index < 8,
    ensures
        forall|j: u8|
            j < 8 ==> #[trigger] bit_at(out, j) == if j == bit_index {
                enabled
            } else {
                bit_at(byte, j)
            },
{
    let mask: u8 = 0b10000000u8 >> bit_index;
    if enabled {
        let out: u8 = mask | byte;
        assert forall|j: u8| j < 8 implies #[trigger] bit_at(out, j) == if j == bit_index {
            true
        } else {
            bit_at(byte, j)
        } by {
            assert(((((0b10000000u8 >> bit_index) | byte) >> (7 - j) as u8) & 1 == 1) == if j
                == bit_index {
                true
            } else {
                (byte >> (7 - j) as u8) & 1 == 1
            }) by (bit_vector)
                requires
                    bit_index < 8,
                    j < 8,
            ;
        }
        out
    } else {
        let out: u8 = (mask ^ 0b11111111u8) & byte;
        assert forall|j: u8| j < 8 implies #[trigger] bit_at(out, j) == if j == bit_index {
            false
        } else {
            bit_at(byte, j)
        } by {
            assert((((((0b10000000u8 >> bit_index) ^ 0b11111111u8) & byte) >> (7 - j) as u8) & 1
                == 1) == if j == bit_index {
                false
            } else {
                (byte >> (7 - j) as u8) & 1 == 1
            }) by (bit_vector)
                requires
                    bit_index < 8,
                    j < 8,
            ;
        }
        out
    }
}

/// Joins two bytes into a 16-bit value, high byte first.
pub fn shift_to_16_bit(hi: u8, lo: u8) -> (value: u16)
    ensures
        value == word_of(hi, lo),
{
    assert((((hi as u16) << 8) | (lo as u16)) == (hi as u16) * 256 + (lo as u16)) by (bit_vector);
    ((hi as u16) << 8) | lo as u16
}

/// Splits a 16-bit value into its high and low byte.
pub fn shift_from_16_bit(value: u16) -> (bytes: (u8, u8))
    ensures
        bytes.0 == high_byte(value),
        bytes.1 == low_byte(value),
{
    assert((value >> 8) == value / 256) by (bit_vector);
    assert((value & 0xff) == value % 256) by (bit_vector);
    ((value >> 8) as u8, (value & 0xff) as u8)
}

/// Groups consecutive bytes in pairs through `itertools::Itertools::tuples`.
/// Believed of that adaptor, as its documentation describes it: the `i`-th
/// pair holds the bytes at `2 * i` and `2 * i + 1`, in that order, and a last
/// byte without a partner is left out.
#[verifier::external_body]
fn byte_pairs(buffer: &[u8]) -> (pairs: Vec<(u8, u8)>)
    ensures
        pairs@.len() == buffer@.len() / 2,
        forall|i: int|
            0 <= i < pairs@.len() ==> #[trigger] pairs@[i] == (buffer@[2 * i], buffer@[2 * i + 1]),
{
    buffer.iter().copied().tuples().collect()
}

/// Reads a byte buffer as big-endian 16-bit values. A trailing odd byte is
/// dropped.
pub fn shift_buffer_to_16_bit(buffer: &[u8]) -> (shifted: Vec<u16>)
    ensures
        shifted@ == words_of(buffer@),
{
    let pairs = byte_pairs(buffer);
    let mut shifted_buffer: Vec<u16> = Vec::new();
    let mut i: usize = 0;
    while i < pairs.len()
        invariant
            i <= pairs@.len(),
            pairs@.len() == buffer@.len() / 2,
            forall|k: int|
                0 <= k < pairs@.len() ==> #[trigger] pairs@[k] == (
                    buffer@[2 * k],
                    buffer@[2 * k + 1],
                ),
            shifted_buffer@ == words_of(buffer@).take(i as int),
        decreases pairs@.len() - i,
    {
        let (hi, lo) = pairs[i];
        shifted_buffer.push(shift_to_16_bit(hi, lo));
        i = i + 1;
        assert(shifted_buffer@ =~= words_of(buffer@).take(i as int));
    }
    assert(words_of(buffer@).take(i as int) =~= words_of(buffer@));
    shifted_buffer
}

/// Writes 16-bit values out as bytes, high byte first.
pub fn shift_buffer_from_16_bit(buffer: &[u16]) -> (flattened: Vec<u8>)
    ensures
        flattened@ == bytes_of(buffer@),
{
    let mut flattened: Vec<u8> = Vec::new();
    let mut i: usize = 0;
    while i < buffer.len()
        invariant
            i <= buffer@.len(),
            flattened@ == bytes_of(buffer@).take(2 * i),
        decreases buffer@.len() - i,
    {
        let (hi, lo) = shift_from_16_bit(buffer[i]);
        flattened.push(hi);
        flattened.push(lo);
        i = i + 1;
        assert(flattened@ =~= bytes_of(buffer@).take(2 * i));
    }
    assert(bytes_of(buffer@).take(2 * i) =~= bytes_of(buffer@));
    flattened
}

/// Splitting a 16-bit value and joining the two bytes gives the value back.
pub proof fn lemma_split_then_join(value: u16)
    ensures
        word_of(high_byte(value), low_byte(value)) == value,
{
}

/// Joining two bytes and splitting the result gives the two bytes back.
pub proof fn lemma_join_then_split(hi: u8, lo: u8)
    ensures
        high_byte(word_of(hi, lo)) == hi,
        low_byte(word_of(hi, lo)) == lo,
{
}

/// Writing 16-bit values out as bytes and reading them back is the identity.
pub proof fn lemma_words_round_trip(words: Seq<u16>)
    ensures
        words_of(bytes_of(words)) == words,
{
    assert forall|i: int| 0 <= i < words.len() implies #[trigger] words_of(bytes_of(words))[i]
        == words[i] by {
        lemma_split_then_join(words[i]);
    }
    assert(words_of(bytes_of(words)) =~= words);
}

/// Reading a buffer of even length as 16-bit values and writing them out again
/// is the identity.
pub proof fn lemma_bytes_round_trip(bytes: Seq<u8>)
    requires
        bytes.len() % 2 == 0,
    ensures
        bytes_of(words_of(bytes)) == bytes,
{
    assert forall|i: int| 0 <= i < bytes.len() implies #[trigger] bytes_of(words_of(bytes))[i]
        == bytes[i] by {
        let k: int = i / 2;
        lemma_join_then_split(bytes[2 * k], bytes[2 * k + 1]);
    }
    assert(bytes_of(words_of(bytes)) =~= bytes);
}

} // verus!
