//! Reading bits from a raw report.
//!
//! The fields of a report are packed bit by bit, the least significant bit
//! of each byte first. A field is read by moving a bit cursor to the first
//! bit of the field and reading as many bits as the field is wide.

use crate::report_descriptor::bit_set;
use bitstream_io::{BitRead, BitReader, LittleEndian};
use std::io::Cursor;
use vstd::prelude::*;

verus! {

/// Bit `pos` of the bit stream that `bytes` form when each byte is read from
/// its least significant bit on.
pub open spec fn report_bit(bytes: Seq<u8>, pos: int) -> bool {
    bit_set(bytes[pos / 8], (pos % 8) as u8)
}

/// The number that the `count` bits of `bytes` from bit `position` on stand
/// for, the first of them being the least significant.
pub open spec fn bits_value(bytes: Seq<u8>, position: int, count: nat) -> int
    decreases count,
{
    if count == 0 {
        0
    } else {
        (if report_bit(bytes, position) {
            1int
        } else {
            0int
        }) + 2 * bits_value(bytes, position + 1, (count - 1) as nat)
    }
}

/// 2 to the power of `exponent`.
pub open spec fn pow2(exponent: nat) -> int
    decreases exponent,
{
    if exponent == 0 {
        1
    } else {
        2 * pow2((exponent - 1) as nat)
    }
}

/// The number that up to 64 bits stand for when they are held in an `i64`:
/// the number itself when it fits, and the number in two's complement when
/// the 64th bit is set.
pub open spec fn as_i64(value: int) -> i64 {
    if value <= i64::MAX {
        value as i64
    } else {
        (value - 0x1_0000_0000_0000_0000) as i64
    }
}

/// The number that `count` bits stand for is at least 0 and less than 2 to
/// the power of `count`.
pub proof fn lemma_bits_value_bounds(bytes: Seq<u8>, position: int, count: nat)
    ensures
        0 <= bits_value(bytes, position, count) < pow2(count),
    decreases count,
{
    if count > 0 {
        lemma_bits_value_bounds(bytes, position + 1, (count - 1) as nat);
    }
}

/// A cursor that reads from a byte buffer bit by bit, the least significant
/// bit of each byte first.
///
/// The cursor holds a `bitstream_io::BitReader` over the buffer. What is
/// known of it is what `cursor_bytes` and `cursor_position` name.
#[verifier::external_body]
pub struct BitCursor<'a> {
    reader: BitReader<Cursor<&'a [u8]>, LittleEndian>,
}

/// The bytes of the buffer that a cursor reads from.
pub uninterp spec fn cursor_bytes(cursor: BitCursor) -> Seq<u8>;

/// The number of bits that a cursor has moved past since it was made.
pub uninterp spec fn cursor_position(cursor: BitCursor) -> nat;

/// Makes a cursor over `input` with `bitstream_io::BitReader::endian` and
/// `std::io::Cursor::new`. The cursor stands before the first bit.
#[verifier::external_body]
fn create_bit_reader<'a>(input: &'a [u8]) -> (cursor: BitCursor<'a>)
    ensures
        cursor_bytes(cursor) == input@,
        cursor_position(cursor) == 0,
{
    BitCursor { reader: BitReader::endian(Cursor::new(input), LittleEndian) }
}

/// Moves a cursor on by `bits` bits with `bitstream_io::BitRead::skip`.
///
/// The skip succeeds if and only if the buffer holds that many bits more;
/// the cursor may stop right behind the last bit. On failure nothing is
/// claimed of where the cursor stands.
#[verifier::external_body]
fn skip(cursor: &mut BitCursor, bits: u32) -> (skipped: bool)
    ensures
        cursor_bytes(*final(cursor)) == cursor_bytes(*old(cursor)),
        skipped <==> cursor_position(*old(cursor)) + bits <= 8 * cursor_bytes(*old(cursor)).len(),
        skipped ==> cursor_position(*final(cursor)) == cursor_position(*old(cursor)) + bits,
{
    cursor.reader.skip(bits).is_ok()
}

/// Reads `bits` bits at a cursor into an `i64` with
/// `bitstream_io::BitRead::read`.
///
/// The read succeeds if and only if `bits` is at most 64 and the buffer
/// holds that many bits more; no bits are always read. The bits are read as
/// a number without a sign, the first bit being the least significant; 64
/// bits fill the `i64` up to its sign bit. On failure nothing is claimed of
/// where the cursor stands.
#[verifier::external_body]
fn read(cursor: &mut BitCursor, bits: u32) -> (value: Option<i64>)
    ensures
        cursor_bytes(*final(cursor)) == cursor_bytes(*old(cursor)),
        value is Some <==> bits <= 64 && (bits == 0 || cursor_position(*old(cursor)) + bits <= 8
            * cursor_bytes(*old(cursor)).len()),
        value matches Some(number) ==> {
            &&& number == as_i64(
                bits_value(
                    cursor_bytes(*old(cursor)),
                    cursor_position(*old(cursor)) as int,
                    bits as nat,
                ),
            )
            &&& cursor_position(*final(cursor)) == cursor_position(*old(cursor)) + bits
        },
{
    cursor.reader.read::<i64>(bits).ok()
}

/// Why bits could not be read from a report.
#[derive(Clone, Copy, Debug, PartialEq, Eq, Structural)]
pub enum ParseError {
    /// The report has fewer bits than were to be skipped.
    SkippingBitsFailed(u32),
    /// The report has fewer bits than were to be read, or more than 64 bits
    /// were to be read.
    ReadingBitsFailed(u32),
}

/// The report id of a report: the number that its first eight bits stand
/// for.
pub open spec fn spec_report_id(bytes: Seq<u8>) -> Result<u8, ParseError> {
    if bytes.len() == 0 {
        Err(ParseError::ReadingBitsFailed(8))
    } else {
        Ok(bits_value(bytes, 0, 8) as u8)
    }
}

/// The number that the `count` bits of a report from bit `position` on
/// stand for, held in an `i64`.
///
/// The position may be right behind the last bit of the report, and not
/// further. At most 64 bits can be read, and only bits that the report has;
/// no bits stand for 0.
pub open spec fn spec_val(bytes: Seq<u8>, position: u32, count: u32) -> Result<i64, ParseError> {
    if position > 8 * bytes.len() {
        Err(ParseError::SkippingBitsFailed(position))
    } else if count > 64 || (count > 0 && position + count > 8 * bytes.len()) {
        Err(ParseError::ReadingBitsFailed(count))
    } else {
        Ok(as_i64(bits_value(bytes, position as int, count as nat)))
    }
}

/// Eight bits that start at a byte, read one by one, stand for that byte.
pub proof fn lemma_aligned_byte(bytes: Seq<u8>, index: int)
    requires
        0 <= index < bytes.len(),
    ensures
        bits_value(bytes, 8 * index, 8) == bytes[index],
{
    let byte = bytes[index];
    let start = 8 * index;
    reveal_with_fuel(bits_value, 9);
    assert(report_bit(bytes, start) == bit_set(byte, 0));
    assert(report_bit(bytes, start + 1) == bit_set(byte, 1));
    assert(report_bit(bytes, start + 2) == bit_set(byte, 2));
    assert(report_bit(bytes, start + 3) == bit_set(byte, 3));
    assert(report_bit(bytes, start + 4) == bit_set(byte, 4));
    assert(report_bit(bytes, start + 5) == bit_set(byte, 5));
    assert(report_bit(bytes, start + 6) == bit_set(byte, 6));
    assert(report_bit(bytes, start + 7) == bit_set(byte, 7));
    assert(byte == (if (byte >> 0u8) & 1 == 1 {
        1int
    } else {
        0int
    }) + 2 * ((if (byte >> 1u8) & 1 == 1 {
        1int
    } else {
        0int
    }) + 2 * ((if (byte >> 2u8) & 1 == 1 {
        1int
    } else {
        0int
    }) + 2 * ((if (byte >> 3u8) & 1 == 1 {
        1int
    } else {
        0int
    }) + 2 * ((if (byte >> 4u8) & 1 == 1 {
        1int
    } else {
        0int
    }) + 2 * ((if (byte >> 5u8) & 1 == 1 {
        1int
    } else {
        0int
    }) + 2 * ((if (byte >> 6u8) & 1 == 1 {
        1int
    } else {
        0int
    }) + 2 * (if (byte >> 7u8) & 1 == 1 {
        1int
    } else {
        0int
    })))))))) by (bit_vector);
}

/// Reads the report id from the first byte of a report.
pub fn report_id(input: &[u8]) -> (id: Result<u8, ParseError>)
    ensures
        id == spec_report_id(input@),
        id matches Ok(number) ==> number == input@[0],
{
    let mut reader = create_bit_reader(input);
    match read(&mut reader, 8) {
        Some(number) => {
            proof {
                lemma_aligned_byte(input@, 0);
            }
            Ok(number as u8)
        },
        None => Err(ParseError::ReadingBitsFailed(8)),
    }
}

/// Reads the `count` bits of a report from bit `position` on as a number.
pub fn val(input: &[u8], position: u32, count: u32) -> (number: Result<i64, ParseError>)
    ensures
        number == spec_val(input@, position, count),
{
    let mut reader = create_bit_reader(input);
    if !skip(&mut reader, position) {
        return Err(ParseError::SkippingBitsFailed(position));
    }
    match read(&mut reader, count) {
        Some(number) => Ok(number),
        None => Err(ParseError::ReadingBitsFailed(count)),
    }
}

} // verus!
