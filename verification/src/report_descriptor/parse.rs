//! The parser of report descriptors.
//!
//! A descriptor is parsed item by item until the input is used up. Each
//! parser takes the input that is left and returns what it parsed together
//! with the input that follows.

use crate::error::{Error, FailureKind, ParsingFailure};
use crate::report_descriptor::bit_set;
use crate::report_descriptor::data::{PrefixByte, Size, SizedPayload};
use crate::report_descriptor::{
    all_wf, encode, item_views, lemma_encode_first, Data, DataFieldOptions, GlobalType, ItemType,
    ItemView, Linear, LocalType, MainType, Mutability, NullState, ReportDescriptor,
    ReportDescriptorItem, State, Structure, Value, Volatile, Wrap,
};
use vstd::prelude::*;
use vstd::slice::slice_subrange;

verus! {

/// The prefix byte that opens a long item.
pub const LONG_ITEM_PREFIX: u8 = 0b1111_1110;

/// What the prefix byte at the start of `bytes` says: the size of the payload
/// and the type of the item.
pub open spec fn spec_size_and_type(bytes: Seq<u8>) -> Result<(Size, ItemType), FailureKind> {
    if bytes.len() == 0 {
        Err(FailureKind::PrefixMissing)
    } else if bytes[0] == LONG_ITEM_PREFIX {
        Err(FailureKind::LongItem)
    } else {
        match ItemType::of_prefix(bytes[0]) {
            None => Err(FailureKind::UnknownItemType(bytes[0])),
            Some(kind) => Ok((Size::of_prefix(bytes[0]), kind)),
        }
    }
}

/// The item at the start of `bytes`.
pub open spec fn spec_item(bytes: Seq<u8>) -> Result<ItemView, FailureKind> {
    match spec_size_and_type(bytes) {
        Err(kind) => Err(kind),
        Ok((size, kind)) => if bytes.len() < 1 + size.byte_count() {
            Err(
                FailureKind::PayloadTruncated {
                    expected: size.byte_count() as usize,
                    found: (bytes.len() - 1) as usize,
                },
            )
        } else {
            Ok(
                ItemView {
                    kind,
                    payload_size: size,
                    raw: bytes.subrange(0, 1 + size.byte_count() as int),
                },
            )
        },
    }
}

/// The items of `bytes` from the offset `start` on, or the failure at the
/// first item that cannot be parsed.
pub open spec fn spec_items(bytes: Seq<u8>, start: int) -> Result<Seq<ItemView>, Error>
    decreases bytes.len() - start,
{
    if start < 0 || start >= bytes.len() {
        Ok(Seq::empty())
    } else {
        match spec_item(bytes.skip(start)) {
            Err(kind) => Err(Error::failure(start as usize, kind)),
            Ok(item) => match spec_items(bytes, start + item.raw.len()) {
                Err(e) => Err(e),
                Ok(rest) => Ok(seq![item] + rest),
            },
        }
    }
}

/// The items of a descriptor: the items of `bytes`, which take up all of
/// `bytes`.
pub open spec fn spec_report_descriptor(bytes: Seq<u8>) -> Result<Seq<ItemView>, Error> {
    spec_items(bytes, 0)
}

/// An item that was parsed is well-formed, and it is a prefix of the input.
pub proof fn lemma_item_parsed(bytes: Seq<u8>)
    ensures
        spec_item(bytes) matches Ok(item) ==> item.wf() && item.raw.len() <= bytes.len()
            && item.raw == bytes.take(item.raw.len() as int),
{
    if let Ok(item) = spec_item(bytes) {
        PrefixByte::lemma_prefix_unique(bytes[0]);
    }
}

/// A payload of four bytes is written with the size bits 3, and the size
/// bits 3 are read as a payload of four bytes, never of three.
pub proof fn lemma_four_bytes_are_size_bits_three(
    kind: ItemType,
    payload: SizedPayload,
    bytes: Seq<u8>,
)
    ensures
        payload.spec_size() == Size::Four ==> ItemView::of(kind, payload).raw[0] & 0x3 == 3
            && ItemView::of(kind, payload).raw.len() == 5,
        bytes.len() > 0 && bytes[0] & 0x3 == 3 ==> (spec_item(bytes) matches Ok(item) ==> {
            &&& item.payload_size == Size::Four
            &&& item.raw.len() == 5
            &&& item.payload_bytes() == bytes.subrange(1, 5)
        }),
{
    if payload.spec_size() == Size::Four {
        let mask = kind.prefix_mask();
        kind.lemma_prefix_mask_round_trip();
        payload.lemma_bytes();
        assert(mask & 0x3 == 0 ==> (mask | 3) & 0x3 == 3) by (bit_vector);
    }
    if bytes.len() > 0 && bytes[0] & 0x3 == 3 {
        if let Ok(item) = spec_item(bytes) {
            assert(item.payload_bytes() =~= bytes.subrange(1, 5));
        }
    }
}

/// A well-formed item is parsed from its own bytes, whatever follows them.
proof fn lemma_item_of_raw(item: ItemView, tail: Seq<u8>)
    requires
        item.wf(),
    ensures
        spec_item(item.raw + tail) == Ok::<ItemView, FailureKind>(item),
{
    let bytes = item.raw + tail;
    PrefixByte::lemma_prefix_round_trip(item.kind, item.payload_size);
    assert(bytes[0] == item.raw[0]);
    assert(bytes.subrange(0, 1 + item.payload_size.byte_count() as int) =~= item.raw);
}

/// Parsing gives back the items that were written: the bytes of well-formed
/// items are parsed to just these items.
pub proof fn lemma_parse_of_encode(items: Seq<ItemView>)
    requires
        all_wf(items),
    ensures
        spec_report_descriptor(encode(items)) == Ok::<Seq<ItemView>, Error>(items),
{
    lemma_parse_suffix(Seq::empty(), items);
    assert(Seq::<u8>::empty() + encode(items) =~= encode(items));
}

/// The bytes of well-formed items, at the end of any input, are parsed to
/// just these items.
proof fn lemma_parse_suffix(head: Seq<u8>, items: Seq<ItemView>)
    requires
        all_wf(items),
    ensures
        spec_items(head + encode(items), head.len() as int) == Ok::<Seq<ItemView>, Error>(items),
    decreases items.len(),
{
    let bytes = head + encode(items);
    if items.len() == 0 {
        assert(encode(items) =~= Seq::<u8>::empty());
        assert(bytes.len() == head.len());
        assert(items =~= Seq::<ItemView>::empty());
    } else {
        let first = items[0];
        let rest = items.drop_first();
        assert(items =~= seq![first] + rest);
        assert(first.wf());
        lemma_encode_first(first, rest);
        assert(bytes.skip(head.len() as int) =~= first.raw + encode(rest));
        lemma_item_of_raw(first, encode(rest));
        assert(all_wf(rest)) by {
            assert forall|i: int| 0 <= i < rest.len() implies (#[trigger] rest[i]).wf() by {
                assert(rest[i] == items[i + 1]);
            }
        }
        lemma_parse_suffix(head + first.raw, rest);
        assert((head + first.raw) + encode(rest) =~= bytes);
    }
}

/// Writing gives back the bytes that were parsed: the items of a descriptor
/// are well-formed, and their bytes are the descriptor.
pub proof fn lemma_encode_of_parse(bytes: Seq<u8>)
    ensures
        spec_report_descriptor(bytes) matches Ok(items) ==> all_wf(items) && encode(items)
            == bytes,
{
    lemma_encode_of_parse_from(bytes, 0);
    assert(bytes.skip(0) =~= bytes);
}

/// The items parsed from an offset on are well-formed, and their bytes are
/// the input from that offset on.
proof fn lemma_encode_of_parse_from(bytes: Seq<u8>, start: int)
    requires
        0 <= start <= bytes.len(),
    ensures
        spec_items(bytes, start) matches Ok(items) ==> all_wf(items) && encode(items)
            == bytes.skip(start),
    decreases bytes.len() - start,
{
    if start >= bytes.len() {
        assert(encode(Seq::<ItemView>::empty()) =~= Seq::<u8>::empty());
        assert(bytes.skip(start) =~= Seq::<u8>::empty());
    } else if let Ok(items) = spec_items(bytes, start) {
        let tail = bytes.skip(start);
        let first = spec_item(tail)->Ok_0;
        lemma_item_parsed(tail);
        let next = start + first.raw.len();
        let rest = spec_items(bytes, next)->Ok_0;
        assert(items == seq![first] + rest);
        lemma_encode_of_parse_from(bytes, next);
        lemma_encode_first(first, rest);
        assert(first.raw + bytes.skip(next) =~= tail);
        assert forall|i: int| 0 <= i < items.len() implies (#[trigger] items[i]).wf() by {
            if i > 0 {
                assert(items[i] == rest[i - 1]);
            }
        }
    }
}

/// Parses the size of the payload from the prefix byte at the start of
/// `input`.
pub fn size<'a>(input: &'a [u8]) -> (parsed: Result<(&'a [u8], Size), Error>)
    ensures
        match parsed {
            Ok((rest, size)) => {
                &&& input@.len() > 0
                &&& rest@ == input@.skip(1)
                &&& size == Size::of_prefix(input@[0])
            },
            Err(e) => input@.len() == 0 && e == Error::failure(0, FailureKind::PrefixMissing),
        },
{
    if input.len() == 0 {
        return Err(
            Error::ParsingFailed(ParsingFailure { offset: 0, kind: FailureKind::PrefixMissing }),
        );
    }
    Ok((slice_subrange(input, 1, input.len()), Size::from_prefix(input[0])))
}

/// Parses the item type from the prefix byte at the start of `input`.
pub fn item_type<'a>(input: &'a [u8]) -> (parsed: Result<(&'a [u8], ItemType), Error>)
    ensures
        match parsed {
            Ok((rest, kind)) => {
                &&& input@.len() > 0
                &&& rest@ == input@.skip(1)
                &&& ItemType::of_prefix(input@[0]) == Some(kind)
            },
            Err(e) => if input@.len() == 0 {
                e == Error::failure(0, FailureKind::PrefixMissing)
            } else {
                &&& ItemType::of_prefix(input@[0]) is None
                &&& e == Error::failure(0, FailureKind::UnknownItemType(input@[0]))
            },
        },
{
    if input.len() == 0 {
        return Err(
            Error::ParsingFailed(ParsingFailure { offset: 0, kind: FailureKind::PrefixMissing }),
        );
    }
    let prefix = input[0];
    let kind = match prefix & 0xFC {
        0b1000_0000 => ItemType::Main(MainType::Input),
        0b1001_0000 => ItemType::Main(MainType::Output),
        0b1011_0000 => ItemType::Main(MainType::Feature),
        0b1010_0000 => ItemType::Main(MainType::Collection),
        0b1100_0000 => ItemType::Main(MainType::EndCollection),
        0b0000_0100 => ItemType::Global(GlobalType::UsagePage),
        0b0001_0100 => ItemType::Global(GlobalType::LogicalMinimum),
        0b0010_0100 => ItemType::Global(GlobalType::LogicalMaximum),
        0b0011_0100 => ItemType::Global(GlobalType::PhysicalMinimum),
        0b0100_0100 => ItemType::Global(GlobalType::PhysicalMaximum),
        0b0101_0100 => ItemType::Global(GlobalType::UnitExponent),
        0b0110_0100 => ItemType::Global(GlobalType::Unit),
        0b0111_0100 => ItemType::Global(GlobalType::ReportSize),
        0b1000_0100 => ItemType::Global(GlobalType::ReportID),
        0b1001_0100 => ItemType::Global(GlobalType::ReportCount),
        0b1010_0100 => ItemType::Global(GlobalType::Push),
        0b1011_0100 => ItemType::Global(GlobalType::Pop),
        0b0000_1000 => ItemType::Local(LocalType::Usage),
        0b0001_1000 => ItemType::Local(LocalType::UsageMinimum),
        0b0010_1000 => ItemType::Local(LocalType::UsageMaximum),
        0b0011_1000 => ItemType::Local(LocalType::DesignatorIndex),
        0b0100_1000 => ItemType::Local(LocalType::DesignatorMinimum),
        0b0101_1000 => ItemType::Local(LocalType::DesignatorMaximum),
        0b0111_1000 => ItemType::Local(LocalType::StringIndex),
        0b1000_1000 => ItemType::Local(LocalType::StringMinimum),
        0b1001_1000 => ItemType::Local(LocalType::StringMaximum),
        0b1010_1000 => ItemType::Local(LocalType::Delimiter),
        _ => {
            return Err(
                Error::ParsingFailed(
                    ParsingFailure { offset: 0, kind: FailureKind::UnknownItemType(prefix) },
                ),
            );
        },
    };
    Ok((slice_subrange(input, 1, input.len()), kind))
}

/// Parses the size of the payload and the item type from the prefix byte at
/// the start of `input`. The prefix byte of a long item is refused.
pub fn size_and_type<'a>(input: &'a [u8]) -> (parsed: Result<
    (&'a [u8], (Size, ItemType)),
    Error,
>)
    ensures
        match parsed {
            Ok((rest, found)) => {
                &&& spec_size_and_type(input@) == Ok::<(Size, ItemType), FailureKind>(found)
                &&& rest@ == input@.skip(1)
            },
            Err(e) => {
                &&& spec_size_and_type(input@) matches Err(kind)
                &&& e == Error::failure(0, kind)
            },
        },
{
    if input.len() == 0 {
        return Err(
            Error::ParsingFailed(ParsingFailure { offset: 0, kind: FailureKind::PrefixMissing }),
        );
    }
    if input[0] == LONG_ITEM_PREFIX {
        return Err(
            Error::ParsingFailed(ParsingFailure { offset: 0, kind: FailureKind::LongItem }),
        );
    }
    let kind = match item_type(input) {
        Ok((_, kind)) => kind,
        Err(e) => {
            return Err(e);
        },
    };
    match size(input) {
        Ok((rest, size)) => Ok((rest, (size, kind))),
        Err(e) => Err(e),
    }
}

/// Parses the item at the start of `input`.
pub fn descriptor_item<'a>(input: &'a [u8]) -> (parsed: Result<
    (&'a [u8], ReportDescriptorItem),
    Error,
>)
    ensures
        match parsed {
            Ok((rest, item)) => {
                &&& spec_item(input@) == Ok::<ItemView, FailureKind>(item@)
                &&& rest@ == input@.skip(item@.raw.len() as int)
            },
            Err(e) => {
                &&& spec_item(input@) matches Err(kind)
                &&& e == Error::failure(0, kind)
            },
        },
{
    let (rest, (size, kind)) = match size_and_type(input) {
        Ok(found) => found,
        Err(e) => {
            return Err(e);
        },
    };
    let count = size.to_usize();
    if rest.len() < count {
        return Err(
            Error::ParsingFailed(
                ParsingFailure {
                    offset: 0,
                    kind: FailureKind::PayloadTruncated { expected: count, found: rest.len() },
                },
            ),
        );
    }
    let raw = vstd::slice::slice_to_vec(slice_subrange(input, 0, 1 + count));
    let item = ReportDescriptorItem { kind, payload_size: size, raw };
    Ok((slice_subrange(input, 1 + count, input.len()), item))
}

/// What is known of the whole input when the items before `pos` have been
/// parsed and the rest is yet to be parsed.
pub open spec fn joined(items: Seq<ItemView>, rest: Result<Seq<ItemView>, Error>) -> Result<
    Seq<ItemView>,
    Error,
> {
    match rest {
        Ok(more) => Ok(items + more),
        Err(e) => Err(e),
    }
}

/// Parses all of `input` into a report descriptor. The input that is left
/// over is empty.
pub fn full_report_descriptor<'a>(input: &'a [u8]) -> (parsed: Result<
    (&'a [u8], ReportDescriptor),
    Error,
>)
    ensures
        match parsed {
            Ok((rest, descriptor)) => {
                &&& spec_report_descriptor(input@) == Ok::<Seq<ItemView>, Error>(descriptor@)
                &&& rest@.len() == 0
                &&& descriptor.wf()
                &&& encode(descriptor@) == input@
            },
            Err(e) => spec_report_descriptor(input@) == Err::<Seq<ItemView>, Error>(e),
        },
{
    let mut items: Vec<ReportDescriptorItem> = Vec::new();
    let mut pos: usize = 0;
    proof {
        assert(item_views(items@) =~= Seq::<ItemView>::empty());
        assert(joined(item_views(items@), spec_items(input@, 0)) == spec_items(input@, 0)) by {
            if let Ok(more) = spec_items(input@, 0) {
                assert(Seq::<ItemView>::empty() + more =~= more);
            }
        }
    }
    while pos < input.len()
        invariant
            pos <= input.len(),
            spec_items(input@, 0) == joined(item_views(items@), spec_items(input@, pos as int)),
        decreases input.len() - pos,
    {
        let tail = slice_subrange(input, pos, input.len());
        assert(tail@ =~= input@.skip(pos as int));
        match descriptor_item(tail) {
            Err(e) => {
                let failure = match e {
                    Error::ParsingFailed(f) => Error::ParsingFailed(
                        ParsingFailure { offset: pos, kind: f.kind },
                    ),
                    Error::PayloadEmpty => Error::PayloadEmpty,
                };
                return Err(failure);
            },
            Ok((_, item)) => {
                proof {
                    lemma_item_parsed(tail@);
                    let before = item_views(items@);
                    let after = item_views(items@.push(item));
                    assert(after =~= before.push(item@));
                    if let Ok(more) = spec_items(input@, pos + item@.raw.len()) {
                        assert(before + (seq![item@] + more) =~= after + more);
                    }
                }
                pos = pos + item.raw.len();
                items.push(item);
            },
        }
    }
    proof {
        assert(item_views(items@) + Seq::<ItemView>::empty() =~= item_views(items@));
        lemma_encode_of_parse(input@);
    }
    Ok((slice_subrange(input, input.len(), input.len()), ReportDescriptor::new(items)))
}

/// Parses the bytes of a report descriptor.
///
/// The bytes are a descriptor if they are the bytes of a sequence of items
/// and nothing else. The result holds these items, each of them well-formed,
/// and writing them gives the bytes back. Otherwise the error names the
/// offset of the first item that cannot be parsed, and what is wrong with it.
pub fn report_descriptor(input: &[u8]) -> (parsed: Result<ReportDescriptor, Error>)
    ensures
        match parsed {
            Ok(descriptor) => {
                &&& spec_report_descriptor(input@) == Ok::<Seq<ItemView>, Error>(descriptor@)
                &&& descriptor.wf()
                &&& encode(descriptor@) == input@
            },
            Err(e) => spec_report_descriptor(input@) == Err::<Seq<ItemView>, Error>(e),
        },
{
    match full_report_descriptor(input) {
        Ok((_, descriptor)) => Ok(descriptor),
        Err(e) => Err(e),
    }
}

/// Bit `pos` of the bit stream that `bytes` form when each byte is read from
/// its most significant bit on.
#[verifier::opaque]
pub open spec fn stream_bit(bytes: Seq<u8>, pos: int) -> bool {
    bit_set(bytes[pos / 8], (7 - pos % 8) as u8)
}

/// The state of a bit cursor over `bytes` at bit `offset` of the first byte,
/// moved on by `count` bits: the bytes that are left and the offset in the
/// first of them.
pub open spec fn advanced(bytes: Seq<u8>, offset: int, count: int) -> (Seq<u8>, int) {
    (bytes.skip((offset + count) / 8), (offset + count) % 8)
}

/// True if the cursor `input` stands where a cursor over `bytes` at `offset`
/// stands after `count` bits.
#[verifier::opaque]
pub open spec fn cursor_at(input: (&[u8], usize), bytes: Seq<u8>, offset: int, count: int) -> bool {
    &&& (offset + count) / 8 <= bytes.len()
    &&& input.0@ == advanced(bytes, offset, count).0
    &&& input.1 == advanced(bytes, offset, count).1
}

/// True if `count` bits can be read at the cursor `input`: the cursor
/// points into a byte, and the input holds the bits. No bits can be read
/// wherever the cursor points in its byte.
pub open spec fn has_bits(input: (&[u8], usize), count: int) -> bool {
    input.1 < 8 && (count == 0 || input.1 + count <= 8 * input.0@.len())
}

/// The error of a bit-level parser on the cursor `input`.
pub open spec fn bit_failure(input: (&[u8], usize)) -> Error {
    if input.1 >= 8 {
        Error::failure(0, FailureKind::BitOffsetInvalid)
    } else {
        Error::failure(0, FailureKind::BitsMissing)
    }
}

/// Reads one bit at the cursor `input`, from the most significant bit of
/// each byte on.
pub fn bit<'a>(input: (&'a [u8], usize)) -> (parsed: Result<((&'a [u8], usize), bool), Error>)
    ensures
        match parsed {
            Ok((rest, value)) => {
                &&& has_bits(input, 1)
                &&& value == stream_bit(input.0@, input.1 as int)
                &&& cursor_at(rest, input.0@, input.1 as int, 1)
            },
            Err(e) => !has_bits(input, 1) && e == bit_failure(input),
        },
{
    let (bytes, offset) = input;
    proof {
        reveal(stream_bit);
        reveal(cursor_at);
    }
    if offset >= 8 {
        return Err(
            Error::ParsingFailed(
                ParsingFailure { offset: 0, kind: FailureKind::BitOffsetInvalid },
            ),
        );
    }
    if bytes.len() == 0 {
        return Err(
            Error::ParsingFailed(ParsingFailure { offset: 0, kind: FailureKind::BitsMissing }),
        );
    }
    let shift: u8 = 7 - offset as u8;
    let value = (bytes[0] >> shift) & 1 == 1;
    if offset == 7 {
        Ok(((slice_subrange(bytes, 1, bytes.len()), 0), value))
    } else {
        assert(bytes@.skip(0) =~= bytes@);
        Ok(((bytes, offset + 1), value))
    }
}

/// Skips `count` bits at the cursor `input`.
pub fn skip_bits<'a>(input: (&'a [u8], usize), count: u8) -> (parsed: Result<
    (&'a [u8], usize),
    Error,
>)
    ensures
        match parsed {
            Ok(rest) => {
                &&& has_bits(input, count as int)
                &&& cursor_at(rest, input.0@, input.1 as int, count as int)
            },
            Err(e) => !has_bits(input, count as int) && e == bit_failure(input),
        },
{
    let (bytes, offset) = input;
    proof {
        reveal(cursor_at);
    }
    if offset >= 8 {
        return Err(
            Error::ParsingFailed(
                ParsingFailure { offset: 0, kind: FailureKind::BitOffsetInvalid },
            ),
        );
    }
    if count == 0 {
        assert(bytes@.skip(0) =~= bytes@);
        return Ok(input);
    }
    let end: usize = offset + count as usize;
    let whole: usize = end / 8;
    if bytes.len() < whole || (bytes.len() == whole && end % 8 != 0) {
        return Err(
            Error::ParsingFailed(ParsingFailure { offset: 0, kind: FailureKind::BitsMissing }),
        );
    }
    Ok((slice_subrange(bytes, whole, bytes.len()), end % 8))
}

/// A cursor that was moved on by `count` bits and then by one more was
/// moved on by `count + 1` bits, and the bit it read in between is bit
/// `offset + count` of the stream.
proof fn lemma_cursor_step(
    bytes: Seq<u8>,
    offset: int,
    count: int,
    at: (&[u8], usize),
    next: (&[u8], usize),
)
    requires
        0 <= offset < 8,
        0 <= count,
        cursor_at(at, bytes, offset, count),
        has_bits(at, 1),
        cursor_at(next, at.0@, at.1 as int, 1),
    ensures
        cursor_at(next, bytes, offset, count + 1),
        stream_bit(at.0@, at.1 as int) == stream_bit(bytes, offset + count),
        offset + count + 1 <= 8 * bytes.len(),
{
    reveal(stream_bit);
    reveal(cursor_at);
    let whole = (offset + count) / 8;
    assert(at.0@.len() > 0);
    assert(whole < bytes.len());
    assert(at.0@[0] == bytes[whole]);
    assert(bytes.skip(whole).skip((at.1 + 1) / 8) =~= bytes.skip((offset + count + 1) / 8));
}

/// A cursor that stands at the end of the input has no bit left.
proof fn lemma_cursor_end(bytes: Seq<u8>, offset: int, count: int, at: (&[u8], usize))
    requires
        0 <= offset < 8,
        0 <= count,
        cursor_at(at, bytes, offset, count),
        !has_bits(at, 1),
    ensures
        offset + count + 1 > 8 * bytes.len(),
        at.1 < 8,
{
    reveal(cursor_at);
}

/// A cursor stands where it stands after no bits.
proof fn lemma_cursor_start(input: (&[u8], usize))
    requires
        input.1 < 8,
    ensures
        cursor_at(input, input.0@, input.1 as int, 0),
{
    reveal(cursor_at);
    assert(input.0@.skip(0) =~= input.0@);
}

/// Parses the Mutability flag from one bit.
pub fn mutability<'a>(input: (&'a [u8], usize)) -> (parsed: Result<
    ((&'a [u8], usize), Mutability),
    Error,
>)
    ensures
        match parsed {
            Ok((rest, flag)) => {
                &&& has_bits(input, 1)
                &&& flag == Mutability::of_bit(stream_bit(input.0@, input.1 as int))
                &&& cursor_at(rest, input.0@, input.1 as int, 1)
            },
            Err(e) => !has_bits(input, 1) && e == bit_failure(input),
        },
{
    match bit(input) {
        Ok((rest, true)) => Ok((rest, Mutability::Constant)),
        Ok((rest, false)) => Ok((rest, Mutability::Data)),
        Err(e) => Err(e),
    }
}

/// Parses the Structure flag from one bit.
pub fn structure<'a>(input: (&'a [u8], usize)) -> (parsed: Result<
    ((&'a [u8], usize), Structure),
    Error,
>)
    ensures
        match parsed {
            Ok((rest, flag)) => {
                &&& has_bits(input, 1)
                &&& flag == Structure::of_bit(stream_bit(input.0@, input.1 as int))
                &&& cursor_at(rest, input.0@, input.1 as int, 1)
            },
            Err(e) => !has_bits(input, 1) && e == bit_failure(input),
        },
{
    match bit(input) {
        Ok((rest, true)) => Ok((rest, Structure::Variable)),
        Ok((rest, false)) => Ok((rest, Structure::Array)),
        Err(e) => Err(e),
    }
}

/// Parses the Value flag from one bit.
pub fn value<'a>(input: (&'a [u8], usize)) -> (parsed: Result<((&'a [u8], usize), Value), Error>)
    ensures
        match parsed {
            Ok((rest, flag)) => {
                &&& has_bits(input, 1)
                &&& flag == Value::of_bit(stream_bit(input.0@, input.1 as int))
                &&& cursor_at(rest, input.0@, input.1 as int, 1)
            },
            Err(e) => !has_bits(input, 1) && e == bit_failure(input),
        },
{
    match bit(input) {
        Ok((rest, true)) => Ok((rest, Value::Relative)),
        Ok((rest, false)) => Ok((rest, Value::Absolute)),
        Err(e) => Err(e),
    }
}

/// Parses the Wrap flag from one bit.
pub fn wrap<'a>(input: (&'a [u8], usize)) -> (parsed: Result<((&'a [u8], usize), Wrap), Error>)
    ensures
        match parsed {
            Ok((rest, flag)) => {
                &&& has_bits(input, 1)
                &&& flag == Wrap::of_bit(stream_bit(input.0@, input.1 as int))
                &&& cursor_at(rest, input.0@, input.1 as int, 1)
            },
            Err(e) => !has_bits(input, 1) && e == bit_failure(input),
        },
{
    match bit(input) {
        Ok((rest, true)) => Ok((rest, Wrap::Wrap)),
        Ok((rest, false)) => Ok((rest, Wrap::NoWrap)),
        Err(e) => Err(e),
    }
}

/// Parses the Linear flag from one bit.
pub fn linear<'a>(input: (&'a [u8], usize)) -> (parsed: Result<
    ((&'a [u8], usize), Linear),
    Error,
>)
    ensures
        match parsed {
            Ok((rest, flag)) => {
                &&& has_bits(input, 1)
                &&& flag == Linear::of_bit(stream_bit(input.0@, input.1 as int))
                &&& cursor_at(rest, input.0@, input.1 as int, 1)
            },
            Err(e) => !has_bits(input, 1) && e == bit_failure(input),
        },
{
    match bit(input) {
        Ok((rest, true)) => Ok((rest, Linear::NonLinear)),
        Ok((rest, false)) => Ok((rest, Linear::Linear)),
        Err(e) => Err(e),
    }
}

/// Parses the State flag from one bit.
pub fn state<'a>(input: (&'a [u8], usize)) -> (parsed: Result<((&'a [u8], usize), State), Error>)
    ensures
        match parsed {
            Ok((rest, flag)) => {
                &&& has_bits(input, 1)
                &&& flag == State::of_bit(stream_bit(input.0@, input.1 as int))
                &&& cursor_at(rest, input.0@, input.1 as int, 1)
            },
            Err(e) => !has_bits(input, 1) && e == bit_failure(input),
        },
{
    match bit(input) {
        Ok((rest, true)) => Ok((rest, State::NoPreferred)),
        Ok((rest, false)) => Ok((rest, State::Preferred)),
        Err(e) => Err(e),
    }
}

/// Parses the NullState flag from one bit.
pub fn null_state<'a>(input: (&'a [u8], usize)) -> (parsed: Result<
    ((&'a [u8], usize), NullState),
    Error,
>)
    ensures
        match parsed {
            Ok((rest, flag)) => {
                &&& has_bits(input, 1)
                &&& flag == NullState::of_bit(stream_bit(input.0@, input.1 as int))
                &&& cursor_at(rest, input.0@, input.1 as int, 1)
            },
            Err(e) => !has_bits(input, 1) && e == bit_failure(input),
        },
{
    match bit(input) {
        Ok((rest, true)) => Ok((rest, NullState::NullState)),
        Ok((rest, false)) => Ok((rest, NullState::NoNullPosition)),
        Err(e) => Err(e),
    }
}

/// Parses the Volatile flag from one bit.
pub fn volatile<'a>(input: (&'a [u8], usize)) -> (parsed: Result<
    ((&'a [u8], usize), Volatile),
    Error,
>)
    ensures
        match parsed {
            Ok((rest, flag)) => {
                &&& has_bits(input, 1)
                &&& flag == Volatile::of_bit(stream_bit(input.0@, input.1 as int))
                &&& cursor_at(rest, input.0@, input.1 as int, 1)
            },
            Err(e) => !has_bits(input, 1) && e == bit_failure(input),
        },
{
    match bit(input) {
        Ok((rest, true)) => Ok((rest, Volatile::Volatile)),
        Ok((rest, false)) => Ok((rest, Volatile::NonVolatile)),
        Err(e) => Err(e),
    }
}

/// Parses the Data flag from one bit.
pub fn data<'a>(input: (&'a [u8], usize)) -> (parsed: Result<((&'a [u8], usize), Data), Error>)
    ensures
        match parsed {
            Ok((rest, flag)) => {
                &&& has_bits(input, 1)
                &&& flag == Data::of_bit(stream_bit(input.0@, input.1 as int))
                &&& cursor_at(rest, input.0@, input.1 as int, 1)
            },
            Err(e) => !has_bits(input, 1) && e == bit_failure(input),
        },
{
    match bit(input) {
        Ok((rest, true)) => Ok((rest, Data::BufferedBytes)),
        Ok((rest, false)) => Ok((rest, Data::BitField)),
        Err(e) => Err(e),
    }
}

/// The number of bits that the options take in a payload of size `size`.
pub open spec fn option_bits(size: Size) -> int {
    8 * (DataFieldOptions::flag_bytes(size) as int)
}

/// The options that the bit stream of `bytes` holds from bit `offset` on,
/// for a payload of size `size`.
///
/// A payload of two bytes begins with 7 reserved bits, and a payload of four
/// bytes with 23; the Data flag follows them. A payload of one byte has
/// neither. Then come, one bit each, the flags Volatile, NullState, State,
/// Linear, Wrap, Value, Structure and Mutability.
pub open spec fn options_at(bytes: Seq<u8>, offset: int, size: Size) -> DataFieldOptions {
    let last = offset + option_bits(size) - 1;
    DataFieldOptions(
        Mutability::of_bit(stream_bit(bytes, last)),
        Structure::of_bit(stream_bit(bytes, last - 1)),
        Value::of_bit(stream_bit(bytes, last - 2)),
        Wrap::of_bit(stream_bit(bytes, last - 3)),
        Linear::of_bit(stream_bit(bytes, last - 4)),
        State::of_bit(stream_bit(bytes, last - 5)),
        NullState::of_bit(stream_bit(bytes, last - 6)),
        Volatile::of_bit(stream_bit(bytes, last - 7)),
        match size {
            Size::Four => Data::of_bit(stream_bit(bytes, last - 8)),
            Size::Two => Data::of_bit(stream_bit(bytes, last - 8)),
            _ => Data::BitField,
        },
    )
}

/// Read from the start of a payload, the options of the bit stream are the
/// options of the payload bytes.
pub proof fn lemma_options_at_start(bytes: Seq<u8>, size: Size)
    ensures
        options_at(bytes, 0, size) == DataFieldOptions::of_payload(bytes, size),
{
    reveal(stream_bit);
}

/// Parses the options of an Input, Output or Feature item at the cursor
/// `input`, for a payload of size `bytes_to_parse`.
pub fn data_field_options<'a>(input: (&'a [u8], usize), bytes_to_parse: Size) -> (parsed: Result<
    ((&'a [u8], usize), DataFieldOptions),
    Error,
>)
    ensures
        match parsed {
            Ok((rest, options)) => {
                &&& has_bits(input, option_bits(bytes_to_parse))
                &&& options == options_at(input.0@, input.1 as int, bytes_to_parse)
                &&& cursor_at(rest, input.0@, input.1 as int, option_bits(bytes_to_parse))
            },
            Err(e) => !has_bits(input, option_bits(bytes_to_parse)) && e == bit_failure(input),
        },
{
    let ghost bytes = input.0@;
    let ghost offset = input.1 as int;
    if input.1 >= 8 {
        return Err(
            Error::ParsingFailed(
                ParsingFailure { offset: 0, kind: FailureKind::BitOffsetInvalid },
            ),
        );
    }
    let (input0, data) = match bytes_to_parse {
        Size::Four => {
            let skipped = match skip_bits(input, 23) {
                Ok(rest) => rest,
                Err(e) => {
                    return Err(e);
                },
            };
            match data(skipped) {
                Ok((rest, flag)) => {
                    proof {
                        lemma_cursor_step(bytes, offset, 23, skipped, rest);
                    }
                    (rest, flag)
                },
                Err(e) => {
                    proof {
                        lemma_cursor_end(bytes, offset, 23, skipped);
                    }
                    return Err(e);
                },
            }
        },
        Size::Two => {
            let skipped = match skip_bits(input, 7) {
                Ok(rest) => rest,
                Err(e) => {
                    return Err(e);
                },
            };
            match data(skipped) {
                Ok((rest, flag)) => {
                    proof {
                        lemma_cursor_step(bytes, offset, 7, skipped, rest);
                    }
                    (rest, flag)
                },
                Err(e) => {
                    proof {
                        lemma_cursor_end(bytes, offset, 7, skipped);
                    }
                    return Err(e);
                },
            }
        },
        _ => {
            proof {
                lemma_cursor_start(input);
            }
            (input, Data::BitField)
        },
    };
    let ghost first = option_bits(bytes_to_parse) - 8;
    let (input1, volatile) = match volatile(input0) {
        Ok(found) => found,
        Err(e) => {
            proof {
                lemma_cursor_end(bytes, offset, first, input0);
            }
            return Err(e);
        },
    };
    proof {
        lemma_cursor_step(bytes, offset, first, input0, input1);
    }
    let (input2, null_state) = match null_state(input1) {
        Ok(found) => found,
        Err(e) => {
            proof {
                lemma_cursor_end(bytes, offset, first + 1, input1);
            }
            return Err(e);
        },
    };
    proof {
        lemma_cursor_step(bytes, offset, first + 1, input1, input2);
    }
    let (input3, state) = match state(input2) {
        Ok(found) => found,
        Err(e) => {
            proof {
                lemma_cursor_end(bytes, offset, first + 2, input2);
            }
            return Err(e);
        },
    };
    proof {
        lemma_cursor_step(bytes, offset, first + 2, input2, input3);
    }
    let (input4, linear) = match linear(input3) {
        Ok(found) => found,
        Err(e) => {
            proof {
                lemma_cursor_end(bytes, offset, first + 3, input3);
            }
            return Err(e);
        },
    };
    proof {
        lemma_cursor_step(bytes, offset, first + 3, input3, input4);
    }
    let (input5, wrap) = match wrap(input4) {
        Ok(found) => found,
        Err(e) => {
            proof {
                lemma_cursor_end(bytes, offset, first + 4, input4);
            }
            return Err(e);
        },
    };
    proof {
        lemma_cursor_step(bytes, offset, first + 4, input4, input5);
    }
    let (input6, val) = match value(input5) {
        Ok(found) => found,
        Err(e) => {
            proof {
                lemma_cursor_end(bytes, offset, first + 5, input5);
            }
            return Err(e);
        },
    };
    proof {
        lemma_cursor_step(bytes, offset, first + 5, input5, input6);
    }
    let (input7, structure) = match structure(input6) {
        Ok(found) => found,
        Err(e) => {
            proof {
                lemma_cursor_end(bytes, offset, first + 6, input6);
            }
            return Err(e);
        },
    };
    proof {
        lemma_cursor_step(bytes, offset, first + 6, input6, input7);
    }
    let (input8, mutability) = match mutability(input7) {
        Ok(found) => found,
        Err(e) => {
            proof {
                lemma_cursor_end(bytes, offset, first + 7, input7);
            }
            return Err(e);
        },
    };
    proof {
        lemma_cursor_step(bytes, offset, first + 7, input7, input8);
    }
    Ok(
        (
            input8,
            DataFieldOptions(
                mutability,
                structure,
                val,
                wrap,
                linear,
                state,
                null_state,
                volatile,
                data,
            ),
        ),
    )
}

/// Parses the options of an Input, Output or Feature item from the payload
/// bytes `payload` of size `bytes_to_parse`.
///
/// An empty payload has no options. A payload that is shorter than its size
/// says cannot be parsed.
pub fn data_field_options_from_payload(payload: &[u8], bytes_to_parse: Size) -> (parsed: Result<
    DataFieldOptions,
    Error,
>)
    ensures
        match parsed {
            Ok(options) => {
                &&& payload@.len() >= DataFieldOptions::flag_bytes(bytes_to_parse)
                &&& options == DataFieldOptions::of_payload(payload@, bytes_to_parse)
            },
            Err(e) => if payload@.len() == 0 {
                e == Error::PayloadEmpty
            } else {
                &&& payload@.len() < DataFieldOptions::flag_bytes(bytes_to_parse)
                &&& e == Error::failure(0, FailureKind::BitsMissing)
            },
        },
{
    if payload.len() == 0 {
        return Err(Error::PayloadEmpty);
    }
    proof {
        lemma_options_at_start(payload@, bytes_to_parse);
    }
    match data_field_options((payload, 0), bytes_to_parse) {
        Ok((_, options)) => Ok(options),
        Err(e) => Err(e),
    }
}

} // verus!
