//! Errors of the descriptor codec.

use vstd::prelude::*;

verus! {

/// Why the bytes at some offset do not start a descriptor item.
#[derive(Clone, Copy, Debug, PartialEq, Eq, Structural)]
pub enum FailureKind {
    /// The input ends where a prefix byte is due.
    PrefixMissing,
    /// The upper six bits of the prefix byte, which is kept here, name no
    /// item type.
    UnknownItemType(u8),
    /// The prefix byte opens a long item, for which no tag is defined.
    LongItem,
    /// The input ends before the payload that the prefix byte announces.
    PayloadTruncated { expected: usize, found: usize },
    /// The bit cursor does not point into a byte.
    BitOffsetInvalid,
    /// The input ends before the bits that are to be read.
    BitsMissing,
}

/// Where and why parsing stopped.
#[derive(Clone, Copy, Debug, PartialEq, Eq, Structural)]
pub struct ParsingFailure {
    /// Offset, in bytes from the start of the input, of the item that could
    /// not be parsed.
    pub offset: usize,
    /// What is wrong at that offset.
    pub kind: FailureKind,
}

/// An error of the descriptor codec.
#[derive(Clone, Copy, Debug, PartialEq, Eq, Structural)]
pub enum Error {
    /// The bytes are not a well-formed descriptor.
    ParsingFailed(ParsingFailure),
    /// An Input, Output or Feature item has no payload to take its options
    /// from.
    PayloadEmpty,
}

impl Error {
    /// The parsing failure of kind `kind` at byte offset `offset`.
    pub open spec fn failure(offset: usize, kind: FailureKind) -> Error {
        Error::ParsingFailed(ParsingFailure { offset, kind })
    }
}

} // verus!
