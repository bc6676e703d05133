//! Payloads, payload sizes and prefix bytes of descriptor items.

use crate::report_descriptor::{GlobalType, ItemType, LocalType, MainType};
use vstd::prelude::*;
use vstd::std_specs::cmp::PartialEqSpecImpl;
use vstd::std_specs::convert::{FromSpecImpl, TryFromSpecImpl};

verus! {

/// Byte `k`, counted from the least significant one, of `value` written in
/// two's complement.
pub open spec fn le_byte(value: int, k: int) -> u8 {
    if k == 0 {
        (value % 0x100) as u8
    } else if k == 1 {
        (value / 0x100 % 0x100) as u8
    } else if k == 2 {
        (value / 0x1_0000 % 0x100) as u8
    } else {
        (value / 0x100_0000 % 0x100) as u8
    }
}

/// Adding a multiple of 2^32 to a number leaves its four low bytes as they
/// are.
proof fn lemma_le_byte_wraps(value: int, k: int)
    ensures
        le_byte(value + 0x1_0000_0000, k) == le_byte(value, k),
{
    if k == 0 {
        assert((value + 0x1_0000_0000) % 0x100 == value % 0x100);
    } else if k == 1 {
        assert((value + 0x1_0000_0000) / 0x100 == value / 0x100 + 0x100_0000);
    } else if k == 2 {
        assert((value + 0x1_0000_0000) / 0x1_0000 == value / 0x1_0000 + 0x1_0000);
    } else {
        assert((value + 0x1_0000_0000) / 0x100_0000 == value / 0x100_0000 + 0x100);
    }
}

/// The size of the payload of a descriptor item.
///
/// A payload has 0, 1, 2 or 4 bytes. The two size bits of a prefix byte count
/// 0, 1, 2 and 3, where 3 stands for 4 bytes.
#[derive(Clone, Copy, Debug, PartialEq, Eq, Structural)]
pub enum Size {
    /// No payload.
    Empty,
    /// One byte.
    One,
    /// Two bytes.
    Two,
    /// Four bytes.
    Four,
}

impl Size {
    /// The number of payload bytes.
    pub open spec fn byte_count(self) -> nat {
        match self {
            Size::Empty => 0,
            Size::One => 1,
            Size::Two => 2,
            Size::Four => 4,
        }
    }

    /// The two size bits that stand for this size in a prefix byte.
    pub open spec fn size_bits(self) -> u8 {
        match self {
            Size::Empty => 0,
            Size::One => 1,
            Size::Two => 2,
            Size::Four => 3,
        }
    }

    /// The size that the lower two bits of a prefix byte stand for.
    pub open spec fn of_prefix(prefix: u8) -> Size {
        let bits = prefix & 0x3;
        if bits == 0 {
            Size::Empty
        } else if bits == 1 {
            Size::One
        } else if bits == 2 {
            Size::Two
        } else {
            Size::Four
        }
    }

    /// The size of a payload of `len` bytes, if there is one.
    pub open spec fn of_len(len: nat) -> Option<Size> {
        if len == 0 {
            Some(Size::Empty)
        } else if len == 1 {
            Some(Size::One)
        } else if len == 2 {
            Some(Size::Two)
        } else if len == 4 {
            Some(Size::Four)
        } else {
            None
        }
    }

    /// Returns the number of payload bytes.
    pub fn to_usize(&self) -> (count: usize)
        ensures
            count == self.byte_count(),
    {
        match self {
            Size::Empty => 0,
            Size::One => 1,
            Size::Two => 2,
            Size::Four => 4,
        }
    }

    /// Returns the size that the lower two bits of a prefix byte stand for.
    pub fn from_prefix(prefix: u8) -> (size: Size)
        ensures
            size == Size::of_prefix(prefix),
    {
        let bits: u8 = prefix & 0x3;
        if bits == 0 {
            Size::Empty
        } else if bits == 1 {
            Size::One
        } else if bits == 2 {
            Size::Two
        } else {
            Size::Four
        }
    }

    /// Size bits 3 stand for four bytes, never for three, and only they do;
    /// a payload of four bytes is written with size bits 3.
    pub proof fn lemma_size_bits_three_is_four(prefix: u8)
        ensures
            Size::Four.size_bits() == 3,
            Size::Four.byte_count() == 4,
            Size::of_prefix(prefix) == Size::Four <==> prefix & 0x3 == 3,
            Size::of_prefix(prefix).byte_count() != 3,
    {
        assert(prefix & 0x3 <= 3) by (bit_vector);
    }

    /// The size bits of a size lead back to the size, whatever the upper six
    /// bits of the prefix byte hold.
    pub proof fn lemma_size_bits_round_trip(size: Size, upper: u8)
        requires
            upper & 0x3 == 0,
        ensures
            Size::of_prefix(upper | size.size_bits()) == size,
    {
        let bits = size.size_bits();
        assert(upper & 0x3 == 0 && bits <= 3 ==> (upper | bits) & 0x3 == bits) by (bit_vector);
    }
}

impl From<&SizedPayload> for Size {
    fn from(value: &SizedPayload) -> (size: Self) {
        match value {
            SizedPayload::Empty => Size::Empty,
            SizedPayload::One(_) => Size::One,
            SizedPayload::Two(_) => Size::Two,
            SizedPayload::Four(_) => Size::Four,
        }
    }
}

impl FromSpecImpl<&SizedPayload> for Size {
    open spec fn obeys_from_spec() -> bool {
        true
    }

    open spec fn from_spec(value: &SizedPayload) -> Self {
        value.spec_size()
    }
}

impl From<&[u8; 0]> for Size {
    fn from(value: &[u8; 0]) -> (size: Self) {
        Size::Empty
    }
}

impl FromSpecImpl<&[u8; 0]> for Size {
    open spec fn obeys_from_spec() -> bool {
        true
    }

    open spec fn from_spec(value: &[u8; 0]) -> Self {
        Size::Empty
    }
}

impl From<&[u8; 1]> for Size {
    fn from(value: &[u8; 1]) -> (size: Self) {
        Size::One
    }
}

impl FromSpecImpl<&[u8; 1]> for Size {
    open spec fn obeys_from_spec() -> bool {
        true
    }

    open spec fn from_spec(value: &[u8; 1]) -> Self {
        Size::One
    }
}

impl From<&[u8; 2]> for Size {
    fn from(value: &[u8; 2]) -> (size: Self) {
        Size::Two
    }
}

impl FromSpecImpl<&[u8; 2]> for Size {
    open spec fn obeys_from_spec() -> bool {
        true
    }

    open spec fn from_spec(value: &[u8; 2]) -> Self {
        Size::Two
    }
}

impl From<&[u8; 4]> for Size {
    fn from(value: &[u8; 4]) -> (size: Self) {
        Size::Four
    }
}

impl FromSpecImpl<&[u8; 4]> for Size {
    open spec fn obeys_from_spec() -> bool {
        true
    }

    open spec fn from_spec(value: &[u8; 4]) -> Self {
        Size::Four
    }
}

impl PartialEq<usize> for Size {
    fn eq(&self, other: &usize) -> (equal: bool) {
        match self {
            Size::Empty => *other == 0,
            Size::One => *other == 1,
            Size::Two => *other == 2,
            Size::Four => *other == 4,
        }
    }
}

impl PartialEqSpecImpl<usize> for Size {
    open spec fn obeys_eq_spec() -> bool {
        true
    }

    open spec fn eq_spec(&self, other: &usize) -> bool {
        self.byte_count() == *other
    }
}

impl PartialEq<Size> for usize {
    fn eq(&self, other: &Size) -> (equal: bool) {
        other.to_usize() == *self
    }
}

impl PartialEqSpecImpl<Size> for usize {
    open spec fn obeys_eq_spec() -> bool {
        true
    }

    open spec fn eq_spec(&self, other: &Size) -> bool {
        other.byte_count() == *self
    }
}

impl TryFrom<&[u8]> for Size {
    type Error = ();

    fn try_from(value: &[u8]) -> (size: Result<Self, Self::Error>) {
        let len = value.len();
        if len == 0 {
            Ok(Size::Empty)
        } else if len == 1 {
            Ok(Size::One)
        } else if len == 2 {
            Ok(Size::Two)
        } else if len == 4 {
            Ok(Size::Four)
        } else {
            Err(())
        }
    }
}

impl TryFromSpecImpl<&[u8]> for Size {
    open spec fn obeys_try_from_spec() -> bool {
        true
    }

    open spec fn try_from_spec(value: &[u8]) -> Result<Self, Self::Error> {
        match Size::of_len(value@.len()) {
            Some(size) => Ok(size),
            None => Err(()),
        }
    }
}

/// The payload of a descriptor item: 0, 1, 2 or 4 bytes in little-endian
/// order.
#[derive(Clone, Copy, Debug, PartialEq, Eq)]
pub enum SizedPayload {
    /// No payload.
    Empty,
    /// One byte.
    One([u8; 1]),
    /// Two bytes, the less significant one first.
    Two([u8; 2]),
    /// Four bytes, the least significant one first.
    Four([u8; 4]),
}

impl SizedPayload {
    /// The size of this payload.
    pub open spec fn spec_size(self) -> Size {
        match self {
            SizedPayload::Empty => Size::Empty,
            SizedPayload::One(_) => Size::One,
            SizedPayload::Two(_) => Size::Two,
            SizedPayload::Four(_) => Size::Four,
        }
    }

    /// The bytes of this payload.
    pub open spec fn bytes(self) -> Seq<u8> {
        match self {
            SizedPayload::Empty => Seq::empty(),
            SizedPayload::One(data) => data@,
            SizedPayload::Two(data) => data@,
            SizedPayload::Four(data) => data@,
        }
    }

    /// The payload that holds the bytes `bytes`, if their number is 0, 1, 2
    /// or 4.
    pub open spec fn of_bytes(bytes: Seq<u8>) -> Option<SizedPayload> {
        if bytes.len() == 0 {
            Some(SizedPayload::Empty)
        } else if bytes.len() == 1 {
            Some(SizedPayload::One([bytes[0]]))
        } else if bytes.len() == 2 {
            Some(SizedPayload::Two([bytes[0], bytes[1]]))
        } else if bytes.len() == 4 {
            Some(SizedPayload::Four([bytes[0], bytes[1], bytes[2], bytes[3]]))
        } else {
            None
        }
    }

    /// The number that this payload holds when read without a sign.
    pub open spec fn unsigned(self) -> int {
        match self {
            SizedPayload::Empty => 0,
            SizedPayload::One(data) => data[0] as int,
            SizedPayload::Two(data) => data[0] + 0x100 * data[1],
            SizedPayload::Four(data) => data[0] + 0x100 * data[1] + 0x1_0000 * data[2]
                + 0x100_0000 * data[3],
        }
    }

    /// The number that this payload holds when read in two's complement.
    pub open spec fn signed(self) -> int {
        match self {
            SizedPayload::Empty => 0,
            SizedPayload::One(_) => if self.unsigned() < 0x80 {
                self.unsigned()
            } else {
                self.unsigned() - 0x100
            },
            SizedPayload::Two(_) => if self.unsigned() < 0x8000 {
                self.unsigned()
            } else {
                self.unsigned() - 0x1_0000
            },
            SizedPayload::Four(_) => if self.unsigned() < 0x8000_0000 {
                self.unsigned()
            } else {
                self.unsigned() - 0x1_0000_0000
            },
        }
    }

    /// The payload of `size` bytes that holds the low bytes of `value`.
    pub open spec fn of_value(value: int, size: Size) -> SizedPayload {
        match size {
            Size::Empty => SizedPayload::Empty,
            Size::One => SizedPayload::One([le_byte(value, 0)]),
            Size::Two => SizedPayload::Two([le_byte(value, 0), le_byte(value, 1)]),
            Size::Four => SizedPayload::Four(
                [le_byte(value, 0), le_byte(value, 1), le_byte(value, 2), le_byte(value, 3)],
            ),
        }
    }

    /// The least of the sizes one, two and four bytes that holds the
    /// unsigned number `value`.
    pub open spec fn unsigned_size(value: int) -> Size {
        if value <= 0xFF {
            Size::One
        } else if value <= 0xFFFF {
            Size::Two
        } else {
            Size::Four
        }
    }

    /// The least of the sizes one, two and four bytes that holds the signed
    /// number `value` in two's complement.
    pub open spec fn signed_size(value: int) -> Size {
        if -0x80 <= value <= 0x7F {
            Size::One
        } else if -0x8000 <= value <= 0x7FFF {
            Size::Two
        } else {
            Size::Four
        }
    }

    /// The smallest payload that holds the unsigned number `value`.
    pub open spec fn of_unsigned(value: int) -> SizedPayload {
        Self::of_value(value, Self::unsigned_size(value))
    }

    /// The smallest payload that holds the signed number `value`.
    pub open spec fn of_signed(value: int) -> SizedPayload {
        Self::of_value(value, Self::signed_size(value))
    }

    /// Returns the size of this payload.
    pub fn size(&self) -> (size: Size)
        ensures
            size == self.spec_size(),
    {
        Size::from(self)
    }

    /// Returns the bytes of this payload, or `None` if it has none.
    pub fn data(&self) -> (data: Option<&[u8]>)
        ensures
            data is None <==> *self == SizedPayload::Empty,
            data matches Some(bytes) ==> bytes@ == self.bytes(),
    {
        match self {
            SizedPayload::Empty => None,
            SizedPayload::One(data) => Some(data.as_slice()),
            SizedPayload::Two(data) => Some(data.as_slice()),
            SizedPayload::Four(data) => Some(data.as_slice()),
        }
    }

    /// Returns the bytes of this payload as a vector.
    pub fn to_vec(self) -> (bytes: Vec<u8>)
        ensures
            bytes@ == self.bytes(),
    {
        match self {
            SizedPayload::Empty => Vec::new(),
            SizedPayload::One(data) => vec![data[0]],
            SizedPayload::Two(data) => vec![data[0], data[1]],
            SizedPayload::Four(data) => vec![data[0], data[1], data[2], data[3]],
        }
    }

    /// Returns true if this payload has no bytes.
    pub fn is_empty(&self) -> (empty: bool)
        ensures
            empty <==> *self == SizedPayload::Empty,
    {
        self.data().is_none()
    }

    /// A payload has as many bytes as its size says, and its bytes lead back
    /// to it.
    pub proof fn lemma_bytes(self)
        ensures
            self.bytes().len() == self.spec_size().byte_count(),
            Self::of_bytes(self.bytes()) == Some(self),
    {
        match self {
            SizedPayload::Empty => {},
            SizedPayload::One(data) => {
                assert([data[0]] =~= data);
            },
            SizedPayload::Two(data) => {
                assert([data[0], data[1]] =~= data);
            },
            SizedPayload::Four(data) => {
                assert([data[0], data[1], data[2], data[3]] =~= data);
            },
        }
    }

    /// An unsigned number takes one byte if and only if it is at most 255,
    /// two bytes if and only if it lies between 256 and 65535, and four bytes
    /// otherwise.
    pub proof fn lemma_smallest_size_unsigned(value: u32)
        ensures
            Self::of_unsigned(value as int).spec_size() == Size::One <==> value <= 255,
            Self::of_unsigned(value as int).spec_size() == Size::Two <==> 256 <= value <= 65535,
            Self::of_unsigned(value as int).spec_size() == Size::Four <==> 65536 <= value,
    {
    }

    /// A signed number takes one byte if and only if it fits an `i8`, two
    /// bytes if and only if it fits an `i16` and not an `i8`, and four bytes
    /// otherwise.
    pub proof fn lemma_smallest_size_signed(value: i32)
        ensures
            Self::of_signed(value as int).spec_size() == Size::One <==> i8::MIN <= value
                <= i8::MAX,
            Self::of_signed(value as int).spec_size() == Size::Two <==> (i16::MIN <= value
                <= i16::MAX && !(i8::MIN <= value <= i8::MAX)),
            Self::of_signed(value as int).spec_size() == Size::Four <==> !(i16::MIN <= value
                <= i16::MAX),
    {
    }

    /// Reading the smallest payload of an unsigned number without a sign
    /// gives the number back.
    pub proof fn lemma_unsigned_round_trip(value: u32)
        ensures
            Self::of_unsigned(value as int).unsigned() == value,
    {
    }

    /// Reading the smallest payload of a signed number in two's complement
    /// gives the number back.
    pub proof fn lemma_signed_round_trip(value: i32)
        ensures
            Self::of_signed(value as int).signed() == value,
    {
    }
}

impl Default for SizedPayload {
    fn default() -> (payload: Self)
        ensures
            payload == SizedPayload::Empty,
    {
        SizedPayload::Empty
    }
}

impl From<u8> for SizedPayload {
    fn from(value: u8) -> (payload: Self) {
        SizedPayload::One([value])
    }
}

impl FromSpecImpl<u8> for SizedPayload {
    open spec fn obeys_from_spec() -> bool {
        true
    }

    open spec fn from_spec(value: u8) -> Self {
        SizedPayload::One([value])
    }
}

impl From<u16> for SizedPayload {
    fn from(value: u16) -> (payload: Self) {
        if value <= 0xFF {
            SizedPayload::One([value as u8])
        } else {
            SizedPayload::Two([(value % 0x100) as u8, (value / 0x100) as u8])
        }
    }
}

impl FromSpecImpl<u16> for SizedPayload {
    open spec fn obeys_from_spec() -> bool {
        true
    }

    open spec fn from_spec(value: u16) -> Self {
        SizedPayload::of_unsigned(value as int)
    }
}

impl From<u32> for SizedPayload {
    fn from(value: u32) -> (payload: Self) {
        if value <= 0xFF {
            SizedPayload::One([value as u8])
        } else if value <= 0xFFFF {
            SizedPayload::Two([(value % 0x100) as u8, (value / 0x100) as u8])
        } else {
            SizedPayload::Four(
                [
                    (value % 0x100) as u8,
                    (value / 0x100 % 0x100) as u8,
                    (value / 0x1_0000 % 0x100) as u8,
                    (value / 0x100_0000) as u8,
                ],
            )
        }
    }
}

impl FromSpecImpl<u32> for SizedPayload {
    open spec fn obeys_from_spec() -> bool {
        true
    }

    open spec fn from_spec(value: u32) -> Self {
        SizedPayload::of_unsigned(value as int)
    }
}

impl From<i8> for SizedPayload {
    fn from(value: i8) -> (payload: Self) {
        let wide: i16 = value as i16;
        let byte: i16 = if wide < 0 {
            wide + 0x100
        } else {
            wide
        };
        SizedPayload::One([byte as u8])
    }
}

impl FromSpecImpl<i8> for SizedPayload {
    open spec fn obeys_from_spec() -> bool {
        true
    }

    open spec fn from_spec(value: i8) -> Self {
        SizedPayload::of_value(value as int, Size::One)
    }
}

impl From<i16> for SizedPayload {
    fn from(value: i16) -> (payload: Self) {
        if -0x80 <= value && value <= 0x7F {
            SizedPayload::from(value as i8)
        } else {
            let wide: i32 = value as i32;
            let word: u32 = if wide < 0 {
                (wide + 0x1_0000) as u32
            } else {
                wide as u32
            };
            SizedPayload::Two([(word % 0x100) as u8, (word / 0x100) as u8])
        }
    }
}

impl FromSpecImpl<i16> for SizedPayload {
    open spec fn obeys_from_spec() -> bool {
        true
    }

    open spec fn from_spec(value: i16) -> Self {
        SizedPayload::of_signed(value as int)
    }
}

impl From<i32> for SizedPayload {
    fn from(value: i32) -> (payload: Self) {
        if -0x80 <= value && value <= 0x7F {
            SizedPayload::from(value as i8)
        } else if -0x8000 <= value && value <= 0x7FFF {
            SizedPayload::from(value as i16)
        } else {
            let wide: i64 = value as i64;
            let word: u64 = if wide < 0 {
                (wide + 0x1_0000_0000) as u64
            } else {
                wide as u64
            };
            proof {
                if wide < 0 {
                    lemma_le_byte_wraps(value as int, 0);
                    lemma_le_byte_wraps(value as int, 1);
                    lemma_le_byte_wraps(value as int, 2);
                    lemma_le_byte_wraps(value as int, 3);
                }
                assert((word % 0x100) as u8 == le_byte(word as int, 0));
                assert((word / 0x100 % 0x100) as u8 == le_byte(word as int, 1));
                assert((word / 0x1_0000 % 0x100) as u8 == le_byte(word as int, 2));
                assert((word / 0x100_0000) as u8 == le_byte(word as int, 3));
            }
            SizedPayload::Four(
                [
                    (word % 0x100) as u8,
                    (word / 0x100 % 0x100) as u8,
                    (word / 0x1_0000 % 0x100) as u8,
                    (word / 0x100_0000) as u8,
                ],
            )
        }
    }
}

impl FromSpecImpl<i32> for SizedPayload {
    open spec fn obeys_from_spec() -> bool {
        true
    }

    open spec fn from_spec(value: i32) -> Self {
        SizedPayload::of_signed(value as int)
    }
}

impl From<[u8; 0]> for SizedPayload {
    fn from(value: [u8; 0]) -> (payload: Self) {
        SizedPayload::Empty
    }
}

impl FromSpecImpl<[u8; 0]> for SizedPayload {
    open spec fn obeys_from_spec() -> bool {
        true
    }

    open spec fn from_spec(value: [u8; 0]) -> Self {
        SizedPayload::Empty
    }
}

impl From<[u8; 1]> for SizedPayload {
    fn from(value: [u8; 1]) -> (payload: Self) {
        SizedPayload::One(value)
    }
}

impl FromSpecImpl<[u8; 1]> for SizedPayload {
    open spec fn obeys_from_spec() -> bool {
        true
    }

    open spec fn from_spec(value: [u8; 1]) -> Self {
        SizedPayload::One(value)
    }
}

impl From<[u8; 2]> for SizedPayload {
    fn from(value: [u8; 2]) -> (payload: Self) {
        SizedPayload::Two(value)
    }
}

impl FromSpecImpl<[u8; 2]> for SizedPayload {
    open spec fn obeys_from_spec() -> bool {
        true
    }

    open spec fn from_spec(value: [u8; 2]) -> Self {
        SizedPayload::Two(value)
    }
}

impl From<[u8; 4]> for SizedPayload {
    fn from(value: [u8; 4]) -> (payload: Self) {
        SizedPayload::Four(value)
    }
}

impl FromSpecImpl<[u8; 4]> for SizedPayload {
    open spec fn obeys_from_spec() -> bool {
        true
    }

    open spec fn from_spec(value: [u8; 4]) -> Self {
        SizedPayload::Four(value)
    }
}

impl TryFrom<&[u8]> for SizedPayload {
    type Error = ();

    fn try_from(value: &[u8]) -> (payload: Result<Self, Self::Error>) {
        let len = value.len();
        if len == 0 {
            Ok(SizedPayload::Empty)
        } else if len == 1 {
            Ok(SizedPayload::One([value[0]]))
        } else if len == 2 {
            Ok(SizedPayload::Two([value[0], value[1]]))
        } else if len == 4 {
            Ok(SizedPayload::Four([value[0], value[1], value[2], value[3]]))
        } else {
            Err(())
        }
    }
}

impl TryFromSpecImpl<&[u8]> for SizedPayload {
    open spec fn obeys_try_from_spec() -> bool {
        true
    }

    open spec fn try_from_spec(value: &[u8]) -> Result<Self, Self::Error> {
        match SizedPayload::of_bytes(value@) {
            Some(payload) => Ok(payload),
            None => Err(()),
        }
    }
}

impl TryFrom<SizedPayload> for u8 {
    type Error = ();

    fn try_from(value: SizedPayload) -> (number: Result<Self, Self::Error>) {
        match value {
            SizedPayload::One(data) => Ok(data[0]),
            _ => Err(()),
        }
    }
}

impl TryFromSpecImpl<SizedPayload> for u8 {
    open spec fn obeys_try_from_spec() -> bool {
        true
    }

    open spec fn try_from_spec(value: SizedPayload) -> Result<Self, Self::Error> {
        if value.spec_size() == Size::One {
            Ok(value.unsigned() as u8)
        } else {
            Err(())
        }
    }
}

impl TryFrom<SizedPayload> for u16 {
    type Error = ();

    fn try_from(value: SizedPayload) -> (number: Result<Self, Self::Error>) {
        match value {
            SizedPayload::One(data) => Ok(data[0] as u16),
            SizedPayload::Two(data) => Ok(data[0] as u16 + 0x100 * (data[1] as u16)),
            _ => Err(()),
        }
    }
}

impl TryFromSpecImpl<SizedPayload> for u16 {
    open spec fn obeys_try_from_spec() -> bool {
        true
    }

    open spec fn try_from_spec(value: SizedPayload) -> Result<Self, Self::Error> {
        if value.spec_size() == Size::One || value.spec_size() == Size::Two {
            Ok(value.unsigned() as u16)
        } else {
            Err(())
        }
    }
}

impl From<SizedPayload> for u32 {
    fn from(value: SizedPayload) -> (number: Self) {
        match value {
            SizedPayload::Empty => 0,
            SizedPayload::One(data) => data[0] as u32,
            SizedPayload::Two(data) => data[0] as u32 + 0x100 * (data[1] as u32),
            SizedPayload::Four(data) => data[0] as u32 + 0x100 * (data[1] as u32) + 0x1_0000 * (
            data[2] as u32) + 0x100_0000 * (data[3] as u32),
        }
    }
}

impl FromSpecImpl<SizedPayload> for u32 {
    open spec fn obeys_from_spec() -> bool {
        true
    }

    open spec fn from_spec(value: SizedPayload) -> Self {
        value.unsigned() as u32
    }
}

impl From<SizedPayload> for i32 {
    fn from(value: SizedPayload) -> (number: Self) {
        match value {
            SizedPayload::Empty => 0,
            SizedPayload::One(data) => if data[0] < 0x80 {
                data[0] as i32
            } else {
                data[0] as i32 - 0x100
            },
            SizedPayload::Two(data) => {
                let word: i32 = data[0] as i32 + 0x100 * (data[1] as i32);
                if word < 0x8000 {
                    word
                } else {
                    word - 0x1_0000
                }
            },
            SizedPayload::Four(data) => {
                let word: i64 = data[0] as i64 + 0x100 * (data[1] as i64) + 0x1_0000 * (
                data[2] as i64) + 0x100_0000 * (data[3] as i64);
                if word < 0x8000_0000 {
                    word as i32
                } else {
                    (word - 0x1_0000_0000) as i32
                }
            },
        }
    }
}

impl FromSpecImpl<SizedPayload> for i32 {
    open spec fn obeys_from_spec() -> bool {
        true
    }

    open spec fn from_spec(value: SizedPayload) -> Self {
        value.signed() as i32
    }
}

impl ItemType {
    /// The upper six bits of the prefix byte of an item of this type, with
    /// the two size bits cleared.
    pub open spec fn prefix_mask(self) -> u8 {
        match self {
            ItemType::Main(MainType::Input) => 0b1000_0000,
            ItemType::Main(MainType::Output) => 0b1001_0000,
            ItemType::Main(MainType::Feature) => 0b1011_0000,
            ItemType::Main(MainType::Collection) => 0b1010_0000,
            ItemType::Main(MainType::EndCollection) => 0b1100_0000,
            ItemType::Global(GlobalType::UsagePage) => 0b0000_0100,
            ItemType::Global(GlobalType::LogicalMinimum) => 0b0001_0100,
            ItemType::Global(GlobalType::LogicalMaximum) => 0b0010_0100,
            ItemType::Global(GlobalType::PhysicalMinimum) => 0b0011_0100,
            ItemType::Global(GlobalType::PhysicalMaximum) => 0b0100_0100,
            ItemType::Global(GlobalType::UnitExponent) => 0b0101_0100,
            ItemType::Global(GlobalType::Unit) => 0b0110_0100,
            ItemType::Global(GlobalType::ReportSize) => 0b0111_0100,
            ItemType::Global(GlobalType::ReportID) => 0b1000_0100,
            ItemType::Global(GlobalType::ReportCount) => 0b1001_0100,
            ItemType::Global(GlobalType::Push) => 0b1010_0100,
            ItemType::Global(GlobalType::Pop) => 0b1011_0100,
            ItemType::Local(LocalType::Usage) => 0b0000_1000,
            ItemType::Local(LocalType::UsageMinimum) => 0b0001_1000,
            ItemType::Local(LocalType::UsageMaximum) => 0b0010_1000,
            ItemType::Local(LocalType::DesignatorIndex) => 0b0011_1000,
            ItemType::Local(LocalType::DesignatorMinimum) => 0b0100_1000,
            ItemType::Local(LocalType::DesignatorMaximum) => 0b0101_1000,
            ItemType::Local(LocalType::StringIndex) => 0b0111_1000,
            ItemType::Local(LocalType::StringMinimum) => 0b1000_1000,
            ItemType::Local(LocalType::StringMaximum) => 0b1001_1000,
            ItemType::Local(LocalType::Delimiter) => 0b1010_1000,
        }
    }

    /// The item type that the upper six bits `mask` of a prefix byte stand
    /// for, if any. The two size bits of `mask` are cleared.
    pub open spec fn of_prefix_mask(mask: u8) -> Option<ItemType> {
        match mask {
            0b1000_0000 => Some(ItemType::Main(MainType::Input)),
            0b1001_0000 => Some(ItemType::Main(MainType::Output)),
            0b1011_0000 => Some(ItemType::Main(MainType::Feature)),
            0b1010_0000 => Some(ItemType::Main(MainType::Collection)),
            0b1100_0000 => Some(ItemType::Main(MainType::EndCollection)),
            0b0000_0100 => Some(ItemType::Global(GlobalType::UsagePage)),
            0b0001_0100 => Some(ItemType::Global(GlobalType::LogicalMinimum)),
            0b0010_0100 => Some(ItemType::Global(GlobalType::LogicalMaximum)),
            0b0011_0100 => Some(ItemType::Global(GlobalType::PhysicalMinimum)),
            0b0100_0100 => Some(ItemType::Global(GlobalType::PhysicalMaximum)),
            0b0101_0100 => Some(ItemType::Global(GlobalType::UnitExponent)),
            0b0110_0100 => Some(ItemType::Global(GlobalType::Unit)),
            0b0111_0100 => Some(ItemType::Global(GlobalType::ReportSize)),
            0b1000_0100 => Some(ItemType::Global(GlobalType::ReportID)),
            0b1001_0100 => Some(ItemType::Global(GlobalType::ReportCount)),
            0b1010_0100 => Some(ItemType::Global(GlobalType::Push)),
            0b1011_0100 => Some(ItemType::Global(GlobalType::Pop)),
            0b0000_1000 => Some(ItemType::Local(LocalType::Usage)),
            0b0001_1000 => Some(ItemType::Local(LocalType::UsageMinimum)),
            0b0010_1000 => Some(ItemType::Local(LocalType::UsageMaximum)),
            0b0011_1000 => Some(ItemType::Local(LocalType::DesignatorIndex)),
            0b0100_1000 => Some(ItemType::Local(LocalType::DesignatorMinimum)),
            0b0101_1000 => Some(ItemType::Local(LocalType::DesignatorMaximum)),
            0b0111_1000 => Some(ItemType::Local(LocalType::StringIndex)),
            0b1000_1000 => Some(ItemType::Local(LocalType::StringMinimum)),
            0b1001_1000 => Some(ItemType::Local(LocalType::StringMaximum)),
            0b1010_1000 => Some(ItemType::Local(LocalType::Delimiter)),
            _ => None,
        }
    }

    /// The item type that a prefix byte stands for, if any.
    pub open spec fn of_prefix(prefix: u8) -> Option<ItemType> {
        Self::of_prefix_mask(prefix & 0xFC)
    }

    /// The mask of an item type has its size bits cleared, and leads back to
    /// the item type.
    pub proof fn lemma_prefix_mask_round_trip(self)
        ensures
            self.prefix_mask() & 0x3 == 0,
            self.prefix_mask() & 0xFC == self.prefix_mask(),
            Self::of_prefix_mask(self.prefix_mask()) == Some(self),
    {
        let mask = self.prefix_mask();
        assert(mask & 0x3 == 0 && mask & 0xFC == mask) by (bit_vector)
            requires
                mask == 0b1000_0000 || mask == 0b1001_0000 || mask == 0b1011_0000 || mask
                    == 0b1010_0000 || mask == 0b1100_0000 || mask == 0b0000_0100 || mask
                    == 0b0001_0100 || mask == 0b0010_0100 || mask == 0b0011_0100 || mask
                    == 0b0100_0100 || mask == 0b0101_0100 || mask == 0b0110_0100 || mask
                    == 0b0111_0100 || mask == 0b1000_0100 || mask == 0b1001_0100 || mask
                    == 0b1010_0100 || mask == 0b1011_0100 || mask == 0b0000_1000 || mask
                    == 0b0001_1000 || mask == 0b0010_1000 || mask == 0b0011_1000 || mask
                    == 0b0100_1000 || mask == 0b0101_1000 || mask == 0b0111_1000 || mask
                    == 0b1000_1000 || mask == 0b1001_1000 || mask == 0b1010_1000,
        ;
    }

    /// A mask that stands for an item type is the mask of that item type: no
    /// two masks stand for the same type, and no mask for two.
    pub proof fn lemma_prefix_mask_unique(mask: u8)
        ensures
            Self::of_prefix_mask(mask) matches Some(kind) ==> kind.prefix_mask() == mask,
    {
    }
}

/// The first byte of a descriptor item: the item type in the upper six bits,
/// the payload size in the lower two.
#[derive(Clone, Copy, Debug, PartialEq, Eq, Structural)]
pub struct PrefixByte(pub u8);

impl PrefixByte {
    /// The prefix byte of an item of type `kind` with a payload of size
    /// `size`.
    pub open spec fn of(kind: ItemType, size: Size) -> u8 {
        kind.prefix_mask() | size.size_bits()
    }

    /// Returns the prefix byte as a number.
    pub fn u8(self) -> (byte: u8)
        ensures
            byte == self.0,
    {
        u8::from(self)
    }

    /// Returns the prefix byte followed by the bytes of `payload`.
    pub fn into_vec_append(self, payload: Vec<u8>) -> (raw: Vec<u8>)
        ensures
            raw@ == seq![self.0] + payload@,
    {
        let mut payload = payload;
        let mut raw: Vec<u8> = vec![self.u8()];
        raw.append(&mut payload);
        raw
    }

    /// A prefix byte leads back to the item type and the size it was made
    /// of, and it never opens a long item.
    pub proof fn lemma_prefix_round_trip(kind: ItemType, size: Size)
        ensures
            ItemType::of_prefix(Self::of(kind, size)) == Some(kind),
            Size::of_prefix(Self::of(kind, size)) == size,
            Self::of(kind, size) != 0xFE,
    {
        let mask = kind.prefix_mask();
        let bits = size.size_bits();
        kind.lemma_prefix_mask_round_trip();
        assert(mask & 0x3 == 0 && bits <= 3 ==> (mask | bits) & 0xFC == mask && (mask | bits) & 0x3
            == bits) by (bit_vector);
        assert(0xFEu8 & 0xFC == 0xFC) by (bit_vector);
    }

    /// A byte that stands for an item type is the prefix byte of that type
    /// and of the size that its lower two bits stand for.
    pub proof fn lemma_prefix_unique(prefix: u8)
        ensures
            ItemType::of_prefix(prefix) matches Some(kind) ==> Self::of(
                kind,
                Size::of_prefix(prefix),
            ) == prefix,
    {
        let mask = prefix & 0xFC;
        let bits = Size::of_prefix(prefix).size_bits();
        ItemType::lemma_prefix_mask_unique(mask);
        assert(prefix & 0x3 <= 3) by (bit_vector);
        assert((prefix & 0xFC) | (prefix & 0x3) == prefix) by (bit_vector);
    }
}

impl From<(&ItemType, &Size)> for PrefixByte {
    fn from(value: (&ItemType, &Size)) -> (prefix: Self) {
        let prefix_mask: u8 = match value.0 {
            ItemType::Main(MainType::Input) => 0b1000_0000,
            ItemType::Main(MainType::Output) => 0b1001_0000,
            ItemType::Main(MainType::Feature) => 0b1011_0000,
            ItemType::Main(MainType::Collection) => 0b1010_0000,
            ItemType::Main(MainType::EndCollection) => 0b1100_0000,
            ItemType::Global(GlobalType::UsagePage) => 0b0000_0100,
            ItemType::Global(GlobalType::LogicalMinimum) => 0b0001_0100,
            ItemType::Global(GlobalType::LogicalMaximum) => 0b0010_0100,
            ItemType::Global(GlobalType::PhysicalMinimum) => 0b0011_0100,
            ItemType::Global(GlobalType::PhysicalMaximum) => 0b0100_0100,
            ItemType::Global(GlobalType::UnitExponent) => 0b0101_0100,
            ItemType::Global(GlobalType::Unit) => 0b0110_0100,
            ItemType::Global(GlobalType::ReportSize) => 0b0111_0100,
            ItemType::Global(GlobalType::ReportID) => 0b1000_0100,
            ItemType::Global(GlobalType::ReportCount) => 0b1001_0100,
            ItemType::Global(GlobalType::Push) => 0b1010_0100,
            ItemType::Global(GlobalType::Pop) => 0b1011_0100,
            ItemType::Local(LocalType::Usage) => 0b0000_1000,
            ItemType::Local(LocalType::UsageMinimum) => 0b0001_1000,
            ItemType::Local(LocalType::UsageMaximum) => 0b0010_1000,
            ItemType::Local(LocalType::DesignatorIndex) => 0b0011_1000,
            ItemType::Local(LocalType::DesignatorMinimum) => 0b0100_1000,
            ItemType::Local(LocalType::DesignatorMaximum) => 0b0101_1000,
            ItemType::Local(LocalType::StringIndex) => 0b0111_1000,
            ItemType::Local(LocalType::StringMinimum) => 0b1000_1000,
            ItemType::Local(LocalType::StringMaximum) => 0b1001_1000,
            ItemType::Local(LocalType::Delimiter) => 0b1010_1000,
        };
        let size_mask: u8 = match value.1 {
            Size::Empty => 0,
            Size::One => 1,
            Size::Two => 2,
            Size::Four => 3,
        };
        PrefixByte(prefix_mask | size_mask)
    }
}

impl FromSpecImpl<(&ItemType, &Size)> for PrefixByte {
    open spec fn obeys_from_spec() -> bool {
        true
    }

    open spec fn from_spec(value: (&ItemType, &Size)) -> Self {
        PrefixByte(PrefixByte::of(*value.0, *value.1))
    }
}

impl From<PrefixByte> for u8 {
    fn from(value: PrefixByte) -> (byte: Self) {
        value.0
    }
}

impl FromSpecImpl<PrefixByte> for u8 {
    open spec fn obeys_from_spec() -> bool {
        true
    }

    open spec fn from_spec(value: PrefixByte) -> Self {
        value.0
    }
}

} // verus!
