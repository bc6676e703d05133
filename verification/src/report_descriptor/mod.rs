//! The items of a HID Report Descriptor.
//!
//! A report descriptor is a sequence of items. Each item starts with a prefix
//! byte that holds the item type in its upper six bits and the size of the
//! payload in its lower two, and goes on with a payload of 0, 1, 2 or 4
//! bytes in little-endian order.

use crate::error::Error;
use crate::report_descriptor::data::{PrefixByte, Size, SizedPayload};
use crate::report_descriptor::parse::{
    data_field_options_from_payload, lemma_parse_of_encode, spec_report_descriptor,
};
use crate::usage_table::{Usage, UsagePage};
use vstd::prelude::*;
use vstd::std_specs::convert::{FromSpecImpl, IntoSpec};

pub mod data;
pub mod parse;

verus! {

/// The type of a report descriptor item.
#[derive(Clone, Copy, Debug, PartialEq, Eq, Structural)]
pub enum ItemType {
    /// An item that defines or groups data fields.
    Main(MainType),
    /// An item that changes the item state table for all items that follow.
    Global(GlobalType),
    /// An item that describes the next Main item only.
    Local(LocalType),
}

/// The Main item types.
#[derive(Clone, Copy, Debug, PartialEq, Eq, Structural)]
pub enum MainType {
    /// Data that the device sends to the host.
    Input,
    /// Data that the host sends to the device.
    Output,
    /// Configuration data that is not meant for the end user.
    Feature,
    /// Opens a group of Input, Output and Feature items.
    Collection,
    /// Closes the group that the last open Collection item began.
    EndCollection,
}

/// The Local item types.
#[derive(Clone, Copy, Debug, PartialEq, Eq, Structural)]
pub enum LocalType {
    /// A usage for the next field.
    Usage,
    /// The first usage of a range of usages.
    UsageMinimum,
    /// The last usage of a range of usages.
    UsageMaximum,
    /// The body part used for a control.
    DesignatorIndex,
    /// The first designator of a range.
    DesignatorMinimum,
    /// The last designator of a range.
    DesignatorMaximum,
    /// The index of a string descriptor.
    StringIndex,
    /// The first string index of a range.
    StringMinimum,
    /// The last string index of a range.
    StringMaximum,
    /// Opens or closes a set of alternative local items.
    Delimiter,
}

/// The Global item types.
#[derive(Clone, Copy, Debug, PartialEq, Eq, Structural)]
pub enum GlobalType {
    /// The usage page of the usages that follow.
    UsagePage,
    /// The least value that a field reports.
    LogicalMinimum,
    /// The greatest value that a field reports.
    LogicalMaximum,
    /// The logical minimum with units applied.
    PhysicalMinimum,
    /// The logical maximum with units applied.
    PhysicalMaximum,
    /// The exponent, in base 10, of the unit.
    UnitExponent,
    /// The unit of the values.
    Unit,
    /// The size of a field in bits.
    ReportSize,
    /// The id that precedes every report of the collection.
    ReportID,
    /// The number of fields that a Main item creates.
    ReportCount,
    /// Saves the item state table.
    Push,
    /// Restores the item state table that was saved last.
    Pop,
}

/// Whether a field holds data or a constant.
#[derive(Clone, Copy, Debug, PartialEq, Eq, Structural)]
pub enum Mutability {
    /// The field holds data that may change.
    Data,
    /// The field is a constant and cannot be written.
    Constant,
}

impl Mutability {
    /// The value that a flag bit stands for: the first variant for a
    /// cleared bit, the second for a set one.
    pub open spec fn of_bit(bit: bool) -> Mutability {
        if bit {
            Mutability::Constant
        } else {
            Mutability::Data
        }
    }
}

impl Default for Mutability {
    fn default() -> (flag: Self)
        ensures
            flag == Mutability::Data,
    {
        Mutability::Data
    }
}

/// Whether a field is one of an array of selectors or a variable.
#[derive(Clone, Copy, Debug, PartialEq, Eq, Structural)]
pub enum Structure {
    /// The field holds the index of an active control.
    Array,
    /// The field holds the value of one control.
    Variable,
}

impl Structure {
    /// The value that a flag bit stands for: the first variant for a
    /// cleared bit, the second for a set one.
    pub open spec fn of_bit(bit: bool) -> Structure {
        if bit {
            Structure::Variable
        } else {
            Structure::Array
        }
    }
}

impl Default for Structure {
    fn default() -> (flag: Self)
        ensures
            flag == Structure::Array,
    {
        Structure::Array
    }
}

/// Whether a field is absolute or relative to the last report.
#[derive(Clone, Copy, Debug, PartialEq, Eq, Structural)]
pub enum Value {
    /// The value is based on a fixed origin.
    Absolute,
    /// The value is the change since the last report.
    Relative,
}

impl Value {
    /// The value that a flag bit stands for: the first variant for a
    /// cleared bit, the second for a set one.
    pub open spec fn of_bit(bit: bool) -> Value {
        if bit {
            Value::Relative
        } else {
            Value::Absolute
        }
    }
}

impl Default for Value {
    fn default() -> (flag: Self)
        ensures
            flag == Value::Absolute,
    {
        Value::Absolute
    }
}

/// Whether a value rolls over at its extremes.
#[derive(Clone, Copy, Debug, PartialEq, Eq, Structural)]
pub enum Wrap {
    /// The value stops at its extremes.
    NoWrap,
    /// The value rolls over.
    Wrap,
}

impl Wrap {
    /// The value that a flag bit stands for: the first variant for a
    /// cleared bit, the second for a set one.
    pub open spec fn of_bit(bit: bool) -> Wrap {
        if bit {
            Wrap::Wrap
        } else {
            Wrap::NoWrap
        }
    }
}

impl Default for Wrap {
    fn default() -> (flag: Self)
        ensures
            flag == Wrap::NoWrap,
    {
        Wrap::NoWrap
    }
}

/// Whether a value is linear in what was measured.
#[derive(Clone, Copy, Debug, PartialEq, Eq, Structural)]
pub enum Linear {
    /// The value is linear in what was measured.
    Linear,
    /// The value was processed and is no longer linear.
    NonLinear,
}

impl Linear {
    /// The value that a flag bit stands for: the first variant for a
    /// cleared bit, the second for a set one.
    pub open spec fn of_bit(bit: bool) -> Linear {
        if bit {
            Linear::NonLinear
        } else {
            Linear::Linear
        }
    }
}

impl Default for Linear {
    fn default() -> (flag: Self)
        ensures
            flag == Linear::Linear,
    {
        Linear::Linear
    }
}

/// Whether a control returns to a state of its own when it is let go.
#[derive(Clone, Copy, Debug, PartialEq, Eq, Structural)]
pub enum State {
    /// The control has a state to which it returns.
    Preferred,
    /// The control stays where it was put.
    NoPreferred,
}

impl State {
    /// The value that a flag bit stands for: the first variant for a
    /// cleared bit, the second for a set one.
    pub open spec fn of_bit(bit: bool) -> State {
        if bit {
            State::NoPreferred
        } else {
            State::Preferred
        }
    }
}

impl Default for State {
    fn default() -> (flag: Self)
        ensures
            flag == State::Preferred,
    {
        State::Preferred
    }
}

/// Whether a control has a state in which it sends no meaningful data.
#[derive(Clone, Copy, Debug, PartialEq, Eq, Structural)]
pub enum NullState {
    /// The control always sends meaningful data.
    NoNullPosition,
    /// The control has a null state.
    NullState,
}

impl NullState {
    /// The value that a flag bit stands for: the first variant for a
    /// cleared bit, the second for a set one.
    pub open spec fn of_bit(bit: bool) -> NullState {
        if bit {
            NullState::NullState
        } else {
            NullState::NoNullPosition
        }
    }
}

impl Default for NullState {
    fn default() -> (flag: Self)
        ensures
            flag == NullState::NoNullPosition,
    {
        NullState::NoNullPosition
    }
}

/// Whether the value of a control may change without the host.
#[derive(Clone, Copy, Debug, PartialEq, Eq, Structural)]
pub enum Volatile {
    /// Only the host changes the value.
    NonVolatile,
    /// The value may change by itself.
    Volatile,
}

impl Volatile {
    /// The value that a flag bit stands for: the first variant for a
    /// cleared bit, the second for a set one.
    pub open spec fn of_bit(bit: bool) -> Volatile {
        if bit {
            Volatile::Volatile
        } else {
            Volatile::NonVolatile
        }
    }
}

impl Default for Volatile {
    fn default() -> (flag: Self)
        ensures
            flag == Volatile::NonVolatile,
    {
        Volatile::NonVolatile
    }
}

/// Whether a field is a bit field or a stream of bytes.
#[derive(Clone, Copy, Debug, PartialEq, Eq, Structural)]
pub enum Data {
    /// The field is a bit field.
    BitField,
    /// The field is a fixed-size stream of bytes.
    BufferedBytes,
}

impl Data {
    /// The value that a flag bit stands for: the first variant for a
    /// cleared bit, the second for a set one.
    pub open spec fn of_bit(bit: bool) -> Data {
        if bit {
            Data::BufferedBytes
        } else {
            Data::BitField
        }
    }
}

impl Default for Data {
    fn default() -> (flag: Self)
        ensures
            flag == Data::BitField,
    {
        Data::BitField
    }
}

/// True if bit `k` of `byte`, counted from the least significant one, is
/// set.
pub open spec fn bit_set(byte: u8, k: u8) -> bool {
    (byte >> k) & 1 == 1
}

/// The options of an Input, Output or Feature item.
///
/// The nine flags say how the fields that the item creates are to be read.
#[derive(Clone, Copy, Debug, PartialEq, Eq, Structural)]
pub struct DataFieldOptions(
    pub Mutability,
    pub Structure,
    pub Value,
    pub Wrap,
    pub Linear,
    pub State,
    pub NullState,
    pub Volatile,
    pub Data,
);

impl DataFieldOptions {
    /// The options with the given first three flags and the other six
    /// cleared.
    pub open spec fn of_three(
        mutability: Mutability,
        structure: Structure,
        value: Value,
    ) -> DataFieldOptions {
        DataFieldOptions(
            mutability,
            structure,
            value,
            Wrap::NoWrap,
            Linear::Linear,
            State::Preferred,
            NullState::NoNullPosition,
            Volatile::NonVolatile,
            Data::BitField,
        )
    }

    /// The options that the flag byte `flags` and the ninth flag `data`
    /// stand for. From the least significant bit of `flags` upward the bits
    /// are: Mutability, Structure, Value, Wrap, Linear, State, NullState,
    /// Volatile.
    pub open spec fn of_flags(flags: u8, data: bool) -> DataFieldOptions {
        DataFieldOptions(
            Mutability::of_bit(bit_set(flags, 0)),
            Structure::of_bit(bit_set(flags, 1)),
            Value::of_bit(bit_set(flags, 2)),
            Wrap::of_bit(bit_set(flags, 3)),
            Linear::of_bit(bit_set(flags, 4)),
            State::of_bit(bit_set(flags, 5)),
            NullState::of_bit(bit_set(flags, 6)),
            Volatile::of_bit(bit_set(flags, 7)),
            Data::of_bit(data),
        )
    }

    /// The number of payload bytes that hold the flags of a payload of size
    /// `size`. A payload whose size is not known is read as one byte.
    pub open spec fn flag_bytes(size: Size) -> nat {
        match size {
            Size::Four => 4,
            Size::Two => 2,
            _ => 1,
        }
    }

    /// The options that the payload bytes `payload` of size `size` stand
    /// for.
    ///
    /// The last of the flag bytes holds the first eight flags. A payload of
    /// two or four bytes holds the ninth flag, Data, in the lowest bit of the
    /// byte before it; the bits above it are reserved. A payload of one byte
    /// has no ninth flag and stands for a bit field.
    pub open spec fn of_payload(payload: Seq<u8>, size: Size) -> DataFieldOptions
        recommends
            payload.len() >= Self::flag_bytes(size),
    {
        match size {
            Size::Four => Self::of_flags(payload[3], bit_set(payload[2], 0)),
            Size::Two => Self::of_flags(payload[1], bit_set(payload[0], 0)),
            _ => Self::of_flags(payload[0], false),
        }
    }

    /// Returns true if the field holds data.
    pub fn is_data(&self) -> (data: bool)
        ensures
            data <==> self.0 == Mutability::Data,
    {
        self.0 == Mutability::Data
    }

    /// Returns true if the field is a constant.
    pub fn is_constant(&self) -> (constant: bool)
        ensures
            constant <==> self.0 == Mutability::Constant,
    {
        self.0 == Mutability::Constant
    }

    /// Returns true if the field is one of an array.
    pub fn is_array(&self) -> (array: bool)
        ensures
            array <==> self.1 == Structure::Array,
    {
        self.1 == Structure::Array
    }

    /// Returns true if the field is a variable.
    pub fn is_var(&self) -> (var: bool)
        ensures
            var <==> self.1 == Structure::Variable,
    {
        self.1 == Structure::Variable
    }

    /// Returns true if the value is absolute.
    pub fn is_absolute(&self) -> (absolute: bool)
        ensures
            absolute <==> self.2 == Value::Absolute,
    {
        self.2 == Value::Absolute
    }

    /// Returns true if the value is relative.
    pub fn is_relative(&self) -> (relative: bool)
        ensures
            relative <==> self.2 == Value::Relative,
    {
        self.2 == Value::Relative
    }

    /// Returns the Mutability flag.
    pub fn mutability(&self) -> (flag: &Mutability)
        ensures
            *flag == self.0,
    {
        &self.0
    }

    /// Returns the Structure flag.
    pub fn structure(&self) -> (flag: &Structure)
        ensures
            *flag == self.1,
    {
        &self.1
    }

    /// Returns the Value flag.
    pub fn value(&self) -> (flag: &Value)
        ensures
            *flag == self.2,
    {
        &self.2
    }

    /// Returns the Wrap flag.
    pub fn wrap(&self) -> (flag: &Wrap)
        ensures
            *flag == self.3,
    {
        &self.3
    }

    /// Returns the Linear flag.
    pub fn linear(&self) -> (flag: &Linear)
        ensures
            *flag == self.4,
    {
        &self.4
    }

    /// Returns the State flag.
    pub fn state(&self) -> (flag: &State)
        ensures
            *flag == self.5,
    {
        &self.5
    }

    /// Returns the NullState flag.
    pub fn null_state(&self) -> (flag: &NullState)
        ensures
            *flag == self.6,
    {
        &self.6
    }

    /// Returns the Volatile flag.
    pub fn volatile(&self) -> (flag: &Volatile)
        ensures
            *flag == self.7,
    {
        &self.7
    }

    /// Returns the Data flag.
    pub fn data(&self) -> (flag: &Data)
        ensures
            *flag == self.8,
    {
        &self.8
    }
}

impl Default for DataFieldOptions {
    fn default() -> (options: Self)
        ensures
            options == DataFieldOptions::of_three(
                Mutability::Data,
                Structure::Array,
                Value::Absolute,
            ),
    {
        DataFieldOptions(
            Mutability::Data,
            Structure::Array,
            Value::Absolute,
            Wrap::NoWrap,
            Linear::Linear,
            State::Preferred,
            NullState::NoNullPosition,
            Volatile::NonVolatile,
            Data::BitField,
        )
    }
}

impl From<
    (Mutability, Structure, Value, Wrap, Linear, State, NullState, Volatile, Data),
> for DataFieldOptions {
    fn from(
        value: (Mutability, Structure, Value, Wrap, Linear, State, NullState, Volatile, Data),
    ) -> (options: Self) {
        DataFieldOptions(
            value.0,
            value.1,
            value.2,
            value.3,
            value.4,
            value.5,
            value.6,
            value.7,
            value.8,
        )
    }
}

impl FromSpecImpl<
    (Mutability, Structure, Value, Wrap, Linear, State, NullState, Volatile, Data),
> for DataFieldOptions {
    open spec fn obeys_from_spec() -> bool {
        true
    }

    open spec fn from_spec(
        value: (Mutability, Structure, Value, Wrap, Linear, State, NullState, Volatile, Data),
    ) -> Self {
        DataFieldOptions(
            value.0,
            value.1,
            value.2,
            value.3,
            value.4,
            value.5,
            value.6,
            value.7,
            value.8,
        )
    }
}

impl From<(Mutability, Structure, Value)> for DataFieldOptions {
    fn from(value: (Mutability, Structure, Value)) -> (options: Self) {
        DataFieldOptions(
            value.0,
            value.1,
            value.2,
            Wrap::NoWrap,
            Linear::Linear,
            State::Preferred,
            NullState::NoNullPosition,
            Volatile::NonVolatile,
            Data::BitField,
        )
    }
}

impl FromSpecImpl<(Mutability, Structure, Value)> for DataFieldOptions {
    open spec fn obeys_from_spec() -> bool {
        true
    }

    open spec fn from_spec(value: (Mutability, Structure, Value)) -> Self {
        DataFieldOptions::of_three(value.0, value.1, value.2)
    }
}

/// The kind of a collection.
#[derive(Clone, Copy, Debug, PartialEq, Eq, Structural)]
pub enum Collection {
    /// A group of axes.
    Physical,
    /// A device such as a mouse or a keyboard.
    Application,
    /// A group of related data.
    Logical,
    /// The fields of one report.
    Report,
    /// An array of selector usages.
    NamedArray,
    /// Changes the purpose of the usages it holds.
    UsageSwitch,
    /// Changes the meaning of the usages it holds.
    UsageModifier,
    /// A value that is kept for future use: 0x07 to 0x7F.
    Reserved(u8),
    /// A value that vendors may define: 0x80 to 0xFF.
    VendorDefined(u8),
}

impl Collection {
    /// The collection with the number `value`.
    pub open spec fn of_id(value: u8) -> Collection {
        match value {
            0x00 => Collection::Physical,
            0x01 => Collection::Application,
            0x02 => Collection::Logical,
            0x03 => Collection::Report,
            0x04 => Collection::NamedArray,
            0x05 => Collection::UsageSwitch,
            0x06 => Collection::UsageModifier,
            i => if i <= 0x7F {
                Collection::Reserved(i)
            } else {
                Collection::VendorDefined(i)
            },
        }
    }

    /// The number of this collection.
    pub open spec fn to_id(self) -> u8 {
        match self {
            Collection::Physical => 0x00,
            Collection::Application => 0x01,
            Collection::Logical => 0x02,
            Collection::Report => 0x03,
            Collection::NamedArray => 0x04,
            Collection::UsageSwitch => 0x05,
            Collection::UsageModifier => 0x06,
            Collection::Reserved(i) => i,
            Collection::VendorDefined(i) => i,
        }
    }

    /// Every number names a collection that carries that number.
    pub proof fn lemma_id_round_trip(value: u8)
        ensures
            Self::of_id(value).to_id() == value,
    {
    }
}

impl From<u8> for Collection {
    fn from(value: u8) -> (collection: Self) {
        match value {
            0x00 => Collection::Physical,
            0x01 => Collection::Application,
            0x02 => Collection::Logical,
            0x03 => Collection::Report,
            0x04 => Collection::NamedArray,
            0x05 => Collection::UsageSwitch,
            0x06 => Collection::UsageModifier,
            i => if i <= 0x7F {
                Collection::Reserved(i)
            } else {
                Collection::VendorDefined(i)
            },
        }
    }
}

impl FromSpecImpl<u8> for Collection {
    open spec fn obeys_from_spec() -> bool {
        true
    }

    open spec fn from_spec(value: u8) -> Self {
        Self::of_id(value)
    }
}

impl From<Collection> for u8 {
    fn from(value: Collection) -> (id: Self) {
        match value {
            Collection::Physical => 0x00,
            Collection::Application => 0x01,
            Collection::Logical => 0x02,
            Collection::Report => 0x03,
            Collection::NamedArray => 0x04,
            Collection::UsageSwitch => 0x05,
            Collection::UsageModifier => 0x06,
            Collection::Reserved(i) => i,
            Collection::VendorDefined(i) => i,
        }
    }
}

impl FromSpecImpl<Collection> for u8 {
    open spec fn obeys_from_spec() -> bool {
        true
    }

    open spec fn from_spec(value: Collection) -> Self {
        value.to_id()
    }
}

/// One item of a report descriptor, as a mathematical value.
pub struct ItemView {
    /// The type of the item.
    pub kind: ItemType,
    /// The size of the payload.
    pub payload_size: Size,
    /// The bytes of the item: the prefix byte, then the payload.
    pub raw: Seq<u8>,
}

impl ItemView {
    /// True if the raw bytes are a prefix byte followed by a payload of 0, 1,
    /// 2 or 4 bytes.
    pub open spec fn framed(self) -> bool {
        self.raw.len() == 1 || self.raw.len() == 2 || self.raw.len() == 3 || self.raw.len() == 5
    }

    /// True if the item is well-formed: the raw bytes are the prefix byte
    /// that stands for the type and the size of the item, followed by as many
    /// payload bytes as the size says.
    pub open spec fn wf(self) -> bool {
        &&& self.raw.len() == 1 + self.payload_size.byte_count()
        &&& self.raw[0] == PrefixByte::of(self.kind, self.payload_size)
    }

    /// The payload bytes: the raw bytes without the prefix byte.
    pub open spec fn payload_bytes(self) -> Seq<u8> {
        self.raw.skip(1)
    }

    /// The payload of the item, if the item is framed.
    pub open spec fn payload(self) -> Option<SizedPayload> {
        if self.framed() {
            SizedPayload::of_bytes(self.payload_bytes())
        } else {
            None
        }
    }

    /// The payload read without a sign, if the item is framed; an empty
    /// payload reads as 0.
    pub open spec fn payload_u32(self) -> Option<u32> {
        match self.payload() {
            Some(payload) => Some(payload.unsigned() as u32),
            None => None,
        }
    }

    /// The payload read in two's complement, if the item is framed; an empty
    /// payload reads as 0.
    pub open spec fn payload_i32(self) -> Option<i32> {
        match self.payload() {
            Some(payload) => Some(payload.signed() as i32),
            None => None,
        }
    }

    /// The payload as a `u8`: present if the payload has one byte.
    pub open spec fn payload_u8(self) -> Option<u8> {
        match self.payload() {
            Some(SizedPayload::One(data)) => Some(data[0]),
            _ => None,
        }
    }

    /// The payload as a `u16`: present if the payload has one or two bytes.
    pub open spec fn payload_u16(self) -> Option<u16> {
        match self.payload() {
            Some(SizedPayload::One(data)) => Some(data[0] as u16),
            Some(SizedPayload::Two(data)) => Some((data[0] + 0x100 * data[1]) as u16),
            _ => None,
        }
    }

    /// The usage page that the item sets: present if the item is a Usage Page
    /// item with a payload of one or two bytes.
    pub open spec fn usage_page(self) -> Option<UsagePage> {
        if self.kind != ItemType::Global(GlobalType::UsagePage) {
            None
        } else {
            match self.payload_u16() {
                Some(id) => Some(UsagePage::of_id(id)),
                None => None,
            }
        }
    }

    /// The usage that the item names on the page `page`: present if the item
    /// is a Usage item with a payload of one or two bytes.
    pub open spec fn usage(self, page: UsagePage) -> Option<Usage> {
        if self.kind != ItemType::Local(LocalType::Usage) {
            None
        } else {
            match self.payload_u16() {
                Some(id) => Some(Usage::of(page, id)),
                None => None,
            }
        }
    }

    /// The collection that the item opens: present if the item is a
    /// Collection item whose size and payload are one byte.
    pub open spec fn collection(self) -> Option<Collection> {
        if self.kind != ItemType::Main(MainType::Collection) || self.payload_size != Size::One {
            None
        } else {
            match self.payload_u8() {
                Some(id) => Some(Collection::of_id(id)),
                None => None,
            }
        }
    }

    /// True if the item is an Input, Output or Feature item.
    pub open spec fn is_input_output_or_feature(self) -> bool {
        ||| self.kind == ItemType::Main(MainType::Input)
        ||| self.kind == ItemType::Main(MainType::Output)
        ||| self.kind == ItemType::Main(MainType::Feature)
    }

    /// The options of the fields that the item creates: present if the item
    /// is an Input, Output or Feature item with a payload that is not
    /// empty.
    pub open spec fn data_field_options(self) -> Option<DataFieldOptions> {
        if !self.is_input_output_or_feature() {
            None
        } else {
            match self.payload() {
                Some(SizedPayload::Empty) => None,
                Some(payload) => Some(
                    DataFieldOptions::of_payload(payload.bytes(), payload.spec_size()),
                ),
                None => None,
            }
        }
    }

    /// The well-formed item of type `kind` with the payload `payload`.
    pub open spec fn of(kind: ItemType, payload: SizedPayload) -> ItemView {
        ItemView {
            kind,
            payload_size: payload.spec_size(),
            raw: seq![PrefixByte::of(kind, payload.spec_size())] + payload.bytes(),
        }
    }

    /// An item made of a type and a payload is well-formed and holds that
    /// payload.
    pub proof fn lemma_of_wf(kind: ItemType, payload: SizedPayload)
        ensures
            Self::of(kind, payload).wf(),
            Self::of(kind, payload).framed(),
            Self::of(kind, payload).payload() == Some(payload),
    {
        payload.lemma_bytes();
        let item = Self::of(kind, payload);
        assert(item.payload_bytes() =~= payload.bytes());
    }

    /// A well-formed item is framed.
    pub proof fn lemma_wf_framed(self)
        requires
            self.wf(),
        ensures
            self.framed(),
            self.payload() is Some,
            self.payload().unwrap().spec_size() == self.payload_size,
    {
    }
}

/// One item of a report descriptor.
#[derive(Clone, Debug, PartialEq, Eq)]
pub struct ReportDescriptorItem {
    /// The type of the item.
    pub kind: ItemType,
    /// The size of the payload.
    pub payload_size: Size,
    /// The bytes of the item: the prefix byte, then the payload.
    pub raw: Vec<u8>,
}

impl View for ReportDescriptorItem {
    type V = ItemView;

    open spec fn view(&self) -> ItemView {
        ItemView { kind: self.kind, payload_size: self.payload_size, raw: self.raw@ }
    }
}

impl ReportDescriptorItem {
    /// Returns the item of type `kind` with the payload `payload`.
    pub fn new(kind: ItemType, payload: SizedPayload) -> (item: ReportDescriptorItem)
        ensures
            item@ == ItemView::of(kind, payload),
            item@.wf(),
    {
        let size = payload.size();
        let prefix = PrefixByte::from((&kind, &size));
        proof {
            ItemView::lemma_of_wf(kind, payload);
        }
        ReportDescriptorItem {
            kind,
            payload_size: size,
            raw: prefix.into_vec_append(payload.to_vec()),
        }
    }

    /// Returns true if the item is well-formed.
    pub fn is_well_formed(&self) -> (wf: bool)
        ensures
            wf <==> self@.wf(),
    {
        let prefix = PrefixByte::from((&self.kind, &self.payload_size));
        self.raw.len() == 1 + self.payload_size.to_usize() && self.raw[0] == prefix.u8()
    }

    /// Returns true if the item is framed: its raw bytes are a prefix byte
    /// followed by a payload of 0, 1, 2 or 4 bytes.
    pub fn is_framed(&self) -> (framed: bool)
        ensures
            framed <==> self@.framed(),
            framed <==> self@.payload() is Some,
    {
        let len = self.raw.len();
        len == 1 || len == 2 || len == 3 || len == 5
    }

    /// Returns the payload of the item, or `None` if the item is not framed.
    pub fn payload(&self) -> (payload: Option<SizedPayload>)
        ensures
            payload == self@.payload(),
    {
        if self.is_framed() {
            Some(self.raw_payload())
        } else {
            None
        }
    }

    /// Returns the payload of the item.
    pub fn raw_payload(&self) -> (payload: SizedPayload)
        requires
            self@.framed(),
        ensures
            self@.payload() == Some(payload),
    {
        let bytes = vstd::slice::slice_subrange(self.raw.as_slice(), 1, self.raw.len());
        assert(bytes@ =~= self@.payload_bytes());
        match SizedPayload::try_from(bytes) {
            Ok(payload) => payload,
            Err(_) => vstd::pervasive::unreached(),
        }
    }

    /// Returns the payload as a `u8`, if it has one byte.
    pub fn payload_u8(&self) -> (number: Option<u8>)
        ensures
            number == self@.payload_u8(),
    {
        match self.payload() {
            Some(payload) => match u8::try_from(payload) {
                Ok(number) => Some(number),
                Err(_) => None,
            },
            None => None,
        }
    }

    /// Returns the payload as a `u16`, if it has one or two bytes.
    pub fn payload_u16(&self) -> (number: Option<u16>)
        ensures
            number == self@.payload_u16(),
    {
        match self.payload() {
            Some(payload) => match u16::try_from(payload) {
                Ok(number) => Some(number),
                Err(_) => None,
            },
            None => None,
        }
    }

    /// Returns the payload read without a sign; an empty payload reads as 0.
    pub fn payload_u32(&self) -> (number: u32)
        requires
            self@.framed(),
        ensures
            self@.payload_u32() == Some(number),
    {
        u32::from(self.raw_payload())
    }

    /// Returns the payload read in two's complement; an empty payload reads
    /// as 0.
    pub fn payload_i32(&self) -> (number: i32)
        requires
            self@.framed(),
        ensures
            self@.payload_i32() == Some(number),
    {
        i32::from(self.raw_payload())
    }

    /// Returns true if the item is a Usage Page item.
    pub fn is_usage_page(&self) -> (is: bool)
        ensures
            is <==> self.kind == ItemType::Global(GlobalType::UsagePage),
    {
        self.kind == ItemType::Global(GlobalType::UsagePage)
    }

    /// Returns true if the item is a Usage item.
    pub fn is_usage(&self) -> (is: bool)
        ensures
            is <==> self.kind == ItemType::Local(LocalType::Usage),
    {
        self.kind == ItemType::Local(LocalType::Usage)
    }

    /// Returns true if the item is a Usage Minimum item.
    pub fn is_usage_minimum(&self) -> (is: bool)
        ensures
            is <==> self.kind == ItemType::Local(LocalType::UsageMinimum),
    {
        self.kind == ItemType::Local(LocalType::UsageMinimum)
    }

    /// Returns true if the item is a Usage Maximum item.
    pub fn is_usage_maximum(&self) -> (is: bool)
        ensures
            is <==> self.kind == ItemType::Local(LocalType::UsageMaximum),
    {
        self.kind == ItemType::Local(LocalType::UsageMaximum)
    }

    /// Returns true if the item is a Logical Minimum item.
    pub fn is_logical_minimum(&self) -> (is: bool)
        ensures
            is <==> self.kind == ItemType::Global(GlobalType::LogicalMinimum),
    {
        self.kind == ItemType::Global(GlobalType::LogicalMinimum)
    }

    /// Returns true if the item is a Logical Maximum item.
    pub fn is_logical_maximum(&self) -> (is: bool)
        ensures
            is <==> self.kind == ItemType::Global(GlobalType::LogicalMaximum),
    {
        self.kind == ItemType::Global(GlobalType::LogicalMaximum)
    }

    /// Returns true if the item is a Report Size item.
    pub fn is_report_size(&self) -> (is: bool)
        ensures
            is <==> self.kind == ItemType::Global(GlobalType::ReportSize),
    {
        self.kind == ItemType::Global(GlobalType::ReportSize)
    }

    /// Returns true if the item is a Report Count item.
    pub fn is_report_count(&self) -> (is: bool)
        ensures
            is <==> self.kind == ItemType::Global(GlobalType::ReportCount),
    {
        self.kind == ItemType::Global(GlobalType::ReportCount)
    }

    /// Returns true if the item is a Report ID item.
    pub fn is_report_id(&self) -> (is: bool)
        ensures
            is <==> self.kind == ItemType::Global(GlobalType::ReportID),
    {
        self.kind == ItemType::Global(GlobalType::ReportID)
    }

    /// Returns true if the item is an Input item.
    pub fn is_input(&self) -> (is: bool)
        ensures
            is <==> self.kind == ItemType::Main(MainType::Input),
    {
        self.kind == ItemType::Main(MainType::Input)
    }

    /// Returns true if the item is an Output item.
    pub fn is_output(&self) -> (is: bool)
        ensures
            is <==> self.kind == ItemType::Main(MainType::Output),
    {
        self.kind == ItemType::Main(MainType::Output)
    }

    /// Returns true if the item is an Input, Output or Feature item.
    pub fn is_input_output_or_feature(&self) -> (is: bool)
        ensures
            is <==> self@.is_input_output_or_feature(),
    {
        self.is_input() || self.is_output() || self.is_feature()
    }

    /// Returns true if the item is a Feature item.
    pub fn is_feature(&self) -> (is: bool)
        ensures
            is <==> self.kind == ItemType::Main(MainType::Feature),
    {
        self.kind == ItemType::Main(MainType::Feature)
    }

    /// Returns true if the item opens a collection.
    pub fn is_collection(&self) -> (is: bool)
        ensures
            is <==> self.kind == ItemType::Main(MainType::Collection),
    {
        self.kind == ItemType::Main(MainType::Collection)
    }

    /// Returns true if the item closes a collection.
    pub fn is_end_collection(&self) -> (is: bool)
        ensures
            is <==> self.kind == ItemType::Main(MainType::EndCollection),
    {
        self.kind == ItemType::Main(MainType::EndCollection)
    }

    /// Returns the usage page that the item sets, or `None` if the item is
    /// no Usage Page item or its payload has neither one nor two bytes.
    pub fn usage_page(&self) -> (page: Option<UsagePage>)
        ensures
            page == self@.usage_page(),
    {
        if !self.is_usage_page() {
            return None;
        }
        match self.payload_u16() {
            Some(id) => Some(UsagePage::from(id)),
            None => None,
        }
    }

    /// Returns the usage that the item names on the page `usage_page`, or
    /// `None` if the item is no Usage item or its payload has neither one nor
    /// two bytes.
    pub fn usage(&self, usage_page: &UsagePage) -> (usage: Option<Usage>)
        ensures
            usage == self@.usage(*usage_page),
    {
        if !self.is_usage() {
            return None;
        }
        match self.payload_u16() {
            Some(id) => Some(Usage::from((usage_page, id))),
            None => None,
        }
    }

    /// Returns the collection that the item opens, or `None` if the item is
    /// no Collection item or its payload is not one byte.
    pub fn collection(&self) -> (collection: Option<Collection>)
        ensures
            collection == self@.collection(),
    {
        if !self.is_collection() || self.payload_size != Size::One {
            return None;
        }
        match self.payload_u8() {
            Some(id) => Some(Collection::from(id)),
            None => None,
        }
    }

    /// Returns the options of an Input, Output or Feature item, or `None`
    /// if the item is of another type or its payload is empty.
    pub fn data_field_options(&self) -> (options: Option<DataFieldOptions>)
        ensures
            options == self@.data_field_options(),
    {
        if !self.is_input_output_or_feature() {
            return None;
        }
        let payload = match self.payload() {
            Some(payload) => payload,
            None => {
                return None;
            },
        };
        match payload.data() {
            None => None,
            Some(bytes) => {
                proof {
                    payload.lemma_bytes();
                }
                match data_field_options_from_payload(bytes, payload.size()) {
                    Ok(options) => Some(options),
                    Err(_) => None,
                }
            },
        }
    }
}

impl<T: Into<ItemType>, U: Into<SizedPayload>> From<(T, U)> for ReportDescriptorItem {
    fn from(value: (T, U)) -> (item: Self)
        ensures
            T::obeys_into_spec() && U::obeys_into_spec() ==> item@ == ItemView::of(
                value.0.into_spec(),
                value.1.into_spec(),
            ),
    {
        let kind: ItemType = value.0.into();
        let payload: SizedPayload = value.1.into();
        ReportDescriptorItem::new(kind, payload)
    }
}

impl<T: Into<ItemType>, U: Into<SizedPayload>> FromSpecImpl<(T, U)> for ReportDescriptorItem {
    open spec fn obeys_from_spec() -> bool {
        false
    }

    open spec fn from_spec(value: (T, U)) -> Self {
        arbitrary()
    }
}

/// The views of a sequence of items.
pub open spec fn item_views(items: Seq<ReportDescriptorItem>) -> Seq<ItemView> {
    items.map_values(|item: ReportDescriptorItem| item@)
}

/// The bytes of a sequence of items: the raw bytes of each item, in order.
pub open spec fn encode(items: Seq<ItemView>) -> Seq<u8>
    decreases items.len(),
{
    if items.len() == 0 {
        Seq::empty()
    } else {
        encode(items.drop_last()) + items.last().raw
    }
}

/// True if every item of the sequence is well-formed.
pub open spec fn all_wf(items: Seq<ItemView>) -> bool {
    forall|i: int| 0 <= i < items.len() ==> (#[trigger] items[i]).wf()
}

/// The bytes of a sequence of items begin with the bytes of its first item.
pub proof fn lemma_encode_first(first: ItemView, rest: Seq<ItemView>)
    ensures
        encode(seq![first] + rest) == first.raw + encode(rest),
    decreases rest.len(),
{
    let all = seq![first] + rest;
    if rest.len() == 0 {
        assert(all.drop_last() =~= Seq::<ItemView>::empty());
        assert(all.last() == first);
        assert(encode(all.drop_last()) =~= Seq::<u8>::empty());
        assert(encode(rest) =~= Seq::<u8>::empty());
        assert(encode(all) =~= first.raw);
        assert(first.raw + encode(rest) =~= first.raw);
    } else {
        assert(all.drop_last() =~= seq![first] + rest.drop_last());
        assert(all.last() == rest.last());
        lemma_encode_first(first, rest.drop_last());
        assert(encode(all) =~= first.raw + encode(rest));
    }
}

/// A report descriptor: the list of its items.
#[derive(Debug, PartialEq, Eq)]
pub struct ReportDescriptor {
    /// The items, in the order of the descriptor.
    pub items: Vec<ReportDescriptorItem>,
}

impl View for ReportDescriptor {
    type V = Seq<ItemView>;

    open spec fn view(&self) -> Seq<ItemView> {
        item_views(self.items@)
    }
}

impl ReportDescriptor {
    /// True if every item of the descriptor is well-formed.
    pub open spec fn wf(&self) -> bool {
        all_wf(self@)
    }

    /// Returns the descriptor that holds `items`.
    pub fn new(items: Vec<ReportDescriptorItem>) -> (descriptor: Self)
        ensures
            descriptor.items == items,
    {
        ReportDescriptor { items }
    }

    /// Returns the items of the descriptor.
    pub fn items(&self) -> (items: &Vec<ReportDescriptorItem>)
        ensures
            *items == self.items,
    {
        &self.items
    }

    /// Returns true if every item of the descriptor is well-formed.
    pub fn is_well_formed(&self) -> (wf: bool)
        ensures
            wf <==> self.wf(),
    {
        let mut i: usize = 0;
        while i < self.items.len()
            invariant
                i <= self.items.len(),
                forall|j: int| 0 <= j < i ==> (#[trigger] self@[j]).wf(),
            decreases self.items.len() - i,
        {
            if !self.items[i].is_well_formed() {
                assert(!self@[i as int].wf());
                return false;
            }
            i += 1;
        }
        true
    }

    /// Returns the items of type `key`, in the order of the descriptor.
    pub fn filter_by_type(&self, key: ItemType) -> (found: Vec<&ReportDescriptorItem>)
        ensures
            found@.map_values(|item: &ReportDescriptorItem| *item) == self.items@.filter(
                |item: ReportDescriptorItem| item.kind == key,
            ),
    {
        let mut found: Vec<&ReportDescriptorItem> = Vec::new();
        let ghost pred = |item: ReportDescriptorItem| item.kind == key;
        let ghost deref = |item: &ReportDescriptorItem| *item;
        let mut i: usize = 0;
        proof {
            assert(self.items@.take(0) =~= Seq::<ReportDescriptorItem>::empty());
            assert(found@.map_values(deref) =~= Seq::<ReportDescriptorItem>::empty());
        }
        while i < self.items.len()
            invariant
                i <= self.items.len(),
                pred == |item: ReportDescriptorItem| item.kind == key,
                deref == |item: &ReportDescriptorItem| *item,
                found@.map_values(deref) == self.items@.take(i as int).filter(pred),
            decreases self.items.len() - i,
        {
            let item = &self.items[i];
            proof {
                let before = self.items@.take(i as int);
                let after = self.items@.take(i + 1);
                assert(after.drop_last() =~= before);
                assert(after.last() == self.items@[i as int]);
                reveal(Seq::filter);
            }
            let ghost old_found = found@;
            if item.kind == key {
                found.push(item);
                assert(found@.map_values(deref) =~= old_found.map_values(deref).push(*item));
            }
            i += 1;
        }
        proof {
            assert(self.items@.take(i as int) =~= self.items@);
        }
        found
    }

    /// Returns the bytes of the descriptor: the raw bytes of each item, in
    /// order.
    pub fn bytes(self) -> (bytes: Vec<u8>)
        ensures
            bytes@ == encode(self@),
            self.wf() ==> spec_report_descriptor(bytes@) == Ok::<Seq<ItemView>, Error>(self@),
    {
        proof {
            if self.wf() {
                lemma_parse_of_encode(self@);
            }
        }
        let mut bytes: Vec<u8> = Vec::new();
        let mut i: usize = 0;
        proof {
            assert(self@.take(0) =~= Seq::<ItemView>::empty());
        }
        while i < self.items.len()
            invariant
                i <= self.items.len(),
                bytes@ == encode(self@.take(i as int)),
            decreases self.items.len() - i,
        {
            proof {
                let before = self@.take(i as int);
                let after = self@.take(i + 1);
                assert(after.drop_last() =~= before);
                assert(after.last() == self@[i as int]);
            }
            bytes.extend_from_slice(self.items[i].raw.as_slice());
            i += 1;
        }
        proof {
            assert(self@.take(i as int) =~= self@);
        }
        bytes
    }
}

} // verus!
