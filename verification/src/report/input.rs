//! The state of the walk over a descriptor, and the fields of an Input item.
//!
//! Global items change the global item table for all items that follow.
//! Local items describe the next Main item only. An Input item is read with
//! the tables as they stand where it occurs.

use crate::report::expected::{ExpectedField, ExpectedFieldItem};
use crate::report::InputError;
use crate::report_descriptor::{
    DataFieldOptions, GlobalType, ItemType, ItemView, LocalType, MainType, Mutability,
    ReportDescriptorItem, Structure,
};
use crate::usage_table::{Usage, UsagePage};
use vstd::prelude::*;
use vstd::std_specs::convert::TryFromSpecImpl;

verus! {

/// The global item table: what the Global items seen so far have set.
#[derive(Clone, Copy, Debug, PartialEq, Eq, Structural)]
pub struct GlobalItemTracker {
    /// The usage page.
    pub usage_page: Option<UsagePage>,
    /// The width of a field in bits.
    pub report_size: Option<u32>,
    /// The report id.
    pub report_id: Option<u8>,
    /// The number of fields of a Main item.
    pub report_count: Option<u32>,
    /// The least value of a field.
    pub logical_minimum: Option<i32>,
    /// The greatest value of a field.
    pub logical_maximum: Option<i32>,
}

impl GlobalItemTracker {
    /// The table in which nothing is set.
    pub open spec fn empty() -> GlobalItemTracker {
        GlobalItemTracker {
            usage_page: None,
            report_size: None,
            report_id: None,
            report_count: None,
            logical_minimum: None,
            logical_maximum: None,
        }
    }

    /// The table after the Global item `item`: the item sets what it
    /// stands for, if its payload can be read as that; a Global item that the
    /// table does not hold changes nothing.
    pub open spec fn with_item(self, item: ItemView) -> Result<GlobalItemTracker, InputError> {
        match item.kind {
            ItemType::Global(GlobalType::UsagePage) => match item.usage_page() {
                Some(page) => Ok(GlobalItemTracker { usage_page: Some(page), ..self }),
                None => Err(InputError::InvalidPayload),
            },
            ItemType::Global(GlobalType::ReportSize) => match item.payload_u32() {
                Some(size) => Ok(GlobalItemTracker { report_size: Some(size), ..self }),
                None => Err(InputError::InvalidPayload),
            },
            ItemType::Global(GlobalType::ReportID) => match item.payload_u8() {
                Some(id) => Ok(GlobalItemTracker { report_id: Some(id), ..self }),
                None => Err(InputError::InvalidPayload),
            },
            ItemType::Global(GlobalType::ReportCount) => match item.payload_u32() {
                Some(count) => Ok(GlobalItemTracker { report_count: Some(count), ..self }),
                None => Err(InputError::InvalidPayload),
            },
            ItemType::Global(GlobalType::LogicalMinimum) => match item.payload_i32() {
                Some(least) => Ok(GlobalItemTracker { logical_minimum: Some(least), ..self }),
                None => Err(InputError::InvalidPayload),
            },
            ItemType::Global(GlobalType::LogicalMaximum) => match item.payload_i32() {
                Some(greatest) => Ok(
                    GlobalItemTracker { logical_maximum: Some(greatest), ..self },
                ),
                None => Err(InputError::InvalidPayload),
            },
            _ => Ok(self),
        }
    }

    /// Sets the usage page from a Usage Page item.
    pub fn set_usage_page(&mut self, item: &ReportDescriptorItem) -> (set: Result<
        &Self,
        InputError,
    >)
        ensures
            match set {
                Ok(table) => {
                    &&& item@.usage_page() is Some
                    &&& *final(self) == GlobalItemTracker {
                        usage_page: item@.usage_page(),
                        ..*old(self)
                    }
                    &&& *table == *final(self)
                },
                Err(e) => {
                    &&& *final(self) == *old(self)
                    &&& item@.usage_page() is None
                    &&& e == if item.kind != ItemType::Global(GlobalType::UsagePage) {
                        InputError::InvalidItemType
                    } else {
                        InputError::InvalidPayload
                    }
                },
            },
    {
        if !item.is_usage_page() {
            return Err(InputError::InvalidItemType);
        }
        match item.usage_page() {
            Some(page) => {
                self.usage_page = Some(page);
                Ok(self)
            },
            None => Err(InputError::InvalidPayload),
        }
    }

    /// Returns the usage page, if one is set.
    pub fn usage_page(&self) -> (page: Option<&UsagePage>)
        ensures
            match page {
                Some(p) => self.usage_page == Some(*p),
                None => self.usage_page is None,
            },
    {
        self.usage_page.as_ref()
    }

    /// Sets the width of a field from a Report Size item.
    pub fn set_report_size(&mut self, item: &ReportDescriptorItem) -> (set: Result<
        &Self,
        InputError,
    >)
        ensures
            match set {
                Ok(table) => {
                    &&& item.kind == ItemType::Global(GlobalType::ReportSize)
                    &&& item@.payload_u32() is Some
                    &&& *final(self) == GlobalItemTracker {
                        report_size: item@.payload_u32(),
                        ..*old(self)
                    }
                    &&& *table == *final(self)
                },
                Err(e) => {
                    &&& *final(self) == *old(self)
                    &&& e == if item.kind != ItemType::Global(GlobalType::ReportSize) {
                        InputError::InvalidItemType
                    } else {
                        InputError::InvalidPayload
                    }
                    &&& item.kind == ItemType::Global(GlobalType::ReportSize)
                        ==> item@.payload_u32() is None
                },
            },
    {
        if !item.is_report_size() {
            return Err(InputError::InvalidItemType);
        }
        match item.payload() {
            Some(payload) => {
                self.report_size = Some(u32::from(payload));
                Ok(self)
            },
            None => Err(InputError::InvalidPayload),
        }
    }

    /// Returns the width of a field in bits, if it is set.
    pub fn report_size(&self) -> (size: Option<u32>)
        ensures
            size == self.report_size,
    {
        self.report_size
    }

    /// Sets the report id from a Report ID item, whose payload has to be one byte.
    pub fn set_report_id(&mut self, item: &ReportDescriptorItem) -> (set: Result<
        &Self,
        InputError,
    >)
        ensures
            match set {
                Ok(table) => {
                    &&& item.kind == ItemType::Global(GlobalType::ReportID)
                    &&& item@.payload_u8() is Some
                    &&& *final(self) == GlobalItemTracker {
                        report_id: item@.payload_u8(),
                        ..*old(self)
                    }
                    &&& *table == *final(self)
                },
                Err(e) => {
                    &&& *final(self) == *old(self)
                    &&& e == if item.kind != ItemType::Global(GlobalType::ReportID) {
                        InputError::InvalidItemType
                    } else {
                        InputError::InvalidPayload
                    }
                    &&& item.kind == ItemType::Global(GlobalType::ReportID)
                        ==> item@.payload_u8() is None
                },
            },
    {
        if !item.is_report_id() {
            return Err(InputError::InvalidItemType);
        }
        match item.payload_u8() {
            Some(id) => {
                self.report_id = Some(id);
                Ok(self)
            },
            None => Err(InputError::InvalidPayload),
        }
    }

    /// Returns the report id, if one is set.
    pub fn report_id(&self) -> (id: Option<u8>)
        ensures
            id == self.report_id,
    {
        self.report_id
    }

    /// Sets the number of fields of a Main item from a Report Count item.
    pub fn set_report_count(&mut self, item: &ReportDescriptorItem) -> (set: Result<
        &Self,
        InputError,
    >)
        ensures
            match set {
                Ok(table) => {
                    &&& item.kind == ItemType::Global(GlobalType::ReportCount)
                    &&& item@.payload_u32() is Some
                    &&& *final(self) == GlobalItemTracker {
                        report_count: item@.payload_u32(),
                        ..*old(self)
                    }
                    &&& *table == *final(self)
                },
                Err(e) => {
                    &&& *final(self) == *old(self)
                    &&& e == if item.kind != ItemType::Global(GlobalType::ReportCount) {
                        InputError::InvalidItemType
                    } else {
                        InputError::InvalidPayload
                    }
                    &&& item.kind == ItemType::Global(GlobalType::ReportCount)
                        ==> item@.payload_u32() is None
                },
            },
    {
        if !item.is_report_count() {
            return Err(InputError::InvalidItemType);
        }
        match item.payload() {
            Some(payload) => {
                self.report_count = Some(u32::from(payload));
                Ok(self)
            },
            None => Err(InputError::InvalidPayload),
        }
    }

    /// Returns the number of fields of a Main item, if it is set.
    pub fn report_count(&self) -> (count: Option<u32>)
        ensures
            count == self.report_count,
    {
        self.report_count
    }

    /// Sets the least value of a field from a Logical Minimum item.
    pub fn set_logical_minimum(&mut self, item: &ReportDescriptorItem) -> (set: Result<
        &Self,
        InputError,
    >)
        ensures
            match set {
                Ok(table) => {
                    &&& item.kind == ItemType::Global(GlobalType::LogicalMinimum)
                    &&& item@.payload_i32() is Some
                    &&& *final(self) == GlobalItemTracker {
                        logical_minimum: item@.payload_i32(),
                        ..*old(self)
                    }
                    &&& *table == *final(self)
                },
                Err(e) => {
                    &&& *final(self) == *old(self)
                    &&& e == if item.kind != ItemType::Global(GlobalType::LogicalMinimum) {
                        InputError::InvalidItemType
                    } else {
                        InputError::InvalidPayload
                    }
                    &&& item.kind == ItemType::Global(GlobalType::LogicalMinimum)
                        ==> item@.payload_i32() is None
                },
            },
    {
        if !item.is_logical_minimum() {
            return Err(InputError::InvalidItemType);
        }
        match item.payload() {
            Some(payload) => {
                self.logical_minimum = Some(i32::from(payload));
                Ok(self)
            },
            None => Err(InputError::InvalidPayload),
        }
    }

    /// Sets the greatest value of a field from a Logical Maximum item.
    pub fn set_logical_maximum(&mut self, item: &ReportDescriptorItem) -> (set: Result<
        &Self,
        InputError,
    >)
        ensures
            match set {
                Ok(table) => {
                    &&& item.kind == ItemType::Global(GlobalType::LogicalMaximum)
                    &&& item@.payload_i32() is Some
                    &&& *final(self) == GlobalItemTracker {
                        logical_maximum: item@.payload_i32(),
                        ..*old(self)
                    }
                    &&& *table == *final(self)
                },
                Err(e) => {
                    &&& *final(self) == *old(self)
                    &&& e == if item.kind != ItemType::Global(GlobalType::LogicalMaximum) {
                        InputError::InvalidItemType
                    } else {
                        InputError::InvalidPayload
                    }
                    &&& item.kind == ItemType::Global(GlobalType::LogicalMaximum)
                        ==> item@.payload_i32() is None
                },
            },
    {
        if !item.is_logical_maximum() {
            return Err(InputError::InvalidItemType);
        }
        match item.payload() {
            Some(payload) => {
                self.logical_maximum = Some(i32::from(payload));
                Ok(self)
            },
            None => Err(InputError::InvalidPayload),
        }
    }
}

impl Default for GlobalItemTracker {
    fn default() -> (table: Self)
        ensures
            table == GlobalItemTracker::empty(),
    {
        GlobalItemTracker {
            usage_page: None,
            report_size: None,
            report_id: None,
            report_count: None,
            logical_minimum: None,
            logical_maximum: None,
        }
    }
}

/// The local item table, as a mathematical value.
pub struct LocalItemsView {
    /// The Usage items seen since the last Main item, in their order.
    pub usage: Seq<ItemView>,
    /// The first usage of a range of usages.
    pub usage_minimum: Option<u16>,
    /// The last usage of a range of usages.
    pub usage_maximum: Option<u16>,
}

impl LocalItemsView {
    /// The table in which nothing is set.
    pub open spec fn empty() -> LocalItemsView {
        LocalItemsView { usage: Seq::empty(), usage_minimum: None, usage_maximum: None }
    }

    /// The table after the Local item `item`: a Usage item is added behind
    /// the Usage items, and a Usage Minimum or Usage Maximum item sets an end
    /// of the range, if its payload is one or two bytes; a Local item that
    /// the table does not hold changes nothing.
    pub open spec fn with_item(self, item: ItemView) -> Result<LocalItemsView, InputError> {
        match item.kind {
            ItemType::Local(LocalType::Usage) => Ok(
                LocalItemsView { usage: self.usage.push(item), ..self },
            ),
            ItemType::Local(LocalType::UsageMinimum) => match item.payload_u16() {
                Some(id) => Ok(LocalItemsView { usage_minimum: Some(id), ..self }),
                None => Err(InputError::InvalidPayload),
            },
            ItemType::Local(LocalType::UsageMaximum) => match item.payload_u16() {
                Some(id) => Ok(LocalItemsView { usage_maximum: Some(id), ..self }),
                None => Err(InputError::InvalidPayload),
            },
            _ => Ok(self),
        }
    }
}

/// The local item table: what the Local items since the last Main item have
/// set.
#[derive(Clone, Debug)]
pub struct LocalItemTracker<'a> {
    /// The Usage items seen since the last Main item, in their order.
    pub usage: Vec<&'a ReportDescriptorItem>,
    /// The first usage of a range of usages.
    pub usage_minimum: Option<u16>,
    /// The last usage of a range of usages.
    pub usage_maximum: Option<u16>,
}

impl<'a> View for LocalItemTracker<'a> {
    type V = LocalItemsView;

    open spec fn view(&self) -> LocalItemsView {
        LocalItemsView {
            usage: self.usage@.map_values(|item: &ReportDescriptorItem| item@),
            usage_minimum: self.usage_minimum,
            usage_maximum: self.usage_maximum,
        }
    }
}

impl<'a> LocalItemTracker<'a> {
    /// Adds a Usage item behind the Usage items of the table.
    pub fn add_usage(&mut self, item: &'a ReportDescriptorItem) -> (added: Result<
        &Self,
        InputError,
    >)
        ensures
            match added {
                Ok(table) => {
                    &&& item.kind == ItemType::Local(LocalType::Usage)
                    &&& final(self)@ == LocalItemsView {
                        usage: old(self)@.usage.push(item@),
                        ..old(self)@
                    }
                    &&& *table == *final(self)
                },
                Err(e) => {
                    &&& item.kind != ItemType::Local(LocalType::Usage)
                    &&& *final(self) == *old(self)
                    &&& e == InputError::InvalidItemType
                },
            },
    {
        if !item.is_usage() {
            return Err(InputError::InvalidItemType);
        }
        self.usage.push(item);
        assert(self@.usage =~= old(self)@.usage.push(item@));
        Ok(self)
    }

    /// Sets the first usage of a range from a Usage Minimum item, whose
    /// payload has to be one or two bytes.
    pub fn set_usage_minimum(&mut self, item: &'a ReportDescriptorItem) -> (set: Result<
        &Self,
        InputError,
    >)
        ensures
            match set {
                Ok(table) => {
                    &&& item.kind == ItemType::Local(LocalType::UsageMinimum)
                    &&& item@.payload_u16() is Some
                    &&& final(self)@ == LocalItemsView {
                        usage_minimum: item@.payload_u16(),
                        ..old(self)@
                    }
                    &&& *table == *final(self)
                },
                Err(e) => {
                    &&& *final(self) == *old(self)
                    &&& e == if item.kind != ItemType::Local(LocalType::UsageMinimum) {
                        InputError::InvalidItemType
                    } else {
                        InputError::InvalidPayload
                    }
                    &&& item.kind == ItemType::Local(LocalType::UsageMinimum)
                        ==> item@.payload_u16() is None
                },
            },
    {
        if !item.is_usage_minimum() {
            return Err(InputError::InvalidItemType);
        }
        match item.payload_u16() {
            Some(id) => {
                self.usage_minimum = Some(id);
                Ok(self)
            },
            None => Err(InputError::InvalidPayload),
        }
    }

    /// Sets the last usage of a range from a Usage Maximum item, whose
    /// payload has to be one or two bytes.
    pub fn set_usage_maximum(&mut self, item: &'a ReportDescriptorItem) -> (set: Result<
        &Self,
        InputError,
    >)
        ensures
            match set {
                Ok(table) => {
                    &&& item.kind == ItemType::Local(LocalType::UsageMaximum)
                    &&& item@.payload_u16() is Some
                    &&& final(self)@ == LocalItemsView {
                        usage_maximum: item@.payload_u16(),
                        ..old(self)@
                    }
                    &&& *table == *final(self)
                },
                Err(e) => {
                    &&& *final(self) == *old(self)
                    &&& e == if item.kind != ItemType::Local(LocalType::UsageMaximum) {
                        InputError::InvalidItemType
                    } else {
                        InputError::InvalidPayload
                    }
                    &&& item.kind == ItemType::Local(LocalType::UsageMaximum)
                        ==> item@.payload_u16() is None
                },
            },
    {
        if !item.is_usage_maximum() {
            return Err(InputError::InvalidItemType);
        }
        match item.payload_u16() {
            Some(id) => {
                self.usage_maximum = Some(id);
                Ok(self)
            },
            None => Err(InputError::InvalidPayload),
        }
    }
}

impl<'a> Default for LocalItemTracker<'a> {
    fn default() -> (table: Self)
        ensures
            table@ == LocalItemsView::empty(),
    {
        let table = LocalItemTracker {
            usage: Vec::new(),
            usage_minimum: None,
            usage_maximum: None,
        };
        assert(table@.usage =~= Seq::<ItemView>::empty());
        table
    }
}

/// An Input item with the tables as they stand where it occurs, as a
/// mathematical value.
pub struct InputView {
    /// The Input item.
    pub input_item: ItemView,
    /// The global item table.
    pub global_items: GlobalItemTracker,
    /// The local item table.
    pub local_items: LocalItemsView,
}

impl InputView {
    /// The usage page of the fields: the page of the global item table, or
    /// the undefined page if none is set.
    pub open spec fn usage_page(self) -> UsagePage {
        match self.global_items.usage_page {
            Some(page) => page,
            None => UsagePage::Undefined,
        }
    }

    /// True if the fields take their usages from a range of usages: they
    /// are variables that hold data, and both ends of the range are set.
    pub open spec fn ranged(self, options: DataFieldOptions) -> bool {
        &&& options.0 == Mutability::Data
        &&& options.1 == Structure::Variable
        &&& self.local_items.usage_minimum is Some
        &&& self.local_items.usage_maximum is Some
    }

    /// True if the fields take their usages from the Usage items, one
    /// after the other: they are constants, or variables without a range of
    /// usages.
    pub open spec fn listed(self, options: DataFieldOptions) -> bool {
        &&& !self.ranged(options)
        &&& (options.0 == Mutability::Constant || options.1 == Structure::Variable)
    }

    /// The usage of the field in slot `i`.
    ///
    /// With a range of usages it is the usage `i` places behind the first
    /// usage of the range. With listed usages it is the usage of the Usage
    /// item in place `i`, if there is one and it names a usage. Otherwise it
    /// is undefined, as it is for every array field that holds data.
    pub open spec fn slot_usage(self, options: DataFieldOptions, i: int) -> Usage {
        if self.ranged(options) {
            Usage::of(self.usage_page(), (self.local_items.usage_minimum.unwrap() + i) as u16)
        } else if self.listed(options) && 0 <= i < self.local_items.usage.len() {
            match self.local_items.usage[i].usage(self.usage_page()) {
                Some(usage) => usage,
                None => Usage::Undefined,
            }
        } else {
            Usage::Undefined
        }
    }

    /// The field in slot `i` of an Input item whose first field starts at
    /// bit `index` of the report, for fields of `size` bits.
    ///
    /// A constant is a constant whatever its structure is; a field that
    /// holds data is an array item or a variable.
    pub open spec fn field(self, options: DataFieldOptions, size: u32, index: int, i: int)
        -> ExpectedField {
        let item = ExpectedFieldItem {
            usage_page: self.usage_page(),
            usage: self.slot_usage(options, i),
            index_in_raw: (index + size * i) as usize,
            size_bits: size as usize,
            options,
        };
        match (options.0, options.1) {
            (Mutability::Constant, _) => ExpectedField::Constant(item),
            (Mutability::Data, Structure::Array) => ExpectedField::ArrayItem(item),
            (Mutability::Data, Structure::Variable) => ExpectedField::Variable(item),
        }
    }

    /// The fields of the Input item, the first of which starts at bit
    /// `index` of the report: as many as the report count says, each as wide
    /// as the report size says, one behind the other.
    ///
    /// There are no fields if the Input item has no options, or if the
    /// report size or the report count is not set. A range of usages has to
    /// stay within 16 bits, and the offset of every field within `usize`.
    pub open spec fn expected_fields(self, index: int) -> Result<Seq<ExpectedField>, InputError> {
        match self.input_item.data_field_options() {
            None => Err(InputError::InvalidPayload),
            Some(options) => match self.global_items.report_size {
                None => Err(InputError::GlobalItemNotSet(GlobalType::ReportSize)),
                Some(size) => match self.global_items.report_count {
                    None => Err(InputError::GlobalItemNotSet(GlobalType::ReportCount)),
                    Some(count) => if count > 0 && self.ranged(options)
                        && self.local_items.usage_minimum.unwrap() + count - 1 > u16::MAX {
                        Err(InputError::UsageOutOfRange)
                    } else if count > 0 && index + size * (count - 1) > usize::MAX {
                        Err(InputError::ReportTooLarge)
                    } else {
                        Ok(Seq::new(count as nat, |i: int| self.field(options, size, index, i)))
                    },
                },
            },
        }
    }

    /// The number of bits that the fields of the Input item take: the
    /// report count times the report size.
    pub open spec fn bit_count(self) -> int {
        match (self.global_items.report_size, self.global_items.report_count) {
            (Some(size), Some(count)) => size * count,
            _ => 0,
        }
    }

    /// The fields of an Input item take no less than no bits and no more
    /// than fit into 64 bits.
    pub proof fn lemma_bit_count(self)
        ensures
            0 <= self.bit_count() <= 0xFFFF_FFFF * 0xFFFF_FFFF,
    {
        if let (Some(size), Some(count)) = (
            self.global_items.report_size,
            self.global_items.report_count,
        ) {
            assert(0 <= size * count <= 0xFFFF_FFFF * 0xFFFF_FFFF) by (nonlinear_arith)
                requires
                    0 <= size <= 0xFFFF_FFFF,
                    0 <= count <= 0xFFFF_FFFF,
            ;
        }
    }

    /// An Input item with the report count N and the report size S makes
    /// exactly N fields of S bits each, one behind the other from the bit
    /// where the first one starts.
    pub proof fn lemma_field_count(self, index: int)
        requires
            0 <= index,
        ensures
            self.expected_fields(index) matches Ok(fields) ==> {
                &&& self.global_items.report_count == Some(fields.len() as u32)
                &&& fields.len() * self.global_items.report_size.unwrap() == self.bit_count()
                &&& forall|i: int|
                    0 <= i < fields.len() ==> {
                        &&& (#[trigger] fields[i]).spec_size()
                            == self.global_items.report_size.unwrap()
                        &&& fields[i].spec_index() == index
                            + self.global_items.report_size.unwrap() * i
                    }
            },
    {
        if let Ok(fields) = self.expected_fields(index) {
            let size = self.global_items.report_size.unwrap();
            let count = self.global_items.report_count.unwrap();
            let options = self.input_item.data_field_options().unwrap();
            assert(fields.len() * size == size * count) by (nonlinear_arith)
                requires
                    fields.len() == count,
            ;
            assert forall|i: int| 0 <= i < fields.len() implies {
                &&& (#[trigger] fields[i]).spec_size() == size
                &&& fields[i].spec_index() == index + size * i
            } by {
                assert(fields[i] == self.field(options, size, index, i));
                assert(0 <= size * i <= size * (count - 1)) by (nonlinear_arith)
                    requires
                        0 <= i <= count - 1,
                        0 <= size,
                ;
            }
        }
    }
}

/// An Input item with the tables as they stand where it occurs.
#[derive(Clone, Debug)]
pub struct Input<'a> {
    /// The Input item.
    pub input_item: &'a ReportDescriptorItem,
    /// The global item table.
    pub global_items: GlobalItemTracker,
    /// The local item table.
    pub local_items: LocalItemTracker<'a>,
}

impl<'a> View for Input<'a> {
    type V = InputView;

    open spec fn view(&self) -> InputView {
        InputView {
            input_item: self.input_item@,
            global_items: self.global_items,
            local_items: self.local_items@,
        }
    }
}

impl<'a> Input<'a> {
    /// Returns the report id of the global item table, if one is set.
    pub fn report_id(&self) -> (id: Option<u8>)
        ensures
            id == self.global_items.report_id,
    {
        self.global_items.report_id()
    }
}

impl<'a> TryFrom<(&'a ReportDescriptorItem, GlobalItemTracker, LocalItemTracker<'a>)> for Input<'a> {
    type Error = InputError;

    fn try_from(value: (&'a ReportDescriptorItem, GlobalItemTracker, LocalItemTracker<'a>)) -> (input:
        Result<Self, Self::Error>) {
        if !value.0.is_input() {
            return Err(InputError::InvalidItemType);
        }
        Ok(Input { input_item: value.0, global_items: value.1, local_items: value.2 })
    }
}

impl<'a> TryFromSpecImpl<(&'a ReportDescriptorItem, GlobalItemTracker, LocalItemTracker<'a>)> for Input<'a> {
    open spec fn obeys_try_from_spec() -> bool {
        true
    }

    open spec fn try_from_spec(
        value: (&'a ReportDescriptorItem, GlobalItemTracker, LocalItemTracker<'a>),
    ) -> Result<Self, Self::Error> {
        if value.0.kind == ItemType::Main(MainType::Input) {
            Ok(Input { input_item: value.0, global_items: value.1, local_items: value.2 })
        } else {
            Err(InputError::InvalidItemType)
        }
    }
}

/// Returns the fields of an Input item, the first of which starts at bit
/// `index_in_raw` of the report.
pub fn expected_fields(input: Input, index_in_raw: usize) -> (fields: Result<
    Vec<ExpectedField>,
    InputError,
>)
    ensures
        match fields {
            Ok(found) => input@.expected_fields(index_in_raw as int) == Ok::<
                Seq<ExpectedField>,
                InputError,
            >(found@),
            Err(e) => input@.expected_fields(index_in_raw as int) == Err::<
                Seq<ExpectedField>,
                InputError,
            >(e),
        },
{
    let usage_page = match input.global_items.usage_page() {
        Some(page) => *page,
        None => UsagePage::default(),
    };
    let options = match input.input_item.data_field_options() {
        Some(options) => options,
        None => {
            return Err(InputError::InvalidPayload);
        },
    };
    let report_size = match input.global_items.report_size() {
        Some(size) => size,
        None => {
            return Err(InputError::GlobalItemNotSet(GlobalType::ReportSize));
        },
    };
    let report_count = match input.global_items.report_count() {
        Some(count) => count,
        None => {
            return Err(InputError::GlobalItemNotSet(GlobalType::ReportCount));
        },
    };
    let ranged = options.is_data() && options.is_var() && input.local_items.usage_minimum.is_some()
        && input.local_items.usage_maximum.is_some();
    let listed = !ranged && (options.is_constant() || options.is_var());
    let first_usage: u16 = match input.local_items.usage_minimum {
        Some(id) => id,
        None => 0,
    };
    if report_count > 0 {
        if ranged && first_usage as u64 + (report_count - 1) as u64 > u16::MAX as u64 {
            return Err(InputError::UsageOutOfRange);
        }
        assert((report_size as u128) * ((report_count - 1) as u128) <= 0xFFFF_FFFF * 0xFFFF_FFFF)
            by (nonlinear_arith)
            requires
                report_size <= 0xFFFF_FFFF,
                report_count - 1 <= 0xFFFF_FFFF,
                0 <= report_count - 1,
        ;
        let span: u128 = (report_size as u128) * ((report_count - 1) as u128);
        if index_in_raw as u128 + span > usize::MAX as u128 {
            return Err(InputError::ReportTooLarge);
        }
    }
    let size_bits = report_size as usize;
    let count = report_count as usize;
    let mut fields: Vec<ExpectedField> = Vec::new();
    let mut i: usize = 0;
    while i < count
        invariant
            i <= count,
            count == report_count,
            size_bits == report_size,
            usage_page == input@.usage_page(),
            ranged == input@.ranged(options),
            listed == input@.listed(options),
            ranged ==> Some(first_usage) == input@.local_items.usage_minimum,
            ranged && report_count > 0 ==> first_usage + report_count - 1 <= u16::MAX,
            report_count > 0 ==> index_in_raw + report_size * (report_count - 1) <= usize::MAX,
            fields@.len() == i,
            forall|k: int|
                0 <= k < i ==> #[trigger] fields@[k] == input@.field(
                    options,
                    report_size,
                    index_in_raw as int,
                    k,
                ),
        decreases count - i,
    {
        let usage = if ranged {
            Usage::from((&usage_page, first_usage + i as u16))
        } else if listed && i < input.local_items.usage.len() {
            let item = input.local_items.usage[i];
            assert(input@.local_items.usage[i as int] == item@);
            match item.usage(&usage_page) {
                Some(usage) => usage,
                None => Usage::default(),
            }
        } else {
            Usage::default()
        };
        assert(0 <= report_size * i <= report_size * (report_count - 1)) by (nonlinear_arith)
            requires
                0 <= i <= report_count - 1,
                0 <= report_size,
        ;
        let item = ExpectedFieldItem {
            usage_page,
            usage,
            index_in_raw: index_in_raw + size_bits * i,
            size_bits,
            options,
        };
        let field = if options.is_constant() {
            ExpectedField::Constant(item)
        } else if options.is_array() {
            ExpectedField::ArrayItem(item)
        } else {
            ExpectedField::Variable(item)
        };
        fields.push(field);
        i += 1;
    }
    assert(fields@ =~= Seq::new(
        report_count as nat,
        |k: int| input@.field(options, report_size, index_in_raw as int, k),
    ));
    Ok(fields)
}

} // verus!
