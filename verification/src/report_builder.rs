//! A builder of report descriptors.
//!
//! The builder collects items in the order in which they are added. Every
//! item it makes is well-formed, so the descriptor that it builds can be
//! written to bytes and parsed again.

use crate::report_descriptor::data::SizedPayload;
use crate::report_descriptor::{
    all_wf, item_views, Collection, GlobalType, ItemType, ItemView, LocalType, MainType,
    ReportDescriptor, ReportDescriptorItem,
};
use crate::usage_table::{UsageId, UsagePage};
use vstd::prelude::*;
use vstd::std_specs::convert::{FromSpecImpl, IntoSpec};

verus! {

/// A builder of report descriptors.
#[derive(Debug, PartialEq, Eq)]
pub struct ReportDescriptorBuilder {
    /// The items added so far, in the order in which they were added.
    pub items: Vec<ReportDescriptorItem>,
}

impl View for ReportDescriptorBuilder {
    type V = Seq<ItemView>;

    open spec fn view(&self) -> Seq<ItemView> {
        item_views(self.items@)
    }
}

/// True if `after` is `before` with one item more, and that item is a
/// well-formed item of the type `kind`.
pub open spec fn appended(before: Seq<ItemView>, after: Seq<ItemView>, kind: ItemType) -> bool {
    &&& after.len() == before.len() + 1
    &&& after.drop_last() == before
    &&& after.last().kind == kind
    &&& after.last().wf()
}

impl ReportDescriptorBuilder {
    /// True if every item added so far is well-formed.
    pub open spec fn wf(&self) -> bool {
        all_wf(self@)
    }

    /// Returns a builder without items.
    pub fn new() -> (builder: Self)
        ensures
            builder@ == Seq::<ItemView>::empty(),
            builder.wf(),
    {
        let builder = ReportDescriptorBuilder { items: Vec::new() };
        assert(builder@ =~= Seq::<ItemView>::empty());
        builder
    }

    /// Adds an Input item with the options `value`.
    pub fn input<T: Into<SizedPayload>>(self, value: T) -> (builder: Self)
        ensures
            appended(self@, builder@, ItemType::Main(MainType::Input)),
            T::obeys_into_spec() ==> builder@.last() == ItemView::of(
                ItemType::Main(MainType::Input),
                value.into_spec(),
            ),
            self.wf() ==> builder.wf(),
    {
        let payload: SizedPayload = value.into();
        let kind = ItemType::Main(MainType::Input);
        self.push_item(ReportDescriptorItem::new(kind, payload))
    }

    /// Adds an Output item with the options `value`.
    pub fn output<T: Into<SizedPayload>>(self, value: T) -> (builder: Self)
        ensures
            appended(self@, builder@, ItemType::Main(MainType::Output)),
            T::obeys_into_spec() ==> builder@.last() == ItemView::of(
                ItemType::Main(MainType::Output),
                value.into_spec(),
            ),
            self.wf() ==> builder.wf(),
    {
        let payload: SizedPayload = value.into();
        let kind = ItemType::Main(MainType::Output);
        self.push_item(ReportDescriptorItem::new(kind, payload))
    }

    /// Adds a Feature item with the options `value`.
    pub fn feature<T: Into<SizedPayload>>(self, value: T) -> (builder: Self)
        ensures
            appended(self@, builder@, ItemType::Main(MainType::Feature)),
            T::obeys_into_spec() ==> builder@.last() == ItemView::of(
                ItemType::Main(MainType::Feature),
                value.into_spec(),
            ),
            self.wf() ==> builder.wf(),
    {
        let payload: SizedPayload = value.into();
        let kind = ItemType::Main(MainType::Feature);
        self.push_item(ReportDescriptorItem::new(kind, payload))
    }

    /// Adds a Collection item that opens the collection `collection`.
    pub fn collection<T: Into<u8>>(self, collection: T) -> (builder: Self)
        ensures
            appended(self@, builder@, ItemType::Main(MainType::Collection)),
            T::obeys_into_spec() ==> builder@.last() == ItemView::of(
                ItemType::Main(MainType::Collection),
                SizedPayload::One([collection.into_spec()]),
            ),
            self.wf() ==> builder.wf(),
    {
        let number: u8 = collection.into();
        let payload = SizedPayload::from(number);
        let kind = ItemType::Main(MainType::Collection);
        self.push_item(ReportDescriptorItem::new(kind, payload))
    }

    /// Adds an End Collection item.
    pub fn end_collection(self) -> (builder: Self)
        ensures
            appended(self@, builder@, ItemType::Main(MainType::EndCollection)),
            builder@.last() == ItemView::of(
                ItemType::Main(MainType::EndCollection),
                SizedPayload::Empty,
            ),
            self.wf() ==> builder.wf(),
    {
        let kind = ItemType::Main(MainType::EndCollection);
        self.push_item(ReportDescriptorItem::new(kind, SizedPayload::Empty))
    }

    /// Adds a Usage Page item.
    pub fn usage_page<T: Into<u16>>(self, usage_page: T) -> (builder: Self)
        ensures
            appended(self@, builder@, ItemType::Global(GlobalType::UsagePage)),
            T::obeys_into_spec() ==> builder@.last() == ItemView::of(
                ItemType::Global(GlobalType::UsagePage),
                SizedPayload::of_unsigned(usage_page.into_spec() as int),
            ),
            self.wf() ==> builder.wf(),
    {
        let number: u16 = usage_page.into();
        let payload = SizedPayload::from(number);
        let kind = ItemType::Global(GlobalType::UsagePage);
        self.push_item(ReportDescriptorItem::new(kind, payload))
    }

    /// Adds a Logical Minimum item.
    pub fn logical_minimum<T: Into<SizedPayload>>(self, value: T) -> (builder: Self)
        ensures
            appended(self@, builder@, ItemType::Global(GlobalType::LogicalMinimum)),
            T::obeys_into_spec() ==> builder@.last() == ItemView::of(
                ItemType::Global(GlobalType::LogicalMinimum),
                value.into_spec(),
            ),
            self.wf() ==> builder.wf(),
    {
        let payload: SizedPayload = value.into();
        let kind = ItemType::Global(GlobalType::LogicalMinimum);
        self.push_item(ReportDescriptorItem::new(kind, payload))
    }

    /// Adds a Logical Maximum item.
    pub fn logical_maximum<T: Into<SizedPayload>>(self, value: T) -> (builder: Self)
        ensures
            appended(self@, builder@, ItemType::Global(GlobalType::LogicalMaximum)),
            T::obeys_into_spec() ==> builder@.last() == ItemView::of(
                ItemType::Global(GlobalType::LogicalMaximum),
                value.into_spec(),
            ),
            self.wf() ==> builder.wf(),
    {
        let payload: SizedPayload = value.into();
        let kind = ItemType::Global(GlobalType::LogicalMaximum);
        self.push_item(ReportDescriptorItem::new(kind, payload))
    }

    /// Adds a Physical Minimum item.
    pub fn physical_minimum<T: Into<SizedPayload>>(self, value: T) -> (builder: Self)
        ensures
            appended(self@, builder@, ItemType::Global(GlobalType::PhysicalMinimum)),
            T::obeys_into_spec() ==> builder@.last() == ItemView::of(
                ItemType::Global(GlobalType::PhysicalMinimum),
                value.into_spec(),
            ),
            self.wf() ==> builder.wf(),
    {
        let payload: SizedPayload = value.into();
        let kind = ItemType::Global(GlobalType::PhysicalMinimum);
        self.push_item(ReportDescriptorItem::new(kind, payload))
    }

    /// Adds a Physical Maximum item.
    pub fn physical_maximum<T: Into<SizedPayload>>(self, value: T) -> (builder: Self)
        ensures
            appended(self@, builder@, ItemType::Global(GlobalType::PhysicalMaximum)),
            T::obeys_into_spec() ==> builder@.last() == ItemView::of(
                ItemType::Global(GlobalType::PhysicalMaximum),
                value.into_spec(),
            ),
            self.wf() ==> builder.wf(),
    {
        let payload: SizedPayload = value.into();
        let kind = ItemType::Global(GlobalType::PhysicalMaximum);
        self.push_item(ReportDescriptorItem::new(kind, payload))
    }

    /// Adds a Unit Exponent item.
    pub fn unit_exponent<T: Into<SizedPayload>>(self, value: T) -> (builder: Self)
        ensures
            appended(self@, builder@, ItemType::Global(GlobalType::UnitExponent)),
            T::obeys_into_spec() ==> builder@.last() == ItemView::of(
                ItemType::Global(GlobalType::UnitExponent),
                value.into_spec(),
            ),
            self.wf() ==> builder.wf(),
    {
        let payload: SizedPayload = value.into();
        let kind = ItemType::Global(GlobalType::UnitExponent);
        self.push_item(ReportDescriptorItem::new(kind, payload))
    }

    /// Adds a Unit item.
    pub fn unit<T: Into<u8>>(self, value: T) -> (builder: Self)
        ensures
            appended(self@, builder@, ItemType::Global(GlobalType::Unit)),
            T::obeys_into_spec() ==> builder@.last() == ItemView::of(
                ItemType::Global(GlobalType::Unit),
                SizedPayload::One([value.into_spec()]),
            ),
            self.wf() ==> builder.wf(),
    {
        let number: u8 = value.into();
        let payload = SizedPayload::from(number);
        let kind = ItemType::Global(GlobalType::Unit);
        self.push_item(ReportDescriptorItem::new(kind, payload))
    }

    /// Adds a Report Size item.
    pub fn report_size<T: Into<SizedPayload>>(self, value: T) -> (builder: Self)
        ensures
            appended(self@, builder@, ItemType::Global(GlobalType::ReportSize)),
            T::obeys_into_spec() ==> builder@.last() == ItemView::of(
                ItemType::Global(GlobalType::ReportSize),
                value.into_spec(),
            ),
            self.wf() ==> builder.wf(),
    {
        let payload: SizedPayload = value.into();
        let kind = ItemType::Global(GlobalType::ReportSize);
        self.push_item(ReportDescriptorItem::new(kind, payload))
    }

    /// Adds a Report ID item.
    pub fn report_id<T: Into<SizedPayload>>(self, value: T) -> (builder: Self)
        ensures
            appended(self@, builder@, ItemType::Global(GlobalType::ReportID)),
            T::obeys_into_spec() ==> builder@.last() == ItemView::of(
                ItemType::Global(GlobalType::ReportID),
                value.into_spec(),
            ),
            self.wf() ==> builder.wf(),
    {
        let payload: SizedPayload = value.into();
        let kind = ItemType::Global(GlobalType::ReportID);
        self.push_item(ReportDescriptorItem::new(kind, payload))
    }

    /// Adds a Report Count item.
    pub fn report_count<T: Into<SizedPayload>>(self, value: T) -> (builder: Self)
        ensures
            appended(self@, builder@, ItemType::Global(GlobalType::ReportCount)),
            T::obeys_into_spec() ==> builder@.last() == ItemView::of(
                ItemType::Global(GlobalType::ReportCount),
                value.into_spec(),
            ),
            self.wf() ==> builder.wf(),
    {
        let payload: SizedPayload = value.into();
        let kind = ItemType::Global(GlobalType::ReportCount);
        self.push_item(ReportDescriptorItem::new(kind, payload))
    }

    /// Adds a Push item.
    pub fn push<T: Into<SizedPayload>>(self, value: T) -> (builder: Self)
        ensures
            appended(self@, builder@, ItemType::Global(GlobalType::Push)),
            T::obeys_into_spec() ==> builder@.last() == ItemView::of(
                ItemType::Global(GlobalType::Push),
                value.into_spec(),
            ),
            self.wf() ==> builder.wf(),
    {
        let payload: SizedPayload = value.into();
        let kind = ItemType::Global(GlobalType::Push);
        self.push_item(ReportDescriptorItem::new(kind, payload))
    }

    /// Adds a Pop item.
    pub fn pop<T: Into<SizedPayload>>(self, value: T) -> (builder: Self)
        ensures
            appended(self@, builder@, ItemType::Global(GlobalType::Pop)),
            T::obeys_into_spec() ==> builder@.last() == ItemView::of(
                ItemType::Global(GlobalType::Pop),
                value.into_spec(),
            ),
            self.wf() ==> builder.wf(),
    {
        let payload: SizedPayload = value.into();
        let kind = ItemType::Global(GlobalType::Pop);
        self.push_item(ReportDescriptorItem::new(kind, payload))
    }

    /// Adds a Usage item.
    pub fn usage<T: Into<u16>>(self, usage: T) -> (builder: Self)
        ensures
            appended(self@, builder@, ItemType::Local(LocalType::Usage)),
            T::obeys_into_spec() ==> builder@.last() == ItemView::of(
                ItemType::Local(LocalType::Usage),
                SizedPayload::of_unsigned(usage.into_spec() as int),
            ),
            self.wf() ==> builder.wf(),
    {
        let number: u16 = usage.into();
        let payload = SizedPayload::from(number);
        let kind = ItemType::Local(LocalType::Usage);
        self.push_item(ReportDescriptorItem::new(kind, payload))
    }

    /// Adds a Usage Minimum item.
    pub fn usage_minimum<T: Into<u16>>(self, usage: T) -> (builder: Self)
        ensures
            appended(self@, builder@, ItemType::Local(LocalType::UsageMinimum)),
            T::obeys_into_spec() ==> builder@.last() == ItemView::of(
                ItemType::Local(LocalType::UsageMinimum),
                SizedPayload::of_unsigned(usage.into_spec() as int),
            ),
            self.wf() ==> builder.wf(),
    {
        let number: u16 = usage.into();
        let payload = SizedPayload::from(number);
        let kind = ItemType::Local(LocalType::UsageMinimum);
        self.push_item(ReportDescriptorItem::new(kind, payload))
    }

    /// Adds a Usage Maximum item.
    pub fn usage_maximum<T: Into<u16>>(self, usage: T) -> (builder: Self)
        ensures
            appended(self@, builder@, ItemType::Local(LocalType::UsageMaximum)),
            T::obeys_into_spec() ==> builder@.last() == ItemView::of(
                ItemType::Local(LocalType::UsageMaximum),
                SizedPayload::of_unsigned(usage.into_spec() as int),
            ),
            self.wf() ==> builder.wf(),
    {
        let number: u16 = usage.into();
        let payload = SizedPayload::from(number);
        let kind = ItemType::Local(LocalType::UsageMaximum);
        self.push_item(ReportDescriptorItem::new(kind, payload))
    }

    /// Adds a Designator Index item.
    pub fn designator_index<T: Into<SizedPayload>>(self, value: T) -> (builder: Self)
        ensures
            appended(self@, builder@, ItemType::Local(LocalType::DesignatorIndex)),
            T::obeys_into_spec() ==> builder@.last() == ItemView::of(
                ItemType::Local(LocalType::DesignatorIndex),
                value.into_spec(),
            ),
            self.wf() ==> builder.wf(),
    {
        let payload: SizedPayload = value.into();
        let kind = ItemType::Local(LocalType::DesignatorIndex);
        self.push_item(ReportDescriptorItem::new(kind, payload))
    }

    /// Adds a Designator Minimum item.
    pub fn designator_minimum<T: Into<SizedPayload>>(self, value: T) -> (builder: Self)
        ensures
            appended(self@, builder@, ItemType::Local(LocalType::DesignatorMinimum)),
            T::obeys_into_spec() ==> builder@.last() == ItemView::of(
                ItemType::Local(LocalType::DesignatorMinimum),
                value.into_spec(),
            ),
            self.wf() ==> builder.wf(),
    {
        let payload: SizedPayload = value.into();
        let kind = ItemType::Local(LocalType::DesignatorMinimum);
        self.push_item(ReportDescriptorItem::new(kind, payload))
    }

    /// Adds a Designator Maximum item.
    pub fn designator_maximum<T: Into<SizedPayload>>(self, value: T) -> (builder: Self)
        ensures
            appended(self@, builder@, ItemType::Local(LocalType::DesignatorMaximum)),
            T::obeys_into_spec() ==> builder@.last() == ItemView::of(
                ItemType::Local(LocalType::DesignatorMaximum),
                value.into_spec(),
            ),
            self.wf() ==> builder.wf(),
    {
        let payload: SizedPayload = value.into();
        let kind = ItemType::Local(LocalType::DesignatorMaximum);
        self.push_item(ReportDescriptorItem::new(kind, payload))
    }

    /// Adds a String Index item.
    pub fn string_index<T: Into<SizedPayload>>(self, value: T) -> (builder: Self)
        ensures
            appended(self@, builder@, ItemType::Local(LocalType::StringIndex)),
            T::obeys_into_spec() ==> builder@.last() == ItemView::of(
                ItemType::Local(LocalType::StringIndex),
                value.into_spec(),
            ),
            self.wf() ==> builder.wf(),
    {
        let payload: SizedPayload = value.into();
        let kind = ItemType::Local(LocalType::StringIndex);
        self.push_item(ReportDescriptorItem::new(kind, payload))
    }

    /// Adds a String Minimum item.
    pub fn string_minimum<T: Into<SizedPayload>>(self, value: T) -> (builder: Self)
        ensures
            appended(self@, builder@, ItemType::Local(LocalType::StringMinimum)),
            T::obeys_into_spec() ==> builder@.last() == ItemView::of(
                ItemType::Local(LocalType::StringMinimum),
                value.into_spec(),
            ),
            self.wf() ==> builder.wf(),
    {
        let payload: SizedPayload = value.into();
        let kind = ItemType::Local(LocalType::StringMinimum);
        self.push_item(ReportDescriptorItem::new(kind, payload))
    }

    /// Adds a String Maximum item.
    pub fn string_maximum<T: Into<SizedPayload>>(self, value: T) -> (builder: Self)
        ensures
            appended(self@, builder@, ItemType::Local(LocalType::StringMaximum)),
            T::obeys_into_spec() ==> builder@.last() == ItemView::of(
                ItemType::Local(LocalType::StringMaximum),
                value.into_spec(),
            ),
            self.wf() ==> builder.wf(),
    {
        let payload: SizedPayload = value.into();
        let kind = ItemType::Local(LocalType::StringMaximum);
        self.push_item(ReportDescriptorItem::new(kind, payload))
    }

    /// Adds a Delimiter item.
    pub fn delimiter<T: Into<SizedPayload>>(self, value: T) -> (builder: Self)
        ensures
            appended(self@, builder@, ItemType::Local(LocalType::Delimiter)),
            T::obeys_into_spec() ==> builder@.last() == ItemView::of(
                ItemType::Local(LocalType::Delimiter),
                value.into_spec(),
            ),
            self.wf() ==> builder.wf(),
    {
        let payload: SizedPayload = value.into();
        let kind = ItemType::Local(LocalType::Delimiter);
        self.push_item(ReportDescriptorItem::new(kind, payload))
    }

    /// Adds `item` behind the items added so far.
    fn push_item(self, item: ReportDescriptorItem) -> (builder: Self)
        ensures
            builder@ == self@.push(item@),
            builder@.drop_last() == self@,
            self.wf() && item@.wf() ==> builder.wf(),
    {
        let mut items = self.items;
        items.push(item);
        let builder = ReportDescriptorBuilder { items };
        assert(builder@ =~= self@.push(item@));
        assert(builder@.drop_last() =~= self@);
        builder
    }

    /// Adds an item of the type `item_type` with the payload `payload`.
    pub fn item_with_payload<T, U>(self, item_type: T, payload: U) -> (builder: Self) where
        T: Into<ItemType>,
        U: Into<SizedPayload>,

        ensures
            builder@.len() == self@.len() + 1,
            builder@.drop_last() == self@,
            builder@.last().wf(),
            T::obeys_into_spec() && U::obeys_into_spec() ==> builder@.last() == ItemView::of(
                item_type.into_spec(),
                payload.into_spec(),
            ),
            self.wf() ==> builder.wf(),
    {
        let kind: ItemType = item_type.into();
        let payload: SizedPayload = payload.into();
        self.push_item(ReportDescriptorItem::new(kind, payload))
    }

    /// Adds the item that `item` stands for: the type and the payload that
    /// `item` converts to.
    pub fn item<T>(self, item: T) -> (builder: Self) where
        T: Into<ItemType> + Into<SizedPayload> + Copy,

        ensures
            builder@.len() == self@.len() + 1,
            builder@.drop_last() == self@,
            builder@.last().wf(),
            <T as IntoSpec<ItemType>>::obeys_into_spec() && <T as IntoSpec<
                SizedPayload,
            >>::obeys_into_spec() ==> builder@.last() == ItemView::of(
                <T as IntoSpec<ItemType>>::into_spec(item),
                <T as IntoSpec<SizedPayload>>::into_spec(item),
            ),
            self.wf() ==> builder.wf(),
    {
        let kind: ItemType = item.into();
        let payload: SizedPayload = item.into();
        self.push_item(ReportDescriptorItem::new(kind, payload))
    }

    /// Returns the descriptor that holds the items added so far.
    pub fn build(self) -> (descriptor: ReportDescriptor)
        ensures
            descriptor@ == self@,
            self.wf() ==> descriptor.wf(),
    {
        ReportDescriptor::new(self.items)
    }
}

impl Default for ReportDescriptorBuilder {
    fn default() -> (builder: Self)
        ensures
            builder@ == Seq::<ItemView>::empty(),
            builder.wf(),
    {
        ReportDescriptorBuilder::new()
    }
}

impl From<UsagePage> for ItemType {
    fn from(value: UsagePage) -> (kind: Self) {
        ItemType::Global(GlobalType::UsagePage)
    }
}

impl FromSpecImpl<UsagePage> for ItemType {
    open spec fn obeys_from_spec() -> bool {
        true
    }

    open spec fn from_spec(value: UsagePage) -> Self {
        ItemType::Global(GlobalType::UsagePage)
    }
}

impl From<UsagePage> for SizedPayload {
    fn from(value: UsagePage) -> (payload: Self) {
        SizedPayload::from(u16::from(value))
    }
}

impl FromSpecImpl<UsagePage> for SizedPayload {
    open spec fn obeys_from_spec() -> bool {
        true
    }

    open spec fn from_spec(value: UsagePage) -> Self {
        SizedPayload::of_unsigned(value.to_id() as int)
    }
}

impl From<Collection> for SizedPayload {
    fn from(value: Collection) -> (payload: Self) {
        SizedPayload::from(u8::from(value))
    }
}

impl FromSpecImpl<Collection> for SizedPayload {
    open spec fn obeys_from_spec() -> bool {
        true
    }

    open spec fn from_spec(value: Collection) -> Self {
        SizedPayload::One([value.to_id()])
    }
}

impl From<Collection> for ItemType {
    fn from(value: Collection) -> (kind: Self) {
        ItemType::Main(MainType::Collection)
    }
}

impl FromSpecImpl<Collection> for ItemType {
    open spec fn obeys_from_spec() -> bool {
        true
    }

    open spec fn from_spec(value: Collection) -> Self {
        ItemType::Main(MainType::Collection)
    }
}

impl<T: UsageId> From<T> for SizedPayload {
    fn from(value: T) -> (payload: Self) {
        SizedPayload::from(value.usage_id())
    }
}

impl<T: UsageId> FromSpecImpl<T> for SizedPayload {
    open spec fn obeys_from_spec() -> bool {
        true
    }

    open spec fn from_spec(value: T) -> Self {
        SizedPayload::of_unsigned(value.id() as int)
    }
}

impl<T: UsageId> From<T> for ItemType {
    fn from(value: T) -> (kind: Self) {
        ItemType::Local(LocalType::Usage)
    }
}

impl<T: UsageId> FromSpecImpl<T> for ItemType {
    open spec fn obeys_from_spec() -> bool {
        true
    }

    open spec fn from_spec(value: T) -> Self {
        ItemType::Local(LocalType::Usage)
    }
}

} // verus!
