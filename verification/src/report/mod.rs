//! Input reports: what a descriptor says of them, and what they hold.
//!
//! A report descriptor is walked once, item by item, to find the input
//! reports that the device will send and the fields of each. A raw report is
//! then decoded field by field against what is expected.

use crate::report::expected::{
    input_views, report_of, report_views, ExpectedField, ExpectedReport, ExpectedReportView,
    ExpectedReports, ExpectedReportsView,
};
use crate::report::input::{
    GlobalItemTracker, Input, InputView, LocalItemTracker, LocalItemsView,
};
use crate::report::parse::{report_id, spec_report_id, spec_val, val};
use crate::report::parsed::{Field, ParsedReport, ParsedReportView};
use crate::report_descriptor::{
    GlobalType, ItemType, ItemView, LocalType, MainType, ReportDescriptor, ReportDescriptorItem,
};
use vstd::prelude::*;

pub mod expected;
pub mod input;
pub mod parse;
pub mod parsed;

verus! {

/// Why the input reports of a descriptor cannot be told, or why a raw report
/// cannot be decoded.
#[derive(Clone, Copy, Debug, PartialEq, Eq, Structural)]
pub enum InputError {
    /// A report was to be made of no Input item.
    Empty,
    /// An item is not of the type that it was taken for.
    InvalidItemType,
    /// The options of an item cannot be used.
    InvalidDataFieldOptions,
    /// The payload of an item, or the value of a field, does not fit what it
    /// stands for.
    InvalidPayload,
    /// An Input item comes before the Global item that it needs.
    GlobalItemNotSet(GlobalType),
    /// An Input item comes before the Local item that it needs.
    LocalItemNotSet(LocalType),
    /// The report is too short to hold the report id that is expected.
    ReportIdExpected,
    /// No report with the id of the raw report is expected.
    UnknownReportId,
    /// A field was taken for an array item and is none.
    ArrayItemExpected,
    /// A field was taken for a variable and is none.
    VariableItemExpected,
    /// The raw report does not hold the bits of a field.
    CannotTakeBits,
    /// The usages of a range of usages do not fit into 16 bits.
    UsageOutOfRange,
    /// The bit offsets of the fields of a report do not fit into `usize`.
    ReportTooLarge,
}

/// The state of the walk over a descriptor, as a mathematical value.
pub struct WalkView {
    /// The global item table.
    pub global_items: GlobalItemTracker,
    /// The local item table.
    pub local_items: LocalItemsView,
    /// The Input items of the collection that is open, in their order.
    pub inputs: Seq<InputView>,
    /// True if a Report ID item was seen.
    pub has_report_id: bool,
    /// The reports of the collections that were closed, in their order.
    pub reports: Seq<ExpectedReportView>,
}

impl WalkView {
    /// The state before the first item.
    pub open spec fn start() -> WalkView {
        WalkView {
            global_items: GlobalItemTracker::empty(),
            local_items: LocalItemsView::empty(),
            inputs: Seq::empty(),
            has_report_id: false,
            reports: Seq::empty(),
        }
    }

    /// The state after the item `item`.
    ///
    /// A Global item changes the global item table, and a Report ID item
    /// says, for the whole descriptor, that reports have an id. A Local item
    /// changes the local item table. An Input item is kept with the tables as
    /// they stand. An Input, Output or Feature item empties the local item
    /// table, whose items describe one such item only. An End Collection
    /// item makes a report of the Input items that were kept, if there are
    /// any, and keeps none of them. A Collection item changes nothing.
    pub open spec fn step(self, item: ItemView) -> Result<WalkView, InputError> {
        match item.kind {
            ItemType::Main(MainType::Input) => Ok(
                WalkView {
                    inputs: self.inputs.push(
                        InputView {
                            input_item: item,
                            global_items: self.global_items,
                            local_items: self.local_items,
                        },
                    ),
                    local_items: LocalItemsView::empty(),
                    ..self
                },
            ),
            ItemType::Main(MainType::EndCollection) => if self.inputs.len() == 0 {
                Ok(self)
            } else {
                match report_of(self.inputs) {
                    Err(e) => Err(e),
                    Ok(report) => Ok(
                        WalkView {
                            inputs: Seq::empty(),
                            reports: self.reports.push(report),
                            ..self
                        },
                    ),
                }
            },
            ItemType::Main(MainType::Output) => Ok(
                WalkView { local_items: LocalItemsView::empty(), ..self },
            ),
            ItemType::Main(MainType::Feature) => Ok(
                WalkView { local_items: LocalItemsView::empty(), ..self },
            ),
            ItemType::Main(MainType::Collection) => Ok(self),
            ItemType::Global(kind) => match self.global_items.with_item(item) {
                Err(e) => Err(e),
                Ok(table) => Ok(
                    WalkView {
                        global_items: table,
                        has_report_id: self.has_report_id || kind == GlobalType::ReportID,
                        ..self
                    },
                ),
            },
            ItemType::Local(_) => match self.local_items.with_item(item) {
                Err(e) => Err(e),
                Ok(table) => Ok(WalkView { local_items: table, ..self }),
            },
        }
    }

    /// The state after the items `items`, or the error of the first item
    /// that fails.
    pub open spec fn run(self, items: Seq<ItemView>) -> Result<WalkView, InputError>
        decreases items.len(),
    {
        if items.len() == 0 {
            Ok(self)
        } else {
            match self.run(items.drop_last()) {
                Err(e) => Err(e),
                Ok(state) => state.step(items.last()),
            }
        }
    }

    /// The reports at the end of the walk: those of the collections that
    /// were closed and, behind them, one of the Input items that no End
    /// Collection item followed, if there are any.
    pub open spec fn finish(self) -> Result<ExpectedReportsView, InputError> {
        if self.inputs.len() == 0 {
            Ok(ExpectedReportsView { has_report_id: self.has_report_id, reports: self.reports })
        } else {
            match report_of(self.inputs) {
                Err(e) => Err(e),
                Ok(report) => Ok(
                    ExpectedReportsView {
                        has_report_id: self.has_report_id,
                        reports: self.reports.push(report),
                    },
                ),
            }
        }
    }

    /// After an Input item the local item table is empty, whatever it held
    /// before, and so it is after an Output or a Feature item. None of these
    /// items fails.
    pub proof fn lemma_data_item_resets_local_items(self, item: ItemView)
        requires
            item.is_input_output_or_feature(),
        ensures
            self.step(item) matches Ok(next) && next.local_items == LocalItemsView::empty(),
    {
    }

    /// A Global item leaves the local item table and the Input items as
    /// they are, and a Local item the global item table.
    pub proof fn lemma_tables_apart(self, item: ItemView)
        ensures
            self.step(item) matches Ok(next) ==> {
                &&& item.kind is Global ==> next.local_items == self.local_items && next.inputs
                    == self.inputs
                &&& item.kind is Local ==> next.global_items == self.global_items && next.inputs
                    == self.inputs
            },
    {
    }

    /// An error among the first items is the error of the whole walk.
    proof fn lemma_run_prefix_error(self, items: Seq<ItemView>, count: int)
        requires
            0 <= count <= items.len(),
            self.run(items.take(count)) is Err,
        ensures
            self.run(items) == self.run(items.take(count)),
        decreases items.len() - count,
    {
        if count == items.len() {
            assert(items.take(count) =~= items);
        } else {
            assert(items.take(count + 1).drop_last() =~= items.take(count));
            self.lemma_run_prefix_error(items, count + 1);
        }
    }
}

/// The reports that the descriptor `items` declares.
pub open spec fn spec_expected_input_reports(items: Seq<ItemView>) -> Result<
    ExpectedReportsView,
    InputError,
> {
    match WalkView::start().run(items) {
        Err(e) => Err(e),
        Ok(state) => state.finish(),
    }
}

/// The state of the walk over a descriptor.
#[derive(Debug)]
pub struct ReportWalk<'a> {
    /// The global item table.
    pub global_items: GlobalItemTracker,
    /// The local item table.
    pub local_items: LocalItemTracker<'a>,
    /// The Input items of the collection that is open, in their order.
    pub inputs: Vec<Input<'a>>,
    /// True if a Report ID item was seen.
    pub has_report_id: bool,
    /// The reports of the collections that were closed, in their order.
    pub reports: Vec<ExpectedReport>,
}

impl<'a> View for ReportWalk<'a> {
    type V = WalkView;

    open spec fn view(&self) -> WalkView {
        WalkView {
            global_items: self.global_items,
            local_items: self.local_items@,
            inputs: input_views(self.inputs@),
            has_report_id: self.has_report_id,
            reports: report_views(self.reports@),
        }
    }
}

impl<'a> ReportWalk<'a> {
    /// Returns the state before the first item.
    pub fn new() -> (walk: Self)
        ensures
            walk@ == WalkView::start(),
    {
        let walk = ReportWalk {
            global_items: GlobalItemTracker::default(),
            local_items: LocalItemTracker::default(),
            inputs: Vec::new(),
            has_report_id: false,
            reports: Vec::new(),
        };
        assert(walk@.inputs =~= Seq::<InputView>::empty());
        assert(walk@.reports =~= Seq::<ExpectedReportView>::empty());
        walk
    }

    /// Returns the state after the item `item`.
    pub fn process(self, item: &'a ReportDescriptorItem) -> (next: Result<Self, InputError>)
        ensures
            match next {
                Ok(walk) => self@.step(item@) == Ok::<WalkView, InputError>(walk@),
                Err(e) => self@.step(item@) == Err::<WalkView, InputError>(e),
            },
            item@.is_input_output_or_feature() ==> next is Ok && next.unwrap()@.local_items
                == LocalItemsView::empty(),
    {
        let ghost before = self@;
        let ReportWalk { global_items, local_items, inputs, has_report_id, reports } = self;
        let mut global_items = global_items;
        let mut local_items = local_items;
        let mut inputs = inputs;
        let mut has_report_id = has_report_id;
        let mut reports = reports;
        match item.kind {
            ItemType::Main(MainType::Input) => {
                let input = match Input::try_from((item, global_items, local_items)) {
                    Ok(input) => input,
                    Err(e) => {
                        return Err(e);
                    },
                };
                let ghost made = input@;
                inputs.push(input);
                local_items = LocalItemTracker::default();
                let walk = ReportWalk { global_items, local_items, inputs, has_report_id, reports };
                assert(walk@.inputs =~= before.inputs.push(made));
                Ok(walk)
            },
            ItemType::Main(MainType::EndCollection) => {
                if inputs.len() > 0 {
                    let report = match ExpectedReport::try_from(inputs) {
                        Ok(report) => report,
                        Err(e) => {
                            return Err(e);
                        },
                    };
                    let ghost made = report@;
                    reports.push(report);
                    let walk = ReportWalk {
                        global_items,
                        local_items,
                        inputs: Vec::new(),
                        has_report_id,
                        reports,
                    };
                    assert(walk@.inputs =~= Seq::<InputView>::empty());
                    assert(walk@.reports =~= before.reports.push(made));
                    Ok(walk)
                } else {
                    Ok(ReportWalk { global_items, local_items, inputs, has_report_id, reports })
                }
            },
            ItemType::Main(MainType::Output) => {
                local_items = LocalItemTracker::default();
                Ok(ReportWalk { global_items, local_items, inputs, has_report_id, reports })
            },
            ItemType::Main(MainType::Feature) => {
                local_items = LocalItemTracker::default();
                Ok(ReportWalk { global_items, local_items, inputs, has_report_id, reports })
            },
            ItemType::Global(GlobalType::UsagePage) => {
                match global_items.set_usage_page(item) {
                    Ok(_) => {},
                    Err(e) => {
                        return Err(e);
                    },
                }
                Ok(ReportWalk { global_items, local_items, inputs, has_report_id, reports })
            },
            ItemType::Global(GlobalType::ReportSize) => {
                match global_items.set_report_size(item) {
                    Ok(_) => {},
                    Err(e) => {
                        return Err(e);
                    },
                }
                Ok(ReportWalk { global_items, local_items, inputs, has_report_id, reports })
            },
            ItemType::Global(GlobalType::ReportID) => {
                has_report_id = true;
                match global_items.set_report_id(item) {
                    Ok(_) => {},
                    Err(e) => {
                        return Err(e);
                    },
                }
                Ok(ReportWalk { global_items, local_items, inputs, has_report_id, reports })
            },
            ItemType::Global(GlobalType::ReportCount) => {
                match global_items.set_report_count(item) {
                    Ok(_) => {},
                    Err(e) => {
                        return Err(e);
                    },
                }
                Ok(ReportWalk { global_items, local_items, inputs, has_report_id, reports })
            },
            ItemType::Global(GlobalType::LogicalMinimum) => {
                match global_items.set_logical_minimum(item) {
                    Ok(_) => {},
                    Err(e) => {
                        return Err(e);
                    },
                }
                Ok(ReportWalk { global_items, local_items, inputs, has_report_id, reports })
            },
            ItemType::Global(GlobalType::LogicalMaximum) => {
                match global_items.set_logical_maximum(item) {
                    Ok(_) => {},
                    Err(e) => {
                        return Err(e);
                    },
                }
                Ok(ReportWalk { global_items, local_items, inputs, has_report_id, reports })
            },
            ItemType::Local(LocalType::Usage) => {
                match local_items.add_usage(item) {
                    Ok(_) => {},
                    Err(e) => {
                        return Err(e);
                    },
                }
                Ok(ReportWalk { global_items, local_items, inputs, has_report_id, reports })
            },
            ItemType::Local(LocalType::UsageMinimum) => {
                match local_items.set_usage_minimum(item) {
                    Ok(_) => {},
                    Err(e) => {
                        return Err(e);
                    },
                }
                Ok(ReportWalk { global_items, local_items, inputs, has_report_id, reports })
            },
            ItemType::Local(LocalType::UsageMaximum) => {
                match local_items.set_usage_maximum(item) {
                    Ok(_) => {},
                    Err(e) => {
                        return Err(e);
                    },
                }
                Ok(ReportWalk { global_items, local_items, inputs, has_report_id, reports })
            },
            _ => Ok(ReportWalk { global_items, local_items, inputs, has_report_id, reports }),
        }
    }

    /// Returns the reports at the end of the walk.
    pub fn finish(self) -> (found: Result<ExpectedReports, InputError>)
        ensures
            match found {
                Ok(reports) => self@.finish() == Ok::<ExpectedReportsView, InputError>(reports@),
                Err(e) => self@.finish() == Err::<ExpectedReportsView, InputError>(e),
            },
    {
        let ghost before = self@;
        let ReportWalk { global_items, local_items, inputs, has_report_id, reports } = self;
        let mut reports = reports;
        if inputs.len() > 0 {
            let report = match ExpectedReport::try_from(inputs) {
                Ok(report) => report,
                Err(e) => {
                    return Err(e);
                },
            };
            let ghost made = report@;
            reports.push(report);
            assert(report_views(reports@) =~= before.reports.push(made));
        }
        Ok(ExpectedReports::from((has_report_id, reports)))
    }
}

/// Tells from a report descriptor which input reports the device will send.
///
/// The descriptor is walked once, item by item. Each collection that holds
/// Input items makes one report, and so do the Input items behind the last
/// collection. The error of the first item that fails is returned.
pub fn expected_input_reports<'a>(report_descriptor: &'a ReportDescriptor) -> (found: Result<
    ExpectedReports,
    InputError,
>)
    ensures
        match found {
            Ok(reports) => spec_expected_input_reports(report_descriptor@) == Ok::<
                ExpectedReportsView,
                InputError,
            >(reports@),
            Err(e) => spec_expected_input_reports(report_descriptor@) == Err::<
                ExpectedReportsView,
                InputError,
            >(e),
        },
{
    let items = report_descriptor.items();
    let ghost views = report_descriptor@;
    let mut walk: ReportWalk<'a> = ReportWalk::new();
    let mut i: usize = 0;
    proof {
        assert(views.take(0) =~= Seq::<ItemView>::empty());
    }
    while i < items.len()
        invariant
            i <= items.len(),
            *items == report_descriptor.items,
            views == report_descriptor@,
            WalkView::start().run(views.take(i as int)) == Ok::<WalkView, InputError>(walk@),
        decreases items.len() - i,
    {
        proof {
            assert(views.take(i + 1).drop_last() =~= views.take(i as int));
            assert(views.take(i + 1).last() == items@[i as int]@);
        }
        walk = match walk.process(&items[i]) {
            Ok(next) => next,
            Err(e) => {
                proof {
                    WalkView::start().lemma_run_prefix_error(views, i + 1);
                }
                return Err(e);
            },
        };
        i += 1;
    }
    proof {
        assert(views.take(i as int) =~= views);
    }
    walk.finish()
}

/// The field that the report `bytes` holds where `expected` is expected.
///
/// The offset and the width of the field have to fit into 32 bits, the
/// width may be at most 64, and the report has to hold the bits.
pub open spec fn spec_field(bytes: Seq<u8>, expected: ExpectedField) -> Result<Field, InputError> {
    if expected.spec_index() > u32::MAX || expected.spec_size() > u32::MAX {
        Err(InputError::CannotTakeBits)
    } else {
        match spec_val(bytes, expected.spec_index() as u32, expected.spec_size() as u32) {
            Err(_) => Err(InputError::CannotTakeBits),
            Ok(value) => Field::of(expected, value),
        }
    }
}

/// The fields that the report `bytes` holds where `expected` are expected,
/// or the error of the first field that cannot be read.
pub open spec fn spec_fields(bytes: Seq<u8>, expected: Seq<ExpectedField>) -> Result<
    Seq<Field>,
    InputError,
>
    decreases expected.len(),
{
    if expected.len() == 0 {
        Ok(Seq::empty())
    } else {
        match spec_fields(bytes, expected.drop_last()) {
            Err(e) => Err(e),
            Ok(fields) => match spec_field(bytes, expected.last()) {
                Err(e) => Err(e),
                Ok(field) => Ok(fields.push(field)),
            },
        }
    }
}

/// What the raw report `bytes` holds, read against the reports `expected`.
///
/// If reports have an id, the first byte of the report is its id. The
/// report is read as the first expected report with that id, field by
/// field.
pub open spec fn spec_parse_raw_input_report(bytes: Seq<u8>, expected: ExpectedReportsView)
    -> Result<ParsedReportView, InputError> {
    if expected.has_report_id && spec_report_id(bytes) is Err {
        Err(InputError::ReportIdExpected)
    } else {
        let id = if expected.has_report_id {
            Some(spec_report_id(bytes)->Ok_0)
        } else {
            None
        };
        match expected.find_report(id) {
            None => Err(InputError::UnknownReportId),
            Some(report) => match spec_fields(bytes, report.fields) {
                Err(e) => Err(e),
                Ok(fields) => Ok(ParsedReportView { report_id: id, fields }),
            },
        }
    }
}

/// An error among the first fields is the error of the whole report.
proof fn lemma_fields_prefix_error(bytes: Seq<u8>, expected: Seq<ExpectedField>, count: int)
    requires
        0 <= count <= expected.len(),
        spec_fields(bytes, expected.take(count)) is Err,
    ensures
        spec_fields(bytes, expected) == spec_fields(bytes, expected.take(count)),
    decreases expected.len() - count,
{
    if count == expected.len() {
        assert(expected.take(count) =~= expected);
    } else {
        assert(expected.take(count + 1).drop_last() =~= expected.take(count));
        lemma_fields_prefix_error(bytes, expected, count + 1);
    }
}

/// Decodes a raw input report against the reports that are expected.
#[verifier::loop_isolation(false)]
pub fn parse_raw_input_report(report: &[u8], expected_reports: &ExpectedReports) -> (parsed:
    Result<ParsedReport, InputError>)
    ensures
        match parsed {
            Ok(found) => spec_parse_raw_input_report(report@, expected_reports@) == Ok::<
                ParsedReportView,
                InputError,
            >(found@),
            Err(e) => spec_parse_raw_input_report(report@, expected_reports@) == Err::<
                ParsedReportView,
                InputError,
            >(e),
        },
{
    let id = if expected_reports.has_report_id {
        match report_id(report) {
            Ok(id) => Some(id),
            Err(_) => {
                return Err(InputError::ReportIdExpected);
            },
        }
    } else {
        None
    };
    let expected_report = match expected_reports.find_report(id) {
        Some(found) => found,
        None => {
            return Err(InputError::UnknownReportId);
        },
    };
    let ghost expected = expected_report@.fields;
    let mut parsed_fields: Vec<Field> = Vec::new();
    let mut i: usize = 0;
    proof {
        assert(expected.take(0) =~= Seq::<ExpectedField>::empty());
    }
    while i < expected_report.fields.len()
        invariant
            i <= expected_report.fields.len(),
            expected == expected_report.fields@,
            spec_fields(report@, expected.take(i as int)) == Ok::<Seq<Field>, InputError>(
                parsed_fields@,
            ),
        decreases expected_report.fields.len() - i,
    {
        let expected_field = &expected_report.fields[i];
        proof {
            assert(expected.take(i + 1).drop_last() =~= expected.take(i as int));
            assert(expected.take(i + 1).last() == *expected_field);
        }
        let index = expected_field.index();
        let size = expected_field.size();
        if index > u32::MAX as usize || size > u32::MAX as usize {
            proof {
                lemma_fields_prefix_error(report@, expected, i + 1);
            }
            return Err(InputError::CannotTakeBits);
        }
        let data = match val(report, index as u32, size as u32) {
            Ok(data) => data,
            Err(_) => {
                proof {
                    lemma_fields_prefix_error(report@, expected, i + 1);
                }
                return Err(InputError::CannotTakeBits);
            },
        };
        let field = match Field::try_from((expected_field, data)) {
            Ok(field) => field,
            Err(e) => {
                proof {
                    lemma_fields_prefix_error(report@, expected, i + 1);
                }
                return Err(e);
            },
        };
        parsed_fields.push(field);
        i += 1;
    }
    proof {
        assert(expected.take(i as int) =~= expected);
    }
    Ok(ParsedReport { report_id: id, fields: parsed_fields })
}

} // verus!
