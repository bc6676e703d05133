//! The reports that a device is expected to send.

use crate::report::input::{expected_fields, Input, InputView};
use crate::report::InputError;
use crate::report_descriptor::DataFieldOptions;
use crate::usage_table::{Usage, UsagePage};
use vstd::prelude::*;
use vstd::std_specs::convert::{FromSpecImpl, TryFromSpecImpl};

verus! {

/// What is known of a field before a report is read.
#[derive(Clone, Copy, Debug, PartialEq, Eq, Structural)]
pub struct ExpectedFieldItem {
    /// The usage page of the field.
    pub usage_page: UsagePage,
    /// The usage of the field.
    pub usage: Usage,
    /// The offset of the field in the report, in bits from the start of the
    /// report.
    pub index_in_raw: usize,
    /// The width of the field in bits.
    pub size_bits: usize,
    /// The options of the Input item that made the field.
    pub options: DataFieldOptions,
}

/// A field that is expected in a report.
#[derive(Clone, Copy, Debug, PartialEq, Eq, Structural)]
pub enum ExpectedField {
    /// The report id, which takes the first byte of the report.
    ReportId(u8),
    /// A field that holds a constant.
    Constant(ExpectedFieldItem),
    /// A field that holds the value of one control.
    Variable(ExpectedFieldItem),
    /// A field that holds the index of an active control.
    ArrayItem(ExpectedFieldItem),
}

impl ExpectedField {
    /// The width of the field in bits.
    pub open spec fn spec_size(self) -> usize {
        match self {
            ExpectedField::ReportId(_) => 8,
            ExpectedField::Constant(item) => item.size_bits,
            ExpectedField::Variable(item) => item.size_bits,
            ExpectedField::ArrayItem(item) => item.size_bits,
        }
    }

    /// The offset of the field in the report, in bits.
    pub open spec fn spec_index(self) -> usize {
        match self {
            ExpectedField::ReportId(_) => 0,
            ExpectedField::Constant(item) => item.index_in_raw,
            ExpectedField::Variable(item) => item.index_in_raw,
            ExpectedField::ArrayItem(item) => item.index_in_raw,
        }
    }

    /// Returns the width of the field in bits.
    pub fn size(&self) -> (size: usize)
        ensures
            size == self.spec_size(),
    {
        match self {
            ExpectedField::ReportId(_) => 8,
            ExpectedField::Constant(item) => item.size_bits,
            ExpectedField::Variable(item) => item.size_bits,
            ExpectedField::ArrayItem(item) => item.size_bits,
        }
    }

    /// Returns the offset of the field in the report, in bits.
    pub fn index(&self) -> (index: usize)
        ensures
            index == self.spec_index(),
    {
        match self {
            ExpectedField::ReportId(_) => 0,
            ExpectedField::Constant(item) => item.index_in_raw,
            ExpectedField::Variable(item) => item.index_in_raw,
            ExpectedField::ArrayItem(item) => item.index_in_raw,
        }
    }
}

/// A report that is expected, as a mathematical value.
pub struct ExpectedReportView {
    /// The report id, if reports have one.
    pub report_id: Option<u8>,
    /// The size of the report in bits.
    pub size: usize,
    /// The fields of the report, in the order of the report.
    pub fields: Seq<ExpectedField>,
}

/// A report that is expected.
#[derive(Debug, PartialEq, Eq)]
pub struct ExpectedReport {
    /// The report id, if reports have one.
    pub report_id: Option<u8>,
    /// The size of the report in bits.
    pub size: usize,
    /// The fields of the report, in the order of the report.
    pub fields: Vec<ExpectedField>,
}

impl View for ExpectedReport {
    type V = ExpectedReportView;

    open spec fn view(&self) -> ExpectedReportView {
        ExpectedReportView { report_id: self.report_id, size: self.size, fields: self.fields@ }
    }
}

/// The views of a sequence of reports.
pub open spec fn report_views(reports: Seq<ExpectedReport>) -> Seq<ExpectedReportView> {
    reports.map_values(|report: ExpectedReport| report@)
}

/// The reports that are expected, as a mathematical value.
pub struct ExpectedReportsView {
    /// True if every report begins with a report id.
    pub has_report_id: bool,
    /// The reports, in the order in which the descriptor declares them.
    pub reports: Seq<ExpectedReportView>,
}

impl ExpectedReportsView {
    /// True if `index` is the place of the first report with the id
    /// `report_id`.
    pub open spec fn is_first_with_id(self, index: int, report_id: Option<u8>) -> bool {
        &&& 0 <= index < self.reports.len()
        &&& self.reports[index].report_id == report_id
        &&& forall|j: int| 0 <= j < index ==> (#[trigger] self.reports[j]).report_id != report_id
    }

    /// True if no report has the id `report_id`.
    pub open spec fn has_none_with_id(self, report_id: Option<u8>) -> bool {
        forall|j: int|
            0 <= j < self.reports.len() ==> (#[trigger] self.reports[j]).report_id != report_id
    }

    /// The first report with the id `report_id`, if there is one.
    pub open spec fn find_report(self, report_id: Option<u8>) -> Option<ExpectedReportView> {
        if exists|i: int| self.is_first_with_id(i, report_id) {
            Some(self.reports[choose|i: int| self.is_first_with_id(i, report_id)])
        } else {
            None
        }
    }

    /// There is at most one first report with a given id.
    proof fn lemma_first_unique(self, i: int, j: int, report_id: Option<u8>)
        requires
            self.is_first_with_id(i, report_id),
            self.is_first_with_id(j, report_id),
        ensures
            i == j,
    {
    }
}

/// The reports that a device is expected to send.
#[derive(Debug, PartialEq, Eq)]
pub struct ExpectedReports {
    /// True if every report begins with a report id.
    pub has_report_id: bool,
    /// The reports, in the order in which the descriptor declares them.
    pub reports: Vec<ExpectedReport>,
}

impl View for ExpectedReports {
    type V = ExpectedReportsView;

    open spec fn view(&self) -> ExpectedReportsView {
        ExpectedReportsView {
            has_report_id: self.has_report_id,
            reports: report_views(self.reports@),
        }
    }
}

/// Returns true if the two report ids are the same.
pub fn same_report_id(a: Option<u8>, b: Option<u8>) -> (same: bool)
    ensures
        same <==> a == b,
{
    match (a, b) {
        (None, None) => true,
        (Some(x), Some(y)) => x == y,
        _ => false,
    }
}

impl ExpectedReports {
    /// Returns the first report with the id `report_id`, or `None` if no
    /// report has that id.
    pub fn find_report(&self, report_id: Option<u8>) -> (found: Option<&ExpectedReport>)
        ensures
            match found {
                Some(report) => exists|i: int|
                    self@.is_first_with_id(i, report_id) && self.reports@[i] == *report,
                None => self@.has_none_with_id(report_id),
            },
            self@.find_report(report_id) == match found {
                Some(report) => Some(report@),
                None => None,
            },
    {
        let mut i: usize = 0;
        while i < self.reports.len()
            invariant
                i <= self.reports.len(),
                forall|j: int| 0 <= j < i ==> (#[trigger] self@.reports[j]).report_id != report_id,
            decreases self.reports.len() - i,
        {
            if same_report_id(self.reports[i].report_id, report_id) {
                proof {
                    assert(self@.is_first_with_id(i as int, report_id));
                    let k = choose|k: int| self@.is_first_with_id(k, report_id);
                    self@.lemma_first_unique(i as int, k, report_id);
                }
                return Some(&self.reports[i]);
            }
            i += 1;
        }
        proof {
            assert forall|k: int| !self@.is_first_with_id(k, report_id) by {
                if 0 <= k < self.reports.len() {
                    assert(self@.reports[k].report_id != report_id);
                }
            }
        }
        None
    }
}

impl From<(bool, Vec<ExpectedReport>)> for ExpectedReports {
    fn from(value: (bool, Vec<ExpectedReport>)) -> (reports: Self) {
        ExpectedReports { has_report_id: value.0, reports: value.1 }
    }
}

impl FromSpecImpl<(bool, Vec<ExpectedReport>)> for ExpectedReports {
    open spec fn obeys_from_spec() -> bool {
        true
    }

    open spec fn from_spec(value: (bool, Vec<ExpectedReport>)) -> Self {
        ExpectedReports { has_report_id: value.0, reports: value.1 }
    }
}

/// The views of a sequence of Input items.
pub open spec fn input_views(inputs: Seq<Input>) -> Seq<InputView> {
    inputs.map_values(|input: Input| input@)
}

/// The fields of the Input items `inputs`, laid out one behind the other
/// from bit `start` of the report on, together with the bit behind the last
/// field.
pub open spec fn fields_of(inputs: Seq<InputView>, start: int) -> Result<
    (Seq<ExpectedField>, int),
    InputError,
>
    decreases inputs.len(),
{
    if inputs.len() == 0 {
        Ok((Seq::empty(), start))
    } else {
        match fields_of(inputs.drop_last(), start) {
            Err(e) => Err(e),
            Ok((fields, size)) => match inputs.last().expected_fields(size) {
                Err(e) => Err(e),
                Ok(more) => if size + inputs.last().bit_count() > usize::MAX {
                    Err(InputError::ReportTooLarge)
                } else {
                    Ok((fields + more, size + inputs.last().bit_count()))
                },
            },
        }
    }
}

/// The report that the Input items `inputs` of one collection make.
///
/// The report has the report id of the last Input item. If it has one, the
/// id is the first field and takes the first eight bits. The fields of the
/// Input items follow in the order of the items. The size of the report is
/// the sum of the widths of its fields.
pub open spec fn report_of(inputs: Seq<InputView>) -> Result<ExpectedReportView, InputError> {
    if inputs.len() == 0 {
        Err(InputError::Empty)
    } else {
        let report_id = inputs.last().global_items.report_id;
        let head = match report_id {
            Some(id) => seq![ExpectedField::ReportId(id)],
            None => Seq::empty(),
        };
        let start = match report_id {
            Some(_) => 8int,
            None => 0int,
        };
        match fields_of(inputs, start) {
            Err(e) => Err(e),
            Ok((fields, size)) => Ok(
                ExpectedReportView { report_id, size: size as usize, fields: head + fields },
            ),
        }
    }
}

/// The number of bits that the fields of the Input items `inputs` take in
/// all: for each Input item its report count times its report size.
pub open spec fn total_bits(inputs: Seq<InputView>) -> int
    decreases inputs.len(),
{
    if inputs.len() == 0 {
        0
    } else {
        total_bits(inputs.drop_last()) + inputs.last().bit_count()
    }
}

/// The number of fields that the Input items `inputs` make in all: the sum
/// of their report counts.
pub open spec fn total_fields(inputs: Seq<InputView>) -> int
    decreases inputs.len(),
{
    if inputs.len() == 0 {
        0
    } else {
        total_fields(inputs.drop_last()) + match inputs.last().global_items.report_count {
            Some(count) => count as int,
            None => 0,
        }
    }
}

/// Every Input item adds to its report as many fields as its report count
/// says, and as many bits as its report count times its report size: the
/// fields of a report are as many as the report counts in all, and they end
/// as many bits behind the start as the Input items make in all.
proof fn lemma_fields_of_total(inputs: Seq<InputView>, start: int)
    requires
        0 <= start <= usize::MAX,
    ensures
        fields_of(inputs, start) matches Ok((fields, size)) ==> {
            &&& size == start + total_bits(inputs)
            &&& fields.len() == total_fields(inputs)
        },
    decreases inputs.len(),
{
    if inputs.len() > 0 {
        let before = fields_of(inputs.drop_last(), start);
        lemma_fields_of_total(inputs.drop_last(), start);
        lemma_fields_of_size(inputs.drop_last(), start);
        if before is Ok {
            inputs.last().lemma_field_count(before->Ok_0.1);
        }
    }
}

/// The size of a report is the number of bits that its Input items make in
/// all, and eight bits more if the report has an id.
pub proof fn lemma_report_size(inputs: Seq<InputView>)
    ensures
        report_of(inputs) matches Ok(report) ==> {
            &&& report.size == total_bits(inputs) + (if report.report_id is Some {
                8int
            } else {
                0int
            })
            &&& report.fields.len() == total_fields(inputs) + (if report.report_id is Some {
                1int
            } else {
                0int
            })
        },
{
    if inputs.len() > 0 {
        let start = match inputs.last().global_items.report_id {
            Some(_) => 8int,
            None => 0int,
        };
        lemma_fields_of_total(inputs, start);
        lemma_fields_of_size(inputs, start);
    }
}

/// The bit behind the last field of a report lies as many bits behind the
/// start as the Input items make in all.
proof fn lemma_fields_of_size(inputs: Seq<InputView>, start: int)
    requires
        0 <= start <= usize::MAX,
    ensures
        fields_of(inputs, start) matches Ok((fields, size)) ==> {
            &&& start <= size <= usize::MAX
            &&& inputs.len() > 0 ==> size == fields_of(inputs.drop_last(), start)->Ok_0.1
                + inputs.last().bit_count()
        },
    decreases inputs.len(),
{
    if inputs.len() > 0 {
        let before = fields_of(inputs.drop_last(), start);
        lemma_fields_of_size(inputs.drop_last(), start);
        inputs.last().lemma_bit_count();
        if before is Ok {
            let size = before->Ok_0.1;
            assert(start <= size);
            if inputs.last().expected_fields(size) is Ok && size + inputs.last().bit_count()
                <= usize::MAX {
                assert(fields_of(inputs, start)->Ok_0.1 == size + inputs.last().bit_count());
            }
        }
    }
}

impl<'a> TryFrom<Vec<Input<'a>>> for ExpectedReport {
    type Error = InputError;

    #[verifier::loop_isolation(false)]
    fn try_from(value: Vec<Input<'a>>) -> (report: Result<Self, Self::Error>)
        ensures
            match report {
                Ok(made) => report_of(input_views(value@)) == Ok::<ExpectedReportView, InputError>(
                    made@,
                ),
                Err(e) => report_of(input_views(value@)) == Err::<
                    ExpectedReportView,
                    InputError,
                >(e),
            },
    {
        if value.len() == 0 {
            return Err(InputError::Empty);
        }
        let ghost inputs = input_views(value@);
        let mut expected_fields_all: Vec<ExpectedField> = Vec::new();
        let mut size: usize = 0;
        let report_id = value[value.len() - 1].report_id();
        if let Some(id) = report_id {
            size = 8;
            expected_fields_all.push(ExpectedField::ReportId(id));
        }
        let ghost head = expected_fields_all@;
        let ghost start = size as int;
        proof {
            assert(inputs.take(0) =~= Seq::<InputView>::empty());
            assert(head + Seq::<ExpectedField>::empty() =~= head);
        }
        for input in iter: value
            invariant
                inputs == input_views(iter.seq()),
                0 <= start,
                fields_of(inputs.take(iter.index() as int), start) matches Ok((fields, end))
                    && expected_fields_all@ == head + fields && size == end,
        {
            let ghost k = iter.index() as int;
            proof {
                assert(inputs.take(k + 1).drop_last() =~= inputs.take(k));
                assert(inputs.take(k + 1).last() == inputs[k]);
                assert(inputs[k] == input@);
                input@.lemma_field_count(size as int);
                lemma_fields_of_size(inputs.take(k), start);
            }
            let ghost item = input@;
            let mut expected = match expected_fields(input, size) {
                Ok(fields) => fields,
                Err(e) => {
                    proof {
                        assert(fields_of(inputs.take(k + 1), start) == Err::<
                            (Seq<ExpectedField>, int),
                            InputError,
                        >(e));
                        lemma_fields_of_prefix_error(inputs, start, k + 1);
                    }
                    return Err(e);
                },
            };
            let count = expected.len();
            proof {
                item.lemma_bit_count();
            }
            if count > 0 {
                let width = expected[0].size();
                assert(width * count == item.bit_count()) by (nonlinear_arith)
                    requires
                        item.bit_count() == item.global_items.report_size.unwrap()
                            * item.global_items.report_count.unwrap(),
                        width == item.global_items.report_size.unwrap(),
                        count == item.global_items.report_count.unwrap(),
                ;
                let total: u128 = (width as u128) * (count as u128);
                if size as u128 + total > usize::MAX as u128 {
                    proof {
                        assert(fields_of(inputs.take(k + 1), start) is Err);
                        lemma_fields_of_prefix_error(inputs, start, k + 1);
                    }
                    return Err(InputError::ReportTooLarge);
                }
                size = size + (total as usize);
            } else {
                assert(item.bit_count() == 0) by (nonlinear_arith)
                    requires
                        item.bit_count() == item.global_items.report_size.unwrap()
                            * item.global_items.report_count.unwrap(),
                        item.global_items.report_count.unwrap() == 0,
                ;
            }
            let ghost before = expected_fields_all@;
            let ghost more = expected@;
            expected_fields_all.append(&mut expected);
            proof {
                let fields = fields_of(inputs.take(k), start)->Ok_0.0;
                assert(before + more =~= head + (fields + more));
            }
        }
        proof {
            assert(inputs.take(inputs.len() as int) =~= inputs);
        }
        Ok(ExpectedReport { report_id, size, fields: expected_fields_all })
    }
}

impl<'a> TryFromSpecImpl<Vec<Input<'a>>> for ExpectedReport {
    open spec fn obeys_try_from_spec() -> bool {
        false
    }

    open spec fn try_from_spec(value: Vec<Input<'a>>) -> Result<Self, Self::Error> {
        arbitrary()
    }
}

/// An error among the first Input items is the error of the whole report.
proof fn lemma_fields_of_prefix_error(inputs: Seq<InputView>, start: int, count: int)
    requires
        0 <= count <= inputs.len(),
        fields_of(inputs.take(count), start) is Err,
    ensures
        fields_of(inputs, start) == fields_of(inputs.take(count), start),
    decreases inputs.len() - count,
{
    if count == inputs.len() {
        assert(inputs.take(count) =~= inputs);
    } else {
        assert(inputs.take(count + 1).drop_last() =~= inputs.take(count));
        lemma_fields_of_prefix_error(inputs, start, count + 1);
    }
}

} // verus!
