//! The fields that were read from a raw report.

use crate::report::expected::ExpectedField;
use crate::report::InputError;
use crate::report_descriptor::DataFieldOptions;
use crate::usage_table::{Usage, UsagePage};
use vstd::prelude::*;
use vstd::std_specs::convert::TryFromSpecImpl;

verus! {

/// The value of a variable field.
#[derive(Clone, Copy, Debug, PartialEq, Eq, Structural)]
pub struct VarItem {
    /// The usage page of the field.
    pub usage_page: UsagePage,
    /// The usage of the field.
    pub usage: Usage,
    /// The value that the report holds.
    pub value: i64,
    /// The options of the field.
    pub options: DataFieldOptions,
}

/// An array field that names an active control.
#[derive(Clone, Copy, Debug, PartialEq, Eq, Structural)]
pub struct ArrayValueItem {
    /// The usage page of the field.
    pub usage_page: UsagePage,
    /// The usage of the control that is active.
    pub usage: Usage,
    /// The options of the field.
    pub options: DataFieldOptions,
}

/// An array field that names no control.
#[derive(Clone, Copy, Debug, PartialEq, Eq, Structural)]
pub struct ArrayZeroItem {
    /// The usage page of the field.
    pub usage_page: UsagePage,
    /// The options of the field.
    pub options: DataFieldOptions,
}

/// A field that was read from a raw report.
#[derive(Clone, Copy, Debug, PartialEq, Eq, Structural)]
pub enum Field {
    /// The report id.
    ReportId(u8),
    /// A constant.
    Constant(i64),
    /// The value of a variable.
    Variable(VarItem),
    /// An array field that names an active control.
    ArrayValue(ArrayValueItem),
    /// An array field with the value 0, which names no control.
    ArrayZeroValue(ArrayZeroItem),
}

/// A raw report that was decoded, as a mathematical value.
pub struct ParsedReportView {
    /// The report id, if reports have one.
    pub report_id: Option<u8>,
    /// The fields, in the order of the report.
    pub fields: Seq<Field>,
}

/// A raw report that was decoded.
#[derive(Debug, PartialEq, Eq)]
pub struct ParsedReport {
    /// The report id, if reports have one.
    pub report_id: Option<u8>,
    /// The fields, in the order of the report.
    pub fields: Vec<Field>,
}

impl View for ParsedReport {
    type V = ParsedReportView;

    open spec fn view(&self) -> ParsedReportView {
        ParsedReportView { report_id: self.report_id, fields: self.fields@ }
    }
}

impl Field {
    /// The field that an expected field and the number read for it make.
    ///
    /// The report id is kept as it is expected. An array field with the
    /// number 0 names no control. Any other number of an array field is the
    /// id of a usage on the page of the field, and has to fit into 16 bits.
    pub open spec fn of(expected: ExpectedField, value: i64) -> Result<Field, InputError> {
        match expected {
            ExpectedField::ReportId(id) => Ok(Field::ReportId(id)),
            ExpectedField::Constant(_) => Ok(Field::Constant(value)),
            ExpectedField::Variable(item) => Ok(
                Field::Variable(
                    VarItem {
                        usage_page: item.usage_page,
                        usage: item.usage,
                        value,
                        options: item.options,
                    },
                ),
            ),
            ExpectedField::ArrayItem(item) => if value == 0 {
                Ok(
                    Field::ArrayZeroValue(
                        ArrayZeroItem { usage_page: item.usage_page, options: item.options },
                    ),
                )
            } else if 0 <= value <= 0xFFFF {
                Ok(
                    Field::ArrayValue(
                        ArrayValueItem {
                            usage_page: item.usage_page,
                            usage: Usage::of(item.usage_page, value as u16),
                            options: item.options,
                        },
                    ),
                )
            } else {
                Err(InputError::InvalidPayload)
            },
        }
    }

    /// An array field whose bits are all 0 names no control, whatever else
    /// is expected of it.
    pub proof fn lemma_array_zero(expected: ExpectedField)
        requires
            expected is ArrayItem,
        ensures
            Self::of(expected, 0) matches Ok(field) && field is ArrayZeroValue,
    {
    }

    /// An array field is read as a control if and only if its number is not
    /// 0 and fits into 16 bits.
    pub proof fn lemma_array_value(expected: ExpectedField, value: i64)
        requires
            expected is ArrayItem,
        ensures
            (Self::of(expected, value) matches Ok(field) && field is ArrayValue) <==> 0 < value
                <= 0xFFFF,
    {
    }
}

impl TryFrom<(&ExpectedField, i64)> for Field {
    type Error = InputError;

    fn try_from(value: (&ExpectedField, i64)) -> (field: Result<Self, Self::Error>) {
        match value.0 {
            ExpectedField::ReportId(id) => Ok(Field::ReportId(*id)),
            ExpectedField::Constant(_) => Ok(Field::Constant(value.1)),
            ExpectedField::Variable(_) => match VarItem::try_from(value) {
                Ok(item) => Ok(Field::Variable(item)),
                Err(e) => Err(e),
            },
            ExpectedField::ArrayItem(_) => if value.1 == 0 {
                match ArrayZeroItem::try_from(value.0) {
                    Ok(item) => Ok(Field::ArrayZeroValue(item)),
                    Err(e) => Err(e),
                }
            } else {
                match ArrayValueItem::try_from(value) {
                    Ok(item) => Ok(Field::ArrayValue(item)),
                    Err(e) => Err(e),
                }
            },
        }
    }
}

impl TryFromSpecImpl<(&ExpectedField, i64)> for Field {
    open spec fn obeys_try_from_spec() -> bool {
        true
    }

    open spec fn try_from_spec(value: (&ExpectedField, i64)) -> Result<Self, Self::Error> {
        Field::of(*value.0, value.1)
    }
}

impl TryFrom<(&ExpectedField, i64)> for VarItem {
    type Error = InputError;

    fn try_from(value: (&ExpectedField, i64)) -> (item: Result<Self, Self::Error>) {
        match value.0 {
            ExpectedField::Variable(item) => Ok(
                VarItem {
                    usage_page: item.usage_page,
                    usage: item.usage,
                    value: value.1,
                    options: item.options,
                },
            ),
            _ => Err(InputError::VariableItemExpected),
        }
    }
}

impl TryFromSpecImpl<(&ExpectedField, i64)> for VarItem {
    open spec fn obeys_try_from_spec() -> bool {
        true
    }

    open spec fn try_from_spec(value: (&ExpectedField, i64)) -> Result<Self, Self::Error> {
        match *value.0 {
            ExpectedField::Variable(item) => Ok(
                VarItem {
                    usage_page: item.usage_page,
                    usage: item.usage,
                    value: value.1,
                    options: item.options,
                },
            ),
            _ => Err(InputError::VariableItemExpected),
        }
    }
}

impl TryFrom<(&ExpectedField, i64)> for ArrayValueItem {
    type Error = InputError;

    fn try_from(value: (&ExpectedField, i64)) -> (item: Result<Self, Self::Error>) {
        match value.0 {
            ExpectedField::ArrayItem(item) => {
                if value.1 < 0 || value.1 > 0xFFFF {
                    return Err(InputError::InvalidPayload);
                }
                let usage_id: u16 = value.1 as u16;
                Ok(
                    ArrayValueItem {
                        usage_page: item.usage_page,
                        usage: Usage::from((&item.usage_page, usage_id)),
                        options: item.options,
                    },
                )
            },
            _ => Err(InputError::ArrayItemExpected),
        }
    }
}

impl TryFromSpecImpl<(&ExpectedField, i64)> for ArrayValueItem {
    open spec fn obeys_try_from_spec() -> bool {
        true
    }

    open spec fn try_from_spec(value: (&ExpectedField, i64)) -> Result<Self, Self::Error> {
        match *value.0 {
            ExpectedField::ArrayItem(item) => if 0 <= value.1 <= 0xFFFF {
                Ok(
                    ArrayValueItem {
                        usage_page: item.usage_page,
                        usage: Usage::of(item.usage_page, value.1 as u16),
                        options: item.options,
                    },
                )
            } else {
                Err(InputError::InvalidPayload)
            },
            _ => Err(InputError::ArrayItemExpected),
        }
    }
}

impl TryFrom<&ExpectedField> for ArrayZeroItem {
    type Error = InputError;

    fn try_from(value: &ExpectedField) -> (item: Result<Self, Self::Error>) {
        match value {
            ExpectedField::ArrayItem(item) => Ok(
                ArrayZeroItem { usage_page: item.usage_page, options: item.options },
            ),
            _ => Err(InputError::ArrayItemExpected),
        }
    }
}

impl TryFromSpecImpl<&ExpectedField> for ArrayZeroItem {
    open spec fn obeys_try_from_spec() -> bool {
        true
    }

    open spec fn try_from_spec(value: &ExpectedField) -> Result<Self, Self::Error> {
        match *value {
            ExpectedField::ArrayItem(item) => Ok(
                ArrayZeroItem { usage_page: item.usage_page, options: item.options },
            ),
            _ => Err(InputError::ArrayItemExpected),
        }
    }
}

} // verus!
