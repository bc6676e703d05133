//! Texts for people: what the items of a descriptor and the fields of a
//! report look like when they are printed.

use crate::error::{Error, FailureKind};
use crate::report::parsed::{ArrayValueItem, Field, ParsedReport, VarItem};
use crate::report_descriptor::data::{Size, SizedPayload};
use crate::report_descriptor::{
    Collection, Data, DataFieldOptions, GlobalType, ItemType, ItemView, Linear, LocalType,
    MainType, Mutability, NullState, ReportDescriptor, ReportDescriptorItem, State, Structure,
    Value, Volatile, Wrap,
};
use crate::usage_table::{Usage, UsagePage};
use vstd::prelude::*;

verus! {

/// The digit that stands for `value` in the bases up to 16.
pub open spec fn digit(value: int) -> char {
    if value < 10 {
        (0x30 + value) as u8 as char
    } else {
        (0x61 + value - 10) as u8 as char
    }
}

/// The decimal digits of `value`, the most significant one first.
pub open spec fn decimal_digits(value: nat) -> Seq<char>
    decreases value,
{
    if value < 10 {
        seq![digit(value as int)]
    } else {
        decimal_digits(value / 10).push(digit((value % 10) as int))
    }
}

/// The hexadecimal digits of `value`, the most significant one first.
pub open spec fn hex_digits(value: nat) -> Seq<char>
    decreases value,
{
    if value < 16 {
        seq![digit(value as int)]
    } else {
        hex_digits(value / 16).push(digit((value % 16) as int))
    }
}

/// The number `value` in decimal, with a minus sign if it is negative.
pub open spec fn decimal(value: int) -> Seq<char> {
    if value < 0 {
        seq!['-'] + decimal_digits((-value) as nat)
    } else {
        decimal_digits(value as nat)
    }
}

/// The number `value` in hexadecimal with small letters and at least two
/// digits.
pub open spec fn hex(value: nat) -> Seq<char> {
    if value < 16 {
        seq!['0'] + hex_digits(value)
    } else {
        hex_digits(value)
    }
}

/// A sequence of `count` spaces.
pub open spec fn spaces(count: nat) -> Seq<char> {
    Seq::new(count, |i: int| ' ')
}

/// Appends `more` to `text` with `String::push_str`.
#[verifier::external_body]
pub(crate) fn push_str(text: &mut String, more: &str)
    ensures
        final(text)@ == old(text)@ + more@,
{
    text.push_str(more)
}

/// Appends the character `c` to `text` with `String::push`.
#[verifier::external_body]
pub(crate) fn push_char(text: &mut String, c: char)
    ensures
        final(text)@ == old(text)@.push(c),
{
    text.push(c)
}

/// Returns the digit that stands for `value`.
fn digit_of(value: u8) -> (c: char)
    requires
        value < 16,
    ensures
        c == digit(value as int),
{
    if value < 10 {
        (0x30u8 + value) as char
    } else {
        (0x61u8 + value - 10) as char
    }
}

/// Appends the decimal digits of `value` to `text`.
fn push_decimal_digits(text: &mut String, value: u64)
    ensures
        final(text)@ == old(text)@ + decimal_digits(value as nat),
    decreases value,
{
    if value >= 10 {
        push_decimal_digits(text, value / 10);
    }
    push_char(text, digit_of((value % 10) as u8));
    assert(text@ =~= old(text)@ + decimal_digits(value as nat));
}

/// Appends the hexadecimal digits of `value` to `text`.
fn push_hex_digits(text: &mut String, value: u64)
    ensures
        final(text)@ == old(text)@ + hex_digits(value as nat),
    decreases value,
{
    if value >= 16 {
        push_hex_digits(text, value / 16);
    }
    push_char(text, digit_of((value % 16) as u8));
    assert(text@ =~= old(text)@ + hex_digits(value as nat));
}

/// Appends the number `value` in decimal to `text`.
pub fn push_decimal(text: &mut String, value: i64)
    ensures
        final(text)@ == old(text)@ + decimal(value as int),
{
    if value < 0 {
        push_char(text, '-');
        let magnitude: u64 = if value == i64::MIN {
            0x8000_0000_0000_0000
        } else {
            (-value) as u64
        };
        push_decimal_digits(text, magnitude);
        assert(text@ =~= old(text)@ + decimal(value as int));
    } else {
        push_decimal_digits(text, value as u64);
    }
}

/// Appends the number `value`, which has no sign, in decimal to `text`.
pub fn push_unsigned(text: &mut String, value: u64)
    ensures
        final(text)@ == old(text)@ + decimal(value as int),
{
    push_decimal_digits(text, value);
}

/// Appends the number `value` in hexadecimal, with at least two digits, to
/// `text`.
pub fn push_hex(text: &mut String, value: u16)
    ensures
        final(text)@ == old(text)@ + hex(value as nat),
{
    if value < 16 {
        push_char(text, '0');
    }
    push_hex_digits(text, value as u64);
    assert(text@ =~= old(text)@ + hex(value as nat));
}

/// Appends `count` spaces to `text`.
pub fn push_spaces(text: &mut String, count: usize)
    ensures
        final(text)@ == old(text)@ + spaces(count as nat),
{
    let mut i: usize = 0;
    assert(text@ =~= old(text)@ + spaces(0));
    while i < count
        invariant
            i <= count,
            text@ == old(text)@ + spaces(i as nat),
        decreases count - i,
    {
        push_char(text, ' ');
        i += 1;
        assert(text@ =~= old(text)@ + spaces(i as nat));
    }
    assert(text@ =~= old(text)@ + spaces(count as nat));
}

/// Returns the number `value` in decimal.
pub fn decimal_string(value: i64) -> (text: String)
    ensures
        text@ == decimal(value as int),
{
    let mut text = String::new();
    push_decimal(&mut text, value);
    assert(text@ =~= decimal(value as int));
    text
}

impl GlobalType {
    /// The name of this Global item type.
    pub open spec fn text(self) -> Seq<char> {
        match self {
            GlobalType::UsagePage => "Usage Page"@,
            GlobalType::LogicalMinimum => "Logical Minimum"@,
            GlobalType::LogicalMaximum => "Logical Maximum"@,
            GlobalType::PhysicalMinimum => "Physical Minimum"@,
            GlobalType::PhysicalMaximum => "Physical Maximum"@,
            GlobalType::UnitExponent => "Unit Exponent"@,
            GlobalType::Unit => "Unit"@,
            GlobalType::ReportSize => "Report Size"@,
            GlobalType::ReportID => "Report ID"@,
            GlobalType::ReportCount => "Report Count"@,
            GlobalType::Push => "Push"@,
            GlobalType::Pop => "Pop"@,
        }
    }

    /// Returns the name of this Global item type.
    pub fn to_string(&self) -> (text: String)
        ensures
            text@ == self.text(),
    {
        match self {
            GlobalType::UsagePage => "Usage Page".to_owned(),
            GlobalType::LogicalMinimum => "Logical Minimum".to_owned(),
            GlobalType::LogicalMaximum => "Logical Maximum".to_owned(),
            GlobalType::PhysicalMinimum => "Physical Minimum".to_owned(),
            GlobalType::PhysicalMaximum => "Physical Maximum".to_owned(),
            GlobalType::UnitExponent => "Unit Exponent".to_owned(),
            GlobalType::Unit => "Unit".to_owned(),
            GlobalType::ReportSize => "Report Size".to_owned(),
            GlobalType::ReportID => "Report ID".to_owned(),
            GlobalType::ReportCount => "Report Count".to_owned(),
            GlobalType::Push => "Push".to_owned(),
            GlobalType::Pop => "Pop".to_owned(),
        }
    }
}

impl MainType {
    /// The name of this Main item type.
    pub open spec fn text(self) -> Seq<char> {
        match self {
            MainType::Input => "Input"@,
            MainType::Output => "Output"@,
            MainType::Feature => "Feature"@,
            MainType::Collection => "Collection"@,
            MainType::EndCollection => "End Collection"@,
        }
    }

    /// Returns the name of this Main item type.
    pub fn to_string(&self) -> (text: String)
        ensures
            text@ == self.text(),
    {
        match self {
            MainType::Input => "Input".to_owned(),
            MainType::Output => "Output".to_owned(),
            MainType::Feature => "Feature".to_owned(),
            MainType::Collection => "Collection".to_owned(),
            MainType::EndCollection => "End Collection".to_owned(),
        }
    }
}

impl LocalType {
    /// The name of this Local item type.
    pub open spec fn text(self) -> Seq<char> {
        match self {
            LocalType::Usage => "Usage"@,
            LocalType::UsageMinimum => "Usage Minimum"@,
            LocalType::UsageMaximum => "Usage Maximum"@,
            LocalType::DesignatorIndex => "Designator Index"@,
            LocalType::DesignatorMinimum => "Designator Minimum"@,
            LocalType::DesignatorMaximum => "Designator Maximum"@,
            LocalType::StringIndex => "String Index"@,
            LocalType::StringMinimum => "String Minimum"@,
            LocalType::StringMaximum => "String Maximum"@,
            LocalType::Delimiter => "Delimiter"@,
        }
    }

    /// Returns the name of this Local item type.
    pub fn to_string(&self) -> (text: String)
        ensures
            text@ == self.text(),
    {
        match self {
            LocalType::Usage => "Usage".to_owned(),
            LocalType::UsageMinimum => "Usage Minimum".to_owned(),
            LocalType::UsageMaximum => "Usage Maximum".to_owned(),
            LocalType::DesignatorIndex => "Designator Index".to_owned(),
            LocalType::DesignatorMinimum => "Designator Minimum".to_owned(),
            LocalType::DesignatorMaximum => "Designator Maximum".to_owned(),
            LocalType::StringIndex => "String Index".to_owned(),
            LocalType::StringMinimum => "String Minimum".to_owned(),
            LocalType::StringMaximum => "String Maximum".to_owned(),
            LocalType::Delimiter => "Delimiter".to_owned(),
        }
    }
}

impl Collection {
    /// The name of this kind of collection.
    pub open spec fn text(self) -> Seq<char> {
        match self {
            Collection::Physical => "Physical"@,
            Collection::Application => "Application"@,
            Collection::Logical => "Logical"@,
            Collection::Report => "Report"@,
            Collection::NamedArray => "Named Array"@,
            Collection::UsageSwitch => "Usage Switch"@,
            Collection::UsageModifier => "Usage Modifier"@,
            Collection::Reserved(i) => "Reserved ("@ + decimal(i as int) + ")"@,
            Collection::VendorDefined(i) => "Vendor defined ("@ + decimal(i as int) + ")"@,
        }
    }

    /// Returns the name of this kind of collection.
    pub fn to_string(&self) -> (text: String)
        ensures
            text@ == self.text(),
    {
        match self {
            Collection::Physical => "Physical".to_owned(),
            Collection::Application => "Application".to_owned(),
            Collection::Logical => "Logical".to_owned(),
            Collection::Report => "Report".to_owned(),
            Collection::NamedArray => "Named Array".to_owned(),
            Collection::UsageSwitch => "Usage Switch".to_owned(),
            Collection::UsageModifier => "Usage Modifier".to_owned(),
            Collection::Reserved(i) => {
                let mut text = "Reserved (".to_owned();
                push_decimal(&mut text, *i as i64);
                push_str(&mut text, ")");
                text
            },
            Collection::VendorDefined(i) => {
                let mut text = "Vendor defined (".to_owned();
                push_decimal(&mut text, *i as i64);
                push_str(&mut text, ")");
                text
            },
        }
    }
}

impl Mutability {
    /// The name of this flag.
    pub open spec fn text(self) -> Seq<char> {
        match self {
            Mutability::Data => "Data"@,
            Mutability::Constant => "Const"@,
        }
    }

    /// Returns the name of this flag.
    pub fn to_string(&self) -> (text: String)
        ensures
            text@ == self.text(),
    {
        match self {
            Mutability::Data => "Data".to_owned(),
            Mutability::Constant => "Const".to_owned(),
        }
    }
}

impl Structure {
    /// The name of this flag.
    pub open spec fn text(self) -> Seq<char> {
        match self {
            Structure::Array => "Arr"@,
            Structure::Variable => "Var"@,
        }
    }

    /// Returns the name of this flag.
    pub fn to_string(&self) -> (text: String)
        ensures
            text@ == self.text(),
    {
        match self {
            Structure::Array => "Arr".to_owned(),
            Structure::Variable => "Var".to_owned(),
        }
    }
}

impl Value {
    /// The name of this flag.
    pub open spec fn text(self) -> Seq<char> {
        match self {
            Value::Absolute => "Abs"@,
            Value::Relative => "Rel"@,
        }
    }

    /// Returns the name of this flag.
    pub fn to_string(&self) -> (text: String)
        ensures
            text@ == self.text(),
    {
        match self {
            Value::Absolute => "Abs".to_owned(),
            Value::Relative => "Rel".to_owned(),
        }
    }
}

impl Wrap {
    /// The name of this flag.
    pub open spec fn text(self) -> Seq<char> {
        match self {
            Wrap::NoWrap => "No Wrap"@,
            Wrap::Wrap => "Wrap"@,
        }
    }

    /// Returns the name of this flag.
    pub fn to_string(&self) -> (text: String)
        ensures
            text@ == self.text(),
    {
        match self {
            Wrap::NoWrap => "No Wrap".to_owned(),
            Wrap::Wrap => "Wrap".to_owned(),
        }
    }
}

impl Linear {
    /// The name of this flag.
    pub open spec fn text(self) -> Seq<char> {
        match self {
            Linear::Linear => "Linear"@,
            Linear::NonLinear => "Non-linear"@,
        }
    }

    /// Returns the name of this flag.
    pub fn to_string(&self) -> (text: String)
        ensures
            text@ == self.text(),
    {
        match self {
            Linear::Linear => "Linear".to_owned(),
            Linear::NonLinear => "Non-linear".to_owned(),
        }
    }
}

impl State {
    /// The name of this flag.
    pub open spec fn text(self) -> Seq<char> {
        match self {
            State::Preferred => "Preferred State"@,
            State::NoPreferred => "No Preferred State"@,
        }
    }

    /// Returns the name of this flag.
    pub fn to_string(&self) -> (text: String)
        ensures
            text@ == self.text(),
    {
        match self {
            State::Preferred => "Preferred State".to_owned(),
            State::NoPreferred => "No Preferred State".to_owned(),
        }
    }
}

impl NullState {
    /// The name of this flag.
    pub open spec fn text(self) -> Seq<char> {
        match self {
            NullState::NoNullPosition => "No Null Position"@,
            NullState::NullState => "Null State"@,
        }
    }

    /// Returns the name of this flag.
    pub fn to_string(&self) -> (text: String)
        ensures
            text@ == self.text(),
    {
        match self {
            NullState::NoNullPosition => "No Null Position".to_owned(),
            NullState::NullState => "Null State".to_owned(),
        }
    }
}

impl Volatile {
    /// The name of this flag.
    pub open spec fn text(self) -> Seq<char> {
        match self {
            Volatile::NonVolatile => "Non Volatile"@,
            Volatile::Volatile => "Volatile"@,
        }
    }

    /// Returns the name of this flag.
    pub fn to_string(&self) -> (text: String)
        ensures
            text@ == self.text(),
    {
        match self {
            Volatile::NonVolatile => "Non Volatile".to_owned(),
            Volatile::Volatile => "Volatile".to_owned(),
        }
    }
}

impl Data {
    /// The name of this flag.
    pub open spec fn text(self) -> Seq<char> {
        match self {
            Data::BitField => "Bit Field"@,
            Data::BufferedBytes => "Buffered Bytes"@,
        }
    }

    /// Returns the name of this flag.
    pub fn to_string(&self) -> (text: String)
        ensures
            text@ == self.text(),
    {
        match self {
            Data::BitField => "Bit Field".to_owned(),
            Data::BufferedBytes => "Buffered Bytes".to_owned(),
        }
    }
}

impl UsagePage {
    /// The name of this usage page.
    pub open spec fn text(self) -> Seq<char> {
        match self {
            UsagePage::Undefined => "Undefined"@,
            UsagePage::GenericDesktopControls => "Generic Desktop Controls"@,
            UsagePage::SimulationControls => "Simulation Controls"@,
            UsagePage::VRControls => "VR Controls"@,
            UsagePage::SportControls => "Sport Controls"@,
            UsagePage::GameControls => "Game Controls"@,
            UsagePage::GenericDeviceControls => "Generic DeviceControls"@,
            UsagePage::Keyboard => "Keyboard"@,
            UsagePage::LED => "LED"@,
            UsagePage::Button => "Button"@,
            UsagePage::Ordinal => "Ordinal"@,
            UsagePage::Telephony => "Telephony"@,
            UsagePage::Consumer => "Consumer"@,
            UsagePage::Digitizer => "Digitizer"@,
            UsagePage::Haptics => "Haptics"@,
            UsagePage::PhysicalInputDevice => "Physical Input Device"@,
            UsagePage::Unicode => "Unicode"@,
            UsagePage::EyeAndHeadTracker => "Eye and Head Tracker"@,
            UsagePage::AuxiliaryDisplay => "Auxiliary Display"@,
            UsagePage::Sensor => "Sensor"@,
            UsagePage::MedicalInstruments => "Medical Instruments"@,
            UsagePage::BrailleDisplay => "Braille Display"@,
            UsagePage::LightningAndIllumination => "Lightning And Illumination"@,
            UsagePage::Monitor => "Monitor"@,
            UsagePage::MonitorEnumerated => "Monitor Enumerated"@,
            UsagePage::VESAVirtualControls => "VESA VirtualControls"@,
            UsagePage::Power => "Power"@,
            UsagePage::BatterySystem => "Battery System"@,
            UsagePage::BarcodeScanner => "Barcode Scanner"@,
            UsagePage::Scale => "Scale"@,
            UsagePage::MagneticStripeReader => "Magnetic Stripe Reader"@,
            UsagePage::CameraControl => "Camera Control"@,
            UsagePage::Arcade => "Arcade"@,
            UsagePage::GamingDevice => "Gaming Device"@,
            UsagePage::FIDOAlliance => "FIDO Alliance"@,
            UsagePage::VendorDefined(i) => "Vendor Defined (0x"@ + hex(i as nat) + ")"@,
            UsagePage::Reserved(i) => "Reserved (0x"@ + hex(i as nat) + ")"@,
        }
    }

    /// Returns the name of this usage page.
    pub fn to_string(&self) -> (text: String)
        ensures
            text@ == self.text(),
    {
        match self {
            UsagePage::Undefined => "Undefined".to_owned(),
            UsagePage::GenericDesktopControls => "Generic Desktop Controls".to_owned(),
            UsagePage::SimulationControls => "Simulation Controls".to_owned(),
            UsagePage::VRControls => "VR Controls".to_owned(),
            UsagePage::SportControls => "Sport Controls".to_owned(),
            UsagePage::GameControls => "Game Controls".to_owned(),
            UsagePage::GenericDeviceControls => "Generic DeviceControls".to_owned(),
            UsagePage::Keyboard => "Keyboard".to_owned(),
            UsagePage::LED => "LED".to_owned(),
            UsagePage::Button => "Button".to_owned(),
            UsagePage::Ordinal => "Ordinal".to_owned(),
            UsagePage::Telephony => "Telephony".to_owned(),
            UsagePage::Consumer => "Consumer".to_owned(),
            UsagePage::Digitizer => "Digitizer".to_owned(),
            UsagePage::Haptics => "Haptics".to_owned(),
            UsagePage::PhysicalInputDevice => "Physical Input Device".to_owned(),
            UsagePage::Unicode => "Unicode".to_owned(),
            UsagePage::EyeAndHeadTracker => "Eye and Head Tracker".to_owned(),
            UsagePage::AuxiliaryDisplay => "Auxiliary Display".to_owned(),
            UsagePage::Sensor => "Sensor".to_owned(),
            UsagePage::MedicalInstruments => "Medical Instruments".to_owned(),
            UsagePage::BrailleDisplay => "Braille Display".to_owned(),
            UsagePage::LightningAndIllumination => "Lightning And Illumination".to_owned(),
            UsagePage::Monitor => "Monitor".to_owned(),
            UsagePage::MonitorEnumerated => "Monitor Enumerated".to_owned(),
            UsagePage::VESAVirtualControls => "VESA VirtualControls".to_owned(),
            UsagePage::Power => "Power".to_owned(),
            UsagePage::BatterySystem => "Battery System".to_owned(),
            UsagePage::BarcodeScanner => "Barcode Scanner".to_owned(),
            UsagePage::Scale => "Scale".to_owned(),
            UsagePage::MagneticStripeReader => "Magnetic Stripe Reader".to_owned(),
            UsagePage::CameraControl => "Camera Control".to_owned(),
            UsagePage::Arcade => "Arcade".to_owned(),
            UsagePage::GamingDevice => "Gaming Device".to_owned(),
            UsagePage::FIDOAlliance => "FIDO Alliance".to_owned(),
            UsagePage::VendorDefined(i) => {
                let mut text = "Vendor Defined (0x".to_owned();
                push_hex(&mut text, *i);
                push_str(&mut text, ")");
                text
            },
            UsagePage::Reserved(i) => {
                let mut text = "Reserved (0x".to_owned();
                push_hex(&mut text, *i);
                push_str(&mut text, ")");
                text
            },
        }
    }
}

impl Usage {
    /// The name of this usage: the name that its table gives it, or its id
    /// in decimal on a page without a table.
    pub open spec fn text(self) -> Seq<char> {
        match self {
            Usage::Undefined => "Undefined"@,
            Usage::GenericDesktopControls(usage) => usage.text(),
            Usage::SimulationControls(i) => decimal(i as int),
            Usage::VRControls(i) => decimal(i as int),
            Usage::SportControls(i) => decimal(i as int),
            Usage::GameControls(i) => decimal(i as int),
            Usage::GenericDeviceControls(i) => decimal(i as int),
            Usage::Keyboard(usage) => usage.text(),
            Usage::LED(i) => decimal(i as int),
            Usage::Button(i) => decimal(i as int),
            Usage::Ordinal(i) => decimal(i as int),
            Usage::Telephony(i) => decimal(i as int),
            Usage::Consumer(usage) => usage.text(),
            Usage::Digitizer(i) => decimal(i as int),
            Usage::Haptics(i) => decimal(i as int),
            Usage::PhysicalInputDevice(i) => decimal(i as int),
            Usage::Unicode(i) => decimal(i as int),
            Usage::EyeAndHeadTracker(i) => decimal(i as int),
            Usage::AuxiliaryDisplay(i) => decimal(i as int),
            Usage::Sensor(i) => decimal(i as int),
            Usage::MedicalInstruments(i) => decimal(i as int),
            Usage::BrailleDisplay(i) => decimal(i as int),
            Usage::LightningAndIllumination(i) => decimal(i as int),
            Usage::Monitor(i) => decimal(i as int),
            Usage::MonitorEnumerated(i) => decimal(i as int),
            Usage::VESAVirtualControls(i) => decimal(i as int),
            Usage::Power(i) => decimal(i as int),
            Usage::BatterySystem(i) => decimal(i as int),
            Usage::BarcodeScanner(i) => decimal(i as int),
            Usage::Scale(i) => decimal(i as int),
            Usage::MagneticStripeReader(i) => decimal(i as int),
            Usage::CameraControl(i) => decimal(i as int),
            Usage::Arcade(i) => decimal(i as int),
            Usage::GamingDevice(i) => decimal(i as int),
            Usage::FIDOAlliance(usage) => usage.text(),
            Usage::VendorDefined(i) => decimal(i as int),
        }
    }

    /// Returns the name of this usage.
    pub fn to_string(&self) -> (text: String)
        ensures
            text@ == self.text(),
    {
        match self {
            Usage::Undefined => "Undefined".to_owned(),
            Usage::GenericDesktopControls(usage) => usage.to_string(),
            Usage::SimulationControls(i) => decimal_string(*i as i64),
            Usage::VRControls(i) => decimal_string(*i as i64),
            Usage::SportControls(i) => decimal_string(*i as i64),
            Usage::GameControls(i) => decimal_string(*i as i64),
            Usage::GenericDeviceControls(i) => decimal_string(*i as i64),
            Usage::Keyboard(usage) => usage.to_string(),
            Usage::LED(i) => decimal_string(*i as i64),
            Usage::Button(i) => decimal_string(*i as i64),
            Usage::Ordinal(i) => decimal_string(*i as i64),
            Usage::Telephony(i) => decimal_string(*i as i64),
            Usage::Consumer(usage) => usage.to_string(),
            Usage::Digitizer(i) => decimal_string(*i as i64),
            Usage::Haptics(i) => decimal_string(*i as i64),
            Usage::PhysicalInputDevice(i) => decimal_string(*i as i64),
            Usage::Unicode(i) => decimal_string(*i as i64),
            Usage::EyeAndHeadTracker(i) => decimal_string(*i as i64),
            Usage::AuxiliaryDisplay(i) => decimal_string(*i as i64),
            Usage::Sensor(i) => decimal_string(*i as i64),
            Usage::MedicalInstruments(i) => decimal_string(*i as i64),
            Usage::BrailleDisplay(i) => decimal_string(*i as i64),
            Usage::LightningAndIllumination(i) => decimal_string(*i as i64),
            Usage::Monitor(i) => decimal_string(*i as i64),
            Usage::MonitorEnumerated(i) => decimal_string(*i as i64),
            Usage::VESAVirtualControls(i) => decimal_string(*i as i64),
            Usage::Power(i) => decimal_string(*i as i64),
            Usage::BatterySystem(i) => decimal_string(*i as i64),
            Usage::BarcodeScanner(i) => decimal_string(*i as i64),
            Usage::Scale(i) => decimal_string(*i as i64),
            Usage::MagneticStripeReader(i) => decimal_string(*i as i64),
            Usage::CameraControl(i) => decimal_string(*i as i64),
            Usage::Arcade(i) => decimal_string(*i as i64),
            Usage::GamingDevice(i) => decimal_string(*i as i64),
            Usage::FIDOAlliance(usage) => usage.to_string(),
            Usage::VendorDefined(i) => decimal_string(*i as i64),
        }
    }
}

impl FailureKind {
    /// What is wrong with the input, in words.
    pub open spec fn text(self) -> Seq<char> {
        match self {
            FailureKind::PrefixMissing => "the input ends where a prefix byte is due"@,
            FailureKind::UnknownItemType(prefix) => "the prefix byte 0x"@ + hex(prefix as nat)
                + " names no item type"@,
            FailureKind::LongItem => "long items are not supported"@,
            FailureKind::PayloadTruncated { expected, found } => "the input ends after "@
                + decimal(found as int) + " of "@ + decimal(expected as int)
                + " payload bytes"@,
            FailureKind::BitOffsetInvalid => "the bit offset does not point into a byte"@,
            FailureKind::BitsMissing => "the input ends before the bits that are to be read"@,
        }
    }

    /// Returns what is wrong with the input, in words.
    pub fn to_string(&self) -> (text: String)
        ensures
            text@ == self.text(),
    {
        match self {
            FailureKind::PrefixMissing => "the input ends where a prefix byte is due".to_owned(),
            FailureKind::UnknownItemType(prefix) => {
                let mut text = "the prefix byte 0x".to_owned();
                push_hex(&mut text, *prefix as u16);
                push_str(&mut text, " names no item type");
                text
            },
            FailureKind::LongItem => "long items are not supported".to_owned(),
            FailureKind::PayloadTruncated { expected, found } => {
                let mut text = "the input ends after ".to_owned();
                push_unsigned(&mut text, *found as u64);
                push_str(&mut text, " of ");
                push_unsigned(&mut text, *expected as u64);
                push_str(&mut text, " payload bytes");
                text
            },
            FailureKind::BitOffsetInvalid => "the bit offset does not point into a byte".to_owned(),
            FailureKind::BitsMissing => "the input ends before the bits that are to be read"
                .to_owned(),
        }
    }
}

impl Error {
    /// The error in words: where parsing stopped, and why.
    pub open spec fn text(self) -> Seq<char> {
        match self {
            Error::ParsingFailed(failure) => "parsing failed at byte "@ + decimal(
                failure.offset as int,
            ) + ": "@ + failure.kind.text(),
            Error::PayloadEmpty => "the payload is empty"@,
        }
    }

    /// Returns the error in words.
    pub fn to_string(&self) -> (text: String)
        ensures
            text@ == self.text(),
    {
        match self {
            Error::ParsingFailed(failure) => {
                let mut text = "parsing failed at byte ".to_owned();
                push_unsigned(&mut text, failure.offset as u64);
                push_str(&mut text, ": ");
                push_str(&mut text, failure.kind.to_string().as_str());
                text
            },
            Error::PayloadEmpty => "the payload is empty".to_owned(),
        }
    }
}

impl ItemType {
    /// The name of this item type.
    pub open spec fn text(self) -> Seq<char> {
        match self {
            ItemType::Main(kind) => kind.text(),
            ItemType::Global(kind) => kind.text(),
            ItemType::Local(kind) => kind.text(),
        }
    }

    /// Returns the name of this item type.
    pub fn to_string(&self) -> (text: String)
        ensures
            text@ == self.text(),
    {
        match self {
            ItemType::Main(kind) => kind.to_string(),
            ItemType::Global(kind) => kind.to_string(),
            ItemType::Local(kind) => kind.to_string(),
        }
    }
}

impl DataFieldOptions {
    /// The first three flags, which tell the kind of a field: whether it
    /// holds data, whether it is a variable, and whether it is absolute.
    pub open spec fn text(self) -> Seq<char> {
        self.0.text() + ", "@ + self.1.text() + ", "@ + self.2.text()
    }

    /// Returns the first three flags as text.
    pub fn to_string(&self) -> (text: String)
        ensures
            text@ == self.text(),
    {
        let mut text = self.0.to_string();
        push_str(&mut text, ", ");
        push_str(&mut text, self.1.to_string().as_str());
        push_str(&mut text, ", ");
        push_str(&mut text, self.2.to_string().as_str());
        text
    }
}

impl SizedPayload {
    /// The payload as a number in decimal, read in two's complement; an
    /// empty payload has no text.
    pub open spec fn text(self) -> Seq<char> {
        if self == SizedPayload::Empty {
            Seq::empty()
        } else {
            decimal(self.signed())
        }
    }

    /// Returns the payload as a number in decimal.
    pub fn to_string(&self) -> (text: String)
        ensures
            text@ == self.text(),
    {
        if self.is_empty() {
            String::new()
        } else {
            decimal_string(i32::from(*self) as i64)
        }
    }
}

/// The text of an item that has something to show after its name.
pub open spec fn with_detail(name: Seq<char>, detail: Option<Seq<char>>) -> Seq<char> {
    match detail {
        Some(shown) => name + " ("@ + shown + ")"@,
        None => name + " (!!ERROR UNKNOWN!!)"@,
    }
}

/// Returns the text of an item that has something to show after its name.
fn string_with_detail(name: String, detail: Option<String>) -> (text: String)
    ensures
        text@ == with_detail(
            name@,
            match detail {
                Some(shown) => Some(shown@),
                None => None,
            },
        ),
{
    let mut text = name;
    match detail {
        Some(shown) => {
            push_str(&mut text, " (");
            push_str(&mut text, shown.as_str());
            push_str(&mut text, ")");
        },
        None => {
            push_str(&mut text, " (!!ERROR UNKNOWN!!)");
        },
    }
    text
}

impl ItemView {
    /// The text of the item: its name and, in brackets, what its payload
    /// stands for.
    ///
    /// A Usage Page item shows the usage page, a Collection item the kind
    /// of collection, an Input, Output or Feature item its options. Any
    /// other item shows its payload as a number, if its size is not empty.
    /// What cannot be read is shown as an error.
    pub open spec fn text(self) -> Seq<char> {
        if self.kind == ItemType::Global(GlobalType::UsagePage) {
            with_detail(
                self.kind.text(),
                match self.usage_page() {
                    Some(page) => Some(page.text()),
                    None => None,
                },
            )
        } else if self.kind == ItemType::Main(MainType::Collection) {
            with_detail(
                self.kind.text(),
                match self.collection() {
                    Some(collection) => Some(collection.text()),
                    None => None,
                },
            )
        } else if self.is_input_output_or_feature() {
            with_detail(
                self.kind.text(),
                match self.data_field_options() {
                    Some(options) => Some(options.text()),
                    None => None,
                },
            )
        } else if self.payload_size == Size::Empty {
            self.kind.text()
        } else {
            with_detail(
                self.kind.text(),
                match self.payload() {
                    Some(payload) => Some(payload.text()),
                    None => None,
                },
            )
        }
    }

    /// The text of the item in a descriptor whose usage page is `page`: a
    /// Usage, Usage Minimum or Usage Maximum item shows the usage that its
    /// payload names on that page, and every other item its own text.
    pub open spec fn text_on_page(self, page: UsagePage) -> Seq<char> {
        if self.names_usage() {
            with_detail(
                self.kind.text(),
                Some(
                    Usage::of(
                        page,
                        match self.payload_u16() {
                            Some(id) => id,
                            None => 0,
                        },
                    ).text(),
                ),
            )
        } else {
            self.text()
        }
    }

    /// True if the item is a Usage, Usage Minimum or Usage Maximum item.
    pub open spec fn names_usage(self) -> bool {
        ||| self.kind == ItemType::Local(LocalType::Usage)
        ||| self.kind == ItemType::Local(LocalType::UsageMinimum)
        ||| self.kind == ItemType::Local(LocalType::UsageMaximum)
    }

    /// The usage page of a descriptor behind the item, if it was `page`
    /// before the item.
    pub open spec fn page_after(self, page: UsagePage) -> UsagePage {
        if self.kind == ItemType::Global(GlobalType::UsagePage) {
            match self.usage_page() {
                Some(set) => set,
                None => UsagePage::Undefined,
            }
        } else {
            page
        }
    }

    /// The depth at which the item is shown, if `depth` collections were
    /// open before it: an End Collection item stands with the collection
    /// that it closes.
    pub open spec fn depth_at(self, depth: nat) -> nat {
        if self.kind == ItemType::Main(MainType::EndCollection) && depth > 0 {
            (depth - 1) as nat
        } else {
            depth
        }
    }

    /// The number of collections that are open behind the item, if `depth`
    /// were open before it.
    pub open spec fn depth_after(self, depth: nat) -> nat {
        if self.kind == ItemType::Main(MainType::Collection) {
            self.depth_at(depth) + 1
        } else {
            self.depth_at(depth)
        }
    }

    /// The line of the item in the text of a descriptor: the raw bytes in
    /// a column of 20 characters, four spaces for every open collection, and
    /// the text of the item.
    pub open spec fn line(self, page: UsagePage, depth: nat) -> Seq<char> {
        hex_list(self.raw) + spaces(padding(self.raw.len())) + spaces(4 * self.depth_at(depth))
            + self.text_on_page(page) + "\n"@
    }
}

/// The bytes `bytes` in hexadecimal, two digits each, with a comma and a
/// space between them.
pub open spec fn hex_items(bytes: Seq<u8>) -> Seq<char>
    decreases bytes.len(),
{
    if bytes.len() == 0 {
        Seq::empty()
    } else if bytes.len() == 1 {
        hex(bytes[0] as nat)
    } else {
        hex_items(bytes.drop_last()) + ", "@ + hex(bytes.last() as nat)
    }
}

/// The bytes `bytes` as a list in square brackets.
pub open spec fn hex_list(bytes: Seq<u8>) -> Seq<char> {
    "["@ + hex_items(bytes) + "]"@
}

/// The number of spaces that fill the column of the raw bytes of an item
/// of `len` bytes up to 20 characters.
pub open spec fn padding(len: nat) -> nat {
    if 4 * len <= 20 {
        (20 - 4 * len) as nat
    } else {
        0
    }
}

/// Appends the bytes `bytes` as a list in square brackets to `text`.
fn push_hex_list(text: &mut String, bytes: &[u8])
    ensures
        final(text)@ == old(text)@ + hex_list(bytes@),
{
    push_str(text, "[");
    let mut i: usize = 0;
    assert(bytes@.take(0) =~= Seq::<u8>::empty());
    assert(text@ =~= old(text)@ + "["@ + hex_items(bytes@.take(0)));
    while i < bytes.len()
        invariant
            i <= bytes.len(),
            text@ == old(text)@ + "["@ + hex_items(bytes@.take(i as int)),
        decreases bytes.len() - i,
    {
        let ghost before = text@;
        if i > 0 {
            push_str(text, ", ");
        }
        push_hex(text, bytes[i] as u16);
        proof {
            let shown = bytes@.take(i as int);
            let next = bytes@.take(i + 1);
            assert(next.drop_last() =~= shown);
            assert(next.last() == bytes@[i as int]);
            if i == 0 {
                assert(hex_items(shown) =~= Seq::<char>::empty());
                assert(text@ =~= old(text)@ + "["@ + hex_items(next));
            } else {
                assert(text@ =~= old(text)@ + "["@ + hex_items(next));
            }
        }
        i += 1;
    }
    assert(bytes@.take(i as int) =~= bytes@);
    push_str(text, "]");
    assert(text@ =~= old(text)@ + hex_list(bytes@));
}

impl ReportDescriptorItem {
    /// Returns the text of the item.
    pub fn to_string(&self) -> (text: String)
        ensures
            text@ == self@.text(),
    {
        if self.is_usage_page() {
            let detail = match self.usage_page() {
                Some(page) => Some(page.to_string()),
                None => None,
            };
            return string_with_detail(self.kind.to_string(), detail);
        }
        if self.is_collection() {
            let detail = match self.collection() {
                Some(collection) => Some(collection.to_string()),
                None => None,
            };
            return string_with_detail(self.kind.to_string(), detail);
        }
        if self.is_input_output_or_feature() {
            let detail = match self.data_field_options() {
                Some(options) => Some(options.to_string()),
                None => None,
            };
            return string_with_detail(self.kind.to_string(), detail);
        }
        match self.payload_size {
            Size::Empty => self.kind.to_string(),
            _ => {
                let detail = match self.payload() {
                    Some(payload) => Some(payload.to_string()),
                    None => None,
                };
                string_with_detail(self.kind.to_string(), detail)
            },
        }
    }

    /// Returns the text of the item in a descriptor whose usage page is
    /// `page`.
    pub fn to_string_on_page(&self, page: &UsagePage) -> (text: String)
        ensures
            text@ == self@.text_on_page(*page),
    {
        if self.is_usage() || self.is_usage_minimum() || self.is_usage_maximum() {
            let id = match self.payload_u16() {
                Some(id) => id,
                None => 0,
            };
            let usage = Usage::from((page, id));
            string_with_detail(self.kind.to_string(), Some(usage.to_string()))
        } else {
            self.to_string()
        }
    }
}

/// The usage page behind the items `items` of a descriptor.
pub open spec fn page_behind(items: Seq<ItemView>) -> UsagePage
    decreases items.len(),
{
    if items.len() == 0 {
        UsagePage::Undefined
    } else {
        items.last().page_after(page_behind(items.drop_last()))
    }
}

/// The number of collections that are open behind the items `items` of a
/// descriptor.
pub open spec fn depth_behind(items: Seq<ItemView>) -> nat
    decreases items.len(),
{
    if items.len() == 0 {
        0
    } else {
        items.last().depth_after(depth_behind(items.drop_last()))
    }
}

/// The text of the items `items` of a descriptor: one line for each item.
pub open spec fn descriptor_text(items: Seq<ItemView>) -> Seq<char>
    decreases items.len(),
{
    if items.len() == 0 {
        Seq::empty()
    } else {
        descriptor_text(items.drop_last()) + items.last().line(
            page_behind(items.drop_last()),
            depth_behind(items.drop_last()),
        )
    }
}

/// No more collections are open than there are items.
proof fn lemma_depth_behind(items: Seq<ItemView>)
    ensures
        depth_behind(items) <= items.len(),
    decreases items.len(),
{
    if items.len() > 0 {
        lemma_depth_behind(items.drop_last());
    }
}

impl ReportDescriptor {
    /// Returns the text of the descriptor: one line for each item, with its
    /// raw bytes, indented by the collections that are open.
    pub fn to_string(&self) -> (text: String)
        ensures
            text@ == descriptor_text(self@),
    {
        let mut text = String::new();
        let mut usage_page = UsagePage::default();
        let mut depth: usize = 0;
        let mut i: usize = 0;
        assert(self@.take(0) =~= Seq::<ItemView>::empty());
        while i < self.items.len()
            invariant
                i <= self.items.len(),
                text@ == descriptor_text(self@.take(i as int)),
                usage_page == page_behind(self@.take(i as int)),
                depth == depth_behind(self@.take(i as int)),
            decreases self.items.len() - i,
        {
            let item = &self.items[i];
            let ghost before = text@;
            proof {
                let shown = self@.take(i as int);
                let next = self@.take(i + 1);
                assert(next.drop_last() =~= shown);
                assert(next.last() == item@);
                lemma_depth_behind(shown);
            }
            push_hex_list(&mut text, item.raw.as_slice());
            let len = item.raw.len();
            let pad: usize = if len <= 5 {
                20 - 4 * len
            } else {
                0
            };
            push_spaces(&mut text, pad);
            if item.is_end_collection() && depth > 0 {
                depth = depth - 1;
            }
            push_indent(&mut text, depth);
            push_str(&mut text, item.to_string_on_page(&usage_page).as_str());
            push_str(&mut text, "\n");
            assert(text@ =~= before + item@.line(usage_page, depth_behind(self@.take(i as int))));
            if item.is_usage_page() {
                usage_page = match item.usage_page() {
                    Some(page) => page,
                    None => UsagePage::default(),
                };
            }
            if item.is_collection() {
                depth = depth + 1;
            }
            i += 1;
        }
        assert(self@.take(i as int) =~= self@);
        text
    }
}

/// Appends four spaces for each of `depth` open collections to `text`.
fn push_indent(text: &mut String, depth: usize)
    ensures
        final(text)@ == old(text)@ + spaces(4 * depth as nat),
{
    let mut i: usize = 0;
    assert(text@ =~= old(text)@ + spaces(0));
    while i < depth
        invariant
            i <= depth,
            text@ == old(text)@ + spaces(4 * i as nat),
        decreases depth - i,
    {
        push_spaces(text, 4);
        i += 1;
        assert(text@ =~= old(text)@ + spaces(4 * i as nat));
    }
}

impl VarItem {
    /// The text of the value: the usage page, the usage and, in brackets,
    /// the value.
    pub open spec fn text(self) -> Seq<char> {
        self.usage_page.text() + " - "@ + self.usage.text() + "("@ + decimal(self.value as int)
            + ")"@
    }

    /// Returns the text of the value.
    pub fn to_string(&self) -> (text: String)
        ensures
            text@ == self.text(),
    {
        let mut text = self.usage_page.to_string();
        push_str(&mut text, " - ");
        push_str(&mut text, self.usage.to_string().as_str());
        push_str(&mut text, "(");
        push_decimal(&mut text, self.value);
        push_str(&mut text, ")");
        text
    }
}

impl ArrayValueItem {
    /// The text of the control that is active: the usage page and the
    /// usage.
    pub open spec fn text(self) -> Seq<char> {
        self.usage_page.text() + " - "@ + self.usage.text()
    }

    /// Returns the text of the control that is active.
    pub fn to_string(&self) -> (text: String)
        ensures
            text@ == self.text(),
    {
        let mut text = self.usage_page.to_string();
        push_str(&mut text, " - ");
        push_str(&mut text, self.usage.to_string().as_str());
        text
    }
}

impl Field {
    /// The text of the field; an array field that names no control has
    /// none.
    pub open spec fn text(self) -> Seq<char> {
        match self {
            Field::ReportId(id) => "ReportId("@ + decimal(id as int) + ")"@,
            Field::Constant(value) => "Constant("@ + decimal(value as int) + ")"@,
            Field::Variable(item) => item.text(),
            Field::ArrayValue(item) => item.text(),
            Field::ArrayZeroValue(_) => Seq::empty(),
        }
    }

    /// The line of the field in the text of a report; an array field that
    /// names no control has none.
    pub open spec fn line(self) -> Seq<char> {
        if self is ArrayZeroValue {
            Seq::empty()
        } else {
            self.text() + "\n"@
        }
    }

    /// Returns the text of the field.
    pub fn to_string(&self) -> (text: String)
        ensures
            text@ == self.text(),
    {
        match self {
            Field::ReportId(id) => {
                let mut text = "ReportId(".to_owned();
                push_decimal(&mut text, *id as i64);
                push_str(&mut text, ")");
                text
            },
            Field::Constant(value) => {
                let mut text = "Constant(".to_owned();
                push_decimal(&mut text, *value);
                push_str(&mut text, ")");
                text
            },
            Field::Variable(item) => item.to_string(),
            Field::ArrayValue(item) => item.to_string(),
            Field::ArrayZeroValue(_) => String::new(),
        }
    }
}

/// The text of the fields `fields` of a report: one line for each field
/// but the array fields that name no control.
pub open spec fn fields_text(fields: Seq<Field>) -> Seq<char>
    decreases fields.len(),
{
    if fields.len() == 0 {
        Seq::empty()
    } else {
        fields_text(fields.drop_last()) + fields.last().line()
    }
}

impl ParsedReport {
    /// Returns the text of the report: one line for each field, but none
    /// for the array fields that name no control.
    pub fn to_string(&self) -> (text: String)
        ensures
            text@ == fields_text(self@.fields),
    {
        let mut text = String::new();
        let mut i: usize = 0;
        assert(self.fields@.take(0) =~= Seq::<Field>::empty());
        while i < self.fields.len()
            invariant
                i <= self.fields.len(),
                text@ == fields_text(self.fields@.take(i as int)),
            decreases self.fields.len() - i,
        {
            let field = &self.fields[i];
            let ghost before = text@;
            proof {
                let shown = self.fields@.take(i as int);
                let next = self.fields@.take(i + 1);
                assert(next.drop_last() =~= shown);
                assert(next.last() == *field);
            }
            match field {
                Field::ArrayZeroValue(_) => {
                    assert(text@ =~= before + field.line());
                },
                _ => {
                    push_str(&mut text, field.to_string().as_str());
                    push_str(&mut text, "\n");
                    assert(text@ =~= before + field.line());
                },
            }
            i += 1;
        }
        assert(self.fields@.take(i as int) =~= self.fields@);
        text
    }
}

} // verus!
