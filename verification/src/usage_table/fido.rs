//! Usages of the FIDO Alliance usage page.

use crate::display::{decimal, push_decimal, push_str};
use crate::usage_table::UsageId;
use vstd::prelude::*;
use vstd::std_specs::convert::FromSpecImpl;

verus! {

/// A usage of the FIDO Alliance usage page.
#[derive(Clone, Copy, Debug, PartialEq, Eq, Structural)]
pub enum FIDOAllianceUsage {
    Undefined,
    U2FAuthenticatorDevice,
    InputReportData,
    OutputReportData,
    Reserved(u16),
}

impl FIDOAllianceUsage {
    /// The usage that the usage table assigns to `value`; an id that the
    /// table leaves open is kept as `Reserved`.
    pub open spec fn of_id(value: u16) -> FIDOAllianceUsage {
        match value {
            0x00 => FIDOAllianceUsage::Undefined,
            0x01 => FIDOAllianceUsage::U2FAuthenticatorDevice,
            0x20 => FIDOAllianceUsage::InputReportData,
            0x21 => FIDOAllianceUsage::OutputReportData,
            i => FIDOAllianceUsage::Reserved(i),
        }
    }

    /// The id that the usage table assigns to this usage.
    pub open spec fn to_id(self) -> u16 {
        match self {
            FIDOAllianceUsage::Undefined => 0x00,
            FIDOAllianceUsage::U2FAuthenticatorDevice => 0x01,
            FIDOAllianceUsage::InputReportData => 0x20,
            FIDOAllianceUsage::OutputReportData => 0x21,
            FIDOAllianceUsage::Reserved(i) => i,
        }
    }

    /// Every id names a usage that carries that id.
    pub proof fn lemma_id_round_trip(value: u16)
        ensures
            Self::of_id(value).to_id() == value,
    {
    }

    /// A usage that the table names is the one its own id leads back to.
    pub proof fn lemma_named_usage_round_trip(usage: FIDOAllianceUsage)
        requires
            !(usage is Reserved),
        ensures
            Self::of_id(usage.to_id()) == usage,
    {
    }

    /// The name of this usage; a reserved usage shows its id.
    pub open spec fn text(self) -> Seq<char> {
        match self {
            FIDOAllianceUsage::Undefined => "Undefined"@,
            FIDOAllianceUsage::U2FAuthenticatorDevice => "U2F Authenticator Device"@,
            FIDOAllianceUsage::InputReportData => "Input Report Data"@,
            FIDOAllianceUsage::OutputReportData => "Output Report Data"@,
            FIDOAllianceUsage::Reserved(i) => "Reserved ("@ + decimal(i as int) + ")"@,
        }
    }

    /// Returns the name of this usage.
    pub fn to_string(&self) -> (text: String)
        ensures
            text@ == self.text(),
    {
        match self {
            FIDOAllianceUsage::Undefined => "Undefined".to_owned(),
            FIDOAllianceUsage::U2FAuthenticatorDevice => "U2F Authenticator Device".to_owned(),
            FIDOAllianceUsage::InputReportData => "Input Report Data".to_owned(),
            FIDOAllianceUsage::OutputReportData => "Output Report Data".to_owned(),
            FIDOAllianceUsage::Reserved(i) => {
                let mut text = "Reserved (".to_owned();
                push_decimal(&mut text, *i as i64);
                push_str(&mut text, ")");
                text
            },
        }
    }
}

impl From<u16> for FIDOAllianceUsage {
    fn from(value: u16) -> (usage: Self) {
        match value {
            0x00 => FIDOAllianceUsage::Undefined,
            0x01 => FIDOAllianceUsage::U2FAuthenticatorDevice,
            0x20 => FIDOAllianceUsage::InputReportData,
            0x21 => FIDOAllianceUsage::OutputReportData,
            i => FIDOAllianceUsage::Reserved(i),
        }
    }
}

impl FromSpecImpl<u16> for FIDOAllianceUsage {
    open spec fn obeys_from_spec() -> bool {
        true
    }

    open spec fn from_spec(value: u16) -> Self {
        Self::of_id(value)
    }
}

impl From<FIDOAllianceUsage> for u16 {
    fn from(value: FIDOAllianceUsage) -> (id: Self) {
        match value {
            FIDOAllianceUsage::Undefined => 0x00,
            FIDOAllianceUsage::U2FAuthenticatorDevice => 0x01,
            FIDOAllianceUsage::InputReportData => 0x20,
            FIDOAllianceUsage::OutputReportData => 0x21,
            FIDOAllianceUsage::Reserved(i) => i,
        }
    }
}

impl FromSpecImpl<FIDOAllianceUsage> for u16 {
    open spec fn obeys_from_spec() -> bool {
        true
    }

    open spec fn from_spec(value: FIDOAllianceUsage) -> Self {
        value.to_id()
    }
}

impl UsageId for FIDOAllianceUsage {
    open spec fn id(self) -> u16 {
        self.to_id()
    }

    fn usage_id(self) -> (id: u16) {
        u16::from(self)
    }
}

} // verus!
