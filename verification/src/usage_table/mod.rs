//! Usage pages and usages of the HID usage tables.
//!
//! A usage page groups related controls; a usage names one control of a page.
//! Both travel as 16-bit ids. The conversions here are total: an id that the
//! tables leave open is kept as a reserved or vendor-defined value, so that no
//! id is lost.

use crate::usage_table::consumer::ConsumerUsage;
use crate::usage_table::fido::FIDOAllianceUsage;
use crate::usage_table::generic_desktop::GenericDesktopControlsUsage;
use crate::usage_table::keyboard::KeyboardUsage;
use vstd::prelude::*;
use vstd::std_specs::convert::FromSpecImpl;

pub mod consumer;
pub mod fido;
pub mod generic_desktop;
pub mod keyboard;

verus! {

/// A usage that knows its 16-bit usage id.
pub trait UsageId: Sized {
    /// The usage id of this usage.
    spec fn id(self) -> u16;

    /// Returns the usage id of this usage.
    fn usage_id(self) -> (id: u16)
        ensures
            id == self.id(),
    ;
}

/// A usage page: a group of related usages.
#[derive(Clone, Copy, Debug, PartialEq, Eq, Structural)]
pub enum UsagePage {
    Undefined,
    GenericDesktopControls,
    SimulationControls,
    VRControls,
    SportControls,
    GameControls,
    GenericDeviceControls,
    Keyboard,
    LED,
    Button,
    Ordinal,
    Telephony,
    Consumer,
    Digitizer,
    Haptics,
    PhysicalInputDevice,
    Unicode,
    EyeAndHeadTracker,
    AuxiliaryDisplay,
    Sensor,
    MedicalInstruments,
    BrailleDisplay,
    LightningAndIllumination,
    Monitor,
    MonitorEnumerated,
    VESAVirtualControls,
    Power,
    BatterySystem,
    BarcodeScanner,
    Scale,
    MagneticStripeReader,
    CameraControl,
    Arcade,
    GamingDevice,
    FIDOAlliance,
    VendorDefined(u16),
    Reserved(u16),
}

/// A usage: one control of a usage page.
///
/// Pages with a table of their own carry a usage of that table; the other
/// pages carry the bare usage id.
#[derive(Clone, Copy, Debug, PartialEq, Eq, Structural)]
pub enum Usage {
    Undefined,
    GenericDesktopControls(GenericDesktopControlsUsage),
    SimulationControls(u16),
    VRControls(u16),
    SportControls(u16),
    GameControls(u16),
    GenericDeviceControls(u16),
    Keyboard(KeyboardUsage),
    LED(u16),
    Button(u16),
    Ordinal(u16),
    Telephony(u16),
    Consumer(ConsumerUsage),
    Digitizer(u16),
    Haptics(u16),
    PhysicalInputDevice(u16),
    Unicode(u16),
    EyeAndHeadTracker(u16),
    AuxiliaryDisplay(u16),
    Sensor(u16),
    MedicalInstruments(u16),
    BrailleDisplay(u16),
    LightningAndIllumination(u16),
    Monitor(u16),
    MonitorEnumerated(u16),
    VESAVirtualControls(u16),
    Power(u16),
    BatterySystem(u16),
    BarcodeScanner(u16),
    Scale(u16),
    MagneticStripeReader(u16),
    CameraControl(u16),
    Arcade(u16),
    GamingDevice(u16),
    FIDOAlliance(FIDOAllianceUsage),
    VendorDefined(u16),
}

impl UsagePage {
    /// The first id of the vendor-defined pages.
    pub const FIRST_VENDOR_DEFINED: u16 = 0xFF00;

    /// The usage page with the id `value`: the page that the table names, a
    /// vendor-defined page from 0xFF00 on, and a reserved page otherwise.
    pub open spec fn of_id(value: u16) -> UsagePage {
        match value {
            0x00 => UsagePage::Undefined,
            0x01 => UsagePage::GenericDesktopControls,
            0x02 => UsagePage::SimulationControls,
            0x03 => UsagePage::VRControls,
            0x04 => UsagePage::SportControls,
            0x05 => UsagePage::GameControls,
            0x06 => UsagePage::GenericDeviceControls,
            0x07 => UsagePage::Keyboard,
            0x08 => UsagePage::LED,
            0x09 => UsagePage::Button,
            0x0A => UsagePage::Ordinal,
            0x0B => UsagePage::Telephony,
            0x0C => UsagePage::Consumer,
            0x0D => UsagePage::Digitizer,
            0x0E => UsagePage::Haptics,
            0x0F => UsagePage::PhysicalInputDevice,
            0x10 => UsagePage::Unicode,
            0x12 => UsagePage::EyeAndHeadTracker,
            0x14 => UsagePage::AuxiliaryDisplay,
            0x20 => UsagePage::Sensor,
            0x40 => UsagePage::MedicalInstruments,
            0x41 => UsagePage::BrailleDisplay,
            0x59 => UsagePage::LightningAndIllumination,
            0x80 => UsagePage::Monitor,
            0x81 => UsagePage::MonitorEnumerated,
            0x82 => UsagePage::VESAVirtualControls,
            0x84 => UsagePage::Power,
            0x85 => UsagePage::BatterySystem,
            0x8C => UsagePage::BarcodeScanner,
            0x8D => UsagePage::Scale,
            0x8E => UsagePage::MagneticStripeReader,
            0x90 => UsagePage::CameraControl,
            0x91 => UsagePage::Arcade,
            0x92 => UsagePage::GamingDevice,
            0xF1D0 => UsagePage::FIDOAlliance,
            i => if i >= 0xFF00 {
                UsagePage::VendorDefined(i)
            } else {
                UsagePage::Reserved(i)
            },
        }
    }

    /// The id of this usage page.
    pub open spec fn to_id(self) -> u16 {
        match self {
            UsagePage::Undefined => 0x00,
            UsagePage::GenericDesktopControls => 0x01,
            UsagePage::SimulationControls => 0x02,
            UsagePage::VRControls => 0x03,
            UsagePage::SportControls => 0x04,
            UsagePage::GameControls => 0x05,
            UsagePage::GenericDeviceControls => 0x06,
            UsagePage::Keyboard => 0x07,
            UsagePage::LED => 0x08,
            UsagePage::Button => 0x09,
            UsagePage::Ordinal => 0x0A,
            UsagePage::Telephony => 0x0B,
            UsagePage::Consumer => 0x0C,
            UsagePage::Digitizer => 0x0D,
            UsagePage::Haptics => 0x0E,
            UsagePage::PhysicalInputDevice => 0x0F,
            UsagePage::Unicode => 0x10,
            UsagePage::EyeAndHeadTracker => 0x12,
            UsagePage::AuxiliaryDisplay => 0x14,
            UsagePage::Sensor => 0x20,
            UsagePage::MedicalInstruments => 0x40,
            UsagePage::BrailleDisplay => 0x41,
            UsagePage::LightningAndIllumination => 0x59,
            UsagePage::Monitor => 0x80,
            UsagePage::MonitorEnumerated => 0x81,
            UsagePage::VESAVirtualControls => 0x82,
            UsagePage::Power => 0x84,
            UsagePage::BatterySystem => 0x85,
            UsagePage::BarcodeScanner => 0x8C,
            UsagePage::Scale => 0x8D,
            UsagePage::MagneticStripeReader => 0x8E,
            UsagePage::CameraControl => 0x90,
            UsagePage::Arcade => 0x91,
            UsagePage::GamingDevice => 0x92,
            UsagePage::FIDOAlliance => 0xF1D0,
            UsagePage::VendorDefined(i) => i,
            UsagePage::Reserved(i) => i,
        }
    }

    /// Every id names a usage page that carries that id.
    pub proof fn lemma_id_round_trip(value: u16)
        ensures
            Self::of_id(value).to_id() == value,
    {
    }

    /// A usage page that the table names is the one its own id leads back to.
    pub proof fn lemma_named_page_round_trip(page: UsagePage)
        requires
            !(page is VendorDefined),
            !(page is Reserved),
        ensures
            Self::of_id(page.to_id()) == page,
    {
    }
}

impl From<u16> for UsagePage {
    fn from(value: u16) -> (page: Self) {
        match value {
            0x00 => UsagePage::Undefined,
            0x01 => UsagePage::GenericDesktopControls,
            0x02 => UsagePage::SimulationControls,
            0x03 => UsagePage::VRControls,
            0x04 => UsagePage::SportControls,
            0x05 => UsagePage::GameControls,
            0x06 => UsagePage::GenericDeviceControls,
            0x07 => UsagePage::Keyboard,
            0x08 => UsagePage::LED,
            0x09 => UsagePage::Button,
            0x0A => UsagePage::Ordinal,
            0x0B => UsagePage::Telephony,
            0x0C => UsagePage::Consumer,
            0x0D => UsagePage::Digitizer,
            0x0E => UsagePage::Haptics,
            0x0F => UsagePage::PhysicalInputDevice,
            0x10 => UsagePage::Unicode,
            0x12 => UsagePage::EyeAndHeadTracker,
            0x14 => UsagePage::AuxiliaryDisplay,
            0x20 => UsagePage::Sensor,
            0x40 => UsagePage::MedicalInstruments,
            0x41 => UsagePage::BrailleDisplay,
            0x59 => UsagePage::LightningAndIllumination,
            0x80 => UsagePage::Monitor,
            0x81 => UsagePage::MonitorEnumerated,
            0x82 => UsagePage::VESAVirtualControls,
            0x84 => UsagePage::Power,
            0x85 => UsagePage::BatterySystem,
            0x8C => UsagePage::BarcodeScanner,
            0x8D => UsagePage::Scale,
            0x8E => UsagePage::MagneticStripeReader,
            0x90 => UsagePage::CameraControl,
            0x91 => UsagePage::Arcade,
            0x92 => UsagePage::GamingDevice,
            0xF1D0 => UsagePage::FIDOAlliance,
            i => if i >= UsagePage::FIRST_VENDOR_DEFINED {
                UsagePage::VendorDefined(i)
            } else {
                UsagePage::Reserved(i)
            },
        }
    }
}

impl FromSpecImpl<u16> for UsagePage {
    open spec fn obeys_from_spec() -> bool {
        true
    }

    open spec fn from_spec(value: u16) -> Self {
        Self::of_id(value)
    }
}

impl From<UsagePage> for u16 {
    fn from(value: UsagePage) -> (id: Self) {
        match value {
            UsagePage::Undefined => 0x00,
            UsagePage::GenericDesktopControls => 0x01,
            UsagePage::SimulationControls => 0x02,
            UsagePage::VRControls => 0x03,
            UsagePage::SportControls => 0x04,
            UsagePage::GameControls => 0x05,
            UsagePage::GenericDeviceControls => 0x06,
            UsagePage::Keyboard => 0x07,
            UsagePage::LED => 0x08,
            UsagePage::Button => 0x09,
            UsagePage::Ordinal => 0x0A,
            UsagePage::Telephony => 0x0B,
            UsagePage::Consumer => 0x0C,
            UsagePage::Digitizer => 0x0D,
            UsagePage::Haptics => 0x0E,
            UsagePage::PhysicalInputDevice => 0x0F,
            UsagePage::Unicode => 0x10,
            UsagePage::EyeAndHeadTracker => 0x12,
            UsagePage::AuxiliaryDisplay => 0x14,
            UsagePage::Sensor => 0x20,
            UsagePage::MedicalInstruments => 0x40,
            UsagePage::BrailleDisplay => 0x41,
            UsagePage::LightningAndIllumination => 0x59,
            UsagePage::Monitor => 0x80,
            UsagePage::MonitorEnumerated => 0x81,
            UsagePage::VESAVirtualControls => 0x82,
            UsagePage::Power => 0x84,
            UsagePage::BatterySystem => 0x85,
            UsagePage::BarcodeScanner => 0x8C,
            UsagePage::Scale => 0x8D,
            UsagePage::MagneticStripeReader => 0x8E,
            UsagePage::CameraControl => 0x90,
            UsagePage::Arcade => 0x91,
            UsagePage::GamingDevice => 0x92,
            UsagePage::FIDOAlliance => 0xF1D0,
            UsagePage::VendorDefined(i) => i,
            UsagePage::Reserved(i) => i,
        }
    }
}

impl FromSpecImpl<UsagePage> for u16 {
    open spec fn obeys_from_spec() -> bool {
        true
    }

    open spec fn from_spec(value: UsagePage) -> Self {
        value.to_id()
    }
}

impl Default for UsagePage {
    fn default() -> (page: Self)
        ensures
            page == UsagePage::Undefined,
    {
        UsagePage::Undefined
    }
}

impl Usage {
    /// The usage with the id `id` on the page `page`.
    ///
    /// The undefined page has the undefined usage only. A reserved page has no
    /// table, so its usages are kept as vendor-defined ones.
    pub open spec fn of(page: UsagePage, id: u16) -> Usage {
        match page {
            UsagePage::Undefined => Usage::Undefined,
            UsagePage::GenericDesktopControls => Usage::GenericDesktopControls(
                GenericDesktopControlsUsage::of_id(id),
            ),
            UsagePage::SimulationControls => Usage::SimulationControls(id),
            UsagePage::VRControls => Usage::VRControls(id),
            UsagePage::SportControls => Usage::SportControls(id),
            UsagePage::GameControls => Usage::GameControls(id),
            UsagePage::GenericDeviceControls => Usage::GenericDeviceControls(id),
            UsagePage::Keyboard => Usage::Keyboard(
                KeyboardUsage::of_id(id),
            ),
            UsagePage::LED => Usage::LED(id),
            UsagePage::Button => Usage::Button(id),
            UsagePage::Ordinal => Usage::Ordinal(id),
            UsagePage::Telephony => Usage::Telephony(id),
            UsagePage::Consumer => Usage::Consumer(
                ConsumerUsage::of_id(id),
            ),
            UsagePage::Digitizer => Usage::Digitizer(id),
            UsagePage::Haptics => Usage::Haptics(id),
            UsagePage::PhysicalInputDevice => Usage::PhysicalInputDevice(id),
            UsagePage::Unicode => Usage::Unicode(id),
            UsagePage::EyeAndHeadTracker => Usage::EyeAndHeadTracker(id),
            UsagePage::AuxiliaryDisplay => Usage::AuxiliaryDisplay(id),
            UsagePage::Sensor => Usage::Sensor(id),
            UsagePage::MedicalInstruments => Usage::MedicalInstruments(id),
            UsagePage::BrailleDisplay => Usage::BrailleDisplay(id),
            UsagePage::LightningAndIllumination => Usage::LightningAndIllumination(id),
            UsagePage::Monitor => Usage::Monitor(id),
            UsagePage::MonitorEnumerated => Usage::MonitorEnumerated(id),
            UsagePage::VESAVirtualControls => Usage::VESAVirtualControls(id),
            UsagePage::Power => Usage::Power(id),
            UsagePage::BatterySystem => Usage::BatterySystem(id),
            UsagePage::BarcodeScanner => Usage::BarcodeScanner(id),
            UsagePage::Scale => Usage::Scale(id),
            UsagePage::MagneticStripeReader => Usage::MagneticStripeReader(id),
            UsagePage::CameraControl => Usage::CameraControl(id),
            UsagePage::Arcade => Usage::Arcade(id),
            UsagePage::GamingDevice => Usage::GamingDevice(id),
            UsagePage::FIDOAlliance => Usage::FIDOAlliance(
                FIDOAllianceUsage::of_id(id),
            ),
            UsagePage::VendorDefined(_) => Usage::VendorDefined(id),
            UsagePage::Reserved(_) => Usage::VendorDefined(id),
        }
    }

    /// The usage id of this usage.
    pub open spec fn to_id(self) -> u16 {
        match self {
            Usage::Undefined => 0x00,
            Usage::GenericDesktopControls(usage) => usage.to_id(),
            Usage::SimulationControls(i) => i,
            Usage::VRControls(i) => i,
            Usage::SportControls(i) => i,
            Usage::GameControls(i) => i,
            Usage::GenericDeviceControls(i) => i,
            Usage::Keyboard(usage) => usage.to_id(),
            Usage::LED(i) => i,
            Usage::Button(i) => i,
            Usage::Ordinal(i) => i,
            Usage::Telephony(i) => i,
            Usage::Consumer(usage) => usage.to_id(),
            Usage::Digitizer(i) => i,
            Usage::Haptics(i) => i,
            Usage::PhysicalInputDevice(i) => i,
            Usage::Unicode(i) => i,
            Usage::EyeAndHeadTracker(i) => i,
            Usage::AuxiliaryDisplay(i) => i,
            Usage::Sensor(i) => i,
            Usage::MedicalInstruments(i) => i,
            Usage::BrailleDisplay(i) => i,
            Usage::LightningAndIllumination(i) => i,
            Usage::Monitor(i) => i,
            Usage::MonitorEnumerated(i) => i,
            Usage::VESAVirtualControls(i) => i,
            Usage::Power(i) => i,
            Usage::BatterySystem(i) => i,
            Usage::BarcodeScanner(i) => i,
            Usage::Scale(i) => i,
            Usage::MagneticStripeReader(i) => i,
            Usage::CameraControl(i) => i,
            Usage::Arcade(i) => i,
            Usage::GamingDevice(i) => i,
            Usage::FIDOAlliance(usage) => usage.to_id(),
            Usage::VendorDefined(i) => i,
        }
    }

    /// On every page but the undefined one, the usage made from an id carries
    /// that id.
    pub proof fn lemma_id_round_trip(page: UsagePage, id: u16)
        requires
            page != UsagePage::Undefined,
        ensures
            Self::of(page, id).to_id() == id,
    {
        GenericDesktopControlsUsage::lemma_id_round_trip(id);
        KeyboardUsage::lemma_id_round_trip(id);
        ConsumerUsage::lemma_id_round_trip(id);
        FIDOAllianceUsage::lemma_id_round_trip(id);
    }
}

impl From<(&UsagePage, u16)> for Usage {
    fn from(key: (&UsagePage, u16)) -> (usage: Self) {
        match key.0 {
            UsagePage::Undefined => Usage::Undefined,
            UsagePage::GenericDesktopControls => Usage::GenericDesktopControls(
                GenericDesktopControlsUsage::from(key.1),
            ),
            UsagePage::SimulationControls => Usage::SimulationControls(key.1),
            UsagePage::VRControls => Usage::VRControls(key.1),
            UsagePage::SportControls => Usage::SportControls(key.1),
            UsagePage::GameControls => Usage::GameControls(key.1),
            UsagePage::GenericDeviceControls => Usage::GenericDeviceControls(key.1),
            UsagePage::Keyboard => Usage::Keyboard(
                KeyboardUsage::from(key.1),
            ),
            UsagePage::LED => Usage::LED(key.1),
            UsagePage::Button => Usage::Button(key.1),
            UsagePage::Ordinal => Usage::Ordinal(key.1),
            UsagePage::Telephony => Usage::Telephony(key.1),
            UsagePage::Consumer => Usage::Consumer(
                ConsumerUsage::from(key.1),
            ),
            UsagePage::Digitizer => Usage::Digitizer(key.1),
            UsagePage::Haptics => Usage::Haptics(key.1),
            UsagePage::PhysicalInputDevice => Usage::PhysicalInputDevice(key.1),
            UsagePage::Unicode => Usage::Unicode(key.1),
            UsagePage::EyeAndHeadTracker => Usage::EyeAndHeadTracker(key.1),
            UsagePage::AuxiliaryDisplay => Usage::AuxiliaryDisplay(key.1),
            UsagePage::Sensor => Usage::Sensor(key.1),
            UsagePage::MedicalInstruments => Usage::MedicalInstruments(key.1),
            UsagePage::BrailleDisplay => Usage::BrailleDisplay(key.1),
            UsagePage::LightningAndIllumination => Usage::LightningAndIllumination(key.1),
            UsagePage::Monitor => Usage::Monitor(key.1),
            UsagePage::MonitorEnumerated => Usage::MonitorEnumerated(key.1),
            UsagePage::VESAVirtualControls => Usage::VESAVirtualControls(key.1),
            UsagePage::Power => Usage::Power(key.1),
            UsagePage::BatterySystem => Usage::BatterySystem(key.1),
            UsagePage::BarcodeScanner => Usage::BarcodeScanner(key.1),
            UsagePage::Scale => Usage::Scale(key.1),
            UsagePage::MagneticStripeReader => Usage::MagneticStripeReader(key.1),
            UsagePage::CameraControl => Usage::CameraControl(key.1),
            UsagePage::Arcade => Usage::Arcade(key.1),
            UsagePage::GamingDevice => Usage::GamingDevice(key.1),
            UsagePage::FIDOAlliance => Usage::FIDOAlliance(
                FIDOAllianceUsage::from(key.1),
            ),
            UsagePage::VendorDefined(_) => Usage::VendorDefined(key.1),
            UsagePage::Reserved(_) => Usage::VendorDefined(key.1),
        }
    }
}

impl FromSpecImpl<(&UsagePage, u16)> for Usage {
    open spec fn obeys_from_spec() -> bool {
        true
    }

    open spec fn from_spec(key: (&UsagePage, u16)) -> Self {
        Self::of(*key.0, key.1)
    }
}

impl From<Usage> for u16 {
    fn from(value: Usage) -> (id: Self) {
        match value {
            Usage::Undefined => 0x00,
            Usage::GenericDesktopControls(usage) => u16::from(usage),
            Usage::SimulationControls(i) => i,
            Usage::VRControls(i) => i,
            Usage::SportControls(i) => i,
            Usage::GameControls(i) => i,
            Usage::GenericDeviceControls(i) => i,
            Usage::Keyboard(usage) => u16::from(usage),
            Usage::LED(i) => i,
            Usage::Button(i) => i,
            Usage::Ordinal(i) => i,
            Usage::Telephony(i) => i,
            Usage::Consumer(usage) => u16::from(usage),
            Usage::Digitizer(i) => i,
            Usage::Haptics(i) => i,
            Usage::PhysicalInputDevice(i) => i,
            Usage::Unicode(i) => i,
            Usage::EyeAndHeadTracker(i) => i,
            Usage::AuxiliaryDisplay(i) => i,
            Usage::Sensor(i) => i,
            Usage::MedicalInstruments(i) => i,
            Usage::BrailleDisplay(i) => i,
            Usage::LightningAndIllumination(i) => i,
            Usage::Monitor(i) => i,
            Usage::MonitorEnumerated(i) => i,
            Usage::VESAVirtualControls(i) => i,
            Usage::Power(i) => i,
            Usage::BatterySystem(i) => i,
            Usage::BarcodeScanner(i) => i,
            Usage::Scale(i) => i,
            Usage::MagneticStripeReader(i) => i,
            Usage::CameraControl(i) => i,
            Usage::Arcade(i) => i,
            Usage::GamingDevice(i) => i,
            Usage::FIDOAlliance(usage) => u16::from(usage),
            Usage::VendorDefined(i) => i,
        }
    }
}

impl FromSpecImpl<Usage> for u16 {
    open spec fn obeys_from_spec() -> bool {
        true
    }

    open spec fn from_spec(value: Usage) -> Self {
        value.to_id()
    }
}

impl Default for Usage {
    fn default() -> (usage: Self)
        ensures
            usage == Usage::Undefined,
    {
        Usage::Undefined
    }
}

impl UsageId for Usage {
    open spec fn id(self) -> u16 {
        self.to_id()
    }

    fn usage_id(self) -> (id: u16) {
        u16::from(self)
    }
}

} // verus!
