//! Usages of the Generic Desktop usage page.

use crate::display::{decimal, push_decimal, push_str};
use crate::usage_table::UsageId;
use vstd::prelude::*;
use vstd::std_specs::convert::FromSpecImpl;

verus! {

/// A usage of the Generic Desktop usage page.
#[derive(Clone, Copy, Debug, PartialEq, Eq, Structural)]
pub enum GenericDesktopControlsUsage {
    Undefined,
    Pointer,
    Mouse,
    Joystick,
    Gamepad,
    Keyboard,
    Keypad,
    MultiaxisController,
    TabletPCSystemControls,
    WaterCoolingDevice,
    ComputerChassisDevice,
    WirelessRadioControls,
    PortableDeviceControl,
    SystemMultiAxisController,
    SpatialController,
    AssistiveControl,
    DeviceDock,
    DockableDevice,
    CallStateManagementControl,
    X,
    Y,
    Z,
    Rx,
    Ry,
    Rz,
    Slider,
    Dial,
    Wheel,
    HatSwitch,
    CountedBuffer,
    ByteCount,
    MotionWakeup,
    Start,
    Select,
    Vx,
    Vy,
    Vz,
    Vbrx,
    Vbry,
    Vbrz,
    Vno,
    FeatureNotification,
    ResolutionMultiplier,
    Qx,
    Qy,
    Qz,
    Qw,
    SystemControl,
    SystemPowerDown,
    SystemSleep,
    SystemWakeUp,
    SystemContextMenu,
    SystemMainMenu,
    SystemAppMenu,
    SystemMenuHelp,
    SystemMenuExit,
    SystemMenuSelect,
    SystemMenuRight,
    SystemMenuLeft,
    SystemMenuUp,
    SystemMenuDown,
    SystemColdRestart,
    SystemWarmRestart,
    DpadUp,
    DpadDown,
    DpadRight,
    DpadLeft,
    IndexTrigger,
    PalmTrigger,
    Thumbstick,
    SystemFunctionShift,
    SystemFunctionShiftLock,
    SystemFunctionShiftLockIndicator,
    SystemDismissNotification,
    SystemDoNotDisturb,
    SystemDock,
    SystemUndock,
    SystemSetup,
    SystemBreak,
    SystemDebuggerBreak,
    ApplicationBreak,
    ApplicationDebuggerBreak,
    SystemSpeakerMute,
    SystemHibernate,
    SystemDisplayInvert,
    SystemDisplayInternal,
    SystemDisplayExternal,
    SystemDisplayBoth,
    SystemDisplayDual,
    SystemDisplayToggleIntExtMode,
    SystemDisplaySwapPrimarySecondary,
    SystemDisplayToggleLCDAutoscale,
    SensorZone,
    RPM,
    CoolantLevel,
    CoolantCriticalLevel,
    CoolantPump,
    ChassisEnclosure,
    WirelessRadioButton,
    WirelessRadioLED,
    WirelessRadioSliderSwitch,
    SystemDisplayRotationLockButton,
    SystemDisplayRotationLockSliderSwitch,
    ControlEnable,
    DockableDeviceUniqueID,
    DockableDeviceVendorID,
    DockableDevicePrimaryUsagePage,
    DockableDevicePrimaryUsageID,
    DockableDeviceDockingState,
    DockableDeviceDisplayOcclusion,
    DockableDeviceObjectType,
    CallActiveLED,
    CallMuteToggle,
    CallMuteLED,
    Reserved(u16),
}

impl GenericDesktopControlsUsage {
    /// The usage that the usage table assigns to `value`; an id that the
    /// table leaves open is kept as `Reserved`.
    pub open spec fn of_id(value: u16) -> GenericDesktopControlsUsage {
        match value {
            0x00 => GenericDesktopControlsUsage::Undefined,
            0x01 => GenericDesktopControlsUsage::Pointer,
            0x02 => GenericDesktopControlsUsage::Mouse,
            0x04 => GenericDesktopControlsUsage::Joystick,
            0x05 => GenericDesktopControlsUsage::Gamepad,
            0x06 => GenericDesktopControlsUsage::Keyboard,
            0x07 => GenericDesktopControlsUsage::Keypad,
            0x08 => GenericDesktopControlsUsage::MultiaxisController,
            0x09 => GenericDesktopControlsUsage::TabletPCSystemControls,
            0x0A => GenericDesktopControlsUsage::WaterCoolingDevice,
            0x0B => GenericDesktopControlsUsage::ComputerChassisDevice,
            0x0C => GenericDesktopControlsUsage::WirelessRadioControls,
            0x0D => GenericDesktopControlsUsage::PortableDeviceControl,
            0x0E => GenericDesktopControlsUsage::SystemMultiAxisController,
            0x0F => GenericDesktopControlsUsage::SpatialController,
            0x10 => GenericDesktopControlsUsage::AssistiveControl,
            0x11 => GenericDesktopControlsUsage::DeviceDock,
            0x12 => GenericDesktopControlsUsage::DockableDevice,
            0x13 => GenericDesktopControlsUsage::CallStateManagementControl,
            0x30 => GenericDesktopControlsUsage::X,
            0x31 => GenericDesktopControlsUsage::Y,
            0x32 => GenericDesktopControlsUsage::Z,
            0x33 => GenericDesktopControlsUsage::Rx,
            0x34 => GenericDesktopControlsUsage::Ry,
            0x35 => GenericDesktopControlsUsage::Rz,
            0x36 => GenericDesktopControlsUsage::Slider,
            0x37 => GenericDesktopControlsUsage::Dial,
            0x38 => GenericDesktopControlsUsage::Wheel,
            0x39 => GenericDesktopControlsUsage::HatSwitch,
            0x3A => GenericDesktopControlsUsage::CountedBuffer,
            0x3B => GenericDesktopControlsUsage::ByteCount,
            0x3C => GenericDesktopControlsUsage::MotionWakeup,
            0x3D => GenericDesktopControlsUsage::Start,
            0x3E => GenericDesktopControlsUsage::Select,
            0x40 => GenericDesktopControlsUsage::Vx,
            0x41 => GenericDesktopControlsUsage::Vy,
            0x42 => GenericDesktopControlsUsage::Vz,
            0x43 => GenericDesktopControlsUsage::Vbrx,
            0x44 => GenericDesktopControlsUsage::Vbry,
            0x45 => GenericDesktopControlsUsage::Vbrz,
            0x46 => GenericDesktopControlsUsage::Vno,
            0x47 => GenericDesktopControlsUsage::FeatureNotification,
            0x48 => GenericDesktopControlsUsage::ResolutionMultiplier,
            0x49 => GenericDesktopControlsUsage::Qx,
            0x4A => GenericDesktopControlsUsage::Qy,
            0x4B => GenericDesktopControlsUsage::Qz,
            0x4C => GenericDesktopControlsUsage::Qw,
            0x80 => GenericDesktopControlsUsage::SystemControl,
            0x81 => GenericDesktopControlsUsage::SystemPowerDown,
            0x82 => GenericDesktopControlsUsage::SystemSleep,
            0x83 => GenericDesktopControlsUsage::SystemWakeUp,
            0x84 => GenericDesktopControlsUsage::SystemContextMenu,
            0x85 => GenericDesktopControlsUsage::SystemMainMenu,
            0x86 => GenericDesktopControlsUsage::SystemAppMenu,
            0x87 => GenericDesktopControlsUsage::SystemMenuHelp,
            0x88 => GenericDesktopControlsUsage::SystemMenuExit,
            0x89 => GenericDesktopControlsUsage::SystemMenuSelect,
            0x8A => GenericDesktopControlsUsage::SystemMenuRight,
            0x8B => GenericDesktopControlsUsage::SystemMenuLeft,
            0x8C => GenericDesktopControlsUsage::SystemMenuUp,
            0x8D => GenericDesktopControlsUsage::SystemMenuDown,
            0x8E => GenericDesktopControlsUsage::SystemColdRestart,
            0x8F => GenericDesktopControlsUsage::SystemWarmRestart,
            0x90 => GenericDesktopControlsUsage::DpadUp,
            0x91 => GenericDesktopControlsUsage::DpadDown,
            0x92 => GenericDesktopControlsUsage::DpadRight,
            0x93 => GenericDesktopControlsUsage::DpadLeft,
            0x94 => GenericDesktopControlsUsage::IndexTrigger,
            0x95 => GenericDesktopControlsUsage::PalmTrigger,
            0x96 => GenericDesktopControlsUsage::Thumbstick,
            0x97 => GenericDesktopControlsUsage::SystemFunctionShift,
            0x98 => GenericDesktopControlsUsage::SystemFunctionShiftLock,
            0x99 => GenericDesktopControlsUsage::SystemFunctionShiftLockIndicator,
            0x9A => GenericDesktopControlsUsage::SystemDismissNotification,
            0x9B => GenericDesktopControlsUsage::SystemDoNotDisturb,
            0xA0 => GenericDesktopControlsUsage::SystemDock,
            0xA1 => GenericDesktopControlsUsage::SystemUndock,
            0xA2 => GenericDesktopControlsUsage::SystemSetup,
            0xA3 => GenericDesktopControlsUsage::SystemBreak,
            0xA4 => GenericDesktopControlsUsage::SystemDebuggerBreak,
            0xA5 => GenericDesktopControlsUsage::ApplicationBreak,
            0xA6 => GenericDesktopControlsUsage::ApplicationDebuggerBreak,
            0xA7 => GenericDesktopControlsUsage::SystemSpeakerMute,
            0xA8 => GenericDesktopControlsUsage::SystemHibernate,
            0xB0 => GenericDesktopControlsUsage::SystemDisplayInvert,
            0xB1 => GenericDesktopControlsUsage::SystemDisplayInternal,
            0xB2 => GenericDesktopControlsUsage::SystemDisplayExternal,
            0xB3 => GenericDesktopControlsUsage::SystemDisplayBoth,
            0xB4 => GenericDesktopControlsUsage::SystemDisplayDual,
            0xB5 => GenericDesktopControlsUsage::SystemDisplayToggleIntExtMode,
            0xB6 => GenericDesktopControlsUsage::SystemDisplaySwapPrimarySecondary,
            0xB7 => GenericDesktopControlsUsage::SystemDisplayToggleLCDAutoscale,
            0xC0 => GenericDesktopControlsUsage::SensorZone,
            0xC1 => GenericDesktopControlsUsage::RPM,
            0xC2 => GenericDesktopControlsUsage::CoolantLevel,
            0xC3 => GenericDesktopControlsUsage::CoolantCriticalLevel,
            0xC4 => GenericDesktopControlsUsage::CoolantPump,
            0xC5 => GenericDesktopControlsUsage::ChassisEnclosure,
            0xC6 => GenericDesktopControlsUsage::WirelessRadioButton,
            0xC7 => GenericDesktopControlsUsage::WirelessRadioLED,
            0xC8 => GenericDesktopControlsUsage::WirelessRadioSliderSwitch,
            0xC9 => GenericDesktopControlsUsage::SystemDisplayRotationLockButton,
            0xCA => GenericDesktopControlsUsage::SystemDisplayRotationLockSliderSwitch,
            0xCB => GenericDesktopControlsUsage::ControlEnable,
            0xD0 => GenericDesktopControlsUsage::DockableDeviceUniqueID,
            0xD1 => GenericDesktopControlsUsage::DockableDeviceVendorID,
            0xD2 => GenericDesktopControlsUsage::DockableDevicePrimaryUsagePage,
            0xD3 => GenericDesktopControlsUsage::DockableDevicePrimaryUsageID,
            0xD4 => GenericDesktopControlsUsage::DockableDeviceDockingState,
            0xD5 => GenericDesktopControlsUsage::DockableDeviceDisplayOcclusion,
            0xD6 => GenericDesktopControlsUsage::DockableDeviceObjectType,
            0xE0 => GenericDesktopControlsUsage::CallActiveLED,
            0xE1 => GenericDesktopControlsUsage::CallMuteToggle,
            0xE2 => GenericDesktopControlsUsage::CallMuteLED,
            i => GenericDesktopControlsUsage::Reserved(i),
        }
    }

    /// The id that the usage table assigns to this usage.
    pub open spec fn to_id(self) -> u16 {
        match self {
            GenericDesktopControlsUsage::Undefined => 0x00,
            GenericDesktopControlsUsage::Pointer => 0x01,
            GenericDesktopControlsUsage::Mouse => 0x02,
            GenericDesktopControlsUsage::Joystick => 0x04,
            GenericDesktopControlsUsage::Gamepad => 0x05,
            GenericDesktopControlsUsage::Keyboard => 0x06,
            GenericDesktopControlsUsage::Keypad => 0x07,
            GenericDesktopControlsUsage::MultiaxisController => 0x08,
            GenericDesktopControlsUsage::TabletPCSystemControls => 0x09,
            GenericDesktopControlsUsage::WaterCoolingDevice => 0x0A,
            GenericDesktopControlsUsage::ComputerChassisDevice => 0x0B,
            GenericDesktopControlsUsage::WirelessRadioControls => 0x0C,
            GenericDesktopControlsUsage::PortableDeviceControl => 0x0D,
            GenericDesktopControlsUsage::SystemMultiAxisController => 0x0E,
            GenericDesktopControlsUsage::SpatialController => 0x0F,
            GenericDesktopControlsUsage::AssistiveControl => 0x10,
            GenericDesktopControlsUsage::DeviceDock => 0x11,
            GenericDesktopControlsUsage::DockableDevice => 0x12,
            GenericDesktopControlsUsage::CallStateManagementControl => 0x13,
            GenericDesktopControlsUsage::X => 0x30,
            GenericDesktopControlsUsage::Y => 0x31,
            GenericDesktopControlsUsage::Z => 0x32,
            GenericDesktopControlsUsage::Rx => 0x33,
            GenericDesktopControlsUsage::Ry => 0x34,
            GenericDesktopControlsUsage::Rz => 0x35,
            GenericDesktopControlsUsage::Slider => 0x36,
            GenericDesktopControlsUsage::Dial => 0x37,
            GenericDesktopControlsUsage::Wheel => 0x38,
            GenericDesktopControlsUsage::HatSwitch => 0x39,
            GenericDesktopControlsUsage::CountedBuffer => 0x3A,
            GenericDesktopControlsUsage::ByteCount => 0x3B,
            GenericDesktopControlsUsage::MotionWakeup => 0x3C,
            GenericDesktopControlsUsage::Start => 0x3D,
            GenericDesktopControlsUsage::Select => 0x3E,
            GenericDesktopControlsUsage::Vx => 0x40,
            GenericDesktopControlsUsage::Vy => 0x41,
            GenericDesktopControlsUsage::Vz => 0x42,
            GenericDesktopControlsUsage::Vbrx => 0x43,
            GenericDesktopControlsUsage::Vbry => 0x44,
            GenericDesktopControlsUsage::Vbrz => 0x45,
            GenericDesktopControlsUsage::Vno => 0x46,
            GenericDesktopControlsUsage::FeatureNotification => 0x47,
            GenericDesktopControlsUsage::ResolutionMultiplier => 0x48,
            GenericDesktopControlsUsage::Qx => 0x49,
            GenericDesktopControlsUsage::Qy => 0x4A,
            GenericDesktopControlsUsage::Qz => 0x4B,
            GenericDesktopControlsUsage::Qw => 0x4C,
            GenericDesktopControlsUsage::SystemControl => 0x80,
            GenericDesktopControlsUsage::SystemPowerDown => 0x81,
            GenericDesktopControlsUsage::SystemSleep => 0x82,
            GenericDesktopControlsUsage::SystemWakeUp => 0x83,
            GenericDesktopControlsUsage::SystemContextMenu => 0x84,
            GenericDesktopControlsUsage::SystemMainMenu => 0x85,
            GenericDesktopControlsUsage::SystemAppMenu => 0x86,
            GenericDesktopControlsUsage::SystemMenuHelp => 0x87,
            GenericDesktopControlsUsage::SystemMenuExit => 0x88,
            GenericDesktopControlsUsage::SystemMenuSelect => 0x89,
            GenericDesktopControlsUsage::SystemMenuRight => 0x8A,
            GenericDesktopControlsUsage::SystemMenuLeft => 0x8B,
            GenericDesktopControlsUsage::SystemMenuUp => 0x8C,
            GenericDesktopControlsUsage::SystemMenuDown => 0x8D,
            GenericDesktopControlsUsage::SystemColdRestart => 0x8E,
            GenericDesktopControlsUsage::SystemWarmRestart => 0x8F,
            GenericDesktopControlsUsage::DpadUp => 0x90,
            GenericDesktopControlsUsage::DpadDown => 0x91,
            GenericDesktopControlsUsage::DpadRight => 0x92,
            GenericDesktopControlsUsage::DpadLeft => 0x93,
            GenericDesktopControlsUsage::IndexTrigger => 0x94,
            GenericDesktopControlsUsage::PalmTrigger => 0x95,
            GenericDesktopControlsUsage::Thumbstick => 0x96,
            GenericDesktopControlsUsage::SystemFunctionShift => 0x97,
            GenericDesktopControlsUsage::SystemFunctionShiftLock => 0x98,
            GenericDesktopControlsUsage::SystemFunctionShiftLockIndicator => 0x99,
            GenericDesktopControlsUsage::SystemDismissNotification => 0x9A,
            GenericDesktopControlsUsage::SystemDoNotDisturb => 0x9B,
            GenericDesktopControlsUsage::SystemDock => 0xA0,
            GenericDesktopControlsUsage::SystemUndock => 0xA1,
            GenericDesktopControlsUsage::SystemSetup => 0xA2,
            GenericDesktopControlsUsage::SystemBreak => 0xA3,
            GenericDesktopControlsUsage::SystemDebuggerBreak => 0xA4,
            GenericDesktopControlsUsage::ApplicationBreak => 0xA5,
            GenericDesktopControlsUsage::ApplicationDebuggerBreak => 0xA6,
            GenericDesktopControlsUsage::SystemSpeakerMute => 0xA7,
            GenericDesktopControlsUsage::SystemHibernate => 0xA8,
            GenericDesktopControlsUsage::SystemDisplayInvert => 0xB0,
            GenericDesktopControlsUsage::SystemDisplayInternal => 0xB1,
            GenericDesktopControlsUsage::SystemDisplayExternal => 0xB2,
            GenericDesktopControlsUsage::SystemDisplayBoth => 0xB3,
            GenericDesktopControlsUsage::SystemDisplayDual => 0xB4,
            GenericDesktopControlsUsage::SystemDisplayToggleIntExtMode => 0xB5,
            GenericDesktopControlsUsage::SystemDisplaySwapPrimarySecondary => 0xB6,
            GenericDesktopControlsUsage::SystemDisplayToggleLCDAutoscale => 0xB7,
            GenericDesktopControlsUsage::SensorZone => 0xC0,
            GenericDesktopControlsUsage::RPM => 0xC1,
            GenericDesktopControlsUsage::CoolantLevel => 0xC2,
            GenericDesktopControlsUsage::CoolantCriticalLevel => 0xC3,
            GenericDesktopControlsUsage::CoolantPump => 0xC4,
            GenericDesktopControlsUsage::ChassisEnclosure => 0xC5,
            GenericDesktopControlsUsage::WirelessRadioButton => 0xC6,
            GenericDesktopControlsUsage::WirelessRadioLED => 0xC7,
            GenericDesktopControlsUsage::WirelessRadioSliderSwitch => 0xC8,
            GenericDesktopControlsUsage::SystemDisplayRotationLockButton => 0xC9,
            GenericDesktopControlsUsage::SystemDisplayRotationLockSliderSwitch => 0xCA,
            GenericDesktopControlsUsage::ControlEnable => 0xCB,
            GenericDesktopControlsUsage::DockableDeviceUniqueID => 0xD0,
            GenericDesktopControlsUsage::DockableDeviceVendorID => 0xD1,
            GenericDesktopControlsUsage::DockableDevicePrimaryUsagePage => 0xD2,
            GenericDesktopControlsUsage::DockableDevicePrimaryUsageID => 0xD3,
            GenericDesktopControlsUsage::DockableDeviceDockingState => 0xD4,
            GenericDesktopControlsUsage::DockableDeviceDisplayOcclusion => 0xD5,
            GenericDesktopControlsUsage::DockableDeviceObjectType => 0xD6,
            GenericDesktopControlsUsage::CallActiveLED => 0xE0,
            GenericDesktopControlsUsage::CallMuteToggle => 0xE1,
            GenericDesktopControlsUsage::CallMuteLED => 0xE2,
            GenericDesktopControlsUsage::Reserved(i) => i,
        }
    }

    /// Every id names a usage that carries that id.
    pub proof fn lemma_id_round_trip(value: u16)
        ensures
            Self::of_id(value).to_id() == value,
    {
    }

    /// A usage that the table names is the one its own id leads back to.
    pub proof fn lemma_named_usage_round_trip(usage: GenericDesktopControlsUsage)
        requires
            !(usage is Reserved),
        ensures
            Self::of_id(usage.to_id()) == usage,
    {
    }

    /// The name of this usage; a reserved usage shows its id.
    pub open spec fn text(self) -> Seq<char> {
        match self {
            GenericDesktopControlsUsage::Undefined => "Undefined"@,
            GenericDesktopControlsUsage::Pointer => "Pointer"@,
            GenericDesktopControlsUsage::Mouse => "Mouse"@,
            GenericDesktopControlsUsage::Joystick => "Joystick"@,
            GenericDesktopControlsUsage::Gamepad => "Gamepad"@,
            GenericDesktopControlsUsage::Keyboard => "Keyboard"@,
            GenericDesktopControlsUsage::Keypad => "Keypad"@,
            GenericDesktopControlsUsage::MultiaxisController => "Multi-axis Controller"@,
            GenericDesktopControlsUsage::TabletPCSystemControls => "Tablet PC System Controls"@,
            GenericDesktopControlsUsage::WaterCoolingDevice => "Water Cooling Device"@,
            GenericDesktopControlsUsage::ComputerChassisDevice => "Computer Chassis Device"@,
            GenericDesktopControlsUsage::WirelessRadioControls => "Wireless Radio Controls"@,
            GenericDesktopControlsUsage::PortableDeviceControl => "Portable Device Control"@,
            GenericDesktopControlsUsage::SystemMultiAxisController => "System Multi Axis Controller"@,
            GenericDesktopControlsUsage::SpatialController => "Spatial Controller"@,
            GenericDesktopControlsUsage::AssistiveControl => "Assistive Control"@,
            GenericDesktopControlsUsage::DeviceDock => "Device Dock"@,
            GenericDesktopControlsUsage::DockableDevice => "Dockable Device"@,
            GenericDesktopControlsUsage::CallStateManagementControl => "Call State Management Control"@,
            GenericDesktopControlsUsage::X => "X"@,
            GenericDesktopControlsUsage::Y => "Y"@,
            GenericDesktopControlsUsage::Z => "Z"@,
            GenericDesktopControlsUsage::Rx => "Rx"@,
            GenericDesktopControlsUsage::Ry => "Ry"@,
            GenericDesktopControlsUsage::Rz => "Rz"@,
            GenericDesktopControlsUsage::Slider => "Slider"@,
            GenericDesktopControlsUsage::Dial => "Dial"@,
            GenericDesktopControlsUsage::Wheel => "Wheel"@,
            GenericDesktopControlsUsage::HatSwitch => "Hat Switch"@,
            GenericDesktopControlsUsage::CountedBuffer => "Counted Buffer"@,
            GenericDesktopControlsUsage::ByteCount => "Byte Count"@,
            GenericDesktopControlsUsage::MotionWakeup => "Motion Wakeup"@,
            GenericDesktopControlsUsage::Start => "Start"@,
            GenericDesktopControlsUsage::Select => "Select"@,
            GenericDesktopControlsUsage::Vx => "Vx"@,
            GenericDesktopControlsUsage::Vy => "Vy"@,
            GenericDesktopControlsUsage::Vz => "Vz"@,
            GenericDesktopControlsUsage::Vbrx => "Vbrx"@,
            GenericDesktopControlsUsage::Vbry => "Vbry"@,
            GenericDesktopControlsUsage::Vbrz => "Vbrz"@,
            GenericDesktopControlsUsage::Vno => "Vno"@,
            GenericDesktopControlsUsage::FeatureNotification => "Feature Notification"@,
            GenericDesktopControlsUsage::ResolutionMultiplier => "Resolution Multiplier"@,
            GenericDesktopControlsUsage::Qx => "Qx"@,
            GenericDesktopControlsUsage::Qy => "Qy"@,
            GenericDesktopControlsUsage::Qz => "Qz"@,
            GenericDesktopControlsUsage::Qw => "Qw"@,
            GenericDesktopControlsUsage::SystemControl => "System Control"@,
            GenericDesktopControlsUsage::SystemPowerDown => "System PowerDown"@,
            GenericDesktopControlsUsage::SystemSleep => "System Sleep"@,
            GenericDesktopControlsUsage::SystemWakeUp => "System WakeUp"@,
            GenericDesktopControlsUsage::SystemContextMenu => "System Context Menu"@,
            GenericDesktopControlsUsage::SystemMainMenu => "System Main Menu"@,
            GenericDesktopControlsUsage::SystemAppMenu => "System App Menu"@,
            GenericDesktopControlsUsage::SystemMenuHelp => "System Menu Help"@,
            GenericDesktopControlsUsage::SystemMenuExit => "System Menu Exit"@,
            GenericDesktopControlsUsage::SystemMenuSelect => "System Menu Select"@,
            GenericDesktopControlsUsage::SystemMenuRight => "System Menu Right"@,
            GenericDesktopControlsUsage::SystemMenuLeft => "System Menu Left"@,
            GenericDesktopControlsUsage::SystemMenuUp => "System Menu Up"@,
            GenericDesktopControlsUsage::SystemMenuDown => "System Menu Down"@,
            GenericDesktopControlsUsage::SystemColdRestart => "System Cold Restart"@,
            GenericDesktopControlsUsage::SystemWarmRestart => "System Warm Restart"@,
            GenericDesktopControlsUsage::DpadUp => "D-pad Up"@,
            GenericDesktopControlsUsage::DpadDown => "D-pad Down"@,
            GenericDesktopControlsUsage::DpadRight => "D-pad Right"@,
            GenericDesktopControlsUsage::DpadLeft => "D-padL eft"@,
            GenericDesktopControlsUsage::IndexTrigger => "Index Trigger"@,
            GenericDesktopControlsUsage::PalmTrigger => "Palm Trigger"@,
            GenericDesktopControlsUsage::Thumbstick => "Thumbstick"@,
            GenericDesktopControlsUsage::SystemFunctionShift => "System Function Shift"@,
            GenericDesktopControlsUsage::SystemFunctionShiftLock => "System Function Shift Lock"@,
            GenericDesktopControlsUsage::SystemFunctionShiftLockIndicator => "System Function Shift Lock Indicator"@,
            GenericDesktopControlsUsage::SystemDismissNotification => "System Dismiss Notification"@,
            GenericDesktopControlsUsage::SystemDoNotDisturb => "System Do Not Disturb"@,
            GenericDesktopControlsUsage::SystemDock => "System Dock"@,
            GenericDesktopControlsUsage::SystemUndock => "System Undock"@,
            GenericDesktopControlsUsage::SystemSetup => "System Setup"@,
            GenericDesktopControlsUsage::SystemBreak => "System Break"@,
            GenericDesktopControlsUsage::SystemDebuggerBreak => "System Debugger Break"@,
            GenericDesktopControlsUsage::ApplicationBreak => "Application Break"@,
            GenericDesktopControlsUsage::ApplicationDebuggerBreak => "Application Debugger Break"@,
            GenericDesktopControlsUsage::SystemSpeakerMute => "SystemSpeaker Mute"@,
            GenericDesktopControlsUsage::SystemHibernate => "System Hibernate"@,
            GenericDesktopControlsUsage::SystemDisplayInvert => "System Display Invert"@,
            GenericDesktopControlsUsage::SystemDisplayInternal => "System Display Internal"@,
            GenericDesktopControlsUsage::SystemDisplayExternal => "System Display External"@,
            GenericDesktopControlsUsage::SystemDisplayBoth => "System Display Both"@,
            GenericDesktopControlsUsage::SystemDisplayDual => "System Display Dual"@,
            GenericDesktopControlsUsage::SystemDisplayToggleIntExtMode => "System Display Toggle Int Ext Mode"@,
            GenericDesktopControlsUsage::SystemDisplaySwapPrimarySecondary => "System Display Swap Primary/Secondary"@,
            GenericDesktopControlsUsage::SystemDisplayToggleLCDAutoscale => "System Display Toggle LCD Autoscale"@,
            GenericDesktopControlsUsage::SensorZone => "Sensor Zone"@,
            GenericDesktopControlsUsage::RPM => "RPM"@,
            GenericDesktopControlsUsage::CoolantLevel => "Coolant Level"@,
            GenericDesktopControlsUsage::CoolantCriticalLevel => "Coolant Critical Level"@,
            GenericDesktopControlsUsage::CoolantPump => "Coolant Pump"@,
            GenericDesktopControlsUsage::ChassisEnclosure => "Chassis Enclosure"@,
            GenericDesktopControlsUsage::WirelessRadioButton => "Wireless Radio Button"@,
            GenericDesktopControlsUsage::WirelessRadioLED => "Wireless Radio LED"@,
            GenericDesktopControlsUsage::WirelessRadioSliderSwitch => "Wireless Radio Slider Switch"@,
            GenericDesktopControlsUsage::SystemDisplayRotationLockButton => "System Display Rotation Lock Button"@,
            GenericDesktopControlsUsage::SystemDisplayRotationLockSliderSwitch => "System Display Rotation Lock Slider Switch"@,
            GenericDesktopControlsUsage::ControlEnable => "Control Enable"@,
            GenericDesktopControlsUsage::DockableDeviceUniqueID => "Dockable Device Unique ID"@,
            GenericDesktopControlsUsage::DockableDeviceVendorID => "Dockable Device Vendor ID"@,
            GenericDesktopControlsUsage::DockableDevicePrimaryUsagePage => "Dockable Device Primary UsagePage"@,
            GenericDesktopControlsUsage::DockableDevicePrimaryUsageID => "Dockable Device Primary Usage ID"@,
            GenericDesktopControlsUsage::DockableDeviceDockingState => "Dockable Device Docking State"@,
            GenericDesktopControlsUsage::DockableDeviceDisplayOcclusion => "Dockable Device Display Occlusion"@,
            GenericDesktopControlsUsage::DockableDeviceObjectType => "Dockable Device Object Type"@,
            GenericDesktopControlsUsage::CallActiveLED => "Call Active LED"@,
            GenericDesktopControlsUsage::CallMuteToggle => "Call Mute Toggle"@,
            GenericDesktopControlsUsage::CallMuteLED => "Call Mute LED"@,
            GenericDesktopControlsUsage::Reserved(i) => "Reserved ("@ + decimal(i as int) + ")"@,
        }
    }

    /// Returns the name of this usage.
    pub fn to_string(&self) -> (text: String)
        ensures
            text@ == self.text(),
    {
        match self {
            GenericDesktopControlsUsage::Undefined => "Undefined".to_owned(),
            GenericDesktopControlsUsage::Pointer => "Pointer".to_owned(),
            GenericDesktopControlsUsage::Mouse => "Mouse".to_owned(),
            GenericDesktopControlsUsage::Joystick => "Joystick".to_owned(),
            GenericDesktopControlsUsage::Gamepad => "Gamepad".to_owned(),
            GenericDesktopControlsUsage::Keyboard => "Keyboard".to_owned(),
            GenericDesktopControlsUsage::Keypad => "Keypad".to_owned(),
            GenericDesktopControlsUsage::MultiaxisController => "Multi-axis Controller".to_owned(),
            GenericDesktopControlsUsage::TabletPCSystemControls => "Tablet PC System Controls".to_owned(),
            GenericDesktopControlsUsage::WaterCoolingDevice => "Water Cooling Device".to_owned(),
            GenericDesktopControlsUsage::ComputerChassisDevice => "Computer Chassis Device".to_owned(),
            GenericDesktopControlsUsage::WirelessRadioControls => "Wireless Radio Controls".to_owned(),
            GenericDesktopControlsUsage::PortableDeviceControl => "Portable Device Control".to_owned(),
            GenericDesktopControlsUsage::SystemMultiAxisController => "System Multi Axis Controller".to_owned(),
            GenericDesktopControlsUsage::SpatialController => "Spatial Controller".to_owned(),
            GenericDesktopControlsUsage::AssistiveControl => "Assistive Control".to_owned(),
            GenericDesktopControlsUsage::DeviceDock => "Device Dock".to_owned(),
            GenericDesktopControlsUsage::DockableDevice => "Dockable Device".to_owned(),
            GenericDesktopControlsUsage::CallStateManagementControl => "Call State Management Control".to_owned(),
            GenericDesktopControlsUsage::X => "X".to_owned(),
            GenericDesktopControlsUsage::Y => "Y".to_owned(),
            GenericDesktopControlsUsage::Z => "Z".to_owned(),
            GenericDesktopControlsUsage::Rx => "Rx".to_owned(),
            GenericDesktopControlsUsage::Ry => "Ry".to_owned(),
            GenericDesktopControlsUsage::Rz => "Rz".to_owned(),
            GenericDesktopControlsUsage::Slider => "Slider".to_owned(),
            GenericDesktopControlsUsage::Dial => "Dial".to_owned(),
            GenericDesktopControlsUsage::Wheel => "Wheel".to_owned(),
            GenericDesktopControlsUsage::HatSwitch => "Hat Switch".to_owned(),
            GenericDesktopControlsUsage::CountedBuffer => "Counted Buffer".to_owned(),
            GenericDesktopControlsUsage::ByteCount => "Byte Count".to_owned(),
            GenericDesktopControlsUsage::MotionWakeup => "Motion Wakeup".to_owned(),
            GenericDesktopControlsUsage::Start => "Start".to_owned(),
            GenericDesktopControlsUsage::Select => "Select".to_owned(),
            GenericDesktopControlsUsage::Vx => "Vx".to_owned(),
            GenericDesktopControlsUsage::Vy => "Vy".to_owned(),
            GenericDesktopControlsUsage::Vz => "Vz".to_owned(),
            GenericDesktopControlsUsage::Vbrx => "Vbrx".to_owned(),
            GenericDesktopControlsUsage::Vbry => "Vbry".to_owned(),
            GenericDesktopControlsUsage::Vbrz => "Vbrz".to_owned(),
            GenericDesktopControlsUsage::Vno => "Vno".to_owned(),
            GenericDesktopControlsUsage::FeatureNotification => "Feature Notification".to_owned(),
            GenericDesktopControlsUsage::ResolutionMultiplier => "Resolution Multiplier".to_owned(),
            GenericDesktopControlsUsage::Qx => "Qx".to_owned(),
            GenericDesktopControlsUsage::Qy => "Qy".to_owned(),
            GenericDesktopControlsUsage::Qz => "Qz".to_owned(),
            GenericDesktopControlsUsage::Qw => "Qw".to_owned(),
            GenericDesktopControlsUsage::SystemControl => "System Control".to_owned(),
            GenericDesktopControlsUsage::SystemPowerDown => "System PowerDown".to_owned(),
            GenericDesktopControlsUsage::SystemSleep => "System Sleep".to_owned(),
            GenericDesktopControlsUsage::SystemWakeUp => "System WakeUp".to_owned(),
            GenericDesktopControlsUsage::SystemContextMenu => "System Context Menu".to_owned(),
            GenericDesktopControlsUsage::SystemMainMenu => "System Main Menu".to_owned(),
            GenericDesktopControlsUsage::SystemAppMenu => "System App Menu".to_owned(),
            GenericDesktopControlsUsage::SystemMenuHelp => "System Menu Help".to_owned(),
            GenericDesktopControlsUsage::SystemMenuExit => "System Menu Exit".to_owned(),
            GenericDesktopControlsUsage::SystemMenuSelect => "System Menu Select".to_owned(),
            GenericDesktopControlsUsage::SystemMenuRight => "System Menu Right".to_owned(),
            GenericDesktopControlsUsage::SystemMenuLeft => "System Menu Left".to_owned(),
            GenericDesktopControlsUsage::SystemMenuUp => "System Menu Up".to_owned(),
            GenericDesktopControlsUsage::SystemMenuDown => "System Menu Down".to_owned(),
            GenericDesktopControlsUsage::SystemColdRestart => "System Cold Restart".to_owned(),
            GenericDesktopControlsUsage::SystemWarmRestart => "System Warm Restart".to_owned(),
            GenericDesktopControlsUsage::DpadUp => "D-pad Up".to_owned(),
            GenericDesktopControlsUsage::DpadDown => "D-pad Down".to_owned(),
            GenericDesktopControlsUsage::DpadRight => "D-pad Right".to_owned(),
            GenericDesktopControlsUsage::DpadLeft => "D-padL eft".to_owned(),
            GenericDesktopControlsUsage::IndexTrigger => "Index Trigger".to_owned(),
            GenericDesktopControlsUsage::PalmTrigger => "Palm Trigger".to_owned(),
            GenericDesktopControlsUsage::Thumbstick => "Thumbstick".to_owned(),
            GenericDesktopControlsUsage::SystemFunctionShift => "System Function Shift".to_owned(),
            GenericDesktopControlsUsage::SystemFunctionShiftLock => "System Function Shift Lock".to_owned(),
            GenericDesktopControlsUsage::SystemFunctionShiftLockIndicator => "System Function Shift Lock Indicator".to_owned(),
            GenericDesktopControlsUsage::SystemDismissNotification => "System Dismiss Notification".to_owned(),
            GenericDesktopControlsUsage::SystemDoNotDisturb => "System Do Not Disturb".to_owned(),
            GenericDesktopControlsUsage::SystemDock => "System Dock".to_owned(),
            GenericDesktopControlsUsage::SystemUndock => "System Undock".to_owned(),
            GenericDesktopControlsUsage::SystemSetup => "System Setup".to_owned(),
            GenericDesktopControlsUsage::SystemBreak => "System Break".to_owned(),
            GenericDesktopControlsUsage::SystemDebuggerBreak => "System Debugger Break".to_owned(),
            GenericDesktopControlsUsage::ApplicationBreak => "Application Break".to_owned(),
            GenericDesktopControlsUsage::ApplicationDebuggerBreak => "Application Debugger Break".to_owned(),
            GenericDesktopControlsUsage::SystemSpeakerMute => "SystemSpeaker Mute".to_owned(),
            GenericDesktopControlsUsage::SystemHibernate => "System Hibernate".to_owned(),
            GenericDesktopControlsUsage::SystemDisplayInvert => "System Display Invert".to_owned(),
            GenericDesktopControlsUsage::SystemDisplayInternal => "System Display Internal".to_owned(),
            GenericDesktopControlsUsage::SystemDisplayExternal => "System Display External".to_owned(),
            GenericDesktopControlsUsage::SystemDisplayBoth => "System Display Both".to_owned(),
            GenericDesktopControlsUsage::SystemDisplayDual => "System Display Dual".to_owned(),
            GenericDesktopControlsUsage::SystemDisplayToggleIntExtMode => "System Display Toggle Int Ext Mode".to_owned(),
            GenericDesktopControlsUsage::SystemDisplaySwapPrimarySecondary => "System Display Swap Primary/Secondary".to_owned(),
            GenericDesktopControlsUsage::SystemDisplayToggleLCDAutoscale => "System Display Toggle LCD Autoscale".to_owned(),
            GenericDesktopControlsUsage::SensorZone => "Sensor Zone".to_owned(),
            GenericDesktopControlsUsage::RPM => "RPM".to_owned(),
            GenericDesktopControlsUsage::CoolantLevel => "Coolant Level".to_owned(),
            GenericDesktopControlsUsage::CoolantCriticalLevel => "Coolant Critical Level".to_owned(),
            GenericDesktopControlsUsage::CoolantPump => "Coolant Pump".to_owned(),
            GenericDesktopControlsUsage::ChassisEnclosure => "Chassis Enclosure".to_owned(),
            GenericDesktopControlsUsage::WirelessRadioButton => "Wireless Radio Button".to_owned(),
            GenericDesktopControlsUsage::WirelessRadioLED => "Wireless Radio LED".to_owned(),
            GenericDesktopControlsUsage::WirelessRadioSliderSwitch => "Wireless Radio Slider Switch".to_owned(),
            GenericDesktopControlsUsage::SystemDisplayRotationLockButton => "System Display Rotation Lock Button".to_owned(),
            GenericDesktopControlsUsage::SystemDisplayRotationLockSliderSwitch => "System Display Rotation Lock Slider Switch".to_owned(),
            GenericDesktopControlsUsage::ControlEnable => "Control Enable".to_owned(),
            GenericDesktopControlsUsage::DockableDeviceUniqueID => "Dockable Device Unique ID".to_owned(),
            GenericDesktopControlsUsage::DockableDeviceVendorID => "Dockable Device Vendor ID".to_owned(),
            GenericDesktopControlsUsage::DockableDevicePrimaryUsagePage => "Dockable Device Primary UsagePage".to_owned(),
            GenericDesktopControlsUsage::DockableDevicePrimaryUsageID => "Dockable Device Primary Usage ID".to_owned(),
            GenericDesktopControlsUsage::DockableDeviceDockingState => "Dockable Device Docking State".to_owned(),
            GenericDesktopControlsUsage::DockableDeviceDisplayOcclusion => "Dockable Device Display Occlusion".to_owned(),
            GenericDesktopControlsUsage::DockableDeviceObjectType => "Dockable Device Object Type".to_owned(),
            GenericDesktopControlsUsage::CallActiveLED => "Call Active LED".to_owned(),
            GenericDesktopControlsUsage::CallMuteToggle => "Call Mute Toggle".to_owned(),
            GenericDesktopControlsUsage::CallMuteLED => "Call Mute LED".to_owned(),
            GenericDesktopControlsUsage::Reserved(i) => {
                let mut text = "Reserved (".to_owned();
                push_decimal(&mut text, *i as i64);
                push_str(&mut text, ")");
                text
            },
        }
    }
}

impl From<u16> for GenericDesktopControlsUsage {
    fn from(value: u16) -> (usage: Self) {
        match value {
            0x00 => GenericDesktopControlsUsage::Undefined,
            0x01 => GenericDesktopControlsUsage::Pointer,
            0x02 => GenericDesktopControlsUsage::Mouse,
            0x04 => GenericDesktopControlsUsage::Joystick,
            0x05 => GenericDesktopControlsUsage::Gamepad,
            0x06 => GenericDesktopControlsUsage::Keyboard,
            0x07 => GenericDesktopControlsUsage::Keypad,
            0x08 => GenericDesktopControlsUsage::MultiaxisController,
            0x09 => GenericDesktopControlsUsage::TabletPCSystemControls,
            0x0A => GenericDesktopControlsUsage::WaterCoolingDevice,
            0x0B => GenericDesktopControlsUsage::ComputerChassisDevice,
            0x0C => GenericDesktopControlsUsage::WirelessRadioControls,
            0x0D => GenericDesktopControlsUsage::PortableDeviceControl,
            0x0E => GenericDesktopControlsUsage::SystemMultiAxisController,
            0x0F => GenericDesktopControlsUsage::SpatialController,
            0x10 => GenericDesktopControlsUsage::AssistiveControl,
            0x11 => GenericDesktopControlsUsage::DeviceDock,
            0x12 => GenericDesktopControlsUsage::DockableDevice,
            0x13 => GenericDesktopControlsUsage::CallStateManagementControl,
            0x30 => GenericDesktopControlsUsage::X,
            0x31 => GenericDesktopControlsUsage::Y,
            0x32 => GenericDesktopControlsUsage::Z,
            0x33 => GenericDesktopControlsUsage::Rx,
            0x34 => GenericDesktopControlsUsage::Ry,
            0x35 => GenericDesktopControlsUsage::Rz,
            0x36 => GenericDesktopControlsUsage::Slider,
            0x37 => GenericDesktopControlsUsage::Dial,
            0x38 => GenericDesktopControlsUsage::Wheel,
            0x39 => GenericDesktopControlsUsage::HatSwitch,
            0x3A => GenericDesktopControlsUsage::CountedBuffer,
            0x3B => GenericDesktopControlsUsage::ByteCount,
            0x3C => GenericDesktopControlsUsage::MotionWakeup,
            0x3D => GenericDesktopControlsUsage::Start,
            0x3E => GenericDesktopControlsUsage::Select,
            0x40 => GenericDesktopControlsUsage::Vx,
            0x41 => GenericDesktopControlsUsage::Vy,
            0x42 => GenericDesktopControlsUsage::Vz,
            0x43 => GenericDesktopControlsUsage::Vbrx,
            0x44 => GenericDesktopControlsUsage::Vbry,
            0x45 => GenericDesktopControlsUsage::Vbrz,
            0x46 => GenericDesktopControlsUsage::Vno,
            0x47 => GenericDesktopControlsUsage::FeatureNotification,
            0x48 => GenericDesktopControlsUsage::ResolutionMultiplier,
            0x49 => GenericDesktopControlsUsage::Qx,
            0x4A => GenericDesktopControlsUsage::Qy,
            0x4B => GenericDesktopControlsUsage::Qz,
            0x4C => GenericDesktopControlsUsage::Qw,
            0x80 => GenericDesktopControlsUsage::SystemControl,
            0x81 => GenericDesktopControlsUsage::SystemPowerDown,
            0x82 => GenericDesktopControlsUsage::SystemSleep,
            0x83 => GenericDesktopControlsUsage::SystemWakeUp,
            0x84 => GenericDesktopControlsUsage::SystemContextMenu,
            0x85 => GenericDesktopControlsUsage::SystemMainMenu,
            0x86 => GenericDesktopControlsUsage::SystemAppMenu,
            0x87 => GenericDesktopControlsUsage::SystemMenuHelp,
            0x88 => GenericDesktopControlsUsage::SystemMenuExit,
            0x89 => GenericDesktopControlsUsage::SystemMenuSelect,
            0x8A => GenericDesktopControlsUsage::SystemMenuRight,
            0x8B => GenericDesktopControlsUsage::SystemMenuLeft,
            0x8C => GenericDesktopControlsUsage::SystemMenuUp,
            0x8D => GenericDesktopControlsUsage::SystemMenuDown,
            0x8E => GenericDesktopControlsUsage::SystemColdRestart,
            0x8F => GenericDesktopControlsUsage::SystemWarmRestart,
            0x90 => GenericDesktopControlsUsage::DpadUp,
            0x91 => GenericDesktopControlsUsage::DpadDown,
            0x92 => GenericDesktopControlsUsage::DpadRight,
            0x93 => GenericDesktopControlsUsage::DpadLeft,
            0x94 => GenericDesktopControlsUsage::IndexTrigger,
            0x95 => GenericDesktopControlsUsage::PalmTrigger,
            0x96 => GenericDesktopControlsUsage::Thumbstick,
            0x97 => GenericDesktopControlsUsage::SystemFunctionShift,
            0x98 => GenericDesktopControlsUsage::SystemFunctionShiftLock,
            0x99 => GenericDesktopControlsUsage::SystemFunctionShiftLockIndicator,
            0x9A => GenericDesktopControlsUsage::SystemDismissNotification,
            0x9B => GenericDesktopControlsUsage::SystemDoNotDisturb,
            0xA0 => GenericDesktopControlsUsage::SystemDock,
            0xA1 => GenericDesktopControlsUsage::SystemUndock,
            0xA2 => GenericDesktopControlsUsage::SystemSetup,
            0xA3 => GenericDesktopControlsUsage::SystemBreak,
            0xA4 => GenericDesktopControlsUsage::SystemDebuggerBreak,
            0xA5 => GenericDesktopControlsUsage::ApplicationBreak,
            0xA6 => GenericDesktopControlsUsage::ApplicationDebuggerBreak,
            0xA7 => GenericDesktopControlsUsage::SystemSpeakerMute,
            0xA8 => GenericDesktopControlsUsage::SystemHibernate,
            0xB0 => GenericDesktopControlsUsage::SystemDisplayInvert,
            0xB1 => GenericDesktopControlsUsage::SystemDisplayInternal,
            0xB2 => GenericDesktopControlsUsage::SystemDisplayExternal,
            0xB3 => GenericDesktopControlsUsage::SystemDisplayBoth,
            0xB4 => GenericDesktopControlsUsage::SystemDisplayDual,
            0xB5 => GenericDesktopControlsUsage::SystemDisplayToggleIntExtMode,
            0xB6 => GenericDesktopControlsUsage::SystemDisplaySwapPrimarySecondary,
            0xB7 => GenericDesktopControlsUsage::SystemDisplayToggleLCDAutoscale,
            0xC0 => GenericDesktopControlsUsage::SensorZone,
            0xC1 => GenericDesktopControlsUsage::RPM,
            0xC2 => GenericDesktopControlsUsage::CoolantLevel,
            0xC3 => GenericDesktopControlsUsage::CoolantCriticalLevel,
            0xC4 => GenericDesktopControlsUsage::CoolantPump,
            0xC5 => GenericDesktopControlsUsage::ChassisEnclosure,
            0xC6 => GenericDesktopControlsUsage::WirelessRadioButton,
            0xC7 => GenericDesktopControlsUsage::WirelessRadioLED,
            0xC8 => GenericDesktopControlsUsage::WirelessRadioSliderSwitch,
            0xC9 => GenericDesktopControlsUsage::SystemDisplayRotationLockButton,
            0xCA => GenericDesktopControlsUsage::SystemDisplayRotationLockSliderSwitch,
            0xCB => GenericDesktopControlsUsage::ControlEnable,
            0xD0 => GenericDesktopControlsUsage::DockableDeviceUniqueID,
            0xD1 => GenericDesktopControlsUsage::DockableDeviceVendorID,
            0xD2 => GenericDesktopControlsUsage::DockableDevicePrimaryUsagePage,
            0xD3 => GenericDesktopControlsUsage::DockableDevicePrimaryUsageID,
            0xD4 => GenericDesktopControlsUsage::DockableDeviceDockingState,
            0xD5 => GenericDesktopControlsUsage::DockableDeviceDisplayOcclusion,
            0xD6 => GenericDesktopControlsUsage::DockableDeviceObjectType,
            0xE0 => GenericDesktopControlsUsage::CallActiveLED,
            0xE1 => GenericDesktopControlsUsage::CallMuteToggle,
            0xE2 => GenericDesktopControlsUsage::CallMuteLED,
            i => GenericDesktopControlsUsage::Reserved(i),
        }
    }
}

impl FromSpecImpl<u16> for GenericDesktopControlsUsage {
    open spec fn obeys_from_spec() -> bool {
        true
    }

    open spec fn from_spec(value: u16) -> Self {
        Self::of_id(value)
    }
}

impl From<GenericDesktopControlsUsage> for u16 {
    fn from(value: GenericDesktopControlsUsage) -> (id: Self) {
        match value {
            GenericDesktopControlsUsage::Undefined => 0x00,
            GenericDesktopControlsUsage::Pointer => 0x01,
            GenericDesktopControlsUsage::Mouse => 0x02,
            GenericDesktopControlsUsage::Joystick => 0x04,
            GenericDesktopControlsUsage::Gamepad => 0x05,
            GenericDesktopControlsUsage::Keyboard => 0x06,
            GenericDesktopControlsUsage::Keypad => 0x07,
            GenericDesktopControlsUsage::MultiaxisController => 0x08,
            GenericDesktopControlsUsage::TabletPCSystemControls => 0x09,
            GenericDesktopControlsUsage::WaterCoolingDevice => 0x0A,
            GenericDesktopControlsUsage::ComputerChassisDevice => 0x0B,
            GenericDesktopControlsUsage::WirelessRadioControls => 0x0C,
            GenericDesktopControlsUsage::PortableDeviceControl => 0x0D,
            GenericDesktopControlsUsage::SystemMultiAxisController => 0x0E,
            GenericDesktopControlsUsage::SpatialController => 0x0F,
            GenericDesktopControlsUsage::AssistiveControl => 0x10,
            GenericDesktopControlsUsage::DeviceDock => 0x11,
            GenericDesktopControlsUsage::DockableDevice => 0x12,
            GenericDesktopControlsUsage::CallStateManagementControl => 0x13,
            GenericDesktopControlsUsage::X => 0x30,
            GenericDesktopControlsUsage::Y => 0x31,
            GenericDesktopControlsUsage::Z => 0x32,
            GenericDesktopControlsUsage::Rx => 0x33,
            GenericDesktopControlsUsage::Ry => 0x34,
            GenericDesktopControlsUsage::Rz => 0x35,
            GenericDesktopControlsUsage::Slider => 0x36,
            GenericDesktopControlsUsage::Dial => 0x37,
            GenericDesktopControlsUsage::Wheel => 0x38,
            GenericDesktopControlsUsage::HatSwitch => 0x39,
            GenericDesktopControlsUsage::CountedBuffer => 0x3A,
            GenericDesktopControlsUsage::ByteCount => 0x3B,
            GenericDesktopControlsUsage::MotionWakeup => 0x3C,
            GenericDesktopControlsUsage::Start => 0x3D,
            GenericDesktopControlsUsage::Select => 0x3E,
            GenericDesktopControlsUsage::Vx => 0x40,
            GenericDesktopControlsUsage::Vy => 0x41,
            GenericDesktopControlsUsage::Vz => 0x42,
            GenericDesktopControlsUsage::Vbrx => 0x43,
            GenericDesktopControlsUsage::Vbry => 0x44,
            GenericDesktopControlsUsage::Vbrz => 0x45,
            GenericDesktopControlsUsage::Vno => 0x46,
            GenericDesktopControlsUsage::FeatureNotification => 0x47,
            GenericDesktopControlsUsage::ResolutionMultiplier => 0x48,
            GenericDesktopControlsUsage::Qx => 0x49,
            GenericDesktopControlsUsage::Qy => 0x4A,
            GenericDesktopControlsUsage::Qz => 0x4B,
            GenericDesktopControlsUsage::Qw => 0x4C,
            GenericDesktopControlsUsage::SystemControl => 0x80,
            GenericDesktopControlsUsage::SystemPowerDown => 0x81,
            GenericDesktopControlsUsage::SystemSleep => 0x82,
            GenericDesktopControlsUsage::SystemWakeUp => 0x83,
            GenericDesktopControlsUsage::SystemContextMenu => 0x84,
            GenericDesktopControlsUsage::SystemMainMenu => 0x85,
            GenericDesktopControlsUsage::SystemAppMenu => 0x86,
            GenericDesktopControlsUsage::SystemMenuHelp => 0x87,
            GenericDesktopControlsUsage::SystemMenuExit => 0x88,
            GenericDesktopControlsUsage::SystemMenuSelect => 0x89,
            GenericDesktopControlsUsage::SystemMenuRight => 0x8A,
            GenericDesktopControlsUsage::SystemMenuLeft => 0x8B,
            GenericDesktopControlsUsage::SystemMenuUp => 0x8C,
            GenericDesktopControlsUsage::SystemMenuDown => 0x8D,
            GenericDesktopControlsUsage::SystemColdRestart => 0x8E,
            GenericDesktopControlsUsage::SystemWarmRestart => 0x8F,
            GenericDesktopControlsUsage::DpadUp => 0x90,
            GenericDesktopControlsUsage::DpadDown => 0x91,
            GenericDesktopControlsUsage::DpadRight => 0x92,
            GenericDesktopControlsUsage::DpadLeft => 0x93,
            GenericDesktopControlsUsage::IndexTrigger => 0x94,
            GenericDesktopControlsUsage::PalmTrigger => 0x95,
            GenericDesktopControlsUsage::Thumbstick => 0x96,
            GenericDesktopControlsUsage::SystemFunctionShift => 0x97,
            GenericDesktopControlsUsage::SystemFunctionShiftLock => 0x98,
            GenericDesktopControlsUsage::SystemFunctionShiftLockIndicator => 0x99,
            GenericDesktopControlsUsage::SystemDismissNotification => 0x9A,
            GenericDesktopControlsUsage::SystemDoNotDisturb => 0x9B,
            GenericDesktopControlsUsage::SystemDock => 0xA0,
            GenericDesktopControlsUsage::SystemUndock => 0xA1,
            GenericDesktopControlsUsage::SystemSetup => 0xA2,
            GenericDesktopControlsUsage::SystemBreak => 0xA3,
            GenericDesktopControlsUsage::SystemDebuggerBreak => 0xA4,
            GenericDesktopControlsUsage::ApplicationBreak => 0xA5,
            GenericDesktopControlsUsage::ApplicationDebuggerBreak => 0xA6,
            GenericDesktopControlsUsage::SystemSpeakerMute => 0xA7,
            GenericDesktopControlsUsage::SystemHibernate => 0xA8,
            GenericDesktopControlsUsage::SystemDisplayInvert => 0xB0,
            GenericDesktopControlsUsage::SystemDisplayInternal => 0xB1,
            GenericDesktopControlsUsage::SystemDisplayExternal => 0xB2,
            GenericDesktopControlsUsage::SystemDisplayBoth => 0xB3,
            GenericDesktopControlsUsage::SystemDisplayDual => 0xB4,
            GenericDesktopControlsUsage::SystemDisplayToggleIntExtMode => 0xB5,
            GenericDesktopControlsUsage::SystemDisplaySwapPrimarySecondary => 0xB6,
            GenericDesktopControlsUsage::SystemDisplayToggleLCDAutoscale => 0xB7,
            GenericDesktopControlsUsage::SensorZone => 0xC0,
            GenericDesktopControlsUsage::RPM => 0xC1,
            GenericDesktopControlsUsage::CoolantLevel => 0xC2,
            GenericDesktopControlsUsage::CoolantCriticalLevel => 0xC3,
            GenericDesktopControlsUsage::CoolantPump => 0xC4,
            GenericDesktopControlsUsage::ChassisEnclosure => 0xC5,
            GenericDesktopControlsUsage::WirelessRadioButton => 0xC6,
            GenericDesktopControlsUsage::WirelessRadioLED => 0xC7,
            GenericDesktopControlsUsage::WirelessRadioSliderSwitch => 0xC8,
            GenericDesktopControlsUsage::SystemDisplayRotationLockButton => 0xC9,
            GenericDesktopControlsUsage::SystemDisplayRotationLockSliderSwitch => 0xCA,
            GenericDesktopControlsUsage::ControlEnable => 0xCB,
            GenericDesktopControlsUsage::DockableDeviceUniqueID => 0xD0,
            GenericDesktopControlsUsage::DockableDeviceVendorID => 0xD1,
            GenericDesktopControlsUsage::DockableDevicePrimaryUsagePage => 0xD2,
            GenericDesktopControlsUsage::DockableDevicePrimaryUsageID => 0xD3,
            GenericDesktopControlsUsage::DockableDeviceDockingState => 0xD4,
            GenericDesktopControlsUsage::DockableDeviceDisplayOcclusion => 0xD5,
            GenericDesktopControlsUsage::DockableDeviceObjectType => 0xD6,
            GenericDesktopControlsUsage::CallActiveLED => 0xE0,
            GenericDesktopControlsUsage::CallMuteToggle => 0xE1,
            GenericDesktopControlsUsage::CallMuteLED => 0xE2,
            GenericDesktopControlsUsage::Reserved(i) => i,
        }
    }
}

impl FromSpecImpl<GenericDesktopControlsUsage> for u16 {
    open spec fn obeys_from_spec() -> bool {
        true
    }

    open spec fn from_spec(value: GenericDesktopControlsUsage) -> Self {
        value.to_id()
    }
}

impl UsageId for GenericDesktopControlsUsage {
    open spec fn id(self) -> u16 {
        self.to_id()
    }

    fn usage_id(self) -> (id: u16) {
        u16::from(self)
    }
}

} // verus!
