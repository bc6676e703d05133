//! Usages of the Consumer usage page.

use crate::display::{decimal, push_decimal, push_str};
use crate::usage_table::UsageId;
use vstd::prelude::*;
use vstd::std_specs::convert::FromSpecImpl;

verus! {

/// A usage of the Consumer usage page.
#[derive(Clone, Copy, Debug, PartialEq, Eq, Structural)]
pub enum ConsumerUsage {
    Undefined,
    ConsumerControl,
    NumericKeyPad,
    ProgrammableButtons,
    Microphone,
    Headphone,
    GraphicEqualizer,
    Plus10,
    Plus100,
    AmPm,
    Power,
    Reset,
    Sleep,
    SleepAfter,
    SleepMode,
    Illumination,
    FunctionButtons,
    Menu,
    MenuPick,
    MenuUp,
    MenuDown,
    MenuLeft,
    MenuRight,
    MenuEscape,
    MenuValueIncrease,
    MenuValueDecrease,
    DataOnScreen,
    ClosedCaption,
    ClosedCaptionSelect,
    VcrTv,
    BroadcastMode,
    Snapshot,
    Still,
    PictureInPictureToggle,
    PictureInPictureSwap,
    RedMenuButton,
    GreenMenuButton,
    BlueMenuButton,
    YellowMenuButton,
    Aspect,
    Mode3DSelect,
    DisplayBrightnessIncrement,
    DisplayBrightnessDecrement,
    DisplayBrightness,
    DisplayBacklightToggle,
    DisplaySetBrightnessToMinimum,
    DisplaySetBrightnessToMaximum,
    DisplaySetAutoBrightness,
    CameraAccessEnabled,
    CameraAccessDisabled,
    CameraAccessToggle,
    KeyboardBrightnessIncrement,
    KeyboardBrightnessDecrement,
    KeyboardBacklightSetLevel,
    KeyboardBacklightOOC,
    KeyboardBacklightSetMinimum,
    KeyboardBacklightSetMaximum,
    KeyboardBacklightAuto,
    Selection,
    AssignSelection,
    ModeStep,
    RecallLast,
    EnterChannel,
    OrderMovie,
    Channel,
    MediaSelection,
    MediaSelectComputer,
    MediaSelectTV,
    MediaSelectWWW,
    MediaSelectDVD,
    MediaSelectTelephone,
    MediaSelectProgramGuide,
    MediaSelectVideoPhone,
    MediaSelectGames,
    MediaSelectMessages,
    MediaSelectCD,
    MediaSelectVCR,
    MediaSelectTuner,
    Quit,
    Help,
    MediaSelectTape,
    MediaSelectCable,
    MediaSelectSatellite,
    MediaSelectSecurity,
    MediaSelectHome,
    MediaSelectCall,
    ChannelIncrement,
    ChannelDecrement,
    MediaSelectSAP,
    VCRPlus,
    Once,
    Daily,
    Weekly,
    Monthly,
    Play,
    Pause,
    Record,
    FastForward,
    Rewind,
    ScanNextTrack,
    ScanPreviousTrack,
    Stop,
    Eject,
    RandomPlay,
    SelectDisc,
    EnterDisc,
    Repeat,
    Tracking,
    TrackNormal,
    SlowTracking,
    FrameForward,
    FrameBack,
    Mark,
    ClearMark,
    RepeatFromMark,
    ReturnToMark,
    SearchMarkForward,
    SearchMarkBackwards,
    CounterReset,
    ShowCounter,
    TrackingIncrement,
    TrackingDecrement,
    StopEject,
    PlayPause,
    PlaySkip,
    VoiceCommand,
    InvokeCaptureInterface,
    StartOrStopGameRecording,
    HistoricalGameCapture,
    CaptureGameScreenshot,
    ShowOrHideRecordingIndicator,
    StartOrStopMicrophoneCapture,
    StartOrStopCameraCapture,
    StartOrStopGameBroadcast,
    StartOrStopVoiceDictationSession,
    InvokeDismissEmojiPicker,
    Volume,
    Balance,
    Mute,
    Bass,
    Treble,
    BassBoost,
    SurroundMode,
    Loudness,
    MPX,
    VolumeIncrement,
    VolumeDecrement,
    SpeedSelect,
    PlaybackSpeed,
    StandardPlay,
    LongPlay,
    ExtendedPlay,
    Slow,
    FanEnable,
    FanSpeed,
    LightEnable,
    LightIlluminationLevel,
    ClimateControlEnable,
    RoomTemperature,
    SecurityEnable,
    FireAlarm,
    PoliceAlarm,
    Proximity,
    Motion,
    DuressAlarm,
    HoldupAlarm,
    MedicalAlarm,
    BalanceRight,
    BalanceLeft,
    BassIncrement,
    BassDecrement,
    TrebleIncrement,
    TrebleDecrement,
    SpeakerSystem,
    ChannelLeft,
    ChannelRight,
    ChannelCenter,
    ChannelFront,
    ChannelCenterFront,
    ChannelSide,
    ChannelSurround,
    ChannelLowFrequencyEnhancement,
    ChannelTop,
    ChannelUnknown,
    SubChannel,
    SubChannelIncrement,
    SubChannelDecrement,
    AlternateAudioIncrement,
    AlternateAudioDecrement,
    ApplicationLaunchButtons,
    ALLaunchButtonConfigurationTool,
    ALProgrammableButtonConfiguration,
    ALConsumerControlConfiguration,
    ALWordProcessor,
    ALTextEditor,
    ALSpreadsheet,
    ALGraphicsEditor,
    ALPresentationApp,
    ALDatabaseApp,
    ALEmailReader,
    ALNewsreader,
    ALVoicemail,
    ALContactsAddressBook,
    ALCalendarSchedule,
    ALTaskProjectManager,
    ALLogJournalTimecard,
    ALCheckbookFinance,
    ALCalculator,
    ALAVCapturePlayback,
    ALLocalMachineBrowser,
    ALLANWANBrowser,
    ALInternetBrowser,
    ALRemoteNetworkingISPConnect,
    ALNetworkConference,
    ALNetworkChat,
    ALTelephonyDialer,
    ALLogon,
    ALLogoff,
    ALLogonLogoff,
    ALTerminalLockScreensaver,
    ALControlPanel,
    ALCommandLineProcessorRun,
    ALProcessTaskManager,
    ALSelectTaskApplication,
    ALNextTaskApplication,
    ALPreviousTaskApplication,
    ALPreemptiveHaltTaskApplication,
    ALIntegratedHelpCenter,
    ALDocuments,
    ALThesaurus,
    ALDictionary,
    ALDesktop,
    ALSpellCheck,
    ALGrammarCheck,
    ALWirelessStatus,
    ALKeyboardLayout,
    ALVirusProtection,
    ALEncryption,
    ALScreenSaver,
    ALAlarms,
    ALClock,
    ALFileBrowser,
    ALPowerStatus,
    ALImageBrowser,
    ALAudioBrowser,
    ALMovieBrowser,
    ALDigitalRightsManager,
    ALDigitalWallet,
    ALInstantMessaging,
    ALOEMFeaturesTipsTutorialBrowser,
    ALOEMHelp,
    ALOnlineCommunity,
    ALEntertainmentContentBrowser,
    ALOnlineShoppingBrowser,
    ALSmartCardInformationHelp,
    ALMarketMonitorFinanceBrowser,
    ALCustomizedCorporateNewsBrowser,
    ALOnlineActivityBrowser,
    ALResearchSearchBrowser,
    ALAudioPlayer,
    ALMessageStatus,
    ALContactSync,
    ALNavigation,
    ALContextawareDesktopAssistant,
    GenericGUIApplicationControls,
    ACNew,
    ACOpen,
    ACClose,
    ACExit,
    ACMaximize,
    ACMinimize,
    ACSave,
    ACPrint,
    ACProperties,
    ACUndo,
    ACCopy,
    ACCut,
    ACPaste,
    ACSelectAll,
    ACFind,
    ACFindAndReplace,
    ACSearch,
    ACGoTo,
    ACHome,
    ACBack,
    ACForward,
    ACStop,
    ACRefresh,
    ACPreviousLink,
    ACNextLink,
    ACBookmarks,
    ACHistory,
    ACSubscriptions,
    ACZoomIn,
    ACZoomOut,
    ACZoom,
    ACFullScreenView,
    ACNormalView,
    ACViewToggle,
    ACScrollUp,
    ACScrollDown,
    ACScroll,
    ACPanLeft,
    ACPanRight,
    ACPan,
    ACNewWindow,
    ACTileHorizontally,
    ACTileVertically,
    ACFormat,
    ACEdit,
    ACBold,
    ACItalics,
    ACUnderline,
    ACStrikethrough,
    ACSubscript,
    ACSuperscript,
    ACAllCaps,
    ACRotate,
    ACResize,
    ACFlipHorizontal,
    ACFlipVertical,
    ACMirrorHorizontal,
    ACMirrorVertical,
    ACFontSelect,
    ACFontColor,
    ACFontSize,
    ACJustifyLeft,
    ACJustifyCenterH,
    ACJustifyRight,
    ACJustifyBlockH,
    ACJustifyTop,
    ACJustifyCenterV,
    ACJustifyBottom,
    ACJustifyBlockV,
    ACIndentDecrease,
    ACIndentIncrease,
    ACNumberedList,
    ACRestartNumbering,
    ACBulletedList,
    ACPromote,
    ACDemote,
    ACYes,
    ACNo,
    ACCancel,
    ACCatalog,
    ACBuyCheckout,
    ACAddToCart,
    ACExpand,
    ACExpandAll,
    ACCollapse,
    ACCollapseAll,
    ACPrintPreview,
    ACPasteSpecial,
    ACInsertMode,
    ACDelete,
    ACLock,
    ACUnlock,
    ACProtect,
    ACUnprotect,
    ACAttachComment,
    ACDeleteComment,
    ACViewComment,
    ACSelectWord,
    ACSelectSentence,
    ACSelectParagraph,
    ACSelectColumn,
    ACSelectRow,
    ACSelectTable,
    ACSelectObject,
    ACRedoRepeat,
    ACSort,
    ACSortAscending,
    ACSortDescending,
    ACFilter,
    ACSetClock,
    ACViewClock,
    ACSelectTimeZone,
    ACEditTimeZones,
    ACSetAlarm,
    ACClearAlarm,
    ACSnoozeAlarm,
    ACResetAlarm,
    ACSynchronize,
    ACSendReceive,
    ACSendTo,
    ACReply,
    ACReplyAll,
    ACForwardMsg,
    ACSend,
    ACAttachFile,
    ACUpload,
    ACDownloadSaveTargetAs,
    ACSetBorders,
    ACInsertRow,
    ACInsertColumn,
    ACInsertFile,
    ACInsertPicture,
    ACInsertObject,
    ACInsertSymbol,
    ACSaveAndClose,
    ACRename,
    ACMerge,
    ACSplit,
    ACDistributeHorizontally,
    ACDistributeVertically,
    ACNextKeyboardLayoutSelect,
    ACNavigationGuidance,
    ACDesktopShowAllWindows,
    ACSoftKeyLeft,
    ACSoftKeyRight,
    ACDesktopShowAllApplications,
    ACIdleKeepAlive,
    ExtendedKeyboardAttributesCollection,
    KeyboardFormFactor,
    KeyboardKeyType,
    KeyboardPhysicalLayout,
    VendorSpecificKeyboardPhysicalLayout,
    KeyboardIETFLanguageTagIndex,
    ImplementedKeyboardInputAssistControls,
    KeyboardInputAssistPrevious,
    KeyboardInputAssistNext,
    KeyboardInputAssistPreviousGroup,
    KeyboardInputAssistNextGroup,
    KeyboardInputAssistAccept,
    KeyboardInputAssistCancel,
    PrivacyScreenToggle,
    PrivacyScreenLevelDecrement,
    PrivacyScreenLevelIncrement,
    PrivacyScreenLevelMinimum,
    PrivacyScreenLevelMaximum,
    ContactEdited,
    ContactAdded,
    ContactRecordActive,
    ContactIndex,
    ContactNickname,
    ContactFirstName,
    ContactLastName,
    ContactFullName,
    ContactPhoneNumberPersonal,
    ContactPhoneNumberBusiness,
    ContactPhoneNumberMobile,
    ContactPhoneNumberPager,
    ContactPhoneNumberFax,
    ContactPhoneNumberOther,
    ContactEmailPersonal,
    ContactEmailBusiness,
    ContactEmailOther,
    ContactEmailMain,
    ContactSpeedDialNumber,
    ContactStatusFlag,
    ContactMisc,
    Reserved(u16),
}

impl ConsumerUsage {
    /// The usage that the usage table assigns to `value`; an id that the
    /// table leaves open is kept as `Reserved`.
    pub open spec fn of_id(value: u16) -> ConsumerUsage {
        match value {
            0x00 => ConsumerUsage::Undefined,
            0x01 => ConsumerUsage::ConsumerControl,
            0x02 => ConsumerUsage::NumericKeyPad,
            0x03 => ConsumerUsage::ProgrammableButtons,
            0x04 => ConsumerUsage::Microphone,
            0x05 => ConsumerUsage::Headphone,
            0x06 => ConsumerUsage::GraphicEqualizer,
            0x20 => ConsumerUsage::Plus10,
            0x21 => ConsumerUsage::Plus100,
            0x22 => ConsumerUsage::AmPm,
            0x30 => ConsumerUsage::Power,
            0x31 => ConsumerUsage::Reset,
            0x32 => ConsumerUsage::Sleep,
            0x33 => ConsumerUsage::SleepAfter,
            0x34 => ConsumerUsage::SleepMode,
            0x35 => ConsumerUsage::Illumination,
            0x36 => ConsumerUsage::FunctionButtons,
            0x40 => ConsumerUsage::Menu,
            0x41 => ConsumerUsage::MenuPick,
            0x42 => ConsumerUsage::MenuUp,
            0x43 => ConsumerUsage::MenuDown,
            0x44 => ConsumerUsage::MenuLeft,
            0x45 => ConsumerUsage::MenuRight,
            0x46 => ConsumerUsage::MenuEscape,
            0x47 => ConsumerUsage::MenuValueIncrease,
            0x48 => ConsumerUsage::MenuValueDecrease,
            0x60 => ConsumerUsage::DataOnScreen,
            0x61 => ConsumerUsage::ClosedCaption,
            0x62 => ConsumerUsage::ClosedCaptionSelect,
            0x63 => ConsumerUsage::VcrTv,
            0x64 => ConsumerUsage::BroadcastMode,
            0x65 => ConsumerUsage::Snapshot,
            0x66 => ConsumerUsage::Still,
            0x67 => ConsumerUsage::PictureInPictureToggle,
            0x68 => ConsumerUsage::PictureInPictureSwap,
            0x69 => ConsumerUsage::RedMenuButton,
            0x6A => ConsumerUsage::GreenMenuButton,
            0x6B => ConsumerUsage::BlueMenuButton,
            0x6C => ConsumerUsage::YellowMenuButton,
            0x6D => ConsumerUsage::Aspect,
            0x6E => ConsumerUsage::Mode3DSelect,
            0x6F => ConsumerUsage::DisplayBrightnessIncrement,
            0x70 => ConsumerUsage::DisplayBrightnessDecrement,
            0x71 => ConsumerUsage::DisplayBrightness,
            0x72 => ConsumerUsage::DisplayBacklightToggle,
            0x73 => ConsumerUsage::DisplaySetBrightnessToMinimum,
            0x74 => ConsumerUsage::DisplaySetBrightnessToMaximum,
            0x75 => ConsumerUsage::DisplaySetAutoBrightness,
            0x76 => ConsumerUsage::CameraAccessEnabled,
            0x77 => ConsumerUsage::CameraAccessDisabled,
            0x78 => ConsumerUsage::CameraAccessToggle,
            0x79 => ConsumerUsage::KeyboardBrightnessIncrement,
            0x7A => ConsumerUsage::KeyboardBrightnessDecrement,
            0x7B => ConsumerUsage::KeyboardBacklightSetLevel,
            0x7C => ConsumerUsage::KeyboardBacklightOOC,
            0x7D => ConsumerUsage::KeyboardBacklightSetMinimum,
            0x7E => ConsumerUsage::KeyboardBacklightSetMaximum,
            0x7F => ConsumerUsage::KeyboardBacklightAuto,
            0x80 => ConsumerUsage::Selection,
            0x81 => ConsumerUsage::AssignSelection,
            0x82 => ConsumerUsage::ModeStep,
            0x83 => ConsumerUsage::RecallLast,
            0x84 => ConsumerUsage::EnterChannel,
            0x85 => ConsumerUsage::OrderMovie,
            0x86 => ConsumerUsage::Channel,
            0x87 => ConsumerUsage::MediaSelection,
            0x88 => ConsumerUsage::MediaSelectComputer,
            0x89 => ConsumerUsage::MediaSelectTV,
            0x8A => ConsumerUsage::MediaSelectWWW,
            0x8B => ConsumerUsage::MediaSelectDVD,
            0x8C => ConsumerUsage::MediaSelectTelephone,
            0x8D => ConsumerUsage::MediaSelectProgramGuide,
            0x8E => ConsumerUsage::MediaSelectVideoPhone,
            0x8F => ConsumerUsage::MediaSelectGames,
            0x90 => ConsumerUsage::MediaSelectMessages,
            0x91 => ConsumerUsage::MediaSelectCD,
            0x92 => ConsumerUsage::MediaSelectVCR,
            0x93 => ConsumerUsage::MediaSelectTuner,
            0x94 => ConsumerUsage::Quit,
            0x95 => ConsumerUsage::Help,
            0x96 => ConsumerUsage::MediaSelectTape,
            0x97 => ConsumerUsage::MediaSelectCable,
            0x98 => ConsumerUsage::MediaSelectSatellite,
            0x99 => ConsumerUsage::MediaSelectSecurity,
            0x9A => ConsumerUsage::MediaSelectHome,
            0x9B => ConsumerUsage::MediaSelectCall,
            0x9C => ConsumerUsage::ChannelIncrement,
            0x9D => ConsumerUsage::ChannelDecrement,
            0x9E => ConsumerUsage::MediaSelectSAP,
            0xA0 => ConsumerUsage::VCRPlus,
            0xA1 => ConsumerUsage::Once,
            0xA2 => ConsumerUsage::Daily,
            0xA3 => ConsumerUsage::Weekly,
            0xA4 => ConsumerUsage::Monthly,
            0xB0 => ConsumerUsage::Play,
            0xB1 => ConsumerUsage::Pause,
            0xB2 => ConsumerUsage::Record,
            0xB3 => ConsumerUsage::FastForward,
            0xB4 => ConsumerUsage::Rewind,
            0xB5 => ConsumerUsage::ScanNextTrack,
            0xB6 => ConsumerUsage::ScanPreviousTrack,
            0xB7 => ConsumerUsage::Stop,
            0xB8 => ConsumerUsage::Eject,
            0xB9 => ConsumerUsage::RandomPlay,
            0xBA => ConsumerUsage::SelectDisc,
            0xBB => ConsumerUsage::EnterDisc,
            0xBC => ConsumerUsage::Repeat,
            0xBD => ConsumerUsage::Tracking,
            0xBE => ConsumerUsage::TrackNormal,
            0xBF => ConsumerUsage::SlowTracking,
            0xC0 => ConsumerUsage::FrameForward,
            0xC1 => ConsumerUsage::FrameBack,
            0xC2 => ConsumerUsage::Mark,
            0xC3 => ConsumerUsage::ClearMark,
            0xC4 => ConsumerUsage::RepeatFromMark,
            0xC5 => ConsumerUsage::ReturnToMark,
            0xC6 => ConsumerUsage::SearchMarkForward,
            0xC7 => ConsumerUsage::SearchMarkBackwards,
            0xC8 => ConsumerUsage::CounterReset,
            0xC9 => ConsumerUsage::ShowCounter,
            0xCA => ConsumerUsage::TrackingIncrement,
            0xCB => ConsumerUsage::TrackingDecrement,
            0xCC => ConsumerUsage::StopEject,
            0xCD => ConsumerUsage::PlayPause,
            0xCE => ConsumerUsage::PlaySkip,
            0xCF => ConsumerUsage::VoiceCommand,
            0xD0 => ConsumerUsage::InvokeCaptureInterface,
            0xD1 => ConsumerUsage::StartOrStopGameRecording,
            0xD2 => ConsumerUsage::HistoricalGameCapture,
            0xD3 => ConsumerUsage::CaptureGameScreenshot,
            0xD4 => ConsumerUsage::ShowOrHideRecordingIndicator,
            0xD5 => ConsumerUsage::StartOrStopMicrophoneCapture,
            0xD6 => ConsumerUsage::StartOrStopCameraCapture,
            0xD7 => ConsumerUsage::StartOrStopGameBroadcast,
            0xD8 => ConsumerUsage::StartOrStopVoiceDictationSession,
            0xD9 => ConsumerUsage::InvokeDismissEmojiPicker,
            0xE0 => ConsumerUsage::Volume,
            0xE1 => ConsumerUsage::Balance,
            0xE2 => ConsumerUsage::Mute,
            0xE3 => ConsumerUsage::Bass,
            0xE4 => ConsumerUsage::Treble,
            0xE5 => ConsumerUsage::BassBoost,
            0xE6 => ConsumerUsage::SurroundMode,
            0xE7 => ConsumerUsage::Loudness,
            0xE8 => ConsumerUsage::MPX,
            0xE9 => ConsumerUsage::VolumeIncrement,
            0xEA => ConsumerUsage::VolumeDecrement,
            0xF0 => ConsumerUsage::SpeedSelect,
            0xF1 => ConsumerUsage::PlaybackSpeed,
            0xF2 => ConsumerUsage::StandardPlay,
            0xF3 => ConsumerUsage::LongPlay,
            0xF4 => ConsumerUsage::ExtendedPlay,
            0xF5 => ConsumerUsage::Slow,
            0x100 => ConsumerUsage::FanEnable,
            0x101 => ConsumerUsage::FanSpeed,
            0x102 => ConsumerUsage::LightEnable,
            0x103 => ConsumerUsage::LightIlluminationLevel,
            0x104 => ConsumerUsage::ClimateControlEnable,
            0x105 => ConsumerUsage::RoomTemperature,
            0x106 => ConsumerUsage::SecurityEnable,
            0x107 => ConsumerUsage::FireAlarm,
            0x108 => ConsumerUsage::PoliceAlarm,
            0x109 => ConsumerUsage::Proximity,
            0x10A => ConsumerUsage::Motion,
            0x10B => ConsumerUsage::DuressAlarm,
            0x10C => ConsumerUsage::HoldupAlarm,
            0x10D => ConsumerUsage::MedicalAlarm,
            0x150 => ConsumerUsage::BalanceRight,
            0x151 => ConsumerUsage::BalanceLeft,
            0x152 => ConsumerUsage::BassIncrement,
            0x153 => ConsumerUsage::BassDecrement,
            0x154 => ConsumerUsage::TrebleIncrement,
            0x155 => ConsumerUsage::TrebleDecrement,
            0x160 => ConsumerUsage::SpeakerSystem,
            0x161 => ConsumerUsage::ChannelLeft,
            0x162 => ConsumerUsage::ChannelRight,
            0x163 => ConsumerUsage::ChannelCenter,
            0x164 => ConsumerUsage::ChannelFront,
            0x165 => ConsumerUsage::ChannelCenterFront,
            0x166 => ConsumerUsage::ChannelSide,
            0x167 => ConsumerUsage::ChannelSurround,
            0x168 => ConsumerUsage::ChannelLowFrequencyEnhancement,
            0x169 => ConsumerUsage::ChannelTop,
            0x16A => ConsumerUsage::ChannelUnknown,
            0x170 => ConsumerUsage::SubChannel,
            0x171 => ConsumerUsage::SubChannelIncrement,
            0x172 => ConsumerUsage::SubChannelDecrement,
            0x173 => ConsumerUsage::AlternateAudioIncrement,
            0x174 => ConsumerUsage::AlternateAudioDecrement,
            0x180 => ConsumerUsage::ApplicationLaunchButtons,
            0x181 => ConsumerUsage::ALLaunchButtonConfigurationTool,
            0x182 => ConsumerUsage::ALProgrammableButtonConfiguration,
            0x183 => ConsumerUsage::ALConsumerControlConfiguration,
            0x184 => ConsumerUsage::ALWordProcessor,
            0x185 => ConsumerUsage::ALTextEditor,
            0x186 => ConsumerUsage::ALSpreadsheet,
            0x187 => ConsumerUsage::ALGraphicsEditor,
            0x188 => ConsumerUsage::ALPresentationApp,
            0x189 => ConsumerUsage::ALDatabaseApp,
            0x18A => ConsumerUsage::ALEmailReader,
            0x18B => ConsumerUsage::ALNewsreader,
            0x18C => ConsumerUsage::ALVoicemail,
            0x18D => ConsumerUsage::ALContactsAddressBook,
            0x18E => ConsumerUsage::ALCalendarSchedule,
            0x18F => ConsumerUsage::ALTaskProjectManager,
            0x190 => ConsumerUsage::ALLogJournalTimecard,
            0x191 => ConsumerUsage::ALCheckbookFinance,
            0x192 => ConsumerUsage::ALCalculator,
            0x193 => ConsumerUsage::ALAVCapturePlayback,
            0x194 => ConsumerUsage::ALLocalMachineBrowser,
            0x195 => ConsumerUsage::ALLANWANBrowser,
            0x196 => ConsumerUsage::ALInternetBrowser,
            0x197 => ConsumerUsage::ALRemoteNetworkingISPConnect,
            0x198 => ConsumerUsage::ALNetworkConference,
            0x199 => ConsumerUsage::ALNetworkChat,
            0x19A => ConsumerUsage::ALTelephonyDialer,
            0x19B => ConsumerUsage::ALLogon,
            0x19C => ConsumerUsage::ALLogoff,
            0x19D => ConsumerUsage::ALLogonLogoff,
            0x19E => ConsumerUsage::ALTerminalLockScreensaver,
            0x19F => ConsumerUsage::ALControlPanel,
            0x1A0 => ConsumerUsage::ALCommandLineProcessorRun,
            0x1A1 => ConsumerUsage::ALProcessTaskManager,
            0x1A2 => ConsumerUsage::ALSelectTaskApplication,
            0x1A3 => ConsumerUsage::ALNextTaskApplication,
            0x1A4 => ConsumerUsage::ALPreviousTaskApplication,
            0x1A5 => ConsumerUsage::ALPreemptiveHaltTaskApplication,
            0x1A6 => ConsumerUsage::ALIntegratedHelpCenter,
            0x1A7 => ConsumerUsage::ALDocuments,
            0x1A8 => ConsumerUsage::ALThesaurus,
            0x1A9 => ConsumerUsage::ALDictionary,
            0x1AA => ConsumerUsage::ALDesktop,
            0x1AB => ConsumerUsage::ALSpellCheck,
            0x1AC => ConsumerUsage::ALGrammarCheck,
            0x1AD => ConsumerUsage::ALWirelessStatus,
            0x1AE => ConsumerUsage::ALKeyboardLayout,
            0x1AF => ConsumerUsage::ALVirusProtection,
            0x1B0 => ConsumerUsage::ALEncryption,
            0x1B1 => ConsumerUsage::ALScreenSaver,
            0x1B2 => ConsumerUsage::ALAlarms,
            0x1B3 => ConsumerUsage::ALClock,
            0x1B4 => ConsumerUsage::ALFileBrowser,
            0x1B5 => ConsumerUsage::ALPowerStatus,
            0x1B6 => ConsumerUsage::ALImageBrowser,
            0x1B7 => ConsumerUsage::ALAudioBrowser,
            0x1B8 => ConsumerUsage::ALMovieBrowser,
            0x1B9 => ConsumerUsage::ALDigitalRightsManager,
            0x1BA => ConsumerUsage::ALDigitalWallet,
            0x1BC => ConsumerUsage::ALInstantMessaging,
            0x1BD => ConsumerUsage::ALOEMFeaturesTipsTutorialBrowser,
            0x1BE => ConsumerUsage::ALOEMHelp,
            0x1BF => ConsumerUsage::ALOnlineCommunity,
            0x1C0 => ConsumerUsage::ALEntertainmentContentBrowser,
            0x1C1 => ConsumerUsage::ALOnlineShoppingBrowser,
            0x1C2 => ConsumerUsage::ALSmartCardInformationHelp,
            0x1C3 => ConsumerUsage::ALMarketMonitorFinanceBrowser,
            0x1C4 => ConsumerUsage::ALCustomizedCorporateNewsBrowser,
            0x1C5 => ConsumerUsage::ALOnlineActivityBrowser,
            0x1C6 => ConsumerUsage::ALResearchSearchBrowser,
            0x1C7 => ConsumerUsage::ALAudioPlayer,
            0x1C8 => ConsumerUsage::ALMessageStatus,
            0x1C9 => ConsumerUsage::ALContactSync,
            0x1CA => ConsumerUsage::ALNavigation,
            0x1CB => ConsumerUsage::ALContextawareDesktopAssistant,
            0x200 => ConsumerUsage::GenericGUIApplicationControls,
            0x201 => ConsumerUsage::ACNew,
            0x202 => ConsumerUsage::ACOpen,
            0x203 => ConsumerUsage::ACClose,
            0x204 => ConsumerUsage::ACExit,
            0x205 => ConsumerUsage::ACMaximize,
            0x206 => ConsumerUsage::ACMinimize,
            0x207 => ConsumerUsage::ACSave,
            0x208 => ConsumerUsage::ACPrint,
            0x209 => ConsumerUsage::ACProperties,
            0x21A => ConsumerUsage::ACUndo,
            0x21B => ConsumerUsage::ACCopy,
            0x21C => ConsumerUsage::ACCut,
            0x21D => ConsumerUsage::ACPaste,
            0x21E => ConsumerUsage::ACSelectAll,
            0x21F => ConsumerUsage::ACFind,
            0x220 => ConsumerUsage::ACFindAndReplace,
            0x221 => ConsumerUsage::ACSearch,
            0x222 => ConsumerUsage::ACGoTo,
            0x223 => ConsumerUsage::ACHome,
            0x224 => ConsumerUsage::ACBack,
            0x225 => ConsumerUsage::ACForward,
            0x226 => ConsumerUsage::ACStop,
            0x227 => ConsumerUsage::ACRefresh,
            0x228 => ConsumerUsage::ACPreviousLink,
            0x229 => ConsumerUsage::ACNextLink,
            0x22A => ConsumerUsage::ACBookmarks,
            0x22B => ConsumerUsage::ACHistory,
            0x22C => ConsumerUsage::ACSubscriptions,
            0x22D => ConsumerUsage::ACZoomIn,
            0x22E => ConsumerUsage::ACZoomOut,
            0x22F => ConsumerUsage::ACZoom,
            0x230 => ConsumerUsage::ACFullScreenView,
            0x231 => ConsumerUsage::ACNormalView,
            0x232 => ConsumerUsage::ACViewToggle,
            0x233 => ConsumerUsage::ACScrollUp,
            0x234 => ConsumerUsage::ACScrollDown,
            0x235 => ConsumerUsage::ACScroll,
            0x236 => ConsumerUsage::ACPanLeft,
            0x237 => ConsumerUsage::ACPanRight,
            0x238 => ConsumerUsage::ACPan,
            0x239 => ConsumerUsage::ACNewWindow,
            0x23A => ConsumerUsage::ACTileHorizontally,
            0x23B => ConsumerUsage::ACTileVertically,
            0x23C => ConsumerUsage::ACFormat,
            0x23D => ConsumerUsage::ACEdit,
            0x23E => ConsumerUsage::ACBold,
            0x23F => ConsumerUsage::ACItalics,
            0x240 => ConsumerUsage::ACUnderline,
            0x241 => ConsumerUsage::ACStrikethrough,
            0x242 => ConsumerUsage::ACSubscript,
            0x243 => ConsumerUsage::ACSuperscript,
            0x244 => ConsumerUsage::ACAllCaps,
            0x245 => ConsumerUsage::ACRotate,
            0x246 => ConsumerUsage::ACResize,
            0x247 => ConsumerUsage::ACFlipHorizontal,
            0x248 => ConsumerUsage::ACFlipVertical,
            0x249 => ConsumerUsage::ACMirrorHorizontal,
            0x24A => ConsumerUsage::ACMirrorVertical,
            0x24B => ConsumerUsage::ACFontSelect,
            0x24C => ConsumerUsage::ACFontColor,
            0x24D => ConsumerUsage::ACFontSize,
            0x24E => ConsumerUsage::ACJustifyLeft,
            0x24F => ConsumerUsage::ACJustifyCenterH,
            0x250 => ConsumerUsage::ACJustifyRight,
            0x251 => ConsumerUsage::ACJustifyBlockH,
            0x252 => ConsumerUsage::ACJustifyTop,
            0x253 => ConsumerUsage::ACJustifyCenterV,
            0x254 => ConsumerUsage::ACJustifyBottom,
            0x255 => ConsumerUsage::ACJustifyBlockV,
            0x256 => ConsumerUsage::ACIndentDecrease,
            0x257 => ConsumerUsage::ACIndentIncrease,
            0x258 => ConsumerUsage::ACNumberedList,
            0x259 => ConsumerUsage::ACRestartNumbering,
            0x25A => ConsumerUsage::ACBulletedList,
            0x25B => ConsumerUsage::ACPromote,
            0x25C => ConsumerUsage::ACDemote,
            0x25D => ConsumerUsage::ACYes,
            0x25E => ConsumerUsage::ACNo,
            0x25F => ConsumerUsage::ACCancel,
            0x260 => ConsumerUsage::ACCatalog,
            0x261 => ConsumerUsage::ACBuyCheckout,
            0x262 => ConsumerUsage::ACAddToCart,
            0x263 => ConsumerUsage::ACExpand,
            0x264 => ConsumerUsage::ACExpandAll,
            0x265 => ConsumerUsage::ACCollapse,
            0x266 => ConsumerUsage::ACCollapseAll,
            0x267 => ConsumerUsage::ACPrintPreview,
            0x268 => ConsumerUsage::ACPasteSpecial,
            0x269 => ConsumerUsage::ACInsertMode,
            0x26A => ConsumerUsage::ACDelete,
            0x26B => ConsumerUsage::ACLock,
            0x26C => ConsumerUsage::ACUnlock,
            0x26D => ConsumerUsage::ACProtect,
            0x26E => ConsumerUsage::ACUnprotect,
            0x26F => ConsumerUsage::ACAttachComment,
            0x270 => ConsumerUsage::ACDeleteComment,
            0x271 => ConsumerUsage::ACViewComment,
            0x272 => ConsumerUsage::ACSelectWord,
            0x273 => ConsumerUsage::ACSelectSentence,
            0x274 => ConsumerUsage::ACSelectParagraph,
            0x275 => ConsumerUsage::ACSelectColumn,
            0x276 => ConsumerUsage::ACSelectRow,
            0x277 => ConsumerUsage::ACSelectTable,
            0x278 => ConsumerUsage::ACSelectObject,
            0x279 => ConsumerUsage::ACRedoRepeat,
            0x27A => ConsumerUsage::ACSort,
            0x27B => ConsumerUsage::ACSortAscending,
            0x27C => ConsumerUsage::ACSortDescending,
            0x27D => ConsumerUsage::ACFilter,
            0x27E => ConsumerUsage::ACSetClock,
            0x27F => ConsumerUsage::ACViewClock,
            0x280 => ConsumerUsage::ACSelectTimeZone,
            0x281 => ConsumerUsage::ACEditTimeZones,
            0x282 => ConsumerUsage::ACSetAlarm,
            0x283 => ConsumerUsage::ACClearAlarm,
            0x284 => ConsumerUsage::ACSnoozeAlarm,
            0x285 => ConsumerUsage::ACResetAlarm,
            0x286 => ConsumerUsage::ACSynchronize,
            0x287 => ConsumerUsage::ACSendReceive,
            0x288 => ConsumerUsage::ACSendTo,
            0x289 => ConsumerUsage::ACReply,
            0x28A => ConsumerUsage::ACReplyAll,
            0x28B => ConsumerUsage::ACForwardMsg,
            0x28C => ConsumerUsage::ACSend,
            0x28D => ConsumerUsage::ACAttachFile,
            0x28E => ConsumerUsage::ACUpload,
            0x28F => ConsumerUsage::ACDownloadSaveTargetAs,
            0x290 => ConsumerUsage::ACSetBorders,
            0x291 => ConsumerUsage::ACInsertRow,
            0x292 => ConsumerUsage::ACInsertColumn,
            0x293 => ConsumerUsage::ACInsertFile,
            0x294 => ConsumerUsage::ACInsertPicture,
            0x295 => ConsumerUsage::ACInsertObject,
            0x296 => ConsumerUsage::ACInsertSymbol,
            0x297 => ConsumerUsage::ACSaveAndClose,
            0x298 => ConsumerUsage::ACRename,
            0x299 => ConsumerUsage::ACMerge,
            0x29A => ConsumerUsage::ACSplit,
            0x29B => ConsumerUsage::ACDistributeHorizontally,
            0x29C => ConsumerUsage::ACDistributeVertically,
            0x29D => ConsumerUsage::ACNextKeyboardLayoutSelect,
            0x29E => ConsumerUsage::ACNavigationGuidance,
            0x29F => ConsumerUsage::ACDesktopShowAllWindows,
            0x2A0 => ConsumerUsage::ACSoftKeyLeft,
            0x2A1 => ConsumerUsage::ACSoftKeyRight,
            0x2A2 => ConsumerUsage::ACDesktopShowAllApplications,
            0x2B0 => ConsumerUsage::ACIdleKeepAlive,
            0x2C0 => ConsumerUsage::ExtendedKeyboardAttributesCollection,
            0x2C1 => ConsumerUsage::KeyboardFormFactor,
            0x2C2 => ConsumerUsage::KeyboardKeyType,
            0x2C3 => ConsumerUsage::KeyboardPhysicalLayout,
            0x2C4 => ConsumerUsage::VendorSpecificKeyboardPhysicalLayout,
            0x2C5 => ConsumerUsage::KeyboardIETFLanguageTagIndex,
            0x2C6 => ConsumerUsage::ImplementedKeyboardInputAssistControls,
            0x2C7 => ConsumerUsage::KeyboardInputAssistPrevious,
            0x2C8 => ConsumerUsage::KeyboardInputAssistNext,
            0x2C9 => ConsumerUsage::KeyboardInputAssistPreviousGroup,
            0x2CA => ConsumerUsage::KeyboardInputAssistNextGroup,
            0x2CB => ConsumerUsage::KeyboardInputAssistAccept,
            0x2CC => ConsumerUsage::KeyboardInputAssistCancel,
            0x2D0 => ConsumerUsage::PrivacyScreenToggle,
            0x2D1 => ConsumerUsage::PrivacyScreenLevelDecrement,
            0x2D2 => ConsumerUsage::PrivacyScreenLevelIncrement,
            0x2D3 => ConsumerUsage::PrivacyScreenLevelMinimum,
            0x2D4 => ConsumerUsage::PrivacyScreenLevelMaximum,
            0x500 => ConsumerUsage::ContactEdited,
            0x501 => ConsumerUsage::ContactAdded,
            0x502 => ConsumerUsage::ContactRecordActive,
            0x503 => ConsumerUsage::ContactIndex,
            0x504 => ConsumerUsage::ContactNickname,
            0x505 => ConsumerUsage::ContactFirstName,
            0x506 => ConsumerUsage::ContactLastName,
            0x507 => ConsumerUsage::ContactFullName,
            0x508 => ConsumerUsage::ContactPhoneNumberPersonal,
            0x509 => ConsumerUsage::ContactPhoneNumberBusiness,
            0x50A => ConsumerUsage::ContactPhoneNumberMobile,
            0x50B => ConsumerUsage::ContactPhoneNumberPager,
            0x50C => ConsumerUsage::ContactPhoneNumberFax,
            0x50D => ConsumerUsage::ContactPhoneNumberOther,
            0x50E => ConsumerUsage::ContactEmailPersonal,
            0x50F => ConsumerUsage::ContactEmailBusiness,
            0x510 => ConsumerUsage::ContactEmailOther,
            0x511 => ConsumerUsage::ContactEmailMain,
            0x512 => ConsumerUsage::ContactSpeedDialNumber,
            0x513 => ConsumerUsage::ContactStatusFlag,
            0x514 => ConsumerUsage::ContactMisc,
            i => ConsumerUsage::Reserved(i),
        }
    }

    /// The id that the usage table assigns to this usage.
    pub open spec fn to_id(self) -> u16 {
        match self {
            ConsumerUsage::Undefined => 0x00,
            ConsumerUsage::ConsumerControl => 0x01,
            ConsumerUsage::NumericKeyPad => 0x02,
            ConsumerUsage::ProgrammableButtons => 0x03,
            ConsumerUsage::Microphone => 0x04,
            ConsumerUsage::Headphone => 0x05,
            ConsumerUsage::GraphicEqualizer => 0x06,
            ConsumerUsage::Plus10 => 0x20,
            ConsumerUsage::Plus100 => 0x21,
            ConsumerUsage::AmPm => 0x22,
            ConsumerUsage::Power => 0x30,
            ConsumerUsage::Reset => 0x31,
            ConsumerUsage::Sleep => 0x32,
            ConsumerUsage::SleepAfter => 0x33,
            ConsumerUsage::SleepMode => 0x34,
            ConsumerUsage::Illumination => 0x35,
            ConsumerUsage::FunctionButtons => 0x36,
            ConsumerUsage::Menu => 0x40,
            ConsumerUsage::MenuPick => 0x41,
            ConsumerUsage::MenuUp => 0x42,
            ConsumerUsage::MenuDown => 0x43,
            ConsumerUsage::MenuLeft => 0x44,
            ConsumerUsage::MenuRight => 0x45,
            ConsumerUsage::MenuEscape => 0x46,
            ConsumerUsage::MenuValueIncrease => 0x47,
            ConsumerUsage::MenuValueDecrease => 0x48,
            ConsumerUsage::DataOnScreen => 0x60,
            ConsumerUsage::ClosedCaption => 0x61,
            ConsumerUsage::ClosedCaptionSelect => 0x62,
            ConsumerUsage::VcrTv => 0x63,
            ConsumerUsage::BroadcastMode => 0x64,
            ConsumerUsage::Snapshot => 0x65,
            ConsumerUsage::Still => 0x66,
            ConsumerUsage::PictureInPictureToggle => 0x67,
            ConsumerUsage::PictureInPictureSwap => 0x68,
            ConsumerUsage::RedMenuButton => 0x69,
            ConsumerUsage::GreenMenuButton => 0x6A,
            ConsumerUsage::BlueMenuButton => 0x6B,
            ConsumerUsage::YellowMenuButton => 0x6C,
            ConsumerUsage::Aspect => 0x6D,
            ConsumerUsage::Mode3DSelect => 0x6E,
            ConsumerUsage::DisplayBrightnessIncrement => 0x6F,
            ConsumerUsage::DisplayBrightnessDecrement => 0x70,
            ConsumerUsage::DisplayBrightness => 0x71,
            ConsumerUsage::DisplayBacklightToggle => 0x72,
            ConsumerUsage::DisplaySetBrightnessToMinimum => 0x73,
            ConsumerUsage::DisplaySetBrightnessToMaximum => 0x74,
            ConsumerUsage::DisplaySetAutoBrightness => 0x75,
            ConsumerUsage::CameraAccessEnabled => 0x76,
            ConsumerUsage::CameraAccessDisabled => 0x77,
            ConsumerUsage::CameraAccessToggle => 0x78,
            ConsumerUsage::KeyboardBrightnessIncrement => 0x79,
            ConsumerUsage::KeyboardBrightnessDecrement => 0x7A,
            ConsumerUsage::KeyboardBacklightSetLevel => 0x7B,
            ConsumerUsage::KeyboardBacklightOOC => 0x7C,
            ConsumerUsage::KeyboardBacklightSetMinimum => 0x7D,
            ConsumerUsage::KeyboardBacklightSetMaximum => 0x7E,
            ConsumerUsage::KeyboardBacklightAuto => 0x7F,
            ConsumerUsage::Selection => 0x80,
            ConsumerUsage::AssignSelection => 0x81,
            ConsumerUsage::ModeStep => 0x82,
            ConsumerUsage::RecallLast => 0x83,
            ConsumerUsage::EnterChannel => 0x84,
            ConsumerUsage::OrderMovie => 0x85,
            ConsumerUsage::Channel => 0x86,
            ConsumerUsage::MediaSelection => 0x87,
            ConsumerUsage::MediaSelectComputer => 0x88,
            ConsumerUsage::MediaSelectTV => 0x89,
            ConsumerUsage::MediaSelectWWW => 0x8A,
            ConsumerUsage::MediaSelectDVD => 0x8B,
            ConsumerUsage::MediaSelectTelephone => 0x8C,
            ConsumerUsage::MediaSelectProgramGuide => 0x8D,
            ConsumerUsage::MediaSelectVideoPhone => 0x8E,
            ConsumerUsage::MediaSelectGames => 0x8F,
            ConsumerUsage::MediaSelectMessages => 0x90,
            ConsumerUsage::MediaSelectCD => 0x91,
            ConsumerUsage::MediaSelectVCR => 0x92,
            ConsumerUsage::MediaSelectTuner => 0x93,
            ConsumerUsage::Quit => 0x94,
            ConsumerUsage::Help => 0x95,
            ConsumerUsage::MediaSelectTape => 0x96,
            ConsumerUsage::MediaSelectCable => 0x97,
            ConsumerUsage::MediaSelectSatellite => 0x98,
            ConsumerUsage::MediaSelectSecurity => 0x99,
            ConsumerUsage::MediaSelectHome => 0x9A,
            ConsumerUsage::MediaSelectCall => 0x9B,
            ConsumerUsage::ChannelIncrement => 0x9C,
            ConsumerUsage::ChannelDecrement => 0x9D,
            ConsumerUsage::MediaSelectSAP => 0x9E,
            ConsumerUsage::VCRPlus => 0xA0,
            ConsumerUsage::Once => 0xA1,
            ConsumerUsage::Daily => 0xA2,
            ConsumerUsage::Weekly => 0xA3,
            ConsumerUsage::Monthly => 0xA4,
            ConsumerUsage::Play => 0xB0,
            ConsumerUsage::Pause => 0xB1,
            ConsumerUsage::Record => 0xB2,
            ConsumerUsage::FastForward => 0xB3,
            ConsumerUsage::Rewind => 0xB4,
            ConsumerUsage::ScanNextTrack => 0xB5,
            ConsumerUsage::ScanPreviousTrack => 0xB6,
            ConsumerUsage::Stop => 0xB7,
            ConsumerUsage::Eject => 0xB8,
            ConsumerUsage::RandomPlay => 0xB9,
            ConsumerUsage::SelectDisc => 0xBA,
            ConsumerUsage::EnterDisc => 0xBB,
            ConsumerUsage::Repeat => 0xBC,
            ConsumerUsage::Tracking => 0xBD,
            ConsumerUsage::TrackNormal => 0xBE,
            ConsumerUsage::SlowTracking => 0xBF,
            ConsumerUsage::FrameForward => 0xC0,
            ConsumerUsage::FrameBack => 0xC1,
            ConsumerUsage::Mark => 0xC2,
            ConsumerUsage::ClearMark => 0xC3,
            ConsumerUsage::RepeatFromMark => 0xC4,
            ConsumerUsage::ReturnToMark => 0xC5,
            ConsumerUsage::SearchMarkForward => 0xC6,
            ConsumerUsage::SearchMarkBackwards => 0xC7,
            ConsumerUsage::CounterReset => 0xC8,
            ConsumerUsage::ShowCounter => 0xC9,
            ConsumerUsage::TrackingIncrement => 0xCA,
            ConsumerUsage::TrackingDecrement => 0xCB,
            ConsumerUsage::StopEject => 0xCC,
            ConsumerUsage::PlayPause => 0xCD,
            ConsumerUsage::PlaySkip => 0xCE,
            ConsumerUsage::VoiceCommand => 0xCF,
            ConsumerUsage::InvokeCaptureInterface => 0xD0,
            ConsumerUsage::StartOrStopGameRecording => 0xD1,
            ConsumerUsage::HistoricalGameCapture => 0xD2,
            ConsumerUsage::CaptureGameScreenshot => 0xD3,
            ConsumerUsage::ShowOrHideRecordingIndicator => 0xD4,
            ConsumerUsage::StartOrStopMicrophoneCapture => 0xD5,
            ConsumerUsage::StartOrStopCameraCapture => 0xD6,
            ConsumerUsage::StartOrStopGameBroadcast => 0xD7,
            ConsumerUsage::StartOrStopVoiceDictationSession => 0xD8,
            ConsumerUsage::InvokeDismissEmojiPicker => 0xD9,
            ConsumerUsage::Volume => 0xE0,
            ConsumerUsage::Balance => 0xE1,
            ConsumerUsage::Mute => 0xE2,
            ConsumerUsage::Bass => 0xE3,
            ConsumerUsage::Treble => 0xE4,
            ConsumerUsage::BassBoost => 0xE5,
            ConsumerUsage::SurroundMode => 0xE6,
            ConsumerUsage::Loudness => 0xE7,
            ConsumerUsage::MPX => 0xE8,
            ConsumerUsage::VolumeIncrement => 0xE9,
            ConsumerUsage::VolumeDecrement => 0xEA,
            ConsumerUsage::SpeedSelect => 0xF0,
            ConsumerUsage::PlaybackSpeed => 0xF1,
            ConsumerUsage::StandardPlay => 0xF2,
            ConsumerUsage::LongPlay => 0xF3,
            ConsumerUsage::ExtendedPlay => 0xF4,
            ConsumerUsage::Slow => 0xF5,
            ConsumerUsage::FanEnable => 0x100,
            ConsumerUsage::FanSpeed => 0x101,
            ConsumerUsage::LightEnable => 0x102,
            ConsumerUsage::LightIlluminationLevel => 0x103,
            ConsumerUsage::ClimateControlEnable => 0x104,
            ConsumerUsage::RoomTemperature => 0x105,
            ConsumerUsage::SecurityEnable => 0x106,
            ConsumerUsage::FireAlarm => 0x107,
            ConsumerUsage::PoliceAlarm => 0x108,
            ConsumerUsage::Proximity => 0x109,
            ConsumerUsage::Motion => 0x10A,
            ConsumerUsage::DuressAlarm => 0x10B,
            ConsumerUsage::HoldupAlarm => 0x10C,
            ConsumerUsage::MedicalAlarm => 0x10D,
            ConsumerUsage::BalanceRight => 0x150,
            ConsumerUsage::BalanceLeft => 0x151,
            ConsumerUsage::BassIncrement => 0x152,
            ConsumerUsage::BassDecrement => 0x153,
            ConsumerUsage::TrebleIncrement => 0x154,
            ConsumerUsage::TrebleDecrement => 0x155,
            ConsumerUsage::SpeakerSystem => 0x160,
            ConsumerUsage::ChannelLeft => 0x161,
            ConsumerUsage::ChannelRight => 0x162,
            ConsumerUsage::ChannelCenter => 0x163,
            ConsumerUsage::ChannelFront => 0x164,
            ConsumerUsage::ChannelCenterFront => 0x165,
            ConsumerUsage::ChannelSide => 0x166,
            ConsumerUsage::ChannelSurround => 0x167,
            ConsumerUsage::ChannelLowFrequencyEnhancement => 0x168,
            ConsumerUsage::ChannelTop => 0x169,
            ConsumerUsage::ChannelUnknown => 0x16A,
            ConsumerUsage::SubChannel => 0x170,
            ConsumerUsage::SubChannelIncrement => 0x171,
            ConsumerUsage::SubChannelDecrement => 0x172,
            ConsumerUsage::AlternateAudioIncrement => 0x173,
            ConsumerUsage::AlternateAudioDecrement => 0x174,
            ConsumerUsage::ApplicationLaunchButtons => 0x180,
            ConsumerUsage::ALLaunchButtonConfigurationTool => 0x181,
            ConsumerUsage::ALProgrammableButtonConfiguration => 0x182,
            ConsumerUsage::ALConsumerControlConfiguration => 0x183,
            ConsumerUsage::ALWordProcessor => 0x184,
            ConsumerUsage::ALTextEditor => 0x185,
            ConsumerUsage::ALSpreadsheet => 0x186,
            ConsumerUsage::ALGraphicsEditor => 0x187,
            ConsumerUsage::ALPresentationApp => 0x188,
            ConsumerUsage::ALDatabaseApp => 0x189,
            ConsumerUsage::ALEmailReader => 0x18A,
            ConsumerUsage::ALNewsreader => 0x18B,
            ConsumerUsage::ALVoicemail => 0x18C,
            ConsumerUsage::ALContactsAddressBook => 0x18D,
            ConsumerUsage::ALCalendarSchedule => 0x18E,
            ConsumerUsage::ALTaskProjectManager => 0x18F,
            ConsumerUsage::ALLogJournalTimecard => 0x190,
            ConsumerUsage::ALCheckbookFinance => 0x191,
            ConsumerUsage::ALCalculator => 0x192,
            ConsumerUsage::ALAVCapturePlayback => 0x193,
            ConsumerUsage::ALLocalMachineBrowser => 0x194,
            ConsumerUsage::ALLANWANBrowser => 0x195,
            ConsumerUsage::ALInternetBrowser => 0x196,
            ConsumerUsage::ALRemoteNetworkingISPConnect => 0x197,
            ConsumerUsage::ALNetworkConference => 0x198,
            ConsumerUsage::ALNetworkChat => 0x199,
            ConsumerUsage::ALTelephonyDialer => 0x19A,
            ConsumerUsage::ALLogon => 0x19B,
            ConsumerUsage::ALLogoff => 0x19C,
            ConsumerUsage::ALLogonLogoff => 0x19D,
            ConsumerUsage::ALTerminalLockScreensaver => 0x19E,
            ConsumerUsage::ALControlPanel => 0x19F,
            ConsumerUsage::ALCommandLineProcessorRun => 0x1A0,
            ConsumerUsage::ALProcessTaskManager => 0x1A1,
            ConsumerUsage::ALSelectTaskApplication => 0x1A2,
            ConsumerUsage::ALNextTaskApplication => 0x1A3,
            ConsumerUsage::ALPreviousTaskApplication => 0x1A4,
            ConsumerUsage::ALPreemptiveHaltTaskApplication => 0x1A5,
            ConsumerUsage::ALIntegratedHelpCenter => 0x1A6,
            ConsumerUsage::ALDocuments => 0x1A7,
            ConsumerUsage::ALThesaurus => 0x1A8,
            ConsumerUsage::ALDictionary => 0x1A9,
            ConsumerUsage::ALDesktop => 0x1AA,
            ConsumerUsage::ALSpellCheck => 0x1AB,
            ConsumerUsage::ALGrammarCheck => 0x1AC,
            ConsumerUsage::ALWirelessStatus => 0x1AD,
            ConsumerUsage::ALKeyboardLayout => 0x1AE,
            ConsumerUsage::ALVirusProtection => 0x1AF,
            ConsumerUsage::ALEncryption => 0x1B0,
            ConsumerUsage::ALScreenSaver => 0x1B1,
            ConsumerUsage::ALAlarms => 0x1B2,
            ConsumerUsage::ALClock => 0x1B3,
            ConsumerUsage::ALFileBrowser => 0x1B4,
            ConsumerUsage::ALPowerStatus => 0x1B5,
            ConsumerUsage::ALImageBrowser => 0x1B6,
            ConsumerUsage::ALAudioBrowser => 0x1B7,
            ConsumerUsage::ALMovieBrowser => 0x1B8,
            ConsumerUsage::ALDigitalRightsManager => 0x1B9,
            ConsumerUsage::ALDigitalWallet => 0x1BA,
            ConsumerUsage::ALInstantMessaging => 0x1BC,
            ConsumerUsage::ALOEMFeaturesTipsTutorialBrowser => 0x1BD,
            ConsumerUsage::ALOEMHelp => 0x1BE,
            ConsumerUsage::ALOnlineCommunity => 0x1BF,
            ConsumerUsage::ALEntertainmentContentBrowser => 0x1C0,
            ConsumerUsage::ALOnlineShoppingBrowser => 0x1C1,
            ConsumerUsage::ALSmartCardInformationHelp => 0x1C2,
            ConsumerUsage::ALMarketMonitorFinanceBrowser => 0x1C3,
            ConsumerUsage::ALCustomizedCorporateNewsBrowser => 0x1C4,
            ConsumerUsage::ALOnlineActivityBrowser => 0x1C5,
            ConsumerUsage::ALResearchSearchBrowser => 0x1C6,
            ConsumerUsage::ALAudioPlayer => 0x1C7,
            ConsumerUsage::ALMessageStatus => 0x1C8,
            ConsumerUsage::ALContactSync => 0x1C9,
            ConsumerUsage::ALNavigation => 0x1CA,
            ConsumerUsage::ALContextawareDesktopAssistant => 0x1CB,
            ConsumerUsage::GenericGUIApplicationControls => 0x200,
            ConsumerUsage::ACNew => 0x201,
            ConsumerUsage::ACOpen => 0x202,
            ConsumerUsage::ACClose => 0x203,
            ConsumerUsage::ACExit => 0x204,
            ConsumerUsage::ACMaximize => 0x205,
            ConsumerUsage::ACMinimize => 0x206,
            ConsumerUsage::ACSave => 0x207,
            ConsumerUsage::ACPrint => 0x208,
            ConsumerUsage::ACProperties => 0x209,
            ConsumerUsage::ACUndo => 0x21A,
            ConsumerUsage::ACCopy => 0x21B,
            ConsumerUsage::ACCut => 0x21C,
            ConsumerUsage::ACPaste => 0x21D,
            ConsumerUsage::ACSelectAll => 0x21E,
            ConsumerUsage::ACFind => 0x21F,
            ConsumerUsage::ACFindAndReplace => 0x220,
            ConsumerUsage::ACSearch => 0x221,
            ConsumerUsage::ACGoTo => 0x222,
            ConsumerUsage::ACHome => 0x223,
            ConsumerUsage::ACBack => 0x224,
            ConsumerUsage::ACForward => 0x225,
            ConsumerUsage::ACStop => 0x226,
            ConsumerUsage::ACRefresh => 0x227,
            ConsumerUsage::ACPreviousLink => 0x228,
            ConsumerUsage::ACNextLink => 0x229,
            ConsumerUsage::ACBookmarks => 0x22A,
            ConsumerUsage::ACHistory => 0x22B,
            ConsumerUsage::ACSubscriptions => 0x22C,
            ConsumerUsage::ACZoomIn => 0x22D,
            ConsumerUsage::ACZoomOut => 0x22E,
            ConsumerUsage::ACZoom => 0x22F,
            ConsumerUsage::ACFullScreenView => 0x230,
            ConsumerUsage::ACNormalView => 0x231,
            ConsumerUsage::ACViewToggle => 0x232,
            ConsumerUsage::ACScrollUp => 0x233,
            ConsumerUsage::ACScrollDown => 0x234,
            ConsumerUsage::ACScroll => 0x235,
            ConsumerUsage::ACPanLeft => 0x236,
            ConsumerUsage::ACPanRight => 0x237,
            ConsumerUsage::ACPan => 0x238,
            ConsumerUsage::ACNewWindow => 0x239,
            ConsumerUsage::ACTileHorizontally => 0x23A,
            ConsumerUsage::ACTileVertically => 0x23B,
            ConsumerUsage::ACFormat => 0x23C,
            ConsumerUsage::ACEdit => 0x23D,
            ConsumerUsage::ACBold => 0x23E,
            ConsumerUsage::ACItalics => 0x23F,
            ConsumerUsage::ACUnderline => 0x240,
            ConsumerUsage::ACStrikethrough => 0x241,
            ConsumerUsage::ACSubscript => 0x242,
            ConsumerUsage::ACSuperscript => 0x243,
            ConsumerUsage::ACAllCaps => 0x244,
            ConsumerUsage::ACRotate => 0x245,
            ConsumerUsage::ACResize => 0x246,
            ConsumerUsage::ACFlipHorizontal => 0x247,
            ConsumerUsage::ACFlipVertical => 0x248,
            ConsumerUsage::ACMirrorHorizontal => 0x249,
            ConsumerUsage::ACMirrorVertical => 0x24A,
            ConsumerUsage::ACFontSelect => 0x24B,
            ConsumerUsage::ACFontColor => 0x24C,
            ConsumerUsage::ACFontSize => 0x24D,
            ConsumerUsage::ACJustifyLeft => 0x24E,
            ConsumerUsage::ACJustifyCenterH => 0x24F,
            ConsumerUsage::ACJustifyRight => 0x250,
            ConsumerUsage::ACJustifyBlockH => 0x251,
            ConsumerUsage::ACJustifyTop => 0x252,
            ConsumerUsage::ACJustifyCenterV => 0x253,
            ConsumerUsage::ACJustifyBottom => 0x254,
            ConsumerUsage::ACJustifyBlockV => 0x255,
            ConsumerUsage::ACIndentDecrease => 0x256,
            ConsumerUsage::ACIndentIncrease => 0x257,
            ConsumerUsage::ACNumberedList => 0x258,
            ConsumerUsage::ACRestartNumbering => 0x259,
            ConsumerUsage::ACBulletedList => 0x25A,
            ConsumerUsage::ACPromote => 0x25B,
            ConsumerUsage::ACDemote => 0x25C,
            ConsumerUsage::ACYes => 0x25D,
            ConsumerUsage::ACNo => 0x25E,
            ConsumerUsage::ACCancel => 0x25F,
            ConsumerUsage::ACCatalog => 0x260,
            ConsumerUsage::ACBuyCheckout => 0x261,
            ConsumerUsage::ACAddToCart => 0x262,
            ConsumerUsage::ACExpand => 0x263,
            ConsumerUsage::ACExpandAll => 0x264,
            ConsumerUsage::ACCollapse => 0x265,
            ConsumerUsage::ACCollapseAll => 0x266,
            ConsumerUsage::ACPrintPreview => 0x267,
            ConsumerUsage::ACPasteSpecial => 0x268,
            ConsumerUsage::ACInsertMode => 0x269,
            ConsumerUsage::ACDelete => 0x26A,
            ConsumerUsage::ACLock => 0x26B,
            ConsumerUsage::ACUnlock => 0x26C,
            ConsumerUsage::ACProtect => 0x26D,
            ConsumerUsage::ACUnprotect => 0x26E,
            ConsumerUsage::ACAttachComment => 0x26F,
            ConsumerUsage::ACDeleteComment => 0x270,
            ConsumerUsage::ACViewComment => 0x271,
            ConsumerUsage::ACSelectWord => 0x272,
            ConsumerUsage::ACSelectSentence => 0x273,
            ConsumerUsage::ACSelectParagraph => 0x274,
            ConsumerUsage::ACSelectColumn => 0x275,
            ConsumerUsage::ACSelectRow => 0x276,
            ConsumerUsage::ACSelectTable => 0x277,
            ConsumerUsage::ACSelectObject => 0x278,
            ConsumerUsage::ACRedoRepeat => 0x279,
            ConsumerUsage::ACSort => 0x27A,
            ConsumerUsage::ACSortAscending => 0x27B,
            ConsumerUsage::ACSortDescending => 0x27C,
            ConsumerUsage::ACFilter => 0x27D,
            ConsumerUsage::ACSetClock => 0x27E,
            ConsumerUsage::ACViewClock => 0x27F,
            ConsumerUsage::ACSelectTimeZone => 0x280,
            ConsumerUsage::ACEditTimeZones => 0x281,
            ConsumerUsage::ACSetAlarm => 0x282,
            ConsumerUsage::ACClearAlarm => 0x283,
            ConsumerUsage::ACSnoozeAlarm => 0x284,
            ConsumerUsage::ACResetAlarm => 0x285,
            ConsumerUsage::ACSynchronize => 0x286,
            ConsumerUsage::ACSendReceive => 0x287,
            ConsumerUsage::ACSendTo => 0x288,
            ConsumerUsage::ACReply => 0x289,
            ConsumerUsage::ACReplyAll => 0x28A,
            ConsumerUsage::ACForwardMsg => 0x28B,
            ConsumerUsage::ACSend => 0x28C,
            ConsumerUsage::ACAttachFile => 0x28D,
            ConsumerUsage::ACUpload => 0x28E,
            ConsumerUsage::ACDownloadSaveTargetAs => 0x28F,
            ConsumerUsage::ACSetBorders => 0x290,
            ConsumerUsage::ACInsertRow => 0x291,
            ConsumerUsage::ACInsertColumn => 0x292,
            ConsumerUsage::ACInsertFile => 0x293,
            ConsumerUsage::ACInsertPicture => 0x294,
            ConsumerUsage::ACInsertObject => 0x295,
            ConsumerUsage::ACInsertSymbol => 0x296,
            ConsumerUsage::ACSaveAndClose => 0x297,
            ConsumerUsage::ACRename => 0x298,
            ConsumerUsage::ACMerge => 0x299,
            ConsumerUsage::ACSplit => 0x29A,
            ConsumerUsage::ACDistributeHorizontally => 0x29B,
            ConsumerUsage::ACDistributeVertically => 0x29C,
            ConsumerUsage::ACNextKeyboardLayoutSelect => 0x29D,
            ConsumerUsage::ACNavigationGuidance => 0x29E,
            ConsumerUsage::ACDesktopShowAllWindows => 0x29F,
            ConsumerUsage::ACSoftKeyLeft => 0x2A0,
            ConsumerUsage::ACSoftKeyRight => 0x2A1,
            ConsumerUsage::ACDesktopShowAllApplications => 0x2A2,
            ConsumerUsage::ACIdleKeepAlive => 0x2B0,
            ConsumerUsage::ExtendedKeyboardAttributesCollection => 0x2C0,
            ConsumerUsage::KeyboardFormFactor => 0x2C1,
            ConsumerUsage::KeyboardKeyType => 0x2C2,
            ConsumerUsage::KeyboardPhysicalLayout => 0x2C3,
            ConsumerUsage::VendorSpecificKeyboardPhysicalLayout => 0x2C4,
            ConsumerUsage::KeyboardIETFLanguageTagIndex => 0x2C5,
            ConsumerUsage::ImplementedKeyboardInputAssistControls => 0x2C6,
            ConsumerUsage::KeyboardInputAssistPrevious => 0x2C7,
            ConsumerUsage::KeyboardInputAssistNext => 0x2C8,
            ConsumerUsage::KeyboardInputAssistPreviousGroup => 0x2C9,
            ConsumerUsage::KeyboardInputAssistNextGroup => 0x2CA,
            ConsumerUsage::KeyboardInputAssistAccept => 0x2CB,
            ConsumerUsage::KeyboardInputAssistCancel => 0x2CC,
            ConsumerUsage::PrivacyScreenToggle => 0x2D0,
            ConsumerUsage::PrivacyScreenLevelDecrement => 0x2D1,
            ConsumerUsage::PrivacyScreenLevelIncrement => 0x2D2,
            ConsumerUsage::PrivacyScreenLevelMinimum => 0x2D3,
            ConsumerUsage::PrivacyScreenLevelMaximum => 0x2D4,
            ConsumerUsage::ContactEdited => 0x500,
            ConsumerUsage::ContactAdded => 0x501,
            ConsumerUsage::ContactRecordActive => 0x502,
            ConsumerUsage::ContactIndex => 0x503,
            ConsumerUsage::ContactNickname => 0x504,
            ConsumerUsage::ContactFirstName => 0x505,
            ConsumerUsage::ContactLastName => 0x506,
            ConsumerUsage::ContactFullName => 0x507,
            ConsumerUsage::ContactPhoneNumberPersonal => 0x508,
            ConsumerUsage::ContactPhoneNumberBusiness => 0x509,
            ConsumerUsage::ContactPhoneNumberMobile => 0x50A,
            ConsumerUsage::ContactPhoneNumberPager => 0x50B,
            ConsumerUsage::ContactPhoneNumberFax => 0x50C,
            ConsumerUsage::ContactPhoneNumberOther => 0x50D,
            ConsumerUsage::ContactEmailPersonal => 0x50E,
            ConsumerUsage::ContactEmailBusiness => 0x50F,
            ConsumerUsage::ContactEmailOther => 0x510,
            ConsumerUsage::ContactEmailMain => 0x511,
            ConsumerUsage::ContactSpeedDialNumber => 0x512,
            ConsumerUsage::ContactStatusFlag => 0x513,
            ConsumerUsage::ContactMisc => 0x514,
            ConsumerUsage::Reserved(i) => i,
        }
    }

    /// The round trip of an id, for the ids from 0x0 up to 0x3F.
    proof fn lemma_id_round_trip_from_0x0(value: u16)
        requires
            0x0 <= value < 0x40,
        ensures
            Self::of_id(value).to_id() == value,
    {
    }

    /// The round trip of an id, for the ids from 0x40 up to 0x7F.
    proof fn lemma_id_round_trip_from_0x40(value: u16)
        requires
            0x40 <= value < 0x80,
        ensures
            Self::of_id(value).to_id() == value,
    {
    }

    /// The round trip of an id, for the ids from 0x80 up to 0xBF.
    proof fn lemma_id_round_trip_from_0x80(value: u16)
        requires
            0x80 <= value < 0xC0,
        ensures
            Self::of_id(value).to_id() == value,
    {
    }

    /// The round trip of an id, for the ids from 0xC0 up to 0xFF.
    proof fn lemma_id_round_trip_from_0xc0(value: u16)
        requires
            0xC0 <= value < 0x100,
        ensures
            Self::of_id(value).to_id() == value,
    {
    }

    /// The round trip of an id, for the ids from 0x100 up to 0x13F.
    proof fn lemma_id_round_trip_from_0x100(value: u16)
        requires
            0x100 <= value < 0x140,
        ensures
            Self::of_id(value).to_id() == value,
    {
    }

    /// The round trip of an id, for the ids from 0x140 up to 0x17F.
    proof fn lemma_id_round_trip_from_0x140(value: u16)
        requires
            0x140 <= value < 0x180,
        ensures
            Self::of_id(value).to_id() == value,
    {
    }

    /// The round trip of an id, for the ids from 0x180 up to 0x1BF.
    proof fn lemma_id_round_trip_from_0x180(value: u16)
        requires
            0x180 <= value < 0x1C0,
        ensures
            Self::of_id(value).to_id() == value,
    {
    }

    /// The round trip of an id, for the ids from 0x1C0 up to 0x1FF.
    proof fn lemma_id_round_trip_from_0x1c0(value: u16)
        requires
            0x1C0 <= value < 0x200,
        ensures
            Self::of_id(value).to_id() == value,
    {
    }

    /// The round trip of an id, for the ids from 0x200 up to 0x23F.
    proof fn lemma_id_round_trip_from_0x200(value: u16)
        requires
            0x200 <= value < 0x240,
        ensures
            Self::of_id(value).to_id() == value,
    {
    }

    /// The round trip of an id, for the ids from 0x240 up to 0x27F.
    proof fn lemma_id_round_trip_from_0x240(value: u16)
        requires
            0x240 <= value < 0x280,
        ensures
            Self::of_id(value).to_id() == value,
    {
    }

    /// The round trip of an id, for the ids from 0x280 up to 0x2BF.
    proof fn lemma_id_round_trip_from_0x280(value: u16)
        requires
            0x280 <= value < 0x2C0,
        ensures
            Self::of_id(value).to_id() == value,
    {
    }

    /// The round trip of an id, for the ids from 0x2C0 up to 0x2FF.
    proof fn lemma_id_round_trip_from_0x2c0(value: u16)
        requires
            0x2C0 <= value < 0x300,
        ensures
            Self::of_id(value).to_id() == value,
    {
    }

    /// The round trip of an id, for the ids from 0x300 up to 0x53F.
    proof fn lemma_id_round_trip_from_0x300(value: u16)
        requires
            0x300 <= value < 0x540,
        ensures
            Self::of_id(value).to_id() == value,
    {
    }

    /// Every id names a usage that carries that id.
    pub proof fn lemma_id_round_trip(value: u16)
        ensures
            Self::of_id(value).to_id() == value,
    {
        if value < 0x40 {
            Self::lemma_id_round_trip_from_0x0(value);
        } else if value < 0x80 {
            Self::lemma_id_round_trip_from_0x40(value);
        } else if value < 0xC0 {
            Self::lemma_id_round_trip_from_0x80(value);
        } else if value < 0x100 {
            Self::lemma_id_round_trip_from_0xc0(value);
        } else if value < 0x140 {
            Self::lemma_id_round_trip_from_0x100(value);
        } else if value < 0x180 {
            Self::lemma_id_round_trip_from_0x140(value);
        } else if value < 0x1C0 {
            Self::lemma_id_round_trip_from_0x180(value);
        } else if value < 0x200 {
            Self::lemma_id_round_trip_from_0x1c0(value);
        } else if value < 0x240 {
            Self::lemma_id_round_trip_from_0x200(value);
        } else if value < 0x280 {
            Self::lemma_id_round_trip_from_0x240(value);
        } else if value < 0x2C0 {
            Self::lemma_id_round_trip_from_0x280(value);
        } else if value < 0x300 {
            Self::lemma_id_round_trip_from_0x2c0(value);
        } else if value < 0x540 {
            Self::lemma_id_round_trip_from_0x300(value);
        }
    }

    /// A usage that the table names is the one its own id leads back to.
    pub proof fn lemma_named_usage_round_trip(usage: ConsumerUsage)
        requires
            !(usage is Reserved),
        ensures
            Self::of_id(usage.to_id()) == usage,
    {
    }

    /// The name of this usage; a reserved usage shows its id.
    pub open spec fn text(self) -> Seq<char> {
        match self {
            ConsumerUsage::Undefined => "Undefined"@,
            ConsumerUsage::ConsumerControl => "Consumer Control"@,
            ConsumerUsage::NumericKeyPad => "Numeric Key Pad"@,
            ConsumerUsage::ProgrammableButtons => "Programmable Buttons"@,
            ConsumerUsage::Microphone => "Microphone"@,
            ConsumerUsage::Headphone => "Headphone"@,
            ConsumerUsage::GraphicEqualizer => "Graphic Equalizer"@,
            ConsumerUsage::Plus10 => "Plus 10"@,
            ConsumerUsage::Plus100 => "Plus 100"@,
            ConsumerUsage::AmPm => "AM/PM"@,
            ConsumerUsage::Power => "Power"@,
            ConsumerUsage::Reset => "Reset"@,
            ConsumerUsage::Sleep => "Sleep"@,
            ConsumerUsage::SleepAfter => "Sleep After"@,
            ConsumerUsage::SleepMode => "Sleep Mode"@,
            ConsumerUsage::Illumination => "Illumination"@,
            ConsumerUsage::FunctionButtons => "Function Buttons"@,
            ConsumerUsage::Menu => "Menu"@,
            ConsumerUsage::MenuPick => "Menu Pick"@,
            ConsumerUsage::MenuUp => "Menu Up"@,
            ConsumerUsage::MenuDown => "Menu Down"@,
            ConsumerUsage::MenuLeft => "Menu Left"@,
            ConsumerUsage::MenuRight => "Menu Right"@,
            ConsumerUsage::MenuEscape => "Menu Escape"@,
            ConsumerUsage::MenuValueIncrease => "Menu Value Increase"@,
            ConsumerUsage::MenuValueDecrease => "Menu Value Decrease"@,
            ConsumerUsage::DataOnScreen => "Data On Screen"@,
            ConsumerUsage::ClosedCaption => "Closed Caption"@,
            ConsumerUsage::ClosedCaptionSelect => "Closed Caption Select"@,
            ConsumerUsage::VcrTv => "Vcr Tv"@,
            ConsumerUsage::BroadcastMode => "Broadcast Mode"@,
            ConsumerUsage::Snapshot => "Snapshot"@,
            ConsumerUsage::Still => "Still"@,
            ConsumerUsage::PictureInPictureToggle => "Picture In Picture Toggle"@,
            ConsumerUsage::PictureInPictureSwap => "Picture In Picture Swap"@,
            ConsumerUsage::RedMenuButton => "Red Menu Button"@,
            ConsumerUsage::GreenMenuButton => "Green Menu Button"@,
            ConsumerUsage::BlueMenuButton => "Blue Menu Button"@,
            ConsumerUsage::YellowMenuButton => "Yellow Menu Button"@,
            ConsumerUsage::Aspect => "Aspect"@,
            ConsumerUsage::Mode3DSelect => "Mode3DSelect"@,
            ConsumerUsage::DisplayBrightnessIncrement => "Display Brightness Increment"@,
            ConsumerUsage::DisplayBrightnessDecrement => "Display Brightness Decrement"@,
            ConsumerUsage::DisplayBrightness => "Display Brightness"@,
            ConsumerUsage::DisplayBacklightToggle => "Display Backlight Toggle"@,
            ConsumerUsage::DisplaySetBrightnessToMinimum => "Display Set Brightness To Minimum"@,
            ConsumerUsage::DisplaySetBrightnessToMaximum => "Display Set Brightness To Maximum"@,
            ConsumerUsage::DisplaySetAutoBrightness => "Display Set Auto Brightness"@,
            ConsumerUsage::CameraAccessEnabled => "Camera Access Enabled"@,
            ConsumerUsage::CameraAccessDisabled => "Camera Access Disabled"@,
            ConsumerUsage::CameraAccessToggle => "Camera Access Toggle"@,
            ConsumerUsage::KeyboardBrightnessIncrement => "Keyboard Brightness Increment"@,
            ConsumerUsage::KeyboardBrightnessDecrement => "Keyboard Brightness Decrement"@,
            ConsumerUsage::KeyboardBacklightSetLevel => "Keyboard Backlight Set Level"@,
            ConsumerUsage::KeyboardBacklightOOC => "Keyboard Backlight OOC"@,
            ConsumerUsage::KeyboardBacklightSetMinimum => "Keyboard Backlight Set Minimum"@,
            ConsumerUsage::KeyboardBacklightSetMaximum => "Keyboard Backlight Set Maximum"@,
            ConsumerUsage::KeyboardBacklightAuto => "Keyboard Backlight Auto"@,
            ConsumerUsage::Selection => "Selection"@,
            ConsumerUsage::AssignSelection => "Assign Selection"@,
            ConsumerUsage::ModeStep => "Mode Step"@,
            ConsumerUsage::RecallLast => "Recall Last"@,
            ConsumerUsage::EnterChannel => "Enter Channel"@,
            ConsumerUsage::OrderMovie => "Order Movie"@,
            ConsumerUsage::Channel => "Channel"@,
            ConsumerUsage::MediaSelection => "Media Selection"@,
            ConsumerUsage::MediaSelectComputer => "Media Select Computer"@,
            ConsumerUsage::MediaSelectTV => "Media Select TV"@,
            ConsumerUsage::MediaSelectWWW => "Media Select WWW"@,
            ConsumerUsage::MediaSelectDVD => "Media Select DVD"@,
            ConsumerUsage::MediaSelectTelephone => "Media Select Telephone"@,
            ConsumerUsage::MediaSelectProgramGuide => "Media Select Program Guide"@,
            ConsumerUsage::MediaSelectVideoPhone => "Media Select Video Phone"@,
            ConsumerUsage::MediaSelectGames => "Media Select Games"@,
            ConsumerUsage::MediaSelectMessages => "Media Select Messages"@,
            ConsumerUsage::MediaSelectCD => "Media Select CD"@,
            ConsumerUsage::MediaSelectVCR => "Media Select VCR"@,
            ConsumerUsage::MediaSelectTuner => "Media Select Tuner"@,
            ConsumerUsage::Quit => "Quit"@,
            ConsumerUsage::Help => "Help"@,
            ConsumerUsage::MediaSelectTape => "Media Select Tape"@,
            ConsumerUsage::MediaSelectCable => "Media Select Cable"@,
            ConsumerUsage::MediaSelectSatellite => "Media Select Satellite"@,
            ConsumerUsage::MediaSelectSecurity => "Media Select Security"@,
            ConsumerUsage::MediaSelectHome => "Media Select Home"@,
            ConsumerUsage::MediaSelectCall => "Media Select Call"@,
            ConsumerUsage::ChannelIncrement => "Channel Increment"@,
            ConsumerUsage::ChannelDecrement => "Channel Decrement"@,
            ConsumerUsage::MediaSelectSAP => "Media Select SAP"@,
            ConsumerUsage::VCRPlus => "VCRPlus"@,
            ConsumerUsage::Once => "Once"@,
            ConsumerUsage::Daily => "Daily"@,
            ConsumerUsage::Weekly => "Weekly"@,
            ConsumerUsage::Monthly => "Monthly"@,
            ConsumerUsage::Play => "Play"@,
            ConsumerUsage::Pause => "Pause"@,
            ConsumerUsage::Record => "Record"@,
            ConsumerUsage::FastForward => "Fast Forward"@,
            ConsumerUsage::Rewind => "Rewind"@,
            ConsumerUsage::ScanNextTrack => "Scan Next Track"@,
            ConsumerUsage::ScanPreviousTrack => "Scan Previous Track"@,
            ConsumerUsage::Stop => "Stop"@,
            ConsumerUsage::Eject => "Eject"@,
            ConsumerUsage::RandomPlay => "Random Play"@,
            ConsumerUsage::SelectDisc => "Select Disc"@,
            ConsumerUsage::EnterDisc => "Enter Disc"@,
            ConsumerUsage::Repeat => "Repeat"@,
            ConsumerUsage::Tracking => "Tracking"@,
            ConsumerUsage::TrackNormal => "Track Normal"@,
            ConsumerUsage::SlowTracking => "Slow Tracking"@,
            ConsumerUsage::FrameForward => "Frame Forward"@,
            ConsumerUsage::FrameBack => "Frame Back"@,
            ConsumerUsage::Mark => "Mark"@,
            ConsumerUsage::ClearMark => "Clear Mark"@,
            ConsumerUsage::RepeatFromMark => "Repeat From Mark"@,
            ConsumerUsage::ReturnToMark => "Return To Mark"@,
            ConsumerUsage::SearchMarkForward => "Search Mark Forward"@,
            ConsumerUsage::SearchMarkBackwards => "Search Mark Backwards"@,
            ConsumerUsage::CounterReset => "Counter Reset"@,
            ConsumerUsage::ShowCounter => "Show Counter"@,
            ConsumerUsage::TrackingIncrement => "Tracking Increment"@,
            ConsumerUsage::TrackingDecrement => "Tracking Decrement"@,
            ConsumerUsage::StopEject => "Stop Eject"@,
            ConsumerUsage::PlayPause => "Play Pause"@,
            ConsumerUsage::PlaySkip => "Play Skip"@,
            ConsumerUsage::VoiceCommand => "Voice Command"@,
            ConsumerUsage::InvokeCaptureInterface => "Invoke Capture Interface"@,
            ConsumerUsage::StartOrStopGameRecording => "Start Or Stop Game Recording"@,
            ConsumerUsage::HistoricalGameCapture => "Historical Game Capture"@,
            ConsumerUsage::CaptureGameScreenshot => "Capture Game Screenshot"@,
            ConsumerUsage::ShowOrHideRecordingIndicator => "Show Or Hide Recording Indicator"@,
            ConsumerUsage::StartOrStopMicrophoneCapture => "Start Or Stop Microphone Capture"@,
            ConsumerUsage::StartOrStopCameraCapture => "Start Or Stop Camera Capture"@,
            ConsumerUsage::StartOrStopGameBroadcast => "Start Or Stop Game Broadcast"@,
            ConsumerUsage::StartOrStopVoiceDictationSession => "Start Or Stop Voice Dictation Session"@,
            ConsumerUsage::InvokeDismissEmojiPicker => "Invoke Dismiss Emoji Picker"@,
            ConsumerUsage::Volume => "Volume"@,
            ConsumerUsage::Balance => "Balance"@,
            ConsumerUsage::Mute => "Mute"@,
            ConsumerUsage::Bass => "Bass"@,
            ConsumerUsage::Treble => "Treble"@,
            ConsumerUsage::BassBoost => "Bass Boost"@,
            ConsumerUsage::SurroundMode => "Surround Mode"@,
            ConsumerUsage::Loudness => "Loudness"@,
            ConsumerUsage::MPX => "MPX"@,
            ConsumerUsage::VolumeIncrement => "Volume Increment"@,
            ConsumerUsage::VolumeDecrement => "Volume Decrement"@,
            ConsumerUsage::SpeedSelect => "Speed Select"@,
            ConsumerUsage::PlaybackSpeed => "Playback Speed"@,
            ConsumerUsage::StandardPlay => "Standard Play"@,
            ConsumerUsage::LongPlay => "Long Play"@,
            ConsumerUsage::ExtendedPlay => "Extended Play"@,
            ConsumerUsage::Slow => "Slow"@,
            ConsumerUsage::FanEnable => "Fan Enable"@,
            ConsumerUsage::FanSpeed => "Fan Speed"@,
            ConsumerUsage::LightEnable => "Light Enable"@,
            ConsumerUsage::LightIlluminationLevel => "Light Illumination Level"@,
            ConsumerUsage::ClimateControlEnable => "Climate Control Enable"@,
            ConsumerUsage::RoomTemperature => "Room Temperature"@,
            ConsumerUsage::SecurityEnable => "Security Enable"@,
            ConsumerUsage::FireAlarm => "Fire Alarm"@,
            ConsumerUsage::PoliceAlarm => "Police Alarm"@,
            ConsumerUsage::Proximity => "Proximity"@,
            ConsumerUsage::Motion => "Motion"@,
            ConsumerUsage::DuressAlarm => "Duress Alarm"@,
            ConsumerUsage::HoldupAlarm => "Holdup Alarm"@,
            ConsumerUsage::MedicalAlarm => "Medical Alarm"@,
            ConsumerUsage::BalanceRight => "Balance Right"@,
            ConsumerUsage::BalanceLeft => "Balance Left"@,
            ConsumerUsage::BassIncrement => "Bass Increment"@,
            ConsumerUsage::BassDecrement => "Bass Decrement"@,
            ConsumerUsage::TrebleIncrement => "Treble Increment"@,
            ConsumerUsage::TrebleDecrement => "Treble Decrement"@,
            ConsumerUsage::SpeakerSystem => "Speaker System"@,
            ConsumerUsage::ChannelLeft => "Channel Left"@,
            ConsumerUsage::ChannelRight => "Channel Right"@,
            ConsumerUsage::ChannelCenter => "Channel Center"@,
            ConsumerUsage::ChannelFront => "Channel Front"@,
            ConsumerUsage::ChannelCenterFront => "Channel Center Front"@,
            ConsumerUsage::ChannelSide => "Channel Side"@,
            ConsumerUsage::ChannelSurround => "Channel Surround"@,
            ConsumerUsage::ChannelLowFrequencyEnhancement => "Channel Low Frequency Enhancement"@,
            ConsumerUsage::ChannelTop => "Channel Top"@,
            ConsumerUsage::ChannelUnknown => "Channel Unknown"@,
            ConsumerUsage::SubChannel => "Sub Channel"@,
            ConsumerUsage::SubChannelIncrement => "Sub Channel Increment"@,
            ConsumerUsage::SubChannelDecrement => "Sub Channel Decrement"@,
            ConsumerUsage::AlternateAudioIncrement => "Alternate Audio Increment"@,
            ConsumerUsage::AlternateAudioDecrement => "Alternate Audio Decrement"@,
            ConsumerUsage::ApplicationLaunchButtons => "Application Launch Buttons"@,
            ConsumerUsage::ALLaunchButtonConfigurationTool => "AL Launch Button Configuration Tool"@,
            ConsumerUsage::ALProgrammableButtonConfiguration => "AL Programmable Button Configuration"@,
            ConsumerUsage::ALConsumerControlConfiguration => "AL Consumer Control Configuration"@,
            ConsumerUsage::ALWordProcessor => "AL Word Processor"@,
            ConsumerUsage::ALTextEditor => "AL Text Editor"@,
            ConsumerUsage::ALSpreadsheet => "AL Spreadsheet"@,
            ConsumerUsage::ALGraphicsEditor => "AL Graphics Editor"@,
            ConsumerUsage::ALPresentationApp => "AL Presentation App"@,
            ConsumerUsage::ALDatabaseApp => "AL Database App"@,
            ConsumerUsage::ALEmailReader => "AL Email Reader"@,
            ConsumerUsage::ALNewsreader => "AL Newsreader"@,
            ConsumerUsage::ALVoicemail => "AL Voicemail"@,
            ConsumerUsage::ALContactsAddressBook => "AL Contacts Address Book"@,
            ConsumerUsage::ALCalendarSchedule => "AL Calendar Schedule"@,
            ConsumerUsage::ALTaskProjectManager => "AL Task Project Manager"@,
            ConsumerUsage::ALLogJournalTimecard => "AL Log Journal Timecard"@,
            ConsumerUsage::ALCheckbookFinance => "AL Checkbook Finance"@,
            ConsumerUsage::ALCalculator => "AL Calculator"@,
            ConsumerUsage::ALAVCapturePlayback => "AL AV Capture Playback"@,
            ConsumerUsage::ALLocalMachineBrowser => "AL Local Machine Browser"@,
            ConsumerUsage::ALLANWANBrowser => "AL LAN WAN Browser"@,
            ConsumerUsage::ALInternetBrowser => "AL Internet Browser"@,
            ConsumerUsage::ALRemoteNetworkingISPConnect => "AL Remote Networking ISP Connect"@,
            ConsumerUsage::ALNetworkConference => "AL Network Conference"@,
            ConsumerUsage::ALNetworkChat => "AL Network Chat"@,
            ConsumerUsage::ALTelephonyDialer => "AL Telephony Dialer"@,
            ConsumerUsage::ALLogon => "AL Logon"@,
            ConsumerUsage::ALLogoff => "AL Logoff"@,
            ConsumerUsage::ALLogonLogoff => "AL Logon Logoff"@,
            ConsumerUsage::ALTerminalLockScreensaver => "AL Terminal Lock Screensaver"@,
            ConsumerUsage::ALControlPanel => "AL Control Panel"@,
            ConsumerUsage::ALCommandLineProcessorRun => "AL Command Line Processor Run"@,
            ConsumerUsage::ALProcessTaskManager => "AL Process Task Manager"@,
            ConsumerUsage::ALSelectTaskApplication => "AL Select Task Application"@,
            ConsumerUsage::ALNextTaskApplication => "AL Next Task Application"@,
            ConsumerUsage::ALPreviousTaskApplication => "AL Previous Task Application"@,
            ConsumerUsage::ALPreemptiveHaltTaskApplication => "AL Preemptive Halt Task Application"@,
            ConsumerUsage::ALIntegratedHelpCenter => "AL Integrated Help Center"@,
            ConsumerUsage::ALDocuments => "AL Documents"@,
            ConsumerUsage::ALThesaurus => "AL Thesaurus"@,
            ConsumerUsage::ALDictionary => "AL Dictionary"@,
            ConsumerUsage::ALDesktop => "AL Desktop"@,
            ConsumerUsage::ALSpellCheck => "AL Spell Check"@,
            ConsumerUsage::ALGrammarCheck => "ALGrammar Check"@,
            ConsumerUsage::ALWirelessStatus => "AL Wireless Status"@,
            ConsumerUsage::ALKeyboardLayout => "AL Keyboard Layout"@,
            ConsumerUsage::ALVirusProtection => "AL Virus Protection"@,
            ConsumerUsage::ALEncryption => "AL Encryption"@,
            ConsumerUsage::ALScreenSaver => "AL Screen Saver"@,
            ConsumerUsage::ALAlarms => "AL Alarms"@,
            ConsumerUsage::ALClock => "AL Clock"@,
            ConsumerUsage::ALFileBrowser => "AL File Browser"@,
            ConsumerUsage::ALPowerStatus => "AL Power Status"@,
            ConsumerUsage::ALImageBrowser => "AL Image Browser"@,
            ConsumerUsage::ALAudioBrowser => "AL Audio Browser"@,
            ConsumerUsage::ALMovieBrowser => "AL Movie Browser"@,
            ConsumerUsage::ALDigitalRightsManager => "AL Digital Rights Manager"@,
            ConsumerUsage::ALDigitalWallet => "AL Digital Wallet"@,
            ConsumerUsage::ALInstantMessaging => "AL Instant Messaging"@,
            ConsumerUsage::ALOEMFeaturesTipsTutorialBrowser => "AL OEM Features Tips Tutorial Browser"@,
            ConsumerUsage::ALOEMHelp => "AL OEM Help"@,
            ConsumerUsage::ALOnlineCommunity => "AL Online Community"@,
            ConsumerUsage::ALEntertainmentContentBrowser => "AL Entertainment Content Browser"@,
            ConsumerUsage::ALOnlineShoppingBrowser => "AL Online Shopping Browser"@,
            ConsumerUsage::ALSmartCardInformationHelp => "AL Smart Card Information Help"@,
            ConsumerUsage::ALMarketMonitorFinanceBrowser => "AL Market Monitor Finance Browser"@,
            ConsumerUsage::ALCustomizedCorporateNewsBrowser => "AL Customized Corporate News Browser"@,
            ConsumerUsage::ALOnlineActivityBrowser => "AL Online Activity Browser"@,
            ConsumerUsage::ALResearchSearchBrowser => "AL Research Search Browser"@,
            ConsumerUsage::ALAudioPlayer => "AL Audio Player"@,
            ConsumerUsage::ALMessageStatus => "AL Message Status"@,
            ConsumerUsage::ALContactSync => "AL Contact Sync"@,
            ConsumerUsage::ALNavigation => "AL Navigation"@,
            ConsumerUsage::ALContextawareDesktopAssistant => "AL Contextaware Desktop Assistant"@,
            ConsumerUsage::GenericGUIApplicationControls => "Generic GUI Application Controls"@,
            ConsumerUsage::ACNew => "AC New"@,
            ConsumerUsage::ACOpen => "AC Open"@,
            ConsumerUsage::ACClose => "AC Close"@,
            ConsumerUsage::ACExit => "AC Exit"@,
            ConsumerUsage::ACMaximize => "AC Maximize"@,
            ConsumerUsage::ACMinimize => "AC Minimize"@,
            ConsumerUsage::ACSave => "AC Save"@,
            ConsumerUsage::ACPrint => "AC Print"@,
            ConsumerUsage::ACProperties => "AC Properties"@,
            ConsumerUsage::ACUndo => "AC Undo"@,
            ConsumerUsage::ACCopy => "AC Copy"@,
            ConsumerUsage::ACCut => "AC Cut"@,
            ConsumerUsage::ACPaste => "AC Paste"@,
            ConsumerUsage::ACSelectAll => "AC Select All"@,
            ConsumerUsage::ACFind => "AC Find"@,
            ConsumerUsage::ACFindAndReplace => "AC Find And Replace"@,
            ConsumerUsage::ACSearch => "AC Search"@,
            ConsumerUsage::ACGoTo => "AC Go To"@,
            ConsumerUsage::ACHome => "AC Home"@,
            ConsumerUsage::ACBack => "AC Back"@,
            ConsumerUsage::ACForward => "AC Forward"@,
            ConsumerUsage::ACStop => "AC Stop"@,
            ConsumerUsage::ACRefresh => "AC Refresh"@,
            ConsumerUsage::ACPreviousLink => "AC Previous Link"@,
            ConsumerUsage::ACNextLink => "AC Next Link"@,
            ConsumerUsage::ACBookmarks => "AC Bookmarks"@,
            ConsumerUsage::ACHistory => "AC History"@,
            ConsumerUsage::ACSubscriptions => "AC Subscriptions"@,
            ConsumerUsage::ACZoomIn => "AC Zoom In"@,
            ConsumerUsage::ACZoomOut => "AC Zoom Out"@,
            ConsumerUsage::ACZoom => "AC Zoom"@,
            ConsumerUsage::ACFullScreenView => "AC Full Screen View"@,
            ConsumerUsage::ACNormalView => "AC Normal View"@,
            ConsumerUsage::ACViewToggle => "AC View Toggle"@,
            ConsumerUsage::ACScrollUp => "AC Scroll Up"@,
            ConsumerUsage::ACScrollDown => "AC Scroll Down"@,
            ConsumerUsage::ACScroll => "AC Scroll"@,
            ConsumerUsage::ACPanLeft => "AC Pan Left"@,
            ConsumerUsage::ACPanRight => "AC Pan Right"@,
            ConsumerUsage::ACPan => "AC Pan"@,
            ConsumerUsage::ACNewWindow => "AC New Window"@,
            ConsumerUsage::ACTileHorizontally => "AC Tile Horizontally"@,
            ConsumerUsage::ACTileVertically => "AC Tile Vertically"@,
            ConsumerUsage::ACFormat => "AC Format"@,
            ConsumerUsage::ACEdit => "AC Edit"@,
            ConsumerUsage::ACBold => "AC Bold"@,
            ConsumerUsage::ACItalics => "AC Italics"@,
            ConsumerUsage::ACUnderline => "AC Underline"@,
            ConsumerUsage::ACStrikethrough => "AC Strikethrough"@,
            ConsumerUsage::ACSubscript => "AC Subscript"@,
            ConsumerUsage::ACSuperscript => "AC Superscript"@,
            ConsumerUsage::ACAllCaps => "AC All Caps"@,
            ConsumerUsage::ACRotate => "AC Rotate"@,
            ConsumerUsage::ACResize => "AC Resize"@,
            ConsumerUsage::ACFlipHorizontal => "AC Flip Horizontal"@,
            ConsumerUsage::ACFlipVertical => "AC Flip Vertical"@,
            ConsumerUsage::ACMirrorHorizontal => "AC Mirror Horizontal"@,
            ConsumerUsage::ACMirrorVertical => "AC Mirror Vertical"@,
            ConsumerUsage::ACFontSelect => "AC Font Select"@,
            ConsumerUsage::ACFontColor => "AC Font Color"@,
            ConsumerUsage::ACFontSize => "AC Font Size"@,
            ConsumerUsage::ACJustifyLeft => "AC Justify Left"@,
            ConsumerUsage::ACJustifyCenterH => "AC Justify CenterH"@,
            ConsumerUsage::ACJustifyRight => "AC Justify Right"@,
            ConsumerUsage::ACJustifyBlockH => "AC Justify BlockH"@,
            ConsumerUsage::ACJustifyTop => "AC Justify Top"@,
            ConsumerUsage::ACJustifyCenterV => "AC Justify CenterV"@,
            ConsumerUsage::ACJustifyBottom => "AC Justify Bottom"@,
            ConsumerUsage::ACJustifyBlockV => "AC Justify BlockV"@,
            ConsumerUsage::ACIndentDecrease => "AC Indent Decrease"@,
            ConsumerUsage::ACIndentIncrease => "AC Indent Increase"@,
            ConsumerUsage::ACNumberedList => "AC Numbered List"@,
            ConsumerUsage::ACRestartNumbering => "AC Restart Numbering"@,
            ConsumerUsage::ACBulletedList => "AC Bulleted List"@,
            ConsumerUsage::ACPromote => "AC Promote"@,
            ConsumerUsage::ACDemote => "AC Demote"@,
            ConsumerUsage::ACYes => "AC Yes"@,
            ConsumerUsage::ACNo => "AC No"@,
            ConsumerUsage::ACCancel => "AC Cancel"@,
            ConsumerUsage::ACCatalog => "AC Catalog"@,
            ConsumerUsage::ACBuyCheckout => "AC Buy Checkout"@,
            ConsumerUsage::ACAddToCart => "AC Add To Cart"@,
            ConsumerUsage::ACExpand => "AC Expand"@,
            ConsumerUsage::ACExpandAll => "AC Expand All"@,
            ConsumerUsage::ACCollapse => "AC Collapse"@,
            ConsumerUsage::ACCollapseAll => "AC Collapse All"@,
            ConsumerUsage::ACPrintPreview => "AC Print Preview"@,
            ConsumerUsage::ACPasteSpecial => "AC Paste Special"@,
            ConsumerUsage::ACInsertMode => "AC Insert Mode"@,
            ConsumerUsage::ACDelete => "AC Delete"@,
            ConsumerUsage::ACLock => "AC Lock"@,
            ConsumerUsage::ACUnlock => "AC Unlock"@,
            ConsumerUsage::ACProtect => "AC Protect"@,
            ConsumerUsage::ACUnprotect => "AC Unprotect"@,
            ConsumerUsage::ACAttachComment => "AC Attach Comment"@,
            ConsumerUsage::ACDeleteComment => "AC Delete Comment"@,
            ConsumerUsage::ACViewComment => "AC View Comment"@,
            ConsumerUsage::ACSelectWord => "AC Select Word"@,
            ConsumerUsage::ACSelectSentence => "AC Select Sentence"@,
            ConsumerUsage::ACSelectParagraph => "AC Select Paragraph"@,
            ConsumerUsage::ACSelectColumn => "AC Select Column"@,
            ConsumerUsage::ACSelectRow => "AC Select Row"@,
            ConsumerUsage::ACSelectTable => "AC Select Table"@,
            ConsumerUsage::ACSelectObject => "AC Select Object"@,
            ConsumerUsage::ACRedoRepeat => "AC Redo Repeat"@,
            ConsumerUsage::ACSort => "AC Sort"@,
            ConsumerUsage::ACSortAscending => "AC Sort Ascending"@,
            ConsumerUsage::ACSortDescending => "AC Sort Descending"@,
            ConsumerUsage::ACFilter => "AC Filter"@,
            ConsumerUsage::ACSetClock => "AC Set Clock"@,
            ConsumerUsage::ACViewClock => "AC View Clock"@,
            ConsumerUsage::ACSelectTimeZone => "AC Select Time Zone"@,
            ConsumerUsage::ACEditTimeZones => "AC Edit Time Zones"@,
            ConsumerUsage::ACSetAlarm => "AC Set Alarm"@,
            ConsumerUsage::ACClearAlarm => "AC Clear Alarm"@,
            ConsumerUsage::ACSnoozeAlarm => "AC Snooze Alarm"@,
            ConsumerUsage::ACResetAlarm => "AC Reset Alarm"@,
            ConsumerUsage::ACSynchronize => "AC Synchronize"@,
            ConsumerUsage::ACSendReceive => "AC Send Receive"@,
            ConsumerUsage::ACSendTo => "AC Send To"@,
            ConsumerUsage::ACReply => "AC Reply"@,
            ConsumerUsage::ACReplyAll => "AC Reply All"@,
            ConsumerUsage::ACForwardMsg => "AC Forward Msg"@,
            ConsumerUsage::ACSend => "AC Send"@,
            ConsumerUsage::ACAttachFile => "AC Attach File"@,
            ConsumerUsage::ACUpload => "AC Upload"@,
            ConsumerUsage::ACDownloadSaveTargetAs => "AC Download Save Target As"@,
            ConsumerUsage::ACSetBorders => "AC Set Borders"@,
            ConsumerUsage::ACInsertRow => "AC Insert Row"@,
            ConsumerUsage::ACInsertColumn => "AC Insert Column"@,
            ConsumerUsage::ACInsertFile => "AC Insert File"@,
            ConsumerUsage::ACInsertPicture => "AC Insert Picture"@,
            ConsumerUsage::ACInsertObject => "AC Insert Object"@,
            ConsumerUsage::ACInsertSymbol => "AC Insert Symbol"@,
            ConsumerUsage::ACSaveAndClose => "AC Save And Close"@,
            ConsumerUsage::ACRename => "AC Rename"@,
            ConsumerUsage::ACMerge => "AC Merge"@,
            ConsumerUsage::ACSplit => "AC Split"@,
            ConsumerUsage::ACDistributeHorizontally => "AC Distribute Horizontally"@,
            ConsumerUsage::ACDistributeVertically => "AC Distribute Vertically"@,
            ConsumerUsage::ACNextKeyboardLayoutSelect => "AC Next Keyboard Layout Select"@,
            ConsumerUsage::ACNavigationGuidance => "AC Navigation Guidance"@,
            ConsumerUsage::ACDesktopShowAllWindows => "AC Desktop Show All Windows"@,
            ConsumerUsage::ACSoftKeyLeft => "AC Soft Key Left"@,
            ConsumerUsage::ACSoftKeyRight => "AC Soft Key Right"@,
            ConsumerUsage::ACDesktopShowAllApplications => "AC Desktop Show All Applications"@,
            ConsumerUsage::ACIdleKeepAlive => "AC Idle Keep Alive"@,
            ConsumerUsage::ExtendedKeyboardAttributesCollection => "Extended Keyboard Attributes Collection"@,
            ConsumerUsage::KeyboardFormFactor => "Keyboard Form Factor"@,
            ConsumerUsage::KeyboardKeyType => "Keyboard Key Type"@,
            ConsumerUsage::KeyboardPhysicalLayout => "Keyboard Physical Layout"@,
            ConsumerUsage::VendorSpecificKeyboardPhysicalLayout => "Vendor Specific Keyboard Physical Layout"@,
            ConsumerUsage::KeyboardIETFLanguageTagIndex => "Keyboard IETFLanguage Tag Index"@,
            ConsumerUsage::ImplementedKeyboardInputAssistControls => "Implemented Keyboard Input Assist Controls"@,
            ConsumerUsage::KeyboardInputAssistPrevious => "Keyboard Input Assist Previous"@,
            ConsumerUsage::KeyboardInputAssistNext => "Keyboard Input Assist Next"@,
            ConsumerUsage::KeyboardInputAssistPreviousGroup => "Keyboard Input Assist Previous Group"@,
            ConsumerUsage::KeyboardInputAssistNextGroup => "Keyboard Input Assist Next Group"@,
            ConsumerUsage::KeyboardInputAssistAccept => "Keyboard Input Assist Accept"@,
            ConsumerUsage::KeyboardInputAssistCancel => "Keyboard Input Assist Cancel"@,
            ConsumerUsage::PrivacyScreenToggle => "Privacy Screen Toggle"@,
            ConsumerUsage::PrivacyScreenLevelDecrement => "Privacy Screen Level Decrement"@,
            ConsumerUsage::PrivacyScreenLevelIncrement => "Privacy Screen Level Increment"@,
            ConsumerUsage::PrivacyScreenLevelMinimum => "Privacy Screen Level Minimum"@,
            ConsumerUsage::PrivacyScreenLevelMaximum => "Privacy Screen Level Maximum"@,
            ConsumerUsage::ContactEdited => "Contact Edited"@,
            ConsumerUsage::ContactAdded => "Contact Added"@,
            ConsumerUsage::ContactRecordActive => "Contact Record Active"@,
            ConsumerUsage::ContactIndex => "Contact Index"@,
            ConsumerUsage::ContactNickname => "Contact Nickname"@,
            ConsumerUsage::ContactFirstName => "Contact First Name"@,
            ConsumerUsage::ContactLastName => "Contact Last Name"@,
            ConsumerUsage::ContactFullName => "Contact Full Name"@,
            ConsumerUsage::ContactPhoneNumberPersonal => "Contact Phone Number Personal"@,
            ConsumerUsage::ContactPhoneNumberBusiness => "Contact Phone Number Business"@,
            ConsumerUsage::ContactPhoneNumberMobile => "Contact Phone Number Mobile"@,
            ConsumerUsage::ContactPhoneNumberPager => "Contact Phone Number Pager"@,
            ConsumerUsage::ContactPhoneNumberFax => "Contact Phone Number Fax"@,
            ConsumerUsage::ContactPhoneNumberOther => "Contact Phone Number Other"@,
            ConsumerUsage::ContactEmailPersonal => "Contact Email Personal"@,
            ConsumerUsage::ContactEmailBusiness => "Contact Email Business"@,
            ConsumerUsage::ContactEmailOther => "Contact Email Other"@,
            ConsumerUsage::ContactEmailMain => "Contact Email Main"@,
            ConsumerUsage::ContactSpeedDialNumber => "Contact Speed Dial Number"@,
            ConsumerUsage::ContactStatusFlag => "Contact Status Flag"@,
            ConsumerUsage::ContactMisc => "Contact Misc"@,
            ConsumerUsage::Reserved(i) => "Reserved("@ + decimal(i as int) + ")"@,
        }
    }

    /// Returns the name of this usage.
    pub fn to_string(&self) -> (text: String)
        ensures
            text@ == self.text(),
    {
        match self {
            ConsumerUsage::Undefined => "Undefined".to_owned(),
            ConsumerUsage::ConsumerControl => "Consumer Control".to_owned(),
            ConsumerUsage::NumericKeyPad => "Numeric Key Pad".to_owned(),
            ConsumerUsage::ProgrammableButtons => "Programmable Buttons".to_owned(),
            ConsumerUsage::Microphone => "Microphone".to_owned(),
            ConsumerUsage::Headphone => "Headphone".to_owned(),
            ConsumerUsage::GraphicEqualizer => "Graphic Equalizer".to_owned(),
            ConsumerUsage::Plus10 => "Plus 10".to_owned(),
            ConsumerUsage::Plus100 => "Plus 100".to_owned(),
            ConsumerUsage::AmPm => "AM/PM".to_owned(),
            ConsumerUsage::Power => "Power".to_owned(),
            ConsumerUsage::Reset => "Reset".to_owned(),
            ConsumerUsage::Sleep => "Sleep".to_owned(),
            ConsumerUsage::SleepAfter => "Sleep After".to_owned(),
            ConsumerUsage::SleepMode => "Sleep Mode".to_owned(),
            ConsumerUsage::Illumination => "Illumination".to_owned(),
            ConsumerUsage::FunctionButtons => "Function Buttons".to_owned(),
            ConsumerUsage::Menu => "Menu".to_owned(),
            ConsumerUsage::MenuPick => "Menu Pick".to_owned(),
            ConsumerUsage::MenuUp => "Menu Up".to_owned(),
            ConsumerUsage::MenuDown => "Menu Down".to_owned(),
            ConsumerUsage::MenuLeft => "Menu Left".to_owned(),
            ConsumerUsage::MenuRight => "Menu Right".to_owned(),
            ConsumerUsage::MenuEscape => "Menu Escape".to_owned(),
            ConsumerUsage::MenuValueIncrease => "Menu Value Increase".to_owned(),
            ConsumerUsage::MenuValueDecrease => "Menu Value Decrease".to_owned(),
            ConsumerUsage::DataOnScreen => "Data On Screen".to_owned(),
            ConsumerUsage::ClosedCaption => "Closed Caption".to_owned(),
            ConsumerUsage::ClosedCaptionSelect => "Closed Caption Select".to_owned(),
            ConsumerUsage::VcrTv => "Vcr Tv".to_owned(),
            ConsumerUsage::BroadcastMode => "Broadcast Mode".to_owned(),
            ConsumerUsage::Snapshot => "Snapshot".to_owned(),
            ConsumerUsage::Still => "Still".to_owned(),
            ConsumerUsage::PictureInPictureToggle => "Picture In Picture Toggle".to_owned(),
            ConsumerUsage::PictureInPictureSwap => "Picture In Picture Swap".to_owned(),
            ConsumerUsage::RedMenuButton => "Red Menu Button".to_owned(),
            ConsumerUsage::GreenMenuButton => "Green Menu Button".to_owned(),
            ConsumerUsage::BlueMenuButton => "Blue Menu Button".to_owned(),
            ConsumerUsage::YellowMenuButton => "Yellow Menu Button".to_owned(),
            ConsumerUsage::Aspect => "Aspect".to_owned(),
            ConsumerUsage::Mode3DSelect => "Mode3DSelect".to_owned(),
            ConsumerUsage::DisplayBrightnessIncrement => "Display Brightness Increment".to_owned(),
            ConsumerUsage::DisplayBrightnessDecrement => "Display Brightness Decrement".to_owned(),
            ConsumerUsage::DisplayBrightness => "Display Brightness".to_owned(),
            ConsumerUsage::DisplayBacklightToggle => "Display Backlight Toggle".to_owned(),
            ConsumerUsage::DisplaySetBrightnessToMinimum => "Display Set Brightness To Minimum".to_owned(),
            ConsumerUsage::DisplaySetBrightnessToMaximum => "Display Set Brightness To Maximum".to_owned(),
            ConsumerUsage::DisplaySetAutoBrightness => "Display Set Auto Brightness".to_owned(),
            ConsumerUsage::CameraAccessEnabled => "Camera Access Enabled".to_owned(),
            ConsumerUsage::CameraAccessDisabled => "Camera Access Disabled".to_owned(),
            ConsumerUsage::CameraAccessToggle => "Camera Access Toggle".to_owned(),
            ConsumerUsage::KeyboardBrightnessIncrement => "Keyboard Brightness Increment".to_owned(),
            ConsumerUsage::KeyboardBrightnessDecrement => "Keyboard Brightness Decrement".to_owned(),
            ConsumerUsage::KeyboardBacklightSetLevel => "Keyboard Backlight Set Level".to_owned(),
            ConsumerUsage::KeyboardBacklightOOC => "Keyboard Backlight OOC".to_owned(),
            ConsumerUsage::KeyboardBacklightSetMinimum => "Keyboard Backlight Set Minimum".to_owned(),
            ConsumerUsage::KeyboardBacklightSetMaximum => "Keyboard Backlight Set Maximum".to_owned(),
            ConsumerUsage::KeyboardBacklightAuto => "Keyboard Backlight Auto".to_owned(),
            ConsumerUsage::Selection => "Selection".to_owned(),
            ConsumerUsage::AssignSelection => "Assign Selection".to_owned(),
            ConsumerUsage::ModeStep => "Mode Step".to_owned(),
            ConsumerUsage::RecallLast => "Recall Last".to_owned(),
            ConsumerUsage::EnterChannel => "Enter Channel".to_owned(),
            ConsumerUsage::OrderMovie => "Order Movie".to_owned(),
            ConsumerUsage::Channel => "Channel".to_owned(),
            ConsumerUsage::MediaSelection => "Media Selection".to_owned(),
            ConsumerUsage::MediaSelectComputer => "Media Select Computer".to_owned(),
            ConsumerUsage::MediaSelectTV => "Media Select TV".to_owned(),
            ConsumerUsage::MediaSelectWWW => "Media Select WWW".to_owned(),
            ConsumerUsage::MediaSelectDVD => "Media Select DVD".to_owned(),
            ConsumerUsage::MediaSelectTelephone => "Media Select Telephone".to_owned(),
            ConsumerUsage::MediaSelectProgramGuide => "Media Select Program Guide".to_owned(),
            ConsumerUsage::MediaSelectVideoPhone => "Media Select Video Phone".to_owned(),
            ConsumerUsage::MediaSelectGames => "Media Select Games".to_owned(),
            ConsumerUsage::MediaSelectMessages => "Media Select Messages".to_owned(),
            ConsumerUsage::MediaSelectCD => "Media Select CD".to_owned(),
            ConsumerUsage::MediaSelectVCR => "Media Select VCR".to_owned(),
            ConsumerUsage::MediaSelectTuner => "Media Select Tuner".to_owned(),
            ConsumerUsage::Quit => "Quit".to_owned(),
            ConsumerUsage::Help => "Help".to_owned(),
            ConsumerUsage::MediaSelectTape => "Media Select Tape".to_owned(),
            ConsumerUsage::MediaSelectCable => "Media Select Cable".to_owned(),
            ConsumerUsage::MediaSelectSatellite => "Media Select Satellite".to_owned(),
            ConsumerUsage::MediaSelectSecurity => "Media Select Security".to_owned(),
            ConsumerUsage::MediaSelectHome => "Media Select Home".to_owned(),
            ConsumerUsage::MediaSelectCall => "Media Select Call".to_owned(),
            ConsumerUsage::ChannelIncrement => "Channel Increment".to_owned(),
            ConsumerUsage::ChannelDecrement => "Channel Decrement".to_owned(),
            ConsumerUsage::MediaSelectSAP => "Media Select SAP".to_owned(),
            ConsumerUsage::VCRPlus => "VCRPlus".to_owned(),
            ConsumerUsage::Once => "Once".to_owned(),
            ConsumerUsage::Daily => "Daily".to_owned(),
            ConsumerUsage::Weekly => "Weekly".to_owned(),
            ConsumerUsage::Monthly => "Monthly".to_owned(),
            ConsumerUsage::Play => "Play".to_owned(),
            ConsumerUsage::Pause => "Pause".to_owned(),
            ConsumerUsage::Record => "Record".to_owned(),
            ConsumerUsage::FastForward => "Fast Forward".to_owned(),
            ConsumerUsage::Rewind => "Rewind".to_owned(),
            ConsumerUsage::ScanNextTrack => "Scan Next Track".to_owned(),
            ConsumerUsage::ScanPreviousTrack => "Scan Previous Track".to_owned(),
            ConsumerUsage::Stop => "Stop".to_owned(),
            ConsumerUsage::Eject => "Eject".to_owned(),
            ConsumerUsage::RandomPlay => "Random Play".to_owned(),
            ConsumerUsage::SelectDisc => "Select Disc".to_owned(),
            ConsumerUsage::EnterDisc => "Enter Disc".to_owned(),
            ConsumerUsage::Repeat => "Repeat".to_owned(),
            ConsumerUsage::Tracking => "Tracking".to_owned(),
            ConsumerUsage::TrackNormal => "Track Normal".to_owned(),
            ConsumerUsage::SlowTracking => "Slow Tracking".to_owned(),
            ConsumerUsage::FrameForward => "Frame Forward".to_owned(),
            ConsumerUsage::FrameBack => "Frame Back".to_owned(),
            ConsumerUsage::Mark => "Mark".to_owned(),
            ConsumerUsage::ClearMark => "Clear Mark".to_owned(),
            ConsumerUsage::RepeatFromMark => "Repeat From Mark".to_owned(),
            ConsumerUsage::ReturnToMark => "Return To Mark".to_owned(),
            ConsumerUsage::SearchMarkForward => "Search Mark Forward".to_owned(),
            ConsumerUsage::SearchMarkBackwards => "Search Mark Backwards".to_owned(),
            ConsumerUsage::CounterReset => "Counter Reset".to_owned(),
            ConsumerUsage::ShowCounter => "Show Counter".to_owned(),
            ConsumerUsage::TrackingIncrement => "Tracking Increment".to_owned(),
            ConsumerUsage::TrackingDecrement => "Tracking Decrement".to_owned(),
            ConsumerUsage::StopEject => "Stop Eject".to_owned(),
            ConsumerUsage::PlayPause => "Play Pause".to_owned(),
            ConsumerUsage::PlaySkip => "Play Skip".to_owned(),
            ConsumerUsage::VoiceCommand => "Voice Command".to_owned(),
            ConsumerUsage::InvokeCaptureInterface => "Invoke Capture Interface".to_owned(),
            ConsumerUsage::StartOrStopGameRecording => "Start Or Stop Game Recording".to_owned(),
            ConsumerUsage::HistoricalGameCapture => "Historical Game Capture".to_owned(),
            ConsumerUsage::CaptureGameScreenshot => "Capture Game Screenshot".to_owned(),
            ConsumerUsage::ShowOrHideRecordingIndicator => "Show Or Hide Recording Indicator".to_owned(),
            ConsumerUsage::StartOrStopMicrophoneCapture => "Start Or Stop Microphone Capture".to_owned(),
            ConsumerUsage::StartOrStopCameraCapture => "Start Or Stop Camera Capture".to_owned(),
            ConsumerUsage::StartOrStopGameBroadcast => "Start Or Stop Game Broadcast".to_owned(),
            ConsumerUsage::StartOrStopVoiceDictationSession => "Start Or Stop Voice Dictation Session".to_owned(),
            ConsumerUsage::InvokeDismissEmojiPicker => "Invoke Dismiss Emoji Picker".to_owned(),
            ConsumerUsage::Volume => "Volume".to_owned(),
            ConsumerUsage::Balance => "Balance".to_owned(),
            ConsumerUsage::Mute => "Mute".to_owned(),
            ConsumerUsage::Bass => "Bass".to_owned(),
            ConsumerUsage::Treble => "Treble".to_owned(),
            ConsumerUsage::BassBoost => "Bass Boost".to_owned(),
            ConsumerUsage::SurroundMode => "Surround Mode".to_owned(),
            ConsumerUsage::Loudness => "Loudness".to_owned(),
            ConsumerUsage::MPX => "MPX".to_owned(),
            ConsumerUsage::VolumeIncrement => "Volume Increment".to_owned(),
            ConsumerUsage::VolumeDecrement => "Volume Decrement".to_owned(),
            ConsumerUsage::SpeedSelect => "Speed Select".to_owned(),
            ConsumerUsage::PlaybackSpeed => "Playback Speed".to_owned(),
            ConsumerUsage::StandardPlay => "Standard Play".to_owned(),
            ConsumerUsage::LongPlay => "Long Play".to_owned(),
            ConsumerUsage::ExtendedPlay => "Extended Play".to_owned(),
            ConsumerUsage::Slow => "Slow".to_owned(),
            ConsumerUsage::FanEnable => "Fan Enable".to_owned(),
            ConsumerUsage::FanSpeed => "Fan Speed".to_owned(),
            ConsumerUsage::LightEnable => "Light Enable".to_owned(),
            ConsumerUsage::LightIlluminationLevel => "Light Illumination Level".to_owned(),
            ConsumerUsage::ClimateControlEnable => "Climate Control Enable".to_owned(),
            ConsumerUsage::RoomTemperature => "Room Temperature".to_owned(),
            ConsumerUsage::SecurityEnable => "Security Enable".to_owned(),
            ConsumerUsage::FireAlarm => "Fire Alarm".to_owned(),
            ConsumerUsage::PoliceAlarm => "Police Alarm".to_owned(),
            ConsumerUsage::Proximity => "Proximity".to_owned(),
            ConsumerUsage::Motion => "Motion".to_owned(),
            ConsumerUsage::DuressAlarm => "Duress Alarm".to_owned(),
            ConsumerUsage::HoldupAlarm => "Holdup Alarm".to_owned(),
            ConsumerUsage::MedicalAlarm => "Medical Alarm".to_owned(),
            ConsumerUsage::BalanceRight => "Balance Right".to_owned(),
            ConsumerUsage::BalanceLeft => "Balance Left".to_owned(),
            ConsumerUsage::BassIncrement => "Bass Increment".to_owned(),
            ConsumerUsage::BassDecrement => "Bass Decrement".to_owned(),
            ConsumerUsage::TrebleIncrement => "Treble Increment".to_owned(),
            ConsumerUsage::TrebleDecrement => "Treble Decrement".to_owned(),
            ConsumerUsage::SpeakerSystem => "Speaker System".to_owned(),
            ConsumerUsage::ChannelLeft => "Channel Left".to_owned(),
            ConsumerUsage::ChannelRight => "Channel Right".to_owned(),
            ConsumerUsage::ChannelCenter => "Channel Center".to_owned(),
            ConsumerUsage::ChannelFront => "Channel Front".to_owned(),
            ConsumerUsage::ChannelCenterFront => "Channel Center Front".to_owned(),
            ConsumerUsage::ChannelSide => "Channel Side".to_owned(),
            ConsumerUsage::ChannelSurround => "Channel Surround".to_owned(),
            ConsumerUsage::ChannelLowFrequencyEnhancement => "Channel Low Frequency Enhancement".to_owned(),
            ConsumerUsage::ChannelTop => "Channel Top".to_owned(),
            ConsumerUsage::ChannelUnknown => "Channel Unknown".to_owned(),
            ConsumerUsage::SubChannel => "Sub Channel".to_owned(),
            ConsumerUsage::SubChannelIncrement => "Sub Channel Increment".to_owned(),
            ConsumerUsage::SubChannelDecrement => "Sub Channel Decrement".to_owned(),
            ConsumerUsage::AlternateAudioIncrement => "Alternate Audio Increment".to_owned(),
            ConsumerUsage::AlternateAudioDecrement => "Alternate Audio Decrement".to_owned(),
            ConsumerUsage::ApplicationLaunchButtons => "Application Launch Buttons".to_owned(),
            ConsumerUsage::ALLaunchButtonConfigurationTool => "AL Launch Button Configuration Tool".to_owned(),
            ConsumerUsage::ALProgrammableButtonConfiguration => "AL Programmable Button Configuration".to_owned(),
            ConsumerUsage::ALConsumerControlConfiguration => "AL Consumer Control Configuration".to_owned(),
            ConsumerUsage::ALWordProcessor => "AL Word Processor".to_owned(),
            ConsumerUsage::ALTextEditor => "AL Text Editor".to_owned(),
            ConsumerUsage::ALSpreadsheet => "AL Spreadsheet".to_owned(),
            ConsumerUsage::ALGraphicsEditor => "AL Graphics Editor".to_owned(),
            ConsumerUsage::ALPresentationApp => "AL Presentation App".to_owned(),
            ConsumerUsage::ALDatabaseApp => "AL Database App".to_owned(),
            ConsumerUsage::ALEmailReader => "AL Email Reader".to_owned(),
            ConsumerUsage::ALNewsreader => "AL Newsreader".to_owned(),
            ConsumerUsage::ALVoicemail => "AL Voicemail".to_owned(),
            ConsumerUsage::ALContactsAddressBook => "AL Contacts Address Book".to_owned(),
            ConsumerUsage::ALCalendarSchedule => "AL Calendar Schedule".to_owned(),
            ConsumerUsage::ALTaskProjectManager => "AL Task Project Manager".to_owned(),
            ConsumerUsage::ALLogJournalTimecard => "AL Log Journal Timecard".to_owned(),
            ConsumerUsage::ALCheckbookFinance => "AL Checkbook Finance".to_owned(),
            ConsumerUsage::ALCalculator => "AL Calculator".to_owned(),
            ConsumerUsage::ALAVCapturePlayback => "AL AV Capture Playback".to_owned(),
            ConsumerUsage::ALLocalMachineBrowser => "AL Local Machine Browser".to_owned(),
            ConsumerUsage::ALLANWANBrowser => "AL LAN WAN Browser".to_owned(),
            ConsumerUsage::ALInternetBrowser => "AL Internet Browser".to_owned(),
            ConsumerUsage::ALRemoteNetworkingISPConnect => "AL Remote Networking ISP Connect".to_owned(),
            ConsumerUsage::ALNetworkConference => "AL Network Conference".to_owned(),
            ConsumerUsage::ALNetworkChat => "AL Network Chat".to_owned(),
            ConsumerUsage::ALTelephonyDialer => "AL Telephony Dialer".to_owned(),
            ConsumerUsage::ALLogon => "AL Logon".to_owned(),
            ConsumerUsage::ALLogoff => "AL Logoff".to_owned(),
            ConsumerUsage::ALLogonLogoff => "AL Logon Logoff".to_owned(),
            ConsumerUsage::ALTerminalLockScreensaver => "AL Terminal Lock Screensaver".to_owned(),
            ConsumerUsage::ALControlPanel => "AL Control Panel".to_owned(),
            ConsumerUsage::ALCommandLineProcessorRun => "AL Command Line Processor Run".to_owned(),
            ConsumerUsage::ALProcessTaskManager => "AL Process Task Manager".to_owned(),
            ConsumerUsage::ALSelectTaskApplication => "AL Select Task Application".to_owned(),
            ConsumerUsage::ALNextTaskApplication => "AL Next Task Application".to_owned(),
            ConsumerUsage::ALPreviousTaskApplication => "AL Previous Task Application".to_owned(),
            ConsumerUsage::ALPreemptiveHaltTaskApplication => "AL Preemptive Halt Task Application".to_owned(),
            ConsumerUsage::ALIntegratedHelpCenter => "AL Integrated Help Center".to_owned(),
            ConsumerUsage::ALDocuments => "AL Documents".to_owned(),
            ConsumerUsage::ALThesaurus => "AL Thesaurus".to_owned(),
            ConsumerUsage::ALDictionary => "AL Dictionary".to_owned(),
            ConsumerUsage::ALDesktop => "AL Desktop".to_owned(),
            ConsumerUsage::ALSpellCheck => "AL Spell Check".to_owned(),
            ConsumerUsage::ALGrammarCheck => "ALGrammar Check".to_owned(),
            ConsumerUsage::ALWirelessStatus => "AL Wireless Status".to_owned(),
            ConsumerUsage::ALKeyboardLayout => "AL Keyboard Layout".to_owned(),
            ConsumerUsage::ALVirusProtection => "AL Virus Protection".to_owned(),
            ConsumerUsage::ALEncryption => "AL Encryption".to_owned(),
            ConsumerUsage::ALScreenSaver => "AL Screen Saver".to_owned(),
            ConsumerUsage::ALAlarms => "AL Alarms".to_owned(),
            ConsumerUsage::ALClock => "AL Clock".to_owned(),
            ConsumerUsage::ALFileBrowser => "AL File Browser".to_owned(),
            ConsumerUsage::ALPowerStatus => "AL Power Status".to_owned(),
            ConsumerUsage::ALImageBrowser => "AL Image Browser".to_owned(),
            ConsumerUsage::ALAudioBrowser => "AL Audio Browser".to_owned(),
            ConsumerUsage::ALMovieBrowser => "AL Movie Browser".to_owned(),
            ConsumerUsage::ALDigitalRightsManager => "AL Digital Rights Manager".to_owned(),
            ConsumerUsage::ALDigitalWallet => "AL Digital Wallet".to_owned(),
            ConsumerUsage::ALInstantMessaging => "AL Instant Messaging".to_owned(),
            ConsumerUsage::ALOEMFeaturesTipsTutorialBrowser => "AL OEM Features Tips Tutorial Browser".to_owned(),
            ConsumerUsage::ALOEMHelp => "AL OEM Help".to_owned(),
            ConsumerUsage::ALOnlineCommunity => "AL Online Community".to_owned(),
            ConsumerUsage::ALEntertainmentContentBrowser => "AL Entertainment Content Browser".to_owned(),
            ConsumerUsage::ALOnlineShoppingBrowser => "AL Online Shopping Browser".to_owned(),
            ConsumerUsage::ALSmartCardInformationHelp => "AL Smart Card Information Help".to_owned(),
            ConsumerUsage::ALMarketMonitorFinanceBrowser => "AL Market Monitor Finance Browser".to_owned(),
            ConsumerUsage::ALCustomizedCorporateNewsBrowser => "AL Customized Corporate News Browser".to_owned(),
            ConsumerUsage::ALOnlineActivityBrowser => "AL Online Activity Browser".to_owned(),
            ConsumerUsage::ALResearchSearchBrowser => "AL Research Search Browser".to_owned(),
            ConsumerUsage::ALAudioPlayer => "AL Audio Player".to_owned(),
            ConsumerUsage::ALMessageStatus => "AL Message Status".to_owned(),
            ConsumerUsage::ALContactSync => "AL Contact Sync".to_owned(),
            ConsumerUsage::ALNavigation => "AL Navigation".to_owned(),
            ConsumerUsage::ALContextawareDesktopAssistant => "AL Contextaware Desktop Assistant".to_owned(),
            ConsumerUsage::GenericGUIApplicationControls => "Generic GUI Application Controls".to_owned(),
            ConsumerUsage::ACNew => "AC New".to_owned(),
            ConsumerUsage::ACOpen => "AC Open".to_owned(),
            ConsumerUsage::ACClose => "AC Close".to_owned(),
            ConsumerUsage::ACExit => "AC Exit".to_owned(),
            ConsumerUsage::ACMaximize => "AC Maximize".to_owned(),
            ConsumerUsage::ACMinimize => "AC Minimize".to_owned(),
            ConsumerUsage::ACSave => "AC Save".to_owned(),
            ConsumerUsage::ACPrint => "AC Print".to_owned(),
            ConsumerUsage::ACProperties => "AC Properties".to_owned(),
            ConsumerUsage::ACUndo => "AC Undo".to_owned(),
            ConsumerUsage::ACCopy => "AC Copy".to_owned(),
            ConsumerUsage::ACCut => "AC Cut".to_owned(),
            ConsumerUsage::ACPaste => "AC Paste".to_owned(),
            ConsumerUsage::ACSelectAll => "AC Select All".to_owned(),
            ConsumerUsage::ACFind => "AC Find".to_owned(),
            ConsumerUsage::ACFindAndReplace => "AC Find And Replace".to_owned(),
            ConsumerUsage::ACSearch => "AC Search".to_owned(),
            ConsumerUsage::ACGoTo => "AC Go To".to_owned(),
            ConsumerUsage::ACHome => "AC Home".to_owned(),
            ConsumerUsage::ACBack => "AC Back".to_owned(),
            ConsumerUsage::ACForward => "AC Forward".to_owned(),
            ConsumerUsage::ACStop => "AC Stop".to_owned(),
            ConsumerUsage::ACRefresh => "AC Refresh".to_owned(),
            ConsumerUsage::ACPreviousLink => "AC Previous Link".to_owned(),
            ConsumerUsage::ACNextLink => "AC Next Link".to_owned(),
            ConsumerUsage::ACBookmarks => "AC Bookmarks".to_owned(),
            ConsumerUsage::ACHistory => "AC History".to_owned(),
            ConsumerUsage::ACSubscriptions => "AC Subscriptions".to_owned(),
            ConsumerUsage::ACZoomIn => "AC Zoom In".to_owned(),
            ConsumerUsage::ACZoomOut => "AC Zoom Out".to_owned(),
            ConsumerUsage::ACZoom => "AC Zoom".to_owned(),
            ConsumerUsage::ACFullScreenView => "AC Full Screen View".to_owned(),
            ConsumerUsage::ACNormalView => "AC Normal View".to_owned(),
            ConsumerUsage::ACViewToggle => "AC View Toggle".to_owned(),
            ConsumerUsage::ACScrollUp => "AC Scroll Up".to_owned(),
            ConsumerUsage::ACScrollDown => "AC Scroll Down".to_owned(),
            ConsumerUsage::ACScroll => "AC Scroll".to_owned(),
            ConsumerUsage::ACPanLeft => "AC Pan Left".to_owned(),
            ConsumerUsage::ACPanRight => "AC Pan Right".to_owned(),
            ConsumerUsage::ACPan => "AC Pan".to_owned(),
            ConsumerUsage::ACNewWindow => "AC New Window".to_owned(),
            ConsumerUsage::ACTileHorizontally => "AC Tile Horizontally".to_owned(),
            ConsumerUsage::ACTileVertically => "AC Tile Vertically".to_owned(),
            ConsumerUsage::ACFormat => "AC Format".to_owned(),
            ConsumerUsage::ACEdit => "AC Edit".to_owned(),
            ConsumerUsage::ACBold => "AC Bold".to_owned(),
            ConsumerUsage::ACItalics => "AC Italics".to_owned(),
            ConsumerUsage::ACUnderline => "AC Underline".to_owned(),
            ConsumerUsage::ACStrikethrough => "AC Strikethrough".to_owned(),
            ConsumerUsage::ACSubscript => "AC Subscript".to_owned(),
            ConsumerUsage::ACSuperscript => "AC Superscript".to_owned(),
            ConsumerUsage::ACAllCaps => "AC All Caps".to_owned(),
            ConsumerUsage::ACRotate => "AC Rotate".to_owned(),
            ConsumerUsage::ACResize => "AC Resize".to_owned(),
            ConsumerUsage::ACFlipHorizontal => "AC Flip Horizontal".to_owned(),
            ConsumerUsage::ACFlipVertical => "AC Flip Vertical".to_owned(),
            ConsumerUsage::ACMirrorHorizontal => "AC Mirror Horizontal".to_owned(),
            ConsumerUsage::ACMirrorVertical => "AC Mirror Vertical".to_owned(),
            ConsumerUsage::ACFontSelect => "AC Font Select".to_owned(),
            ConsumerUsage::ACFontColor => "AC Font Color".to_owned(),
            ConsumerUsage::ACFontSize => "AC Font Size".to_owned(),
            ConsumerUsage::ACJustifyLeft => "AC Justify Left".to_owned(),
            ConsumerUsage::ACJustifyCenterH => "AC Justify CenterH".to_owned(),
            ConsumerUsage::ACJustifyRight => "AC Justify Right".to_owned(),
            ConsumerUsage::ACJustifyBlockH => "AC Justify BlockH".to_owned(),
            ConsumerUsage::ACJustifyTop => "AC Justify Top".to_owned(),
            ConsumerUsage::ACJustifyCenterV => "AC Justify CenterV".to_owned(),
            ConsumerUsage::ACJustifyBottom => "AC Justify Bottom".to_owned(),
            ConsumerUsage::ACJustifyBlockV => "AC Justify BlockV".to_owned(),
            ConsumerUsage::ACIndentDecrease => "AC Indent Decrease".to_owned(),
            ConsumerUsage::ACIndentIncrease => "AC Indent Increase".to_owned(),
            ConsumerUsage::ACNumberedList => "AC Numbered List".to_owned(),
            ConsumerUsage::ACRestartNumbering => "AC Restart Numbering".to_owned(),
            ConsumerUsage::ACBulletedList => "AC Bulleted List".to_owned(),
            ConsumerUsage::ACPromote => "AC Promote".to_owned(),
            ConsumerUsage::ACDemote => "AC Demote".to_owned(),
            ConsumerUsage::ACYes => "AC Yes".to_owned(),
            ConsumerUsage::ACNo => "AC No".to_owned(),
            ConsumerUsage::ACCancel => "AC Cancel".to_owned(),
            ConsumerUsage::ACCatalog => "AC Catalog".to_owned(),
            ConsumerUsage::ACBuyCheckout => "AC Buy Checkout".to_owned(),
            ConsumerUsage::ACAddToCart => "AC Add To Cart".to_owned(),
            ConsumerUsage::ACExpand => "AC Expand".to_owned(),
            ConsumerUsage::ACExpandAll => "AC Expand All".to_owned(),
            ConsumerUsage::ACCollapse => "AC Collapse".to_owned(),
            ConsumerUsage::ACCollapseAll => "AC Collapse All".to_owned(),
            ConsumerUsage::ACPrintPreview => "AC Print Preview".to_owned(),
            ConsumerUsage::ACPasteSpecial => "AC Paste Special".to_owned(),
            ConsumerUsage::ACInsertMode => "AC Insert Mode".to_owned(),
            ConsumerUsage::ACDelete => "AC Delete".to_owned(),
            ConsumerUsage::ACLock => "AC Lock".to_owned(),
            ConsumerUsage::ACUnlock => "AC Unlock".to_owned(),
            ConsumerUsage::ACProtect => "AC Protect".to_owned(),
            ConsumerUsage::ACUnprotect => "AC Unprotect".to_owned(),
            ConsumerUsage::ACAttachComment => "AC Attach Comment".to_owned(),
            ConsumerUsage::ACDeleteComment => "AC Delete Comment".to_owned(),
            ConsumerUsage::ACViewComment => "AC View Comment".to_owned(),
            ConsumerUsage::ACSelectWord => "AC Select Word".to_owned(),
            ConsumerUsage::ACSelectSentence => "AC Select Sentence".to_owned(),
            ConsumerUsage::ACSelectParagraph => "AC Select Paragraph".to_owned(),
            ConsumerUsage::ACSelectColumn => "AC Select Column".to_owned(),
            ConsumerUsage::ACSelectRow => "AC Select Row".to_owned(),
            ConsumerUsage::ACSelectTable => "AC Select Table".to_owned(),
            ConsumerUsage::ACSelectObject => "AC Select Object".to_owned(),
            ConsumerUsage::ACRedoRepeat => "AC Redo Repeat".to_owned(),
            ConsumerUsage::ACSort => "AC Sort".to_owned(),
            ConsumerUsage::ACSortAscending => "AC Sort Ascending".to_owned(),
            ConsumerUsage::ACSortDescending => "AC Sort Descending".to_owned(),
            ConsumerUsage::ACFilter => "AC Filter".to_owned(),
            ConsumerUsage::ACSetClock => "AC Set Clock".to_owned(),
            ConsumerUsage::ACViewClock => "AC View Clock".to_owned(),
            ConsumerUsage::ACSelectTimeZone => "AC Select Time Zone".to_owned(),
            ConsumerUsage::ACEditTimeZones => "AC Edit Time Zones".to_owned(),
            ConsumerUsage::ACSetAlarm => "AC Set Alarm".to_owned(),
            ConsumerUsage::ACClearAlarm => "AC Clear Alarm".to_owned(),
            ConsumerUsage::ACSnoozeAlarm => "AC Snooze Alarm".to_owned(),
            ConsumerUsage::ACResetAlarm => "AC Reset Alarm".to_owned(),
            ConsumerUsage::ACSynchronize => "AC Synchronize".to_owned(),
            ConsumerUsage::ACSendReceive => "AC Send Receive".to_owned(),
            ConsumerUsage::ACSendTo => "AC Send To".to_owned(),
            ConsumerUsage::ACReply => "AC Reply".to_owned(),
            ConsumerUsage::ACReplyAll => "AC Reply All".to_owned(),
            ConsumerUsage::ACForwardMsg => "AC Forward Msg".to_owned(),
            ConsumerUsage::ACSend => "AC Send".to_owned(),
            ConsumerUsage::ACAttachFile => "AC Attach File".to_owned(),
            ConsumerUsage::ACUpload => "AC Upload".to_owned(),
            ConsumerUsage::ACDownloadSaveTargetAs => "AC Download Save Target As".to_owned(),
            ConsumerUsage::ACSetBorders => "AC Set Borders".to_owned(),
            ConsumerUsage::ACInsertRow => "AC Insert Row".to_owned(),
            ConsumerUsage::ACInsertColumn => "AC Insert Column".to_owned(),
            ConsumerUsage::ACInsertFile => "AC Insert File".to_owned(),
            ConsumerUsage::ACInsertPicture => "AC Insert Picture".to_owned(),
            ConsumerUsage::ACInsertObject => "AC Insert Object".to_owned(),
            ConsumerUsage::ACInsertSymbol => "AC Insert Symbol".to_owned(),
            ConsumerUsage::ACSaveAndClose => "AC Save And Close".to_owned(),
            ConsumerUsage::ACRename => "AC Rename".to_owned(),
            ConsumerUsage::ACMerge => "AC Merge".to_owned(),
            ConsumerUsage::ACSplit => "AC Split".to_owned(),
            ConsumerUsage::ACDistributeHorizontally => "AC Distribute Horizontally".to_owned(),
            ConsumerUsage::ACDistributeVertically => "AC Distribute Vertically".to_owned(),
            ConsumerUsage::ACNextKeyboardLayoutSelect => "AC Next Keyboard Layout Select".to_owned(),
            ConsumerUsage::ACNavigationGuidance => "AC Navigation Guidance".to_owned(),
            ConsumerUsage::ACDesktopShowAllWindows => "AC Desktop Show All Windows".to_owned(),
            ConsumerUsage::ACSoftKeyLeft => "AC Soft Key Left".to_owned(),
            ConsumerUsage::ACSoftKeyRight => "AC Soft Key Right".to_owned(),
            ConsumerUsage::ACDesktopShowAllApplications => "AC Desktop Show All Applications".to_owned(),
            ConsumerUsage::ACIdleKeepAlive => "AC Idle Keep Alive".to_owned(),
            ConsumerUsage::ExtendedKeyboardAttributesCollection => "Extended Keyboard Attributes Collection".to_owned(),
            ConsumerUsage::KeyboardFormFactor => "Keyboard Form Factor".to_owned(),
            ConsumerUsage::KeyboardKeyType => "Keyboard Key Type".to_owned(),
            ConsumerUsage::KeyboardPhysicalLayout => "Keyboard Physical Layout".to_owned(),
            ConsumerUsage::VendorSpecificKeyboardPhysicalLayout => "Vendor Specific Keyboard Physical Layout".to_owned(),
            ConsumerUsage::KeyboardIETFLanguageTagIndex => "Keyboard IETFLanguage Tag Index".to_owned(),
            ConsumerUsage::ImplementedKeyboardInputAssistControls => "Implemented Keyboard Input Assist Controls".to_owned(),
            ConsumerUsage::KeyboardInputAssistPrevious => "Keyboard Input Assist Previous".to_owned(),
            ConsumerUsage::KeyboardInputAssistNext => "Keyboard Input Assist Next".to_owned(),
            ConsumerUsage::KeyboardInputAssistPreviousGroup => "Keyboard Input Assist Previous Group".to_owned(),
            ConsumerUsage::KeyboardInputAssistNextGroup => "Keyboard Input Assist Next Group".to_owned(),
            ConsumerUsage::KeyboardInputAssistAccept => "Keyboard Input Assist Accept".to_owned(),
            ConsumerUsage::KeyboardInputAssistCancel => "Keyboard Input Assist Cancel".to_owned(),
            ConsumerUsage::PrivacyScreenToggle => "Privacy Screen Toggle".to_owned(),
            ConsumerUsage::PrivacyScreenLevelDecrement => "Privacy Screen Level Decrement".to_owned(),
            ConsumerUsage::PrivacyScreenLevelIncrement => "Privacy Screen Level Increment".to_owned(),
            ConsumerUsage::PrivacyScreenLevelMinimum => "Privacy Screen Level Minimum".to_owned(),
            ConsumerUsage::PrivacyScreenLevelMaximum => "Privacy Screen Level Maximum".to_owned(),
            ConsumerUsage::ContactEdited => "Contact Edited".to_owned(),
            ConsumerUsage::ContactAdded => "Contact Added".to_owned(),
            ConsumerUsage::ContactRecordActive => "Contact Record Active".to_owned(),
            ConsumerUsage::ContactIndex => "Contact Index".to_owned(),
            ConsumerUsage::ContactNickname => "Contact Nickname".to_owned(),
            ConsumerUsage::ContactFirstName => "Contact First Name".to_owned(),
            ConsumerUsage::ContactLastName => "Contact Last Name".to_owned(),
            ConsumerUsage::ContactFullName => "Contact Full Name".to_owned(),
            ConsumerUsage::ContactPhoneNumberPersonal => "Contact Phone Number Personal".to_owned(),
            ConsumerUsage::ContactPhoneNumberBusiness => "Contact Phone Number Business".to_owned(),
            ConsumerUsage::ContactPhoneNumberMobile => "Contact Phone Number Mobile".to_owned(),
            ConsumerUsage::ContactPhoneNumberPager => "Contact Phone Number Pager".to_owned(),
            ConsumerUsage::ContactPhoneNumberFax => "Contact Phone Number Fax".to_owned(),
            ConsumerUsage::ContactPhoneNumberOther => "Contact Phone Number Other".to_owned(),
            ConsumerUsage::ContactEmailPersonal => "Contact Email Personal".to_owned(),
            ConsumerUsage::ContactEmailBusiness => "Contact Email Business".to_owned(),
            ConsumerUsage::ContactEmailOther => "Contact Email Other".to_owned(),
            ConsumerUsage::ContactEmailMain => "Contact Email Main".to_owned(),
            ConsumerUsage::ContactSpeedDialNumber => "Contact Speed Dial Number".to_owned(),
            ConsumerUsage::ContactStatusFlag => "Contact Status Flag".to_owned(),
            ConsumerUsage::ContactMisc => "Contact Misc".to_owned(),
            ConsumerUsage::Reserved(i) => {
                let mut text = "Reserved(".to_owned();
                push_decimal(&mut text, *i as i64);
                push_str(&mut text, ")");
                text
            },
        }
    }
}

impl From<u16> for ConsumerUsage {
    fn from(value: u16) -> (usage: Self) {
        match value {
            0x00 => ConsumerUsage::Undefined,
            0x01 => ConsumerUsage::ConsumerControl,
            0x02 => ConsumerUsage::NumericKeyPad,
            0x03 => ConsumerUsage::ProgrammableButtons,
            0x04 => ConsumerUsage::Microphone,
            0x05 => ConsumerUsage::Headphone,
            0x06 => ConsumerUsage::GraphicEqualizer,
            0x20 => ConsumerUsage::Plus10,
            0x21 => ConsumerUsage::Plus100,
            0x22 => ConsumerUsage::AmPm,
            0x30 => ConsumerUsage::Power,
            0x31 => ConsumerUsage::Reset,
            0x32 => ConsumerUsage::Sleep,
            0x33 => ConsumerUsage::SleepAfter,
            0x34 => ConsumerUsage::SleepMode,
            0x35 => ConsumerUsage::Illumination,
            0x36 => ConsumerUsage::FunctionButtons,
            0x40 => ConsumerUsage::Menu,
            0x41 => ConsumerUsage::MenuPick,
            0x42 => ConsumerUsage::MenuUp,
            0x43 => ConsumerUsage::MenuDown,
            0x44 => ConsumerUsage::MenuLeft,
            0x45 => ConsumerUsage::MenuRight,
            0x46 => ConsumerUsage::MenuEscape,
            0x47 => ConsumerUsage::MenuValueIncrease,
            0x48 => ConsumerUsage::MenuValueDecrease,
            0x60 => ConsumerUsage::DataOnScreen,
            0x61 => ConsumerUsage::ClosedCaption,
            0x62 => ConsumerUsage::ClosedCaptionSelect,
            0x63 => ConsumerUsage::VcrTv,
            0x64 => ConsumerUsage::BroadcastMode,
            0x65 => ConsumerUsage::Snapshot,
            0x66 => ConsumerUsage::Still,
            0x67 => ConsumerUsage::PictureInPictureToggle,
            0x68 => ConsumerUsage::PictureInPictureSwap,
            0x69 => ConsumerUsage::RedMenuButton,
            0x6A => ConsumerUsage::GreenMenuButton,
            0x6B => ConsumerUsage::BlueMenuButton,
            0x6C => ConsumerUsage::YellowMenuButton,
            0x6D => ConsumerUsage::Aspect,
            0x6E => ConsumerUsage::Mode3DSelect,
            0x6F => ConsumerUsage::DisplayBrightnessIncrement,
            0x70 => ConsumerUsage::DisplayBrightnessDecrement,
            0x71 => ConsumerUsage::DisplayBrightness,
            0x72 => ConsumerUsage::DisplayBacklightToggle,
            0x73 => ConsumerUsage::DisplaySetBrightnessToMinimum,
            0x74 => ConsumerUsage::DisplaySetBrightnessToMaximum,
            0x75 => ConsumerUsage::DisplaySetAutoBrightness,
            0x76 => ConsumerUsage::CameraAccessEnabled,
            0x77 => ConsumerUsage::CameraAccessDisabled,
            0x78 => ConsumerUsage::CameraAccessToggle,
            0x79 => ConsumerUsage::KeyboardBrightnessIncrement,
            0x7A => ConsumerUsage::KeyboardBrightnessDecrement,
            0x7B => ConsumerUsage::KeyboardBacklightSetLevel,
            0x7C => ConsumerUsage::KeyboardBacklightOOC,
            0x7D => ConsumerUsage::KeyboardBacklightSetMinimum,
            0x7E => ConsumerUsage::KeyboardBacklightSetMaximum,
            0x7F => ConsumerUsage::KeyboardBacklightAuto,
            0x80 => ConsumerUsage::Selection,
            0x81 => ConsumerUsage::AssignSelection,
            0x82 => ConsumerUsage::ModeStep,
            0x83 => ConsumerUsage::RecallLast,
            0x84 => ConsumerUsage::EnterChannel,
            0x85 => ConsumerUsage::OrderMovie,
            0x86 => ConsumerUsage::Channel,
            0x87 => ConsumerUsage::MediaSelection,
            0x88 => ConsumerUsage::MediaSelectComputer,
            0x89 => ConsumerUsage::MediaSelectTV,
            0x8A => ConsumerUsage::MediaSelectWWW,
            0x8B => ConsumerUsage::MediaSelectDVD,
            0x8C => ConsumerUsage::MediaSelectTelephone,
            0x8D => ConsumerUsage::MediaSelectProgramGuide,
            0x8E => ConsumerUsage::MediaSelectVideoPhone,
            0x8F => ConsumerUsage::MediaSelectGames,
            0x90 => ConsumerUsage::MediaSelectMessages,
            0x91 => ConsumerUsage::MediaSelectCD,
            0x92 => ConsumerUsage::MediaSelectVCR,
            0x93 => ConsumerUsage::MediaSelectTuner,
            0x94 => ConsumerUsage::Quit,
            0x95 => ConsumerUsage::Help,
            0x96 => ConsumerUsage::MediaSelectTape,
            0x97 => ConsumerUsage::MediaSelectCable,
            0x98 => ConsumerUsage::MediaSelectSatellite,
            0x99 => ConsumerUsage::MediaSelectSecurity,
            0x9A => ConsumerUsage::MediaSelectHome,
            0x9B => ConsumerUsage::MediaSelectCall,
            0x9C => ConsumerUsage::ChannelIncrement,
            0x9D => ConsumerUsage::ChannelDecrement,
            0x9E => ConsumerUsage::MediaSelectSAP,
            0xA0 => ConsumerUsage::VCRPlus,
            0xA1 => ConsumerUsage::Once,
            0xA2 => ConsumerUsage::Daily,
            0xA3 => ConsumerUsage::Weekly,
            0xA4 => ConsumerUsage::Monthly,
            0xB0 => ConsumerUsage::Play,
            0xB1 => ConsumerUsage::Pause,
            0xB2 => ConsumerUsage::Record,
            0xB3 => ConsumerUsage::FastForward,
            0xB4 => ConsumerUsage::Rewind,
            0xB5 => ConsumerUsage::ScanNextTrack,
            0xB6 => ConsumerUsage::ScanPreviousTrack,
            0xB7 => ConsumerUsage::Stop,
            0xB8 => ConsumerUsage::Eject,
            0xB9 => ConsumerUsage::RandomPlay,
            0xBA => ConsumerUsage::SelectDisc,
            0xBB => ConsumerUsage::EnterDisc,
            0xBC => ConsumerUsage::Repeat,
            0xBD => ConsumerUsage::Tracking,
            0xBE => ConsumerUsage::TrackNormal,
            0xBF => ConsumerUsage::SlowTracking,
            0xC0 => ConsumerUsage::FrameForward,
            0xC1 => ConsumerUsage::FrameBack,
            0xC2 => ConsumerUsage::Mark,
            0xC3 => ConsumerUsage::ClearMark,
            0xC4 => ConsumerUsage::RepeatFromMark,
            0xC5 => ConsumerUsage::ReturnToMark,
            0xC6 => ConsumerUsage::SearchMarkForward,
            0xC7 => ConsumerUsage::SearchMarkBackwards,
            0xC8 => ConsumerUsage::CounterReset,
            0xC9 => ConsumerUsage::ShowCounter,
            0xCA => ConsumerUsage::TrackingIncrement,
            0xCB => ConsumerUsage::TrackingDecrement,
            0xCC => ConsumerUsage::StopEject,
            0xCD => ConsumerUsage::PlayPause,
            0xCE => ConsumerUsage::PlaySkip,
            0xCF => ConsumerUsage::VoiceCommand,
            0xD0 => ConsumerUsage::InvokeCaptureInterface,
            0xD1 => ConsumerUsage::StartOrStopGameRecording,
            0xD2 => ConsumerUsage::HistoricalGameCapture,
            0xD3 => ConsumerUsage::CaptureGameScreenshot,
            0xD4 => ConsumerUsage::ShowOrHideRecordingIndicator,
            0xD5 => ConsumerUsage::StartOrStopMicrophoneCapture,
            0xD6 => ConsumerUsage::StartOrStopCameraCapture,
            0xD7 => ConsumerUsage::StartOrStopGameBroadcast,
            0xD8 => ConsumerUsage::StartOrStopVoiceDictationSession,
            0xD9 => ConsumerUsage::InvokeDismissEmojiPicker,
            0xE0 => ConsumerUsage::Volume,
            0xE1 => ConsumerUsage::Balance,
            0xE2 => ConsumerUsage::Mute,
            0xE3 => ConsumerUsage::Bass,
            0xE4 => ConsumerUsage::Treble,
            0xE5 => ConsumerUsage::BassBoost,
            0xE6 => ConsumerUsage::SurroundMode,
            0xE7 => ConsumerUsage::Loudness,
            0xE8 => ConsumerUsage::MPX,
            0xE9 => ConsumerUsage::VolumeIncrement,
            0xEA => ConsumerUsage::VolumeDecrement,
            0xF0 => ConsumerUsage::SpeedSelect,
            0xF1 => ConsumerUsage::PlaybackSpeed,
            0xF2 => ConsumerUsage::StandardPlay,
            0xF3 => ConsumerUsage::LongPlay,
            0xF4 => ConsumerUsage::ExtendedPlay,
            0xF5 => ConsumerUsage::Slow,
            0x100 => ConsumerUsage::FanEnable,
            0x101 => ConsumerUsage::FanSpeed,
            0x102 => ConsumerUsage::LightEnable,
            0x103 => ConsumerUsage::LightIlluminationLevel,
            0x104 => ConsumerUsage::ClimateControlEnable,
            0x105 => ConsumerUsage::RoomTemperature,
            0x106 => ConsumerUsage::SecurityEnable,
            0x107 => ConsumerUsage::FireAlarm,
            0x108 => ConsumerUsage::PoliceAlarm,
            0x109 => ConsumerUsage::Proximity,
            0x10A => ConsumerUsage::Motion,
            0x10B => ConsumerUsage::DuressAlarm,
            0x10C => ConsumerUsage::HoldupAlarm,
            0x10D => ConsumerUsage::MedicalAlarm,
            0x150 => ConsumerUsage::BalanceRight,
            0x151 => ConsumerUsage::BalanceLeft,
            0x152 => ConsumerUsage::BassIncrement,
            0x153 => ConsumerUsage::BassDecrement,
            0x154 => ConsumerUsage::TrebleIncrement,
            0x155 => ConsumerUsage::TrebleDecrement,
            0x160 => ConsumerUsage::SpeakerSystem,
            0x161 => ConsumerUsage::ChannelLeft,
            0x162 => ConsumerUsage::ChannelRight,
            0x163 => ConsumerUsage::ChannelCenter,
            0x164 => ConsumerUsage::ChannelFront,
            0x165 => ConsumerUsage::ChannelCenterFront,
            0x166 => ConsumerUsage::ChannelSide,
            0x167 => ConsumerUsage::ChannelSurround,
            0x168 => ConsumerUsage::ChannelLowFrequencyEnhancement,
            0x169 => ConsumerUsage::ChannelTop,
            0x16A => ConsumerUsage::ChannelUnknown,
            0x170 => ConsumerUsage::SubChannel,
            0x171 => ConsumerUsage::SubChannelIncrement,
            0x172 => ConsumerUsage::SubChannelDecrement,
            0x173 => ConsumerUsage::AlternateAudioIncrement,
            0x174 => ConsumerUsage::AlternateAudioDecrement,
            0x180 => ConsumerUsage::ApplicationLaunchButtons,
            0x181 => ConsumerUsage::ALLaunchButtonConfigurationTool,
            0x182 => ConsumerUsage::ALProgrammableButtonConfiguration,
            0x183 => ConsumerUsage::ALConsumerControlConfiguration,
            0x184 => ConsumerUsage::ALWordProcessor,
            0x185 => ConsumerUsage::ALTextEditor,
            0x186 => ConsumerUsage::ALSpreadsheet,
            0x187 => ConsumerUsage::ALGraphicsEditor,
            0x188 => ConsumerUsage::ALPresentationApp,
            0x189 => ConsumerUsage::ALDatabaseApp,
            0x18A => ConsumerUsage::ALEmailReader,
            0x18B => ConsumerUsage::ALNewsreader,
            0x18C => ConsumerUsage::ALVoicemail,
            0x18D => ConsumerUsage::ALContactsAddressBook,
            0x18E => ConsumerUsage::ALCalendarSchedule,
            0x18F => ConsumerUsage::ALTaskProjectManager,
            0x190 => ConsumerUsage::ALLogJournalTimecard,
            0x191 => ConsumerUsage::ALCheckbookFinance,
            0x192 => ConsumerUsage::ALCalculator,
            0x193 => ConsumerUsage::ALAVCapturePlayback,
            0x194 => ConsumerUsage::ALLocalMachineBrowser,
            0x195 => ConsumerUsage::ALLANWANBrowser,
            0x196 => ConsumerUsage::ALInternetBrowser,
            0x197 => ConsumerUsage::ALRemoteNetworkingISPConnect,
            0x198 => ConsumerUsage::ALNetworkConference,
            0x199 => ConsumerUsage::ALNetworkChat,
            0x19A => ConsumerUsage::ALTelephonyDialer,
            0x19B => ConsumerUsage::ALLogon,
            0x19C => ConsumerUsage::ALLogoff,
            0x19D => ConsumerUsage::ALLogonLogoff,
            0x19E => ConsumerUsage::ALTerminalLockScreensaver,
            0x19F => ConsumerUsage::ALControlPanel,
            0x1A0 => ConsumerUsage::ALCommandLineProcessorRun,
            0x1A1 => ConsumerUsage::ALProcessTaskManager,
            0x1A2 => ConsumerUsage::ALSelectTaskApplication,
            0x1A3 => ConsumerUsage::ALNextTaskApplication,
            0x1A4 => ConsumerUsage::ALPreviousTaskApplication,
            0x1A5 => ConsumerUsage::ALPreemptiveHaltTaskApplication,
            0x1A6 => ConsumerUsage::ALIntegratedHelpCenter,
            0x1A7 => ConsumerUsage::ALDocuments,
            0x1A8 => ConsumerUsage::ALThesaurus,
            0x1A9 => ConsumerUsage::ALDictionary,
            0x1AA => ConsumerUsage::ALDesktop,
            0x1AB => ConsumerUsage::ALSpellCheck,
            0x1AC => ConsumerUsage::ALGrammarCheck,
            0x1AD => ConsumerUsage::ALWirelessStatus,
            0x1AE => ConsumerUsage::ALKeyboardLayout,
            0x1AF => ConsumerUsage::ALVirusProtection,
            0x1B0 => ConsumerUsage::ALEncryption,
            0x1B1 => ConsumerUsage::ALScreenSaver,
            0x1B2 => ConsumerUsage::ALAlarms,
            0x1B3 => ConsumerUsage::ALClock,
            0x1B4 => ConsumerUsage::ALFileBrowser,
            0x1B5 => ConsumerUsage::ALPowerStatus,
            0x1B6 => ConsumerUsage::ALImageBrowser,
            0x1B7 => ConsumerUsage::ALAudioBrowser,
            0x1B8 => ConsumerUsage::ALMovieBrowser,
            0x1B9 => ConsumerUsage::ALDigitalRightsManager,
            0x1BA => ConsumerUsage::ALDigitalWallet,
            0x1BC => ConsumerUsage::ALInstantMessaging,
            0x1BD => ConsumerUsage::ALOEMFeaturesTipsTutorialBrowser,
            0x1BE => ConsumerUsage::ALOEMHelp,
            0x1BF => ConsumerUsage::ALOnlineCommunity,
            0x1C0 => ConsumerUsage::ALEntertainmentContentBrowser,
            0x1C1 => ConsumerUsage::ALOnlineShoppingBrowser,
            0x1C2 => ConsumerUsage::ALSmartCardInformationHelp,
            0x1C3 => ConsumerUsage::ALMarketMonitorFinanceBrowser,
            0x1C4 => ConsumerUsage::ALCustomizedCorporateNewsBrowser,
            0x1C5 => ConsumerUsage::ALOnlineActivityBrowser,
            0x1C6 => ConsumerUsage::ALResearchSearchBrowser,
            0x1C7 => ConsumerUsage::ALAudioPlayer,
            0x1C8 => ConsumerUsage::ALMessageStatus,
            0x1C9 => ConsumerUsage::ALContactSync,
            0x1CA => ConsumerUsage::ALNavigation,
            0x1CB => ConsumerUsage::ALContextawareDesktopAssistant,
            0x200 => ConsumerUsage::GenericGUIApplicationControls,
            0x201 => ConsumerUsage::ACNew,
            0x202 => ConsumerUsage::ACOpen,
            0x203 => ConsumerUsage::ACClose,
            0x204 => ConsumerUsage::ACExit,
            0x205 => ConsumerUsage::ACMaximize,
            0x206 => ConsumerUsage::ACMinimize,
            0x207 => ConsumerUsage::ACSave,
            0x208 => ConsumerUsage::ACPrint,
            0x209 => ConsumerUsage::ACProperties,
            0x21A => ConsumerUsage::ACUndo,
            0x21B => ConsumerUsage::ACCopy,
            0x21C => ConsumerUsage::ACCut,
            0x21D => ConsumerUsage::ACPaste,
            0x21E => ConsumerUsage::ACSelectAll,
            0x21F => ConsumerUsage::ACFind,
            0x220 => ConsumerUsage::ACFindAndReplace,
            0x221 => ConsumerUsage::ACSearch,
            0x222 => ConsumerUsage::ACGoTo,
            0x223 => ConsumerUsage::ACHome,
            0x224 => ConsumerUsage::ACBack,
            0x225 => ConsumerUsage::ACForward,
            0x226 => ConsumerUsage::ACStop,
            0x227 => ConsumerUsage::ACRefresh,
            0x228 => ConsumerUsage::ACPreviousLink,
            0x229 => ConsumerUsage::ACNextLink,
            0x22A => ConsumerUsage::ACBookmarks,
            0x22B => ConsumerUsage::ACHistory,
            0x22C => ConsumerUsage::ACSubscriptions,
            0x22D => ConsumerUsage::ACZoomIn,
            0x22E => ConsumerUsage::ACZoomOut,
            0x22F => ConsumerUsage::ACZoom,
            0x230 => ConsumerUsage::ACFullScreenView,
            0x231 => ConsumerUsage::ACNormalView,
            0x232 => ConsumerUsage::ACViewToggle,
            0x233 => ConsumerUsage::ACScrollUp,
            0x234 => ConsumerUsage::ACScrollDown,
            0x235 => ConsumerUsage::ACScroll,
            0x236 => ConsumerUsage::ACPanLeft,
            0x237 => ConsumerUsage::ACPanRight,
            0x238 => ConsumerUsage::ACPan,
            0x239 => ConsumerUsage::ACNewWindow,
            0x23A => ConsumerUsage::ACTileHorizontally,
            0x23B => ConsumerUsage::ACTileVertically,
            0x23C => ConsumerUsage::ACFormat,
            0x23D => ConsumerUsage::ACEdit,
            0x23E => ConsumerUsage::ACBold,
            0x23F => ConsumerUsage::ACItalics,
            0x240 => ConsumerUsage::ACUnderline,
            0x241 => ConsumerUsage::ACStrikethrough,
            0x242 => ConsumerUsage::ACSubscript,
            0x243 => ConsumerUsage::ACSuperscript,
            0x244 => ConsumerUsage::ACAllCaps,
            0x245 => ConsumerUsage::ACRotate,
            0x246 => ConsumerUsage::ACResize,
            0x247 => ConsumerUsage::ACFlipHorizontal,
            0x248 => ConsumerUsage::ACFlipVertical,
            0x249 => ConsumerUsage::ACMirrorHorizontal,
            0x24A => ConsumerUsage::ACMirrorVertical,
            0x24B => ConsumerUsage::ACFontSelect,
            0x24C => ConsumerUsage::ACFontColor,
            0x24D => ConsumerUsage::ACFontSize,
            0x24E => ConsumerUsage::ACJustifyLeft,
            0x24F => ConsumerUsage::ACJustifyCenterH,
            0x250 => ConsumerUsage::ACJustifyRight,
            0x251 => ConsumerUsage::ACJustifyBlockH,
            0x252 => ConsumerUsage::ACJustifyTop,
            0x253 => ConsumerUsage::ACJustifyCenterV,
            0x254 => ConsumerUsage::ACJustifyBottom,
            0x255 => ConsumerUsage::ACJustifyBlockV,
            0x256 => ConsumerUsage::ACIndentDecrease,
            0x257 => ConsumerUsage::ACIndentIncrease,
            0x258 => ConsumerUsage::ACNumberedList,
            0x259 => ConsumerUsage::ACRestartNumbering,
            0x25A => ConsumerUsage::ACBulletedList,
            0x25B => ConsumerUsage::ACPromote,
            0x25C => ConsumerUsage::ACDemote,
            0x25D => ConsumerUsage::ACYes,
            0x25E => ConsumerUsage::ACNo,
            0x25F => ConsumerUsage::ACCancel,
            0x260 => ConsumerUsage::ACCatalog,
            0x261 => ConsumerUsage::ACBuyCheckout,
            0x262 => ConsumerUsage::ACAddToCart,
            0x263 => ConsumerUsage::ACExpand,
            0x264 => ConsumerUsage::ACExpandAll,
            0x265 => ConsumerUsage::ACCollapse,
            0x266 => ConsumerUsage::ACCollapseAll,
            0x267 => ConsumerUsage::ACPrintPreview,
            0x268 => ConsumerUsage::ACPasteSpecial,
            0x269 => ConsumerUsage::ACInsertMode,
            0x26A => ConsumerUsage::ACDelete,
            0x26B => ConsumerUsage::ACLock,
            0x26C => ConsumerUsage::ACUnlock,
            0x26D => ConsumerUsage::ACProtect,
            0x26E => ConsumerUsage::ACUnprotect,
            0x26F => ConsumerUsage::ACAttachComment,
            0x270 => ConsumerUsage::ACDeleteComment,
            0x271 => ConsumerUsage::ACViewComment,
            0x272 => ConsumerUsage::ACSelectWord,
            0x273 => ConsumerUsage::ACSelectSentence,
            0x274 => ConsumerUsage::ACSelectParagraph,
            0x275 => ConsumerUsage::ACSelectColumn,
            0x276 => ConsumerUsage::ACSelectRow,
            0x277 => ConsumerUsage::ACSelectTable,
            0x278 => ConsumerUsage::ACSelectObject,
            0x279 => ConsumerUsage::ACRedoRepeat,
            0x27A => ConsumerUsage::ACSort,
            0x27B => ConsumerUsage::ACSortAscending,
            0x27C => ConsumerUsage::ACSortDescending,
            0x27D => ConsumerUsage::ACFilter,
            0x27E => ConsumerUsage::ACSetClock,
            0x27F => ConsumerUsage::ACViewClock,
            0x280 => ConsumerUsage::ACSelectTimeZone,
            0x281 => ConsumerUsage::ACEditTimeZones,
            0x282 => ConsumerUsage::ACSetAlarm,
            0x283 => ConsumerUsage::ACClearAlarm,
            0x284 => ConsumerUsage::ACSnoozeAlarm,
            0x285 => ConsumerUsage::ACResetAlarm,
            0x286 => ConsumerUsage::ACSynchronize,
            0x287 => ConsumerUsage::ACSendReceive,
            0x288 => ConsumerUsage::ACSendTo,
            0x289 => ConsumerUsage::ACReply,
            0x28A => ConsumerUsage::ACReplyAll,
            0x28B => ConsumerUsage::ACForwardMsg,
            0x28C => ConsumerUsage::ACSend,
            0x28D => ConsumerUsage::ACAttachFile,
            0x28E => ConsumerUsage::ACUpload,
            0x28F => ConsumerUsage::ACDownloadSaveTargetAs,
            0x290 => ConsumerUsage::ACSetBorders,
            0x291 => ConsumerUsage::ACInsertRow,
            0x292 => ConsumerUsage::ACInsertColumn,
            0x293 => ConsumerUsage::ACInsertFile,
            0x294 => ConsumerUsage::ACInsertPicture,
            0x295 => ConsumerUsage::ACInsertObject,
            0x296 => ConsumerUsage::ACInsertSymbol,
            0x297 => ConsumerUsage::ACSaveAndClose,
            0x298 => ConsumerUsage::ACRename,
            0x299 => ConsumerUsage::ACMerge,
            0x29A => ConsumerUsage::ACSplit,
            0x29B => ConsumerUsage::ACDistributeHorizontally,
            0x29C => ConsumerUsage::ACDistributeVertically,
            0x29D => ConsumerUsage::ACNextKeyboardLayoutSelect,
            0x29E => ConsumerUsage::ACNavigationGuidance,
            0x29F => ConsumerUsage::ACDesktopShowAllWindows,
            0x2A0 => ConsumerUsage::ACSoftKeyLeft,
            0x2A1 => ConsumerUsage::ACSoftKeyRight,
            0x2A2 => ConsumerUsage::ACDesktopShowAllApplications,
            0x2B0 => ConsumerUsage::ACIdleKeepAlive,
            0x2C0 => ConsumerUsage::ExtendedKeyboardAttributesCollection,
            0x2C1 => ConsumerUsage::KeyboardFormFactor,
            0x2C2 => ConsumerUsage::KeyboardKeyType,
            0x2C3 => ConsumerUsage::KeyboardPhysicalLayout,
            0x2C4 => ConsumerUsage::VendorSpecificKeyboardPhysicalLayout,
            0x2C5 => ConsumerUsage::KeyboardIETFLanguageTagIndex,
            0x2C6 => ConsumerUsage::ImplementedKeyboardInputAssistControls,
            0x2C7 => ConsumerUsage::KeyboardInputAssistPrevious,
            0x2C8 => ConsumerUsage::KeyboardInputAssistNext,
            0x2C9 => ConsumerUsage::KeyboardInputAssistPreviousGroup,
            0x2CA => ConsumerUsage::KeyboardInputAssistNextGroup,
            0x2CB => ConsumerUsage::KeyboardInputAssistAccept,
            0x2CC => ConsumerUsage::KeyboardInputAssistCancel,
            0x2D0 => ConsumerUsage::PrivacyScreenToggle,
            0x2D1 => ConsumerUsage::PrivacyScreenLevelDecrement,
            0x2D2 => ConsumerUsage::PrivacyScreenLevelIncrement,
            0x2D3 => ConsumerUsage::PrivacyScreenLevelMinimum,
            0x2D4 => ConsumerUsage::PrivacyScreenLevelMaximum,
            0x500 => ConsumerUsage::ContactEdited,
            0x501 => ConsumerUsage::ContactAdded,
            0x502 => ConsumerUsage::ContactRecordActive,
            0x503 => ConsumerUsage::ContactIndex,
            0x504 => ConsumerUsage::ContactNickname,
            0x505 => ConsumerUsage::ContactFirstName,
            0x506 => ConsumerUsage::ContactLastName,
            0x507 => ConsumerUsage::ContactFullName,
            0x508 => ConsumerUsage::ContactPhoneNumberPersonal,
            0x509 => ConsumerUsage::ContactPhoneNumberBusiness,
            0x50A => ConsumerUsage::ContactPhoneNumberMobile,
            0x50B => ConsumerUsage::ContactPhoneNumberPager,
            0x50C => ConsumerUsage::ContactPhoneNumberFax,
            0x50D => ConsumerUsage::ContactPhoneNumberOther,
            0x50E => ConsumerUsage::ContactEmailPersonal,
            0x50F => ConsumerUsage::ContactEmailBusiness,
            0x510 => ConsumerUsage::ContactEmailOther,
            0x511 => ConsumerUsage::ContactEmailMain,
            0x512 => ConsumerUsage::ContactSpeedDialNumber,
            0x513 => ConsumerUsage::ContactStatusFlag,
            0x514 => ConsumerUsage::ContactMisc,
            i => ConsumerUsage::Reserved(i),
        }
    }
}

impl FromSpecImpl<u16> for ConsumerUsage {
    open spec fn obeys_from_spec() -> bool {
        true
    }

    open spec fn from_spec(value: u16) -> Self {
        Self::of_id(value)
    }
}

impl From<ConsumerUsage> for u16 {
    fn from(value: ConsumerUsage) -> (id: Self) {
        match value {
            ConsumerUsage::Undefined => 0x00,
            ConsumerUsage::ConsumerControl => 0x01,
            ConsumerUsage::NumericKeyPad => 0x02,
            ConsumerUsage::ProgrammableButtons => 0x03,
            ConsumerUsage::Microphone => 0x04,
            ConsumerUsage::Headphone => 0x05,
            ConsumerUsage::GraphicEqualizer => 0x06,
            ConsumerUsage::Plus10 => 0x20,
            ConsumerUsage::Plus100 => 0x21,
            ConsumerUsage::AmPm => 0x22,
            ConsumerUsage::Power => 0x30,
            ConsumerUsage::Reset => 0x31,
            ConsumerUsage::Sleep => 0x32,
            ConsumerUsage::SleepAfter => 0x33,
            ConsumerUsage::SleepMode => 0x34,
            ConsumerUsage::Illumination => 0x35,
            ConsumerUsage::FunctionButtons => 0x36,
            ConsumerUsage::Menu => 0x40,
            ConsumerUsage::MenuPick => 0x41,
            ConsumerUsage::MenuUp => 0x42,
            ConsumerUsage::MenuDown => 0x43,
            ConsumerUsage::MenuLeft => 0x44,
            ConsumerUsage::MenuRight => 0x45,
            ConsumerUsage::MenuEscape => 0x46,
            ConsumerUsage::MenuValueIncrease => 0x47,
            ConsumerUsage::MenuValueDecrease => 0x48,
            ConsumerUsage::DataOnScreen => 0x60,
            ConsumerUsage::ClosedCaption => 0x61,
            ConsumerUsage::ClosedCaptionSelect => 0x62,
            ConsumerUsage::VcrTv => 0x63,
            ConsumerUsage::BroadcastMode => 0x64,
            ConsumerUsage::Snapshot => 0x65,
            ConsumerUsage::Still => 0x66,
            ConsumerUsage::PictureInPictureToggle => 0x67,
            ConsumerUsage::PictureInPictureSwap => 0x68,
            ConsumerUsage::RedMenuButton => 0x69,
            ConsumerUsage::GreenMenuButton => 0x6A,
            ConsumerUsage::BlueMenuButton => 0x6B,
            ConsumerUsage::YellowMenuButton => 0x6C,
            ConsumerUsage::Aspect => 0x6D,
            ConsumerUsage::Mode3DSelect => 0x6E,
            ConsumerUsage::DisplayBrightnessIncrement => 0x6F,
            ConsumerUsage::DisplayBrightnessDecrement => 0x70,
            ConsumerUsage::DisplayBrightness => 0x71,
            ConsumerUsage::DisplayBacklightToggle => 0x72,
            ConsumerUsage::DisplaySetBrightnessToMinimum => 0x73,
            ConsumerUsage::DisplaySetBrightnessToMaximum => 0x74,
            ConsumerUsage::DisplaySetAutoBrightness => 0x75,
            ConsumerUsage::CameraAccessEnabled => 0x76,
            ConsumerUsage::CameraAccessDisabled => 0x77,
            ConsumerUsage::CameraAccessToggle => 0x78,
            ConsumerUsage::KeyboardBrightnessIncrement => 0x79,
            ConsumerUsage::KeyboardBrightnessDecrement => 0x7A,
            ConsumerUsage::KeyboardBacklightSetLevel => 0x7B,
            ConsumerUsage::KeyboardBacklightOOC => 0x7C,
            ConsumerUsage::KeyboardBacklightSetMinimum => 0x7D,
            ConsumerUsage::KeyboardBacklightSetMaximum => 0x7E,
            ConsumerUsage::KeyboardBacklightAuto => 0x7F,
            ConsumerUsage::Selection => 0x80,
            ConsumerUsage::AssignSelection => 0x81,
            ConsumerUsage::ModeStep => 0x82,
            ConsumerUsage::RecallLast => 0x83,
            ConsumerUsage::EnterChannel => 0x84,
            ConsumerUsage::OrderMovie => 0x85,
            ConsumerUsage::Channel => 0x86,
            ConsumerUsage::MediaSelection => 0x87,
            ConsumerUsage::MediaSelectComputer => 0x88,
            ConsumerUsage::MediaSelectTV => 0x89,
            ConsumerUsage::MediaSelectWWW => 0x8A,
            ConsumerUsage::MediaSelectDVD => 0x8B,
            ConsumerUsage::MediaSelectTelephone => 0x8C,
            ConsumerUsage::MediaSelectProgramGuide => 0x8D,
            ConsumerUsage::MediaSelectVideoPhone => 0x8E,
            ConsumerUsage::MediaSelectGames => 0x8F,
            ConsumerUsage::MediaSelectMessages => 0x90,
            ConsumerUsage::MediaSelectCD => 0x91,
            ConsumerUsage::MediaSelectVCR => 0x92,
            ConsumerUsage::MediaSelectTuner => 0x93,
            ConsumerUsage::Quit => 0x94,
            ConsumerUsage::Help => 0x95,
            ConsumerUsage::MediaSelectTape => 0x96,
            ConsumerUsage::MediaSelectCable => 0x97,
            ConsumerUsage::MediaSelectSatellite => 0x98,
            ConsumerUsage::MediaSelectSecurity => 0x99,
            ConsumerUsage::MediaSelectHome => 0x9A,
            ConsumerUsage::MediaSelectCall => 0x9B,
            ConsumerUsage::ChannelIncrement => 0x9C,
            ConsumerUsage::ChannelDecrement => 0x9D,
            ConsumerUsage::MediaSelectSAP => 0x9E,
            ConsumerUsage::VCRPlus => 0xA0,
            ConsumerUsage::Once => 0xA1,
            ConsumerUsage::Daily => 0xA2,
            ConsumerUsage::Weekly => 0xA3,
            ConsumerUsage::Monthly => 0xA4,
            ConsumerUsage::Play => 0xB0,
            ConsumerUsage::Pause => 0xB1,
            ConsumerUsage::Record => 0xB2,
            ConsumerUsage::FastForward => 0xB3,
            ConsumerUsage::Rewind => 0xB4,
            ConsumerUsage::ScanNextTrack => 0xB5,
            ConsumerUsage::ScanPreviousTrack => 0xB6,
            ConsumerUsage::Stop => 0xB7,
            ConsumerUsage::Eject => 0xB8,
            ConsumerUsage::RandomPlay => 0xB9,
            ConsumerUsage::SelectDisc => 0xBA,
            ConsumerUsage::EnterDisc => 0xBB,
            ConsumerUsage::Repeat => 0xBC,
            ConsumerUsage::Tracking => 0xBD,
            ConsumerUsage::TrackNormal => 0xBE,
            ConsumerUsage::SlowTracking => 0xBF,
            ConsumerUsage::FrameForward => 0xC0,
            ConsumerUsage::FrameBack => 0xC1,
            ConsumerUsage::Mark => 0xC2,
            ConsumerUsage::ClearMark => 0xC3,
            ConsumerUsage::RepeatFromMark => 0xC4,
            ConsumerUsage::ReturnToMark => 0xC5,
            ConsumerUsage::SearchMarkForward => 0xC6,
            ConsumerUsage::SearchMarkBackwards => 0xC7,
            ConsumerUsage::CounterReset => 0xC8,
            ConsumerUsage::ShowCounter => 0xC9,
            ConsumerUsage::TrackingIncrement => 0xCA,
            ConsumerUsage::TrackingDecrement => 0xCB,
            ConsumerUsage::StopEject => 0xCC,
            ConsumerUsage::PlayPause => 0xCD,
            ConsumerUsage::PlaySkip => 0xCE,
            ConsumerUsage::VoiceCommand => 0xCF,
            ConsumerUsage::InvokeCaptureInterface => 0xD0,
            ConsumerUsage::StartOrStopGameRecording => 0xD1,
            ConsumerUsage::HistoricalGameCapture => 0xD2,
            ConsumerUsage::CaptureGameScreenshot => 0xD3,
            ConsumerUsage::ShowOrHideRecordingIndicator => 0xD4,
            ConsumerUsage::StartOrStopMicrophoneCapture => 0xD5,
            ConsumerUsage::StartOrStopCameraCapture => 0xD6,
            ConsumerUsage::StartOrStopGameBroadcast => 0xD7,
            ConsumerUsage::StartOrStopVoiceDictationSession => 0xD8,
            ConsumerUsage::InvokeDismissEmojiPicker => 0xD9,
            ConsumerUsage::Volume => 0xE0,
            ConsumerUsage::Balance => 0xE1,
            ConsumerUsage::Mute => 0xE2,
            ConsumerUsage::Bass => 0xE3,
            ConsumerUsage::Treble => 0xE4,
            ConsumerUsage::BassBoost => 0xE5,
            ConsumerUsage::SurroundMode => 0xE6,
            ConsumerUsage::Loudness => 0xE7,
            ConsumerUsage::MPX => 0xE8,
            ConsumerUsage::VolumeIncrement => 0xE9,
            ConsumerUsage::VolumeDecrement => 0xEA,
            ConsumerUsage::SpeedSelect => 0xF0,
            ConsumerUsage::PlaybackSpeed => 0xF1,
            ConsumerUsage::StandardPlay => 0xF2,
            ConsumerUsage::LongPlay => 0xF3,
            ConsumerUsage::ExtendedPlay => 0xF4,
            ConsumerUsage::Slow => 0xF5,
            ConsumerUsage::FanEnable => 0x100,
            ConsumerUsage::FanSpeed => 0x101,
            ConsumerUsage::LightEnable => 0x102,
            ConsumerUsage::LightIlluminationLevel => 0x103,
            ConsumerUsage::ClimateControlEnable => 0x104,
            ConsumerUsage::RoomTemperature => 0x105,
            ConsumerUsage::SecurityEnable => 0x106,
            ConsumerUsage::FireAlarm => 0x107,
            ConsumerUsage::PoliceAlarm => 0x108,
            ConsumerUsage::Proximity => 0x109,
            ConsumerUsage::Motion => 0x10A,
            ConsumerUsage::DuressAlarm => 0x10B,
            ConsumerUsage::HoldupAlarm => 0x10C,
            ConsumerUsage::MedicalAlarm => 0x10D,
            ConsumerUsage::BalanceRight => 0x150,
            ConsumerUsage::BalanceLeft => 0x151,
            ConsumerUsage::BassIncrement => 0x152,
            ConsumerUsage::BassDecrement => 0x153,
            ConsumerUsage::TrebleIncrement => 0x154,
            ConsumerUsage::TrebleDecrement => 0x155,
            ConsumerUsage::SpeakerSystem => 0x160,
            ConsumerUsage::ChannelLeft => 0x161,
            ConsumerUsage::ChannelRight => 0x162,
            ConsumerUsage::ChannelCenter => 0x163,
            ConsumerUsage::ChannelFront => 0x164,
            ConsumerUsage::ChannelCenterFront => 0x165,
            ConsumerUsage::ChannelSide => 0x166,
            ConsumerUsage::ChannelSurround => 0x167,
            ConsumerUsage::ChannelLowFrequencyEnhancement => 0x168,
            ConsumerUsage::ChannelTop => 0x169,
            ConsumerUsage::ChannelUnknown => 0x16A,
            ConsumerUsage::SubChannel => 0x170,
            ConsumerUsage::SubChannelIncrement => 0x171,
            ConsumerUsage::SubChannelDecrement => 0x172,
            ConsumerUsage::AlternateAudioIncrement => 0x173,
            ConsumerUsage::AlternateAudioDecrement => 0x174,
            ConsumerUsage::ApplicationLaunchButtons => 0x180,
            ConsumerUsage::ALLaunchButtonConfigurationTool => 0x181,
            ConsumerUsage::ALProgrammableButtonConfiguration => 0x182,
            ConsumerUsage::ALConsumerControlConfiguration => 0x183,
            ConsumerUsage::ALWordProcessor => 0x184,
            ConsumerUsage::ALTextEditor => 0x185,
            ConsumerUsage::ALSpreadsheet => 0x186,
            ConsumerUsage::ALGraphicsEditor => 0x187,
            ConsumerUsage::ALPresentationApp => 0x188,
            ConsumerUsage::ALDatabaseApp => 0x189,
            ConsumerUsage::ALEmailReader => 0x18A,
            ConsumerUsage::ALNewsreader => 0x18B,
            ConsumerUsage::ALVoicemail => 0x18C,
            ConsumerUsage::ALContactsAddressBook => 0x18D,
            ConsumerUsage::ALCalendarSchedule => 0x18E,
            ConsumerUsage::ALTaskProjectManager => 0x18F,
            ConsumerUsage::ALLogJournalTimecard => 0x190,
            ConsumerUsage::ALCheckbookFinance => 0x191,
            ConsumerUsage::ALCalculator => 0x192,
            ConsumerUsage::ALAVCapturePlayback => 0x193,
            ConsumerUsage::ALLocalMachineBrowser => 0x194,
            ConsumerUsage::ALLANWANBrowser => 0x195,
            ConsumerUsage::ALInternetBrowser => 0x196,
            ConsumerUsage::ALRemoteNetworkingISPConnect => 0x197,
            ConsumerUsage::ALNetworkConference => 0x198,
            ConsumerUsage::ALNetworkChat => 0x199,
            ConsumerUsage::ALTelephonyDialer => 0x19A,
            ConsumerUsage::ALLogon => 0x19B,
            ConsumerUsage::ALLogoff => 0x19C,
            ConsumerUsage::ALLogonLogoff => 0x19D,
            ConsumerUsage::ALTerminalLockScreensaver => 0x19E,
            ConsumerUsage::ALControlPanel => 0x19F,
            ConsumerUsage::ALCommandLineProcessorRun => 0x1A0,
            ConsumerUsage::ALProcessTaskManager => 0x1A1,
            ConsumerUsage::ALSelectTaskApplication => 0x1A2,
            ConsumerUsage::ALNextTaskApplication => 0x1A3,
            ConsumerUsage::ALPreviousTaskApplication => 0x1A4,
            ConsumerUsage::ALPreemptiveHaltTaskApplication => 0x1A5,
            ConsumerUsage::ALIntegratedHelpCenter => 0x1A6,
            ConsumerUsage::ALDocuments => 0x1A7,
            ConsumerUsage::ALThesaurus => 0x1A8,
            ConsumerUsage::ALDictionary => 0x1A9,
            ConsumerUsage::ALDesktop => 0x1AA,
            ConsumerUsage::ALSpellCheck => 0x1AB,
            ConsumerUsage::ALGrammarCheck => 0x1AC,
            ConsumerUsage::ALWirelessStatus => 0x1AD,
            ConsumerUsage::ALKeyboardLayout => 0x1AE,
            ConsumerUsage::ALVirusProtection => 0x1AF,
            ConsumerUsage::ALEncryption => 0x1B0,
            ConsumerUsage::ALScreenSaver => 0x1B1,
            ConsumerUsage::ALAlarms => 0x1B2,
            ConsumerUsage::ALClock => 0x1B3,
            ConsumerUsage::ALFileBrowser => 0x1B4,
            ConsumerUsage::ALPowerStatus => 0x1B5,
            ConsumerUsage::ALImageBrowser => 0x1B6,
            ConsumerUsage::ALAudioBrowser => 0x1B7,
            ConsumerUsage::ALMovieBrowser => 0x1B8,
            ConsumerUsage::ALDigitalRightsManager => 0x1B9,
            ConsumerUsage::ALDigitalWallet => 0x1BA,
            ConsumerUsage::ALInstantMessaging => 0x1BC,
            ConsumerUsage::ALOEMFeaturesTipsTutorialBrowser => 0x1BD,
            ConsumerUsage::ALOEMHelp => 0x1BE,
            ConsumerUsage::ALOnlineCommunity => 0x1BF,
            ConsumerUsage::ALEntertainmentContentBrowser => 0x1C0,
            ConsumerUsage::ALOnlineShoppingBrowser => 0x1C1,
            ConsumerUsage::ALSmartCardInformationHelp => 0x1C2,
            ConsumerUsage::ALMarketMonitorFinanceBrowser => 0x1C3,
            ConsumerUsage::ALCustomizedCorporateNewsBrowser => 0x1C4,
            ConsumerUsage::ALOnlineActivityBrowser => 0x1C5,
            ConsumerUsage::ALResearchSearchBrowser => 0x1C6,
            ConsumerUsage::ALAudioPlayer => 0x1C7,
            ConsumerUsage::ALMessageStatus => 0x1C8,
            ConsumerUsage::ALContactSync => 0x1C9,
            ConsumerUsage::ALNavigation => 0x1CA,
            ConsumerUsage::ALContextawareDesktopAssistant => 0x1CB,
            ConsumerUsage::GenericGUIApplicationControls => 0x200,
            ConsumerUsage::ACNew => 0x201,
            ConsumerUsage::ACOpen => 0x202,
            ConsumerUsage::ACClose => 0x203,
            ConsumerUsage::ACExit => 0x204,
            ConsumerUsage::ACMaximize => 0x205,
            ConsumerUsage::ACMinimize => 0x206,
            ConsumerUsage::ACSave => 0x207,
            ConsumerUsage::ACPrint => 0x208,
            ConsumerUsage::ACProperties => 0x209,
            ConsumerUsage::ACUndo => 0x21A,
            ConsumerUsage::ACCopy => 0x21B,
            ConsumerUsage::ACCut => 0x21C,
            ConsumerUsage::ACPaste => 0x21D,
            ConsumerUsage::ACSelectAll => 0x21E,
            ConsumerUsage::ACFind => 0x21F,
            ConsumerUsage::ACFindAndReplace => 0x220,
            ConsumerUsage::ACSearch => 0x221,
            ConsumerUsage::ACGoTo => 0x222,
            ConsumerUsage::ACHome => 0x223,
            ConsumerUsage::ACBack => 0x224,
            ConsumerUsage::ACForward => 0x225,
            ConsumerUsage::ACStop => 0x226,
            ConsumerUsage::ACRefresh => 0x227,
            ConsumerUsage::ACPreviousLink => 0x228,
            ConsumerUsage::ACNextLink => 0x229,
            ConsumerUsage::ACBookmarks => 0x22A,
            ConsumerUsage::ACHistory => 0x22B,
            ConsumerUsage::ACSubscriptions => 0x22C,
            ConsumerUsage::ACZoomIn => 0x22D,
            ConsumerUsage::ACZoomOut => 0x22E,
            ConsumerUsage::ACZoom => 0x22F,
            ConsumerUsage::ACFullScreenView => 0x230,
            ConsumerUsage::ACNormalView => 0x231,
            ConsumerUsage::ACViewToggle => 0x232,
            ConsumerUsage::ACScrollUp => 0x233,
            ConsumerUsage::ACScrollDown => 0x234,
            ConsumerUsage::ACScroll => 0x235,
            ConsumerUsage::ACPanLeft => 0x236,
            ConsumerUsage::ACPanRight => 0x237,
            ConsumerUsage::ACPan => 0x238,
            ConsumerUsage::ACNewWindow => 0x239,
            ConsumerUsage::ACTileHorizontally => 0x23A,
            ConsumerUsage::ACTileVertically => 0x23B,
            ConsumerUsage::ACFormat => 0x23C,
            ConsumerUsage::ACEdit => 0x23D,
            ConsumerUsage::ACBold => 0x23E,
            ConsumerUsage::ACItalics => 0x23F,
            ConsumerUsage::ACUnderline => 0x240,
            ConsumerUsage::ACStrikethrough => 0x241,
            ConsumerUsage::ACSubscript => 0x242,
            ConsumerUsage::ACSuperscript => 0x243,
            ConsumerUsage::ACAllCaps => 0x244,
            ConsumerUsage::ACRotate => 0x245,
            ConsumerUsage::ACResize => 0x246,
            ConsumerUsage::ACFlipHorizontal => 0x247,
            ConsumerUsage::ACFlipVertical => 0x248,
            ConsumerUsage::ACMirrorHorizontal => 0x249,
            ConsumerUsage::ACMirrorVertical => 0x24A,
            ConsumerUsage::ACFontSelect => 0x24B,
            ConsumerUsage::ACFontColor => 0x24C,
            ConsumerUsage::ACFontSize => 0x24D,
            ConsumerUsage::ACJustifyLeft => 0x24E,
            ConsumerUsage::ACJustifyCenterH => 0x24F,
            ConsumerUsage::ACJustifyRight => 0x250,
            ConsumerUsage::ACJustifyBlockH => 0x251,
            ConsumerUsage::ACJustifyTop => 0x252,
            ConsumerUsage::ACJustifyCenterV => 0x253,
            ConsumerUsage::ACJustifyBottom => 0x254,
            ConsumerUsage::ACJustifyBlockV => 0x255,
            ConsumerUsage::ACIndentDecrease => 0x256,
            ConsumerUsage::ACIndentIncrease => 0x257,
            ConsumerUsage::ACNumberedList => 0x258,
            ConsumerUsage::ACRestartNumbering => 0x259,
            ConsumerUsage::ACBulletedList => 0x25A,
            ConsumerUsage::ACPromote => 0x25B,
            ConsumerUsage::ACDemote => 0x25C,
            ConsumerUsage::ACYes => 0x25D,
            ConsumerUsage::ACNo => 0x25E,
            ConsumerUsage::ACCancel => 0x25F,
            ConsumerUsage::ACCatalog => 0x260,
            ConsumerUsage::ACBuyCheckout => 0x261,
            ConsumerUsage::ACAddToCart => 0x262,
            ConsumerUsage::ACExpand => 0x263,
            ConsumerUsage::ACExpandAll => 0x264,
            ConsumerUsage::ACCollapse => 0x265,
            ConsumerUsage::ACCollapseAll => 0x266,
            ConsumerUsage::ACPrintPreview => 0x267,
            ConsumerUsage::ACPasteSpecial => 0x268,
            ConsumerUsage::ACInsertMode => 0x269,
            ConsumerUsage::ACDelete => 0x26A,
            ConsumerUsage::ACLock => 0x26B,
            ConsumerUsage::ACUnlock => 0x26C,
            ConsumerUsage::ACProtect => 0x26D,
            ConsumerUsage::ACUnprotect => 0x26E,
            ConsumerUsage::ACAttachComment => 0x26F,
            ConsumerUsage::ACDeleteComment => 0x270,
            ConsumerUsage::ACViewComment => 0x271,
            ConsumerUsage::ACSelectWord => 0x272,
            ConsumerUsage::ACSelectSentence => 0x273,
            ConsumerUsage::ACSelectParagraph => 0x274,
            ConsumerUsage::ACSelectColumn => 0x275,
            ConsumerUsage::ACSelectRow => 0x276,
            ConsumerUsage::ACSelectTable => 0x277,
            ConsumerUsage::ACSelectObject => 0x278,
            ConsumerUsage::ACRedoRepeat => 0x279,
            ConsumerUsage::ACSort => 0x27A,
            ConsumerUsage::ACSortAscending => 0x27B,
            ConsumerUsage::ACSortDescending => 0x27C,
            ConsumerUsage::ACFilter => 0x27D,
            ConsumerUsage::ACSetClock => 0x27E,
            ConsumerUsage::ACViewClock => 0x27F,
            ConsumerUsage::ACSelectTimeZone => 0x280,
            ConsumerUsage::ACEditTimeZones => 0x281,
            ConsumerUsage::ACSetAlarm => 0x282,
            ConsumerUsage::ACClearAlarm => 0x283,
            ConsumerUsage::ACSnoozeAlarm => 0x284,
            ConsumerUsage::ACResetAlarm => 0x285,
            ConsumerUsage::ACSynchronize => 0x286,
            ConsumerUsage::ACSendReceive => 0x287,
            ConsumerUsage::ACSendTo => 0x288,
            ConsumerUsage::ACReply => 0x289,
            ConsumerUsage::ACReplyAll => 0x28A,
            ConsumerUsage::ACForwardMsg => 0x28B,
            ConsumerUsage::ACSend => 0x28C,
            ConsumerUsage::ACAttachFile => 0x28D,
            ConsumerUsage::ACUpload => 0x28E,
            ConsumerUsage::ACDownloadSaveTargetAs => 0x28F,
            ConsumerUsage::ACSetBorders => 0x290,
            ConsumerUsage::ACInsertRow => 0x291,
            ConsumerUsage::ACInsertColumn => 0x292,
            ConsumerUsage::ACInsertFile => 0x293,
            ConsumerUsage::ACInsertPicture => 0x294,
            ConsumerUsage::ACInsertObject => 0x295,
            ConsumerUsage::ACInsertSymbol => 0x296,
            ConsumerUsage::ACSaveAndClose => 0x297,
            ConsumerUsage::ACRename => 0x298,
            ConsumerUsage::ACMerge => 0x299,
            ConsumerUsage::ACSplit => 0x29A,
            ConsumerUsage::ACDistributeHorizontally => 0x29B,
            ConsumerUsage::ACDistributeVertically => 0x29C,
            ConsumerUsage::ACNextKeyboardLayoutSelect => 0x29D,
            ConsumerUsage::ACNavigationGuidance => 0x29E,
            ConsumerUsage::ACDesktopShowAllWindows => 0x29F,
            ConsumerUsage::ACSoftKeyLeft => 0x2A0,
            ConsumerUsage::ACSoftKeyRight => 0x2A1,
            ConsumerUsage::ACDesktopShowAllApplications => 0x2A2,
            ConsumerUsage::ACIdleKeepAlive => 0x2B0,
            ConsumerUsage::ExtendedKeyboardAttributesCollection => 0x2C0,
            ConsumerUsage::KeyboardFormFactor => 0x2C1,
            ConsumerUsage::KeyboardKeyType => 0x2C2,
            ConsumerUsage::KeyboardPhysicalLayout => 0x2C3,
            ConsumerUsage::VendorSpecificKeyboardPhysicalLayout => 0x2C4,
            ConsumerUsage::KeyboardIETFLanguageTagIndex => 0x2C5,
            ConsumerUsage::ImplementedKeyboardInputAssistControls => 0x2C6,
            ConsumerUsage::KeyboardInputAssistPrevious => 0x2C7,
            ConsumerUsage::KeyboardInputAssistNext => 0x2C8,
            ConsumerUsage::KeyboardInputAssistPreviousGroup => 0x2C9,
            ConsumerUsage::KeyboardInputAssistNextGroup => 0x2CA,
            ConsumerUsage::KeyboardInputAssistAccept => 0x2CB,
            ConsumerUsage::KeyboardInputAssistCancel => 0x2CC,
            ConsumerUsage::PrivacyScreenToggle => 0x2D0,
            ConsumerUsage::PrivacyScreenLevelDecrement => 0x2D1,
            ConsumerUsage::PrivacyScreenLevelIncrement => 0x2D2,
            ConsumerUsage::PrivacyScreenLevelMinimum => 0x2D3,
            ConsumerUsage::PrivacyScreenLevelMaximum => 0x2D4,
            ConsumerUsage::ContactEdited => 0x500,
            ConsumerUsage::ContactAdded => 0x501,
            ConsumerUsage::ContactRecordActive => 0x502,
            ConsumerUsage::ContactIndex => 0x503,
            ConsumerUsage::ContactNickname => 0x504,
            ConsumerUsage::ContactFirstName => 0x505,
            ConsumerUsage::ContactLastName => 0x506,
            ConsumerUsage::ContactFullName => 0x507,
            ConsumerUsage::ContactPhoneNumberPersonal => 0x508,
            ConsumerUsage::ContactPhoneNumberBusiness => 0x509,
            ConsumerUsage::ContactPhoneNumberMobile => 0x50A,
            ConsumerUsage::ContactPhoneNumberPager => 0x50B,
            ConsumerUsage::ContactPhoneNumberFax => 0x50C,
            ConsumerUsage::ContactPhoneNumberOther => 0x50D,
            ConsumerUsage::ContactEmailPersonal => 0x50E,
            ConsumerUsage::ContactEmailBusiness => 0x50F,
            ConsumerUsage::ContactEmailOther => 0x510,
            ConsumerUsage::ContactEmailMain => 0x511,
            ConsumerUsage::ContactSpeedDialNumber => 0x512,
            ConsumerUsage::ContactStatusFlag => 0x513,
            ConsumerUsage::ContactMisc => 0x514,
            ConsumerUsage::Reserved(i) => i,
        }
    }
}

impl FromSpecImpl<ConsumerUsage> for u16 {
    open spec fn obeys_from_spec() -> bool {
        true
    }

    open spec fn from_spec(value: ConsumerUsage) -> Self {
        value.to_id()
    }
}

impl UsageId for ConsumerUsage {
    open spec fn id(self) -> u16 {
        self.to_id()
    }

    fn usage_id(self) -> (id: u16) {
        u16::from(self)
    }
}

} // verus!
