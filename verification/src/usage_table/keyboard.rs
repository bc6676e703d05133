//! Usages of the Keyboard/Keypad usage page.

use crate::display::{decimal, push_decimal, push_str};
use crate::usage_table::UsageId;
use vstd::prelude::*;
use vstd::std_specs::convert::FromSpecImpl;

verus! {

/// A usage of the Keyboard/Keypad usage page.
#[derive(Clone, Copy, Debug, PartialEq, Eq, Structural)]
pub enum KeyboardUsage {
    KeyboardErrorRollOver,
    KeyboardPOSTFail,
    KeyboardErrorUndefined,
    KeyboardaandA,
    KeyboardbandB,
    KeyboardcandC,
    KeyboarddandD,
    KeyboardeandE,
    KeyboardfandF,
    KeyboardgandG,
    KeyboardhandH,
    KeyboardiandI,
    KeyboardjandJ,
    KeyboardkandK,
    KeyboardlandL,
    KeyboardmandM,
    KeyboardnandN,
    KeyboardoandO,
    KeyboardpandP,
    KeyboardqandQ,
    KeyboardrandR,
    KeyboardsandS,
    KeyboardtandT,
    KeyboarduandU,
    KeyboardvandV,
    KeyboardwandW,
    KeyboardxandX,
    KeyboardyandY,
    KeyboardzandZ,
    Keyboard1andExclamation,
    Keyboard2andAt,
    Keyboard3andHash,
    Keyboard4andDollar,
    Keyboard5andPercent,
    Keyboard6andPower,
    Keyboard7andAmpersand,
    Keyboard8andStar,
    Keyboard9andLeftParentheses,
    Keyboard0andRightParentheses,
    KeyboardReturnEnter,
    KeyboardESCAPE,
    KeyboardDELETE,
    KeyboardTab,
    KeyboardSpacebar,
    KeyboardDashandUnderscore,
    KeyboardEqualandPlus,
    KeyboardLeftSquareBracketandLeftCurlyBracket,
    KeyboardRightSquareBracketandRightCurlyBracket,
    KeyboardBackslashandPipe,
    KeyboardNonUSHashandTilde,
    KeyboardSemicolonandColon,
    KeyboardQuoteandDoubleQuote,
    KeyboardGraveAccentandTilde,
    KeyboardCommaandLessThan,
    KeyboardDotandGreatherThan,
    KeyboardSlashandQuestion,
    KeyboardCapsLock,
    KeyboardF1,
    KeyboardF2,
    KeyboardF3,
    KeyboardF4,
    KeyboardF5,
    KeyboardF6,
    KeyboardF7,
    KeyboardF8,
    KeyboardF9,
    KeyboardF10,
    KeyboardF11,
    KeyboardF12,
    KeyboardPrintScreen,
    KeyboardScrollLock,
    KeyboardPause,
    KeyboardInsert,
    KeyboardHome,
    KeyboardPageUp,
    KeyboardDeleteForward,
    KeyboardEnd,
    KeyboardPageDown,
    KeyboardRightArrow,
    KeyboardLeftArrow,
    KeyboardDownArrow,
    KeyboardUpArrow,
    KeypadNumLockandClear,
    KeypadSlash,
    KeypadStar,
    KeypadDash,
    KeypadPlus,
    KeypadENTER,
    Keypad1andEnd,
    Keypad2andDownArrow,
    Keypad3andPageDn,
    Keypad4andLeftArrow,
    Keypad,
    Keypad6andRightArrow,
    Keypad7andHome,
    Keypad8andUpArrow,
    Keypad9andPageUp,
    Keypad0andInsert,
    KeypadDotandDelete,
    KeyboardNonUSBackslashandPipe,
    KeyboardApplication1,
    KeyboardPower,
    KeypadEqual,
    KeyboardF13,
    KeyboardF14,
    KeyboardF15,
    KeyboardF16,
    KeyboardF17,
    KeyboardF18,
    KeyboardF19,
    KeyboardF20,
    KeyboardF21,
    KeyboardF22,
    KeyboardF23,
    KeyboardF24,
    KeyboardExecute,
    KeyboardHelp,
    KeyboardMenu,
    KeyboardSelect,
    KeyboardStop,
    KeyboardAgain,
    KeyboardUndo,
    KeyboardCut,
    KeyboardCopy,
    KeyboardPaste,
    KeyboardFind,
    KeyboardMute,
    KeyboardVolumeUp,
    KeyboardVolumeDown,
    KeyboardLockingCapsLock,
    KeyboardLockingNumLock,
    KeyboardLockingScrollLock,
    KeypadComma,
    KeypadEqualSign,
    KeyboardInternational1,
    KeyboardInternational2,
    KeyboardInternational3,
    KeyboardInternational4,
    KeyboardInternational5,
    KeyboardInternational6,
    KeyboardInternational7,
    KeyboardInternational8,
    KeyboardInternational9,
    KeyboardLANG1,
    KeyboardLANG2,
    KeyboardLANG3,
    KeyboardLANG4,
    KeyboardLANG5,
    KeyboardLANG6,
    KeyboardLANG7,
    KeyboardLANG8,
    KeyboardLANG9,
    KeyboardAlternateErase,
    KeyboardSysReqAttention,
    KeyboardCancel,
    KeyboardClear,
    KeyboardPrior,
    KeyboardReturn,
    KeyboardSeparator,
    KeyboardOut,
    KeyboardOper,
    KeyboardClearAgain,
    KeyboardCrSelProps,
    KeyboardExSel,
    Keypad00,
    Keypad000,
    ThousandsSeparator,
    DecimalSeparator,
    CurrencyUnit,
    CurrencySubunit,
    KeypadLeftParentheses,
    KeypadRightParentheses,
    KeypadLeftCurlyBracket,
    KeypadRightCurlyBracket,
    KeypadTab,
    KeypadBackspace,
    KeypadA,
    KeypadB,
    KeypadC,
    KeypadD,
    KeypadE,
    KeypadF,
    KeypadXOR,
    KeypadPower,
    KeypadPercent,
    KeypadLessThan,
    KeypadGreaterThan,
    KeypadAmpersand,
    KeypadDoubleAmpersand,
    KeypadPipe,
    KeypadDoublePipe,
    KeypadColon,
    KeypadHash,
    KeypadSpace,
    KeypadAt,
    KeypadExclamation,
    KeypadMemoryStore,
    KeypadMemoryRecall,
    KeypadMemoryClear,
    KeypadMemoryAdd,
    KeypadMemorySubtract,
    KeypadMemoryMultiply,
    KeypadMemoryDivide,
    KeypadPlusMinus,
    KeypadClear,
    KeypadClearEntry,
    KeypadBinary,
    KeypadOctal,
    KeypadDecimal,
    KeypadHexadecimal,
    KeyboardLeftControl,
    KeyboardLeftShift,
    KeyboardLeftAlt,
    KeyboardLeftGUI,
    KeyboardRightControl,
    KeyboardRightShift,
    KeyboardRightAlt,
    KeyboardRightGUI,
    Reserved(u16),
}

impl KeyboardUsage {
    /// The usage that the usage table assigns to `value`; an id that the
    /// table leaves open is kept as `Reserved`.
    pub open spec fn of_id(value: u16) -> KeyboardUsage {
        match value {
            0x01 => KeyboardUsage::KeyboardErrorRollOver,
            0x02 => KeyboardUsage::KeyboardPOSTFail,
            0x03 => KeyboardUsage::KeyboardErrorUndefined,
            0x04 => KeyboardUsage::KeyboardaandA,
            0x05 => KeyboardUsage::KeyboardbandB,
            0x06 => KeyboardUsage::KeyboardcandC,
            0x07 => KeyboardUsage::KeyboarddandD,
            0x08 => KeyboardUsage::KeyboardeandE,
            0x09 => KeyboardUsage::KeyboardfandF,
            0x0A => KeyboardUsage::KeyboardgandG,
            0x0B => KeyboardUsage::KeyboardhandH,
            0x0C => KeyboardUsage::KeyboardiandI,
            0x0D => KeyboardUsage::KeyboardjandJ,
            0x0E => KeyboardUsage::KeyboardkandK,
            0x0F => KeyboardUsage::KeyboardlandL,
            0x10 => KeyboardUsage::KeyboardmandM,
            0x11 => KeyboardUsage::KeyboardnandN,
            0x12 => KeyboardUsage::KeyboardoandO,
            0x13 => KeyboardUsage::KeyboardpandP,
            0x14 => KeyboardUsage::KeyboardqandQ,
            0x15 => KeyboardUsage::KeyboardrandR,
            0x16 => KeyboardUsage::KeyboardsandS,
            0x17 => KeyboardUsage::KeyboardtandT,
            0x18 => KeyboardUsage::KeyboarduandU,
            0x19 => KeyboardUsage::KeyboardvandV,
            0x1A => KeyboardUsage::KeyboardwandW,
            0x1B => KeyboardUsage::KeyboardxandX,
            0x1C => KeyboardUsage::KeyboardyandY,
            0x1D => KeyboardUsage::KeyboardzandZ,
            0x1E => KeyboardUsage::Keyboard1andExclamation,
            0x1F => KeyboardUsage::Keyboard2andAt,
            0x20 => KeyboardUsage::Keyboard3andHash,
            0x21 => KeyboardUsage::Keyboard4andDollar,
            0x22 => KeyboardUsage::Keyboard5andPercent,
            0x23 => KeyboardUsage::Keyboard6andPower,
            0x24 => KeyboardUsage::Keyboard7andAmpersand,
            0x25 => KeyboardUsage::Keyboard8andStar,
            0x26 => KeyboardUsage::Keyboard9andLeftParentheses,
            0x27 => KeyboardUsage::Keyboard0andRightParentheses,
            0x28 => KeyboardUsage::KeyboardReturnEnter,
            0x29 => KeyboardUsage::KeyboardESCAPE,
            0x2A => KeyboardUsage::KeyboardDELETE,
            0x2B => KeyboardUsage::KeyboardTab,
            0x2C => KeyboardUsage::KeyboardSpacebar,
            0x2D => KeyboardUsage::KeyboardDashandUnderscore,
            0x2E => KeyboardUsage::KeyboardEqualandPlus,
            0x2F => KeyboardUsage::KeyboardLeftSquareBracketandLeftCurlyBracket,
            0x30 => KeyboardUsage::KeyboardRightSquareBracketandRightCurlyBracket,
            0x31 => KeyboardUsage::KeyboardBackslashandPipe,
            0x32 => KeyboardUsage::KeyboardNonUSHashandTilde,
            0x33 => KeyboardUsage::KeyboardSemicolonandColon,
            0x34 => KeyboardUsage::KeyboardQuoteandDoubleQuote,
            0x35 => KeyboardUsage::KeyboardGraveAccentandTilde,
            0x36 => KeyboardUsage::KeyboardCommaandLessThan,
            0x37 => KeyboardUsage::KeyboardDotandGreatherThan,
            0x38 => KeyboardUsage::KeyboardSlashandQuestion,
            0x39 => KeyboardUsage::KeyboardCapsLock,
            0x3A => KeyboardUsage::KeyboardF1,
            0x3B => KeyboardUsage::KeyboardF2,
            0x3C => KeyboardUsage::KeyboardF3,
            0x3D => KeyboardUsage::KeyboardF4,
            0x3E => KeyboardUsage::KeyboardF5,
            0x3F => KeyboardUsage::KeyboardF6,
            0x40 => KeyboardUsage::KeyboardF7,
            0x41 => KeyboardUsage::KeyboardF8,
            0x42 => KeyboardUsage::KeyboardF9,
            0x43 => KeyboardUsage::KeyboardF10,
            0x44 => KeyboardUsage::KeyboardF11,
            0x45 => KeyboardUsage::KeyboardF12,
            0x46 => KeyboardUsage::KeyboardPrintScreen,
            0x47 => KeyboardUsage::KeyboardScrollLock,
            0x48 => KeyboardUsage::KeyboardPause,
            0x49 => KeyboardUsage::KeyboardInsert,
            0x4A => KeyboardUsage::KeyboardHome,
            0x4B => KeyboardUsage::KeyboardPageUp,
            0x4C => KeyboardUsage::KeyboardDeleteForward,
            0x4D => KeyboardUsage::KeyboardEnd,
            0x4E => KeyboardUsage::KeyboardPageDown,
            0x4F => KeyboardUsage::KeyboardRightArrow,
            0x50 => KeyboardUsage::KeyboardLeftArrow,
            0x51 => KeyboardUsage::KeyboardDownArrow,
            0x52 => KeyboardUsage::KeyboardUpArrow,
            0x53 => KeyboardUsage::KeypadNumLockandClear,
            0x54 => KeyboardUsage::KeypadSlash,
            0x55 => KeyboardUsage::KeypadStar,
            0x56 => KeyboardUsage::KeypadDash,
            0x57 => KeyboardUsage::KeypadPlus,
            0x58 => KeyboardUsage::KeypadENTER,
            0x59 => KeyboardUsage::Keypad1andEnd,
            0x5A => KeyboardUsage::Keypad2andDownArrow,
            0x5B => KeyboardUsage::Keypad3andPageDn,
            0x5C => KeyboardUsage::Keypad4andLeftArrow,
            0x5D => KeyboardUsage::Keypad,
            0x5E => KeyboardUsage::Keypad6andRightArrow,
            0x5F => KeyboardUsage::Keypad7andHome,
            0x60 => KeyboardUsage::Keypad8andUpArrow,
            0x61 => KeyboardUsage::Keypad9andPageUp,
            0x62 => KeyboardUsage::Keypad0andInsert,
            0x63 => KeyboardUsage::KeypadDotandDelete,
            0x64 => KeyboardUsage::KeyboardNonUSBackslashandPipe,
            0x65 => KeyboardUsage::KeyboardApplication1,
            0x66 => KeyboardUsage::KeyboardPower,
            0x67 => KeyboardUsage::KeypadEqual,
            0x68 => KeyboardUsage::KeyboardF13,
            0x69 => KeyboardUsage::KeyboardF14,
            0x6A => KeyboardUsage::KeyboardF15,
            0x6B => KeyboardUsage::KeyboardF16,
            0x6C => KeyboardUsage::KeyboardF17,
            0x6D => KeyboardUsage::KeyboardF18,
            0x6E => KeyboardUsage::KeyboardF19,
            0x6F => KeyboardUsage::KeyboardF20,
            0x70 => KeyboardUsage::KeyboardF21,
            0x71 => KeyboardUsage::KeyboardF22,
            0x72 => KeyboardUsage::KeyboardF23,
            0x73 => KeyboardUsage::KeyboardF24,
            0x74 => KeyboardUsage::KeyboardExecute,
            0x75 => KeyboardUsage::KeyboardHelp,
            0x76 => KeyboardUsage::KeyboardMenu,
            0x77 => KeyboardUsage::KeyboardSelect,
            0x78 => KeyboardUsage::KeyboardStop,
            0x79 => KeyboardUsage::KeyboardAgain,
            0x7A => KeyboardUsage::KeyboardUndo,
            0x7B => KeyboardUsage::KeyboardCut,
            0x7C => KeyboardUsage::KeyboardCopy,
            0x7D => KeyboardUsage::KeyboardPaste,
            0x7E => KeyboardUsage::KeyboardFind,
            0x7F => KeyboardUsage::KeyboardMute,
            0x80 => KeyboardUsage::KeyboardVolumeUp,
            0x81 => KeyboardUsage::KeyboardVolumeDown,
            0x82 => KeyboardUsage::KeyboardLockingCapsLock,
            0x83 => KeyboardUsage::KeyboardLockingNumLock,
            0x84 => KeyboardUsage::KeyboardLockingScrollLock,
            0x85 => KeyboardUsage::KeypadComma,
            0x86 => KeyboardUsage::KeypadEqualSign,
            0x87 => KeyboardUsage::KeyboardInternational1,
            0x88 => KeyboardUsage::KeyboardInternational2,
            0x89 => KeyboardUsage::KeyboardInternational3,
            0x8A => KeyboardUsage::KeyboardInternational4,
            0x8B => KeyboardUsage::KeyboardInternational5,
            0x8C => KeyboardUsage::KeyboardInternational6,
            0x8D => KeyboardUsage::KeyboardInternational7,
            0x8E => KeyboardUsage::KeyboardInternational8,
            0x8F => KeyboardUsage::KeyboardInternational9,
            0x90 => KeyboardUsage::KeyboardLANG1,
            0x91 => KeyboardUsage::KeyboardLANG2,
            0x92 => KeyboardUsage::KeyboardLANG3,
            0x93 => KeyboardUsage::KeyboardLANG4,
            0x94 => KeyboardUsage::KeyboardLANG5,
            0x95 => KeyboardUsage::KeyboardLANG6,
            0x96 => KeyboardUsage::KeyboardLANG7,
            0x97 => KeyboardUsage::KeyboardLANG8,
            0x98 => KeyboardUsage::KeyboardLANG9,
            0x99 => KeyboardUsage::KeyboardAlternateErase,
            0x9A => KeyboardUsage::KeyboardSysReqAttention,
            0x9B => KeyboardUsage::KeyboardCancel,
            0x9C => KeyboardUsage::KeyboardClear,
            0x9D => KeyboardUsage::KeyboardPrior,
            0x9E => KeyboardUsage::KeyboardReturn,
            0x9F => KeyboardUsage::KeyboardSeparator,
            0xA0 => KeyboardUsage::KeyboardOut,
            0xA1 => KeyboardUsage::KeyboardOper,
            0xA2 => KeyboardUsage::KeyboardClearAgain,
            0xA3 => KeyboardUsage::KeyboardCrSelProps,
            0xA4 => KeyboardUsage::KeyboardExSel,
            0xB0 => KeyboardUsage::Keypad00,
            0xB1 => KeyboardUsage::Keypad000,
            0xB2 => KeyboardUsage::ThousandsSeparator,
            0xB3 => KeyboardUsage::DecimalSeparator,
            0xB4 => KeyboardUsage::CurrencyUnit,
            0xB5 => KeyboardUsage::CurrencySubunit,
            0xB6 => KeyboardUsage::KeypadLeftParentheses,
            0xB7 => KeyboardUsage::KeypadRightParentheses,
            0xB8 => KeyboardUsage::KeypadLeftCurlyBracket,
            0xB9 => KeyboardUsage::KeypadRightCurlyBracket,
            0xBA => KeyboardUsage::KeypadTab,
            0xBB => KeyboardUsage::KeypadBackspace,
            0xBC => KeyboardUsage::KeypadA,
            0xBD => KeyboardUsage::KeypadB,
            0xBE => KeyboardUsage::KeypadC,
            0xBF => KeyboardUsage::KeypadD,
            0xC0 => KeyboardUsage::KeypadE,
            0xC1 => KeyboardUsage::KeypadF,
            0xC2 => KeyboardUsage::KeypadXOR,
            0xC3 => KeyboardUsage::KeypadPower,
            0xC4 => KeyboardUsage::KeypadPercent,
            0xC5 => KeyboardUsage::KeypadLessThan,
            0xC6 => KeyboardUsage::KeypadGreaterThan,
            0xC7 => KeyboardUsage::KeypadAmpersand,
            0xC8 => KeyboardUsage::KeypadDoubleAmpersand,
            0xC9 => KeyboardUsage::KeypadPipe,
            0xCA => KeyboardUsage::KeypadDoublePipe,
            0xCB => KeyboardUsage::KeypadColon,
            0xCC => KeyboardUsage::KeypadHash,
            0xCD => KeyboardUsage::KeypadSpace,
            0xCE => KeyboardUsage::KeypadAt,
            0xCF => KeyboardUsage::KeypadExclamation,
            0xD0 => KeyboardUsage::KeypadMemoryStore,
            0xD1 => KeyboardUsage::KeypadMemoryRecall,
            0xD2 => KeyboardUsage::KeypadMemoryClear,
            0xD3 => KeyboardUsage::KeypadMemoryAdd,
            0xD4 => KeyboardUsage::KeypadMemorySubtract,
            0xD5 => KeyboardUsage::KeypadMemoryMultiply,
            0xD6 => KeyboardUsage::KeypadMemoryDivide,
            0xD7 => KeyboardUsage::KeypadPlusMinus,
            0xD8 => KeyboardUsage::KeypadClear,
            0xD9 => KeyboardUsage::KeypadClearEntry,
            0xDA => KeyboardUsage::KeypadBinary,
            0xDB => KeyboardUsage::KeypadOctal,
            0xDC => KeyboardUsage::KeypadDecimal,
            0xDD => KeyboardUsage::KeypadHexadecimal,
            0xE0 => KeyboardUsage::KeyboardLeftControl,
            0xE1 => KeyboardUsage::KeyboardLeftShift,
            0xE2 => KeyboardUsage::KeyboardLeftAlt,
            0xE3 => KeyboardUsage::KeyboardLeftGUI,
            0xE4 => KeyboardUsage::KeyboardRightControl,
            0xE5 => KeyboardUsage::KeyboardRightShift,
            0xE6 => KeyboardUsage::KeyboardRightAlt,
            0xE7 => KeyboardUsage::KeyboardRightGUI,
            i => KeyboardUsage::Reserved(i),
        }
    }

    /// The id that the usage table assigns to this usage.
    pub open spec fn to_id(self) -> u16 {
        match self {
            KeyboardUsage::KeyboardErrorRollOver => 0x01,
            KeyboardUsage::KeyboardPOSTFail => 0x02,
            KeyboardUsage::KeyboardErrorUndefined => 0x03,
            KeyboardUsage::KeyboardaandA => 0x04,
            KeyboardUsage::KeyboardbandB => 0x05,
            KeyboardUsage::KeyboardcandC => 0x06,
            KeyboardUsage::KeyboarddandD => 0x07,
            KeyboardUsage::KeyboardeandE => 0x08,
            KeyboardUsage::KeyboardfandF => 0x09,
            KeyboardUsage::KeyboardgandG => 0x0A,
            KeyboardUsage::KeyboardhandH => 0x0B,
            KeyboardUsage::KeyboardiandI => 0x0C,
            KeyboardUsage::KeyboardjandJ => 0x0D,
            KeyboardUsage::KeyboardkandK => 0x0E,
            KeyboardUsage::KeyboardlandL => 0x0F,
            KeyboardUsage::KeyboardmandM => 0x10,
            KeyboardUsage::KeyboardnandN => 0x11,
            KeyboardUsage::KeyboardoandO => 0x12,
            KeyboardUsage::KeyboardpandP => 0x13,
            KeyboardUsage::KeyboardqandQ => 0x14,
            KeyboardUsage::KeyboardrandR => 0x15,
            KeyboardUsage::KeyboardsandS => 0x16,
            KeyboardUsage::KeyboardtandT => 0x17,
            KeyboardUsage::KeyboarduandU => 0x18,
            KeyboardUsage::KeyboardvandV => 0x19,
            KeyboardUsage::KeyboardwandW => 0x1A,
            KeyboardUsage::KeyboardxandX => 0x1B,
            KeyboardUsage::KeyboardyandY => 0x1C,
            KeyboardUsage::KeyboardzandZ => 0x1D,
            KeyboardUsage::Keyboard1andExclamation => 0x1E,
            KeyboardUsage::Keyboard2andAt => 0x1F,
            KeyboardUsage::Keyboard3andHash => 0x20,
            KeyboardUsage::Keyboard4andDollar => 0x21,
            KeyboardUsage::Keyboard5andPercent => 0x22,
            KeyboardUsage::Keyboard6andPower => 0x23,
            KeyboardUsage::Keyboard7andAmpersand => 0x24,
            KeyboardUsage::Keyboard8andStar => 0x25,
            KeyboardUsage::Keyboard9andLeftParentheses => 0x26,
            KeyboardUsage::Keyboard0andRightParentheses => 0x27,
            KeyboardUsage::KeyboardReturnEnter => 0x28,
            KeyboardUsage::KeyboardESCAPE => 0x29,
            KeyboardUsage::KeyboardDELETE => 0x2A,
            KeyboardUsage::KeyboardTab => 0x2B,
            KeyboardUsage::KeyboardSpacebar => 0x2C,
            KeyboardUsage::KeyboardDashandUnderscore => 0x2D,
            KeyboardUsage::KeyboardEqualandPlus => 0x2E,
            KeyboardUsage::KeyboardLeftSquareBracketandLeftCurlyBracket => 0x2F,
            KeyboardUsage::KeyboardRightSquareBracketandRightCurlyBracket => 0x30,
            KeyboardUsage::KeyboardBackslashandPipe => 0x31,
            KeyboardUsage::KeyboardNonUSHashandTilde => 0x32,
            KeyboardUsage::KeyboardSemicolonandColon => 0x33,
            KeyboardUsage::KeyboardQuoteandDoubleQuote => 0x34,
            KeyboardUsage::KeyboardGraveAccentandTilde => 0x35,
            KeyboardUsage::KeyboardCommaandLessThan => 0x36,
            KeyboardUsage::KeyboardDotandGreatherThan => 0x37,
            KeyboardUsage::KeyboardSlashandQuestion => 0x38,
            KeyboardUsage::KeyboardCapsLock => 0x39,
            KeyboardUsage::KeyboardF1 => 0x3A,
            KeyboardUsage::KeyboardF2 => 0x3B,
            KeyboardUsage::KeyboardF3 => 0x3C,
            KeyboardUsage::KeyboardF4 => 0x3D,
            KeyboardUsage::KeyboardF5 => 0x3E,
            KeyboardUsage::KeyboardF6 => 0x3F,
            KeyboardUsage::KeyboardF7 => 0x40,
            KeyboardUsage::KeyboardF8 => 0x41,
            KeyboardUsage::KeyboardF9 => 0x42,
            KeyboardUsage::KeyboardF10 => 0x43,
            KeyboardUsage::KeyboardF11 => 0x44,
            KeyboardUsage::KeyboardF12 => 0x45,
            KeyboardUsage::KeyboardPrintScreen => 0x46,
            KeyboardUsage::KeyboardScrollLock => 0x47,
            KeyboardUsage::KeyboardPause => 0x48,
            KeyboardUsage::KeyboardInsert => 0x49,
            KeyboardUsage::KeyboardHome => 0x4A,
            KeyboardUsage::KeyboardPageUp => 0x4B,
            KeyboardUsage::KeyboardDeleteForward => 0x4C,
            KeyboardUsage::KeyboardEnd => 0x4D,
            KeyboardUsage::KeyboardPageDown => 0x4E,
            KeyboardUsage::KeyboardRightArrow => 0x4F,
            KeyboardUsage::KeyboardLeftArrow => 0x50,
            KeyboardUsage::KeyboardDownArrow => 0x51,
            KeyboardUsage::KeyboardUpArrow => 0x52,
            KeyboardUsage::KeypadNumLockandClear => 0x53,
            KeyboardUsage::KeypadSlash => 0x54,
            KeyboardUsage::KeypadStar => 0x55,
            KeyboardUsage::KeypadDash => 0x56,
            KeyboardUsage::KeypadPlus => 0x57,
            KeyboardUsage::KeypadENTER => 0x58,
            KeyboardUsage::Keypad1andEnd => 0x59,
            KeyboardUsage::Keypad2andDownArrow => 0x5A,
            KeyboardUsage::Keypad3andPageDn => 0x5B,
            KeyboardUsage::Keypad4andLeftArrow => 0x5C,
            KeyboardUsage::Keypad => 0x5D,
            KeyboardUsage::Keypad6andRightArrow => 0x5E,
            KeyboardUsage::Keypad7andHome => 0x5F,
            KeyboardUsage::Keypad8andUpArrow => 0x60,
            KeyboardUsage::Keypad9andPageUp => 0x61,
            KeyboardUsage::Keypad0andInsert => 0x62,
            KeyboardUsage::KeypadDotandDelete => 0x63,
            KeyboardUsage::KeyboardNonUSBackslashandPipe => 0x64,
            KeyboardUsage::KeyboardApplication1 => 0x65,
            KeyboardUsage::KeyboardPower => 0x66,
            KeyboardUsage::KeypadEqual => 0x67,
            KeyboardUsage::KeyboardF13 => 0x68,
            KeyboardUsage::KeyboardF14 => 0x69,
            KeyboardUsage::KeyboardF15 => 0x6A,
            KeyboardUsage::KeyboardF16 => 0x6B,
            KeyboardUsage::KeyboardF17 => 0x6C,
            KeyboardUsage::KeyboardF18 => 0x6D,
            KeyboardUsage::KeyboardF19 => 0x6E,
            KeyboardUsage::KeyboardF20 => 0x6F,
            KeyboardUsage::KeyboardF21 => 0x70,
            KeyboardUsage::KeyboardF22 => 0x71,
            KeyboardUsage::KeyboardF23 => 0x72,
            KeyboardUsage::KeyboardF24 => 0x73,
            KeyboardUsage::KeyboardExecute => 0x74,
            KeyboardUsage::KeyboardHelp => 0x75,
            KeyboardUsage::KeyboardMenu => 0x76,
            KeyboardUsage::KeyboardSelect => 0x77,
            KeyboardUsage::KeyboardStop => 0x78,
            KeyboardUsage::KeyboardAgain => 0x79,
            KeyboardUsage::KeyboardUndo => 0x7A,
            KeyboardUsage::KeyboardCut => 0x7B,
            KeyboardUsage::KeyboardCopy => 0x7C,
            KeyboardUsage::KeyboardPaste => 0x7D,
            KeyboardUsage::KeyboardFind => 0x7E,
            KeyboardUsage::KeyboardMute => 0x7F,
            KeyboardUsage::KeyboardVolumeUp => 0x80,
            KeyboardUsage::KeyboardVolumeDown => 0x81,
            KeyboardUsage::KeyboardLockingCapsLock => 0x82,
            KeyboardUsage::KeyboardLockingNumLock => 0x83,
            KeyboardUsage::KeyboardLockingScrollLock => 0x84,
            KeyboardUsage::KeypadComma => 0x85,
            KeyboardUsage::KeypadEqualSign => 0x86,
            KeyboardUsage::KeyboardInternational1 => 0x87,
            KeyboardUsage::KeyboardInternational2 => 0x88,
            KeyboardUsage::KeyboardInternational3 => 0x89,
            KeyboardUsage::KeyboardInternational4 => 0x8A,
            KeyboardUsage::KeyboardInternational5 => 0x8B,
            KeyboardUsage::KeyboardInternational6 => 0x8C,
            KeyboardUsage::KeyboardInternational7 => 0x8D,
            KeyboardUsage::KeyboardInternational8 => 0x8E,
            KeyboardUsage::KeyboardInternational9 => 0x8F,
            KeyboardUsage::KeyboardLANG1 => 0x90,
            KeyboardUsage::KeyboardLANG2 => 0x91,
            KeyboardUsage::KeyboardLANG3 => 0x92,
            KeyboardUsage::KeyboardLANG4 => 0x93,
            KeyboardUsage::KeyboardLANG5 => 0x94,
            KeyboardUsage::KeyboardLANG6 => 0x95,
            KeyboardUsage::KeyboardLANG7 => 0x96,
            KeyboardUsage::KeyboardLANG8 => 0x97,
            KeyboardUsage::KeyboardLANG9 => 0x98,
            KeyboardUsage::KeyboardAlternateErase => 0x99,
            KeyboardUsage::KeyboardSysReqAttention => 0x9A,
            KeyboardUsage::KeyboardCancel => 0x9B,
            KeyboardUsage::KeyboardClear => 0x9C,
            KeyboardUsage::KeyboardPrior => 0x9D,
            KeyboardUsage::KeyboardReturn => 0x9E,
            KeyboardUsage::KeyboardSeparator => 0x9F,
            KeyboardUsage::KeyboardOut => 0xA0,
            KeyboardUsage::KeyboardOper => 0xA1,
            KeyboardUsage::KeyboardClearAgain => 0xA2,
            KeyboardUsage::KeyboardCrSelProps => 0xA3,
            KeyboardUsage::KeyboardExSel => 0xA4,
            KeyboardUsage::Keypad00 => 0xB0,
            KeyboardUsage::Keypad000 => 0xB1,
            KeyboardUsage::ThousandsSeparator => 0xB2,
            KeyboardUsage::DecimalSeparator => 0xB3,
            KeyboardUsage::CurrencyUnit => 0xB4,
            KeyboardUsage::CurrencySubunit => 0xB5,
            KeyboardUsage::KeypadLeftParentheses => 0xB6,
            KeyboardUsage::KeypadRightParentheses => 0xB7,
            KeyboardUsage::KeypadLeftCurlyBracket => 0xB8,
            KeyboardUsage::KeypadRightCurlyBracket => 0xB9,
            KeyboardUsage::KeypadTab => 0xBA,
            KeyboardUsage::KeypadBackspace => 0xBB,
            KeyboardUsage::KeypadA => 0xBC,
            KeyboardUsage::KeypadB => 0xBD,
            KeyboardUsage::KeypadC => 0xBE,
            KeyboardUsage::KeypadD => 0xBF,
            KeyboardUsage::KeypadE => 0xC0,
            KeyboardUsage::KeypadF => 0xC1,
            KeyboardUsage::KeypadXOR => 0xC2,
            KeyboardUsage::KeypadPower => 0xC3,
            KeyboardUsage::KeypadPercent => 0xC4,
            KeyboardUsage::KeypadLessThan => 0xC5,
            KeyboardUsage::KeypadGreaterThan => 0xC6,
            KeyboardUsage::KeypadAmpersand => 0xC7,
            KeyboardUsage::KeypadDoubleAmpersand => 0xC8,
            KeyboardUsage::KeypadPipe => 0xC9,
            KeyboardUsage::KeypadDoublePipe => 0xCA,
            KeyboardUsage::KeypadColon => 0xCB,
            KeyboardUsage::KeypadHash => 0xCC,
            KeyboardUsage::KeypadSpace => 0xCD,
            KeyboardUsage::KeypadAt => 0xCE,
            KeyboardUsage::KeypadExclamation => 0xCF,
            KeyboardUsage::KeypadMemoryStore => 0xD0,
            KeyboardUsage::KeypadMemoryRecall => 0xD1,
            KeyboardUsage::KeypadMemoryClear => 0xD2,
            KeyboardUsage::KeypadMemoryAdd => 0xD3,
            KeyboardUsage::KeypadMemorySubtract => 0xD4,
            KeyboardUsage::KeypadMemoryMultiply => 0xD5,
            KeyboardUsage::KeypadMemoryDivide => 0xD6,
            KeyboardUsage::KeypadPlusMinus => 0xD7,
            KeyboardUsage::KeypadClear => 0xD8,
            KeyboardUsage::KeypadClearEntry => 0xD9,
            KeyboardUsage::KeypadBinary => 0xDA,
            KeyboardUsage::KeypadOctal => 0xDB,
            KeyboardUsage::KeypadDecimal => 0xDC,
            KeyboardUsage::KeypadHexadecimal => 0xDD,
            KeyboardUsage::KeyboardLeftControl => 0xE0,
            KeyboardUsage::KeyboardLeftShift => 0xE1,
            KeyboardUsage::KeyboardLeftAlt => 0xE2,
            KeyboardUsage::KeyboardLeftGUI => 0xE3,
            KeyboardUsage::KeyboardRightControl => 0xE4,
            KeyboardUsage::KeyboardRightShift => 0xE5,
            KeyboardUsage::KeyboardRightAlt => 0xE6,
            KeyboardUsage::KeyboardRightGUI => 0xE7,
            KeyboardUsage::Reserved(i) => i,
        }
    }

    /// Every id names a usage that carries that id.
    pub proof fn lemma_id_round_trip(value: u16)
        ensures
            Self::of_id(value).to_id() == value,
    {
    }

    /// A usage that the table names is the one its own id leads back to.
    pub proof fn lemma_named_usage_round_trip(usage: KeyboardUsage)
        requires
            !(usage is Reserved),
        ensures
            Self::of_id(usage.to_id()) == usage,
    {
    }

    /// The name of this usage; a reserved usage shows its id.
    pub open spec fn text(self) -> Seq<char> {
        match self {
            KeyboardUsage::KeyboardErrorRollOver => "Keyboard Error Roll Over"@,
            KeyboardUsage::KeyboardPOSTFail => "Keyboard POST Fail"@,
            KeyboardUsage::KeyboardErrorUndefined => "Keyboard Error Undefined"@,
            KeyboardUsage::KeyboardaandA => "Keyboard a and A"@,
            KeyboardUsage::KeyboardbandB => "Keyboard b and B"@,
            KeyboardUsage::KeyboardcandC => "Keyboard c and C"@,
            KeyboardUsage::KeyboarddandD => "Keyboard d and D"@,
            KeyboardUsage::KeyboardeandE => "Keyboard e and E"@,
            KeyboardUsage::KeyboardfandF => "Keyboard f and F"@,
            KeyboardUsage::KeyboardgandG => "Keyboard g and G"@,
            KeyboardUsage::KeyboardhandH => "Keyboard h and H"@,
            KeyboardUsage::KeyboardiandI => "Keyboard i and I"@,
            KeyboardUsage::KeyboardjandJ => "Keyboard j and J"@,
            KeyboardUsage::KeyboardkandK => "Keyboard k and K"@,
            KeyboardUsage::KeyboardlandL => "Keyboard l and L"@,
            KeyboardUsage::KeyboardmandM => "Keyboard m and M"@,
            KeyboardUsage::KeyboardnandN => "Keyboard n and N"@,
            KeyboardUsage::KeyboardoandO => "Keyboard o and O"@,
            KeyboardUsage::KeyboardpandP => "Keyboard p and P"@,
            KeyboardUsage::KeyboardqandQ => "Keyboard q and Q"@,
            KeyboardUsage::KeyboardrandR => "Keyboard r and R"@,
            KeyboardUsage::KeyboardsandS => "Keyboard s and S"@,
            KeyboardUsage::KeyboardtandT => "Keyboard t and T"@,
            KeyboardUsage::KeyboarduandU => "Keyboard u and U"@,
            KeyboardUsage::KeyboardvandV => "Keyboard v and V"@,
            KeyboardUsage::KeyboardwandW => "Keyboard w and W"@,
            KeyboardUsage::KeyboardxandX => "Keyboard x and X"@,
            KeyboardUsage::KeyboardyandY => "Keyboard y and Y"@,
            KeyboardUsage::KeyboardzandZ => "Keyboard z and Z"@,
            KeyboardUsage::Keyboard1andExclamation => "Keyboard 1 and !"@,
            KeyboardUsage::Keyboard2andAt => "Keyboard 2 and @"@,
            KeyboardUsage::Keyboard3andHash => "Keyboard 3 and #"@,
            KeyboardUsage::Keyboard4andDollar => "Keyboard 4 and $"@,
            KeyboardUsage::Keyboard5andPercent => "Keyboard 5 and %"@,
            KeyboardUsage::Keyboard6andPower => "Keyboard 6 and ^"@,
            KeyboardUsage::Keyboard7andAmpersand => "Keyboard 7 and &"@,
            KeyboardUsage::Keyboard8andStar => "Keyboard 8 and *"@,
            KeyboardUsage::Keyboard9andLeftParentheses => "Keyboard 9 and ("@,
            KeyboardUsage::Keyboard0andRightParentheses => "Keyboard 0 and ("@,
            KeyboardUsage::KeyboardReturnEnter => "Keyboard Return (Enter)"@,
            KeyboardUsage::KeyboardESCAPE => "Keyboard ESCAPE"@,
            KeyboardUsage::KeyboardDELETE => "Keyboard DELETE"@,
            KeyboardUsage::KeyboardTab => "Keyboard Tab"@,
            KeyboardUsage::KeyboardSpacebar => "Keyboard Spacebar"@,
            KeyboardUsage::KeyboardDashandUnderscore => "Keyboard - and _"@,
            KeyboardUsage::KeyboardEqualandPlus => "KeyboardEqualandPlus"@,
            KeyboardUsage::KeyboardLeftSquareBracketandLeftCurlyBracket => "Keyboard [ and {"@,
            KeyboardUsage::KeyboardRightSquareBracketandRightCurlyBracket => "Keyboard ] and }"@,
            KeyboardUsage::KeyboardBackslashandPipe => "Keyboard \\ and |"@,
            KeyboardUsage::KeyboardNonUSHashandTilde => "Keyboard Non-US Hash and Tilde"@,
            KeyboardUsage::KeyboardSemicolonandColon => "Keyboard ; and :"@,
            KeyboardUsage::KeyboardQuoteandDoubleQuote => "Keyboard ' and \""@,
            KeyboardUsage::KeyboardGraveAccentandTilde => "Keyboard ` and ~"@,
            KeyboardUsage::KeyboardCommaandLessThan => "Keyboard , and <"@,
            KeyboardUsage::KeyboardDotandGreatherThan => "Keyboard . and >"@,
            KeyboardUsage::KeyboardSlashandQuestion => "Keyboard / and ?"@,
            KeyboardUsage::KeyboardCapsLock => "Keyboard Caps Lock"@,
            KeyboardUsage::KeyboardF1 => "Keyboard F1"@,
            KeyboardUsage::KeyboardF2 => "Keyboard F2"@,
            KeyboardUsage::KeyboardF3 => "Keyboard F3"@,
            KeyboardUsage::KeyboardF4 => "Keyboard F4"@,
            KeyboardUsage::KeyboardF5 => "Keyboard F5"@,
            KeyboardUsage::KeyboardF6 => "Keyboard F6"@,
            KeyboardUsage::KeyboardF7 => "Keyboard F7"@,
            KeyboardUsage::KeyboardF8 => "Keyboard F8"@,
            KeyboardUsage::KeyboardF9 => "Keyboard F9"@,
            KeyboardUsage::KeyboardF10 => "Keyboard F10"@,
            KeyboardUsage::KeyboardF11 => "Keyboard F11"@,
            KeyboardUsage::KeyboardF12 => "Keyboard F12"@,
            KeyboardUsage::KeyboardPrintScreen => "Keyboard Print Screen"@,
            KeyboardUsage::KeyboardScrollLock => "Keyboard ScrollLock"@,
            KeyboardUsage::KeyboardPause => "Keyboard Pause"@,
            KeyboardUsage::KeyboardInsert => "Keyboard Insert"@,
            KeyboardUsage::KeyboardHome => "Keyboard Home"@,
            KeyboardUsage::KeyboardPageUp => "Keyboard Page Up"@,
            KeyboardUsage::KeyboardDeleteForward => "Keyboard Delete Forward"@,
            KeyboardUsage::KeyboardEnd => "Keyboard End"@,
            KeyboardUsage::KeyboardPageDown => "Keyboard Page Down"@,
            KeyboardUsage::KeyboardRightArrow => "Keyboard Right Arrow"@,
            KeyboardUsage::KeyboardLeftArrow => "Keyboard Left Arrow"@,
            KeyboardUsage::KeyboardDownArrow => "Keyboard Down Arrow"@,
            KeyboardUsage::KeyboardUpArrow => "Keyboard Up Arrow"@,
            KeyboardUsage::KeypadNumLockandClear => "Keypad Num Lock and Clear"@,
            KeyboardUsage::KeypadSlash => "Keypad /"@,
            KeyboardUsage::KeypadStar => "Keypad *"@,
            KeyboardUsage::KeypadDash => "Keypad -"@,
            KeyboardUsage::KeypadPlus => "Keypad +"@,
            KeyboardUsage::KeypadENTER => "Keypad ENTER"@,
            KeyboardUsage::Keypad1andEnd => "Keypad 1 and End"@,
            KeyboardUsage::Keypad2andDownArrow => "Keypad 2and Down Arrow"@,
            KeyboardUsage::Keypad3andPageDn => "Keypad 3 and PageDn"@,
            KeyboardUsage::Keypad4andLeftArrow => "Keypad 4 and Left Arrow"@,
            KeyboardUsage::Keypad => "Keypad"@,
            KeyboardUsage::Keypad6andRightArrow => "Keypad 6 and Right Arrow"@,
            KeyboardUsage::Keypad7andHome => "Keypad 7 and Home"@,
            KeyboardUsage::Keypad8andUpArrow => "Keypad 8 and Up Arrow"@,
            KeyboardUsage::Keypad9andPageUp => "Keypad 9 and PageUp"@,
            KeyboardUsage::Keypad0andInsert => "Keypad 0 and Insert"@,
            KeyboardUsage::KeypadDotandDelete => "Keypad . and Delete"@,
            KeyboardUsage::KeyboardNonUSBackslashandPipe => "Keyboard Non-US \\ and |"@,
            KeyboardUsage::KeyboardApplication1 => "Keyboard Application 1"@,
            KeyboardUsage::KeyboardPower => "Keyboard Power"@,
            KeyboardUsage::KeypadEqual => "Keypad ="@,
            KeyboardUsage::KeyboardF13 => "Keyboard F13"@,
            KeyboardUsage::KeyboardF14 => "Keyboard F14"@,
            KeyboardUsage::KeyboardF15 => "Keyboard F15"@,
            KeyboardUsage::KeyboardF16 => "Keyboard F16"@,
            KeyboardUsage::KeyboardF17 => "Keyboard F17"@,
            KeyboardUsage::KeyboardF18 => "Keyboard F18"@,
            KeyboardUsage::KeyboardF19 => "Keyboard F19"@,
            KeyboardUsage::KeyboardF20 => "Keyboard F20"@,
            KeyboardUsage::KeyboardF21 => "Keyboard F21"@,
            KeyboardUsage::KeyboardF22 => "Keyboard F22"@,
            KeyboardUsage::KeyboardF23 => "Keyboard F23"@,
            KeyboardUsage::KeyboardF24 => "Keyboard F24"@,
            KeyboardUsage::KeyboardExecute => "Keyboard Execute"@,
            KeyboardUsage::KeyboardHelp => "Keyboard Help"@,
            KeyboardUsage::KeyboardMenu => "Keyboard Menu"@,
            KeyboardUsage::KeyboardSelect => "Keyboard Select"@,
            KeyboardUsage::KeyboardStop => "Keyboard Stop"@,
            KeyboardUsage::KeyboardAgain => "Keyboard Again"@,
            KeyboardUsage::KeyboardUndo => "Keyboard Undo"@,
            KeyboardUsage::KeyboardCut => "Keyboard Cut"@,
            KeyboardUsage::KeyboardCopy => "Keyboard Copy"@,
            KeyboardUsage::KeyboardPaste => "Keyboard Paste"@,
            KeyboardUsage::KeyboardFind => "Keyboard Find"@,
            KeyboardUsage::KeyboardMute => "Keyboard Mute"@,
            KeyboardUsage::KeyboardVolumeUp => "Keyboard Volume Up"@,
            KeyboardUsage::KeyboardVolumeDown => "Keyboard Volume Down"@,
            KeyboardUsage::KeyboardLockingCapsLock => "Keyboard Locking CapsLock"@,
            KeyboardUsage::KeyboardLockingNumLock => "Keyboard Locking Num Lock"@,
            KeyboardUsage::KeyboardLockingScrollLock => "Keyboard Locking Scroll Lock"@,
            KeyboardUsage::KeypadComma => "Keypad Comma"@,
            KeyboardUsage::KeypadEqualSign => "Keypad Equal Sign"@,
            KeyboardUsage::KeyboardInternational1 => "Keyboard International 1"@,
            KeyboardUsage::KeyboardInternational2 => "Keyboard International 2"@,
            KeyboardUsage::KeyboardInternational3 => "Keyboard International 3"@,
            KeyboardUsage::KeyboardInternational4 => "Keyboard International 4"@,
            KeyboardUsage::KeyboardInternational5 => "Keyboard International 5"@,
            KeyboardUsage::KeyboardInternational6 => "Keyboard International 6"@,
            KeyboardUsage::KeyboardInternational7 => "Keyboard International 7"@,
            KeyboardUsage::KeyboardInternational8 => "Keyboard International 8"@,
            KeyboardUsage::KeyboardInternational9 => "Keyboard International 9"@,
            KeyboardUsage::KeyboardLANG1 => "Keyboard LANG 1"@,
            KeyboardUsage::KeyboardLANG2 => "Keyboard LANG 2"@,
            KeyboardUsage::KeyboardLANG3 => "Keyboard LANG 3"@,
            KeyboardUsage::KeyboardLANG4 => "Keyboard LANG 4"@,
            KeyboardUsage::KeyboardLANG5 => "Keyboard LANG 5"@,
            KeyboardUsage::KeyboardLANG6 => "Keyboard LANG 6"@,
            KeyboardUsage::KeyboardLANG7 => "Keyboard LANG 7"@,
            KeyboardUsage::KeyboardLANG8 => "Keyboard LANG 8"@,
            KeyboardUsage::KeyboardLANG9 => "Keyboard LANG 9"@,
            KeyboardUsage::KeyboardAlternateErase => "Keyboard Alternate Erase"@,
            KeyboardUsage::KeyboardSysReqAttention => "Keyboard Sys/Req Attention"@,
            KeyboardUsage::KeyboardCancel => "Keyboard Cancel"@,
            KeyboardUsage::KeyboardClear => "Keyboard Clear"@,
            KeyboardUsage::KeyboardPrior => "Keyboard Prior"@,
            KeyboardUsage::KeyboardReturn => "Keyboard Return"@,
            KeyboardUsage::KeyboardSeparator => "Keyboard Separator"@,
            KeyboardUsage::KeyboardOut => "Keyboard Out"@,
            KeyboardUsage::KeyboardOper => "Keyboard Oper"@,
            KeyboardUsage::KeyboardClearAgain => "Keyboard Clear Again"@,
            KeyboardUsage::KeyboardCrSelProps => "Keyboard Cr/Sel Props"@,
            KeyboardUsage::KeyboardExSel => "Keyboard Ex Sel"@,
            KeyboardUsage::Keypad00 => "Keypad 00"@,
            KeyboardUsage::Keypad000 => "Keypad 000"@,
            KeyboardUsage::ThousandsSeparator => "Thousands Separator"@,
            KeyboardUsage::DecimalSeparator => "Decimal Separator"@,
            KeyboardUsage::CurrencyUnit => "Currency Unit"@,
            KeyboardUsage::CurrencySubunit => "Currency Subunit"@,
            KeyboardUsage::KeypadLeftParentheses => "Keypad ("@,
            KeyboardUsage::KeypadRightParentheses => "Keypad )"@,
            KeyboardUsage::KeypadLeftCurlyBracket => "Keypad {"@,
            KeyboardUsage::KeypadRightCurlyBracket => "Keypad }"@,
            KeyboardUsage::KeypadTab => "Keypad Tab"@,
            KeyboardUsage::KeypadBackspace => "Keypad Backspace"@,
            KeyboardUsage::KeypadA => "Keypad A"@,
            KeyboardUsage::KeypadB => "Keypad B"@,
            KeyboardUsage::KeypadC => "Keypad C"@,
            KeyboardUsage::KeypadD => "Keypad D"@,
            KeyboardUsage::KeypadE => "Keypad E"@,
            KeyboardUsage::KeypadF => "Keypad F"@,
            KeyboardUsage::KeypadXOR => "Keypad XOR"@,
            KeyboardUsage::KeypadPower => "Keypad ^"@,
            KeyboardUsage::KeypadPercent => "Keypad %"@,
            KeyboardUsage::KeypadLessThan => "Keypad <"@,
            KeyboardUsage::KeypadGreaterThan => "Keypad >"@,
            KeyboardUsage::KeypadAmpersand => "Keypad &"@,
            KeyboardUsage::KeypadDoubleAmpersand => "Keypad &&"@,
            KeyboardUsage::KeypadPipe => "Keypad |"@,
            KeyboardUsage::KeypadDoublePipe => "Keypad ||"@,
            KeyboardUsage::KeypadColon => "Keypad :"@,
            KeyboardUsage::KeypadHash => "Keypad #"@,
            KeyboardUsage::KeypadSpace => "Keypad Space"@,
            KeyboardUsage::KeypadAt => "Keypad @"@,
            KeyboardUsage::KeypadExclamation => "Keypad !"@,
            KeyboardUsage::KeypadMemoryStore => "Keypad Memory Store"@,
            KeyboardUsage::KeypadMemoryRecall => "Keypad Memory Recall"@,
            KeyboardUsage::KeypadMemoryClear => "Keypad Memory Clear"@,
            KeyboardUsage::KeypadMemoryAdd => "Keypad Memory Add"@,
            KeyboardUsage::KeypadMemorySubtract => "Keypad Memory Subtract"@,
            KeyboardUsage::KeypadMemoryMultiply => "Keypad Memory Multiply"@,
            KeyboardUsage::KeypadMemoryDivide => "Keypad Memory Divide"@,
            KeyboardUsage::KeypadPlusMinus => "Keypad +/-"@,
            KeyboardUsage::KeypadClear => "Keypad Clear"@,
            KeyboardUsage::KeypadClearEntry => "Keypad Clear Entry"@,
            KeyboardUsage::KeypadBinary => "Keypad Binary"@,
            KeyboardUsage::KeypadOctal => "Keypad Octal"@,
            KeyboardUsage::KeypadDecimal => "Keypad Decimal"@,
            KeyboardUsage::KeypadHexadecimal => "Keypad Hexadecimal"@,
            KeyboardUsage::KeyboardLeftControl => "Keyboard Left Control"@,
            KeyboardUsage::KeyboardLeftShift => "Keyboard Left Shift"@,
            KeyboardUsage::KeyboardLeftAlt => "Keyboard Left Alt"@,
            KeyboardUsage::KeyboardLeftGUI => "Keyboard Left GUI"@,
            KeyboardUsage::KeyboardRightControl => "Keyboard Right Control"@,
            KeyboardUsage::KeyboardRightShift => "Keyboard Right Shift"@,
            KeyboardUsage::KeyboardRightAlt => "Keyboard Right Alt"@,
            KeyboardUsage::KeyboardRightGUI => "Keyboard Right GUI"@,
            KeyboardUsage::Reserved(i) => "Reserved ("@ + decimal(i as int) + ")"@,
        }
    }

    /// Returns the name of this usage.
    pub fn to_string(&self) -> (text: String)
        ensures
            text@ == self.text(),
    {
        match self {
            KeyboardUsage::KeyboardErrorRollOver => "Keyboard Error Roll Over".to_owned(),
            KeyboardUsage::KeyboardPOSTFail => "Keyboard POST Fail".to_owned(),
            KeyboardUsage::KeyboardErrorUndefined => "Keyboard Error Undefined".to_owned(),
            KeyboardUsage::KeyboardaandA => "Keyboard a and A".to_owned(),
            KeyboardUsage::KeyboardbandB => "Keyboard b and B".to_owned(),
            KeyboardUsage::KeyboardcandC => "Keyboard c and C".to_owned(),
            KeyboardUsage::KeyboarddandD => "Keyboard d and D".to_owned(),
            KeyboardUsage::KeyboardeandE => "Keyboard e and E".to_owned(),
            KeyboardUsage::KeyboardfandF => "Keyboard f and F".to_owned(),
            KeyboardUsage::KeyboardgandG => "Keyboard g and G".to_owned(),
            KeyboardUsage::KeyboardhandH => "Keyboard h and H".to_owned(),
            KeyboardUsage::KeyboardiandI => "Keyboard i and I".to_owned(),
            KeyboardUsage::KeyboardjandJ => "Keyboard j and J".to_owned(),
            KeyboardUsage::KeyboardkandK => "Keyboard k and K".to_owned(),
            KeyboardUsage::KeyboardlandL => "Keyboard l and L".to_owned(),
            KeyboardUsage::KeyboardmandM => "Keyboard m and M".to_owned(),
            KeyboardUsage::KeyboardnandN => "Keyboard n and N".to_owned(),
            KeyboardUsage::KeyboardoandO => "Keyboard o and O".to_owned(),
            KeyboardUsage::KeyboardpandP => "Keyboard p and P".to_owned(),
            KeyboardUsage::KeyboardqandQ => "Keyboard q and Q".to_owned(),
            KeyboardUsage::KeyboardrandR => "Keyboard r and R".to_owned(),
            KeyboardUsage::KeyboardsandS => "Keyboard s and S".to_owned(),
            KeyboardUsage::KeyboardtandT => "Keyboard t and T".to_owned(),
            KeyboardUsage::KeyboarduandU => "Keyboard u and U".to_owned(),
            KeyboardUsage::KeyboardvandV => "Keyboard v and V".to_owned(),
            KeyboardUsage::KeyboardwandW => "Keyboard w and W".to_owned(),
            KeyboardUsage::KeyboardxandX => "Keyboard x and X".to_owned(),
            KeyboardUsage::KeyboardyandY => "Keyboard y and Y".to_owned(),
            KeyboardUsage::KeyboardzandZ => "Keyboard z and Z".to_owned(),
            KeyboardUsage::Keyboard1andExclamation => "Keyboard 1 and !".to_owned(),
            KeyboardUsage::Keyboard2andAt => "Keyboard 2 and @".to_owned(),
            KeyboardUsage::Keyboard3andHash => "Keyboard 3 and #".to_owned(),
            KeyboardUsage::Keyboard4andDollar => "Keyboard 4 and $".to_owned(),
            KeyboardUsage::Keyboard5andPercent => "Keyboard 5 and %".to_owned(),
            KeyboardUsage::Keyboard6andPower => "Keyboard 6 and ^".to_owned(),
            KeyboardUsage::Keyboard7andAmpersand => "Keyboard 7 and &".to_owned(),
            KeyboardUsage::Keyboard8andStar => "Keyboard 8 and *".to_owned(),
            KeyboardUsage::Keyboard9andLeftParentheses => "Keyboard 9 and (".to_owned(),
            KeyboardUsage::Keyboard0andRightParentheses => "Keyboard 0 and (".to_owned(),
            KeyboardUsage::KeyboardReturnEnter => "Keyboard Return (Enter)".to_owned(),
            KeyboardUsage::KeyboardESCAPE => "Keyboard ESCAPE".to_owned(),
            KeyboardUsage::KeyboardDELETE => "Keyboard DELETE".to_owned(),
            KeyboardUsage::KeyboardTab => "Keyboard Tab".to_owned(),
            KeyboardUsage::KeyboardSpacebar => "Keyboard Spacebar".to_owned(),
            KeyboardUsage::KeyboardDashandUnderscore => "Keyboard - and _".to_owned(),
            KeyboardUsage::KeyboardEqualandPlus => "KeyboardEqualandPlus".to_owned(),
            KeyboardUsage::KeyboardLeftSquareBracketandLeftCurlyBracket => "Keyboard [ and {".to_owned(),
            KeyboardUsage::KeyboardRightSquareBracketandRightCurlyBracket => "Keyboard ] and }".to_owned(),
            KeyboardUsage::KeyboardBackslashandPipe => "Keyboard \\ and |".to_owned(),
            KeyboardUsage::KeyboardNonUSHashandTilde => "Keyboard Non-US Hash and Tilde".to_owned(),
            KeyboardUsage::KeyboardSemicolonandColon => "Keyboard ; and :".to_owned(),
            KeyboardUsage::KeyboardQuoteandDoubleQuote => "Keyboard ' and \"".to_owned(),
            KeyboardUsage::KeyboardGraveAccentandTilde => "Keyboard ` and ~".to_owned(),
            KeyboardUsage::KeyboardCommaandLessThan => "Keyboard , and <".to_owned(),
            KeyboardUsage::KeyboardDotandGreatherThan => "Keyboard . and >".to_owned(),
            KeyboardUsage::KeyboardSlashandQuestion => "Keyboard / and ?".to_owned(),
            KeyboardUsage::KeyboardCapsLock => "Keyboard Caps Lock".to_owned(),
            KeyboardUsage::KeyboardF1 => "Keyboard F1".to_owned(),
            KeyboardUsage::KeyboardF2 => "Keyboard F2".to_owned(),
            KeyboardUsage::KeyboardF3 => "Keyboard F3".to_owned(),
            KeyboardUsage::KeyboardF4 => "Keyboard F4".to_owned(),
            KeyboardUsage::KeyboardF5 => "Keyboard F5".to_owned(),
            KeyboardUsage::KeyboardF6 => "Keyboard F6".to_owned(),
            KeyboardUsage::KeyboardF7 => "Keyboard F7".to_owned(),
            KeyboardUsage::KeyboardF8 => "Keyboard F8".to_owned(),
            KeyboardUsage::KeyboardF9 => "Keyboard F9".to_owned(),
            KeyboardUsage::KeyboardF10 => "Keyboard F10".to_owned(),
            KeyboardUsage::KeyboardF11 => "Keyboard F11".to_owned(),
            KeyboardUsage::KeyboardF12 => "Keyboard F12".to_owned(),
            KeyboardUsage::KeyboardPrintScreen => "Keyboard Print Screen".to_owned(),
            KeyboardUsage::KeyboardScrollLock => "Keyboard ScrollLock".to_owned(),
            KeyboardUsage::KeyboardPause => "Keyboard Pause".to_owned(),
            KeyboardUsage::KeyboardInsert => "Keyboard Insert".to_owned(),
            KeyboardUsage::KeyboardHome => "Keyboard Home".to_owned(),
            KeyboardUsage::KeyboardPageUp => "Keyboard Page Up".to_owned(),
            KeyboardUsage::KeyboardDeleteForward => "Keyboard Delete Forward".to_owned(),
            KeyboardUsage::KeyboardEnd => "Keyboard End".to_owned(),
            KeyboardUsage::KeyboardPageDown => "Keyboard Page Down".to_owned(),
            KeyboardUsage::KeyboardRightArrow => "Keyboard Right Arrow".to_owned(),
            KeyboardUsage::KeyboardLeftArrow => "Keyboard Left Arrow".to_owned(),
            KeyboardUsage::KeyboardDownArrow => "Keyboard Down Arrow".to_owned(),
            KeyboardUsage::KeyboardUpArrow => "Keyboard Up Arrow".to_owned(),
            KeyboardUsage::KeypadNumLockandClear => "Keypad Num Lock and Clear".to_owned(),
            KeyboardUsage::KeypadSlash => "Keypad /".to_owned(),
            KeyboardUsage::KeypadStar => "Keypad *".to_owned(),
            KeyboardUsage::KeypadDash => "Keypad -".to_owned(),
            KeyboardUsage::KeypadPlus => "Keypad +".to_owned(),
            KeyboardUsage::KeypadENTER => "Keypad ENTER".to_owned(),
            KeyboardUsage::Keypad1andEnd => "Keypad 1 and End".to_owned(),
            KeyboardUsage::Keypad2andDownArrow => "Keypad 2and Down Arrow".to_owned(),
            KeyboardUsage::Keypad3andPageDn => "Keypad 3 and PageDn".to_owned(),
            KeyboardUsage::Keypad4andLeftArrow => "Keypad 4 and Left Arrow".to_owned(),
            KeyboardUsage::Keypad => "Keypad".to_owned(),
            KeyboardUsage::Keypad6andRightArrow => "Keypad 6 and Right Arrow".to_owned(),
            KeyboardUsage::Keypad7andHome => "Keypad 7 and Home".to_owned(),
            KeyboardUsage::Keypad8andUpArrow => "Keypad 8 and Up Arrow".to_owned(),
            KeyboardUsage::Keypad9andPageUp => "Keypad 9 and PageUp".to_owned(),
            KeyboardUsage::Keypad0andInsert => "Keypad 0 and Insert".to_owned(),
            KeyboardUsage::KeypadDotandDelete => "Keypad . and Delete".to_owned(),
            KeyboardUsage::KeyboardNonUSBackslashandPipe => "Keyboard Non-US \\ and |".to_owned(),
            KeyboardUsage::KeyboardApplication1 => "Keyboard Application 1".to_owned(),
            KeyboardUsage::KeyboardPower => "Keyboard Power".to_owned(),
            KeyboardUsage::KeypadEqual => "Keypad =".to_owned(),
            KeyboardUsage::KeyboardF13 => "Keyboard F13".to_owned(),
            KeyboardUsage::KeyboardF14 => "Keyboard F14".to_owned(),
            KeyboardUsage::KeyboardF15 => "Keyboard F15".to_owned(),
            KeyboardUsage::KeyboardF16 => "Keyboard F16".to_owned(),
            KeyboardUsage::KeyboardF17 => "Keyboard F17".to_owned(),
            KeyboardUsage::KeyboardF18 => "Keyboard F18".to_owned(),
            KeyboardUsage::KeyboardF19 => "Keyboard F19".to_owned(),
            KeyboardUsage::KeyboardF20 => "Keyboard F20".to_owned(),
            KeyboardUsage::KeyboardF21 => "Keyboard F21".to_owned(),
            KeyboardUsage::KeyboardF22 => "Keyboard F22".to_owned(),
            KeyboardUsage::KeyboardF23 => "Keyboard F23".to_owned(),
            KeyboardUsage::KeyboardF24 => "Keyboard F24".to_owned(),
            KeyboardUsage::KeyboardExecute => "Keyboard Execute".to_owned(),
            KeyboardUsage::KeyboardHelp => "Keyboard Help".to_owned(),
            KeyboardUsage::KeyboardMenu => "Keyboard Menu".to_owned(),
            KeyboardUsage::KeyboardSelect => "Keyboard Select".to_owned(),
            KeyboardUsage::KeyboardStop => "Keyboard Stop".to_owned(),
            KeyboardUsage::KeyboardAgain => "Keyboard Again".to_owned(),
            KeyboardUsage::KeyboardUndo => "Keyboard Undo".to_owned(),
            KeyboardUsage::KeyboardCut => "Keyboard Cut".to_owned(),
            KeyboardUsage::KeyboardCopy => "Keyboard Copy".to_owned(),
            KeyboardUsage::KeyboardPaste => "Keyboard Paste".to_owned(),
            KeyboardUsage::KeyboardFind => "Keyboard Find".to_owned(),
            KeyboardUsage::KeyboardMute => "Keyboard Mute".to_owned(),
            KeyboardUsage::KeyboardVolumeUp => "Keyboard Volume Up".to_owned(),
            KeyboardUsage::KeyboardVolumeDown => "Keyboard Volume Down".to_owned(),
            KeyboardUsage::KeyboardLockingCapsLock => "Keyboard Locking CapsLock".to_owned(),
            KeyboardUsage::KeyboardLockingNumLock => "Keyboard Locking Num Lock".to_owned(),
            KeyboardUsage::KeyboardLockingScrollLock => "Keyboard Locking Scroll Lock".to_owned(),
            KeyboardUsage::KeypadComma => "Keypad Comma".to_owned(),
            KeyboardUsage::KeypadEqualSign => "Keypad Equal Sign".to_owned(),
            KeyboardUsage::KeyboardInternational1 => "Keyboard International 1".to_owned(),
            KeyboardUsage::KeyboardInternational2 => "Keyboard International 2".to_owned(),
            KeyboardUsage::KeyboardInternational3 => "Keyboard International 3".to_owned(),
            KeyboardUsage::KeyboardInternational4 => "Keyboard International 4".to_owned(),
            KeyboardUsage::KeyboardInternational5 => "Keyboard International 5".to_owned(),
            KeyboardUsage::KeyboardInternational6 => "Keyboard International 6".to_owned(),
            KeyboardUsage::KeyboardInternational7 => "Keyboard International 7".to_owned(),
            KeyboardUsage::KeyboardInternational8 => "Keyboard International 8".to_owned(),
            KeyboardUsage::KeyboardInternational9 => "Keyboard International 9".to_owned(),
            KeyboardUsage::KeyboardLANG1 => "Keyboard LANG 1".to_owned(),
            KeyboardUsage::KeyboardLANG2 => "Keyboard LANG 2".to_owned(),
            KeyboardUsage::KeyboardLANG3 => "Keyboard LANG 3".to_owned(),
            KeyboardUsage::KeyboardLANG4 => "Keyboard LANG 4".to_owned(),
            KeyboardUsage::KeyboardLANG5 => "Keyboard LANG 5".to_owned(),
            KeyboardUsage::KeyboardLANG6 => "Keyboard LANG 6".to_owned(),
            KeyboardUsage::KeyboardLANG7 => "Keyboard LANG 7".to_owned(),
            KeyboardUsage::KeyboardLANG8 => "Keyboard LANG 8".to_owned(),
            KeyboardUsage::KeyboardLANG9 => "Keyboard LANG 9".to_owned(),
            KeyboardUsage::KeyboardAlternateErase => "Keyboard Alternate Erase".to_owned(),
            KeyboardUsage::KeyboardSysReqAttention => "Keyboard Sys/Req Attention".to_owned(),
            KeyboardUsage::KeyboardCancel => "Keyboard Cancel".to_owned(),
            KeyboardUsage::KeyboardClear => "Keyboard Clear".to_owned(),
            KeyboardUsage::KeyboardPrior => "Keyboard Prior".to_owned(),
            KeyboardUsage::KeyboardReturn => "Keyboard Return".to_owned(),
            KeyboardUsage::KeyboardSeparator => "Keyboard Separator".to_owned(),
            KeyboardUsage::KeyboardOut => "Keyboard Out".to_owned(),
            KeyboardUsage::KeyboardOper => "Keyboard Oper".to_owned(),
            KeyboardUsage::KeyboardClearAgain => "Keyboard Clear Again".to_owned(),
            KeyboardUsage::KeyboardCrSelProps => "Keyboard Cr/Sel Props".to_owned(),
            KeyboardUsage::KeyboardExSel => "Keyboard Ex Sel".to_owned(),
            KeyboardUsage::Keypad00 => "Keypad 00".to_owned(),
            KeyboardUsage::Keypad000 => "Keypad 000".to_owned(),
            KeyboardUsage::ThousandsSeparator => "Thousands Separator".to_owned(),
            KeyboardUsage::DecimalSeparator => "Decimal Separator".to_owned(),
            KeyboardUsage::CurrencyUnit => "Currency Unit".to_owned(),
            KeyboardUsage::CurrencySubunit => "Currency Subunit".to_owned(),
            KeyboardUsage::KeypadLeftParentheses => "Keypad (".to_owned(),
            KeyboardUsage::KeypadRightParentheses => "Keypad )".to_owned(),
            KeyboardUsage::KeypadLeftCurlyBracket => "Keypad {".to_owned(),
            KeyboardUsage::KeypadRightCurlyBracket => "Keypad }".to_owned(),
            KeyboardUsage::KeypadTab => "Keypad Tab".to_owned(),
            KeyboardUsage::KeypadBackspace => "Keypad Backspace".to_owned(),
            KeyboardUsage::KeypadA => "Keypad A".to_owned(),
            KeyboardUsage::KeypadB => "Keypad B".to_owned(),
            KeyboardUsage::KeypadC => "Keypad C".to_owned(),
            KeyboardUsage::KeypadD => "Keypad D".to_owned(),
            KeyboardUsage::KeypadE => "Keypad E".to_owned(),
            KeyboardUsage::KeypadF => "Keypad F".to_owned(),
            KeyboardUsage::KeypadXOR => "Keypad XOR".to_owned(),
            KeyboardUsage::KeypadPower => "Keypad ^".to_owned(),
            KeyboardUsage::KeypadPercent => "Keypad %".to_owned(),
            KeyboardUsage::KeypadLessThan => "Keypad <".to_owned(),
            KeyboardUsage::KeypadGreaterThan => "Keypad >".to_owned(),
            KeyboardUsage::KeypadAmpersand => "Keypad &".to_owned(),
            KeyboardUsage::KeypadDoubleAmpersand => "Keypad &&".to_owned(),
            KeyboardUsage::KeypadPipe => "Keypad |".to_owned(),
            KeyboardUsage::KeypadDoublePipe => "Keypad ||".to_owned(),
            KeyboardUsage::KeypadColon => "Keypad :".to_owned(),
            KeyboardUsage::KeypadHash => "Keypad #".to_owned(),
            KeyboardUsage::KeypadSpace => "Keypad Space".to_owned(),
            KeyboardUsage::KeypadAt => "Keypad @".to_owned(),
            KeyboardUsage::KeypadExclamation => "Keypad !".to_owned(),
            KeyboardUsage::KeypadMemoryStore => "Keypad Memory Store".to_owned(),
            KeyboardUsage::KeypadMemoryRecall => "Keypad Memory Recall".to_owned(),
            KeyboardUsage::KeypadMemoryClear => "Keypad Memory Clear".to_owned(),
            KeyboardUsage::KeypadMemoryAdd => "Keypad Memory Add".to_owned(),
            KeyboardUsage::KeypadMemorySubtract => "Keypad Memory Subtract".to_owned(),
            KeyboardUsage::KeypadMemoryMultiply => "Keypad Memory Multiply".to_owned(),
            KeyboardUsage::KeypadMemoryDivide => "Keypad Memory Divide".to_owned(),
            KeyboardUsage::KeypadPlusMinus => "Keypad +/-".to_owned(),
            KeyboardUsage::KeypadClear => "Keypad Clear".to_owned(),
            KeyboardUsage::KeypadClearEntry => "Keypad Clear Entry".to_owned(),
            KeyboardUsage::KeypadBinary => "Keypad Binary".to_owned(),
            KeyboardUsage::KeypadOctal => "Keypad Octal".to_owned(),
            KeyboardUsage::KeypadDecimal => "Keypad Decimal".to_owned(),
            KeyboardUsage::KeypadHexadecimal => "Keypad Hexadecimal".to_owned(),
            KeyboardUsage::KeyboardLeftControl => "Keyboard Left Control".to_owned(),
            KeyboardUsage::KeyboardLeftShift => "Keyboard Left Shift".to_owned(),
            KeyboardUsage::KeyboardLeftAlt => "Keyboard Left Alt".to_owned(),
            KeyboardUsage::KeyboardLeftGUI => "Keyboard Left GUI".to_owned(),
            KeyboardUsage::KeyboardRightControl => "Keyboard Right Control".to_owned(),
            KeyboardUsage::KeyboardRightShift => "Keyboard Right Shift".to_owned(),
            KeyboardUsage::KeyboardRightAlt => "Keyboard Right Alt".to_owned(),
            KeyboardUsage::KeyboardRightGUI => "Keyboard Right GUI".to_owned(),
            KeyboardUsage::Reserved(i) => {
                let mut text = "Reserved (".to_owned();
                push_decimal(&mut text, *i as i64);
                push_str(&mut text, ")");
                text
            },
        }
    }
}

impl From<u16> for KeyboardUsage {
    fn from(value: u16) -> (usage: Self) {
        match value {
            0x01 => KeyboardUsage::KeyboardErrorRollOver,
            0x02 => KeyboardUsage::KeyboardPOSTFail,
            0x03 => KeyboardUsage::KeyboardErrorUndefined,
            0x04 => KeyboardUsage::KeyboardaandA,
            0x05 => KeyboardUsage::KeyboardbandB,
            0x06 => KeyboardUsage::KeyboardcandC,
            0x07 => KeyboardUsage::KeyboarddandD,
            0x08 => KeyboardUsage::KeyboardeandE,
            0x09 => KeyboardUsage::KeyboardfandF,
            0x0A => KeyboardUsage::KeyboardgandG,
            0x0B => KeyboardUsage::KeyboardhandH,
            0x0C => KeyboardUsage::KeyboardiandI,
            0x0D => KeyboardUsage::KeyboardjandJ,
            0x0E => KeyboardUsage::KeyboardkandK,
            0x0F => KeyboardUsage::KeyboardlandL,
            0x10 => KeyboardUsage::KeyboardmandM,
            0x11 => KeyboardUsage::KeyboardnandN,
            0x12 => KeyboardUsage::KeyboardoandO,
            0x13 => KeyboardUsage::KeyboardpandP,
            0x14 => KeyboardUsage::KeyboardqandQ,
            0x15 => KeyboardUsage::KeyboardrandR,
            0x16 => KeyboardUsage::KeyboardsandS,
            0x17 => KeyboardUsage::KeyboardtandT,
            0x18 => KeyboardUsage::KeyboarduandU,
            0x19 => KeyboardUsage::KeyboardvandV,
            0x1A => KeyboardUsage::KeyboardwandW,
            0x1B => KeyboardUsage::KeyboardxandX,
            0x1C => KeyboardUsage::KeyboardyandY,
            0x1D => KeyboardUsage::KeyboardzandZ,
            0x1E => KeyboardUsage::Keyboard1andExclamation,
            0x1F => KeyboardUsage::Keyboard2andAt,
            0x20 => KeyboardUsage::Keyboard3andHash,
            0x21 => KeyboardUsage::Keyboard4andDollar,
            0x22 => KeyboardUsage::Keyboard5andPercent,
            0x23 => KeyboardUsage::Keyboard6andPower,
            0x24 => KeyboardUsage::Keyboard7andAmpersand,
            0x25 => KeyboardUsage::Keyboard8andStar,
            0x26 => KeyboardUsage::Keyboard9andLeftParentheses,
            0x27 => KeyboardUsage::Keyboard0andRightParentheses,
            0x28 => KeyboardUsage::KeyboardReturnEnter,
            0x29 => KeyboardUsage::KeyboardESCAPE,
            0x2A => KeyboardUsage::KeyboardDELETE,
            0x2B => KeyboardUsage::KeyboardTab,
            0x2C => KeyboardUsage::KeyboardSpacebar,
            0x2D => KeyboardUsage::KeyboardDashandUnderscore,
            0x2E => KeyboardUsage::KeyboardEqualandPlus,
            0x2F => KeyboardUsage::KeyboardLeftSquareBracketandLeftCurlyBracket,
            0x30 => KeyboardUsage::KeyboardRightSquareBracketandRightCurlyBracket,
            0x31 => KeyboardUsage::KeyboardBackslashandPipe,
            0x32 => KeyboardUsage::KeyboardNonUSHashandTilde,
            0x33 => KeyboardUsage::KeyboardSemicolonandColon,
            0x34 => KeyboardUsage::KeyboardQuoteandDoubleQuote,
            0x35 => KeyboardUsage::KeyboardGraveAccentandTilde,
            0x36 => KeyboardUsage::KeyboardCommaandLessThan,
            0x37 => KeyboardUsage::KeyboardDotandGreatherThan,
            0x38 => KeyboardUsage::KeyboardSlashandQuestion,
            0x39 => KeyboardUsage::KeyboardCapsLock,
            0x3A => KeyboardUsage::KeyboardF1,
            0x3B => KeyboardUsage::KeyboardF2,
            0x3C => KeyboardUsage::KeyboardF3,
            0x3D => KeyboardUsage::KeyboardF4,
            0x3E => KeyboardUsage::KeyboardF5,
            0x3F => KeyboardUsage::KeyboardF6,
            0x40 => KeyboardUsage::KeyboardF7,
            0x41 => KeyboardUsage::KeyboardF8,
            0x42 => KeyboardUsage::KeyboardF9,
            0x43 => KeyboardUsage::KeyboardF10,
            0x44 => KeyboardUsage::KeyboardF11,
            0x45 => KeyboardUsage::KeyboardF12,
            0x46 => KeyboardUsage::KeyboardPrintScreen,
            0x47 => KeyboardUsage::KeyboardScrollLock,
            0x48 => KeyboardUsage::KeyboardPause,
            0x49 => KeyboardUsage::KeyboardInsert,
            0x4A => KeyboardUsage::KeyboardHome,
            0x4B => KeyboardUsage::KeyboardPageUp,
            0x4C => KeyboardUsage::KeyboardDeleteForward,
            0x4D => KeyboardUsage::KeyboardEnd,
            0x4E => KeyboardUsage::KeyboardPageDown,
            0x4F => KeyboardUsage::KeyboardRightArrow,
            0x50 => KeyboardUsage::KeyboardLeftArrow,
            0x51 => KeyboardUsage::KeyboardDownArrow,
            0x52 => KeyboardUsage::KeyboardUpArrow,
            0x53 => KeyboardUsage::KeypadNumLockandClear,
            0x54 => KeyboardUsage::KeypadSlash,
            0x55 => KeyboardUsage::KeypadStar,
            0x56 => KeyboardUsage::KeypadDash,
            0x57 => KeyboardUsage::KeypadPlus,
            0x58 => KeyboardUsage::KeypadENTER,
            0x59 => KeyboardUsage::Keypad1andEnd,
            0x5A => KeyboardUsage::Keypad2andDownArrow,
            0x5B => KeyboardUsage::Keypad3andPageDn,
            0x5C => KeyboardUsage::Keypad4andLeftArrow,
            0x5D => KeyboardUsage::Keypad,
            0x5E => KeyboardUsage::Keypad6andRightArrow,
            0x5F => KeyboardUsage::Keypad7andHome,
            0x60 => KeyboardUsage::Keypad8andUpArrow,
            0x61 => KeyboardUsage::Keypad9andPageUp,
            0x62 => KeyboardUsage::Keypad0andInsert,
            0x63 => KeyboardUsage::KeypadDotandDelete,
            0x64 => KeyboardUsage::KeyboardNonUSBackslashandPipe,
            0x65 => KeyboardUsage::KeyboardApplication1,
            0x66 => KeyboardUsage::KeyboardPower,
            0x67 => KeyboardUsage::KeypadEqual,
            0x68 => KeyboardUsage::KeyboardF13,
            0x69 => KeyboardUsage::KeyboardF14,
            0x6A => KeyboardUsage::KeyboardF15,
            0x6B => KeyboardUsage::KeyboardF16,
            0x6C => KeyboardUsage::KeyboardF17,
            0x6D => KeyboardUsage::KeyboardF18,
            0x6E => KeyboardUsage::KeyboardF19,
            0x6F => KeyboardUsage::KeyboardF20,
            0x70 => KeyboardUsage::KeyboardF21,
            0x71 => KeyboardUsage::KeyboardF22,
            0x72 => KeyboardUsage::KeyboardF23,
            0x73 => KeyboardUsage::KeyboardF24,
            0x74 => KeyboardUsage::KeyboardExecute,
            0x75 => KeyboardUsage::KeyboardHelp,
            0x76 => KeyboardUsage::KeyboardMenu,
            0x77 => KeyboardUsage::KeyboardSelect,
            0x78 => KeyboardUsage::KeyboardStop,
            0x79 => KeyboardUsage::KeyboardAgain,
            0x7A => KeyboardUsage::KeyboardUndo,
            0x7B => KeyboardUsage::KeyboardCut,
            0x7C => KeyboardUsage::KeyboardCopy,
            0x7D => KeyboardUsage::KeyboardPaste,
            0x7E => KeyboardUsage::KeyboardFind,
            0x7F => KeyboardUsage::KeyboardMute,
            0x80 => KeyboardUsage::KeyboardVolumeUp,
            0x81 => KeyboardUsage::KeyboardVolumeDown,
            0x82 => KeyboardUsage::KeyboardLockingCapsLock,
            0x83 => KeyboardUsage::KeyboardLockingNumLock,
            0x84 => KeyboardUsage::KeyboardLockingScrollLock,
            0x85 => KeyboardUsage::KeypadComma,
            0x86 => KeyboardUsage::KeypadEqualSign,
            0x87 => KeyboardUsage::KeyboardInternational1,
            0x88 => KeyboardUsage::KeyboardInternational2,
            0x89 => KeyboardUsage::KeyboardInternational3,
            0x8A => KeyboardUsage::KeyboardInternational4,
            0x8B => KeyboardUsage::KeyboardInternational5,
            0x8C => KeyboardUsage::KeyboardInternational6,
            0x8D => KeyboardUsage::KeyboardInternational7,
            0x8E => KeyboardUsage::KeyboardInternational8,
            0x8F => KeyboardUsage::KeyboardInternational9,
            0x90 => KeyboardUsage::KeyboardLANG1,
            0x91 => KeyboardUsage::KeyboardLANG2,
            0x92 => KeyboardUsage::KeyboardLANG3,
            0x93 => KeyboardUsage::KeyboardLANG4,
            0x94 => KeyboardUsage::KeyboardLANG5,
            0x95 => KeyboardUsage::KeyboardLANG6,
            0x96 => KeyboardUsage::KeyboardLANG7,
            0x97 => KeyboardUsage::KeyboardLANG8,
            0x98 => KeyboardUsage::KeyboardLANG9,
            0x99 => KeyboardUsage::KeyboardAlternateErase,
            0x9A => KeyboardUsage::KeyboardSysReqAttention,
            0x9B => KeyboardUsage::KeyboardCancel,
            0x9C => KeyboardUsage::KeyboardClear,
            0x9D => KeyboardUsage::KeyboardPrior,
            0x9E => KeyboardUsage::KeyboardReturn,
            0x9F => KeyboardUsage::KeyboardSeparator,
            0xA0 => KeyboardUsage::KeyboardOut,
            0xA1 => KeyboardUsage::KeyboardOper,
            0xA2 => KeyboardUsage::KeyboardClearAgain,
            0xA3 => KeyboardUsage::KeyboardCrSelProps,
            0xA4 => KeyboardUsage::KeyboardExSel,
            0xB0 => KeyboardUsage::Keypad00,
            0xB1 => KeyboardUsage::Keypad000,
            0xB2 => KeyboardUsage::ThousandsSeparator,
            0xB3 => KeyboardUsage::DecimalSeparator,
            0xB4 => KeyboardUsage::CurrencyUnit,
            0xB5 => KeyboardUsage::CurrencySubunit,
            0xB6 => KeyboardUsage::KeypadLeftParentheses,
            0xB7 => KeyboardUsage::KeypadRightParentheses,
            0xB8 => KeyboardUsage::KeypadLeftCurlyBracket,
            0xB9 => KeyboardUsage::KeypadRightCurlyBracket,
            0xBA => KeyboardUsage::KeypadTab,
            0xBB => KeyboardUsage::KeypadBackspace,
            0xBC => KeyboardUsage::KeypadA,
            0xBD => KeyboardUsage::KeypadB,
            0xBE => KeyboardUsage::KeypadC,
            0xBF => KeyboardUsage::KeypadD,
            0xC0 => KeyboardUsage::KeypadE,
            0xC1 => KeyboardUsage::KeypadF,
            0xC2 => KeyboardUsage::KeypadXOR,
            0xC3 => KeyboardUsage::KeypadPower,
            0xC4 => KeyboardUsage::KeypadPercent,
            0xC5 => KeyboardUsage::KeypadLessThan,
            0xC6 => KeyboardUsage::KeypadGreaterThan,
            0xC7 => KeyboardUsage::KeypadAmpersand,
            0xC8 => KeyboardUsage::KeypadDoubleAmpersand,
            0xC9 => KeyboardUsage::KeypadPipe,
            0xCA => KeyboardUsage::KeypadDoublePipe,
            0xCB => KeyboardUsage::KeypadColon,
            0xCC => KeyboardUsage::KeypadHash,
            0xCD => KeyboardUsage::KeypadSpace,
            0xCE => KeyboardUsage::KeypadAt,
            0xCF => KeyboardUsage::KeypadExclamation,
            0xD0 => KeyboardUsage::KeypadMemoryStore,
            0xD1 => KeyboardUsage::KeypadMemoryRecall,
            0xD2 => KeyboardUsage::KeypadMemoryClear,
            0xD3 => KeyboardUsage::KeypadMemoryAdd,
            0xD4 => KeyboardUsage::KeypadMemorySubtract,
            0xD5 => KeyboardUsage::KeypadMemoryMultiply,
            0xD6 => KeyboardUsage::KeypadMemoryDivide,
            0xD7 => KeyboardUsage::KeypadPlusMinus,
            0xD8 => KeyboardUsage::KeypadClear,
            0xD9 => KeyboardUsage::KeypadClearEntry,
            0xDA => KeyboardUsage::KeypadBinary,
            0xDB => KeyboardUsage::KeypadOctal,
            0xDC => KeyboardUsage::KeypadDecimal,
            0xDD => KeyboardUsage::KeypadHexadecimal,
            0xE0 => KeyboardUsage::KeyboardLeftControl,
            0xE1 => KeyboardUsage::KeyboardLeftShift,
            0xE2 => KeyboardUsage::KeyboardLeftAlt,
            0xE3 => KeyboardUsage::KeyboardLeftGUI,
            0xE4 => KeyboardUsage::KeyboardRightControl,
            0xE5 => KeyboardUsage::KeyboardRightShift,
            0xE6 => KeyboardUsage::KeyboardRightAlt,
            0xE7 => KeyboardUsage::KeyboardRightGUI,
            i => KeyboardUsage::Reserved(i),
        }
    }
}

impl FromSpecImpl<u16> for KeyboardUsage {
    open spec fn obeys_from_spec() -> bool {
        true
    }

    open spec fn from_spec(value: u16) -> Self {
        Self::of_id(value)
    }
}

impl From<KeyboardUsage> for u16 {
    fn from(value: KeyboardUsage) -> (id: Self) {
        match value {
            KeyboardUsage::KeyboardErrorRollOver => 0x01,
            KeyboardUsage::KeyboardPOSTFail => 0x02,
            KeyboardUsage::KeyboardErrorUndefined => 0x03,
            KeyboardUsage::KeyboardaandA => 0x04,
            KeyboardUsage::KeyboardbandB => 0x05,
            KeyboardUsage::KeyboardcandC => 0x06,
            KeyboardUsage::KeyboarddandD => 0x07,
            KeyboardUsage::KeyboardeandE => 0x08,
            KeyboardUsage::KeyboardfandF => 0x09,
            KeyboardUsage::KeyboardgandG => 0x0A,
            KeyboardUsage::KeyboardhandH => 0x0B,
            KeyboardUsage::KeyboardiandI => 0x0C,
            KeyboardUsage::KeyboardjandJ => 0x0D,
            KeyboardUsage::KeyboardkandK => 0x0E,
            KeyboardUsage::KeyboardlandL => 0x0F,
            KeyboardUsage::KeyboardmandM => 0x10,
            KeyboardUsage::KeyboardnandN => 0x11,
            KeyboardUsage::KeyboardoandO => 0x12,
            KeyboardUsage::KeyboardpandP => 0x13,
            KeyboardUsage::KeyboardqandQ => 0x14,
            KeyboardUsage::KeyboardrandR => 0x15,
            KeyboardUsage::KeyboardsandS => 0x16,
            KeyboardUsage::KeyboardtandT => 0x17,
            KeyboardUsage::KeyboarduandU => 0x18,
            KeyboardUsage::KeyboardvandV => 0x19,
            KeyboardUsage::KeyboardwandW => 0x1A,
            KeyboardUsage::KeyboardxandX => 0x1B,
            KeyboardUsage::KeyboardyandY => 0x1C,
            KeyboardUsage::KeyboardzandZ => 0x1D,
            KeyboardUsage::Keyboard1andExclamation => 0x1E,
            KeyboardUsage::Keyboard2andAt => 0x1F,
            KeyboardUsage::Keyboard3andHash => 0x20,
            KeyboardUsage::Keyboard4andDollar => 0x21,
            KeyboardUsage::Keyboard5andPercent => 0x22,
            KeyboardUsage::Keyboard6andPower => 0x23,
            KeyboardUsage::Keyboard7andAmpersand => 0x24,
            KeyboardUsage::Keyboard8andStar => 0x25,
            KeyboardUsage::Keyboard9andLeftParentheses => 0x26,
            KeyboardUsage::Keyboard0andRightParentheses => 0x27,
            KeyboardUsage::KeyboardReturnEnter => 0x28,
            KeyboardUsage::KeyboardESCAPE => 0x29,
            KeyboardUsage::KeyboardDELETE => 0x2A,
            KeyboardUsage::KeyboardTab => 0x2B,
            KeyboardUsage::KeyboardSpacebar => 0x2C,
            KeyboardUsage::KeyboardDashandUnderscore => 0x2D,
            KeyboardUsage::KeyboardEqualandPlus => 0x2E,
            KeyboardUsage::KeyboardLeftSquareBracketandLeftCurlyBracket => 0x2F,
            KeyboardUsage::KeyboardRightSquareBracketandRightCurlyBracket => 0x30,
            KeyboardUsage::KeyboardBackslashandPipe => 0x31,
            KeyboardUsage::KeyboardNonUSHashandTilde => 0x32,
            KeyboardUsage::KeyboardSemicolonandColon => 0x33,
            KeyboardUsage::KeyboardQuoteandDoubleQuote => 0x34,
            KeyboardUsage::KeyboardGraveAccentandTilde => 0x35,
            KeyboardUsage::KeyboardCommaandLessThan => 0x36,
            KeyboardUsage::KeyboardDotandGreatherThan => 0x37,
            KeyboardUsage::KeyboardSlashandQuestion => 0x38,
            KeyboardUsage::KeyboardCapsLock => 0x39,
            KeyboardUsage::KeyboardF1 => 0x3A,
            KeyboardUsage::KeyboardF2 => 0x3B,
            KeyboardUsage::KeyboardF3 => 0x3C,
            KeyboardUsage::KeyboardF4 => 0x3D,
            KeyboardUsage::KeyboardF5 => 0x3E,
            KeyboardUsage::KeyboardF6 => 0x3F,
            KeyboardUsage::KeyboardF7 => 0x40,
            KeyboardUsage::KeyboardF8 => 0x41,
            KeyboardUsage::KeyboardF9 => 0x42,
            KeyboardUsage::KeyboardF10 => 0x43,
            KeyboardUsage::KeyboardF11 => 0x44,
            KeyboardUsage::KeyboardF12 => 0x45,
            KeyboardUsage::KeyboardPrintScreen => 0x46,
            KeyboardUsage::KeyboardScrollLock => 0x47,
            KeyboardUsage::KeyboardPause => 0x48,
            KeyboardUsage::KeyboardInsert => 0x49,
            KeyboardUsage::KeyboardHome => 0x4A,
            KeyboardUsage::KeyboardPageUp => 0x4B,
            KeyboardUsage::KeyboardDeleteForward => 0x4C,
            KeyboardUsage::KeyboardEnd => 0x4D,
            KeyboardUsage::KeyboardPageDown => 0x4E,
            KeyboardUsage::KeyboardRightArrow => 0x4F,
            KeyboardUsage::KeyboardLeftArrow => 0x50,
            KeyboardUsage::KeyboardDownArrow => 0x51,
            KeyboardUsage::KeyboardUpArrow => 0x52,
            KeyboardUsage::KeypadNumLockandClear => 0x53,
            KeyboardUsage::KeypadSlash => 0x54,
            KeyboardUsage::KeypadStar => 0x55,
            KeyboardUsage::KeypadDash => 0x56,
            KeyboardUsage::KeypadPlus => 0x57,
            KeyboardUsage::KeypadENTER => 0x58,
            KeyboardUsage::Keypad1andEnd => 0x59,
            KeyboardUsage::Keypad2andDownArrow => 0x5A,
            KeyboardUsage::Keypad3andPageDn => 0x5B,
            KeyboardUsage::Keypad4andLeftArrow => 0x5C,
            KeyboardUsage::Keypad => 0x5D,
            KeyboardUsage::Keypad6andRightArrow => 0x5E,
            KeyboardUsage::Keypad7andHome => 0x5F,
            KeyboardUsage::Keypad8andUpArrow => 0x60,
            KeyboardUsage::Keypad9andPageUp => 0x61,
            KeyboardUsage::Keypad0andInsert => 0x62,
            KeyboardUsage::KeypadDotandDelete => 0x63,
            KeyboardUsage::KeyboardNonUSBackslashandPipe => 0x64,
            KeyboardUsage::KeyboardApplication1 => 0x65,
            KeyboardUsage::KeyboardPower => 0x66,
            KeyboardUsage::KeypadEqual => 0x67,
            KeyboardUsage::KeyboardF13 => 0x68,
            KeyboardUsage::KeyboardF14 => 0x69,
            KeyboardUsage::KeyboardF15 => 0x6A,
            KeyboardUsage::KeyboardF16 => 0x6B,
            KeyboardUsage::KeyboardF17 => 0x6C,
            KeyboardUsage::KeyboardF18 => 0x6D,
            KeyboardUsage::KeyboardF19 => 0x6E,
            KeyboardUsage::KeyboardF20 => 0x6F,
            KeyboardUsage::KeyboardF21 => 0x70,
            KeyboardUsage::KeyboardF22 => 0x71,
            KeyboardUsage::KeyboardF23 => 0x72,
            KeyboardUsage::KeyboardF24 => 0x73,
            KeyboardUsage::KeyboardExecute => 0x74,
            KeyboardUsage::KeyboardHelp => 0x75,
            KeyboardUsage::KeyboardMenu => 0x76,
            KeyboardUsage::KeyboardSelect => 0x77,
            KeyboardUsage::KeyboardStop => 0x78,
            KeyboardUsage::KeyboardAgain => 0x79,
            KeyboardUsage::KeyboardUndo => 0x7A,
            KeyboardUsage::KeyboardCut => 0x7B,
            KeyboardUsage::KeyboardCopy => 0x7C,
            KeyboardUsage::KeyboardPaste => 0x7D,
            KeyboardUsage::KeyboardFind => 0x7E,
            KeyboardUsage::KeyboardMute => 0x7F,
            KeyboardUsage::KeyboardVolumeUp => 0x80,
            KeyboardUsage::KeyboardVolumeDown => 0x81,
            KeyboardUsage::KeyboardLockingCapsLock => 0x82,
            KeyboardUsage::KeyboardLockingNumLock => 0x83,
            KeyboardUsage::KeyboardLockingScrollLock => 0x84,
            KeyboardUsage::KeypadComma => 0x85,
            KeyboardUsage::KeypadEqualSign => 0x86,
            KeyboardUsage::KeyboardInternational1 => 0x87,
            KeyboardUsage::KeyboardInternational2 => 0x88,
            KeyboardUsage::KeyboardInternational3 => 0x89,
            KeyboardUsage::KeyboardInternational4 => 0x8A,
            KeyboardUsage::KeyboardInternational5 => 0x8B,
            KeyboardUsage::KeyboardInternational6 => 0x8C,
            KeyboardUsage::KeyboardInternational7 => 0x8D,
            KeyboardUsage::KeyboardInternational8 => 0x8E,
            KeyboardUsage::KeyboardInternational9 => 0x8F,
            KeyboardUsage::KeyboardLANG1 => 0x90,
            KeyboardUsage::KeyboardLANG2 => 0x91,
            KeyboardUsage::KeyboardLANG3 => 0x92,
            KeyboardUsage::KeyboardLANG4 => 0x93,
            KeyboardUsage::KeyboardLANG5 => 0x94,
            KeyboardUsage::KeyboardLANG6 => 0x95,
            KeyboardUsage::KeyboardLANG7 => 0x96,
            KeyboardUsage::KeyboardLANG8 => 0x97,
            KeyboardUsage::KeyboardLANG9 => 0x98,
            KeyboardUsage::KeyboardAlternateErase => 0x99,
            KeyboardUsage::KeyboardSysReqAttention => 0x9A,
            KeyboardUsage::KeyboardCancel => 0x9B,
            KeyboardUsage::KeyboardClear => 0x9C,
            KeyboardUsage::KeyboardPrior => 0x9D,
            KeyboardUsage::KeyboardReturn => 0x9E,
            KeyboardUsage::KeyboardSeparator => 0x9F,
            KeyboardUsage::KeyboardOut => 0xA0,
            KeyboardUsage::KeyboardOper => 0xA1,
            KeyboardUsage::KeyboardClearAgain => 0xA2,
            KeyboardUsage::KeyboardCrSelProps => 0xA3,
            KeyboardUsage::KeyboardExSel => 0xA4,
            KeyboardUsage::Keypad00 => 0xB0,
            KeyboardUsage::Keypad000 => 0xB1,
            KeyboardUsage::ThousandsSeparator => 0xB2,
            KeyboardUsage::DecimalSeparator => 0xB3,
            KeyboardUsage::CurrencyUnit => 0xB4,
            KeyboardUsage::CurrencySubunit => 0xB5,
            KeyboardUsage::KeypadLeftParentheses => 0xB6,
            KeyboardUsage::KeypadRightParentheses => 0xB7,
            KeyboardUsage::KeypadLeftCurlyBracket => 0xB8,
            KeyboardUsage::KeypadRightCurlyBracket => 0xB9,
            KeyboardUsage::KeypadTab => 0xBA,
            KeyboardUsage::KeypadBackspace => 0xBB,
            KeyboardUsage::KeypadA => 0xBC,
            KeyboardUsage::KeypadB => 0xBD,
            KeyboardUsage::KeypadC => 0xBE,
            KeyboardUsage::KeypadD => 0xBF,
            KeyboardUsage::KeypadE => 0xC0,
            KeyboardUsage::KeypadF => 0xC1,
            KeyboardUsage::KeypadXOR => 0xC2,
            KeyboardUsage::KeypadPower => 0xC3,
            KeyboardUsage::KeypadPercent => 0xC4,
            KeyboardUsage::KeypadLessThan => 0xC5,
            KeyboardUsage::KeypadGreaterThan => 0xC6,
            KeyboardUsage::KeypadAmpersand => 0xC7,
            KeyboardUsage::KeypadDoubleAmpersand => 0xC8,
            KeyboardUsage::KeypadPipe => 0xC9,
            KeyboardUsage::KeypadDoublePipe => 0xCA,
            KeyboardUsage::KeypadColon => 0xCB,
            KeyboardUsage::KeypadHash => 0xCC,
            KeyboardUsage::KeypadSpace => 0xCD,
            KeyboardUsage::KeypadAt => 0xCE,
            KeyboardUsage::KeypadExclamation => 0xCF,
            KeyboardUsage::KeypadMemoryStore => 0xD0,
            KeyboardUsage::KeypadMemoryRecall => 0xD1,
            KeyboardUsage::KeypadMemoryClear => 0xD2,
            KeyboardUsage::KeypadMemoryAdd => 0xD3,
            KeyboardUsage::KeypadMemorySubtract => 0xD4,
            KeyboardUsage::KeypadMemoryMultiply => 0xD5,
            KeyboardUsage::KeypadMemoryDivide => 0xD6,
            KeyboardUsage::KeypadPlusMinus => 0xD7,
            KeyboardUsage::KeypadClear => 0xD8,
            KeyboardUsage::KeypadClearEntry => 0xD9,
            KeyboardUsage::KeypadBinary => 0xDA,
            KeyboardUsage::KeypadOctal => 0xDB,
            KeyboardUsage::KeypadDecimal => 0xDC,
            KeyboardUsage::KeypadHexadecimal => 0xDD,
            KeyboardUsage::KeyboardLeftControl => 0xE0,
            KeyboardUsage::KeyboardLeftShift => 0xE1,
            KeyboardUsage::KeyboardLeftAlt => 0xE2,
            KeyboardUsage::KeyboardLeftGUI => 0xE3,
            KeyboardUsage::KeyboardRightControl => 0xE4,
            KeyboardUsage::KeyboardRightShift => 0xE5,
            KeyboardUsage::KeyboardRightAlt => 0xE6,
            KeyboardUsage::KeyboardRightGUI => 0xE7,
            KeyboardUsage::Reserved(i) => i,
        }
    }
}

impl FromSpecImpl<KeyboardUsage> for u16 {
    open spec fn obeys_from_spec() -> bool {
        true
    }

    open spec fn from_spec(value: KeyboardUsage) -> Self {
        value.to_id()
    }
}

impl UsageId for KeyboardUsage {
    open spec fn id(self) -> u16 {
        self.to_id()
    }

    fn usage_id(self) -> (id: u16) {
        u16::from(self)
    }
}

} // verus!
