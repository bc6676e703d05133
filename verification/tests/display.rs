use hid_tools::display::{decimal_string, push_decimal, push_hex, push_spaces, push_unsigned};
use hid_tools::error::{Error, FailureKind, ParsingFailure};
use hid_tools::report_descriptor::parse::report_descriptor;
use hid_tools::report::parsed::{ArrayValueItem, ArrayZeroItem, Field, ParsedReport, VarItem};
use hid_tools::report_builder::ReportDescriptorBuilder;
use hid_tools::report_descriptor::data::{Size, SizedPayload};
use hid_tools::report_descriptor::{
    Collection, Data, DataFieldOptions, GlobalType, ItemType, Linear, LocalType, MainType,
    Mutability, NullState, ReportDescriptorItem, State, Structure, Value, Volatile, Wrap,
};
use hid_tools::usage_table::consumer::ConsumerUsage;
use hid_tools::usage_table::fido::FIDOAllianceUsage;
use hid_tools::usage_table::generic_desktop::GenericDesktopControlsUsage;
use hid_tools::usage_table::keyboard::KeyboardUsage;
use hid_tools::usage_table::{Usage, UsagePage};

#[test]
fn usage_page_item() {
    let item = ReportDescriptorItem {
        kind: ItemType::Global(GlobalType::UsagePage),
        payload_size: Size::One,
        raw: vec![0x05, 0x01],
    };

    assert_eq!(item.to_string(), "Usage Page (Generic Desktop Controls)");
}

#[test]
fn payload_as_i32_decimal() {
    let bytes: [u8; 1] = [0x11];
    let p = SizedPayload::from(bytes);
    assert_eq!(p.to_string(), "17");
}

#[test]
fn numbers_are_written_as_std_writes_them() {
    for value in [0i64, 1, 9, 10, 11, 99, 100, 255, 256, 65535, -1, -9, -10, -128, i64::MAX, i64::MIN]
    {
        assert_eq!(decimal_string(value), format!("{}", value));
        let mut text = String::from("x");
        push_decimal(&mut text, value);
        assert_eq!(text, format!("x{}", value));
    }
    for value in [0u16, 1, 9, 10, 15, 16, 17, 0xff, 0x100, 0xf1d0, 0xffff] {
        let mut text = String::from("0x");
        push_hex(&mut text, value);
        assert_eq!(text, format!("0x{:02x}", value));
    }
    let mut text = String::from("a");
    push_spaces(&mut text, 3);
    push_spaces(&mut text, 0);
    assert_eq!(text, "a   ");
}

#[test]
fn names_of_types_and_flags() {
    assert_eq!(ItemType::Main(MainType::EndCollection).to_string(), "End Collection");
    assert_eq!(ItemType::Global(GlobalType::ReportID).to_string(), "Report ID");
    assert_eq!(ItemType::Local(LocalType::DesignatorMaximum).to_string(), "Designator Maximum");
    assert_eq!(MainType::Input.to_string(), "Input");
    assert_eq!(GlobalType::Push.to_string(), "Push");
    assert_eq!(LocalType::Delimiter.to_string(), "Delimiter");
    assert_eq!(Collection::NamedArray.to_string(), "Named Array");
    assert_eq!(Collection::Reserved(8).to_string(), "Reserved (8)");
    assert_eq!(Collection::VendorDefined(240).to_string(), "Vendor defined (240)");
    assert_eq!(Mutability::Constant.to_string(), "Const");
    assert_eq!(Structure::Variable.to_string(), "Var");
    assert_eq!(Value::Relative.to_string(), "Rel");
    assert_eq!(Wrap::NoWrap.to_string(), "No Wrap");
    assert_eq!(Linear::NonLinear.to_string(), "Non-linear");
    assert_eq!(State::NoPreferred.to_string(), "No Preferred State");
    assert_eq!(NullState::NullState.to_string(), "Null State");
    assert_eq!(Volatile::NonVolatile.to_string(), "Non Volatile");
    assert_eq!(Data::BufferedBytes.to_string(), "Buffered Bytes");
    assert_eq!(DataFieldOptions::default().to_string(), "Data, Arr, Abs");
    assert_eq!(
        DataFieldOptions::from((Mutability::Constant, Structure::Variable, Value::Relative))
            .to_string(),
        "Const, Var, Rel"
    );
}

#[test]
fn names_of_usage_pages_and_usages() {
    assert_eq!(UsagePage::GenericDesktopControls.to_string(), "Generic Desktop Controls");
    assert_eq!(UsagePage::FIDOAlliance.to_string(), "FIDO Alliance");
    assert_eq!(UsagePage::VendorDefined(0xff43).to_string(), "Vendor Defined (0xff43)");
    assert_eq!(UsagePage::Reserved(0x11).to_string(), "Reserved (0x11)");
    assert_eq!(UsagePage::Reserved(0x5).to_string(), "Reserved (0x05)");
    assert_eq!(Usage::Undefined.to_string(), "Undefined");
    assert_eq!(Usage::Button(16).to_string(), "16");
    assert_eq!(Usage::VendorDefined(514).to_string(), "514");
    assert_eq!(
        Usage::GenericDesktopControls(GenericDesktopControlsUsage::HatSwitch).to_string(),
        "Hat Switch"
    );
    assert_eq!(GenericDesktopControlsUsage::Reserved(3).to_string(), "Reserved (3)");
    assert_eq!(Usage::Keyboard(KeyboardUsage::KeyboardaandA).to_string(), "Keyboard a and A");
    assert_eq!(KeyboardUsage::KeyboardBackslashandPipe.to_string(), "Keyboard \\ and |");
    assert_eq!(KeyboardUsage::KeyboardQuoteandDoubleQuote.to_string(), "Keyboard ' and \"");
    assert_eq!(KeyboardUsage::Reserved(0).to_string(), "Reserved (0)");
    assert_eq!(Usage::Consumer(ConsumerUsage::VolumeIncrement).to_string(), "Volume Increment");
    assert_eq!(ConsumerUsage::Reserved(7).to_string(), "Reserved(7)");
    assert_eq!(
        Usage::FIDOAlliance(FIDOAllianceUsage::U2FAuthenticatorDevice).to_string(),
        "U2F Authenticator Device"
    );
}

#[test]
fn items_show_what_their_payload_stands_for() {
    let item = |kind, payload: SizedPayload| ReportDescriptorItem::new(kind, payload);
    assert_eq!(
        item(ItemType::Main(MainType::Collection), SizedPayload::from(1u8)).to_string(),
        "Collection (Application)"
    );
    assert_eq!(
        item(ItemType::Main(MainType::Input), SizedPayload::from(6u8)).to_string(),
        "Input (Data, Var, Rel)"
    );
    assert_eq!(
        item(ItemType::Main(MainType::Input), SizedPayload::Empty).to_string(),
        "Input (!!ERROR UNKNOWN!!)"
    );
    assert_eq!(
        item(ItemType::Main(MainType::Collection), SizedPayload::Two([1, 0])).to_string(),
        "Collection (!!ERROR UNKNOWN!!)"
    );
    assert_eq!(
        item(ItemType::Global(GlobalType::UsagePage), SizedPayload::Four([1, 0, 0, 0])).to_string(),
        "Usage Page (!!ERROR UNKNOWN!!)"
    );
    assert_eq!(
        item(ItemType::Main(MainType::EndCollection), SizedPayload::Empty).to_string(),
        "End Collection"
    );
    assert_eq!(
        item(ItemType::Global(GlobalType::LogicalMinimum), SizedPayload::from(-2047)).to_string(),
        "Logical Minimum (-2047)"
    );
    assert_eq!(
        item(ItemType::Local(LocalType::Usage), SizedPayload::from(0x30u8)).to_string(),
        "Usage (48)"
    );
    assert_eq!(
        item(ItemType::Local(LocalType::Usage), SizedPayload::from(0x30u8))
            .to_string_on_page(&UsagePage::GenericDesktopControls),
        "Usage (X)"
    );
    assert_eq!(
        item(ItemType::Local(LocalType::UsageMaximum), SizedPayload::Four([1, 0, 0, 0]))
            .to_string_on_page(&UsagePage::Keyboard),
        "Usage Maximum (Reserved (0))"
    );
    assert_eq!(
        item(ItemType::Global(GlobalType::ReportSize), SizedPayload::from(8))
            .to_string_on_page(&UsagePage::Keyboard),
        "Report Size (8)"
    );
    assert_eq!(SizedPayload::Empty.to_string(), "");
    assert_eq!(SizedPayload::Two([0x01, 0xf8]).to_string(), "-2047");
}

#[test]
fn descriptor_lines_are_indented_by_open_collections() {
    let descriptor = ReportDescriptorBuilder::new()
        .usage_page(UsagePage::FIDOAlliance)
        .usage::<u16>(1)
        .collection(Collection::Application)
        .usage::<u16>(0x20)
        .logical_maximum(255)
        .collection(Collection::Physical)
        .logical_maximum(70000)
        .end_collection()
        .end_collection()
        .end_collection()
        .usage_page(UsagePage::Button)
        .usage::<u16>(3)
        .build();
    assert_eq!(
        descriptor.to_string(),
        "[06, d0, f1]        Usage Page (FIDO Alliance)
[09, 01]            Usage (U2F Authenticator Device)
[a1, 01]            Collection (Application)
[09, 20]                Usage (Input Report Data)
[26, ff, 00]            Logical Maximum (255)
[a1, 00]                Collection (Physical)
[27, 70, 11, 01, 00]        Logical Maximum (70000)
[c0]                    End Collection
[c0]                End Collection
[c0]                End Collection
[05, 09]            Usage Page (Button)
[09, 03]            Usage (3)
"
    );
    assert_eq!(ReportDescriptorBuilder::new().build().to_string(), "");
}

#[test]
fn report_lines_leave_out_array_fields_of_zero() {
    let report = ParsedReport {
        report_id: Some(1),
        fields: vec![
            Field::ReportId(1),
            Field::Constant(-3),
            Field::ArrayZeroValue(ArrayZeroItem {
                usage_page: UsagePage::Keyboard,
                options: Default::default(),
            }),
            Field::Variable(VarItem {
                usage_page: UsagePage::Button,
                usage: Usage::Button(1),
                value: 1,
                options: Default::default(),
            }),
            Field::ArrayValue(ArrayValueItem {
                usage_page: UsagePage::Keyboard,
                usage: Usage::Keyboard(KeyboardUsage::KeyboardaandA),
                options: Default::default(),
            }),
        ],
    };
    assert_eq!(
        report.to_string(),
        "ReportId(1)\nConstant(-3)\nButton - 1(1)\nKeyboard - Keyboard a and A\n"
    );
    assert_eq!(report.fields[2].to_string(), "");
    assert_eq!(ParsedReport { report_id: None, fields: vec![] }.to_string(), "");
}

#[test]
fn errors_say_where_parsing_stopped_and_why() {
    let bytes: Vec<u8> = vec![0x06, 0xd0, 0xf1, 0xff, 0x09, 0x01];
    let error = report_descriptor(&bytes).expect_err("bytes is not valid");
    assert_eq!(
        error.to_string(),
        "parsing failed at byte 3: the prefix byte 0xff names no item type"
    );
    let failure = |offset, kind| Error::ParsingFailed(ParsingFailure { offset, kind });
    assert_eq!(
        failure(0, FailureKind::PrefixMissing).to_string(),
        "parsing failed at byte 0: the input ends where a prefix byte is due"
    );
    assert_eq!(
        failure(12, FailureKind::LongItem).to_string(),
        "parsing failed at byte 12: long items are not supported"
    );
    assert_eq!(
        failure(7, FailureKind::PayloadTruncated { expected: 4, found: 2 }).to_string(),
        "parsing failed at byte 7: the input ends after 2 of 4 payload bytes"
    );
    assert_eq!(
        FailureKind::BitOffsetInvalid.to_string(),
        "the bit offset does not point into a byte"
    );
    assert_eq!(
        FailureKind::BitsMissing.to_string(),
        "the input ends before the bits that are to be read"
    );
    assert_eq!(Error::PayloadEmpty.to_string(), "the payload is empty");
    let mut text = String::new();
    push_unsigned(&mut text, u64::MAX);
    assert_eq!(text, "18446744073709551615");
}
