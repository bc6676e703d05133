use hid_tools::error::{Error, FailureKind, ParsingFailure};
use hid_tools::report_builder::ReportDescriptorBuilder;
use hid_tools::report_descriptor::data::Size;
use hid_tools::report_descriptor::parse::{
    bit, data, data_field_options, data_field_options_from_payload, descriptor_item,
    full_report_descriptor, item_type, report_descriptor, size, size_and_type, skip_bits,
};
use hid_tools::report_descriptor::{
    Collection, Data, DataFieldOptions, GlobalType, ItemType, Linear, LocalType, MainType,
    Mutability, NullState, ReportDescriptorItem, State, Structure, Value, Volatile, Wrap,
};
use hid_tools::usage_table::generic_desktop::GenericDesktopControlsUsage;
use hid_tools::usage_table::UsagePage;

#[test]
fn parse_size_of_two() {
    let bytes: Vec<u8> = vec![0x06, 0xd0, 0xf1];
    let result = size(&bytes);

    assert_eq!(result, Ok((&bytes[1..], Size::Two)))
}

#[test]
fn parse_size_of_three_makes_four() {
    let bytes: Vec<u8> = vec![0x03];
    let result = size(&bytes);

    assert_eq!(result, Ok((&bytes[1..], Size::Four)))
}

#[test]
fn parse_usage_page_header() {
    let bytes: [u8; 1] = [0x06];
    let result = item_type(&bytes);

    assert_eq!(
        result,
        Ok((&bytes[1..], ItemType::Global(GlobalType::UsagePage)))
    );
}

#[test]
fn parse_fido_usage_page() {
    let bytes: Vec<u8> = vec![0x06, 0xd0, 0xf1];
    let result = descriptor_item(&bytes);

    assert_eq!(
        result,
        Ok((
            &bytes[3..],
            ReportDescriptorItem {
                kind: ItemType::Global(GlobalType::UsagePage),
                payload_size: Size::Two,
                raw: vec![0x06, 0xd0, 0xf1],
            }
        ))
    )
}

#[test]
fn parse_fido_size_and_type() {
    let bytes: Vec<u8> = vec![0x06, 0xd0, 0xf1];
    let result = size_and_type(&bytes);

    assert_eq!(
        result,
        Ok((
            &bytes[1..],
            (Size::Two, ItemType::Global(GlobalType::UsagePage))
        ))
    )
}

#[test]
fn parse_item_type_failure() {
    let bytes: Vec<u8> = vec![0xff];
    let result = item_type(&bytes);

    assert!(result.is_err())
}

#[test]
fn parse_full_report_failure() {
    let bytes: Vec<u8> = vec![0x06, 0xd0, 0xf1, 0xff, 0x09, 0x01];
    let result = full_report_descriptor(&bytes);

    assert!(result.is_err())
}

#[test]
fn parse_report_error_string() {
    let bytes: Vec<u8> = vec![0x06, 0xd0, 0xf1, 0xff, 0x09, 0x01];
    let result = report_descriptor(&bytes).expect_err("bytes is not valid");

    assert_eq!(
        result,
        Error::ParsingFailed(ParsingFailure {
            offset: 3,
            kind: FailureKind::UnknownItemType(0xff)
        })
    )
}

#[test]
fn data_field_options_1() {
    let bytes: Vec<u8> = vec![0b0000_0001];
    let result = data_field_options((&bytes, 0), Size::One);
    assert_eq!(
        result,
        Ok((
            (&bytes[1..], 0),
            DataFieldOptions::from((
                Mutability::Constant,
                Structure::Array,
                Value::Absolute,
                Wrap::NoWrap,
                Linear::Linear,
                State::Preferred,
                NullState::NoNullPosition,
                Volatile::NonVolatile,
                Data::BitField
            ))
        ))
    );
}

#[test]
fn data_field_options_2() {
    let bytes: Vec<u8> = vec![0b1111_1111];
    let result = data_field_options_from_payload(&bytes, Size::One);
    assert_eq!(
        result,
        Ok(DataFieldOptions::from((
            Mutability::Constant,
            Structure::Variable,
            Value::Relative,
            Wrap::Wrap,
            Linear::NonLinear,
            State::NoPreferred,
            NullState::NullState,
            Volatile::Volatile,
            Data::BitField
        )))
    );
}

#[test]
fn parse_equals_build() {
    // Keyboard descriptor report from
    // https://www.usb.org/sites/default/files/hid1_11.pdf - page 69
    let report = ReportDescriptorBuilder::new()
        .item(UsagePage::GenericDesktopControls)
        .item(GenericDesktopControlsUsage::Keyboard)
        .item(Collection::Application)
        .item(UsagePage::Keyboard)
        .usage_minimum::<u16>(224)
        .usage_maximum::<u16>(231)
        .logical_minimum(0)
        .logical_maximum(1)
        .report_size(1)
        .report_count(8)
        .input(0x02)
        .report_count(1)
        .report_size(8)
        .input(0x01)
        .report_count(5)
        .report_size(1)
        .item(UsagePage::LED)
        .usage_minimum::<u16>(1)
        .usage_maximum::<u16>(5)
        .output(0x02)
        .report_count(1)
        .report_size(3)
        .output(0x01)
        .report_count(6)
        .report_size(8)
        .logical_minimum(0)
        .logical_maximum(101)
        .usage_page(UsagePage::Keyboard)
        .usage_minimum::<u16>(0)
        .usage_maximum::<u16>(101)
        .input(0)
        .end_collection()
        .build();

    let raw: Vec<u8> = vec![
        0x05, 0x01, 0x09, 0x06, 0xA1, 0x01, 0x05, 0x07, 0x19, 0xE0, 0x29, 0xE7, 0x15, 0x00, 0x25,
        0x01, 0x75, 0x01, 0x95, 0x08, 0x81, 0x02, 0x95, 0x01, 0x75, 0x08, 0x81, 0x01, 0x95, 0x05,
        0x75, 0x01, 0x05, 0x08, 0x19, 0x01, 0x29, 0x05, 0x91, 0x02, 0x95, 0x01, 0x75, 0x03, 0x91,
        0x01, 0x95, 0x06, 0x75, 0x08, 0x15, 0x00, 0x25, 0x65, 0x05, 0x07, 0x19, 0x00, 0x29, 0x65,
        0x81, 0x00, 0xC0,
    ];

    let parsed = report_descriptor(&raw);
    assert_eq!(parsed, Ok(report))
}

fn keyboard_descriptor_bytes() -> Vec<u8> {
    vec![
        0x05, 0x01, 0x09, 0x06, 0xa1, 0x01, 0x85, 0x01, 0x05, 0x07, 0x19, 0xe0, 0x29, 0xe7, 0x15,
        0x00, 0x25, 0x01, 0x75, 0x01, 0x95, 0x08, 0x81, 0x02, 0x19, 0x00, 0x29, 0x97, 0x15, 0x00,
        0x25, 0x01, 0x75, 0x01, 0x95, 0x98, 0x81, 0x02, 0xc0,
    ]
}

#[test]
fn keyboard_descriptor_parses_to_one_collection() {
    let bytes = keyboard_descriptor_bytes();
    let descriptor = report_descriptor(&bytes).unwrap();
    let items = descriptor.items();
    assert_eq!(items.len(), 20);
    assert_eq!(items[0].usage_page(), Some(UsagePage::GenericDesktopControls));
    assert!(items[1].is_usage());
    assert_eq!(
        items[1].usage(&UsagePage::GenericDesktopControls),
        Some(hid_tools::usage_table::Usage::GenericDesktopControls(
            GenericDesktopControlsUsage::Keyboard
        ))
    );
    assert_eq!(items[2].collection(), Some(Collection::Application));
    assert!(items[3].is_report_id());
    assert_eq!(items[3].payload_u8(), Some(1));
    assert_eq!(items[4].usage_page(), Some(UsagePage::Keyboard));
    assert!(items[19].is_end_collection());
    assert_eq!(
        descriptor.filter_by_type(ItemType::Main(MainType::Collection)).len(),
        1
    );
    assert_eq!(
        descriptor.filter_by_type(ItemType::Main(MainType::EndCollection)).len(),
        1
    );
    let inputs = descriptor.filter_by_type(ItemType::Main(MainType::Input));
    assert_eq!(inputs.len(), 2);
    assert_eq!(inputs[0].raw, vec![0x81, 0x02]);
    assert_eq!(inputs[1].raw, vec![0x81, 0x02]);
    assert!(descriptor.is_well_formed());
}

#[test]
fn keyboard_descriptor_is_built_to_the_same_bytes() {
    let built = ReportDescriptorBuilder::new()
        .usage_page(UsagePage::GenericDesktopControls)
        .usage(GenericDesktopControlsUsage::Keyboard)
        .collection(Collection::Application)
        .report_id(1)
        .usage_page(UsagePage::Keyboard)
        .usage_minimum::<u16>(0xe0)
        .usage_maximum::<u16>(0xe7)
        .logical_minimum(0)
        .logical_maximum(1)
        .report_size(1)
        .report_count(8)
        .input(0x02)
        .usage_minimum::<u16>(0x00)
        .usage_maximum::<u16>(0x97)
        .logical_minimum(0)
        .logical_maximum(1)
        .report_size(1)
        .report_count(0x98u8)
        .input(0x02)
        .end_collection()
        .build()
        .bytes();
    assert_eq!(built, keyboard_descriptor_bytes());
}

#[test]
fn bytes_of_parsed_descriptor_are_the_input() {
    let bytes = keyboard_descriptor_bytes();
    let descriptor = report_descriptor(&bytes).unwrap();
    assert_eq!(descriptor.bytes(), bytes);
    let empty: Vec<u8> = Vec::new();
    let descriptor = report_descriptor(&empty).unwrap();
    assert_eq!(descriptor.items().len(), 0);
    assert_eq!(descriptor.bytes(), empty);
}

#[test]
fn parsing_written_items_gives_the_items_back() {
    let built = ReportDescriptorBuilder::new()
        .usage_page(UsagePage::FIDOAlliance)
        .logical_maximum(70000)
        .logical_minimum(-70000)
        .push([0u8; 0])
        .pop([0u8; 0])
        .end_collection()
        .build();
    let items = built.items().clone();
    let parsed = report_descriptor(&built.bytes()).unwrap();
    assert_eq!(parsed.items(), &items);
    assert_eq!(items[1].payload_size, Size::Four);
    assert_eq!(items[1].raw[0] & 0b11, 0b11);
    assert_eq!(items[1].raw.len(), 5);
    assert_eq!(items[1].payload_u32(), 70000);
    assert_eq!(items[2].payload_i32(), -70000);
    assert_eq!(items[3].kind, ItemType::Global(GlobalType::Push));
    assert_eq!(items[4].kind, ItemType::Global(GlobalType::Pop));
}

fn failure<T>(offset: usize, kind: FailureKind) -> Result<T, Error> {
    Err(Error::ParsingFailed(ParsingFailure { offset, kind }))
}

#[test]
fn parse_errors_name_offset_and_cause() {
    // an unknown item type behind one good item
    assert_eq!(
        report_descriptor(&[0xc0, 0xfc]),
        failure(1, FailureKind::UnknownItemType(0xfc))
    );
    // a long item
    assert_eq!(report_descriptor(&[0xc0, 0xc0, 0xfe, 0x00]), failure(2, FailureKind::LongItem));
    // a payload that is cut off
    assert_eq!(
        report_descriptor(&[0x05, 0x01, 0x27, 0x01, 0x02]),
        failure(2, FailureKind::PayloadTruncated { expected: 4, found: 2 })
    );
    assert_eq!(
        descriptor_item(&[0x06, 0xd0]),
        failure(0, FailureKind::PayloadTruncated { expected: 2, found: 1 })
    );
    // no input at all
    assert_eq!(size(&[]), failure(0, FailureKind::PrefixMissing));
    assert_eq!(item_type(&[]), failure(0, FailureKind::PrefixMissing));
    assert_eq!(size_and_type(&[]), failure(0, FailureKind::PrefixMissing));
    assert_eq!(descriptor_item(&[]), failure(0, FailureKind::PrefixMissing));
    assert_eq!(size_and_type(&[0xfe, 0x01]), failure(0, FailureKind::LongItem));
    assert_eq!(item_type(&[0xff]), failure(0, FailureKind::UnknownItemType(0xff)));
}

#[test]
fn every_item_type_round_trips_through_its_prefix() {
    let kinds = [
        ItemType::Main(MainType::Input),
        ItemType::Main(MainType::Output),
        ItemType::Main(MainType::Feature),
        ItemType::Main(MainType::Collection),
        ItemType::Main(MainType::EndCollection),
        ItemType::Global(GlobalType::UsagePage),
        ItemType::Global(GlobalType::LogicalMinimum),
        ItemType::Global(GlobalType::LogicalMaximum),
        ItemType::Global(GlobalType::PhysicalMinimum),
        ItemType::Global(GlobalType::PhysicalMaximum),
        ItemType::Global(GlobalType::UnitExponent),
        ItemType::Global(GlobalType::Unit),
        ItemType::Global(GlobalType::ReportSize),
        ItemType::Global(GlobalType::ReportID),
        ItemType::Global(GlobalType::ReportCount),
        ItemType::Global(GlobalType::Push),
        ItemType::Global(GlobalType::Pop),
        ItemType::Local(LocalType::Usage),
        ItemType::Local(LocalType::UsageMinimum),
        ItemType::Local(LocalType::UsageMaximum),
        ItemType::Local(LocalType::DesignatorIndex),
        ItemType::Local(LocalType::DesignatorMinimum),
        ItemType::Local(LocalType::DesignatorMaximum),
        ItemType::Local(LocalType::StringIndex),
        ItemType::Local(LocalType::StringMinimum),
        ItemType::Local(LocalType::StringMaximum),
        ItemType::Local(LocalType::Delimiter),
    ];
    let payloads: [&[u8]; 4] = [&[], &[0x11], &[0x11, 0x22], &[0x11, 0x22, 0x33, 0x44]];
    let mut seen = Vec::new();
    for kind in kinds.iter() {
        for payload in payloads.iter() {
            let payload = hid_tools::report_descriptor::data::SizedPayload::try_from(*payload)
                .unwrap();
            let item = ReportDescriptorItem::new(*kind, payload);
            assert!(item.is_well_formed());
            let parsed = descriptor_item(&item.raw).unwrap();
            assert_eq!(parsed.0.len(), 0);
            assert_eq!(parsed.1, item);
            assert_eq!(item.raw_payload(), payload);
            seen.push(item.raw[0]);
        }
    }
    seen.sort();
    seen.dedup();
    assert_eq!(seen.len(), 27 * 4);
    // the other 37 values of the upper six bits name no item type
    let mut unknown = 0;
    for prefix in 0u8..=255 {
        if item_type(&[prefix]).is_err() {
            unknown += 1;
        }
    }
    assert_eq!(unknown, 256 - 27 * 4);
}

fn options(flags: [bool; 9]) -> DataFieldOptions {
    DataFieldOptions::from((
        if flags[0] { Mutability::Constant } else { Mutability::Data },
        if flags[1] { Structure::Variable } else { Structure::Array },
        if flags[2] { Value::Relative } else { Value::Absolute },
        if flags[3] { Wrap::Wrap } else { Wrap::NoWrap },
        if flags[4] { Linear::NonLinear } else { Linear::Linear },
        if flags[5] { State::NoPreferred } else { State::Preferred },
        if flags[6] { NullState::NullState } else { NullState::NoNullPosition },
        if flags[7] { Volatile::Volatile } else { Volatile::NonVolatile },
        if flags[8] { Data::BufferedBytes } else { Data::BitField },
    ))
}

#[test]
fn each_flag_has_a_bit_of_its_own() {
    for bit in 0..8 {
        let mut flags = [false; 9];
        flags[bit] = true;
        assert_eq!(
            data_field_options_from_payload(&[1u8 << bit], Size::One),
            Ok(options(flags))
        );
    }
    // Wrap is bit 3 and Linear is bit 4
    assert_eq!(
        data_field_options_from_payload(&[0b0000_1000], Size::One).unwrap().wrap(),
        &Wrap::Wrap
    );
    assert_eq!(
        data_field_options_from_payload(&[0b0001_0000], Size::One).unwrap().linear(),
        &Linear::NonLinear
    );
}

#[test]
fn wide_payloads_hold_the_data_flag() {
    let mut flags = [false; 9];
    flags[8] = true;
    flags[1] = true;
    // two bytes: seven reserved bits, the Data flag, then the flag byte
    assert_eq!(
        data_field_options_from_payload(&[0b0000_0001, 0b0000_0010], Size::Two),
        Ok(options(flags))
    );
    // the reserved bits do not count
    assert_eq!(
        data_field_options_from_payload(&[0b1111_1110, 0b0000_0010], Size::Two),
        Ok(options([false, true, false, false, false, false, false, false, false]))
    );
    // four bytes: 23 reserved bits, the Data flag, then the flag byte
    assert_eq!(
        data_field_options_from_payload(&[0xff, 0xff, 0b0000_0001, 0b0000_0010], Size::Four),
        Ok(options(flags))
    );
    let parsed = data_field_options((&[0xffu8, 0xff, 0xfe, 0x81, 0x55][..], 0), Size::Four);
    assert_eq!(
        parsed,
        Ok((
            (&[0x55u8][..], 0),
            options([true, false, false, false, false, false, false, true, false])
        ))
    );
}

#[test]
fn options_need_a_payload_as_long_as_its_size() {
    assert_eq!(data_field_options_from_payload(&[], Size::One), Err(Error::PayloadEmpty));
    assert_eq!(data_field_options_from_payload(&[], Size::Four), Err(Error::PayloadEmpty));
    let missing = Err(Error::ParsingFailed(ParsingFailure {
        offset: 0,
        kind: FailureKind::BitsMissing,
    }));
    assert_eq!(data_field_options_from_payload(&[1], Size::Two), missing);
    assert_eq!(data_field_options_from_payload(&[1, 2, 3], Size::Four), missing);
    // a size that is not known reads one byte
    assert_eq!(
        data_field_options_from_payload(&[0b0000_0110], Size::Empty),
        Ok(DataFieldOptions::from((Mutability::Data, Structure::Variable, Value::Relative)))
    );
}

#[test]
fn bit_cursor_reads_from_the_most_significant_bit() {
    let bytes = [0b1000_0001u8, 0b0100_0000];
    assert_eq!(bit((&bytes, 0)), Ok(((&bytes[..], 1), true)));
    assert_eq!(bit((&bytes, 1)), Ok(((&bytes[..], 2), false)));
    assert_eq!(bit((&bytes, 7)), Ok(((&bytes[1..], 0), true)));
    assert_eq!(bit((&bytes[1..], 1)), Ok(((&bytes[1..], 2), true)));
    assert_eq!(skip_bits((&bytes, 3), 6), Ok((&bytes[1..], 1)));
    assert_eq!(skip_bits((&bytes, 0), 16), Ok((&bytes[2..], 0)));
    assert_eq!(data((&bytes, 7)), Ok(((&bytes[1..], 0), Data::BufferedBytes)));
    let missing = Error::ParsingFailed(ParsingFailure {
        offset: 0,
        kind: FailureKind::BitsMissing,
    });
    let invalid = Error::ParsingFailed(ParsingFailure {
        offset: 0,
        kind: FailureKind::BitOffsetInvalid,
    });
    assert_eq!(skip_bits((&bytes, 0), 17), Err(missing));
    assert_eq!(bit((&bytes[2..], 0)), Err(missing));
    assert_eq!(bit((&bytes, 8)), Err(invalid));
    assert_eq!(skip_bits((&bytes, 9), 1), Err(invalid));
    assert_eq!(data_field_options((&bytes, 8), Size::One), Err(invalid));
    // a cursor inside a byte reads the flags across two bytes
    let parsed = data_field_options((&bytes, 4), Size::One);
    assert_eq!(
        parsed,
        Ok((
            (&bytes[1..], 4),
            options([false, false, true, false, true, false, false, false, false])
        ))
    );
}

#[test]
fn item_accessors_read_type_and_payload() {
    let item = ReportDescriptorItem::new(
        ItemType::Main(MainType::Input),
        hid_tools::report_descriptor::data::SizedPayload::from(0x06u8),
    );
    assert!(item.is_input());
    assert!(item.is_input_output_or_feature());
    assert!(!item.is_output());
    assert!(!item.is_feature());
    assert!(!item.is_collection());
    assert_eq!(
        item.data_field_options(),
        Some(DataFieldOptions::from((Mutability::Data, Structure::Variable, Value::Relative)))
    );
    assert_eq!(item.usage_page(), None);
    assert_eq!(item.usage(&UsagePage::Button), None);
    assert_eq!(item.collection(), None);
    let options = item.data_field_options().unwrap();
    assert!(options.is_data() && !options.is_constant());
    assert!(options.is_var() && !options.is_array());
    assert!(options.is_relative() && !options.is_absolute());
    assert_eq!(options.mutability(), &Mutability::Data);
    assert_eq!(options.structure(), &Structure::Variable);
    assert_eq!(options.value(), &Value::Relative);
    assert_eq!(options.state(), &State::Preferred);
    assert_eq!(options.null_state(), &NullState::NoNullPosition);
    assert_eq!(options.volatile(), &Volatile::NonVolatile);
    assert_eq!(options.data(), &Data::BitField);
    // an item without a payload has no options
    let bare = ReportDescriptorItem::new(
        ItemType::Main(MainType::Output),
        hid_tools::report_descriptor::data::SizedPayload::Empty,
    );
    assert!(bare.is_output());
    assert_eq!(bare.data_field_options(), None);
    // an item whose bytes are no prefix byte and payload has no payload
    let broken = ReportDescriptorItem {
        kind: ItemType::Global(GlobalType::UsagePage),
        payload_size: Size::One,
        raw: vec![0x05, 0x01, 0x02, 0x03],
    };
    assert!(!broken.is_framed());
    assert!(!broken.is_well_formed());
    assert_eq!(broken.payload(), None);
    assert_eq!(broken.payload_u8(), None);
    assert_eq!(broken.payload_u16(), None);
    assert_eq!(broken.usage_page(), None);
}
