use hid_tools::report::expected::{
    ExpectedField, ExpectedFieldItem, ExpectedReport, ExpectedReports,
};
use hid_tools::report::input::{GlobalItemTracker, Input, LocalItemTracker};
use hid_tools::report::parsed::{ArrayValueItem, ArrayZeroItem, Field, ParsedReport, VarItem};
use hid_tools::report::{expected_input_reports, parse_raw_input_report, InputError, ReportWalk};
use hid_tools::report_builder::ReportDescriptorBuilder;
use hid_tools::report_descriptor::data::SizedPayload;
use hid_tools::report_descriptor::parse::report_descriptor;
use hid_tools::report_descriptor::{
    Collection, DataFieldOptions, GlobalType, ItemType, LocalType, MainType, Mutability,
    ReportDescriptor, ReportDescriptorItem, Structure, Value,
};
use hid_tools::usage_table::consumer::ConsumerUsage;
use hid_tools::usage_table::generic_desktop::GenericDesktopControlsUsage;
use hid_tools::usage_table::keyboard::KeyboardUsage;
use hid_tools::usage_table::{Usage, UsagePage};

#[test]
fn simple_var_input() {
    // Stripped mouse report
    let report = ReportDescriptorBuilder::new()
        .usage_page(UsagePage::GenericDesktopControls)
        .usage(GenericDesktopControlsUsage::X)
        .report_size(8)
        .report_count(1)
        .input(0x06) // Data, Variable, Relative
        .build();

    let result = expected_input_reports(&report);

    assert_eq!(
        result,
        Ok(ExpectedReports {
            has_report_id: false,
            reports: vec![ExpectedReport {
                report_id: None,
                size: 8,
                fields: vec![ExpectedField::Variable(ExpectedFieldItem {
                    usage_page: UsagePage::GenericDesktopControls,
                    usage: Usage::GenericDesktopControls(GenericDesktopControlsUsage::X),
                    index_in_raw: 0,
                    size_bits: 8,
                    options: DataFieldOptions::from((
                        Mutability::Data,
                        Structure::Variable,
                        Value::Relative
                    ))
                })]
            }]
        })
    );
}

#[test]
fn simple_constant_input() {
    let report = ReportDescriptorBuilder::new()
        .usage_page(UsagePage::GenericDesktopControls)
        .usage(GenericDesktopControlsUsage::Keyboard)
        .report_size(5)
        .report_count(1)
        .input(0x01) // Constant
        .build();

    let result = expected_input_reports(&report);

    assert_eq!(
        result,
        Ok(ExpectedReports {
            has_report_id: false,
            reports: vec![ExpectedReport {
                report_id: None,
                size: 5,
                fields: vec![ExpectedField::Constant(ExpectedFieldItem {
                    usage_page: UsagePage::GenericDesktopControls,
                    usage: Usage::GenericDesktopControls(GenericDesktopControlsUsage::Keyboard),
                    index_in_raw: 0,
                    size_bits: 5,
                    options: DataFieldOptions::from((
                        Mutability::Constant,
                        Structure::Array,
                        Value::Absolute
                    ))
                })]
            }]
        })
    );
}

#[test]
fn simple_array_input() {
    // Part from a keyboard report descriptor
    let report = ReportDescriptorBuilder::new()
        .usage_page(UsagePage::Keyboard)
        .usage_minimum::<u16>(0x00)
        .usage_maximum::<u16>(0x91)
        .report_count(2)
        .report_size(8)
        .input(0x00) // Data, Array, Abs
        .build();

    let result = expected_input_reports(&report);
    assert_eq!(
        result,
        Ok(ExpectedReports {
            has_report_id: false,
            reports: vec![ExpectedReport {
                report_id: None,
                size: 16,
                fields: vec![
                    ExpectedField::ArrayItem(ExpectedFieldItem {
                        usage_page: UsagePage::Keyboard,
                        usage: Usage::Undefined,
                        index_in_raw: 0,
                        size_bits: 8,
                        options: DataFieldOptions::from((
                            Mutability::Data,
                            Structure::Array,
                            Value::Absolute
                        ))
                    }),
                    ExpectedField::ArrayItem(ExpectedFieldItem {
                        usage_page: UsagePage::Keyboard,
                        usage: Usage::Undefined,
                        index_in_raw: 8,
                        size_bits: 8,
                        options: DataFieldOptions::from((
                            Mutability::Data,
                            Structure::Array,
                            Value::Absolute
                        ))
                    })
                ]
            }]
        })
    );
}

#[test]
fn keyboard_multiple_variable() {
    // taken from real world keyboard
    let report = ReportDescriptorBuilder::new()
        .usage_page(UsagePage::GenericDesktopControls)
        .usage(Usage::GenericDesktopControls(
            GenericDesktopControlsUsage::Keyboard,
        ))
        .collection(Collection::Application)
        .usage_page(UsagePage::Keyboard)
        .usage_minimum(KeyboardUsage::KeyboardLeftControl)
        .usage_maximum(KeyboardUsage::KeyboardRightGUI)
        .report_count(8)
        .report_size(1)
        .input(0x02) // Data, Var, Abs
        .end_collection()
        .build();

    let result = expected_input_reports(&report).unwrap();

    let expected_first_field = ExpectedField::Variable(ExpectedFieldItem {
        usage_page: UsagePage::Keyboard,
        usage: Usage::Keyboard(KeyboardUsage::KeyboardLeftControl),
        index_in_raw: 0,
        size_bits: 1,
        options: DataFieldOptions::from((
            Mutability::Data,
            Structure::Variable,
            Value::Absolute,
        )),
    });

    let expected_last_field = ExpectedField::Variable(ExpectedFieldItem {
        usage_page: UsagePage::Keyboard,
        usage: Usage::Keyboard(KeyboardUsage::KeyboardRightGUI),
        index_in_raw: 7,
        size_bits: 1,
        options: DataFieldOptions::from((
            Mutability::Data,
            Structure::Variable,
            Value::Absolute,
        )),
    });

    assert_eq!(result.reports[0].size, 8);
    assert_eq!(result.reports[0].fields[0], expected_first_field);
    assert_eq!(result.reports[0].fields[7], expected_last_field);
}

#[test]
fn mouse_multiple_var_and_constant_in_one_byte() {
    // Taken from a real world mouse report descriptor
    let report = ReportDescriptorBuilder::new()
        .usage_page(UsagePage::GenericDesktopControls)
        .usage(Usage::GenericDesktopControls(
            GenericDesktopControlsUsage::Mouse,
        ))
        .collection(Collection::Application)
        .usage_page(UsagePage::Button)
        .usage_minimum::<u16>(1)
        .usage_maximum::<u16>(5)
        .report_count(5)
        .report_size(1)
        .input(0x02) // Data, Var, Abs
        .report_count(1)
        .report_size(3)
        .input(0x01) // Constant
        .end_collection()
        .build();

    let result = expected_input_reports(&report).unwrap();

    let expected_first_field = ExpectedField::Variable(ExpectedFieldItem {
        usage_page: UsagePage::Button,
        usage: Usage::Button(1),
        index_in_raw: 0,
        size_bits: 1,
        options: DataFieldOptions::from((
            Mutability::Data,
            Structure::Variable,
            Value::Absolute,
        )),
    });

    let expected_last_field = ExpectedField::Constant(ExpectedFieldItem {
        usage_page: UsagePage::Button,
        usage: Usage::Undefined,
        index_in_raw: 5,
        size_bits: 3,
        options: DataFieldOptions::from((
            Mutability::Constant,
            Structure::Array,
            Value::Absolute,
        )),
    });

    assert_eq!(result.reports[0].size, 8);
    assert_eq!(result.reports[0].fields[0], expected_first_field);
    assert_eq!(result.reports[0].fields[5], expected_last_field);
}

#[test]
fn parse_simple_report() {
    let expected_reports = ExpectedReports::from((
        false,
        vec![ExpectedReport {
            report_id: None,
            size: 1,
            fields: vec![ExpectedField::Variable(ExpectedFieldItem {
                usage_page: UsagePage::Button,
                usage: Usage::Button(1),
                index_in_raw: 0,
                size_bits: 1,
                options: Default::default(),
            })],
        }],
    ));

    let expected_result = ParsedReport {
        report_id: None,
        fields: vec![Field::Variable(VarItem {
            usage_page: UsagePage::Button,
            usage: Usage::Button(1),
            value: 1,
            options: Default::default(),
        })],
    };

    let result = parse_raw_input_report(&vec![1], &expected_reports);
    assert_eq!(result, Ok(expected_result));
}

fn mx_keys_descriptor() -> Vec<u8> {
    vec![
        0x05, 0x01, 0x09, 0x06, 0xa1, 0x01, 0x85, 0x01, 0x05, 0x07, 0x19, 0xe0, 0x29, 0xe7, 0x15,
        0x00, 0x25, 0x01, 0x75, 0x01, 0x95, 0x08, 0x81, 0x02, 0x95, 0x05, 0x05, 0x08, 0x19, 0x01,
        0x29, 0x05, 0x91, 0x02, 0x95, 0x01, 0x75, 0x03, 0x91, 0x01, 0x95, 0x06, 0x75, 0x08, 0x15,
        0x00, 0x26, 0xa4, 0x00, 0x05, 0x07, 0x19, 0x00, 0x2a, 0xa4, 0x00, 0x81, 0x00, 0xc0, 0x05,
        0x01, 0x09, 0x02, 0xa1, 0x01, 0x85, 0x02, 0x09, 0x01, 0xa1, 0x00, 0x95, 0x10, 0x75, 0x01,
        0x15, 0x00, 0x25, 0x01, 0x05, 0x09, 0x19, 0x01, 0x29, 0x10, 0x81, 0x02, 0x05, 0x01, 0x16,
        0x01, 0xf8, 0x26, 0xff, 0x07, 0x75, 0x0c, 0x95, 0x02, 0x09, 0x30, 0x09, 0x31, 0x81, 0x06,
        0x15, 0x81, 0x25, 0x7f, 0x75, 0x08, 0x95, 0x01, 0x09, 0x38, 0x81, 0x06, 0x95, 0x01, 0x05,
        0x0c, 0x0a, 0x38, 0x02, 0x81, 0x06, 0xc0, 0xc0, 0x05, 0x0c, 0x09, 0x01, 0xa1, 0x01, 0x85,
        0x03, 0x75, 0x10, 0x95, 0x02, 0x15, 0x01, 0x26, 0x8c, 0x02, 0x19, 0x01, 0x2a, 0x8c, 0x02,
        0x81, 0x60, 0xc0, 0x06, 0x43, 0xff, 0x0a, 0x02, 0x02, 0xa1, 0x01, 0x85, 0x11, 0x75, 0x08,
        0x95, 0x13, 0x15, 0x00, 0x26, 0xff, 0x00, 0x09, 0x02, 0x81, 0x00, 0x09, 0x02, 0x91, 0x00,
        0xc0,
    ]
}

#[test]
fn main() {
    let report_descriptor_bytes: Vec<u8> = vec![
        0x05, 0x01, 0x09, 0x06, 0xa1, 0x01, 0x85, 0x01, 0x05, 0x07, 0x19, 0xe0, 0x29, 0xe7, 0x15,
        0x00, 0x25, 0x01, 0x75, 0x01, 0x95, 0x08, 0x81, 0x02, 0x95, 0x05, 0x05, 0x08, 0x19, 0x01,
        0x29, 0x05, 0x91, 0x02, 0x95, 0x01, 0x75, 0x03, 0x91, 0x01, 0x95, 0x06, 0x75, 0x08, 0x15,
        0x00, 0x26, 0xa4, 0x00, 0x05, 0x07, 0x19, 0x00, 0x2a, 0xa4, 0x00, 0x81, 0x00, 0xc0, 0x05,
        0x01, 0x09, 0x02, 0xa1, 0x01, 0x85, 0x02, 0x09, 0x01, 0xa1, 0x00, 0x95, 0x10, 0x75, 0x01,
        0x15, 0x00, 0x25, 0x01, 0x05, 0x09, 0x19, 0x01, 0x29, 0x10, 0x81, 0x02, 0x05, 0x01, 0x16,
        0x01, 0xf8, 0x26, 0xff, 0x07, 0x75, 0x0c, 0x95, 0x02, 0x09, 0x30, 0x09, 0x31, 0x81, 0x06,
        0x15, 0x81, 0x25, 0x7f, 0x75, 0x08, 0x95, 0x01, 0x09, 0x38, 0x81, 0x06, 0x95, 0x01, 0x05,
        0x0c, 0x0a, 0x38, 0x02, 0x81, 0x06, 0xc0, 0xc0, 0x05, 0x0c, 0x09, 0x01, 0xa1, 0x01, 0x85,
        0x03, 0x75, 0x10, 0x95, 0x02, 0x15, 0x01, 0x26, 0x8c, 0x02, 0x19, 0x01, 0x2a, 0x8c, 0x02,
        0x81, 0x60, 0xc0, 0x06, 0x43, 0xff, 0x0a, 0x02, 0x02, 0xa1, 0x01, 0x85, 0x11, 0x75, 0x08,
        0x95, 0x13, 0x15, 0x00, 0x26, 0xff, 0x00, 0x09, 0x02, 0x81, 0x00, 0x09, 0x02, 0x91, 0x00,
        0xc0,
    ];
    let report_descriptor = report_descriptor(&report_descriptor_bytes).unwrap();

    // Test display report descriptor
    assert_eq!(
        report_descriptor.to_string(),
        "[05, 01]            Usage Page (Generic Desktop Controls)
[09, 06]            Usage (Keyboard)
[a1, 01]            Collection (Application)
[85, 01]                Report ID (1)
[05, 07]                Usage Page (Keyboard)
[19, e0]                Usage Minimum (Keyboard Left Control)
[29, e7]                Usage Maximum (Keyboard Right GUI)
[15, 00]                Logical Minimum (0)
[25, 01]                Logical Maximum (1)
[75, 01]                Report Size (1)
[95, 08]                Report Count (8)
[81, 02]                Input (Data, Var, Abs)
[95, 05]                Report Count (5)
[05, 08]                Usage Page (LED)
[19, 01]                Usage Minimum (1)
[29, 05]                Usage Maximum (5)
[91, 02]                Output (Data, Var, Abs)
[95, 01]                Report Count (1)
[75, 03]                Report Size (3)
[91, 01]                Output (Const, Arr, Abs)
[95, 06]                Report Count (6)
[75, 08]                Report Size (8)
[15, 00]                Logical Minimum (0)
[26, a4, 00]            Logical Maximum (164)
[05, 07]                Usage Page (Keyboard)
[19, 00]                Usage Minimum (Reserved (0))
[2a, a4, 00]            Usage Maximum (Keyboard Ex Sel)
[81, 00]                Input (Data, Arr, Abs)
[c0]                End Collection
[05, 01]            Usage Page (Generic Desktop Controls)
[09, 02]            Usage (Mouse)
[a1, 01]            Collection (Application)
[85, 02]                Report ID (2)
[09, 01]                Usage (Pointer)
[a1, 00]                Collection (Physical)
[95, 10]                    Report Count (16)
[75, 01]                    Report Size (1)
[15, 00]                    Logical Minimum (0)
[25, 01]                    Logical Maximum (1)
[05, 09]                    Usage Page (Button)
[19, 01]                    Usage Minimum (1)
[29, 10]                    Usage Maximum (16)
[81, 02]                    Input (Data, Var, Abs)
[05, 01]                    Usage Page (Generic Desktop Controls)
[16, 01, f8]                Logical Minimum (-2047)
[26, ff, 07]                Logical Maximum (2047)
[75, 0c]                    Report Size (12)
[95, 02]                    Report Count (2)
[09, 30]                    Usage (X)
[09, 31]                    Usage (Y)
[81, 06]                    Input (Data, Var, Rel)
[15, 81]                    Logical Minimum (-127)
[25, 7f]                    Logical Maximum (127)
[75, 08]                    Report Size (8)
[95, 01]                    Report Count (1)
[09, 38]                    Usage (Wheel)
[81, 06]                    Input (Data, Var, Rel)
[95, 01]                    Report Count (1)
[05, 0c]                    Usage Page (Consumer)
[0a, 38, 02]                Usage (AC Pan)
[81, 06]                    Input (Data, Var, Rel)
[c0]                    End Collection
[c0]                End Collection
[05, 0c]            Usage Page (Consumer)
[09, 01]            Usage (Consumer Control)
[a1, 01]            Collection (Application)
[85, 03]                Report ID (3)
[75, 10]                Report Size (16)
[95, 02]                Report Count (2)
[15, 01]                Logical Minimum (1)
[26, 8c, 02]            Logical Maximum (652)
[19, 01]                Usage Minimum (Consumer Control)
[2a, 8c, 02]            Usage Maximum (AC Send)
[81, 60]                Input (Data, Arr, Abs)
[c0]                End Collection
[06, 43, ff]        Usage Page (Vendor Defined (0xff43))
[0a, 02, 02]        Usage (514)
[a1, 01]            Collection (Application)
[85, 11]                Report ID (17)
[75, 08]                Report Size (8)
[95, 13]                Report Count (19)
[15, 00]                Logical Minimum (0)
[26, ff, 00]            Logical Maximum (255)
[09, 02]                Usage (2)
[81, 00]                Input (Data, Arr, Abs)
[09, 02]                Usage (2)
[91, 00]                Output (Data, Arr, Abs)
[c0]                End Collection
"
    );

    let expected = expected_input_reports(&report_descriptor).unwrap();

    // Test 4 & 2 buttons pressed
    let report: Vec<u8> = vec![1, 0, 33, 31, 0, 0, 0, 0];
    let parsed_report = parse_raw_input_report(&report, &expected).unwrap();

    assert_eq!(
        parsed_report.to_string(),
        "ReportId(1)
Keyboard - Keyboard Left Control(0)
Keyboard - Keyboard Left Shift(0)
Keyboard - Keyboard Left Alt(0)
Keyboard - Keyboard Left GUI(0)
Keyboard - Keyboard Right Control(0)
Keyboard - Keyboard Right Shift(0)
Keyboard - Keyboard Right Alt(0)
Keyboard - Keyboard Right GUI(0)
Keyboard - Keyboard 4 and $
Keyboard - Keyboard 2 and @
"
    );

    // Test Volume up pressed
    let report: Vec<u8> = vec![3, 233, 0, 0, 0];
    let parsed_report = parse_raw_input_report(&report, &expected).unwrap();

    assert_eq!(
        parsed_report.to_string(),
        "ReportId(3)
Consumer - Volume Increment
"
    );
}

#[test]
fn mx_keys_reports_hold_the_keys_that_are_pressed() {
    let report_descriptor = report_descriptor(&mx_keys_descriptor()).unwrap();
    assert_eq!(report_descriptor.items().len(), 88);

    let expected = expected_input_reports(&report_descriptor).unwrap();
    assert!(expected.has_report_id);
    // the inner End Collection of the mouse closes its report, so the outer one finds nothing
    let ids: Vec<Option<u8>> = expected.reports.iter().map(|r| r.report_id).collect();
    assert_eq!(ids, vec![Some(1), Some(2), Some(3), Some(17)]);
    let sizes: Vec<usize> = expected.reports.iter().map(|r| r.size).collect();
    assert_eq!(sizes, vec![8 + 8 + 6 * 8, 8 + 16 + 2 * 12 + 8 + 8, 8 + 2 * 16, 8 + 19 * 8]);

    // Test 4 & 2 buttons pressed
    let report: Vec<u8> = vec![1, 0, 33, 31, 0, 0, 0, 0];
    let parsed_report = parse_raw_input_report(&report, &expected).unwrap();
    assert_eq!(parsed_report.report_id, Some(1));
    let shown: Vec<&Field> = parsed_report
        .fields
        .iter()
        .filter(|field| !matches!(field, Field::ArrayZeroValue(_)))
        .collect();
    assert_eq!(shown.len(), 11);
    assert_eq!(shown[0], &Field::ReportId(1));
    let modifiers = [
        KeyboardUsage::KeyboardLeftControl,
        KeyboardUsage::KeyboardLeftShift,
        KeyboardUsage::KeyboardLeftAlt,
        KeyboardUsage::KeyboardLeftGUI,
        KeyboardUsage::KeyboardRightControl,
        KeyboardUsage::KeyboardRightShift,
        KeyboardUsage::KeyboardRightAlt,
        KeyboardUsage::KeyboardRightGUI,
    ];
    for (i, modifier) in modifiers.iter().enumerate() {
        assert_eq!(
            shown[1 + i],
            &Field::Variable(VarItem {
                usage_page: UsagePage::Keyboard,
                usage: Usage::Keyboard(*modifier),
                value: 0,
                options: DataFieldOptions::from((
                    Mutability::Data,
                    Structure::Variable,
                    Value::Absolute
                )),
            })
        );
    }
    assert_eq!(
        shown[9],
        &Field::ArrayValue(ArrayValueItem {
            usage_page: UsagePage::Keyboard,
            usage: Usage::Keyboard(KeyboardUsage::Keyboard4andDollar),
            options: DataFieldOptions::default(),
        })
    );
    assert_eq!(
        shown[10],
        &Field::ArrayValue(ArrayValueItem {
            usage_page: UsagePage::Keyboard,
            usage: Usage::Keyboard(KeyboardUsage::Keyboard2andAt),
            options: DataFieldOptions::default(),
        })
    );
    assert_eq!(parsed_report.fields.len(), 1 + 8 + 6);

    // Test Volume up pressed
    let report: Vec<u8> = vec![3, 233, 0, 0, 0];
    let parsed_report = parse_raw_input_report(&report, &expected).unwrap();
    let shown: Vec<&Field> = parsed_report
        .fields
        .iter()
        .filter(|field| !matches!(field, Field::ArrayZeroValue(_)))
        .collect();
    assert_eq!(shown.len(), 2);
    assert_eq!(shown[0], &Field::ReportId(3));
    match shown[1] {
        Field::ArrayValue(item) => {
            assert_eq!(item.usage_page, UsagePage::Consumer);
            assert_eq!(item.usage, Usage::Consumer(ConsumerUsage::VolumeIncrement));
            assert_eq!(u16::from(item.usage), 233);
        }
        other => panic!("unexpected field {:?}", other),
    }
}

#[test]
fn stripped_mouse_yields_one_report() {
    let descriptor = ReportDescriptorBuilder::new()
        .usage_page(UsagePage::GenericDesktopControls)
        .usage(GenericDesktopControlsUsage::X)
        .report_size(8)
        .report_count(1)
        .input(0x06)
        .build();
    let found = expected_input_reports(&descriptor).unwrap();
    assert!(!found.has_report_id);
    assert_eq!(found.reports.len(), 1);
    assert_eq!(found.reports[0].report_id, None);
    assert_eq!(found.reports[0].size, 8);
    assert_eq!(found.reports[0].fields.len(), 1);
    assert_eq!(found.reports[0].fields[0].index(), 0);
    assert_eq!(found.reports[0].fields[0].size(), 8);
    assert_eq!(found.find_report(None), Some(&found.reports[0]));
    assert_eq!(found.find_report(Some(0)), None);
}

fn item(kind: ItemType, payload: SizedPayload) -> ReportDescriptorItem {
    ReportDescriptorItem::new(kind, payload)
}

#[test]
fn input_item_empties_the_local_item_table() {
    let usage = item(ItemType::Local(LocalType::Usage), SizedPayload::from(0x30u8));
    let first = item(ItemType::Local(LocalType::UsageMinimum), SizedPayload::from(1u8));
    let last = item(ItemType::Local(LocalType::UsageMaximum), SizedPayload::from(5u8));
    let size = item(ItemType::Global(GlobalType::ReportSize), SizedPayload::from(1u8));
    let input = item(ItemType::Main(MainType::Input), SizedPayload::from(2u8));
    let mut walk = ReportWalk::new();
    for step in [&usage, &first, &last, &size] {
        walk = walk.process(step).unwrap();
    }
    assert_eq!(walk.local_items.usage.len(), 1);
    assert_eq!(walk.local_items.usage_minimum, Some(1));
    assert_eq!(walk.local_items.usage_maximum, Some(5));
    let walk = walk.process(&input).unwrap();
    assert_eq!(walk.local_items.usage.len(), 0);
    assert_eq!(walk.local_items.usage_minimum, None);
    assert_eq!(walk.local_items.usage_maximum, None);
    // the global item table stays, and the Input item holds the tables as they stood
    assert_eq!(walk.global_items.report_size, Some(1));
    assert_eq!(walk.inputs.len(), 1);
    assert_eq!(walk.inputs[0].local_items.usage.len(), 1);
    assert_eq!(walk.inputs[0].local_items.usage_minimum, Some(1));
    // an Input item on an empty table leaves it empty
    let walk = walk.process(&input).unwrap();
    assert_eq!(walk.local_items.usage.len(), 0);
    assert_eq!(walk.inputs.len(), 2);
    // Output and Feature items empty the table too, and are not kept
    for kind in [MainType::Output, MainType::Feature] {
        let main = item(ItemType::Main(kind), SizedPayload::from(2u8));
        let mut walk = ReportWalk::new();
        for step in [&usage, &first, &last, &size] {
            walk = walk.process(step).unwrap();
        }
        let walk = walk.process(&main).unwrap();
        assert_eq!(walk.local_items.usage.len(), 0);
        assert_eq!(walk.local_items.usage_minimum, None);
        assert_eq!(walk.local_items.usage_maximum, None);
        assert_eq!(walk.global_items.report_size, Some(1));
        assert_eq!(walk.inputs.len(), 0);
    }
    // a Collection item leaves the table as it is
    let collection = item(ItemType::Main(MainType::Collection), SizedPayload::from(1u8));
    let walk = ReportWalk::new().process(&usage).unwrap().process(&collection).unwrap();
    assert_eq!(walk.local_items.usage.len(), 1);
}

#[test]
fn collections_without_input_items_make_no_report() {
    let descriptor = ReportDescriptorBuilder::new()
        .usage_page(UsagePage::LED)
        .collection(Collection::Application)
        .report_size(1)
        .report_count(3)
        .output(0x02)
        .end_collection()
        .collection(Collection::Application)
        .end_collection()
        .build();
    assert_eq!(
        expected_input_reports(&descriptor),
        Ok(ExpectedReports { has_report_id: false, reports: vec![] })
    );
    let empty = ReportDescriptor::new(vec![]);
    assert_eq!(
        expected_input_reports(&empty),
        Ok(ExpectedReports { has_report_id: false, reports: vec![] })
    );
}

#[test]
fn report_id_takes_the_first_byte_of_the_report() {
    let descriptor = ReportDescriptorBuilder::new()
        .usage_page(UsagePage::Button)
        .collection(Collection::Application)
        .report_id(7)
        .report_size(4)
        .report_count(2)
        .usage_minimum::<u16>(1)
        .usage_maximum::<u16>(2)
        .input(0x02)
        .end_collection()
        .report_size(16)
        .report_count(1)
        .input(0x00)
        .build();
    let found = expected_input_reports(&descriptor).unwrap();
    assert!(found.has_report_id);
    assert_eq!(found.reports.len(), 2);
    let report = &found.reports[0];
    assert_eq!(report.report_id, Some(7));
    assert_eq!(report.size, 8 + 2 * 4);
    assert_eq!(report.fields.len(), 3);
    assert_eq!(report.fields[0], ExpectedField::ReportId(7));
    assert_eq!((report.fields[0].index(), report.fields[0].size()), (0, 8));
    assert_eq!((report.fields[1].index(), report.fields[1].size()), (8, 4));
    assert_eq!((report.fields[2].index(), report.fields[2].size()), (12, 4));
    // the Input item behind the collection makes a report of its own
    assert_eq!(found.reports[1].report_id, Some(7));
    assert_eq!(found.reports[1].size, 8 + 16);
    // the first report with the id is found
    assert_eq!(found.find_report(Some(7)), Some(&found.reports[0]));
    assert_eq!(found.find_report(None), None);

    let parsed = parse_raw_input_report(&[7, 0x5a], &found).unwrap();
    assert_eq!(parsed.report_id, Some(7));
    assert_eq!(parsed.fields.len(), 3);
    assert_eq!(parsed.fields[0], Field::ReportId(7));
    match (&parsed.fields[1], &parsed.fields[2]) {
        (Field::Variable(low), Field::Variable(high)) => {
            assert_eq!((low.usage, low.value), (Usage::Button(1), 0xa));
            assert_eq!((high.usage, high.value), (Usage::Button(2), 0x5));
        }
        other => panic!("unexpected fields {:?}", other),
    }
    assert_eq!(parse_raw_input_report(&[], &found), Err(InputError::ReportIdExpected));
    assert_eq!(parse_raw_input_report(&[8, 0x5a], &found), Err(InputError::UnknownReportId));
    assert_eq!(parse_raw_input_report(&[7], &found), Err(InputError::CannotTakeBits));
}

#[test]
fn array_field_of_zero_names_no_control() {
    let array = ExpectedField::ArrayItem(ExpectedFieldItem {
        usage_page: UsagePage::Keyboard,
        usage: Usage::Undefined,
        index_in_raw: 0,
        size_bits: 8,
        options: Default::default(),
    });
    let zero = Field::ArrayZeroValue(ArrayZeroItem {
        usage_page: UsagePage::Keyboard,
        options: Default::default(),
    });
    assert_eq!(Field::try_from((&array, 0)), Ok(zero));
    assert_eq!(ArrayZeroItem::try_from(&array).map(Field::ArrayZeroValue), Ok(zero));
    let expected = ExpectedReports::from((
        false,
        vec![ExpectedReport { report_id: None, size: 8, fields: vec![array] }],
    ));
    assert_eq!(
        parse_raw_input_report(&[0], &expected),
        Ok(ParsedReport { report_id: None, fields: vec![zero] })
    );
    assert_eq!(
        parse_raw_input_report(&[4], &expected),
        Ok(ParsedReport {
            report_id: None,
            fields: vec![Field::ArrayValue(ArrayValueItem {
                usage_page: UsagePage::Keyboard,
                usage: Usage::Keyboard(KeyboardUsage::KeyboardaandA),
                options: Default::default(),
            })]
        })
    );
}

#[test]
fn fields_are_converted_by_their_kind() {
    let item = ExpectedFieldItem {
        usage_page: UsagePage::Button,
        usage: Usage::Button(3),
        index_in_raw: 0,
        size_bits: 32,
        options: Default::default(),
    };
    assert_eq!(Field::try_from((&ExpectedField::ReportId(9), 77)), Ok(Field::ReportId(9)));
    assert_eq!(Field::try_from((&ExpectedField::Constant(item), -5)), Ok(Field::Constant(-5)));
    assert_eq!(
        Field::try_from((&ExpectedField::Variable(item), -5)),
        Ok(Field::Variable(VarItem {
            usage_page: UsagePage::Button,
            usage: Usage::Button(3),
            value: -5,
            options: Default::default(),
        }))
    );
    assert_eq!(
        Field::try_from((&ExpectedField::ArrayItem(item), 0xffff)),
        Ok(Field::ArrayValue(ArrayValueItem {
            usage_page: UsagePage::Button,
            usage: Usage::Button(0xffff),
            options: Default::default(),
        }))
    );
    assert_eq!(
        Field::try_from((&ExpectedField::ArrayItem(item), 0x1_0000)),
        Err(InputError::InvalidPayload)
    );
    assert_eq!(
        Field::try_from((&ExpectedField::ArrayItem(item), -1)),
        Err(InputError::InvalidPayload)
    );
    assert_eq!(
        VarItem::try_from((&ExpectedField::Constant(item), 1)),
        Err(InputError::VariableItemExpected)
    );
    assert_eq!(
        ArrayValueItem::try_from((&ExpectedField::Variable(item), 1)),
        Err(InputError::ArrayItemExpected)
    );
    assert_eq!(
        ArrayZeroItem::try_from(&ExpectedField::ReportId(1)),
        Err(InputError::ArrayItemExpected)
    );
}

#[test]
fn walk_passes_on_the_errors_of_its_items() {
    // an Input item before the report size is set fails where its report is made
    let descriptor = ReportDescriptorBuilder::new().report_count(1).input(0x02).build();
    assert_eq!(
        expected_input_reports(&descriptor),
        Err(InputError::GlobalItemNotSet(GlobalType::ReportSize))
    );
    let descriptor = ReportDescriptorBuilder::new().report_size(1).input(0x02).end_collection().build();
    assert_eq!(
        expected_input_reports(&descriptor),
        Err(InputError::GlobalItemNotSet(GlobalType::ReportCount))
    );
    // an Input item without options
    let descriptor = ReportDescriptorBuilder::new()
        .report_size(1)
        .report_count(1)
        .input([0u8; 0])
        .build();
    assert_eq!(expected_input_reports(&descriptor), Err(InputError::InvalidPayload));
    // a report id of two bytes
    let descriptor = ReportDescriptorBuilder::new().report_id(300).build();
    assert_eq!(expected_input_reports(&descriptor), Err(InputError::InvalidPayload));
    // a usage page of four bytes
    let descriptor = ReportDescriptorBuilder::new()
        .item_with_payload(UsagePage::Button, 0x1_0000u32)
        .build();
    assert_eq!(expected_input_reports(&descriptor), Err(InputError::InvalidPayload));
    // no report is made of no Input item
    assert_eq!(ExpectedReport::try_from(Vec::<Input>::new()), Err(InputError::Empty));
    // the fields of two Input items together leave `usize`
    let wide = item(ItemType::Main(MainType::Input), SizedPayload::from(2u8));
    let input = |count| Input {
        input_item: &wide,
        global_items: GlobalItemTracker {
            report_size: Some(u32::MAX),
            report_count: Some(count),
            ..GlobalItemTracker::default()
        },
        local_items: LocalItemTracker::default(),
    };
    if usize::MAX as u128 == u64::MAX as u128 {
        assert_eq!(
            ExpectedReport::try_from(vec![input(0), input(0)]).map(|report| report.size),
            Ok(0)
        );
    }
}

#[test]
fn keyboard_report_names_the_keys_that_are_pressed() {
    let bytes: Vec<u8> = vec![
        0x05, 0x01, 0x09, 0x06, 0xa1, 0x01, 0x05, 0x08, 0x19, 0x01, 0x29, 0x03, 0x15, 0x00, 0x25,
        0x01, 0x75, 0x01, 0x95, 0x03, 0x91, 0x02, 0x95, 0x05, 0x91, 0x01, 0x05, 0x07, 0x19, 0xe0,
        0x29, 0xe7, 0x95, 0x08, 0x81, 0x02, 0x75, 0x08, 0x95, 0x01, 0x81, 0x01, 0x19, 0x00, 0x29,
        0x91, 0x26, 0xff, 0x00, 0x95, 0x06, 0x81, 0x00, 0xc0,
    ];
    // Left shift, a and b pressed on keyboard
    let event_report: Vec<u8> = vec![0x02, 0, 0x04, 0x05, 0, 0, 0, 0];
    let descriptor = report_descriptor(&bytes).unwrap();
    let expected_reports = expected_input_reports(&descriptor).unwrap();
    let parsed_report = parse_raw_input_report(&event_report, &expected_reports).unwrap();
    assert_eq!(
        parsed_report.to_string(),
        "Keyboard - Keyboard Left Control(0)
Keyboard - Keyboard Left Shift(1)
Keyboard - Keyboard Left Alt(0)
Keyboard - Keyboard Left GUI(0)
Keyboard - Keyboard Right Control(0)
Keyboard - Keyboard Right Shift(0)
Keyboard - Keyboard Right Alt(0)
Keyboard - Keyboard Right GUI(0)
Constant(0)
Keyboard - Keyboard a and A
Keyboard - Keyboard b and B
"
    );
}
