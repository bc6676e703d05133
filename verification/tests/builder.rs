use hid_tools::report_builder::ReportDescriptorBuilder;
use hid_tools::report_descriptor::data::Size;
use hid_tools::report_descriptor::{
    Collection, GlobalType, ItemType, LocalType, MainType, ReportDescriptorItem,
};
use hid_tools::usage_table::keyboard::KeyboardUsage;
use hid_tools::usage_table::{Usage, UsagePage};

#[test]
fn usage_page_from_u16() {
    let builder = ReportDescriptorBuilder::default();
    let result = builder.usage_page::<u16>(0x01);

    assert_eq!(
        result,
        ReportDescriptorBuilder {
            items: vec![ReportDescriptorItem {
                kind: ItemType::Global(GlobalType::UsagePage),
                payload_size: Size::One,
                raw: vec![0x05, 0x01]
            }],
        }
    );
}

#[test]
fn usage_page_from_enum() {
    let builder = ReportDescriptorBuilder::default();
    let result = builder.usage_page(UsagePage::FIDOAlliance);

    assert_eq!(
        result,
        ReportDescriptorBuilder {
            items: vec![ReportDescriptorItem {
                kind: ItemType::Global(GlobalType::UsagePage),
                payload_size: Size::Two,
                raw: vec![0x06, 0xd0, 0xf1]
            }],
        }
    );
}

#[test]
fn usage_page_from_usage_page() {
    let builder = ReportDescriptorBuilder::new();
    let result = builder.item(UsagePage::FIDOAlliance);
    assert_eq!(
        result,
        ReportDescriptorBuilder {
            items: vec![ReportDescriptorItem {
                kind: ItemType::Global(GlobalType::UsagePage),
                payload_size: Size::Two,
                raw: vec![0x06, 0xd0, 0xf1]
            }],
        }
    );
}

#[test]
fn keyboard_usage() {
    let builder = ReportDescriptorBuilder::new();
    let result = builder.item(Usage::Keyboard(KeyboardUsage::KeyboardaandA));
    assert_eq!(
        result,
        ReportDescriptorBuilder {
            items: vec![ReportDescriptorItem {
                kind: ItemType::Local(LocalType::Usage),
                payload_size: Size::One,
                raw: vec![0x09, 0x04]
            }],
        }
    );
}

#[test]
fn keyboard_usage_enum() {
    let builder = ReportDescriptorBuilder::new();
    let result = builder.item(KeyboardUsage::KeyboardaandA);
    assert_eq!(
        result,
        ReportDescriptorBuilder {
            items: vec![ReportDescriptorItem {
                kind: ItemType::Local(LocalType::Usage),
                payload_size: Size::One,
                raw: vec![0x09, 0x04]
            }],
        }
    );
}

#[test]
fn logical_minimum_negative() {
    let result = ReportDescriptorBuilder::new().logical_minimum(-1);

    assert_eq!(
        result,
        ReportDescriptorBuilder {
            items: vec![ReportDescriptorItem {
                kind: ItemType::Global(GlobalType::LogicalMinimum),
                payload_size: Size::One,
                raw: vec![0b00010100 | 1, 0xff]
            }],
        }
    );
}

#[test]
fn every_builder_method_writes_its_prefix() {
    let bytes = ReportDescriptorBuilder::new()
        .input(0x02)
        .output(0x02)
        .feature(0x02)
        .collection(Collection::Application)
        .end_collection()
        .usage_page::<u16>(0x01)
        .logical_minimum(0)
        .logical_maximum(1)
        .physical_minimum(0)
        .physical_maximum(1)
        .unit_exponent(0)
        .unit(0u8)
        .report_size(1)
        .report_id(1)
        .report_count(1)
        .push([0u8; 0])
        .pop([0u8; 0])
        .usage::<u16>(1)
        .usage_minimum::<u16>(1)
        .usage_maximum::<u16>(1)
        .designator_index(1)
        .designator_minimum(1)
        .designator_maximum(1)
        .string_index(1)
        .string_minimum(1)
        .string_maximum(1)
        .delimiter(1)
        .build()
        .bytes();
    assert_eq!(
        bytes,
        vec![
            0x81, 0x02, 0x91, 0x02, 0xb1, 0x02, 0xa1, 0x01, 0xc0, 0x05, 0x01, 0x15, 0x00, 0x25,
            0x01, 0x35, 0x00, 0x45, 0x01, 0x55, 0x00, 0x65, 0x00, 0x75, 0x01, 0x85, 0x01, 0x95,
            0x01, 0xa4, 0xb4, 0x09, 0x01, 0x19, 0x01, 0x29, 0x01, 0x39, 0x01, 0x49, 0x01, 0x59,
            0x01, 0x79, 0x01, 0x89, 0x01, 0x99, 0x01, 0xa9, 0x01
        ]
    );
}

#[test]
fn item_with_payload_takes_type_and_payload() {
    let result = ReportDescriptorBuilder::new()
        .item_with_payload(UsagePage::LED, 300u16)
        .item_with_payload(Collection::Logical, [0x02u8])
        .build();
    let items = result.items();
    assert_eq!(items.len(), 2);
    assert_eq!(items[0].kind, ItemType::Global(GlobalType::UsagePage));
    assert_eq!(items[0].raw, vec![0x06, 0x2c, 0x01]);
    assert_eq!(items[1].kind, ItemType::Main(MainType::Collection));
    assert_eq!(items[1].raw, vec![0xa1, 0x02]);
    assert!(result.is_well_formed());
}
