use hid_tools::report::expected::{ExpectedField, ExpectedFieldItem};
use hid_tools::report::input::{expected_fields, GlobalItemTracker, Input, LocalItemTracker};
use hid_tools::report::InputError;
use hid_tools::report_descriptor::data::{Size, SizedPayload};
use hid_tools::report_descriptor::{
    DataFieldOptions, GlobalType, ItemType, LocalType, MainType, Mutability, ReportDescriptorItem,
    Structure, Value,
};
use hid_tools::usage_table::{Usage, UsagePage};

#[test]
fn input_struct_from_input_descriptor_item_is_ok() {
    let input_item = ReportDescriptorItem {
        kind: ItemType::Main(MainType::Input),
        payload_size: Size::Empty,
        raw: vec![],
    };

    let result = Input::try_from((
        &input_item,
        GlobalItemTracker::default(),
        LocalItemTracker::default(),
    ));
    assert!(result.is_ok())
}

#[test]
fn input_struct_from_non_input_descriptor_item_is_err() {
    let input_item = ReportDescriptorItem {
        kind: ItemType::Main(MainType::Output),
        payload_size: Size::Empty,
        raw: vec![],
    };

    let result = Input::try_from((
        &input_item,
        GlobalItemTracker::default(),
        LocalItemTracker::default(),
    ));
    assert!(result.is_err())
}

fn item(kind: ItemType, payload: SizedPayload) -> ReportDescriptorItem {
    ReportDescriptorItem::new(kind, payload)
}

#[test]
fn global_setters_check_type_and_payload() {
    let mut table = GlobalItemTracker::default();
    let page = item(ItemType::Global(GlobalType::UsagePage), SizedPayload::from(0x09u8));
    let size = item(ItemType::Global(GlobalType::ReportSize), SizedPayload::from(12u8));
    let count = item(ItemType::Global(GlobalType::ReportCount), SizedPayload::from(300u16));
    let id = item(ItemType::Global(GlobalType::ReportID), SizedPayload::from(17u8));
    let least = item(ItemType::Global(GlobalType::LogicalMinimum), SizedPayload::from(-2047i32));
    let greatest = item(ItemType::Global(GlobalType::LogicalMaximum), SizedPayload::from(2047i32));
    assert!(table.set_usage_page(&page).is_ok());
    assert!(table.set_report_size(&size).is_ok());
    assert!(table.set_report_count(&count).is_ok());
    assert!(table.set_report_id(&id).is_ok());
    assert!(table.set_logical_minimum(&least).is_ok());
    assert!(table.set_logical_maximum(&greatest).is_ok());
    assert_eq!(
        table,
        GlobalItemTracker {
            usage_page: Some(UsagePage::Button),
            report_size: Some(12),
            report_id: Some(17),
            report_count: Some(300),
            logical_minimum: Some(-2047),
            logical_maximum: Some(2047),
        }
    );
    assert_eq!(table.usage_page(), Some(&UsagePage::Button));
    assert_eq!(table.report_size(), Some(12));
    assert_eq!(table.report_count(), Some(300));
    assert_eq!(table.report_id(), Some(17));

    // the wrong type of item
    let before = table;
    assert_eq!(table.set_usage_page(&size).err(), Some(InputError::InvalidItemType));
    assert_eq!(table.set_report_size(&count).err(), Some(InputError::InvalidItemType));
    assert_eq!(table.set_report_count(&size).err(), Some(InputError::InvalidItemType));
    assert_eq!(table.set_report_id(&page).err(), Some(InputError::InvalidItemType));
    assert_eq!(table.set_logical_minimum(&greatest).err(), Some(InputError::InvalidItemType));
    assert_eq!(table.set_logical_maximum(&least).err(), Some(InputError::InvalidItemType));
    // a payload that does not fit
    let wide_page = item(ItemType::Global(GlobalType::UsagePage), SizedPayload::Four([1, 0, 0, 0]));
    let wide_id = item(ItemType::Global(GlobalType::ReportID), SizedPayload::Two([1, 0]));
    assert_eq!(table.set_usage_page(&wide_page).err(), Some(InputError::InvalidPayload));
    assert_eq!(table.set_report_id(&wide_id).err(), Some(InputError::InvalidPayload));
    assert_eq!(table, before);
}

#[test]
fn local_setters_check_type_and_payload() {
    let usage = item(ItemType::Local(LocalType::Usage), SizedPayload::from(0x30u8));
    let first = item(ItemType::Local(LocalType::UsageMinimum), SizedPayload::from(0xe0u8));
    let last = item(ItemType::Local(LocalType::UsageMaximum), SizedPayload::from(0xe7u8));
    let wide = item(ItemType::Local(LocalType::UsageMinimum), SizedPayload::Four([1, 0, 0, 0]));
    let mut table = LocalItemTracker::default();
    assert!(table.add_usage(&usage).is_ok());
    assert!(table.add_usage(&usage).is_ok());
    assert!(table.set_usage_minimum(&first).is_ok());
    assert!(table.set_usage_maximum(&last).is_ok());
    assert_eq!(table.usage.len(), 2);
    assert_eq!(table.usage_minimum, Some(0xe0));
    assert_eq!(table.usage_maximum, Some(0xe7));
    assert_eq!(table.add_usage(&first).err(), Some(InputError::InvalidItemType));
    assert_eq!(table.set_usage_minimum(&last).err(), Some(InputError::InvalidItemType));
    assert_eq!(table.set_usage_maximum(&first).err(), Some(InputError::InvalidItemType));
    assert_eq!(table.set_usage_minimum(&wide).err(), Some(InputError::InvalidPayload));
    assert_eq!(table.usage.len(), 2);
    assert_eq!(table.usage_minimum, Some(0xe0));
}

fn globals(page: UsagePage, size: u32, count: u32) -> GlobalItemTracker {
    GlobalItemTracker {
        usage_page: Some(page),
        report_size: Some(size),
        report_count: Some(count),
        ..GlobalItemTracker::default()
    }
}

#[test]
fn fields_are_laid_out_one_behind_the_other() {
    let input_item = item(ItemType::Main(MainType::Input), SizedPayload::from(0x00u8));
    let input = Input {
        input_item: &input_item,
        global_items: globals(UsagePage::Keyboard, 12, 5),
        local_items: LocalItemTracker::default(),
    };
    assert_eq!(input.report_id(), None);
    let fields = expected_fields(input, 8).unwrap();
    assert_eq!(fields.len(), 5);
    let mut total = 0;
    for (i, field) in fields.iter().enumerate() {
        assert_eq!(field.size(), 12);
        assert_eq!(field.index(), 8 + 12 * i);
        total += field.size();
        assert_eq!(
            field,
            &ExpectedField::ArrayItem(ExpectedFieldItem {
                usage_page: UsagePage::Keyboard,
                usage: Usage::Undefined,
                index_in_raw: 8 + 12 * i,
                size_bits: 12,
                options: DataFieldOptions::default(),
            })
        );
    }
    assert_eq!(total, 5 * 12);
}

#[test]
fn usages_come_from_the_range_or_from_the_list() {
    let x = item(ItemType::Local(LocalType::Usage), SizedPayload::from(0x30u8));
    let y = item(ItemType::Local(LocalType::Usage), SizedPayload::from(0x31u8));
    let variable = item(ItemType::Main(MainType::Input), SizedPayload::from(0x02u8));
    let constant = item(ItemType::Main(MainType::Input), SizedPayload::from(0x03u8));
    let array = item(ItemType::Main(MainType::Input), SizedPayload::from(0x00u8));
    let usages = |fields: Vec<ExpectedField>| -> Vec<Usage> {
        fields
            .iter()
            .map(|field| match field {
                ExpectedField::Constant(item) => item.usage,
                ExpectedField::Variable(item) => item.usage,
                ExpectedField::ArrayItem(item) => item.usage,
                ExpectedField::ReportId(_) => Usage::Undefined,
            })
            .collect()
    };
    let listed = || LocalItemTracker { usage: vec![&x, &y], usage_minimum: None, usage_maximum: None };
    let ranged =
        || LocalItemTracker { usage: vec![&x, &y], usage_minimum: Some(3), usage_maximum: Some(4) };
    // a variable with a range takes the range, also past its end
    let input = Input {
        input_item: &variable,
        global_items: globals(UsagePage::Button, 1, 3),
        local_items: ranged(),
    };
    assert_eq!(
        usages(expected_fields(input, 0).unwrap()),
        vec![Usage::Button(3), Usage::Button(4), Usage::Button(5)]
    );
    // a variable without a range takes the listed usages, then none
    let input = Input {
        input_item: &variable,
        global_items: globals(UsagePage::Button, 1, 3),
        local_items: listed(),
    };
    assert_eq!(
        usages(expected_fields(input, 0).unwrap()),
        vec![Usage::Button(0x30), Usage::Button(0x31), Usage::Undefined]
    );
    // a constant takes the listed usages even if a range is set
    let input = Input {
        input_item: &constant,
        global_items: globals(UsagePage::Button, 1, 2),
        local_items: ranged(),
    };
    let fields = expected_fields(input, 0).unwrap();
    assert!(matches!(fields[0], ExpectedField::Constant(_)));
    assert_eq!(usages(fields), vec![Usage::Button(0x30), Usage::Button(0x31)]);
    // an array that holds data has no usage of its own
    let input = Input {
        input_item: &array,
        global_items: globals(UsagePage::Button, 1, 2),
        local_items: ranged(),
    };
    let fields = expected_fields(input, 0).unwrap();
    assert!(matches!(fields[0], ExpectedField::ArrayItem(_)));
    assert_eq!(usages(fields), vec![Usage::Undefined, Usage::Undefined]);
    // without a usage page the page is undefined, and so are its usages
    let input = Input {
        input_item: &variable,
        global_items: GlobalItemTracker {
            report_size: Some(1),
            report_count: Some(1),
            ..GlobalItemTracker::default()
        },
        local_items: listed(),
    };
    assert_eq!(
        expected_fields(input, 0),
        Ok(vec![ExpectedField::Variable(ExpectedFieldItem {
            usage_page: UsagePage::Undefined,
            usage: Usage::Undefined,
            index_in_raw: 0,
            size_bits: 1,
            options: DataFieldOptions::from((
                Mutability::Data,
                Structure::Variable,
                Value::Absolute
            )),
        })])
    );
}

#[test]
fn fields_need_options_size_and_count() {
    let bare = item(ItemType::Main(MainType::Input), SizedPayload::Empty);
    let variable = item(ItemType::Main(MainType::Input), SizedPayload::from(0x02u8));
    let input = |input_item, global_items| Input {
        input_item,
        global_items,
        local_items: LocalItemTracker::default(),
    };
    assert_eq!(
        expected_fields(input(&bare, GlobalItemTracker::default()), 0),
        Err(InputError::InvalidPayload)
    );
    assert_eq!(
        expected_fields(input(&variable, GlobalItemTracker::default()), 0),
        Err(InputError::GlobalItemNotSet(GlobalType::ReportSize))
    );
    assert_eq!(
        expected_fields(
            input(
                &variable,
                GlobalItemTracker { report_size: Some(1), ..GlobalItemTracker::default() }
            ),
            0
        ),
        Err(InputError::GlobalItemNotSet(GlobalType::ReportCount))
    );
    // no fields at all
    assert_eq!(expected_fields(input(&variable, globals(UsagePage::Button, 8, 0)), 0), Ok(vec![]));
    // the offset of the last field does not fit
    assert_eq!(
        expected_fields(input(&variable, globals(UsagePage::Button, 8, 2)), usize::MAX - 7),
        Err(InputError::ReportTooLarge)
    );
    assert!(expected_fields(input(&variable, globals(UsagePage::Button, 8, 2)), usize::MAX - 8)
        .is_ok());
    // the range of usages leaves 16 bits
    let ranged = Input {
        input_item: &variable,
        global_items: globals(UsagePage::Button, 1, 3),
        local_items: LocalItemTracker {
            usage: vec![],
            usage_minimum: Some(0xfffe),
            usage_maximum: Some(0xffff),
        },
    };
    assert_eq!(expected_fields(ranged, 0), Err(InputError::UsageOutOfRange));
}
