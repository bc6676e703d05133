use hid_tools::report::expected::{ExpectedField, ExpectedFieldItem};
use hid_tools::report::parsed::{ArrayValueItem, VarItem};
use hid_tools::usage_table::generic_desktop::GenericDesktopControlsUsage;
use hid_tools::usage_table::keyboard::KeyboardUsage;
use hid_tools::usage_table::{Usage, UsagePage};

#[test]
fn convert_tuple_to_arr_item() {
    let expected_field = ExpectedField::ArrayItem(ExpectedFieldItem {
        usage_page: UsagePage::Keyboard,
        usage: Usage::Undefined,
        index_in_raw: 0,
        size_bits: 1,
        options: Default::default(),
    });

    let result = ArrayValueItem::try_from((&expected_field, 0x12));

    assert_eq!(
        result,
        Ok(ArrayValueItem {
            usage_page: UsagePage::Keyboard,
            usage: Usage::Keyboard(KeyboardUsage::KeyboardoandO), //KeyboardUsage::from(0x12)
            options: Default::default()
        })
    );
}

#[test]
fn convert_tuple_to_var_item() {
    let expected_field = ExpectedField::Variable(ExpectedFieldItem {
        usage_page: UsagePage::GenericDesktopControls,
        usage: Usage::GenericDesktopControls(GenericDesktopControlsUsage::X),
        index_in_raw: 0,
        size_bits: 1,
        options: Default::default(),
    });

    let result = VarItem::try_from((&expected_field, 0x12));

    assert_eq!(
        result,
        Ok(VarItem {
            usage_page: UsagePage::GenericDesktopControls,
            usage: Usage::GenericDesktopControls(GenericDesktopControlsUsage::X),
            value: 0x12,
            options: Default::default()
        })
    );
}
