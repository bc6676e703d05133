use hid_tools::usage_table::consumer::ConsumerUsage;
use hid_tools::usage_table::fido::FIDOAllianceUsage;
use hid_tools::usage_table::generic_desktop::GenericDesktopControlsUsage;
use hid_tools::usage_table::keyboard::KeyboardUsage;
use hid_tools::usage_table::{Usage, UsageId, UsagePage};

#[test]
fn every_id_round_trips_through_its_table() {
    for id in 0u16..=u16::MAX {
        assert_eq!(u16::from(UsagePage::from(id)), id);
        assert_eq!(u16::from(KeyboardUsage::from(id)), id);
        assert_eq!(u16::from(ConsumerUsage::from(id)), id);
        assert_eq!(u16::from(GenericDesktopControlsUsage::from(id)), id);
        assert_eq!(u16::from(FIDOAllianceUsage::from(id)), id);
    }
}

#[test]
fn usage_ids_round_trip_on_every_page_but_the_undefined_one() {
    for page_id in [1u16, 2, 7, 8, 9, 0x0c, 0x11, 0x92, 0xf1d0, 0xff00, 0xffff] {
        let page = UsagePage::from(page_id);
        for id in [0u16, 1, 4, 0x20, 0x30, 0xe7, 0x238, 0xffff] {
            assert_eq!(u16::from(Usage::from((&page, id))), id);
            assert_eq!(Usage::from((&page, id)).usage_id(), id);
        }
    }
    assert_eq!(Usage::from((&UsagePage::Undefined, 5)), Usage::Undefined);
    assert_eq!(u16::from(Usage::Undefined), 0);
}

#[test]
fn usage_pages_are_named_reserved_or_vendor_defined() {
    assert_eq!(UsagePage::from(0x00), UsagePage::Undefined);
    assert_eq!(UsagePage::from(0x01), UsagePage::GenericDesktopControls);
    assert_eq!(UsagePage::from(0x07), UsagePage::Keyboard);
    assert_eq!(UsagePage::from(0x0c), UsagePage::Consumer);
    assert_eq!(UsagePage::from(0x11), UsagePage::Reserved(0x11));
    assert_eq!(UsagePage::from(0x13), UsagePage::Reserved(0x13));
    assert_eq!(UsagePage::from(0x92), UsagePage::GamingDevice);
    assert_eq!(UsagePage::from(0x93), UsagePage::Reserved(0x93));
    assert_eq!(UsagePage::from(0xf1cf), UsagePage::Reserved(0xf1cf));
    assert_eq!(UsagePage::from(0xf1d0), UsagePage::FIDOAlliance);
    assert_eq!(UsagePage::from(0xf1d1), UsagePage::Reserved(0xf1d1));
    assert_eq!(UsagePage::from(0xfeff), UsagePage::Reserved(0xfeff));
    assert_eq!(UsagePage::from(0xff00), UsagePage::VendorDefined(0xff00));
    assert_eq!(UsagePage::from(0xff43), UsagePage::VendorDefined(0xff43));
    assert_eq!(UsagePage::default(), UsagePage::Undefined);
    assert_eq!(Usage::default(), Usage::Undefined);
}

#[test]
fn usages_are_looked_up_on_their_page() {
    assert_eq!(
        Usage::from((&UsagePage::GenericDesktopControls, 0x30)),
        Usage::GenericDesktopControls(GenericDesktopControlsUsage::X)
    );
    assert_eq!(
        Usage::from((&UsagePage::GenericDesktopControls, 0x02)),
        Usage::GenericDesktopControls(GenericDesktopControlsUsage::Mouse)
    );
    assert_eq!(
        Usage::from((&UsagePage::GenericDesktopControls, 0x03)),
        Usage::GenericDesktopControls(GenericDesktopControlsUsage::Reserved(3))
    );
    assert_eq!(
        Usage::from((&UsagePage::Keyboard, 0xe1)),
        Usage::Keyboard(KeyboardUsage::KeyboardLeftShift)
    );
    assert_eq!(
        Usage::from((&UsagePage::FIDOAlliance, 0x20)),
        Usage::FIDOAlliance(FIDOAllianceUsage::InputReportData)
    );
    assert_eq!(Usage::from((&UsagePage::Button, 7)), Usage::Button(7));
    assert_eq!(
        Usage::from((&UsagePage::Consumer, 0xe9)),
        Usage::Consumer(ConsumerUsage::VolumeIncrement)
    );
    assert_eq!(Usage::from((&UsagePage::VendorDefined(0xff43), 2)), Usage::VendorDefined(2));
    assert_eq!(Usage::from((&UsagePage::Reserved(0x11), 2)), Usage::VendorDefined(2));
    assert_eq!(KeyboardUsage::KeyboardaandA.usage_id(), 4);
    assert_eq!(GenericDesktopControlsUsage::Wheel.usage_id(), 0x38);
    assert_eq!(GenericDesktopControlsUsage::Keyboard.usage_id(), 0x06);
    assert_eq!(GenericDesktopControlsUsage::Pointer.usage_id(), 0x01);
    assert_eq!(GenericDesktopControlsUsage::CallMuteLED.usage_id(), 0xe2);
    assert_eq!(FIDOAllianceUsage::U2FAuthenticatorDevice.usage_id(), 1);
    assert_eq!(ConsumerUsage::ConsumerControl.usage_id(), 1);
    assert_eq!(ConsumerUsage::from(0xe9), ConsumerUsage::VolumeIncrement);
    assert_eq!(ConsumerUsage::from(0x238), ConsumerUsage::ACPan);
    assert_eq!(KeyboardUsage::from(0x00), KeyboardUsage::Reserved(0));
    assert_eq!(KeyboardUsage::from(0xa4), KeyboardUsage::KeyboardExSel);
}
