use hid_tools::report_descriptor::Collection;

#[test]
fn hid_collection_from_u8_reserved() {
    assert_eq!(Collection::from(0x08), Collection::Reserved(8));
}

#[test]
fn hid_collection_from_u8_vendor_defined() {
    assert_eq!(Collection::from(0xF0), Collection::VendorDefined(0xF0))
}

#[test]
fn mod_collection_from_u8_reserved() {
    assert_eq!(Collection::from(0x08), Collection::Reserved(8));
}

#[test]
fn mod_collection_from_u8_vendor_defined() {
    assert_eq!(Collection::from(0xF0), Collection::VendorDefined(0xF0))
}

#[test]
fn collection_numbers_round_trip() {
    for value in 0u8..=255 {
        assert_eq!(u8::from(Collection::from(value)), value);
    }
    assert_eq!(Collection::from(0x01), Collection::Application);
    assert_eq!(Collection::from(0x06), Collection::UsageModifier);
    assert_eq!(Collection::from(0x07), Collection::Reserved(0x07));
    assert_eq!(Collection::from(0x7f), Collection::Reserved(0x7f));
    assert_eq!(Collection::from(0x80), Collection::VendorDefined(0x80));
}
