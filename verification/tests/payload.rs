use hid_tools::payload::Payload;
use hid_tools::usage_table::keyboard::KeyboardUsage;
use hid_tools::usage_table::{Usage, UsagePage};

#[test]
fn u16_empty_payload() {
    let data = Vec::new();
    let p = Payload::new(&data);

    assert_eq!(u16::try_from(p), Ok(0));
}

#[test]
fn u16_one_payload_byte() {
    let data = vec![0x05];
    let p = Payload::new(&data);

    assert_eq!(u16::try_from(p), Ok(5))
}

#[test]
fn u16_two_payload_bytes() {
    let data = vec![0x10, 0x02];
    let p = Payload::new(&data);

    assert_eq!(u16::try_from(p), Ok(528));
}

#[test]
fn u16_too_many_bytes() {
    let data = vec![0xf0, 0x20, 0x10];
    let p = Payload::new(&data);
    assert!(u16::try_from(p).is_err());
}

#[test]
fn u32_some_bytes() {
    let data = vec![0xf0, 0x20, 0x10, 0x01];
    let p = Payload::new(&data);
    assert_eq!(u32::try_from(p), Ok(17834224));
}

#[test]
fn u32_of_three_bytes_is_an_error() {
    let data = vec![0xf0, 0x20, 0x10];
    assert_eq!(u32::try_from(Payload::new(&data)), Err(()));
    let data = vec![1, 2, 3, 4, 5];
    assert_eq!(u32::try_from(Payload::new(&data)), Err(()));
    assert_eq!(Payload::new(&data).data(), &[1, 2, 3, 4, 5]);
}

#[test]
fn usage_page_and_usage_of_payload() {
    let data = vec![0xd0, 0xf1];
    assert_eq!(UsagePage::try_from(Payload::new(&data)), Ok(UsagePage::FIDOAlliance));
    let data = vec![0x04];
    assert_eq!(
        Usage::try_from((&UsagePage::Keyboard, Payload::new(&data))),
        Ok(Usage::Keyboard(KeyboardUsage::KeyboardaandA))
    );
    let data = vec![0, 0, 0, 0];
    assert_eq!(
        UsagePage::try_from(Payload::new(&data)),
        Err("Payload can not be converted to u16".to_string())
    );
    assert_eq!(
        Usage::try_from((&UsagePage::Keyboard, Payload::new(&data))),
        Err("Could not convert payload to u16 integer".to_string())
    );
}
