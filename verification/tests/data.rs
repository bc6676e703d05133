use hid_tools::report_descriptor::data::{PrefixByte, Size, SizedPayload};
use hid_tools::report_descriptor::{GlobalType, ItemType, LocalType, MainType};

#[test]
fn usage_page_size_1() {
    let result = PrefixByte::from((&ItemType::Global(GlobalType::UsagePage), &Size::One));
    assert_eq!(result, PrefixByte(0b00000101));
}

#[test]
fn usage_page_size_2() {
    let result = PrefixByte::from((&ItemType::Global(GlobalType::UsagePage), &Size::Two));
    assert_eq!(result, PrefixByte(0b00000110));
}

#[test]
fn prefix_of_four_bytes_has_size_bits_three() {
    let kinds = [
        ItemType::Main(MainType::Input),
        ItemType::Global(GlobalType::LogicalMaximum),
        ItemType::Local(LocalType::Usage),
    ];
    for kind in kinds.iter() {
        let prefix = PrefixByte::from((kind, &Size::Four)).u8();
        assert_eq!(prefix & 0b11, 0b11);
        assert_eq!(Size::from_prefix(prefix), Size::Four);
        assert_eq!(Size::from_prefix(prefix).to_usize(), 4);
    }
}

#[test]
fn push_and_pop_have_prefixes_of_their_own() {
    let push = PrefixByte::from((&ItemType::Global(GlobalType::Push), &Size::Empty));
    let pop = PrefixByte::from((&ItemType::Global(GlobalType::Pop), &Size::Empty));
    assert_eq!(push, PrefixByte(0b1010_0100));
    assert_eq!(pop, PrefixByte(0b1011_0100));
}

#[test]
fn prefix_into_vec_append_puts_prefix_first() {
    let raw = PrefixByte(0x26).into_vec_append(vec![0xff, 0x00]);
    assert_eq!(raw, vec![0x26, 0xff, 0x00]);
}

#[test]
fn unsigned_payload_picks_smallest_size() {
    assert_eq!(SizedPayload::from(0u32), SizedPayload::One([0]));
    assert_eq!(SizedPayload::from(255u32), SizedPayload::One([0xff]));
    assert_eq!(SizedPayload::from(256u32), SizedPayload::Two([0x00, 0x01]));
    assert_eq!(SizedPayload::from(65535u32), SizedPayload::Two([0xff, 0xff]));
    assert_eq!(SizedPayload::from(65536u32), SizedPayload::Four([0x00, 0x00, 0x01, 0x00]));
    assert_eq!(SizedPayload::from(0x1234_5678u32), SizedPayload::Four([0x78, 0x56, 0x34, 0x12]));
    assert_eq!(SizedPayload::from(255u16), SizedPayload::One([0xff]));
    assert_eq!(SizedPayload::from(0xf1d0u16), SizedPayload::Two([0xd0, 0xf1]));
    assert_eq!(SizedPayload::from(7u8), SizedPayload::One([7]));
}

#[test]
fn signed_payload_picks_smallest_size() {
    assert_eq!(SizedPayload::from(-1i32), SizedPayload::One([0xff]));
    assert_eq!(SizedPayload::from(127i32), SizedPayload::One([0x7f]));
    assert_eq!(SizedPayload::from(-128i32), SizedPayload::One([0x80]));
    assert_eq!(SizedPayload::from(128i32), SizedPayload::Two([0x80, 0x00]));
    assert_eq!(SizedPayload::from(-129i32), SizedPayload::Two([0x7f, 0xff]));
    assert_eq!(SizedPayload::from(-2047i32), SizedPayload::Two([0x01, 0xf8]));
    assert_eq!(SizedPayload::from(32767i32), SizedPayload::Two([0xff, 0x7f]));
    assert_eq!(SizedPayload::from(-32768i32), SizedPayload::Two([0x00, 0x80]));
    assert_eq!(SizedPayload::from(32768i32), SizedPayload::Four([0x00, 0x80, 0x00, 0x00]));
    assert_eq!(SizedPayload::from(-32769i32), SizedPayload::Four([0xff, 0x7f, 0xff, 0xff]));
    assert_eq!(SizedPayload::from(i32::MIN), SizedPayload::Four([0x00, 0x00, 0x00, 0x80]));
    assert_eq!(SizedPayload::from(i32::MAX), SizedPayload::Four([0xff, 0xff, 0xff, 0x7f]));
    assert_eq!(SizedPayload::from(-2i16), SizedPayload::One([0xfe]));
    assert_eq!(SizedPayload::from(-300i16), SizedPayload::Two([0xd4, 0xfe]));
    assert_eq!(SizedPayload::from(-5i8), SizedPayload::One([0xfb]));
}

#[test]
fn payload_round_trips_through_numbers() {
    for value in [0u32, 1, 255, 256, 65535, 65536, 0x1234_5678, u32::MAX] {
        assert_eq!(u32::from(SizedPayload::from(value)), value);
    }
    for value in [0i32, -1, 127, -128, 128, -129, 32767, -32768, 32768, -32769, i32::MIN, i32::MAX]
    {
        assert_eq!(i32::from(SizedPayload::from(value)), value);
    }
}

#[test]
fn payload_extraction_checks_the_size() {
    assert_eq!(u8::try_from(SizedPayload::One([9])), Ok(9));
    assert_eq!(u8::try_from(SizedPayload::Empty), Err(()));
    assert_eq!(u8::try_from(SizedPayload::Two([9, 0])), Err(()));
    assert_eq!(u8::try_from(SizedPayload::Four([9, 0, 0, 0])), Err(()));
    assert_eq!(u16::try_from(SizedPayload::One([9])), Ok(9));
    assert_eq!(u16::try_from(SizedPayload::Two([0x10, 0x02])), Ok(528));
    assert_eq!(u16::try_from(SizedPayload::Empty), Err(()));
    assert_eq!(u16::try_from(SizedPayload::Four([9, 0, 0, 0])), Err(()));
    assert_eq!(u32::from(SizedPayload::Empty), 0);
    assert_eq!(i32::from(SizedPayload::Empty), 0);
    assert_eq!(u32::from(SizedPayload::One([0xff])), 255);
    assert_eq!(i32::from(SizedPayload::One([0xff])), -1);
    assert_eq!(u32::from(SizedPayload::Two([0x01, 0xf8])), 0xf801);
    assert_eq!(i32::from(SizedPayload::Two([0x01, 0xf8])), -2047);
    assert_eq!(u32::from(SizedPayload::Four([0xf0, 0x20, 0x10, 0x01])), 17834224);
    assert_eq!(i32::from(SizedPayload::Four([0xff, 0xff, 0xff, 0xff])), -1);
}

#[test]
fn payload_from_bytes_takes_zero_one_two_or_four() {
    let bytes: Vec<u8> = vec![1, 2, 3, 4, 5];
    assert_eq!(SizedPayload::try_from(&bytes[..0]), Ok(SizedPayload::Empty));
    assert_eq!(SizedPayload::try_from(&bytes[..1]), Ok(SizedPayload::One([1])));
    assert_eq!(SizedPayload::try_from(&bytes[..2]), Ok(SizedPayload::Two([1, 2])));
    assert_eq!(SizedPayload::try_from(&bytes[..3]), Err(()));
    assert_eq!(SizedPayload::try_from(&bytes[..4]), Ok(SizedPayload::Four([1, 2, 3, 4])));
    assert_eq!(SizedPayload::try_from(&bytes[..5]), Err(()));
    assert_eq!(Size::try_from(&bytes[..0]), Ok(Size::Empty));
    assert_eq!(Size::try_from(&bytes[..3]), Err(()));
    assert_eq!(Size::try_from(&bytes[..4]), Ok(Size::Four));
    assert_eq!(SizedPayload::from([0u8; 0]), SizedPayload::Empty);
    assert_eq!(SizedPayload::default(), SizedPayload::Empty);
}

#[test]
fn payload_accessors() {
    let payload = SizedPayload::Two([0x34, 0x12]);
    assert_eq!(payload.size(), Size::Two);
    assert_eq!(payload.data(), Some(&[0x34u8, 0x12][..]));
    assert!(!payload.is_empty());
    assert_eq!(payload.to_vec(), vec![0x34, 0x12]);
    assert!(SizedPayload::Empty.is_empty());
    assert_eq!(SizedPayload::Empty.data(), None);
    assert_eq!(SizedPayload::Empty.to_vec(), Vec::<u8>::new());
    assert_eq!(Size::from(&SizedPayload::Four([0; 4])), Size::Four);
}

#[test]
fn sizes_compare_with_byte_counts() {
    assert!(Size::Empty == 0usize);
    assert!(Size::One == 1usize);
    assert!(Size::Two == 2usize);
    assert!(Size::Four == 4usize);
    assert!(Size::Four != 3usize);
    assert!(4usize == Size::Four);
    assert!(3usize != Size::Four);
    assert!(0usize == Size::Empty);
    assert_eq!(Size::from(&[0u8; 0]), Size::Empty);
    assert_eq!(Size::from(&[0u8; 1]), Size::One);
    assert_eq!(Size::from(&[0u8; 2]), Size::Two);
    assert_eq!(Size::from(&[0u8; 4]), Size::Four);
}
