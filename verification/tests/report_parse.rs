use hid_tools::report::parse::{report_id, val, ParseError};

#[test]
fn parse_report_id() {
    let report: Vec<u8> = vec![42, 0];
    assert_eq!(report_id(&report), Ok(42));
}

#[test]
fn take_4_bits_alt() {
    let report: Vec<u8> = vec![0xf0];
    assert_eq!(val(&report, 0, 4), Ok(0));
}

#[test]
fn take_12_bits_alt() {
    let report: Vec<u8> = vec![0xf0, 0x00];
    assert_eq!(val(&report, 0, 12), Ok(0x0f0));
}

#[test]
fn bits_are_read_from_the_least_significant_bit() {
    let report: Vec<u8> = vec![0xab, 0xcd, 0xef];
    assert_eq!(val(&report, 0, 1), Ok(1));
    assert_eq!(val(&report, 2, 1), Ok(0));
    assert_eq!(val(&report, 0, 4), Ok(0xb));
    assert_eq!(val(&report, 4, 4), Ok(0xa));
    assert_eq!(val(&report, 4, 8), Ok(0xda));
    assert_eq!(val(&report, 4, 16), Ok(0xfcda));
    assert_eq!(val(&report, 0, 24), Ok(0xefcdab));
    assert_eq!(val(&report, 23, 1), Ok(1));
    assert_eq!(val(&report, 8, 0), Ok(0));
    assert_eq!(report_id(&report), Ok(0xab));
    assert_eq!(report_id(&[0xff]), Ok(255));
}

#[test]
fn reading_stops_at_the_end_of_the_report() {
    let report: Vec<u8> = vec![0xab, 0xcd];
    assert_eq!(val(&report, 16, 0), Ok(0));
    assert_eq!(val(&report, 16, 1), Err(ParseError::ReadingBitsFailed(1)));
    assert_eq!(val(&report, 17, 0), Err(ParseError::SkippingBitsFailed(17)));
    assert_eq!(val(&report, 17, 1), Err(ParseError::SkippingBitsFailed(17)));
    assert_eq!(val(&report, 9, 8), Err(ParseError::ReadingBitsFailed(8)));
    assert_eq!(val(&report, 9, 7), Ok(0x66));
    assert_eq!(val(&report, u32::MAX, u32::MAX), Err(ParseError::SkippingBitsFailed(u32::MAX)));
    assert_eq!(val(&[], 0, 0), Ok(0));
    assert_eq!(val(&[], 0, 1), Err(ParseError::ReadingBitsFailed(1)));
    assert_eq!(report_id(&[]), Err(ParseError::ReadingBitsFailed(8)));
}

#[test]
fn at_most_64_bits_are_read() {
    let report: Vec<u8> = vec![0x01, 0, 0, 0, 0, 0, 0, 0x80, 0xff];
    assert_eq!(val(&report, 0, 63), Ok(1));
    assert_eq!(val(&report, 0, 64), Ok(i64::MIN + 1));
    assert_eq!(val(&report, 1, 64), Ok(-0x4000_0000_0000_0000));
    assert_eq!(val(&report, 8, 64), Ok(-0x80_0000_0000_0000));
    assert_eq!(val(&report, 0, 65), Err(ParseError::ReadingBitsFailed(65)));
    assert_eq!(val(&report, 9, 64), Err(ParseError::ReadingBitsFailed(64)));
}

fn bit_at(bytes: &[u8], position: usize) -> u128 {
    ((bytes[position / 8] >> (position % 8)) & 1) as u128
}

fn bits_value(bytes: &[u8], position: usize, count: usize) -> u128 {
    let mut value: u128 = 0;
    for k in 0..count {
        value |= bit_at(bytes, position + k) << k;
    }
    value
}

#[test]
fn every_field_is_the_number_of_its_bits() {
    let report: Vec<u8> = vec![
        0x01, 0x23, 0x45, 0x67, 0x89, 0xab, 0xcd, 0xef, 0xfe, 0xdc, 0xba, 0x98, 0x76, 0x54, 0x32,
        0x10,
    ];
    let bits = 8 * report.len();
    for position in 0..=bits + 9 {
        for count in 0..=66usize {
            let found = val(&report, position as u32, count as u32);
            let expected = if position > bits {
                Err(ParseError::SkippingBitsFailed(position as u32))
            } else if count > 64 || (count > 0 && position + count > bits) {
                Err(ParseError::ReadingBitsFailed(count as u32))
            } else {
                Ok(bits_value(&report, position, count) as u64 as i64)
            };
            assert_eq!(found, expected, "position {} count {}", position, count);
        }
    }
}
