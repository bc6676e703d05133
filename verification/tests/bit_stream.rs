use hid_tools::report_descriptor::parse::{bit, descriptor_item, skip_bits};
use nom::bits::complete::take as take_bits;
use nom::bytes::complete::take;
use nom::error::Error as NomError;
use nom::IResult;

fn nom_bit(input: (&[u8], usize)) -> IResult<(&[u8], usize), u8, NomError<(&[u8], usize)>> {
    take_bits(1usize)(input)
}

fn nom_skip(
    input: (&[u8], usize),
    count: usize,
) -> IResult<(&[u8], usize), u32, NomError<(&[u8], usize)>> {
    take_bits(count)(input)
}

fn nom_take(input: &[u8], count: usize) -> IResult<&[u8], &[u8], NomError<&[u8]>> {
    take(count)(input)
}

#[test]
fn one_bit_is_read_as_nom_reads_it() {
    let bytes: Vec<u8> = vec![0b1010_0101, 0b0011_1100, 0xff, 0x00];
    for start in 0..=bytes.len() {
        for offset in 0..8 {
            let input = (&bytes[start..], offset);
            match (bit(input), nom_bit(input)) {
                (Ok((rest, value)), Ok((nom_rest, nom_value))) => {
                    assert_eq!(rest, nom_rest);
                    assert_eq!(value, nom_value == 1);
                }
                (Err(_), Err(_)) => {}
                other => panic!("different results at {} {}: {:?}", start, offset, other),
            }
        }
    }
}

#[test]
fn bits_are_skipped_as_nom_takes_them() {
    let bytes: Vec<u8> = vec![0b1010_0101, 0b0011_1100, 0xff, 0x00];
    for start in 0..=bytes.len() {
        for offset in 0..8 {
            for count in 0..=32u8 {
                let input = (&bytes[start..], offset);
                match (skip_bits(input, count), nom_skip(input, count as usize)) {
                    (Ok(rest), Ok((nom_rest, _))) => assert_eq!(rest, nom_rest),
                    (Err(_), Err(_)) => {}
                    other => panic!(
                        "different results at {} {} {}: {:?}",
                        start, offset, count, other
                    ),
                }
            }
        }
    }
}

#[test]
fn items_take_their_bytes_as_nom_takes_them() {
    let bytes: Vec<u8> = vec![0x27, 0x70, 0x11, 0x01, 0x00, 0x06, 0xd0, 0xf1, 0x05, 0x01, 0xc0];
    let mut rest: &[u8] = &bytes;
    let mut sizes = Vec::new();
    while !rest.is_empty() {
        let (behind, item) = descriptor_item(rest).unwrap();
        let (nom_behind, raw) = nom_take(rest, item.raw.len()).unwrap();
        assert_eq!(behind, nom_behind);
        assert_eq!(item.raw, raw);
        sizes.push(item.raw.len());
        rest = behind;
    }
    assert_eq!(sizes, vec![5, 3, 2, 1]);
    assert!(nom_take(&bytes[5..7], 3).is_err());
    assert!(descriptor_item(&bytes[5..7]).is_err());
}
