use vapor_telemetry::telemetry::udp::wire::{
    byte, le_i16, le_i32, le_u16, le_u32, put_le_i16, put_le_i32, put_le_u16, put_le_u32,
};
use vapor_telemetry::telemetry::udp::{read_string, write_string, ParseError};

#[test]
fn empty_string_round_trips() {
    let bytes = write_string("");
    assert_eq!(bytes, vec![0, 0]);
    let (rest, text) = read_string(&bytes).unwrap();
    assert_eq!(text, "");
    assert!(rest.is_empty());
}

#[test]
fn string_of_several_bytes_a_character_round_trips() {
    let sample_text = "Spa-Francorchamps \u{00e9}\u{00e8} \u{65e5}\u{672c} \u{1f3ce}";
    let bytes = write_string(sample_text);
    assert_eq!(bytes.len(), 2 + sample_text.len());
    assert_eq!(u16::from_le_bytes([bytes[0], bytes[1]]) as usize, sample_text.len());
    assert!(sample_text.len() > sample_text.chars().count());
    let (rest, text) = read_string(&bytes).unwrap();
    assert_eq!(text, sample_text);
    assert!(rest.is_empty());
}

#[test]
fn string_count_counts_bytes() {
    assert_eq!(write_string("\u{00e9}"), vec![2, 0, 0xc3, 0xa9]);
}

#[test]
fn string_leaves_what_stands_behind_it() {
    let input = [3, 0, b'a', b'b', b'c', 7, 8];
    let (rest, text) = read_string(&input).unwrap();
    assert_eq!(text, "abc");
    assert_eq!(rest, &[7u8, 8][..]);
}

#[test]
fn string_cut_in_its_count_is_incomplete_and_in_its_text_an_error() {
    assert_eq!(read_string(&[]).unwrap_err(), ParseError::Incomplete);
    assert_eq!(read_string(&[3]).unwrap_err(), ParseError::Incomplete);
    assert_eq!(read_string(&[3, 0]).unwrap_err(), ParseError::Error);
    assert_eq!(read_string(&[3, 0, b'a', b'b']).unwrap_err(), ParseError::Error);
}

#[test]
fn string_that_is_not_utf8_is_a_failure() {
    assert_eq!(read_string(&[2, 0, 0xc3, 0x28]).unwrap_err(), ParseError::Failure);
    assert_eq!(read_string(&[1, 0, 0xff, 0, 0]).unwrap_err(), ParseError::Failure);
}

#[test]
fn string_of_more_than_a_count_can_say_wraps_its_count() {
    let long = "x".repeat(65_536 + 5);
    let bytes = write_string(&long);
    assert_eq!(&bytes[0..2], &[5u8, 0][..]);
    assert_eq!(bytes.len(), 2 + 65_536 + 5);
}

#[test]
fn integers_are_little_endian() {
    assert_eq!(le_u16(&[0x34, 0x12]).unwrap().1, 0x1234);
    assert_eq!(le_i16(&[0xfe, 0xff]).unwrap().1, -2);
    assert_eq!(le_i16(&[0x00, 0x80]).unwrap().1, i16::MIN);
    assert_eq!(le_u32(&[0x78, 0x56, 0x34, 0x12]).unwrap().1, 0x1234_5678);
    assert_eq!(le_i32(&[0xff, 0xff, 0xff, 0x7f]).unwrap().1, i32::MAX);
    assert_eq!(le_i32(&[0x00, 0x00, 0x00, 0x80]).unwrap().1, i32::MIN);
    assert_eq!(le_i32(&[0xff, 0xff, 0xff, 0xff]).unwrap().1, -1);
    assert_eq!(byte(&[9, 1]).unwrap(), (&[1u8][..], 9));
}

#[test]
fn integers_written_are_what_std_writes() {
    for value in [0i32, 1, -1, 255, 256, 65_535, 65_536, i32::MAX, i32::MIN, -123_456_789] {
        let mut out = Vec::new();
        put_le_i32(&mut out, value);
        assert_eq!(out, value.to_le_bytes().to_vec());
        assert_eq!(le_i32(&out).unwrap().1, value);
    }
    for value in [0u32, 1, 0x8000_0000, u32::MAX, 0x0102_0304] {
        let mut out = vec![42];
        put_le_u32(&mut out, value);
        assert_eq!(&out[1..], &value.to_le_bytes()[..]);
        assert_eq!(out[0], 42);
    }
    for value in [0i16, 1, -1, i16::MAX, i16::MIN, 0x0102] {
        let mut out = Vec::new();
        put_le_i16(&mut out, value);
        assert_eq!(out, value.to_le_bytes().to_vec());
    }
    for value in [0u16, 1, 255, 256, u16::MAX] {
        let mut out = Vec::new();
        put_le_u16(&mut out, value);
        assert_eq!(out, value.to_le_bytes().to_vec());
    }
}

#[test]
fn short_buffer_is_incomplete() {
    assert_eq!(le_i32(&[1, 2, 3]).unwrap_err(), ParseError::Incomplete);
    assert_eq!(le_u32(&[]).unwrap_err(), ParseError::Incomplete);
    assert_eq!(le_u16(&[1]).unwrap_err(), ParseError::Incomplete);
    assert_eq!(le_i16(&[1]).unwrap_err(), ParseError::Incomplete);
    assert_eq!(byte(&[]).unwrap_err(), ParseError::Incomplete);
}
