use wasm_decoder::buffer::Buffer;
use wasm_decoder::error::DecodeError;

fn encode_u32(mut value: u32) -> Vec<u8> {
    let mut out = Vec::new();
    loop {
        let group = (value & 0x7f) as u8;
        value >>= 7;
        if value == 0 {
            out.push(group);
            return out;
        }
        out.push(group | 0x80);
    }
}

#[test]
fn test_read_u32() {
    let cases: Vec<(Vec<u8>, u32)> = vec![
        (vec![0b00000000], 0),
        (vec![0b00001000], 8),
        (vec![0b10000000, 0b01111111], 16256),
        (vec![0b11100101, 0b10001110, 0b00100110], 624485),
        (vec![0b10000000, 0b10000000, 0b10000000, 0b01001111], 165675008),
        (vec![0b10001001, 0b10000000, 0b10000000, 0b10000000, 0b00000000], 9),
    ];
    for (input, expected) in cases {
        let mut buffer = Buffer::new(input);
        assert_eq!(buffer.read_u32().unwrap(), expected);
        assert!(buffer.eof());
    }
}

#[test]
fn test_read_i32() {
    let cases: Vec<(Vec<u8>, i32)> = vec![(vec![0x7eu8], -2), (vec![0b10000001, 0b01111111], -127)];
    for (input, expected) in cases {
        let mut buffer = Buffer::new(input);
        assert_eq!(buffer.read_i32().unwrap(), expected);
        assert!(buffer.eof());
    }
}

#[test]
fn read_u32_zero() {
    let mut buffer = Buffer::new(vec![0b00000000]);
    assert_eq!(buffer.read_u32(), Ok(0));
}

#[test]
fn read_u32_three_groups() {
    let mut buffer = Buffer::new(vec![0b11100101, 0b10001110, 0b00100110]);
    assert_eq!(buffer.read_u32(), Ok(624485));
}

#[test]
fn read_u32_padded_with_empty_groups() {
    let mut buffer = Buffer::new(vec![0b10001001, 0b10000000, 0b10000000, 0b10000000, 0b00000000]);
    assert_eq!(buffer.read_u32(), Ok(9));
}

#[test]
fn read_u32_max() {
    let mut buffer = Buffer::new(vec![0xff, 0xff, 0xff, 0xff, 0x0f]);
    assert_eq!(buffer.read_u32(), Ok(u32::MAX));
}

#[test]
fn read_u32_keeps_the_low_32_bits() {
    // the fifth group holds seven bits, of which four fit
    let mut buffer = Buffer::new(vec![0x80, 0x80, 0x80, 0x80, 0x7f]);
    assert_eq!(buffer.read_u32(), Ok(0xf000_0000));
    // groups behind the fifth add nothing
    let mut buffer = Buffer::new(vec![0x81, 0x80, 0x80, 0x80, 0x80, 0xff, 0x7f, 0x2a]);
    assert_eq!(buffer.read_u32(), Ok(1));
    assert_eq!(buffer.read_byte(), Ok(0x2a));
}

#[test]
fn read_u32_round_trip() {
    let mut values: Vec<u32> = vec![0, 1, 127, 128, 255, 256, 16383, 16384, 624485, u32::MAX - 1, u32::MAX];
    let mut v: u32 = 1;
    for _ in 0..32 {
        values.push(v);
        values.push(v.wrapping_sub(1));
        values.push(v.wrapping_mul(3));
        v = v.wrapping_shl(1);
    }
    for value in values {
        let encoded = encode_u32(value);
        let length = encoded.len();
        let mut buffer = Buffer::new(encoded);
        assert_eq!(buffer.read_u32(), Ok(value));
        assert!(buffer.eof());
        assert_eq!(buffer.byte_len() as usize, length);
    }
}

#[test]
fn read_u32_underrun_restores_the_offset() {
    let mut buffer = Buffer::new(vec![0x01, 0x80, 0x80]);
    assert_eq!(buffer.read_byte(), Ok(0x01));
    assert_eq!(buffer.read_u32(), Err(DecodeError::BufferUnderrun));
    assert_eq!(buffer.read_byte(), Ok(0x80));
    assert_eq!(buffer.read_byte(), Ok(0x80));
    assert!(buffer.eof());
}

#[test]
fn read_i32_minus_two() {
    let mut buffer = Buffer::new(vec![0x7e]);
    assert_eq!(buffer.read_i32(), Ok(-2));
}

#[test]
fn read_i32_two_groups() {
    let mut buffer = Buffer::new(vec![0b10000001, 0b01111111]);
    assert_eq!(buffer.read_i32(), Ok(-127));
}

#[test]
fn read_i32_values() {
    let cases: Vec<(Vec<u8>, i32)> = vec![
        (vec![0x00], 0),
        (vec![0x2a], 42),
        (vec![0x3f], 63),
        (vec![0x40], -64),
        (vec![0x7f], -1),
        (vec![0xc0, 0x00], 64),
        (vec![0xff, 0x00], 127),
        (vec![0x80, 0x01], 128),
        (vec![0x80, 0x7f], -128),
        (vec![0xc0, 0xbb, 0x78], -123456),
        (vec![0xff, 0xff, 0xff, 0xff, 0x07], i32::MAX),
        (vec![0x80, 0x80, 0x80, 0x80, 0x78], i32::MIN),
        (vec![0xff, 0xff, 0xff, 0xff, 0x7f], -1),
        (vec![0x80, 0x80, 0x80, 0x80, 0x08], i32::MIN),
    ];
    for (input, expected) in cases {
        let mut buffer = Buffer::new(input);
        assert_eq!(buffer.read_i32(), Ok(expected));
        assert!(buffer.eof());
    }
}

#[test]
fn read_i32_underrun_restores_the_offset() {
    let mut buffer = Buffer::new(vec![0xff, 0xff]);
    assert_eq!(buffer.read_i32(), Err(DecodeError::BufferUnderrun));
    assert_eq!(buffer.read_byte(), Ok(0xff));
}

#[test]
fn new_buffer_starts_at_the_first_byte() {
    let mut buffer = Buffer::new(vec![7, 8, 9]);
    assert_eq!(buffer.byte_len(), 3);
    assert!(!buffer.eof());
    assert_eq!(buffer.read_byte(), Ok(7));
    assert_eq!(buffer.byte_len(), 3);
}

#[test]
fn empty_buffer_is_exhausted() {
    let mut buffer = Buffer::new(Vec::new());
    assert_eq!(buffer.byte_len(), 0);
    assert!(buffer.eof());
    assert_eq!(buffer.read_byte(), Err(DecodeError::BufferUnderrun));
    assert_eq!(buffer.read_u32(), Err(DecodeError::BufferUnderrun));
    assert_eq!(buffer.read_i32(), Err(DecodeError::BufferUnderrun));
    assert_eq!(buffer.read_name(), Err(DecodeError::BufferUnderrun));
    assert_eq!(buffer.read_bytes(1), Err(DecodeError::BufferUnderrun));
    assert!(buffer.read_buffer(1).is_err());
    assert_eq!(buffer.read_vec(|b: &mut Buffer| b.read_byte()), Err(DecodeError::BufferUnderrun));
}

#[test]
fn read_byte_advances_by_one() {
    let mut buffer = Buffer::new(vec![1, 2]);
    assert_eq!(buffer.read_byte(), Ok(1));
    assert!(!buffer.eof());
    assert_eq!(buffer.read_byte(), Ok(2));
    assert!(buffer.eof());
    assert_eq!(buffer.read_byte(), Err(DecodeError::BufferUnderrun));
    assert!(buffer.eof());
}

#[test]
fn read_bytes_copies_and_advances() {
    let mut buffer = Buffer::new(vec![1, 2, 3, 4, 5]);
    assert_eq!(buffer.read_bytes(2), Ok(vec![1, 2]));
    assert_eq!(buffer.read_bytes(3), Ok(vec![3, 4, 5]));
    assert!(buffer.eof());
}

#[test]
fn read_bytes_of_nothing_is_legal() {
    let mut buffer = Buffer::new(vec![1]);
    assert_eq!(buffer.read_bytes(0), Ok(Vec::new()));
    assert_eq!(buffer.read_byte(), Ok(1));
    assert_eq!(buffer.read_bytes(0), Ok(Vec::new()));
    assert!(buffer.eof());
}

#[test]
fn read_bytes_underrun_leaves_the_buffer_alone() {
    let mut buffer = Buffer::new(vec![1, 2, 3]);
    assert_eq!(buffer.read_bytes(4), Err(DecodeError::BufferUnderrun));
    assert_eq!(buffer.read_bytes(u32::MAX), Err(DecodeError::BufferUnderrun));
    assert_eq!(buffer.read_bytes(3), Ok(vec![1, 2, 3]));
}

#[test]
fn read_buffer_scopes_a_region() {
    let mut buffer = Buffer::new(vec![1, 2, 3, 4]);
    let mut sub = buffer.read_buffer(2).unwrap();
    assert_eq!(sub.byte_len(), 2);
    assert_eq!(sub.read_byte(), Ok(1));
    assert_eq!(sub.read_byte(), Ok(2));
    assert!(sub.eof());
    assert_eq!(sub.read_byte(), Err(DecodeError::BufferUnderrun));
    assert_eq!(buffer.read_byte(), Ok(3));
}

#[test]
fn read_buffer_underrun_leaves_the_buffer_alone() {
    let mut buffer = Buffer::new(vec![1, 2]);
    assert!(buffer.read_buffer(3).is_err());
    assert_eq!(buffer.read_bytes(2), Ok(vec![1, 2]));
}

#[test]
fn read_name_decodes_utf8() {
    let mut buffer = Buffer::new(vec![3, b'a', b'd', b'd', 9]);
    assert_eq!(buffer.read_name(), Ok(String::from("add")));
    assert_eq!(buffer.read_byte(), Ok(9));
}

#[test]
fn read_name_of_several_byte_characters() {
    let text = "héllo, wörld ✓";
    let mut bytes = vec![text.len() as u8];
    bytes.extend_from_slice(text.as_bytes());
    let mut buffer = Buffer::new(bytes);
    assert_eq!(buffer.read_name(), Ok(String::from(text)));
    assert!(buffer.eof());
}

#[test]
fn read_name_empty() {
    let mut buffer = Buffer::new(vec![0]);
    assert_eq!(buffer.read_name(), Ok(String::new()));
    assert!(buffer.eof());
}

#[test]
fn read_name_rejects_invalid_utf8() {
    let mut buffer = Buffer::new(vec![2, 0xc3, 0x28, 7]);
    assert_eq!(buffer.read_name(), Err(DecodeError::InvalidUtf8));
    assert_eq!(buffer.read_byte(), Ok(2));
    let mut buffer = Buffer::new(vec![1, 0xff]);
    assert_eq!(buffer.read_name(), Err(DecodeError::InvalidUtf8));
    let mut buffer = Buffer::new(vec![3, 0xed, 0xa0, 0x80]);
    assert_eq!(buffer.read_name(), Err(DecodeError::InvalidUtf8));
}

#[test]
fn read_name_underrun_restores_the_offset() {
    let mut buffer = Buffer::new(vec![4, b'a', b'b']);
    assert_eq!(buffer.read_name(), Err(DecodeError::BufferUnderrun));
    assert_eq!(buffer.read_byte(), Ok(4));
}

#[test]
fn read_vec_reads_count_then_items() {
    let mut buffer = Buffer::new(vec![3, 0x80, 0x01, 0x02, 0x03, 0xaa]);
    let items = buffer.read_vec(|b: &mut Buffer| b.read_u32());
    assert_eq!(items, Ok(vec![128, 2, 3]));
    assert_eq!(buffer.read_byte(), Ok(0xaa));
}

#[test]
fn read_vec_of_nothing() {
    let mut buffer = Buffer::new(vec![0, 5]);
    let items = buffer.read_vec(|b: &mut Buffer| b.read_u32());
    assert_eq!(items, Ok(Vec::new()));
    assert_eq!(buffer.read_byte(), Ok(5));
}

#[test]
fn read_vec_fails_with_the_first_failure() {
    let mut buffer = Buffer::new(vec![3, 1, 2]);
    let items = buffer.read_vec(|b: &mut Buffer| b.read_u32());
    assert_eq!(items, Err(DecodeError::BufferUnderrun));
    // the count is there again
    assert_eq!(buffer.read_byte(), Ok(3));
}

#[test]
fn read_vec_count_is_a_varint() {
    let mut bytes = vec![0x81, 0x01];
    bytes.extend(std::iter::repeat(7u8).take(129));
    let mut buffer = Buffer::new(bytes);
    let items = buffer.read_vec(|b: &mut Buffer| b.read_byte()).unwrap();
    assert_eq!(items.len(), 129);
    assert!(items.iter().all(|b| *b == 7));
    assert!(buffer.eof());
}
