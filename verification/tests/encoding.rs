use wasm_code_builder::code_builder::{Align, BlockType, ValueType};
use wasm_code_builder::round_up_to_alignment;
use wasm_code_builder::serialize::{
    encode_i32, encode_i64, encode_padded_u32, encode_u32, overwrite_padded_u32,
    write_unencoded_u32, write_unencoded_u64, SerialBuffer,
};

fn u32_bytes(value: u32) -> Vec<u8> {
    let mut buffer = Vec::new();
    encode_u32(&mut buffer, value);
    buffer
}

fn i32_bytes(value: i32) -> Vec<u8> {
    let mut buffer = Vec::new();
    encode_i32(&mut buffer, value);
    buffer
}

fn i64_bytes(value: i64) -> Vec<u8> {
    let mut buffer = Vec::new();
    encode_i64(&mut buffer, value);
    buffer
}

#[test]
fn unsigned_leb128() {
    assert_eq!(u32_bytes(0), vec![0x00]);
    assert_eq!(u32_bytes(1), vec![0x01]);
    assert_eq!(u32_bytes(127), vec![0x7f]);
    assert_eq!(u32_bytes(128), vec![0x80, 0x01]);
    assert_eq!(u32_bytes(300), vec![0xac, 0x02]);
    assert_eq!(u32_bytes(16383), vec![0xff, 0x7f]);
    assert_eq!(u32_bytes(16384), vec![0x80, 0x80, 0x01]);
    assert_eq!(u32_bytes(624485), vec![0xe5, 0x8e, 0x26]);
    assert_eq!(u32_bytes(u32::MAX), vec![0xff, 0xff, 0xff, 0xff, 0x0f]);
}

#[test]
fn signed_leb128() {
    assert_eq!(i32_bytes(0), vec![0x00]);
    assert_eq!(i32_bytes(1), vec![0x01]);
    assert_eq!(i32_bytes(63), vec![0x3f]);
    assert_eq!(i32_bytes(64), vec![0xc0, 0x00]);
    assert_eq!(i32_bytes(127), vec![0xff, 0x00]);
    assert_eq!(i32_bytes(128), vec![0x80, 0x01]);
    assert_eq!(i32_bytes(-1), vec![0x7f]);
    assert_eq!(i32_bytes(-64), vec![0x40]);
    assert_eq!(i32_bytes(-65), vec![0xbf, 0x7f]);
    assert_eq!(i32_bytes(-128), vec![0x80, 0x7f]);
    assert_eq!(i32_bytes(-123456), vec![0xc0, 0xbb, 0x78]);
    assert_eq!(i32_bytes(i32::MAX), vec![0xff, 0xff, 0xff, 0xff, 0x07]);
    assert_eq!(i32_bytes(i32::MIN), vec![0x80, 0x80, 0x80, 0x80, 0x78]);
}

#[test]
fn signed_leb128_of_64_bits() {
    assert_eq!(i64_bytes(0), vec![0x00]);
    assert_eq!(i64_bytes(-1), vec![0x7f]);
    assert_eq!(i64_bytes(-123456), i32_bytes(-123456));
    assert_eq!(
        i64_bytes(i64::MAX),
        vec![0xff, 0xff, 0xff, 0xff, 0xff, 0xff, 0xff, 0xff, 0xff, 0x00]
    );
    assert_eq!(
        i64_bytes(i64::MIN),
        vec![0x80, 0x80, 0x80, 0x80, 0x80, 0x80, 0x80, 0x80, 0x80, 0x7f]
    );
    assert_eq!(i64_bytes(1 << 32), vec![0x80, 0x80, 0x80, 0x80, 0x10]);
}

#[test]
fn padded_leb128_always_takes_five_bytes() {
    let mut buffer = vec![0xee];
    encode_padded_u32(&mut buffer, 0);
    encode_padded_u32(&mut buffer, 1);
    encode_padded_u32(&mut buffer, 128);
    encode_padded_u32(&mut buffer, u32::MAX);
    assert_eq!(
        buffer,
        vec![
            0xee, 0x80, 0x80, 0x80, 0x80, 0x00, 0x81, 0x80, 0x80, 0x80, 0x00, 0x80, 0x81, 0x80,
            0x80, 0x00, 0xff, 0xff, 0xff, 0xff, 0x0f
        ]
    );
}

#[test]
fn padded_leb128_written_in_place() {
    let mut buffer = vec![1, 2, 3, 4, 5, 6, 7, 8];
    overwrite_padded_u32(&mut buffer, 2, 0x1234_5678);
    assert_eq!(buffer, vec![1, 2, 0xf8, 0xac, 0xd1, 0x91, 0x01, 8]);
    overwrite_padded_u32(&mut buffer, 3, 5);
    assert_eq!(buffer, vec![1, 2, 0xf8, 0x85, 0x80, 0x80, 0x80, 0x00]);
}

#[test]
fn plain_bytes_are_little_endian() {
    let mut buffer = Vec::new();
    write_unencoded_u32(&mut buffer, 0x0a0b_0c0d);
    write_unencoded_u64(&mut buffer, 0x0102_0304_0506_0708);
    assert_eq!(
        buffer,
        vec![0x0d, 0x0c, 0x0b, 0x0a, 0x08, 0x07, 0x06, 0x05, 0x04, 0x03, 0x02, 0x01]
    );
}

#[test]
fn buffer_operations() {
    let mut buffer: Vec<u8> = Vec::new();
    assert_eq!(buffer.size(), 0);
    buffer.append_u8(1);
    buffer.append_slice(&[2, 3, 4]);
    buffer.append_slice(&[]);
    buffer.overwrite_u8(1, 9);
    assert_eq!(buffer.size(), 4);
    assert_eq!(buffer, vec![1, 9, 3, 4]);
}

#[test]
fn arena_buffer_operations() {
    let arena = bumpalo::Bump::new();
    let mut buffer: bumpalo::collections::Vec<u8> = bumpalo::collections::Vec::new_in(&arena);
    assert_eq!(SerialBuffer::size(&buffer), 0);
    buffer.append_u8(1);
    buffer.append_slice(&[2, 3, 4]);
    buffer.overwrite_u8(3, 9);
    encode_u32(&mut buffer, 128);
    assert_eq!(SerialBuffer::size(&buffer), 6);
    assert_eq!(buffer.as_slice(), &[1, 2, 3, 9, 0x80, 0x01]);
}

#[test]
fn value_type_bytes() {
    assert_eq!(ValueType::I32.as_byte(), 0x7f);
    assert_eq!(ValueType::I64.as_byte(), 0x7e);
    assert_eq!(ValueType::F32.as_byte(), 0x7d);
    assert_eq!(ValueType::F64.as_byte(), 0x7c);
    let mut buffer = vec![0];
    ValueType::F32.serialize(&mut buffer);
    assert_eq!(buffer, vec![0, 0x7d]);
}

#[test]
fn block_type_bytes() {
    assert_eq!(BlockType::NoResult.as_byte(), 0x40);
    assert_eq!(BlockType::Value(ValueType::I32).as_byte(), 0x7f);
    assert_eq!(BlockType::Value(ValueType::I64).as_byte(), 0x7e);
    assert_eq!(BlockType::Value(ValueType::F32).as_byte(), 0x7d);
    assert_eq!(BlockType::Value(ValueType::F64).as_byte(), 0x7c);
}

#[test]
fn alignment_is_encoded_as_its_logarithm() {
    let sizes = [1u32, 2, 4, 8, 16, 32, 64];
    for (log, size) in sizes.iter().enumerate() {
        assert_eq!(Align::from_u32(*size).as_byte(), log as u8);
        assert_eq!(Align::checked_from_u32(*size), Some(Align::from_u32(*size)));
    }
    assert_eq!(Align::from_u32(8), Align::Bytes8);
}

#[test]
fn unsupported_alignment_is_refused() {
    assert_eq!(Align::checked_from_u32(0), None);
    assert_eq!(Align::checked_from_u32(3), None);
    assert_eq!(Align::checked_from_u32(128), None);
    assert_eq!(Align::checked_from_u32(u32::MAX), None);
}

#[test]
fn rounding_up_to_the_alignment() {
    assert_eq!(round_up_to_alignment(0, 16), 0);
    assert_eq!(round_up_to_alignment(1, 16), 16);
    assert_eq!(round_up_to_alignment(15, 16), 16);
    assert_eq!(round_up_to_alignment(16, 16), 16);
    assert_eq!(round_up_to_alignment(17, 16), 32);
    assert_eq!(round_up_to_alignment(100, 8), 104);
    assert_eq!(round_up_to_alignment(7, 1), 7);
    assert_eq!(round_up_to_alignment(10, 3), 12);
    assert_eq!(round_up_to_alignment(-1, 16), 0);
    assert_eq!(round_up_to_alignment(-16, 16), -16);
    assert_eq!(round_up_to_alignment(-17, 16), -16);
    assert_eq!(round_up_to_alignment(i32::MAX - 15, 16), i32::MAX - 15);
    assert_eq!(round_up_to_alignment(i32::MIN, 16), i32::MIN);
}
