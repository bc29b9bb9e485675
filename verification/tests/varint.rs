use mcproto::encoding::{decode_varint, encode_varint, write_varint_sync, DecodeError};
use mcproto::types::VarInt;

fn round_trip(v: i32) {
    let bytes = encode_varint(VarInt(v));
    let (decoded, consumed) = decode_varint(&bytes, 0).expect("canonical encoding must decode");
    assert_eq!(decoded.0, v);
    assert_eq!(consumed, bytes.len());
}

#[test]
fn varint_round_trip_samples() {
    for v in [
        0,
        1,
        2,
        127,
        128,
        255,
        300,
        16383,
        16384,
        2097151,
        2097152,
        268435455,
        268435456,
        i32::MAX,
        -1,
        -2,
        -128,
        -32768,
        i32::MIN,
        770,
        25565,
    ] {
        round_trip(v);
    }
}

#[test]
fn varint_boundary_widths() {
    assert_eq!(encode_varint(VarInt(0)), vec![0x00]);
    assert_eq!(encode_varint(VarInt(127)), vec![0x7f]);
    assert_eq!(encode_varint(VarInt(128)), vec![0x80, 0x01]);
    assert_eq!(encode_varint(VarInt(2147483647)), vec![0xff, 0xff, 0xff, 0xff, 0x07]);
    assert_eq!(encode_varint(VarInt(-1)), vec![0xff, 0xff, 0xff, 0xff, 0x0f]);
}

#[test]
fn varint_truncated_buffer_is_invalid() {
    for len in 1..5 {
        let data = vec![0x80u8; len];
        assert_eq!(decode_varint(&data, 0), Err(DecodeError::InvalidVarInt));
    }
}

#[test]
fn varint_empty_buffer_is_not_enough() {
    let data: Vec<u8> = Vec::new();
    assert_eq!(decode_varint(&data, 0), Err(DecodeError::NotEnoughBytes));
}

#[test]
fn varint_five_continuations_is_too_long() {
    let data = vec![0x80u8; 5];
    assert_eq!(decode_varint(&data, 0), Err(DecodeError::VarIntTooLong));
    let data = vec![0xffu8; 6];
    assert_eq!(decode_varint(&data, 0), Err(DecodeError::VarIntTooLong));
}

#[test]
fn varint_decode_ignores_trailing_bytes() {
    let mut data = encode_varint(VarInt(300));
    let width = data.len();
    data.extend_from_slice(&[0xaa, 0xbb, 0xcc]);
    let (decoded, consumed) = decode_varint(&data, 0).unwrap();
    assert_eq!(decoded.0, 300);
    assert_eq!(consumed, width);
}

#[test]
fn varint_decode_at_offset() {
    let mut data = vec![0x01, 0x02];
    write_varint_sync(&mut data, VarInt(128));
    let (decoded, consumed) = decode_varint(&data, 2).unwrap();
    assert_eq!(decoded.0, 128);
    assert_eq!(consumed, 2);
}

#[test]
fn write_varint_appends() {
    let mut buf = vec![0x42u8];
    write_varint_sync(&mut buf, VarInt(128));
    assert_eq!(buf, vec![0x42, 0x80, 0x01]);
}
