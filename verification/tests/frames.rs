use mcproto::encoding::{
    encode_varint, read_packet_frame, write_packet_frame, ByteBuf, DecodeError,
};
use mcproto::types::VarInt;

#[test]
fn frame_round_trip() {
    let payload = vec![0xde, 0xad, 0xbe, 0xef];
    let mut wire: Vec<u8> = Vec::new();
    write_packet_frame(&mut wire, VarInt(0x2a), &payload);
    // Length counts the one-byte identifier plus the payload, not itself.
    assert_eq!(wire, vec![5, 0x2a, 0xde, 0xad, 0xbe, 0xef]);

    let mut cursor = ByteBuf::new(wire);
    let (id, body) = read_packet_frame(&mut cursor).unwrap();
    assert_eq!(id, VarInt(0x2a));
    // The body cursor sits at the first payload byte.
    assert_eq!(body.take_remaining(), payload);
    assert_eq!(cursor.remaining(), 0);
}

#[test]
fn frame_empty_payload() {
    let mut wire: Vec<u8> = Vec::new();
    write_packet_frame(&mut wire, VarInt(0x00), &[]);
    assert_eq!(wire, vec![1, 0x00]);
    let mut cursor = ByteBuf::new(wire);
    let (id, body) = read_packet_frame(&mut cursor).unwrap();
    assert_eq!(id, VarInt(0x00));
    assert_eq!(body.remaining(), 0);
}

#[test]
fn frame_wide_identifier() {
    let mut wire: Vec<u8> = Vec::new();
    write_packet_frame(&mut wire, VarInt(300), &[0x01]);
    let id_width = encode_varint(VarInt(300)).len();
    assert_eq!(wire[0] as usize, id_width + 1);
    let mut cursor = ByteBuf::new(wire);
    let (id, body) = read_packet_frame(&mut cursor).unwrap();
    assert_eq!(id, VarInt(300));
    assert_eq!(body.remaining(), 1);
}

#[test]
fn frame_short_buffer_is_not_enough() {
    // Frame length 5, but only two bytes follow.
    let mut cursor = ByteBuf::new(vec![5, 0x00, 0x01]);
    assert_eq!(read_packet_frame(&mut cursor), Err(DecodeError::NotEnoughBytes));
    // Nothing was consumed.
    assert_eq!(cursor.remaining(), 3);
}

#[test]
fn frame_bad_length_prefix() {
    let mut cursor = ByteBuf::new(vec![0x80, 0x80]);
    assert_eq!(read_packet_frame(&mut cursor), Err(DecodeError::InvalidVarInt));
}

#[test]
fn two_frames_in_sequence() {
    let mut wire: Vec<u8> = Vec::new();
    write_packet_frame(&mut wire, VarInt(1), &[0x11]);
    write_packet_frame(&mut wire, VarInt(2), &[0x22, 0x33]);
    let mut cursor = ByteBuf::new(wire);
    let (id1, _) = read_packet_frame(&mut cursor).unwrap();
    let (id2, _) = read_packet_frame(&mut cursor).unwrap();
    assert_eq!(id1, VarInt(1));
    assert_eq!(id2, VarInt(2));
    assert_eq!(cursor.remaining(), 0);
}
