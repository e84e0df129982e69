use nes::serde::{decode_u16, decode_u32, decode_u64, decode_u8, decode_usize, decode_vec, encode_u16,
    encode_u32, encode_u64, encode_u8, encode_usize, encode_vec, DecodeError};

#[test]
fn little_endian_layout() {
    let mut out = Vec::new();
    encode_u16(&mut out, 0x1234);
    encode_u32(&mut out, 0xdeadbeef);
    assert_eq!(out, vec![0x34, 0x12, 0xef, 0xbe, 0xad, 0xde]);
}

#[test]
fn round_trip_every_width() {
    let mut out = Vec::new();
    encode_u8(&mut out, 0xab);
    encode_u16(&mut out, 0xbeef);
    encode_u32(&mut out, 0x0102_0304);
    encode_u64(&mut out, 0x1122_3344_5566_7788);
    encode_usize(&mut out, 3);
    encode_vec(&mut out, &vec![9, 8, 7]);
    let mut pos = 0;
    assert_eq!(decode_u8(&out, &mut pos), Ok(0xab));
    assert_eq!(decode_u16(&out, &mut pos), Ok(0xbeef));
    assert_eq!(decode_u32(&out, &mut pos), Ok(0x0102_0304));
    assert_eq!(decode_u64(&out, &mut pos), Ok(0x1122_3344_5566_7788));
    assert_eq!(decode_usize(&out, &mut pos), Ok(3));
    assert_eq!(decode_vec(&out, &mut pos), Ok(vec![9, 8, 7]));
    assert_eq!(pos, out.len());
    assert_eq!(decode_u8(&out, &mut pos), Err(DecodeError));
}

#[test]
fn truncated_input_is_an_error() {
    let data = vec![1, 2, 3];
    let mut pos = 0;
    assert_eq!(decode_u32(&data, &mut pos), Err(DecodeError));
    assert_eq!(pos, 0);
    let mut out = Vec::new();
    encode_usize(&mut out, 10);
    out.push(1);
    let mut pos = 0;
    assert_eq!(decode_vec(&out, &mut pos), Err(DecodeError));
}
