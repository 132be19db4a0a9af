use esp_hosted::wire::{decode_tag, decode_varint, encode_tag, encode_varint, write_rpc, WireType};
use esp_hosted::EspError;

#[test]
fn varint_encodes_300_in_two_bytes() {
    let mut out = [0u8; 4];
    let n = encode_varint(300, &mut out);
    assert_eq!(n, 2);
    assert_eq!(&out[..2], &[0xAC, 0x02]);
    assert_eq!(out[2], 0);
}

#[test]
fn varint_round_trips_edge_values() {
    for v in [0u64, 1, 127, 128, 16383, 16384, 0xFFFF_FFFF, u64::MAX] {
        let mut out = [0u8; 12];
        let n = encode_varint(v, &mut out);
        assert!(n >= 1 && n <= 10);
        assert_eq!(decode_varint(&out).unwrap(), (v, n));
    }
}

#[test]
fn varint_max_takes_ten_bytes() {
    let mut out = [0u8; 10];
    assert_eq!(encode_varint(u64::MAX, &mut out), 10);
    assert_eq!(out[9], 0x01);
}

#[test]
fn varint_short_buffer_writes_nothing() {
    let mut out = [0x55u8; 1];
    assert_eq!(encode_varint(300, &mut out), 0);
    assert_eq!(out, [0x55]);
    let mut empty: [u8; 0] = [];
    assert_eq!(encode_varint(5, &mut empty), 0);
}

#[test]
fn varint_unterminated_is_invalid() {
    assert_eq!(decode_varint(&[0x80, 0x81]), Err(EspError::InvalidData));
    assert_eq!(decode_varint(&[]), Err(EspError::InvalidData));
}

#[test]
fn varint_stops_at_first_terminator() {
    assert_eq!(decode_varint(&[0x96, 0x01, 0x05]).unwrap(), (150, 2));
}

#[test]
fn tags_pack_field_and_wire_type() {
    assert_eq!(encode_tag(1, WireType::Varint), 0x08);
    assert_eq!(encode_tag(2, WireType::Varint), 0x10);
    assert_eq!(encode_tag(3, WireType::Varint), 0x18);
    assert_eq!(encode_tag(277, WireType::Len), 277 * 8 + 2);
    assert_eq!(decode_tag(0x0A).unwrap(), (1, WireType::Len));
    assert_eq!(decode_tag(0x2D).unwrap(), (5, WireType::I32));
    assert_eq!(decode_tag(0x0B), Err(EspError::InvalidData));
}

#[test]
fn write_rpc_appends_tag_and_value() {
    let mut buf = [0u8; 8];
    let mut i = 1usize;
    write_rpc(&mut buf, 2, WireType::Varint, 300, &mut i).unwrap();
    assert_eq!(i, 4);
    assert_eq!(&buf[..4], &[0, 0x10, 0xAC, 0x02]);
    let mut small = [0u8; 2];
    let mut j = 0usize;
    assert_eq!(write_rpc(&mut small, 2, WireType::Varint, 300, &mut j), Err(EspError::Capacity));
    assert_eq!(j, 0);
    assert_eq!(small, [0, 0]);
}
