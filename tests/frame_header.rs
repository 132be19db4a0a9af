use esp_hosted::ble::HciPkt;
use esp_hosted::header::{build_frame_wifi, InterfaceType};
use esp_hosted::transport::{compute_checksum, slip_encode, PacketType};
use esp_hosted::{build_frame_ble, EspError, PayloadHeader, SeqCounter};

fn sample() -> PayloadHeader {
    PayloadHeader {
        if_type: InterfaceType::Serial,
        if_num: 2,
        flags: 1,
        len: 0x0102,
        offset: 12,
        checksum: 0xBEEF,
        seq_num: 0x0304,
        throttle_cmd: 2,
        pkt_type: PacketType::ESP_PRIV_EVENT_INIT,
    }
}

#[test]
fn header_to_bytes_layout() {
    let b = sample().to_bytes();
    assert_eq!(b, [0x23, 1, 0x02, 0x01, 12, 0, 0xEF, 0xBE, 0x04, 0x03, 2, 0x22]);
}

#[test]
fn header_round_trip() {
    let h = sample();
    let back = PayloadHeader::from_bytes(&h.to_bytes()).unwrap();
    assert_eq!(back, h);
    let hci = PayloadHeader { if_type: InterfaceType::Hci, pkt_type: PacketType::Hci(HciPkt::Evt), ..h };
    assert_eq!(PayloadHeader::from_bytes(&hci.to_bytes()).unwrap(), hci);
}

#[test]
fn header_rejects_unknown_interface_and_packet_type() {
    let mut b = sample().to_bytes();
    b[0] = 0x29;
    assert_eq!(PayloadHeader::from_bytes(&b), Err(EspError::InvalidData));
    let mut c = sample().to_bytes();
    c[11] = 0x05;
    assert_eq!(PayloadHeader::from_bytes(&c), Err(EspError::InvalidData));
}

#[test]
fn header_decode_masks_throttle() {
    let mut b = sample().to_bytes();
    b[10] = 0xFF;
    assert_eq!(PayloadHeader::from_bytes(&b).unwrap().throttle_cmd, 3);
}

#[test]
fn checksum_is_wrapping_byte_sum() {
    assert_eq!(compute_checksum(&[1, 2, 3]), 6);
    assert_eq!(compute_checksum(&[]), 0);
    let big = [0xFFu8; 300];
    assert_eq!(compute_checksum(&big), ((300u32 * 255) % 65536) as u16);
}

#[test]
fn checksum_recomputes_after_zeroing_field() {
    let mut seq = SeqCounter::new();
    let mut out = [0u8; 32];
    let n = build_frame_ble(&mut out, HciPkt::Cmd, &[9, 8, 7], &mut seq).unwrap();
    let stored = u16::from_le_bytes([out[6], out[7]]);
    let mut copy = out;
    copy[6] = 0;
    copy[7] = 0;
    assert_eq!(compute_checksum(&copy[..n]), stored);
    assert_eq!(compute_checksum(&copy[..n]), compute_checksum(&copy[..n]));
}

#[test]
fn ble_frame_layout() {
    let mut seq = SeqCounter { next: 7 };
    let mut out = [0xAAu8; 20];
    let n = build_frame_ble(&mut out, HciPkt::Cmd, &[1, 2, 3], &mut seq).unwrap();
    assert_eq!(n, 15);
    assert_eq!(seq.next, 8);
    let sum: u32 = [0x04u32, 3, 12, 7, 1, 1, 2, 3].iter().sum();
    assert_eq!(&out[..6], &[0x04, 0, 3, 0, 12, 0]);
    assert_eq!(u16::from_le_bytes([out[6], out[7]]) as u32, sum);
    assert_eq!(&out[8..15], &[7, 0, 0, 1, 1, 2, 3]);
    assert_eq!(out[15], 0xAA);
}

#[test]
fn ble_frame_too_small_buffer_is_capacity() {
    let mut seq = SeqCounter::new();
    let mut out = [0u8; 13];
    assert_eq!(build_frame_ble(&mut out, HciPkt::Cmd, &[1, 2], &mut seq), Err(EspError::Capacity));
    assert_eq!(seq.next, 0);
}

#[test]
fn wifi_frame_has_tlv_block() {
    let mut seq = SeqCounter::new();
    let mut out = [0u8; 40];
    let n = build_frame_wifi(&mut out, &[0xAB, 0xCD], &mut seq).unwrap();
    assert_eq!(n, 26);
    assert_eq!(&out[..6], &[0x03, 0, 14, 0, 12, 0]);
    assert_eq!(&out[12..26], &[1, 6, 0, b'R', b'P', b'C', b'R', b's', b'p', 2, 2, 0, 0xAB, 0xCD]);
    let mut z = out;
    z[6] = 0;
    z[7] = 0;
    assert_eq!(u16::from_le_bytes([out[6], out[7]]), compute_checksum(&z[..n]));
}

#[test]
fn seq_counter_wraps() {
    let mut s = SeqCounter { next: 0xFFFF };
    assert_eq!(s.take(), 0xFFFF);
    assert_eq!(s.next, 0);
}

#[test]
fn slip_escapes_delimiters() {
    let mut out = [0u8; 16];
    let n = slip_encode(&[1, 0xC0, 2, 0xDB], &mut out);
    assert_eq!(&out[..n], &[0xC0, 1, 0xDB, 0xDC, 2, 0xDB, 0xDD, 0xC0]);
    let m = slip_encode(&[], &mut out);
    assert_eq!(&out[..m], &[0xC0, 0xC0]);
}
