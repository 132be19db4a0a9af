use esp_hosted::ble::HciPkt;
use esp_hosted::{build_frame_ble, parse_msg, EspError, MsgParsed, SeqCounter};

#[test]
fn hci_frame_yields_bytes_after_header() {
    let mut seq = SeqCounter::new();
    let mut out = [0u8; 32];
    let n = build_frame_ble(&mut out, HciPkt::Evt, &[0x04, 0x0E, 0x04, 0x01, 0x0B, 0x20, 0x00], &mut seq).unwrap();
    match parse_msg(&out[..n]).unwrap() {
        MsgParsed::Hci(m) => assert_eq!(m.data, &[0x04, 0x0E, 0x04, 0x01, 0x0B, 0x20, 0x00]),
        MsgParsed::Wifi(_) => panic!("expected HCI"),
    }
}

#[test]
fn shifted_buffer_realigned_by_header_length() {
    // A header whose first byte was lost: [12, 0] now at index 3.
    let mut buf = [0u8; 20];
    buf[0] = 0x00;
    buf[3] = 12;
    buf[4] = 0;
    buf[9] = 0;
    buf[10] = 0;
    buf[11] = 4;
    buf[12] = 0x3E;
    match parse_msg(&buf).unwrap() {
        MsgParsed::Hci(m) => {
            assert_eq!(m.data.len(), 20 - 11);
            assert_eq!(m.data[0], 4);
        }
        MsgParsed::Wifi(_) => panic!("expected HCI"),
    }
}

#[test]
fn shifted_buffer_realigned_by_subevent_prefix() {
    let mut buf = [0xEEu8; 24];
    buf[0] = 0x99;
    buf[10] = 0;
    buf[11] = 4;
    buf[12] = 62;
    match parse_msg(&buf).unwrap() {
        MsgParsed::Hci(m) => {
            assert_eq!(m.data.len(), 24 - 11);
            assert_eq!(&m.data[..2], &[4, 62]);
        }
        MsgParsed::Wifi(_) => panic!("expected HCI"),
    }
}

#[test]
fn shifted_buffer_without_pattern_is_invalid() {
    let buf = [0x99u8; 30];
    assert!(matches!(parse_msg(&buf), Err(EspError::InvalidData)));
    assert!(matches!(parse_msg(&[]), Err(EspError::InvalidData)));
}

#[test]
fn declared_length_past_buffer_is_capacity() {
    let mut seq = SeqCounter::new();
    let mut out = [0u8; 32];
    let n = build_frame_ble(&mut out, HciPkt::Evt, &[1, 2, 3, 4], &mut seq).unwrap();
    assert!(matches!(parse_msg(&out[..n - 1]), Err(EspError::Capacity)));
}

#[test]
fn wifi_frame_too_short_for_rpc_is_invalid() {
    // Serial interface, length 4: no room for the TLV block.
    let buf = [0x03, 0, 4, 0, 12, 0, 0, 0, 0, 0, 0, 0, 1, 2, 3, 4];
    assert!(matches!(parse_msg(&buf), Err(EspError::InvalidData)));
}
