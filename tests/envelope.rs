use esp_hosted::proto_data::RpcReqConfigHeartbeat;
use esp_hosted::rpc::write_empty_msg;
use esp_hosted::{cfg_heartbeat, parse_msg, setup_rpc, EspError, MsgParsed, Rpc, RpcId, RpcType, SeqCounter};

#[test]
fn envelope_round_trip() {
    let rpc = Rpc::new_req(RpcId::ReqWifiSetChannel, 0x1234_5678);
    let payload = [0x08, 0x06, 0x10, 0x01];
    let mut buf = [0u8; 64];
    let n = rpc.to_bytes(&mut buf, &payload).unwrap();
    let (back, start, len) = Rpc::from_bytes(&buf[..n]).unwrap();
    assert_eq!(back, rpc);
    assert_eq!(len, payload.len());
    assert_eq!(&buf[start..start + len], &payload);
}

#[test]
fn envelope_bytes_layout() {
    let rpc = Rpc::new_req(RpcId::ReqWifiStart, 5);
    let mut buf = [0u8; 16];
    let n = rpc.to_bytes(&mut buf, &[]).unwrap();
    // 280 = 0x118: varint [0x98, 0x02]; payload tag 280 * 8 + 2 = 2242: [0xC2, 0x11].
    assert_eq!(&buf[..n], &[0x08, 1, 0x10, 0x98, 0x02, 0x18, 5, 0xC2, 0x11, 0]);
}

#[test]
fn envelope_without_uid_is_an_event() {
    // msg_type Event, msg_id 770 (heartbeat event), no uid, payload tag, 2-byte payload.
    let bytes = [0x08, 3, 0x10, 0x82, 0x06, 0x92, 0x30, 2, 0x08, 0x07];
    let (rpc, start, len) = Rpc::from_bytes(&bytes).unwrap();
    assert_eq!(rpc.msg_type, RpcType::Event);
    assert_eq!(rpc.msg_id, RpcId::EventHeartbeat);
    assert_eq!(rpc.uid, 0);
    assert_eq!((start, len), (8, 2));
}

#[test]
fn envelope_error_code_payload() {
    // Response with a three-byte payload [0x08, varint 0x3001].
    let bytes = [0x08, 2, 0x10, 0x98, 0x04, 0x18, 1, 0xC2, 0x21, 3, 0x08, 0x81, 0x60];
    assert_eq!(Rpc::from_bytes(&bytes), Err(EspError::Esp(0x3001)));
}

#[test]
fn envelope_rejects_malformed_input() {
    assert_eq!(Rpc::from_bytes(&[0x08]), Err(EspError::InvalidData));
    assert_eq!(Rpc::from_bytes(&[0x08, 9, 0x10, 0x98, 0x02]), Err(EspError::InvalidData));
    // Unknown message id 5.
    assert_eq!(Rpc::from_bytes(&[0x08, 1, 0x10, 5, 0x18, 1, 0x2A, 0]), Err(EspError::InvalidData));
    // Payload length past the end.
    assert_eq!(Rpc::from_bytes(&[0x08, 1, 0x10, 0x98, 0x02, 0x18, 1, 0xC2, 0x11, 9]), Err(EspError::InvalidData));
}

#[test]
fn envelope_short_buffer_is_capacity() {
    let rpc = Rpc::new_req(RpcId::ReqWifiStart, 5);
    let mut buf = [0u8; 5];
    assert_eq!(rpc.to_bytes(&mut buf, &[]), Err(EspError::Capacity));
}

#[test]
fn setup_rpc_frames_and_parses_back() {
    let mut seq = SeqCounter::new();
    let mut buf = [0u8; 128];
    let rpc = Rpc::new_req(RpcId::ReqGetWifiMode, 77);
    let n = setup_rpc(&mut buf, &rpc, &[0x08, 0x01], &mut seq).unwrap();
    assert_eq!(seq.next, 1);
    match parse_msg(&buf[..n]).unwrap() {
        MsgParsed::Wifi(m) => {
            assert_eq!(m.rpc, rpc);
            assert_eq!(m.data, &[0x08, 0x01]);
            assert_eq!(m.header.len as usize, n - 12);
        }
        MsgParsed::Hci(_) => panic!("expected a Wi-Fi message"),
    }
}

#[test]
fn empty_request_frame() {
    let mut seq = SeqCounter::new();
    let mut buf = [0u8; 64];
    let n = write_empty_msg(&mut buf, 3, RpcId::ReqWifiStop, &mut seq).unwrap();
    match parse_msg(&buf[..n]).unwrap() {
        MsgParsed::Wifi(m) => {
            assert_eq!(m.rpc, Rpc { msg_type: RpcType::Req, msg_id: RpcId::ReqWifiStop, uid: 3 });
            assert!(m.data.is_empty());
        }
        MsgParsed::Hci(_) => panic!("expected a Wi-Fi message"),
    }
}

#[test]
fn heartbeat_request_payload() {
    let cfg = RpcReqConfigHeartbeat { enable: true, duration: 10 };
    let mut data = [0u8; 8];
    assert_eq!(cfg.to_bytes(&mut data).unwrap(), 4);
    assert_eq!(&data[..4], &[0x08, 1, 0x10, 10]);
    let neg = RpcReqConfigHeartbeat { enable: false, duration: -1 };
    let mut d2 = [0u8; 16];
    assert_eq!(neg.to_bytes(&mut d2).unwrap(), 13);
    assert_eq!(&d2[..4], &[0x08, 0, 0x10, 0xFF]);
    assert_eq!(d2[12], 0x01);
    let mut seq = SeqCounter::new();
    let mut buf = [0u8; 64];
    let n = cfg_heartbeat(&mut buf, 9, &cfg, &mut seq).unwrap();
    match parse_msg(&buf[..n]).unwrap() {
        MsgParsed::Wifi(m) => {
            assert_eq!(m.rpc.msg_id, RpcId::ReqConfigHeartbeat);
            assert_eq!(m.data, &[0x08, 1, 0x10, 10]);
        }
        MsgParsed::Hci(_) => panic!("expected a Wi-Fi message"),
    }
}

#[test]
fn rpc_id_values() {
    assert_eq!(RpcId::ReqBase.val(), 256);
    assert_eq!(RpcId::RespWifiScanGetApRecord.val(), 607);
    assert_eq!(RpcId::EventStaDisconnected.val(), 776);
    assert_eq!(RpcId::from_val(534).unwrap(), RpcId::RespWifiInit);
    assert_eq!(RpcId::from_val(261), Err(EspError::InvalidData));
}

#[test]
fn envelope_uid_marked_by_16() {
    let bytes = [0x08, 2, 0x10, 0x98, 0x04, 0x10, 0x2A, 0xC2, 0x21, 1, 0x00];
    let (rpc, start, len) = Rpc::from_bytes(&bytes).unwrap();
    assert_eq!(rpc.uid, 42);
    assert_eq!(rpc.msg_id, RpcId::RespWifiStart);
    assert_eq!((start, len), (10, 1));
}
