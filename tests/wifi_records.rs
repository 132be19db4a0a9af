use esp_hosted::wifi::{
    ap_get_sta_list, init, parse_ap_records, scan_get_ap_records, set_mode, set_promiscuous, set_protocol, start, InitConfig,
    InterfaceType, PromiscuousCtrlFilter, PromiscuousFilter, Protocols, ScanTime, ActiveScanTime, WifiApRecord, WifiAuthMode,
    WifiCipher, WifiMode, WifiSecondChan,
};
use esp_hosted::proto_data::RpcReqWifiScanStart;
use esp_hosted::wifi::{scan_start, ScanConfig, ScanType};
use esp_hosted::{parse_msg, EspError, MsgParsed, RpcId, SeqCounter};

fn record_bytes() -> Vec<u8> {
    let mut v = vec![0x0A, 6, 1, 2, 3, 4, 5, 6];
    v.extend_from_slice(&[0x12, 3, b'n', b'e', b't']);
    v.extend_from_slice(&[0x18, 6]);
    v.extend_from_slice(&[0x20, 1]);
    v.extend_from_slice(&[0x28, 0xC4, 0xFF, 0xFF, 0xFF, 0xFF, 0xFF, 0xFF, 0xFF, 0xFF, 0x01]);
    v.extend_from_slice(&[0x30, 3]);
    v.extend_from_slice(&[0x38, 4, 0x40, 4]);
    v.extend_from_slice(&[0x50, 0x07]);
    v.extend_from_slice(&[0x5A, 2, 0xAA, 0xBB]);
    v.extend_from_slice(&[0x70, 9]);
    v
}

#[test]
fn ap_record_fields() {
    let b = record_bytes();
    let (r, used) = WifiApRecord::from_bytes(&b).unwrap();
    assert_eq!(used, b.len());
    assert_eq!(r.bssid, [1, 2, 3, 4, 5, 6]);
    assert_eq!(&r.ssid[..], b"net");
    assert_eq!(r.primary, 6);
    assert_eq!(r.second, WifiSecondChan::Above);
    assert_eq!(r.rssi, -60);
    assert_eq!(r.authmode, WifiAuthMode::WPA2_PSK);
    assert_eq!(r.pairwise_cipher, WifiCipher::CCMP);
    assert_eq!(r.group_cipher, WifiCipher::CCMP);
    assert_eq!(r.bitmask, 7);
    assert_eq!(r.vht_ch_freq1, 9);
}

#[test]
fn ap_record_leaves_extras_zeroed() {
    let b = [0x0A, 0x06, 1, 2, 3, 4, 5, 6, 0x12, 0x03, 0x61, 0x62, 0x63, 0x18, 0x06];
    let (r, used) = WifiApRecord::from_bytes(&b).unwrap();
    assert_eq!(used, 15);
    assert_eq!(r.country.cc, [0, 0, 0]);
    assert_eq!((r.country.schan, r.country.nchan, r.country.max_tx_power, r.country.policy), (0, 0, 0, 0));
    assert_eq!((r.he_ap.bitmask, r.he_ap.bssid_index), (0, 0));
    assert_eq!(r.rssi, 0);
    assert_eq!(r.authmode, WifiAuthMode::Open);
}

#[test]
fn set_ps_requests_power_save() {
    let mut seq = SeqCounter::new();
    let mut buf = [0u8; 64];
    let n = esp_hosted::wifi::set_ps(&mut buf, 1, &mut seq).unwrap();
    assert_eq!(payload_of(&buf[..n]), (RpcId::ReqWifiSetPs, vec![0x08, 0]));
}

#[test]
fn ap_record_ssid_over_capacity() {
    let mut b = vec![0x12, 34];
    b.extend_from_slice(&[b'a'; 34]);
    assert!(matches!(WifiApRecord::from_bytes(&b), Err(EspError::Capacity)));
    // Declared length over capacity with fewer bytes present.
    let mut short = vec![0x18, 6, 0x12, 0x22];
    short.extend_from_slice(&[0x41; 5]);
    assert!(matches!(WifiApRecord::from_bytes(&short), Err(EspError::Capacity)));
    let mut ok = vec![0x12, 33];
    ok.extend_from_slice(&[b'a'; 33]);
    assert_eq!(WifiApRecord::from_bytes(&ok).unwrap().0.ssid.len(), 33);
}

#[test]
fn ap_record_malformed_fields() {
    assert!(matches!(WifiApRecord::from_bytes(&[0x12, 5, b'a']), Err(EspError::InvalidData)));
    assert!(matches!(WifiApRecord::from_bytes(&[0x20, 9]), Err(EspError::InvalidData)));
    assert!(matches!(WifiApRecord::from_bytes(&[0x0A, 7, 1, 2, 3, 4, 5, 6, 7]), Err(EspError::Capacity)));
    assert!(matches!(WifiApRecord::from_bytes(&[0x18]), Err(EspError::InvalidData)));
    // A skipped field (country, field 11) whose length runs past the end.
    assert!(matches!(WifiApRecord::from_bytes(&[0x5A, 5, 1]), Err(EspError::InvalidData)));
    // RSSI without its ten varint bytes.
    assert!(matches!(WifiApRecord::from_bytes(&[0x28, 0xC4, 0xFF]), Err(EspError::InvalidData)));
}

#[test]
fn ap_record_skips_unknown_fields() {
    let b = [0x98, 0x01, 0x05, 0x18, 11];
    let (r, used) = WifiApRecord::from_bytes(&b).unwrap();
    assert_eq!(r.primary, 11);
    assert_eq!(used, 5);
}

#[test]
fn ap_list_of_two_records() {
    let rec = record_bytes();
    let mut d = vec![0x08, 2];
    for _ in 0..2 {
        d.push(0x12);
        d.push(rec.len() as u8);
        d.extend_from_slice(&rec);
    }
    let list = parse_ap_records(&d).unwrap();
    assert_eq!(list.len(), 2);
    assert_eq!(&list[1].ssid[..], b"net");
    assert!(matches!(parse_ap_records(&[]), Err(EspError::InvalidData)));
    assert!(matches!(parse_ap_records(&[0x08, 1, 0x12]), Err(EspError::InvalidData)));
}

#[test]
fn init_config_encoding() {
    let c = InitConfig::default();
    let mut buf = [0u8; 120];
    let n = c.to_bytes(&mut buf).unwrap();
    assert_eq!(&buf[..6], &[0x08, 10, 0x10, 32, 0x18, 3]);
    assert_eq!(&buf[n - 7..n], &[0xA0, 0x01, 0xCF, 0xFE, 0xBC, 0xF9, 0x01]);
    let p = InitConfig::new_promiscuous();
    assert_eq!(p.dynamic_rx_buf_num, 64);
    let mut small = [0u8; 4];
    assert!(matches!(c.to_bytes(&mut small), Err(EspError::Capacity)));
}

#[test]
fn scan_time_encoding() {
    let t = ScanTime { active: ActiveScanTime { min: 100, max: 300 }, passive: 360 };
    let mut buf = [0u8; 20];
    let n = t.to_bytes(&mut buf).unwrap();
    assert_eq!(&buf[..n], &[0x0A, 5, 0x08, 100, 0x10, 0xAC, 0x02, 0x10, 0xE8, 0x02]);
}

#[test]
fn protocol_bitmaps() {
    let d = Protocols::default();
    assert_eq!(d.to_byte(), 0x07);
    let p = Protocols::from_byte(0x3F);
    assert!(p.p_11b && p.p_11g && p.p_11n && p.p_lr && p.p_11ax && p.wps);
    assert!(!p.p_11a && !p.p_11ac);
    let all = Protocols { p_11ac: true, p_11ax: true, ..d };
    assert_eq!(all.to_byte(), 0x67);
}

#[test]
fn filter_masks() {
    let f = PromiscuousFilter { mgmt: true, ctrl: false, data: true, misc: false, data_mpdu: false, data_ampdu: false, fcsfail: true };
    assert_eq!(f.val(), 0b100_0101);
    let c = PromiscuousCtrlFilter {
        wrapper: false,
        bar: false,
        ba: false,
        pspoll: false,
        rts: false,
        cts: false,
        ack: true,
        cfend: false,
        cfendack: true,
    };
    assert_eq!(c.val(), 0x140);
}

fn payload_of(buf: &[u8]) -> (RpcId, Vec<u8>) {
    match parse_msg(buf).unwrap() {
        MsgParsed::Wifi(m) => (m.rpc.msg_id, m.data.to_vec()),
        MsgParsed::Hci(_) => panic!("expected a Wi-Fi message"),
    }
}

#[test]
fn request_builders() {
    let mut seq = SeqCounter::new();
    let mut buf = [0u8; 256];
    let n = start(&mut buf, 1, &mut seq).unwrap();
    assert_eq!(payload_of(&buf[..n]), (RpcId::ReqWifiStart, vec![]));
    let n = ap_get_sta_list(&mut buf, 1, &mut seq).unwrap();
    assert_eq!(payload_of(&buf[..n]).0, RpcId::ReqWifiApGetStaList);
    let n = scan_get_ap_records(&mut buf, 2, 20, &mut seq).unwrap();
    assert_eq!(payload_of(&buf[..n]), (RpcId::ReqWifiScanGetApRecords, vec![0x08, 20]));
    let n = set_mode(&mut buf, 3, WifiMode::SoftAp, &mut seq).unwrap();
    assert_eq!(payload_of(&buf[..n]), (RpcId::ReqSetWifiMode, vec![0x08, 2]));
    let n = set_protocol(&mut buf, 4, InterfaceType::Ap, &Protocols::default(), &mut seq).unwrap();
    assert_eq!(payload_of(&buf[..n]), (RpcId::ReqWifiSetProtocol, vec![0x08, 1, 0x10, 7]));
    let n = init(&mut buf, 5, &InitConfig::default(), &mut seq).unwrap();
    let (id, data) = payload_of(&buf[..n]);
    assert_eq!(id, RpcId::ReqWifiInit);
    assert_eq!(data[0], 0x0A);
    assert_eq!(data[1] as usize, data.len() - 2);
    assert_eq!(seq.next, 6);
    let mut tiny = [0u8; 20];
    assert!(matches!(start(&mut tiny, 1, &mut seq), Err(EspError::Capacity)));
    assert_eq!(seq.next, 6);
}

#[test]
fn promiscuous_steps() {
    let mut seq = SeqCounter::new();
    let mut buf = [0u8; 128];
    let f = PromiscuousFilter { mgmt: true, ctrl: false, data: false, misc: false, data_mpdu: false, data_ampdu: false, fcsfail: false };
    let c = PromiscuousCtrlFilter { wrapper: false, bar: false, ba: false, pspoll: false, rts: false, cts: false, ack: false, cfend: false, cfendack: true };
    let n = set_promiscuous(&mut buf, 1, 0, true, &f, Some(&c), &mut seq).unwrap().unwrap();
    assert_eq!(payload_of(&buf[..n]), (RpcId::ReqWifiSetPromiscuous, vec![0x08, 1]));
    let n = set_promiscuous(&mut buf, 1, 1, true, &f, Some(&c), &mut seq).unwrap().unwrap();
    assert_eq!(payload_of(&buf[..n]), (RpcId::ReqWifiSetPromiscuousFilter, vec![0x0A, 1, 0x08, 1, 0x08, 1]));
    let n = set_promiscuous(&mut buf, 1, 2, true, &f, Some(&c), &mut seq).unwrap().unwrap();
    assert_eq!(payload_of(&buf[..n]), (RpcId::ReqWifiSetPromiscuousCtrlFilter, vec![0x0A, 1, 0x08, 1, 0x08, 0x80, 0x02]));
    assert_eq!(set_promiscuous(&mut buf, 1, 2, true, &f, None, &mut seq).unwrap(), None);
    assert_eq!(set_promiscuous(&mut buf, 1, 3, true, &f, Some(&c), &mut seq).unwrap(), None);
}

#[test]
fn scan_config_and_start_encoding() {
    let mut cfg = ScanConfig::default();
    cfg.ssid.extend_from_slice(b"ab").unwrap();
    cfg.channel = 6;
    cfg.scan_type = ScanType::Passive;
    let mut buf = [0u8; 64];
    let n = cfg.to_bytes(&mut buf).unwrap();
    assert_eq!(
        &buf[..n],
        &[0x0A, 2, b'a', b'b', 0x12, 0, 0x18, 6, 0x20, 0, 0x28, 1, 0x32, 8, 0x0A, 4, 0x08, 0, 0x10, 0, 0x10, 0, 0x38, 0]
    );
    let req = RpcReqWifiScanStart { config: cfg, block: true, config_set: 1 };
    let mut rb = [0u8; 64];
    let m = req.to_bytes(&mut rb).unwrap();
    assert_eq!(m, 2 + n + 4);
    assert_eq!(&rb[..2], &[0x0A, n as u8]);
    assert_eq!(&rb[m - 4..m], &[0x10, 1, 0x18, 1]);
    let mut seq = SeqCounter::new();
    let mut frame = [0u8; 128];
    let f = scan_start(&mut frame, 4, &req, &mut seq).unwrap();
    let (id, data) = payload_of(&frame[..f]);
    assert_eq!(id, RpcId::ReqWifiScanStart);
    assert_eq!(&data[..], &rb[..m]);
    let mut small = [0u8; 10];
    assert!(matches!(req.to_bytes(&mut small), Err(EspError::Capacity)));
}
