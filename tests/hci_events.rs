use esp_hosted::ble::{
    le_set_adv_data_manu, le_set_adv_params_bytes, le_set_scan_rsp_name, make_hci_cmd, make_hci_opcode, parse_adv_data,
    parse_hci_events, AdvData, BleOwnAddrType, BleScanParams, BleScanType, FilterPolicy, HciEvent, HciEventType, HciOcf,
    HciOgf,
};
use esp_hosted::EspError;

#[test]
fn command_complete_example() {
    let buf = [0x04, 0x0E, 0x04, 0x01, 0x0B, 0x20, 0x00];
    let evs = parse_hci_events(&buf).unwrap();
    assert_eq!(evs.len(), 1);
    match &evs[0] {
        HciEvent::CommandComplete { n_cmd, opcode, status, rest } => {
            assert_eq!(*n_cmd, 1);
            assert_eq!(*opcode, 0x200B);
            assert_eq!(*status, 0);
            assert!(rest.is_empty());
        }
        _ => panic!("expected CommandComplete"),
    }
}

#[test]
fn advertising_report_example() {
    let buf = [0x04, 0x3E, 0x0C, 0x02, 0x01, 0x00, 0x00, 0xAA, 0xBB, 0xCC, 0xDD, 0xEE, 0xFF, 0x00, 0xC8];
    let evs = parse_hci_events(&buf).unwrap();
    assert_eq!(evs.len(), 1);
    match &evs[0] {
        HciEvent::AdvertisingReport { reports } => {
            assert_eq!(reports.len(), 1);
            let r = &reports[0];
            assert_eq!(r.evt_type, 0);
            assert_eq!(r.addr_type, 0);
            assert_eq!(r.addr, [0xAA, 0xBB, 0xCC, 0xDD, 0xEE, 0xFF]);
            assert_eq!(r.rssi, -56);
            assert!(r.data.is_empty());
            assert!(r.data_parsed.is_empty());
        }
        _ => panic!("expected AdvertisingReport"),
    }
}

#[test]
fn two_events_in_order() {
    let buf = [0x04, 0x0E, 0x04, 0x01, 0x0B, 0x20, 0x00, 0x04, 0x0E, 0x05, 0x02, 0x0C, 0x20, 0x01, 0x09];
    let evs = parse_hci_events(&buf).unwrap();
    assert_eq!(evs.len(), 2);
    match (&evs[0], &evs[1]) {
        (HciEvent::CommandComplete { opcode: a, .. }, HciEvent::CommandComplete { opcode: b, status, rest, .. }) => {
            assert_eq!(*a, 0x200B);
            assert_eq!(*b, 0x200C);
            assert_eq!(*status, 1);
            assert_eq!(*rest, &[0x09]);
        }
        _ => panic!("expected two CommandComplete events"),
    }
}

#[test]
fn event_then_garbage_stops_cleanly() {
    let one = [0x04, 0x0E, 0x04, 0x01, 0x0B, 0x20, 0x00, 0x04];
    assert_eq!(parse_hci_events(&one).unwrap().len(), 1);
    let two = [0x04, 0x0E, 0x04, 0x01, 0x0B, 0x20, 0x00, 0x04, 0x0E];
    assert_eq!(parse_hci_events(&two).unwrap().len(), 1);
}

#[test]
fn non_event_marker_stops_parsing() {
    let buf = [0x02, 0x0E, 0x04, 0x01, 0x0B, 0x20, 0x00];
    assert_eq!(parse_hci_events(&buf).unwrap().len(), 0);
}

#[test]
fn event_past_end_is_invalid() {
    let buf = [0x04, 0x0E, 0x09, 0x01, 0x0B];
    assert!(matches!(parse_hci_events(&buf), Err(EspError::InvalidData)));
}

#[test]
fn unknown_event_code_is_kept() {
    let buf = [0x04, 0x13, 0x02, 0xAA, 0xBB];
    let evs = parse_hci_events(&buf).unwrap();
    match &evs[0] {
        HciEvent::Unknown { evt, params } => {
            assert_eq!(*evt, 0x13);
            assert_eq!(*params, &[0xAA, 0xBB]);
        }
        _ => panic!("expected Unknown"),
    }
}

#[test]
fn too_many_events_is_capacity() {
    let buf = [0x04, 0x13, 0x00, 0x04, 0x13, 0x00, 0x04, 0x13, 0x00];
    assert!(matches!(parse_hci_events(&buf), Err(EspError::Capacity)));
}

#[test]
fn short_command_complete_is_invalid() {
    let buf = [0x04, 0x0E, 0x02, 0x01, 0x0B];
    assert!(matches!(parse_hci_events(&buf), Err(EspError::InvalidData)));
}

#[test]
fn advertising_reports_beyond_bytes_are_dropped() {
    // Declares two reports, carries one.
    let buf = [0x04, 0x3E, 0x0C, 0x02, 0x02, 0x00, 0x01, 1, 2, 3, 4, 5, 6, 0x00, 0xD0];
    let evs = parse_hci_events(&buf).unwrap();
    match &evs[0] {
        HciEvent::AdvertisingReport { reports } => {
            assert_eq!(reports.len(), 1);
            assert_eq!(reports[0].addr_type, 1);
            assert_eq!(reports[0].rssi, -48);
        }
        _ => panic!("expected AdvertisingReport"),
    }
}

#[test]
fn advertising_report_with_ad_data() {
    let buf = [
        0x04, 0x3E, 0x13, 0x02, 0x01, 0x03, 0x00, 1, 2, 3, 4, 5, 6, 0x07, 0x02, 0x01, 0x06, 0x03, 0x09, b'h', b'i', 0x10,
    ];
    let evs = parse_hci_events(&buf).unwrap();
    match &evs[0] {
        HciEvent::AdvertisingReport { reports } => {
            let r = &reports[0];
            assert_eq!(r.evt_type, 3);
            assert_eq!(r.data.len(), 7);
            assert_eq!(r.rssi, 16);
            assert_eq!(r.data_parsed.len(), 2);
            assert!(matches!(r.data_parsed[0], AdvData::Flags(6)));
            assert!(matches!(r.data_parsed[1], AdvData::CompleteLocalName("hi")));
        }
        _ => panic!("expected AdvertisingReport"),
    }
}

#[test]
fn ad_parser_truncates_at_overlong_structure() {
    let d = [0x02, 0x01, 0x06, 0x05, 0xFF, 0x4C, 0x00, 0x01, 0x02, 0x09, 0x09, b'a'];
    let ads = parse_adv_data(&d);
    assert_eq!(ads.len(), 2);
    assert!(matches!(ads[0], AdvData::Flags(6)));
    match ads[1] {
        AdvData::Manufacturer { company, data } => {
            assert_eq!(company, 0x004C);
            assert_eq!(data, &[0x01, 0x02]);
        }
        _ => panic!("expected Manufacturer"),
    }
}

#[test]
fn ad_parser_stops_at_zero_length_and_skips_bad_names() {
    let d = [0x03, 0x08, 0xFF, 0xFE, 0x02, 0x0A, 0x07, 0x00, 0x02, 0x01, 0x05];
    let ads = parse_adv_data(&d);
    assert_eq!(ads.len(), 1);
    assert!(matches!(ads[0], AdvData::Other { typ: 0x0A, data: [0x07] }));
}

#[test]
fn ad_parser_keeps_first_five() {
    let d = [2, 0x0A, 1, 2, 0x0A, 2, 2, 0x0A, 3, 2, 0x0A, 4, 2, 0x0A, 5, 2, 0x0A, 6];
    let ads = parse_adv_data(&d);
    assert_eq!(ads.len(), 5);
    assert!(matches!(ads[4], AdvData::Other { typ: 0x0A, data: [5] }));
}

#[test]
fn ad_uuid_and_service_types() {
    let d = [3, 0x03, 0x0D, 0x18, 3, 0x16, 0xAA, 0xFE, 2, 0x02, 0x11];
    let ads = parse_adv_data(&d);
    assert!(matches!(ads[0], AdvData::Complete16BitUuids([0x0D, 0x18])));
    assert!(matches!(ads[1], AdvData::ServiceData16Bit([0xAA, 0xFE])));
    assert!(matches!(ads[2], AdvData::Incomplete16BitUuids([0x11])));
}

#[test]
fn opcode_and_command() {
    let op = make_hci_opcode(HciOgf::LeController, HciOcf::SetScanParams);
    assert_eq!(op, 0x200B);
    let (buf, n) = make_hci_cmd(op, &[1, 2, 3]).unwrap();
    assert_eq!(n, 6);
    assert_eq!(&buf[..6], &[0x0B, 0x20, 3, 1, 2, 3]);
    assert!(buf[6..].iter().all(|&b| b == 0));
    assert!(make_hci_cmd(op, &[0u8; 61]).is_ok());
    assert!(matches!(make_hci_cmd(op, &[0u8; 62]), Err(EspError::Capacity)));
}

#[test]
fn scan_params_in_units() {
    let p = BleScanParams {
        scan_type: BleScanType::Active,
        interval: 100,
        window: 50,
        own_address_type: BleOwnAddrType::Public,
        filter_policy: FilterPolicy::AcceptAll,
    };
    assert_eq!(p.to_bytes(), [1, 160, 0, 80, 0, 0, 0]);
    let q = BleScanParams { interval: 1, window: 65535, scan_type: BleScanType::Passive, ..p };
    assert_eq!(q.to_bytes(), [0, 2, 0, 0xFF, 0xFF, 0, 0]);
}

#[test]
fn adv_params_bytes() {
    let p = le_set_adv_params_bytes(100, 0x03, 1);
    assert_eq!(p, [160, 0, 160, 0, 3, 0, 1, 0, 0, 0, 0, 0, 0, 7, 0]);
}

#[test]
fn adv_data_manufacturer() {
    let p = le_set_adv_data_manu(0x02E5, &[0xAA, 0xBB]).unwrap();
    assert_eq!(&p[..7], &[6, 5, 0xFF, 0xE5, 0x02, 0xAA, 0xBB]);
    assert!(p[7..].iter().all(|&b| b == 0));
    assert!(matches!(le_set_adv_data_manu(1, &[0u8; 28]), Err(EspError::Capacity)));
    assert!(le_set_adv_data_manu(1, &[0u8; 27]).is_ok());
}

#[test]
fn scan_response_name() {
    let p = le_set_scan_rsp_name(b"esp").unwrap();
    assert_eq!(&p[..6], &[5, 4, 0x09, b'e', b's', b'p']);
    let long = [b'x'; 40];
    let q = le_set_scan_rsp_name(&long).unwrap();
    assert_eq!(&q[..3], &[31, 30, 0x08]);
    assert_eq!(q[31], b'x');
}

#[test]
fn event_type_codes() {
    assert_eq!(HciEventType::LeAdvertising.val(), 0x3E);
    assert_eq!(HciEventType::from_val(0x0E).unwrap(), HciEventType::CommandComplete);
    assert!(HciEventType::from_val(0x99).is_err());
}
