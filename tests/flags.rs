use esp_hosted::misc::{get_bit_u32, set_bit_u32, wifi_scan_ap_rec, wifi_sta_config_1, wifi_sta_config_2, wifi_sta_info, FlowCtrl};

#[test]
fn bit_helpers() {
    assert_eq!(set_bit_u32(0, 3), 8);
    assert_eq!(set_bit_u32(8, 3), 8);
    assert!(get_bit_u32(0x10, 4));
    assert!(!get_bit_u32(0x10, 3));
    assert!(get_bit_u32(0x8000_0000, 31));
}

#[test]
fn reserved_bits() {
    assert_eq!(wifi_scan_ap_rec::get_reserved(0xFC01), 0x3F);
    assert_eq!(wifi_scan_ap_rec::set_reserved(0x0001, 0x3), 0x0C01);
    assert_eq!(wifi_sta_info::get_reserved(0xFFC0), 0x3FF);
    assert_eq!(wifi_sta_info::set_reserved(0x1, 1), 0x41);
    assert_eq!(wifi_sta_config_1::get_reserved(0xFFFF_FFC0), 0x03FF_FFFF);
    assert_eq!(wifi_sta_config_2::get_reserved(0x0000_2000), 1);
    assert_eq!(wifi_sta_config_2::set_reserved(0, 2), 0x4000);
}

#[test]
fn flow_control_values() {
    assert_eq!(FlowCtrl::Off.val(), 2);
    assert_eq!(FlowCtrl::from_val(1).unwrap(), FlowCtrl::On);
    assert!(FlowCtrl::from_val(3).is_err());
}
