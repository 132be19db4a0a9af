//! Wi-Fi control: configuration records, request builders for the native
//! API, and the field walker that decodes access-point records.

use vstd::prelude::*;

verus! {

use crate::ble::i8_of;
use crate::bounded::{bssid_as_slice, bssid_bytes, bssid_new, ssid_as_slice, ap_list_new, ap_list_push, ap_record_items, ssid_bytes, ssid_from_slice, ssid_new};
use crate::header::SeqCounter;
use crate::proto_data::{scan_start_bytes, wifi_init_bytes, RpcId, RpcReqWifiInit, RpcReqWifiScanStart};
use crate::rpc::{framed, write_empty_msg, write_request, Rpc, RpcType};
use crate::wire::{append_bytes, append_field, read_varint, varint_at, copy_into, field_spec, i32_bits, i32_to_u64, splice, varint_fields_spec, write_rpc, write_varint_fields, WireType};
use crate::EspError;

/// Most access-point records one response carries.
pub const MAX_AP_RECORDS: usize = 30;

/// Active or passive scanning.
#[allow(non_camel_case_types)]
#[derive(Clone, Copy, Debug, PartialEq, Eq, Structural)]
pub enum ScanType {
    Active,
    Passive,
}

impl ScanType {
    /// Numeric value of this variant.
    pub open spec fn spec_val(self) -> u8 {
        match self {
            ScanType::Active => 0,
            ScanType::Passive => 1,
        }
    }

    /// Numeric value of this variant.
    pub fn val(&self) -> (r: u8)
        ensures
            r == self.spec_val(),
    {
        match self {
            ScanType::Active => 0,
            ScanType::Passive => 1,
        }
    }

    /// The variant with value `b`, if any.
    pub open spec fn spec_from_val(b: u8) -> Option<ScanType> {
        if b == 0 {
            Some(ScanType::Active)
        } else if b == 1 {
            Some(ScanType::Passive)
        } else {
            None
        }
    }

    /// The variant with value `b`; `InvalidData` for any other value.
    pub fn from_val(b: u8) -> (r: Result<ScanType, EspError>)
        ensures
            match ScanType::spec_from_val(b) {
                Some(v) => r == Ok::<ScanType, EspError>(v),
                None => r == Err::<ScanType, EspError>(EspError::InvalidData),
            },
    {
        match b {
            0 => Ok(ScanType::Active),
            1 => Ok(ScanType::Passive),
            _ => Err(EspError::InvalidData),
        }
    }
}

/// Position of the secondary channel.
#[allow(non_camel_case_types)]
#[derive(Clone, Copy, Debug, PartialEq, Eq, Structural)]
pub enum WifiSecondChan {
    /// No secondary channel.
    NoSecondChan,
    Above,
    Below,
}

impl WifiSecondChan {
    /// Numeric value of this variant.
    pub open spec fn spec_val(self) -> u8 {
        match self {
            WifiSecondChan::NoSecondChan => 0,
            WifiSecondChan::Above => 1,
            WifiSecondChan::Below => 2,
        }
    }

    /// Numeric value of this variant.
    pub fn val(&self) -> (r: u8)
        ensures
            r == self.spec_val(),
    {
        match self {
            WifiSecondChan::NoSecondChan => 0,
            WifiSecondChan::Above => 1,
            WifiSecondChan::Below => 2,
        }
    }

    /// The variant with value `b`, if any.
    pub open spec fn spec_from_val(b: u8) -> Option<WifiSecondChan> {
        if b == 0 {
            Some(WifiSecondChan::NoSecondChan)
        } else if b == 1 {
            Some(WifiSecondChan::Above)
        } else if b == 2 {
            Some(WifiSecondChan::Below)
        } else {
            None
        }
    }

    /// The variant with value `b`; `InvalidData` for any other value.
    pub fn from_val(b: u8) -> (r: Result<WifiSecondChan, EspError>)
        ensures
            match WifiSecondChan::spec_from_val(b) {
                Some(v) => r == Ok::<WifiSecondChan, EspError>(v),
                None => r == Err::<WifiSecondChan, EspError>(EspError::InvalidData),
            },
    {
        match b {
            0 => Ok(WifiSecondChan::NoSecondChan),
            1 => Ok(WifiSecondChan::Above),
            2 => Ok(WifiSecondChan::Below),
            _ => Err(EspError::InvalidData),
        }
    }
}

/// Authentication mode of an access point.
#[allow(non_camel_case_types)]
#[derive(Clone, Copy, Debug, PartialEq, Eq, Structural)]
pub enum WifiAuthMode {
    Open,
    WEP,
    WPA_PSK,
    WPA2_PSK,
    WPA_WPA2_PSK,
    ENTERPRISE,
    WPA2_ENTERPRISE,
    WPA3_PSK,
}

impl WifiAuthMode {
    /// Numeric value of this variant.
    pub open spec fn spec_val(self) -> u8 {
        match self {
            WifiAuthMode::Open => 0,
            WifiAuthMode::WEP => 1,
            WifiAuthMode::WPA_PSK => 2,
            WifiAuthMode::WPA2_PSK => 3,
            WifiAuthMode::WPA_WPA2_PSK => 4,
            WifiAuthMode::ENTERPRISE => 5,
            WifiAuthMode::WPA2_ENTERPRISE => 6,
            WifiAuthMode::WPA3_PSK => 7,
        }
    }

    /// Numeric value of this variant.
    pub fn val(&self) -> (r: u8)
        ensures
            r == self.spec_val(),
    {
        match self {
            WifiAuthMode::Open => 0,
            WifiAuthMode::WEP => 1,
            WifiAuthMode::WPA_PSK => 2,
            WifiAuthMode::WPA2_PSK => 3,
            WifiAuthMode::WPA_WPA2_PSK => 4,
            WifiAuthMode::ENTERPRISE => 5,
            WifiAuthMode::WPA2_ENTERPRISE => 6,
            WifiAuthMode::WPA3_PSK => 7,
        }
    }

    /// The variant with value `b`, if any.
    pub open spec fn spec_from_val(b: u8) -> Option<WifiAuthMode> {
        if b == 0 {
            Some(WifiAuthMode::Open)
        } else if b == 1 {
            Some(WifiAuthMode::WEP)
        } else if b == 2 {
            Some(WifiAuthMode::WPA_PSK)
        } else if b == 3 {
            Some(WifiAuthMode::WPA2_PSK)
        } else if b == 4 {
            Some(WifiAuthMode::WPA_WPA2_PSK)
        } else if b == 5 {
            Some(WifiAuthMode::ENTERPRISE)
        } else if b == 6 {
            Some(WifiAuthMode::WPA2_ENTERPRISE)
        } else if b == 7 {
            Some(WifiAuthMode::WPA3_PSK)
        } else {
            None
        }
    }

    /// The variant with value `b`; `InvalidData` for any other value.
    pub fn from_val(b: u8) -> (r: Result<WifiAuthMode, EspError>)
        ensures
            match WifiAuthMode::spec_from_val(b) {
                Some(v) => r == Ok::<WifiAuthMode, EspError>(v),
                None => r == Err::<WifiAuthMode, EspError>(EspError::InvalidData),
            },
    {
        match b {
            0 => Ok(WifiAuthMode::Open),
            1 => Ok(WifiAuthMode::WEP),
            2 => Ok(WifiAuthMode::WPA_PSK),
            3 => Ok(WifiAuthMode::WPA2_PSK),
            4 => Ok(WifiAuthMode::WPA_WPA2_PSK),
            5 => Ok(WifiAuthMode::ENTERPRISE),
            6 => Ok(WifiAuthMode::WPA2_ENTERPRISE),
            7 => Ok(WifiAuthMode::WPA3_PSK),
            _ => Err(EspError::InvalidData),
        }
    }
}

/// Cipher type.
#[allow(non_camel_case_types)]
#[derive(Clone, Copy, Debug, PartialEq, Eq, Structural)]
pub enum WifiCipher {
    /// No cipher.
    NoCipher,
    WEP40,
    WEP104,
    TKIP,
    CCMP,
    TKIP_CCMP,
    AES_CMAC128,
    SMS4,
    GCMP,
    GCMP256,
    AES_GMAC128,
    AES_GMAC256,
    UNKNOWN,
}

impl WifiCipher {
    /// Numeric value of this variant.
    pub open spec fn spec_val(self) -> u8 {
        match self {
            WifiCipher::NoCipher => 0,
            WifiCipher::WEP40 => 1,
            WifiCipher::WEP104 => 2,
            WifiCipher::TKIP => 3,
            WifiCipher::CCMP => 4,
            WifiCipher::TKIP_CCMP => 5,
            WifiCipher::AES_CMAC128 => 6,
            WifiCipher::SMS4 => 7,
            WifiCipher::GCMP => 8,
            WifiCipher::GCMP256 => 9,
            WifiCipher::AES_GMAC128 => 10,
            WifiCipher::AES_GMAC256 => 11,
            WifiCipher::UNKNOWN => 12,
        }
    }

    /// Numeric value of this variant.
    pub fn val(&self) -> (r: u8)
        ensures
            r == self.spec_val(),
    {
        match self {
            WifiCipher::NoCipher => 0,
            WifiCipher::WEP40 => 1,
            WifiCipher::WEP104 => 2,
            WifiCipher::TKIP => 3,
            WifiCipher::CCMP => 4,
            WifiCipher::TKIP_CCMP => 5,
            WifiCipher::AES_CMAC128 => 6,
            WifiCipher::SMS4 => 7,
            WifiCipher::GCMP => 8,
            WifiCipher::GCMP256 => 9,
            WifiCipher::AES_GMAC128 => 10,
            WifiCipher::AES_GMAC256 => 11,
            WifiCipher::UNKNOWN => 12,
        }
    }

    /// The variant with value `b`, if any.
    pub open spec fn spec_from_val(b: u8) -> Option<WifiCipher> {
        if b == 0 {
            Some(WifiCipher::NoCipher)
        } else if b == 1 {
            Some(WifiCipher::WEP40)
        } else if b == 2 {
            Some(WifiCipher::WEP104)
        } else if b == 3 {
            Some(WifiCipher::TKIP)
        } else if b == 4 {
            Some(WifiCipher::CCMP)
        } else if b == 5 {
            Some(WifiCipher::TKIP_CCMP)
        } else if b == 6 {
            Some(WifiCipher::AES_CMAC128)
        } else if b == 7 {
            Some(WifiCipher::SMS4)
        } else if b == 8 {
            Some(WifiCipher::GCMP)
        } else if b == 9 {
            Some(WifiCipher::GCMP256)
        } else if b == 10 {
            Some(WifiCipher::AES_GMAC128)
        } else if b == 11 {
            Some(WifiCipher::AES_GMAC256)
        } else if b == 12 {
            Some(WifiCipher::UNKNOWN)
        } else {
            None
        }
    }

    /// The variant with value `b`; `InvalidData` for any other value.
    pub fn from_val(b: u8) -> (r: Result<WifiCipher, EspError>)
        ensures
            match WifiCipher::spec_from_val(b) {
                Some(v) => r == Ok::<WifiCipher, EspError>(v),
                None => r == Err::<WifiCipher, EspError>(EspError::InvalidData),
            },
    {
        match b {
            0 => Ok(WifiCipher::NoCipher),
            1 => Ok(WifiCipher::WEP40),
            2 => Ok(WifiCipher::WEP104),
            3 => Ok(WifiCipher::TKIP),
            4 => Ok(WifiCipher::CCMP),
            5 => Ok(WifiCipher::TKIP_CCMP),
            6 => Ok(WifiCipher::AES_CMAC128),
            7 => Ok(WifiCipher::SMS4),
            8 => Ok(WifiCipher::GCMP),
            9 => Ok(WifiCipher::GCMP256),
            10 => Ok(WifiCipher::AES_GMAC128),
            11 => Ok(WifiCipher::AES_GMAC256),
            12 => Ok(WifiCipher::UNKNOWN),
            _ => Err(EspError::InvalidData),
        }
    }
}

/// Antenna.
#[allow(non_camel_case_types)]
#[derive(Clone, Copy, Debug, PartialEq, Eq, Structural)]
pub enum WifiAnt {
    Ant0,
    Ant1,
    /// Invalid.
    Max,
}

impl WifiAnt {
    /// Numeric value of this variant.
    pub open spec fn spec_val(self) -> u8 {
        match self {
            WifiAnt::Ant0 => 0,
            WifiAnt::Ant1 => 1,
            WifiAnt::Max => 2,
        }
    }

    /// Numeric value of this variant.
    pub fn val(&self) -> (r: u8)
        ensures
            r == self.spec_val(),
    {
        match self {
            WifiAnt::Ant0 => 0,
            WifiAnt::Ant1 => 1,
            WifiAnt::Max => 2,
        }
    }

    /// The variant with value `b`, if any.
    pub open spec fn spec_from_val(b: u8) -> Option<WifiAnt> {
        if b == 0 {
            Some(WifiAnt::Ant0)
        } else if b == 1 {
            Some(WifiAnt::Ant1)
        } else if b == 2 {
            Some(WifiAnt::Max)
        } else {
            None
        }
    }

    /// The variant with value `b`; `InvalidData` for any other value.
    pub fn from_val(b: u8) -> (r: Result<WifiAnt, EspError>)
        ensures
            match WifiAnt::spec_from_val(b) {
                Some(v) => r == Ok::<WifiAnt, EspError>(v),
                None => r == Err::<WifiAnt, EspError>(EspError::InvalidData),
            },
    {
        match b {
            0 => Ok(WifiAnt::Ant0),
            1 => Ok(WifiAnt::Ant1),
            2 => Ok(WifiAnt::Max),
            _ => Err(EspError::InvalidData),
        }
    }
}

/// Channel bandwidth.
#[allow(non_camel_case_types)]
#[derive(Clone, Copy, Debug, PartialEq, Eq, Structural)]
pub enum WifiBandwidth {
    HT20,
    /// 20 MHz
    BW20,
    BW_HT40,
    /// 40 MHz
    BW40,
    BW80,
    BW160,
    /// 80 + 80 MHz
    BW80_BW80,
}

impl WifiBandwidth {
    /// Numeric value of this variant.
    pub open spec fn spec_val(self) -> u8 {
        match self {
            WifiBandwidth::HT20 => 0,
            WifiBandwidth::BW20 => 1,
            WifiBandwidth::BW_HT40 => 2,
            WifiBandwidth::BW40 => 3,
            WifiBandwidth::BW80 => 4,
            WifiBandwidth::BW160 => 5,
            WifiBandwidth::BW80_BW80 => 6,
        }
    }

    /// Numeric value of this variant.
    pub fn val(&self) -> (r: u8)
        ensures
            r == self.spec_val(),
    {
        match self {
            WifiBandwidth::HT20 => 0,
            WifiBandwidth::BW20 => 1,
            WifiBandwidth::BW_HT40 => 2,
            WifiBandwidth::BW40 => 3,
            WifiBandwidth::BW80 => 4,
            WifiBandwidth::BW160 => 5,
            WifiBandwidth::BW80_BW80 => 6,
        }
    }

    /// The variant with value `b`, if any.
    pub open spec fn spec_from_val(b: u8) -> Option<WifiBandwidth> {
        if b == 0 {
            Some(WifiBandwidth::HT20)
        } else if b == 1 {
            Some(WifiBandwidth::BW20)
        } else if b == 2 {
            Some(WifiBandwidth::BW_HT40)
        } else if b == 3 {
            Some(WifiBandwidth::BW40)
        } else if b == 4 {
            Some(WifiBandwidth::BW80)
        } else if b == 5 {
            Some(WifiBandwidth::BW160)
        } else if b == 6 {
            Some(WifiBandwidth::BW80_BW80)
        } else {
            None
        }
    }

    /// The variant with value `b`; `InvalidData` for any other value.
    pub fn from_val(b: u8) -> (r: Result<WifiBandwidth, EspError>)
        ensures
            match WifiBandwidth::spec_from_val(b) {
                Some(v) => r == Ok::<WifiBandwidth, EspError>(v),
                None => r == Err::<WifiBandwidth, EspError>(EspError::InvalidData),
            },
    {
        match b {
            0 => Ok(WifiBandwidth::HT20),
            1 => Ok(WifiBandwidth::BW20),
            2 => Ok(WifiBandwidth::BW_HT40),
            3 => Ok(WifiBandwidth::BW40),
            4 => Ok(WifiBandwidth::BW80),
            5 => Ok(WifiBandwidth::BW160),
            6 => Ok(WifiBandwidth::BW80_BW80),
            _ => Err(EspError::InvalidData),
        }
    }
}

/// Wi-Fi interface.
#[allow(non_camel_case_types)]
#[derive(Clone, Copy, Debug, PartialEq, Eq, Structural)]
pub enum InterfaceType {
    Station,
    Ap,
}

impl InterfaceType {
    /// Numeric value of this variant.
    pub open spec fn spec_val(self) -> u8 {
        match self {
            InterfaceType::Station => 0,
            InterfaceType::Ap => 1,
        }
    }

    /// Numeric value of this variant.
    pub fn val(&self) -> (r: u8)
        ensures
            r == self.spec_val(),
    {
        match self {
            InterfaceType::Station => 0,
            InterfaceType::Ap => 1,
        }
    }
}

/// Wi-Fi operating mode.
#[allow(non_camel_case_types)]
#[derive(Clone, Copy, Debug, PartialEq, Eq, Structural)]
pub enum WifiMode {
    /// Radio off.
    Null,
    /// Station: can scan and connect.
    Station,
    /// Soft access point; cannot scan.
    SoftAp,
    /// Soft access point and station.
    ApStation,
}

impl WifiMode {
    /// Numeric value of this variant.
    pub open spec fn spec_val(self) -> u8 {
        match self {
            WifiMode::Null => 0,
            WifiMode::Station => 1,
            WifiMode::SoftAp => 2,
            WifiMode::ApStation => 3,
        }
    }

    /// Numeric value of this variant.
    pub fn val(&self) -> (r: u8)
        ensures
            r == self.spec_val(),
    {
        match self {
            WifiMode::Null => 0,
            WifiMode::Station => 1,
            WifiMode::SoftAp => 2,
            WifiMode::ApStation => 3,
        }
    }
}

/// Frame type passed to the promiscuous-mode receive callback.
#[allow(non_camel_case_types)]
#[derive(Clone, Copy, Debug, PartialEq, Eq, Structural)]
pub enum PromiscuousPktType {
    /// Management frame.
    Mgmt,
    /// Control frame.
    Ctrl,
    /// Data frame.
    Data,
    /// Other type, such as MIMO.
    Misc,
}

impl PromiscuousPktType {
    /// Numeric value of this variant.
    pub open spec fn spec_val(self) -> u8 {
        match self {
            PromiscuousPktType::Mgmt => 0,
            PromiscuousPktType::Ctrl => 1,
            PromiscuousPktType::Data => 2,
            PromiscuousPktType::Misc => 3,
        }
    }

    /// Numeric value of this variant.
    pub fn val(&self) -> (r: u8)
        ensures
            r == self.spec_val(),
    {
        match self {
            PromiscuousPktType::Mgmt => 0,
            PromiscuousPktType::Ctrl => 1,
            PromiscuousPktType::Data => 2,
            PromiscuousPktType::Misc => 3,
        }
    }
}

/// Configuration of the Wi-Fi driver, sent with `init`.
#[derive(Clone, Copy, Debug, PartialEq, Eq, Structural)]
pub struct InitConfig {
    pub static_rx_buf_num: i32,
    pub dynamic_rx_buf_num: i32,
    pub tx_buf_type: i32,
    pub static_tx_buf_num: i32,
    pub dynamic_tx_buf_num: i32,
    pub cache_tx_buf_num: i32,
    pub csi_enable: i32,
    pub ampdu_rx_enable: i32,
    pub ampdu_tx_enable: i32,
    pub amsdu_tx_enable: i32,
    pub nvs_enable: i32,
    pub nano_enable: i32,
    pub rx_ba_win: i32,
    pub wifi_task_core_id: i32,
    pub beacon_max_len: i32,
    pub mgmt_sbuf_num: i32,
    pub feature_caps: u64,
    pub sta_disconnected_pm: bool,
    pub espnow_max_encrypt_num: i32,
    pub magic: i32,
}

/// 1 for true, 0 for false.
pub open spec fn bool_val(b: bool) -> u64 {
    if b {
        1
    } else {
        0
    }
}

/// The values of the twenty fields of `c`, in field order.
pub open spec fn init_config_vals(c: InitConfig) -> Seq<u64> {
    seq![
        i32_bits(c.static_rx_buf_num),
        i32_bits(c.dynamic_rx_buf_num),
        i32_bits(c.tx_buf_type),
        i32_bits(c.static_tx_buf_num),
        i32_bits(c.dynamic_tx_buf_num),
        i32_bits(c.cache_tx_buf_num),
        i32_bits(c.csi_enable),
        i32_bits(c.ampdu_rx_enable),
        i32_bits(c.ampdu_tx_enable),
        i32_bits(c.amsdu_tx_enable),
        i32_bits(c.nvs_enable),
        i32_bits(c.nano_enable),
        i32_bits(c.rx_ba_win),
        i32_bits(c.wifi_task_core_id),
        i32_bits(c.beacon_max_len),
        i32_bits(c.mgmt_sbuf_num),
        c.feature_caps,
        bool_val(c.sta_disconnected_pm),
        i32_bits(c.espnow_max_encrypt_num),
        i32_bits(c.magic),
    ]
}

/// The encoded fields of `c`.
pub open spec fn init_config_bytes(c: InitConfig) -> Seq<u8> {
    varint_fields_spec(1, init_config_vals(c))
}

impl Default for InitConfig {
    /// Settings suited to a station.
    fn default() -> (r: Self)
        ensures
            r == (InitConfig {
                static_rx_buf_num: 10,
                dynamic_rx_buf_num: 32,
                tx_buf_type: 3,
                static_tx_buf_num: 0,
                dynamic_tx_buf_num: 32,
                cache_tx_buf_num: 32,
                csi_enable: 0,
                ampdu_rx_enable: 1,
                ampdu_tx_enable: 1,
                amsdu_tx_enable: 1,
                nvs_enable: 1,
                nano_enable: 0,
                rx_ba_win: 6,
                wifi_task_core_id: 0,
                beacon_max_len: 752,
                mgmt_sbuf_num: 32,
                feature_caps: 0,
                sta_disconnected_pm: false,
                espnow_max_encrypt_num: 7,
                magic: 0x1F2F3F4F,
            }),
    {
        InitConfig {
            static_rx_buf_num: 10,
            dynamic_rx_buf_num: 32,
            tx_buf_type: 3,
            static_tx_buf_num: 0,
            dynamic_tx_buf_num: 32,
            cache_tx_buf_num: 32,
            csi_enable: 0,
            ampdu_rx_enable: 1,
            ampdu_tx_enable: 1,
            amsdu_tx_enable: 1,
            nvs_enable: 1,
            nano_enable: 0,
            rx_ba_win: 6,
            wifi_task_core_id: 0,
            beacon_max_len: 752,
            mgmt_sbuf_num: 32,
            feature_caps: 0,
            sta_disconnected_pm: false,
            espnow_max_encrypt_num: 7,
            magic: 0x1F2F3F4F,
        }
    }

}

impl InitConfig {
    /// Settings suited to passive (promiscuous) use.
    pub fn new_promiscuous() -> (r: Self)
        ensures
            r == (InitConfig {
                static_rx_buf_num: 10,
                dynamic_rx_buf_num: 64,
                tx_buf_type: 1,
                static_tx_buf_num: 0,
                dynamic_tx_buf_num: 32,
                cache_tx_buf_num: 0,
                csi_enable: 0,
                ampdu_rx_enable: 0,
                ampdu_tx_enable: 0,
                amsdu_tx_enable: 0,
                nvs_enable: 0,
                nano_enable: 0,
                rx_ba_win: 6,
                wifi_task_core_id: 0,
                beacon_max_len: 752,
                mgmt_sbuf_num: 32,
                feature_caps: 0,
                sta_disconnected_pm: false,
                espnow_max_encrypt_num: 0,
                magic: 0x1F2F3F4F,
            }),
    {
        InitConfig {
            static_rx_buf_num: 10,
            dynamic_rx_buf_num: 64,
            tx_buf_type: 1,
            static_tx_buf_num: 0,
            dynamic_tx_buf_num: 32,
            cache_tx_buf_num: 0,
            csi_enable: 0,
            ampdu_rx_enable: 0,
            ampdu_tx_enable: 0,
            amsdu_tx_enable: 0,
            nvs_enable: 0,
            nano_enable: 0,
            rx_ba_win: 6,
            wifi_task_core_id: 0,
            beacon_max_len: 752,
            mgmt_sbuf_num: 32,
            feature_caps: 0,
            sta_disconnected_pm: false,
            espnow_max_encrypt_num: 0,
            magic: 0x1F2F3F4F,
        }
    }

    /// Encodes the twenty fields as varints at the start of `buf`; returns
    /// the bytes written, or `Capacity` when they do not fit.
    pub fn to_bytes(&self, buf: &mut [u8]) -> (r: Result<usize, EspError>)
        ensures
            init_config_bytes(*self).len() <= old(buf)@.len() ==> {
                &&& r == Ok::<usize, EspError>(init_config_bytes(*self).len() as usize)
                &&& final(buf)@ == splice(old(buf)@, 0, init_config_bytes(*self))
            },
            init_config_bytes(*self).len() > old(buf)@.len() ==> r == Err::<usize, EspError>(EspError::Capacity),
    {
        let vals: [u64; 20] = [
            i32_to_u64(self.static_rx_buf_num),
            i32_to_u64(self.dynamic_rx_buf_num),
            i32_to_u64(self.tx_buf_type),
            i32_to_u64(self.static_tx_buf_num),
            i32_to_u64(self.dynamic_tx_buf_num),
            i32_to_u64(self.cache_tx_buf_num),
            i32_to_u64(self.csi_enable),
            i32_to_u64(self.ampdu_rx_enable),
            i32_to_u64(self.ampdu_tx_enable),
            i32_to_u64(self.amsdu_tx_enable),
            i32_to_u64(self.nvs_enable),
            i32_to_u64(self.nano_enable),
            i32_to_u64(self.rx_ba_win),
            i32_to_u64(self.wifi_task_core_id),
            i32_to_u64(self.beacon_max_len),
            i32_to_u64(self.mgmt_sbuf_num),
            self.feature_caps,
            if self.sta_disconnected_pm { 1 } else { 0 },
            i32_to_u64(self.espnow_max_encrypt_num),
            i32_to_u64(self.magic),
        ];
        assert(vals@ =~= init_config_vals(*self));
        write_varint_fields(buf, 1, &vals)
    }
}

/// Active scan time per channel, in ms; 0 means the built-in default.
#[derive(Clone, Copy, Debug, PartialEq, Eq, Structural)]
pub struct ActiveScanTime {
    pub min: u32,
    /// Values above 1500 ms may disconnect the station.
    pub max: u32,
}

/// The encoded fields of `t`.
pub open spec fn active_scan_time_bytes(t: ActiveScanTime) -> Seq<u8> {
    varint_fields_spec(1, seq![t.min as u64, t.max as u64])
}

impl ActiveScanTime {
    /// Encodes `min` and `max` as varint fields 1 and 2 at the start of `buf`.
    pub fn to_bytes(&self, buf: &mut [u8]) -> (r: Result<usize, EspError>)
        ensures
            active_scan_time_bytes(*self).len() <= old(buf)@.len() ==> {
                &&& r == Ok::<usize, EspError>(active_scan_time_bytes(*self).len() as usize)
                &&& final(buf)@ == splice(old(buf)@, 0, active_scan_time_bytes(*self))
            },
            active_scan_time_bytes(*self).len() > old(buf)@.len() ==> r == Err::<usize, EspError>(EspError::Capacity),
    {
        let vals: [u64; 2] = [self.min as u64, self.max as u64];
        assert(vals@ =~= seq![self.min as u64, self.max as u64]);
        write_varint_fields(buf, 1, &vals)
    }
}

/// Active and passive scan time per channel.
#[derive(Clone, Copy, Debug, PartialEq, Eq, Structural)]
pub struct ScanTime {
    pub active: ActiveScanTime,
    /// Passive scan time per channel, in ms.
    pub passive: u32,
}

/// The encoded fields of `t`: the active times as an embedded message
/// (field 1), then the passive time (field 2).
pub open spec fn scan_time_bytes(t: ScanTime) -> Seq<u8> {
    let a = active_scan_time_bytes(t.active);
    field_spec(1, WireType::Len, a.len() as u64) + a + field_spec(2, WireType::Varint, t.passive as u64)
}

impl ScanTime {
    /// Encodes the scan times at the start of `buf`.
    pub fn to_bytes(&self, buf: &mut [u8]) -> (r: Result<usize, EspError>)
        ensures
            scan_time_bytes(*self).len() <= old(buf)@.len() ==> {
                &&& r == Ok::<usize, EspError>(scan_time_bytes(*self).len() as usize)
                &&& final(buf)@ == splice(old(buf)@, 0, scan_time_bytes(*self))
            },
            scan_time_bytes(*self).len() > old(buf)@.len() ==> r == Err::<usize, EspError>(EspError::Capacity),
    {
        let mut scratch = [0u8; 12];
        proof {
            crate::wire::lemma_u32_field_len(1, self.active.min);
            crate::wire::lemma_u32_field_len(2, self.active.max);
            reveal_with_fuel(varint_fields_spec, 3);
            assert(seq![self.active.min as u64, self.active.max as u64].drop_last() =~= seq![self.active.min as u64]);
            assert(seq![self.active.min as u64].drop_last() =~= Seq::<u64>::empty());
        }
        let active_size = self.active.to_bytes(&mut scratch)?;
        let ghost a = active_scan_time_bytes(self.active);
        let ghost b0 = buf@;
        let mut i: usize = 0;
        if write_rpc(buf, 1, WireType::Len, active_size as u64, &mut i).is_err() {
            return Err(EspError::Capacity);
        }
        let ghost f1 = field_spec(1, WireType::Len, a.len() as u64);
        if active_size > buf.len() - i {
            return Err(EspError::Capacity);
        }
        copy_into(buf, i, &scratch[0..active_size]);
        assert(scratch@.subrange(0, active_size as int) =~= a);
        proof {
            crate::wire::lemma_splice_append(b0, 0, f1, a);
        }
        i = i + active_size;
        let ghost f2 = field_spec(2, WireType::Varint, self.passive as u64);
        if write_rpc(buf, 2, WireType::Varint, self.passive as u64, &mut i).is_err() {
            return Err(EspError::Capacity);
        }
        proof {
            crate::wire::lemma_splice_append(b0, 0, f1 + a, f2);
        }
        Ok(i)
    }
}

/// Country-based regional restrictions.
#[derive(Clone, Copy, Debug)]
pub struct WifiCountry {
    /// Country code string.
    pub cc: [u8; 3],
    /// First allowed 2.4 GHz channel.
    pub schan: u8,
    /// Number of allowed 2.4 GHz channels.
    pub nchan: u8,
    pub max_tx_power: i8,
    /// 0: automatic, 1: manual.
    pub policy: u8,
}

/// HE information of an access point.
#[derive(Clone, Copy, Debug, PartialEq, Eq, Structural)]
pub struct WifiHeApInfo {
    pub bitmask: u32,
    pub bssid_index: u32,
}

/// 1 for true, 0 for false.
fn bit(b: bool) -> (r: u32)
    ensures
        r == bool_val(b),
        r <= 1,
{
    if b {
        1
    } else {
        0
    }
}

/// Which frame types promiscuous mode passes on.
#[derive(Clone, Copy, Debug, PartialEq, Eq, Structural)]
pub struct PromiscuousFilter {
    pub mgmt: bool,
    pub ctrl: bool,
    pub data: bool,
    pub misc: bool,
    pub data_mpdu: bool,
    pub data_ampdu: bool,
    pub fcsfail: bool,
}

impl PromiscuousFilter {
    /// The filter mask: bit 0 management, 1 control, 2 data, 3 misc, 4 data
    /// MPDU, 5 data AMPDU, 6 FCS failures.
    pub open spec fn spec_mask(self) -> u32 {
        (bool_val(self.mgmt) + 2 * bool_val(self.ctrl) + 4 * bool_val(self.data) + 8 * bool_val(self.misc) + 16 * bool_val(
            self.data_mpdu,
        ) + 32 * bool_val(self.data_ampdu) + 64 * bool_val(self.fcsfail)) as u32
    }

    /// The filter mask (see `spec_mask`).
    #[verifier::rlimit(50)]
    pub fn val(&self) -> (r: u32)
        ensures
            r == self.spec_mask(),
    {
        let (b0, b1, b2) = (bit(self.mgmt), bit(self.ctrl), bit(self.data));
        let (b3, b4, b5) = (bit(self.misc), bit(self.data_mpdu), bit(self.data_ampdu));
        let b6 = bit(self.fcsfail);
        assert(b0 <= 1 && b1 <= 1 && b2 <= 1 && b3 <= 1 && b4 <= 1 && b5 <= 1 && b6 <= 1);
        b0 + 2 * b1 + 4 * b2 + 8 * b3 + 16 * b4 + 32 * b5 + 64 * b6
    }
}

/// Which control-frame subtypes promiscuous mode passes on.
#[derive(Clone, Copy, Debug, PartialEq, Eq, Structural)]
pub struct PromiscuousCtrlFilter {
    pub wrapper: bool,
    pub bar: bool,
    pub ba: bool,
    pub pspoll: bool,
    pub rts: bool,
    pub cts: bool,
    pub ack: bool,
    pub cfend: bool,
    pub cfendack: bool,
}

impl PromiscuousCtrlFilter {
    /// The filter mask: bit 0 wrapper, 1 BAR, 2 BA, 3 PS-Poll, 4 RTS, 5 CTS,
    /// 6 ACK, 7 CF-End, 8 CF-End+CF-Ack.
    pub open spec fn spec_mask(self) -> u32 {
        (bool_val(self.wrapper) + 2 * bool_val(self.bar) + 4 * bool_val(self.ba) + 8 * bool_val(self.pspoll) + 16 * bool_val(
            self.rts,
        ) + 32 * bool_val(self.cts) + 64 * bool_val(self.ack) + 128 * bool_val(self.cfend) + 256 * bool_val(self.cfendack)) as u32
    }

    /// The filter mask (see `spec_mask`).
    #[verifier::rlimit(50)]
    pub fn val(&self) -> (r: u32)
        ensures
            r == self.spec_mask(),
    {
        let (b0, b1, b2) = (bit(self.wrapper), bit(self.bar), bit(self.ba));
        let (b3, b4, b5) = (bit(self.pspoll), bit(self.rts), bit(self.cts));
        let (b6, b7, b8) = (bit(self.ack), bit(self.cfend), bit(self.cfendack));
        assert(b0 <= 1 && b1 <= 1 && b2 <= 1 && b3 <= 1 && b4 <= 1 && b5 <= 1 && b6 <= 1 && b7 <= 1 && b8 <= 1);
        b0 + 2 * b1 + 4 * b2 + 8 * b3 + 16 * b4 + 32 * b5 + 64 * b6 + 128 * b7 + 256 * b8
    }
}

/// Supported 802.11 protocols of an interface.
#[derive(Clone, Copy, Debug, PartialEq, Eq, Structural)]
pub struct Protocols {
    pub p_11b: bool,
    pub p_11g: bool,
    pub p_11n: bool,
    /// Long range.
    pub p_lr: bool,
    pub p_11ax: bool,
    pub wps: bool,
    pub p_11a: bool,
    pub p_11ac: bool,
}

impl Default for Protocols {
    /// 802.11 b, g and n: the co-processor's default.
    fn default() -> (r: Self)
        ensures
            r == (Protocols { p_11b: true, p_11g: true, p_11n: true, p_lr: false, p_11ax: false, wps: false, p_11a: false, p_11ac: false }),
    {
        Protocols { p_11b: true, p_11g: true, p_11n: true, p_lr: false, p_11ax: false, wps: false, p_11a: false, p_11ac: false }
    }

}

impl Protocols {
    /// The protocol bitmap sent to the co-processor.
    pub open spec fn to_byte_spec(self) -> u8 {
        (bool_val(self.p_11b) + 2 * bool_val(self.p_11g) + 4 * bool_val(self.p_11n) + 8 * bool_val(self.p_lr) + 32
            * bool_val(self.p_11ac) + 64 * bool_val(self.p_11ax)) as u8
    }

    /// The protocol bitmap sent to the co-processor: bit 0 11b, 1 11g, 2 11n,
    /// 3 long range, 5 11ac, 6 11ax.
    pub fn to_byte(&self) -> (r: u8)
        ensures
            r == self.to_byte_spec(),
    {
        let mut r: u8 = 0;
        if self.p_11b {
            r = r + 1;
        }
        if self.p_11g {
            r = r + 2;
        }
        if self.p_11n {
            r = r + 4;
        }
        if self.p_lr {
            r = r + 8;
        }
        if self.p_11ac {
            r = r + 32;
        }
        if self.p_11ax {
            r = r + 64;
        }
        r
    }

    /// Reads a protocol bitmap as the co-processor reports it: bit 0 11b,
    /// 1 11g, 2 11n, 3 long range, 4 11ax, 5 WPS.
    pub fn from_byte(b: u8) -> (r: Self)
        ensures
            r == (Protocols {
                p_11b: b % 2 == 1,
                p_11g: (b / 2) % 2 == 1,
                p_11n: (b / 4) % 2 == 1,
                p_lr: (b / 8) % 2 == 1,
                p_11ax: (b / 16) % 2 == 1,
                wps: (b / 32) % 2 == 1,
                p_11a: false,
                p_11ac: false,
            }),
    {
        assert(b & 1 != 0 <==> b % 2 == 1) by (bit_vector);
        assert((b >> 1) & 1 != 0 <==> (b / 2) % 2 == 1) by (bit_vector);
        assert((b >> 2) & 1 != 0 <==> (b / 4) % 2 == 1) by (bit_vector);
        assert((b >> 3) & 1 != 0 <==> (b / 8) % 2 == 1) by (bit_vector);
        assert((b >> 4) & 1 != 0 <==> (b / 16) % 2 == 1) by (bit_vector);
        assert((b >> 5) & 1 != 0 <==> (b / 32) % 2 == 1) by (bit_vector);
        Protocols {
            p_11b: b & 1 != 0,
            p_11g: (b >> 1) & 1 != 0,
            p_11n: (b >> 2) & 1 != 0,
            p_lr: (b >> 3) & 1 != 0,
            p_11ax: (b >> 4) & 1 != 0,
            wps: (b >> 5) & 1 != 0,
            p_11a: false,
            p_11ac: false,
        }
    }
}

/// Frames a request to start Wi-Fi in the current mode.
pub fn start(buf: &mut [u8], uid: u32, seq: &mut SeqCounter) -> (r: Result<usize, EspError>)
    ensures
        framed(old(buf)@, final(buf)@, Rpc { msg_type: RpcType::Req, msg_id: RpcId::ReqWifiStart, uid }, seq![], old(seq).next, final(seq).next, r),
{
    write_empty_msg(buf, uid, RpcId::ReqWifiStart, seq)
}

/// Frames a request to stop Wi-Fi.
pub fn stop(buf: &mut [u8], uid: u32, seq: &mut SeqCounter) -> (r: Result<usize, EspError>)
    ensures
        framed(old(buf)@, final(buf)@, Rpc { msg_type: RpcType::Req, msg_id: RpcId::ReqWifiStop, uid }, seq![], old(seq).next, final(seq).next, r),
{
    write_empty_msg(buf, uid, RpcId::ReqWifiStop, seq)
}

/// Frames a request for the number of access points the last scan found.
pub fn scan_get_ap_num(buf: &mut [u8], uid: u32, seq: &mut SeqCounter) -> (r: Result<usize, EspError>)
    ensures
        framed(old(buf)@, final(buf)@, Rpc { msg_type: RpcType::Req, msg_id: RpcId::ReqWifiScanGetApNum, uid }, seq![], old(seq).next, final(seq).next, r),
{
    write_empty_msg(buf, uid, RpcId::ReqWifiScanGetApNum, seq)
}

/// Frames a request for one access-point record of the last scan.
pub fn scan_get_ap_record(buf: &mut [u8], uid: u32, seq: &mut SeqCounter) -> (r: Result<usize, EspError>)
    ensures
        framed(old(buf)@, final(buf)@, Rpc { msg_type: RpcType::Req, msg_id: RpcId::ReqWifiScanGetApRecord, uid }, seq![], old(seq).next, final(seq).next, r),
{
    write_empty_msg(buf, uid, RpcId::ReqWifiScanGetApRecord, seq)
}

/// Frames a request to clear the access-point list of the last scan.
pub fn clear_ap_list(buf: &mut [u8], uid: u32, seq: &mut SeqCounter) -> (r: Result<usize, EspError>)
    ensures
        framed(old(buf)@, final(buf)@, Rpc { msg_type: RpcType::Req, msg_id: RpcId::ReqWifiClearApList, uid }, seq![], old(seq).next, final(seq).next, r),
{
    write_empty_msg(buf, uid, RpcId::ReqWifiClearApList, seq)
}

/// Frames a request for the stations connected to the soft access point.
pub fn ap_get_sta_list(buf: &mut [u8], uid: u32, seq: &mut SeqCounter) -> (r: Result<usize, EspError>)
    ensures
        framed(old(buf)@, final(buf)@, Rpc { msg_type: RpcType::Req, msg_id: RpcId::ReqWifiApGetStaList, uid }, seq![], old(seq).next, final(seq).next, r),
{
    write_empty_msg(buf, uid, RpcId::ReqWifiApGetStaList, seq)
}

/// Frames a request for the Wi-Fi mode.
pub fn get_mode(buf: &mut [u8], uid: u32, seq: &mut SeqCounter) -> (r: Result<usize, EspError>)
    ensures
        framed(old(buf)@, final(buf)@, Rpc { msg_type: RpcType::Req, msg_id: RpcId::ReqGetWifiMode, uid }, seq![], old(seq).next, final(seq).next, r),
{
    write_empty_msg(buf, uid, RpcId::ReqGetWifiMode, seq)
}

/// Frames a request to free the Wi-Fi driver and stop its task.
pub fn deinit(buf: &mut [u8], uid: u32, seq: &mut SeqCounter) -> (r: Result<usize, EspError>)
    ensures
        framed(old(buf)@, final(buf)@, Rpc { msg_type: RpcType::Req, msg_id: RpcId::ReqWifiDeinit, uid }, seq![], old(seq).next, final(seq).next, r),
{
    write_empty_msg(buf, uid, RpcId::ReqWifiDeinit, seq)
}

/// Frames a request for the promiscuous mode.
pub fn get_promiscuous(buf: &mut [u8], uid: u32, seq: &mut SeqCounter) -> (r: Result<usize, EspError>)
    ensures
        framed(old(buf)@, final(buf)@, Rpc { msg_type: RpcType::Req, msg_id: RpcId::ReqWifiGetPromiscuous, uid }, seq![], old(seq).next, final(seq).next, r),
{
    write_empty_msg(buf, uid, RpcId::ReqWifiGetPromiscuous, seq)
}

/// Frames a request for the promiscuous filter.
pub fn get_promiscuous_filter(buf: &mut [u8], uid: u32, seq: &mut SeqCounter) -> (r: Result<usize, EspError>)
    ensures
        framed(old(buf)@, final(buf)@, Rpc { msg_type: RpcType::Req, msg_id: RpcId::ReqWifiGetPromiscuousFilter, uid }, seq![], old(seq).next, final(seq).next, r),
{
    write_empty_msg(buf, uid, RpcId::ReqWifiGetPromiscuousFilter, seq)
}

/// Frames a request for the control-frame filter of promiscuous mode.
pub fn get_promiscuous_ctrl_filter(buf: &mut [u8], uid: u32, seq: &mut SeqCounter) -> (r: Result<usize, EspError>)
    ensures
        framed(old(buf)@, final(buf)@, Rpc { msg_type: RpcType::Req, msg_id: RpcId::ReqWifiGetPromiscuousCtrlFilter, uid }, seq![], old(seq).next, final(seq).next, r),
{
    write_empty_msg(buf, uid, RpcId::ReqWifiGetPromiscuousCtrlFilter, seq)
}

/// Frames a request to stop the scan in progress.
pub fn scan_stop(buf: &mut [u8], uid: u32, seq: &mut SeqCounter) -> (r: Result<usize, EspError>)
    ensures
        framed(old(buf)@, final(buf)@, Rpc { msg_type: RpcType::Req, msg_id: RpcId::ReqWifiScanStop, uid }, seq![], old(seq).next, final(seq).next, r),
{
    write_empty_msg(buf, uid, RpcId::ReqWifiScanStop, seq)
}

/// Frames a request for the access-point records of the last scan, at most
/// `max_number` of them.
pub fn scan_get_ap_records(buf: &mut [u8], uid: u32, max_number: u8, seq: &mut SeqCounter) -> (r: Result<usize, EspError>)
    ensures
        framed(
            old(buf)@,
            final(buf)@,
            Rpc { msg_type: RpcType::Req, msg_id: RpcId::ReqWifiScanGetApRecords, uid },
            field_spec(1, WireType::Varint, max_number as u64),
            old(seq).next,
            final(seq).next,
            r,
        ),
{
    write_one_field_request(buf, RpcId::ReqWifiScanGetApRecords, uid, max_number as u64, seq)
}

/// Frames a request whose payload is varint field 1 holding `val`.
fn write_one_field_request(buf: &mut [u8], id: RpcId, uid: u32, val: u64, seq: &mut SeqCounter) -> (r: Result<usize, EspError>)
    ensures
        framed(
            old(buf)@,
            final(buf)@,
            Rpc { msg_type: RpcType::Req, msg_id: id, uid },
            field_spec(1, WireType::Varint, val),
            old(seq).next,
            final(seq).next,
            r,
        ),
{
    let mut data = [0u8; 12];
    let mut i: usize = 0;
    proof {
        crate::wire::lemma_varint_len_le_10(val);
        crate::wire::lemma_varint_len_le_10(8);
    }
    let _ = write_rpc(&mut data, 1, WireType::Varint, val, &mut i);
    let d = &data[0..i];
    assert(d@ =~= field_spec(1, WireType::Varint, val));
    write_request(buf, id, uid, d, seq)
}

/// Frames a request to set the Wi-Fi mode.
pub fn set_mode(buf: &mut [u8], uid: u32, mode: WifiMode, seq: &mut SeqCounter) -> (r: Result<usize, EspError>)
    ensures
        framed(
            old(buf)@,
            final(buf)@,
            Rpc { msg_type: RpcType::Req, msg_id: RpcId::ReqSetWifiMode, uid },
            field_spec(1, WireType::Varint, mode.spec_val() as u64),
            old(seq).next,
            final(seq).next,
            r,
        ),
{
    write_one_field_request(buf, RpcId::ReqSetWifiMode, uid, mode.val() as u64, seq)
}

/// Frames a request for the protocol bitmap of the station interface.
pub fn get_protocol(buf: &mut [u8], uid: u32, seq: &mut SeqCounter) -> (r: Result<usize, EspError>)
    ensures
        framed(
            old(buf)@,
            final(buf)@,
            Rpc { msg_type: RpcType::Req, msg_id: RpcId::ReqWifiGetProtocol, uid },
            field_spec(1, WireType::Varint, 0),
            old(seq).next,
            final(seq).next,
            r,
        ),
{
    write_one_field_request(buf, RpcId::ReqWifiGetProtocol, uid, 0, seq)
}

/// Frames a request to set the Wi-Fi power-save type; the type sent is 0,
/// no power saving.
pub fn set_ps(buf: &mut [u8], uid: u32, seq: &mut SeqCounter) -> (r: Result<usize, EspError>)
    ensures
        framed(
            old(buf)@,
            final(buf)@,
            Rpc { msg_type: RpcType::Req, msg_id: RpcId::ReqWifiSetPs, uid },
            field_spec(1, WireType::Varint, 0),
            old(seq).next,
            final(seq).next,
            r,
        ),
{
    write_one_field_request(buf, RpcId::ReqWifiSetPs, uid, 0, seq)
}

/// Frames a request to set the supported protocols of interface `ifx`.
pub fn set_protocol(buf: &mut [u8], uid: u32, ifx: InterfaceType, protocols: &Protocols, seq: &mut SeqCounter) -> (r: Result<
    usize,
    EspError,
>)
    ensures
        framed(
            old(buf)@,
            final(buf)@,
            Rpc { msg_type: RpcType::Req, msg_id: RpcId::ReqWifiSetProtocol, uid },
            varint_fields_spec(1, seq![ifx.spec_val() as u64, protocols.to_byte_spec() as u64]),
            old(seq).next,
            final(seq).next,
            r,
        ),
{
    let vals: [u64; 2] = [ifx.val() as u64, protocols.to_byte() as u64];
    let mut data = [0u8; 8];
    proof {
        reveal_with_fuel(varint_fields_spec, 3);
        assert(vals@ =~= seq![ifx.spec_val() as u64, protocols.to_byte_spec() as u64]);
        assert(vals@.drop_last() =~= seq![ifx.spec_val() as u64]);
        assert(vals@.drop_last().drop_last() =~= Seq::<u64>::empty());
        crate::wire::lemma_u32_field_len(1, ifx.spec_val() as u32);
        crate::wire::lemma_u32_field_len(2, protocols.to_byte_spec() as u32);
    }
    let n = match write_varint_fields(&mut data, 1, &vals) {
        Ok(n) => n,
        Err(_) => 0,
    };
    let d = &data[0..n];
    assert(d@ =~= varint_fields_spec(1, vals@));
    write_request(buf, RpcId::ReqWifiSetProtocol, uid, d, seq)
}

/// Frames a request to initialise the Wi-Fi driver with `cfg`.
pub fn init(buf: &mut [u8], uid: u32, cfg: &InitConfig, seq: &mut SeqCounter) -> (r: Result<usize, EspError>)
    ensures
        framed(
            old(buf)@,
            final(buf)@,
            Rpc { msg_type: RpcType::Req, msg_id: RpcId::ReqWifiInit, uid },
            wifi_init_bytes(*cfg),
            old(seq).next,
            final(seq).next,
            r,
        ),
{
    let mut data = [0u8; 280];
    let pl = RpcReqWifiInit { cfg: *cfg };
    proof {
        crate::wire::lemma_varint_fields_len(1, init_config_vals(*cfg));
        crate::wire::lemma_field_len(1, WireType::Len, init_config_bytes(*cfg).len() as u64);
    }
    let n = match pl.to_bytes(&mut data) {
        Ok(n) => n,
        Err(_) => 0,
    };
    let d = &data[0..n];
    assert(d@ =~= wifi_init_bytes(*cfg));
    write_request(buf, RpcId::ReqWifiInit, uid, d, seq)
}

/// The request of step `step` of enabling promiscuous mode: the mode, the
/// frame filter, then the control-frame filter when there is one. `None`
/// once the steps are done.
pub open spec fn promiscuous_step(step: u8, enabled: bool, filter: u32, ctrl_filter: Option<u32>) -> Option<(RpcId, Seq<u8>)> {
    if step == 0 {
        Some((RpcId::ReqWifiSetPromiscuous, field_spec(1, WireType::Varint, bool_val(enabled))))
    } else if step == 1 {
        Some((RpcId::ReqWifiSetPromiscuousFilter, filter_bytes(filter)))
    } else if step == 2 {
        match ctrl_filter {
            Some(f) => Some((RpcId::ReqWifiSetPromiscuousCtrlFilter, filter_bytes(f))),
            None => None,
        }
    } else {
        None
    }
}

/// A filter message: a one-byte embedded message header, then the mask.
pub open spec fn filter_bytes(mask: u32) -> Seq<u8> {
    field_spec(1, WireType::Len, 1) + field_spec(1, WireType::Varint, 1) + field_spec(1, WireType::Varint, mask as u64)
}

/// A frame length as the result of a step that produced a frame.
pub open spec fn step_frame(r: Result<Option<usize>, EspError>) -> Result<usize, EspError> {
    match r {
        Ok(Some(n)) => Ok(n),
        Ok(None) => Err(EspError::InvalidData),
        Err(e) => Err(e),
    }
}

/// Encodes a filter message holding `mask` into `out`.
fn write_filter(out: &mut [u8; 16], mask: u32) -> (r: usize)
    ensures
        r <= 16,
        final(out)@.subrange(0, r as int) == filter_bytes(mask),
{
    let mut i: usize = 0;
    proof {
        crate::wire::lemma_field_len(1, WireType::Len, 1);
        crate::wire::lemma_u32_field_len(1, 1);
        crate::wire::lemma_u32_field_len(1, mask);
        assert(field_spec(1, WireType::Len, 1).len() <= 2) by {
            reveal_with_fuel(crate::wire::varint_spec, 2);
        }
    }
    let ghost o0 = out@;
    let _ = write_rpc(out, 1, WireType::Len, 1, &mut i);
    let _ = write_rpc(out, 1, WireType::Varint, 1, &mut i);
    let _ = write_rpc(out, 1, WireType::Varint, mask as u64, &mut i);
    assert(out@.subrange(0, i as int) =~= filter_bytes(mask));
    i
}

/// Frames step `step` of enabling promiscuous mode (see
/// `promiscuous_step`); `Ok(None)` when no step is left. The caller sends
/// each frame before asking for the next step.
pub fn set_promiscuous(
    buf: &mut [u8],
    uid: u32,
    step: u8,
    enabled: bool,
    filter: &PromiscuousFilter,
    ctrl_filter: Option<&PromiscuousCtrlFilter>,
    seq: &mut SeqCounter,
) -> (r: Result<Option<usize>, EspError>)
    ensures
        match promiscuous_step(
            step,
            enabled,
            filter.spec_mask(),
            match ctrl_filter {
                Some(f) => Some(f.spec_mask()),
                None => None,
            },
        ) {
            Some((id, data)) => framed(
                old(buf)@,
                final(buf)@,
                Rpc { msg_type: RpcType::Req, msg_id: id, uid },
                data,
                old(seq).next,
                final(seq).next,
                step_frame(r),
            ),
            None => r == Ok::<Option<usize>, EspError>(None) && final(buf)@ == old(buf)@ && final(seq).next == old(seq).next,
        },
{
    let mut data = [0u8; 16];
    let (id, n) = if step == 0 {
        let n = write_enable_flag(&mut data, enabled);
        (RpcId::ReqWifiSetPromiscuous, n)
    } else if step == 1 {
        (RpcId::ReqWifiSetPromiscuousFilter, write_filter(&mut data, filter.val()))
    } else if step == 2 {
        match ctrl_filter {
            Some(f) => (RpcId::ReqWifiSetPromiscuousCtrlFilter, write_filter(&mut data, f.val())),
            None => {
                return Ok(None);
            },
        }
    } else {
        return Ok(None);
    };
    let d = &data[0..n];
    let r = write_request(buf, id, uid, d, seq);
    match r {
        Ok(len) => Ok(Some(len)),
        Err(e) => Err(e),
    }
}

/// Encodes varint field 1 holding `enabled` into `out`.
fn write_enable_flag(out: &mut [u8; 16], enabled: bool) -> (r: usize)
    ensures
        r <= 16,
        final(out)@.subrange(0, r as int) == field_spec(1, WireType::Varint, bool_val(enabled)),
{
    let mut i: usize = 0;
    proof {
        crate::wire::lemma_u32_field_len(1, bool_val(enabled) as u32);
    }
    let _ = write_rpc(out, 1, WireType::Varint, if enabled { 1 } else { 0 }, &mut i);
    assert(out@.subrange(0, i as int) =~= field_spec(1, WireType::Varint, bool_val(enabled)));
    i
}

/// An access-point record of a scan.
#[derive(Debug)]
pub struct WifiApRecord {
    pub bssid: [u8; 6],
    pub ssid: heapless::Vec<u8, 33>,
    /// Primary channel.
    pub primary: u8,
    pub second: WifiSecondChan,
    pub rssi: i8,
    pub authmode: WifiAuthMode,
    pub pairwise_cipher: WifiCipher,
    pub group_cipher: WifiCipher,
    /// Antenna that received the beacon.
    pub ant: WifiAnt,
    /// Bit 0 11b, 1 11g, 2 11n, 3 low rate, 4-6 11ax.
    pub bitmask: u32,
    pub country: WifiCountry,
    pub he_ap: WifiHeApInfo,
    pub bandwidth: WifiBandwidth,
    /// Center channel of an 80 or 160 MHz access point (of the lower
    /// segment for 80 + 80 MHz).
    pub vht_ch_freq1: u8,
    /// Center channel of the second segment of an 80 + 80 MHz access point.
    pub vht_ch_freq2: u8,
}

/// The decoded fields of an access-point record, as plain values.
pub struct ApFields {
    pub bssid: Seq<u8>,
    pub ssid: Seq<u8>,
    pub primary: u8,
    pub second: WifiSecondChan,
    pub rssi: i8,
    pub authmode: WifiAuthMode,
    pub pairwise_cipher: WifiCipher,
    pub group_cipher: WifiCipher,
    pub ant: WifiAnt,
    pub bitmask: u32,
    pub bandwidth: WifiBandwidth,
    pub vht_ch_freq1: u8,
    pub vht_ch_freq2: u8,
}

/// The decoded fields of `r`.
pub open spec fn ap_fields(r: WifiApRecord) -> ApFields {
    ApFields {
        bssid: r.bssid@,
        ssid: ssid_bytes(r.ssid),
        primary: r.primary,
        second: r.second,
        rssi: r.rssi,
        authmode: r.authmode,
        pairwise_cipher: r.pairwise_cipher,
        group_cipher: r.group_cipher,
        ant: r.ant,
        bitmask: r.bitmask,
        bandwidth: r.bandwidth,
        vht_ch_freq1: r.vht_ch_freq1,
        vht_ch_freq2: r.vht_ch_freq2,
    }
}

/// The fields of a record before any field is decoded.
pub open spec fn empty_ap_fields() -> ApFields {
    ApFields {
        bssid: seq![0u8, 0u8, 0u8, 0u8, 0u8, 0u8],
        ssid: seq![],
        primary: 0,
        second: WifiSecondChan::NoSecondChan,
        rssi: 0,
        authmode: WifiAuthMode::Open,
        pairwise_cipher: WifiCipher::NoCipher,
        group_cipher: WifiCipher::NoCipher,
        ant: WifiAnt::Ant0,
        bitmask: 0,
        bandwidth: WifiBandwidth::HT20,
        vht_ch_freq1: 0,
        vht_ch_freq2: 0,
    }
}

/// The fields `f` with decoding resumed at `x`; `InvalidData` when `x` lies
/// past the end of `b`.
pub open spec fn skip_spec(b: Seq<u8>, f: ApFields, x: int) -> Result<(ApFields, int), EspError> {
    if x > b.len() {
        Err(EspError::InvalidData)
    } else {
        Ok((f, x))
    }
}

/// A one-byte field `field` of value `x`, into `f`; `None` when `x` names no
/// variant of the field's enum.
pub open spec fn ap_byte_field(f: ApFields, field: u64, x: u8) -> Option<ApFields> {
    if field == 3 {
        Some(ApFields { primary: x, ..f })
    } else if field == 4 {
        match WifiSecondChan::spec_from_val(x) {
            Some(v) => Some(ApFields { second: v, ..f }),
            None => None,
        }
    } else if field == 6 {
        match WifiAuthMode::spec_from_val(x) {
            Some(v) => Some(ApFields { authmode: v, ..f }),
            None => None,
        }
    } else if field == 7 {
        match WifiCipher::spec_from_val(x) {
            Some(v) => Some(ApFields { pairwise_cipher: v, ..f }),
            None => None,
        }
    } else if field == 8 {
        match WifiCipher::spec_from_val(x) {
            Some(v) => Some(ApFields { group_cipher: v, ..f }),
            None => None,
        }
    } else if field == 9 {
        match WifiAnt::spec_from_val(x) {
            Some(v) => Some(ApFields { ant: v, ..f }),
            None => None,
        }
    } else if field == 13 {
        match WifiBandwidth::spec_from_val(x) {
            Some(v) => Some(ApFields { bandwidth: v, ..f }),
            None => None,
        }
    } else if field == 14 {
        Some(ApFields { vht_ch_freq1: x, ..f })
    } else {
        Some(ApFields { vht_ch_freq2: x, ..f })
    }
}

/// One field of an access-point record at index `i` of `b`, decoded into
/// `f`, with the index after it (no further than the end). BSSID and SSID
/// are byte runs: one longer than its buffer is `Capacity`. RSSI is read from
/// the first byte of its ten-byte varint. Country and HE information are
/// skipped, as is any unknown field, by its wire type; a skip that runs past
/// the end is `InvalidData`.
#[verifier::opaque]
pub open spec fn ap_step_spec(b: Seq<u8>, i: int, f: ApFields) -> Result<(ApFields, int), EspError> {
    match varint_at(b, i) {
        None => Err(EspError::InvalidData),
        Some((tag, n)) => {
            let j = i + n;
            let field = tag / 8;
            let wt = tag % 8;
            if field == 1 || field == 2 {
                match varint_at(b, j) {
                    None => Err(EspError::InvalidData),
                    Some((len, m)) => {
                        let k = j + m;
                        if field == 1 {
                            if len > 6 {
                                Err(EspError::Capacity)
                            } else if len < 6 || len > b.len() - k {
                                Err(EspError::InvalidData)
                            } else {
                                Ok((ApFields { bssid: b.subrange(k, k + 6), ..f }, k + 6))
                            }
                        } else if len > 33 {
                            Err(EspError::Capacity)
                        } else if len > b.len() - k {
                            Err(EspError::InvalidData)
                        } else {
                            Ok((ApFields { ssid: b.subrange(k, k + len), ..f }, k + len))
                        }
                    },
                }
            } else if field == 10 {
                match varint_at(b, j) {
                    None => Err(EspError::InvalidData),
                    Some((v, m)) => Ok((ApFields { bitmask: (v % 0x1_0000_0000) as u32, ..f }, j + m)),
                }
            } else if field == 11 || field == 12 {
                match varint_at(b, j) {
                    None => Err(EspError::InvalidData),
                    Some((len, m)) => skip_spec(b, f, j + m + len),
                }
            } else if 3 <= field <= 9 || 13 <= field <= 15 {
                if j >= b.len() {
                    Err(EspError::InvalidData)
                } else if field == 5 {
                    skip_spec(b, ApFields { rssi: i8_of(b[j]), ..f }, j + 10)
                } else {
                    match ap_byte_field(f, field, b[j]) {
                        Some(f2) => Ok((f2, j + 1)),
                        None => Err(EspError::InvalidData),
                    }
                }
            } else if wt == 0 {
                match varint_at(b, j) {
                    None => Err(EspError::InvalidData),
                    Some((_v, m)) => Ok((f, j + m)),
                }
            } else if wt == 1 {
                skip_spec(b, f, j + 8)
            } else if wt == 5 {
                skip_spec(b, f, j + 4)
            } else if wt == 2 {
                match varint_at(b, j) {
                    None => Err(EspError::InvalidData),
                    Some((len, m)) => skip_spec(b, f, j + m + len),
                }
            } else {
                Err(EspError::InvalidData)
            }
        },
    }
}

/// Decodes the fields of `b` from index `i` on into `f`: the fields and the
/// index where decoding ended.
pub open spec fn ap_walk(b: Seq<u8>, i: int, f: ApFields) -> Result<(ApFields, nat), EspError>
    decreases b.len() - i,
{
    if i < 0 {
        Err(EspError::InvalidData)
    } else if i >= b.len() {
        Ok((f, b.len()))
    } else {
        match ap_step_spec(b, i, f) {
            Err(e) => Err(e),
            Ok((f2, i2)) => if i2 <= i || i2 > b.len() {
                Err(EspError::InvalidData)
            } else {
                ap_walk(b, i2, f2)
            },
        }
    }
}

/// The index `len` bytes after `k`; `InvalidData` when it lies past the end
/// of `buf`.
fn skip_to(buf: &[u8], k: usize, len: u64) -> (r: Result<usize, EspError>)
    requires
        k <= buf@.len(),
    ensures
        k + len > buf@.len() ==> r == Err::<usize, EspError>(EspError::InvalidData),
        k + len <= buf@.len() ==> r == Ok::<usize, EspError>((k + len) as usize),
{
    if len > (buf.len() - k) as u64 {
        Err(EspError::InvalidData)
    } else {
        Ok(k + len as usize)
    }
}

/// Country and HE information hold zeros: the record decoder leaves them so.
pub open spec fn unset_extras(r: WifiApRecord) -> bool {
    &&& r.country.cc@ == seq![0u8, 0u8, 0u8]
    &&& r.country.schan == 0
    &&& r.country.nchan == 0
    &&& r.country.max_tx_power == 0
    &&& r.country.policy == 0
    &&& r.he_ap == (WifiHeApInfo { bitmask: 0, bssid_index: 0 })
}

impl WifiApRecord {
    /// A record with every field zero or its first variant.
    fn empty() -> (r: Self)
        ensures
            ap_fields(r) == empty_ap_fields(),
            unset_extras(r),
    {
        let r = WifiApRecord {
            bssid: [0u8; 6],
            ssid: ssid_new(),
            primary: 0,
            second: WifiSecondChan::NoSecondChan,
            rssi: 0,
            authmode: WifiAuthMode::Open,
            pairwise_cipher: WifiCipher::NoCipher,
            group_cipher: WifiCipher::NoCipher,
            ant: WifiAnt::Ant0,
            bitmask: 0,
            country: WifiCountry { cc: [0u8; 3], schan: 0, nchan: 0, max_tx_power: 0, policy: 0 },
            he_ap: WifiHeApInfo { bitmask: 0, bssid_index: 0 },
            bandwidth: WifiBandwidth::HT20,
            vht_ch_freq1: 0,
            vht_ch_freq2: 0,
        };
        assert(r.bssid@ =~= seq![0u8, 0u8, 0u8, 0u8, 0u8, 0u8]);
        assert(r.country.cc@ =~= seq![0u8, 0u8, 0u8]);
        r
    }

    /// Decodes the field at index `i` of `buf` into `self`; returns the index
    /// after it.
    fn decode_field(&mut self, buf: &[u8], i: usize) -> (r: Result<usize, EspError>)
        requires
            i < buf@.len(),
        ensures
            match ap_step_spec(buf@, i as int, ap_fields(*old(self))) {
                Ok((f2, i2)) => i < i2 <= buf@.len() && r == Ok::<usize, EspError>(i2 as usize) && ap_fields(*final(self)) == f2,
                Err(e) => r == Err::<usize, EspError>(e),
            },
            final(self).country == old(self).country,
            final(self).he_ap == old(self).he_ap,
    {
        reveal(ap_step_spec);
        let n = buf.len();
        let (tag, tag_len) = read_varint(buf, i)?;
        let j = i + tag_len;
        let field = tag / 8;
        let wt = tag % 8;
        if field == 1 || field == 2 {
            let (len, m) = read_varint(buf, j)?;
            let k = j + m;
            if field == 1 && len > 6 {
                return Err(EspError::Capacity);
            }
            if field == 2 && len > 33 {
                return Err(EspError::Capacity);
            }
            if len > (n - k) as u64 {
                return Err(EspError::InvalidData);
            }
            let len = len as usize;
            if field == 1 {
                if len < 6 {
                    return Err(EspError::InvalidData);
                }
                copy_into(&mut self.bssid, 0, &buf[k..k + 6]);
                assert(self.bssid@ =~= buf@.subrange(k as int, k + 6));
                Ok(k + 6)
            } else {
                match ssid_from_slice(&buf[k..k + len]) {
                    Ok(v) => {
                        self.ssid = v;
                        Ok(k + len)
                    },
                    Err(_) => Err(EspError::Capacity),
                }
            }
        } else if field == 10 {
            let (v, m) = read_varint(buf, j)?;
            assert(v & 0xFFFF_FFFF == v % 0x1_0000_0000) by (bit_vector);
            self.bitmask = (v & 0xFFFF_FFFF) as u32;
            Ok(j + m)
        } else if field == 11 || field == 12 {
            let (len, m) = read_varint(buf, j)?;
            skip_to(buf, j + m, len)
        } else if (3 <= field && field <= 9) || (13 <= field && field <= 15) {
            if j >= n {
                return Err(EspError::InvalidData);
            }
            let x = buf[j];
            if field == 5 {
                self.rssi = if x < 128 {
                    x as i8
                } else {
                    (x as i16 - 256) as i8
                };
                skip_to(buf, j, 10)
            } else if field == 3 {
                self.primary = x;
                Ok(j + 1)
            } else if field == 4 {
                self.second = WifiSecondChan::from_val(x)?;
                Ok(j + 1)
            } else if field == 6 {
                self.authmode = WifiAuthMode::from_val(x)?;
                Ok(j + 1)
            } else if field == 7 {
                self.pairwise_cipher = WifiCipher::from_val(x)?;
                Ok(j + 1)
            } else if field == 8 {
                self.group_cipher = WifiCipher::from_val(x)?;
                Ok(j + 1)
            } else if field == 9 {
                self.ant = WifiAnt::from_val(x)?;
                Ok(j + 1)
            } else if field == 13 {
                self.bandwidth = WifiBandwidth::from_val(x)?;
                Ok(j + 1)
            } else if field == 14 {
                self.vht_ch_freq1 = x;
                Ok(j + 1)
            } else {
                self.vht_ch_freq2 = x;
                Ok(j + 1)
            }
        } else if wt == 0 {
            let (_v, m) = read_varint(buf, j)?;
            Ok(j + m)
        } else if wt == 1 {
            skip_to(buf, j, 8)
        } else if wt == 5 {
            skip_to(buf, j, 4)
        } else if wt == 2 {
            let (len, m) = read_varint(buf, j)?;
            skip_to(buf, j + m, len)
        } else {
            Err(EspError::InvalidData)
        }
    }

    /// Decodes an access-point record from its protobuf fields: the record
    /// and the number of bytes decoded. An SSID or BSSID longer than its
    /// buffer is `Capacity`; a malformed field or an unknown enum value is
    /// `InvalidData`. Unknown fields are skipped. Country and HE information
    /// are not decoded and come back zeroed.
    pub fn from_bytes(buf: &[u8]) -> (r: Result<(Self, usize), EspError>)
        ensures
            match ap_walk(buf@, 0, empty_ap_fields()) {
                Ok((f, n)) => match r {
                    Ok((rec, m)) => ap_fields(rec) == f && m == n && unset_extras(rec),
                    Err(_) => false,
                },
                Err(e) => match r {
                    Ok(_) => false,
                    Err(e2) => e2 == e,
                },
            },
    {
        let mut rec = WifiApRecord::empty();
        let n = buf.len();
        let mut i: usize = 0;
        while i < n
            invariant
                i <= n,
                n == buf@.len(),
                ap_walk(buf@, 0, empty_ap_fields()) == ap_walk(buf@, i as int, ap_fields(rec)),
                unset_extras(rec),
            decreases n - i,
        {
            let ghost before = ap_fields(rec);
            let next = rec.decode_field(buf, i)?;
            if next <= i || next > n {
                return Err(EspError::InvalidData);
            }
            proof {
                match ap_step_spec(buf@, i as int, before) {
                    Ok((f2, i2)) => {
                        assert(ap_walk(buf@, i as int, before) == ap_walk(buf@, i2, f2));
                    },
                    Err(_) => {},
                }
            }
            i = next;
        }
        Ok((rec, i))
    }
}

/// The records of an access-point list from index `i` on: `remaining` of
/// them, each a one-byte tag, a varint length and that many bytes of record
/// fields. `count` records were decoded before; more than `MAX_AP_RECORDS`
/// is `Capacity`.
pub open spec fn ap_list_spec(d: Seq<u8>, i: int, remaining: nat, count: nat) -> Result<Seq<ApFields>, EspError>
    decreases remaining,
{
    if remaining == 0 {
        Ok(seq![])
    } else if i < 0 || i + 1 >= d.len() {
        Err(EspError::InvalidData)
    } else {
        match varint_at(d, i + 1) {
            None => Err(EspError::InvalidData),
            Some((rlen, m)) => {
                let s = i + 1 + m;
                if rlen > d.len() - s {
                    Err(EspError::InvalidData)
                } else {
                    match ap_walk(d.subrange(s, s + rlen), 0, empty_ap_fields()) {
                        Err(e) => Err(e),
                        Ok((f, _)) => if count >= MAX_AP_RECORDS {
                            Err(EspError::Capacity)
                        } else {
                            match ap_list_spec(d, s + rlen, (remaining - 1) as nat, count + 1) {
                                Ok(rest) => Ok(seq![f] + rest),
                                Err(e) => Err(e),
                            }
                        },
                    }
                }
            },
        }
    }
}

/// The records of a scan response: after a one-byte tag, a varint count,
/// then the records.
pub open spec fn ap_records_spec(d: Seq<u8>) -> Result<Seq<ApFields>, EspError> {
    if d.len() == 0 {
        Err(EspError::InvalidData)
    } else {
        match varint_at(d, 1) {
            None => Err(EspError::InvalidData),
            Some((num, n)) => ap_list_spec(d, 1 + n as int, num as nat, 0),
        }
    }
}

/// The decoded fields of each record of a list.
pub open spec fn ap_list_fields(v: Seq<WifiApRecord>) -> Seq<ApFields> {
    v.map_values(|r: WifiApRecord| ap_fields(r))
}

/// Parses the access-point records of a scan response payload.
pub fn parse_ap_records(data: &[u8]) -> (r: Result<heapless::Vec<WifiApRecord, 30>, EspError>)
    ensures
        match ap_records_spec(data@) {
            Ok(fs) => match r {
                Ok(v) => ap_list_fields(ap_record_items(v)) == fs,
                Err(_) => false,
            },
            Err(e) => match r {
                Ok(_) => false,
                Err(e2) => e2 == e,
            },
        },
{
    let n = data.len();
    if n == 0 {
        return Err(EspError::InvalidData);
    }
    let (num_records, nr_len) = read_varint(data, 1)?;
    let mut result = ap_list_new();
    let mut i: usize = 1 + nr_len;
    let mut k: u64 = 0;
    while k < num_records
        invariant
            k <= num_records,
            n == data@.len(),
            n >= 1,
            i <= n,
            ap_record_items(result).len() == k,
            ap_records_spec(data@) == match ap_list_spec(data@, i as int, (num_records - k) as nat, k as nat) {
                Ok(rest) => Ok(ap_list_fields(ap_record_items(result)) + rest),
                Err(e) => Err(e),
            },
        decreases num_records - k,
    {
        if i >= n - 1 {
            return Err(EspError::InvalidData);
        }
        let (record_len, record_len_len) = read_varint(data, i + 1)?;
        let s = i + 1 + record_len_len;
        if record_len > (n - s) as u64 {
            return Err(EspError::InvalidData);
        }
        let end = s + record_len as usize;
        let (record, _used) = WifiApRecord::from_bytes(&data[s..end])?;
        let ghost f = ap_fields(record);
        let ghost before = ap_record_items(result);
        if ap_list_push(&mut result, record).is_err() {
            return Err(EspError::Capacity);
        }
        proof {
            assert(ap_list_fields(ap_record_items(result)) =~= ap_list_fields(before).push(f));
            match ap_list_spec(data@, end as int, (num_records - k - 1) as nat, (k + 1) as nat) {
                Ok(rest) => {
                    assert(ap_list_fields(before) + (seq![f] + rest) =~= ap_list_fields(before).push(f) + rest);
                },
                Err(_) => {},
            }
        }
        i = end;
        k = k + 1;
    }
    assert(ap_list_fields(ap_record_items(result)) + Seq::<ApFields>::empty() =~= ap_list_fields(ap_record_items(result)));
    Ok(result)
}

/// Parameters of a scan. Empty filters and zero values leave the
/// co-processor's defaults.
#[derive(Debug)]
pub struct ScanConfig {
    /// Only this SSID; empty for any.
    pub ssid: heapless::Vec<u8, 33>,
    /// Only this BSSID; empty for any.
    pub bssid: heapless::Vec<u8, 6>,
    /// Only this channel; 0 for all.
    pub channel: u8,
    /// Also report access points with a hidden SSID.
    pub show_hidden: bool,
    pub scan_type: ScanType,
    pub scan_time: ScanTime,
    pub home_chan_dwell_time: u8,
}

/// The encoded fields of `c`.
pub open spec fn scan_config_bytes(c: ScanConfig) -> Seq<u8> {
    let ssid = ssid_bytes(c.ssid);
    let bssid = bssid_bytes(c.bssid);
    let st = scan_time_bytes(c.scan_time);
    field_spec(1, WireType::Len, ssid.len() as u64) + ssid + field_spec(2, WireType::Len, bssid.len() as u64) + bssid
        + field_spec(3, WireType::Varint, c.channel as u64) + field_spec(4, WireType::Varint, bool_val(c.show_hidden))
        + field_spec(5, WireType::Varint, c.scan_type.spec_val() as u64) + field_spec(6, WireType::Len, st.len() as u64) + st
        + field_spec(7, WireType::Varint, c.home_chan_dwell_time as u64)
}

impl Default for ScanConfig {
    /// No filter, active scanning, default times.
    fn default() -> (r: Self)
        ensures
            ssid_bytes(r.ssid) == Seq::<u8>::empty(),
            bssid_bytes(r.bssid) == Seq::<u8>::empty(),
            r.channel == 0,
            !r.show_hidden,
            r.scan_type == ScanType::Active,
            r.scan_time == (ScanTime { active: ActiveScanTime { min: 0, max: 0 }, passive: 0 }),
            r.home_chan_dwell_time == 0,
    {
        ScanConfig {
            ssid: ssid_new(),
            bssid: bssid_new(),
            channel: 0,
            show_hidden: false,
            scan_type: ScanType::Active,
            scan_time: ScanTime { active: ActiveScanTime { min: 0, max: 0 }, passive: 0 },
            home_chan_dwell_time: 0,
        }
    }
}

impl ScanConfig {
    /// Encodes the scan parameters at the start of `buf`; `Capacity` when
    /// they do not fit.
    pub fn to_bytes(&self, buf: &mut [u8]) -> (r: Result<usize, EspError>)
        ensures
            scan_config_bytes(*self).len() <= old(buf)@.len() ==> {
                &&& r == Ok::<usize, EspError>(scan_config_bytes(*self).len() as usize)
                &&& final(buf)@ == splice(old(buf)@, 0, scan_config_bytes(*self))
            },
            scan_config_bytes(*self).len() > old(buf)@.len() ==> r == Err::<usize, EspError>(EspError::Capacity),
    {
        let ghost b0 = buf@;
        let ssid = ssid_as_slice(&self.ssid);
        let bssid = bssid_as_slice(&self.bssid);
        let mut st_buf = [0u8; 32];
        proof {
            crate::wire::lemma_u32_field_len(1, self.scan_time.active.min);
            crate::wire::lemma_u32_field_len(2, self.scan_time.active.max);
            crate::wire::lemma_u32_field_len(2, self.scan_time.passive);
            crate::wire::lemma_field_len(1, WireType::Len, active_scan_time_bytes(self.scan_time.active).len() as u64);
            reveal_with_fuel(varint_fields_spec, 3);
            assert(seq![self.scan_time.active.min as u64, self.scan_time.active.max as u64].drop_last() =~= seq![
                self.scan_time.active.min as u64,
            ]);
            assert(seq![self.scan_time.active.min as u64].drop_last() =~= Seq::<u64>::empty());
        }
        let st_len = self.scan_time.to_bytes(&mut st_buf)?;
        let st = &st_buf[0..st_len];
        assert(st@ =~= scan_time_bytes(self.scan_time));
        assert(splice(b0, 0, Seq::<u8>::empty()) =~= b0);
        let mut i: usize = 0;
        let ghost w0 = Seq::<u8>::empty();
        append_field(buf, &mut i, 1, WireType::Len, ssid.len() as u64, Ghost(b0), Ghost(w0))?;
        let ghost w1 = w0 + field_spec(1, WireType::Len, ssid@.len() as u64);
        append_bytes(buf, &mut i, ssid, Ghost(b0), Ghost(w1))?;
        let ghost w2 = w1 + ssid@;
        append_field(buf, &mut i, 2, WireType::Len, bssid.len() as u64, Ghost(b0), Ghost(w2))?;
        let ghost w3 = w2 + field_spec(2, WireType::Len, bssid@.len() as u64);
        append_bytes(buf, &mut i, bssid, Ghost(b0), Ghost(w3))?;
        let ghost w4 = w3 + bssid@;
        append_field(buf, &mut i, 3, WireType::Varint, self.channel as u64, Ghost(b0), Ghost(w4))?;
        let ghost w5 = w4 + field_spec(3, WireType::Varint, self.channel as u64);
        let hidden: u64 = if self.show_hidden { 1 } else { 0 };
        append_field(buf, &mut i, 4, WireType::Varint, hidden, Ghost(b0), Ghost(w5))?;
        let ghost w6 = w5 + field_spec(4, WireType::Varint, hidden);
        append_field(buf, &mut i, 5, WireType::Varint, self.scan_type.val() as u64, Ghost(b0), Ghost(w6))?;
        let ghost w7 = w6 + field_spec(5, WireType::Varint, self.scan_type.spec_val() as u64);
        append_field(buf, &mut i, 6, WireType::Len, st_len as u64, Ghost(b0), Ghost(w7))?;
        let ghost w8 = w7 + field_spec(6, WireType::Len, st@.len() as u64);
        append_bytes(buf, &mut i, st, Ghost(b0), Ghost(w8))?;
        let ghost w9 = w8 + st@;
        append_field(buf, &mut i, 7, WireType::Varint, self.home_chan_dwell_time as u64, Ghost(b0), Ghost(w9))?;
        let ghost w10 = w9 + field_spec(7, WireType::Varint, self.home_chan_dwell_time as u64);
        assert(w10 =~= scan_config_bytes(*self));
        Ok(i)
    }
}

/// Frames a request to scan for access points.
pub fn scan_start(buf: &mut [u8], uid: u32, req: &RpcReqWifiScanStart, seq: &mut SeqCounter) -> (r: Result<usize, EspError>)
    ensures
        scan_start_bytes(*req).len() <= 200 ==> framed(
            old(buf)@,
            final(buf)@,
            Rpc { msg_type: RpcType::Req, msg_id: RpcId::ReqWifiScanStart, uid },
            scan_start_bytes(*req),
            old(seq).next,
            final(seq).next,
            r,
        ),
        scan_start_bytes(*req).len() > 200 ==> r == Err::<usize, EspError>(EspError::Capacity),
{
    let mut data = [0u8; 200];
    let n = req.to_bytes(&mut data)?;
    let d = &data[0..n];
    assert(d@ =~= scan_start_bytes(*req));
    write_request(buf, RpcId::ReqWifiScanStart, uid, d, seq)
}

/// An SSID field (tag 0x12) whose declared length exceeds the 33-byte SSID
/// buffer stops decoding with `Capacity`, wherever the walk meets it and
/// however many of the declared bytes follow.
pub proof fn lemma_ssid_over_capacity(b: Seq<u8>, i: int, f: ApFields)
    requires
        0 <= i,
        i + 1 < b.len(),
        b[i] == 0x12,
        match varint_at(b, i + 1) {
            Some((len, _)) => len > 33,
            None => false,
        },
    ensures
        ap_walk(b, i, f) == Err::<(ApFields, nat), EspError>(EspError::Capacity),
{
    reveal(ap_step_spec);
    crate::wire::lemma_varint_at_one_byte(b, i);
    assert(ap_step_spec(b, i, f) == Err::<(ApFields, int), EspError>(EspError::Capacity));
}

} // verus!
