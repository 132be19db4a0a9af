//! Constants, flag words and bit helpers of the co-processor's transport
//! and Wi-Fi records.

use vstd::prelude::*;

pub mod wifi_he_ap_info;
pub mod wifi_scan_ap_rec;
pub mod wifi_sta_config_1;
pub mod wifi_sta_config_2;
pub mod wifi_sta_info;

verus! {

use crate::EspError;

/// Largest frame an SDIO transport carries.
pub const ESP_TRANSPORT_SDIO_MAX_BUF_SIZE: usize = 1536;
/// Largest frame an SPI transport carries.
pub const ESP_TRANSPORT_SPI_MAX_BUF_SIZE: usize = 1600;
/// Largest frame a half-duplex SPI transport carries.
pub const ESP_TRANSPORT_SPI_HD_MAX_BUF_SIZE: usize = 1600;
/// Largest frame a UART transport carries.
pub const ESP_TRANSPORT_UART_MAX_BUF_SIZE: usize = 1600;

/// Priority queue of the serial interface.
pub const PRIO_Q_SERIAL: u8 = 0;
/// Priority queue of Bluetooth.
pub const PRIO_Q_BT: u8 = 1;
/// Priority queue of everything else.
pub const PRIO_Q_OTHERS: u8 = 2;
/// Number of priority queues.
pub const MAX_PRIORITY_QUEUES: u8 = 3;

/// Bytes in a MAC address.
pub const MAC_SIZE_BYTES: usize = 6;

/// Mask of the transmit constellation bits of the second STA config word.
pub const WIFI_STA_CONFIG_2_HE_DCM_MAX_CONSTELLATION_TX_MASK: u32 = 0b11 << 1;
/// Mask of the receive constellation bits of the second STA config word.
pub const WIFI_STA_CONFIG_2_HE_DCM_MAX_CONSTELLATION_RX_MASK: u32 = 0b11 << 3;

/// Host-side flow-control state.
#[allow(non_camel_case_types)]
#[derive(Clone, Copy, Debug, PartialEq, Eq, Structural)]
pub enum FlowCtrl {
    /// No change, or unknown.
    Nc,
    /// The host lets the co-processor send.
    On,
    /// The host asks the co-processor to pause.
    Off,
}

impl FlowCtrl {
    /// Numeric value of this variant.
    pub open spec fn spec_val(self) -> u8 {
        match self {
            FlowCtrl::Nc => 0,
            FlowCtrl::On => 1,
            FlowCtrl::Off => 2,
        }
    }

    /// Numeric value of this variant.
    pub fn val(&self) -> (r: u8)
        ensures
            r == self.spec_val(),
    {
        match self {
            FlowCtrl::Nc => 0,
            FlowCtrl::On => 1,
            FlowCtrl::Off => 2,
        }
    }

    /// The variant with value `b`, if any.
    pub open spec fn spec_from_val(b: u8) -> Option<FlowCtrl> {
        if b == 0 {
            Some(FlowCtrl::Nc)
        } else if b == 1 {
            Some(FlowCtrl::On)
        } else if b == 2 {
            Some(FlowCtrl::Off)
        } else {
            None
        }
    }

    /// The variant with value `b`; `InvalidData` for any other value.
    pub fn from_val(b: u8) -> (r: Result<FlowCtrl, EspError>)
        ensures
            match FlowCtrl::spec_from_val(b) {
                Some(v) => r == Ok::<FlowCtrl, EspError>(v),
                None => r == Err::<FlowCtrl, EspError>(EspError::InvalidData),
            },
    {
        match b {
            0 => Ok(FlowCtrl::Nc),
            1 => Ok(FlowCtrl::On),
            2 => Ok(FlowCtrl::Off),
            _ => Err(EspError::InvalidData),
        }
    }
}

/// Tags of the private configuration records.
#[allow(non_camel_case_types)]
#[derive(Clone, Copy, Debug, PartialEq, Eq, Structural)]
pub enum SlaveConfigPrivTagType {
    HostCapabilities,
    RcvdEspFirmwareChipId,
    SlvConfigTestRawTp,
    SlvConfigThrottleHighThreshold,
    SlvConfigThrottleLowThreshold,
}

impl SlaveConfigPrivTagType {
    /// Numeric value of this variant.
    pub open spec fn spec_val(self) -> u8 {
        match self {
            SlaveConfigPrivTagType::HostCapabilities => 0x44,
            SlaveConfigPrivTagType::RcvdEspFirmwareChipId => 0x45,
            SlaveConfigPrivTagType::SlvConfigTestRawTp => 0x46,
            SlaveConfigPrivTagType::SlvConfigThrottleHighThreshold => 0x47,
            SlaveConfigPrivTagType::SlvConfigThrottleLowThreshold => 0x48,
        }
    }

    /// Numeric value of this variant.
    pub fn val(&self) -> (r: u8)
        ensures
            r == self.spec_val(),
    {
        match self {
            SlaveConfigPrivTagType::HostCapabilities => 0x44,
            SlaveConfigPrivTagType::RcvdEspFirmwareChipId => 0x45,
            SlaveConfigPrivTagType::SlvConfigTestRawTp => 0x46,
            SlaveConfigPrivTagType::SlvConfigThrottleHighThreshold => 0x47,
            SlaveConfigPrivTagType::SlvConfigThrottleLowThreshold => 0x48,
        }
    }

    /// The variant with value `b`, if any.
    pub open spec fn spec_from_val(b: u8) -> Option<SlaveConfigPrivTagType> {
        if b == 0x44 {
            Some(SlaveConfigPrivTagType::HostCapabilities)
        } else if b == 0x45 {
            Some(SlaveConfigPrivTagType::RcvdEspFirmwareChipId)
        } else if b == 0x46 {
            Some(SlaveConfigPrivTagType::SlvConfigTestRawTp)
        } else if b == 0x47 {
            Some(SlaveConfigPrivTagType::SlvConfigThrottleHighThreshold)
        } else if b == 0x48 {
            Some(SlaveConfigPrivTagType::SlvConfigThrottleLowThreshold)
        } else {
            None
        }
    }

    /// The variant with value `b`; `InvalidData` for any other value.
    pub fn from_val(b: u8) -> (r: Result<SlaveConfigPrivTagType, EspError>)
        ensures
            match SlaveConfigPrivTagType::spec_from_val(b) {
                Some(v) => r == Ok::<SlaveConfigPrivTagType, EspError>(v),
                None => r == Err::<SlaveConfigPrivTagType, EspError>(EspError::InvalidData),
            },
    {
        match b {
            0x44 => Ok(SlaveConfigPrivTagType::HostCapabilities),
            0x45 => Ok(SlaveConfigPrivTagType::RcvdEspFirmwareChipId),
            0x46 => Ok(SlaveConfigPrivTagType::SlvConfigTestRawTp),
            0x47 => Ok(SlaveConfigPrivTagType::SlvConfigThrottleHighThreshold),
            0x48 => Ok(SlaveConfigPrivTagType::SlvConfigThrottleLowThreshold),
            _ => Err(EspError::InvalidData),
        }
    }
}

/// Header of a private event; the event data follows it on the wire.
#[derive(Clone, Copy, Debug, PartialEq, Eq, Structural)]
pub struct PrivEventHeader {
    pub event_type: u8,
    /// Length of the event data.
    pub event_len: u8,
}

/// `val` with bit `pos` set.
pub fn set_bit_u32(val: u32, pos: u8) -> (r: u32)
    requires
        pos < 32,
    ensures
        r == val | (1u32 << pos),
{
    val | (1u32 << pos)
}

/// Whether bit `pos` of `val` is set.
pub fn get_bit_u32(val: u32, pos: u8) -> (r: bool)
    requires
        pos < 32,
    ensures
        r == ((val >> pos) & 1 != 0),
{
    ((val >> pos) & 1) != 0
}

} // verus!
