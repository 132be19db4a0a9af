//! Second bit field of a station configuration.

use vstd::prelude::*;

verus! {

/// Bit position.
#[allow(non_upper_case_globals)]
pub const he_dcm_set: u8 = 0;

/// Bit position.
#[allow(non_upper_case_globals)]
pub const he_dcm_max_constellation_tx_bits: u8 = 1;

/// Bit position.
#[allow(non_upper_case_globals)]
pub const he_dcm_max_constellation_rx_bits: u8 = 3;

/// Bit position.
#[allow(non_upper_case_globals)]
pub const he_mcs9_enabled: u8 = 5;

/// Bit position.
#[allow(non_upper_case_globals)]
pub const he_su_beamformee_disabled: u8 = 6;

/// Bit position.
#[allow(non_upper_case_globals)]
pub const he_trig_su_bmforming_feedback_disabled: u8 = 7;

/// Bit position.
#[allow(non_upper_case_globals)]
pub const he_trig_mu_bmforming_partial_feedback_disabled: u8 = 8;

/// Bit position.
#[allow(non_upper_case_globals)]
pub const he_trig_cqi_feedback_disabled: u8 = 9;

/// Bit position.
#[allow(non_upper_case_globals)]
pub const vht_su_beamformee_disabled: u8 = 10;

/// Bit position.
#[allow(non_upper_case_globals)]
pub const vht_mu_beamformee_disabled: u8 = 11;

/// Bit position.
#[allow(non_upper_case_globals)]
pub const vht_mcs8_enabled: u8 = 12;

/// Highest bit index in use, plus one.
pub const MAX_USED_BIT: u8 = 13;

/// The reserved bits.
pub const RESERVED_BITMASK: u32 = 0xFFFF_E000;

/// The reserved bits of `num`, right-aligned.
pub fn get_reserved(num: u32) -> (r: u32)
    ensures
        r == (num & RESERVED_BITMASK) >> MAX_USED_BIT,
{
    (num & RESERVED_BITMASK) >> MAX_USED_BIT
}

/// `num` with `reserved_in` laid over its reserved bits.
pub fn set_reserved(num: u32, reserved_in: u32) -> (r: u32)
    ensures
        r == num | (reserved_in << MAX_USED_BIT),
{
    num | (reserved_in << MAX_USED_BIT)
}

} // verus!
