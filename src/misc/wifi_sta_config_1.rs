//! First bit field of a station configuration.

use vstd::prelude::*;

verus! {

/// Bit position.
#[allow(non_upper_case_globals)]
pub const rm_enabled: u8 = 0;

/// Bit position.
#[allow(non_upper_case_globals)]
pub const btm_enabled: u8 = 1;

/// Bit position.
#[allow(non_upper_case_globals)]
pub const mbo_enabled: u8 = 2;

/// Bit position.
#[allow(non_upper_case_globals)]
pub const ft_enabled: u8 = 3;

/// Bit position.
#[allow(non_upper_case_globals)]
pub const owe_enabled: u8 = 4;

/// Bit position.
#[allow(non_upper_case_globals)]
pub const transition_disable: u8 = 5;

/// Highest bit index in use, plus one.
pub const MAX_USED_BIT: u8 = 6;

/// The reserved bits.
pub const RESERVED_BITMASK: u32 = 0xFFFF_FFC0;

/// The reserved bits of `num`, right-aligned.
pub fn get_reserved(num: u32) -> (r: u32)
    ensures
        r == (num & RESERVED_BITMASK) >> MAX_USED_BIT,
{
    (num & RESERVED_BITMASK) >> MAX_USED_BIT
}

/// `num` with `reserved_in` laid over its reserved bits.
pub fn set_reserved(num: u32, reserved_in: u32) -> (r: u32)
    ensures
        r == num | (reserved_in << MAX_USED_BIT),
{
    num | (reserved_in << MAX_USED_BIT)
}

} // verus!
