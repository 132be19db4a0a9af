//! Flag word of a station record.

use vstd::prelude::*;

verus! {

/// Bit position.
#[allow(non_upper_case_globals)]
pub const phy_11b: u8 = 0;

/// Bit position.
#[allow(non_upper_case_globals)]
pub const phy_11g: u8 = 1;

/// Bit position.
#[allow(non_upper_case_globals)]
pub const phy_11n: u8 = 2;

/// Bit position.
#[allow(non_upper_case_globals)]
pub const phy_lr: u8 = 3;

/// Bit position.
#[allow(non_upper_case_globals)]
pub const phy_11ax: u8 = 4;

/// Bit position.
#[allow(non_upper_case_globals)]
pub const is_mesh_child: u8 = 5;

/// Highest bit index in use, plus one.
pub const MAX_USED_BIT: u8 = 6;

/// The reserved bits.
pub const RESERVED_BITMASK: u16 = 0xFFC0;

/// The reserved bits of `num`, right-aligned.
pub fn get_reserved(num: u16) -> (r: u16)
    ensures
        r == (num & RESERVED_BITMASK) >> MAX_USED_BIT,
{
    (num & RESERVED_BITMASK) >> MAX_USED_BIT
}

/// `num` with `reserved_in` laid over its reserved bits.
pub fn set_reserved(num: u16, reserved_in: u16) -> (r: u16)
    ensures
        r == num | (reserved_in << MAX_USED_BIT),
{
    num | (reserved_in << MAX_USED_BIT)
}

} // verus!
