//! Flag word of the HE information of an access point; bits 0-5 hold the BSS color.

use vstd::prelude::*;

verus! {

/// Bit position.
#[allow(non_upper_case_globals)]
pub const partial_bss_color: u8 = 6;

/// Bit position.
#[allow(non_upper_case_globals)]
pub const bss_color_disabled: u8 = 7;

/// Highest bit index in use, plus one.
pub const MAX_USED_BIT: u8 = 8;

/// Mask of the six-bit BSS color.
pub const BSS_COLOR_BITS: u8 = 0x3F;

} // verus!
