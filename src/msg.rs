//! Splitting a received buffer into a Wi-Fi RPC message or an HCI payload,
//! with recovery of HCI frames whose start was shifted by reception jitter.

use vstd::prelude::*;

verus! {

use crate::header::{header_decode, InterfaceType, PayloadHeader, HEADER_SIZE, PL_HEADER_SIZE};
use crate::rpc::{envelope_decode, lemma_envelope_decode_bounds, Rpc};
use crate::EspError;

/// A Wi-Fi RPC message of a received frame.
pub struct WifiMsg<'a> {
    pub header: PayloadHeader,
    pub rpc: Rpc,
    /// The RPC payload, from its start to the end of the frame.
    pub data: &'a [u8],
    /// The whole RPC envelope, for a full protobuf decoder.
    pub rpc_raw: &'a [u8],
}

/// HCI bytes of a received frame, from the first HCI packet on.
pub struct HciMsg<'a> {
    pub data: &'a [u8],
}

/// What a received buffer holds.
pub enum MsgParsed<'a> {
    Wifi(WifiMsg<'a>),
    Hci(HciMsg<'a>),
}

/// How a received buffer is split, by indices into it.
pub enum MsgSpec {
    Wifi { header: PayloadHeader, rpc: Rpc, rpc_end: nat, data_start: nat },
    Hci { start: nat },
}

/// Window of shifts tried against the header-length pattern.
pub const MAX_SHIFT: usize = 6;
/// Window of shifts tried against the advertising sub-event pattern.
pub const MAX_SHIFT_ADV: usize = 16;

/// At `off` stands the header-length field `[12, 0]`, and six bytes later the
/// tail of a header of an HCI event packet, `[0, 0, 4]`.
pub open spec fn header_pattern_at(b: Seq<u8>, off: int) -> bool {
    &&& off + 9 <= b.len()
    &&& b[off] == 12 && b[off + 1] == 0
    &&& b[off + 6] == 0 && b[off + 7] == 0 && b[off + 8] == 4
}

/// At `off` stands `[0, 4, 62]`: the end of a header, the HCI event marker
/// and the LE meta-event code.
pub open spec fn adv_pattern_at(b: Seq<u8>, off: int) -> bool {
    off + 3 <= b.len() && b[off] == 0 && b[off + 1] == 4 && b[off + 2] == 62
}

/// Start of the HCI bytes by the header-length pattern, trying `off` up to
/// `MAX_SHIFT - 1`: the pattern at `off` puts the HCI bytes at `off + 8`.
pub open spec fn scan_header_pattern(b: Seq<u8>, off: int) -> Option<nat>
    decreases MAX_SHIFT - off,
{
    if off < 1 || off >= MAX_SHIFT {
        None
    } else if header_pattern_at(b, off) {
        Some((off + 8) as nat)
    } else {
        scan_header_pattern(b, off + 1)
    }
}

/// Start of the HCI bytes by the sub-event pattern, trying `off` up to
/// `MAX_SHIFT_ADV - 1`: the pattern at `off` puts the HCI bytes at `off + 1`.
pub open spec fn scan_adv_pattern(b: Seq<u8>, off: int) -> Option<nat>
    decreases MAX_SHIFT_ADV - off,
{
    if off < 1 || off >= MAX_SHIFT_ADV {
        None
    } else if adv_pattern_at(b, off) {
        Some((off + 1) as nat)
    } else {
        scan_adv_pattern(b, off + 1)
    }
}

/// Where the HCI bytes of a shifted buffer start, if either pattern is found.
pub open spec fn resync_spec(b: Seq<u8>) -> Option<nat> {
    match scan_header_pattern(b, 1) {
        Some(s) => Some(s),
        None => scan_adv_pattern(b, 1),
    }
}

/// How `b` is split. A first byte of 0 or above 8 is no interface type: the
/// buffer is taken as a shifted HCI frame and realigned, or rejected.
pub open spec fn parse_msg_spec(b: Seq<u8>) -> Result<MsgSpec, EspError> {
    if b.len() == 0 {
        Err(EspError::InvalidData)
    } else if b[0] > 8 || b[0] == 0 {
        match resync_spec(b) {
            Some(s) => Ok(MsgSpec::Hci { start: s }),
            None => Err(EspError::InvalidData),
        }
    } else if b.len() < PL_HEADER_SIZE {
        Err(EspError::InvalidData)
    } else {
        match header_decode(b) {
            Err(e) => Err(e),
            Ok(h) => {
                let total = h.len + PL_HEADER_SIZE;
                if total > b.len() {
                    Err(EspError::Capacity)
                } else if h.if_type == InterfaceType::Hci {
                    Ok(MsgSpec::Hci { start: PL_HEADER_SIZE as nat })
                } else if HEADER_SIZE >= total {
                    Err(EspError::InvalidData)
                } else {
                    match envelope_decode(b.subrange(HEADER_SIZE as int, total)) {
                        Err(e) => Err(e),
                        Ok((rpc, start, _len)) => Ok(
                            MsgSpec::Wifi { header: h, rpc, rpc_end: total as nat, data_start: (HEADER_SIZE + start) as nat },
                        ),
                    }
                }
            },
        }
    }
}

/// Finds where the HCI bytes of a shifted buffer start.
fn resync(buf: &[u8]) -> (r: Option<usize>)
    ensures
        match resync_spec(buf@) {
            Some(s) => r == Some(s as usize) && s <= buf@.len(),
            None => r is None,
        },
{
    let n = buf.len();
    let mut off: usize = 1;
    while off < MAX_SHIFT
        invariant
            1 <= off <= MAX_SHIFT,
            n == buf@.len(),
            scan_header_pattern(buf@, 1) == scan_header_pattern(buf@, off as int),
        decreases MAX_SHIFT - off,
    {
        if off + 9 <= n && buf[off] == 12 && buf[off + 1] == 0 && buf[off + 6] == 0 && buf[off + 7] == 0 && buf[off + 8] == 4 {
            return Some(off + 8);
        }
        off = off + 1;
    }
    let mut off: usize = 1;
    while off < MAX_SHIFT_ADV
        invariant
            1 <= off <= MAX_SHIFT_ADV,
            n == buf@.len(),
            scan_header_pattern(buf@, 1) is None,
            scan_adv_pattern(buf@, 1) == scan_adv_pattern(buf@, off as int),
        decreases MAX_SHIFT_ADV - off,
    {
        if off + 3 <= n && buf[off] == 0 && buf[off + 1] == 4 && buf[off + 2] == 62 {
            return Some(off + 1);
        }
        off = off + 1;
    }
    None
}

/// Splits a received buffer. A buffer that does not start with a plausible
/// interface type is realigned as a shifted HCI frame, or rejected with
/// `InvalidData`. Otherwise the payload header is parsed: HCI frames give
/// their bytes after the header, Wi-Fi frames their RPC envelope and payload.
/// `Capacity` when the header declares more bytes than the buffer holds.
pub fn parse_msg<'a>(buf: &'a [u8]) -> (r: Result<MsgParsed<'a>, EspError>)
    ensures
        match parse_msg_spec(buf@) {
            Err(e) => r == Err::<MsgParsed<'a>, EspError>(e),
            Ok(MsgSpec::Hci { start }) => match r {
                Ok(MsgParsed::Hci(m)) => start <= buf@.len() && m.data@ == buf@.subrange(start as int, buf@.len() as int),
                _ => false,
            },
            Ok(MsgSpec::Wifi { header, rpc, rpc_end, data_start }) => match r {
                Ok(MsgParsed::Wifi(m)) => {
                    &&& m.header == header
                    &&& m.rpc == rpc
                    &&& data_start <= rpc_end <= buf@.len()
                    &&& m.data@ == buf@.subrange(data_start as int, rpc_end as int)
                    &&& m.rpc_raw@ == buf@.subrange(HEADER_SIZE as int, rpc_end as int)
                },
                _ => false,
            },
        },
{
    let n = buf.len();
    if n == 0 {
        return Err(EspError::InvalidData);
    }
    if buf[0] > 8 || buf[0] == 0 {
        return match resync(buf) {
            Some(start) => Ok(MsgParsed::Hci(HciMsg { data: &buf[start..n] })),
            None => Err(EspError::InvalidData),
        };
    }
    if n < PL_HEADER_SIZE {
        return Err(EspError::InvalidData);
    }
    let header = PayloadHeader::from_bytes(buf)?;
    let total_size = header.len as usize + PL_HEADER_SIZE;
    if total_size > n {
        return Err(EspError::Capacity);
    }
    if header.if_type == InterfaceType::Hci {
        return Ok(MsgParsed::Hci(HciMsg { data: &buf[PL_HEADER_SIZE..n] }));
    }
    if HEADER_SIZE >= total_size {
        return Err(EspError::InvalidData);
    }
    let rpc_buf = &buf[HEADER_SIZE..total_size];
    let (rpc, data_start_i, _data_len) = Rpc::from_bytes(rpc_buf)?;
    let data = &rpc_buf[data_start_i..rpc_buf.len()];
    proof {
        assert(rpc_buf@ == buf@.subrange(HEADER_SIZE as int, total_size as int));
        assert(rpc_buf@.len() == total_size - HEADER_SIZE);
        assert(data@ =~= buf@.subrange(HEADER_SIZE + data_start_i, total_size as int));
        lemma_envelope_decode_bounds(rpc_buf@);
    }
    Ok(MsgParsed::Wifi(WifiMsg { header, rpc, data, rpc_raw: rpc_buf }))
}

} // verus!
