//! The 12-byte payload header that starts every frame, the TLV block that
//! follows it on RPC frames, and frame assembly with the checksum.

use vstd::prelude::*;

verus! {

use crate::ble::HciPkt;
use crate::rpc::{endpoint_name_spec, RpcEndpoint, EndpointType};
use crate::transport::{checksum_spec, compute_checksum, PacketType};
use crate::wire::{copy_into, get_le16, le16, le16_at, put_le16, splice};
use crate::EspError;

/// Size of the payload header.
pub const PL_HEADER_SIZE: usize = 12;
/// Fixed bytes of the TLV block: endpoint type (1), endpoint length (2),
/// data type (1), data length (2).
pub const TLV_HEADER_SIZE: usize = 6;
/// Size of the TLV block, endpoint name included.
pub const TLV_SIZE: usize = TLV_HEADER_SIZE + 6;
/// Payload header and TLV block together.
pub const HEADER_SIZE: usize = PL_HEADER_SIZE + TLV_SIZE;

/// Interface a frame belongs to, in the low nibble of header byte 0.
#[derive(Clone, Copy, Debug, PartialEq, Eq, Structural)]
pub enum InterfaceType {
    Invalid,
    Sta,
    Ap,
    Serial,
    Hci,
    Priv,
    Test,
    Eth,
    Max,
}

impl InterfaceType {
    /// Numeric value of this interface type.
    pub open spec fn spec_val(self) -> u8 {
        match self {
            InterfaceType::Invalid => 0,
            InterfaceType::Sta => 1,
            InterfaceType::Ap => 2,
            InterfaceType::Serial => 3,
            InterfaceType::Hci => 4,
            InterfaceType::Priv => 5,
            InterfaceType::Test => 6,
            InterfaceType::Eth => 7,
            InterfaceType::Max => 8,
        }
    }

    /// The interface type with value `b`, if any.
    pub open spec fn spec_from_val(b: u8) -> Option<InterfaceType> {
        if b == 0 {
            Some(InterfaceType::Invalid)
        } else if b == 1 {
            Some(InterfaceType::Sta)
        } else if b == 2 {
            Some(InterfaceType::Ap)
        } else if b == 3 {
            Some(InterfaceType::Serial)
        } else if b == 4 {
            Some(InterfaceType::Hci)
        } else if b == 5 {
            Some(InterfaceType::Priv)
        } else if b == 6 {
            Some(InterfaceType::Test)
        } else if b == 7 {
            Some(InterfaceType::Eth)
        } else if b == 8 {
            Some(InterfaceType::Max)
        } else {
            None
        }
    }

    /// Numeric value of this interface type.
    pub fn val(&self) -> (r: u8)
        ensures
            r == self.spec_val(),
    {
        match self {
            InterfaceType::Invalid => 0,
            InterfaceType::Sta => 1,
            InterfaceType::Ap => 2,
            InterfaceType::Serial => 3,
            InterfaceType::Hci => 4,
            InterfaceType::Priv => 5,
            InterfaceType::Test => 6,
            InterfaceType::Eth => 7,
            InterfaceType::Max => 8,
        }
    }

    /// The interface type with value `b`; `InvalidData` for any other value.
    pub fn from_val(b: u8) -> (r: Result<InterfaceType, EspError>)
        ensures
            match InterfaceType::spec_from_val(b) {
                Some(t) => r == Ok::<InterfaceType, EspError>(t),
                None => r == Err::<InterfaceType, EspError>(EspError::InvalidData),
            },
    {
        match b {
            0 => Ok(InterfaceType::Invalid),
            1 => Ok(InterfaceType::Sta),
            2 => Ok(InterfaceType::Ap),
            3 => Ok(InterfaceType::Serial),
            4 => Ok(InterfaceType::Hci),
            5 => Ok(InterfaceType::Priv),
            6 => Ok(InterfaceType::Test),
            7 => Ok(InterfaceType::Eth),
            8 => Ok(InterfaceType::Max),
            _ => Err(EspError::InvalidData),
        }
    }
}

/// Monotonic sequence counter for outbound frames. One counter is shared by
/// every sender of a transport; it wraps at 2^16 like the wire field.
pub struct SeqCounter {
    pub next: u16,
}

impl SeqCounter {
    /// A counter that starts at 0.
    pub fn new() -> (r: SeqCounter)
        ensures
            r.next == 0,
    {
        SeqCounter { next: 0 }
    }

    /// Hands out the current number and advances the counter.
    pub fn take(&mut self) -> (r: u16)
        ensures
            r == old(self).next,
            final(self).next == (old(self).next + 1) % 0x10000,
    {
        let r = self.next;
        self.next = self.next.wrapping_add(1);
        r
    }
}

/// The payload header at the start of every frame.
#[derive(Clone, Copy, Debug, PartialEq, Eq, Structural)]
pub struct PayloadHeader {
    /// Interface type (low nibble of byte 0).
    pub if_type: InterfaceType,
    /// Interface number (high nibble of byte 0).
    pub if_num: u8,
    pub flags: u8,
    /// Number of bytes in the frame after this header.
    pub len: u16,
    /// Index where the payload starts: always 12.
    pub offset: u16,
    /// Wrapping byte sum of the whole frame, taken with this field zeroed.
    pub checksum: u16,
    /// Sequence number, for diagnostics.
    pub seq_num: u16,
    /// Flow control, two bits.
    pub throttle_cmd: u8,
    pub pkt_type: PacketType,
}

/// The 12 bytes of header `h`.
pub open spec fn header_bytes(h: PayloadHeader) -> Seq<u8> {
    seq![((h.if_num % 16) * 16 + h.if_type.spec_val()) as u8, h.flags] + le16(h.len) + le16(h.offset)
        + le16(h.checksum) + le16(h.seq_num) + seq![h.throttle_cmd, h.pkt_type.spec_val()]
}

/// The header that the first 12 bytes of `b` decode to.
pub open spec fn header_decode(b: Seq<u8>) -> Result<PayloadHeader, EspError> {
    match (InterfaceType::spec_from_val(b[0] % 16), PacketType::spec_from_byte(b[11])) {
        (Some(t), Some(p)) => Ok(
            PayloadHeader {
                if_type: t,
                if_num: b[0] / 16,
                flags: b[1],
                len: le16_at(b, 2),
                offset: le16_at(b, 4),
                checksum: le16_at(b, 6),
                seq_num: le16_at(b, 8),
                throttle_cmd: b[10] % 4,
                pkt_type: p,
            },
        ),
        _ => Err(EspError::InvalidData),
    }
}

impl PayloadHeader {
    /// The header fits its bit fields: a four-bit interface number and a
    /// two-bit throttle command.
    pub open spec fn wf(self) -> bool {
        self.if_num < 16 && self.throttle_cmd < 4
    }

    /// A fresh header for `payload_len` bytes after it, with a zero checksum
    /// and the next sequence number of `seq`.
    pub fn new(
        if_type: InterfaceType,
        if_num: u8,
        pkt_type: PacketType,
        payload_len: usize,
        seq: &mut SeqCounter,
    ) -> (r: Self)
        requires
            payload_len <= 0xFFFF,
        ensures
            r == (PayloadHeader {
                if_type,
                if_num,
                flags: 0,
                len: payload_len as u16,
                offset: PL_HEADER_SIZE as u16,
                checksum: 0,
                seq_num: old(seq).next,
                throttle_cmd: 0,
                pkt_type,
            }),
            final(seq).next == (old(seq).next + 1) % 0x10000,
    {
        PayloadHeader {
            if_type,
            if_num,
            flags: 0,
            len: payload_len as u16,
            offset: PL_HEADER_SIZE as u16,
            checksum: 0,
            seq_num: seq.take(),
            throttle_cmd: 0,
            pkt_type,
        }
    }

    /// Serialises into the packed 12-byte form.
    pub fn to_bytes(&self) -> (r: [u8; 12])
        ensures
            r@ == header_bytes(*self),
    {
        let mut buf = [0u8; 12];
        let t = self.if_type.val();
        let n = self.if_num;
        assert(t < 16 ==> (n << 4) | t == ((n % 16) * 16 + t) as u8) by (bit_vector);
        buf[0] = (self.if_num << 4) | t;
        buf[1] = self.flags;
        put_le16(&mut buf, 2, self.len);
        put_le16(&mut buf, 4, self.offset);
        put_le16(&mut buf, 6, self.checksum);
        put_le16(&mut buf, 8, self.seq_num);
        buf[10] = self.throttle_cmd;
        buf[11] = self.pkt_type.val();
        assert(buf@ =~= header_bytes(*self));
        buf
    }

    /// Parses the first 12 bytes of `buf`; `InvalidData` when the interface
    /// type or the packet type is unknown.
    pub fn from_bytes(buf: &[u8]) -> (r: Result<Self, EspError>)
        requires
            buf@.len() >= PL_HEADER_SIZE,
        ensures
            r == header_decode(buf@),
    {
        let b0 = buf[0];
        assert(b0 & 0x0F == b0 % 16 && (b0 >> 4) & 0x0F == b0 / 16) by (bit_vector);
        let if_type = InterfaceType::from_val(b0 & 0x0F)?;
        let if_num = (b0 >> 4) & 0x0F;
        let flags = buf[1];
        let len = get_le16(buf, 2);
        let offset = get_le16(buf, 4);
        let checksum = get_le16(buf, 6);
        let seq_num = get_le16(buf, 8);
        let b10 = buf[10];
        assert(b10 & 3 == b10 % 4) by (bit_vector);
        let throttle_cmd = b10 & 3;
        let pkt_type = PacketType::from_byte(buf[11])?;
        Ok(PayloadHeader { if_type, if_num, flags, len, offset, checksum, seq_num, throttle_cmd, pkt_type })
    }
}

/// Every well-formed header is read back unchanged from its own bytes.
pub proof fn lemma_header_round_trip(h: PayloadHeader)
    requires
        h.wf(),
    ensures
        header_decode(header_bytes(h)) == Ok::<PayloadHeader, EspError>(h),
{
    let b = header_bytes(h);
    let t = h.if_type.spec_val();
    let n = h.if_num;
    assert(b[0] == (n * 16 + t) as u8);
    assert((n * 16 + t) % 16 == t && (n * 16 + t) / 16 == n) by (nonlinear_arith)
        requires
            n < 16,
            t < 16,
    ;
    h.pkt_type.lemma_round_trip();
    assert(le16_at(b, 2) == h.len);
    assert(le16_at(b, 4) == h.offset);
    assert(le16_at(b, 6) == h.checksum);
    assert(le16_at(b, 8) == h.seq_num);
}

/// `h` with its checksum field set to `c`.
pub open spec fn with_checksum(h: PayloadHeader, c: u16) -> PayloadHeader {
    PayloadHeader { checksum: c, ..h }
}

/// The frame made of header `h` and the bytes `body` after it, with the
/// checksum taken over the whole frame while the checksum field is zero.
pub open spec fn frame_spec(h: PayloadHeader, body: Seq<u8>) -> Seq<u8> {
    header_bytes(with_checksum(h, checksum_spec(header_bytes(with_checksum(h, 0)) + body))) + body
}

/// `s` with the checksum field (bytes 6 and 7) set to zero.
pub open spec fn zero_checksum_field(s: Seq<u8>) -> Seq<u8> {
    s.update(6, 0).update(7, 0)
}

/// The checksum of a frame is taken with its checksum field zeroed: writing
/// it into bytes 6 and 7 and zeroing them again gives back the same bytes,
/// so recomputing reproduces the same value.
pub proof fn lemma_checksum_stable(f: Seq<u8>)
    requires
        f.len() >= PL_HEADER_SIZE,
    ensures
        ({
            let c = checksum_spec(zero_checksum_field(f));
            let written = splice(zero_checksum_field(f), 6, le16(c));
            checksum_spec(zero_checksum_field(written)) == c
        }),
{
    let z = zero_checksum_field(f);
    let c = checksum_spec(z);
    let written = splice(z, 6, le16(c));
    assert(zero_checksum_field(written) =~= z);
}

/// The bytes of header `h` are those of `h` with a zero checksum, with the
/// checksum field patched.
proof fn lemma_patch_checksum(h: PayloadHeader, c: u16)
    ensures
        header_bytes(with_checksum(h, c)) == splice(header_bytes(with_checksum(h, 0)), 6, le16(c)),
{
    assert(header_bytes(with_checksum(h, c)) =~= splice(header_bytes(with_checksum(h, 0)), 6, le16(c)));
}

/// Writes header `h` with a zero checksum, then `prefix` and `body`, then
/// patches the checksum over the whole frame. Returns the frame length.
fn write_frame(out: &mut [u8], h: PayloadHeader, prefix: &[u8], body: &[u8]) -> (r: usize)
    requires
        h.checksum == 0,
        PL_HEADER_SIZE + prefix@.len() + body@.len() <= old(out)@.len(),
    ensures
        r == PL_HEADER_SIZE + prefix@.len() + body@.len(),
        final(out)@ == splice(old(out)@, 0, frame_spec(h, prefix@ + body@)),
{
    let n = out.len();
    let hb = h.to_bytes();
    copy_into(out, 0, &hb);
    copy_into(out, PL_HEADER_SIZE, prefix);
    let mid = PL_HEADER_SIZE + prefix.len();
    copy_into(out, mid, body);
    let end = mid + body.len();
    let ghost zeroed = header_bytes(h) + (prefix@ + body@);
    assert(out@.subrange(0, end as int) =~= zeroed);
    let c = compute_checksum(&out[0..end]);
    put_le16(out, 6, c);
    proof {
        assert(with_checksum(h, 0) == h);
        lemma_patch_checksum(h, c);
    }
    assert(out@ =~= splice(old(out)@, 0, frame_spec(h, prefix@ + body@)));
    end
}

/// Header of an outbound HCI frame carrying `len` bytes of `pkt`.
pub open spec fn ble_header(pkt: HciPkt, len: nat, seq: u16) -> PayloadHeader {
    PayloadHeader {
        if_type: InterfaceType::Hci,
        if_num: 0,
        flags: 0,
        len: len as u16,
        offset: 12,
        checksum: 0,
        seq_num: seq,
        throttle_cmd: 0,
        pkt_type: PacketType::Hci(pkt),
    }
}

/// Builds a complete HCI frame in `out`: payload header, then `hci_payload`.
/// Returns the frame length; `Capacity`, with nothing written, when the frame
/// does not fit `out` or the payload does not fit the 16-bit length field.
pub fn build_frame_ble(out: &mut [u8], pkt_type: HciPkt, hci_payload: &[u8], seq: &mut SeqCounter) -> (r: Result<usize, EspError>)
    ensures
        hci_payload@.len() <= 0xFFFF && PL_HEADER_SIZE + hci_payload@.len() <= old(out)@.len() ==> {
            &&& r == Ok::<usize, EspError>((PL_HEADER_SIZE + hci_payload@.len()) as usize)
            &&& final(out)@ == splice(old(out)@, 0, frame_spec(ble_header(pkt_type, hci_payload@.len(), old(seq).next), hci_payload@))
            &&& final(seq).next == (old(seq).next + 1) % 0x10000
        },
        !(hci_payload@.len() <= 0xFFFF && PL_HEADER_SIZE + hci_payload@.len() <= old(out)@.len()) ==> {
            &&& r == Err::<usize, EspError>(EspError::Capacity)
            &&& final(out)@ == old(out)@
            &&& final(seq).next == old(seq).next
        },
{
    let payload_len = hci_payload.len();
    if payload_len > 0xFFFF || out.len() < PL_HEADER_SIZE || payload_len > out.len() - PL_HEADER_SIZE {
        return Err(EspError::Capacity);
    }
    let hdr = PayloadHeader::new(InterfaceType::Hci, 0, PacketType::Hci(pkt_type), payload_len, seq);
    let empty: [u8; 0] = [];
    let n = write_frame(out, hdr, &empty, hci_payload);
    assert(empty@ + hci_payload@ =~= hci_payload@);
    Ok(n)
}

/// The TLV block of an RPC frame carrying `payload_len` bytes: endpoint name
/// record, then the header of the data record.
pub open spec fn tlv_spec(payload_len: u16) -> Seq<u8> {
    seq![EndpointType::EndpointName.spec_val()] + le16(6) + endpoint_name_spec(RpcEndpoint::CtrlResp)
        + seq![EndpointType::Data.spec_val()] + le16(payload_len)
}

/// Header of an outbound RPC frame whose TLV block and payload take `len` bytes.
pub open spec fn wifi_header(len: nat, seq: u16) -> PayloadHeader {
    PayloadHeader {
        if_type: InterfaceType::Serial,
        if_num: 0,
        flags: 0,
        len: len as u16,
        offset: 12,
        checksum: 0,
        seq_num: seq,
        throttle_cmd: 0,
        pkt_type: PacketType::Untyped,
    }
}

/// Builds a complete RPC frame in `out`: payload header, TLV block, then
/// `payload` (the serialised RPC). Returns the frame length; `Capacity`, with
/// nothing written, when it does not fit `out` or the 16-bit length field.
pub fn build_frame_wifi(out: &mut [u8], payload: &[u8], seq: &mut SeqCounter) -> (r: Result<usize, EspError>)
    ensures
        payload@.len() + TLV_SIZE <= 0xFFFF && HEADER_SIZE + payload@.len() <= old(out)@.len() ==> {
            &&& r == Ok::<usize, EspError>((HEADER_SIZE + payload@.len()) as usize)
            &&& final(out)@ == splice(
                old(out)@,
                0,
                frame_spec(wifi_header((payload@.len() + TLV_SIZE) as nat, old(seq).next), tlv_spec(payload@.len() as u16) + payload@),
            )
            &&& final(seq).next == (old(seq).next + 1) % 0x10000
        },
        !(payload@.len() + TLV_SIZE <= 0xFFFF && HEADER_SIZE + payload@.len() <= old(out)@.len()) ==> {
            &&& r == Err::<usize, EspError>(EspError::Capacity)
            &&& final(out)@ == old(out)@
            &&& final(seq).next == old(seq).next
        },
{
    let payload_len = payload.len();
    if payload_len > 0xFFFF - TLV_SIZE || out.len() < HEADER_SIZE || payload_len > out.len() - HEADER_SIZE {
        return Err(EspError::Capacity);
    }
    let hdr = PayloadHeader::new(InterfaceType::Serial, 0, PacketType::Untyped, payload_len + TLV_SIZE, seq);
    let name = RpcEndpoint::CtrlResp.as_bytes();
    let mut tlv = [0u8; 12];
    tlv[0] = EndpointType::EndpointName.val();
    put_le16(&mut tlv, 1, 6);
    copy_into(&mut tlv, 3, &name);
    tlv[9] = EndpointType::Data.val();
    put_le16(&mut tlv, 10, payload_len as u16);
    assert(tlv@ =~= tlv_spec(payload_len as u16));
    Ok(write_frame(out, hdr, &tlv, payload))
}

} // verus!
