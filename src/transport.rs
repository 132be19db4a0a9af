//! Transport-level constants, the packet-type discriminator of the frame
//! header and the frame checksum.

use vstd::prelude::*;

verus! {

use crate::ble::HciPkt;
use crate::EspError;

/// Largest frame an SDIO transport carries.
pub const ESP_TRANSPORT_SDIO_MAX_BUF_SIZE: u16 = 1536;
/// Largest frame an SPI transport carries.
pub const ESP_TRANSPORT_SPI_MAX_BUF_SIZE: u16 = 1600;
/// Largest frame a half-duplex SPI transport carries.
pub const ESP_TRANSPORT_SPI_HD_MAX_BUF_SIZE: u16 = 1600;
/// Largest frame a UART transport carries.
pub const ESP_TRANSPORT_UART_MAX_BUF_SIZE: u16 = 1600;

/// Discriminator in byte 11 of the frame header.
#[allow(non_camel_case_types)]
#[derive(Clone, Copy, Debug, PartialEq, Eq, Structural)]
pub enum PacketType {
    /// No special type.
    Untyped,
    /// An event packet sent by the co-processor.
    ESP_PACKET_TYPE_EVENT,
    /// The init-event packet of the host.
    ESP_PRIV_EVENT_INIT,
    /// On the HCI interface: the kind of HCI packet carried.
    Hci(HciPkt),
}

impl PacketType {
    /// Byte value of this packet type.
    pub open spec fn spec_val(self) -> u8 {
        match self {
            PacketType::Untyped => 0,
            PacketType::ESP_PACKET_TYPE_EVENT => 0x33,
            PacketType::ESP_PRIV_EVENT_INIT => 0x22,
            PacketType::Hci(v) => v.spec_val(),
        }
    }

    /// The packet type with byte value `b`, if any.
    pub open spec fn spec_from_byte(b: u8) -> Option<PacketType> {
        if b == 0 {
            Some(PacketType::Untyped)
        } else if b == 0x33 {
            Some(PacketType::ESP_PACKET_TYPE_EVENT)
        } else if b == 0x22 {
            Some(PacketType::ESP_PRIV_EVENT_INIT)
        } else {
            match HciPkt::spec_from_val(b) {
                Some(p) => Some(PacketType::Hci(p)),
                None => None,
            }
        }
    }

    /// Byte value of this packet type.
    pub fn val(&self) -> (r: u8)
        ensures
            r == self.spec_val(),
    {
        match self {
            PacketType::Untyped => 0,
            PacketType::ESP_PACKET_TYPE_EVENT => 0x33,
            PacketType::ESP_PRIV_EVENT_INIT => 0x22,
            PacketType::Hci(v) => v.val(),
        }
    }

    /// The packet type with byte value `b`; `InvalidData` for an unknown value.
    pub fn from_byte(b: u8) -> (r: Result<Self, EspError>)
        ensures
            match PacketType::spec_from_byte(b) {
                Some(p) => r == Ok::<PacketType, EspError>(p),
                None => r == Err::<PacketType, EspError>(EspError::InvalidData),
            },
    {
        match b {
            0 => Ok(PacketType::Untyped),
            0x33 => Ok(PacketType::ESP_PACKET_TYPE_EVENT),
            0x22 => Ok(PacketType::ESP_PRIV_EVENT_INIT),
            _ => {
                let p = HciPkt::from_val(b)?;
                Ok(PacketType::Hci(p))
            },
        }
    }

    /// Every packet type is read back from its own byte value.
    pub proof fn lemma_round_trip(self)
        ensures
            PacketType::spec_from_byte(self.spec_val()) == Some(self),
    {
    }
}

/// Sum of the bytes of `s`.
pub open spec fn byte_sum(s: Seq<u8>) -> nat
    decreases s.len(),
{
    if s.len() == 0 {
        0
    } else {
        byte_sum(s.drop_last()) + s.last() as nat
    }
}

/// The frame checksum of `s`: the sum of its bytes modulo 2^16.
pub open spec fn checksum_spec(s: Seq<u8>) -> u16 {
    (byte_sum(s) % 0x10000) as u16
}

/// Wrapping 16-bit sum of every byte of `buf`.
pub fn compute_checksum(buf: &[u8]) -> (r: u16)
    ensures
        r == checksum_spec(buf@),
{
    let mut checksum: u16 = 0;
    let mut i: usize = 0;
    while i < buf.len()
        invariant
            i <= buf@.len(),
            checksum == checksum_spec(buf@.subrange(0, i as int)),
        decreases buf.len() - i,
    {
        proof {
            let s = buf@.subrange(0, i as int + 1);
            assert(s.drop_last() =~= buf@.subrange(0, i as int));
            assert(s.last() == buf@[i as int]);
        }
        checksum = checksum.wrapping_add(buf[i] as u16);
        i = i + 1;
    }
    assert(buf@.subrange(0, i as int) =~= buf@);
    checksum
}

/// SLIP frame delimiter.
pub const SLIP_END: u8 = 0xC0;
/// SLIP escape byte.
pub const SLIP_ESC: u8 = 0xDB;
/// Escaped form of `SLIP_END`, after `SLIP_ESC`.
pub const SLIP_ESC_END: u8 = 0xDC;
/// Escaped form of `SLIP_ESC`, after `SLIP_ESC`.
pub const SLIP_ESC_ESC: u8 = 0xDD;

/// `s` with every delimiter and escape byte escaped.
pub open spec fn slip_escape(s: Seq<u8>) -> Seq<u8>
    decreases s.len(),
{
    if s.len() == 0 {
        seq![]
    } else {
        let b = s.last();
        slip_escape(s.drop_last()) + if b == SLIP_END {
            seq![SLIP_ESC, SLIP_ESC_END]
        } else if b == SLIP_ESC {
            seq![SLIP_ESC, SLIP_ESC_ESC]
        } else {
            seq![b]
        }
    }
}

/// The SLIP frame of `s`: a delimiter, `s` escaped, a delimiter.
pub open spec fn slip_spec(s: Seq<u8>) -> Seq<u8> {
    seq![SLIP_END] + slip_escape(s) + seq![SLIP_END]
}

/// SLIP-encodes `src` at the start of `out`; returns the bytes written.
pub fn slip_encode(src: &[u8], out: &mut [u8]) -> (r: usize)
    requires
        slip_spec(src@).len() <= old(out)@.len(),
    ensures
        r == slip_spec(src@).len(),
        final(out)@ == crate::wire::splice(old(out)@, 0, slip_spec(src@)),
{
    let n = out.len();
    let mut w: usize = 0;
    out[w] = SLIP_END;
    w = w + 1;
    let mut k: usize = 0;
    proof {
        lemma_slip_escape_prefix_len(src@, 0);
    }
    while k < src.len()
        invariant
            k <= src@.len(),
            n == out@.len(),
            n == old(out)@.len(),
            slip_spec(src@).len() <= n,
            w == 1 + slip_escape(src@.take(k as int)).len(),
            out@ == crate::wire::splice(old(out)@, 0, seq![SLIP_END] + slip_escape(src@.take(k as int))),
        decreases src.len() - k,
    {
        proof {
            lemma_slip_escape_prefix_len(src@, (k + 1) as nat);
            assert(src@.take(k + 1 as int).drop_last() =~= src@.take(k as int));
        }
        let b = src[k];
        let ghost prev = out@;
        if b == SLIP_END {
            out[w] = SLIP_ESC;
            out[w + 1] = SLIP_ESC_END;
            w = w + 2;
        } else if b == SLIP_ESC {
            out[w] = SLIP_ESC;
            out[w + 1] = SLIP_ESC_ESC;
            w = w + 2;
        } else {
            out[w] = b;
            w = w + 1;
        }
        k = k + 1;
        assert(out@ =~= crate::wire::splice(old(out)@, 0, seq![SLIP_END] + slip_escape(src@.take(k as int))));
    }
    assert(src@.take(k as int) =~= src@);
    out[w] = SLIP_END;
    assert(out@ =~= crate::wire::splice(old(out)@, 0, slip_spec(src@)));
    w + 1
}

/// Escaping a prefix gives no more bytes than escaping all of `s`.
proof fn lemma_slip_escape_prefix_len(s: Seq<u8>, k: nat)
    requires
        k <= s.len(),
    ensures
        slip_escape(s.take(k as int)).len() <= slip_escape(s).len(),
    decreases s.len() - k,
{
    if k < s.len() {
        lemma_slip_escape_prefix_len(s, k + 1);
        assert(s.take(k + 1 as int).drop_last() =~= s.take(k as int));
    } else {
        assert(s.take(k as int) =~= s);
    }
}

} // verus!
