//! The RPC envelope: message type, message id, correlation id and the
//! length-delimited payload whose field number is the message id.

use vstd::prelude::*;

verus! {

use crate::header::{frame_spec, tlv_spec, wifi_header, SeqCounter, HEADER_SIZE, TLV_SIZE, build_frame_wifi};
use crate::proto_data::{EventHeartbeat, RpcId};
use crate::wifi::WifiApRecord;
use crate::wire::{copy_into, lemma_splice_append, field_spec, lemma_varint_at_concat, read_varint, splice, tag_spec, varint_at, varint_spec, write_rpc, WireType};
use crate::EspError;

/// Size of the scratch buffer an envelope is assembled in before framing.
pub const MAX_RPC_SIZE: usize = 500;

/// Kind of RPC message.
#[allow(non_camel_case_types)]
#[derive(Clone, Copy, Debug, PartialEq, Eq, Structural)]
pub enum RpcType {
    MsgType_Invalid,
    Req,
    Resp,
    Event,
    MsgType_Max,
}

impl RpcType {
    /// Numeric value of this message type.
    pub open spec fn spec_val(self) -> u8 {
        match self {
            RpcType::MsgType_Invalid => 0,
            RpcType::Req => 1,
            RpcType::Resp => 2,
            RpcType::Event => 3,
            RpcType::MsgType_Max => 4,
        }
    }

    /// The message type with value `b`, if any.
    pub open spec fn spec_from_val(b: u8) -> Option<RpcType> {
        if b == 0 {
            Some(RpcType::MsgType_Invalid)
        } else if b == 1 {
            Some(RpcType::Req)
        } else if b == 2 {
            Some(RpcType::Resp)
        } else if b == 3 {
            Some(RpcType::Event)
        } else if b == 4 {
            Some(RpcType::MsgType_Max)
        } else {
            None
        }
    }

    /// Numeric value of this message type.
    pub fn val(&self) -> (r: u8)
        ensures
            r == self.spec_val(),
    {
        match self {
            RpcType::MsgType_Invalid => 0,
            RpcType::Req => 1,
            RpcType::Resp => 2,
            RpcType::Event => 3,
            RpcType::MsgType_Max => 4,
        }
    }

    /// The message type with value `b`; `InvalidData` for any other value.
    pub fn from_val(b: u8) -> (r: Result<RpcType, EspError>)
        ensures
            match RpcType::spec_from_val(b) {
                Some(t) => r == Ok::<RpcType, EspError>(t),
                None => r == Err::<RpcType, EspError>(EspError::InvalidData),
            },
    {
        match b {
            0 => Ok(RpcType::MsgType_Invalid),
            1 => Ok(RpcType::Req),
            2 => Ok(RpcType::Resp),
            3 => Ok(RpcType::Event),
            4 => Ok(RpcType::MsgType_Max),
            _ => Err(EspError::InvalidData),
        }
    }
}

/// The scalar fields of an RPC envelope.
#[derive(Clone, Copy, Debug, PartialEq, Eq, Structural)]
pub struct Rpc {
    /// Request, response or event.
    pub msg_type: RpcType,
    /// Which message this is.
    pub msg_id: RpcId,
    /// Correlation id: a response carries the uid of its request; events carry 0.
    pub uid: u32,
}

/// Bytes of the envelope of `rpc` around `data`: fields 1 (msg_type),
/// 2 (msg_id) and 3 (uid) as varints, then `data` as a length-delimited field
/// whose number is the message id.
pub open spec fn envelope_spec(rpc: Rpc, data: Seq<u8>) -> Seq<u8> {
    field_spec(1, WireType::Varint, rpc.msg_type.spec_val() as u64)
        + field_spec(2, WireType::Varint, rpc.msg_id.spec_val() as u64)
        + field_spec(3, WireType::Varint, rpc.uid as u64)
        + field_spec(rpc.msg_id.spec_val(), WireType::Len, data.len() as u64)
        + data
}

/// The tag byte of the uid field (field 3, varint).
pub open spec fn uid_tag() -> u8 {
    tag_spec(3, WireType::Varint) as u8
}

/// How `b` decodes as an envelope: `(rpc, payload start, payload length)`.
pub open spec fn envelope_decode(b: Seq<u8>) -> Result<(Rpc, nat, nat), EspError> {
    if b.len() < 2 {
        Err(EspError::InvalidData)
    } else {
        match (RpcType::spec_from_val(b[1]), varint_at(b, 3)) {
            (Some(t), Some((id, n))) => match RpcId::spec_from_val(id) {
                Some(mid) => envelope_decode_uid(b, t, mid, 3 + n as int),
                None => Err(EspError::InvalidData),
            },
            _ => Err(EspError::InvalidData),
        }
    }
}

/// The optional uid field at index `i`: present when the byte there is 16 or
/// 24, the tag of a varint field 3 that `Rpc::to_bytes` writes.
#[verifier::opaque]
pub open spec fn envelope_decode_uid(b: Seq<u8>, t: RpcType, mid: RpcId, i: int) -> Result<(Rpc, nat, nat), EspError> {
    if i < b.len() && (b[i] == uid_tag() || b[i] == 16) {
        match varint_at(b, i + 1) {
            Some((u, n)) => envelope_decode_payload(b, Rpc { msg_type: t, msg_id: mid, uid: (u % 0x1_0000_0000) as u32 }, i + 1 + n),
            None => Err(EspError::InvalidData),
        }
    } else {
        envelope_decode_payload(b, Rpc { msg_type: t, msg_id: mid, uid: 0 }, i)
    }
}

/// The payload tag and length at index `i`. A three-byte payload that starts
/// with the tag of a varint field 1 carries an error code of the co-processor.
#[verifier::opaque]
pub open spec fn envelope_decode_payload(b: Seq<u8>, rpc: Rpc, i: int) -> Result<(Rpc, nat, nat), EspError> {
    match varint_at(b, i) {
        Some((_tag, n1)) => match varint_at(b, i + n1) {
            Some((len, n2)) => {
                let start = i + n1 + n2;
                if len > b.len() - start {
                    Err(EspError::InvalidData)
                } else if len == 3 && b[start] == 8 {
                    match varint_at(b, start + 1) {
                        Some((code, _)) => Err(EspError::Esp((code % 0x10000) as u16)),
                        None => Err(EspError::InvalidData),
                    }
                } else {
                    Ok((rpc, start as nat, len as nat))
                }
            },
            None => Err(EspError::InvalidData),
        },
        None => Err(EspError::InvalidData),
    }
}

impl Rpc {
    /// A request with id `msg_id` and correlation id `uid`.
    pub fn new_req(msg_id: RpcId, uid: u32) -> (r: Self)
        ensures
            r == (Rpc { msg_type: RpcType::Req, msg_id, uid }),
    {
        Rpc { msg_type: RpcType::Req, msg_id, uid }
    }

    /// Writes the envelope and `data` at the start of `buf`; returns the
    /// number of bytes written, or `Capacity` when they do not fit.
    pub fn to_bytes(&self, buf: &mut [u8], data: &[u8]) -> (r: Result<usize, EspError>)
        ensures
            envelope_spec(*self, data@).len() <= old(buf)@.len() ==> {
                &&& r == Ok::<usize, EspError>(envelope_spec(*self, data@).len() as usize)
                &&& final(buf)@ == splice(old(buf)@, 0, envelope_spec(*self, data@))
            },
            envelope_spec(*self, data@).len() > old(buf)@.len() ==> r == Err::<usize, EspError>(EspError::Capacity),
    {
        let ghost b0 = buf@;
        let ghost e1 = field_spec(1, WireType::Varint, self.msg_type.spec_val() as u64);
        let ghost e2 = field_spec(2, WireType::Varint, self.msg_id.spec_val() as u64);
        let ghost e3 = field_spec(3, WireType::Varint, self.uid as u64);
        let ghost e4 = field_spec(self.msg_id.spec_val(), WireType::Len, data@.len() as u64);
        assert(envelope_spec(*self, data@) == e1 + e2 + e3 + e4 + data@);
        let id = self.msg_id.val();
        let data_len = data.len();
        let mut i: usize = 0;
        if write_rpc(buf, 1, WireType::Varint, self.msg_type.val() as u64, &mut i).is_err() {
            return Err(EspError::Capacity);
        }
        assert(buf@ == splice(b0, 0, e1));
        if write_rpc(buf, 2, WireType::Varint, id as u64, &mut i).is_err() {
            return Err(EspError::Capacity);
        }
        proof {
            lemma_splice_append(b0, 0, e1, e2);
        }
        if write_rpc(buf, 3, WireType::Varint, self.uid as u64, &mut i).is_err() {
            return Err(EspError::Capacity);
        }
        proof {
            lemma_splice_append(b0, 0, e1 + e2, e3);
        }
        if write_rpc(buf, id, WireType::Len, data_len as u64, &mut i).is_err() {
            return Err(EspError::Capacity);
        }
        proof {
            lemma_splice_append(b0, 0, e1 + e2 + e3, e4);
        }
        if data_len > buf.len() - i {
            return Err(EspError::Capacity);
        }
        copy_into(buf, i, data);
        proof {
            lemma_splice_append(b0, 0, e1 + e2 + e3 + e4, data@);
        }
        Ok(i + data_len)
    }

    /// Parses an envelope: `(rpc, payload start, payload length)`. The uid
    /// field may be absent (events), which leaves the uid 0. `InvalidData` on
    /// malformed input; `Esp(code)` when the payload is an error code.
    pub fn from_bytes(buf: &[u8]) -> (r: Result<(Self, usize, usize), EspError>)
        ensures
            r == envelope_result(envelope_decode(buf@)),
            match r {
                Ok((_, start, len)) => start + len <= buf@.len(),
                Err(_) => true,
            },
    {
        if buf.len() < 2 {
            return Err(EspError::InvalidData);
        }
        let msg_type = RpcType::from_val(buf[1]);
        let id = read_varint(buf, 3);
        let (msg_type, (rpc_id, rpc_id_size)) = match (msg_type, id) {
            (Ok(t), Ok(v)) => (t, v),
            _ => return Err(EspError::InvalidData),
        };
        let msg_id = RpcId::from_val(rpc_id)?;
        decode_uid(buf, msg_type, msg_id, 3 + rpc_id_size)
    }
}

/// A decoding result with its indices as `usize`.
pub open spec fn envelope_result(r: Result<(Rpc, nat, nat), EspError>) -> Result<(Rpc, usize, usize), EspError> {
    match r {
        Ok((rpc, start, len)) => Ok((rpc, start as usize, len as usize)),
        Err(e) => Err(e),
    }
}

/// Reads the optional uid field at `i`, then the payload header.
fn decode_uid(buf: &[u8], msg_type: RpcType, msg_id: RpcId, i: usize) -> (r: Result<(Rpc, usize, usize), EspError>)
    requires
        i <= buf@.len(),
    ensures
        r == envelope_result(envelope_decode_uid(buf@, msg_type, msg_id, i as int)),
        match r {
            Ok((_, start, len)) => start + len <= buf@.len(),
            Err(_) => true,
        },
{
    reveal(envelope_decode_uid);
    assert(uid_tag() == 24) by {
        assert(tag_spec(3, WireType::Varint) == 24);
    }
    if i < buf.len() && (buf[i] == 24 || buf[i] == 16) {
        let (uid, uid_size) = read_varint(buf, i + 1)?;
        assert(uid & 0xFFFF_FFFF == uid % 0x1_0000_0000) by (bit_vector);
        let rpc = Rpc { msg_type, msg_id, uid: (uid & 0xFFFF_FFFF) as u32 };
        decode_payload(buf, rpc, i + 1 + uid_size)
    } else {
        decode_payload(buf, Rpc { msg_type, msg_id, uid: 0 }, i)
    }
}

/// Reads the payload tag and length at `i` and checks for an error code.
fn decode_payload(buf: &[u8], rpc: Rpc, i: usize) -> (r: Result<(Rpc, usize, usize), EspError>)
    requires
        i <= buf@.len(),
    ensures
        r == envelope_result(envelope_decode_payload(buf@, rpc, i as int)),
        match r {
            Ok((_, start, len)) => start + len <= buf@.len(),
            Err(_) => true,
        },
{
    reveal(envelope_decode_payload);
    let blen = buf.len();
    let (_data_tag, data_tag_size) = read_varint(buf, i)?;
    let j = i + data_tag_size;
    let (data_len, data_len_size) = read_varint(buf, j)?;
    let start = j + data_len_size;
    if data_len > (buf.len() - start) as u64 {
        return Err(EspError::InvalidData);
    }
    if data_len == 3 && buf[start] == 8 {
        let (err_code, _) = read_varint(buf, start + 1)?;
        assert(err_code & 0xFFFF == err_code % 0x10000) by (bit_vector);
        return Err(EspError::Esp((err_code & 0xFFFF) as u16));
    }
    Ok((rpc, start, data_len as usize))
}

/// A decoded payload range lies inside the decoded bytes.
pub proof fn lemma_envelope_decode_bounds(b: Seq<u8>)
    ensures
        match envelope_decode(b) {
            Ok((_, start, len)) => start + len <= b.len(),
            Err(_) => true,
        },
{
    reveal(envelope_decode_uid);
    reveal(envelope_decode_payload);
}

/// Decoding the bytes of an envelope gives back its fields, and the payload
/// range it reports holds exactly the payload, whatever follows the envelope.
/// A three-byte payload that starts with byte 8 reads as an error code
/// instead, so it is left out.
#[verifier::rlimit(100)]
pub proof fn lemma_envelope_round_trip(rpc: Rpc, data: Seq<u8>, rest: Seq<u8>)
    requires
        data.len() <= u64::MAX,
        !(data.len() == 3 && data[0] == 8),
    ensures
        ({
            let b = envelope_spec(rpc, data) + rest;
            let start = (envelope_spec(rpc, data).len() - data.len()) as nat;
            &&& envelope_decode(b) == Ok::<(Rpc, nat, nat), EspError>((rpc, start, data.len()))
            &&& b.subrange(start as int, start + data.len() as int) == data
        }),
{
    reveal(envelope_decode_uid);
    reveal(envelope_decode_payload);
    let t = rpc.msg_type.spec_val() as u64;
    let id = rpc.msg_id.spec_val() as u64;
    let e1 = field_spec(1, WireType::Varint, t);
    let e2 = field_spec(2, WireType::Varint, id);
    let e3 = field_spec(3, WireType::Varint, rpc.uid as u64);
    let e4 = field_spec(rpc.msg_id.spec_val(), WireType::Len, data.len() as u64);
    let b = envelope_spec(rpc, data) + rest;
    let tail = data + rest;
    assert(b =~= e1 + e2 + e3 + e4 + tail);
    assert(e1 =~= seq![8u8, t as u8]) by {
        reveal_with_fuel(varint_spec, 2);
    }
    assert(varint_spec(tag_spec(2, WireType::Varint) as nat) =~= seq![16u8]) by {
        reveal_with_fuel(varint_spec, 2);
    }
    assert(varint_spec(tag_spec(3, WireType::Varint) as nat) =~= seq![24u8]) by {
        reveal_with_fuel(varint_spec, 2);
    }
    let vid = varint_spec(id as nat);
    let vuid = varint_spec(rpc.uid as nat);
    let tag = tag_spec(rpc.msg_id.spec_val(), WireType::Len) as u64;
    let vtag = varint_spec(tag as nat);
    let vlen = varint_spec(data.len() as nat);
    let pre1 = e1 + seq![16u8];
    let pre2 = e1 + e2 + seq![24u8];
    let pre3 = e1 + e2 + e3;
    let pre4 = pre3 + vtag;
    assert(e2 =~= seq![16u8] + vid);
    assert(e3 =~= seq![24u8] + vuid);
    assert(e4 =~= vtag + vlen);
    assert(b =~= pre1 + vid + (e3 + e4 + tail));
    assert(b =~= pre2 + vuid + (e4 + tail));
    assert(b =~= pre3 + vtag + (vlen + tail));
    assert(b =~= pre4 + vlen + tail);
    lemma_varint_at_concat(pre1, id, e3 + e4 + tail);
    lemma_varint_at_concat(pre2, rpc.uid as u64, e4 + tail);
    lemma_varint_at_concat(pre3, tag, vlen + tail);
    lemma_varint_at_concat(pre4, data.len() as u64, tail);
    rpc.msg_id.lemma_round_trip();
    assert(b[1] == t as u8);
    let i1 = 3 + vid.len();
    assert(b[i1 as int] == 24);
    let start = pre4.len() + vlen.len();
    assert(start == (envelope_spec(rpc, data).len() - data.len()));
    assert(b.subrange(start as int, start + data.len() as int) =~= data);
    if data.len() > 0 {
        assert(b[start as int] == data[0]);
    }
}

/// The frame carrying the envelope of `rpc` around `data`, with sequence number `seq`.
pub open spec fn rpc_frame(rpc: Rpc, data: Seq<u8>, seq: u16) -> Seq<u8> {
    let env = envelope_spec(rpc, data);
    frame_spec(wifi_header((env.len() + TLV_SIZE) as nat, seq), tlv_spec(env.len() as u16) + env)
}

/// The envelope of `rpc` around `data` fits the scratch buffer and the frame
/// fits `cap` bytes and the 16-bit length field.
pub open spec fn rpc_frame_fits(rpc: Rpc, data: Seq<u8>, cap: nat) -> bool {
    let env = envelope_spec(rpc, data);
    env.len() <= MAX_RPC_SIZE && env.len() + TLV_SIZE <= 0xFFFF && HEADER_SIZE + env.len() <= cap
}

/// What framing `rpc` and `data` into a buffer does: on success the frame
/// stands at the start of the buffer and the counter moves on; otherwise
/// `Capacity`, and the counter stays.
pub open spec fn framed(
    old_buf: Seq<u8>,
    new_buf: Seq<u8>,
    rpc: Rpc,
    data: Seq<u8>,
    old_seq: u16,
    new_seq: u16,
    r: Result<usize, EspError>,
) -> bool {
    if rpc_frame_fits(rpc, data, old_buf.len()) {
        &&& r == Ok::<usize, EspError>(rpc_frame(rpc, data, old_seq).len() as usize)
        &&& new_buf == splice(old_buf, 0, rpc_frame(rpc, data, old_seq))
        &&& new_seq == (old_seq + 1) % 0x10000
    } else {
        &&& r == Err::<usize, EspError>(EspError::Capacity)
        &&& new_seq == old_seq
    }
}

/// Serialises `rpc` and `data` into an envelope and frames it in `buf`.
/// Returns the frame length; `Capacity` when the envelope exceeds
/// `MAX_RPC_SIZE` or the frame does not fit `buf`.
pub fn setup_rpc(buf: &mut [u8], rpc: &Rpc, data: &[u8], seq: &mut SeqCounter) -> (r: Result<usize, EspError>)
    ensures
        framed(old(buf)@, final(buf)@, *rpc, data@, old(seq).next, final(seq).next, r),
{
    let mut rpc_buf = [0u8; MAX_RPC_SIZE];
    let n = rpc.to_bytes(&mut rpc_buf, data)?;
    let env = &rpc_buf[0..n];
    assert(env@ =~= envelope_spec(*rpc, data@));
    build_frame_wifi(buf, env, seq)
}

/// Frames a request with id `id`, correlation id `uid` and payload `data`.
pub fn write_request(buf: &mut [u8], id: RpcId, uid: u32, data: &[u8], seq: &mut SeqCounter) -> (r: Result<usize, EspError>)
    ensures
        framed(old(buf)@, final(buf)@, Rpc { msg_type: RpcType::Req, msg_id: id, uid }, data@, old(seq).next, final(seq).next, r),
{
    let rpc = Rpc::new_req(id, uid);
    setup_rpc(buf, &rpc, data, seq)
}

/// Frames a request with id `id` and an empty payload.
pub fn write_empty_msg(buf: &mut [u8], uid: u32, rpc_id: RpcId, seq: &mut SeqCounter) -> (r: Result<usize, EspError>)
    ensures
        framed(old(buf)@, final(buf)@, Rpc { msg_type: RpcType::Req, msg_id: rpc_id, uid }, seq![], old(seq).next, final(seq).next, r),
{
    let empty: [u8; 0] = [];
    let r = write_request(buf, rpc_id, uid, &empty, seq);
    assert(empty@ =~= Seq::<u8>::empty());
    r
}

/// Record types of the TLV block that precedes the RPC envelope.
#[derive(Clone, Copy, Debug, PartialEq, Eq, Structural)]
pub enum EndpointType {
    /// Endpoint name record.
    EndpointName,
    /// Data record.
    Data,
}

impl EndpointType {
    /// Byte value of this record type.
    pub open spec fn spec_val(self) -> u8 {
        match self {
            EndpointType::EndpointName => 0x01,
            EndpointType::Data => 0x02,
        }
    }

    /// Byte value of this record type.
    pub fn val(&self) -> (r: u8)
        ensures
            r == self.spec_val(),
    {
        match self {
            EndpointType::EndpointName => 0x01,
            EndpointType::Data => 0x02,
        }
    }
}

/// RPC endpoints named in the TLV block.
#[derive(Clone, Copy, Debug, PartialEq, Eq, Structural)]
pub enum RpcEndpoint {
    /// "RPCRsp": the only endpoint the host sends to.
    CtrlResp,
    /// "RPCEvt": events of the co-processor.
    CtrlEvent,
}

/// ASCII bytes of the endpoint's name.
pub open spec fn endpoint_name_spec(ep: RpcEndpoint) -> Seq<u8> {
    match ep {
        RpcEndpoint::CtrlResp => seq![0x52u8, 0x50, 0x43, 0x52, 0x73, 0x70],
        RpcEndpoint::CtrlEvent => seq![0x52u8, 0x50, 0x43, 0x45, 0x76, 0x74],
    }
}

impl RpcEndpoint {
    /// ASCII bytes of the endpoint's name; both names are six bytes long.
    pub fn as_bytes(&self) -> (r: [u8; 6])
        ensures
            r@ == endpoint_name_spec(*self),
    {
        let r = match self {
            RpcEndpoint::CtrlResp => [0x52u8, 0x50, 0x43, 0x52, 0x73, 0x70],
            RpcEndpoint::CtrlEvent => [0x52u8, 0x50, 0x43, 0x45, 0x76, 0x74],
        };
        assert(r@ =~= endpoint_name_spec(*self));
        r
    }
}

/// A decoded payload of a response or event.
#[derive(Debug)]
pub enum RpcPayload {
    EventHeartbeat(EventHeartbeat),
    EventWifiScanGetApRecord(WifiApRecord),
    EventWifiScanGetApRecords(heapless::Vec<WifiApRecord, 30>),
}

} // verus!
