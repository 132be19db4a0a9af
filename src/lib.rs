//! Host-side driver core for an ESP-Hosted co-processor: frame header codec,
//! RPC envelope codec with its varint primitives, receive-buffer
//! resynchronisation and the HCI/BLE event parser.
//!
//! Every codec works on caller-owned buffers and reports malformed input as an
//! error value instead of panicking.

use vstd::prelude::*;

pub mod ble;
pub mod bounded;
pub mod header;
pub mod misc;
pub mod msg;
pub mod proto_data;
pub mod rpc;
pub mod transport;
pub mod wifi;
pub mod wire;

pub use header::{build_frame_ble, PayloadHeader, SeqCounter};
pub use msg::{parse_msg, HciMsg, MsgParsed, WifiMsg};
pub use proto_data::{cfg_heartbeat, RpcId};
pub use rpc::{setup_rpc, Rpc, RpcEndpoint, RpcType};
pub use wire::WireType;

verus! {

/// Errors reported by the codecs and parsers of this crate.
#[derive(Clone, Copy, Debug, PartialEq, Eq, Structural)]
pub enum EspError {
    /// The transport failed (uart, spi, ...).
    Comms,
    /// A well-formed frame carried a message other than the one expected.
    UnexpectedResponse(u8),
    /// A computed checksum did not match the received one.
    CrcMismatch,
    /// The transport timed out.
    Timeout,
    /// The bytes violate the wire format.
    InvalidData,
    /// The protobuf collaborator could not encode or decode a message.
    Proto,
    /// A bounded buffer or collection would overflow.
    Capacity,
    /// The co-processor answered with an error code instead of a payload.
    Esp(u16),
}

} // verus!
