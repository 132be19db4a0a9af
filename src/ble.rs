//! Minimal HCI support for Bluetooth: command building and the event parser.

use vstd::prelude::*;

verus! {

use crate::wire::{copy_into, le16, le16_at, put_le16};
use vstd::string::StringSliceAdditionalSpecFns;
use vstd::utf8::valid_utf8;
use crate::bounded::{adv_data_items, adv_list_new, adv_list_push, adv_report_items, event_list_new, event_list_push, hci_event_items, report_list_new, report_list_push};
use crate::EspError;

/// Most HCI events `parse_hci_events` returns.
pub const MAX_HCI_EVS: usize = 2;
/// Most AD structures kept per advertising report.
pub const MAX_NUM_ADV_DATA: usize = 5;
/// Most advertising reports kept per event.
pub const MAX_NUM_ADV_REPS: usize = 3;
/// Size of an HCI command or event header.
pub const HCI_HDR_SIZE: usize = 3;
/// Size of the buffer `make_hci_cmd` fills.
pub const HCI_TX_MAX_LEN: usize = 64;

/// HCI packet kinds, as in the first byte of a UART HCI packet.
#[derive(Clone, Copy, Debug, PartialEq, Eq, Structural)]
pub enum HciPkt {
    Cmd,
    Acl,
    Sco,
    Evt,
}

impl HciPkt {
    /// Byte value of this packet kind.
    pub open spec fn spec_val(self) -> u8 {
        match self {
            HciPkt::Cmd => 0x01,
            HciPkt::Acl => 0x02,
            HciPkt::Sco => 0x03,
            HciPkt::Evt => 0x04,
        }
    }

    /// The packet kind with byte value `b`, if any.
    pub open spec fn spec_from_val(b: u8) -> Option<HciPkt> {
        if b == 0x01 {
            Some(HciPkt::Cmd)
        } else if b == 0x02 {
            Some(HciPkt::Acl)
        } else if b == 0x03 {
            Some(HciPkt::Sco)
        } else if b == 0x04 {
            Some(HciPkt::Evt)
        } else {
            None
        }
    }

    /// Byte value of this packet kind.
    pub fn val(&self) -> (r: u8)
        ensures
            r == self.spec_val(),
    {
        match self {
            HciPkt::Cmd => 0x01,
            HciPkt::Acl => 0x02,
            HciPkt::Sco => 0x03,
            HciPkt::Evt => 0x04,
        }
    }

    /// The packet kind with byte value `b`; `InvalidData` for any other value.
    pub fn from_val(b: u8) -> (r: Result<HciPkt, EspError>)
        ensures
            match HciPkt::spec_from_val(b) {
                Some(p) => r == Ok::<HciPkt, EspError>(p),
                None => r == Err::<HciPkt, EspError>(EspError::InvalidData),
            },
    {
        match b {
            0x01 => Ok(HciPkt::Cmd),
            0x02 => Ok(HciPkt::Acl),
            0x03 => Ok(HciPkt::Sco),
            0x04 => Ok(HciPkt::Evt),
            _ => Err(EspError::InvalidData),
        }
    }
}

/// Opcode group fields of HCI commands.
#[derive(Clone, Copy, Debug, PartialEq, Eq, Structural)]
pub enum HciOgf {
    NoOperation,
    LinkControl,
    LinkPolicy,
    ControllerAndBaseboard,
    InformationParams,
    StatusParams,
    TestingCmds,
    LeController,
    VendorSPecificCmds,
}

impl HciOgf {
    /// Numeric value of this group.
    pub open spec fn spec_val(self) -> u16 {
        match self {
            HciOgf::NoOperation => 0x00,
            HciOgf::LinkControl => 0x01,
            HciOgf::LinkPolicy => 0x02,
            HciOgf::ControllerAndBaseboard => 0x03,
            HciOgf::InformationParams => 0x04,
            HciOgf::StatusParams => 0x05,
            HciOgf::TestingCmds => 0x06,
            HciOgf::LeController => 0x08,
            HciOgf::VendorSPecificCmds => 0x3f,
        }
    }

    /// Numeric value of this group.
    pub fn val(&self) -> (r: u16)
        ensures
            r == self.spec_val(),
    {
        match self {
            HciOgf::NoOperation => 0x00,
            HciOgf::LinkControl => 0x01,
            HciOgf::LinkPolicy => 0x02,
            HciOgf::ControllerAndBaseboard => 0x03,
            HciOgf::InformationParams => 0x04,
            HciOgf::StatusParams => 0x05,
            HciOgf::TestingCmds => 0x06,
            HciOgf::LeController => 0x08,
            HciOgf::VendorSPecificCmds => 0x3f,
        }
    }
}

/// Opcode command fields of the LE controller commands used here.
#[derive(Clone, Copy, Debug, PartialEq, Eq, Structural)]
pub enum HciOcf {
    LeSetEventMask,
    LeSetRandomAddress,
    SetAdvertisingParams,
    SetAdvertisingData,
    SetScanResponseData,
    SetAdvertisingEnable,
    SetScanParams,
    SetScanEnable,
    CreateConnection,
    CreateConnectionCancel,
    ReadFilterAcceptListSize,
    ClearFilterAcceptList,
    AddDeviceToFilterAcceptList,
    RemoveDeviceFromFilterAcceptList,
    PeriodicAdvertisingCreateSync,
    PeriodicAdvertisingCreateSyncCancel,
    AddDeviceToPeriodicAdvertiserList,
    RemoveDeviceFromPeriodicAdvertiserList,
    PeriodicAdvertisingReceiveEnable,
    PeriodicAdvertisingSyncTransfer,
}

impl HciOcf {
    /// Numeric value of this command field.
    pub open spec fn spec_val(self) -> u16 {
        match self {
            HciOcf::LeSetEventMask => 0x0001,
            HciOcf::LeSetRandomAddress => 0x0005,
            HciOcf::SetAdvertisingParams => 0x0006,
            HciOcf::SetAdvertisingData => 0x0008,
            HciOcf::SetScanResponseData => 0x0009,
            HciOcf::SetAdvertisingEnable => 0x000a,
            HciOcf::SetScanParams => 0x000b,
            HciOcf::SetScanEnable => 0x000c,
            HciOcf::CreateConnection => 0x000d,
            HciOcf::CreateConnectionCancel => 0x000e,
            HciOcf::ReadFilterAcceptListSize => 0x000f,
            HciOcf::ClearFilterAcceptList => 0x0010,
            HciOcf::AddDeviceToFilterAcceptList => 0x0011,
            HciOcf::RemoveDeviceFromFilterAcceptList => 0x0012,
            HciOcf::PeriodicAdvertisingCreateSync => 0x0044,
            HciOcf::PeriodicAdvertisingCreateSyncCancel => 0x0045,
            HciOcf::AddDeviceToPeriodicAdvertiserList => 0x0047,
            HciOcf::RemoveDeviceFromPeriodicAdvertiserList => 0x0048,
            HciOcf::PeriodicAdvertisingReceiveEnable => 0x0059,
            HciOcf::PeriodicAdvertisingSyncTransfer => 0x005a,
        }
    }

    /// Numeric value of this command field.
    pub fn val(&self) -> (r: u16)
        ensures
            r == self.spec_val(),
    {
        match self {
            HciOcf::LeSetEventMask => 0x0001,
            HciOcf::LeSetRandomAddress => 0x0005,
            HciOcf::SetAdvertisingParams => 0x0006,
            HciOcf::SetAdvertisingData => 0x0008,
            HciOcf::SetScanResponseData => 0x0009,
            HciOcf::SetAdvertisingEnable => 0x000a,
            HciOcf::SetScanParams => 0x000b,
            HciOcf::SetScanEnable => 0x000c,
            HciOcf::CreateConnection => 0x000d,
            HciOcf::CreateConnectionCancel => 0x000e,
            HciOcf::ReadFilterAcceptListSize => 0x000f,
            HciOcf::ClearFilterAcceptList => 0x0010,
            HciOcf::AddDeviceToFilterAcceptList => 0x0011,
            HciOcf::RemoveDeviceFromFilterAcceptList => 0x0012,
            HciOcf::PeriodicAdvertisingCreateSync => 0x0044,
            HciOcf::PeriodicAdvertisingCreateSyncCancel => 0x0045,
            HciOcf::AddDeviceToPeriodicAdvertiserList => 0x0047,
            HciOcf::RemoveDeviceFromPeriodicAdvertiserList => 0x0048,
            HciOcf::PeriodicAdvertisingReceiveEnable => 0x0059,
            HciOcf::PeriodicAdvertisingSyncTransfer => 0x005a,
        }
    }
}

/// The opcode of command `ocf` in group `ogf`: `(ogf << 10) | ocf`.
pub fn make_hci_opcode(ogf: HciOgf, ocf: HciOcf) -> (r: u16)
    ensures
        r == ogf.spec_val() * 1024 + ocf.spec_val(),
{
    let g = ogf.val();
    let c = ocf.val();
    assert(g < 64 && c < 1024 ==> (g << 10) | c == g * 1024 + c) by (bit_vector);
    (g << 10) | c
}

/// Builds an HCI command: opcode (little-endian), parameter length, then
/// `params`, zero-padded to `HCI_TX_MAX_LEN`. Returns the buffer and the
/// number of bytes used; `Capacity` when the parameters do not fit.
pub fn make_hci_cmd(opcode: u16, params: &[u8]) -> (r: Result<([u8; HCI_TX_MAX_LEN], usize), EspError>)
    ensures
        params@.len() > HCI_TX_MAX_LEN - HCI_HDR_SIZE ==> r == Err::<([u8; HCI_TX_MAX_LEN], usize), EspError>(
            EspError::Capacity,
        ),
        params@.len() <= HCI_TX_MAX_LEN - HCI_HDR_SIZE ==> match r {
            Ok((buf, n)) => {
                &&& n == HCI_HDR_SIZE + params@.len()
                &&& buf@.subrange(0, n as int) == le16(opcode) + seq![params@.len() as u8] + params@
                &&& forall|j: int| n <= j < HCI_TX_MAX_LEN ==> buf@[j] == 0
            },
            Err(_) => false,
        },
{
    if params.len() > HCI_TX_MAX_LEN - HCI_HDR_SIZE {
        return Err(EspError::Capacity);
    }
    let mut payload = [0u8; HCI_TX_MAX_LEN];
    put_le16(&mut payload, 0, opcode);
    payload[2] = params.len() as u8;
    copy_into(&mut payload, 3, params);
    let n = HCI_HDR_SIZE + params.len();
    assert(payload@.subrange(0, n as int) =~= le16(opcode) + seq![params@.len() as u8] + params@);
    Ok((payload, n))
}

/// LE scan type.
#[derive(Clone, Copy, Debug, PartialEq, Eq, Structural)]
pub enum BleScanType {
    Passive,
    Active,
}

/// Own address type of the scanner.
#[derive(Clone, Copy, Debug, PartialEq, Eq, Structural)]
pub enum BleOwnAddrType {
    Public,
    Private,
}

/// Scanning filter policy.
#[derive(Clone, Copy, Debug, PartialEq, Eq, Structural)]
pub enum FilterPolicy {
    AcceptAll,
    WhitelistOnly,
}

/// Parameters of the LE Set Scan Parameters command.
#[derive(Clone, Copy, Debug, PartialEq, Eq, Structural)]
pub struct BleScanParams {
    pub scan_type: BleScanType,
    /// Scan interval, in ms.
    pub interval: u16,
    /// Scan window, in ms; no longer than the interval.
    pub window: u16,
    pub own_address_type: BleOwnAddrType,
    pub filter_policy: FilterPolicy,
}

/// `ms` in units of 0.625 ms, rounded to the nearest unit and capped at the
/// largest `u16`.
pub open spec fn scan_units_spec(ms: u16) -> u16 {
    let u = (ms * 1600 + 500) / 1000;
    if u > 0xFFFF {
        0xFFFF
    } else {
        u as u16
    }
}

impl BleScanParams {
    /// The seven parameter bytes: scan type, interval and window in 0.625 ms
    /// units (little-endian), own address type, filter policy.
    pub fn to_bytes(&self) -> (r: [u8; 7])
        ensures
            r@ == seq![
                match self.scan_type {
                    BleScanType::Passive => 0u8,
                    BleScanType::Active => 1u8,
                },
            ] + le16(scan_units_spec(self.interval)) + le16(scan_units_spec(self.window)) + seq![
                match self.own_address_type {
                    BleOwnAddrType::Public => 0u8,
                    BleOwnAddrType::Private => 1u8,
                },
                match self.filter_policy {
                    FilterPolicy::AcceptAll => 0u8,
                    FilterPolicy::WhitelistOnly => 1u8,
                },
            ],
    {
        let mut result = [0u8; 7];
        result[0] = match self.scan_type {
            BleScanType::Passive => 0,
            BleScanType::Active => 1,
        };
        put_le16(&mut result, 1, scan_units(self.interval));
        put_le16(&mut result, 3, scan_units(self.window));
        result[5] = match self.own_address_type {
            BleOwnAddrType::Public => 0,
            BleOwnAddrType::Private => 1,
        };
        result[6] = match self.filter_policy {
            FilterPolicy::AcceptAll => 0,
            FilterPolicy::WhitelistOnly => 1,
        };
        assert(result@ =~= seq![result@[0]] + le16(scan_units_spec(self.interval)) + le16(scan_units_spec(self.window)) + seq![result@[5], result@[6]]);
        result
    }
}

/// `ms` in 0.625 ms units, rounded, saturating at the largest `u16`.
fn scan_units(ms: u16) -> (r: u16)
    ensures
        r == scan_units_spec(ms),
{
    let u = ((ms as u32) * 1600 + 500) / 1000;
    if u > 0xFFFF {
        0xFFFF
    } else {
        u as u16
    }
}

/// `ms` in 0.625 ms units, rounded; the result wraps at 2^16.
fn ms_to_0p625_units(ms: u16) -> (r: u16)
    ensures
        r == ((ms * 1600 + 500) / 1000) % 0x10000,
{
    let v = (ms as u32) * 1600 + 500;
    let u = v / 1000;
    assert(u & 0xFFFF == u % 0x10000) by (bit_vector);
    (u & 0xFFFF) as u16
}

/// Parameters of LE Set Advertising Parameters: the interval (as both
/// minimum and maximum), advertising type, own address type 0, peer address
/// type, a zero peer address, all three channels, no filter.
pub fn le_set_adv_params_bytes(interval_ms: u16, adv_type: u8, own_addr_type: u8) -> (r: [u8; 15])
    ensures
        r@ == le16((((interval_ms * 1600 + 500) / 1000) % 0x10000) as u16) + le16(
            (((interval_ms * 1600 + 500) / 1000) % 0x10000) as u16,
        ) + seq![adv_type, 0u8, own_addr_type, 0u8, 0u8, 0u8, 0u8, 0u8, 0u8, 0x07u8, 0u8],
{
    let units = ms_to_0p625_units(interval_ms);
    let mut p = [0u8; 15];
    put_le16(&mut p, 0, units);
    put_le16(&mut p, 2, units);
    p[4] = adv_type;
    p[5] = 0x00;
    p[6] = own_addr_type;
    p[13] = 0x07;
    p[14] = 0x00;
    assert(p@ =~= le16(units) + le16(units) + seq![adv_type, 0u8, own_addr_type, 0u8, 0u8, 0u8, 0u8, 0u8, 0u8, 0x07u8, 0u8]);
    p
}

/// `n` zero bytes.
pub open spec fn zeros(n: nat) -> Seq<u8> {
    Seq::new(n, |_j: int| 0u8)
}

/// Parameters of LE Set Advertising Data holding one manufacturer-specific
/// AD structure: used length, AD length, type 0xFF, company id
/// (little-endian), `manu_data`, zero padding. `Capacity` when the structure
/// exceeds the 31 data bytes.
pub fn le_set_adv_data_manu(company_id: u16, manu_data: &[u8]) -> (r: Result<[u8; 32], EspError>)
    ensures
        manu_data@.len() + 4 > 31 ==> r == Err::<[u8; 32], EspError>(EspError::Capacity),
        manu_data@.len() + 4 <= 31 ==> r is Ok && r->Ok_0@ == seq![(manu_data@.len() + 4) as u8, (manu_data@.len() + 3) as u8, 0xFFu8]
            + le16(company_id) + manu_data@ + zeros((27 - manu_data@.len()) as nat),
{
    if manu_data.len() > 27 {
        return Err(EspError::Capacity);
    }
    let used = 4 + manu_data.len();
    let mut params = [0u8; 32];
    params[0] = used as u8;
    params[1] = (3 + manu_data.len()) as u8;
    params[2] = 0xFF;
    put_le16(&mut params, 3, company_id);
    copy_into(&mut params, 5, manu_data);
    assert(params@ =~= seq![used as u8, (manu_data@.len() + 3) as u8, 0xFFu8] + le16(company_id) + manu_data@ + zeros((27 - manu_data@.len()) as nat));
    Ok(params)
}

/// Parameters of LE Set Scan Response Data holding the device name: used
/// length, AD length, type 0x09 (complete name) or 0x08 (shortened, when the
/// name exceeds 29 bytes and is cut there), the name bytes, zero padding.
pub fn le_set_scan_rsp_name(name: &[u8]) -> (r: Result<[u8; 32], EspError>)
    ensures
        ({
            let n = if name@.len() <= 29 { name@.len() as int } else { 29 };
            &&& r is Ok
            &&& r->Ok_0@ == seq![(2 + n) as u8, (1 + n) as u8, if name@.len() <= 29 { 0x09u8 } else { 0x08u8 }]
                + name@.subrange(0, n) + zeros((29 - n) as nat)
        }),
{
    let use_len = if name.len() <= 29 { name.len() } else { 29 };
    let typ: u8 = if name.len() <= 29 { 0x09 } else { 0x08 };
    let mut p = [0u8; 32];
    p[0] = (2 + use_len) as u8;
    p[1] = (1 + use_len) as u8;
    p[2] = typ;
    let head = &name[0..use_len];
    copy_into(&mut p, 3, head);
    assert(p@ =~= seq![(2 + use_len) as u8, (1 + use_len) as u8, typ] + name@.subrange(0, use_len as int) + zeros((29 - use_len) as nat));
    Ok(p)
}

/// One advertising-data structure, borrowing its value from the report.
/// See the Bluetooth assigned numbers, Common Data Types.
#[derive(Clone, Copy, Debug)]
pub enum AdvData<'a> {
    Flags(u8),
    Incomplete16BitUuids(&'a [u8]),
    Complete16BitUuids(&'a [u8]),
    Incomplete32BitUuids(&'a [u8]),
    Complete32BitUuids(&'a [u8]),
    Incomplete128BitUuids(&'a [u8]),
    Complete128BitUuids(&'a [u8]),
    ShortenedLocalName(&'a str),
    CompleteLocalName(&'a str),
    ClassOfDevice(&'a [u8]),
    DeviceId(&'a [u8]),
    ServiceData16Bit(&'a [u8]),
    Manufacturer { company: u16, data: &'a [u8] },
    Other { typ: u8, data: &'a [u8] },
}

/// Contents of an `AdvData`, as plain values. Names are given by their
/// UTF-8 bytes.
pub enum AdvDataView {
    Flags(u8),
    Incomplete16BitUuids(Seq<u8>),
    Complete16BitUuids(Seq<u8>),
    Incomplete32BitUuids(Seq<u8>),
    Complete32BitUuids(Seq<u8>),
    Incomplete128BitUuids(Seq<u8>),
    Complete128BitUuids(Seq<u8>),
    ShortenedLocalName(Seq<u8>),
    CompleteLocalName(Seq<u8>),
    ClassOfDevice(Seq<u8>),
    DeviceId(Seq<u8>),
    ServiceData16Bit(Seq<u8>),
    Manufacturer { company: u16, data: Seq<u8> },
    Other { typ: u8, data: Seq<u8> },
}

impl<'a> View for AdvData<'a> {
    type V = AdvDataView;

    open spec fn view(&self) -> AdvDataView {
        match *self {
            AdvData::Flags(f) => AdvDataView::Flags(f),
            AdvData::Incomplete16BitUuids(v) => AdvDataView::Incomplete16BitUuids(v@),
            AdvData::Complete16BitUuids(v) => AdvDataView::Complete16BitUuids(v@),
            AdvData::Incomplete32BitUuids(v) => AdvDataView::Incomplete32BitUuids(v@),
            AdvData::Complete32BitUuids(v) => AdvDataView::Complete32BitUuids(v@),
            AdvData::Incomplete128BitUuids(v) => AdvDataView::Incomplete128BitUuids(v@),
            AdvData::Complete128BitUuids(v) => AdvDataView::Complete128BitUuids(v@),
            AdvData::ShortenedLocalName(s) => AdvDataView::ShortenedLocalName(s.spec_bytes()),
            AdvData::CompleteLocalName(s) => AdvDataView::CompleteLocalName(s.spec_bytes()),
            AdvData::ClassOfDevice(v) => AdvDataView::ClassOfDevice(v@),
            AdvData::DeviceId(v) => AdvDataView::DeviceId(v@),
            AdvData::ServiceData16Bit(v) => AdvDataView::ServiceData16Bit(v@),
            AdvData::Manufacturer { company, data } => AdvDataView::Manufacturer { company, data: data@ },
            AdvData::Other { typ, data } => AdvDataView::Other { typ, data: data@ },
        }
    }
}

/// The structure that type `typ` and value `val` decode to; `None` for a
/// name that is not valid UTF-8, which is skipped.
pub open spec fn ad_entry_spec(typ: u8, val: Seq<u8>) -> Option<AdvDataView> {
    if typ == 0x01 && val.len() == 1 {
        Some(AdvDataView::Flags(val[0]))
    } else if typ == 0x02 && val.len() == 1 {
        Some(AdvDataView::Incomplete16BitUuids(val))
    } else if typ == 0x03 {
        Some(AdvDataView::Complete16BitUuids(val))
    } else if typ == 0x04 {
        Some(AdvDataView::Incomplete32BitUuids(val))
    } else if typ == 0x05 {
        Some(AdvDataView::Complete32BitUuids(val))
    } else if typ == 0x06 {
        Some(AdvDataView::Incomplete128BitUuids(val))
    } else if typ == 0x07 {
        Some(AdvDataView::Complete128BitUuids(val))
    } else if typ == 0x08 {
        if valid_utf8(val) {
            Some(AdvDataView::ShortenedLocalName(val))
        } else {
            None
        }
    } else if typ == 0x09 {
        if valid_utf8(val) {
            Some(AdvDataView::CompleteLocalName(val))
        } else {
            None
        }
    } else if typ == 0x16 {
        Some(AdvDataView::ServiceData16Bit(val))
    } else if typ == 0x0d {
        Some(AdvDataView::ClassOfDevice(val))
    } else if typ == 0x10 {
        Some(AdvDataView::DeviceId(val))
    } else if typ == 0xFF && val.len() >= 2 {
        Some(AdvDataView::Manufacturer { company: le16_at(val, 0), data: val.subrange(2, val.len() as int) })
    } else {
        Some(AdvDataView::Other { typ, data: val })
    }
}

/// Every AD structure in `d[pos..]`, in order: `[len][type][len - 1 value
/// bytes]` each. The walk stops at a zero length or at a length that runs
/// past the end.
pub open spec fn adv_parse_spec(d: Seq<u8>, pos: int) -> Seq<AdvDataView>
    decreases d.len() - pos,
{
    if pos < 0 || pos >= d.len() {
        seq![]
    } else {
        let len = d[pos] as int;
        if len == 0 || len > d.len() - pos - 1 {
            seq![]
        } else {
            let rest = adv_parse_spec(d, pos + 1 + len);
            match ad_entry_spec(d[pos + 1], d.subrange(pos + 2, pos + 1 + len)) {
                Some(e) => seq![e] + rest,
                None => rest,
            }
        }
    }
}

/// The first `n` items of `s`, or all of them when there are fewer.
pub open spec fn take_at_most<A>(s: Seq<A>, n: nat) -> Seq<A> {
    if s.len() <= n {
        s
    } else {
        s.take(n as int)
    }
}

/// Relies on `core::str::from_utf8`: it succeeds exactly on valid UTF-8, and
/// the `str` it returns views the same bytes.
#[verifier::external_body]
fn utf8_str<'a>(b: &'a [u8]) -> (r: Option<&'a str>)
    ensures
        match r {
            Some(s) => valid_utf8(b@) && s.spec_bytes() == b@,
            None => !valid_utf8(b@),
        },
{
    core::str::from_utf8(b).ok()
}

/// The AD structure with type `typ` and value `val`.
fn ad_entry<'a>(typ: u8, val: &'a [u8]) -> (r: Option<AdvData<'a>>)
    ensures
        match r {
            Some(e) => ad_entry_spec(typ, val@) == Some(e@),
            None => ad_entry_spec(typ, val@) is None,
        },
{
    if typ == 0x01 && val.len() == 1 {
        Some(AdvData::Flags(val[0]))
    } else if typ == 0x02 && val.len() == 1 {
        Some(AdvData::Incomplete16BitUuids(val))
    } else if typ == 0x03 {
        Some(AdvData::Complete16BitUuids(val))
    } else if typ == 0x04 {
        Some(AdvData::Incomplete32BitUuids(val))
    } else if typ == 0x05 {
        Some(AdvData::Complete32BitUuids(val))
    } else if typ == 0x06 {
        Some(AdvData::Incomplete128BitUuids(val))
    } else if typ == 0x07 {
        Some(AdvData::Complete128BitUuids(val))
    } else if typ == 0x08 {
        match utf8_str(val) {
            Some(s) => Some(AdvData::ShortenedLocalName(s)),
            None => None,
        }
    } else if typ == 0x09 {
        match utf8_str(val) {
            Some(s) => Some(AdvData::CompleteLocalName(s)),
            None => None,
        }
    } else if typ == 0x16 {
        Some(AdvData::ServiceData16Bit(val))
    } else if typ == 0x0d {
        Some(AdvData::ClassOfDevice(val))
    } else if typ == 0x10 {
        Some(AdvData::DeviceId(val))
    } else if typ == 0xFF && val.len() >= 2 {
        let company = crate::wire::get_le16(val, 0);
        let data = &val[2..val.len()];
        Some(AdvData::Manufacturer { company, data })
    } else {
        Some(AdvData::Other { typ, data: val })
    }
}

/// Views of a list of AD structures.
pub open spec fn adv_views<'a>(v: Seq<AdvData<'a>>) -> Seq<AdvDataView> {
    v.map_values(|a: AdvData<'a>| a@)
}

/// Parses the AD structures of an advertising report. Parsing stops, without
/// error, at a zero length or at a structure whose length runs past the end;
/// at most `MAX_NUM_ADV_DATA` structures are kept, the first ones.
pub fn parse_adv_data<'a>(d: &'a [u8]) -> (r: heapless::Vec<AdvData<'a>, MAX_NUM_ADV_DATA>)
    ensures
        adv_views(adv_data_items(r)) == take_at_most(adv_parse_spec(d@, 0), MAX_NUM_ADV_DATA as nat),
{
    let mut result = adv_list_new();
    let ghost mut seen: Seq<AdvDataView> = seq![];
    let mut pos: usize = 0;
    while pos < d.len()
        invariant
            pos <= d@.len(),
            seen + adv_parse_spec(d@, pos as int) == adv_parse_spec(d@, 0),
            adv_views(adv_data_items(result)) == take_at_most(seen, MAX_NUM_ADV_DATA as nat),
        ensures
            adv_parse_spec(d@, pos as int) == Seq::<AdvDataView>::empty(),
        decreases d.len() - pos,
    {
        let len = d[pos] as usize;
        if len == 0 || len > d.len() - pos - 1 {
            assert(adv_parse_spec(d@, pos as int) =~= Seq::<AdvDataView>::empty());
            break;
        }
        let ad_type = d[pos + 1];
        let val = &d[pos + 2..pos + 1 + len];
        let entry = ad_entry(ad_type, val);
        let ghost old_seen = seen;
        let ghost old_result = adv_data_items(result);
        match entry {
            Some(e) => {
                proof {
                    seen = seen.push(e@);
                }
                let _ = adv_list_push(&mut result, e);
            },
            None => {},
        }
        proof {
            let rest = adv_parse_spec(d@, pos + 1 + len);
            match entry {
                Some(e) => {
                    assert(adv_parse_spec(d@, pos as int) == seq![e@] + rest);
                    assert(old_seen + (seq![e@] + rest) =~= seen + rest);
                },
                None => {
                    assert(adv_parse_spec(d@, pos as int) == rest);
                },
            }
            assert(adv_views(old_result).len() == old_result.len());
            match entry {
                Some(e) => {
                    if old_result.len() < MAX_NUM_ADV_DATA {
                        assert(adv_data_items(result) == old_result.push(e));
                        assert(adv_views(adv_data_items(result)) =~= adv_views(old_result).push(e@));
                        assert(old_seen.len() == old_result.len());
                        assert(take_at_most(seen, MAX_NUM_ADV_DATA as nat) =~= seen);
                        assert(old_seen =~= take_at_most(old_seen, MAX_NUM_ADV_DATA as nat));
                    } else {
                        assert(take_at_most(seen, MAX_NUM_ADV_DATA as nat) =~= take_at_most(old_seen, MAX_NUM_ADV_DATA as nat));
                    }
                },
                None => {},
            }
        }
        pos = pos + 1 + len;
    }
    proof {
        assert(seen + Seq::<AdvDataView>::empty() =~= seen);
    }
    result
}

/// An advertising report of an LE Advertising Report event.
#[derive(Debug)]
pub struct AdvReport<'a> {
    /// ADV_IND, ADV_NONCONN_IND, SCAN_RSP, ...
    pub evt_type: u8,
    /// 0: public, 1: random, ...
    pub addr_type: u8,
    /// Device address, least significant byte first, as on the wire.
    pub addr: [u8; 6],
    /// Raw advertising data (borrowed from the event).
    pub data: &'a [u8],
    /// Signal strength, dBm.
    pub rssi: i8,
    /// The AD structures of `data`.
    pub data_parsed: heapless::Vec<AdvData<'a>, MAX_NUM_ADV_DATA>,
}

/// Contents of an `AdvReport`, as plain values.
pub struct AdvReportView {
    pub evt_type: u8,
    pub addr_type: u8,
    pub addr: Seq<u8>,
    pub data: Seq<u8>,
    pub rssi: i8,
    pub data_parsed: Seq<AdvDataView>,
}

impl<'a> View for AdvReport<'a> {
    type V = AdvReportView;

    open spec fn view(&self) -> AdvReportView {
        AdvReportView {
            evt_type: self.evt_type,
            addr_type: self.addr_type,
            addr: self.addr@,
            data: self.data@,
            rssi: self.rssi,
            data_parsed: adv_views(adv_data_items(self.data_parsed)),
        }
    }
}

/// A decoded HCI event, borrowing its bytes from the input.
#[derive(Debug)]
pub enum HciEvent<'a> {
    CommandComplete { n_cmd: u8, opcode: u16, status: u8, rest: &'a [u8] },
    AdvertisingReport { reports: heapless::Vec<AdvReport<'a>, MAX_NUM_ADV_REPS> },
    Unknown { evt: u8, params: &'a [u8] },
}

/// Contents of an `HciEvent`, as plain values.
pub enum HciEventView {
    CommandComplete { n_cmd: u8, opcode: u16, status: u8, rest: Seq<u8> },
    AdvertisingReport { reports: Seq<AdvReportView> },
    Unknown { evt: u8, params: Seq<u8> },
}

/// Views of a list of advertising reports.
pub open spec fn report_views<'a>(v: Seq<AdvReport<'a>>) -> Seq<AdvReportView> {
    v.map_values(|r: AdvReport<'a>| r@)
}

impl<'a> View for HciEvent<'a> {
    type V = HciEventView;

    open spec fn view(&self) -> HciEventView {
        match self {
            HciEvent::CommandComplete { n_cmd, opcode, status, rest } => HciEventView::CommandComplete {
                n_cmd: *n_cmd,
                opcode: *opcode,
                status: *status,
                rest: rest@,
            },
            HciEvent::AdvertisingReport { reports } => HciEventView::AdvertisingReport { reports: report_views(adv_report_items(*reports)) },
            HciEvent::Unknown { evt, params } => HciEventView::Unknown { evt: *evt, params: params@ },
        }
    }
}

/// Views of a list of events.
pub open spec fn event_views<'a>(v: Seq<HciEvent<'a>>) -> Seq<HciEventView> {
    v.map_values(|e: HciEvent<'a>| e@)
}

/// HCI event codes with a name here.
#[derive(Clone, Copy, Debug, PartialEq, Eq, Structural)]
pub enum HciEventType {
    InquiryComplete,
    InquiryResult,
    ConnectionComplete,
    ConnectionRequest,
    CommandComplete,
    LeAdvertising,
}

impl HciEventType {
    /// Event code of this event type.
    pub open spec fn spec_val(self) -> u8 {
        match self {
            HciEventType::InquiryComplete => 0x01,
            HciEventType::InquiryResult => 0x02,
            HciEventType::ConnectionComplete => 0x03,
            HciEventType::ConnectionRequest => 0x04,
            HciEventType::CommandComplete => 0x0E,
            HciEventType::LeAdvertising => 0x3E,
        }
    }

    /// Event code of this event type.
    pub fn val(&self) -> (r: u8)
        ensures
            r == self.spec_val(),
    {
        match self {
            HciEventType::InquiryComplete => 0x01,
            HciEventType::InquiryResult => 0x02,
            HciEventType::ConnectionComplete => 0x03,
            HciEventType::ConnectionRequest => 0x04,
            HciEventType::CommandComplete => 0x0E,
            HciEventType::LeAdvertising => 0x3E,
        }
    }

    /// The event type with code `b`; `InvalidData` for a code without a name here.
    pub fn from_val(b: u8) -> (r: Result<HciEventType, EspError>)
        ensures
            match r {
                Ok(t) => t.spec_val() == b,
                Err(e) => e == EspError::InvalidData && forall|t: HciEventType| t.spec_val() != b,
            },
    {
        match b {
            0x01 => Ok(HciEventType::InquiryComplete),
            0x02 => Ok(HciEventType::InquiryResult),
            0x03 => Ok(HciEventType::ConnectionComplete),
            0x04 => Ok(HciEventType::ConnectionRequest),
            0x0E => Ok(HciEventType::CommandComplete),
            0x3E => Ok(HciEventType::LeAdvertising),
            _ => Err(EspError::InvalidData),
        }
    }
}

/// Two's-complement reading of byte `b`.
pub open spec fn i8_of(b: u8) -> i8 {
    if b < 128 {
        b as i8
    } else {
        (b - 256) as i8
    }
}

/// The advertising reports in `p` from index `idx` on, at most `remaining`
/// of them: each is event type, address type, six address bytes, data
/// length, data, RSSI. The walk stops at the first report that does not fit.
pub open spec fn reports_spec(p: Seq<u8>, idx: int, remaining: nat) -> Seq<AdvReportView>
    decreases remaining,
{
    if remaining == 0 || idx < 0 || idx + 10 > p.len() {
        seq![]
    } else {
        let dl = p[idx + 8] as int;
        if idx + 9 + dl + 1 > p.len() {
            seq![]
        } else {
            let data = p.subrange(idx + 9, idx + 9 + dl);
            seq![
                AdvReportView {
                    evt_type: p[idx],
                    addr_type: p[idx + 1],
                    addr: p.subrange(idx + 2, idx + 8),
                    data,
                    rssi: i8_of(p[idx + 9 + dl]),
                    data_parsed: take_at_most(adv_parse_spec(data, 0), MAX_NUM_ADV_DATA as nat),
                },
            ] + reports_spec(p, idx + 10 + dl, (remaining - 1) as nat)
        }
    }
}

/// The event with code `code` and parameters `params`: `Ok(None)` for an LE
/// meta-event other than an advertising report, which is skipped.
pub open spec fn event_spec(code: u8, params: Seq<u8>) -> Result<Option<HciEventView>, EspError> {
    if code == 0x0E {
        if params.len() < 4 {
            Err(EspError::InvalidData)
        } else {
            Ok(
                Some(
                    HciEventView::CommandComplete {
                        n_cmd: params[0],
                        opcode: le16_at(params, 1),
                        status: params[3],
                        rest: params.subrange(4, params.len() as int),
                    },
                ),
            )
        }
    } else if code == 0x3E {
        if params.len() == 0 {
            Err(EspError::InvalidData)
        } else if params[0] != 0x02 {
            Ok(None)
        } else if params.len() < 2 {
            Err(EspError::InvalidData)
        } else {
            Ok(Some(HciEventView::AdvertisingReport { reports: take_at_most(reports_spec(params, 2, params[1] as nat), MAX_NUM_ADV_REPS as nat) }))
        }
    } else {
        Ok(Some(HciEventView::Unknown { evt: code, params }))
    }
}

/// The events in `buf` from index `i` on, when `count` were found before.
/// Walking stops cleanly at fewer than three bytes or at a byte that is not
/// the event packet marker; an event that runs past the end is `InvalidData`;
/// more than `MAX_HCI_EVS` events is `Capacity`.
pub open spec fn events_spec(buf: Seq<u8>, i: int, count: nat) -> Result<Seq<HciEventView>, EspError>
    decreases buf.len() - i,
{
    if i < 0 || i + 3 > buf.len() || buf[i] != 0x04 {
        Ok(seq![])
    } else {
        let plen = buf[i + 2] as int;
        if i + 3 + plen > buf.len() {
            Err(EspError::InvalidData)
        } else {
            match event_spec(buf[i + 1], buf.subrange(i + 3, i + 3 + plen)) {
                Err(e) => Err(e),
                Ok(None) => events_spec(buf, i + 3 + plen, count),
                Ok(Some(ev)) => if count >= MAX_HCI_EVS {
                    Err(EspError::Capacity)
                } else {
                    prepend(seq![ev], events_spec(buf, i + 3 + plen, count + 1))
                },
            }
        }
    }
}

/// `prefix` in front of a successful result; an error unchanged.
pub open spec fn prepend<A>(prefix: Seq<A>, r: Result<Seq<A>, EspError>) -> Result<Seq<A>, EspError> {
    match r {
        Ok(rest) => Ok(prefix + rest),
        Err(e) => Err(e),
    }
}

/// Parses the advertising reports of an LE Advertising Report event.
fn parse_adv_reports<'a>(params: &'a [u8], num: u8) -> (r: heapless::Vec<AdvReport<'a>, MAX_NUM_ADV_REPS>)
    ensures
        report_views(adv_report_items(r)) == take_at_most(reports_spec(params@, 2, num as nat), MAX_NUM_ADV_REPS as nat),
{
    let mut reports = report_list_new();
    let ghost mut seen: Seq<AdvReportView> = seq![];
    let mut idx: usize = 2;
    let mut k: u8 = 0;
    let plen = params.len();
    while k < num
        invariant
            k <= num,
            plen == params@.len(),
            seen + reports_spec(params@, idx as int, (num - k) as nat) == reports_spec(params@, 2, num as nat),
            report_views(adv_report_items(reports)) == take_at_most(seen, MAX_NUM_ADV_REPS as nat),
        ensures
            reports_spec(params@, idx as int, (num - k) as nat) == Seq::<AdvReportView>::empty(),
        decreases num - k,
    {
        if idx > plen || 10 > plen - idx {
            break;
        }
        let evt_type = params[idx];
        let addr_type = params[idx + 1];
        let mut addr = [0u8; 6];
        copy_into(&mut addr, 0, &params[idx + 2..idx + 8]);
        let data_len = params[idx + 8] as usize;
        if data_len + 10 > plen - idx {
            break;
        }
        let data = &params[idx + 9..idx + 9 + data_len];
        let b = params[idx + 9 + data_len];
        let rssi: i8 = if b < 128 {
            b as i8
        } else {
            (b as i16 - 256) as i8
        };
        let data_parsed = parse_adv_data(data);
        let report = AdvReport { evt_type, addr_type, addr, data, rssi, data_parsed };
        let ghost rv = report@;
        proof {
            assert(addr@ =~= params@.subrange(idx + 2, idx + 8));
            assert(reports_spec(params@, idx as int, (num - k) as nat) == seq![rv] + reports_spec(
                params@,
                idx + 10 + data_len,
                (num - k - 1) as nat,
            ));
        }
        let ghost old_seen = seen;
        let ghost old_reports = adv_report_items(reports);
        proof {
            seen = seen.push(rv);
        }
        let _ = report_list_push(&mut reports, report);
        proof {
            assert(old_seen + (seq![rv] + reports_spec(params@, idx + 10 + data_len, (num - k - 1) as nat)) =~= seen
                + reports_spec(params@, idx + 10 + data_len, (num - k - 1) as nat));
            assert(report_views(old_reports).len() == old_reports.len());
            if old_reports.len() < MAX_NUM_ADV_REPS {
                assert(report_views(adv_report_items(reports)) =~= report_views(old_reports).push(rv));
                assert(take_at_most(seen, MAX_NUM_ADV_REPS as nat) =~= seen);
                assert(old_seen =~= take_at_most(old_seen, MAX_NUM_ADV_REPS as nat));
            } else {
                assert(take_at_most(seen, MAX_NUM_ADV_REPS as nat) =~= take_at_most(old_seen, MAX_NUM_ADV_REPS as nat));
            }
        }
        idx = idx + 10 + data_len;
        k = k + 1;
    }
    proof {
        assert(seen + Seq::<AdvReportView>::empty() =~= seen);
    }
    reports
}

/// The event with code `code` and parameters `params`.
fn parse_event<'a>(code: u8, params: &'a [u8]) -> (r: Result<Option<HciEvent<'a>>, EspError>)
    ensures
        match r {
            Ok(Some(ev)) => event_spec(code, params@) == Ok::<Option<HciEventView>, EspError>(Some(ev@)),
            Ok(None) => event_spec(code, params@) == Ok::<Option<HciEventView>, EspError>(None),
            Err(e) => event_spec(code, params@) == Err::<Option<HciEventView>, EspError>(e),
        },
{
    if code == 0x0E {
        if params.len() < 4 {
            return Err(EspError::InvalidData);
        }
        let opcode = crate::wire::get_le16(params, 1);
        let rest = &params[4..params.len()];
        Ok(Some(HciEvent::CommandComplete { n_cmd: params[0], opcode, status: params[3], rest }))
    } else if code == 0x3E {
        if params.len() == 0 {
            return Err(EspError::InvalidData);
        }
        if params[0] != 0x02 {
            return Ok(None);
        }
        if params.len() < 2 {
            return Err(EspError::InvalidData);
        }
        let reports = parse_adv_reports(params, params[1]);
        Ok(Some(HciEvent::AdvertisingReport { reports }))
    } else {
        Ok(Some(HciEvent::Unknown { evt: code, params }))
    }
}

/// Parses the HCI events at the start of `buf`, one after the other.
/// Parsing stops, returning what was decoded, at fewer than three remaining
/// bytes or at a byte that is not the event packet marker. An event whose
/// declared length runs past the end is `InvalidData`; more than
/// `MAX_HCI_EVS` events is `Capacity`. Advertising reports past
/// `MAX_NUM_ADV_REPS`, or that do not fit their event, are dropped.
pub fn parse_hci_events<'a>(buf: &'a [u8]) -> (r: Result<heapless::Vec<HciEvent<'a>, MAX_HCI_EVS>, EspError>)
    ensures
        match r {
            Ok(v) => events_spec(buf@, 0, 0) == Ok::<Seq<HciEventView>, EspError>(event_views(hci_event_items(v))),
            Err(e) => events_spec(buf@, 0, 0) == Err::<Seq<HciEventView>, EspError>(e),
        },
{
    let mut result = event_list_new();
    let mut i: usize = 0;
    let n = buf.len();
    while i < n && 3 <= n - i
        invariant
            n == buf@.len(),
            i <= n,
            hci_event_items(result).len() <= MAX_HCI_EVS,
            events_spec(buf@, 0, 0) == prepend(event_views(hci_event_items(result)), events_spec(buf@, i as int, hci_event_items(result).len() as nat)),
        decreases n - i,
    {
        if buf[i] != 0x04 {
            proof {
                assert(events_spec(buf@, i as int, hci_event_items(result).len() as nat) == Ok::<Seq<HciEventView>, EspError>(seq![]));
                assert(event_views(hci_event_items(result)) + seq![] =~= event_views(hci_event_items(result)));
            }
            return Ok(result);
        }
        let code = buf[i + 1];
        let plen = buf[i + 2] as usize;
        if plen > n - i - 3 {
            return Err(EspError::InvalidData);
        }
        let params = &buf[i + 3..i + 3 + plen];
        let ghost next = (i + 3 + plen) as int;
        let ghost cnt = hci_event_items(result).len() as nat;
        match parse_event(code, params) {
            Err(e) => {
                return Err(e);
            },
            Ok(None) => {},
            Ok(Some(ev)) => {
                let ghost old_views = event_views(hci_event_items(result));
                let ghost evv = ev@;
                if event_list_push(&mut result, ev).is_err() {
                    return Err(EspError::Capacity);
                }
                proof {
                    assert(event_views(hci_event_items(result)) =~= old_views + seq![evv]);
                    let tail = events_spec(buf@, next, cnt + 1);
                    match tail {
                        Ok(rest) => {
                            assert(old_views + (seq![evv] + rest) =~= (old_views + seq![evv]) + rest);
                        },
                        Err(_) => {},
                    }
                }
            },
        }
        i = i + 3 + plen;
    }
    proof {
        assert(events_spec(buf@, i as int, hci_event_items(result).len() as nat) == Ok::<Seq<HciEventView>, EspError>(seq![]));
        assert(event_views(hci_event_items(result)) + seq![] =~= event_views(hci_event_items(result)));
    }
    Ok(result)
}

/// From index `pos` on, `s` is a run of complete AD structures, each with a
/// nonzero length, that ends exactly at the end of `s`.
pub open spec fn ads_well_formed(s: Seq<u8>, pos: int) -> bool
    decreases s.len() - pos,
{
    if pos < 0 || pos > s.len() {
        false
    } else if pos == s.len() {
        true
    } else {
        s[pos] != 0 && s[pos] <= s.len() - pos - 1 && ads_well_formed(s, pos + 1 + s[pos])
    }
}

/// A trailing AD structure whose declared length runs past the end of the
/// buffer is dropped: the structures before it are returned as they are, and
/// parsing neither fails nor panics (`parse_adv_data` returns no error).
pub proof fn lemma_adv_truncation(good: Seq<u8>, bad: Seq<u8>)
    requires
        ads_well_formed(good, 0),
        bad.len() >= 1,
        bad[0] > bad.len() - 1,
    ensures
        adv_parse_spec(good + bad, 0) == adv_parse_spec(good, 0),
{
    lemma_adv_truncation_from(good, bad, 0);
}

proof fn lemma_adv_truncation_from(good: Seq<u8>, bad: Seq<u8>, pos: int)
    requires
        ads_well_formed(good, pos),
        bad.len() >= 1,
        bad[0] > bad.len() - 1,
    ensures
        adv_parse_spec(good + bad, pos) == adv_parse_spec(good, pos),
    decreases good.len() - pos,
{
    let d = good + bad;
    if pos == good.len() {
        assert(d[pos] == bad[0]);
    } else {
        let len = good[pos] as int;
        assert(d[pos] == good[pos]);
        assert(d[pos + 1] == good[pos + 1]);
        assert(d.subrange(pos + 2, pos + 1 + len) =~= good.subrange(pos + 2, pos + 1 + len));
        lemma_adv_truncation_from(good, bad, pos + 1 + len);
    }
}

/// The bytes of one HCI event packet: marker, code, length, parameters.
pub open spec fn event_bytes(code: u8, params: Seq<u8>) -> Seq<u8> {
    seq![0x04u8, code, params.len() as u8] + params
}

/// Two well-formed events back to back decode to exactly those two events,
/// in order.
pub proof fn lemma_two_events(c1: u8, first: Seq<u8>, v1: HciEventView, c2: u8, second: Seq<u8>, v2: HciEventView)
    requires
        first.len() <= 255,
        second.len() <= 255,
        event_spec(c1, first) == Ok::<Option<HciEventView>, EspError>(Some(v1)),
        event_spec(c2, second) == Ok::<Option<HciEventView>, EspError>(Some(v2)),
    ensures
        events_spec(event_bytes(c1, first) + event_bytes(c2, second), 0, 0) == Ok::<Seq<HciEventView>, EspError>(seq![v1, v2]),
{
    let e1 = event_bytes(c1, first);
    let b = e1 + event_bytes(c2, second);
    let n1 = e1.len() as int;
    assert(b.subrange(3, 3 + first.len() as int) =~= first);
    assert(b.subrange(n1 + 3, n1 + 3 + second.len()) =~= second);
    assert(b[n1] == 0x04 && b[n1 + 1] == c2 && b[n1 + 2] == second.len() as u8);
    assert(b[0] == 0x04 && b[1] == c1 && b[2] == first.len() as u8);
    assert(events_spec(b, n1 + 3 + second.len(), 2) == Ok::<Seq<HciEventView>, EspError>(seq![]));
    assert(seq![v2] + seq![] =~= seq![v2]);
    assert(events_spec(b, n1, 1) == prepend(seq![v2], events_spec(b, n1 + 3 + second.len(), 2)));
    assert(events_spec(b, n1, 1) == Ok::<Seq<HciEventView>, EspError>(seq![v2]));
    assert(events_spec(b, 0, 0) == prepend(seq![v1], events_spec(b, n1, 1)));
    assert(seq![v1] + seq![v2] =~= seq![v1, v2]);
}

/// One well-formed event followed by one or two stray bytes decodes to that
/// event alone: parsing stops cleanly at the stray bytes.
pub proof fn lemma_event_then_stray_bytes(c: u8, p: Seq<u8>, v: HciEventView, stray: Seq<u8>)
    requires
        p.len() <= 255,
        1 <= stray.len() <= 2,
        event_spec(c, p) == Ok::<Option<HciEventView>, EspError>(Some(v)),
    ensures
        events_spec(event_bytes(c, p) + stray, 0, 0) == Ok::<Seq<HciEventView>, EspError>(seq![v]),
{
    let b = event_bytes(c, p) + stray;
    assert(b.subrange(3, 3 + p.len() as int) =~= p);
    assert(events_spec(b, 3 + p.len() as int, 1) == Ok::<Seq<HciEventView>, EspError>(seq![]));
    assert(seq![v] + seq![] =~= seq![v]);
}

} // verus!
