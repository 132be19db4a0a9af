//! Fixed-capacity vectors of the `heapless` crate, as the library uses them:
//! the type declared to Verus, a name for what each instance holds, and one
//! wrapper per method the verified code calls.

use vstd::prelude::*;

verus! {

use crate::ble::{AdvData, AdvReport, HciEvent};
use crate::wifi::WifiApRecord;

#[verifier::external_type_specification]
#[verifier::external_body]
#[verifier::reject_recursive_types(T)]
pub struct ExHeaplessVec<T, const N: usize>(heapless::Vec<T, N>);

/// The bytes an SSID buffer holds, in order.
pub uninterp spec fn ssid_bytes(v: heapless::Vec<u8, 33>) -> Seq<u8>;

/// The bytes a BSSID filter buffer holds, in order.
pub uninterp spec fn bssid_bytes(v: heapless::Vec<u8, 6>) -> Seq<u8>;

/// The records an access-point list holds, in order.
pub uninterp spec fn ap_record_items(v: heapless::Vec<WifiApRecord, 30>) -> Seq<WifiApRecord>;

/// Relies on `heapless::Vec::new`: an empty vector.
#[verifier::external_body]
pub(crate) fn ssid_new() -> (r: heapless::Vec<u8, 33>)
    ensures
        ssid_bytes(r) == Seq::<u8>::empty(),
{
    heapless::Vec::new()
}

/// Relies on `heapless::Vec::from_slice`: it fails exactly when the slice
/// exceeds the capacity, and otherwise holds the slice's bytes in order.
#[verifier::external_body]
pub(crate) fn ssid_from_slice(s: &[u8]) -> (r: Result<heapless::Vec<u8, 33>, ()>)
    ensures
        match r {
            Ok(v) => s@.len() <= 33 && ssid_bytes(v) == s@,
            Err(_) => s@.len() > 33,
        },
{
    heapless::Vec::from_slice(s)
}

/// Relies on `heapless::Vec::as_slice`: the bytes held, in order.
#[verifier::external_body]
pub(crate) fn ssid_as_slice(v: &heapless::Vec<u8, 33>) -> (r: &[u8])
    ensures
        r@ == ssid_bytes(*v),
        r@.len() <= 33,
{
    v.as_slice()
}

/// Relies on `heapless::Vec::as_slice`: the bytes held, in order.
#[verifier::external_body]
pub(crate) fn bssid_as_slice(v: &heapless::Vec<u8, 6>) -> (r: &[u8])
    ensures
        r@ == bssid_bytes(*v),
        r@.len() <= 6,
{
    v.as_slice()
}

/// Relies on `heapless::Vec::new`: an empty vector.
#[verifier::external_body]
pub(crate) fn bssid_new() -> (r: heapless::Vec<u8, 6>)
    ensures
        bssid_bytes(r) == Seq::<u8>::empty(),
{
    heapless::Vec::new()
}

/// Relies on `heapless::Vec::new`: an empty list.
#[verifier::external_body]
pub(crate) fn ap_list_new() -> (r: heapless::Vec<WifiApRecord, 30>)
    ensures
        ap_record_items(r) == Seq::<WifiApRecord>::empty(),
{
    heapless::Vec::new()
}

/// Relies on `heapless::Vec::push`: it appends when the list holds fewer
/// than 30 records, and otherwise hands the record back and changes nothing.
#[verifier::external_body]
pub(crate) fn ap_list_push(v: &mut heapless::Vec<WifiApRecord, 30>, item: WifiApRecord) -> (r: Result<(), WifiApRecord>)
    ensures
        ap_record_items(*old(v)).len() < 30 ==> r is Ok && ap_record_items(*final(v)) == ap_record_items(*old(v)).push(item),
        ap_record_items(*old(v)).len() >= 30 ==> r is Err && ap_record_items(*final(v)) == ap_record_items(*old(v)),
{
    v.push(item)
}

/// The structures an AD list holds, in order.
pub uninterp spec fn adv_data_items(v: heapless::Vec<AdvData, 5>) -> Seq<AdvData>;

/// The reports an advertising-report list holds, in order.
pub uninterp spec fn adv_report_items(v: heapless::Vec<AdvReport, 3>) -> Seq<AdvReport>;

/// The events an event list holds, in order.
pub uninterp spec fn hci_event_items(v: heapless::Vec<HciEvent, 2>) -> Seq<HciEvent>;

/// Relies on `heapless::Vec::new`: an empty list.
#[verifier::external_body]
pub(crate) fn adv_list_new<'a>() -> (r: heapless::Vec<AdvData<'a>, 5>)
    ensures
        adv_data_items(r) == Seq::<AdvData<'a>>::empty(),
{
    heapless::Vec::new()
}

/// Relies on `heapless::Vec::push`: it appends when the list holds fewer
/// than 5 structures, and otherwise hands the item back and changes nothing.
#[verifier::external_body]
pub(crate) fn adv_list_push<'a>(v: &mut heapless::Vec<AdvData<'a>, 5>, item: AdvData<'a>) -> (r: Result<(), AdvData<'a>>)
    ensures
        adv_data_items(*old(v)).len() < 5 ==> r is Ok && adv_data_items(*final(v)) == adv_data_items(*old(v)).push(item),
        adv_data_items(*old(v)).len() >= 5 ==> r is Err && adv_data_items(*final(v)) == adv_data_items(*old(v)),
{
    v.push(item)
}

/// Relies on `heapless::Vec::new`: an empty list.
#[verifier::external_body]
pub(crate) fn report_list_new<'a>() -> (r: heapless::Vec<AdvReport<'a>, 3>)
    ensures
        adv_report_items(r) == Seq::<AdvReport<'a>>::empty(),
{
    heapless::Vec::new()
}

/// Relies on `heapless::Vec::push`: it appends when the list holds fewer
/// than 3 reports, and otherwise hands the item back and changes nothing.
#[verifier::external_body]
pub(crate) fn report_list_push<'a>(v: &mut heapless::Vec<AdvReport<'a>, 3>, item: AdvReport<'a>) -> (r: Result<(), AdvReport<'a>>)
    ensures
        adv_report_items(*old(v)).len() < 3 ==> r is Ok && adv_report_items(*final(v)) == adv_report_items(*old(v)).push(item),
        adv_report_items(*old(v)).len() >= 3 ==> r is Err && adv_report_items(*final(v)) == adv_report_items(*old(v)),
{
    v.push(item)
}

/// Relies on `heapless::Vec::new`: an empty list.
#[verifier::external_body]
pub(crate) fn event_list_new<'a>() -> (r: heapless::Vec<HciEvent<'a>, 2>)
    ensures
        hci_event_items(r) == Seq::<HciEvent<'a>>::empty(),
{
    heapless::Vec::new()
}

/// Relies on `heapless::Vec::push`: it appends when the list holds fewer
/// than 2 events, and otherwise hands the item back and changes nothing.
#[verifier::external_body]
pub(crate) fn event_list_push<'a>(v: &mut heapless::Vec<HciEvent<'a>, 2>, item: HciEvent<'a>) -> (r: Result<(), HciEvent<'a>>)
    ensures
        hci_event_items(*old(v)).len() < 2 ==> r is Ok && hci_event_items(*final(v)) == hci_event_items(*old(v)).push(item),
        hci_event_items(*old(v)).len() >= 2 ==> r is Err && hci_event_items(*final(v)) == hci_event_items(*old(v)),
{
    v.push(item)
}

} // verus!
