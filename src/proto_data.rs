//! Data types of the co-processor's RPC schema that the native API encodes,
//! and the message ids of the RPC envelope.

use vstd::prelude::*;

verus! {

use crate::header::SeqCounter;
use crate::rpc::{framed, write_request, Rpc, RpcType};
use crate::bounded::{bssid_bytes, ssid_bytes};
use crate::wifi::{bool_val, init_config_bytes, scan_config_bytes, InitConfig, ScanConfig};
use crate::wire::{append_bytes, append_field};
use crate::wire::{copy_into, field_spec, i32_bits, i32_to_u64, splice, varint_fields_spec, write_rpc, write_varint_fields, WireType};
use crate::EspError;

/// Message ids of the RPC envelope: requests from 256, responses from 512,
/// events from 768.
#[derive(Clone, Copy, Debug, PartialEq, Eq, Structural)]
pub enum RpcId {
    MsgIdInvalid,
    ReqBase,
    ReqGetMacAddress,
    ReqSetMacAddress,
    ReqGetWifiMode,
    ReqSetWifiMode,
    ReqWifiSetPs,
    ReqWifiGetPs,
    ReqOtaBegin,
    ReqOtaWrite,
    ReqOtaEnd,
    ReqWifiSetMaxTxPower,
    ReqWifiGetMaxTxPower,
    ReqConfigHeartbeat,
    ReqWifiInit,
    ReqWifiDeinit,
    ReqWifiStart,
    ReqWifiStop,
    ReqWifiConnect,
    ReqWifiDisconnect,
    ReqWifiSetConfig,
    ReqWifiGetConfig,
    ReqWifiScanStart,
    ReqWifiScanStop,
    ReqWifiScanGetApNum,
    ReqWifiScanGetApRecords,
    ReqWifiClearApList,
    ReqWifiRestore,
    ReqWifiClearFastConnect,
    ReqWifiDeauthSta,
    ReqWifiStaGetApInfo,
    ReqWifiSetProtocol,
    ReqWifiGetProtocol,
    ReqWifiSetBandwidth,
    ReqWifiGetBandwidth,
    ReqWifiSetChannel,
    ReqWifiGetChannel,
    ReqWifiSetCountry,
    ReqWifiGetCountry,
    ReqWifiSetPromiscuous,
    ReqWifiGetPromiscuous,
    ReqWifiSetPromiscuousFilter,
    ReqWifiGetPromiscuousFilter,
    ReqWifiSetPromiscuousCtrlFilter,
    ReqWifiGetPromiscuousCtrlFilter,
    ReqWifiApGetStaList,
    ReqWifiApGetStaAid,
    ReqWifiSetStorage,
    ReqWifiSetVendorIe,
    ReqWifiSetEventMask,
    ReqWifiGetEventMask,
    ReqWifi80211Tx,
    ReqWifiSetCsiConfig,
    ReqWifiSetCsi,
    ReqWifiSetAntGpio,
    ReqWifiGetAntGpio,
    ReqWifiSetAnt,
    ReqWifiGetAnt,
    ReqWifiGetTsfTime,
    ReqWifiSetInactiveTime,
    ReqWifiGetInactiveTime,
    ReqWifiStatisDump,
    ReqWifiSetRssiThreshold,
    ReqWifiFtmInitiateSession,
    ReqWifiFtmEndSession,
    ReqWifiFtmRespSetOffset,
    ReqWifiConfig11bRate,
    ReqWifiConnectionlessModuleSetWakeInterval,
    ReqWifiSetCountryCode,
    ReqWifiGetCountryCode,
    ReqWifiConfig80211TxRate,
    ReqWifiDisablePmfConfig,
    ReqWifiStaGetAid,
    ReqWifiStaGetNegotiatedPhymode,
    ReqWifiSetDynamicCs,
    ReqWifiStaGetRssi,
    ReqWifiSetProtocols,
    ReqWifiGetProtocols,
    ReqWifiSetBandwidths,
    ReqWifiGetBandwidths,
    ReqWifiSetBand,
    ReqWifiGetBand,
    ReqWifiSetBandMode,
    ReqWifiGetBandMode,
    ReqGetCoprocessorFwVersion,
    ReqWifiScanGetApRecord,
    ReqMax,
    RespBase,
    RespGetMacAddress,
    RespSetMacAddress,
    RespGetWifiMode,
    RespSetWifiMode,
    RespWifiSetPs,
    RespWifiGetPs,
    RespOtaBegin,
    RespOtaWrite,
    RespOtaEnd,
    RespWifiSetMaxTxPower,
    RespWifiGetMaxTxPower,
    RespConfigHeartbeat,
    RespWifiInit,
    RespWifiDeinit,
    RespWifiStart,
    RespWifiStop,
    RespWifiConnect,
    RespWifiDisconnect,
    RespWifiSetConfig,
    RespWifiGetConfig,
    RespWifiScanStart,
    RespWifiScanStop,
    RespWifiScanGetApNum,
    RespWifiScanGetApRecords,
    RespWifiClearApList,
    RespWifiRestore,
    RespWifiClearFastConnect,
    RespWifiDeauthSta,
    RespWifiStaGetApInfo,
    RespWifiSetProtocol,
    RespWifiGetProtocol,
    RespWifiSetBandwidth,
    RespWifiGetBandwidth,
    RespWifiSetChannel,
    RespWifiGetChannel,
    RespWifiSetCountry,
    RespWifiGetCountry,
    RespWifiSetPromiscuous,
    RespWifiGetPromiscuous,
    RespWifiSetPromiscuousFilter,
    RespWifiGetPromiscuousFilter,
    RespWifiSetPromiscuousCtrlFilter,
    RespWifiGetPromiscuousCtrlFilter,
    RespWifiApGetStaList,
    RespWifiApGetStaAid,
    RespWifiSetStorage,
    RespWifiSetVendorIe,
    RespWifiSetEventMask,
    RespWifiGetEventMask,
    RespWifi80211Tx,
    RespWifiSetCsiConfig,
    RespWifiSetCsi,
    RespWifiSetAntGpio,
    RespWifiGetAntGpio,
    RespWifiSetAnt,
    RespWifiGetAnt,
    RespWifiGetTsfTime,
    RespWifiSetInactiveTime,
    RespWifiGetInactiveTime,
    RespWifiStatisDump,
    RespWifiSetRssiThreshold,
    RespWifiFtmInitiateSession,
    RespWifiFtmEndSession,
    RespWifiFtmRespSetOffset,
    RespWifiConfig11bRate,
    RespWifiConnectionlessModuleSetWakeInterval,
    RespWifiSetCountryCode,
    RespWifiGetCountryCode,
    RespWifiConfig80211TxRate,
    RespWifiDisablePmfConfig,
    RespWifiStaGetAid,
    RespWifiStaGetNegotiatedPhymode,
    RespWifiSetDynamicCs,
    RespWifiStaGetRssi,
    RespWifiSetProtocols,
    RespWifiGetProtocols,
    RespWifiSetBandwidths,
    RespWifiGetBandwidths,
    RespWifiSetBand,
    RespWifiGetBand,
    RespWifiSetBandMode,
    RespWifiGetBandMode,
    RespGetCoprocessorFwVersion,
    RespWifiScanGetApRecord,
    RespMax,
    EventBase,
    EventEspInit,
    EventHeartbeat,
    EventApStaConnected,
    EventApStaDisconnected,
    EventWifiEventNoArgs,
    EventStaScanDone,
    EventStaConnected,
    EventStaDisconnected,
    EventMax,
}

impl RpcId {
    /// Numeric value of this message id.
    #[verifier::opaque]
    pub open spec fn spec_val(self) -> u16 {
        match self {
            RpcId::MsgIdInvalid => 0,
            RpcId::ReqBase => 256,
            RpcId::ReqGetMacAddress => 257,
            RpcId::ReqSetMacAddress => 258,
            RpcId::ReqGetWifiMode => 259,
            RpcId::ReqSetWifiMode => 260,
            RpcId::ReqWifiSetPs => 270,
            RpcId::ReqWifiGetPs => 271,
            RpcId::ReqOtaBegin => 272,
            RpcId::ReqOtaWrite => 273,
            RpcId::ReqOtaEnd => 274,
            RpcId::ReqWifiSetMaxTxPower => 275,
            RpcId::ReqWifiGetMaxTxPower => 276,
            RpcId::ReqConfigHeartbeat => 277,
            RpcId::ReqWifiInit => 278,
            RpcId::ReqWifiDeinit => 279,
            RpcId::ReqWifiStart => 280,
            RpcId::ReqWifiStop => 281,
            RpcId::ReqWifiConnect => 282,
            RpcId::ReqWifiDisconnect => 283,
            RpcId::ReqWifiSetConfig => 284,
            RpcId::ReqWifiGetConfig => 285,
            RpcId::ReqWifiScanStart => 286,
            RpcId::ReqWifiScanStop => 287,
            RpcId::ReqWifiScanGetApNum => 288,
            RpcId::ReqWifiScanGetApRecords => 289,
            RpcId::ReqWifiClearApList => 290,
            RpcId::ReqWifiRestore => 291,
            RpcId::ReqWifiClearFastConnect => 292,
            RpcId::ReqWifiDeauthSta => 293,
            RpcId::ReqWifiStaGetApInfo => 294,
            RpcId::ReqWifiSetProtocol => 297,
            RpcId::ReqWifiGetProtocol => 298,
            RpcId::ReqWifiSetBandwidth => 299,
            RpcId::ReqWifiGetBandwidth => 300,
            RpcId::ReqWifiSetChannel => 301,
            RpcId::ReqWifiGetChannel => 302,
            RpcId::ReqWifiSetCountry => 303,
            RpcId::ReqWifiGetCountry => 304,
            RpcId::ReqWifiSetPromiscuous => 305,
            RpcId::ReqWifiGetPromiscuous => 306,
            RpcId::ReqWifiSetPromiscuousFilter => 307,
            RpcId::ReqWifiGetPromiscuousFilter => 308,
            RpcId::ReqWifiSetPromiscuousCtrlFilter => 309,
            RpcId::ReqWifiGetPromiscuousCtrlFilter => 310,
            RpcId::ReqWifiApGetStaList => 311,
            RpcId::ReqWifiApGetStaAid => 312,
            RpcId::ReqWifiSetStorage => 313,
            RpcId::ReqWifiSetVendorIe => 314,
            RpcId::ReqWifiSetEventMask => 315,
            RpcId::ReqWifiGetEventMask => 316,
            RpcId::ReqWifi80211Tx => 317,
            RpcId::ReqWifiSetCsiConfig => 318,
            RpcId::ReqWifiSetCsi => 319,
            RpcId::ReqWifiSetAntGpio => 320,
            RpcId::ReqWifiGetAntGpio => 321,
            RpcId::ReqWifiSetAnt => 322,
            RpcId::ReqWifiGetAnt => 323,
            RpcId::ReqWifiGetTsfTime => 324,
            RpcId::ReqWifiSetInactiveTime => 325,
            RpcId::ReqWifiGetInactiveTime => 326,
            RpcId::ReqWifiStatisDump => 327,
            RpcId::ReqWifiSetRssiThreshold => 328,
            RpcId::ReqWifiFtmInitiateSession => 329,
            RpcId::ReqWifiFtmEndSession => 330,
            RpcId::ReqWifiFtmRespSetOffset => 331,
            RpcId::ReqWifiConfig11bRate => 332,
            RpcId::ReqWifiConnectionlessModuleSetWakeInterval => 333,
            RpcId::ReqWifiSetCountryCode => 334,
            RpcId::ReqWifiGetCountryCode => 335,
            RpcId::ReqWifiConfig80211TxRate => 336,
            RpcId::ReqWifiDisablePmfConfig => 337,
            RpcId::ReqWifiStaGetAid => 338,
            RpcId::ReqWifiStaGetNegotiatedPhymode => 339,
            RpcId::ReqWifiSetDynamicCs => 340,
            RpcId::ReqWifiStaGetRssi => 341,
            RpcId::ReqWifiSetProtocols => 342,
            RpcId::ReqWifiGetProtocols => 343,
            RpcId::ReqWifiSetBandwidths => 344,
            RpcId::ReqWifiGetBandwidths => 345,
            RpcId::ReqWifiSetBand => 346,
            RpcId::ReqWifiGetBand => 347,
            RpcId::ReqWifiSetBandMode => 348,
            RpcId::ReqWifiGetBandMode => 349,
            RpcId::ReqGetCoprocessorFwVersion => 350,
            RpcId::ReqWifiScanGetApRecord => 351,
            RpcId::ReqMax => 352,
            RpcId::RespBase => 512,
            RpcId::RespGetMacAddress => 513,
            RpcId::RespSetMacAddress => 514,
            RpcId::RespGetWifiMode => 515,
            RpcId::RespSetWifiMode => 516,
            RpcId::RespWifiSetPs => 526,
            RpcId::RespWifiGetPs => 527,
            RpcId::RespOtaBegin => 528,
            RpcId::RespOtaWrite => 529,
            RpcId::RespOtaEnd => 530,
            RpcId::RespWifiSetMaxTxPower => 531,
            RpcId::RespWifiGetMaxTxPower => 532,
            RpcId::RespConfigHeartbeat => 533,
            RpcId::RespWifiInit => 534,
            RpcId::RespWifiDeinit => 535,
            RpcId::RespWifiStart => 536,
            RpcId::RespWifiStop => 537,
            RpcId::RespWifiConnect => 538,
            RpcId::RespWifiDisconnect => 539,
            RpcId::RespWifiSetConfig => 540,
            RpcId::RespWifiGetConfig => 541,
            RpcId::RespWifiScanStart => 542,
            RpcId::RespWifiScanStop => 543,
            RpcId::RespWifiScanGetApNum => 544,
            RpcId::RespWifiScanGetApRecords => 545,
            RpcId::RespWifiClearApList => 546,
            RpcId::RespWifiRestore => 547,
            RpcId::RespWifiClearFastConnect => 548,
            RpcId::RespWifiDeauthSta => 549,
            RpcId::RespWifiStaGetApInfo => 550,
            RpcId::RespWifiSetProtocol => 553,
            RpcId::RespWifiGetProtocol => 554,
            RpcId::RespWifiSetBandwidth => 555,
            RpcId::RespWifiGetBandwidth => 556,
            RpcId::RespWifiSetChannel => 557,
            RpcId::RespWifiGetChannel => 558,
            RpcId::RespWifiSetCountry => 559,
            RpcId::RespWifiGetCountry => 560,
            RpcId::RespWifiSetPromiscuous => 561,
            RpcId::RespWifiGetPromiscuous => 562,
            RpcId::RespWifiSetPromiscuousFilter => 563,
            RpcId::RespWifiGetPromiscuousFilter => 564,
            RpcId::RespWifiSetPromiscuousCtrlFilter => 565,
            RpcId::RespWifiGetPromiscuousCtrlFilter => 566,
            RpcId::RespWifiApGetStaList => 567,
            RpcId::RespWifiApGetStaAid => 568,
            RpcId::RespWifiSetStorage => 569,
            RpcId::RespWifiSetVendorIe => 570,
            RpcId::RespWifiSetEventMask => 571,
            RpcId::RespWifiGetEventMask => 572,
            RpcId::RespWifi80211Tx => 573,
            RpcId::RespWifiSetCsiConfig => 574,
            RpcId::RespWifiSetCsi => 575,
            RpcId::RespWifiSetAntGpio => 576,
            RpcId::RespWifiGetAntGpio => 577,
            RpcId::RespWifiSetAnt => 578,
            RpcId::RespWifiGetAnt => 579,
            RpcId::RespWifiGetTsfTime => 580,
            RpcId::RespWifiSetInactiveTime => 581,
            RpcId::RespWifiGetInactiveTime => 582,
            RpcId::RespWifiStatisDump => 583,
            RpcId::RespWifiSetRssiThreshold => 584,
            RpcId::RespWifiFtmInitiateSession => 585,
            RpcId::RespWifiFtmEndSession => 586,
            RpcId::RespWifiFtmRespSetOffset => 587,
            RpcId::RespWifiConfig11bRate => 588,
            RpcId::RespWifiConnectionlessModuleSetWakeInterval => 589,
            RpcId::RespWifiSetCountryCode => 590,
            RpcId::RespWifiGetCountryCode => 591,
            RpcId::RespWifiConfig80211TxRate => 592,
            RpcId::RespWifiDisablePmfConfig => 593,
            RpcId::RespWifiStaGetAid => 594,
            RpcId::RespWifiStaGetNegotiatedPhymode => 595,
            RpcId::RespWifiSetDynamicCs => 596,
            RpcId::RespWifiStaGetRssi => 597,
            RpcId::RespWifiSetProtocols => 598,
            RpcId::RespWifiGetProtocols => 599,
            RpcId::RespWifiSetBandwidths => 600,
            RpcId::RespWifiGetBandwidths => 601,
            RpcId::RespWifiSetBand => 602,
            RpcId::RespWifiGetBand => 603,
            RpcId::RespWifiSetBandMode => 604,
            RpcId::RespWifiGetBandMode => 605,
            RpcId::RespGetCoprocessorFwVersion => 606,
            RpcId::RespWifiScanGetApRecord => 607,
            RpcId::RespMax => 608,
            RpcId::EventBase => 768,
            RpcId::EventEspInit => 769,
            RpcId::EventHeartbeat => 770,
            RpcId::EventApStaConnected => 771,
            RpcId::EventApStaDisconnected => 772,
            RpcId::EventWifiEventNoArgs => 773,
            RpcId::EventStaScanDone => 774,
            RpcId::EventStaConnected => 775,
            RpcId::EventStaDisconnected => 776,
            RpcId::EventMax => 777,
        }
    }

    /// The message id with numeric value `v`, if any.
    #[verifier::opaque]
    pub open spec fn spec_from_val(v: u64) -> Option<RpcId> {
        if v == 0 {
            Some(RpcId::MsgIdInvalid)
        } else if v == 256 {
            Some(RpcId::ReqBase)
        } else if v == 257 {
            Some(RpcId::ReqGetMacAddress)
        } else if v == 258 {
            Some(RpcId::ReqSetMacAddress)
        } else if v == 259 {
            Some(RpcId::ReqGetWifiMode)
        } else if v == 260 {
            Some(RpcId::ReqSetWifiMode)
        } else if v == 270 {
            Some(RpcId::ReqWifiSetPs)
        } else if v == 271 {
            Some(RpcId::ReqWifiGetPs)
        } else if v == 272 {
            Some(RpcId::ReqOtaBegin)
        } else if v == 273 {
            Some(RpcId::ReqOtaWrite)
        } else if v == 274 {
            Some(RpcId::ReqOtaEnd)
        } else if v == 275 {
            Some(RpcId::ReqWifiSetMaxTxPower)
        } else if v == 276 {
            Some(RpcId::ReqWifiGetMaxTxPower)
        } else if v == 277 {
            Some(RpcId::ReqConfigHeartbeat)
        } else if v == 278 {
            Some(RpcId::ReqWifiInit)
        } else if v == 279 {
            Some(RpcId::ReqWifiDeinit)
        } else if v == 280 {
            Some(RpcId::ReqWifiStart)
        } else if v == 281 {
            Some(RpcId::ReqWifiStop)
        } else if v == 282 {
            Some(RpcId::ReqWifiConnect)
        } else if v == 283 {
            Some(RpcId::ReqWifiDisconnect)
        } else if v == 284 {
            Some(RpcId::ReqWifiSetConfig)
        } else if v == 285 {
            Some(RpcId::ReqWifiGetConfig)
        } else if v == 286 {
            Some(RpcId::ReqWifiScanStart)
        } else if v == 287 {
            Some(RpcId::ReqWifiScanStop)
        } else if v == 288 {
            Some(RpcId::ReqWifiScanGetApNum)
        } else if v == 289 {
            Some(RpcId::ReqWifiScanGetApRecords)
        } else if v == 290 {
            Some(RpcId::ReqWifiClearApList)
        } else if v == 291 {
            Some(RpcId::ReqWifiRestore)
        } else if v == 292 {
            Some(RpcId::ReqWifiClearFastConnect)
        } else if v == 293 {
            Some(RpcId::ReqWifiDeauthSta)
        } else if v == 294 {
            Some(RpcId::ReqWifiStaGetApInfo)
        } else if v == 297 {
            Some(RpcId::ReqWifiSetProtocol)
        } else if v == 298 {
            Some(RpcId::ReqWifiGetProtocol)
        } else if v == 299 {
            Some(RpcId::ReqWifiSetBandwidth)
        } else if v == 300 {
            Some(RpcId::ReqWifiGetBandwidth)
        } else if v == 301 {
            Some(RpcId::ReqWifiSetChannel)
        } else if v == 302 {
            Some(RpcId::ReqWifiGetChannel)
        } else if v == 303 {
            Some(RpcId::ReqWifiSetCountry)
        } else if v == 304 {
            Some(RpcId::ReqWifiGetCountry)
        } else if v == 305 {
            Some(RpcId::ReqWifiSetPromiscuous)
        } else if v == 306 {
            Some(RpcId::ReqWifiGetPromiscuous)
        } else if v == 307 {
            Some(RpcId::ReqWifiSetPromiscuousFilter)
        } else if v == 308 {
            Some(RpcId::ReqWifiGetPromiscuousFilter)
        } else if v == 309 {
            Some(RpcId::ReqWifiSetPromiscuousCtrlFilter)
        } else if v == 310 {
            Some(RpcId::ReqWifiGetPromiscuousCtrlFilter)
        } else if v == 311 {
            Some(RpcId::ReqWifiApGetStaList)
        } else if v == 312 {
            Some(RpcId::ReqWifiApGetStaAid)
        } else if v == 313 {
            Some(RpcId::ReqWifiSetStorage)
        } else if v == 314 {
            Some(RpcId::ReqWifiSetVendorIe)
        } else if v == 315 {
            Some(RpcId::ReqWifiSetEventMask)
        } else if v == 316 {
            Some(RpcId::ReqWifiGetEventMask)
        } else if v == 317 {
            Some(RpcId::ReqWifi80211Tx)
        } else if v == 318 {
            Some(RpcId::ReqWifiSetCsiConfig)
        } else if v == 319 {
            Some(RpcId::ReqWifiSetCsi)
        } else if v == 320 {
            Some(RpcId::ReqWifiSetAntGpio)
        } else if v == 321 {
            Some(RpcId::ReqWifiGetAntGpio)
        } else if v == 322 {
            Some(RpcId::ReqWifiSetAnt)
        } else if v == 323 {
            Some(RpcId::ReqWifiGetAnt)
        } else if v == 324 {
            Some(RpcId::ReqWifiGetTsfTime)
        } else if v == 325 {
            Some(RpcId::ReqWifiSetInactiveTime)
        } else if v == 326 {
            Some(RpcId::ReqWifiGetInactiveTime)
        } else if v == 327 {
            Some(RpcId::ReqWifiStatisDump)
        } else if v == 328 {
            Some(RpcId::ReqWifiSetRssiThreshold)
        } else if v == 329 {
            Some(RpcId::ReqWifiFtmInitiateSession)
        } else if v == 330 {
            Some(RpcId::ReqWifiFtmEndSession)
        } else if v == 331 {
            Some(RpcId::ReqWifiFtmRespSetOffset)
        } else if v == 332 {
            Some(RpcId::ReqWifiConfig11bRate)
        } else if v == 333 {
            Some(RpcId::ReqWifiConnectionlessModuleSetWakeInterval)
        } else if v == 334 {
            Some(RpcId::ReqWifiSetCountryCode)
        } else if v == 335 {
            Some(RpcId::ReqWifiGetCountryCode)
        } else if v == 336 {
            Some(RpcId::ReqWifiConfig80211TxRate)
        } else if v == 337 {
            Some(RpcId::ReqWifiDisablePmfConfig)
        } else if v == 338 {
            Some(RpcId::ReqWifiStaGetAid)
        } else if v == 339 {
            Some(RpcId::ReqWifiStaGetNegotiatedPhymode)
        } else if v == 340 {
            Some(RpcId::ReqWifiSetDynamicCs)
        } else if v == 341 {
            Some(RpcId::ReqWifiStaGetRssi)
        } else if v == 342 {
            Some(RpcId::ReqWifiSetProtocols)
        } else if v == 343 {
            Some(RpcId::ReqWifiGetProtocols)
        } else if v == 344 {
            Some(RpcId::ReqWifiSetBandwidths)
        } else if v == 345 {
            Some(RpcId::ReqWifiGetBandwidths)
        } else if v == 346 {
            Some(RpcId::ReqWifiSetBand)
        } else if v == 347 {
            Some(RpcId::ReqWifiGetBand)
        } else if v == 348 {
            Some(RpcId::ReqWifiSetBandMode)
        } else if v == 349 {
            Some(RpcId::ReqWifiGetBandMode)
        } else if v == 350 {
            Some(RpcId::ReqGetCoprocessorFwVersion)
        } else if v == 351 {
            Some(RpcId::ReqWifiScanGetApRecord)
        } else if v == 352 {
            Some(RpcId::ReqMax)
        } else if v == 512 {
            Some(RpcId::RespBase)
        } else if v == 513 {
            Some(RpcId::RespGetMacAddress)
        } else if v == 514 {
            Some(RpcId::RespSetMacAddress)
        } else if v == 515 {
            Some(RpcId::RespGetWifiMode)
        } else if v == 516 {
            Some(RpcId::RespSetWifiMode)
        } else if v == 526 {
            Some(RpcId::RespWifiSetPs)
        } else if v == 527 {
            Some(RpcId::RespWifiGetPs)
        } else if v == 528 {
            Some(RpcId::RespOtaBegin)
        } else if v == 529 {
            Some(RpcId::RespOtaWrite)
        } else if v == 530 {
            Some(RpcId::RespOtaEnd)
        } else if v == 531 {
            Some(RpcId::RespWifiSetMaxTxPower)
        } else if v == 532 {
            Some(RpcId::RespWifiGetMaxTxPower)
        } else if v == 533 {
            Some(RpcId::RespConfigHeartbeat)
        } else if v == 534 {
            Some(RpcId::RespWifiInit)
        } else if v == 535 {
            Some(RpcId::RespWifiDeinit)
        } else if v == 536 {
            Some(RpcId::RespWifiStart)
        } else if v == 537 {
            Some(RpcId::RespWifiStop)
        } else if v == 538 {
            Some(RpcId::RespWifiConnect)
        } else if v == 539 {
            Some(RpcId::RespWifiDisconnect)
        } else if v == 540 {
            Some(RpcId::RespWifiSetConfig)
        } else if v == 541 {
            Some(RpcId::RespWifiGetConfig)
        } else if v == 542 {
            Some(RpcId::RespWifiScanStart)
        } else if v == 543 {
            Some(RpcId::RespWifiScanStop)
        } else if v == 544 {
            Some(RpcId::RespWifiScanGetApNum)
        } else if v == 545 {
            Some(RpcId::RespWifiScanGetApRecords)
        } else if v == 546 {
            Some(RpcId::RespWifiClearApList)
        } else if v == 547 {
            Some(RpcId::RespWifiRestore)
        } else if v == 548 {
            Some(RpcId::RespWifiClearFastConnect)
        } else if v == 549 {
            Some(RpcId::RespWifiDeauthSta)
        } else if v == 550 {
            Some(RpcId::RespWifiStaGetApInfo)
        } else if v == 553 {
            Some(RpcId::RespWifiSetProtocol)
        } else if v == 554 {
            Some(RpcId::RespWifiGetProtocol)
        } else if v == 555 {
            Some(RpcId::RespWifiSetBandwidth)
        } else if v == 556 {
            Some(RpcId::RespWifiGetBandwidth)
        } else if v == 557 {
            Some(RpcId::RespWifiSetChannel)
        } else if v == 558 {
            Some(RpcId::RespWifiGetChannel)
        } else if v == 559 {
            Some(RpcId::RespWifiSetCountry)
        } else if v == 560 {
            Some(RpcId::RespWifiGetCountry)
        } else if v == 561 {
            Some(RpcId::RespWifiSetPromiscuous)
        } else if v == 562 {
            Some(RpcId::RespWifiGetPromiscuous)
        } else if v == 563 {
            Some(RpcId::RespWifiSetPromiscuousFilter)
        } else if v == 564 {
            Some(RpcId::RespWifiGetPromiscuousFilter)
        } else if v == 565 {
            Some(RpcId::RespWifiSetPromiscuousCtrlFilter)
        } else if v == 566 {
            Some(RpcId::RespWifiGetPromiscuousCtrlFilter)
        } else if v == 567 {
            Some(RpcId::RespWifiApGetStaList)
        } else if v == 568 {
            Some(RpcId::RespWifiApGetStaAid)
        } else if v == 569 {
            Some(RpcId::RespWifiSetStorage)
        } else if v == 570 {
            Some(RpcId::RespWifiSetVendorIe)
        } else if v == 571 {
            Some(RpcId::RespWifiSetEventMask)
        } else if v == 572 {
            Some(RpcId::RespWifiGetEventMask)
        } else if v == 573 {
            Some(RpcId::RespWifi80211Tx)
        } else if v == 574 {
            Some(RpcId::RespWifiSetCsiConfig)
        } else if v == 575 {
            Some(RpcId::RespWifiSetCsi)
        } else if v == 576 {
            Some(RpcId::RespWifiSetAntGpio)
        } else if v == 577 {
            Some(RpcId::RespWifiGetAntGpio)
        } else if v == 578 {
            Some(RpcId::RespWifiSetAnt)
        } else if v == 579 {
            Some(RpcId::RespWifiGetAnt)
        } else if v == 580 {
            Some(RpcId::RespWifiGetTsfTime)
        } else if v == 581 {
            Some(RpcId::RespWifiSetInactiveTime)
        } else if v == 582 {
            Some(RpcId::RespWifiGetInactiveTime)
        } else if v == 583 {
            Some(RpcId::RespWifiStatisDump)
        } else if v == 584 {
            Some(RpcId::RespWifiSetRssiThreshold)
        } else if v == 585 {
            Some(RpcId::RespWifiFtmInitiateSession)
        } else if v == 586 {
            Some(RpcId::RespWifiFtmEndSession)
        } else if v == 587 {
            Some(RpcId::RespWifiFtmRespSetOffset)
        } else if v == 588 {
            Some(RpcId::RespWifiConfig11bRate)
        } else if v == 589 {
            Some(RpcId::RespWifiConnectionlessModuleSetWakeInterval)
        } else if v == 590 {
            Some(RpcId::RespWifiSetCountryCode)
        } else if v == 591 {
            Some(RpcId::RespWifiGetCountryCode)
        } else if v == 592 {
            Some(RpcId::RespWifiConfig80211TxRate)
        } else if v == 593 {
            Some(RpcId::RespWifiDisablePmfConfig)
        } else if v == 594 {
            Some(RpcId::RespWifiStaGetAid)
        } else if v == 595 {
            Some(RpcId::RespWifiStaGetNegotiatedPhymode)
        } else if v == 596 {
            Some(RpcId::RespWifiSetDynamicCs)
        } else if v == 597 {
            Some(RpcId::RespWifiStaGetRssi)
        } else if v == 598 {
            Some(RpcId::RespWifiSetProtocols)
        } else if v == 599 {
            Some(RpcId::RespWifiGetProtocols)
        } else if v == 600 {
            Some(RpcId::RespWifiSetBandwidths)
        } else if v == 601 {
            Some(RpcId::RespWifiGetBandwidths)
        } else if v == 602 {
            Some(RpcId::RespWifiSetBand)
        } else if v == 603 {
            Some(RpcId::RespWifiGetBand)
        } else if v == 604 {
            Some(RpcId::RespWifiSetBandMode)
        } else if v == 605 {
            Some(RpcId::RespWifiGetBandMode)
        } else if v == 606 {
            Some(RpcId::RespGetCoprocessorFwVersion)
        } else if v == 607 {
            Some(RpcId::RespWifiScanGetApRecord)
        } else if v == 608 {
            Some(RpcId::RespMax)
        } else if v == 768 {
            Some(RpcId::EventBase)
        } else if v == 769 {
            Some(RpcId::EventEspInit)
        } else if v == 770 {
            Some(RpcId::EventHeartbeat)
        } else if v == 771 {
            Some(RpcId::EventApStaConnected)
        } else if v == 772 {
            Some(RpcId::EventApStaDisconnected)
        } else if v == 773 {
            Some(RpcId::EventWifiEventNoArgs)
        } else if v == 774 {
            Some(RpcId::EventStaScanDone)
        } else if v == 775 {
            Some(RpcId::EventStaConnected)
        } else if v == 776 {
            Some(RpcId::EventStaDisconnected)
        } else if v == 777 {
            Some(RpcId::EventMax)
        } else {
            None
        }
    }

    /// Numeric value of this message id.
    pub fn val(&self) -> (r: u16)
        ensures
            r == self.spec_val(),
    {
        reveal(RpcId::spec_val);
        match self {
            RpcId::MsgIdInvalid => 0,
            RpcId::ReqBase => 256,
            RpcId::ReqGetMacAddress => 257,
            RpcId::ReqSetMacAddress => 258,
            RpcId::ReqGetWifiMode => 259,
            RpcId::ReqSetWifiMode => 260,
            RpcId::ReqWifiSetPs => 270,
            RpcId::ReqWifiGetPs => 271,
            RpcId::ReqOtaBegin => 272,
            RpcId::ReqOtaWrite => 273,
            RpcId::ReqOtaEnd => 274,
            RpcId::ReqWifiSetMaxTxPower => 275,
            RpcId::ReqWifiGetMaxTxPower => 276,
            RpcId::ReqConfigHeartbeat => 277,
            RpcId::ReqWifiInit => 278,
            RpcId::ReqWifiDeinit => 279,
            RpcId::ReqWifiStart => 280,
            RpcId::ReqWifiStop => 281,
            RpcId::ReqWifiConnect => 282,
            RpcId::ReqWifiDisconnect => 283,
            RpcId::ReqWifiSetConfig => 284,
            RpcId::ReqWifiGetConfig => 285,
            RpcId::ReqWifiScanStart => 286,
            RpcId::ReqWifiScanStop => 287,
            RpcId::ReqWifiScanGetApNum => 288,
            RpcId::ReqWifiScanGetApRecords => 289,
            RpcId::ReqWifiClearApList => 290,
            RpcId::ReqWifiRestore => 291,
            RpcId::ReqWifiClearFastConnect => 292,
            RpcId::ReqWifiDeauthSta => 293,
            RpcId::ReqWifiStaGetApInfo => 294,
            RpcId::ReqWifiSetProtocol => 297,
            RpcId::ReqWifiGetProtocol => 298,
            RpcId::ReqWifiSetBandwidth => 299,
            RpcId::ReqWifiGetBandwidth => 300,
            RpcId::ReqWifiSetChannel => 301,
            RpcId::ReqWifiGetChannel => 302,
            RpcId::ReqWifiSetCountry => 303,
            RpcId::ReqWifiGetCountry => 304,
            RpcId::ReqWifiSetPromiscuous => 305,
            RpcId::ReqWifiGetPromiscuous => 306,
            RpcId::ReqWifiSetPromiscuousFilter => 307,
            RpcId::ReqWifiGetPromiscuousFilter => 308,
            RpcId::ReqWifiSetPromiscuousCtrlFilter => 309,
            RpcId::ReqWifiGetPromiscuousCtrlFilter => 310,
            RpcId::ReqWifiApGetStaList => 311,
            RpcId::ReqWifiApGetStaAid => 312,
            RpcId::ReqWifiSetStorage => 313,
            RpcId::ReqWifiSetVendorIe => 314,
            RpcId::ReqWifiSetEventMask => 315,
            RpcId::ReqWifiGetEventMask => 316,
            RpcId::ReqWifi80211Tx => 317,
            RpcId::ReqWifiSetCsiConfig => 318,
            RpcId::ReqWifiSetCsi => 319,
            RpcId::ReqWifiSetAntGpio => 320,
            RpcId::ReqWifiGetAntGpio => 321,
            RpcId::ReqWifiSetAnt => 322,
            RpcId::ReqWifiGetAnt => 323,
            RpcId::ReqWifiGetTsfTime => 324,
            RpcId::ReqWifiSetInactiveTime => 325,
            RpcId::ReqWifiGetInactiveTime => 326,
            RpcId::ReqWifiStatisDump => 327,
            RpcId::ReqWifiSetRssiThreshold => 328,
            RpcId::ReqWifiFtmInitiateSession => 329,
            RpcId::ReqWifiFtmEndSession => 330,
            RpcId::ReqWifiFtmRespSetOffset => 331,
            RpcId::ReqWifiConfig11bRate => 332,
            RpcId::ReqWifiConnectionlessModuleSetWakeInterval => 333,
            RpcId::ReqWifiSetCountryCode => 334,
            RpcId::ReqWifiGetCountryCode => 335,
            RpcId::ReqWifiConfig80211TxRate => 336,
            RpcId::ReqWifiDisablePmfConfig => 337,
            RpcId::ReqWifiStaGetAid => 338,
            RpcId::ReqWifiStaGetNegotiatedPhymode => 339,
            RpcId::ReqWifiSetDynamicCs => 340,
            RpcId::ReqWifiStaGetRssi => 341,
            RpcId::ReqWifiSetProtocols => 342,
            RpcId::ReqWifiGetProtocols => 343,
            RpcId::ReqWifiSetBandwidths => 344,
            RpcId::ReqWifiGetBandwidths => 345,
            RpcId::ReqWifiSetBand => 346,
            RpcId::ReqWifiGetBand => 347,
            RpcId::ReqWifiSetBandMode => 348,
            RpcId::ReqWifiGetBandMode => 349,
            RpcId::ReqGetCoprocessorFwVersion => 350,
            RpcId::ReqWifiScanGetApRecord => 351,
            RpcId::ReqMax => 352,
            RpcId::RespBase => 512,
            RpcId::RespGetMacAddress => 513,
            RpcId::RespSetMacAddress => 514,
            RpcId::RespGetWifiMode => 515,
            RpcId::RespSetWifiMode => 516,
            RpcId::RespWifiSetPs => 526,
            RpcId::RespWifiGetPs => 527,
            RpcId::RespOtaBegin => 528,
            RpcId::RespOtaWrite => 529,
            RpcId::RespOtaEnd => 530,
            RpcId::RespWifiSetMaxTxPower => 531,
            RpcId::RespWifiGetMaxTxPower => 532,
            RpcId::RespConfigHeartbeat => 533,
            RpcId::RespWifiInit => 534,
            RpcId::RespWifiDeinit => 535,
            RpcId::RespWifiStart => 536,
            RpcId::RespWifiStop => 537,
            RpcId::RespWifiConnect => 538,
            RpcId::RespWifiDisconnect => 539,
            RpcId::RespWifiSetConfig => 540,
            RpcId::RespWifiGetConfig => 541,
            RpcId::RespWifiScanStart => 542,
            RpcId::RespWifiScanStop => 543,
            RpcId::RespWifiScanGetApNum => 544,
            RpcId::RespWifiScanGetApRecords => 545,
            RpcId::RespWifiClearApList => 546,
            RpcId::RespWifiRestore => 547,
            RpcId::RespWifiClearFastConnect => 548,
            RpcId::RespWifiDeauthSta => 549,
            RpcId::RespWifiStaGetApInfo => 550,
            RpcId::RespWifiSetProtocol => 553,
            RpcId::RespWifiGetProtocol => 554,
            RpcId::RespWifiSetBandwidth => 555,
            RpcId::RespWifiGetBandwidth => 556,
            RpcId::RespWifiSetChannel => 557,
            RpcId::RespWifiGetChannel => 558,
            RpcId::RespWifiSetCountry => 559,
            RpcId::RespWifiGetCountry => 560,
            RpcId::RespWifiSetPromiscuous => 561,
            RpcId::RespWifiGetPromiscuous => 562,
            RpcId::RespWifiSetPromiscuousFilter => 563,
            RpcId::RespWifiGetPromiscuousFilter => 564,
            RpcId::RespWifiSetPromiscuousCtrlFilter => 565,
            RpcId::RespWifiGetPromiscuousCtrlFilter => 566,
            RpcId::RespWifiApGetStaList => 567,
            RpcId::RespWifiApGetStaAid => 568,
            RpcId::RespWifiSetStorage => 569,
            RpcId::RespWifiSetVendorIe => 570,
            RpcId::RespWifiSetEventMask => 571,
            RpcId::RespWifiGetEventMask => 572,
            RpcId::RespWifi80211Tx => 573,
            RpcId::RespWifiSetCsiConfig => 574,
            RpcId::RespWifiSetCsi => 575,
            RpcId::RespWifiSetAntGpio => 576,
            RpcId::RespWifiGetAntGpio => 577,
            RpcId::RespWifiSetAnt => 578,
            RpcId::RespWifiGetAnt => 579,
            RpcId::RespWifiGetTsfTime => 580,
            RpcId::RespWifiSetInactiveTime => 581,
            RpcId::RespWifiGetInactiveTime => 582,
            RpcId::RespWifiStatisDump => 583,
            RpcId::RespWifiSetRssiThreshold => 584,
            RpcId::RespWifiFtmInitiateSession => 585,
            RpcId::RespWifiFtmEndSession => 586,
            RpcId::RespWifiFtmRespSetOffset => 587,
            RpcId::RespWifiConfig11bRate => 588,
            RpcId::RespWifiConnectionlessModuleSetWakeInterval => 589,
            RpcId::RespWifiSetCountryCode => 590,
            RpcId::RespWifiGetCountryCode => 591,
            RpcId::RespWifiConfig80211TxRate => 592,
            RpcId::RespWifiDisablePmfConfig => 593,
            RpcId::RespWifiStaGetAid => 594,
            RpcId::RespWifiStaGetNegotiatedPhymode => 595,
            RpcId::RespWifiSetDynamicCs => 596,
            RpcId::RespWifiStaGetRssi => 597,
            RpcId::RespWifiSetProtocols => 598,
            RpcId::RespWifiGetProtocols => 599,
            RpcId::RespWifiSetBandwidths => 600,
            RpcId::RespWifiGetBandwidths => 601,
            RpcId::RespWifiSetBand => 602,
            RpcId::RespWifiGetBand => 603,
            RpcId::RespWifiSetBandMode => 604,
            RpcId::RespWifiGetBandMode => 605,
            RpcId::RespGetCoprocessorFwVersion => 606,
            RpcId::RespWifiScanGetApRecord => 607,
            RpcId::RespMax => 608,
            RpcId::EventBase => 768,
            RpcId::EventEspInit => 769,
            RpcId::EventHeartbeat => 770,
            RpcId::EventApStaConnected => 771,
            RpcId::EventApStaDisconnected => 772,
            RpcId::EventWifiEventNoArgs => 773,
            RpcId::EventStaScanDone => 774,
            RpcId::EventStaConnected => 775,
            RpcId::EventStaDisconnected => 776,
            RpcId::EventMax => 777,
        }
    }

    /// The message id with numeric value `v`; `InvalidData` for an unknown value.
    pub fn from_val(v: u64) -> (r: Result<RpcId, EspError>)
        ensures
            match RpcId::spec_from_val(v) {
                Some(id) => r == Ok::<RpcId, EspError>(id),
                None => r == Err::<RpcId, EspError>(EspError::InvalidData),
            },
    {
        reveal(RpcId::spec_from_val);
        match v {
            0 => Ok(RpcId::MsgIdInvalid),
            256 => Ok(RpcId::ReqBase),
            257 => Ok(RpcId::ReqGetMacAddress),
            258 => Ok(RpcId::ReqSetMacAddress),
            259 => Ok(RpcId::ReqGetWifiMode),
            260 => Ok(RpcId::ReqSetWifiMode),
            270 => Ok(RpcId::ReqWifiSetPs),
            271 => Ok(RpcId::ReqWifiGetPs),
            272 => Ok(RpcId::ReqOtaBegin),
            273 => Ok(RpcId::ReqOtaWrite),
            274 => Ok(RpcId::ReqOtaEnd),
            275 => Ok(RpcId::ReqWifiSetMaxTxPower),
            276 => Ok(RpcId::ReqWifiGetMaxTxPower),
            277 => Ok(RpcId::ReqConfigHeartbeat),
            278 => Ok(RpcId::ReqWifiInit),
            279 => Ok(RpcId::ReqWifiDeinit),
            280 => Ok(RpcId::ReqWifiStart),
            281 => Ok(RpcId::ReqWifiStop),
            282 => Ok(RpcId::ReqWifiConnect),
            283 => Ok(RpcId::ReqWifiDisconnect),
            284 => Ok(RpcId::ReqWifiSetConfig),
            285 => Ok(RpcId::ReqWifiGetConfig),
            286 => Ok(RpcId::ReqWifiScanStart),
            287 => Ok(RpcId::ReqWifiScanStop),
            288 => Ok(RpcId::ReqWifiScanGetApNum),
            289 => Ok(RpcId::ReqWifiScanGetApRecords),
            290 => Ok(RpcId::ReqWifiClearApList),
            291 => Ok(RpcId::ReqWifiRestore),
            292 => Ok(RpcId::ReqWifiClearFastConnect),
            293 => Ok(RpcId::ReqWifiDeauthSta),
            294 => Ok(RpcId::ReqWifiStaGetApInfo),
            297 => Ok(RpcId::ReqWifiSetProtocol),
            298 => Ok(RpcId::ReqWifiGetProtocol),
            299 => Ok(RpcId::ReqWifiSetBandwidth),
            300 => Ok(RpcId::ReqWifiGetBandwidth),
            301 => Ok(RpcId::ReqWifiSetChannel),
            302 => Ok(RpcId::ReqWifiGetChannel),
            303 => Ok(RpcId::ReqWifiSetCountry),
            304 => Ok(RpcId::ReqWifiGetCountry),
            305 => Ok(RpcId::ReqWifiSetPromiscuous),
            306 => Ok(RpcId::ReqWifiGetPromiscuous),
            307 => Ok(RpcId::ReqWifiSetPromiscuousFilter),
            308 => Ok(RpcId::ReqWifiGetPromiscuousFilter),
            309 => Ok(RpcId::ReqWifiSetPromiscuousCtrlFilter),
            310 => Ok(RpcId::ReqWifiGetPromiscuousCtrlFilter),
            311 => Ok(RpcId::ReqWifiApGetStaList),
            312 => Ok(RpcId::ReqWifiApGetStaAid),
            313 => Ok(RpcId::ReqWifiSetStorage),
            314 => Ok(RpcId::ReqWifiSetVendorIe),
            315 => Ok(RpcId::ReqWifiSetEventMask),
            316 => Ok(RpcId::ReqWifiGetEventMask),
            317 => Ok(RpcId::ReqWifi80211Tx),
            318 => Ok(RpcId::ReqWifiSetCsiConfig),
            319 => Ok(RpcId::ReqWifiSetCsi),
            320 => Ok(RpcId::ReqWifiSetAntGpio),
            321 => Ok(RpcId::ReqWifiGetAntGpio),
            322 => Ok(RpcId::ReqWifiSetAnt),
            323 => Ok(RpcId::ReqWifiGetAnt),
            324 => Ok(RpcId::ReqWifiGetTsfTime),
            325 => Ok(RpcId::ReqWifiSetInactiveTime),
            326 => Ok(RpcId::ReqWifiGetInactiveTime),
            327 => Ok(RpcId::ReqWifiStatisDump),
            328 => Ok(RpcId::ReqWifiSetRssiThreshold),
            329 => Ok(RpcId::ReqWifiFtmInitiateSession),
            330 => Ok(RpcId::ReqWifiFtmEndSession),
            331 => Ok(RpcId::ReqWifiFtmRespSetOffset),
            332 => Ok(RpcId::ReqWifiConfig11bRate),
            333 => Ok(RpcId::ReqWifiConnectionlessModuleSetWakeInterval),
            334 => Ok(RpcId::ReqWifiSetCountryCode),
            335 => Ok(RpcId::ReqWifiGetCountryCode),
            336 => Ok(RpcId::ReqWifiConfig80211TxRate),
            337 => Ok(RpcId::ReqWifiDisablePmfConfig),
            338 => Ok(RpcId::ReqWifiStaGetAid),
            339 => Ok(RpcId::ReqWifiStaGetNegotiatedPhymode),
            340 => Ok(RpcId::ReqWifiSetDynamicCs),
            341 => Ok(RpcId::ReqWifiStaGetRssi),
            342 => Ok(RpcId::ReqWifiSetProtocols),
            343 => Ok(RpcId::ReqWifiGetProtocols),
            344 => Ok(RpcId::ReqWifiSetBandwidths),
            345 => Ok(RpcId::ReqWifiGetBandwidths),
            346 => Ok(RpcId::ReqWifiSetBand),
            347 => Ok(RpcId::ReqWifiGetBand),
            348 => Ok(RpcId::ReqWifiSetBandMode),
            349 => Ok(RpcId::ReqWifiGetBandMode),
            350 => Ok(RpcId::ReqGetCoprocessorFwVersion),
            351 => Ok(RpcId::ReqWifiScanGetApRecord),
            352 => Ok(RpcId::ReqMax),
            512 => Ok(RpcId::RespBase),
            513 => Ok(RpcId::RespGetMacAddress),
            514 => Ok(RpcId::RespSetMacAddress),
            515 => Ok(RpcId::RespGetWifiMode),
            516 => Ok(RpcId::RespSetWifiMode),
            526 => Ok(RpcId::RespWifiSetPs),
            527 => Ok(RpcId::RespWifiGetPs),
            528 => Ok(RpcId::RespOtaBegin),
            529 => Ok(RpcId::RespOtaWrite),
            530 => Ok(RpcId::RespOtaEnd),
            531 => Ok(RpcId::RespWifiSetMaxTxPower),
            532 => Ok(RpcId::RespWifiGetMaxTxPower),
            533 => Ok(RpcId::RespConfigHeartbeat),
            534 => Ok(RpcId::RespWifiInit),
            535 => Ok(RpcId::RespWifiDeinit),
            536 => Ok(RpcId::RespWifiStart),
            537 => Ok(RpcId::RespWifiStop),
            538 => Ok(RpcId::RespWifiConnect),
            539 => Ok(RpcId::RespWifiDisconnect),
            540 => Ok(RpcId::RespWifiSetConfig),
            541 => Ok(RpcId::RespWifiGetConfig),
            542 => Ok(RpcId::RespWifiScanStart),
            543 => Ok(RpcId::RespWifiScanStop),
            544 => Ok(RpcId::RespWifiScanGetApNum),
            545 => Ok(RpcId::RespWifiScanGetApRecords),
            546 => Ok(RpcId::RespWifiClearApList),
            547 => Ok(RpcId::RespWifiRestore),
            548 => Ok(RpcId::RespWifiClearFastConnect),
            549 => Ok(RpcId::RespWifiDeauthSta),
            550 => Ok(RpcId::RespWifiStaGetApInfo),
            553 => Ok(RpcId::RespWifiSetProtocol),
            554 => Ok(RpcId::RespWifiGetProtocol),
            555 => Ok(RpcId::RespWifiSetBandwidth),
            556 => Ok(RpcId::RespWifiGetBandwidth),
            557 => Ok(RpcId::RespWifiSetChannel),
            558 => Ok(RpcId::RespWifiGetChannel),
            559 => Ok(RpcId::RespWifiSetCountry),
            560 => Ok(RpcId::RespWifiGetCountry),
            561 => Ok(RpcId::RespWifiSetPromiscuous),
            562 => Ok(RpcId::RespWifiGetPromiscuous),
            563 => Ok(RpcId::RespWifiSetPromiscuousFilter),
            564 => Ok(RpcId::RespWifiGetPromiscuousFilter),
            565 => Ok(RpcId::RespWifiSetPromiscuousCtrlFilter),
            566 => Ok(RpcId::RespWifiGetPromiscuousCtrlFilter),
            567 => Ok(RpcId::RespWifiApGetStaList),
            568 => Ok(RpcId::RespWifiApGetStaAid),
            569 => Ok(RpcId::RespWifiSetStorage),
            570 => Ok(RpcId::RespWifiSetVendorIe),
            571 => Ok(RpcId::RespWifiSetEventMask),
            572 => Ok(RpcId::RespWifiGetEventMask),
            573 => Ok(RpcId::RespWifi80211Tx),
            574 => Ok(RpcId::RespWifiSetCsiConfig),
            575 => Ok(RpcId::RespWifiSetCsi),
            576 => Ok(RpcId::RespWifiSetAntGpio),
            577 => Ok(RpcId::RespWifiGetAntGpio),
            578 => Ok(RpcId::RespWifiSetAnt),
            579 => Ok(RpcId::RespWifiGetAnt),
            580 => Ok(RpcId::RespWifiGetTsfTime),
            581 => Ok(RpcId::RespWifiSetInactiveTime),
            582 => Ok(RpcId::RespWifiGetInactiveTime),
            583 => Ok(RpcId::RespWifiStatisDump),
            584 => Ok(RpcId::RespWifiSetRssiThreshold),
            585 => Ok(RpcId::RespWifiFtmInitiateSession),
            586 => Ok(RpcId::RespWifiFtmEndSession),
            587 => Ok(RpcId::RespWifiFtmRespSetOffset),
            588 => Ok(RpcId::RespWifiConfig11bRate),
            589 => Ok(RpcId::RespWifiConnectionlessModuleSetWakeInterval),
            590 => Ok(RpcId::RespWifiSetCountryCode),
            591 => Ok(RpcId::RespWifiGetCountryCode),
            592 => Ok(RpcId::RespWifiConfig80211TxRate),
            593 => Ok(RpcId::RespWifiDisablePmfConfig),
            594 => Ok(RpcId::RespWifiStaGetAid),
            595 => Ok(RpcId::RespWifiStaGetNegotiatedPhymode),
            596 => Ok(RpcId::RespWifiSetDynamicCs),
            597 => Ok(RpcId::RespWifiStaGetRssi),
            598 => Ok(RpcId::RespWifiSetProtocols),
            599 => Ok(RpcId::RespWifiGetProtocols),
            600 => Ok(RpcId::RespWifiSetBandwidths),
            601 => Ok(RpcId::RespWifiGetBandwidths),
            602 => Ok(RpcId::RespWifiSetBand),
            603 => Ok(RpcId::RespWifiGetBand),
            604 => Ok(RpcId::RespWifiSetBandMode),
            605 => Ok(RpcId::RespWifiGetBandMode),
            606 => Ok(RpcId::RespGetCoprocessorFwVersion),
            607 => Ok(RpcId::RespWifiScanGetApRecord),
            608 => Ok(RpcId::RespMax),
            768 => Ok(RpcId::EventBase),
            769 => Ok(RpcId::EventEspInit),
            770 => Ok(RpcId::EventHeartbeat),
            771 => Ok(RpcId::EventApStaConnected),
            772 => Ok(RpcId::EventApStaDisconnected),
            773 => Ok(RpcId::EventWifiEventNoArgs),
            774 => Ok(RpcId::EventStaScanDone),
            775 => Ok(RpcId::EventStaConnected),
            776 => Ok(RpcId::EventStaDisconnected),
            777 => Ok(RpcId::EventMax),
            _ => Err(EspError::InvalidData),
        }
    }

    /// Every message id is read back from its own value.
    pub proof fn lemma_round_trip(self)
        ensures
            RpcId::spec_from_val(self.spec_val() as u64) == Some(self),
    {
        reveal(RpcId::spec_val);
        reveal(RpcId::spec_from_val);
    }
}

/// Weakest access point a station accepts.
#[derive(Clone, Copy, Debug, PartialEq, Eq, Structural)]
pub struct WifiScanThreshold {
    pub rssi: i32,
    pub authmode: i32,
}
/// Protected management frame settings.
#[derive(Clone, Copy, Debug, PartialEq, Eq, Structural)]
pub struct WifiPmfConfig {
    pub capable: bool,
    pub required: bool,
}
/// Request to begin a firmware update.
#[derive(Clone, Copy, Debug, PartialEq, Eq, Structural)]
pub struct RpcReqOtaBegin;
/// Response to `RpcReqOtaBegin`.
#[derive(Clone, Copy, Debug, PartialEq, Eq, Structural)]
pub struct RpcRespOtaBegin {
    pub resp: i32,
}
/// Response to a firmware data write.
#[derive(Clone, Copy, Debug, PartialEq, Eq, Structural)]
pub struct RpcRespOtaWrite {
    pub resp: i32,
}
/// Request to end a firmware update.
#[derive(Clone, Copy, Debug, PartialEq, Eq, Structural)]
pub struct RpcReqOtaEnd;
/// Response to `RpcReqOtaEnd`.
#[derive(Clone, Copy, Debug, PartialEq, Eq, Structural)]
pub struct RpcRespOtaEnd {
    pub resp: i32,
}
/// Request to set the maximum transmit power.
#[derive(Clone, Copy, Debug, PartialEq, Eq, Structural)]
pub struct RpcReqWifiSetMaxTxPower {
    pub power: i32,
}
/// Response to `RpcReqWifiSetMaxTxPower`.
#[derive(Clone, Copy, Debug, PartialEq, Eq, Structural)]
pub struct RpcRespWifiSetMaxTxPower {
    pub resp: i32,
}
/// Request for the maximum transmit power.
#[derive(Clone, Copy, Debug, PartialEq, Eq, Structural)]
pub struct RpcReqWifiGetMaxTxPower;
/// Response to `RpcReqWifiGetMaxTxPower`.
#[derive(Clone, Copy, Debug, PartialEq, Eq, Structural)]
pub struct RpcRespWifiGetMaxTxPower {
    pub power: i32,
    pub resp: i32,
}
/// Heartbeat event of the co-processor.
#[derive(Clone, Copy, Debug, PartialEq, Eq, Structural)]
pub struct EventHeartbeat {
    pub number: u32,
}
/// Request to set the primary and secondary channel.
#[derive(Clone, Copy, Debug, PartialEq, Eq, Structural)]
pub struct RpcReqWifiSetChannel {
    pub primary: i32,
    pub second: i32,
}
/// Response with the primary and secondary channel.
#[derive(Clone, Copy, Debug, PartialEq, Eq, Structural)]
pub struct RpcRespWifiGetChannel {
    pub primary: i32,
    pub second: i32,
}
/// Heartbeat configuration request.
#[derive(Clone, Copy, Debug, PartialEq, Eq, Structural)]
pub struct RpcReqConfigHeartbeat {
    pub enable: bool,
    /// In seconds; at least 10.
    pub duration: i32,
}

/// The encoded fields of a heartbeat request: `enable` (field 1) and
/// `duration` (field 2) as varints.
pub open spec fn heartbeat_bytes(c: RpcReqConfigHeartbeat) -> Seq<u8> {
    varint_fields_spec(1, seq![bool_val(c.enable), i32_bits(c.duration)])
}

impl RpcReqConfigHeartbeat {
    /// Encodes the request at the start of `buf`.
    pub fn to_bytes(&self, buf: &mut [u8]) -> (r: Result<usize, EspError>)
        ensures
            heartbeat_bytes(*self).len() <= old(buf)@.len() ==> {
                &&& r == Ok::<usize, EspError>(heartbeat_bytes(*self).len() as usize)
                &&& final(buf)@ == splice(old(buf)@, 0, heartbeat_bytes(*self))
            },
            heartbeat_bytes(*self).len() > old(buf)@.len() ==> r == Err::<usize, EspError>(EspError::Capacity),
    {
        let vals: [u64; 2] = [if self.enable { 1 } else { 0 }, i32_to_u64(self.duration)];
        assert(vals@ =~= seq![bool_val(self.enable), i32_bits(self.duration)]);
        write_varint_fields(buf, 1, &vals)
    }
}

/// Frames a heartbeat configuration request.
pub fn cfg_heartbeat(buf: &mut [u8], uid: u32, cfg: &RpcReqConfigHeartbeat, seq: &mut SeqCounter) -> (r: Result<usize, EspError>)
    ensures
        framed(
            old(buf)@,
            final(buf)@,
            Rpc { msg_type: RpcType::Req, msg_id: RpcId::ReqConfigHeartbeat, uid },
            heartbeat_bytes(*cfg),
            old(seq).next,
            final(seq).next,
            r,
        ),
{
    let mut data = [0u8; 32];
    proof {
        crate::wire::lemma_varint_fields_len(1, seq![bool_val(cfg.enable), i32_bits(cfg.duration)]);
    }
    let n = match cfg.to_bytes(&mut data) {
        Ok(n) => n,
        Err(_) => 0,
    };
    let d = &data[0..n];
    assert(d@ =~= heartbeat_bytes(*cfg));
    write_request(buf, RpcId::ReqConfigHeartbeat, uid, d, seq)
}

/// Wi-Fi driver initialisation request.
#[derive(Clone, Copy, Debug, PartialEq, Eq, Structural)]
pub struct RpcReqWifiInit {
    pub cfg: InitConfig,
}

/// The encoded request: the configuration as an embedded message, field 1.
pub open spec fn wifi_init_bytes(cfg: InitConfig) -> Seq<u8> {
    field_spec(1, WireType::Len, init_config_bytes(cfg).len() as u64) + init_config_bytes(cfg)
}

impl RpcReqWifiInit {
    /// Encodes the request at the start of `buf`; `Capacity` when it does
    /// not fit.
    pub fn to_bytes(&self, buf: &mut [u8]) -> (r: Result<usize, EspError>)
        ensures
            wifi_init_bytes(self.cfg).len() <= old(buf)@.len() ==> {
                &&& r == Ok::<usize, EspError>(wifi_init_bytes(self.cfg).len() as usize)
                &&& final(buf)@ == splice(old(buf)@, 0, wifi_init_bytes(self.cfg))
            },
            wifi_init_bytes(self.cfg).len() > old(buf)@.len() ==> r == Err::<usize, EspError>(EspError::Capacity),
    {
        let mut scratch = [0u8; 260];
        proof {
            crate::wire::lemma_varint_fields_len(1, crate::wifi::init_config_vals(self.cfg));
        }
        let cfg_len = self.cfg.to_bytes(&mut scratch)?;
        let ghost c = init_config_bytes(self.cfg);
        let ghost b0 = buf@;
        let mut i: usize = 0;
        if write_rpc(buf, 1, WireType::Len, cfg_len as u64, &mut i).is_err() {
            return Err(EspError::Capacity);
        }
        if cfg_len > buf.len() - i {
            return Err(EspError::Capacity);
        }
        copy_into(buf, i, &scratch[0..cfg_len]);
        assert(scratch@.subrange(0, cfg_len as int) =~= c);
        proof {
            crate::wire::lemma_splice_append(b0, 0, field_spec(1, WireType::Len, c.len() as u64), c);
        }
        Ok(i + cfg_len)
    }
}

/// Scan request.
#[derive(Debug)]
pub struct RpcReqWifiScanStart {
    pub config: ScanConfig,
    /// Whether the request blocks until the scan is complete.
    pub block: bool,
    /// 1 to use `config`; 0 to reuse the one sent before.
    pub config_set: i32,
}

/// The encoded request: the scan configuration as an embedded message
/// (field 1), then `block` and `config_set` as varints.
pub open spec fn scan_start_bytes(s: RpcReqWifiScanStart) -> Seq<u8> {
    let c = scan_config_bytes(s.config);
    field_spec(1, WireType::Len, c.len() as u64) + c + field_spec(2, WireType::Varint, bool_val(s.block)) + field_spec(
        3,
        WireType::Varint,
        i32_bits(s.config_set),
    )
}

impl Default for RpcReqWifiScanStart {
    /// The default scan configuration, not blocking, `config_set` 0.
    fn default() -> (r: Self)
        ensures
            ssid_bytes(r.config.ssid) == Seq::<u8>::empty(),
            bssid_bytes(r.config.bssid) == Seq::<u8>::empty(),
            r.config.channel == 0,
            !r.config.show_hidden,
            r.config.scan_type == crate::wifi::ScanType::Active,
            r.config.home_chan_dwell_time == 0,
            !r.block,
            r.config_set == 0,
    {
        RpcReqWifiScanStart { config: ScanConfig::default(), block: false, config_set: 0 }
    }
}

impl RpcReqWifiScanStart {
    /// Encodes the request at the start of `buf`; `Capacity` when it does
    /// not fit.
    pub fn to_bytes(&self, buf: &mut [u8]) -> (r: Result<usize, EspError>)
        ensures
            scan_start_bytes(*self).len() <= old(buf)@.len() ==> {
                &&& r == Ok::<usize, EspError>(scan_start_bytes(*self).len() as usize)
                &&& final(buf)@ == splice(old(buf)@, 0, scan_start_bytes(*self))
            },
            scan_start_bytes(*self).len() > old(buf)@.len() ==> r == Err::<usize, EspError>(EspError::Capacity),
    {
        let ghost b0 = buf@;
        let mut cfg_buf = [0u8; 160];
        let _ssid = crate::bounded::ssid_as_slice(&self.config.ssid);
        let _bssid = crate::bounded::bssid_as_slice(&self.config.bssid);
        proof {
            lemma_scan_config_len(&self.config);
        }
        let cfg_len = self.config.to_bytes(&mut cfg_buf)?;
        let cfg = &cfg_buf[0..cfg_len];
        assert(cfg@ =~= scan_config_bytes(self.config));
        assert(splice(b0, 0, Seq::<u8>::empty()) =~= b0);
        let mut i: usize = 0;
        let ghost w0 = Seq::<u8>::empty();
        append_field(buf, &mut i, 1, WireType::Len, cfg_len as u64, Ghost(b0), Ghost(w0))?;
        let ghost w1 = w0 + field_spec(1, WireType::Len, cfg@.len() as u64);
        append_bytes(buf, &mut i, cfg, Ghost(b0), Ghost(w1))?;
        let ghost w2 = w1 + cfg@;
        let block: u64 = if self.block { 1 } else { 0 };
        append_field(buf, &mut i, 2, WireType::Varint, block, Ghost(b0), Ghost(w2))?;
        let ghost w3 = w2 + field_spec(2, WireType::Varint, block);
        append_field(buf, &mut i, 3, WireType::Varint, i32_to_u64(self.config_set), Ghost(b0), Ghost(w3))?;
        let ghost w4 = w3 + field_spec(3, WireType::Varint, i32_bits(self.config_set));
        assert(w4 =~= scan_start_bytes(*self));
        Ok(i)
    }
}

/// The encoded scan configuration takes at most 160 bytes.
proof fn lemma_scan_config_len(c: &ScanConfig)
    requires
        ssid_bytes(c.ssid).len() <= 33,
        bssid_bytes(c.bssid).len() <= 6,
    ensures
        scan_config_bytes(*c).len() <= 160,
{
    let st = crate::wifi::scan_time_bytes(c.scan_time);
    crate::wire::lemma_field_len(1, WireType::Len, ssid_bytes(c.ssid).len() as u64);
    crate::wire::lemma_field_len(2, WireType::Len, bssid_bytes(c.bssid).len() as u64);
    crate::wire::lemma_field_len(3, WireType::Varint, c.channel as u64);
    crate::wire::lemma_field_len(4, WireType::Varint, bool_val(c.show_hidden));
    crate::wire::lemma_field_len(5, WireType::Varint, c.scan_type.spec_val() as u64);
    crate::wire::lemma_field_len(6, WireType::Len, st.len() as u64);
    crate::wire::lemma_field_len(7, WireType::Varint, c.home_chan_dwell_time as u64);
    crate::wire::lemma_field_len(1, WireType::Len, crate::wifi::active_scan_time_bytes(c.scan_time.active).len() as u64);
    crate::wire::lemma_field_len(2, WireType::Varint, c.scan_time.passive as u64);
    crate::wire::lemma_varint_fields_len(1, seq![c.scan_time.active.min as u64, c.scan_time.active.max as u64]);
}

/// Soft access-point configuration.
#[derive(Debug)]
pub struct WifiApConfig {
    pub ssid: heapless::Vec<u8, 30>,
    pub password: heapless::Vec<u8, 30>,
    pub ssid_len: u32,
    pub channel: u32,
    pub authmode: i32,
    pub ssid_hidden: u32,
    pub max_connection: u32,
    pub beacon_interval: u32,
    pub pairwise_cipher: i32,
    pub ftm_responder: bool,
    pub pmf_cfg: WifiPmfConfig,
    pub sae_pwe_h2e: i32,
}

/// Station configuration.
#[derive(Debug)]
pub struct WifiStaConfig {
    pub ssid: heapless::Vec<u8, 30>,
    pub password: heapless::Vec<u8, 30>,
    pub scan_method: i32,
    pub bssid_set: bool,
    pub bssid: heapless::Vec<u8, 30>,
    pub channel: u32,
    pub listen_interval: u32,
    pub sort_method: i32,
    pub threshold: WifiScanThreshold,
    pub pmf_cfg: WifiPmfConfig,
    pub bitmask: u32,
    pub sae_pwe_h2e: i32,
    pub failure_retry_cnt: u32,
    pub he_bitmask: u32,
    pub sae_h2e_identifier: heapless::Vec<u8, 30>,
}

/// Configuration of one interface.
#[derive(Debug)]
pub enum WifiConfig {
    Ap(WifiApConfig),
    Sta(WifiStaConfig),
}

/// A station connected to the soft access point.
#[derive(Debug)]
pub struct WifiStaInfo {
    pub mac: heapless::Vec<u8, 30>,
    pub rssi: i32,
    pub bitmask: u32,
}

/// Stations connected to the soft access point.
#[derive(Debug)]
pub struct WifiStaList {
    pub sta: heapless::Vec<WifiStaInfo, 30>,
    pub num: i32,
}

/// Firmware data write request.
#[derive(Debug)]
pub struct RpcReqOtaWrite {
    pub ota_data: heapless::Vec<u8, 300>,
}

/// Response with the configuration of an interface.
#[derive(Debug)]
pub struct RpcRespWifiGetConfig {
    pub resp: i32,
    pub iface: i32,
    pub cfg: WifiConfig,
}

} // verus!
