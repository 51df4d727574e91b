//! The typed request/response envelopes of the coordination protocol.
//! Every exchange is one request and one response; a version check
//! precedes any role logic. The unions are closed on purpose: the
//! protocol is fixed and versioned, and each namespace carries an
//! explicit error variant with a machine-readable kind and a
//! human-readable reason.

use vstd::prelude::*;
use crate::device::{Device, DeviceFilterVec};
use crate::errors::MarketError;
use crate::scrcpy::{ScrcpyArgs, ScrcpyCliArgs};

verus! {

/// The protocol version this build speaks.
pub open spec fn spec_version() -> Seq<char> {
    "0.2.0"@
}

/// The protocol version, as a value.
pub fn adborc_version() -> (v: String)
    ensures
        v@ == spec_version(),
{
    "0.2.0".to_owned()
}

/// Whether a client's announced version is supported: exactly the
/// version this build speaks.
pub fn version_supported(version: &String) -> (r: bool)
    ensures
        r == (version@ == spec_version()),
{
    let expected = adborc_version();
    *version == expected
}

/// System-level requests: node lifecycle and role start/stop.
pub enum SysStateRequest {
    /// Which roles are currently active.
    GetState,
    /// Stop every role, then the listener.
    Shutdown,
    /// This node's stable peer identity.
    GetPeerId,
    /// Which external collaborators are present.
    SystemCheck,
    /// Use this absolute path for the device-debugging tool.
    SetAdbPath { adb_path: String },
    /// Use this absolute path for the mirroring tool.
    SetScrcpyPath { scrcpy_path: String },
    /// The version handshake; precedes any role logic.
    CheckVersion { version: String },
    StartMarketMaker,
    StopMarketMaker,
    StartSupplier { mm_host: String, mm_port: u16, name: Option<String>, secure_comms: bool },
    StopSupplier,
    StartConsumer { mm_host: String, mm_port: u16, name: Option<String> },
    StopConsumer,
}

/// Requests to the MarketMaker role.
pub enum MarketMakerRequest {
    Status,
    UseWhitelist,
    ResetWhitelist,
    WhitelistSupplier { key: String },
    UnwhitelistSupplier { key: String },
    WhitelistConsumer { key: String },
    UnwhitelistConsumer { key: String },
}

/// Requests to the Supplier role.
pub enum SupplierRequest {
    Status,
    /// Announce devices; `None` announces everything locally attached.
    SupplyDevices { devices: Option<Vec<String>> },
    ReclaimDevice { device_id: String, force: bool },
}

/// Requests to the Consumer role.
pub enum ConsumerRequest {
    Status,
    ReserveDevice { device_id: String, no_use: bool },
    ReleaseDevice { device_id: String },
    ReleaseAllDevices,
    GetAvailableDevices,
    GetDevicesByFilter { filter_vec: DeviceFilterVec },
    UseDevice { device_id: String },
    /// Start mirroring with these options; absent options fall back
    /// to the session's stored defaults.
    StartScrCpy { device_id: String, args: ScrcpyCliArgs },
    StopScrCpy { device_id: String },
    /// Replace the stored mirroring defaults; absent options take the
    /// documented defaults.
    SetScrCpyDefaults { args: ScrcpyCliArgs },
    GetScrCpyDefaults,
}

/// One request envelope.
pub enum Request {
    System(SysStateRequest),
    MarketMaker(MarketMakerRequest),
    Supplier(SupplierRequest),
    Consumer(ConsumerRequest),
}

/// Which roles a node is running.
pub struct SystemStatus {
    pub market_maker_active: bool,
    pub supplier_active: bool,
    pub consumer_active: bool,
}

/// System-level responses.
pub enum SysStateResponse {
    /// The client's version is supported.
    ClientOk,
    /// The client's version is not supported; role logic never ran.
    ClientError { reason: String },
    Status { state: SystemStatus },
    ShutdownSuccess,
    PeerId { peer_id: String },
    SystemCheck { adb: bool, scrcpy: bool },
    AdbPathSet,
    ScrcpyPathSet,
    MarketMakerStarted,
    MarketMakerStopped,
    SupplierStarted,
    SupplierStopped,
    ConsumerStarted,
    ConsumerStopped,
    RequestProcessingError { kind: MarketError, reason: String },
}

/// MarketMaker responses.
pub enum MarketMakerResponse {
    Status { devices: usize, suppliers: usize, consumers: usize, whitelist_enabled: bool },
    WhitelistingOn,
    WhitelistingOff,
    SupplierWhitelisted,
    SupplierUnwhitelisted,
    ConsumerWhitelisted,
    ConsumerUnwhitelisted,
    Error { kind: MarketError, reason: String },
}

/// Supplier responses.
pub enum SupplierResponse {
    Status { name: String, secure: bool, supplied: Vec<String> },
    DevicesSupplied,
    DeviceReclaimed { device_id: String },
    Error { kind: MarketError, reason: String },
}

/// Consumer responses.
pub enum ConsumerResponse {
    Status { name: String, devices: Vec<Device>, using_device: Option<String> },
    DeviceReserved { device_id: String, port: u16 },
    DeviceReleased { device_id: String },
    AllDevicesReleased,
    AvailableDevices { devices: Vec<Device> },
    Devices { devices: Vec<Device> },
    DefaultDeviceSet { device_id: String },
    /// Mirroring may start: the tunnel port and the fully resolved
    /// options (explicit ones, then the stored defaults).
    ScrCpyStarted { device_id: String, port: u16, args: ScrcpyArgs },
    ScrCpyStopped { device_id: String },
    ScrCpyDefaultsSet,
    ScrCpyDefaults { args: ScrcpyArgs },
    /// The mirroring tool's keyboard shortcuts, answered locally.
    ScrCpyShortcutHelp { help: String },
    Error { kind: MarketError, reason: String },
}

/// One response envelope.
pub enum Response {
    System(SysStateResponse),
    MarketMaker(MarketMakerResponse),
    Supplier(SupplierResponse),
    Consumer(ConsumerResponse),
}

/// An error response in the right namespace for the request, with the
/// kind's canonical reason text.
pub fn error_response_for(req: &Request, kind: MarketError) -> (r: Response)
    ensures
        match req {
            Request::System(_) => r matches Response::System(
                SysStateResponse::RequestProcessingError { kind: k, .. },
            ) && k == kind,
            Request::MarketMaker(_) => r matches Response::MarketMaker(
                MarketMakerResponse::Error { kind: k, .. },
            ) && k == kind,
            Request::Supplier(_) => r matches Response::Supplier(
                SupplierResponse::Error { kind: k, .. },
            ) && k == kind,
            Request::Consumer(_) => r matches Response::Consumer(
                ConsumerResponse::Error { kind: k, .. },
            ) && k == kind,
        },
{
    let reason = kind.describe().to_owned();
    match req {
        Request::System(_) => Response::System(
            SysStateResponse::RequestProcessingError { kind, reason },
        ),
        Request::MarketMaker(_) => Response::MarketMaker(
            MarketMakerResponse::Error { kind, reason },
        ),
        Request::Supplier(_) => Response::Supplier(SupplierResponse::Error { kind, reason }),
        Request::Consumer(_) => Response::Consumer(ConsumerResponse::Error { kind, reason }),
    }
}

} // verus!
