//! The command surface a user drives the node with, and its exact
//! mapping onto protocol requests. Argument parsing and printing live
//! in the host binary; here each command becomes the one request it
//! stands for, the version handshake runs first, and the engine
//! answers.

use vstd::prelude::*;
use crate::device::{DeviceFilter, DeviceFilterVec, DeviceFilterView, filter_views};
use crate::protocol::{
    adborc_version, ConsumerRequest, MarketMakerRequest, Request, Response,
    SupplierRequest, SysStateRequest, SysStateResponse,
};
use crate::scrcpy::ScrcpyCliArgs;
use crate::processors::{
    ConsumerProcessor, MarketMakerProcessor, Processable, SupplierProcessor,
};
use crate::sysstate::SysState;

verus! {

/// Top-level commands.
pub enum Commands {
    /// Start the system listener.
    Init,
    /// Which modes are active.
    Status,
    /// Terminate every active mode, then the listener.
    Shutdown,
    /// This node's network identity.
    GetNetworkId,
    /// Which external collaborators are present.
    Check,
    /// Use this absolute path for the device-debugging tool.
    SetAdbPath { path: String },
    /// Use this absolute path for the mirroring tool.
    SetScrcpyPath { path: String },
    /// Write the manual page, optionally into this directory.
    Mangen { path: Option<String> },
    /// Commands to the MarketMaker mode.
    Marketmaker(MarketMakerCommands),
    /// Commands to the Supplier mode.
    Supplier(SupplierCommands),
    /// Commands to the Consumer mode.
    Consumer(ConsumerCommands),
}

/// Commands to the MarketMaker mode.
pub enum MarketMakerCommands {
    Status,
    Start,
    Stop,
    UseWhitelist,
    ResetWhitelist,
    AddSupplier { peer_id: String },
    RemoveSupplier { peer_id: String },
    AddConsumer { peer_id: String },
    RemoveConsumer { peer_id: String },
}

/// Commands to the Supplier mode.
pub enum SupplierCommands {
    Status,
    Start { remote: String, port: u16, user: Option<String>, secure: bool },
    Stop,
    Supply { devices: Option<Vec<String>> },
    Reclaim { device: String, force: bool },
}

/// Commands to the Consumer mode.
pub enum ConsumerCommands {
    Status,
    Start { remote: String, port: u16, user: Option<String> },
    Stop,
    Reserve { device: String, no_default: bool },
    Release { device: Option<String> },
    ListAvailable,
    GetDevices {
        is_available: Option<bool>,
        device_ids: Option<Vec<String>>,
        device_names: Option<Vec<String>>,
        device_models: Option<Vec<String>>,
        supplied_by: Option<Vec<String>>,
        reserved_by: Option<Vec<String>>,
    },
    ListReserved,
    SetDefault { device: String },
    Scrcpy { device: String, args: ScrcpyCliArgs },
    StopScrcpy { device: String },
    SetScrcpyArgs(ScrcpyCliArgs),
    GetScrcpyArgs,
    ScrcpyShortcuts,
}

/// The filter list a device query stands for, in the order the filters
/// are applied: availability, ids, names, models, suppliers, lessees.
pub open spec fn gathered_filters(
    is_available: Option<bool>,
    device_ids: Option<Seq<String>>,
    device_names: Option<Seq<String>>,
    device_models: Option<Seq<String>>,
    supplied_by: Option<Seq<String>>,
    reserved_by: Option<Seq<String>>,
) -> Seq<DeviceFilterView> {
    (match is_available {
        Some(b) => seq![DeviceFilterView::IsAvailable(b)],
        None => seq![],
    }) + (match device_ids {
        Some(l) => seq![DeviceFilterView::DeviceIds(l)],
        None => seq![],
    }) + (match device_names {
        Some(l) => seq![DeviceFilterView::DeviceNames(l)],
        None => seq![],
    }) + (match device_models {
        Some(l) => seq![DeviceFilterView::DeviceModels(l)],
        None => seq![],
    }) + (match supplied_by {
        Some(l) => seq![DeviceFilterView::SupplierNames(l)],
        None => seq![],
    }) + (match reserved_by {
        Some(l) => seq![DeviceFilterView::ConsumerNames(l)],
        None => seq![],
    })
}

/// The one request a MarketMaker command stands for.
pub open spec fn marketmaker_request_spec(command: MarketMakerCommands) -> Request {
    match command {
        MarketMakerCommands::Status => Request::MarketMaker(MarketMakerRequest::Status),
        MarketMakerCommands::Start => Request::System(SysStateRequest::StartMarketMaker),
        MarketMakerCommands::Stop => Request::System(SysStateRequest::StopMarketMaker),
        MarketMakerCommands::UseWhitelist => Request::MarketMaker(MarketMakerRequest::UseWhitelist),
        MarketMakerCommands::ResetWhitelist => Request::MarketMaker(
            MarketMakerRequest::ResetWhitelist,
        ),
        MarketMakerCommands::AddSupplier { peer_id } => Request::MarketMaker(
            MarketMakerRequest::WhitelistSupplier { key: peer_id },
        ),
        MarketMakerCommands::RemoveSupplier { peer_id } => Request::MarketMaker(
            MarketMakerRequest::UnwhitelistSupplier { key: peer_id },
        ),
        MarketMakerCommands::AddConsumer { peer_id } => Request::MarketMaker(
            MarketMakerRequest::WhitelistConsumer { key: peer_id },
        ),
        MarketMakerCommands::RemoveConsumer { peer_id } => Request::MarketMaker(
            MarketMakerRequest::UnwhitelistConsumer { key: peer_id },
        ),
    }
}

/// Build the one request a MarketMaker command stands for.
pub fn marketmaker_request_for(command: MarketMakerCommands) -> (r: Request)
    ensures
        r == marketmaker_request_spec(command),
{
    match command {
        MarketMakerCommands::Status => Request::MarketMaker(MarketMakerRequest::Status),
        MarketMakerCommands::Start => Request::System(SysStateRequest::StartMarketMaker),
        MarketMakerCommands::Stop => Request::System(SysStateRequest::StopMarketMaker),
        MarketMakerCommands::UseWhitelist => Request::MarketMaker(
            MarketMakerRequest::UseWhitelist,
        ),
        MarketMakerCommands::ResetWhitelist => Request::MarketMaker(
            MarketMakerRequest::ResetWhitelist,
        ),
        MarketMakerCommands::AddSupplier { peer_id } => Request::MarketMaker(
            MarketMakerRequest::WhitelistSupplier { key: peer_id },
        ),
        MarketMakerCommands::RemoveSupplier { peer_id } => Request::MarketMaker(
            MarketMakerRequest::UnwhitelistSupplier { key: peer_id },
        ),
        MarketMakerCommands::AddConsumer { peer_id } => Request::MarketMaker(
            MarketMakerRequest::WhitelistConsumer { key: peer_id },
        ),
        MarketMakerCommands::RemoveConsumer { peer_id } => Request::MarketMaker(
            MarketMakerRequest::UnwhitelistConsumer { key: peer_id },
        ),
    }
}

/// The one request a Supplier command stands for.
pub open spec fn supplier_request_spec(command: SupplierCommands) -> Request {
    match command {
        SupplierCommands::Status => Request::Supplier(SupplierRequest::Status),
        SupplierCommands::Start { remote, port, user, secure } => Request::System(
            SysStateRequest::StartSupplier {
                mm_host: remote,
                mm_port: port,
                name: user,
                secure_comms: secure,
            },
        ),
        SupplierCommands::Stop => Request::System(SysStateRequest::StopSupplier),
        SupplierCommands::Supply { devices } => Request::Supplier(
            SupplierRequest::SupplyDevices { devices },
        ),
        SupplierCommands::Reclaim { device, force } => Request::Supplier(
            SupplierRequest::ReclaimDevice { device_id: device, force },
        ),
    }
}

/// Build the one request a Supplier command stands for.
pub fn supplier_request_for(command: SupplierCommands) -> (r: Request)
    ensures
        r == supplier_request_spec(command),
{
    match command {
        SupplierCommands::Status => Request::Supplier(SupplierRequest::Status),
        SupplierCommands::Start { remote, port, user, secure } => Request::System(
            SysStateRequest::StartSupplier {
                mm_host: remote,
                mm_port: port,
                name: user,
                secure_comms: secure,
            },
        ),
        SupplierCommands::Stop => Request::System(SysStateRequest::StopSupplier),
        SupplierCommands::Supply { devices } => Request::Supplier(
            SupplierRequest::SupplyDevices { devices },
        ),
        SupplierCommands::Reclaim { device, force } => Request::Supplier(
            SupplierRequest::ReclaimDevice { device_id: device, force },
        ),
    }
}

/// What request a Consumer command stands for: one exact request for
/// almost every command, the built filter list for a device query,
/// and none at all for the purely local shortcut help.
pub open spec fn consumer_request_ok(command: ConsumerCommands, r: Option<Request>) -> bool {
    match command {
        ConsumerCommands::Status => r == Some(Request::Consumer(ConsumerRequest::Status)),
        ConsumerCommands::Start { remote, port, user } => r == Some(
            Request::System(
                SysStateRequest::StartConsumer { mm_host: remote, mm_port: port, name: user },
            ),
        ),
        ConsumerCommands::Stop => r == Some(Request::System(SysStateRequest::StopConsumer)),
        ConsumerCommands::Reserve { device, no_default } => r == Some(
            Request::Consumer(
                ConsumerRequest::ReserveDevice { device_id: device, no_use: no_default },
            ),
        ),
        ConsumerCommands::Release { device } => (match device {
            Some(d) => r == Some(
                Request::Consumer(ConsumerRequest::ReleaseDevice { device_id: d }),
            ),
            None => r == Some(Request::Consumer(ConsumerRequest::ReleaseAllDevices)),
        }),
        ConsumerCommands::ListAvailable => r == Some(
            Request::Consumer(ConsumerRequest::GetAvailableDevices),
        ),
        ConsumerCommands::GetDevices {
            is_available,
            device_ids,
            device_names,
            device_models,
            supplied_by,
            reserved_by,
        } => (r matches Some(
            Request::Consumer(ConsumerRequest::GetDevicesByFilter { filter_vec }),
        ) && filter_views(filter_vec.filters@) == gathered_filters(
            is_available,
            (match device_ids {
                Some(v) => Some(v@),
                None => None,
            }),
            (match device_names {
                Some(v) => Some(v@),
                None => None,
            }),
            (match device_models {
                Some(v) => Some(v@),
                None => None,
            }),
            (match supplied_by {
                Some(v) => Some(v@),
                None => None,
            }),
            (match reserved_by {
                Some(v) => Some(v@),
                None => None,
            }),
        )),
        ConsumerCommands::ListReserved => r == Some(Request::Consumer(ConsumerRequest::Status)),
        ConsumerCommands::SetDefault { device } => r == Some(
            Request::Consumer(ConsumerRequest::UseDevice { device_id: device }),
        ),
        ConsumerCommands::Scrcpy { device, args } => r == Some(
            Request::Consumer(ConsumerRequest::StartScrCpy { device_id: device, args }),
        ),
        ConsumerCommands::StopScrcpy { device } => r == Some(
            Request::Consumer(ConsumerRequest::StopScrCpy { device_id: device }),
        ),
        ConsumerCommands::SetScrcpyArgs(args) => r == Some(
            Request::Consumer(ConsumerRequest::SetScrCpyDefaults { args }),
        ),
        ConsumerCommands::GetScrcpyArgs => r == Some(
            Request::Consumer(ConsumerRequest::GetScrCpyDefaults),
        ),
        ConsumerCommands::ScrcpyShortcuts => r is None,
    }
}

/// The one request a Consumer command stands for; a purely local
/// command (the shortcut help) asks the engine nothing. Mirroring
/// options travel unresolved: the engine resolves them against the
/// session's stored defaults.
pub fn consumer_request_for(command: ConsumerCommands) -> (r: Option<Request>)
    ensures
        consumer_request_ok(command, r),
{
    match command {
        ConsumerCommands::Status => Some(Request::Consumer(ConsumerRequest::Status)),
        ConsumerCommands::Start { remote, port, user } => Some(
            Request::System(
                SysStateRequest::StartConsumer { mm_host: remote, mm_port: port, name: user },
            ),
        ),
        ConsumerCommands::Stop => Some(Request::System(SysStateRequest::StopConsumer)),
        ConsumerCommands::Reserve { device, no_default } => Some(
            Request::Consumer(
                ConsumerRequest::ReserveDevice { device_id: device, no_use: no_default },
            ),
        ),
        ConsumerCommands::Release { device } => match device {
            Some(d) => Some(Request::Consumer(ConsumerRequest::ReleaseDevice { device_id: d })),
            None => Some(Request::Consumer(ConsumerRequest::ReleaseAllDevices)),
        },
        ConsumerCommands::ListAvailable => Some(
            Request::Consumer(ConsumerRequest::GetAvailableDevices),
        ),
        ConsumerCommands::GetDevices {
            is_available,
            device_ids,
            device_names,
            device_models,
            supplied_by,
            reserved_by,
        } => {
            let ghost expected = gathered_filters(
                is_available,
                (match &device_ids {
                    Some(v) => Some(v@),
                    None => None,
                }),
                (match &device_names {
                    Some(v) => Some(v@),
                    None => None,
                }),
                (match &device_models {
                    Some(v) => Some(v@),
                    None => None,
                }),
                (match &supplied_by {
                    Some(v) => Some(v@),
                    None => None,
                }),
                (match &reserved_by {
                    Some(v) => Some(v@),
                    None => None,
                }),
            );
            let mut filters: Vec<DeviceFilter> = Vec::new();
            if let Some(b) = is_available {
                filters.push(DeviceFilter::IsAvailable(b));
            }
            if let Some(ids) = device_ids {
                filters.push(DeviceFilter::DeviceIds(ids));
            }
            if let Some(names) = device_names {
                filters.push(DeviceFilter::DeviceNames(names));
            }
            if let Some(models) = device_models {
                filters.push(DeviceFilter::DeviceModels(models));
            }
            if let Some(sup) = supplied_by {
                filters.push(DeviceFilter::SupplierNames(sup));
            }
            if let Some(res) = reserved_by {
                filters.push(DeviceFilter::ConsumerNames(res));
            }
            proof {
                assert(filter_views(filters@) =~= expected);
            }
            Some(
                Request::Consumer(
                    ConsumerRequest::GetDevicesByFilter {
                        filter_vec: DeviceFilterVec { filters },
                    },
                ),
            )
        },
        ConsumerCommands::ListReserved => Some(Request::Consumer(ConsumerRequest::Status)),
        ConsumerCommands::SetDefault { device } => Some(
            Request::Consumer(ConsumerRequest::UseDevice { device_id: device }),
        ),
        ConsumerCommands::Scrcpy { device, args } => Some(
            Request::Consumer(ConsumerRequest::StartScrCpy { device_id: device, args }),
        ),
        ConsumerCommands::StopScrcpy { device } => Some(
            Request::Consumer(ConsumerRequest::StopScrCpy { device_id: device }),
        ),
        ConsumerCommands::SetScrcpyArgs(args) => Some(
            Request::Consumer(ConsumerRequest::SetScrCpyDefaults { args }),
        ),
        ConsumerCommands::GetScrcpyArgs => Some(
            Request::Consumer(ConsumerRequest::GetScrCpyDefaults),
        ),
        ConsumerCommands::ScrcpyShortcuts => None,
    }
}

/// The manual-page job a command asks for, if any: the directory to
/// place the page in, or `None` inside for the executable's own
/// directory. Writing the page is the host binary's work.
pub fn setup_mangen(command: &Commands) -> (r: Option<Option<String>>)
    ensures
        match command {
            Commands::Mangen { path } => r matches Some(p) && (match (p, path) {
                (Some(a), Some(b)) => a@ == b@,
                (None, None) => true,
                _ => false,
            }),
            _ => r is None,
        },
{
    match command {
        Commands::Mangen { path } => match path {
            Some(p) => Some(Some(p.clone())),
            None => Some(None),
        },
        _ => None,
    }
}

/// What the engine answers for the commands the host does not keep to
/// itself. The host-side commands (starting the listener, writing the
/// manual page) get the generic not-served response here.
pub open spec fn command_response_ok(
    command: Commands,
    pre: SysState,
    post: SysState,
    r: Response,
) -> bool {
    match command {
        Commands::Init => post == pre && (r matches Response::System(
            SysStateResponse::RequestProcessingError { kind, .. },
        ) && kind == crate::errors::MarketError::NotSupported),
        Commands::Status => post == pre && (r matches Response::System(
            SysStateResponse::Status { state: st },
        ) && st.market_maker_active == (pre.market_maker is Some) && st.supplier_active == (
        pre.supplier is Some) && st.consumer_active == (pre.consumer is Some)),
        Commands::Shutdown => post.market_maker is None && post.supplier is None
            && post.consumer is None && r == Response::System(SysStateResponse::ShutdownSuccess),
        Commands::GetNetworkId => post == pre && (r matches Response::System(
            SysStateResponse::PeerId { peer_id },
        ) && peer_id@ == pre.peer_id@),
        Commands::Check => post == pre && (r matches Response::System(
            SysStateResponse::SystemCheck { adb, scrcpy },
        ) && adb == pre.adb_present && scrcpy == pre.scrcpy_present),
        Commands::SetAdbPath { path } => post.same_roles(pre) && (post.adb_path matches Some(p)
            && p@ == path@) && r == Response::System(SysStateResponse::AdbPathSet),
        Commands::SetScrcpyPath { path } => post.same_roles(pre) && (
        post.scrcpy_path matches Some(p) && p@ == path@) && r == Response::System(
            SysStateResponse::ScrcpyPathSet,
        ),
        Commands::Mangen { .. } => post == pre && (r matches Response::System(
            SysStateResponse::RequestProcessingError { kind, .. },
        ) && kind == crate::errors::MarketError::NotSupported),
        Commands::Marketmaker(cmd) => MarketMakerProcessor::process_ok(cmd, pre, post, r),
        Commands::Supplier(cmd) => SupplierProcessor::process_ok(cmd, pre, post, r),
        Commands::Consumer(cmd) => ConsumerProcessor::process_ok(cmd, pre, post, r),
    }
}

/// Route one command to the engine and hand its response back.
pub fn process_command(command: Commands, state: &mut SysState) -> (r: Response)
    requires
        old(state).wf(),
    ensures
        final(state).wf(),
        final(state).peer_id == old(state).peer_id,
        command_response_ok(command, *old(state), *final(state), r),
{
    match command {
        Commands::Init => Response::System(
            SysStateResponse::RequestProcessingError {
                kind: crate::errors::MarketError::NotSupported,
                reason: crate::errors::MarketError::NotSupported.describe().to_owned(),
            },
        ),
        Commands::Status => state.handle_system(SysStateRequest::GetState),
        Commands::Shutdown => state.handle_system(SysStateRequest::Shutdown),
        Commands::GetNetworkId => state.handle_system(SysStateRequest::GetPeerId),
        Commands::Check => state.handle_system(SysStateRequest::SystemCheck),
        Commands::SetAdbPath { path } => state.handle_system(
            SysStateRequest::SetAdbPath { adb_path: path },
        ),
        Commands::SetScrcpyPath { path } => state.handle_system(
            SysStateRequest::SetScrcpyPath { scrcpy_path: path },
        ),
        Commands::Mangen { .. } => Response::System(
            SysStateResponse::RequestProcessingError {
                kind: crate::errors::MarketError::NotSupported,
                reason: crate::errors::MarketError::NotSupported.describe().to_owned(),
            },
        ),
        Commands::Marketmaker(cmd) => subcommand_execution::<
            MarketMakerCommands,
            crate::processors::MarketMakerProcessor,
        >(cmd, state),
        Commands::Supplier(cmd) => subcommand_execution::<
            SupplierCommands,
            crate::processors::SupplierProcessor,
        >(cmd, state),
        Commands::Consumer(cmd) => subcommand_execution::<
            ConsumerCommands,
            crate::processors::ConsumerProcessor,
        >(cmd, state),
    }
}

/// Run one subcommand through its processor, with the processor's
/// whole guarantee carried through.
pub fn subcommand_execution<T, P: crate::processors::Processable<T>>(
    command: T,
    state: &mut SysState,
) -> (r: Response)
    requires
        old(state).wf(),
    ensures
        final(state).wf(),
        final(state).peer_id == old(state).peer_id,
        P::process_ok(command, *old(state), *final(state), r),
{
    P::process(command, state)
}

/// Run one command against the engine: the mandatory version handshake
/// first, then the command itself. A failed handshake reaches no role
/// logic.
pub fn execute_command(command: Commands, state: &mut SysState) -> (r: Response)
    requires
        old(state).wf(),
    ensures
        final(state).wf(),
        final(state).peer_id == old(state).peer_id,
        command_response_ok(command, *old(state), *final(state), r),
{
    let check = state.send_request(
        Request::System(SysStateRequest::CheckVersion { version: adborc_version() }),
    );
    match check {
        Response::System(SysStateResponse::ClientOk) => process_command(command, state),
        // the engine always accepts its own build's version
        _ => {
            proof {
                assert(false);
            }
            check
        },
    }
}

} // verus!
