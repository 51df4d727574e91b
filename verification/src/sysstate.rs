//! The role orchestrator: one node's process-wide state, holding zero
//! or more concurrently active roles (MarketMaker, Supplier, Consumer)
//! and routing each request to the right engine. Roles on this node
//! attach to the MarketMaker role hosted here; a remote peer's
//! attachment arrives through the listener, which drives the same
//! engine entry points with that peer's identity. All I/O — the
//! listener itself, the device-debugging and mirroring tools, path and
//! identity persistence — lives in the host process, which hands the
//! engine plain values (`local_devices`, the collaborator presence
//! flags) and carries its decisions out.

use vstd::prelude::*;
use crate::consumer::ConsumerState;
use crate::device::{announced_id, unleased, Device, DeviceView};
use crate::errors::MarketError;
use crate::marketmaker::{
    has_supplier, supplier_views, supply_conflict, supply_fold, MarketMakerState,
};
use crate::whitelist::Whitelist;
use crate::protocol::{
    spec_version, version_supported, ConsumerRequest, ConsumerResponse, MarketMakerRequest,
    MarketMakerResponse, Request, Response, SupplierRequest, SupplierResponse, SysStateRequest,
    SysStateResponse, SystemStatus,
};
use crate::registry::{device_views, has_device};
use crate::scrcpy::{get_scrcpy_args, ScrcpyArgs};
use crate::strlist::is_member;
use crate::supplier::SupplierState;
use crate::whitelist::WhitelistRole;

verus! {

/// One node's whole state.
pub struct SysState {
    /// This node's stable peer identity, generated and persisted by
    /// the host process.
    pub peer_id: String,
    /// Where the device-debugging tool lives, when not on the path.
    pub adb_path: Option<String>,
    /// Where the mirroring tool lives, when not on the path.
    pub scrcpy_path: Option<String>,
    /// Whether the host process found the device-debugging tool.
    pub adb_present: bool,
    /// Whether the host process found the mirroring tool.
    pub scrcpy_present: bool,
    /// The locally attached devices, as last scanned by the host
    /// process through the device-debugging tool.
    pub local_devices: Vec<Device>,
    pub market_maker: Option<MarketMakerState>,
    pub supplier: Option<SupplierState>,
    pub consumer: Option<ConsumerState>,
}

/// The whole behaviour of [`SysState::handle_system`], request by
/// request: which response comes back and how the node changed.
pub open spec fn system_response_ok(
    req: SysStateRequest,
    pre: SysState,
    post: SysState,
    r: Response,
) -> bool {
    &&& post.peer_id == pre.peer_id
    &&& match req {
            SysStateRequest::GetState => post == pre && (r matches
                Response::System(SysStateResponse::Status { state })
                && state.market_maker_active == (pre.market_maker is Some)
                && state.supplier_active == (pre.supplier is Some)
                && state.consumer_active == (pre.consumer is Some)),
            SysStateRequest::GetPeerId => post == pre && (r matches
                Response::System(SysStateResponse::PeerId { peer_id }) && peer_id@ == pre.peer_id@),
            SysStateRequest::SystemCheck => post == pre && (r matches
                Response::System(SysStateResponse::SystemCheck { adb, scrcpy }) && adb == pre.adb_present && scrcpy == pre.scrcpy_present),
            SysStateRequest::CheckVersion { version } => post == pre && (if
                version@ == spec_version() {
                r == Response::System(SysStateResponse::ClientOk)
            } else {
                r matches Response::System(SysStateResponse::ClientError { .. })
            }),
            SysStateRequest::SetAdbPath { adb_path } => post.same_roles(pre) && (
            post.adb_path matches Some(p) && p@ == adb_path@) && r == Response::System(
                SysStateResponse::AdbPathSet,
            ),
            SysStateRequest::SetScrcpyPath { scrcpy_path } => post.same_roles(pre)
                && (post.scrcpy_path matches Some(p) && p@ == scrcpy_path@) && r
                == Response::System(SysStateResponse::ScrcpyPathSet),
            SysStateRequest::Shutdown => post.market_maker is None && post.supplier is None && post.consumer is None && r == Response::System(
                SysStateResponse::ShutdownSuccess,
            ),
            SysStateRequest::StartMarketMaker => (match pre.market_maker {
                Some(_) => post == pre && (r matches Response::System(
                    SysStateResponse::RequestProcessingError { kind, .. },
                ) && kind == MarketError::AlreadyRunning),
                None => post.same_node(pre) && post.supplier == pre.supplier && post.consumer == pre.consumer && (post.market_maker matches Some(m) && m.registry@.len() == 0
                    && m.tunnels@.tunnels.len() == 0 && !m.whitelist.spec_enabled()
                    && m.suppliers@.len() == 0 && m.consumers@.len() == 0 && (forall|
                    role: WhitelistRole,
                    q: Seq<char>,
                | !m.whitelist.spec_member(role, q))) && r
                    == Response::System(SysStateResponse::MarketMakerStarted),
            }),
            SysStateRequest::StopMarketMaker => (match pre.market_maker {
                None => post == pre && (r matches Response::System(
                    SysStateResponse::RequestProcessingError { kind, .. },
                ) && kind == MarketError::NotRunning),
                Some(_) => post.same_node(pre) && post.market_maker is None && post.supplier is None && post.consumer is None && r == Response::System(
                    SysStateResponse::MarketMakerStopped,
                ),
            }),
            SysStateRequest::StartSupplier { mm_host, mm_port, name, secure_comms } => if pre.supplier is Some {
                post == pre && (r matches Response::System(
                    SysStateResponse::RequestProcessingError { kind, .. },
                ) && kind == MarketError::AlreadyRunning)
            } else if pre.market_maker is None {
                post == pre && (r matches Response::System(
                    SysStateResponse::RequestProcessingError { kind, .. },
                ) && kind == MarketError::ConnectionRefused)
            } else if !(pre.market_maker->0).whitelist.spec_is_admitted(
                WhitelistRole::Supplier,
                pre.peer_id@,
            ) {
                post.same_node(pre) && post.supplier is None && post.market_maker == pre.market_maker && (r matches Response::System(
                    SysStateResponse::RequestProcessingError { kind, .. },
                ) && kind == MarketError::NotWhitelisted)
            } else if has_supplier(
                supplier_views((pre.market_maker->0).suppliers@),
                pre.peer_id@,
            ) {
                post.same_node(pre) && post.supplier is None && post.market_maker == pre.market_maker && (r matches Response::System(
                    SysStateResponse::RequestProcessingError { kind, .. },
                ) && kind == MarketError::AlreadyRunning)
            } else {
                post.same_node(pre) && (post.supplier matches Some(s)
                    && s.secure == secure_comms && s.mm_host@ == mm_host@ && s.mm_port
                    == mm_port && s.name@ == (match name {
                    Some(n) => n@,
                    None => pre.peer_id@,
                })) && (post.market_maker matches Some(m) && has_supplier(
                    supplier_views(m.suppliers@),
                    pre.peer_id@,
                ) && m.registry@ == (pre.market_maker->0).registry@) && r
                    == Response::System(SysStateResponse::SupplierStarted)
            },
            SysStateRequest::StopSupplier => (match pre.supplier {
                None => post == pre && (r matches Response::System(
                    SysStateResponse::RequestProcessingError { kind, .. },
                ) && kind == MarketError::NotRunning),
                Some(_) => post.same_node(pre) && post.supplier is None
                    && post.consumer == pre.consumer && (pre.market_maker is None
                    ==> post.market_maker is None) && (pre.market_maker matches Some(m) ==> (post.market_maker matches Some(m2)
                    && m2.registry@ == m.registry@.filter(
                    crate::registry::not_supplied_by_pred(pre.peer_id@),
                ))) && r == Response::System(SysStateResponse::SupplierStopped),
            }),
            SysStateRequest::StartConsumer { mm_host, mm_port, name } => if pre.consumer is Some {
                post == pre && (r matches Response::System(
                    SysStateResponse::RequestProcessingError { kind, .. },
                ) && kind == MarketError::AlreadyRunning)
            } else if pre.market_maker is None {
                post == pre && (r matches Response::System(
                    SysStateResponse::RequestProcessingError { kind, .. },
                ) && kind == MarketError::ConnectionRefused)
            } else if !(pre.market_maker->0).whitelist.spec_is_admitted(
                WhitelistRole::Consumer,
                pre.peer_id@,
            ) {
                post.same_node(pre) && post.consumer is None && post.market_maker == pre.market_maker && (r matches Response::System(
                    SysStateResponse::RequestProcessingError { kind, .. },
                ) && kind == MarketError::NotWhitelisted)
            } else if is_member((pre.market_maker->0).consumers@, pre.peer_id@) {
                post.same_node(pre) && post.consumer is None && post.market_maker == pre.market_maker && (r matches Response::System(
                    SysStateResponse::RequestProcessingError { kind, .. },
                ) && kind == MarketError::AlreadyRunning)
            } else {
                post.same_node(pre) && (post.consumer matches Some(c)
                    && c.mm_host@ == mm_host@ && c.mm_port == mm_port && c.leases@.len() == 0
                    && c.name@ == (match name {
                    Some(n) => n@,
                    None => pre.peer_id@,
                })) && (post.market_maker matches Some(m) && is_member(
                    m.consumers@,
                    pre.peer_id@,
                ) && m.registry@ == (pre.market_maker->0).registry@) && r
                    == Response::System(SysStateResponse::ConsumerStarted)
            },
            SysStateRequest::StopConsumer => (match pre.consumer {
                None => post == pre && (r matches Response::System(
                    SysStateResponse::RequestProcessingError { kind, .. },
                ) && kind == MarketError::NotRunning),
                Some(_) => post.same_node(pre) && post.consumer is None
                    && post.supplier == pre.supplier && (pre.market_maker is None
                    ==> post.market_maker is None) && (pre.market_maker matches Some(m) ==> (post.market_maker matches Some(m2)
                    && m2.registry@.len() == m.registry@.len() && (forall|k: int|
                    0 <= k < m.registry@.len() ==> m2.registry@[k] == (
                    if m.registry@[k].lessee_id == Some(pre.peer_id@) {
                        unleased(m.registry@[k])
                    } else {
                        m.registry@[k]
                    })))) && r == Response::System(SysStateResponse::ConsumerStopped),
            }),
    }
}

/// The whole behaviour of [`SysState::handle_marketmaker`]: the
/// node itself and the other roles stand still; with no MarketMaker
/// running, the namespace error comes back and nothing moves; with
/// one running, each request gets its exact answer.
pub open spec fn marketmaker_response_ok(
    req: MarketMakerRequest,
    pre: SysState,
    post: SysState,
    r: Response,
) -> bool {
    &&& post.same_node(pre)
    &&& post.supplier == pre.supplier
    &&& post.consumer == pre.consumer
    &&& (pre.market_maker is None ==> post == pre && (r matches Response::MarketMaker(
        MarketMakerResponse::Error { kind, .. },
    ) && kind == MarketError::NotRunning))
    &&& (pre.market_maker is Some ==> (post.market_maker matches Some(m) && {
        let m0 = pre.market_maker->0;
        match req {
                MarketMakerRequest::Status => post == pre && (r matches
                    Response::MarketMaker(
                    MarketMakerResponse::Status {
                        devices,
                        suppliers,
                        consumers,
                        whitelist_enabled,
                    },
                ) && devices == m0.registry@.len() && suppliers == m0.suppliers@.len()
                    && consumers == m0.consumers@.len() && whitelist_enabled
                    == m0.whitelist.spec_enabled()),
                MarketMakerRequest::UseWhitelist => m.only_whitelist_changed(m0) && m.whitelist
                    == (Whitelist { enabled: true, ..m0.whitelist }) && r
                    == Response::MarketMaker(MarketMakerResponse::WhitelistingOn),
                MarketMakerRequest::ResetWhitelist => m.only_whitelist_changed(m0)
                    && m.whitelist == (Whitelist { enabled: false, ..m0.whitelist }) && r
                    == Response::MarketMaker(MarketMakerResponse::WhitelistingOff),
                MarketMakerRequest::WhitelistSupplier { key } => m.only_whitelist_changed(m0)
                    && m.whitelist.spec_enabled() == m0.whitelist.spec_enabled() && (forall|
                    q: Seq<char>,
                |
                    m.whitelist.spec_member(WhitelistRole::Supplier, q) <==> (
                    m0.whitelist.spec_member(WhitelistRole::Supplier, q) || q == key@)) && (
                forall|q: Seq<char>|
                    m.whitelist.spec_member(WhitelistRole::Consumer, q)
                        == m0.whitelist.spec_member(WhitelistRole::Consumer, q)) && r
                    == Response::MarketMaker(MarketMakerResponse::SupplierWhitelisted),
                MarketMakerRequest::UnwhitelistSupplier { key } => m.only_whitelist_changed(m0)
                    && m.whitelist.spec_enabled() == m0.whitelist.spec_enabled() && (forall|
                    q: Seq<char>,
                |
                    m.whitelist.spec_member(WhitelistRole::Supplier, q) <==> (
                    m0.whitelist.spec_member(WhitelistRole::Supplier, q) && q != key@)) && (
                forall|q: Seq<char>|
                    m.whitelist.spec_member(WhitelistRole::Consumer, q)
                        == m0.whitelist.spec_member(WhitelistRole::Consumer, q)) && r
                    == Response::MarketMaker(MarketMakerResponse::SupplierUnwhitelisted),
                MarketMakerRequest::WhitelistConsumer { key } => m.only_whitelist_changed(m0)
                    && m.whitelist.spec_enabled() == m0.whitelist.spec_enabled() && (forall|
                    q: Seq<char>,
                |
                    m.whitelist.spec_member(WhitelistRole::Consumer, q) <==> (
                    m0.whitelist.spec_member(WhitelistRole::Consumer, q) || q == key@)) && (
                forall|q: Seq<char>|
                    m.whitelist.spec_member(WhitelistRole::Supplier, q)
                        == m0.whitelist.spec_member(WhitelistRole::Supplier, q)) && r
                    == Response::MarketMaker(MarketMakerResponse::ConsumerWhitelisted),
                MarketMakerRequest::UnwhitelistConsumer { key } => m.only_whitelist_changed(m0)
                    && m.whitelist.spec_enabled() == m0.whitelist.spec_enabled() && (forall|
                    q: Seq<char>,
                |
                    m.whitelist.spec_member(WhitelistRole::Consumer, q) <==> (
                    m0.whitelist.spec_member(WhitelistRole::Consumer, q) && q != key@)) && (
                forall|q: Seq<char>|
                    m.whitelist.spec_member(WhitelistRole::Supplier, q)
                        == m0.whitelist.spec_member(WhitelistRole::Supplier, q)) && r
                    == Response::MarketMaker(MarketMakerResponse::ConsumerUnwhitelisted),
        }
    }))
}

/// The whole behaviour of [`SysState::handle_supplier`]: the node
/// itself and the consumer role stand still; with no Supplier
/// running, the namespace error comes back and nothing moves; with
/// one running, each request gets its exact answer.
pub open spec fn supplier_response_ok(
    req: SupplierRequest,
    pre: SysState,
    post: SysState,
    r: Response,
) -> bool {
    &&& post.same_node(pre)
    &&& post.consumer == pre.consumer
    &&& (pre.supplier is None ==> post == pre && (r matches Response::Supplier(
        SupplierResponse::Error { kind, .. },
    ) && kind == MarketError::NotRunning))
    &&& (pre.supplier is Some ==> {
        let s0 = pre.supplier->0;
        let peer = pre.peer_id@;
        match req {
                SupplierRequest::Status => post == pre && (r matches
                    Response::Supplier(SupplierResponse::Status { name, secure, supplied })
                    && name@ == s0.name@ && secure == s0.secure && supplied@.len()
                    == s0.supplied@.len() && (forall|k: int|
                    0 <= k < supplied@.len() ==> supplied@[k]@ == s0.supplied@[k]@)),
                SupplierRequest::SupplyDevices { devices } => {
                    let sel = (match devices {
                        None => device_views(pre.local_devices@),
                        Some(ids) => device_views(pre.local_devices@).filter(
                            wanted_ids_pred(ids@),
                        ),
                    });
                    if pre.market_maker is None {
                        post == pre && (r matches Response::Supplier(
                            SupplierResponse::Error { kind, .. },
                        ) && kind == MarketError::PeerNotConnected)
                    } else {
                        let m0 = pre.market_maker->0;
                        if !has_supplier(supplier_views(m0.suppliers@), peer) {
                            post.market_maker is Some && post.supplier == pre.supplier && (r matches Response::Supplier(
                                SupplierResponse::Error { kind, .. },
                            ) && kind == MarketError::PeerNotConnected)
                        } else if supply_conflict(m0.registry@, sel, peer) {
                            post.market_maker is Some && (post.market_maker->0).registry@ == m0.registry@ && post.supplier == pre.supplier && (r matches Response::Supplier(
                                SupplierResponse::Error { kind, .. },
                            ) && kind == MarketError::DeviceOwnedElsewhere)
                        } else {
                            (post.market_maker matches Some(m) && m.registry@
                                == supply_fold(m0.registry@, sel, peer)) && (post.supplier matches Some(s2) && (forall|q: Seq<char>|
                                is_member(s2.supplied@, q) <==> (is_member(s0.supplied@, q)
                                    || announced_id(sel, sel.len() as int, q)))) && r
                                == Response::Supplier(SupplierResponse::DevicesSupplied)
                        }
                    }
                },
                SupplierRequest::ReclaimDevice { device_id, force } => {
                    if pre.market_maker is None {
                        post == pre && (r matches Response::Supplier(
                            SupplierResponse::Error { kind, .. },
                        ) && kind == MarketError::PeerNotConnected)
                    } else {
                        let m0 = pre.market_maker->0;
                        &&& (r matches Response::Supplier(
                            SupplierResponse::DeviceReclaimed { device_id: d },
                        ) ==> d@ == device_id@ && (post.market_maker matches Some(m)
                            && crate::registry::withdraw_ok(
                            m0.registry@,
                            m.registry@,
                            device_id@,
                            crate::registry::device_record(m0.registry@, device_id@),
                        ) && (force || crate::registry::device_record(
                            m0.registry@,
                            device_id@,
                        ).lessee_id is None) && (forall|q: crate::tunnel::TunnelView|
                            #[trigger] m.tunnels@.tunnels.contains(q) <==> (
                            m0.tunnels@.tunnels.contains(q) && q.device_id != device_id@)))
                            && (post.supplier matches Some(s2) && !is_member(
                            s2.supplied@,
                            device_id@,
                        )))
                        &&& (r matches Response::Supplier(SupplierResponse::Error { kind, .. })
                            ==> post.market_maker is Some && (post.market_maker->0).registry@ == m0.registry@ && post.supplier
                            == pre.supplier && (match kind {
                            MarketError::DeviceNotFound => !crate::registry::has_device(
                                m0.registry@,
                                device_id@,
                            ),
                            MarketError::DeviceOwnedElsewhere
                                => crate::registry::device_record(
                                m0.registry@,
                                device_id@,
                            ).supplier_id != peer,
                            MarketError::DeviceLeased => !force
                                && !(crate::registry::device_record(
                                m0.registry@,
                                device_id@,
                            ).lessee_id is None),
                            _ => false,
                        }))
                        &&& ((r matches Response::Supplier(
                            SupplierResponse::DeviceReclaimed { .. })) || (r matches
                        Response::Supplier(SupplierResponse::Error { .. })))
                    }
                },
        }
    })
}

/// The whole behaviour of [`SysState::handle_consumer`]: the node
/// itself and the supplier role stand still; with no Consumer
/// running, the namespace error comes back and nothing moves; with
/// one running, each request gets its exact answer.
pub open spec fn consumer_response_ok(
    req: ConsumerRequest,
    pre: SysState,
    post: SysState,
    r: Response,
) -> bool {
    &&& post.same_node(pre)
    &&& post.supplier == pre.supplier
    &&& (pre.consumer is None ==> post == pre && (r matches Response::Consumer(
        ConsumerResponse::Error { kind, .. },
    ) && kind == MarketError::NotRunning))
    &&& (pre.consumer is Some ==> {
        let c0 = pre.consumer->0;
        let peer = pre.peer_id@;
        match req {
                ConsumerRequest::Status => post.market_maker == pre.market_maker
                    && (post.consumer matches Some(c2) && (r matches Response::Consumer(
                    ConsumerResponse::Status { name, devices, using_device },
                ) && name@ == c0.name@ && device_views(devices@) == device_views(c2.leases@)
                    && using_device == c2.default_device) && (pre.market_maker matches Some(m0) ==> (forall|q: Seq<char>|
                    has_device(device_views(c2.leases@), q) <==> (has_device(
                        device_views(c0.leases@),
                        q,
                    ) && has_device(m0.registry@, q)
                        && crate::registry::device_record(m0.registry@, q).lessee_id
                        == Some(peer)))) && (pre.market_maker is None ==> device_views(
                    c2.leases@,
                ) == device_views(c0.leases@))),
                ConsumerRequest::ReserveDevice { device_id, no_use } => {
                    if pre.market_maker is None {
                        post == pre && (r matches Response::Consumer(
                            ConsumerResponse::Error { kind, .. },
                        ) && kind == MarketError::PeerNotConnected)
                    } else {
                        let m0 = pre.market_maker->0;
                        &&& (r matches Response::Consumer(
                            ConsumerResponse::DeviceReserved { device_id: d, port },
                        ) ==> d@ == device_id@ && (post.market_maker matches Some(m)
                            && crate::registry::reserve_ok(
                            m0.registry@,
                            m.registry@,
                            device_id@,
                            peer,
                            port,
                        )) && (post.consumer matches Some(c2) && has_device(
                            device_views(c2.leases@),
                            device_id@,
                        ) && crate::registry::device_record(
                            device_views(c2.leases@),
                            device_id@,
                        ).local_port == Some(port)))
                        &&& (r matches Response::Consumer(ConsumerResponse::Error { kind, .. })
                            ==> post.market_maker is Some && (post.market_maker->0).registry@ == m0.registry@ && post.consumer
                            == pre.consumer && (match kind {
                            MarketError::PeerNotConnected => !is_member(m0.consumers@, peer),
                            MarketError::DeviceNotFound => !crate::registry::has_device(
                                m0.registry@,
                                device_id@,
                            ),
                            MarketError::DeviceAlreadyLeased
                                => !(crate::registry::device_record(
                                m0.registry@,
                                device_id@,
                            ).lessee_id is None),
                            MarketError::TunnelSetupFailed => m0.tunnels@.next_port
                                == u16::MAX,
                            _ => false,
                        }))
                        &&& ((r matches Response::Consumer(
                            ConsumerResponse::DeviceReserved { .. })) || (r matches
                        Response::Consumer(ConsumerResponse::Error { .. })))
                    }
                },
                ConsumerRequest::ReleaseDevice { device_id } => {
                    if pre.market_maker is None {
                        post == pre && (r matches Response::Consumer(
                            ConsumerResponse::Error { kind, .. },
                        ) && kind == MarketError::PeerNotConnected)
                    } else {
                        let m0 = pre.market_maker->0;
                        &&& (r matches Response::Consumer(
                            ConsumerResponse::DeviceReleased { device_id: d },
                        ) ==> d@ == device_id@ && (post.market_maker matches Some(m)
                            && crate::registry::release_ok(
                            m0.registry@,
                            m.registry@,
                            device_id@,
                            peer,
                        )) && (post.consumer matches Some(c2) && !has_device(
                            device_views(c2.leases@),
                            device_id@,
                        )))
                        &&& (r matches Response::Consumer(ConsumerResponse::Error { kind, .. })
                            ==> post.market_maker is Some && (post.market_maker->0).registry@ == m0.registry@ && post.consumer
                            == pre.consumer && (match kind {
                            MarketError::DeviceNotFound => !crate::registry::has_device(
                                m0.registry@,
                                device_id@,
                            ),
                            MarketError::NotLeasedByCaller => crate::registry::device_record(
                                m0.registry@,
                                device_id@,
                            ).lessee_id != Some(peer),
                            _ => false,
                        }))
                        &&& ((r matches Response::Consumer(
                            ConsumerResponse::DeviceReleased { .. })) || (r matches
                        Response::Consumer(ConsumerResponse::Error { .. })))
                    }
                },
                ConsumerRequest::ReleaseAllDevices => (post.consumer matches Some(c2)
                    && c2.leases@.len() == 0) && (pre.market_maker matches Some(m0) ==> (post.market_maker matches Some(m)
                    && m.registry@.len() == m0.registry@.len() && (forall|k: int|
                    0 <= k < m0.registry@.len() ==> m.registry@[k] == (
                    if m0.registry@[k].lessee_id == Some(peer) {
                        unleased(m0.registry@[k])
                    } else {
                        m0.registry@[k]
                    })))) && r == Response::Consumer(ConsumerResponse::AllDevicesReleased),
                ConsumerRequest::GetAvailableDevices => post == pre && (match
                    pre.market_maker {
                    None => r matches Response::Consumer(ConsumerResponse::Error { kind, .. })
                        && kind == MarketError::PeerNotConnected,
                    Some(m0) => r matches Response::Consumer(
                        ConsumerResponse::AvailableDevices { devices },
                    ) && device_views(devices@) == m0.registry@.filter(
                        crate::registry::available_pred(),
                    ),
                }),
                ConsumerRequest::GetDevicesByFilter { filter_vec } => post == pre
                    && (match pre.market_maker {
                    None => r matches Response::Consumer(ConsumerResponse::Error { kind, .. })
                        && kind == MarketError::PeerNotConnected,
                    Some(m0) => r matches Response::Consumer(
                        ConsumerResponse::Devices { devices },
                    ) && device_views(devices@) == m0.registry@.filter(
                        crate::registry::filtered_pred(
                            crate::device::filter_views(filter_vec.filters@),
                        ),
                    ),
                }),
                ConsumerRequest::UseDevice { device_id } => post.market_maker == pre.market_maker && (if has_device(device_views(c0.leases@), device_id@) {
                    (post.consumer matches Some(c2) && c2.default_device == Some(
                        device_id,
                    ) && c2.leases == c0.leases) && (r matches Response::Consumer(
                        ConsumerResponse::DefaultDeviceSet { device_id: d },
                    ) && d@ == device_id@)
                } else {
                    post.consumer == pre.consumer && (r matches Response::Consumer(
                        ConsumerResponse::Error { kind, .. },
                    ) && kind == MarketError::NotLeasedByCaller)
                }),
                ConsumerRequest::StartScrCpy { device_id, args } => post == pre
                    && (if !has_device(device_views(c0.leases@), device_id@) {
                    r matches Response::Consumer(ConsumerResponse::Error { kind, .. }) && kind
                        == MarketError::DeviceNotLeased
                } else if crate::registry::device_record(
                    device_views(c0.leases@),
                    device_id@,
                ).local_port is None {
                    r matches Response::Consumer(ConsumerResponse::Error { kind, .. }) && kind
                        == MarketError::TunnelSetupFailed
                } else {
                    r matches Response::Consumer(
                        ConsumerResponse::ScrCpyStarted { device_id: d, port, args: a },
                    ) && d@ == device_id@ && Some(port) == crate::registry::device_record(
                        device_views(c0.leases@),
                        device_id@,
                    ).local_port && a.max_size == (match args.max_size {
                        Some(v) => v,
                        None => c0.scrcpy_defaults.max_size,
                    }) && a.bit_rate == (match args.bit_rate {
                        Some(v) => v,
                        None => c0.scrcpy_defaults.bit_rate,
                    }) && a.max_fps == (match args.max_fps {
                        Some(v) => v,
                        None => c0.scrcpy_defaults.max_fps,
                    }) && a.fullscreen == (args.fullscreen || c0.scrcpy_defaults.fullscreen)
                        && a.no_control == (args.no_control || c0.scrcpy_defaults.no_control)
                        && (match (args.record_file, a.record_file, c0.scrcpy_defaults.record_file) {
                        (Some(x), Some(y), _) => x@ == y@,
                        (None, Some(y), Some(b)) => y@ == b@,
                        (None, None, None) => true,
                        _ => false,
                    })
                }),
                ConsumerRequest::StopScrCpy { device_id } => post == pre && (if
                    has_device(device_views(c0.leases@), device_id@) {
                    r matches Response::Consumer(
                        ConsumerResponse::ScrCpyStopped { device_id: d },
                    ) && d@ == device_id@
                } else {
                    r matches Response::Consumer(ConsumerResponse::Error { kind, .. }) && kind
                        == MarketError::DeviceNotLeased
                }),
                ConsumerRequest::SetScrCpyDefaults { args } => post.market_maker == pre.market_maker && (post.consumer matches Some(c2) && c2.leases == c0.leases
                    && c2.default_device == c0.default_device
                    && c2.scrcpy_defaults.max_size == (match args.max_size {
                        Some(v) => v,
                        None => 0,
                    }) && c2.scrcpy_defaults.bit_rate == (match args.bit_rate {
                        Some(v) => v,
                        None => crate::scrcpy::DEFAULT_BIT_RATE,
                    }) && c2.scrcpy_defaults.max_fps == (match args.max_fps {
                        Some(v) => v,
                        None => 0,
                    }) && c2.scrcpy_defaults.fullscreen == args.fullscreen
                    && c2.scrcpy_defaults.no_control == args.no_control && (match (
                    args.record_file,
                    c2.scrcpy_defaults.record_file,
                ) {
                        (Some(x), Some(y)) => x@ == y@,
                        (None, None) => true,
                        _ => false,
                    })) && r == Response::Consumer(ConsumerResponse::ScrCpyDefaultsSet),
                ConsumerRequest::GetScrCpyDefaults => post == pre && (r matches
                    Response::Consumer(ConsumerResponse::ScrCpyDefaults { args })
                    && args.max_size == c0.scrcpy_defaults.max_size && args.bit_rate
                    == c0.scrcpy_defaults.bit_rate && args.max_fps == c0.scrcpy_defaults.max_fps
                    && args.fullscreen == c0.scrcpy_defaults.fullscreen && args.no_control
                    == c0.scrcpy_defaults.no_control && (match (
                    c0.scrcpy_defaults.record_file,
                    args.record_file,
                ) {
                        (Some(x), Some(y)) => x@ == y@,
                        (None, None) => true,
                        _ => false,
                    })),
        }
    })
}

impl SysState {
    /// Every active role is well formed.
    pub open spec fn wf(self) -> bool {
        &&& (self.market_maker matches Some(m) ==> m.wf())
        &&& (self.supplier matches Some(s) ==> s.wf())
        &&& (self.consumer matches Some(c) ==> c.wf())
    }

    /// Roles untouched.
    pub open spec fn same_roles(self, pre: SysState) -> bool {
        &&& self.market_maker == pre.market_maker
        &&& self.supplier == pre.supplier
        &&& self.consumer == pre.consumer
    }

    /// Everything but the roles untouched.
    pub open spec fn same_node(self, pre: SysState) -> bool {
        &&& self.peer_id == pre.peer_id
        &&& self.adb_path == pre.adb_path
        &&& self.scrcpy_path == pre.scrcpy_path
        &&& self.adb_present == pre.adb_present
        &&& self.scrcpy_present == pre.scrcpy_present
        &&& self.local_devices == pre.local_devices
    }

    /// A fresh node: no role active, no paths set, nothing scanned.
    pub fn new(peer_id: String) -> (s: SysState)
        ensures
            s.wf(),
            s.peer_id == peer_id,
            s.market_maker is None,
            s.supplier is None,
            s.consumer is None,
            s.adb_path is None,
            s.scrcpy_path is None,
            !s.adb_present,
            !s.scrcpy_present,
            s.local_devices@.len() == 0,
    {
        SysState {
            peer_id,
            adb_path: None,
            scrcpy_path: None,
            adb_present: false,
            scrcpy_present: false,
            local_devices: Vec::new(),
            market_maker: None,
            supplier: None,
            consumer: None,
        }
    }

    /// Replace the scan of locally attached devices. The host process
    /// calls this after each enumeration through the debugging tool.
    pub fn set_local_devices(&mut self, devices: Vec<Device>)
        requires
            old(self).wf(),
        ensures
            final(self).wf(),
            final(self).local_devices == devices,
            final(self).same_roles(*old(self)),
            final(self).peer_id == old(self).peer_id,
    {
        self.local_devices = devices;
    }

    /// Note which external collaborators the host process found.
    pub fn set_collaborators(&mut self, adb: bool, scrcpy: bool)
        requires
            old(self).wf(),
        ensures
            final(self).wf(),
            final(self).adb_present == adb,
            final(self).scrcpy_present == scrcpy,
            final(self).same_roles(*old(self)),
            final(self).peer_id == old(self).peer_id,
    {
        self.adb_present = adb;
        self.scrcpy_present = scrcpy;
    }

    /// Handle a system-level request: node facts, the version
    /// handshake, and role start/stop.
    pub fn handle_system(&mut self, req: SysStateRequest) -> (r: Response)
        requires
            old(self).wf(),
        ensures
            final(self).wf(),
            system_response_ok(req, *old(self), *final(self), r),
    {
        match req {
            SysStateRequest::GetState => Response::System(
                SysStateResponse::Status {
                    state: SystemStatus {
                        market_maker_active: self.market_maker.is_some(),
                        supplier_active: self.supplier.is_some(),
                        consumer_active: self.consumer.is_some(),
                    },
                },
            ),
            SysStateRequest::GetPeerId => Response::System(
                SysStateResponse::PeerId { peer_id: self.peer_id.clone() },
            ),
            SysStateRequest::SystemCheck => Response::System(
                SysStateResponse::SystemCheck {
                    adb: self.adb_present,
                    scrcpy: self.scrcpy_present,
                },
            ),
            SysStateRequest::CheckVersion { version } => {
                if version_supported(&version) {
                    Response::System(SysStateResponse::ClientOk)
                } else {
                    Response::System(
                        SysStateResponse::ClientError {
                            reason: MarketError::VersionMismatch.describe().to_owned(),
                        },
                    )
                }
            },
            SysStateRequest::SetAdbPath { adb_path } => {
                self.adb_path = Some(adb_path);
                Response::System(SysStateResponse::AdbPathSet)
            },
            SysStateRequest::SetScrcpyPath { scrcpy_path } => {
                self.scrcpy_path = Some(scrcpy_path);
                Response::System(SysStateResponse::ScrcpyPathSet)
            },
            SysStateRequest::Shutdown => {
                self.stop_roles();
                Response::System(SysStateResponse::ShutdownSuccess)
            },
            SysStateRequest::StartMarketMaker => {
                if self.market_maker.is_some() {
                    return self.system_error(MarketError::AlreadyRunning);
                }
                self.market_maker = Some(MarketMakerState::new());
                Response::System(SysStateResponse::MarketMakerStarted)
            },
            SysStateRequest::StopMarketMaker => {
                if self.market_maker.is_none() {
                    return self.system_error(MarketError::NotRunning);
                }
                self.stop_roles();
                Response::System(SysStateResponse::MarketMakerStopped)
            },
            SysStateRequest::StartSupplier { mm_host, mm_port, name, secure_comms } => {
                if self.supplier.is_some() {
                    return self.system_error(MarketError::AlreadyRunning);
                }
                let peer = self.peer_id.clone();
                let display = match name {
                    Some(n) => n,
                    None => self.peer_id.clone(),
                };
                match &mut self.market_maker {
                    None => self.system_error(MarketError::ConnectionRefused),
                    Some(mm) => {
                        match mm.attach_supplier(peer, display.clone(), secure_comms) {
                            Err(e) => self.system_error(e),
                            Ok(()) => {
                                proof {
                                    let vs = supplier_views(mm.suppliers@);
                                    assert(vs[vs.len() - 1].peer_id == old(self).peer_id@);
                                    assert(has_supplier(vs, old(self).peer_id@));
                                }
                                self.supplier = Some(
                                    SupplierState::new(mm_host, mm_port, display, secure_comms),
                                );
                                Response::System(SysStateResponse::SupplierStarted)
                            },
                        }
                    },
                }
            },
            SysStateRequest::StopSupplier => {
                if self.supplier.is_none() {
                    return self.system_error(MarketError::NotRunning);
                }
                let peer = self.peer_id.clone();
                match &mut self.market_maker {
                    None => {},
                    Some(mm) => {
                        let _removed = mm.detach_supplier(&peer);
                    },
                }
                self.supplier = None;
                Response::System(SysStateResponse::SupplierStopped)
            },
            SysStateRequest::StartConsumer { mm_host, mm_port, name } => {
                if self.consumer.is_some() {
                    return self.system_error(MarketError::AlreadyRunning);
                }
                let peer = self.peer_id.clone();
                let display = match name {
                    Some(n) => n,
                    None => self.peer_id.clone(),
                };
                match &mut self.market_maker {
                    None => self.system_error(MarketError::ConnectionRefused),
                    Some(mm) => {
                        match mm.attach_consumer(peer) {
                            Err(e) => self.system_error(e),
                            Ok(()) => {
                                proof {
                                    assert(mm.consumers@[mm.consumers@.len() - 1]@ == old(self).peer_id@);
                                    assert(is_member(mm.consumers@, old(self).peer_id@));
                                }
                                self.consumer = Some(ConsumerState::new(mm_host, mm_port, display));
                                Response::System(SysStateResponse::ConsumerStarted)
                            },
                        }
                    },
                }
            },
            SysStateRequest::StopConsumer => {
                if self.consumer.is_none() {
                    return self.system_error(MarketError::NotRunning);
                }
                let peer = self.peer_id.clone();
                match &mut self.market_maker {
                    None => {},
                    Some(mm) => {
                        mm.detach_consumer(&peer);
                    },
                }
                self.consumer = None;
                Response::System(SysStateResponse::ConsumerStopped)
            },
        }
    }

    /// Stop every active role, agents first, so the market releases
    /// and withdraws what they own. Stopping the MarketMaker takes the
    /// whole hosted network down, so the local Supplier and Consumer
    /// sessions — attached to that market — end with it; the roles
    /// themselves stay independently startable afterwards.
    fn stop_roles(&mut self)
        requires
            old(self).wf(),
        ensures
            final(self).wf(),
            final(self).same_node(*old(self)),
            final(self).market_maker is None,
            final(self).supplier is None,
            final(self).consumer is None,
    {
        let peer = self.peer_id.clone();
        match &mut self.market_maker {
            None => {},
            Some(mm) => {
                if self.consumer.is_some() {
                    mm.detach_consumer(&peer);
                }
                if self.supplier.is_some() {
                    let _removed = mm.detach_supplier(&peer);
                }
            },
        }
        self.consumer = None;
        self.supplier = None;
        self.market_maker = None;
    }

    /// A system-namespace error response; the state is untouched.
    fn system_error(&self, kind: MarketError) -> (r: Response)
        ensures
            r matches Response::System(SysStateResponse::RequestProcessingError { kind: k, .. })
                && k == kind,
    {
        Response::System(
            SysStateResponse::RequestProcessingError {
                kind,
                reason: kind.describe().to_owned(),
            },
        )
    }

    /// A MarketMaker-namespace error response; the state is untouched.
    fn market_error(&self, kind: MarketError) -> (r: Response)
        ensures
            r matches Response::MarketMaker(MarketMakerResponse::Error { kind: k, .. }) && k
                == kind,
    {
        Response::MarketMaker(
            MarketMakerResponse::Error { kind, reason: kind.describe().to_owned() },
        )
    }

    /// A Supplier-namespace error response; the state is untouched.
    fn supplier_error(&self, kind: MarketError) -> (r: Response)
        ensures
            r matches Response::Supplier(SupplierResponse::Error { kind: k, .. }) && k == kind,
    {
        Response::Supplier(SupplierResponse::Error { kind, reason: kind.describe().to_owned() })
    }

    /// A Consumer-namespace error response; the state is untouched.
    fn consumer_error(&self, kind: MarketError) -> (r: Response)
        ensures
            r matches Response::Consumer(ConsumerResponse::Error { kind: k, .. }) && k == kind,
    {
        Response::Consumer(ConsumerResponse::Error { kind, reason: kind.describe().to_owned() })
    }

    /// Handle a request to the MarketMaker role hosted here.
    pub fn handle_marketmaker(&mut self, req: MarketMakerRequest) -> (r: Response)
        requires
            old(self).wf(),
        ensures
            final(self).wf(),
            marketmaker_response_ok(req, *old(self), *final(self), r),
    {
        match &mut self.market_maker {
            None => self.market_error(MarketError::NotRunning),
            Some(mm) => match req {
                MarketMakerRequest::Status => Response::MarketMaker(
                    MarketMakerResponse::Status {
                        devices: mm.registry.len(),
                        suppliers: mm.suppliers.len(),
                        consumers: mm.consumers.len(),
                        whitelist_enabled: mm.whitelist.is_enabled(),
                    },
                ),
                MarketMakerRequest::UseWhitelist => {
                    mm.use_whitelist();
                    Response::MarketMaker(MarketMakerResponse::WhitelistingOn)
                },
                MarketMakerRequest::ResetWhitelist => {
                    mm.reset_whitelist();
                    Response::MarketMaker(MarketMakerResponse::WhitelistingOff)
                },
                MarketMakerRequest::WhitelistSupplier { key } => {
                    mm.whitelist_supplier(key);
                    Response::MarketMaker(MarketMakerResponse::SupplierWhitelisted)
                },
                MarketMakerRequest::UnwhitelistSupplier { key } => {
                    mm.unwhitelist_supplier(&key);
                    Response::MarketMaker(MarketMakerResponse::SupplierUnwhitelisted)
                },
                MarketMakerRequest::WhitelistConsumer { key } => {
                    mm.whitelist_consumer(key);
                    Response::MarketMaker(MarketMakerResponse::ConsumerWhitelisted)
                },
                MarketMakerRequest::UnwhitelistConsumer { key } => {
                    mm.unwhitelist_consumer(&key);
                    Response::MarketMaker(MarketMakerResponse::ConsumerUnwhitelisted)
                },
            },
        }
    }

    /// Handle a request to the Supplier role hosted here.
    pub fn handle_supplier(&mut self, req: SupplierRequest) -> (r: Response)
        requires
            old(self).wf(),
        ensures
            final(self).wf(),
            supplier_response_ok(req, *old(self), *final(self), r),
    {
        if self.supplier.is_none() {
            return self.supplier_error(MarketError::NotRunning);
        }
        match req {
            SupplierRequest::Status => {
                let (name, secure, supplied) = match &self.supplier {
                    Some(s) => (s.name.clone(), s.secure, s.supplied_ids()),
                    None => {
                        proof {
                            assert(false);
                        }
                        return self.supplier_error(MarketError::NotRunning);
                    },
                };
                Response::Supplier(SupplierResponse::Status { name, secure, supplied })
            },
            SupplierRequest::SupplyDevices { devices } => {
                let selected = select_local(&self.local_devices, &devices);
                let peer = self.peer_id.clone();
                let res = match &mut self.market_maker {
                    None => {
                        return self.supplier_error(MarketError::PeerNotConnected);
                    },
                    Some(mm) => mm.supply_devices(&peer, &selected),
                };
                match res {
                    Err(e) => self.supplier_error(e),
                    Ok(()) => {
                        match &mut self.supplier {
                            None => {
                                proof {
                                    assert(false);
                                }
                                return self.supplier_error(MarketError::NotRunning);
                            },
                            Some(s) => {
                                s.note_supplied_all(&selected);
                                Response::Supplier(SupplierResponse::DevicesSupplied)
                            },
                        }
                    },
                }
            },
            SupplierRequest::ReclaimDevice { device_id, force } => {
                let peer = self.peer_id.clone();
                let res = match &mut self.market_maker {
                    None => {
                        return self.supplier_error(MarketError::PeerNotConnected);
                    },
                    Some(mm) => mm.reclaim_device(&peer, &device_id, force),
                };
                match res {
                    Err(e) => self.supplier_error(e),
                    Ok(_removed) => {
                        match &mut self.supplier {
                            None => {
                                proof {
                                    assert(false);
                                }
                                return self.supplier_error(MarketError::NotRunning);
                            },
                            Some(s) => {
                                s.note_reclaimed(&device_id);
                            },
                        }
                        Response::Supplier(
                            SupplierResponse::DeviceReclaimed { device_id },
                        )
                    },
                }
            },
        }
    }

    /// Handle a request to the Consumer role hosted here.
    pub fn handle_consumer(&mut self, req: ConsumerRequest) -> (r: Response)
        requires
            old(self).wf(),
        ensures
            final(self).wf(),
            consumer_response_ok(req, *old(self), *final(self), r),
    {
        if self.consumer.is_none() {
            return self.consumer_error(MarketError::NotRunning);
        }
        match req {
            ConsumerRequest::Status => {
                let peer = self.peer_id.clone();
                match (&mut self.consumer, &self.market_maker) {
                    (Some(c), Some(mm)) => {
                        c.sync_with_market(&peer, mm);
                        Response::Consumer(
                            ConsumerResponse::Status {
                                name: c.name.clone(),
                                devices: c.leased_devices(),
                                using_device: match &c.default_device {
                                    Some(d) => Some(d.clone()),
                                    None => None,
                                },
                            },
                        )
                    },
                    (Some(c), None) => Response::Consumer(
                        ConsumerResponse::Status {
                            name: c.name.clone(),
                            devices: c.leased_devices(),
                            using_device: match &c.default_device {
                                Some(d) => Some(d.clone()),
                                None => None,
                            },
                        },
                    ),
                    _ => {
                        proof {
                            assert(false);
                        }
                        self.consumer_error(MarketError::NotRunning)
                    },
                }
            },
            ConsumerRequest::ReserveDevice { device_id, no_use } => {
                let peer = self.peer_id.clone();
                let got = match &mut self.market_maker {
                    None => {
                        return self.consumer_error(MarketError::PeerNotConnected);
                    },
                    Some(mm) => match mm.reserve(&peer, &device_id) {
                        Err(e) => Err(e),
                        Ok(port) => {
                            let i = match mm.registry.find(&device_id) {
                                Some(i) => i,
                                None => {
                                    proof {
                                        let post = mm.registry@;
                                        let k = choose|k: int|
                                            0 <= k < old(self).market_maker->0.registry@.len() && (
                                            #[trigger] old(self).market_maker->0.registry@[k]).device_id == device_id@
                                                && old(self).market_maker->0.registry@[k].lessee_id is None && post
                                                == old(self).market_maker->0.registry@.update(
                                                k,
                                                crate::device::leased_to(
                                                    old(self).market_maker->0.registry@[k],
                                                    peer@,
                                                    port,
                                                ),
                                            );
                                        assert(post[k].device_id == device_id@);
                                        assert(false);
                                    }
                                    return self.consumer_error(MarketError::DeviceNotFound);
                                },
                            };
                            let cached = mm.registry.device_at(i).duplicate();
                            Ok((port, cached))
                        },
                    },
                };
                match got {
                    Err(e) => self.consumer_error(e),
                    Ok((port, cached)) => {
                        proof {
                            assert(cached@.device_id == device_id@);
                            assert(cached@.local_port == Some(port));
                        }
                        match &mut self.consumer {
                            None => {
                                proof {
                                    assert(false);
                                }
                                self.consumer_error(MarketError::NotRunning)
                            },
                            Some(c) => {
                                if c.holds(&device_id) {
                                    c.on_released(&device_id);
                                }
                                c.on_reserved(cached, no_use);
                                proof {
                                    let lv = device_views(c.leases@);
                                    assert(lv[lv.len() - 1].device_id == device_id@);
                                    assert(has_device(lv, device_id@));
                                    crate::registry::lemma_device_index_is(
                                        lv,
                                        device_id@,
                                        lv.len() - 1,
                                    );
                                }
                                Response::Consumer(
                                    ConsumerResponse::DeviceReserved { device_id, port },
                                )
                            },
                        }
                    },
                }
            },
            ConsumerRequest::ReleaseDevice { device_id } => {
                let peer = self.peer_id.clone();
                let res = match &mut self.market_maker {
                    None => {
                        return self.consumer_error(MarketError::PeerNotConnected);
                    },
                    Some(mm) => mm.release(&peer, &device_id),
                };
                match res {
                    Err(e) => self.consumer_error(e),
                    Ok(()) => {
                        match &mut self.consumer {
                            None => {
                                proof {
                                    assert(false);
                                }
                                self.consumer_error(MarketError::NotRunning)
                            },
                            Some(c) => {
                                c.on_released(&device_id);
                                Response::Consumer(
                                    ConsumerResponse::DeviceReleased { device_id },
                                )
                            },
                        }
                    },
                }
            },
            ConsumerRequest::ReleaseAllDevices => {
                let peer = self.peer_id.clone();
                match &mut self.market_maker {
                    None => {},
                    Some(mm) => {
                        mm.release_all(&peer);
                    },
                }
                match &mut self.consumer {
                    None => {
                        proof {
                            assert(false);
                        }
                        self.consumer_error(MarketError::NotRunning)
                    },
                    Some(c) => {
                        c.on_released_all();
                        Response::Consumer(ConsumerResponse::AllDevicesReleased)
                    },
                }
            },
            ConsumerRequest::GetAvailableDevices => {
                match &self.market_maker {
                    None => self.consumer_error(MarketError::PeerNotConnected),
                    Some(mm) => Response::Consumer(
                        ConsumerResponse::AvailableDevices { devices: mm.get_available_devices() },
                    ),
                }
            },
            ConsumerRequest::GetDevicesByFilter { filter_vec } => {
                match &self.market_maker {
                    None => self.consumer_error(MarketError::PeerNotConnected),
                    Some(mm) => Response::Consumer(
                        ConsumerResponse::Devices {
                            devices: mm.get_devices_by_filter(&filter_vec),
                        },
                    ),
                }
            },
            ConsumerRequest::UseDevice { device_id } => {
                match &mut self.consumer {
                    None => {
                        proof {
                            assert(false);
                        }
                        self.consumer_error(MarketError::NotRunning)
                    },
                    Some(c) => match c.use_device(&device_id) {
                        Ok(()) => Response::Consumer(
                            ConsumerResponse::DefaultDeviceSet { device_id },
                        ),
                        Err(e) => self.consumer_error(e),
                    },
                }
            },
            ConsumerRequest::StartScrCpy { device_id, args } => {
                match &self.consumer {
                    None => {
                        proof {
                            assert(false);
                        }
                        self.consumer_error(MarketError::NotRunning)
                    },
                    Some(c) => match c.mirror_port(&device_id) {
                        Ok(port) => {
                            let resolved = get_scrcpy_args(args, &c.scrcpy_defaults);
                            Response::Consumer(
                                ConsumerResponse::ScrCpyStarted {
                                    device_id,
                                    port,
                                    args: resolved,
                                },
                            )
                        },
                        Err(e) => self.consumer_error(e),
                    },
                }
            },
            ConsumerRequest::StopScrCpy { device_id } => {
                match &self.consumer {
                    None => {
                        proof {
                            assert(false);
                        }
                        self.consumer_error(MarketError::NotRunning)
                    },
                    Some(c) => {
                        if c.holds(&device_id) {
                            Response::Consumer(ConsumerResponse::ScrCpyStopped { device_id })
                        } else {
                            self.consumer_error(MarketError::DeviceNotLeased)
                        }
                    },
                }
            },
            ConsumerRequest::SetScrCpyDefaults { args } => {
                match &mut self.consumer {
                    None => {
                        proof {
                            assert(false);
                        }
                        self.consumer_error(MarketError::NotRunning)
                    },
                    Some(c) => {
                        let base = ScrcpyArgs::defaults();
                        c.set_scrcpy_defaults(get_scrcpy_args(args, &base));
                        Response::Consumer(ConsumerResponse::ScrCpyDefaultsSet)
                    },
                }
            },
            ConsumerRequest::GetScrCpyDefaults => {
                match &self.consumer {
                    None => {
                        proof {
                            assert(false);
                        }
                        self.consumer_error(MarketError::NotRunning)
                    },
                    Some(c) => Response::Consumer(
                        ConsumerResponse::ScrCpyDefaults { args: c.scrcpy_defaults.duplicate() },
                    ),
                }
            },
        }
    }

    /// Decode-and-dispatch: route one request to the engine of the
    /// role it addresses, with that handler's whole contract carried
    /// through. The version handshake is answered without touching any
    /// role; a request to an inactive role is answered with its
    /// namespace's error and changes nothing.
    pub fn send_request(&mut self, request: Request) -> (r: Response)
        requires
            old(self).wf(),
        ensures
            final(self).wf(),
            final(self).peer_id == old(self).peer_id,
            match request {
                Request::System(q) => system_response_ok(q, *old(self), *final(self), r),
                Request::MarketMaker(q) => marketmaker_response_ok(
                    q,
                    *old(self),
                    *final(self),
                    r,
                ),
                Request::Supplier(q) => supplier_response_ok(q, *old(self), *final(self), r),
                Request::Consumer(q) => consumer_response_ok(q, *old(self), *final(self), r),
            },
    {
        match request {
            Request::System(q) => self.handle_system(q),
            Request::MarketMaker(q) => self.handle_marketmaker(q),
            Request::Supplier(q) => self.handle_supplier(q),
            Request::Consumer(q) => self.handle_consumer(q),
        }
    }
}

/// Keep the locally attached devices whose id was asked for.
pub open spec fn wanted_ids_pred(ids: Seq<String>) -> spec_fn(DeviceView) -> bool {
    |dv: DeviceView| is_member(ids, dv.device_id)
}

/// The locally attached devices selected by an announcement: the named
/// ones, or all of them when no list is given.
pub fn select_local(local: &Vec<Device>, ids: &Option<Vec<String>>) -> (r: Vec<Device>)
    ensures
        match ids {
            None => device_views(r@) == device_views(local@),
            Some(l) => device_views(r@) == device_views(local@).filter(wanted_ids_pred(l@)),
        },
{
    match ids {
        None => {
            let mut out: Vec<Device> = Vec::new();
            let mut i: usize = 0;
            while i < local.len()
                invariant
                    i <= local@.len(),
                    out@.len() == i,
                    forall|k: int|
                        0 <= k < i ==> device_views(out@)[k] == device_views(local@)[k],
                decreases local@.len() - i,
            {
                let d = local[i].duplicate();
                let ghost out0 = out@;
                out.push(d);
                proof {
                    assert(out@[i as int]@ == local@[i as int]@);
                    assert forall|k: int|
                        0 <= k < i implies device_views(out@)[k] == device_views(local@)[k] by {
                        assert(device_views(out0)[k] == device_views(local@)[k]);
                        assert(out@[k] == out0[k]);
                    }
                }
                i += 1;
            }
            proof {
                assert(device_views(out@) =~= device_views(local@));
            }
            out
        },
        Some(l) => {
            let ghost pred = wanted_ids_pred(l@);
            let ghost pre = device_views(local@);
            let mut out: Vec<Device> = Vec::new();
            let mut i: usize = 0;
            while i < local.len()
                invariant
                    i <= pre.len(),
                    pre == device_views(local@),
                    pre.len() == local@.len(),
                    device_views(out@) == pre.take(i as int).filter(pred),
                    pred == wanted_ids_pred(l@),
                decreases pre.len() - i,
            {
                proof {
                    crate::seqtools::lemma_filter_push(pre.take(i as int), pred, pre[i as int]);
                    assert(pre.take(i as int + 1) =~= pre.take(i as int).push(pre[i as int]));
                }
                if crate::strlist::contains_string(l, &local[i].device_id) {
                    let ghost o0 = device_views(out@);
                    out.push(local[i].duplicate());
                    proof {
                        assert(device_views(out@) =~= o0.push(pre[i as int]));
                    }
                }
                i += 1;
            }
            proof {
                assert(pre.take(pre.len() as int) =~= pre);
            }
            out
        },
    }
}

/// A node's engine in its initial, listening state: no role active.
/// The host process starts the actual network listener around it and
/// feeds every decoded request to [`SysState::send_request`].
pub fn init_system_listener(peer_id: String) -> (s: SysState)
    ensures
        s.wf(),
        s.peer_id == peer_id,
        s.market_maker is None,
        s.supplier is None,
        s.consumer is None,
{
    SysState::new(peer_id)
}

} // verus!
