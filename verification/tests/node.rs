use adborc::device::Device;
use adborc::errors::MarketError;
use adborc::protocol::{
    ConsumerRequest, ConsumerResponse, MarketMakerRequest, MarketMakerResponse, Request, Response,
    SupplierRequest, SysStateRequest, SysStateResponse,
};
use adborc::sysstate::{init_system_listener, SysState};

fn dev(id: &str, name: &str, model: &str) -> Device {
    Device::new(
        id.to_string(),
        name.to_string(),
        model.to_string(),
        "unassigned".to_string(),
    )
}

fn running_node() -> SysState {
    let mut s = init_system_listener("peer0".to_string());
    let r = s.send_request(Request::System(SysStateRequest::StartMarketMaker));
    assert!(matches!(
        r,
        Response::System(SysStateResponse::MarketMakerStarted)
    ));
    s.set_local_devices(vec![
        dev("d1", "alpha", "Pixel4"),
        dev("d2", "beta", "Pixel5"),
    ]);
    let r = s.send_request(Request::System(SysStateRequest::StartSupplier {
        mm_host: "localhost".to_string(),
        mm_port: 48000,
        name: None,
        secure_comms: false,
    }));
    assert!(matches!(
        r,
        Response::System(SysStateResponse::SupplierStarted)
    ));
    let r = s.send_request(Request::Supplier(SupplierRequest::SupplyDevices {
        devices: None,
    }));
    assert!(matches!(
        r,
        Response::Supplier(adborc::protocol::SupplierResponse::DevicesSupplied)
    ));
    let r = s.send_request(Request::System(SysStateRequest::StartConsumer {
        mm_host: "localhost".to_string(),
        mm_port: 48000,
        name: Some("Me".to_string()),
    }));
    assert!(matches!(
        r,
        Response::System(SysStateResponse::ConsumerStarted)
    ));
    s
}

#[test]
fn version_handshake_precedes_dispatch() {
    let mut s = init_system_listener("peer0".to_string());
    let r = s.send_request(Request::System(SysStateRequest::CheckVersion {
        version: "0.2.0".to_string(),
    }));
    assert!(matches!(r, Response::System(SysStateResponse::ClientOk)));
    let r = s.send_request(Request::System(SysStateRequest::CheckVersion {
        version: "0.1.0".to_string(),
    }));
    assert!(matches!(
        r,
        Response::System(SysStateResponse::ClientError { .. })
    ));
}

#[test]
fn roles_start_once_and_report_state() {
    let mut s = init_system_listener("peer0".to_string());
    let r = s.send_request(Request::System(SysStateRequest::GetState));
    match r {
        Response::System(SysStateResponse::Status { state }) => {
            assert!(!state.market_maker_active);
            assert!(!state.supplier_active);
            assert!(!state.consumer_active);
        }
        _ => panic!("unexpected response"),
    }
    s.send_request(Request::System(SysStateRequest::StartMarketMaker));
    let r = s.send_request(Request::System(SysStateRequest::StartMarketMaker));
    match r {
        Response::System(SysStateResponse::RequestProcessingError { kind, .. }) => {
            assert_eq!(kind, MarketError::AlreadyRunning)
        }
        _ => panic!("unexpected response"),
    }
}

#[test]
fn role_requests_need_the_role() {
    let mut s = init_system_listener("peer0".to_string());
    let r = s.send_request(Request::MarketMaker(MarketMakerRequest::Status));
    assert!(matches!(
        r,
        Response::MarketMaker(MarketMakerResponse::Error {
            kind: MarketError::NotRunning,
            ..
        })
    ));
    let r = s.send_request(Request::Consumer(ConsumerRequest::Status));
    assert!(matches!(
        r,
        Response::Consumer(ConsumerResponse::Error {
            kind: MarketError::NotRunning,
            ..
        })
    ));
}

#[test]
fn supplier_start_needs_reachable_market() {
    let mut s = init_system_listener("peer0".to_string());
    let r = s.send_request(Request::System(SysStateRequest::StartSupplier {
        mm_host: "elsewhere".to_string(),
        mm_port: 48000,
        name: None,
        secure_comms: true,
    }));
    assert!(matches!(
        r,
        Response::System(SysStateResponse::RequestProcessingError {
            kind: MarketError::ConnectionRefused,
            ..
        })
    ));
}

#[test]
fn reserve_release_round_trip_through_requests() {
    let mut s = running_node();
    let r = s.send_request(Request::Consumer(ConsumerRequest::GetAvailableDevices));
    match r {
        Response::Consumer(ConsumerResponse::AvailableDevices { devices }) => {
            assert_eq!(devices.len(), 2)
        }
        _ => panic!("unexpected response"),
    }
    let r = s.send_request(Request::Consumer(ConsumerRequest::ReserveDevice {
        device_id: "d1".to_string(),
        no_use: false,
    }));
    match r {
        Response::Consumer(ConsumerResponse::DeviceReserved { device_id, port }) => {
            assert_eq!(device_id, "d1");
            assert_eq!(port, 7000);
        }
        _ => panic!("unexpected response"),
    }
    let r = s.send_request(Request::Consumer(ConsumerRequest::GetAvailableDevices));
    match r {
        Response::Consumer(ConsumerResponse::AvailableDevices { devices }) => {
            assert_eq!(devices.len(), 1);
            assert_eq!(devices[0].device_id, "d2");
        }
        _ => panic!("unexpected response"),
    }
    // the reserving consumer's status shows the lease and the default
    let r = s.send_request(Request::Consumer(ConsumerRequest::Status));
    match r {
        Response::Consumer(ConsumerResponse::Status {
            devices,
            using_device,
            ..
        }) => {
            assert_eq!(devices.len(), 1);
            assert_eq!(devices[0].device_id, "d1");
            assert_eq!(devices[0].local_port, Some(7000));
            assert_eq!(using_device, Some("d1".to_string()));
        }
        _ => panic!("unexpected response"),
    }
    let r = s.send_request(Request::Consumer(ConsumerRequest::ReleaseDevice {
        device_id: "d1".to_string(),
    }));
    assert!(matches!(
        r,
        Response::Consumer(ConsumerResponse::DeviceReleased { .. })
    ));
    let r = s.send_request(Request::Consumer(ConsumerRequest::GetAvailableDevices));
    match r {
        Response::Consumer(ConsumerResponse::AvailableDevices { devices }) => {
            assert_eq!(devices.len(), 2)
        }
        _ => panic!("unexpected response"),
    }
}

#[test]
fn forced_reclaim_reaches_consumer_on_next_status() {
    let mut s = running_node();
    s.send_request(Request::Consumer(ConsumerRequest::ReserveDevice {
        device_id: "d1".to_string(),
        no_use: false,
    }));
    let r = s.send_request(Request::Supplier(SupplierRequest::ReclaimDevice {
        device_id: "d1".to_string(),
        force: false,
    }));
    assert!(matches!(
        r,
        Response::Supplier(adborc::protocol::SupplierResponse::Error {
            kind: MarketError::DeviceLeased,
            ..
        })
    ));
    let r = s.send_request(Request::Supplier(SupplierRequest::ReclaimDevice {
        device_id: "d1".to_string(),
        force: true,
    }));
    assert!(matches!(
        r,
        Response::Supplier(adborc::protocol::SupplierResponse::DeviceReclaimed { .. })
    ));
    // gone from the registry...
    let r = s.send_request(Request::Consumer(ConsumerRequest::GetAvailableDevices));
    match r {
        Response::Consumer(ConsumerResponse::AvailableDevices { devices }) => {
            assert_eq!(devices.len(), 1);
            assert_eq!(devices[0].device_id, "d2");
        }
        _ => panic!("unexpected response"),
    }
    // ...and from the consumer's cache on its next status query
    let r = s.send_request(Request::Consumer(ConsumerRequest::Status));
    match r {
        Response::Consumer(ConsumerResponse::Status {
            devices,
            using_device,
            ..
        }) => {
            assert_eq!(devices.len(), 0);
            assert_eq!(using_device, None);
        }
        _ => panic!("unexpected response"),
    }
}

#[test]
fn stop_supplier_withdraws_its_devices() {
    let mut s = running_node();
    s.send_request(Request::Consumer(ConsumerRequest::ReserveDevice {
        device_id: "d1".to_string(),
        no_use: true,
    }));
    let r = s.send_request(Request::System(SysStateRequest::StopSupplier));
    assert!(matches!(
        r,
        Response::System(SysStateResponse::SupplierStopped)
    ));
    let r = s.send_request(Request::Consumer(ConsumerRequest::GetAvailableDevices));
    match r {
        Response::Consumer(ConsumerResponse::AvailableDevices { devices }) => {
            assert_eq!(devices.len(), 0)
        }
        _ => panic!("unexpected response"),
    }
    let r = s.send_request(Request::Consumer(ConsumerRequest::Status));
    match r {
        Response::Consumer(ConsumerResponse::Status { devices, .. }) => {
            assert_eq!(devices.len(), 0)
        }
        _ => panic!("unexpected response"),
    }
}

fn no_options() -> adborc::scrcpy::ScrcpyCliArgs {
    adborc::scrcpy::ScrcpyCliArgs {
        max_size: None,
        bit_rate: None,
        max_fps: None,
        fullscreen: false,
        no_control: false,
        record_file: None,
    }
}

#[test]
fn mirroring_needs_a_held_device() {
    let mut s = running_node();
    let r = s.send_request(Request::Consumer(ConsumerRequest::StartScrCpy {
        device_id: "d1".to_string(),
        args: no_options(),
    }));
    assert!(matches!(
        r,
        Response::Consumer(ConsumerResponse::Error {
            kind: MarketError::DeviceNotLeased,
            ..
        })
    ));
    s.send_request(Request::Consumer(ConsumerRequest::ReserveDevice {
        device_id: "d1".to_string(),
        no_use: false,
    }));
    let r = s.send_request(Request::Consumer(ConsumerRequest::StartScrCpy {
        device_id: "d1".to_string(),
        args: no_options(),
    }));
    match r {
        Response::Consumer(ConsumerResponse::ScrCpyStarted {
            device_id,
            port,
            args,
        }) => {
            assert_eq!(device_id, "d1");
            assert_eq!(port, 7000);
            // nothing explicit, nothing stored: the documented defaults
            assert_eq!(args.max_size, 0);
            assert_eq!(args.bit_rate, 8000000);
        }
        _ => panic!("unexpected response"),
    }
}

#[test]
fn stored_mirror_defaults_apply_when_no_options_given() {
    let mut s = running_node();
    s.send_request(Request::Consumer(ConsumerRequest::ReserveDevice {
        device_id: "d1".to_string(),
        no_use: false,
    }));
    let mut stored = no_options();
    stored.max_size = Some(1280);
    stored.max_fps = Some(30);
    s.send_request(Request::Consumer(ConsumerRequest::SetScrCpyDefaults {
        args: stored,
    }));
    // no explicit options: the stored record fills them in
    let r = s.send_request(Request::Consumer(ConsumerRequest::StartScrCpy {
        device_id: "d1".to_string(),
        args: no_options(),
    }));
    match r {
        Response::Consumer(ConsumerResponse::ScrCpyStarted { args, .. }) => {
            assert_eq!(args.max_size, 1280);
            assert_eq!(args.max_fps, 30);
            assert_eq!(args.bit_rate, 8000000);
        }
        _ => panic!("unexpected response"),
    }
    // an explicit option wins over the stored record
    let mut explicit = no_options();
    explicit.max_size = Some(640);
    let r = s.send_request(Request::Consumer(ConsumerRequest::StartScrCpy {
        device_id: "d1".to_string(),
        args: explicit,
    }));
    match r {
        Response::Consumer(ConsumerResponse::ScrCpyStarted { args, .. }) => {
            assert_eq!(args.max_size, 640);
            assert_eq!(args.max_fps, 30);
        }
        _ => panic!("unexpected response"),
    }
}

#[test]
fn mirror_defaults_round_trip() {
    let mut s = running_node();
    let mut args = no_options();
    args.max_size = Some(1280);
    args.bit_rate = Some(2000000);
    let r = s.send_request(Request::Consumer(ConsumerRequest::SetScrCpyDefaults { args }));
    assert!(matches!(
        r,
        Response::Consumer(ConsumerResponse::ScrCpyDefaultsSet)
    ));
    let r = s.send_request(Request::Consumer(ConsumerRequest::GetScrCpyDefaults));
    match r {
        Response::Consumer(ConsumerResponse::ScrCpyDefaults { args }) => {
            assert_eq!(args.max_size, 1280);
            assert_eq!(args.bit_rate, 2000000);
            assert_eq!(args.max_fps, 0);
        }
        _ => panic!("unexpected response"),
    }
}

#[test]
fn use_device_needs_a_lease() {
    let mut s = running_node();
    let r = s.send_request(Request::Consumer(ConsumerRequest::UseDevice {
        device_id: "d1".to_string(),
    }));
    assert!(matches!(
        r,
        Response::Consumer(ConsumerResponse::Error {
            kind: MarketError::NotLeasedByCaller,
            ..
        })
    ));
    s.send_request(Request::Consumer(ConsumerRequest::ReserveDevice {
        device_id: "d1".to_string(),
        no_use: true,
    }));
    let r = s.send_request(Request::Consumer(ConsumerRequest::UseDevice {
        device_id: "d1".to_string(),
    }));
    assert!(matches!(
        r,
        Response::Consumer(ConsumerResponse::DefaultDeviceSet { .. })
    ));
}

#[test]
fn shutdown_stops_every_role() {
    let mut s = running_node();
    let r = s.send_request(Request::System(SysStateRequest::Shutdown));
    assert!(matches!(
        r,
        Response::System(SysStateResponse::ShutdownSuccess)
    ));
    let r = s.send_request(Request::System(SysStateRequest::GetState));
    match r {
        Response::System(SysStateResponse::Status { state }) => {
            assert!(!state.market_maker_active);
            assert!(!state.supplier_active);
            assert!(!state.consumer_active);
        }
        _ => panic!("unexpected response"),
    }
}

#[test]
fn peer_id_and_paths_and_check() {
    let mut s = init_system_listener("peer0".to_string());
    let r = s.send_request(Request::System(SysStateRequest::GetPeerId));
    match r {
        Response::System(SysStateResponse::PeerId { peer_id }) => {
            assert_eq!(peer_id, "peer0")
        }
        _ => panic!("unexpected response"),
    }
    let r = s.send_request(Request::System(SysStateRequest::SetAdbPath {
        adb_path: "/opt/adb".to_string(),
    }));
    assert!(matches!(r, Response::System(SysStateResponse::AdbPathSet)));
    s.set_collaborators(true, false);
    let r = s.send_request(Request::System(SysStateRequest::SystemCheck));
    match r {
        Response::System(SysStateResponse::SystemCheck { adb, scrcpy }) => {
            assert!(adb);
            assert!(!scrcpy);
        }
        _ => panic!("unexpected response"),
    }
}

#[test]
fn supply_selects_requested_ids() {
    let mut s = init_system_listener("peer0".to_string());
    s.send_request(Request::System(SysStateRequest::StartMarketMaker));
    s.set_local_devices(vec![
        dev("d1", "alpha", "Pixel4"),
        dev("d2", "beta", "Pixel5"),
        dev("d3", "gamma", "Pixel6"),
    ]);
    s.send_request(Request::System(SysStateRequest::StartSupplier {
        mm_host: "localhost".to_string(),
        mm_port: 48000,
        name: None,
        secure_comms: false,
    }));
    s.send_request(Request::Supplier(SupplierRequest::SupplyDevices {
        devices: Some(vec!["d1".to_string(), "d3".to_string()]),
    }));
    s.send_request(Request::System(SysStateRequest::StartConsumer {
        mm_host: "localhost".to_string(),
        mm_port: 48000,
        name: None,
    }));
    let r = s.send_request(Request::Consumer(ConsumerRequest::GetAvailableDevices));
    match r {
        Response::Consumer(ConsumerResponse::AvailableDevices { devices }) => {
            let mut ids: Vec<String> = devices.iter().map(|d| d.device_id.clone()).collect();
            ids.sort();
            assert_eq!(ids, vec!["d1".to_string(), "d3".to_string()]);
        }
        _ => panic!("unexpected response"),
    }
}
