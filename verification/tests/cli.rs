use adborc::commands::{
    consumer_request_for, execute_command, marketmaker_request_for, process_command, setup_mangen,
    supplier_request_for, Commands, ConsumerCommands, MarketMakerCommands, SupplierCommands,
};
use adborc::protocol::{
    ConsumerRequest, MarketMakerRequest, Request, Response, SupplierRequest, SysStateRequest,
    SysStateResponse,
};
use adborc::scrcpy::{get_scrcpy_args, ScrcpyArgs, ScrcpyCliArgs};
use adborc::sysstate::init_system_listener;

fn no_cli_args() -> ScrcpyCliArgs {
    ScrcpyCliArgs {
        max_size: None,
        bit_rate: None,
        max_fps: None,
        fullscreen: false,
        no_control: false,
        record_file: None,
    }
}

#[test]
fn marketmaker_commands_map_to_their_requests() {
    assert!(matches!(
        marketmaker_request_for(MarketMakerCommands::Status),
        Request::MarketMaker(MarketMakerRequest::Status)
    ));
    assert!(matches!(
        marketmaker_request_for(MarketMakerCommands::Start),
        Request::System(SysStateRequest::StartMarketMaker)
    ));
    match marketmaker_request_for(MarketMakerCommands::AddSupplier {
        peer_id: "p1".to_string(),
    }) {
        Request::MarketMaker(MarketMakerRequest::WhitelistSupplier { key }) => {
            assert_eq!(key, "p1")
        }
        _ => panic!("wrong request"),
    }
    match marketmaker_request_for(MarketMakerCommands::RemoveConsumer {
        peer_id: "p2".to_string(),
    }) {
        Request::MarketMaker(MarketMakerRequest::UnwhitelistConsumer { key }) => {
            assert_eq!(key, "p2")
        }
        _ => panic!("wrong request"),
    }
}

#[test]
fn supplier_commands_map_to_their_requests() {
    match supplier_request_for(SupplierCommands::Start {
        remote: "mm.example".to_string(),
        port: 48000,
        user: Some("Sup".to_string()),
        secure: true,
    }) {
        Request::System(SysStateRequest::StartSupplier {
            mm_host,
            mm_port,
            name,
            secure_comms,
        }) => {
            assert_eq!(mm_host, "mm.example");
            assert_eq!(mm_port, 48000);
            assert_eq!(name, Some("Sup".to_string()));
            assert!(secure_comms);
        }
        _ => panic!("wrong request"),
    }
    match supplier_request_for(SupplierCommands::Reclaim {
        device: "d1".to_string(),
        force: true,
    }) {
        Request::Supplier(SupplierRequest::ReclaimDevice { device_id, force }) => {
            assert_eq!(device_id, "d1");
            assert!(force);
        }
        _ => panic!("wrong request"),
    }
}

#[test]
fn consumer_commands_map_to_their_requests() {
    match consumer_request_for(ConsumerCommands::Reserve {
        device: "d1".to_string(),
        no_default: true,
    }) {
        Some(Request::Consumer(ConsumerRequest::ReserveDevice { device_id, no_use })) => {
            assert_eq!(device_id, "d1");
            assert!(no_use);
        }
        _ => panic!("wrong request"),
    }
    assert!(matches!(
        consumer_request_for(ConsumerCommands::Release { device: None }),
        Some(Request::Consumer(ConsumerRequest::ReleaseAllDevices))
    ));
    match consumer_request_for(ConsumerCommands::Release {
        device: Some("d2".to_string()),
    }) {
        Some(Request::Consumer(ConsumerRequest::ReleaseDevice { device_id })) => {
            assert_eq!(device_id, "d2")
        }
        _ => panic!("wrong request"),
    }
    // the list-reserved view is served by the status query
    assert!(matches!(
        consumer_request_for(ConsumerCommands::ListReserved),
        Some(Request::Consumer(ConsumerRequest::Status))
    ));
    // the shortcut help is answered locally
    assert!(consumer_request_for(ConsumerCommands::ScrcpyShortcuts).is_none());
}

#[test]
fn get_devices_builds_the_filters_in_order() {
    let r = consumer_request_for(ConsumerCommands::GetDevices {
        is_available: Some(true),
        device_ids: None,
        device_names: None,
        device_models: Some(vec!["Pixel4".to_string()]),
        supplied_by: None,
        reserved_by: None,
    });
    match r {
        Some(Request::Consumer(ConsumerRequest::GetDevicesByFilter { filter_vec })) => {
            assert_eq!(filter_vec.filters.len(), 2);
            assert!(matches!(
                filter_vec.filters[0],
                adborc::device::DeviceFilter::IsAvailable(true)
            ));
            match &filter_vec.filters[1] {
                adborc::device::DeviceFilter::DeviceModels(models) => {
                    assert_eq!(models, &vec!["Pixel4".to_string()])
                }
                _ => panic!("wrong filter"),
            }
        }
        _ => panic!("wrong request"),
    }
}

#[test]
fn scrcpy_command_forwards_options_unresolved() {
    let mut cli = no_cli_args();
    cli.max_size = Some(800);
    match consumer_request_for(ConsumerCommands::Scrcpy {
        device: "d1".to_string(),
        args: cli,
    }) {
        Some(Request::Consumer(ConsumerRequest::StartScrCpy { device_id, args })) => {
            assert_eq!(device_id, "d1");
            // the engine, not the command layer, resolves the options
            assert_eq!(args.max_size, Some(800));
            assert_eq!(args.bit_rate, None);
        }
        _ => panic!("wrong request"),
    }
}

#[test]
fn scrcpy_cli_args_merge_with_defaults() {
    let cli = ScrcpyCliArgs {
        max_size: Some(1024),
        bit_rate: None,
        max_fps: Some(30),
        fullscreen: true,
        no_control: false,
        record_file: None,
    };
    let base = ScrcpyArgs::defaults();
    let merged = get_scrcpy_args(cli, &base);
    assert_eq!(merged.max_size, 1024);
    assert_eq!(merged.bit_rate, 8000000);
    assert_eq!(merged.max_fps, 30);
    assert!(merged.fullscreen);
    assert!(!merged.no_control);
    assert!(merged.record_file.is_none());
}

#[test]
fn setup_mangen_recognizes_only_the_mangen_command() {
    assert!(setup_mangen(&Commands::Status).is_none());
    assert_eq!(
        setup_mangen(&Commands::Mangen { path: None }),
        Some(None)
    );
    assert_eq!(
        setup_mangen(&Commands::Mangen {
            path: Some("/tmp/pages".to_string())
        }),
        Some(Some("/tmp/pages".to_string()))
    );
}

#[test]
fn execute_command_runs_the_handshake_then_the_command() {
    let mut s = init_system_listener("peer0".to_string());
    let r = execute_command(Commands::GetNetworkId, &mut s);
    match r {
        Response::System(SysStateResponse::PeerId { peer_id }) => {
            assert_eq!(peer_id, "peer0")
        }
        _ => panic!("unexpected response"),
    }
    let r = execute_command(Commands::Marketmaker(MarketMakerCommands::Start), &mut s);
    assert!(matches!(
        r,
        Response::System(SysStateResponse::MarketMakerStarted)
    ));
    let r = execute_command(
        Commands::Marketmaker(MarketMakerCommands::UseWhitelist),
        &mut s,
    );
    assert!(matches!(
        r,
        Response::MarketMaker(adborc::protocol::MarketMakerResponse::WhitelistingOn)
    ));
}

#[test]
fn process_command_reports_host_side_commands_as_unserved() {
    let mut s = init_system_listener("peer0".to_string());
    let r = process_command(Commands::Init, &mut s);
    assert!(matches!(
        r,
        Response::System(SysStateResponse::RequestProcessingError {
            kind: adborc::errors::MarketError::NotSupported,
            ..
        })
    ));
}
