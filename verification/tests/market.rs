use adborc::consumer::ConsumerState;
use adborc::device::{Device, DeviceFilter, DeviceFilterVec};
use adborc::errors::MarketError;
use adborc::marketmaker::MarketMakerState;

fn dev(id: &str, name: &str, model: &str) -> Device {
    Device::new(
        id.to_string(),
        name.to_string(),
        model.to_string(),
        "unassigned".to_string(),
    )
}

fn market_with_two_devices() -> MarketMakerState {
    let mut mm = MarketMakerState::new();
    mm.attach_supplier("sup1".to_string(), "SupOne".to_string(), false)
        .unwrap();
    mm.attach_consumer("con1".to_string()).unwrap();
    mm.attach_consumer("con2".to_string()).unwrap();
    mm.supply_devices(
        &"sup1".to_string(),
        &vec![dev("d1", "alpha", "Pixel4"), dev("d2", "beta", "Pixel5")],
    )
    .unwrap();
    mm
}

#[test]
fn supply_then_available_round_trip() {
    let mm = market_with_two_devices();
    let avail = mm.get_available_devices();
    assert_eq!(avail.len(), 2);
    let mut ids: Vec<String> = avail.iter().map(|d| d.device_id.clone()).collect();
    ids.sort();
    assert_eq!(ids, vec!["d1".to_string(), "d2".to_string()]);
    for d in avail.iter() {
        assert!(d.lessee_id.is_none());
        assert!(d.local_port.is_none());
        assert_eq!(d.supplier_id, "sup1");
    }
}

#[test]
fn reserve_removes_from_available_with_fresh_port() {
    let mut mm = market_with_two_devices();
    let port = mm
        .reserve(&"con1".to_string(), &"d1".to_string())
        .unwrap();
    assert_eq!(port, 7000);
    let avail = mm.get_available_devices();
    assert_eq!(avail.len(), 1);
    assert_eq!(avail[0].device_id, "d2");
    // the next lease gets a port never handed out before
    let port2 = mm
        .reserve(&"con2".to_string(), &"d2".to_string())
        .unwrap();
    assert_ne!(port2, port);
    assert_eq!(port2, 7001);
}

#[test]
fn at_most_one_reserve_succeeds() {
    let mut mm = market_with_two_devices();
    mm.reserve(&"con1".to_string(), &"d1".to_string()).unwrap();
    let err = mm
        .reserve(&"con2".to_string(), &"d1".to_string())
        .unwrap_err();
    assert_eq!(err, MarketError::DeviceAlreadyLeased);
    // even the holder cannot double-reserve
    let err = mm
        .reserve(&"con1".to_string(), &"d1".to_string())
        .unwrap_err();
    assert_eq!(err, MarketError::DeviceAlreadyLeased);
}

#[test]
fn release_by_non_holder_fails() {
    let mut mm = market_with_two_devices();
    mm.reserve(&"con1".to_string(), &"d1".to_string()).unwrap();
    let err = mm
        .release(&"con2".to_string(), &"d1".to_string())
        .unwrap_err();
    assert_eq!(err, MarketError::NotLeasedByCaller);
    // an unleased device is held by nobody, so nobody can release it
    let err = mm
        .release(&"con1".to_string(), &"d2".to_string())
        .unwrap_err();
    assert_eq!(err, MarketError::NotLeasedByCaller);
    // the holder can
    mm.release(&"con1".to_string(), &"d1".to_string()).unwrap();
    assert_eq!(mm.get_available_devices().len(), 2);
}

#[test]
fn released_device_reserved_again_gets_new_port() {
    let mut mm = market_with_two_devices();
    let p1 = mm.reserve(&"con1".to_string(), &"d1".to_string()).unwrap();
    mm.release(&"con1".to_string(), &"d1".to_string()).unwrap();
    let p2 = mm.reserve(&"con2".to_string(), &"d1".to_string()).unwrap();
    assert_ne!(p1, p2);
}

#[test]
fn duplicate_device_rejected_whoever_supplies() {
    let mut mm = market_with_two_devices();
    mm.attach_supplier("sup2".to_string(), "SupTwo".to_string(), true)
        .unwrap();
    let err = mm
        .supply_devices(&"sup2".to_string(), &vec![dev("d1", "other", "Pixel4")])
        .unwrap_err();
    assert_eq!(err, MarketError::DeviceOwnedElsewhere);
    // re-announcing its own device is idempotent
    mm.supply_devices(&"sup1".to_string(), &vec![dev("d1", "alpha", "Pixel4")])
        .unwrap();
    assert_eq!(mm.get_available_devices().len(), 2);
}

#[test]
fn supply_requires_attachment() {
    let mut mm = MarketMakerState::new();
    let err = mm
        .supply_devices(&"ghost".to_string(), &vec![dev("d9", "x", "y")])
        .unwrap_err();
    assert_eq!(err, MarketError::PeerNotConnected);
}

#[test]
fn filter_by_availability_and_model() {
    let mut mm = market_with_two_devices();
    mm.reserve(&"con1".to_string(), &"d2".to_string()).unwrap();
    let fv = DeviceFilterVec {
        filters: vec![
            DeviceFilter::IsAvailable(true),
            DeviceFilter::DeviceModels(vec!["Pixel4".to_string()]),
        ],
    };
    let got = mm.get_devices_by_filter(&fv);
    assert_eq!(got.len(), 1);
    assert_eq!(got[0].device_id, "d1");
    // only unleased Pixel5 devices: none, and that is an answer
    let fv = DeviceFilterVec {
        filters: vec![
            DeviceFilter::IsAvailable(true),
            DeviceFilter::DeviceModels(vec!["Pixel5".to_string()]),
        ],
    };
    assert_eq!(mm.get_devices_by_filter(&fv).len(), 0);
}

#[test]
fn filter_with_empty_set_matches_nothing() {
    let mm = market_with_two_devices();
    let fv = DeviceFilterVec {
        filters: vec![DeviceFilter::DeviceIds(Vec::new())],
    };
    assert_eq!(mm.get_devices_by_filter(&fv).len(), 0);
    // and an absent predicate imposes no constraint
    let fv = DeviceFilterVec { filters: Vec::new() };
    assert_eq!(mm.get_devices_by_filter(&fv).len(), 2);
}

#[test]
fn reclaim_leased_needs_force() {
    let mut mm = market_with_two_devices();
    mm.reserve(&"con1".to_string(), &"d1".to_string()).unwrap();
    let err = mm
        .reclaim_device(&"sup1".to_string(), &"d1".to_string(), false)
        .unwrap_err();
    assert_eq!(err, MarketError::DeviceLeased);
    let removed = mm
        .reclaim_device(&"sup1".to_string(), &"d1".to_string(), true)
        .unwrap();
    assert_eq!(removed.device_id, "d1");
    assert_eq!(removed.lessee_id, Some("con1".to_string()));
    assert_eq!(mm.get_available_devices().len(), 1);
}

#[test]
fn reclaim_errors_name_the_cause() {
    let mut mm = market_with_two_devices();
    let err = mm
        .reclaim_device(&"sup1".to_string(), &"nope".to_string(), false)
        .unwrap_err();
    assert_eq!(err, MarketError::DeviceNotFound);
    mm.attach_supplier("sup2".to_string(), "SupTwo".to_string(), false)
        .unwrap();
    let err = mm
        .reclaim_device(&"sup2".to_string(), &"d1".to_string(), true)
        .unwrap_err();
    assert_eq!(err, MarketError::DeviceOwnedElsewhere);
}

#[test]
fn supplier_disconnect_cleans_up() {
    let mut mm = market_with_two_devices();
    mm.reserve(&"con1".to_string(), &"d1".to_string()).unwrap();
    let removed = mm.detach_supplier(&"sup1".to_string());
    assert_eq!(removed.len(), 2);
    assert_eq!(mm.get_available_devices().len(), 0);
    // the consumer's next status query drops the torn-down lease
    let mut c = ConsumerState::new("mm".to_string(), 48000, "ConOne".to_string());
    let mut held = removed[0].duplicate();
    if held.device_id != "d1" {
        held = removed[1].duplicate();
    }
    c.on_reserved(held, false);
    assert_eq!(c.leases.len(), 1);
    c.sync_with_market(&"con1".to_string(), &mm);
    assert_eq!(c.leases.len(), 0);
    assert!(c.default_device.is_none());
}

#[test]
fn consumer_disconnect_releases_everything() {
    let mut mm = market_with_two_devices();
    mm.reserve(&"con1".to_string(), &"d1".to_string()).unwrap();
    mm.reserve(&"con1".to_string(), &"d2".to_string()).unwrap();
    mm.detach_consumer(&"con1".to_string());
    assert_eq!(mm.get_available_devices().len(), 2);
    // and the roster entry is gone: a new attach succeeds
    mm.attach_consumer("con1".to_string()).unwrap();
}

#[test]
fn registry_rejects_a_duplicate_id() {
    let mut reg = adborc::registry::DeviceRegistry::new();
    reg.register_device(dev("d1", "alpha", "Pixel4")).unwrap();
    let err = reg
        .register_device(dev("d1", "other", "Pixel5"))
        .unwrap_err();
    assert_eq!(err, MarketError::DuplicateDevice);
    assert_eq!(reg.len(), 1);
}

#[test]
fn attaching_the_same_peer_twice_fails() {
    let mut mm = MarketMakerState::new();
    mm.attach_supplier("sup1".to_string(), "SupOne".to_string(), false)
        .unwrap();
    let err = mm
        .attach_supplier("sup1".to_string(), "SupOne".to_string(), false)
        .unwrap_err();
    assert_eq!(err, MarketError::AlreadyRunning);
    mm.attach_consumer("con1".to_string()).unwrap();
    let err = mm.attach_consumer("con1".to_string()).unwrap_err();
    assert_eq!(err, MarketError::AlreadyRunning);
}

#[test]
fn failed_tunnel_rolls_the_lease_back() {
    let mut mm = market_with_two_devices();
    // exhaust the port range: no tunnel can be opened any more
    mm.tunnels.next_port = u16::MAX;
    let err = mm
        .reserve(&"con1".to_string(), &"d1".to_string())
        .unwrap_err();
    assert_eq!(err, MarketError::TunnelSetupFailed);
    // the half-done lease was rolled back: the device is available
    assert_eq!(mm.get_available_devices().len(), 2);
}

#[test]
fn whitelist_gates_attachment_only_when_enabled() {
    let mut mm = MarketMakerState::new();
    mm.use_whitelist();
    let err = mm
        .attach_supplier("sup1".to_string(), "SupOne".to_string(), false)
        .unwrap_err();
    assert_eq!(err, MarketError::NotWhitelisted);
    mm.whitelist_supplier("sup1".to_string());
    mm.attach_supplier("sup1".to_string(), "SupOne".to_string(), false)
        .unwrap();
    // striking the peer later does not evict the attached session
    mm.unwhitelist_supplier(&"sup1".to_string());
    mm.supply_devices(&"sup1".to_string(), &vec![dev("d1", "alpha", "Pixel4")])
        .unwrap();
}

#[test]
fn whitelist_enable_is_idempotent_and_reset_keeps_members() {
    let mut mm = MarketMakerState::new();
    mm.whitelist_consumer("con9".to_string());
    mm.use_whitelist();
    mm.use_whitelist();
    let err = mm.attach_consumer("stranger".to_string()).unwrap_err();
    assert_eq!(err, MarketError::NotWhitelisted);
    mm.attach_consumer("con9".to_string()).unwrap();
    // disabling admits everyone but keeps the membership
    mm.reset_whitelist();
    mm.attach_consumer("stranger".to_string()).unwrap();
    mm.use_whitelist();
    let err = mm.attach_consumer("other".to_string()).unwrap_err();
    assert_eq!(err, MarketError::NotWhitelisted);
    let err = mm.attach_consumer("con8".to_string()).unwrap_err();
    assert_eq!(err, MarketError::NotWhitelisted);
    mm.whitelist_consumer("con8".to_string());
    mm.attach_consumer("con8".to_string()).unwrap();
}
