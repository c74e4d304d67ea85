use nuitrack_rs::builder::{single_default_device_config, DeviceDiscoveryState};
use nuitrack_rs::guard::{complete_acquire, InitFlag};
use nuitrack_rs::{
    DeviceConfig, DeviceSelector, DiscoveredDeviceInfo, ModuleType, Nuitrack, NuitrackError,
    NuitrackSessionBuilder,
};

fn info(serial: &str) -> DiscoveredDeviceInfo {
    DiscoveredDeviceInfo {
        name: "camera".to_string(),
        serial_number: serial.to_string(),
        provider_name: "provider".to_string(),
        original_index: 0,
        handle: 1,
    }
}

#[test]
fn builder_collects_the_configuration() {
    let fresh = NuitrackSessionBuilder::new();
    assert!(fresh.path().is_none());
    assert!(fresh.configurations().is_empty());
    assert!(fresh.wants_loop());
    assert!(fresh.override_pairs().is_empty());

    let builder = fresh
        .global_config_path("/etc/engine.config")
        .with_config_value("Realsense2Module.Depth.FPS", "30")
        .with_device_config(DeviceConfig {
            selector: DeviceSelector::DefaultSingle,
            modules_to_create: vec![ModuleType::SkeletonTracker],
        })
        .manage_update_loop(false);
    assert_eq!(builder.path().as_deref(), Some("/etc/engine.config"));
    assert_eq!(builder.configurations().len(), 1);
    assert!(matches!(builder.configurations()[0].selector, DeviceSelector::DefaultSingle));
    assert!(!builder.wants_loop());
    assert_eq!(builder.override_pairs().len(), 1);
}

#[test]
fn repeated_config_keys_overwrite_in_place() {
    // The second write of one key must not apply the override twice.
    let builder = NuitrackSessionBuilder::new()
        .with_config_value("Faces.ToUse", "true")
        .with_config_value("Faces.ToUse", "false")
        .with_config_value("DepthProvider.Mirror", "true");
    let pairs = builder.override_pairs();
    assert_eq!(pairs.len(), 2);
    assert_eq!(pairs[0].0, "Faces.ToUse");
    assert_eq!(pairs[0].1, "false");
    assert_eq!(pairs[1].0, "DepthProvider.Mirror");
    assert_eq!(pairs[1].1, "true");
}

#[test]
fn default_device_config_names_index_zero() {
    let config = single_default_device_config(vec![ModuleType::HandTracker]);
    assert!(matches!(config.selector, DeviceSelector::ByIndex(0)));
    assert_eq!(config.modules_to_create, vec![ModuleType::HandTracker]);
}

#[test]
fn discovery_state_hands_the_guard_out_once() {
    let mut flag = InitFlag::new();
    let permit = flag.try_acquire().unwrap();
    let guard = complete_acquire(&mut flag, permit, Ok(())).unwrap();

    let mut state = DeviceDiscoveryState::new(guard, vec![info("A"), info("B")], true);
    assert_eq!(state.list_devices().len(), 2);
    assert_eq!(state.list_devices()[1].serial_number, "B");

    let taken = state.take_guard();
    assert!(taken.is_ok());
    assert!(matches!(state.take_guard(), Err(NuitrackError::OperationFailed(_))));
}

#[test]
fn abandoned_discovery_releases_the_guard() {
    let mut flag = InitFlag::new();
    let permit = flag.try_acquire().unwrap();
    let guard = complete_acquire(&mut flag, permit, Ok(())).unwrap();

    let state = DeviceDiscoveryState::new(guard, vec![info("A")], false);
    // Dropped without finalizing: the parked guard must still release.
    assert!(state.abandon(&mut flag, true));
    assert!(!flag.swap_release());
}

#[test]
fn abandonment_after_finalization_releases_nothing() {
    let mut flag = InitFlag::new();
    let permit = flag.try_acquire().unwrap();
    let guard = complete_acquire(&mut flag, permit, Ok(())).unwrap();

    let mut state = DeviceDiscoveryState::new(guard, Vec::new(), false);
    let _guard = state.take_guard().unwrap();
    assert!(!state.abandon(&mut flag, true));
    // The guard that was taken out still owns the release.
    assert!(flag.swap_release());
}

#[test]
fn facade_init_wins_then_loses_the_flag_race() {
    let mut flag = InitFlag::new();
    let (first, release) = Nuitrack::init(&mut flag, Ok(()), 1, Ok(()));
    assert!(first.is_ok());
    assert!(!release);

    let (second, release2) = Nuitrack::init(&mut flag, Ok(()), 1, Ok(()));
    assert!(matches!(second, Err(NuitrackError::AlreadyInitialized)));
    assert!(!release2);
}

#[test]
fn facade_init_failures_roll_back_and_release() {
    let mut flag = InitFlag::new();
    let (failed, release) = Nuitrack::init(&mut flag, Err("bad config".to_string()), 1, Ok(()));
    match failed {
        Err(NuitrackError::InitFailed(m)) => assert_eq!(m, "bad config"),
        other => panic!("expected InitFailed, got {:?}", other),
    }
    // Initialization never completed: nothing to release natively.
    assert!(!release);

    let (no_device, release_after_init) = Nuitrack::init(&mut flag, Ok(()), 0, Ok(()));
    assert!(matches!(no_device, Err(NuitrackError::NoDeviceFound)));
    // The engine did initialize before the device check: release it.
    assert!(release_after_init);

    let (bad_device, release3) =
        Nuitrack::init(&mut flag, Ok(()), 2, Err("device busy".to_string()));
    assert!(matches!(bad_device, Err(NuitrackError::DeviceError(_))));
    assert!(release3);
}

#[test]
fn facade_run_and_drop() {
    let mut flag = InitFlag::new();
    let (made, _) = Nuitrack::init(&mut flag, Ok(()), 1, Ok(()));
    let facade = made.unwrap();
    assert!(facade.run(Ok(())).is_ok());
    match facade.run(Err("not running".to_string())) {
        Err(NuitrackError::NativeCallFailed(m)) => assert_eq!(m, "not running"),
        other => panic!("expected NativeCallFailed, got {:?}", other),
    }
    facade.release_on_drop(&mut flag);
    assert!(!flag.swap_release());
}
