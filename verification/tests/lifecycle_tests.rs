//! One whole session lifecycle against a counting mock engine: acquisition,
//! discovery, planning, activation, processing, update cycles, teardown.

use nuitrack_rs::builder::{
    effective_device_configs, module_creation_result, plan_device_configurations,
};
use nuitrack_rs::devices::{assemble_device_infos, RawDeviceEntry};
use nuitrack_rs::guard::{complete_acquire, InitFlag};
use nuitrack_rs::session::{CloseAction, UpdateAction};
use nuitrack_rs::{ActiveDeviceContext, ModuleType, NuitrackSession};

/// The native engine, reduced to counters.
struct MockEngine {
    inits: usize,
    releases: usize,
    runs: usize,
    set_devices: usize,
    created_modules: u64,
    waits: usize,
}

impl MockEngine {
    fn new() -> MockEngine {
        MockEngine { inits: 0, releases: 0, runs: 0, set_devices: 0, created_modules: 0, waits: 0 }
    }
}

#[test]
fn one_session_from_acquire_to_close() {
    let mut engine = MockEngine::new();
    let mut flag = InitFlag::new();

    // Acquisition: win the flag, initialize natively, complete.
    let permit = flag.try_acquire().unwrap();
    engine.inits += 1;
    let guard = complete_acquire(&mut flag, permit, Ok(())).unwrap();

    // Discovery: two devices, one with a failing name getter.
    let raw = vec![
        RawDeviceEntry {
            handle: 501,
            name: Some("left camera".to_string()),
            serial_number: Some("SN-1".to_string()),
            provider_name: Some("provider".to_string()),
        },
        RawDeviceEntry {
            handle: 502,
            name: None,
            serial_number: Some("SN-2".to_string()),
            provider_name: Some("provider".to_string()),
        },
    ];
    let devices = assemble_device_infos(&raw);

    // Two devices and no explicit configuration would be ambiguous, so the
    // caller names both devices.
    let configs = effective_device_configs(
        vec![
            nuitrack_rs::DeviceConfig {
                selector: nuitrack_rs::DeviceSelector::BySerialNumber("SN-2".to_string()),
                modules_to_create: vec![ModuleType::SkeletonTracker, ModuleType::HandTracker],
            },
            nuitrack_rs::DeviceConfig {
                selector: nuitrack_rs::DeviceSelector::ByIndex(0),
                modules_to_create: vec![ModuleType::DepthSensor],
            },
        ],
        devices.len(),
    )
    .unwrap();

    // Planning and activation: select each device, create its modules.
    let plans = plan_device_configurations(&devices, &configs).unwrap();
    let mut contexts: Vec<ActiveDeviceContext> = Vec::new();
    for plan in plans {
        engine.set_devices += 1;
        let mut context = ActiveDeviceContext::new(devices[plan.device_index].clone());
        for module_type in plan.modules {
            engine.created_modules += 1;
            let module = module_creation_result(module_type, Ok(engine.created_modules)).unwrap();
            context.add_module(module);
        }
        contexts.push(context);
    }
    assert_eq!(engine.set_devices, 2);
    assert_eq!(engine.created_modules, 3);
    assert_eq!(contexts[0].info.serial_number, "SN-2");
    assert_eq!(contexts[0].info.name, "N/A");
    assert_eq!(contexts[1].info.serial_number, "SN-1");

    // Processing, with a background loop.
    let mut session = NuitrackSession::new(guard, contexts, true);
    engine.runs += 1;
    session.start_processing(Ok(())).unwrap();
    assert!(session.update_loop_running());

    // A manual update cycle waits once per device, on its first-created
    // module.
    for action in session.update_cycle_plan() {
        match action {
            UpdateAction::WaitOn(module) => {
                engine.waits += 1;
                assert!(module.id == 1 || module.id == 3);
            },
            UpdateAction::GlobalUpdate => panic!("representatives exist; no global pump"),
        }
    }
    assert_eq!(engine.waits, 2);

    // Teardown: the plan cancels, joins, then releases, exactly once.
    let mut joined = false;
    for action in session.close(&mut flag) {
        match action {
            CloseAction::CancelLoop => assert!(!joined),
            CloseAction::JoinLoop => joined = true,
            CloseAction::NativeRelease => {
                assert!(joined);
                engine.releases += 1;
            },
        }
    }
    assert_eq!(engine.releases, 1);

    // A forgotten guard dropped after the close finds the flag down.
    assert!(!flag.swap_release());
    assert_eq!(engine.inits, engine.releases);
}
