use nuitrack_rs::builder::{
    effective_device_configs, module_creation_result, plan_device_configurations,
};
use nuitrack_rs::devices::{assemble_device_infos, find_target_device, RawDeviceEntry};
use nuitrack_rs::{DeviceConfig, DeviceSelector, DiscoveredDeviceInfo, ModuleType, NuitrackError};

fn device(serial: &str, index: usize) -> DiscoveredDeviceInfo {
    DiscoveredDeviceInfo {
        name: format!("camera {}", index),
        serial_number: serial.to_string(),
        provider_name: "provider".to_string(),
        original_index: index,
        handle: 100 + index as u64,
    }
}

#[test]
fn default_single_over_one_device() {
    let devices = vec![device("A", 0)];
    let ix = find_target_device(&devices, &DeviceSelector::DefaultSingle).unwrap();
    assert_eq!(ix, 0);
}

#[test]
fn default_single_over_zero_or_two_devices_fails() {
    let none: Vec<DiscoveredDeviceInfo> = Vec::new();
    assert!(matches!(
        find_target_device(&none, &DeviceSelector::DefaultSingle),
        Err(NuitrackError::DeviceError(_))
    ));
    let two = vec![device("A", 0), device("B", 1)];
    assert!(matches!(
        find_target_device(&two, &DeviceSelector::DefaultSingle),
        Err(NuitrackError::DeviceError(_))
    ));
}

#[test]
fn by_index_resolution() {
    let three = vec![device("A", 0), device("B", 1), device("C", 2)];
    assert_eq!(find_target_device(&three, &DeviceSelector::ByIndex(2)).unwrap(), 2);
    assert!(matches!(
        find_target_device(&three, &DeviceSelector::ByIndex(5)),
        Err(NuitrackError::DeviceError(_))
    ));
}

#[test]
fn by_serial_number_resolution() {
    let devices = vec![device("A", 0), device("X", 1), device("X", 2)];
    let found = find_target_device(&devices, &DeviceSelector::BySerialNumber("X".to_string()));
    // The first match wins.
    assert_eq!(found.unwrap(), 1);
    assert!(matches!(
        find_target_device(&devices, &DeviceSelector::BySerialNumber("Q".to_string())),
        Err(NuitrackError::DeviceError(_))
    ));
}

/// A metadata getter that failed is substituted with a sentinel; the entry
/// survives with its handle and position.
#[test]
fn assembly_substitutes_sentinels() {
    let raw = vec![
        RawDeviceEntry {
            handle: 11,
            name: Some("front camera".to_string()),
            serial_number: None,
            provider_name: Some("provider".to_string()),
        },
        RawDeviceEntry { handle: 22, name: None, serial_number: None, provider_name: None },
    ];
    let infos = assemble_device_infos(&raw);
    assert_eq!(infos.len(), 2);
    assert_eq!(infos[0].name, "front camera");
    assert_eq!(infos[0].serial_number, "N/A");
    assert_eq!(infos[0].provider_name, "provider");
    assert_eq!(infos[0].original_index, 0);
    assert_eq!(infos[0].handle, 11);
    assert_eq!(infos[1].name, "N/A");
    assert_eq!(infos[1].original_index, 1);
    assert_eq!(infos[1].handle, 22);
}

#[test]
fn explicit_configs_are_kept() {
    let config = DeviceConfig {
        selector: DeviceSelector::ByIndex(1),
        modules_to_create: vec![ModuleType::DepthSensor],
    };
    let kept = effective_device_configs(vec![config], 5).unwrap();
    assert_eq!(kept.len(), 1);
    assert!(matches!(kept[0].selector, DeviceSelector::ByIndex(1)));
}

#[test]
fn missing_configs_default_on_a_single_device() {
    let defaulted = effective_device_configs(Vec::new(), 1).unwrap();
    assert_eq!(defaulted.len(), 1);
    assert!(matches!(defaulted[0].selector, DeviceSelector::ByIndex(0)));
    assert_eq!(
        defaulted[0].modules_to_create,
        vec![ModuleType::HandTracker, ModuleType::SkeletonTracker]
    );
}

#[test]
fn missing_configs_with_no_device_stay_empty() {
    assert!(effective_device_configs(Vec::new(), 0).unwrap().is_empty());
}

#[test]
fn missing_configs_over_several_devices_are_ambiguous() {
    assert!(matches!(
        effective_device_configs(Vec::new(), 2),
        Err(NuitrackError::DeviceError(_))
    ));
}

#[test]
fn planning_resolves_each_config_in_order() {
    let devices = vec![device("A", 0), device("B", 1)];
    let configs = vec![
        DeviceConfig {
            selector: DeviceSelector::BySerialNumber("B".to_string()),
            modules_to_create: vec![ModuleType::SkeletonTracker, ModuleType::HandTracker],
        },
        DeviceConfig {
            selector: DeviceSelector::ByIndex(0),
            modules_to_create: vec![ModuleType::ColorSensor],
        },
    ];
    let plans = plan_device_configurations(&devices, &configs).unwrap();
    assert_eq!(plans.len(), 2);
    assert_eq!(plans[0].device_index, 1);
    assert_eq!(plans[0].handle, 101);
    assert_eq!(plans[0].modules, vec![ModuleType::SkeletonTracker, ModuleType::HandTracker]);
    assert_eq!(plans[1].device_index, 0);
    assert_eq!(plans[1].handle, 100);
}

#[test]
fn planning_stops_at_the_first_unresolvable_selector() {
    let devices = vec![device("A", 0)];
    let configs = vec![
        DeviceConfig { selector: DeviceSelector::ByIndex(0), modules_to_create: Vec::new() },
        DeviceConfig { selector: DeviceSelector::ByIndex(4), modules_to_create: Vec::new() },
    ];
    assert!(matches!(
        plan_device_configurations(&devices, &configs),
        Err(NuitrackError::DeviceError(_))
    ));
}

#[test]
fn module_creation_outcomes_are_mapped() {
    let created = module_creation_result(ModuleType::HandTracker, Ok(7)).unwrap();
    assert_eq!(created.module_type, ModuleType::HandTracker);
    assert_eq!(created.id, 7);
    match module_creation_result(ModuleType::DepthSensor, Err("factory threw".to_string())) {
        Err(NuitrackError::ModuleCreationFailed(m)) => assert_eq!(m, "factory threw"),
        other => panic!("expected ModuleCreationFailed, got {:?}", other),
    }
}
