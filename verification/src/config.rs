//! Plain value types describing devices, modalities and the caller's
//! configuration choices.

use vstd::prelude::*;

verus! {

/// A trackable modality of the native engine.
#[derive(Debug, Clone, Copy, PartialEq, Eq, Structural)]
pub enum ModuleType {
    DepthSensor,
    ColorSensor,
    UserTracker,
    SkeletonTracker,
    HandTracker,
    GestureRecognizer,
}

/// How the caller names the device a configuration applies to.
#[derive(Debug, Clone)]
pub enum DeviceSelector {
    /// The device at this index of the enumeration order.
    ByIndex(usize),
    /// The device with exactly this serial number.
    BySerialNumber(String),
    /// Expects exactly one device and uses it; fails on zero or several.
    DefaultSingle,
}

/// One device to activate, and the modules to instantiate on it.
#[derive(Debug, Clone)]
pub struct DeviceConfig {
    pub selector: DeviceSelector,
    pub modules_to_create: Vec<ModuleType>,
}

/// An opaque token standing for a native device handle held by the driver.
/// The wrapper never looks inside it; it only hands it back to the driver
/// when that device is to be selected.
pub type DeviceHandle = u64;

/// One physical device found during enumeration. Produced fresh on each
/// discovery call; `handle` must stay valid on the driver's side for any
/// later selection of this device.
#[derive(Debug, Clone)]
pub struct DiscoveredDeviceInfo {
    pub name: String,
    pub serial_number: String,
    pub provider_name: String,
    /// The position this device had in the enumeration that produced it.
    pub original_index: usize,
    pub handle: DeviceHandle,
}

/// An opaque token standing for one native module instance created by the
/// driver for a given modality.
#[derive(Debug, Clone, Copy, PartialEq, Eq, Structural)]
pub struct ModuleHandle {
    pub module_type: ModuleType,
    pub id: u64,
}

} // verus!
