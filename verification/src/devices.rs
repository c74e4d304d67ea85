//! Device discovery: turning raw enumeration output into device descriptions,
//! and resolving a selection policy against a previously fetched list.

use vstd::prelude::*;
use crate::config::{DeviceHandle, DeviceSelector, DiscoveredDeviceInfo};
use crate::error::NuitrackError;

verus! {

/// What the driver read from the native side for one enumerated device:
/// the opaque handle and the outcome of each metadata getter. A getter that
/// failed is `None`; its value is substituted with a sentinel, because
/// partial device metadata is still actionable.
pub struct RawDeviceEntry {
    pub handle: DeviceHandle,
    pub name: Option<String>,
    pub serial_number: Option<String>,
    pub provider_name: Option<String>,
}

/// The field value recorded for a getter outcome: the value read, or the
/// sentinel when the getter failed.
pub open spec fn field_or_sentinel(read: Option<String>) -> Seq<char> {
    match read {
        Option::Some(s) => s@,
        Option::None => "N/A"@,
    }
}

/// The relation between one raw enumeration entry and the device description
/// assembled from it at enumeration position `i`.
pub open spec fn assembled_from(info: DiscoveredDeviceInfo, raw: RawDeviceEntry, i: int) -> bool {
    &&& info.handle == raw.handle
    &&& info.original_index == i
    &&& info.name@ == field_or_sentinel(raw.name)
    &&& info.serial_number@ == field_or_sentinel(raw.serial_number)
    &&& info.provider_name@ == field_or_sentinel(raw.provider_name)
}

/// Builds the device list from raw enumeration output: one entry per device,
/// in enumeration order, with `"N/A"` in place of each field whose getter
/// failed. A getter failure never aborts the whole discovery.
pub fn assemble_device_infos(raw: &Vec<RawDeviceEntry>) -> (r: Vec<DiscoveredDeviceInfo>)
    ensures
        r@.len() == raw@.len(),
        forall|i: int| 0 <= i < raw@.len() ==> assembled_from(#[trigger] r@[i], raw@[i], i),
{
    let mut out: Vec<DiscoveredDeviceInfo> = Vec::new();
    let mut i: usize = 0;
    while i < raw.len()
        invariant
            i <= raw@.len(),
            out@.len() == i,
            forall|k: int| 0 <= k < i ==> assembled_from(#[trigger] out@[k], raw@[k], k),
        decreases raw@.len() - i,
    {
        let entry = &raw[i];
        let name = match &entry.name {
            Option::Some(s) => s.clone(),
            Option::None => "N/A".to_owned(),
        };
        let serial_number = match &entry.serial_number {
            Option::Some(s) => s.clone(),
            Option::None => "N/A".to_owned(),
        };
        let provider_name = match &entry.provider_name {
            Option::Some(s) => s.clone(),
            Option::None => "N/A".to_owned(),
        };
        out.push(DiscoveredDeviceInfo {
            name,
            serial_number,
            provider_name,
            original_index: i,
            handle: entry.handle,
        });
        i += 1;
    }
    out
}

/// `i` is the position the selector resolves to over `devices`: the single
/// device for `DefaultSingle`, the named index for `ByIndex`, and the first
/// device with the given serial number for `BySerialNumber`.
pub open spec fn resolves_to(
    devices: Seq<DiscoveredDeviceInfo>,
    selector: DeviceSelector,
    i: int,
) -> bool {
    match selector {
        DeviceSelector::DefaultSingle => devices.len() == 1 && i == 0,
        DeviceSelector::ByIndex(idx) => i == idx && idx < devices.len(),
        DeviceSelector::BySerialNumber(s) => {
            &&& 0 <= i < devices.len()
            &&& devices[i].serial_number@ == s@
            &&& forall|k: int| 0 <= k < i ==> (#[trigger] devices[k].serial_number@) != s@
        },
    }
}

/// A selector resolves over a list when some position satisfies it.
pub open spec fn selector_resolvable(
    devices: Seq<DiscoveredDeviceInfo>,
    selector: DeviceSelector,
) -> bool {
    exists|i: int| resolves_to(devices, selector, i)
}

/// A selector resolves to at most one position.
pub proof fn lemma_resolution_unique(
    devices: Seq<DiscoveredDeviceInfo>,
    selector: DeviceSelector,
    i: int,
    j: int,
)
    requires
        resolves_to(devices, selector, i),
        resolves_to(devices, selector, j),
    ensures
        i == j,
{
    match selector {
        DeviceSelector::BySerialNumber(s) => {
            if i < j {
                assert(devices[i].serial_number@ != s@);
            } else if j < i {
                assert(devices[j].serial_number@ != s@);
            }
        },
        _ => {},
    }
}

/// Resolves a `DeviceSelector` against a previously fetched device list.
/// Pure: no side effects, no native calls. Returns the index of the selected
/// device in `devices`, or `DeviceError` when the policy matches nothing:
/// `DefaultSingle` over a list that does not have exactly one entry,
/// `ByIndex` out of range, `BySerialNumber` with no exact match.
pub fn find_target_device(
    devices: &Vec<DiscoveredDeviceInfo>,
    selector: &DeviceSelector,
) -> (r: Result<usize, NuitrackError>)
    ensures
        match r {
            Result::Ok(ix) => resolves_to(devices@, *selector, ix as int),
            Result::Err(e) => !selector_resolvable(devices@, *selector) && e is DeviceError,
        },
{
    match selector {
        DeviceSelector::DefaultSingle => {
            if devices.len() == 1 {
                Ok(0)
            } else {
                Err(NuitrackError::DeviceError(
                    "DefaultSingle policy: expected exactly one device".to_owned(),
                ))
            }
        },
        DeviceSelector::ByIndex(idx) => {
            if *idx < devices.len() {
                Ok(*idx)
            } else {
                Err(NuitrackError::DeviceError(
                    "no device at the requested index".to_owned(),
                ))
            }
        },
        DeviceSelector::BySerialNumber(serial) => {
            let mut i: usize = 0;
            while i < devices.len()
                invariant
                    *selector == DeviceSelector::BySerialNumber(*serial),
                    i <= devices@.len(),
                    forall|k: int|
                        0 <= k < i ==> (#[trigger] devices@[k].serial_number@) != serial@,
                decreases devices@.len() - i,
            {
                let found = devices[i].serial_number.eq(serial);
                if found {
                    return Ok(i);
                }
                i += 1;
            }
            Err(NuitrackError::DeviceError(
                "no device with the requested serial number".to_owned(),
            ))
        },
    }
}

} // verus!
