//! The configuration builder: collecting the caller's choices, defaulting
//! them against what discovery found, and planning device activation.
//!
//! The builder itself is pure bookkeeping. Initialization is driven from
//! outside: the driver acquires the guard (`guard` module), fetches the
//! device list (`devices` module), asks `effective_device_configs` what to
//! activate, asks `plan_device_configurations` where each configuration
//! lands, performs the native device selection and module creation, and
//! finally hands everything to `NuitrackSession::new`. The two-phase variant
//! parks the guard in a `DeviceDiscoveryState` so the caller can inspect the
//! discovered devices before finalizing.

use vstd::prelude::*;
use crate::config::{DeviceConfig, DeviceHandle, DeviceSelector, DiscoveredDeviceInfo, ModuleHandle, ModuleType};
use crate::devices::{find_target_device, resolves_to, selector_resolvable};
use crate::error::NuitrackError;
use crate::guard::{drop_guard, InitFlag, RuntimeGuard};

verus! {

/// Collects a session's configuration before initialization.
pub struct NuitrackSessionBuilder {
    global_config_path: Option<String>,
    device_configurations: Vec<DeviceConfig>,
    run_internal_update_loop: bool,
    config_values: Vec<(String, String)>,
}

/// Whether some pair in `pairs` has the key `key`.
pub open spec fn has_config_key(pairs: Seq<(String, String)>, key: Seq<char>) -> bool {
    exists|i: int| 0 <= i < pairs.len() && (#[trigger] pairs[i].0)@ == key
}

/// Keys occur at most once among the configuration overrides.
pub open spec fn config_keys_unique(pairs: Seq<(String, String)>) -> bool {
    forall|i: int, j: int|
        0 <= i < j < pairs.len() ==> (#[trigger] pairs[i].0)@ != (#[trigger] pairs[j].0)@
}

impl NuitrackSessionBuilder {
    /// The configuration file path handed to native initialization, if any.
    pub closed spec fn config_path(&self) -> Option<String> {
        self.global_config_path
    }

    /// The device configurations added so far, in order.
    pub closed spec fn device_configs(&self) -> Seq<DeviceConfig> {
        self.device_configurations@
    }

    /// Whether a background update loop is requested.
    pub closed spec fn wants_update_loop(&self) -> bool {
        self.run_internal_update_loop
    }

    /// The configuration overrides applied after native initialization, in
    /// insertion order, one entry per key.
    pub closed spec fn overrides(&self) -> Seq<(String, String)> {
        self.config_values@
    }

    /// A fresh builder: no path, no device configurations, no overrides, and
    /// a background update loop by default.
    pub fn new() -> (r: NuitrackSessionBuilder)
        ensures
            r.config_path() is None,
            r.device_configs() =~= Seq::<DeviceConfig>::empty(),
            r.wants_update_loop(),
            r.overrides() =~= Seq::<(String, String)>::empty(),
            config_keys_unique(r.overrides()),
    {
        NuitrackSessionBuilder {
            global_config_path: None,
            device_configurations: Vec::new(),
            run_internal_update_loop: true,
            config_values: Vec::new(),
        }
    }

    /// The collected configuration file path.
    pub fn path(&self) -> (r: &Option<String>)
        ensures
            *r == self.config_path(),
    {
        &self.global_config_path
    }

    /// The collected device configurations.
    pub fn configurations(&self) -> (r: &Vec<DeviceConfig>)
        ensures
            r@ == self.device_configs(),
    {
        &self.device_configurations
    }

    /// Whether a background update loop is requested.
    pub fn wants_loop(&self) -> (r: bool)
        ensures
            r == self.wants_update_loop(),
    {
        self.run_internal_update_loop
    }

    /// The collected configuration overrides, in application order.
    pub fn override_pairs(&self) -> (r: &Vec<(String, String)>)
        ensures
            r@ == self.overrides(),
    {
        &self.config_values
    }

    /// Sets the configuration file path, an opaque string passed through to
    /// native initialization unexamined.
    pub fn global_config_path(self, path: &str) -> (r: NuitrackSessionBuilder)
        ensures
            r.config_path() matches Some(p) && p@ == path@,
            r.device_configs() =~= self.device_configs(),
            r.wants_update_loop() == self.wants_update_loop(),
            r.overrides() =~= self.overrides(),
    {
        let mut this = self;
        this.global_config_path = Some(path.to_owned());
        this
    }

    /// Records one configuration override to apply right after native
    /// initialization. A key set before is overwritten in place; a new key is
    /// appended, so keys stay unique and application order is stable.
    pub fn with_config_value(self, key: &str, value: &str) -> (r: NuitrackSessionBuilder)
        requires
            config_keys_unique(self.overrides()),
        ensures
            r.config_path() == self.config_path(),
            r.device_configs() =~= self.device_configs(),
            r.wants_update_loop() == self.wants_update_loop(),
            config_keys_unique(r.overrides()),
            has_config_key(self.overrides(), key@) ==> {
                &&& r.overrides().len() == self.overrides().len()
                &&& exists|i: int|
                    {
                        &&& 0 <= i < self.overrides().len()
                        &&& (#[trigger] self.overrides()[i].0)@ == key@
                        &&& r.overrides()[i].0@ == key@
                        &&& r.overrides()[i].1@ == value@
                        &&& forall|j: int|
                            0 <= j < self.overrides().len() && j != i ==> r.overrides()[j]
                                == self.overrides()[j]
                    }
            },
            !has_config_key(self.overrides(), key@) ==> {
                &&& r.overrides().len() == self.overrides().len() + 1
                &&& r.overrides().drop_last() =~= self.overrides()
                &&& r.overrides().last().0@ == key@
                &&& r.overrides().last().1@ == value@
            },
    {
        let ghost orig = self;
        let key_string = key.to_owned();
        let mut this = self;
        let mut i: usize = 0;
        while i < this.config_values.len()
            invariant
                orig == self,
                key_string@ == key@,
                config_keys_unique(orig.overrides()),
                this.config_path() == orig.config_path(),
                this.device_configs() =~= orig.device_configs(),
                this.wants_update_loop() == orig.wants_update_loop(),
                this.overrides() =~= orig.overrides(),
                i <= this.overrides().len(),
                forall|k: int| 0 <= k < i ==> (#[trigger] orig.overrides()[k].0)@ != key@,
            decreases this.overrides().len() - i,
        {
            let hit = this.config_values[i].0.eq(&key_string);
            if hit {
                let ghost before = this.overrides();
                let pair = this.config_values.remove(i);
                let replacement = (pair.0, value.to_owned());
                this.config_values.insert(i, replacement);
                proof {
                    assert(this.overrides() =~= before.update(i as int, replacement));
                    assert(before[i as int].0@ == key@);
                    assert forall|a: int, b: int| 0 <= a < b < this.overrides().len() implies (
                    #[trigger] this.overrides()[a].0)@ != (#[trigger] this.overrides()[b].0)@ by {
                        assert(this.overrides()[a].0 == before[a].0);
                        assert(this.overrides()[b].0 == before[b].0);
                    }
                }
                return this;
            }
            i += 1;
        }
        this.config_values.push((key_string, value.to_owned()));
        proof {
            let pushed = this.overrides();
            assert(pushed.drop_last() =~= orig.overrides());
            assert forall|a: int, b: int| 0 <= a < b < pushed.len() implies (
            #[trigger] pushed[a].0)@ != (#[trigger] pushed[b].0)@ by {
                if b < pushed.len() - 1 {
                    assert(pushed[a].0 == orig.overrides()[a].0);
                    assert(pushed[b].0 == orig.overrides()[b].0);
                } else {
                    assert(pushed[a].0 == orig.overrides()[a].0);
                    assert(pushed[b].0@ == key@);
                }
            }
        }
        this
    }

    /// Adds one device configuration.
    pub fn with_device_config(self, config: DeviceConfig) -> (r: NuitrackSessionBuilder)
        ensures
            r.config_path() == self.config_path(),
            r.device_configs() =~= self.device_configs().push(config),
            r.wants_update_loop() == self.wants_update_loop(),
            r.overrides() =~= self.overrides(),
    {
        let mut this = self;
        this.device_configurations.push(config);
        this
    }

    /// Chooses whether a background update loop is spawned when processing
    /// starts.
    pub fn manage_update_loop(self, enabled: bool) -> (r: NuitrackSessionBuilder)
        ensures
            r.config_path() == self.config_path(),
            r.device_configs() =~= self.device_configs(),
            r.wants_update_loop() == enabled,
            r.overrides() =~= self.overrides(),
    {
        let mut this = self;
        this.run_internal_update_loop = enabled;
        this
    }
}

/// The device configuration used when a caller asks for a session on the
/// single default device: the device at enumeration index zero, with the
/// given modules.
pub fn single_default_device_config(modules_to_create: Vec<ModuleType>) -> (r: DeviceConfig)
    ensures
        r.selector matches DeviceSelector::ByIndex(i) && i == 0,
        r.modules_to_create == modules_to_create,
{
    DeviceConfig { selector: DeviceSelector::ByIndex(0), modules_to_create }
}

/// The default modules activated when no configuration was given and exactly
/// one device is present.
pub open spec fn default_modules() -> Seq<ModuleType> {
    seq![ModuleType::HandTracker, ModuleType::SkeletonTracker]
}

/// Resolves the ambiguity policy: explicit configurations are used as given;
/// with none, a single available device gets a default configuration, no
/// device at all gets none (the session simply has no active device), and
/// several devices are an error — silently picking one in a multi-camera
/// setup would be a correctness hazard for the caller.
pub fn effective_device_configs(configs: Vec<DeviceConfig>, available_count: usize) -> (r: Result<
    Vec<DeviceConfig>,
    NuitrackError,
>)
    ensures
        configs@.len() > 0 ==> (r matches Ok(c) && c@ == configs@),
        configs@.len() == 0 && available_count == 1 ==> (r matches Ok(c) && c@.len() == 1 && (
        c@[0].selector matches DeviceSelector::ByIndex(i) && i == 0) && c@[0].modules_to_create@
            =~= default_modules()),
        configs@.len() == 0 && available_count == 0 ==> (r matches Ok(c) && c@.len() == 0),
        configs@.len() == 0 && available_count > 1 ==> (r matches Err(e) && e is DeviceError),
{
    if configs.len() > 0 {
        Ok(configs)
    } else if available_count == 1 {
        let mut modules: Vec<ModuleType> = Vec::new();
        modules.push(ModuleType::HandTracker);
        modules.push(ModuleType::SkeletonTracker);
        let mut one: Vec<DeviceConfig> = Vec::new();
        one.push(DeviceConfig { selector: DeviceSelector::ByIndex(0), modules_to_create: modules });
        Ok(one)
    } else if available_count == 0 {
        Ok(Vec::new())
    } else {
        Err(NuitrackError::DeviceError(
            "multiple devices found; specific configuration or DefaultSingle selector required".to_owned(),
        ))
    }
}

/// Where one device configuration lands: the resolved device, its native
/// handle for the selection call, and the modules to create on it.
pub struct DevicePlan {
    pub device_index: usize,
    pub handle: DeviceHandle,
    pub modules: Vec<ModuleType>,
}

/// Resolves every configuration against the discovered device list, in
/// order, stopping at the first selector that matches nothing. Pure: the
/// native selection and creation calls are the driver's, one plan entry at a
/// time, fully serialized.
pub fn plan_device_configurations(
    devices: &Vec<DiscoveredDeviceInfo>,
    configs: &Vec<DeviceConfig>,
) -> (r: Result<Vec<DevicePlan>, NuitrackError>)
    ensures
        match r {
            Result::Ok(plans) => {
                &&& plans@.len() == configs@.len()
                &&& forall|i: int|
                    0 <= i < configs@.len() ==> {
                        &&& resolves_to(
                            devices@,
                            configs@[i].selector,
                            (#[trigger] plans@[i]).device_index as int,
                        )
                        &&& plans@[i].handle == devices@[plans@[i].device_index as int].handle
                        &&& plans@[i].modules@ == configs@[i].modules_to_create@
                    }
            },
            Result::Err(e) => {
                &&& e is DeviceError
                &&& exists|i: int|
                    {
                        &&& 0 <= i < configs@.len()
                        &&& !selector_resolvable(devices@, (#[trigger] configs@[i]).selector)
                        &&& forall|j: int|
                            0 <= j < i ==> selector_resolvable(
                                devices@,
                                (#[trigger] configs@[j]).selector,
                            )
                    }
            },
        },
{
    let mut plans: Vec<DevicePlan> = Vec::new();
    let mut i: usize = 0;
    while i < configs.len()
        invariant
            i <= configs@.len(),
            plans@.len() == i,
            forall|k: int|
                0 <= k < i ==> {
                    &&& resolves_to(
                        devices@,
                        configs@[k].selector,
                        (#[trigger] plans@[k]).device_index as int,
                    )
                    &&& plans@[k].handle == devices@[plans@[k].device_index as int].handle
                    &&& plans@[k].modules@ == configs@[k].modules_to_create@
                },
            forall|k: int|
                0 <= k < i ==> selector_resolvable(devices@, (#[trigger] configs@[k]).selector),
        decreases configs@.len() - i,
    {
        let config = &configs[i];
        match find_target_device(devices, &config.selector) {
            Result::Ok(device_index) => {
                let mut modules: Vec<ModuleType> = Vec::new();
                let mut m: usize = 0;
                while m < config.modules_to_create.len()
                    invariant
                        m <= config.modules_to_create@.len(),
                        modules@ =~= config.modules_to_create@.take(m as int),
                    decreases config.modules_to_create@.len() - m,
                {
                    modules.push(config.modules_to_create[m]);
                    proof {
                        assert(config.modules_to_create@.take(m as int).push(
                            config.modules_to_create@[m as int],
                        ) =~= config.modules_to_create@.take(m + 1));
                    }
                    m += 1;
                }
                proof {
                    assert(config.modules_to_create@.take(config.modules_to_create@.len() as int)
                        =~= config.modules_to_create@);
                }
                plans.push(DevicePlan { device_index, handle: devices[device_index].handle, modules });
            },
            Result::Err(e) => {
                return Err(e);
            },
        }
        i += 1;
    }
    Ok(plans)
}

/// Maps the outcome of one native module factory call: an acknowledged id
/// becomes the module's handle, a failure becomes `ModuleCreationFailed`
/// carrying the native message.
pub fn module_creation_result(module_type: ModuleType, outcome: Result<u64, String>) -> (r: Result<
    ModuleHandle,
    NuitrackError,
>)
    ensures
        match outcome {
            Result::Ok(id) => r == Ok::<ModuleHandle, NuitrackError>(
                ModuleHandle { module_type, id },
            ),
            Result::Err(m) => r matches Err(e) && e matches NuitrackError::ModuleCreationFailed(em)
                && em@ == m@,
        },
{
    match outcome {
        Result::Ok(id) => Ok(ModuleHandle { module_type, id }),
        Result::Err(m) => Err(NuitrackError::ModuleCreationFailed(m)),
    }
}

/// The phased initialization's resting point: the guard and the discovered
/// devices, held while the caller inspects the list and decides on its
/// configurations. The guard is owned here — transferred in, never
/// duplicated — and must leave exactly once: into the finalized session, or
/// through `abandon`.
pub struct DeviceDiscoveryState {
    guard: Option<RuntimeGuard>,
    available_devices: Vec<DiscoveredDeviceInfo>,
    run_internal_update_loop: bool,
}

impl DeviceDiscoveryState {
    /// Whether the guard is still parked here.
    pub closed spec fn has_guard(&self) -> bool {
        self.guard is Some
    }

    /// The devices discovery found, in enumeration order.
    pub closed spec fn devices(&self) -> Seq<DiscoveredDeviceInfo> {
        self.available_devices@
    }

    /// Whether the builder asked for a background update loop.
    pub closed spec fn wants_update_loop(&self) -> bool {
        self.run_internal_update_loop
    }

    /// Parks the freshly acquired guard with the discovery result.
    pub fn new(
        guard: RuntimeGuard,
        available_devices: Vec<DiscoveredDeviceInfo>,
        run_internal_update_loop: bool,
    ) -> (r: DeviceDiscoveryState)
        ensures
            r.has_guard(),
            r.devices() == available_devices@,
            r.wants_update_loop() == run_internal_update_loop,
    {
        DeviceDiscoveryState { guard: Some(guard), available_devices, run_internal_update_loop }
    }

    /// The discovered devices, for the caller's inspection.
    pub fn list_devices(&self) -> (r: &Vec<DiscoveredDeviceInfo>)
        ensures
            r@ == self.devices(),
    {
        &self.available_devices
    }

    /// Takes the guard out for finalization. Fails if it already left: the
    /// guard exists once and moves on exactly once.
    pub fn take_guard(&mut self) -> (r: Result<RuntimeGuard, NuitrackError>)
        ensures
            final(self).devices() == old(self).devices(),
            final(self).wants_update_loop() == old(self).wants_update_loop(),
            !final(self).has_guard(),
            r is Ok <==> old(self).has_guard(),
            r matches Err(e) ==> e is OperationFailed,
    {
        match self.guard.take() {
            Option::Some(g) => Ok(g),
            Option::None => Err(
                NuitrackError::OperationFailed(
                    "runtime guard already taken from discovery state".to_owned(),
                ),
            ),
        }
    }

    /// Abandonment without finalizing: whatever guard is still parked here is
    /// dropped, releasing the engine best-effort exactly as a guard drop
    /// does. Returns whether the driver must call native release.
    pub fn abandon(self, flag: &mut InitFlag, lock_available: bool) -> (native_release: bool)
        ensures
            self.has_guard() && lock_available ==> native_release == old(flag).initialized()
                && !final(flag).initialized(),
            !(self.has_guard() && lock_available) ==> !native_release && final(flag).initialized()
                == old(flag).initialized(),
    {
        match self.guard {
            Option::Some(g) => drop_guard(g, flag, lock_available),
            Option::None => false,
        }
    }
}

} // verus!
