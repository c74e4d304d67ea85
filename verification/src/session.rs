//! The session: the one object through which processing starts and stops.
//!
//! A session owns the runtime guard, the active device contexts, and — when a
//! background update loop was requested — the model of that loop's
//! cancellation state. Starting takes the outcome of the native run call;
//! closing produces the ordered list of actions the driver must perform, with
//! the native release strictly after the loop join, so the loop can never
//! call into a released engine.

use vstd::prelude::*;
use crate::config::{DiscoveredDeviceInfo, ModuleHandle, ModuleType};
use crate::error::NuitrackError;
use crate::guard::{release_guard, InitFlag, RuntimeGuard};

verus! {

/// One activated device: its description and the module instance created for
/// each requested modality. The first module created becomes the device's
/// representative: the one handle the update loop waits on for this device.
pub struct ActiveDeviceContext {
    pub info: DiscoveredDeviceInfo,
    pub depth_sensor: Option<ModuleHandle>,
    pub color_sensor: Option<ModuleHandle>,
    pub user_tracker: Option<ModuleHandle>,
    pub skeleton_tracker: Option<ModuleHandle>,
    pub hand_tracker: Option<ModuleHandle>,
    pub gesture_recognizer: Option<ModuleHandle>,
    pub representative: Option<ModuleHandle>,
}

impl ActiveDeviceContext {
    /// The module slot for one modality.
    pub open spec fn slot(&self, module_type: ModuleType) -> Option<ModuleHandle> {
        match module_type {
            ModuleType::DepthSensor => self.depth_sensor,
            ModuleType::ColorSensor => self.color_sensor,
            ModuleType::UserTracker => self.user_tracker,
            ModuleType::SkeletonTracker => self.skeleton_tracker,
            ModuleType::HandTracker => self.hand_tracker,
            ModuleType::GestureRecognizer => self.gesture_recognizer,
        }
    }

    /// Every filled slot holds a module of its own modality.
    pub open spec fn wf(&self) -> bool {
        forall|mt: ModuleType| (#[trigger] self.slot(mt)) matches Some(h) ==> h.module_type == mt
    }

    /// A context for a freshly selected device with no modules yet.
    pub fn new(info: DiscoveredDeviceInfo) -> (r: ActiveDeviceContext)
        ensures
            r.info == info,
            forall|mt: ModuleType| (#[trigger] r.slot(mt)) is None,
            r.representative is None,
            r.wf(),
    {
        ActiveDeviceContext {
            info,
            depth_sensor: None,
            color_sensor: None,
            user_tracker: None,
            skeleton_tracker: None,
            hand_tracker: None,
            gesture_recognizer: None,
            representative: None,
        }
    }

    /// Stores a successfully created module in its modality's slot. The first
    /// module added becomes the representative; later additions leave it
    /// alone. This choice is a heuristic — any one waitable handle on a
    /// device suffices to advance that device's pipeline.
    pub fn add_module(&mut self, m: ModuleHandle)
        ensures
            final(self).info == old(self).info,
            final(self).slot(m.module_type) == Some(m),
            forall|mt: ModuleType|
                mt != m.module_type ==> (#[trigger] final(self).slot(mt)) == old(self).slot(mt),
            final(self).representative == if old(self).representative is Some {
                old(self).representative
            } else {
                Some(m)
            },
            old(self).wf() ==> final(self).wf(),
    {
        match m.module_type {
            ModuleType::DepthSensor => self.depth_sensor = Some(m),
            ModuleType::ColorSensor => self.color_sensor = Some(m),
            ModuleType::UserTracker => self.user_tracker = Some(m),
            ModuleType::SkeletonTracker => self.skeleton_tracker = Some(m),
            ModuleType::HandTracker => self.hand_tracker = Some(m),
            ModuleType::GestureRecognizer => self.gesture_recognizer = Some(m),
        }
        if self.representative.is_none() {
            self.representative = Some(m);
        }
        proof {
            if old(self).wf() {
                assert forall|mt: ModuleType|
                    ((#[trigger] self.slot(mt)) matches Some(h) ==> h.module_type == mt) by {
                    if mt != m.module_type {
                        assert(self.slot(mt) == old(self).slot(mt));
                        assert(old(self).slot(mt) matches Some(h2) ==> h2.module_type == mt);
                    }
                }
            }
        }
    }
}

/// Where a session stands: configured but not yet running, or running.
/// Closing consumes the session, so a closed one cannot be observed.
#[derive(Debug, Clone, Copy, PartialEq, Eq, Structural)]
pub enum SessionPhase {
    Configured,
    Processing,
}

/// The model of a spawned background update loop: its cancellation state.
/// The running system pairs this with a join handle; cancellation is
/// cooperative and observed between native calls.
pub struct UpdateLoopHandle {
    cancelled: bool,
}

impl UpdateLoopHandle {
    pub closed spec fn is_cancelled(&self) -> bool {
        self.cancelled
    }

    /// Requests cooperative cancellation; the loop stops at its next check.
    pub fn cancel(&mut self)
        ensures
            final(self).is_cancelled(),
    {
        self.cancelled = true;
    }

    /// Whether cancellation was requested.
    pub fn cancelled(&self) -> (r: bool)
        ensures
            r == self.is_cancelled(),
    {
        self.cancelled
    }
}

/// One native call the manual update cycle asks the driver to make.
#[derive(Debug, Clone, Copy, PartialEq, Eq, Structural)]
pub enum UpdateAction {
    /// Wait for this module's next update.
    WaitOn(ModuleHandle),
    /// Pump the engine globally.
    GlobalUpdate,
}

/// One step of the teardown a close asks the driver to perform, in order.
#[derive(Debug, Clone, Copy, PartialEq, Eq, Structural)]
pub enum CloseAction {
    /// Request cooperative cancellation of the background update loop.
    CancelLoop,
    /// Await the update loop's termination.
    JoinLoop,
    /// Call native release.
    NativeRelease,
}

/// The wait calls of one update cycle: each device's representative module,
/// in device order; devices without one are skipped.
pub open spec fn wait_actions(devs: Seq<ActiveDeviceContext>) -> Seq<UpdateAction>
    decreases devs.len(),
{
    if devs.len() == 0 {
        Seq::empty()
    } else {
        wait_actions(devs.drop_last()) + match devs.last().representative {
            Option::Some(h) => seq![UpdateAction::WaitOn(h)],
            Option::None => Seq::empty(),
        }
    }
}

/// The plan of one manual update cycle: the representatives' wait calls, or
/// one global update when no representative applies.
pub open spec fn update_plan_spec(devs: Seq<ActiveDeviceContext>) -> Seq<UpdateAction> {
    if wait_actions(devs).len() == 0 {
        seq![UpdateAction::GlobalUpdate]
    } else {
        wait_actions(devs)
    }
}

/// The teardown plan: cancel and join the update loop if one was spawned,
/// then — strictly after — release natively if the flag was still up.
pub open spec fn close_plan_spec(had_loop: bool, was_initialized: bool) -> Seq<CloseAction> {
    (if had_loop {
        seq![CloseAction::CancelLoop, CloseAction::JoinLoop]
    } else {
        Seq::empty()
    }) + (if was_initialized {
        seq![CloseAction::NativeRelease]
    } else {
        Seq::empty()
    })
}

/// The session: guard, active devices, and the optional background loop.
pub struct NuitrackSession {
    guard: RuntimeGuard,
    active_devices: Vec<ActiveDeviceContext>,
    run_internal_update_loop: bool,
    phase: SessionPhase,
    update_loop: Option<UpdateLoopHandle>,
}

impl NuitrackSession {
    pub closed spec fn phase(&self) -> SessionPhase {
        self.phase
    }

    /// The active device contexts, in configuration order.
    pub closed spec fn devices(&self) -> Seq<ActiveDeviceContext> {
        self.active_devices@
    }

    /// The active device contexts, in configuration order.
    pub fn active_devices(&self) -> (r: &Vec<ActiveDeviceContext>)
        ensures
            r@ == self.devices(),
    {
        &self.active_devices
    }

    /// Whether the caller asked for a background update loop.
    pub closed spec fn wants_update_loop(&self) -> bool {
        self.run_internal_update_loop
    }

    /// The spawned update loop, if processing started with one.
    pub closed spec fn loop_state(&self) -> Option<UpdateLoopHandle> {
        self.update_loop
    }

    /// A configured session. Only the builder creates one, after the guard
    /// was acquired and the devices were activated.
    pub fn new(
        guard: RuntimeGuard,
        active_devices: Vec<ActiveDeviceContext>,
        run_internal_update_loop: bool,
    ) -> (r: NuitrackSession)
        ensures
            r.devices() =~= active_devices@,
            r.wants_update_loop() == run_internal_update_loop,
            r.phase() == SessionPhase::Configured,
            r.loop_state() is None,
    {
        NuitrackSession {
            guard,
            active_devices,
            run_internal_update_loop,
            phase: SessionPhase::Configured,
            update_loop: None,
        }
    }

    /// Starts processing with the outcome of the native run call. On success
    /// the session is processing and, when a background loop was requested,
    /// its handle exists and is not cancelled. A second start is a caller
    /// error and is refused without touching the native engine, as is a start
    /// whose native run failed.
    pub fn start_processing(&mut self, run_outcome: Result<(), String>) -> (r: Result<
        (),
        NuitrackError,
    >)
        ensures
            final(self).devices() =~= old(self).devices(),
            final(self).wants_update_loop() == old(self).wants_update_loop(),
            old(self).phase() != SessionPhase::Configured ==> {
                &&& r matches Err(e) && e is OperationFailed
                &&& final(self).phase() == old(self).phase()
                &&& final(self).loop_state() == old(self).loop_state()
            },
            old(self).phase() == SessionPhase::Configured ==> match run_outcome {
                Result::Ok(()) => {
                    &&& r is Ok
                    &&& final(self).phase() == SessionPhase::Processing
                    &&& if old(self).wants_update_loop() {
                        final(self).loop_state() matches Some(h) && !h.is_cancelled()
                    } else {
                        final(self).loop_state() is None
                    }
                },
                Result::Err(m) => {
                    &&& r matches Err(e) && e matches NuitrackError::OperationFailed(em) && em@
                        == m@
                    &&& final(self).phase() == SessionPhase::Configured
                    &&& final(self).loop_state() == old(self).loop_state()
                },
            },
    {
        if self.phase != SessionPhase::Configured {
            return Err(
                NuitrackError::OperationFailed("session processing already started".to_owned()),
            );
        }
        match run_outcome {
            Result::Ok(()) => {
                self.phase = SessionPhase::Processing;
                if self.run_internal_update_loop {
                    self.update_loop = Some(UpdateLoopHandle { cancelled: false });
                } else {
                    self.update_loop = None;
                }
                Ok(())
            },
            Result::Err(m) => Err(NuitrackError::OperationFailed(m)),
        }
    }

    /// Where the session stands.
    pub fn current_phase(&self) -> (r: SessionPhase)
        ensures
            r == self.phase(),
    {
        self.phase
    }

    /// Whether the background update loop was spawned and not yet asked to
    /// stop.
    pub fn update_loop_running(&self) -> (r: bool)
        ensures
            r == (self.loop_state() matches Some(h) && !h.is_cancelled()),
    {
        match &self.update_loop {
            Option::Some(h) => !h.cancelled(),
            Option::None => false,
        }
    }

    /// Requests cooperative cancellation of the background update loop, if
    /// one was spawned; the loop observes it between native calls.
    pub fn request_loop_cancellation(&mut self)
        ensures
            final(self).devices() =~= old(self).devices(),
            final(self).wants_update_loop() == old(self).wants_update_loop(),
            final(self).phase() == old(self).phase(),
            old(self).loop_state() is Some ==> (final(self).loop_state() matches Some(h)
                && h.is_cancelled()),
            old(self).loop_state() is None ==> final(self).loop_state() is None,
    {
        match &mut self.update_loop {
            Option::Some(h) => h.cancel(),
            Option::None => {},
        }
    }

    /// The native calls of one manual, single-shot update cycle: one wait on
    /// each device's representative module, or a single global pump when no
    /// representative applies. The driver performs them in order and stops at
    /// the first failure.
    pub fn update_cycle_plan(&self) -> (r: Vec<UpdateAction>)
        ensures
            r@ =~= update_plan_spec(self.devices()),
    {
        let mut waits: Vec<UpdateAction> = Vec::new();
        let mut i: usize = 0;
        while i < self.active_devices.len()
            invariant
                i <= self.active_devices@.len(),
                waits@ =~= wait_actions(self.active_devices@.take(i as int)),
            decreases self.active_devices@.len() - i,
        {
            proof {
                let prefix = self.active_devices@.take(i as int);
                let next = self.active_devices@.take(i + 1);
                assert(next.drop_last() =~= prefix);
                assert(next.last() == self.active_devices@[i as int]);
            }
            match &self.active_devices[i].representative {
                Option::Some(h) => {
                    waits.push(UpdateAction::WaitOn(*h));
                },
                Option::None => {},
            }
            i += 1;
        }
        proof {
            assert(self.active_devices@.take(self.active_devices@.len() as int)
                =~= self.active_devices@);
        }
        if waits.len() == 0 {
            let mut r: Vec<UpdateAction> = Vec::new();
            r.push(UpdateAction::GlobalUpdate);
            r
        } else {
            waits
        }
    }

    /// Closes the session: downs the flag, consumes the guard, and returns
    /// the teardown steps the driver must perform in the returned order —
    /// cancel the loop, join it, and only then call native release, and the
    /// release only if the flag was still up. Because the guard is consumed
    /// here, no later drop of it can release a second time.
    pub fn close(self, flag: &mut InitFlag) -> (plan: Vec<CloseAction>)
        ensures
            !final(flag).initialized(),
            plan@ =~= close_plan_spec(self.loop_state() is Some, old(flag).initialized()),
    {
        let NuitrackSession { guard, update_loop, .. } = self;
        let mut plan: Vec<CloseAction> = Vec::new();
        if update_loop.is_some() {
            plan.push(CloseAction::CancelLoop);
            plan.push(CloseAction::JoinLoop);
        }
        let release_needed = release_guard(guard, flag);
        if release_needed {
            plan.push(CloseAction::NativeRelease);
        }
        plan
    }
}

/// Teardown order: in every close plan, the native release comes strictly
/// after the join of the update loop, so a released engine can never be
/// called by a still-running loop.
pub proof fn lemma_close_releases_after_join(had_loop: bool, was_initialized: bool)
    ensures
        forall|i: int, j: int|
            {
                &&& 0 <= i < close_plan_spec(had_loop, was_initialized).len()
                &&& 0 <= j < close_plan_spec(had_loop, was_initialized).len()
                &&& close_plan_spec(had_loop, was_initialized)[i] == CloseAction::JoinLoop
                &&& close_plan_spec(had_loop, was_initialized)[j] == CloseAction::NativeRelease
            } ==> i < j,
{
}

} // verus!
