use nuitrack_rs::guard::{complete_acquire, InitFlag, RuntimeGuard};
use nuitrack_rs::session::{CloseAction, SessionPhase, UpdateAction};
use nuitrack_rs::{
    ActiveDeviceContext, DiscoveredDeviceInfo, ModuleHandle, ModuleType, NuitrackError,
    NuitrackSession,
};

fn info(serial: &str) -> DiscoveredDeviceInfo {
    DiscoveredDeviceInfo {
        name: "camera".to_string(),
        serial_number: serial.to_string(),
        provider_name: "provider".to_string(),
        original_index: 0,
        handle: 1,
    }
}

fn acquired(flag: &mut InitFlag) -> RuntimeGuard {
    let permit = flag.try_acquire().unwrap();
    complete_acquire(flag, permit, Ok(())).unwrap()
}

#[test]
fn first_added_module_is_the_representative() {
    let mut ctx = ActiveDeviceContext::new(info("A"));
    assert!(ctx.representative.is_none());
    let skeleton = ModuleHandle { module_type: ModuleType::SkeletonTracker, id: 1 };
    let hand = ModuleHandle { module_type: ModuleType::HandTracker, id: 2 };
    ctx.add_module(skeleton);
    ctx.add_module(hand);
    assert_eq!(ctx.skeleton_tracker, Some(skeleton));
    assert_eq!(ctx.hand_tracker, Some(hand));
    assert_eq!(ctx.representative, Some(skeleton));
}

#[test]
fn start_processing_spawns_the_requested_loop() {
    let mut flag = InitFlag::new();
    let guard = acquired(&mut flag);
    let mut session = NuitrackSession::new(guard, Vec::new(), true);
    session.start_processing(Ok(())).unwrap();

    // A second start is a caller error and must not reach the engine.
    assert!(matches!(
        session.start_processing(Ok(())),
        Err(NuitrackError::OperationFailed(_))
    ));
}

#[test]
fn failed_native_run_keeps_the_session_configured() {
    let mut flag = InitFlag::new();
    let guard = acquired(&mut flag);
    let mut session = NuitrackSession::new(guard, Vec::new(), true);
    match session.start_processing(Err("run refused".to_string())) {
        Err(NuitrackError::OperationFailed(m)) => assert_eq!(m, "run refused"),
        other => panic!("expected OperationFailed, got {:?}", other),
    }
    // The failed start can be retried.
    session.start_processing(Ok(())).unwrap();
}

#[test]
fn update_cycle_waits_on_each_representative() {
    let mut flag = InitFlag::new();
    let guard = acquired(&mut flag);
    let mut first = ActiveDeviceContext::new(info("A"));
    let color = ModuleHandle { module_type: ModuleType::ColorSensor, id: 4 };
    first.add_module(color);
    let mut second = ActiveDeviceContext::new(info("B"));
    let depth = ModuleHandle { module_type: ModuleType::DepthSensor, id: 5 };
    second.add_module(depth);
    let session = NuitrackSession::new(guard, vec![first, second], false);

    let plan = session.update_cycle_plan();
    assert_eq!(plan, vec![UpdateAction::WaitOn(color), UpdateAction::WaitOn(depth)]);
}

#[test]
fn update_cycle_falls_back_to_a_global_pump() {
    let mut flag = InitFlag::new();
    let guard = acquired(&mut flag);
    let session = NuitrackSession::new(guard, Vec::new(), false);
    assert_eq!(session.update_cycle_plan(), vec![UpdateAction::GlobalUpdate]);

    let mut flag2 = InitFlag::new();
    let guard2 = acquired(&mut flag2);
    // A device without any created module has no representative.
    let bare = ActiveDeviceContext::new(info("A"));
    let session2 = NuitrackSession::new(guard2, vec![bare], false);
    assert_eq!(session2.update_cycle_plan(), vec![UpdateAction::GlobalUpdate]);
}

/// Idempotent close: the close plan asks for exactly one native release, and
/// nothing that runs afterwards can ask for a second one.
#[test]
fn close_releases_exactly_once() {
    let mut flag = InitFlag::new();
    let guard = acquired(&mut flag);
    let mut session = NuitrackSession::new(guard, Vec::new(), true);
    session.start_processing(Ok(())).unwrap();

    let mut native_releases = 0;
    let plan = session.close(&mut flag);
    for action in &plan {
        if *action == CloseAction::NativeRelease {
            native_releases += 1;
        }
    }
    assert_eq!(
        plan,
        vec![CloseAction::CancelLoop, CloseAction::JoinLoop, CloseAction::NativeRelease]
    );
    assert_eq!(native_releases, 1);

    // A stray drop-time swap after the close finds the flag down: no second
    // native release is requested.
    assert!(!flag.swap_release());
}

#[test]
fn close_joins_the_loop_before_releasing() {
    let mut flag = InitFlag::new();
    let guard = acquired(&mut flag);
    let mut session = NuitrackSession::new(guard, Vec::new(), true);
    session.start_processing(Ok(())).unwrap();

    let plan = session.close(&mut flag);
    let join_at = plan.iter().position(|a| *a == CloseAction::JoinLoop).unwrap();
    let release_at = plan.iter().position(|a| *a == CloseAction::NativeRelease).unwrap();
    assert!(join_at < release_at);
}

#[test]
fn close_without_a_loop_only_releases() {
    let mut flag = InitFlag::new();
    let guard = acquired(&mut flag);
    let session = NuitrackSession::new(guard, Vec::new(), false);
    assert_eq!(session.close(&mut flag), vec![CloseAction::NativeRelease]);
}

#[test]
fn close_after_an_external_release_asks_for_none() {
    let mut flag = InitFlag::new();
    let guard = acquired(&mut flag);
    let session = NuitrackSession::new(guard, Vec::new(), false);
    assert!(flag.swap_release());
    assert!(session.close(&mut flag).is_empty());
}

#[test]
fn session_phases_are_observable() {
    let mut flag = InitFlag::new();
    let guard = acquired(&mut flag);
    let mut session = NuitrackSession::new(guard, Vec::new(), true);
    assert_eq!(session.current_phase(), SessionPhase::Configured);
    assert!(!session.update_loop_running());

    session.start_processing(Ok(())).unwrap();
    assert_eq!(session.current_phase(), SessionPhase::Processing);
    assert!(session.update_loop_running());
    assert!(session.active_devices().is_empty());

    session.request_loop_cancellation();
    assert!(!session.update_loop_running());
    // The teardown plan still cancels and joins the spawned loop.
    let plan = session.close(&mut flag);
    assert_eq!(
        plan,
        vec![CloseAction::CancelLoop, CloseAction::JoinLoop, CloseAction::NativeRelease]
    );
}
