//! The update scheduler's decisions: what one iteration of the background
//! loop does, and how a failed native wait is classified.
//!
//! The loop itself lives with the driver: once per short pacing interval it
//! asks `scheduler_step` what to do, performs the native calls, and hands
//! each failure to `classify_wait_outcome`. A fatal failure cancels the loop;
//! a transient one is logged and the loop goes on.

use vstd::prelude::*;
use crate::error::{is_fatal_error, is_fatal_spec, NuitrackError};

verus! {

/// What one iteration of the background update loop does.
#[derive(Debug, Clone, Copy, PartialEq, Eq, Structural)]
pub enum SchedulerAction {
    /// Cancellation was requested: terminate the loop.
    Stop,
    /// Wait on each collected representative module in turn.
    WaitModules,
    /// No representative module exists but devices are active: pump the
    /// engine globally instead.
    GlobalUpdate,
    /// Nothing to do this interval.
    Idle,
}

/// What the loop does after one native wait or update call came back.
#[derive(Debug, Clone, Copy, PartialEq, Eq, Structural)]
pub enum LoopVerdict {
    /// Go on to the next module or iteration; a transient failure is logged,
    /// never kills the session.
    Proceed,
    /// Cancel the loop and terminate: the failure is one no retry can cure.
    FatalStop,
}

/// The decision of one loop iteration, given what the iteration can observe:
/// cancellation first, then the collected representative modules, then the
/// global fallback for active devices, else nothing.
pub open spec fn scheduler_step_spec(
    cancelled: bool,
    module_count: nat,
    devices_active: bool,
) -> SchedulerAction {
    if cancelled {
        SchedulerAction::Stop
    } else if module_count > 0 {
        SchedulerAction::WaitModules
    } else if devices_active {
        SchedulerAction::GlobalUpdate
    } else {
        SchedulerAction::Idle
    }
}

/// One iteration's decision; see `scheduler_step_spec`. Cancellation is
/// checked before any native call, so a cancelled loop makes none.
pub fn scheduler_step(cancelled: bool, module_count: usize, devices_active: bool) -> (a:
    SchedulerAction)
    ensures
        a == scheduler_step_spec(cancelled, module_count as nat, devices_active),
{
    if cancelled {
        SchedulerAction::Stop
    } else if module_count > 0 {
        SchedulerAction::WaitModules
    } else if devices_active {
        SchedulerAction::GlobalUpdate
    } else {
        SchedulerAction::Idle
    }
}

/// Classifies the outcome of one native wait or update call for the loop:
/// the loop stops exactly on a fatal native failure — one whose message
/// names the lost-license condition — and proceeds on success and on every
/// transient failure.
pub fn classify_wait_outcome(outcome: &Result<(), NuitrackError>) -> (v: LoopVerdict)
    ensures
        v == LoopVerdict::FatalStop <==> (outcome matches Err(e) && is_fatal_spec(*e)),
        v == LoopVerdict::Proceed <==> !(outcome matches Err(e) && is_fatal_spec(*e)),
{
    match outcome {
        Result::Ok(()) => LoopVerdict::Proceed,
        Result::Err(e) => {
            if is_fatal_error(e) {
                LoopVerdict::FatalStop
            } else {
                LoopVerdict::Proceed
            }
        },
    }
}

/// Wraps the message of a failed native wait or update call as the error the
/// classification above inspects.
pub fn wait_update_error(message: String) -> (e: NuitrackError)
    ensures
        e matches NuitrackError::NativeCallFailed(m) && m@ == message@,
{
    NuitrackError::NativeCallFailed(message)
}

} // verus!
