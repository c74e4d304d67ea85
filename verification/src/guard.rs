//! The runtime guard: at most one live owner of the native engine's global
//! initialized state.
//!
//! The native engine can be initialized at most once per process. The process
//! keeps one flag for it; in the running system that flag is an atomic boolean
//! and each transition below is one atomic operation on it, performed while no
//! other transition can interleave with it. `InitFlag` is that flag as an
//! explicit value: the driver owns exactly one and threads it through every
//! acquisition and release, so each method here is one step of the protocol.
//!
//! Acquisition is two-phased because a native call stands in the middle:
//! `try_acquire` is the compare-and-swap that elects the single winner, the
//! driver then runs native initialization, and `complete_acquire` turns the
//! outcome into a guard or rolls the flag back. A failed initialization must
//! never leave the process believing it is initialized.

use vstd::prelude::*;
use crate::error::NuitrackError;

verus! {

/// The process-wide "native engine is initialized" flag, as an explicit
/// value owned by the driver.
pub struct InitFlag {
    initialized: bool,
}

/// Proof of having won the `try_acquire` race; consumed by
/// `complete_acquire`. Whoever holds it is the only caller allowed to run
/// native initialization.
pub struct AcquirePermit {
    reserved: (),
}

/// Ownership of the initialized native engine. At most one live guard exists
/// per flag: only `complete_acquire` creates one, and only after its caller
/// won the compare-and-swap.
#[derive(Debug)]
pub struct RuntimeGuard {
    held: (),
}

impl InitFlag {
    pub closed spec fn initialized(&self) -> bool {
        self.initialized
    }

    /// A fresh flag: the engine is not initialized.
    pub fn new() -> (r: InitFlag)
        ensures
            !r.initialized(),
    {
        InitFlag { initialized: false }
    }

    /// The compare-and-swap that elects the initialization winner. Exactly
    /// the caller that observes an uninitialized flag wins and must go on to
    /// native initialization; every other caller fails with
    /// `AlreadyInitialized` before any native call is made.
    pub fn try_acquire(&mut self) -> (r: Result<AcquirePermit, NuitrackError>)
        ensures
            final(self).initialized(),
            r is Ok <==> !old(self).initialized(),
            r matches Err(e) ==> e is AlreadyInitialized,
    {
        if self.initialized {
            Err(NuitrackError::AlreadyInitialized)
        } else {
            self.initialized = true;
            Ok(AcquirePermit { reserved: () })
        }
    }

    /// The atomic swap to "not initialized". Returns what the flag was, which
    /// is exactly whether the caller must now call native release: after one
    /// release the flag is down, so a second swap reports that no further
    /// native release is due. Double release is therefore a safe no-op.
    pub fn swap_release(&mut self) -> (was: bool)
        ensures
            was == old(self).initialized(),
            !final(self).initialized(),
    {
        let was = self.initialized;
        self.initialized = false;
        was
    }
}

/// Finishes an acquisition whose winner ran native initialization (the init
/// call followed by the configuration overrides) with the given outcome. On
/// success the permit becomes the guard; on failure the flag is rolled back
/// so that a later acquisition can win, and the native message is carried out
/// as `InitFailed`.
pub fn complete_acquire(
    flag: &mut InitFlag,
    permit: AcquirePermit,
    init_outcome: Result<(), String>,
) -> (r: Result<RuntimeGuard, NuitrackError>)
    requires
        old(flag).initialized(),
    ensures
        match init_outcome {
            Result::Ok(()) => r is Ok && final(flag).initialized(),
            Result::Err(m) => {
                &&& r matches Err(e)
                &&& e matches NuitrackError::InitFailed(em) && em@ == m@
                &&& !final(flag).initialized()
            },
        },
{
    let _ = permit;
    match init_outcome {
        Result::Ok(()) => Ok(RuntimeGuard { held: () }),
        Result::Err(m) => {
            let _ = flag.swap_release();
            Err(NuitrackError::InitFailed(m))
        },
    }
}

/// Explicit release: consumes the guard, downs the flag, and reports whether
/// the driver must call native release — true exactly when the flag was up.
pub fn release_guard(guard: RuntimeGuard, flag: &mut InitFlag) -> (native_release: bool)
    ensures
        native_release == old(flag).initialized(),
        !final(flag).initialized(),
{
    let _ = guard;
    flag.swap_release()
}

/// Last-resort release when a guard is dropped rather than closed. Best
/// effort: the drop must never block, so when the global lock protecting
/// native release is not immediately available the flag is left alone and no
/// native release is requested; otherwise this is `release_guard`.
pub fn drop_guard(guard: RuntimeGuard, flag: &mut InitFlag, lock_available: bool) -> (native_release:
    bool)
    ensures
        lock_available ==> native_release == old(flag).initialized() && !final(flag).initialized(),
        !lock_available ==> !native_release && final(flag).initialized() == old(flag).initialized(),
{
    let _ = guard;
    if lock_available {
        flag.swap_release()
    } else {
        false
    }
}

/// One acquisition attempt in the model of `try_acquire`: it wins exactly
/// when the flag was down, and the flag is up afterwards in either case.
pub open spec fn acquire_wins(flag_before: bool) -> bool {
    !flag_before
}

/// The flag after `n` acquisition attempts that started with `initial`: any
/// attempt leaves the flag up, and nothing in between takes it down.
pub open spec fn flag_after_attempts(initial: bool, n: nat) -> bool {
    if n == 0 {
        initial
    } else {
        true
    }
}

/// The outcomes of `n` successive acquisition attempts on a flag that
/// started with `initial`, in order; `true` is a win.
pub open spec fn acquire_outcomes(initial: bool, n: nat) -> Seq<bool>
    decreases n,
{
    if n == 0 {
        Seq::empty()
    } else {
        acquire_outcomes(initial, (n - 1) as nat).push(
            acquire_wins(flag_after_attempts(initial, (n - 1) as nat)),
        )
    }
}

/// How many of a sequence of attempt outcomes are wins.
pub open spec fn count_wins(outcomes: Seq<bool>) -> nat
    decreases outcomes.len(),
{
    if outcomes.len() == 0 {
        0
    } else {
        count_wins(outcomes.drop_last()) + if outcomes.last() {
            1nat
        } else {
            0nat
        }
    }
}

/// Single-winner acquisition: of `n >= 1` acquisition attempts racing on a
/// flag that starts down, exactly one wins; every other attempt loses with
/// `AlreadyInitialized` (by the contract of `try_acquire`, losing is the only
/// other outcome). On a flag that starts up, none wins.
pub proof fn lemma_single_acquire_winner(n: nat)
    requires
        n >= 1,
    ensures
        count_wins(acquire_outcomes(false, n)) == 1,
        count_wins(acquire_outcomes(true, n)) == 0,
    decreases n,
{
    if n == 1 {
        assert(acquire_outcomes(false, 0) =~= Seq::<bool>::empty());
        assert(acquire_outcomes(true, 0) =~= Seq::<bool>::empty());
        assert(acquire_outcomes(false, 1) =~= Seq::<bool>::empty().push(true));
        assert(acquire_outcomes(true, 1) =~= Seq::<bool>::empty().push(false));
        assert(count_wins(Seq::<bool>::empty()) == 0);
        assert(Seq::<bool>::empty().push(true).drop_last() =~= Seq::<bool>::empty());
        assert(Seq::<bool>::empty().push(false).drop_last() =~= Seq::<bool>::empty());
    } else {
        lemma_single_acquire_winner((n - 1) as nat);
        assert(acquire_outcomes(false, n).drop_last() =~= acquire_outcomes(false, (n - 1) as nat));
        assert(acquire_outcomes(true, n).drop_last() =~= acquire_outcomes(true, (n - 1) as nat));
        assert(!acquire_outcomes(false, n).last());
        assert(!acquire_outcomes(true, n).last());
    }
}

/// What `swap_release` reports for a given flag state.
pub open spec fn release_reports(flag_before: bool) -> bool {
    flag_before
}

/// The flag after one `swap_release`.
pub open spec fn release_flag_after(flag_before: bool) -> bool {
    false
}

/// Idempotent release: however the flag stood, after one `swap_release` a
/// second one reports that no native release is due. The driver that obeys
/// the reported value therefore calls native release at most once.
pub proof fn lemma_release_idempotent(initial: bool)
    ensures
        release_reports(release_flag_after(initial)) == false,
{
}

} // verus!
