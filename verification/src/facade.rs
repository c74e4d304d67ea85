//! The blocking facade: the older, simpler entry point that initializes the
//! engine, auto-selects the first device, and releases on drop.
//!
//! Unlike the session API, this facade releases unconditionally when dropped
//! and keeps no device contexts. Its decisions take the outcomes of the
//! native calls the driver makes — initialization, device enumeration,
//! device selection — and settle which error the caller sees and how the
//! process-wide flag moves.

use vstd::prelude::*;
use crate::error::NuitrackError;
use crate::guard::InitFlag;

verus! {

/// Ownership of the engine through the blocking facade.
#[derive(Debug)]
pub struct Nuitrack {
    held: (),
}

impl Nuitrack {
    /// Initialization through the facade. The compare-and-swap on `flag`
    /// elects one winner; the winner's native initialization, the device
    /// count the enumeration returned, and the outcome of selecting the
    /// first device then decide the result. Every failure after a won swap
    /// downs the flag again; `release_engine` reports whether the engine was
    /// natively initialized and must now be released by the driver.
    pub fn init(
        flag: &mut InitFlag,
        init_outcome: Result<(), String>,
        device_count: usize,
        set_device_outcome: Result<(), String>,
    ) -> (r: (Result<Nuitrack, NuitrackError>, bool))
        ensures
            old(flag).initialized() ==> {
                &&& r.0 matches Err(e) && e is AlreadyInitialized
                &&& !r.1
                &&& final(flag).initialized()
            },
            !old(flag).initialized() ==> match init_outcome {
                Result::Err(m) => {
                    &&& r.0 matches Err(e) && e matches NuitrackError::InitFailed(em) && em@ == m@
                    &&& !r.1
                    &&& !final(flag).initialized()
                },
                Result::Ok(()) => {
                    if device_count == 0 {
                        &&& r.0 matches Err(e) && e is NoDeviceFound
                        &&& r.1
                        &&& !final(flag).initialized()
                    } else {
                        match set_device_outcome {
                            Result::Err(m) => {
                                &&& r.0 matches Err(e) && e matches NuitrackError::DeviceError(em)
                                    && em@ == m@
                                &&& r.1
                                &&& !final(flag).initialized()
                            },
                            Result::Ok(()) => {
                                &&& r.0 is Ok
                                &&& !r.1
                                &&& final(flag).initialized()
                            },
                        }
                    }
                },
            },
    {
        match flag.try_acquire() {
            Result::Err(e) => (Err(e), false),
            Result::Ok(_permit) => {
                match init_outcome {
                    Result::Err(m) => {
                        let _ = flag.swap_release();
                        (Err(NuitrackError::InitFailed(m)), false)
                    },
                    Result::Ok(()) => {
                        if device_count == 0 {
                            let _ = flag.swap_release();
                            (Err(NuitrackError::NoDeviceFound), true)
                        } else {
                            match set_device_outcome {
                                Result::Err(m) => {
                                    let _ = flag.swap_release();
                                    (Err(NuitrackError::DeviceError(m)), true)
                                },
                                Result::Ok(()) => (Ok(Nuitrack { held: () }), false),
                            }
                        }
                    },
                }
            },
        }
    }

    /// Starting processing: the outcome of the native run call, mapped.
    pub fn run(&self, run_outcome: Result<(), String>) -> (r: Result<(), NuitrackError>)
        ensures
            match run_outcome {
                Result::Ok(()) => r is Ok,
                Result::Err(m) => r matches Err(e) && e matches NuitrackError::NativeCallFailed(em)
                    && em@ == m@,
            },
    {
        match run_outcome {
            Result::Ok(()) => Ok(()),
            Result::Err(m) => Err(NuitrackError::NativeCallFailed(m)),
        }
    }

    /// Drop-time teardown of the facade: the flag goes down, and the driver
    /// calls native release unconditionally — this older entry point does
    /// not test the flag first.
    pub fn release_on_drop(self, flag: &mut InitFlag)
        ensures
            !final(flag).initialized(),
    {
        let _ = self;
        let _ = flag.swap_release();
    }
}

} // verus!
