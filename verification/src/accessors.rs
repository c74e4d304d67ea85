//! The shared policy of every synchronous per-tracker accessor: a
//! request/response wrapper around one dispatched native call, with no state
//! machine beyond error mapping.

use vstd::prelude::*;
use crate::error::NuitrackError;

verus! {

/// Maps the outcome of one dispatched native accessor call: the value passes
/// through untouched, a failure — of the call or of the dispatch mechanism
/// itself — becomes `OperationFailed` carrying the message, never silently
/// dropped.
pub fn accessor_result<T>(outcome: Result<T, String>) -> (r: Result<T, NuitrackError>)
    ensures
        match outcome {
            Result::Ok(v) => r matches Ok(rv) && rv == v,
            Result::Err(m) => r matches Err(e) && e matches NuitrackError::OperationFailed(em)
                && em@ == m@,
        },
{
    match outcome {
        Result::Ok(v) => Ok(v),
        Result::Err(m) => Err(NuitrackError::OperationFailed(m)),
    }
}

/// The null-payload policy of the "latest frame now" accessors: a present
/// native frame passes through, an absent one is reported as
/// `OperationFailed` rather than invented.
pub fn frame_from_payload<T>(payload: Option<T>) -> (r: Result<T, NuitrackError>)
    ensures
        match payload {
            Option::Some(v) => r matches Ok(rv) && rv == v,
            Option::None => r matches Err(e) && e is OperationFailed,
        },
{
    match payload {
        Option::Some(v) => Ok(v),
        Option::None => Err(
            NuitrackError::OperationFailed("received a null native frame".to_owned()),
        ),
    }
}

} // verus!
