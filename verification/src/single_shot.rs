//! Single-shot fetches, independent of the loop.
//!
//! A single-shot fetch issues one GET and hands the caller the whole body,
//! either on the calling thread or through a one-time callback on a
//! background task. The transport collects the terminal status and body and
//! [`single_shot_outcome`] decides what the caller sees: the body itself,
//! byte for byte, exactly when the status is 200.

use vstd::prelude::*;

use crate::errors::FetchError;

verus! {

/// Decide a single-shot fetch from its terminal response. A 200 delivers the
/// body unchanged; any other status discards it and fails with that status.
pub fn single_shot_outcome(status: u16, body: Vec<u8>) -> (r: Result<Vec<u8>, FetchError>)
    ensures
        status == 200 ==> r == Result::<Vec<u8>, FetchError>::Ok(body),
        status != 200 ==> r == Result::<Vec<u8>, FetchError>::Err(
            FetchError::UnexpectedStatus(status),
        ),
{
    if status == 200 {
        Result::Ok(body)
    } else {
        Result::Err(FetchError::UnexpectedStatus(status))
    }
}

} // verus!
