use vstd::prelude::*;
use crate::error::{ExitMessage, ProcessAsyncError};

verus! {

/// A termination status is `Some(code)` when the process exited with a code,
/// and `None` when it was ended by a signal or its status could not be decoded.
/// Only a zero code is a clean exit.
pub open spec fn is_success(code: Option<i32>) -> bool {
    code == Some(0i32)
}

/// What waiting reports for a termination status: the code on a clean exit,
/// otherwise an error that carries the code.
pub open spec fn status_outcome(code: Option<i32>) -> Result<Option<i32>, ProcessAsyncError> {
    if is_success(code) {
        Ok(code)
    } else {
        Err(ProcessAsyncError::ExitStatusError(code))
    }
}

/// What waiting reports for the first message taken from the completion
/// channel, or for a receive that found every sender gone.
pub open spec fn received_outcome(
    received: Result<ExitMessage, std::sync::mpsc::RecvError>,
) -> Result<Option<i32>, ProcessAsyncError> {
    match received {
        Err(e) => Err(ProcessAsyncError::RecvError(e)),
        Ok(Err(e)) => Err(e),
        Ok(Ok(code)) => status_outcome(code),
    }
}

/// What a wait reports: an error when the outcome was already taken, else the
/// outcome of what it received.
pub open spec fn wait_outcome(
    consumed: bool,
    received: Result<ExitMessage, std::sync::mpsc::RecvError>,
) -> Result<Option<i32>, ProcessAsyncError> {
    if consumed {
        Err(ProcessAsyncError::AlreadyResolvedError)
    } else {
        received_outcome(received)
    }
}

/// Whether a termination status counts as a clean exit.
pub fn exit_success(code: Option<i32>) -> (r: bool)
    ensures
        r == is_success(code),
{
    match code {
        Some(c) => c == 0,
        None => false,
    }
}

/// Turns a termination status into the result of waiting.
pub fn exit_status_result(code: Option<i32>) -> (r: Result<Option<i32>, ProcessAsyncError>)
    ensures
        r == status_outcome(code),
{
    if exit_success(code) {
        Ok(code)
    } else {
        Err(ProcessAsyncError::ExitStatusError(code))
    }
}

/// Turns what a receive on the completion channel returned into the result of
/// waiting.
pub fn resolve_received(received: Result<ExitMessage, std::sync::mpsc::RecvError>) -> (r: Result<
    Option<i32>,
    ProcessAsyncError,
>)
    ensures
        r == received_outcome(received),
{
    match received {
        Err(e) => Err(ProcessAsyncError::RecvError(e)),
        Ok(Err(e)) => Err(e),
        Ok(Ok(code)) => exit_status_result(code),
    }
}

} // verus!
