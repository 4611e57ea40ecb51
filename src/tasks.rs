use vstd::prelude::*;
use crate::trusted::{other_error_of, other_io_error, send_message};
use crate::error::{ExitMessage, ProcessAsyncError};

verus! {

/// What a faulted background task left behind: its message, when the fault
/// carried text, or nothing readable.
pub enum PanicPayload {
    Message(String),
    Opaque,
}

/// The text reported for a fault: its own message, or a fixed placeholder
/// when it carried none.
pub open spec fn panic_text(p: PanicPayload) -> Seq<char> {
    match p {
        PanicPayload::Message(s) => s@,
        PanicPayload::Opaque => "Box<Any>"@,
    }
}

/// How a background task ended: it returned a value, or it faulted.
pub type TaskOutcome<T> = Result<T, PanicPayload>;

/// The text of a fault.
pub fn caught_panic_message(err: PanicPayload) -> (r: String)
    ensures
        r@ == panic_text(err),
{
    match err {
        PanicPayload::Message(s) => s,
        PanicPayload::Opaque => "Box<Any>".to_owned(),
    }
}

/// The fault as an I/O error of kind `Other` whose description is the fault's
/// text (see `caught_panic_message`).
pub fn caught_panic_to_io_error(err: PanicPayload) -> (r: std::io::Error)
    ensures
        r == other_error_of(panic_text(err)),
{
    other_io_error(caught_panic_message(err))
}

/// Whether `msg` is the report of a fault whose payload was `p`.
pub open spec fn is_fault_report(msg: ExitMessage, p: PanicPayload) -> bool {
    msg matches Err(ProcessAsyncError::InternalFault(s)) && s@ == panic_text(p)
}

/// What the stdin feeder reports when it ends: nothing when it fed the whole
/// input (the wait alone reports a clean end), its I/O error as a stdin
/// failure, its fault as an internal fault.
pub fn stdin_report(outcome: TaskOutcome<Result<(), std::io::Error>>) -> (r: Option<ExitMessage>)
    ensures
        match outcome {
            Ok(Ok(())) => r is None,
            Ok(Err(e)) => r == Some(Err::<Option<i32>, ProcessAsyncError>(ProcessAsyncError::StdinError(e))),
            Err(p) => r matches Some(m) && is_fault_report(m, p),
        },
{
    match outcome {
        Err(p) => Some(Err(ProcessAsyncError::InternalFault(caught_panic_message(p)))),
        Ok(Err(err)) => Some(Err(ProcessAsyncError::StdinError(err))),
        Ok(Ok(())) => None,
    }
}

/// What the waiter reports when it ends, always exactly one message: the
/// child's termination status, its I/O error as a wait failure, its fault as
/// an internal fault.
pub fn wait_report(outcome: TaskOutcome<Result<Option<i32>, std::io::Error>>) -> (r: ExitMessage)
    ensures
        match outcome {
            Ok(Ok(code)) => r == Ok::<Option<i32>, ProcessAsyncError>(code),
            Ok(Err(e)) => r == Err::<Option<i32>, ProcessAsyncError>(ProcessAsyncError::WaitError(e)),
            Err(p) => is_fault_report(r, p),
        },
{
    match outcome {
        Err(p) => Err(ProcessAsyncError::InternalFault(caught_panic_message(p))),
        Ok(Err(err)) => Err(ProcessAsyncError::WaitError(err)),
        Ok(Ok(code)) => Ok(code),
    }
}

/// Puts a message on the completion channel. When nobody listens any more the
/// message is handed back, for the caller to log.
pub fn send_or_log_result<T>(
    sender: std::sync::mpsc::Sender<Result<T, ProcessAsyncError>>,
    result: Result<T, ProcessAsyncError>,
) -> (r: Option<Result<T, ProcessAsyncError>>)
    ensures
        r is None || r == Some(result),
{
    send_message(&sender, result)
}

} // verus!
