use vstd::prelude::*;
use crate::trusted::receive_message;
use crate::error::{ExitMessage, ProcessAsyncError};
use crate::status::{resolve_received, wait_outcome};

verus! {

/// The single-resolution handle on a child's outcome: it takes the first
/// message of the completion channel once, and reports every later wait as
/// already resolved without touching the channel again.
pub struct FutureExitResult {
    recv: std::sync::mpsc::Receiver<ExitMessage>,
    already: bool,
}

impl FutureExitResult {
    /// Whether the outcome has been taken.
    pub closed spec fn consumed(&self) -> bool {
        self.already
    }

    /// The receiving end of the completion channel that the handle reads.
    pub closed spec fn receiver(&self) -> std::sync::mpsc::Receiver<ExitMessage> {
        self.recv
    }

    /// A pending handle over the receiving end of a completion channel.
    pub fn new(receiver: std::sync::mpsc::Receiver<ExitMessage>) -> (r: Self)
        ensures
            !r.consumed(),
            r.receiver() == receiver,
    {
        FutureExitResult { recv: receiver, already: false }
    }

    /// Takes what the channel holds first, once: `None` when the handle was
    /// already consumed, in which case it stays as it was.
    fn exit_status(&mut self) -> (r: Option<Result<ExitMessage, std::sync::mpsc::RecvError>>)
        ensures
            final(self).consumed(),
            final(self).receiver() == old(self).receiver(),
            r is None <==> old(self).consumed(),
            old(self).consumed() ==> *final(self) == *old(self),
    {
        if self.already {
            return None;
        }
        self.already = true;
        Some(receive_message(&self.recv))
    }

    /// Blocks until the first outcome arrives and reports it: the code on a
    /// clean exit, otherwise the error. Only the first call waits; every later
    /// one reports `AlreadyResolvedError`.
    pub fn wait(&mut self) -> (r: Result<Option<i32>, ProcessAsyncError>)
        ensures
            final(self).consumed(),
            final(self).receiver() == old(self).receiver(),
            old(self).consumed() ==> *final(self) == *old(self),
            exists|received| r == #[trigger] wait_outcome(old(self).consumed(), received),
    {
        match self.exit_status() {
            None => {
                let r = Err(ProcessAsyncError::AlreadyResolvedError);
                assert(r == wait_outcome(true, arbitrary()));
                r
            }
            Some(received) => {
                let r = resolve_received(received);
                assert(r == wait_outcome(false, received));
                r
            }
        }
    }
}

/// A running child as its caller sees it: a reader over the child's stdout and
/// the one handle on its outcome. The two are independent: draining the reader
/// does not resolve the outcome, nor the other way round.
pub struct ChildStream<S> {
    pub stdout: S,
    pub wait_result: FutureExitResult,
}

impl<S> ChildStream<S> {
    /// Waits for the child's outcome, as `FutureExitResult::wait` does; the
    /// reader is left as it was.
    pub fn wait(&mut self) -> (r: Result<Option<i32>, ProcessAsyncError>)
        ensures
            final(self).stdout == old(self).stdout,
            final(self).wait_result.consumed(),
            final(self).wait_result.receiver() == old(self).wait_result.receiver(),
            old(self).wait_result.consumed() ==> *final(self) == *old(self),
            exists|received| r == #[trigger] wait_outcome(old(self).wait_result.consumed(), received),
    {
        self.wait_result.wait()
    }
}

/// A child that exited with code zero makes the first wait report success with
/// that code, and every wait after it report that the outcome was already
/// taken.
pub proof fn lemma_clean_exit_resolves_once(
    code: i32,
    later: Result<ExitMessage, std::sync::mpsc::RecvError>,
)
    requires
        code == 0,
    ensures
        wait_outcome(false, Ok(Ok(Some(code)))) == Ok::<Option<i32>, ProcessAsyncError>(Some(code)),
        wait_outcome(true, later) matches Err(ProcessAsyncError::AlreadyResolvedError),
{
}

/// A child that exited with a nonzero code makes the first wait report an
/// error that carries exactly that code.
pub proof fn lemma_nonzero_exit_carries_code(code: i32)
    requires
        code != 0,
    ensures
        wait_outcome(false, Ok(Ok(Some(code)))) == Err::<Option<i32>, ProcessAsyncError>(
            ProcessAsyncError::ExitStatusError(Some(code)),
        ),
{
}

} // verus!
