use vstd::prelude::*;

verus! {

/// Everything that can go wrong after a child process was started, as seen by
/// the one who waits for it.
#[derive(Debug)]
pub enum ProcessAsyncError {
    /// Every background task went away without reporting an outcome.
    RecvError(std::sync::mpsc::RecvError),
    /// The wait for the child's termination failed.
    WaitError(std::io::Error),
    /// Reading the input source or writing the child's stdin failed.
    StdinError(std::io::Error),
    /// The child ran and ended with a nonzero code (`Some`) or without a code
    /// (`None`, ended by a signal).
    ExitStatusError(Option<i32>),
    /// The outcome was already taken by an earlier wait.
    AlreadyResolvedError,
    /// A background task faulted; the message is what the fault carried.
    InternalFault(String),
}

/// The one message a background task puts on the completion channel: the
/// child's termination status, or the failure that task saw.
pub type ExitMessage = Result<Option<i32>, ProcessAsyncError>;

} // verus!
