//! The items of std that the library relies on without proof: the types it
//! carries through opaquely, and one wrapper for each std call it makes.

use vstd::prelude::*;

verus! {

/// The error that an I/O operation of the child's streams or of the wait on it
/// reported; carried through unchanged.
#[verifier::external_type_specification]
#[verifier::external_body]
pub struct ExIoError(std::io::Error);

/// The error a channel receive reports when every sender has gone.
#[verifier::external_type_specification]
#[verifier::external_body]
pub struct ExRecvError(std::sync::mpsc::RecvError);

/// The sending half of the completion channel.
#[verifier::external_type_specification]
#[verifier::external_body]
#[verifier::reject_recursive_types(T)]
pub struct ExSender<T>(std::sync::mpsc::Sender<T>);

/// The receiving half of the completion channel.
#[verifier::external_type_specification]
#[verifier::external_body]
#[verifier::reject_recursive_types(T)]
pub struct ExReceiver<T>(std::sync::mpsc::Receiver<T>);

/// Relies on `Sender::send`: the message is delivered, or, when the receiver
/// has gone, handed back unchanged inside the `SendError`.
#[verifier::external_body]
pub(crate) fn send_message<T>(sender: &std::sync::mpsc::Sender<T>, msg: T) -> (r: Option<T>)
    ensures
        r is None || r == Some(msg),
{
    match sender.send(msg) {
        Ok(()) => None,
        Err(e) => Some(e.0),
    }
}

/// Relies on `Receiver::recv`: blocks until a message arrives or every sender
/// has gone. Which message comes depends on other threads, so nothing is
/// stated of it.
#[verifier::external_body]
pub(crate) fn receive_message<T>(receiver: &std::sync::mpsc::Receiver<T>) -> (r: Result<
    T,
    std::sync::mpsc::RecvError,
>) {
    receiver.recv()
}

/// The I/O error that `std::io::Error::other` builds from a message.
pub uninterp spec fn other_error_of(msg: Seq<char>) -> std::io::Error;

/// Relies on `std::io::Error::other`: an error of kind `Other` whose
/// description is the given message; it depends on the message alone.
#[verifier::external_body]
pub(crate) fn other_io_error(msg: String) -> (r: std::io::Error)
    ensures
        r == other_error_of(msg@),
{
    std::io::Error::other(msg)
}

} // verus!
