use process_iterator::{
    exit_status_result, exit_success, resolve_received, ChildStream, ExitMessage,
    FutureExitResult, ProcessAsyncError,
};
use std::sync::mpsc;

fn future_with(messages: Vec<ExitMessage>) -> FutureExitResult {
    let (tx, rx) = mpsc::channel();
    for m in messages {
        tx.send(m).unwrap();
    }
    FutureExitResult::new(rx)
}

#[test]
fn clean_exit_resolves_once() {
    let mut f = future_with(vec![Ok(Some(0))]);
    assert_eq!(f.wait().unwrap(), Some(0));
    assert!(matches!(f.wait(), Err(ProcessAsyncError::AlreadyResolvedError)));
    assert!(matches!(f.wait(), Err(ProcessAsyncError::AlreadyResolvedError)));
}

#[test]
fn nonzero_exit_carries_code() {
    let mut f = future_with(vec![Ok(Some(3))]);
    assert!(matches!(f.wait(), Err(ProcessAsyncError::ExitStatusError(Some(3)))));
    assert!(matches!(f.wait(), Err(ProcessAsyncError::AlreadyResolvedError)));
}

#[test]
fn signal_exit_has_no_code() {
    let mut f = future_with(vec![Ok(None)]);
    assert!(matches!(f.wait(), Err(ProcessAsyncError::ExitStatusError(None))));
}

#[test]
fn first_message_is_authoritative() {
    let stdin_failure = std::io::Error::other("broken pipe");
    let mut f = future_with(vec![Err(ProcessAsyncError::StdinError(stdin_failure)), Ok(Some(0))]);
    match f.wait() {
        Err(ProcessAsyncError::StdinError(e)) => assert_eq!(e.to_string(), "broken pipe"),
        other => panic!("unexpected outcome {:?}", other),
    }
    assert!(matches!(f.wait(), Err(ProcessAsyncError::AlreadyResolvedError)));
}

#[test]
fn all_senders_gone_is_a_receive_error() {
    let (tx, rx) = mpsc::channel::<ExitMessage>();
    drop(tx);
    let mut f = FutureExitResult::new(rx);
    assert!(matches!(f.wait(), Err(ProcessAsyncError::RecvError(_))));
    assert!(matches!(f.wait(), Err(ProcessAsyncError::AlreadyResolvedError)));
}

#[test]
fn child_stream_waits_and_keeps_reader() {
    let (tx, rx) = mpsc::channel();
    tx.send(Ok(Some(0))).unwrap();
    let mut child = ChildStream { stdout: b"1\n2\n".to_vec(), wait_result: FutureExitResult::new(rx) };
    assert_eq!(child.wait().unwrap(), Some(0));
    assert_eq!(child.stdout, b"1\n2\n".to_vec());
    assert!(matches!(child.wait(), Err(ProcessAsyncError::AlreadyResolvedError)));
}

#[test]
fn child_stream_reports_exit_three() {
    let (tx, rx) = mpsc::channel();
    tx.send(Ok(Some(3))).unwrap();
    let mut child = ChildStream { stdout: Vec::<u8>::new(), wait_result: FutureExitResult::new(rx) };
    assert!(child.stdout.is_empty());
    assert!(matches!(child.wait(), Err(ProcessAsyncError::ExitStatusError(Some(3)))));
}

#[test]
fn exit_success_only_for_zero() {
    assert!(exit_success(Some(0)));
    assert!(!exit_success(Some(1)));
    assert!(!exit_success(Some(-1)));
    assert!(!exit_success(None));
}

#[test]
fn status_results() {
    assert_eq!(exit_status_result(Some(0)).unwrap(), Some(0));
    assert!(matches!(exit_status_result(Some(2)), Err(ProcessAsyncError::ExitStatusError(Some(2)))));
    assert!(matches!(exit_status_result(None), Err(ProcessAsyncError::ExitStatusError(None))));
}

#[test]
fn received_messages_resolve() {
    assert_eq!(resolve_received(Ok(Ok(Some(0)))).unwrap(), Some(0));
    assert!(matches!(resolve_received(Ok(Ok(Some(7)))), Err(ProcessAsyncError::ExitStatusError(Some(7)))));
    assert!(matches!(
        resolve_received(Ok(Err(ProcessAsyncError::InternalFault("boom".to_string())))),
        Err(ProcessAsyncError::InternalFault(ref s)) if s == "boom"
    ));
    assert!(matches!(resolve_received(Err(mpsc::RecvError)), Err(ProcessAsyncError::RecvError(_))));
}
