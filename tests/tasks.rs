use process_iterator::{
    caught_panic_message, caught_panic_to_io_error, send_or_log_result, stdin_report, wait_report,
    ExitMessage, PanicPayload, ProcessAsyncError,
};
use std::io::ErrorKind;
use std::sync::mpsc;

#[test]
fn fed_input_reports_nothing() {
    assert!(stdin_report(Ok(Ok(()))).is_none());
}

#[test]
fn stdin_io_error_reports_stdin_failure() {
    let r = stdin_report(Ok(Err(std::io::Error::other("write failed"))));
    match r {
        Some(Err(ProcessAsyncError::StdinError(e))) => assert_eq!(e.to_string(), "write failed"),
        other => panic!("unexpected report {:?}", other),
    }
}

#[test]
fn stdin_fault_reports_internal_fault() {
    let r = stdin_report(Err(PanicPayload::Message("lock poisoned".to_string())));
    match r {
        Some(Err(ProcessAsyncError::InternalFault(s))) => assert_eq!(s, "lock poisoned"),
        other => panic!("unexpected report {:?}", other),
    }
}

#[test]
fn wait_reports_status() {
    assert_eq!(wait_report(Ok(Ok(Some(0)))).unwrap(), Some(0));
    assert_eq!(wait_report(Ok(Ok(Some(3)))).unwrap(), Some(3));
    assert_eq!(wait_report(Ok(Ok(None))).unwrap(), None);
}

#[test]
fn wait_io_error_reports_wait_failure() {
    match wait_report(Ok(Err(std::io::Error::other("no child")))) {
        Err(ProcessAsyncError::WaitError(e)) => assert_eq!(e.to_string(), "no child"),
        other => panic!("unexpected report {:?}", other),
    }
}

#[test]
fn wait_fault_without_text_reports_placeholder() {
    match wait_report(Err(PanicPayload::Opaque)) {
        Err(ProcessAsyncError::InternalFault(s)) => assert_eq!(s, "Box<Any>"),
        other => panic!("unexpected report {:?}", other),
    }
}

#[test]
fn panic_messages() {
    assert_eq!(caught_panic_message(PanicPayload::Message("oops".to_string())), "oops");
    assert_eq!(caught_panic_message(PanicPayload::Message(String::new())), "");
    assert_eq!(caught_panic_message(PanicPayload::Opaque), "Box<Any>");
}

#[test]
fn panic_to_io_error_keeps_message() {
    let e = caught_panic_to_io_error(PanicPayload::Message("oops".to_string()));
    assert_eq!(e.kind(), ErrorKind::Other);
    assert_eq!(e.to_string(), "oops");
    let e = caught_panic_to_io_error(PanicPayload::Opaque);
    assert_eq!(e.kind(), ErrorKind::Other);
    assert_eq!(e.to_string(), "Box<Any>");
}

#[test]
fn send_delivers_message() {
    let (tx, rx) = mpsc::channel::<ExitMessage>();
    assert!(send_or_log_result(tx, Ok(Some(0))).is_none());
    assert_eq!(rx.recv().unwrap().unwrap(), Some(0));
}

#[test]
fn send_without_receiver_hands_message_back() {
    let (tx, rx) = mpsc::channel::<ExitMessage>();
    drop(rx);
    let back = send_or_log_result(tx, Ok(Some(4)));
    assert_eq!(back.unwrap().unwrap(), Some(4));
}
