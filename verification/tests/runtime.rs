use tether::{NativeCall, Runtime};

#[test]
fn runtime_starts_unstarted() {
    assert!(!Runtime::new().started());
}

#[test]
fn start_marks_the_runtime_started() {
    let mut r = Runtime::new();
    r.start();
    assert!(r.started());
}

#[test]
fn exit_and_dispatch_ask_the_platform() {
    let mut r = Runtime::new();
    r.start();
    assert_eq!(r.exit(), NativeCall::Exit);
    assert_eq!(r.dispatch(), NativeCall::Dispatch);
}
