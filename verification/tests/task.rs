use workflow_core::task::{terminate_action, wait_action, TaskAction, TaskError};

#[test]
fn terminate_signals_only_a_running_task() {
    assert_eq!(terminate_action(true), TaskAction::SignalTermination);
    assert_eq!(terminate_action(false), TaskAction::Nothing);
}

#[test]
fn wait_blocks_only_on_a_running_task() {
    assert_eq!(wait_action(true), TaskAction::AwaitCompletion);
    assert_eq!(wait_action(false), TaskAction::Nothing);
}

#[test]
fn send_error_becomes_text() {
    let e = TaskError::from(async_std::channel::SendError(42u32));
    match e {
        TaskError::SendError(s) => assert_eq!(s, "sending into a closed channel"),
        _ => panic!("wrong variant"),
    }
}

#[test]
fn recv_errors_are_wrapped() {
    assert!(matches!(TaskError::from(async_std::channel::RecvError), TaskError::RecvError(_)));
    let e = TaskError::from(async_std::channel::TryRecvError::Empty);
    match e {
        TaskError::TryRecvError(inner) => assert_eq!(inner, async_std::channel::TryRecvError::Empty),
        _ => panic!("wrong variant"),
    }
}
