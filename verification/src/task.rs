//! Errors of task control, and the decisions that `terminate` and `wait`
//! take on a task's channels.

use vstd::prelude::*;
use async_std::channel::{RecvError, SendError, TryRecvError};

verus! {

#[verifier::external_type_specification]
#[verifier::external_body]
pub struct ExRecvError(async_std::channel::RecvError);

#[verifier::external_type_specification]
#[verifier::external_body]
pub struct ExTryRecvError(async_std::channel::TryRecvError);

#[verifier::external_type_specification]
#[verifier::external_body]
#[verifier::reject_recursive_types(T)]
pub struct ExSendError<T>(async_std::channel::SendError<T>);

/// The text that a failed send reports.
pub open spec fn closed_channel_text() -> Seq<char> {
    "sending into a closed channel"@
}

/// Calls `to_string` on an `async_std` `SendError`, whose `Display` writes
/// the fixed text "sending into a closed channel" whatever message it holds.
#[verifier::external_body]
fn send_error_text<T>(err: &async_std::channel::SendError<T>) -> (r: String)
    ensures
        r@ == closed_channel_text(),
{
    err.to_string()
}

/// Why signalling or waiting on a task failed.
#[derive(Debug)]
pub enum TaskError {
    SendError(String),
    RecvError(RecvError),
    TryRecvError(TryRecvError),
}

pub type TaskResult<T> = std::result::Result<T, TaskError>;

impl From<RecvError> for TaskError {
    fn from(err: RecvError) -> (r: Self) {
        TaskError::RecvError(err)
    }
}

impl vstd::std_specs::convert::FromSpecImpl<RecvError> for TaskError {
    open spec fn obeys_from_spec() -> bool {
        true
    }

    open spec fn from_spec(v: RecvError) -> TaskError {
        TaskError::RecvError(v)
    }
}

impl From<TryRecvError> for TaskError {
    fn from(err: TryRecvError) -> (r: Self) {
        TaskError::TryRecvError(err)
    }
}

impl vstd::std_specs::convert::FromSpecImpl<TryRecvError> for TaskError {
    open spec fn obeys_from_spec() -> bool {
        true
    }

    open spec fn from_spec(v: TryRecvError) -> TaskError {
        TaskError::TryRecvError(v)
    }
}

impl<T> From<SendError<T>> for TaskError {
    /// A failed send becomes `SendError` with the text that the send error
    /// displays.
    fn from(err: SendError<T>) -> (r: Self)
        ensures
            r matches TaskError::SendError(s) && s@ == closed_channel_text(),
    {
        TaskError::SendError(send_error_text(&err))
    }
}

impl<T> vstd::std_specs::convert::FromSpecImpl<SendError<T>> for TaskError {
    /// The converted value holds a `String`, which a spec function cannot
    /// build; `from` states its result in its own `ensures` instead.
    open spec fn obeys_from_spec() -> bool {
        false
    }

    open spec fn from_spec(v: SendError<T>) -> TaskError {
        TaskError::SendError(arbitrary())
    }
}

/// What has to be done on a task's channels.
#[derive(PartialEq, Eq, Structural, Debug, Clone, Copy)]
pub enum TaskAction {
    /// Send the termination signal to the running task.
    SignalTermination,
    /// Wait for the running task to signal its completion.
    AwaitCompletion,
    /// Nothing: the task is not running.
    Nothing,
}

/// What `terminate` does: a running task is sent the termination signal; a
/// task that is not running is left alone.
pub fn terminate_action(running: bool) -> (a: TaskAction)
    ensures
        a == (if running { TaskAction::SignalTermination } else { TaskAction::Nothing }),
{
    if running {
        TaskAction::SignalTermination
    } else {
        TaskAction::Nothing
    }
}

/// What `wait` does: on a running task it waits for the completion signal;
/// on a task that is not running it returns at once.
pub fn wait_action(running: bool) -> (a: TaskAction)
    ensures
        a == (if running { TaskAction::AwaitCompletion } else { TaskAction::Nothing }),
{
    if running {
        TaskAction::AwaitCompletion
    } else {
        TaskAction::Nothing
    }
}

} // verus!
