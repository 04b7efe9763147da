//! Service configuration, the error taxonomy of the lifecycle
//! coordinator, and the adapters that turn raw task completions into
//! coordinator events.

use vstd::prelude::*;
use vstd::string::StringExecFns;

use crate::lifecycle::{Completion, TaskOutcome};

verus! {

/// Everything the coordinator can report as a failure: transport or
/// bind errors, signal-handler registration errors, a named task's own
/// error, and a named task whose join could not be retrieved. Nested
/// causes are carried as rendered messages.
pub enum ServiceError {
    Io { message: String },
    Signal { message: String },
    TaskFailed { task: String, message: String },
    TaskJoin { task: String, message: String },
}

impl ServiceError {
    /// The human-readable rendering of this error.
    pub open spec fn message_spec(self) -> Seq<char> {
        match self {
            ServiceError::Io { message } => "io error: "@ + message@,
            ServiceError::Signal { message } => "signal handler error: "@ + message@,
            ServiceError::TaskFailed { task, message } => task@ + " failed: "@ + message@,
            ServiceError::TaskJoin { task, message } => task@ + " join failed: "@ + message@,
        }
    }

    /// Renders this error as a single line naming its kind and cause.
    pub fn message(&self) -> (r: String)
        ensures
            r@ == self.message_spec(),
    {
        match self {
            ServiceError::Io { message } => "io error: ".to_owned().concat(message.as_str()),
            ServiceError::Signal { message } => "signal handler error: ".to_owned().concat(
                message.as_str(),
            ),
            ServiceError::TaskFailed { task, message } => task.clone().concat(" failed: ").concat(
                message.as_str(),
            ),
            ServiceError::TaskJoin { task, message } => task.clone().concat(
                " join failed: ",
            ).concat(message.as_str()),
        }
    }
}

/// Startup configuration for the service: where the listener binds and
/// the URL it is announced under. Both are fixed at startup and never
/// change for the lifetime of the process.
pub struct Config {
    pub service_url: String,
    pub port: u16,
}

impl Config {
    /// The socket address the listener binds: all interfaces, at the
    /// configured port.
    pub fn bind_address(&self) -> (r: String)
        ensures
            r@ == "0.0.0.0:"@ + crate::decimal::spec_decimal(self.port as nat),
    {
        "0.0.0.0:".to_owned().concat(crate::decimal::u16_decimal(self.port).as_str())
    }
}

/// One entry of the teardown registry: the label under which the
/// runtime keeps the actual deferred cleanup closure. The registry is
/// the ordered list of these entries; the coordinator's teardown log
/// says which entry to invoke next. Teardown actions have no error
/// channel and no deadline: each is trusted to complete, and what is
/// tracked is that each is invoked exactly once, in order.
pub struct TeardownAction {
    pub label: String,
}

/// Registers a cleanup action under a label.
pub fn make_teardown(label: &str) -> (t: TeardownAction)
    ensures
        t.label@ == label@,
{
    TeardownAction { label: label.to_owned() }
}

/// What the runtime reports when it waits for the first of the
/// supervised tasks to finish: nothing was running at all, a task's
/// doubly-nested join result (the outer layer is the supervision
/// wrapper's own join, the inner one the task's own result), or a
/// failure of the supervision wrapper itself.
pub type RawCompletion = Option<Result<(usize, Result<Result<(), ServiceError>, String>), String>>;

/// Turns the runtime's raw report of the first finished task into the
/// coordinator's shutdown cause. An empty task set counts as a normal
/// completion; a failed join of the supervision wrapper itself cannot
/// be attributed to any task.
pub fn classify_completion(raw: RawCompletion) -> (c: Completion)
    ensures
        raw is None ==> c is NoTasks,
        raw matches Some(Ok((i, Ok(Ok(()))))) ==> c == (Completion::Task {
            index: i,
            outcome: TaskOutcome::Success,
        }),
        raw matches Some(Ok((i, Ok(Err(e))))) ==> c == (Completion::Task {
            index: i,
            outcome: TaskOutcome::Failure { error: e },
        }),
        raw matches Some(Ok((i, Err(m)))) ==> c == (Completion::Task {
            index: i,
            outcome: TaskOutcome::JoinFailure { message: m },
        }),
        raw matches Some(Err(m)) ==> c == (Completion::Unattributed { message: m }),
{
    match raw {
        None => Completion::NoTasks,
        Some(Ok((i, Ok(Ok(()))))) => Completion::Task { index: i, outcome: TaskOutcome::Success },
        Some(Ok((i, Ok(Err(e))))) => Completion::Task {
            index: i,
            outcome: TaskOutcome::Failure { error: e },
        },
        Some(Ok((i, Err(m)))) => Completion::Task {
            index: i,
            outcome: TaskOutcome::JoinFailure { message: m },
        },
        Some(Err(m)) => Completion::Unattributed { message: m },
    }
}

} // verus!
