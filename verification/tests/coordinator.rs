use argus::lifecycle::{Completion, Coordinator, Phase, TaskOutcome, TaskState};
use argus::service_setup::{classify_completion, make_teardown, Config, ServiceError};

fn names(list: &[&str]) -> Vec<String> {
    list.iter().map(|s| s.to_string()).collect()
}

#[test]
fn fresh_coordinator_is_starting() {
    let c = Coordinator::new(&names(&["Server", "Signals"]), 1);
    assert!(matches!(c.phase, Phase::Starting));
    assert_eq!(c.tasks.len(), 2);
    assert_eq!(c.tasks[0].name, "Server");
    assert_eq!(c.tasks[1].name, "Signals");
    assert!(c.tasks.iter().all(|t| matches!(t.state, TaskState::Outstanding)));
    assert!(c.cause.is_none());
    assert!(c.teardown_log.is_empty());
}

#[test]
fn signal_shutdown_runs_teardown_once_and_succeeds() {
    // A signal delivery is the "Signals" task finishing successfully.
    let mut c = Coordinator::new(&names(&["Server", "Signals"]), 1);
    c.start();
    assert!(matches!(c.phase, Phase::Running));

    c.observe(Completion::Task { index: 1, outcome: TaskOutcome::Success });
    assert!(matches!(c.phase, Phase::ShuttingDown));
    assert!(matches!(c.tasks[1].state, TaskState::Finished));

    // Only the server is still outstanding.
    let cancelled = c.cancel_outstanding();
    assert_eq!(cancelled, 1);
    assert!(matches!(c.tasks[0].state, TaskState::CancelRequested));
    assert!(matches!(c.tasks[1].state, TaskState::Finished));

    c.begin_teardown();
    assert!(matches!(c.phase, Phase::Terminated));
    assert_eq!(c.teardown_remaining(), 1);
    let idx = c.teardown_step();
    assert_eq!(idx, 0);
    assert_eq!(c.teardown_remaining(), 0);
    assert_eq!(c.teardown_log, vec![0]);

    assert!(c.outcome().is_ok());
}

#[test]
fn failing_task_is_named_and_teardown_still_runs() {
    let mut c = Coordinator::new(&names(&["Heartbeat", "Server", "Signals"]), 1);
    c.start();
    c.observe(Completion::Task {
        index: 0,
        outcome: TaskOutcome::Failure {
            error: ServiceError::Io { message: "boom".to_string() },
        },
    });
    assert_eq!(c.cancel_outstanding(), 2);
    c.begin_teardown();
    while c.teardown_remaining() > 0 {
        c.teardown_step();
    }
    assert_eq!(c.teardown_log, vec![0]);

    match c.outcome() {
        Err(ServiceError::TaskFailed { task, message }) => {
            assert_eq!(task, "Heartbeat");
            assert_eq!(message, "io error: boom");
        }
        _ => panic!("expected the named task failure"),
    }
}

#[test]
fn bind_failure_surfaces_as_io_flavoured_server_failure() {
    let mut c = Coordinator::new(&names(&["Server", "Signals"]), 1);
    c.start();
    c.observe(Completion::Task {
        index: 0,
        outcome: TaskOutcome::Failure {
            error: ServiceError::Io { message: "address already in use".to_string() },
        },
    });
    c.cancel_outstanding();
    c.begin_teardown();
    c.teardown_step();
    match c.outcome() {
        Err(ServiceError::TaskFailed { task, message }) => {
            assert_eq!(task, "Server");
            assert_eq!(message, "io error: address already in use");
        }
        _ => panic!("expected the server's bind failure"),
    }
}

#[test]
fn cancellation_counts_every_outstanding_task_and_is_idempotent() {
    let mut c = Coordinator::new(&names(&["A", "B", "C", "Server", "Signals"]), 0);
    c.start();
    c.observe(Completion::Task { index: 3, outcome: TaskOutcome::Success });

    // Four tasks are outstanding; all four get a cancellation request.
    let cancelled = c.cancel_outstanding();
    assert_eq!(cancelled, 4);
    for i in [0usize, 1, 2, 4] {
        assert!(matches!(c.tasks[i].state, TaskState::CancelRequested));
    }

    // Cancelling a finished or already-cancelled task is a no-op.
    assert!(!c.cancel(3));
    assert!(!c.cancel(0));
    assert_eq!(c.cancel_outstanding(), 0);

    c.begin_teardown();
    assert!(c.outcome().is_ok());
}

#[test]
fn shutdown_cancels_every_other_task_in_one_move() {
    let mut c = Coordinator::new(&names(&["A", "B", "Server", "Signals"]), 1);
    c.start();
    let cancelled = c.shutdown(Completion::Task { index: 2, outcome: TaskOutcome::Success });
    assert_eq!(cancelled, 3);
    assert!(matches!(c.phase, Phase::Terminated));
    assert!(matches!(c.tasks[2].state, TaskState::Finished));
    for i in [0usize, 1, 3] {
        assert!(matches!(c.tasks[i].state, TaskState::CancelRequested));
    }
    assert_eq!(c.teardown_step(), 0);
    assert!(c.outcome().is_ok());
}

#[test]
fn no_tasks_at_all_still_terminates_successfully() {
    let mut c = Coordinator::new(&Vec::new(), 2);
    c.start();
    c.observe(Completion::NoTasks);
    assert_eq!(c.cancel_outstanding(), 0);
    c.begin_teardown();
    assert_eq!(c.teardown_step(), 0);
    assert_eq!(c.teardown_step(), 1);
    assert_eq!(c.teardown_log, vec![0, 1]);
    assert!(c.outcome().is_ok());
}

#[test]
fn unattributed_join_failure_is_reported_for_the_wrapper() {
    let mut c = Coordinator::new(&names(&["Server", "Signals"]), 0);
    c.start();
    c.observe(Completion::Unattributed { message: "panicked".to_string() });
    c.cancel_outstanding();
    c.begin_teardown();
    match c.outcome() {
        Err(ServiceError::TaskJoin { task, message }) => {
            assert_eq!(task, "service-wrapper");
            assert_eq!(message, "panicked");
        }
        _ => panic!("expected the wrapper's join failure"),
    }
}

#[test]
fn join_failure_of_a_task_is_named() {
    let mut c = Coordinator::new(&names(&["Heartbeat", "Server", "Signals"]), 0);
    c.start();
    c.observe(Completion::Task {
        index: 2,
        outcome: TaskOutcome::JoinFailure { message: "cancelled".to_string() },
    });
    c.cancel_outstanding();
    c.begin_teardown();
    match c.outcome() {
        Err(ServiceError::TaskJoin { task, message }) => {
            assert_eq!(task, "Signals");
            assert_eq!(message, "cancelled");
        }
        _ => panic!("expected the named join failure"),
    }
}

#[test]
fn classify_completion_maps_every_raw_shape() {
    assert!(matches!(classify_completion(None), Completion::NoTasks));

    match classify_completion(Some(Ok((2, Ok(Ok(())))))) {
        Completion::Task { index, outcome: TaskOutcome::Success } => assert_eq!(index, 2),
        _ => panic!("expected a successful completion"),
    }

    match classify_completion(Some(Ok((
        0,
        Ok(Err(ServiceError::Signal { message: "no handler".to_string() })),
    )))) {
        Completion::Task { index, outcome: TaskOutcome::Failure { error } } => {
            assert_eq!(index, 0);
            assert_eq!(error.message(), "signal handler error: no handler");
        }
        _ => panic!("expected a task failure"),
    }

    match classify_completion(Some(Ok((1, Err("aborted".to_string()))))) {
        Completion::Task { index, outcome: TaskOutcome::JoinFailure { message } } => {
            assert_eq!(index, 1);
            assert_eq!(message, "aborted");
        }
        _ => panic!("expected a join failure"),
    }

    match classify_completion(Some(Err("wrapper died".to_string()))) {
        Completion::Unattributed { message } => assert_eq!(message, "wrapper died"),
        _ => panic!("expected an unattributed failure"),
    }
}

#[test]
fn error_messages_name_kind_and_cause() {
    let io = ServiceError::Io { message: "connection reset".to_string() };
    assert_eq!(io.message(), "io error: connection reset");

    let sig = ServiceError::Signal { message: "no handler".to_string() };
    assert_eq!(sig.message(), "signal handler error: no handler");

    let failed = ServiceError::TaskFailed {
        task: "Heartbeat".to_string(),
        message: "stopped".to_string(),
    };
    assert_eq!(failed.message(), "Heartbeat failed: stopped");

    let join = ServiceError::TaskJoin {
        task: "Server".to_string(),
        message: "cancelled".to_string(),
    };
    assert_eq!(join.message(), "Server join failed: cancelled");
}

#[test]
fn make_teardown_keeps_the_label() {
    let t = make_teardown("close log file");
    assert_eq!(t.label, "close log file");
}

#[test]
fn bind_address_joins_all_interfaces_and_port() {
    let config = Config { service_url: "http://0.0.0.0:8080".to_string(), port: 8080 };
    assert_eq!(config.bind_address(), "0.0.0.0:8080");
    let low = Config { service_url: "http://0.0.0.0:0".to_string(), port: 0 };
    assert_eq!(low.bind_address(), "0.0.0.0:0");
}
