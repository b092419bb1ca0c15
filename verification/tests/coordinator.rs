use bot::coordinator::{Coordinator, Directive, Phase, ShutdownError, TaskHandle};

/// Drives one outcome the way the runtime would, counting disconnect orders.
fn disconnects_of(directive: Directive) -> u64 {
    match directive {
        Directive::DisconnectNow => 1,
        _ => 0,
    }
}

#[test]
fn new_coordinator_is_idle() {
    let c = Coordinator::new();
    assert_eq!(c.phase(), Phase::Idle);
    assert_eq!(c.pending_task(), None);
    assert!(!c.is_disconnecting());
}

#[test]
fn scenario_immediate_shutdown_from_idle() {
    let mut c = Coordinator::new();
    let out = c.request_shutdown(None);
    assert_eq!(out.aborted, None);
    assert_eq!(out.directive, Directive::DisconnectNow);
    assert_eq!(out.to_result(), Ok(()));
    assert_eq!(disconnects_of(out.directive), 1);
    assert_eq!(c.phase(), Phase::Disconnecting);
}

#[test]
fn scenario_delayed_shutdown_runs_to_completion() {
    let mut c = Coordinator::new();
    let out = c.request_shutdown(Some(5));
    assert_eq!(out.to_result(), Ok(()));
    let handle = match out.directive {
        Directive::Schedule { handle } => handle,
        other => panic!("expected a scheduled task, got {other:?}"),
    };
    assert_eq!(handle.delay_minutes, 5);
    assert_eq!(c.pending_task(), Some(handle));
    assert_eq!(c.phase(), Phase::Scheduled);

    // The five minutes elapse with no further calls: the wake-up proceeds,
    // and the disconnect is ordered exactly once.
    assert!(c.on_task_wake(handle.id));
    assert_eq!(c.phase(), Phase::Disconnecting);
    assert!(!c.on_task_wake(handle.id));
}

#[test]
fn scenario_immediate_supersedes_delayed() {
    let mut c = Coordinator::new();
    let first = c.request_shutdown(Some(5));
    let scheduled = match first.directive {
        Directive::Schedule { handle } => handle,
        other => panic!("expected a scheduled task, got {other:?}"),
    };

    // One minute later, an immediate request: the first task is cancelled
    // and the immediate path disconnects, exactly once.
    let second = c.request_shutdown(None);
    assert_eq!(second.aborted, Some(scheduled));
    assert_eq!(second.directive, Directive::DisconnectNow);
    assert_eq!(disconnects_of(first.directive) + disconnects_of(second.directive), 1);

    // The cancelled task's wake-up must not add a second disconnect.
    assert!(!c.on_task_wake(scheduled.id));
}

#[test]
fn scenario_invalid_delay_is_rejected() {
    let mut c = Coordinator::new();
    let out = c.request_shutdown(Some(90));
    assert_eq!(out.directive, Directive::Reject);
    assert_eq!(out.aborted, None);
    assert_eq!(out.to_result(), Err(ShutdownError::InvalidArgument));
    assert_eq!(c.phase(), Phase::Idle);
    assert_eq!(c.pending_task(), None);
}

#[test]
fn scenario_signal_cancels_pending_task() {
    let mut c = Coordinator::new();
    let out = c.request_shutdown(Some(10));
    let scheduled = match out.directive {
        Directive::Schedule { handle } => handle,
        other => panic!("expected a scheduled task, got {other:?}"),
    };

    let signal_out = c.on_signal();
    assert_eq!(signal_out.aborted, Some(scheduled));
    assert_eq!(signal_out.directive, Directive::DisconnectNow);
    assert!(!c.on_task_wake(scheduled.id));
    assert_eq!(c.phase(), Phase::Disconnecting);
}

#[test]
fn invalid_delay_boundaries() {
    for bad in [0u64, 61, 90, u64::MAX] {
        let mut c = Coordinator::new();
        let out = c.request_shutdown(Some(bad));
        assert_eq!(out.directive, Directive::Reject);
        assert_eq!(c.pending_task(), None);
        assert_eq!(c.phase(), Phase::Idle);
    }
    for good in [1u64, 60] {
        let mut c = Coordinator::new();
        let out = c.request_shutdown(Some(good));
        assert!(matches!(out.directive, Directive::Schedule { .. }));
        assert_eq!(c.phase(), Phase::Scheduled);
    }
}

#[test]
fn cancel_pending_reports_whether_anything_was_cancelled() {
    let mut c = Coordinator::new();
    assert!(!c.cancel_pending());
    c.request_shutdown(Some(3));
    assert!(c.cancel_pending());
    assert_eq!(c.phase(), Phase::Idle);
    assert!(!c.cancel_pending());
}

#[test]
fn superseded_task_never_disconnects() {
    // A cancel before the delay elapses kills the scheduled disconnect.
    let mut c = Coordinator::new();
    let out = c.request_shutdown(Some(5));
    let h1 = match out.directive {
        Directive::Schedule { handle } => handle,
        other => panic!("expected a scheduled task, got {other:?}"),
    };
    assert!(c.cancel_pending());
    assert!(!c.on_task_wake(h1.id));
    assert_eq!(c.phase(), Phase::Idle);

    // A new delayed request likewise: only the replacement may proceed.
    let out = c.request_shutdown(Some(7));
    let h2 = match out.directive {
        Directive::Schedule { handle } => handle,
        other => panic!("expected a scheduled task, got {other:?}"),
    };
    let out = c.request_shutdown(Some(9));
    let h3 = match out.directive {
        Directive::Schedule { handle } => handle,
        other => panic!("expected a scheduled task, got {other:?}"),
    };
    assert_eq!(out.aborted, Some(h2));
    assert!(!c.on_task_wake(h2.id));
    assert!(c.on_task_wake(h3.id));
}

#[test]
fn many_requests_leave_exactly_one_live_task() {
    let mut c = Coordinator::new();
    let mut handles: Vec<TaskHandle> = Vec::new();
    let mut outcomes = Vec::new();
    for i in 0..5u64 {
        let out = c.request_shutdown(Some(i + 1));
        outcomes.push(out);
        match out.directive {
            Directive::Schedule { handle } => handles.push(handle),
            other => panic!("expected a scheduled task, got {other:?}"),
        }
    }

    // All five handles are distinct.
    for i in 0..handles.len() {
        for j in 0..handles.len() {
            if i != j {
                assert_ne!(handles[i].id, handles[j].id);
            }
        }
    }

    // Each request cancelled exactly its predecessor: four of the five were
    // superseded, one survives.
    assert_eq!(outcomes[0].aborted, None);
    for i in 1..outcomes.len() {
        assert_eq!(outcomes[i].aborted, Some(handles[i - 1]));
    }
    assert_eq!(c.pending_task(), Some(handles[4]));

    // Only the survivor's wake-up reaches the disconnect.
    let mut disconnects = 0u64;
    for h in &handles {
        if c.on_task_wake(h.id) {
            disconnects += 1;
        }
    }
    assert_eq!(disconnects, 1);
}

#[test]
fn one_disconnect_per_terminal_transition_under_races() {
    // A messy history: schedules, cancels, a signal racing a pending task,
    // late requests and stale wake-ups. Exactly one terminal transition, so
    // exactly one disconnect order.
    let mut c = Coordinator::new();
    let mut disconnects = 0u64;

    let out = c.request_shutdown(Some(5));
    disconnects += disconnects_of(out.directive);
    let h1 = match out.directive {
        Directive::Schedule { handle } => handle,
        other => panic!("expected a scheduled task, got {other:?}"),
    };
    c.cancel_pending();
    let out = c.request_shutdown(Some(2));
    disconnects += disconnects_of(out.directive);
    let h2 = match out.directive {
        Directive::Schedule { handle } => handle,
        other => panic!("expected a scheduled task, got {other:?}"),
    };

    let out = c.on_signal();
    disconnects += disconnects_of(out.directive);

    // Everything after the terminal transition is inert.
    let out = c.on_signal();
    assert_eq!(out.directive, Directive::Ignore);
    disconnects += disconnects_of(out.directive);
    let out = c.request_shutdown(None);
    assert_eq!(out.directive, Directive::Ignore);
    disconnects += disconnects_of(out.directive);
    if c.on_task_wake(h1.id) {
        disconnects += 1;
    }
    if c.on_task_wake(h2.id) {
        disconnects += 1;
    }

    assert_eq!(disconnects, 1);
}

#[test]
fn request_after_disconnect_began_is_ignored() {
    let mut c = Coordinator::new();
    c.request_shutdown(None);
    let out = c.request_shutdown(Some(5));
    assert_eq!(out.directive, Directive::Ignore);
    assert_eq!(out.aborted, None);
    assert_eq!(out.to_result(), Ok(()));
    assert!(!c.cancel_pending());
}
