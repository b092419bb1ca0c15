use bot::coordinator::{Coordinator, Directive, ShutdownError};
use bot::text::{decimal_string, notice_text, notices_for, Notice};

#[test]
fn decimal_rendering_is_exact() {
    assert_eq!(decimal_string(0), "0");
    assert_eq!(decimal_string(7), "7");
    assert_eq!(decimal_string(10), "10");
    assert_eq!(decimal_string(42), "42");
    assert_eq!(decimal_string(60), "60");
    assert_eq!(decimal_string(12345), "12345");
    assert_eq!(decimal_string(u64::MAX), "18446744073709551615");
}

#[test]
fn notice_texts_are_exact() {
    assert_eq!(notice_text(&Notice::Aborting), "aborting existing shutdown task!");
    assert_eq!(notice_text(&Notice::ShuttingDownNow), "shutting down...");
    assert_eq!(
        notice_text(&Notice::ScheduledIn { minutes: 5 }),
        "shutting down in about 5 minutes!"
    );
    assert_eq!(
        notice_text(&Notice::ScheduledIn { minutes: 60 }),
        "shutting down in about 60 minutes!"
    );
    assert_eq!(
        notice_text(&Notice::InvalidDelay),
        "\"after\" parameter must be in between 1 and 60!"
    );
}

#[test]
fn error_texts_are_exact() {
    assert_eq!(
        ShutdownError::InvalidArgument.text(),
        "\"after\" parameter must be in between 1 and 60!"
    );
    assert_eq!(ShutdownError::DisconnectFailure.text(), "error disconnecting sessions!");
    assert_eq!(ShutdownError::SignalListenError.text(), "error registering signal listener!");
}

#[test]
fn immediate_request_notices() {
    let mut c = Coordinator::new();
    let out = c.request_shutdown(None);
    let notices = notices_for(&out);
    assert_eq!(notices, vec![Notice::ShuttingDownNow]);
}

#[test]
fn scheduled_request_notices() {
    let mut c = Coordinator::new();
    let out = c.request_shutdown(Some(5));
    let notices = notices_for(&out);
    assert_eq!(notices, vec![Notice::ScheduledIn { minutes: 5 }]);
}

#[test]
fn superseding_request_notices_in_order() {
    let mut c = Coordinator::new();
    c.request_shutdown(Some(5));
    let out = c.request_shutdown(None);
    let notices = notices_for(&out);
    assert_eq!(notices, vec![Notice::Aborting, Notice::ShuttingDownNow]);
    let texts: Vec<String> = notices.iter().map(notice_text).collect();
    assert_eq!(texts, vec!["aborting existing shutdown task!", "shutting down..."]);
}

#[test]
fn rejected_request_notices() {
    let mut c = Coordinator::new();
    c.request_shutdown(Some(5));
    let out = c.request_shutdown(Some(90));
    let notices = notices_for(&out);
    assert_eq!(notices, vec![Notice::Aborting, Notice::InvalidDelay]);
}

#[test]
fn ignored_request_emits_nothing() {
    let mut c = Coordinator::new();
    c.on_signal();
    let out = c.request_shutdown(Some(5));
    assert_eq!(out.directive, Directive::Ignore);
    assert_eq!(notices_for(&out), Vec::<Notice>::new());
}
