use bot::signal::{termination_signals, PlatformFamily, SignalKind, SignalListener};

#[test]
fn posix_signal_set() {
    assert_eq!(
        termination_signals(PlatformFamily::Posix),
        vec![SignalKind::Hangup, SignalKind::Interrupt, SignalKind::Terminate]
    );
}

#[test]
fn windows_signal_set() {
    assert_eq!(
        termination_signals(PlatformFamily::Windows),
        vec![SignalKind::CtrlBreak, SignalKind::CtrlC]
    );
}

#[test]
fn listener_delivers_exactly_one_event() {
    let mut listener = SignalListener::new();
    assert!(listener.deliver());
    assert!(!listener.deliver());
    assert!(!listener.deliver());
}
