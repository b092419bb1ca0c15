//! The termination-signal model: which OS signals count as "please shut
//! down" on each platform family, and the single-shot discipline of the
//! listener that waits for them.
//!
//! The actual registration and waiting is platform work done by the runtime;
//! the decisions — the fixed signal set, and that the listener delivers
//! exactly one event for the life of the process — live here.

use vstd::prelude::*;

verus! {

/// An OS-level termination request.
#[derive(Clone, Copy, PartialEq, Eq, Debug, Structural)]
pub enum SignalKind {
    Hangup,
    Interrupt,
    Terminate,
    CtrlBreak,
    CtrlC,
}

/// The platform family the process runs on.
#[derive(Clone, Copy, PartialEq, Eq, Debug, Structural)]
pub enum PlatformFamily {
    Posix,
    Windows,
}

/// The fixed set of signals the listener subscribes to on each platform
/// family, every one of them an equivalent "please shut down" trigger.
pub open spec fn termination_signals_spec(p: PlatformFamily) -> Seq<SignalKind> {
    match p {
        PlatformFamily::Posix => seq![
            SignalKind::Hangup,
            SignalKind::Interrupt,
            SignalKind::Terminate,
        ],
        PlatformFamily::Windows => seq![SignalKind::CtrlBreak, SignalKind::CtrlC],
    }
}

/// The signals to register on platform family `p`.
pub fn termination_signals(p: PlatformFamily) -> (ks: Vec<SignalKind>)
    ensures
        ks@ == termination_signals_spec(p),
{
    let mut ks: Vec<SignalKind> = Vec::new();
    match p {
        PlatformFamily::Posix => {
            ks.push(SignalKind::Hangup);
            ks.push(SignalKind::Interrupt);
            ks.push(SignalKind::Terminate);
        },
        PlatformFamily::Windows => {
            ks.push(SignalKind::CtrlBreak);
            ks.push(SignalKind::CtrlC);
        },
    }
    proof {
        assert(ks@ =~= termination_signals_spec(p));
    }
    ks
}

/// The single-shot discipline of the signal listener: however many signal
/// sources are registered, the first to fire delivers the one event; every
/// later firing delivers nothing.
pub struct SignalListener {
    fired: bool,
}

impl View for SignalListener {
    type V = bool;

    /// Whether the one event has already been delivered.
    closed spec fn view(&self) -> bool {
        self.fired
    }
}

impl SignalListener {
    /// A fresh listener that has not delivered its event yet.
    pub fn new() -> (l: SignalListener)
        ensures
            !l@,
    {
        SignalListener { fired: false }
    }

    /// Record that one of the registered signals fired. Returns whether this
    /// is the listener's single event: true the first time, false ever
    /// after.
    pub fn deliver(&mut self) -> (first: bool)
        ensures
            first == !old(self)@,
            final(self)@,
    {
        let first: bool = !self.fired;
        self.fired = true;
        first
    }
}

} // verus!
