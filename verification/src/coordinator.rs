//! The shutdown coordinator: the single piece of mutable state of the
//! service's lifecycle, together with its transition rules.
//!
//! The coordinator owns `pending`, the optional handle of the one cancellable
//! delayed-shutdown task, and a terminal flag that is set once the disconnect
//! action has begun. Each operation is specified as a pure transition on the
//! coordinator's view: the new view plus an outcome that tells the runtime
//! which task to abort, whether to spawn a sleeping task, and whether to
//! disconnect now. The runtime performs those effects; the decisions are all
//! made, and verified, here.

use vstd::prelude::*;

verus! {

/// Handle of one spawned delayed-shutdown task.
///
/// Handles are identified by the coordinator-issued `id`, which is never
/// reused: each scheduled task gets a fresh one. `delay_minutes` is the
/// validated sleep length the task was spawned with.
#[derive(Clone, Copy, PartialEq, Eq, Debug, Structural)]
pub struct TaskHandle {
    pub id: u64,
    pub delay_minutes: u64,
}

/// The three phases of the coordinator's lifecycle.
///
/// `Disconnecting` is terminal: once the disconnect action has begun the
/// process is going down, and no later request schedules or disconnects
/// again.
#[derive(Clone, Copy, PartialEq, Eq, Debug, Structural)]
pub enum Phase {
    Idle,
    Scheduled,
    Disconnecting,
}

/// The error taxonomy of the shutdown path.
#[derive(Clone, Copy, PartialEq, Eq, Debug, Structural)]
pub enum ShutdownError {
    /// A requested delay lay outside the accepted 1..=60 minute range.
    InvalidArgument,
    /// The connection manager reported a failure while disconnecting.
    DisconnectFailure,
    /// A termination-signal handler could not be registered at startup.
    SignalListenError,
}

/// What the runtime must do after a request: the coordinator never performs
/// I/O itself, it only decides.
#[derive(Clone, Copy, PartialEq, Eq, Debug, Structural)]
pub enum Directive {
    /// Tell the connection manager to disconnect all sessions, blocking the
    /// caller until it completes.
    DisconnectNow,
    /// Spawn a cancellable task that sleeps for `handle.delay_minutes`
    /// minutes and then reports its wake-up back to the coordinator.
    Schedule { handle: TaskHandle },
    /// The request was invalid; report `InvalidArgument` and do nothing else.
    Reject,
    /// The disconnect has already begun; the request is a no-op.
    Ignore,
}

/// The full effect of one request: the previously pending task that must be
/// aborted, if any, and the directive for the new request itself.
#[derive(Clone, Copy, Debug)]
pub struct RequestOutcome {
    pub aborted: Option<TaskHandle>,
    pub directive: Directive,
}

/// The mathematical model of the coordinator's state.
pub struct CoordinatorView {
    /// Handle of the one non-cancelled pending delayed-shutdown task, if any.
    pub pending: Option<TaskHandle>,
    /// The next task id to issue; ids below it are spent.
    pub next_id: int,
    /// Whether a terminal disconnect action has begun.
    pub terminal: bool,
}

/// The earliest delay, in minutes, that a request may ask for.
pub const MIN_DELAY_MINUTES: u64 = 1;

/// The latest delay, in minutes, that a request may ask for.
pub const MAX_DELAY_MINUTES: u64 = 60;

/// Whether `delay` is an accepted delayed-shutdown duration.
pub open spec fn valid_delay(delay: u64) -> bool {
    MIN_DELAY_MINUTES <= delay <= MAX_DELAY_MINUTES
}

impl CoordinatorView {
    /// Well-formedness: a pending handle only exists before the terminal
    /// action, and its id has been issued.
    pub open spec fn wf(self) -> bool {
        &&& (self.pending matches Some(h) ==> h.id < self.next_id)
        &&& (self.terminal ==> self.pending is None)
        &&& 0 <= self.next_id
    }

    /// The coordinator's current lifecycle phase.
    pub open spec fn phase(self) -> Phase {
        if self.terminal {
            Phase::Disconnecting
        } else if self.pending is Some {
            Phase::Scheduled
        } else {
            Phase::Idle
        }
    }

    /// The state a coordinator is created in: idle, nothing pending.
    pub open spec fn init() -> CoordinatorView {
        CoordinatorView { pending: None, next_id: 0, terminal: false }
    }

    /// Whether a wake-up of task `id` would proceed to the disconnect: the
    /// task is still the pending one and no disconnect has begun.
    pub open spec fn wake_proceeds(self, id: u64) -> bool {
        &&& !self.terminal
        &&& self.pending matches Some(h) && h.id == id
    }

    /// A task id that can never again reach the disconnect: it was issued,
    /// and it is no longer the pending one. Superseded ids stay superseded,
    /// because fresh handles always receive ids that were never issued.
    pub open spec fn superseded(self, id: u64) -> bool {
        &&& id < self.next_id
        &&& !self.wake_proceeds(id)
    }

    /// The transition of `RequestShutdown(delay)`.
    ///
    /// Before the terminal action: the pending task, if any, is always
    /// cancelled first. An absent delay then disconnects at once; a valid
    /// delay schedules a fresh task; an invalid delay is rejected with
    /// nothing scheduled. After the terminal action the request is ignored.
    pub open spec fn request_transition(self, delay: Option<u64>) -> (CoordinatorView, RequestOutcome) {
        if self.terminal {
            (self, RequestOutcome { aborted: None, directive: Directive::Ignore })
        } else {
            let aborted = self.pending;
            match delay {
                None => (
                    CoordinatorView { pending: None, terminal: true, ..self },
                    RequestOutcome { aborted, directive: Directive::DisconnectNow },
                ),
                Some(d) => if valid_delay(d) {
                    let handle = TaskHandle { id: self.next_id as u64, delay_minutes: d };
                    (
                        CoordinatorView { pending: Some(handle), next_id: self.next_id + 1, ..self },
                        RequestOutcome { aborted, directive: (Directive::Schedule { handle }) },
                    )
                } else {
                    (
                        CoordinatorView { pending: None, ..self },
                        RequestOutcome { aborted, directive: Directive::Reject },
                    )
                },
            }
        }
    }

    /// The transition of `CancelPending`: clear the pending task, report
    /// whether there was one.
    pub open spec fn cancel_transition(self) -> (CoordinatorView, bool) {
        (CoordinatorView { pending: None, ..self }, self.pending is Some)
    }

    /// The transition of a delayed task's wake-up. Only the still-pending,
    /// non-cancelled task proceeds to the disconnect; any other wake-up is a
    /// no-op with no observable side effect.
    pub open spec fn wake_transition(self, id: u64) -> (CoordinatorView, bool) {
        if self.wake_proceeds(id) {
            (CoordinatorView { pending: None, terminal: true, ..self }, true)
        } else {
            (self, false)
        }
    }
}

/// The shutdown coordinator. The surrounding runtime owns one instance for
/// the life of the process, behind its own mutual-exclusion lock; every
/// access to the pending task goes through these operations.
pub struct Coordinator {
    pending: Option<TaskHandle>,
    next_id: u64,
    terminal: bool,
}

impl View for Coordinator {
    type V = CoordinatorView;

    closed spec fn view(&self) -> CoordinatorView {
        CoordinatorView {
            pending: self.pending,
            next_id: self.next_id as int,
            terminal: self.terminal,
        }
    }
}

impl Coordinator {
    /// Create an idle coordinator with no pending delayed shutdown.
    pub fn new() -> (c: Coordinator)
        ensures
            c@ == CoordinatorView::init(),
            c@.wf(),
    {
        Coordinator { pending: None, next_id: 0, terminal: false }
    }

    /// The coordinator's current lifecycle phase.
    pub fn phase(&self) -> (p: Phase)
        ensures
            p == self@.phase(),
    {
        if self.terminal {
            Phase::Disconnecting
        } else if self.pending.is_some() {
            Phase::Scheduled
        } else {
            Phase::Idle
        }
    }

    /// The handle of the pending delayed-shutdown task, if one is scheduled.
    pub fn pending_task(&self) -> (h: Option<TaskHandle>)
        ensures
            h == self@.pending,
    {
        self.pending
    }

    /// Whether the terminal disconnect action has begun.
    pub fn is_disconnecting(&self) -> (b: bool)
        ensures
            b == self@.terminal,
    {
        self.terminal
    }

    /// Runtime check of the well-formedness every operation requires and
    /// preserves, for callers outside the proofs.
    pub fn well_formed(&self) -> (b: bool)
        ensures
            b == self@.wf(),
    {
        match self.pending {
            Some(handle) => handle.id < self.next_id && !self.terminal,
            None => true,
        }
    }

    /// Whether fresh task ids remain, as scheduling a delayed task requires.
    pub fn has_fresh_ids(&self) -> (b: bool)
        ensures
            b == (self@.next_id < u64::MAX),
    {
        self.next_id < u64::MAX
    }

    /// Handle `RequestShutdown(delay)` under the state lock.
    ///
    /// The returned outcome is exactly `request_transition`: the previously
    /// pending task to abort (always cancelled first, whatever the request),
    /// and then one of: disconnect now (absent delay), schedule a fresh task
    /// (valid delay), reject with `InvalidArgument` (invalid delay), or
    /// ignore (disconnect already begun).
    pub fn request_shutdown(&mut self, delay: Option<u64>) -> (out: RequestOutcome)
        requires
            old(self)@.wf(),
            old(self)@.next_id < u64::MAX,
        ensures
            final(self)@ == old(self)@.request_transition(delay).0,
            out == old(self)@.request_transition(delay).1,
            final(self)@.wf(),
    {
        if self.terminal {
            RequestOutcome { aborted: None, directive: Directive::Ignore }
        } else {
            let aborted = self.pending;
            self.pending = None;
            match delay {
                None => {
                    self.terminal = true;
                    RequestOutcome { aborted, directive: Directive::DisconnectNow }
                }
                Some(d) => {
                    if MIN_DELAY_MINUTES <= d && d <= MAX_DELAY_MINUTES {
                        let handle = TaskHandle { id: self.next_id, delay_minutes: d };
                        self.next_id = self.next_id + 1;
                        self.pending = Some(handle);
                        RequestOutcome { aborted, directive: Directive::Schedule { handle } }
                    } else {
                        RequestOutcome { aborted, directive: Directive::Reject }
                    }
                }
            }
        }
    }

    /// Cancel and clear the pending task if present; report whether anything
    /// was cancelled.
    pub fn cancel_pending(&mut self) -> (cancelled: bool)
        requires
            old(self)@.wf(),
        ensures
            final(self)@ == old(self)@.cancel_transition().0,
            cancelled == old(self)@.cancel_transition().1,
            final(self)@.wf(),
    {
        let had_pending: bool = self.pending.is_some();
        self.pending = None;
        had_pending
    }

    /// Handle a termination signal: equivalent to an immediate shutdown
    /// request with a no-op notifier. Any pending delayed task is cancelled,
    /// never fired, and exactly one disconnect is ordered unless one has
    /// already begun.
    pub fn on_signal(&mut self) -> (out: RequestOutcome)
        requires
            old(self)@.wf(),
        ensures
            final(self)@ == old(self)@.request_transition(None).0,
            out == old(self)@.request_transition(None).1,
            final(self)@.wf(),
    {
        if self.terminal {
            RequestOutcome { aborted: None, directive: Directive::Ignore }
        } else {
            let aborted = self.pending;
            self.pending = None;
            self.terminal = true;
            RequestOutcome { aborted, directive: Directive::DisconnectNow }
        }
    }

    /// Record that the delayed task `id` woke from its sleep. Returns whether
    /// it may proceed to the disconnect: true exactly when the task is still
    /// the pending one and no disconnect has begun. A cancelled or superseded
    /// task gets false and must perform no observable side effect.
    pub fn on_task_wake(&mut self, id: u64) -> (proceed: bool)
        requires
            old(self)@.wf(),
        ensures
            final(self)@ == old(self)@.wake_transition(id).0,
            proceed == old(self)@.wake_transition(id).1,
            proceed == old(self)@.wake_proceeds(id),
            final(self)@.wf(),
    {
        if self.terminal {
            false
        } else {
            match self.pending {
                Some(handle) => {
                    if handle.id == id {
                        self.pending = None;
                        self.terminal = true;
                        true
                    } else {
                        false
                    }
                }
                None => false,
            }
        }
    }
}

impl RequestOutcome {
    /// The result reported to the requester: `InvalidArgument` exactly when
    /// the request was rejected, success otherwise.
    pub fn to_result(&self) -> (r: Result<(), ShutdownError>)
        ensures
            self.directive is Reject ==> r == Err::<(), ShutdownError>(ShutdownError::InvalidArgument),
            !(self.directive is Reject) ==> r == Ok::<(), ShutdownError>(()),
    {
        match self.directive {
            Directive::Reject => Err(ShutdownError::InvalidArgument),
            _ => Ok(()),
        }
    }
}

} // verus!
