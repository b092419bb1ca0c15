//! The laws of the shutdown protocol, stated over whole histories.
//!
//! Any interleaving of operator requests, explicit cancels, termination
//! signals and task wake-ups that reaches the coordinator (serialised by its
//! lock) is a sequence of [`Op`]s. The proof functions here state the
//! protocol's guarantees over such histories: a superseded task never
//! disconnects, at most one pending task is ever live, a signal orders
//! exactly one disconnect, and the disconnect is ordered exactly once per
//! terminal transition.

use vstd::prelude::*;
use crate::coordinator::{CoordinatorView, Directive, TaskHandle, valid_delay};

verus! {

/// One serialised operation on the coordinator.
pub enum Op {
    Request { delay: Option<u64> },
    Cancel,
    Signal,
    Wake { id: u64 },
}

/// The state after one operation.
pub open spec fn step(c: CoordinatorView, op: Op) -> CoordinatorView {
    match op {
        Op::Request { delay } => c.request_transition(delay).0,
        Op::Cancel => c.cancel_transition().0,
        Op::Signal => c.request_transition(None).0,
        Op::Wake { id } => c.wake_transition(id).0,
    }
}

/// How many disconnect orders one operation issues: one for an immediate
/// request or signal that goes through, one for a wake-up that proceeds,
/// zero otherwise.
pub open spec fn disconnect_orders(c: CoordinatorView, op: Op) -> nat {
    match op {
        Op::Request { delay } => if c.request_transition(delay).1.directive is DisconnectNow {
            1nat
        } else {
            0nat
        },
        Op::Cancel => 0nat,
        Op::Signal => if c.request_transition(None).1.directive is DisconnectNow {
            1nat
        } else {
            0nat
        },
        Op::Wake { id } => if c.wake_transition(id).1 {
            1nat
        } else {
            0nat
        },
    }
}

/// The state after a whole history of operations.
pub open spec fn run(c: CoordinatorView, ops: Seq<Op>) -> CoordinatorView
    decreases ops.len(),
{
    if ops.len() == 0 {
        c
    } else {
        step(run(c, ops.drop_last()), ops.last())
    }
}

/// The total number of disconnect orders issued along a history.
pub open spec fn total_disconnect_orders(c: CoordinatorView, ops: Seq<Op>) -> nat
    decreases ops.len(),
{
    if ops.len() == 0 {
        0nat
    } else {
        total_disconnect_orders(c, ops.drop_last()) + disconnect_orders(
            run(c, ops.drop_last()),
            ops.last(),
        )
    }
}

/// Well-formedness is preserved by every operation.
pub proof fn lemma_step_preserves_wf(c: CoordinatorView, op: Op)
    requires
        c.wf(),
    ensures
        step(c, op).wf(),
{
}

/// Issued ids only move forward: one operation spends at most one id and
/// never rolls the counter back.
pub proof fn lemma_step_next_id(c: CoordinatorView, op: Op)
    ensures
        c.next_id <= step(c, op).next_id <= c.next_id + 1,
{
}

/// Issued ids only move forward along a whole history.
pub proof fn lemma_run_next_id(c: CoordinatorView, ops: Seq<Op>)
    ensures
        c.next_id <= run(c, ops).next_id <= c.next_id + ops.len(),
    decreases ops.len(),
{
    if ops.len() != 0 {
        lemma_run_next_id(c, ops.drop_last());
        lemma_step_next_id(run(c, ops.drop_last()), ops.last());
    }
}

/// Well-formedness is preserved along any history.
pub proof fn lemma_run_preserves_wf(c: CoordinatorView, ops: Seq<Op>)
    requires
        c.wf(),
    ensures
        run(c, ops).wf(),
    decreases ops.len(),
{
    if ops.len() != 0 {
        lemma_run_preserves_wf(c, ops.drop_last());
        lemma_step_preserves_wf(run(c, ops.drop_last()), ops.last());
    }
}

/// Histories compose: running `a` and then `b` is running `a + b`.
pub proof fn lemma_run_compose(c: CoordinatorView, a: Seq<Op>, b: Seq<Op>)
    ensures
        run(c, a + b) == run(run(c, a), b),
    decreases b.len(),
{
    if b.len() == 0 {
        assert(a + b =~= a);
    } else {
        lemma_run_compose(c, a, b.drop_last());
        assert((a + b).drop_last() =~= a + b.drop_last());
        assert((a + b).last() == b.last());
    }
}

/// A superseded task stays superseded across one operation, as long as ids
/// have not been exhausted: every handle a request schedules carries an id
/// that was never issued before.
pub proof fn lemma_step_preserves_superseded(c: CoordinatorView, op: Op, id: u64)
    requires
        c.wf(),
        c.superseded(id),
        c.next_id < u64::MAX,
    ensures
        step(c, op).superseded(id),
        step(c, op).wf(),
{
}

/// A superseded task stays superseded along any further history that does
/// not exhaust the id space.
pub proof fn lemma_run_preserves_superseded(c: CoordinatorView, ops: Seq<Op>, id: u64)
    requires
        c.wf(),
        c.superseded(id),
        c.next_id + ops.len() <= u64::MAX,
    ensures
        run(c, ops).superseded(id),
        run(c, ops).wf(),
    decreases ops.len(),
{
    if ops.len() != 0 {
        lemma_run_preserves_superseded(c, ops.drop_last(), id);
        lemma_run_next_id(c, ops.drop_last());
        lemma_step_preserves_superseded(run(c, ops.drop_last()), ops.last(), id);
    }
}

/// Once a task is superseded, its scheduled disconnect is never invoked: at
/// every later point of any history, a wake-up of that task does not
/// proceed, so it performs no side effect at all.
pub proof fn lemma_superseded_never_disconnects(c: CoordinatorView, ops: Seq<Op>, k: int, id: u64)
    requires
        c.wf(),
        c.superseded(id),
        c.next_id + ops.len() <= u64::MAX,
        0 <= k <= ops.len(),
    ensures
        !run(c, ops.take(k)).wake_proceeds(id),
{
    lemma_run_preserves_superseded(c, ops.take(k), id);
}

/// Every request made before the terminal action cancels the previously
/// pending task first and reports it as aborted; a handle it schedules in
/// its place carries the next fresh id.
pub proof fn lemma_request_aborts_previous(c: CoordinatorView, delay: Option<u64>)
    requires
        c.wf(),
        !c.terminal,
        c.next_id < u64::MAX,
    ensures
        c.request_transition(delay).1.aborted == c.pending,
        (c.request_transition(delay).0.pending matches Some(h) ==> h.id == c.next_id),
        (c.pending matches Some(h) ==> c.request_transition(delay).0.superseded(h.id)),
{
}

/// A new request or an explicit cancel supersedes the scheduled task: the
/// handle that a valid delayed request scheduled can no longer reach the
/// disconnect once any request, signal or cancel follows it.
pub proof fn lemma_supersede_kills_scheduled(c: CoordinatorView, delay: u64, op: Op)
    requires
        c.wf(),
        !c.terminal,
        valid_delay(delay),
        c.next_id + 1 < u64::MAX,
        !(op is Wake),
    ensures
        ({
            let c1 = c.request_transition(Some(delay)).0;
            let out = c.request_transition(Some(delay)).1;
            &&& out.directive matches Directive::Schedule { handle } ==> step(
                c1,
                op,
            ).superseded(handle.id)
        }),
{
}

/// The handle that one operation schedules, if it schedules one.
pub open spec fn scheduled_handle(c: CoordinatorView, op: Op) -> Option<TaskHandle> {
    match op {
        Op::Request { delay } => match c.request_transition(delay).1.directive {
            Directive::Schedule { handle } => Some(handle),
            _ => None,
        },
        _ => None,
    }
}

/// Requests scheduled at different points of one history receive distinct
/// handles: the id scheduled at any point is strictly below every id
/// scheduled later, as long as ids are not exhausted. With at most one live
/// task at a time, any number of racing delayed requests thus leave exactly
/// one survivor and a distinct, superseded handle for every other.
pub proof fn lemma_scheduled_ids_distinct(c: CoordinatorView, ops: Seq<Op>, k: int, l: int)
    requires
        c.wf(),
        c.next_id + ops.len() <= u64::MAX,
        0 <= k < l < ops.len(),
    ensures
        ({
            let earlier = scheduled_handle(run(c, ops.take(k)), ops[k]);
            let later = scheduled_handle(run(c, ops.take(l)), ops[l]);
            earlier matches Some(h1) ==> (later matches Some(h2) ==> h1.id < h2.id)
        }),
{
    let ck = run(c, ops.take(k));
    let cl = run(c, ops.take(l));
    lemma_run_preserves_wf(c, ops.take(k));
    lemma_run_preserves_wf(c, ops.take(l));
    lemma_run_next_id(c, ops.take(k));
    lemma_run_next_id(c, ops.take(l));
    if scheduled_handle(ck, ops[k]) is Some && scheduled_handle(cl, ops[l]) is Some {
        // The handle scheduled at `k` takes the id counter of its moment, and
        // the step moves the counter past it.
        assert(step(ck, ops[k]).next_id == ck.next_id + 1);
        // The counter never moves back between the two moments.
        assert(ops.take(k).push(ops[k]).drop_last() =~= ops.take(k));
        assert(ops.take(k).push(ops[k]) =~= ops.take(k + 1));
        assert(run(c, ops.take(k + 1)) == step(ck, ops[k]));
        assert(ops.take(k + 1) + ops.subrange(k + 1, l) =~= ops.take(l));
        lemma_run_compose(c, ops.take(k + 1), ops.subrange(k + 1, l));
        lemma_run_next_id(run(c, ops.take(k + 1)), ops.subrange(k + 1, l));
        assert(ck.next_id < cl.next_id);
    }
}

/// At any instant, at most one non-cancelled pending task exists: wake-ups
/// of two different task ids can never both proceed from the same state.
pub proof fn lemma_at_most_one_live_task(c: CoordinatorView, i: u64, j: u64)
    requires
        c.wake_proceeds(i),
        c.wake_proceeds(j),
    ensures
        i == j,
{
}

/// A termination signal before the terminal action cancels whatever was
/// pending — the pending task is aborted, never fired — and orders exactly
/// one disconnect; afterwards no task can wake into a second one.
pub proof fn lemma_signal_disconnects_once(c: CoordinatorView)
    requires
        c.wf(),
        !c.terminal,
    ensures
        c.request_transition(None).1.directive is DisconnectNow,
        c.request_transition(None).1.aborted == c.pending,
        c.request_transition(None).0.terminal,
        forall|id: u64| !c.request_transition(None).0.wake_proceeds(id),
        disconnect_orders(c, Op::Signal) == 1nat,
{
}

/// A request with an invalid delay on a coordinator with nothing pending
/// changes nothing: the state, `pending` included, is exactly as before, no
/// task is reported aborted, nothing is scheduled and no disconnect is
/// ordered.
pub proof fn lemma_invalid_delay_rejected(c: CoordinatorView, delay: u64)
    requires
        c.wf(),
        !valid_delay(delay),
        c.pending is None,
    ensures
        c.request_transition(Some(delay)).0 == c,
        c.request_transition(Some(delay)).1.aborted is None,
        !(c.request_transition(Some(delay)).1.directive is DisconnectNow),
        !(c.request_transition(Some(delay)).1.directive is Schedule),
        !c.terminal ==> c.request_transition(Some(delay)).1.directive is Reject,
{
}

/// The terminal phase is absorbing: no operation leaves it.
pub proof fn lemma_terminal_absorbing(c: CoordinatorView, op: Op)
    ensures
        c.terminal ==> step(c, op).terminal,
{
}

/// The terminal phase is absorbing along any history.
pub proof fn lemma_run_terminal_absorbing(c: CoordinatorView, ops: Seq<Op>)
    ensures
        c.terminal ==> run(c, ops).terminal,
    decreases ops.len(),
{
    if ops.len() != 0 {
        lemma_run_terminal_absorbing(c, ops.drop_last());
        lemma_terminal_absorbing(run(c, ops.drop_last()), ops.last());
    }
}

/// One operation orders a disconnect exactly when it makes the terminal
/// transition out of `Idle` or `Scheduled`.
pub proof fn lemma_step_disconnect_iff_terminal_transition(c: CoordinatorView, op: Op)
    ensures
        disconnect_orders(c, op) == if !c.terminal && step(c, op).terminal {
            1nat
        } else {
            0nat
        },
{
}

/// Along any history, the connection manager is ordered to disconnect
/// exactly once if the history crosses into the terminal phase and never
/// otherwise — one disconnect per terminal transition, and never more than
/// one in the life of the coordinator.
pub proof fn lemma_disconnects_match_terminal_transitions(c: CoordinatorView, ops: Seq<Op>)
    ensures
        total_disconnect_orders(c, ops) == if !c.terminal && run(c, ops).terminal {
            1nat
        } else {
            0nat
        },
        total_disconnect_orders(c, ops) <= 1,
    decreases ops.len(),
{
    if ops.len() != 0 {
        let prefix = ops.drop_last();
        lemma_disconnects_match_terminal_transitions(c, prefix);
        lemma_run_terminal_absorbing(c, prefix);
        lemma_step_disconnect_iff_terminal_transition(run(c, prefix), ops.last());
        lemma_terminal_absorbing(run(c, prefix), ops.last());
    }
}

} // verus!
