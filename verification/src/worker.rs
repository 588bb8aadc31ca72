//! Model of the per-queue worker loops.
//!
//! One worker loop serves one registered queue: it blocks on a retrieval with
//! a bounded wait, dispatches a returned message to its handler, waits for the
//! handler to complete, and polls again. The model below states the two
//! ordering guarantees the runtime gives: a worker never dispatches a second
//! message before the first handler call has completed, and nothing that
//! happens on one queue — handler failures included — changes the phase or
//! the behaviour of another queue's worker.

use vstd::prelude::*;

verus! {

/// One thing a worker observes: its blocking retrieval returned, or the
/// handler call it was waiting for completed (with success or failure).
pub enum ModelEvent {
    /// The retrieval returned a message.
    PollMessage(Seq<char>),
    /// The retrieval timed out with no message.
    PollTimeout,
    /// The retrieval failed with a transport error.
    PollTransportError,
    /// The handler call completed; `true` means it succeeded.
    Completed(bool),
}

/// Where a worker stands: waiting on its retrieval, or waiting for the
/// handler call on a dispatched message to complete.
pub enum ModelPhase {
    Waiting,
    Dispatching(Seq<char>),
}

/// What one worker step did.
pub enum ModelAction {
    /// A message was dispatched to the handler.
    Invoked(Seq<char>),
    /// The retrieval timed out: logged at low severity, not as an error.
    LoggedIdle,
    /// The retrieval failed: logged as an error.
    LoggedTransportError,
    /// The handler call on the message completed; `true` means it succeeded,
    /// `false` that the failure was logged and the message dropped.
    Finished(Seq<char>, bool),
    /// The event does not belong to the current phase; a worker that is
    /// waiting for its handler does not poll, and one that is polling has no
    /// handler call to complete.
    Ignored,
}

/// One step of the worker loop: the next phase and what the step did.
pub open spec fn worker_step(phase: ModelPhase, e: ModelEvent) -> (ModelPhase, ModelAction) {
    match (phase, e) {
        (ModelPhase::Waiting, ModelEvent::PollMessage(m)) => (
            ModelPhase::Dispatching(m),
            ModelAction::Invoked(m),
        ),
        (ModelPhase::Waiting, ModelEvent::PollTimeout) => (
            ModelPhase::Waiting,
            ModelAction::LoggedIdle,
        ),
        (ModelPhase::Waiting, ModelEvent::PollTransportError) => (
            ModelPhase::Waiting,
            ModelAction::LoggedTransportError,
        ),
        (ModelPhase::Dispatching(m), ModelEvent::Completed(ok)) => (
            ModelPhase::Waiting,
            ModelAction::Finished(m, ok),
        ),
        (ModelPhase::Dispatching(m), _) => (ModelPhase::Dispatching(m), ModelAction::Ignored),
        (ModelPhase::Waiting, ModelEvent::Completed(_)) => (
            ModelPhase::Waiting,
            ModelAction::Ignored,
        ),
    }
}

/// The phase a worker is in after observing `events`, starting from `init`.
pub open spec fn phase_after(init: ModelPhase, events: Seq<ModelEvent>) -> ModelPhase
    decreases events.len(),
{
    if events.len() == 0 {
        init
    } else {
        worker_step(phase_after(init, events.drop_last()), events.last()).0
    }
}

/// What each step of the run did, in order; one action per event.
pub open spec fn actions_of(init: ModelPhase, events: Seq<ModelEvent>) -> Seq<ModelAction>
    decreases events.len(),
{
    if events.len() == 0 {
        Seq::empty()
    } else {
        actions_of(init, events.drop_last()).push(
            worker_step(phase_after(init, events.drop_last()), events.last()).1,
        )
    }
}

/// The action at position `k` is the step taken from the phase reached by the
/// first `k` events.
proof fn lemma_action_at(init: ModelPhase, events: Seq<ModelEvent>, k: int)
    requires
        0 <= k < events.len(),
    ensures
        actions_of(init, events).len() == events.len(),
        actions_of(init, events)[k] == worker_step(
            phase_after(init, events.subrange(0, k)),
            events[k],
        ).1,
        phase_after(init, events.subrange(0, k + 1)) == worker_step(
            phase_after(init, events.subrange(0, k)),
            events[k],
        ).0,
    decreases events.len(),
{
    lemma_actions_len(init, events);
    if k == events.len() - 1 {
        assert(events.subrange(0, k) =~= events.drop_last());
        assert(events.subrange(0, k + 1) =~= events);
    } else {
        lemma_action_at(init, events.drop_last(), k);
        assert(events.drop_last().subrange(0, k) =~= events.subrange(0, k));
        assert(events.drop_last().subrange(0, k + 1) =~= events.subrange(0, k + 1));
        assert(events.drop_last()[k] == events[k]);
    }
}

proof fn lemma_actions_len(init: ModelPhase, events: Seq<ModelEvent>)
    ensures
        actions_of(init, events).len() == events.len(),
    decreases events.len(),
{
    if events.len() > 0 {
        lemma_actions_len(init, events.drop_last());
    }
}

/// Between a step that finds the worker dispatching and a later point where
/// it is waiting again, some step completed the handler call.
proof fn lemma_completion_between(init: ModelPhase, events: Seq<ModelEvent>, a: int, b: int)
    requires
        0 <= a <= b <= events.len(),
        phase_after(init, events.subrange(0, a)) is Dispatching,
        phase_after(init, events.subrange(0, b)) is Waiting,
    ensures
        exists|k: int| a <= k < b && #[trigger] actions_of(init, events)[k] is Finished,
    decreases b - a,
{
    assert(a < b);
    lemma_action_at(init, events, b - 1);
    let p = phase_after(init, events.subrange(0, b - 1));
    if p is Dispatching {
        assert(actions_of(init, events)[b - 1] is Finished);
    } else {
        lemma_completion_between(init, events, a, b - 1);
        let k = choose|k: int| a <= k < b - 1 && #[trigger] actions_of(init, events)[k] is Finished;
        assert(actions_of(init, events)[k] is Finished);
    }
}

/// Sequential dispatch per queue: when a worker dispatches two messages, the
/// handler call for the first completes — with success or failure — before
/// the second is dispatched.
pub proof fn lemma_dispatch_waits_for_completion(events: Seq<ModelEvent>, i: int, j: int)
    requires
        0 <= i < j < events.len(),
        actions_of(ModelPhase::Waiting, events)[i] is Invoked,
        actions_of(ModelPhase::Waiting, events)[j] is Invoked,
    ensures
        exists|k: int|
            i < k < j && #[trigger] actions_of(ModelPhase::Waiting, events)[k] is Finished,
{
    let init = ModelPhase::Waiting;
    lemma_action_at(init, events, i);
    lemma_action_at(init, events, j);
    assert(phase_after(init, events.subrange(0, i + 1)) is Dispatching);
    assert(phase_after(init, events.subrange(0, j)) is Waiting);
    lemma_completion_between(init, events, i + 1, j);
    let k = choose|k: int| i + 1 <= k < j && #[trigger] actions_of(init, events)[k] is Finished;
    assert(i < k < j && actions_of(init, events)[k] is Finished);
}

/// The whole runtime as the workers see it: each registered queue's worker
/// phase. A trace entry attributes one event to one queue's worker.
pub open spec fn system_step(
    sys: Map<Seq<char>, ModelPhase>,
    q: Seq<char>,
    e: ModelEvent,
) -> Map<Seq<char>, ModelPhase> {
    if sys.dom().contains(q) {
        sys.insert(q, worker_step(sys[q], e).0)
    } else {
        sys
    }
}

/// The workers' phases after a trace of attributed events.
pub open spec fn system_run(
    sys: Map<Seq<char>, ModelPhase>,
    trace: Seq<(Seq<char>, ModelEvent)>,
) -> Map<Seq<char>, ModelPhase>
    decreases trace.len(),
{
    if trace.len() == 0 {
        sys
    } else {
        system_step(system_run(sys, trace.drop_last()), trace.last().0, trace.last().1)
    }
}

/// The events of the trace that belong to queue `q`, in order.
pub open spec fn events_of(trace: Seq<(Seq<char>, ModelEvent)>, q: Seq<char>) -> Seq<ModelEvent>
    decreases trace.len(),
{
    if trace.len() == 0 {
        Seq::empty()
    } else if trace.last().0 == q {
        events_of(trace.drop_last(), q).push(trace.last().1)
    } else {
        events_of(trace.drop_last(), q)
    }
}

/// Each worker's phase depends only on its own queue's events: the system run
/// gives queue `q` exactly the phase of a solo run over `q`'s events.
pub proof fn lemma_worker_runs_on_own_events(
    sys: Map<Seq<char>, ModelPhase>,
    trace: Seq<(Seq<char>, ModelEvent)>,
    q: Seq<char>,
)
    requires
        sys.dom().contains(q),
    ensures
        system_run(sys, trace).dom() == sys.dom(),
        system_run(sys, trace)[q] == phase_after(sys[q], events_of(trace, q)),
    decreases trace.len(),
{
    if trace.len() > 0 {
        lemma_worker_runs_on_own_events(sys, trace.drop_last(), q);
        let prev = system_run(sys, trace.drop_last());
        assert(system_step(prev, trace.last().0, trace.last().1).dom() =~= prev.dom());
        if trace.last().0 == q {
            let own = events_of(trace, q);
            assert(own.drop_last() =~= events_of(trace.drop_last(), q));
            assert(own.last() == trace.last().1);
            assert(phase_after(sys[q], own) == worker_step(
                phase_after(sys[q], events_of(trace.drop_last(), q)),
                trace.last().1,
            ).0);
        }
    }
}

/// Failure isolation between queues: an event on queue `q1` — a transport
/// error or a failed handler call included — leaves the phase of every other
/// queue's worker exactly as it was.
pub proof fn lemma_failure_is_isolated(
    sys: Map<Seq<char>, ModelPhase>,
    trace: Seq<(Seq<char>, ModelEvent)>,
    q1: Seq<char>,
    e: ModelEvent,
    q2: Seq<char>,
)
    requires
        q1 != q2,
    ensures
        events_of(trace.push((q1, e)), q2) == events_of(trace, q2),
        system_run(sys, trace.push((q1, e))).dom().contains(q2) ==> system_run(
            sys,
            trace.push((q1, e)),
        )[q2] == system_run(sys, trace)[q2],
{
    let extended = trace.push((q1, e));
    assert(extended.drop_last() =~= trace);
    assert(extended.last() == (q1, e));
}

/// A failure in one queue's handler never prevents another queue's worker
/// from processing a subsequently available message: after any further
/// activity that belongs to other queues — failed handler calls and transport
/// errors included — a worker that was waiting is still waiting, and a
/// message arriving on its queue is dispatched.
pub proof fn lemma_failures_do_not_block_other_queue(
    sys: Map<Seq<char>, ModelPhase>,
    trace: Seq<(Seq<char>, ModelEvent)>,
    noise: Seq<(Seq<char>, ModelEvent)>,
    q2: Seq<char>,
    m: Seq<char>,
)
    requires
        sys.dom().contains(q2),
        forall|k: int| 0 <= k < noise.len() ==> (#[trigger] noise[k]).0 != q2,
        phase_after(sys[q2], events_of(trace, q2)) == ModelPhase::Waiting,
    ensures
        system_run(sys, trace + noise)[q2] == system_run(sys, trace)[q2],
        worker_step(system_run(sys, trace + noise)[q2], ModelEvent::PollMessage(m)).1
            == ModelAction::Invoked(m),
    decreases noise.len(),
{
    lemma_worker_runs_on_own_events(sys, trace, q2);
    if noise.len() == 0 {
        assert(trace + noise =~= trace);
    } else {
        lemma_failures_do_not_block_other_queue(sys, trace, noise.drop_last(), q2, m);
        assert((trace + noise).drop_last() =~= trace + noise.drop_last());
        assert((trace + noise).last() == noise.last());
        assert(noise[noise.len() - 1].0 != q2);
        lemma_worker_runs_on_own_events(sys, trace + noise.drop_last(), q2);
    }
}

} // verus!
