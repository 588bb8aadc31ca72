//! Model of the cron-driven scheduler's tick loop.
//!
//! Evaluating a cron expression against the clock is the collaborator's job;
//! the model takes, for every tick, one flag per registered job saying whether
//! its expression matches that tick. The model states the failure semantics of
//! the scheduler: what a tick fires depends only on the registered jobs and on
//! the tick's due flags, never on how earlier firings went, so a failed
//! execution neither deregisters its task nor stops the scheduler.

use vstd::prelude::*;

verus! {

/// The indices of the jobs that one tick fires: exactly the positions whose
/// due flag is set, in increasing order.
pub open spec fn due_indices(due: Seq<bool>) -> Seq<int>
    decreases due.len(),
{
    if due.len() == 0 {
        Seq::empty()
    } else if due.last() {
        due_indices(due.drop_last()).push(due.len() - 1)
    } else {
        due_indices(due.drop_last())
    }
}

/// A position is among the fired indices if and only if its due flag is set.
pub proof fn lemma_due_indices_complete(due: Seq<bool>, i: int)
    requires
        0 <= i < due.len(),
    ensures
        due_indices(due).contains(i) <==> due[i],
    decreases due.len(),
{
    if i < due.len() - 1 {
        lemma_due_indices_complete(due.drop_last(), i);
        if due.last() {
            assert(due_indices(due).drop_last() =~= due_indices(due.drop_last()));
            if due[i] {
                let k = choose|k: int|
                    0 <= k < due_indices(due.drop_last()).len() && due_indices(
                        due.drop_last(),
                    )[k] == i;
                assert(due_indices(due)[k] == i);
            } else if due_indices(due).contains(i) {
                let k = choose|k: int|
                    0 <= k < due_indices(due).len() && due_indices(due)[k] == i;
                assert(k < due_indices(due).len() - 1);
                assert(due_indices(due.drop_last())[k] == i);
            }
        }
    } else {
        if due.last() {
            assert(due_indices(due).last() == i);
        } else if due_indices(due).contains(i) {
            lemma_due_indices_bounded(due.drop_last());
            let k = choose|k: int| 0 <= k < due_indices(due).len() && due_indices(due)[k] == i;
            assert(due_indices(due.drop_last())[k] == i);
            assert(false);
        }
    }
}

/// Every fired index names a registered job.
pub proof fn lemma_due_indices_bounded(due: Seq<bool>)
    ensures
        forall|k: int|
            0 <= k < due_indices(due).len() ==> 0 <= #[trigger] due_indices(due)[k] < due.len(),
    decreases due.len(),
{
    if due.len() > 0 {
        lemma_due_indices_bounded(due.drop_last());
        assert forall|k: int|
            0 <= k < due_indices(due).len() implies 0 <= #[trigger] due_indices(due)[k]
            < due.len() by {
            if due.last() {
                if k < due_indices(due).len() - 1 {
                    assert(due_indices(due)[k] == due_indices(due.drop_last())[k]);
                }
            } else {
                assert(due_indices(due)[k] == due_indices(due.drop_last())[k]);
            }
        }
    }
}

/// The scheduler as the tick loop sees it: the cron expressions of the
/// registered jobs, in registration order. The job list is fixed when the
/// scheduler starts and no tick mutates it.
pub struct SchedulerModel {
    pub schedules: Seq<Seq<char>>,
}

/// One scheduler tick: fires exactly the due jobs and carries the job list
/// over unchanged. `succeeded` records how each firing of the previous tick
/// went; the next state does not depend on it, which is the isolation the
/// runtime promises: an execution failure is logged and otherwise ignored.
pub open spec fn scheduler_tick(
    m: SchedulerModel,
    due: Seq<bool>,
    succeeded: Seq<bool>,
) -> (SchedulerModel, Seq<int>) {
    (m, due_indices(due))
}

/// The scheduler state after a sequence of ticks, each with its due flags and
/// the outcomes of its firings.
pub open spec fn scheduler_run(m: SchedulerModel, ticks: Seq<(Seq<bool>, Seq<bool>)>) -> SchedulerModel
    decreases ticks.len(),
{
    if ticks.len() == 0 {
        m
    } else {
        scheduler_tick(scheduler_run(m, ticks.drop_last()), ticks.last().0, ticks.last().1).0
    }
}

/// However many ticks have run and however their firings went — failures
/// included — every registered task is still registered.
pub proof fn lemma_scheduler_retains_tasks(m: SchedulerModel, ticks: Seq<(Seq<bool>, Seq<bool>)>)
    ensures
        scheduler_run(m, ticks) == m,
    decreases ticks.len(),
{
    if ticks.len() > 0 {
        lemma_scheduler_retains_tasks(m, ticks.drop_last());
    }
}

/// A task execution that raises an error neither deregisters the task nor
/// stops the scheduler: after any history of ticks — failed firings included —
/// a tick on whose due flags task `i` matches still fires task `i`.
pub proof fn lemma_failed_task_fires_again(
    m: SchedulerModel,
    ticks: Seq<(Seq<bool>, Seq<bool>)>,
    due: Seq<bool>,
    succeeded: Seq<bool>,
    i: int,
)
    requires
        0 <= i < due.len(),
        due[i],
    ensures
        scheduler_tick(scheduler_run(m, ticks), due, succeeded).0 == m,
        scheduler_tick(scheduler_run(m, ticks), due, succeeded).1.contains(i),
{
    lemma_scheduler_retains_tasks(m, ticks);
    lemma_due_indices_complete(due, i);
}

} // verus!
