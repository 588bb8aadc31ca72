//! Handler registry and task manager.
//!
//! The registry owns the mapping from queue name to handler and decides, for
//! each retrieval outcome a worker hands in, what happens next; the task
//! manager owns the list of scheduled tasks and decides which tasks a
//! scheduler tick fires. Connections, blocking retrieval and the clock are
//! collaborators: they live outside this crate and exchange plain values with
//! it.

use vstd::prelude::*;

use crate::retry::{RetryAction, RetryPolicy};
use crate::scheduler::{due_indices, lemma_due_indices_bounded, lemma_due_indices_complete};

verus! {

/// A unit of domain logic bound to one named work queue: consume one message,
/// produce success or failure. Implemented by collaborators; the error is
/// advisory and only ever logged.
pub trait QueueHandler {
    /// The queue name this handler is responsible for, as a mathematical
    /// value. It is a fixed attribute of the handler. A verified handler
    /// overrides this with its actual name; an unverified one may leave the
    /// default, under which nothing is promised about `queue_name`.
    open spec fn spec_queue_name(&self) -> Seq<char> {
        vstd::pervasive::arbitrary()
    }

    /// Returns the queue name this handler is responsible for.
    fn queue_name(&self) -> (name: &'static str)
        ensures
            name@ == self.spec_queue_name(),
    ;

    /// Processes one message; a failure is reported to the worker loop, which
    /// logs it and drops the message.
    fn handle_message(&self, message: String) -> Result<(), String>;
}

/// A unit of domain logic bound to one cron expression: execute once, produce
/// success or failure. Implemented by collaborators.
pub trait ScheduledTask {
    /// The cron expression that defines when the task runs, as a mathematical
    /// value. It is a fixed attribute of the task. A verified task overrides
    /// this with its actual schedule; an unverified one may leave the
    /// default, under which nothing is promised about `schedule`.
    open spec fn spec_schedule(&self) -> Seq<char> {
        vstd::pervasive::arbitrary()
    }

    /// Returns the cron expression that defines when the task should run.
    fn schedule(&self) -> (s: &'static str)
        ensures
            s@ == self.spec_schedule(),
    ;

    /// Executes the scheduled task once; a failure is logged and does not
    /// deregister the task.
    fn execute(&self) -> Result<(), String>;
}

/// The queue-name-to-handler map that a sequence of registry entries denotes;
/// a later entry for the same name wins.
pub closed spec fn map_of<H>(entries: Seq<(String, H)>) -> Map<Seq<char>, H>
    decreases entries.len(),
{
    if entries.len() == 0 {
        Map::empty()
    } else {
        map_of(entries.drop_last()).insert(entries.last().0@, entries.last().1)
    }
}

proof fn lemma_map_of_contains<H>(entries: Seq<(String, H)>, key: Seq<char>)
    ensures
        map_of(entries).dom().contains(key) <==> exists|i: int|
            0 <= i < entries.len() && entries[i].0@ == key,
    decreases entries.len(),
{
    if entries.len() > 0 {
        lemma_map_of_contains(entries.drop_last(), key);
        if entries.last().0@ == key {
            assert(entries[entries.len() - 1].0@ == key);
        } else if map_of(entries).dom().contains(key) {
            let i = choose|i: int| 0 <= i < entries.drop_last().len() && entries.drop_last()[i].0@
                == key;
            assert(entries[i].0@ == key);
        } else if exists|i: int| 0 <= i < entries.len() && entries[i].0@ == key {
            let i = choose|i: int| 0 <= i < entries.len() && entries[i].0@ == key;
            assert(entries.drop_last()[i].0@ == key);
        }
    }
}

proof fn lemma_map_of_index<H>(entries: Seq<(String, H)>, i: int)
    requires
        0 <= i < entries.len(),
        forall|a: int, b: int|
            0 <= a < b < entries.len() ==> entries[a].0@ != entries[b].0@,
    ensures
        map_of(entries).dom().contains(entries[i].0@),
        map_of(entries)[entries[i].0@] == entries[i].1,
    decreases entries.len(),
{
    lemma_map_of_contains(entries, entries[i].0@);
    if i < entries.len() - 1 {
        assert(entries[i].0@ != entries.last().0@);
        assert(entries.drop_last()[i] == entries[i]);
        lemma_map_of_index(entries.drop_last(), i);
    }
}

proof fn lemma_map_of_update<H>(entries: Seq<(String, H)>, i: int, entry: (String, H))
    requires
        0 <= i < entries.len(),
        entry.0@ == entries[i].0@,
        forall|a: int, b: int|
            0 <= a < b < entries.len() ==> entries[a].0@ != entries[b].0@,
    ensures
        map_of(entries.update(i, entry)) == map_of(entries).insert(entry.0@, entry.1),
    decreases entries.len(),
{
    let updated = entries.update(i, entry);
    if i == entries.len() - 1 {
        assert(updated.drop_last() =~= entries.drop_last());
        assert(updated.last() == entry);
        assert(map_of(updated) =~= map_of(entries).insert(entry.0@, entry.1));
    } else {
        assert(updated.drop_last() =~= entries.drop_last().update(i, entry));
        assert(updated.last() == entries.last());
        lemma_map_of_update(entries.drop_last(), i, entry);
        assert(entries[i].0@ != entries.last().0@);
        assert(map_of(updated) =~= map_of(entries).insert(entry.0@, entry.1));
    }
}

/// Owns the queue-name-to-handler mapping. Registration is
/// last-registration-wins: registering a second handler for an
/// already-registered queue name replaces the first.
pub struct HandlerRegistry<H> {
    // Key is the queue name, value is the handler.
    handlers: Vec<(String, H)>,
}

impl<H: QueueHandler> View for HandlerRegistry<H> {
    type V = Map<Seq<char>, H>;

    closed spec fn view(&self) -> Map<Seq<char>, H> {
        map_of(self.handlers@)
    }
}

impl<H: QueueHandler> HandlerRegistry<H> {
    /// Registered queue names are pairwise distinct and each entry is keyed by
    /// its own handler's queue name.
    pub closed spec fn wf(&self) -> bool {
        &&& forall|a: int, b: int|
            0 <= a < b < self.handlers@.len() ==> self.handlers@[a].0@ != self.handlers@[b].0@
        &&& forall|i: int|
            0 <= i < self.handlers@.len() ==> #[trigger] self.handlers@[i].0@
                == self.handlers@[i].1.spec_queue_name()
    }

    /// Create a new, empty registry.
    pub fn new() -> (registry: Self)
        ensures
            registry.wf(),
            registry@ == Map::<Seq<char>, H>::empty(),
    {
        Self { handlers: Vec::new() }
    }

    /// Register a handler for a given queue. A handler previously registered
    /// for the same queue name is replaced.
    pub fn register_handler(&mut self, handler: H)
        requires
            old(self).wf(),
        ensures
            final(self).wf(),
            final(self)@ == old(self)@.insert(handler.spec_queue_name(), handler),
    {
        let name: String = handler.queue_name().to_owned();
        let ghost key = handler.spec_queue_name();
        let mut i: usize = 0;
        while i < self.handlers.len()
            invariant
                self == old(self),
                self.wf(),
                i <= self.handlers@.len(),
                name@ == key,
                key == handler.spec_queue_name(),
                forall|j: int| 0 <= j < i ==> self.handlers@[j].0@ != key,
            decreases self.handlers@.len() - i,
        {
            if self.handlers[i].0 == name {
                let ghost pre = self.handlers@;
                self.handlers[i] = (name, handler);
                proof {
                    assert(self.handlers@ =~= pre.update(i as int, (name, handler)));
                    lemma_map_of_update(pre, i as int, (name, handler));
                    assert forall|a: int, b: int|
                        0 <= a < b < self.handlers@.len() implies self.handlers@[a].0@
                        != self.handlers@[b].0@ by {
                        assert(pre[a].0@ != pre[b].0@);
                    }
                    assert forall|j: int|
                        0 <= j < self.handlers@.len() implies #[trigger] self.handlers@[j].0@
                        == self.handlers@[j].1.spec_queue_name() by {
                        if j == i {
                            assert(self.handlers@[j] == (name, handler));
                            assert(self.handlers@[j].1.spec_queue_name() == key);
                        } else {
                            assert(pre[j].0@ == pre[j].1.spec_queue_name());
                        }
                    }
                }
                return ;
            }
            i = i + 1;
        }
        proof {
            lemma_map_of_contains(self.handlers@, key);
            assert(self.handlers@.push((name, handler)).drop_last() =~= self.handlers@);
        }
        self.handlers.push((name, handler));
    }

    /// The handler registered for `queue_name`, if any.
    pub fn handler_for(&self, queue_name: &str) -> (handler: Option<&H>)
        requires
            self.wf(),
        ensures
            match handler {
                Some(h) => self@.dom().contains(queue_name@) && *h == self@[queue_name@],
                None => !self@.dom().contains(queue_name@),
            },
    {
        let key = queue_name.to_owned();
        let mut i: usize = 0;
        while i < self.handlers.len()
            invariant
                self.wf(),
                i <= self.handlers@.len(),
                key@ == queue_name@,
                forall|j: int| 0 <= j < i ==> self.handlers@[j].0@ != queue_name@,
            decreases self.handlers@.len() - i,
        {
            if self.handlers[i].0 == key {
                proof {
                    lemma_map_of_index(self.handlers@, i as int);
                }
                return Some(&self.handlers[i].1);
            }
            i = i + 1;
        }
        proof {
            lemma_map_of_contains(self.handlers@, queue_name@);
        }
        None
    }

    /// The names of all registered queues, one worker to be started per name.
    pub fn queue_names(&self) -> (names: Vec<String>)
        requires
            self.wf(),
        ensures
            forall|i: int| 0 <= i < names@.len() ==> self@.dom().contains(#[trigger] names@[i]@),
            forall|i: int, j: int| 0 <= i < j < names@.len() ==> names@[i]@ != names@[j]@,
            forall|key: Seq<char>|
                self@.dom().contains(key) ==> exists|i: int|
                    0 <= i < names@.len() && #[trigger] names@[i]@ == key,
    {
        let mut names: Vec<String> = Vec::new();
        let mut i: usize = 0;
        while i < self.handlers.len()
            invariant
                self.wf(),
                i <= self.handlers@.len(),
                names@.len() == i,
                forall|j: int| 0 <= j < i ==> names@[j]@ == self.handlers@[j].0@,
            decreases self.handlers@.len() - i,
        {
            names.push(self.handlers[i].0.clone());
            i = i + 1;
        }
        proof {
            assert forall|i: int| 0 <= i < names@.len() implies self@.dom().contains(
                #[trigger] names@[i]@,
            ) by {
                lemma_map_of_contains(self.handlers@, names@[i]@);
            }
            assert forall|key: Seq<char>| self@.dom().contains(key) implies exists|i: int|
                0 <= i < names@.len() && #[trigger] names@[i]@ == key by {
                lemma_map_of_contains(self.handlers@, key);
                let i = choose|i: int|
                    0 <= i < self.handlers@.len() && self.handlers@[i].0@ == key;
                assert(names@[i]@ == key);
            }
        }
        names
    }

    /// One worker-loop iteration for the queue named `queue_name`: looks up
    /// the registered handler and lets it react to the retrieval outcome.
    /// Returns `None` when no handler is registered for that queue; no other
    /// queue's handler is ever consulted.
    pub fn dispatch(&self, queue_name: &str, poll: PollResult) -> (outcome: Option<WorkerOutcome>)
        requires
            self.wf(),
        ensures
            outcome is Some <==> self@.dom().contains(queue_name@),
            match outcome {
                Some(o) => poll_outcome_matches(poll, o),
                None => true,
            },
    {
        match self.handler_for(queue_name) {
            Some(handler) => Some(process_poll(handler, poll)),
            None => None,
        }
    }
}

/// The outcome of one blocking retrieval from the queue store, as the
/// collaborator reports it: a message, a timeout with no message, or a
/// transport error.
#[derive(Debug, PartialEq, Eq)]
pub enum PollResult {
    /// The queue yielded a message within the timeout.
    Message(String),
    /// The timeout elapsed with no message present. This is the idle path,
    /// not an error.
    Timeout,
    /// The retrieval itself failed (connection or transport error).
    TransportError(String),
}

/// What one worker-loop iteration did with a retrieval outcome.
#[derive(Debug, PartialEq, Eq)]
pub enum WorkerOutcome {
    /// A message was dispatched and its handler succeeded.
    Handled { message: String },
    /// A message was dispatched and its handler failed; the failure is logged
    /// and the message is dropped — not retried, not requeued.
    HandlerFailed { message: String, detail: String },
    /// The retrieval timed out with no message: log at low severity and poll
    /// again.
    Idle,
    /// The retrieval failed: log the error and retry.
    TransportFailed { detail: String },
}

impl WorkerOutcome {
    /// Whether the iteration is logged as an error. An idle timeout never is;
    /// that distinguishes it from a transport error.
    pub open spec fn is_error(&self) -> bool {
        match *self {
            WorkerOutcome::Handled { .. } => false,
            WorkerOutcome::HandlerFailed { .. } => true,
            WorkerOutcome::Idle => false,
            WorkerOutcome::TransportFailed { .. } => true,
        }
    }

    /// Whether the iteration is logged as an error.
    pub fn logged_as_error(&self) -> (b: bool)
        ensures
            b == self.is_error(),
    {
        match *self {
            WorkerOutcome::Handled { .. } => false,
            WorkerOutcome::HandlerFailed { .. } => true,
            WorkerOutcome::Idle => false,
            WorkerOutcome::TransportFailed { .. } => true,
        }
    }
}

/// Last-registration-wins: registering `first` and then `second` for the same
/// queue name leaves the registry exactly as if only `second` had been
/// registered, so starting the registry only ever consults `second` for that
/// queue, never `first`.
pub proof fn lemma_second_registration_wins<H: QueueHandler>(
    registered: Map<Seq<char>, H>,
    first: H,
    second: H,
)
    requires
        first.spec_queue_name() == second.spec_queue_name(),
    ensures
        registered.insert(first.spec_queue_name(), first).insert(
            second.spec_queue_name(),
            second,
        ) == registered.insert(second.spec_queue_name(), second),
{
    assert(registered.insert(first.spec_queue_name(), first).insert(
        second.spec_queue_name(),
        second,
    ) =~= registered.insert(second.spec_queue_name(), second));
}

/// The exact relation between a retrieval outcome and what the worker did
/// with it: a timeout is absorbed silently as the idle path, a transport
/// error is reported as such, and a message is dispatched to the handler,
/// whose success or failure is recorded with the message itself.
pub open spec fn poll_outcome_matches(poll: PollResult, o: WorkerOutcome) -> bool {
    match poll {
        PollResult::Message(m) => (o matches WorkerOutcome::Handled { message } && message == m)
            || (o matches WorkerOutcome::HandlerFailed { message, .. } && message == m),
        PollResult::Timeout => o == WorkerOutcome::Idle && !o.is_error(),
        PollResult::TransportError(d) => o == (WorkerOutcome::TransportFailed { detail: d })
            && o.is_error(),
    }
}

/// One iteration of a worker loop, after the blocking retrieval returned:
/// dispatches a returned message to `handler` and waits for it to complete —
/// the iteration does not return, and so the next retrieval cannot begin,
/// before the handler call has completed. A timeout loops silently; a
/// transport error is reported to the caller, which decides the retry.
pub fn process_poll<H: QueueHandler>(handler: &H, poll: PollResult) -> (o: WorkerOutcome)
    ensures
        poll_outcome_matches(poll, o),
{
    match poll {
        PollResult::Message(message) => {
            let message_kept = message.clone();
            match handler.handle_message(message) {
                Ok(()) => WorkerOutcome::Handled { message: message_kept },
                Err(detail) => WorkerOutcome::HandlerFailed { message: message_kept, detail },
            }
        },
        PollResult::Timeout => WorkerOutcome::Idle,
        PollResult::TransportError(detail) => WorkerOutcome::TransportFailed { detail },
    }
}

/// What the worker loop does after an iteration: poll again at once, back off
/// before the next poll, or give up on this worker alone.
#[derive(Debug, PartialEq, Eq)]
pub enum WorkerDirective {
    /// Poll the queue again immediately.
    PollAgain,
    /// The connection is failing: wait before polling again.
    Backoff { delay_ms: u64 },
    /// Too many consecutive transport failures: stop this worker. Other
    /// workers and the scheduler are untouched.
    GiveUp,
}

/// Updates the worker's consecutive-transport-failure count after one
/// iteration and decides how to go on: a transport failure counts up and
/// backs off under `policy` (or gives up past the bound), while every other
/// outcome — a handled message, a failed handler, an idle timeout — proves
/// the connection alive, resets the count and polls again at once.
pub fn next_directive(
    policy: &RetryPolicy,
    failures: &mut u32,
    outcome: &WorkerOutcome,
) -> (d: WorkerDirective)
    ensures
        match *outcome {
            WorkerOutcome::TransportFailed { .. } => {
                &&& *final(failures) == (if *old(failures) == u32::MAX {
                    u32::MAX as int
                } else {
                    *old(failures) + 1
                })
                &&& (*final(failures) <= policy.max_attempts ==> d == (WorkerDirective::Backoff {
                    delay_ms: policy.spec_delay_ms((*final(failures) - 1) as nat) as u64,
                }))
                &&& (*final(failures) > policy.max_attempts ==> d == WorkerDirective::GiveUp)
            },
            _ => *final(failures) == 0 && d == WorkerDirective::PollAgain,
        },
{
    match *outcome {
        WorkerOutcome::TransportFailed { .. } => {
            *failures = if *failures == u32::MAX {
                u32::MAX
            } else {
                *failures + 1
            };
            match policy.on_failure(*failures) {
                RetryAction::Wait { delay_ms } => WorkerDirective::Backoff {
                    delay_ms,
                },
                RetryAction::GiveUp => WorkerDirective::GiveUp,
            }
        },
        _ => {
            *failures = 0;
            WorkerDirective::PollAgain
        },
    }
}

/// One firing of a scheduled task: which task fired and how its execution
/// went. A failed outcome is logged by the caller and changes nothing else.
#[derive(Debug, PartialEq, Eq)]
pub struct TaskFiring {
    pub task_index: usize,
    pub outcome: Result<(), String>,
}

/// Owns the list of scheduled tasks and decides which of them a scheduler
/// tick fires. The cron clock is a collaborator: it reports, per tick, which
/// task schedules match.
pub struct TaskManager<T> {
    scheduled_tasks: Vec<T>,
}

impl<T: ScheduledTask> TaskManager<T> {
    /// The registered tasks, in registration order.
    pub closed spec fn tasks(&self) -> Seq<T> {
        self.scheduled_tasks@
    }

    /// Creates a new TaskManager with no tasks registered.
    pub fn new(redis_url: String) -> (manager: Self)
        ensures
            manager.tasks() == Seq::<T>::empty(),
    {
        Self { scheduled_tasks: Vec::new() }
    }

    /// Registers a scheduled task. Tasks are kept in registration order and
    /// several tasks may share one schedule.
    pub fn register_scheduled_task(&mut self, task: T)
        ensures
            final(self).tasks() == old(self).tasks().push(task),
    {
        self.scheduled_tasks.push(task);
    }

    /// The task registered at `index`.
    pub fn task_at(&self, index: usize) -> (task: &T)
        requires
            index < self.tasks().len(),
        ensures
            *task == self.tasks()[index as int],
    {
        &self.scheduled_tasks[index]
    }

    /// How many tasks are registered.
    pub fn task_count(&self) -> (n: usize)
        ensures
            n == self.tasks().len(),
    {
        self.scheduled_tasks.len()
    }

    /// The cron expression of each registered task, in registration order:
    /// the scheduler creates one job per entry.
    pub fn schedules(&self) -> (v: Vec<String>)
        ensures
            v@.len() == self.tasks().len(),
            forall|i: int| 0 <= i < v@.len() ==> #[trigger] v@[i]@ == self.tasks()[i].spec_schedule(),
    {
        let mut v: Vec<String> = Vec::new();
        let mut i: usize = 0;
        while i < self.scheduled_tasks.len()
            invariant
                i <= self.tasks().len(),
                v@.len() == i,
                forall|j: int| 0 <= j < i ==> #[trigger] v@[j]@ == self.tasks()[j].spec_schedule(),
            decreases self.tasks().len() - i,
        {
            v.push(self.scheduled_tasks[i].schedule().to_owned());
            i = i + 1;
        }
        v
    }

    /// Fires the task at `index` once: invokes its execution capability and
    /// reports how it went. The task list is not touched, whatever the
    /// outcome.
    pub fn fire_task(&self, index: usize) -> (firing: TaskFiring)
        requires
            index < self.tasks().len(),
        ensures
            firing.task_index == index,
    {
        let outcome = self.scheduled_tasks[index].execute();
        TaskFiring { task_index: index, outcome }
    }

    /// One scheduler tick: fires exactly the tasks whose due flag the cron
    /// clock set, in registration order, and reports every firing. A failing
    /// task never prevents a later due task from firing in the same tick, and
    /// the task list is left untouched for the next tick.
    pub fn run_due(&self, due: &Vec<bool>) -> (report: Vec<TaskFiring>)
        requires
            due@.len() == self.tasks().len(),
        ensures
            report@.map_values(|f: TaskFiring| f.task_index as int) == due_indices(due@),
            forall|k: int|
                0 <= k < report@.len() ==> #[trigger] report@[k].task_index < due@.len()
                    && due@[report@[k].task_index as int],
            forall|i: int|
                0 <= i < due@.len() && due@[i] ==> exists|k: int|
                    0 <= k < report@.len() && #[trigger] report@[k].task_index == i,
    {
        let mut report: Vec<TaskFiring> = Vec::new();
        let mut i: usize = 0;
        while i < self.scheduled_tasks.len()
            invariant
                due@.len() == self.tasks().len(),
                i <= self.tasks().len(),
                report@.map_values(|f: TaskFiring| f.task_index as int)
                    == due_indices(due@.subrange(0, i as int)),
                forall|k: int|
                    0 <= k < report@.len() ==> #[trigger] report@[k].task_index < i,
            decreases self.tasks().len() - i,
        {
            let ghost prefix = due@.subrange(0, i as int);
            if due[i] {
                let firing = self.fire_task(i);
                report.push(firing);
            }
            proof {
                let longer = due@.subrange(0, i + 1);
                assert(longer.drop_last() =~= prefix);
                assert(longer.last() == due@[i as int]);
                if due@[i as int] {
                    assert(report@.map_values(|f: TaskFiring| f.task_index as int)
                        =~= report@.drop_last().map_values(|f: TaskFiring| f.task_index as int).push(
                        i as int,
                    ));
                } else {
                    assert(report@.map_values(|f: TaskFiring| f.task_index as int)
                        == due_indices(longer));
                }
            }
            i = i + 1;
        }
        proof {
            assert(due@.subrange(0, due@.len() as int) =~= due@);
            let fired = report@.map_values(|f: TaskFiring| f.task_index as int);
            assert forall|k: int|
                0 <= k < report@.len() implies #[trigger] report@[k].task_index < due@.len()
                    && due@[report@[k].task_index as int] by {
                lemma_due_indices_bounded(due@);
                assert(fired[k] == report@[k].task_index as int);
                lemma_due_indices_complete(due@, fired[k]);
            }
            assert forall|i: int| 0 <= i < due@.len() && due@[i] implies exists|k: int|
                0 <= k < report@.len() && #[trigger] report@[k].task_index == i by {
                lemma_due_indices_complete(due@, i);
                let k = choose|k: int| 0 <= k < fired.len() && fired[k] == i;
                assert(report@[k].task_index == i);
            }
        }
        report
    }
}

} // verus!
