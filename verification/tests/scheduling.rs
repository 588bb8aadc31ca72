//! Tests of the task manager and the scheduler-tick decisions.

use std::cell::Cell;

use loved_core::handling::{ScheduledTask, TaskManager};

/// A task that counts its executions and can be told to always fail.
struct CountingTask {
    schedule: &'static str,
    fail: bool,
    runs: Cell<u32>,
}

impl CountingTask {
    fn new(schedule: &'static str, fail: bool) -> Self {
        CountingTask { schedule, fail, runs: Cell::new(0) }
    }
}

impl ScheduledTask for CountingTask {
    fn schedule(&self) -> &'static str {
        self.schedule
    }

    fn execute(&self) -> Result<(), String> {
        self.runs.set(self.runs.get() + 1);
        if self.fail {
            Err(String::from("task failure"))
        } else {
            Ok(())
        }
    }
}

/// A simulated cron clock: whether a schedule matches the given second of the
/// observation window. Only the expressions the tests use are understood.
fn matches_at(schedule: &str, second: u64) -> bool {
    match schedule {
        // Every minute, on the minute.
        "0 * * * * *" => second % 60 == 0,
        // Every second.
        "* * * * * *" => true,
        // The impossible date: February 30th never comes.
        "0 0 0 30 2 *" => false,
        _ => false,
    }
}

#[test]
fn registration_appends_tasks_in_order() {
    let mut manager = TaskManager::new(String::from("redis://127.0.0.1/"));
    assert_eq!(manager.task_count(), 0);
    manager.register_scheduled_task(CountingTask::new("* * * * * *", false));
    manager.register_scheduled_task(CountingTask::new("0 * * * * *", false));
    assert_eq!(manager.task_count(), 2);
    assert_eq!(
        manager.schedules(),
        vec![String::from("* * * * * *"), String::from("0 * * * * *")]
    );
}

#[test]
fn every_minute_task_fires_within_sixty_one_seconds() {
    let mut manager = TaskManager::new(String::from("redis://127.0.0.1/"));
    manager.register_scheduled_task(CountingTask::new("0 * * * * *", false));
    let schedules = manager.schedules();
    // A 61-second observation window starting at an arbitrary clock second:
    // whatever the offset, a full minute boundary falls inside the window.
    for start in [0u64, 17, 59] {
        let before = manager.task_at(0).runs.get();
        for second in start..start + 61 {
            let due: Vec<bool> = schedules.iter().map(|s| matches_at(s, second)).collect();
            manager.run_due(&due);
        }
        assert!(manager.task_at(0).runs.get() >= before + 1);
    }
}

#[test]
fn failing_task_stays_registered_and_fires_again() {
    let mut manager = TaskManager::new(String::from("redis://127.0.0.1/"));
    manager.register_scheduled_task(CountingTask::new("* * * * * *", true));
    let report = manager.run_due(&vec![true]);
    assert_eq!(report.len(), 1);
    assert_eq!(report[0].task_index, 0);
    assert_eq!(report[0].outcome, Err(String::from("task failure")));
    // The failure neither deregistered the task nor stopped the scheduler: a
    // subsequent matching tick invokes the task again.
    assert_eq!(manager.task_count(), 1);
    let report = manager.run_due(&vec![true]);
    assert_eq!(report.len(), 1);
    assert_eq!(report[0].task_index, 0);
    assert_eq!(manager.task_at(0).runs.get(), 2);
}

#[test]
fn failing_task_does_not_block_other_tasks_in_same_tick() {
    let mut manager = TaskManager::new(String::from("redis://127.0.0.1/"));
    manager.register_scheduled_task(CountingTask::new("* * * * * *", true));
    manager.register_scheduled_task(CountingTask::new("* * * * * *", false));
    let report = manager.run_due(&vec![true, true]);
    assert_eq!(report.len(), 2);
    assert!(report[0].outcome.is_err());
    assert!(report[1].outcome.is_ok());
    assert_eq!(manager.task_at(0).runs.get(), 1);
    assert_eq!(manager.task_at(1).runs.get(), 1);
}

#[test]
fn every_tick_task_fires_and_impossible_date_never_does() {
    let mut manager = TaskManager::new(String::from("redis://127.0.0.1/"));
    manager.register_scheduled_task(CountingTask::new("* * * * * *", false));
    manager.register_scheduled_task(CountingTask::new("0 0 0 30 2 *", false));
    let schedules = manager.schedules();
    for second in 0..61u64 {
        let due: Vec<bool> = schedules.iter().map(|s| matches_at(s, second)).collect();
        let report = manager.run_due(&due);
        assert_eq!(report.len(), 1);
        assert_eq!(report[0].task_index, 0);
    }
    assert_eq!(manager.task_at(0).runs.get(), 61);
    assert_eq!(manager.task_at(1).runs.get(), 0);
}

#[test]
fn only_due_tasks_fire_in_registration_order() {
    let mut manager = TaskManager::new(String::from("redis://127.0.0.1/"));
    for _ in 0..4 {
        manager.register_scheduled_task(CountingTask::new("* * * * * *", false));
    }
    let report = manager.run_due(&vec![true, false, true, true]);
    let fired: Vec<usize> = report.iter().map(|f| f.task_index).collect();
    assert_eq!(fired, vec![0, 2, 3]);
}
