//! Tests of the exponential-backoff retry policy.

use loved_core::handling::{next_directive, WorkerDirective, WorkerOutcome};
use loved_core::retry::{RetryAction, RetryPolicy};

fn policy() -> RetryPolicy {
    RetryPolicy { base_delay_ms: 100, max_delay_ms: 5000, max_attempts: 8 }
}

#[test]
fn delay_doubles_until_capped() {
    let p = policy();
    assert_eq!(p.delay_ms(0), 100);
    assert_eq!(p.delay_ms(1), 200);
    assert_eq!(p.delay_ms(2), 400);
    assert_eq!(p.delay_ms(3), 800);
    assert_eq!(p.delay_ms(4), 1600);
    assert_eq!(p.delay_ms(5), 3200);
    assert_eq!(p.delay_ms(6), 5000);
    assert_eq!(p.delay_ms(7), 5000);
    assert_eq!(p.delay_ms(1000), 5000);
}

#[test]
fn base_delay_above_cap_is_capped_at_once() {
    let p = RetryPolicy { base_delay_ms: 9000, max_delay_ms: 5000, max_attempts: 3 };
    assert_eq!(p.delay_ms(0), 5000);
    assert_eq!(p.delay_ms(1), 5000);
}

#[test]
fn retries_back_off_then_give_up() {
    let p = policy();
    assert_eq!(p.on_failure(1), RetryAction::Wait { delay_ms: 100 });
    assert_eq!(p.on_failure(2), RetryAction::Wait { delay_ms: 200 });
    assert_eq!(p.on_failure(8), RetryAction::Wait { delay_ms: 5000 });
    assert_eq!(p.on_failure(9), RetryAction::GiveUp);
    assert_eq!(p.on_failure(u32::MAX), RetryAction::GiveUp);
}

#[test]
fn worker_backs_off_on_transport_failures_and_recovers() {
    let p = RetryPolicy { base_delay_ms: 100, max_delay_ms: 5000, max_attempts: 2 };
    let mut failures: u32 = 0;
    let broken = WorkerOutcome::TransportFailed { detail: String::from("io error") };
    // Consecutive transport failures back off exponentially.
    assert_eq!(
        next_directive(&p, &mut failures, &broken),
        WorkerDirective::Backoff { delay_ms: 100 }
    );
    assert_eq!(failures, 1);
    assert_eq!(
        next_directive(&p, &mut failures, &broken),
        WorkerDirective::Backoff { delay_ms: 200 }
    );
    assert_eq!(failures, 2);
    // Past the bound the worker gives up.
    assert_eq!(next_directive(&p, &mut failures, &broken), WorkerDirective::GiveUp);
    assert_eq!(failures, 3);
    // Any successful retrieval resets the count: an idle timeout is enough.
    assert_eq!(next_directive(&p, &mut failures, &WorkerOutcome::Idle), WorkerDirective::PollAgain);
    assert_eq!(failures, 0);
    // A handler failure is not a transport failure: the connection works.
    let handler_failed = WorkerOutcome::HandlerFailed {
        message: String::from("m"),
        detail: String::from("boom"),
    };
    next_directive(&p, &mut failures, &broken);
    assert_eq!(failures, 1);
    assert_eq!(next_directive(&p, &mut failures, &handler_failed), WorkerDirective::PollAgain);
    assert_eq!(failures, 0);
}
