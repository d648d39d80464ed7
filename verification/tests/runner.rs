//! Tests of the task-runner core: the race arbiter and its result mapping.

use refman_bindings::domain::{DomainError, EntryError};
use refman_bindings::runner::{RunError, TaskRace};

#[test]
fn completion_with_no_interrupt_forwards_the_value() {
    // Scenario: the operation yields Ok(42) and no interrupt ever fires.
    let mut race: TaskRace<u64> = TaskRace::new();
    assert!(!race.settled());
    race.observe_completion(Ok(42));
    assert!(race.settled());
    assert_eq!(race.into_result(), Ok(42));
}

#[test]
fn completion_with_no_interrupt_forwards_the_error() {
    let err = DomainError::Entry(EntryError::FileNotFound("x.fasta".to_string()));
    let mut race: TaskRace<u64> = TaskRace::new();
    race.observe_completion(Err(err.clone()));
    assert_eq!(race.into_result(), Err(RunError::OperationFailed(err)));
}

#[test]
fn interrupt_after_completion_changes_nothing() {
    // The operation completes first; an interrupt observed afterwards is
    // absorbed without effect.
    let mut race: TaskRace<u64> = TaskRace::new();
    race.observe_completion(Ok(42));
    race.observe_interrupt();
    assert_eq!(race.into_result(), Ok(42));
}

#[test]
fn interrupt_before_completion_cancels() {
    // Scenario: the operation hangs; the interrupt is observed first. Even if
    // the operation would have succeeded a moment later, the result is
    // Cancelled and no partial value surfaces.
    let mut race: TaskRace<u64> = TaskRace::new();
    race.observe_interrupt();
    assert!(race.settled());
    race.observe_completion(Ok(42));
    assert_eq!(race.into_result(), Err(RunError::Cancelled));
}

#[test]
fn interrupt_before_failing_completion_still_cancels() {
    let err = DomainError::Entry(EntryError::EmptyDataset("e_coli".to_string()));
    let mut race: TaskRace<u64> = TaskRace::new();
    race.observe_interrupt();
    race.observe_completion(Err(err));
    assert_eq!(race.into_result(), Err(RunError::Cancelled));
}

#[test]
fn sequential_sessions_are_isolated() {
    // Scenario: two sequential calls each own their session; nothing from the
    // first is observable in the second. A counter captured by the operation
    // shows each session reports only its own completion.
    let mut counter: u64 = 0;

    let mut first: TaskRace<u64> = TaskRace::new();
    assert!(!first.settled());
    counter += 1;
    first.observe_completion(Ok(counter));
    assert_eq!(first.into_result(), Ok(1));

    let mut second: TaskRace<u64> = TaskRace::new();
    // The second session starts unsettled: the first session's outcome left
    // no trace in it.
    assert!(!second.settled());
    counter += 1;
    second.observe_completion(Ok(counter));
    assert_eq!(second.into_result(), Ok(2));
}

#[test]
fn cancelled_run_renders_the_interrupt_notice() {
    let e = RunError::Cancelled;
    assert_eq!(e.render(), "Operation canceled by Ctrl+C");
}

#[test]
fn failed_run_renders_the_domain_error_text() {
    let inner = EntryError::FileNotFound("x.fasta".to_string());
    let e = RunError::OperationFailed(DomainError::Entry(inner.clone()));
    assert_eq!(e.render(), inner.render());
}
