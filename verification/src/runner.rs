//! The task-runner core: a per-call race between one operation and the
//! process-wide interrupt signal.
//!
//! The unverified glue allocates a fresh multi-worker execution context for
//! each top-level call, drives the operation inside it, and concurrently
//! listens for the interrupt. Whichever of the two becomes observable first is
//! reported here as a [`RaceOutcome`]; a [`TaskRace`] holds the session's
//! settled state and turns it into the call's result. The arbiter guarantees
//! that the first observed outcome fixes the result — later observations of
//! the losing branch change nothing — and that no partial value ever survives
//! a cancellation.
//!
//! Failure to allocate the execution context itself is deliberately not
//! representable here: [`RunError`] has no variant for it. That condition is
//! unrecoverable and terminates the process in the glue, before any session
//! exists.

use vstd::prelude::*;

use crate::domain::DomainError;

verus! {

/// Why a run did not return the operation's success value.
#[derive(Debug, Clone, PartialEq, Eq)]
pub enum RunError {
    /// The operation itself completed with a domain error, forwarded unchanged.
    OperationFailed(DomainError),
    /// The interrupt signal was observed before the operation completed. No
    /// partial value is surfaced.
    Cancelled,
}

impl RunError {
    /// How a run's error renders: a forwarded domain error renders as the
    /// family's own text, unchanged; a cancellation renders as the fixed
    /// interrupt notice.
    pub open spec fn render_spec(self) -> Seq<char> {
        match self {
            RunError::OperationFailed(e) => e.render_spec(),
            RunError::Cancelled => "Operation canceled by Ctrl+C"@,
        }
    }

    /// Renders the error to exactly the text `render_spec` describes.
    pub fn render(&self) -> (s: String)
        ensures
            s@ == self.render_spec(),
    {
        match self {
            RunError::OperationFailed(e) => e.render(),
            RunError::Cancelled => "Operation canceled by Ctrl+C".to_owned(),
        }
    }
}

/// The first observable event of a race: either the operation completed, with
/// its own result, or the interrupt signal arrived first.
#[derive(Debug, PartialEq, Eq)]
pub enum RaceOutcome<T> {
    /// The operation completed with this result before any interrupt was
    /// observed.
    Completed(Result<T, DomainError>),
    /// The interrupt signal was observed before the operation completed.
    Interrupted,
}

/// How a run forwards a completed operation's result: success and domain
/// errors pass through unchanged, the latter wrapped as `OperationFailed`.
pub open spec fn forwarded<T>(r: Result<T, DomainError>) -> Result<T, RunError> {
    match r {
        Ok(v) => Ok(v),
        Err(e) => Err(RunError::OperationFailed(e)),
    }
}

/// How a settled race determines the session's result: a completed operation's
/// result is forwarded value-for-value and error-for-error; an interrupt
/// yields `Cancelled`, never any part of the operation's result.
pub open spec fn race_result<T>(outcome: RaceOutcome<T>) -> Result<T, RunError> {
    match outcome {
        RaceOutcome::Completed(r) => forwarded(r),
        RaceOutcome::Interrupted => Err(RunError::Cancelled),
    }
}

/// The race's transition function: the first outcome settles the state, and a
/// settled state absorbs every later outcome unchanged.
pub open spec fn race_settle<T>(
    state: Option<RaceOutcome<T>>,
    outcome: RaceOutcome<T>,
) -> Option<RaceOutcome<T>> {
    if state is Some {
        state
    } else {
        Some(outcome)
    }
}

/// One task-execution session: the arbiter of a single race.
///
/// A session starts unsettled; the first outcome offered to it settles it, and
/// nothing offered afterwards can change it. Each top-level call owns exactly
/// one session, created fresh and consumed by [`TaskRace::into_result`], so no
/// state survives from one call to the next.
#[derive(Debug, PartialEq, Eq)]
pub struct TaskRace<T> {
    state: Option<RaceOutcome<T>>,
}

impl<T> TaskRace<T> {
    /// The session's settled outcome: `None` while the race is still open.
    pub closed spec fn outcome(self) -> Option<RaceOutcome<T>> {
        self.state
    }

    /// Whether an outcome has been observed.
    pub open spec fn is_settled(self) -> bool {
        self.outcome() is Some
    }

    /// Opens a fresh session. Nothing from any earlier session is observable
    /// in it: it is unsettled, whatever happened before.
    pub fn new() -> (race: Self)
        ensures
            race.outcome() is None,
    {
        TaskRace { state: None }
    }

    /// Whether an outcome has been observed.
    pub fn settled(&self) -> (b: bool)
        ensures
            b == self.is_settled(),
    {
        self.state.is_some()
    }

    /// Reports that the operation completed with `result`. If the session is
    /// still open this settles it on the operation's own result; if an
    /// interrupt was observed first, the completion is absorbed and the
    /// settled outcome stands.
    pub fn observe_completion(&mut self, result: Result<T, DomainError>)
        ensures
            final(self).outcome() == race_settle(
                old(self).outcome(),
                RaceOutcome::Completed(result),
            ),
    {
        if self.state.is_none() {
            self.state = Some(RaceOutcome::Completed(result));
        }
    }

    /// Reports that the interrupt signal was observed. If the session is still
    /// open this settles it on cancellation; if the operation completed first,
    /// the interrupt is absorbed and the settled outcome stands.
    pub fn observe_interrupt(&mut self)
        ensures
            final(self).outcome() == race_settle(
                old(self).outcome(),
                RaceOutcome::Interrupted,
            ),
    {
        if self.state.is_none() {
            self.state = Some(RaceOutcome::Interrupted);
        }
    }

    /// Consumes the settled session and returns the call's result, exactly as
    /// [`race_result`] maps the settled outcome. Consuming the session ends
    /// the call: the next call must open a fresh one.
    pub fn into_result(self) -> (r: Result<T, RunError>)
        requires
            self.is_settled(),
        ensures
            r == race_result(self.outcome()->0),
    {
        match self.state {
            Some(RaceOutcome::Completed(result)) => match result {
                Ok(v) => Ok(v),
                Err(e) => Err(RunError::OperationFailed(e)),
            },
            Some(RaceOutcome::Interrupted) => Err(RunError::Cancelled),
            None => unreached(),
        }
    }
}

/// Law: if the operation completes while the session is still open — that is,
/// before any interrupt is observed — the session settles on the operation's
/// own result, the run's result is exactly that result, and an interrupt
/// observed afterwards changes nothing.
pub proof fn lemma_operation_first_wins<T>(
    state: Option<RaceOutcome<T>>,
    r: Result<T, DomainError>,
)
    requires
        state is None,
    ensures
        race_settle(state, RaceOutcome::Completed(r)) == Some(RaceOutcome::Completed(r)),
        race_result(RaceOutcome::Completed(r)) == forwarded(r),
        race_settle(race_settle(state, RaceOutcome::Completed(r)), RaceOutcome::Interrupted)
            == race_settle(state, RaceOutcome::Completed(r)),
{
}

/// Law: if the interrupt is observed while the session is still open — that
/// is, before the operation completes — the session settles on cancellation,
/// the run's result is `Cancelled`, and the operation's own result, however
/// successful, changes nothing when it arrives afterwards.
pub proof fn lemma_interrupt_first_cancels<T>(
    state: Option<RaceOutcome<T>>,
    r: Result<T, DomainError>,
)
    requires
        state is None,
    ensures
        race_settle(state, RaceOutcome::Interrupted) == Some(RaceOutcome::<T>::Interrupted),
        race_result(RaceOutcome::<T>::Interrupted) == Err::<T, RunError>(RunError::Cancelled),
        race_settle(race_settle(state, RaceOutcome::<T>::Interrupted), RaceOutcome::Completed(r))
            == race_settle(state, RaceOutcome::Interrupted),
{
}

/// Law: a settled session is stable — no later outcome, of either branch,
/// changes it. The first observable completion wins atomically: the result is
/// never a mixture of both branches.
pub proof fn lemma_settled_is_stable<T>(
    state: Option<RaceOutcome<T>>,
    outcome: RaceOutcome<T>,
)
    requires
        state is Some,
    ensures
        race_settle(state, outcome) == state,
{
}

} // verus!
