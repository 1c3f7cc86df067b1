//! The state machine that drives a coroutine-backed computation to
//! completion through repeated non-blocking polls.
//!
//! A task begins as a not-yet-started user function, becomes a running
//! coroutine on its first poll, and ends Depleted once it has produced
//! its one terminal answer.  The coroutine runtime itself lives on the
//! far side of this crate's boundary, so the machine is split into the
//! decisions, which are verified here, and the two outside operations,
//! which a driver performs between them:
//!
//! 1. [`JokerRoutine::begin_poll`] consumes the task and says what the
//!    driver must do: start the function on a fresh coroutine, poll the
//!    running coroutine's handle, or abort because the task was already
//!    Depleted.
//! 2. After starting a coroutine, the driver rebuilds the task with
//!    [`JokerRoutine::running`] and polls again at once, so that a
//!    function that never suspends completes within its first drive.
//! 3. After polling the handle, the driver reports what the runtime said
//!    as a [`HandleReport`], and [`JokerRoutine::settle`] turns that
//!    report into the task's next state and the answer for the poller.

use vstd::prelude::*;

use crate::error::CoronaFailure;
use crate::error::JokerError;
use vstd::std_specs::convert::FromSpec;

verus! {

/// The three-state lifecycle of a coroutine-backed task.
pub enum JokerRoutineState<F, H> {
    /// Not yet started: holds the user's function.  Nothing has run yet;
    /// the coroutine is created only when the task is first polled.
    Func(F),
    /// Started: holds the runtime's handle for the running coroutine.
    Handle(H),
    /// Terminal: the task has already produced its one answer, and must
    /// never be polled again.
    Depleted,
}

/// A poll-based task that runs a user function on a coroutine.  `F` is
/// the function, `H` the coroutine runtime's handle for it once started.
pub struct JokerRoutine<F, H> {
    state: JokerRoutineState<F, H>,
}

impl<F, H> View for JokerRoutine<F, H> {
    type V = JokerRoutineState<F, H>;

    closed spec fn view(&self) -> JokerRoutineState<F, H> {
        self.state
    }
}

/// Construct a task from a user function.  No side effects yet: the
/// function is not invoked until the task is first polled.
pub fn routine<F, H>(func: F) -> (task: JokerRoutine<F, H>)
    ensures
        task@ == JokerRoutineState::<F, H>::Func(func),
{
    JokerRoutine { state: JokerRoutineState::Func(func) }
}

/// What the driver must do for one poll of a task.
pub enum PollAction<F, H> {
    /// The task had not started: start the function on a fresh coroutine,
    /// rebuild the task with [`JokerRoutine::running`], and poll again at
    /// once.
    Start(F),
    /// The task is running: poll the coroutine handle without blocking
    /// and settle its report with [`JokerRoutine::settle`].
    Poll(H),
    /// The task was already Depleted.  Polling past the terminal answer
    /// is a contract violation by the caller's scheduler; the driver must
    /// abort rather than conjure a stale or default answer.
    Fatal,
}

/// What polling the coroutine handle reported.
pub enum HandleReport<I, E> {
    /// The coroutine ran the user function to its end, with the
    /// function's own result.
    Complete(Result<I, E>),
    /// The coroutine runtime itself failed; the driver captured the
    /// failure's renderings at that moment.
    Fault(CoronaFailure),
    /// The coroutine suspended again; the task stays running.
    Suspend,
}

/// One poll's answer, as the task's poller sees it.
pub enum PollOutcome<I> {
    /// The task finished with this success value.
    Ready(I),
    /// The task has not finished yet.
    NotReady,
    /// The task finished by failing.
    Failed(JokerError),
}

/// The decision taken by one poll of a task in the given state.
pub open spec fn spec_begin_poll<F, H>(state: JokerRoutineState<F, H>) -> PollAction<F, H> {
    match state {
        JokerRoutineState::Func(func) => PollAction::Start(func),
        JokerRoutineState::Handle(handle) => PollAction::Poll(handle),
        JokerRoutineState::Depleted => PollAction::Fatal,
    }
}

/// The state transition and answer that a handle report settles to: a
/// completed function's own result passes through, converted into the
/// unified failure domain when it failed; a runtime fault becomes a
/// coroutine failure; a suspension keeps the task running.
pub open spec fn spec_settle<I, E, F, H>(handle: H, report: HandleReport<I, E>) -> (
    JokerRoutineState<F, H>,
    PollOutcome<I>,
) where JokerError: From<E> {
    match report {
        HandleReport::Complete(res) => (
            JokerRoutineState::Depleted,
            match res {
                Ok(item) => PollOutcome::Ready(item),
                Err(e) => PollOutcome::Failed(<JokerError as FromSpec<E>>::from_spec(e)),
            },
        ),
        HandleReport::Fault(fault) => (
            JokerRoutineState::Depleted,
            PollOutcome::Failed(
                (JokerError::Corona {
                    debug: fault.debug,
                    debug_alternate: fault.debug_alternate,
                    display: fault.display,
                }),
            ),
        ),
        HandleReport::Suspend => (JokerRoutineState::Handle(handle), PollOutcome::NotReady),
    }
}

impl<F, H> JokerRoutine<F, H> {
    /// Begin one poll: consume the task and decide what the driver must
    /// do, as [`spec_begin_poll`] says.
    pub fn begin_poll(self) -> (action: PollAction<F, H>)
        ensures
            action == spec_begin_poll(self@),
    {
        match self.state {
            JokerRoutineState::Func(func) => PollAction::Start(func),
            JokerRoutineState::Handle(handle) => PollAction::Poll(handle),
            JokerRoutineState::Depleted => PollAction::Fatal,
        }
    }

    /// Rebuild the task around the handle of the coroutine the driver
    /// just started.
    pub fn running(handle: H) -> (task: JokerRoutine<F, H>)
        ensures
            task@ == JokerRoutineState::<F, H>::Handle(handle),
    {
        JokerRoutine { state: JokerRoutineState::Handle(handle) }
    }

    /// Settle what polling the coroutine handle reported: the task moves
    /// to its next state and the poller receives this poll's answer,
    /// exactly as [`spec_settle`] says.  A completed or faulted report is
    /// terminal, so the handle is dropped and the task comes back
    /// Depleted; a suspension hands the handle back unchanged.
    pub fn settle<I, E>(handle: H, report: HandleReport<I, E>) -> (r: (
        JokerRoutine<F, H>,
        PollOutcome<I>,
    )) where JokerError: From<E>
        ensures
            <JokerError as FromSpec<E>>::obeys_from_spec() ==> (r.0@, r.1) == spec_settle::<
                I,
                E,
                F,
                H,
            >(handle, report),
            (match report {
                HandleReport::Complete(res) => r.0@ is Depleted && (match res {
                    Ok(item) => r.1 == PollOutcome::Ready(item),
                    Err(e) => r.1 is Failed,
                }),
                HandleReport::Fault(fault) => r.0@ is Depleted && r.1 == PollOutcome::<I>::Failed(
                    (JokerError::Corona {
                        debug: fault.debug,
                        debug_alternate: fault.debug_alternate,
                        display: fault.display,
                    }),
                ),
                HandleReport::Suspend => r.0@ == JokerRoutineState::<F, H>::Handle(handle) && r.1
                    == PollOutcome::<I>::NotReady,
            }),
    {
        match report {
            HandleReport::Complete(res) => {
                let outcome = match res {
                    Ok(item) => PollOutcome::Ready(item),
                    Err(e) => PollOutcome::Failed(JokerError::from(e)),
                };
                (JokerRoutine { state: JokerRoutineState::Depleted }, outcome)
            },
            HandleReport::Fault(fault) => (
                JokerRoutine { state: JokerRoutineState::Depleted },
                PollOutcome::Failed(<JokerError as From<CoronaFailure>>::from(fault)),
            ),
            HandleReport::Suspend => (
                JokerRoutine { state: JokerRoutineState::Handle(handle) },
                PollOutcome::NotReady,
            ),
        }
    }
}

/// A function that succeeds without ever suspending completes within one
/// drive of the task: the first poll starts the coroutine, the one
/// handle poll that follows reports completion, and the poller receives
/// exactly the function's success value while the task ends Depleted.
pub proof fn law_prompt_success<I, E, F, H>(func: F, handle: H, item: I) where JokerError: From<E>
    ensures
        spec_begin_poll::<F, H>(JokerRoutineState::Func(func)) == PollAction::<F, H>::Start(func),
        spec_begin_poll::<F, H>(JokerRoutineState::Handle(handle)) == PollAction::<F, H>::Poll(
            handle,
        ),
        spec_settle::<I, E, F, H>(handle, HandleReport::Complete(Ok(item))) == (
            JokerRoutineState::<F, H>::Depleted,
            PollOutcome::Ready(item),
        ),
{
}

/// Whatever a poll settles — completion with success, completion with
/// the function's own failure, or a runtime fault — the task that comes
/// back from a terminal report is Depleted: exactly one terminal answer
/// is ever produced.
pub proof fn law_terminal_reports_deplete<I, E, F, H>(
    handle: H,
    res: Result<I, E>,
    fault: CoronaFailure,
) where JokerError: From<E>
    ensures
        spec_settle::<I, E, F, H>(handle, HandleReport::Complete(res)).0 is Depleted,
        spec_settle::<I, E, F, H>(handle, HandleReport::Fault(fault)).0 is Depleted,
{
}

/// A function that fails with an error of its declared domain settles
/// to a Failed answer whose display rendering is exactly the declared
/// error's own display text: the message makes the round trip through
/// the unified error unchanged, whichever of the three wrapped domains
/// it came from.
pub proof fn law_failure_display_round_trip<I, F, H>(
    handle: H,
    app: crate::error::AppFailure,
    timer: crate::error::TokioFailure,
    fault: CoronaFailure,
)
    ensures
        spec_settle::<I, crate::error::AppFailure, F, H>(
            handle,
            HandleReport::Complete(Err(app)),
        ).1 matches PollOutcome::Failed(err) && err.display_view() == app.display@,
        spec_settle::<I, crate::error::TokioFailure, F, H>(
            handle,
            HandleReport::Complete(Err(timer)),
        ).1 matches PollOutcome::Failed(err) && err.display_view() == timer.display@,
        spec_settle::<I, CoronaFailure, F, H>(
            handle,
            HandleReport::Fault(fault),
        ).1 matches PollOutcome::Failed(err) && err.display_view() == fault.display@,
{
}

/// Polling a Depleted task decides Fatal: the driver must abort rather
/// than return a stale or default answer, because the task's one
/// terminal answer has already been handed out.
pub proof fn law_depleted_poll_is_fatal<F, H>()
    ensures
        spec_begin_poll::<F, H>(JokerRoutineState::Depleted) == PollAction::<F, H>::Fatal,
{
}

} // verus!

