//! The combinator that absorbs a task's failure into a single log line.
//!
//! A task meant to be fired off in the background has nowhere to report
//! a failure; wrapping it in [`LogError`] gives the failure one place to
//! go.  Success and suspension pass through untouched.  A failure is
//! rendered once, as `(name) error`, and absorbed: the wrapper reports a
//! content-free failure of its own, so the original error cannot
//! propagate past this boundary.  As with the task machine, the wrapped
//! task is polled by a driver on the far side of the crate's boundary;
//! [`LogError::settle`] turns what that poll produced into the wrapper's
//! own answer and the line to log, and the driver hands the line to the
//! log sink.

use vstd::prelude::*;

use crate::routine::PollOutcome;

verus! {

/// A poll-based task wrapped with a display name; failures of the inner
/// task are logged under that name and absorbed.
pub struct LogError<T> {
    /// The wrapped task.  The driver polls it and settles the outcome.
    pub inner: T,
    /// The name under which a failure is logged.
    pub name: String,
}

/// Wrapping a task for failure logging, for any kind of poll-based task.
pub trait JokerFutureExt: Sized {
    /// Wrap a poll-based task so that its failure is logged under `name` and
    /// absorbed.
    fn log_err(self, name: String) -> (wrapped: LogError<Self>)
        ensures
            wrapped.inner == self,
            wrapped.name == name,
    ;
}

impl<T> JokerFutureExt for T {
    fn log_err(self, name: String) -> (wrapped: LogError<T>) {
        LogError { inner: self, name }
    }
}

/// The one log line a failure produces: `(name) error`, the error
/// rendered in its display form.
pub open spec fn log_line(name: Seq<char>, display: Seq<char>) -> Seq<char> {
    "("@ + name + ") "@ + display
}

/// One poll's answer as the wrapper's own poller sees it: the failure
/// case is content-free, because the original error was absorbed into
/// the log.
pub enum LogOutcome<I> {
    /// The wrapped task finished with this success value.
    Ready(I),
    /// The wrapped task has not finished yet.
    NotReady,
    /// The wrapped task failed; the failure itself went to the log.
    Failed,
}

/// What settling an inner poll outcome under `name` yields: the
/// wrapper's own answer, and the log line to write, present exactly when
/// the inner task failed.
pub open spec fn spec_log_settle<I>(name: Seq<char>, outcome: PollOutcome<I>) -> (
    LogOutcome<I>,
    Option<Seq<char>>,
) {
    match outcome {
        PollOutcome::Ready(item) => (LogOutcome::Ready(item), None),
        PollOutcome::NotReady => (LogOutcome::NotReady, None),
        PollOutcome::Failed(err) => (LogOutcome::Failed, Some(log_line(name, err.display_view()))),
    }
}

impl<T> LogError<T> {
    /// Settle what polling the wrapped task produced: pass success and
    /// suspension through, and turn a failure into exactly one rendered
    /// log line plus a content-free failure, as [`spec_log_settle`]
    /// says.
    pub fn settle<I>(&self, outcome: PollOutcome<I>) -> (r: (LogOutcome<I>, Option<String>))
        ensures
            r.0 == spec_log_settle(self.name@, outcome).0,
            (match (r.1, spec_log_settle(self.name@, outcome).1) {
                (Some(line), Some(spec_line)) => line@ == spec_line,
                (None, None) => true,
                _ => false,
            }),
    {
        match outcome {
            PollOutcome::Ready(item) => (LogOutcome::Ready(item), None),
            PollOutcome::NotReady => (LogOutcome::NotReady, None),
            PollOutcome::Failed(err) => {
                let line = String::from_str("(").concat(self.name.as_str()).concat(
                    ") ",
                ).concat(err.render_display().as_str());
                (LogOutcome::Failed, Some(line))
            },
        }
    }
}

/// A wrapped task that fails produces exactly one log record, `(name)`
/// followed by the original error's display text, and reports a
/// content-free failure of its own — never the original error, and
/// never silence.
pub proof fn law_logged_failure_absorbed<I>(name: Seq<char>, err: crate::error::JokerError)
    ensures
        spec_log_settle::<I>(name, PollOutcome::Failed(err)) == (
            LogOutcome::<I>::Failed,
            Some(log_line(name, err.display_view())),
        ),
{
}

/// A wrapped task that has not failed logs nothing, and its success
/// value passes through unaltered.
pub proof fn law_logging_leaves_success_alone<I>(name: Seq<char>, item: I)
    ensures
        spec_log_settle::<I>(name, PollOutcome::Ready(item)) == (
            LogOutcome::Ready(item),
            None::<Seq<char>>,
        ),
        spec_log_settle::<I>(name, PollOutcome::NotReady) == (
            LogOutcome::<I>::NotReady,
            None::<Seq<char>>,
        ),
{
}

/// The log line carries both the supplied name and the error's display
/// text verbatim: the name sits between the opening parenthesis and the
/// closing `") "`, and the display text is the line's tail.
pub proof fn law_log_line_carries_name_and_text(name: Seq<char>, display: Seq<char>)
    ensures
        log_line(name, display).len() == name.len() + display.len() + 3,
        log_line(name, display).subrange(1, 1 + name.len() as int) == name,
        log_line(name, display).subrange(
            3 + name.len() as int,
            log_line(name, display).len() as int,
        ) == display,
{
    reveal_strlit("(");
    reveal_strlit(") ");
    assert(log_line(name, display).subrange(1, 1 + name.len() as int) =~= name);
    assert(log_line(name, display).subrange(
        3 + name.len() as int,
        log_line(name, display).len() as int,
    ) =~= display);
}

} // verus!
