use joker::routine;
use joker::routine::HandleReport;
use joker::routine::PollAction;
use joker::routine::PollOutcome;
use joker::error::AppFailure;
use joker::error::CoronaFailure;
use joker::error::Infallible;
use joker::error::JokerError;
use joker::logging::LogOutcome;
use joker::JokerFutureExt;
use joker::JokerRoutine;
use joker::LogError;

fn app_failure(text: &str) -> AppFailure {
    AppFailure {
        debug: format!("Failure({})", text),
        debug_alternate: format!("Failure {{ {} }}", text),
        display: String::from(text),
    }
}

#[test]
fn pending_task_starts_on_first_poll() {
    let task: JokerRoutine<&str, u64> = routine("the user function");
    match task.begin_poll() {
        PollAction::Start(func) => assert_eq!(func, "the user function"),
        PollAction::Poll(_) => panic!("a fresh task has no handle to poll"),
        PollAction::Fatal => panic!("a fresh task is not depleted"),
    }
}

#[test]
fn immediate_success_single_cycle() {
    let task: JokerRoutine<&str, u64> = routine("the user function");
    let task: JokerRoutine<&str, u64> = match task.begin_poll() {
        PollAction::Start(_) => JokerRoutine::running(11),
        _ => panic!("a fresh task must start its coroutine"),
    };
    let handle = match task.begin_poll() {
        PollAction::Poll(handle) => handle,
        _ => panic!("a started task must poll its handle"),
    };
    let report: HandleReport<&str, Infallible> = HandleReport::Complete(Ok("shazam!"));
    let (task, outcome) = JokerRoutine::<&str, u64>::settle(handle, report);
    match outcome {
        PollOutcome::Ready(item) => assert_eq!(item, "shazam!"),
        _ => panic!("a completed function must yield its own value"),
    }
    assert!(matches!(task.begin_poll(), PollAction::Fatal));
}

#[test]
fn declared_failure_display_round_trip() {
    let report: HandleReport<(), AppFailure> =
        HandleReport::Complete(Err(app_failure("hoo hoo")));
    let (_, outcome) = JokerRoutine::<&str, u64>::settle(33, report);
    match outcome {
        PollOutcome::Failed(err) => {
            assert_eq!(err.render_display(), "hoo hoo");
            assert_eq!(err.render_debug(false), "Other(Failure(hoo hoo))");
            assert_eq!(err.render_debug(true), "Other(Failure { hoo hoo })");
        }
        _ => panic!("a failed function must yield a failure"),
    }
}

#[test]
fn depleted_poll_is_fatal_decision() {
    let report: HandleReport<u32, AppFailure> = HandleReport::Complete(Ok(7));
    let (task, _) = JokerRoutine::<&str, u64>::settle(33, report);
    assert!(matches!(task.begin_poll(), PollAction::Fatal));

    let report: HandleReport<u32, AppFailure> =
        HandleReport::Complete(Err(app_failure("late")));
    let (task, _) = JokerRoutine::<&str, u64>::settle(33, report);
    assert!(matches!(task.begin_poll(), PollAction::Fatal));
}

#[test]
fn runtime_fault_wraps_renderings() {
    let fault = CoronaFailure {
        debug: String::from("Panicked(..)"),
        debug_alternate: String::from("Panicked(\n    ..\n)"),
        display: String::from("the coroutine panicked"),
    };
    let report: HandleReport<u32, AppFailure> = HandleReport::Fault(fault);
    let (task, outcome) = JokerRoutine::<&str, u64>::settle(33, report);
    match outcome {
        PollOutcome::Failed(err) => {
            assert_eq!(err.render_debug(false), "Panicked(..)");
            assert_eq!(err.render_debug(true), "Panicked(\n    ..\n)");
            assert_eq!(err.render_display(), "the coroutine panicked");
        }
        _ => panic!("a runtime fault must yield a failure"),
    }
    assert!(matches!(task.begin_poll(), PollAction::Fatal));
}

#[test]
fn suspension_keeps_task_running() {
    let report: HandleReport<u32, AppFailure> = HandleReport::Suspend;
    let (task, outcome) = JokerRoutine::<&str, u64>::settle(33, report);
    assert!(matches!(outcome, PollOutcome::NotReady));
    match task.begin_poll() {
        PollAction::Poll(handle) => assert_eq!(handle, 33),
        _ => panic!("a suspended task must keep its handle"),
    }
}

#[test]
fn log_err_wraps_task_and_name() {
    let task: JokerRoutine<&str, u64> = routine("countdown body");
    let wrapped = task.log_err(String::from("countdown"));
    assert_eq!(wrapped.name, "countdown");
    assert!(matches!(wrapped.inner.begin_poll(), PollAction::Start("countdown body")));
}

#[test]
fn logged_failure_single_record() {
    let wrapped: LogError<u8> = 0u8.log_err(String::from("countdown"));
    let failure = JokerError::from(app_failure("hoo hoo"));
    let (outcome, record) = wrapped.settle(PollOutcome::<u32>::Failed(failure));
    assert!(matches!(outcome, LogOutcome::Failed));
    assert_eq!(record, Some(String::from("(countdown) hoo hoo")));
}

#[test]
fn logging_passes_success_through() {
    let wrapped: LogError<u8> = 0u8.log_err(String::from("quiet"));
    let (outcome, record) = wrapped.settle(PollOutcome::Ready("yay"));
    match outcome {
        LogOutcome::Ready(item) => assert_eq!(item, "yay"),
        _ => panic!("success must pass through the logging wrapper"),
    }
    assert_eq!(record, None);

    let (outcome, record) = wrapped.settle(PollOutcome::<&str>::NotReady);
    assert!(matches!(outcome, LogOutcome::NotReady));
    assert_eq!(record, None);
}
