use pa::child::{success, take_output, ExitStatus, RunEvent, RunState, StopEvent, StopState};
use pa::console::{Print, Report};
use pa::error::Error;

fn outside(text: &str) -> Error {
    Error::Outside(text.to_string())
}

fn told(report: Option<Report>) -> Option<(String, &'static str)> {
    report.map(|r| match r {
        Report::Console { text, is_err: false } => (text, "out"),
        Report::Console { text, is_err: true } => (text, "err"),
        Report::Plain(Print::Stdout(text)) => (text, "plain out"),
        Report::Plain(Print::Stderr(text)) => (text, "plain err"),
    })
}

fn said(text: &str, stream: &'static str) -> Option<(String, &'static str)> {
    Some((text.to_string(), stream))
}

fn exited(code: Option<i32>, success: bool) -> ExitStatus {
    ExitStatus { code, success }
}

fn error_of(state: RunState) -> String {
    match state {
        RunState::Done(Err(e)) => e.message(),
        other => panic!("{other:?}"),
    }
}

#[test]
fn exit_code_is_told() {
    let (outcome, report) = exited(Some(0), true).exit_ok();
    assert!(matches!(outcome, Ok(true)));
    assert_eq!(told(report), said("Process exited with code: 0", "err"));
    let (outcome, report) = exited(Some(-3), false).exit_ok();
    assert!(matches!(outcome, Ok(false)));
    assert_eq!(told(report), said("Process exited with code: -3", "err"));
}

#[test]
fn end_by_signal_is_an_error() {
    let (outcome, report) = exited(None, false).exit_ok();
    assert_eq!(outcome.unwrap_err().message(), "Option was None");
    assert!(report.is_none());
}

#[test]
fn both_outputs_are_needed() {
    let (mut stdout, mut stderr) = (Some(1), Some("x"));
    assert_eq!(take_output(&mut stdout, &mut stderr).unwrap(), (1, "x"));
    assert_eq!((stdout, stderr), (None, None));

    let (mut stdout, mut stderr) = (Some(1), None::<u8>);
    assert_eq!(
        take_output(&mut stdout, &mut stderr).unwrap_err().message(),
        "Option was None"
    );
    assert_eq!((stdout, stderr), (None, None));

    let (mut stdout, mut stderr) = (None::<u8>, None::<u8>);
    assert!(take_output(&mut stdout, &mut stderr).is_err());
    assert_eq!((stdout, stderr), (None, None));
}

#[test]
fn stderr_stays_where_stdout_is_missing() {
    let (mut stdout, mut stderr) = (None::<u8>, Some(2));
    assert_eq!(
        take_output(&mut stdout, &mut stderr).unwrap_err().message(),
        "Option was None"
    );
    assert_eq!((stdout, stderr), (None, Some(2)));
}

#[test]
fn success_is_code_zero() {
    for code in [0, 1, -1, 255] {
        let status = exited(Some(code), code == 0);
        assert_eq!(status.exit_ok().0.unwrap(), code == 0);
        match watching().step(RunEvent::Exited(Ok(status))).0 {
            RunState::Done(outcome) => assert_eq!(outcome.unwrap(), code == 0),
            other => panic!("{other:?}"),
        }
    }
}

#[test]
fn probe_succeeds_only_with_its_process() {
    assert!(matches!(success(Ok(Ok(exited(Some(0), true)))), Ok(true)));
    assert!(matches!(success(Ok(Ok(exited(Some(1), false)))), Ok(false)));
    assert!(matches!(success(Ok(Ok(exited(None, false)))), Ok(false)));
    assert_eq!(success(Ok(Err(outside("not found")))).unwrap_err().message(), "not found");
    assert_eq!(success(Err(outside("too late"))).unwrap_err().message(), "too late");
}

#[test]
fn stop_asks_waits_and_kills() {
    let (state, report) = StopState::start(true).step(StopEvent::Pid(Some(42)));
    assert!(matches!(state, StopState::Terminate(42)));
    assert!(report.is_none());
    let (state, report) = state.step(StopEvent::Signalled(Ok(())));
    assert!(matches!(state, StopState::AwaitExit(5)));
    assert!(report.is_none());
    let (state, _) = state.step(StopEvent::Waited);
    assert!(matches!(state, StopState::Kill));
    let (state, _) = state.step(StopEvent::Killed(Ok(())));
    assert!(matches!(state, StopState::Done(Error::Cancelled)));
}

#[test]
fn stop_without_number_kills_at_once() {
    let (state, report) = StopState::start(true).step(StopEvent::Pid(None));
    assert!(matches!(state, StopState::Kill));
    assert_eq!(told(report), said("Failed to get process ID", "plain err"));
}

#[test]
fn stop_kills_where_the_request_fails() {
    let (state, _) = StopState::start(true).step(StopEvent::Pid(Some(7)));
    let (state, report) = state.step(StopEvent::Signalled(Err(outside("EPERM"))));
    assert!(matches!(state, StopState::Kill));
    assert_eq!(
        told(report),
        said("Failed to send SIGTERM to process 7: EPERM", "plain err")
    );
    let (state, _) = state.step(StopEvent::Killed(Err(outside("gone"))));
    match state {
        StopState::Done(e) => assert_eq!(e.message(), "gone"),
        other => panic!("{other:?}"),
    }
}

#[test]
fn stop_without_signals_only_kills() {
    assert!(matches!(StopState::start(false), StopState::Kill));
}

#[test]
fn process_numbers_wrap_into_signed_ones() {
    let (state, _) = StopState::start(true).step(StopEvent::Pid(Some(u32::MAX)));
    assert!(matches!(state, StopState::Terminate(-1)));
}

#[test]
fn stop_waits_only_for_its_own_steps() {
    let (state, _) = StopState::start(true).step(StopEvent::Pid(Some(7)));
    let (state, _) = state.step(StopEvent::Waited);
    assert!(matches!(state, StopState::Terminate(7)));
    let (state, _) = state.step(StopEvent::Signalled(Ok(())));
    let (state, _) = state.step(StopEvent::Signalled(Err(outside("late"))));
    assert!(matches!(state, StopState::AwaitExit(_)));
    let (state, _) = state.step(StopEvent::Waited);
    assert!(matches!(state, StopState::Kill));
}

#[test]
fn stop_ignores_events_of_other_steps() {
    let (state, report) = StopState::AwaitExit(5).step(StopEvent::Killed(Ok(())));
    assert!(matches!(state, StopState::AwaitExit(5)));
    assert!(report.is_none());
}

fn watching() -> RunState {
    let (state, report) = RunState::start();
    assert_eq!(told(Some(report)), said("Process start", "err"));
    let (state, report) = state.step(RunEvent::Spawned(Ok(())));
    assert!(report.is_none());
    let (state, report) = state.step(RunEvent::OutputTaken(Ok(())));
    assert!(report.is_none());
    assert!(matches!(state, RunState::Watch));
    state
}

#[test]
fn run_prints_until_the_exit() {
    let (state, report) = watching().step(RunEvent::Stdout(Ok("hello\n".to_string())));
    assert_eq!(told(report), said("hello\n", "out"));
    let (state, report) = state.step(RunEvent::Stderr(Ok("oops\n".to_string())));
    assert_eq!(told(report), said("oops\n", "err"));
    let (state, report) = state.step(RunEvent::Stdout(Ok(String::new())));
    assert!(report.is_none());
    let (state, report) = state.step(RunEvent::Stderr(Err(outside("broken pipe"))));
    assert!(report.is_none());
    let (state, report) = state.step(RunEvent::Exited(Ok(exited(Some(3), false))));
    assert_eq!(told(report), said("Process exited with code: 3", "err"));
    assert!(matches!(state, RunState::Done(Ok(false))));
}

#[test]
fn run_succeeds_with_its_process() {
    let (state, _) = watching().step(RunEvent::Exited(Ok(exited(Some(0), true))));
    assert!(matches!(state, RunState::Done(Ok(true))));
    let (state, _) = state.step(RunEvent::Exited(Ok(exited(Some(1), false))));
    assert!(matches!(state, RunState::Done(Ok(true))));
}

#[test]
fn run_fails_where_the_process_cannot_start() {
    let (state, report) =
        RunState::start().0.step(RunEvent::Spawned(Err(outside("No such file"))));
    assert!(report.is_none());
    assert_eq!(error_of(state), "No such file");
}

#[test]
fn run_without_output_is_killed() {
    let (state, _) = RunState::start().0.step(RunEvent::Spawned(Ok(())));
    let (state, report) = state.step(RunEvent::OutputTaken(Err(Error::NoneValue)));
    assert_eq!(
        told(report),
        said("Failed to take output, error: Option was None", "err")
    );
    let (state, _) = state.step(RunEvent::Killed(Ok(())));
    assert_eq!(error_of(state), "Option was None");

    let (state, _) =
        RunState::KillUnread(Error::NoneValue).step(RunEvent::Killed(Err(outside("busy"))));
    assert_eq!(error_of(state), "busy");
}

#[test]
fn run_without_output_never_succeeds() {
    let mut state = RunState::TakeOutput.step(RunEvent::OutputTaken(Err(Error::NoneValue))).0;
    for event in [
        RunEvent::OutputTaken(Ok(())),
        RunEvent::Exited(Ok(exited(Some(0), true))),
        RunEvent::Cancelled { can_signal: true },
    ] {
        state = state.step(event).0;
        assert!(matches!(state, RunState::KillUnread(Error::NoneValue)));
    }
    let (state, _) = state.step(RunEvent::Killed(Ok(())));
    let (state, _) = state.step(RunEvent::Exited(Ok(exited(Some(0), true))));
    assert_eq!(error_of(state), "Option was None");
}

#[test]
fn run_fails_where_waiting_fails() {
    let (state, report) = watching().step(RunEvent::Exited(Err(outside("ECHILD"))));
    assert!(report.is_none());
    assert_eq!(error_of(state), "ECHILD");
    let (state, _) = watching().step(RunEvent::Exited(Ok(exited(None, false))));
    assert_eq!(error_of(state), "Option was None");
}

#[test]
fn cancelled_run_is_stopped_and_fails() {
    let (state, _) = watching().step(RunEvent::Cancelled { can_signal: true });
    let (state, _) = state.step(RunEvent::Stop(StopEvent::Pid(None)));
    let (state, _) = state.step(RunEvent::Exited(Ok(exited(Some(0), true))));
    assert!(matches!(state, RunState::Stop(StopState::Kill)));
    let (state, _) = state.step(RunEvent::Stop(StopEvent::Killed(Ok(()))));
    assert_eq!(error_of(state), "Cancelled");
}
