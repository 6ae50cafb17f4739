use pa::child::{RunEvent, RunState, StopEvent};
use pa::command::StdioMode;
use pa::config::{Cmdline, Delay, Job, Restart, SingleJob, TestCommand};
use pa::console::{Print, Report};
use pa::error::Error;
use pa::job::{DelayEvent, DelayState, JobEvent, JobState, Retry, RetryState};

fn line(s: &str) -> Cmdline {
    Cmdline::Line(s.to_string())
}

fn job(delay: Option<Delay>, restart: Option<Restart>) -> SingleJob {
    SingleJob { cmd: line("run it"), workdir: None, env: None, inherit_env: None, delay, restart }
}

fn told(report: Option<Report>) -> Option<(String, &'static str)> {
    report.map(|r| match r {
        Report::Console { text, is_err: false } => (text, "out"),
        Report::Console { text, is_err: true } => (text, "err"),
        Report::Plain(Print::Stdout(text)) => (text, "plain out"),
        Report::Plain(Print::Stderr(text)) => (text, "plain err"),
    })
}

fn said(text: &str, stream: &'static str) -> Option<(String, &'static str)> {
    Some((text.to_string(), stream))
}

#[test]
fn job_without_delay_starts_at_once() {
    let (state, report) = job(None, None).delay();
    assert!(matches!(state, DelayState::Done(Ok(()))));
    assert!(report.is_none());
    let (state, report) = Job::Cmdline(line("x")).delay();
    assert!(matches!(state, DelayState::Done(Ok(()))));
    assert!(report.is_none());
}

#[test]
fn constant_delay_sleeps() {
    let (state, report) = Job::Job(job(Some(Delay::ConstantDuration(1500)), None)).delay();
    assert_eq!(told(report), said("Sleeping for 1500ms", "err"));
    assert!(matches!(state, DelayState::Sleep(1500)));
    let (state, report) = state.step(DelayEvent::Slept);
    assert!(matches!(state, DelayState::Done(Ok(()))));
    assert!(report.is_none());
}

#[test]
fn constant_delay_is_cancelled() {
    let (state, report) = DelayState::Sleep(10).step(DelayEvent::Cancelled);
    assert_eq!(told(report), said("Cancelled", "err"));
    match &state {
        DelayState::Done(Err(e)) => assert_eq!(e.message(), "Cancelled"),
        other => panic!("{other:?}"),
    }
    let (state, _) = state.step(DelayEvent::Slept);
    assert!(matches!(state, DelayState::Done(Err(Error::Cancelled))));
}

#[test]
fn probing_goes_on_until_success() {
    let delay = Delay::Command(TestCommand { interval: 200, cmd: line("nc -z localhost 1") });
    let (state, report) = job(Some(delay), None).delay();
    assert!(report.is_none());
    let mut state = state;
    for outcome in [Ok(false), Err(Error::Outside("timeout".to_string())), Ok(false)] {
        assert!(matches!(state, DelayState::Tick(200)));
        let (probe, report) = state.step(DelayEvent::Ticked);
        assert!(report.is_none());
        assert!(matches!(probe, DelayState::Probe(200, 10_000)));
        let (next, report) = probe.step(DelayEvent::Probed(outcome));
        assert!(report.is_none());
        state = next;
    }
    let (state, _) = state.step(DelayEvent::Ticked);
    let (state, _) = state.step(DelayEvent::Probed(Ok(true)));
    assert!(matches!(state, DelayState::Done(Ok(()))));
}

#[test]
fn probe_is_the_command_that_is_waited_for() {
    let waiting = |cmd| {
        Job::Job(job(Some(Delay::Command(TestCommand { interval: 200, cmd })), None))
    };
    let timed = waiting(line("nc -z localhost 1")).probe().unwrap().unwrap();
    assert_eq!(timed.command.program, "nc");
    assert_eq!(timed.command.args, vec!["-z", "localhost", "1"]);
    assert_eq!(timed.command.stdout, None);
    assert_eq!(timed.timeout, 10_000);
    assert_eq!(
        waiting(line(" ")).probe().unwrap().unwrap_err().message(),
        "Command is empty"
    );
    assert!(Job::Job(job(Some(Delay::ConstantDuration(1)), None)).probe().is_none());
    assert!(Job::Job(job(None, None)).probe().is_none());
    assert!(Job::Cmdline(line("nc")).probe().is_none());
}

#[test]
fn only_a_command_is_tried() {
    for delay in [None, Some(Delay::ConstantDuration(1))] {
        let job = Job::Job(job(delay, None));
        assert!(job.probe().is_none());
        let (mut state, _) = job.delay();
        for event in [DelayEvent::Ticked, DelayEvent::Probed(Ok(true)), DelayEvent::Slept] {
            state = state.step(event).0;
            assert!(!matches!(state, DelayState::Probe(_, _)));
        }
    }
}

#[test]
fn success_counts_only_while_trying() {
    let (state, _) = DelayState::Tick(3).step(DelayEvent::Probed(Ok(true)));
    assert!(matches!(state, DelayState::Tick(3)));
    let (state, _) = state.step(DelayEvent::Ticked);
    let (state, _) = state.step(DelayEvent::Probed(Ok(false)));
    assert!(matches!(state, DelayState::Tick(3)));
    let (state, _) = state.step(DelayEvent::Ticked);
    let (state, _) = state.step(DelayEvent::Probed(Ok(true)));
    assert!(matches!(state, DelayState::Done(Ok(()))));
}

#[test]
fn probing_is_not_cancelled() {
    let (state, report) = DelayState::Tick(3).step(DelayEvent::Cancelled);
    assert!(matches!(state, DelayState::Tick(3)));
    assert!(report.is_none());
    let (state, _) = DelayState::Probe(3, 10_000).step(DelayEvent::Cancelled);
    assert!(matches!(state, DelayState::Probe(3, 10_000)));
}

fn runs(retry: Retry, outcomes: Vec<Result<bool, Error>>) -> (usize, RetryState) {
    let mut n = 0;
    let mut state = RetryState::Run;
    for outcome in outcomes {
        if let RetryState::Run = state {
            state = retry.run_with_retry("j", outcome).0;
            n += 1;
        }
    }
    (n, state)
}

#[test]
fn never_runs_once() {
    for outcome in [Ok(true), Ok(false), Err(Error::EmptyCommand)] {
        let (n, state) = runs(Retry::Restart(Restart::Never), vec![outcome, Ok(true)]);
        assert_eq!(n, 1);
        assert!(matches!(state, RetryState::Done(Ok(true))));
    }
}

#[test]
fn always_runs_again() {
    let outcomes = vec![Ok(true), Ok(false), Err(Error::Cancelled), Ok(true)];
    let (n, state) = runs(Retry::Restart(Restart::Always), outcomes);
    assert_eq!(n, 4);
    assert!(matches!(state, RetryState::Run));
}

#[test]
fn on_failure_runs_until_success() {
    let outcomes = vec![Ok(false), Err(Error::Cancelled), Ok(true), Ok(false)];
    let (n, state) = runs(Retry::Restart(Restart::OnFailure), outcomes);
    assert_eq!(n, 3);
    assert!(matches!(state, RetryState::Done(Ok(true))));
    let (n, state) = runs(Retry::Restart(Restart::OnFailure), vec![Ok(false), Ok(false)]);
    assert_eq!(n, 2);
    assert!(matches!(state, RetryState::Run));
}

#[test]
fn once_passes_on() {
    let (n, state) = runs(Retry::Once, vec![Ok(false), Ok(true)]);
    assert_eq!(n, 1);
    assert!(matches!(state, RetryState::Done(Ok(false))));
    match runs(Retry::Once, vec![Err(Error::EmptyCommand)]).1 {
        RetryState::Done(Err(e)) => assert_eq!(e.message(), "Command is empty"),
        other => panic!("{other:?}"),
    }
    assert!(Retry::Once.run_with_retry("j", Ok(true)).1.is_none());
}

#[test]
fn outcomes_of_runs_are_told() {
    let retry = Retry::Restart(Restart::Never);
    assert_eq!(
        told(retry.run_with_retry("db", Ok(true)).1),
        said("Job db completed successfully", "plain out")
    );
    assert_eq!(told(retry.run_with_retry("db", Ok(false)).1), said("Job failed", "err"));
    assert_eq!(
        told(retry.run_with_retry("db", Err(Error::EmptyCommand)).1),
        said("Job failed, error: Command is empty", "err")
    );
}

#[test]
fn policy_comes_from_the_job() {
    assert_eq!(Job::Cmdline(line("x")).retry(), Retry::Once);
    assert_eq!(Job::Job(job(None, None)).retry(), Retry::Restart(Restart::Never));
    assert_eq!(
        Job::Job(job(None, Some(Restart::OnFailure))).retry(),
        Retry::Restart(Restart::OnFailure)
    );
}

#[test]
fn bare_command_line_runs_as_a_job() {
    let bare = Job::Cmdline(line("run it")).attempt().unwrap();
    let full = Job::Job(job(None, None)).attempt().unwrap();
    assert_eq!(format!("{bare:?}"), format!("{full:?}"));
    assert_eq!(bare.stdout, Some(StdioMode::Piped));
    assert_eq!(
        Job::Cmdline(line(" ")).attempt().unwrap_err().message(),
        "Command is empty"
    );
}

#[test]
fn job_goes_from_delay_to_runs() {
    let (state, report) = JobState::start().step(JobEvent::Delayed(Ok(())));
    assert_eq!(state, JobState::Run);
    assert!(report.is_none());
    let (state, report) = state.step(JobEvent::Ran(Ok(false)));
    assert_eq!(state, JobState::Done);
    assert!(report.is_none());
}

#[test]
fn failed_delay_ends_the_job() {
    let (state, report) = JobState::start().step(JobEvent::Delayed(Err(Error::Cancelled)));
    assert_eq!(state, JobState::Done);
    assert_eq!(told(report), said("Failed to delay job, error: Cancelled", "err"));
    assert_eq!(state.step(JobEvent::Delayed(Ok(()))).0, JobState::Done);
}

#[test]
fn failed_run_is_told() {
    let (state, report) = JobState::Run.step(JobEvent::Ran(Err(Error::EmptyCommand)));
    assert_eq!(state, JobState::Done);
    assert_eq!(told(report), said("Failed to run job, error: Command is empty", "err"));
}

#[test]
fn cancelled_run_is_started_again_on_failure() {
    let (state, _) = RunState::Watch.step(RunEvent::Cancelled { can_signal: false });
    let (state, _) = state.step(RunEvent::Stop(StopEvent::Killed(Ok(()))));
    match state {
        RunState::Done(outcome) => {
            let (next, report) = Retry::Restart(Restart::OnFailure).run_with_retry("j", outcome);
            assert!(matches!(next, RetryState::Run));
            assert_eq!(told(report), said("Job failed, error: Cancelled", "err"));
        }
        other => panic!("{other:?}"),
    }
}
