//! The life of a job: what it waits for, and how often it runs.
use crate::command::{Command, CommandExt, TimedCommand};
use crate::config::{Cmdline, Delay, Job, Restart, SingleJob};
use crate::console::{format_to_console_err, Print, Report};
use crate::error::Error;
use crate::text::unsigned_text;
use vstd::prelude::*;

verus! {

/// How many milliseconds a command that a job waits for has to succeed in.
pub const PROBE_TIMEOUT_MS: u64 = 10000;

/// The delay of a job, by what is to be done next.
#[derive(Debug)]
pub enum DelayState {
    /// Wait for this many milliseconds, or for a cancellation.
    Sleep(u64),
    /// Wait for the next tick of a clock that ticks at once and then every so many
    /// milliseconds.
    Tick(u64),
    /// Try the command that the job waits for. The first number is the milliseconds between
    /// ticks, the second those that the command may take.
    Probe(u64, u64),
    /// The delay is over.
    Done(Result<(), Error>),
}

/// What came of a step of the delay of a job.
#[derive(Debug)]
pub enum DelayEvent {
    /// The time is over.
    Slept,
    /// The job was cancelled.
    Cancelled,
    /// The clock ticked.
    Ticked,
    /// The command was tried: it succeeded, or not, or could not be run.
    Probed(Result<bool, Error>),
}

impl crate::config::SingleJobView {
    /// The clock of the delay, if it has one, can tick: its period is not zero.
    pub open spec fn can_tick(self) -> bool {
        match self.delay {
            Some(crate::config::DelayView::Command(command)) => command.interval > 0,
            _ => true,
        }
    }

    /// The beginning of the delay.
    pub open spec fn first_delay(self) -> DelayState {
        match self.delay {
            Some(crate::config::DelayView::ConstantDuration(duration)) => DelayState::Sleep(
                duration,
            ),
            Some(crate::config::DelayView::Command(command)) => DelayState::Tick(command.interval),
            None => DelayState::Done(Ok(())),
        }
    }

    /// What is told of the beginning of the delay.
    pub open spec fn delay_tells(self) -> Option<crate::console::ReportView> {
        match self.delay {
            Some(crate::config::DelayView::ConstantDuration(duration)) => Some(
                crate::console::notice(
                    "Sleeping for "@ + crate::text::decimal(duration as nat) + "ms"@,
                ),
            ),
            _ => None,
        }
    }
}

impl crate::config::JobView {
    /// The job with all that can be said of it.
    pub open spec fn full(self) -> crate::config::SingleJobView {
        match self {
            crate::config::JobView::Cmdline(cmdline) => cmdline.job(),
            crate::config::JobView::Job(job) => job,
        }
    }

    /// How often the job runs.
    pub open spec fn retry(self) -> Retry {
        match self {
            crate::config::JobView::Cmdline(_) => Retry::Once,
            crate::config::JobView::Job(job) => Retry::Restart(
                crate::config::restart_or_never(job.restart),
            ),
        }
    }
}

impl DelayState {
    /// The state after an event. An event that does not belong to a state leaves it as it is;
    /// in particular, a cancellation does not end the wait for a command.
    pub open spec fn next(self, event: DelayEvent) -> DelayState {
        match (self, event) {
            (DelayState::Sleep(_), DelayEvent::Slept) => DelayState::Done(Ok(())),
            (DelayState::Sleep(_), DelayEvent::Cancelled) => DelayState::Done(
                Err(Error::Cancelled),
            ),
            (DelayState::Tick(interval), DelayEvent::Ticked) => DelayState::Probe(
                interval,
                PROBE_TIMEOUT_MS,
            ),
            (DelayState::Probe(interval, _), DelayEvent::Probed(outcome)) => if outcome == Ok::<
                bool,
                Error,
            >(true) {
                DelayState::Done(Ok(()))
            } else {
                DelayState::Tick(interval)
            },
            _ => self,
        }
    }

    /// What is told of an event.
    pub open spec fn tells(self, event: DelayEvent) -> Option<crate::console::ReportView> {
        match (self, event) {
            (DelayState::Sleep(_), DelayEvent::Cancelled) => Some(
                crate::console::notice("Cancelled"@),
            ),
            _ => None,
        }
    }

    /// The state after a number of events.
    pub open spec fn after(self, events: Seq<DelayEvent>) -> DelayState
        decreases events.len(),
    {
        if events.len() == 0 {
            self
        } else {
            self.after(events.drop_last()).next(events.last())
        }
    }

    /// Goes on with an event.
    pub fn step(self, event: DelayEvent) -> (r: (DelayState, Option<Report>))
        ensures
            r.0 == self.next(event),
            crate::console::report_view(r.1) == self.tells(event),
    {
        match (self, event) {
            (DelayState::Sleep(_), DelayEvent::Slept) => (DelayState::Done(Ok(())), None),
            (DelayState::Sleep(_), DelayEvent::Cancelled) => (
                DelayState::Done(Err(Error::Cancelled)),
                Some(format_to_console_err("Cancelled".to_owned())),
            ),
            (DelayState::Tick(interval), DelayEvent::Ticked) => (
                DelayState::Probe(interval, PROBE_TIMEOUT_MS),
                None,
            ),
            (DelayState::Probe(_, _), DelayEvent::Probed(Ok(true))) => (
                DelayState::Done(Ok(())),
                None,
            ),
            (DelayState::Probe(interval, _), DelayEvent::Probed(_)) => (
                DelayState::Tick(interval),
                None,
            ),
            (state, _) => (state, None),
        }
    }
}

impl Cmdline {
    /// A bare command line waits for nothing.
    pub fn delay(&self) -> (r: (DelayState, Option<Report>))
        ensures
            r.0 == self@.job().first_delay(),
            r.0 == DelayState::Done(Ok(())),
            r.1 is None,
    {
        (DelayState::Done(Ok(())), None)
    }

    /// The command of a bare command line that runs as a job.
    pub fn run_with_retry(&self) -> (r: Result<Command, Error>)
        ensures
            crate::command::is_command_of(
                r,
                self@.words(),
                crate::command::command_of_job(self@.job()),
            ),
    {
        let job = SingleJob {
            cmd: self.clone(),
            workdir: None,
            env: None,
            inherit_env: None,
            delay: None,
            restart: None,
        };
        job.try_into()
    }
}

impl SingleJob {
    /// The beginning of the delay, and what is told of it.
    pub fn delay(&self) -> (r: (DelayState, Option<Report>))
        requires
            self@.can_tick(),
        ensures
            r.0 == self@.first_delay(),
            crate::console::report_view(r.1) == self@.delay_tells(),
    {
        match &self.delay {
            Some(Delay::ConstantDuration(duration)) => {
                let text = "Sleeping for ".to_owned().concat(
                    unsigned_text(*duration).as_str(),
                ).concat("ms");
                (DelayState::Sleep(*duration), Some(format_to_console_err(text)))
            },
            Some(Delay::Command(command)) => (DelayState::Tick(command.interval), None),
            None => (DelayState::Done(Ok(())), None),
        }
    }
}

/// `r` is one try of the command that a job with the delay `delay` waits for, with the
/// milliseconds that it may take; where the command has no words, the error that says so. A job
/// that waits for no command has none to try.
pub open spec fn is_probe_of(
    r: Option<Result<TimedCommand, Error>>,
    delay: Option<crate::config::DelayView>,
) -> bool {
    match delay {
        Some(crate::config::DelayView::Command(command)) => {
            let words = command.cmd.words();
            if words.len() > 0 {
                r matches Some(Ok(timed)) && timed.command@ == crate::command::command_of_words(
                    words,
                ) && timed.timeout == PROBE_TIMEOUT_MS
            } else {
                r == Some(Err::<TimedCommand, Error>(Error::EmptyCommand))
            }
        },
        _ => r is None,
    }
}

impl SingleJob {
    /// One try of the command that the job waits for, if it waits for one.
    pub fn probe(&self) -> (r: Option<Result<TimedCommand, Error>>)
        ensures
            is_probe_of(r, self@.delay),
    {
        match &self.delay {
            Some(Delay::Command(command)) => Some(command.cmd.success(PROBE_TIMEOUT_MS)),
            _ => None,
        }
    }
}

impl Job {
    /// One try of the command that the job waits for, if it waits for one.
    pub fn probe(&self) -> (r: Option<Result<TimedCommand, Error>>)
        ensures
            is_probe_of(r, self@.full().delay),
    {
        match self {
            Job::Cmdline(_) => None,
            Job::Job(job) => job.probe(),
        }
    }

    /// The beginning of the delay, and what is told of it.
    pub fn delay(&self) -> (r: (DelayState, Option<Report>))
        requires
            self@.full().can_tick(),
        ensures
            r.0 == self@.full().first_delay(),
            crate::console::report_view(r.1) == self@.full().delay_tells(),
    {
        match self {
            Job::Cmdline(cmdline) => cmdline.delay(),
            Job::Job(job) => job.delay(),
        }
    }

    /// How often the job runs.
    pub fn retry(&self) -> (r: Retry)
        ensures
            r == self@.retry(),
    {
        match self {
            Job::Cmdline(_) => Retry::Once,
            Job::Job(job) => Retry::Restart(Restart::from(job.restart)),
        }
    }

    /// The command of one run of the job.
    pub fn attempt(&self) -> (r: Result<Command, Error>)
        ensures
            crate::command::is_command_of(
                r,
                self@.full().cmd.words(),
                crate::command::command_of_job(self@.full()),
            ),
    {
        match self {
            Job::Cmdline(cmdline) => cmdline.run_with_retry(),
            Job::Job(job) => job.run(),
        }
    }
}

/// How often a job runs.
#[derive(Debug, Clone, Copy, PartialEq, Eq, Structural)]
pub enum Retry {
    /// Once, and what comes of it is passed on.
    Once,
    /// As often as the policy says.
    Restart(Restart),
}

/// The runs of a job, by what is to be done next.
#[derive(Debug)]
pub enum RetryState {
    /// Run it.
    Run,
    /// There is no further run.
    Done(Result<bool, Error>),
}

impl Retry {
    /// What follows a run with this outcome.
    pub open spec fn next(self, outcome: Result<bool, Error>) -> RetryState {
        match self {
            Retry::Once => RetryState::Done(outcome),
            Retry::Restart(Restart::Always) => RetryState::Run,
            Retry::Restart(Restart::Never) => RetryState::Done(Ok(true)),
            Retry::Restart(Restart::OnFailure) => if outcome == Ok::<bool, Error>(true) {
                RetryState::Done(Ok(true))
            } else {
                RetryState::Run
            },
        }
    }

    /// What is told of a run of the job `name` with this outcome.
    pub open spec fn tells(self, name: Seq<char>, outcome: Result<bool, Error>) -> Option<
        crate::console::ReportView,
    > {
        match (self, outcome) {
            (Retry::Once, _) => None,
            (Retry::Restart(_), Ok(true)) => Some(
                crate::console::ReportView::Plain(
                    crate::console::PrintView::Stdout(
                        "Job "@ + name + " completed successfully"@,
                    ),
                ),
            ),
            (Retry::Restart(_), Ok(false)) => Some(crate::console::notice("Job failed"@)),
            (Retry::Restart(_), Err(e)) => Some(
                crate::console::notice("Job failed, error: "@ + e.text()),
            ),
        }
    }

    /// What follows runs with these outcomes, as far as they come about.
    pub open spec fn after(self, outcomes: Seq<Result<bool, Error>>) -> RetryState
        decreases outcomes.len(),
    {
        if outcomes.len() == 0 {
            RetryState::Run
        } else {
            match self.after(outcomes.drop_last()) {
                RetryState::Run => self.next(outcomes.last()),
                done => done,
            }
        }
    }

    /// Goes on after a run of the job `name`.
    pub fn run_with_retry(self, name: &str, outcome: Result<bool, Error>) -> (r: (
        RetryState,
        Option<Report>,
    ))
        ensures
            r.0 == self.next(outcome),
            crate::console::report_view(r.1) == self.tells(name@, outcome),
    {
        match self {
            Retry::Once => (RetryState::Done(outcome), None),
            Retry::Restart(restart) => {
                let (success, report) = match outcome {
                    Ok(true) => (
                        true,
                        Report::Plain(
                            Print::Stdout(
                                "Job ".to_owned().concat(name).concat(" completed successfully"),
                            ),
                        ),
                    ),
                    Ok(false) => (false, format_to_console_err("Job failed".to_owned())),
                    Err(e) => (
                        false,
                        format_to_console_err(
                            "Job failed, error: ".to_owned().concat(e.message().as_str()),
                        ),
                    ),
                };
                let state = match restart {
                    Restart::Always => RetryState::Run,
                    Restart::Never => RetryState::Done(Ok(true)),
                    Restart::OnFailure => if success {
                        RetryState::Done(Ok(true))
                    } else {
                        RetryState::Run
                    },
                };
                (state, Some(report))
            },
        }
    }
}

/// A job, by what is to be done next.
#[derive(Debug, Clone, Copy, PartialEq, Eq, Structural)]
pub enum JobState {
    /// Go through its delay.
    Delay,
    /// Go through its runs.
    Run,
    /// It is over.
    Done,
}

/// What came of a part of a job.
#[derive(Debug)]
pub enum JobEvent {
    /// The delay is over.
    Delayed(Result<(), Error>),
    /// There is no further run.
    Ran(Result<bool, Error>),
}

impl JobState {
    /// The state after an event. An event that does not belong to a state leaves it as it is.
    pub open spec fn next(self, event: JobEvent) -> JobState {
        match (self, event) {
            (JobState::Delay, JobEvent::Delayed(Ok(_))) => JobState::Run,
            (JobState::Delay, JobEvent::Delayed(Err(_))) => JobState::Done,
            (JobState::Run, JobEvent::Ran(_)) => JobState::Done,
            _ => self,
        }
    }

    /// What is told of an event.
    pub open spec fn tells(self, event: JobEvent) -> Option<crate::console::ReportView> {
        match (self, event) {
            (JobState::Delay, JobEvent::Delayed(Err(e))) => Some(
                crate::console::notice("Failed to delay job, error: "@ + e.text()),
            ),
            (JobState::Run, JobEvent::Ran(Err(e))) => Some(
                crate::console::notice("Failed to run job, error: "@ + e.text()),
            ),
            _ => None,
        }
    }

    /// The state after a number of events.
    pub open spec fn after(self, events: Seq<JobEvent>) -> JobState
        decreases events.len(),
    {
        if events.len() == 0 {
            self
        } else {
            self.after(events.drop_last()).next(events.last())
        }
    }

    /// The beginning.
    pub fn start() -> (r: JobState)
        ensures
            r == JobState::Delay,
    {
        JobState::Delay
    }

    /// Goes on with an event.
    pub fn step(self, event: JobEvent) -> (r: (JobState, Option<Report>))
        ensures
            r.0 == self.next(event),
            crate::console::report_view(r.1) == self.tells(event),
    {
        match (self, event) {
            (JobState::Delay, JobEvent::Delayed(Ok(_))) => (JobState::Run, None),
            (JobState::Delay, JobEvent::Delayed(Err(e))) => (
                JobState::Done,
                Some(
                    format_to_console_err(
                        "Failed to delay job, error: ".to_owned().concat(e.message().as_str()),
                    ),
                ),
            ),
            (JobState::Run, JobEvent::Ran(Ok(_))) => (JobState::Done, None),
            (JobState::Run, JobEvent::Ran(Err(e))) => (
                JobState::Done,
                Some(
                    format_to_console_err(
                        "Failed to run job, error: ".to_owned().concat(e.message().as_str()),
                    ),
                ),
            ),
            (state, _) => (state, None),
        }
    }
}

/// A bare command line runs as the job that says nothing more: with the same command, after the
/// same delay, which is none.
pub proof fn law_cmdline_is_job(cmdline: crate::config::CmdlineView)
    ensures
        crate::config::JobView::Cmdline(cmdline).full() == crate::config::JobView::Job(
            cmdline.job(),
        ).full(),
        cmdline.job().can_tick(),
        cmdline.job().first_delay() == DelayState::Done(Ok(())),
        cmdline.job().delay_tells() is None,
        !crate::command::command_of_job(cmdline.job()).env_clear,
{
}

/// A delay of a number of milliseconds ends with the time, or fails at the first cancellation
/// before that, whatever else happens.
pub proof fn law_sleep_ends(ms: u64, events: Seq<DelayEvent>, i: int)
    requires
        0 <= i < events.len(),
        events[i] is Slept || events[i] is Cancelled,
        forall|j: int| 0 <= j < i ==> !((#[trigger] events[j]) is Slept || events[j] is Cancelled),
    ensures
        DelayState::Sleep(ms).after(events) == DelayState::Done(
            if events[i] is Slept {
                Ok::<(), Error>(())
            } else {
                Err(Error::Cancelled)
            },
        ),
    decreases events.len(),
{
    let front = events.drop_last();
    if i < front.len() {
        law_sleep_ends(ms, front, i);
    } else {
        lemma_sleep_goes_on(ms, front);
    }
}

proof fn lemma_sleep_goes_on(ms: u64, events: Seq<DelayEvent>)
    requires
        forall|j: int|
            0 <= j < events.len() ==> !((#[trigger] events[j]) is Slept || events[j] is Cancelled),
    ensures
        DelayState::Sleep(ms).after(events) == DelayState::Sleep(ms),
    decreases events.len(),
{
    if events.len() > 0 {
        lemma_sleep_goes_on(ms, events.drop_last());
        assert(!(events[events.len() - 1] is Slept));
    }
}

/// A delay that waits for a command never fails, and it ends only with a try that was made and
/// succeeded.
pub proof fn law_probing_ends_with_success(interval: u64, events: Seq<DelayEvent>)
    ensures
        match DelayState::Tick(interval).after(events) {
            DelayState::Sleep(_) => false,
            DelayState::Tick(i) => i == interval,
            DelayState::Probe(i, timeout) => i == interval && timeout == PROBE_TIMEOUT_MS,
            DelayState::Done(r) => r == Ok::<(), Error>(()) && exists|i: int|
                0 <= i < events.len() && (#[trigger] DelayState::Tick(interval).after(
                    events.take(i),
                )) is Probe && events[i] == DelayEvent::Probed(Ok(true)),
        },
    decreases events.len(),
{
    if events.len() > 0 {
        let front = events.drop_last();
        let last = events.len() - 1;
        law_probing_ends_with_success(interval, front);
        assert(events.take(last) =~= front);
        if DelayState::Tick(interval).after(front) is Done {
            let i = choose|i: int|
                0 <= i < front.len() && (#[trigger] DelayState::Tick(interval).after(
                    front.take(i),
                )) is Probe && front[i] == DelayEvent::Probed(Ok(true));
            assert(events.take(i) =~= front.take(i));
        } else if DelayState::Tick(interval).after(events) is Done {
            assert(DelayState::Tick(interval).after(events.take(last)) is Probe);
        }
    }
}

/// A try that succeeds ends the delay, one that does not leads to the next tick, and a
/// cancellation changes nothing.
pub proof fn law_probing_steps(interval: u64, outcome: Result<bool, Error>)
    ensures
        DelayState::Tick(interval).next(DelayEvent::Ticked) == DelayState::Probe(
            interval,
            PROBE_TIMEOUT_MS,
        ),
        DelayState::Probe(interval, PROBE_TIMEOUT_MS).next(DelayEvent::Probed(outcome)) == if outcome
            == Ok::<bool, Error>(true) {
            DelayState::Done(Ok(()))
        } else {
            DelayState::Tick(interval)
        },
        DelayState::Tick(interval).next(DelayEvent::Cancelled) == DelayState::Tick(interval),
        DelayState::Probe(interval, PROBE_TIMEOUT_MS).next(DelayEvent::Cancelled)
            == DelayState::Probe(interval, PROBE_TIMEOUT_MS),
{
}

/// A delay comes to a try only where the job waits for a command, so that there is one to try.
pub proof fn law_probe_has_command(job: crate::config::SingleJobView, events: Seq<DelayEvent>)
    requires
        job.first_delay().after(events) is Probe,
    ensures
        job.delay matches Some(crate::config::DelayView::Command(_)),
        forall|r: Option<Result<TimedCommand, Error>>| #[trigger]
            is_probe_of(r, job.delay) ==> r is Some,
{
    lemma_no_probe_without_command(job, events);
}

proof fn lemma_no_probe_without_command(
    job: crate::config::SingleJobView,
    events: Seq<DelayEvent>,
)
    ensures
        match job.first_delay().after(events) {
            DelayState::Tick(_) | DelayState::Probe(_, _) => {
                job.delay matches Some(crate::config::DelayView::Command(_))
            },
            _ => true,
        },
    decreases events.len(),
{
    if events.len() > 0 {
        lemma_no_probe_without_command(job, events.drop_last());
    }
}

/// A job that is not started again runs once, and whatever comes of it, the job is over.
pub proof fn law_never_runs_once(outcomes: Seq<Result<bool, Error>>)
    requires
        outcomes.len() > 0,
    ensures
        Retry::Restart(Restart::Never).after(outcomes) == RetryState::Done(Ok(true)),
    decreases outcomes.len(),
{
    reveal_with_fuel(Retry::after, 2);
    if outcomes.len() > 1 {
        law_never_runs_once(outcomes.drop_last());
    }
}

/// A job that is always started again is never over, not even when its runs are cancelled.
pub proof fn law_always_runs_again(outcomes: Seq<Result<bool, Error>>)
    ensures
        Retry::Restart(Restart::Always).after(outcomes) is Run,
    decreases outcomes.len(),
{
    if outcomes.len() > 0 {
        law_always_runs_again(outcomes.drop_last());
    }
}

/// A job that is started again on failure is over exactly when one of its runs succeeded.
pub proof fn law_on_failure_runs_until_success(outcomes: Seq<Result<bool, Error>>)
    ensures
        Retry::Restart(Restart::OnFailure).after(outcomes) == if exists|i: int|
            0 <= i < outcomes.len() && #[trigger] outcomes[i] == Ok::<bool, Error>(true) {
            RetryState::Done(Ok(true))
        } else {
            RetryState::Run
        },
    decreases outcomes.len(),
{
    if outcomes.len() > 0 {
        let front = outcomes.drop_last();
        law_on_failure_runs_until_success(front);
        if exists|i: int| 0 <= i < front.len() && #[trigger] front[i] == Ok::<bool, Error>(true) {
            let i = choose|i: int|
                0 <= i < front.len() && #[trigger] front[i] == Ok::<bool, Error>(true);
            assert(outcomes[i] == Ok::<bool, Error>(true));
        } else if outcomes.last() == Ok::<bool, Error>(true) {
            assert(outcomes[outcomes.len() - 1] == Ok::<bool, Error>(true));
        } else {
            assert forall|i: int| 0 <= i < outcomes.len() implies #[trigger] outcomes[i] != Ok::<
                bool,
                Error,
            >(true) by {
                if i < front.len() {
                    assert(front[i] == outcomes[i]);
                }
            }
        }
    }
}

/// However the runs of a job with a restart policy came out, when there is no further run it
/// counts as a success.
pub proof fn law_restarts_end_in_success(restart: Restart, outcomes: Seq<Result<bool, Error>>)
    ensures
        match Retry::Restart(restart).after(outcomes) {
            RetryState::Run => true,
            RetryState::Done(r) => r == Ok::<bool, Error>(true),
        },
    decreases outcomes.len(),
{
    if outcomes.len() > 0 {
        law_restarts_end_in_success(restart, outcomes.drop_last());
    }
}

/// A run that was cancelled while its process was watched counts as a failure: after it, a job
/// that is started again on failure, or always, runs once more.
pub proof fn law_cancelled_run_is_restarted(
    can_signal: bool,
    events: Seq<crate::child::RunEvent>,
    outcome: Result<bool, Error>,
)
    requires
        crate::child::RunState::Watch.next(
            crate::child::RunEvent::Cancelled { can_signal },
        ).after(events) == crate::child::RunState::Done(outcome),
    ensures
        Retry::Restart(Restart::OnFailure).next(outcome) is Run,
        Retry::Restart(Restart::Always).next(outcome) is Run,
        Retry::Restart(Restart::Never).next(outcome) is Done,
{
    crate::child::law_cancelled_run_fails(can_signal, events);
}

/// The outcome of a bare command line is that of its one run.
pub proof fn law_once_passes_on(outcomes: Seq<Result<bool, Error>>)
    requires
        outcomes.len() > 0,
    ensures
        Retry::Once.after(outcomes) == RetryState::Done(outcomes[0]),
    decreases outcomes.len(),
{
    reveal_with_fuel(Retry::after, 2);
    if outcomes.len() > 1 {
        law_once_passes_on(outcomes.drop_last());
    }
}

/// A job whose delay failed never runs.
pub proof fn law_failed_delay_never_runs(e: Error, events: Seq<JobEvent>)
    ensures
        JobState::Delay.next(JobEvent::Delayed(Err(e))).after(events) is Done,
    decreases events.len(),
{
    if events.len() > 0 {
        law_failed_delay_never_runs(e, events.drop_last());
    }
}

/// How a delay begins depends on the delay alone: a number of milliseconds begins with a sleep of
/// just that number, a command with the tick of a clock with its interval, and without a delay
/// there is nothing to wait for.
pub proof fn law_delay_begins(a: crate::config::SingleJobView, b: crate::config::SingleJobView)
    ensures
        a.delay == b.delay ==> a.first_delay() == b.first_delay() && a.delay_tells()
            == b.delay_tells(),
        a.delay matches Some(crate::config::DelayView::ConstantDuration(ms)) ==> a.first_delay()
            == DelayState::Sleep(ms),
        a.delay matches Some(crate::config::DelayView::Command(command)) ==> a.first_delay()
            == DelayState::Tick(command.interval),
        a.delay is None ==> a.first_delay() == DelayState::Done(Ok(())),
{
}

/// A job is held back by the delay that it states, whatever else it says, and a sleep is told with
/// its length.
pub proof fn law_job_waits(job: SingleJob, r: (DelayState, Option<Report>))
    requires
        call_ensures(SingleJob::delay, (&job,), r),
    ensures
        match job.delay {
            Some(Delay::ConstantDuration(ms)) => r.0 == DelayState::Sleep(ms) && (
            r.1 matches Some(Report::Console { text, is_err }) && is_err && text@
                == "Sleeping for "@ + crate::text::decimal(ms as nat) + "ms"@),
            Some(Delay::Command(command)) => r.0 == DelayState::Tick(command.interval)
                && r.1 is None,
            None => r.0 == DelayState::Done(Ok(())) && r.1 is None,
        },
{
}

/// A bare command line is not held back, and a job with a full description is held back as that
/// says.
pub proof fn law_any_job_waits(job: Job, r: (DelayState, Option<Report>))
    requires
        call_ensures(Job::delay, (&job,), r),
    ensures
        match job {
            Job::Cmdline(_) => r.0 == DelayState::Done(Ok(())) && r.1 is None,
            Job::Job(job) => match job.delay {
                Some(Delay::ConstantDuration(ms)) => r.0 == DelayState::Sleep(ms) && (
                r.1 matches Some(Report::Console { text, is_err }) && is_err && text@
                    == "Sleeping for "@ + crate::text::decimal(ms as nat) + "ms"@),
                Some(Delay::Command(command)) => r.0 == DelayState::Tick(command.interval)
                    && r.1 is None,
                None => r.0 == DelayState::Done(Ok(())) && r.1 is None,
            },
        },
{
}

/// A bare command line is not held back, and nothing is told of that.
pub proof fn law_cmdline_waits_for_nothing(cmdline: Cmdline, r: (DelayState, Option<Report>))
    requires
        call_ensures(Cmdline::delay, (&cmdline,), r),
    ensures
        r.0 == DelayState::Done(Ok(())),
        r.1 is None,
{
}

/// What each step of a delay leads to: a sleep ends with the time, or fails with a cancellation; a
/// tick leads to a try of ten seconds at most; a try that succeeds ends the delay, and any other
/// leads to the next tick of the same clock. No other event moves a delay.
pub proof fn law_delay_steps(state: DelayState, event: DelayEvent, r: (DelayState, Option<Report>))
    requires
        call_ensures(DelayState::step, (state, event), r),
    ensures
        r.0 == state.next(event),
        state is Sleep && event is Slept ==> r.0 == DelayState::Done(Ok(())),
        state is Sleep && event is Cancelled ==> r.0 == DelayState::Done(Err(Error::Cancelled)),
        state matches DelayState::Tick(ms) ==> (event is Ticked ==> r.0 == DelayState::Probe(
            ms,
            10_000,
        )),
        state matches DelayState::Probe(ms, _) ==> (event matches DelayEvent::Probed(outcome)
            ==> r.0 == if outcome == Ok::<bool, Error>(true) {
            DelayState::Done(Ok(()))
        } else {
            DelayState::Tick(ms)
        }),
        !(state is Sleep && (event is Slept || event is Cancelled) || state is Tick && event
            is Ticked || state is Probe && event is Probed) ==> r.0 == state,
{
}

/// Of the steps of a delay, only the cancellation of a sleep is told.
pub proof fn law_delay_tells(state: DelayState, event: DelayEvent, r: (DelayState, Option<Report>))
    requires
        call_ensures(DelayState::step, (state, event), r),
    ensures
        r.1 is Some <==> state is Sleep && event is Cancelled,
        r.1 matches Some(report) ==> (report matches Report::Console { text, is_err } && is_err
            && text@ == "Cancelled"@),
{
}

/// A delay that is over stays as it is.
pub proof fn law_delay_done_stays(r: Result<(), Error>, events: Seq<DelayEvent>)
    ensures
        DelayState::Done(r).after(events) == DelayState::Done(r),
    decreases events.len(),
{
    if events.len() > 0 {
        law_delay_done_stays(r, events.drop_last());
    }
}

/// What a job tries while it waits is the command of its delay, and not its own, with ten seconds
/// for it: its words are the program and the arguments, and nothing else of the process is
/// changed.
pub proof fn law_job_tries(job: SingleJob, r: Option<Result<TimedCommand, Error>>)
    requires
        call_ensures(SingleJob::probe, (&job,), r),
    ensures
        match job.delay {
            Some(Delay::Command(command)) => {
                let words = match command.cmd {
                    Cmdline::Line(line) => crate::text::words(line@),
                    Cmdline::Array(array) => array.deep_view(),
                };
                if words.len() == 0 {
                    r == Some(Err::<TimedCommand, Error>(Error::EmptyCommand))
                } else {
                    r matches Some(Ok(timed)) && timed.timeout == 10_000
                        && timed.command.program@ == words[0] && timed.command.args.deep_view()
                        == words.subrange(1, words.len() as int) && timed.command.kill_on_drop
                        && timed.command.workdir is None && !timed.command.env_clear
                        && timed.command.envs is None && timed.command.stdin is None
                        && timed.command.stdout is None && timed.command.stderr is None
                }
            },
            _ => r is None,
        },
{
}

/// A bare command line tries nothing, and a job with a full description tries what that says.
pub proof fn law_any_job_tries(
    job: Job,
    full: SingleJob,
    r: Option<Result<TimedCommand, Error>>,
    tried: Option<Result<TimedCommand, Error>>,
)
    requires
        call_ensures(Job::probe, (&job,), r),
        call_ensures(SingleJob::probe, (&full,), tried),
    ensures
        job is Cmdline ==> r is None,
        job == Job::Job(full) ==> (r is Some <==> full.delay matches Some(Delay::Command(_))),
        job == Job::Job(full) ==> match (r, tried) {
            (Some(Ok(a)), Some(Ok(b))) => a.timeout == b.timeout && a.command@ == b.command@,
            _ => r == tried,
        },
{
}

/// The policy that a job runs under is the one that it states, and that it is not started again
/// where it states none; a bare command line runs once.
pub proof fn law_policy_is_as_stated(job: Job, r: Retry)
    requires
        call_ensures(Job::retry, (&job,), r),
    ensures
        match job {
            Job::Cmdline(_) => r == Retry::Once,
            Job::Job(job) => match job.restart {
                Some(policy) => r == Retry::Restart(policy),
                None => r == Retry::Restart(Restart::Never),
            },
        },
{
}

/// The policy depends on nothing but what the job says of it.
pub proof fn law_policy_of_full_job(job: crate::config::SingleJobView)
    ensures
        job.restart matches Some(policy) ==> crate::config::JobView::Job(job).retry()
            == Retry::Restart(policy),
        job.restart is None ==> crate::config::JobView::Job(job).retry() == Retry::Restart(
            Restart::Never,
        ),
{
}

/// How often a job runs, by what it states: one that says `Always` is never over, one that says
/// `OnFailure` is over exactly when one of its runs succeeded, and any other is over with its
/// first run. Only the outcome of a bare command line is passed on.
pub proof fn law_job_runs_as_stated(job: Job, retry: Retry, outcomes: Seq<Result<bool, Error>>)
    requires
        call_ensures(Job::retry, (&job,), retry),
        outcomes.len() > 0,
    ensures
        match job {
            Job::Cmdline(_) => retry.after(outcomes) == RetryState::Done(outcomes[0]),
            Job::Job(job) => match job.restart {
                Some(Restart::Always) => retry.after(outcomes) is Run,
                Some(Restart::OnFailure) => retry.after(outcomes) == if outcomes.contains(
                    Ok::<bool, Error>(true),
                ) {
                    RetryState::Done(Ok(true))
                } else {
                    RetryState::Run
                },
                _ => retry.after(outcomes) == RetryState::Done(Ok(true)),
            },
        },
{
    law_never_runs_once(outcomes);
    law_always_runs_again(outcomes);
    law_on_failure_runs_until_success(outcomes);
    law_once_passes_on(outcomes);
    if outcomes.contains(Ok::<bool, Error>(true)) {
        let i = choose|i: int| 0 <= i < outcomes.len() && outcomes[i] == Ok::<bool, Error>(true);
        assert(outcomes[i] == Ok::<bool, Error>(true));
    }
}

/// What follows a run, by the policy: always another run, never one, or one exactly where the run
/// did not succeed. A bare command line ends with the outcome of its run.
pub proof fn law_run_is_followed(
    retry: Retry,
    name: &str,
    outcome: Result<bool, Error>,
    r: (RetryState, Option<Report>),
)
    requires
        call_ensures(Retry::run_with_retry, (retry, name, outcome), r),
    ensures
        r.0 == retry.next(outcome),
        r.0 is Run <==> retry == Retry::Restart(Restart::Always) || (retry == Retry::Restart(
            Restart::OnFailure,
        ) && outcome != Ok::<bool, Error>(true)),
        r.0 matches RetryState::Done(result) ==> result == if retry is Once {
            outcome
        } else {
            Ok(true)
        },
{
}

/// Every run of a job with a policy is told, whatever the policy is: a success as it is, with the
/// name of the job, and a failure on the console, with the error where there is one. The one run
/// of a bare command line is not.
pub proof fn law_run_is_told(
    retry: Retry,
    name: &str,
    outcome: Result<bool, Error>,
    r: (RetryState, Option<Report>),
)
    requires
        call_ensures(Retry::run_with_retry, (retry, name, outcome), r),
    ensures
        r.1 is None <==> retry is Once,
        r.1 matches Some(report) ==> match outcome {
            Ok(true) => report matches Report::Plain(Print::Stdout(text)) && text@ == "Job "@
                + name@ + " completed successfully"@,
            Ok(false) => report matches Report::Console { text, is_err } && is_err && text@
                == "Job failed"@,
            Err(e) => report matches Report::Console { text, is_err } && is_err && text@
                == "Job failed, error: "@ + e.text(),
        },
{
}

/// The command of a run of a job is its own command, in its directory and environment; that of a
/// bare command line says nothing of either. Both have no input and both outputs on pipes, and
/// without a word there is no command.
pub proof fn law_attempt_runs_the_job(job: Job, r: Result<Command, Error>)
    requires
        call_ensures(Job::attempt, (&job,), r),
    ensures
        ({
            let cmd = match job {
                Job::Cmdline(cmd) => cmd,
                Job::Job(job) => job.cmd,
            };
            let words = match cmd {
                Cmdline::Line(line) => crate::text::words(line@),
                Cmdline::Array(array) => array.deep_view(),
            };
            if words.len() == 0 {
                r == Err::<Command, Error>(Error::EmptyCommand)
            } else {
                r matches Ok(command) && command.program@ == words[0] && command.args.deep_view()
                    == words.subrange(1, words.len() as int) && command.kill_on_drop
                    && command.stdin == Some(crate::command::StdioMode::Null) && command.stdout
                    == Some(crate::command::StdioMode::Piped) && command.stderr == Some(
                    crate::command::StdioMode::Piped,
                ) && match job {
                    Job::Cmdline(_) => command.workdir is None && !command.env_clear
                        && command.envs is None,
                    Job::Job(job) => (match (job.workdir, command.workdir) {
                        (Some(stated), Some(set)) => stated@ == set@,
                        (None, None) => true,
                        _ => false,
                    }) && (match (job.env, command.envs) {
                        (Some(stated), Some(set)) => stated@ == set@,
                        (None, None) => true,
                        _ => false,
                    }) && (command.env_clear <==> job.inherit_env == Some(false)),
                }
            }
        }),
{
}

/// The command of a bare command line is that of the job that states nothing more.
pub proof fn law_cmdline_runs_as_job(
    cmdline: Cmdline,
    job: SingleJob,
    bare: Result<Command, Error>,
    full: Result<Command, Error>,
)
    requires
        job.cmd@ == cmdline@,
        job.workdir is None,
        job.env is None,
        job.inherit_env is None,
        call_ensures(Cmdline::run_with_retry, (&cmdline,), bare),
        call_ensures(SingleJob::try_into, (job,), full),
    ensures
        match (bare, full) {
            (Ok(a), Ok(b)) => a@ == b@,
            _ => bare == full,
        },
{
}

/// A job begins with its delay.
pub proof fn law_job_begins(r: JobState)
    requires
        call_ensures(JobState::start, (), r),
    ensures
        r == JobState::Delay,
{
}

/// What each part of a job leads to: a delay that is over leads to the runs, one that failed to
/// the end, and so do the runs, whatever came of them. No other event moves a job.
pub proof fn law_job_steps(state: JobState, event: JobEvent, r: (JobState, Option<Report>))
    requires
        call_ensures(JobState::step, (state, event), r),
    ensures
        r.0 == state.next(event),
        state is Delay ==> (event matches JobEvent::Delayed(delayed) ==> r.0 == if delayed is Ok {
            JobState::Run
        } else {
            JobState::Done
        }),
        state is Run && event is Ran ==> r.0 is Done,
        !(state is Delay && event is Delayed || state is Run && event is Ran) ==> r.0 == state,
{
}

/// Of a job only its failures are told: that of its delay, and that of its runs, with the error.
pub proof fn law_job_tells(state: JobState, event: JobEvent, r: (JobState, Option<Report>))
    requires
        call_ensures(JobState::step, (state, event), r),
    ensures
        match (state, event) {
            (JobState::Delay, JobEvent::Delayed(Err(e))) => {
                r.1 matches Some(Report::Console { text, is_err }) && is_err && text@
                    == "Failed to delay job, error: "@ + e.text()
            },
            (JobState::Run, JobEvent::Ran(Err(e))) => {
                r.1 matches Some(Report::Console { text, is_err }) && is_err && text@
                    == "Failed to run job, error: "@ + e.text()
            },
            _ => r.1 is None,
        },
{
}

/// A job is over as soon as there is no further run, whatever came of its runs, and stays so.
pub proof fn law_job_ends_with_its_runs(outcome: Result<bool, Error>, events: Seq<JobEvent>)
    ensures
        JobState::Run.next(JobEvent::Ran(outcome)) is Done,
        JobState::Delay.next(JobEvent::Delayed(Ok(()))).next(JobEvent::Ran(outcome)).after(events)
            is Done,
    decreases events.len(),
{
    if events.len() > 0 {
        law_job_ends_with_its_runs(outcome, events.drop_last());
    }
}

/// A job whose delay is over runs until its runs are over, and not longer.
pub proof fn law_job_runs_until_over(events: Seq<JobEvent>)
    ensures
        JobState::Delay.next(JobEvent::Delayed(Ok(()))).after(events) == if exists|i: int|
            0 <= i < events.len() && (#[trigger] events[i]) is Ran {
            JobState::Done
        } else {
            JobState::Run
        },
    decreases events.len(),
{
    if events.len() > 0 {
        let front = events.drop_last();
        law_job_runs_until_over(front);
        assert(events[events.len() - 1] == events.last());
        if exists|i: int| 0 <= i < front.len() && (#[trigger] front[i]) is Ran {
            let i = choose|i: int| 0 <= i < front.len() && (#[trigger] front[i]) is Ran;
            assert(events[i] is Ran);
        } else if !(events.last() is Ran) {
            assert forall|i: int| 0 <= i < events.len() implies !((#[trigger] events[i])
                is Ran) by {
                if i < front.len() {
                    assert(front[i] == events[i]);
                }
            }
        }
    }
}

/// A job does not run before its delay is over.
pub proof fn law_job_waits_for_its_delay(events: Seq<JobEvent>)
    requires
        forall|i: int| 0 <= i < events.len() ==> !((#[trigger] events[i]) is Delayed),
    ensures
        JobState::Delay.after(events) == JobState::Delay,
    decreases events.len(),
{
    if events.len() > 0 {
        let front = events.drop_last();
        assert forall|i: int| 0 <= i < front.len() implies !((#[trigger] front[i]) is Delayed) by {
            assert(front[i] == events[i]);
        }
        law_job_waits_for_its_delay(front);
        assert(!(events[events.len() - 1] is Delayed));
    }
}

} // verus!
