//! A running process: what it prints, how it ends and how it is stopped.
use crate::console::{format_to_console_err, reprint, Print, Report};
use crate::error::{Error, OptionExt};
use crate::text::signed_text;
use vstd::prelude::*;

verus! {

/// How many seconds a process has to end after it was asked to.
pub const STOP_GRACE_SECS: u64 = 5;

/// How a process ended. A process that was ended by a signal has no code.
#[derive(Debug, Clone, Copy, PartialEq, Eq, Structural)]
pub struct ExitStatus {
    pub code: Option<i32>,
    pub success: bool,
}

impl ExitStatus {
    /// A process succeeds exactly with the code 0.
    pub open spec fn well_formed(self) -> bool {
        self.success <==> self.code == Some(0i32)
    }

    /// What the end of the process is to the one who ran it: its success, or the error that it
    /// left no code.
    pub open spec fn outcome(self) -> Result<bool, Error> {
        match self.code {
            Some(_) => Ok(self.success),
            None => Err(Error::NoneValue),
        }
    }

    /// What is told of the end of the process: its code.
    pub open spec fn tells(self) -> Option<crate::console::ReportView> {
        match self.code {
            Some(code) => Some(
                crate::console::notice(
                    "Process exited with code: "@ + crate::text::signed_decimal(code as int),
                ),
            ),
            None => None,
        }
    }

    /// What the end of the process is to the one who ran it, and what is told of it.
    pub fn exit_ok(self) -> (r: (Result<bool, Error>, Option<Report>))
        ensures
            r.0 == self.outcome(),
            crate::console::report_view(r.1) == self.tells(),
    {
        match self.code.some() {
            Ok(code) => {
                let text = "Process exited with code: ".to_owned().concat(
                    signed_text(code).as_str(),
                );
                (Ok(self.success), Some(format_to_console_err(text)))
            },
            Err(e) => (Err(e), None),
        }
    }
}

/// Takes both outputs of a process, or gives the error that one of them is not there. Where
/// standard output is not there, standard error stays where it is.
pub fn take_output<A, B>(stdout: &mut Option<A>, stderr: &mut Option<B>) -> (r: Result<
    (A, B),
    Error,
>)
    ensures
        r == match (*old(stdout), *old(stderr)) {
            (Some(a), Some(b)) => Ok::<(A, B), Error>((a, b)),
            _ => Err(Error::NoneValue),
        },
        *final(stdout) is None,
        *final(stderr) == if *old(stdout) is None {
            *old(stderr)
        } else {
            None
        },
{
    let a = match stdout.take().some() {
        Ok(a) => a,
        Err(e) => {
            return Err(e);
        },
    };
    match stderr.take().some() {
        Ok(b) => Ok((a, b)),
        Err(e) => Err(e),
    }
}

/// Whether a command succeeded that had only so long: not where the time ran out (the outer
/// error) or where it could not be run (the inner one).
pub fn success(status: Result<Result<ExitStatus, Error>, Error>) -> (r: Result<bool, Error>)
    ensures
        r == match status {
            Ok(Ok(status)) => Ok::<bool, Error>(status.success),
            Ok(Err(e)) => Err(e),
            Err(e) => Err(e),
        },
{
    match status {
        Ok(Ok(status)) => Ok(status.success),
        Ok(Err(e)) => Err(e),
        Err(e) => Err(e),
    }
}

/// The stopping of a process, by what is to be done next.
#[derive(Debug)]
pub enum StopState {
    /// Find the number of the process.
    FindPid,
    /// Ask the process with this number to end.
    Terminate(i32),
    /// Wait for its end, for this many seconds at most.
    AwaitExit(u64),
    /// Kill it.
    Kill,
    /// It is stopped, which counts as this error.
    Done(Error),
}

/// What came of a step of the stopping of a process.
#[derive(Debug)]
pub enum StopEvent {
    /// The number of the process, if it still has one.
    Pid(Option<u32>),
    /// The request to end was sent, or could not be.
    Signalled(Result<(), Error>),
    /// The process ended, or the time for it ran out.
    Waited,
    /// The process was killed, or could not be.
    Killed(Result<(), Error>),
}

impl StopState {
    /// The beginning: where processes can be asked to end, that comes first.
    pub open spec fn first(can_signal: bool) -> StopState {
        if can_signal {
            StopState::FindPid
        } else {
            StopState::Kill
        }
    }

    /// The state after an event. An event that does not belong to a state leaves it as it is.
    pub open spec fn next(self, event: StopEvent) -> StopState {
        match (self, event) {
            (StopState::FindPid, StopEvent::Pid(Some(pid))) => StopState::Terminate(pid as i32),
            (StopState::FindPid, StopEvent::Pid(None)) => StopState::Kill,
            (StopState::Terminate(_), StopEvent::Signalled(Ok(_))) => StopState::AwaitExit(
                STOP_GRACE_SECS,
            ),
            (StopState::Terminate(_), StopEvent::Signalled(Err(_))) => StopState::Kill,
            (StopState::AwaitExit(_), StopEvent::Waited) => StopState::Kill,
            (StopState::Kill, StopEvent::Killed(Ok(_))) => StopState::Done(Error::Cancelled),
            (StopState::Kill, StopEvent::Killed(Err(e))) => StopState::Done(e),
            _ => self,
        }
    }

    /// What is told of an event.
    pub open spec fn tells(self, event: StopEvent) -> Option<crate::console::ReportView> {
        match (self, event) {
            (StopState::FindPid, StopEvent::Pid(None)) => Some(
                crate::console::ReportView::Plain(
                    crate::console::PrintView::Stderr("Failed to get process ID"@),
                ),
            ),
            (StopState::Terminate(pid), StopEvent::Signalled(Err(e))) => Some(
                crate::console::ReportView::Plain(
                    crate::console::PrintView::Stderr(
                        "Failed to send SIGTERM to process "@ + crate::text::signed_decimal(
                            pid as int,
                        ) + ": "@ + e.text(),
                    ),
                ),
            ),
            _ => None,
        }
    }

    /// The state after a number of events.
    pub open spec fn after(self, events: Seq<StopEvent>) -> StopState
        decreases events.len(),
    {
        if events.len() == 0 {
            self
        } else {
            self.after(events.drop_last()).next(events.last())
        }
    }

    /// The beginning. `can_signal` says whether processes can be asked to end here.
    pub fn start(can_signal: bool) -> (r: StopState)
        ensures
            r == Self::first(can_signal),
    {
        if can_signal {
            StopState::FindPid
        } else {
            StopState::Kill
        }
    }

    /// Goes on with an event.
    pub fn step(self, event: StopEvent) -> (r: (StopState, Option<Report>))
        ensures
            r.0 == self.next(event),
            crate::console::report_view(r.1) == self.tells(event),
    {
        match (self, event) {
            (StopState::FindPid, StopEvent::Pid(Some(pid))) => (
                StopState::Terminate(#[verifier::truncate] (pid as i32)),
                None,
            ),
            (StopState::FindPid, StopEvent::Pid(None)) => (
                StopState::Kill,
                Some(Report::Plain(Print::Stderr("Failed to get process ID".to_owned()))),
            ),
            (StopState::Terminate(_), StopEvent::Signalled(Ok(_))) => (
                StopState::AwaitExit(STOP_GRACE_SECS),
                None,
            ),
            (StopState::Terminate(pid), StopEvent::Signalled(Err(e))) => {
                let text = "Failed to send SIGTERM to process ".to_owned().concat(
                    signed_text(pid).as_str(),
                ).concat(": ").concat(e.message().as_str());
                (StopState::Kill, Some(Report::Plain(Print::Stderr(text))))
            },
            (StopState::AwaitExit(_), StopEvent::Waited) => (StopState::Kill, None),
            (StopState::Kill, StopEvent::Killed(Ok(_))) => (StopState::Done(Error::Cancelled), None),
            (StopState::Kill, StopEvent::Killed(Err(e))) => (StopState::Done(e), None),
            (state, _) => (state, None),
        }
    }
}

/// The running of a command, by what is to be done next.
#[derive(Debug)]
pub enum RunState {
    /// Start the process.
    Spawn,
    /// Take hold of its two outputs.
    TakeOutput,
    /// Kill it, since its output cannot be read, which is this error.
    KillUnread(Error),
    /// Wait for whichever comes first: a cancellation, a line of output, its end.
    Watch,
    /// Stop it.
    Stop(StopState),
    /// It is over.
    Done(Result<bool, Error>),
}

/// What came of a step of the running of a command.
#[derive(Debug)]
pub enum RunEvent {
    /// The process was started, or could not be.
    Spawned(Result<(), Error>),
    /// Its outputs are there, or one of them is not.
    OutputTaken(Result<(), Error>),
    /// A process whose output cannot be read was killed, or could not be.
    Killed(Result<(), Error>),
    /// The run was cancelled. `can_signal` says whether processes can be asked to end here.
    Cancelled { can_signal: bool },
    /// A read from its standard output, which is empty at the end.
    Stdout(Result<String, Error>),
    /// A read from its standard error, which is empty at the end.
    Stderr(Result<String, Error>),
    /// The process ended, or waiting for it failed.
    Exited(Result<ExitStatus, Error>),
    /// What came of a step of stopping it.
    Stop(StopEvent),
}

/// What is told of a read: what was read, if anything was.
pub open spec fn read_tells(buf: Seq<char>, is_err: bool) -> Option<crate::console::ReportView> {
    if buf.len() > 0 {
        Some(crate::console::ReportView::Console { text: buf, is_err })
    } else {
        None
    }
}

impl RunState {
    /// The state after an event. An event that does not belong to a state leaves it as it is.
    pub open spec fn next(self, event: RunEvent) -> RunState {
        match (self, event) {
            (RunState::Spawn, RunEvent::Spawned(Ok(_))) => RunState::TakeOutput,
            (RunState::Spawn, RunEvent::Spawned(Err(e))) => RunState::Done(Err(e)),
            (RunState::TakeOutput, RunEvent::OutputTaken(Ok(_))) => RunState::Watch,
            (RunState::TakeOutput, RunEvent::OutputTaken(Err(e))) => RunState::KillUnread(e),
            (RunState::KillUnread(e), RunEvent::Killed(Ok(_))) => RunState::Done(Err(e)),
            (RunState::KillUnread(_), RunEvent::Killed(Err(e))) => RunState::Done(Err(e)),
            (RunState::Watch, RunEvent::Cancelled { can_signal }) => RunState::Stop(
                StopState::first(can_signal),
            ),
            (RunState::Watch, RunEvent::Exited(Ok(status))) => RunState::Done(status.outcome()),
            (RunState::Watch, RunEvent::Exited(Err(e))) => RunState::Done(Err(e)),
            (RunState::Stop(stop), RunEvent::Stop(event)) => match stop.next(event) {
                StopState::Done(e) => RunState::Done(Err(e)),
                stop => RunState::Stop(stop),
            },
            _ => self,
        }
    }

    /// What is told of an event.
    pub open spec fn tells(self, event: RunEvent) -> Option<crate::console::ReportView> {
        match (self, event) {
            (RunState::TakeOutput, RunEvent::OutputTaken(Err(e))) => Some(
                crate::console::notice("Failed to take output, error: "@ + e.text()),
            ),
            (RunState::Watch, RunEvent::Stdout(Ok(buf))) => read_tells(buf@, false),
            (RunState::Watch, RunEvent::Stderr(Ok(buf))) => read_tells(buf@, true),
            (RunState::Watch, RunEvent::Exited(Ok(status))) => status.tells(),
            (RunState::Stop(stop), RunEvent::Stop(event)) => stop.tells(event),
            _ => None,
        }
    }

    /// The state after a number of events.
    pub open spec fn after(self, events: Seq<RunEvent>) -> RunState
        decreases events.len(),
    {
        if events.len() == 0 {
            self
        } else {
            self.after(events.drop_last()).next(events.last())
        }
    }

    /// The beginning, and what is told of it.
    pub fn start() -> (r: (RunState, Report))
        ensures
            r.0 == RunState::Spawn,
            r.1@ == crate::console::notice("Process start"@),
    {
        (RunState::Spawn, format_to_console_err("Process start".to_owned()))
    }

    /// Goes on with an event.
    pub fn step(self, event: RunEvent) -> (r: (RunState, Option<Report>))
        ensures
            r.0 == self.next(event),
            crate::console::report_view(r.1) == self.tells(event),
    {
        match (self, event) {
            (RunState::Spawn, RunEvent::Spawned(Ok(_))) => (RunState::TakeOutput, None),
            (RunState::Spawn, RunEvent::Spawned(Err(e))) => (RunState::Done(Err(e)), None),
            (RunState::TakeOutput, RunEvent::OutputTaken(Ok(_))) => (RunState::Watch, None),
            (RunState::TakeOutput, RunEvent::OutputTaken(Err(e))) => {
                let text = "Failed to take output, error: ".to_owned().concat(
                    e.message().as_str(),
                );
                (RunState::KillUnread(e), Some(format_to_console_err(text)))
            },
            (RunState::KillUnread(e), RunEvent::Killed(Ok(_))) => (RunState::Done(Err(e)), None),
            (RunState::KillUnread(_), RunEvent::Killed(Err(e))) => (RunState::Done(Err(e)), None),
            (RunState::Watch, RunEvent::Cancelled { can_signal }) => (
                RunState::Stop(StopState::start(can_signal)),
                None,
            ),
            (RunState::Watch, RunEvent::Stdout(Ok(buf))) => (RunState::Watch, reprint(buf, false)),
            (RunState::Watch, RunEvent::Stderr(Ok(buf))) => (RunState::Watch, reprint(buf, true)),
            (RunState::Watch, RunEvent::Exited(Ok(status))) => {
                let (outcome, report) = status.exit_ok();
                (RunState::Done(outcome), report)
            },
            (RunState::Watch, RunEvent::Exited(Err(e))) => (RunState::Done(Err(e)), None),
            (RunState::Stop(stop), RunEvent::Stop(event)) => {
                let (stop, report) = stop.step(event);
                match stop {
                    StopState::Done(e) => (RunState::Done(Err(e)), report),
                    stop => (RunState::Stop(stop), report),
                }
            },
            (state, _) => (state, None),
        }
    }
}

/// A process is not taken for stopped before a kill was tried: the last step of every stopping
/// is the one that kills, and the error is `Cancelled` where the kill worked and the error of
/// the kill where it did not.
pub proof fn law_stop_ends_in_kill(can_signal: bool, events: Seq<StopEvent>)
    requires
        StopState::first(can_signal).after(events) is Done,
    ensures
        exists|i: int|
            0 <= i < events.len() && (#[trigger] StopState::first(can_signal).after(events.take(i)))
                is Kill && match events[i] {
                StopEvent::Killed(Ok(_)) => StopState::first(can_signal).after(events)
                    == StopState::Done(Error::Cancelled),
                StopEvent::Killed(Err(e)) => StopState::first(can_signal).after(events)
                    == StopState::Done(e),
                _ => false,
            },
    decreases events.len(),
{
    let first = StopState::first(can_signal);
    assert(events.len() > 0);
    let front = events.drop_last();
    let last = events.len() - 1;
    assert(events.take(last) =~= front);
    if first.after(front) is Done {
        law_stop_ends_in_kill(can_signal, front);
        let i = choose|i: int|
            0 <= i < front.len() && (#[trigger] first.after(front.take(i))) is Kill
                && match front[i] {
                StopEvent::Killed(Ok(_)) => first.after(front) == StopState::Done(Error::Cancelled),
                StopEvent::Killed(Err(e)) => first.after(front) == StopState::Done(e),
                _ => false,
            };
        assert(events.take(i) =~= front.take(i));
    } else {
        assert(first.after(events.take(last)) is Kill);
    }
}

/// Among `events`, from the state `first` on, the request to end was made and could not be sent.
pub open spec fn request_failed(first: StopState, events: Seq<StopEvent>) -> bool {
    exists|i: int|
        0 <= i < events.len() && (#[trigger] first.after(events.take(i))) is Terminate
            && match events[i] {
            StopEvent::Signalled(r) => r is Err,
            _ => false,
        }
}

/// Among `events`, from the state `first` on, the request to end was made and sent.
pub open spec fn request_sent(first: StopState, events: Seq<StopEvent>) -> bool {
    exists|i: int|
        0 <= i < events.len() && (#[trigger] first.after(events.take(i))) is Terminate
            && match events[i] {
            StopEvent::Signalled(r) => r is Ok,
            _ => false,
        }
}

/// Among `events`, from the state `first` on, the wait for the end of the process was over, after
/// the request was sent.
pub open spec fn waited_after_request(first: StopState, events: Seq<StopEvent>) -> bool {
    exists|i: int|
        0 <= i < events.len() && (#[trigger] first.after(events.take(i))) is AwaitExit
            && events[i] is Waited && request_sent(first, events.take(i))
}

/// A process whose number is known is asked to end before it is killed: the stopping waits only
/// after the request was sent, and it kills only after a wait that followed the request, or
/// where the request was made and could not be sent.
pub proof fn law_stop_asks_first(pid: u32, events: Seq<StopEvent>)
    ensures
        ({
            let first = StopState::first(true).next(StopEvent::Pid(Some(pid)));
            match first.after(events) {
                StopState::FindPid => false,
                StopState::Terminate(p) => p == pid as i32,
                StopState::AwaitExit(secs) => secs == STOP_GRACE_SECS && request_sent(
                    first,
                    events,
                ),
                _ => request_failed(first, events) || waited_after_request(first, events),
            }
        }),
    decreases events.len(),
{
    if events.len() > 0 {
        let first = StopState::first(true).next(StopEvent::Pid(Some(pid)));
        let front = events.drop_last();
        let last = events.len() - 1;
        law_stop_asks_first(pid, front);
        assert(events.take(last) =~= front);
        assert(first.after(events.take(last)) == first.after(front));
        assert forall|i: int| 0 <= i < front.len() implies #[trigger] front.take(i) == events.take(
            i,
        ) by {
            assert(front.take(i) =~= events.take(i));
        }
        if request_sent(first, front) {
            let i = choose|i: int|
                0 <= i < front.len() && (#[trigger] first.after(front.take(i))) is Terminate
                    && match front[i] {
                    StopEvent::Signalled(r) => r is Ok,
                    _ => false,
                };
            assert(first.after(events.take(i)) is Terminate);
        }
        if request_failed(first, front) {
            let i = choose|i: int|
                0 <= i < front.len() && (#[trigger] first.after(front.take(i))) is Terminate
                    && match front[i] {
                    StopEvent::Signalled(r) => r is Err,
                    _ => false,
                };
            assert(first.after(events.take(i)) is Terminate);
        }
        if waited_after_request(first, front) {
            let i = choose|i: int|
                0 <= i < front.len() && (#[trigger] first.after(front.take(i))) is AwaitExit
                    && front[i] is Waited && request_sent(first, front.take(i));
            assert(first.after(events.take(i)) is AwaitExit);
        }
    }
}

/// A run counts as a success or a plain failure only where its process was watched to its end
/// and left a code.
pub proof fn law_run_result_is_exit_status(events: Seq<RunEvent>, success: bool)
    requires
        RunState::Spawn.after(events) == RunState::Done(Ok(success)),
    ensures
        exists|i: int|
            0 <= i < events.len() && (#[trigger] RunState::Spawn.after(events.take(i))) is Watch
                && match events[i] {
                RunEvent::Exited(Ok(status)) => status.code is Some && status.success == success,
                _ => false,
            },
    decreases events.len(),
{
    assert(events.len() > 0);
    let front = events.drop_last();
    let last = events.len() - 1;
    assert(events.take(last) =~= front);
    if RunState::Spawn.after(front) is Done {
        law_run_result_is_exit_status(front, success);
        let i = choose|i: int|
            0 <= i < front.len() && (#[trigger] RunState::Spawn.after(front.take(i))) is Watch
                && match front[i] {
                RunEvent::Exited(Ok(status)) => status.code is Some && status.success == success,
                _ => false,
            };
        assert(events.take(i) =~= front.take(i));
    } else {
        assert(RunState::Spawn.after(events.take(last)) is Watch);
    }
}

/// Where a process left a code, it counts as a success exactly with the code 0.
pub proof fn law_outcome_is_code_zero(status: ExitStatus)
    requires
        status.well_formed(),
    ensures
        status.outcome() == match status.code {
            Some(code) => Ok::<bool, Error>(code == 0),
            None => Err(Error::NoneValue),
        },
{
}

/// A run counts as a success exactly with the code 0: where it comes to a success or a plain
/// failure, its process was watched to its end, and it was a success if the code was 0 and a
/// failure if it was another.
pub proof fn law_run_succeeds_with_code_zero(events: Seq<RunEvent>, success: bool)
    requires
        RunState::Spawn.after(events) == RunState::Done(Ok(success)),
        forall|i: int|
            0 <= i < events.len() ==> match #[trigger] events[i] {
                RunEvent::Exited(Ok(status)) => status.well_formed(),
                _ => true,
            },
    ensures
        exists|i: int|
            0 <= i < events.len() && (#[trigger] RunState::Spawn.after(events.take(i))) is Watch
                && match events[i] {
                RunEvent::Exited(Ok(status)) => status.code is Some && (success <==> status.code
                    == Some(0i32)),
                _ => false,
            },
{
    law_run_result_is_exit_status(events, success);
    let i = choose|i: int|
        0 <= i < events.len() && (#[trigger] RunState::Spawn.after(events.take(i))) is Watch
            && match events[i] {
            RunEvent::Exited(Ok(status)) => status.code is Some && status.success == success,
            _ => false,
        };
    assert(RunState::Spawn.after(events.take(i)) is Watch);
}

/// A run that was cancelled while its process was watched never comes to a success or a plain
/// failure: it is being stopped, or it is over with an error.
pub proof fn law_cancelled_run_fails(can_signal: bool, events: Seq<RunEvent>)
    ensures
        match RunState::Watch.next(RunEvent::Cancelled { can_signal }).after(events) {
            RunState::Stop(_) => true,
            RunState::Done(r) => r is Err,
            _ => false,
        },
    decreases events.len(),
{
    if events.len() > 0 {
        law_cancelled_run_fails(can_signal, events.drop_last());
    }
}

/// A run whose output could not be taken never comes to a success or a plain failure: its process
/// is being killed, or it is over with an error.
pub proof fn law_unread_run_fails(e: Error, events: Seq<RunEvent>)
    ensures
        match RunState::TakeOutput.next(RunEvent::OutputTaken(Err(e))).after(events) {
            RunState::KillUnread(unread) => unread == e,
            RunState::Done(r) => r is Err,
            _ => false,
        },
    decreases events.len(),
{
    if events.len() > 0 {
        law_unread_run_fails(e, events.drop_last());
    }
}

/// Once a run is over, nothing changes its result.
pub proof fn law_run_done_stays(r: Result<bool, Error>, events: Seq<RunEvent>)
    ensures
        RunState::Done(r).after(events) == RunState::Done(r),
    decreases events.len(),
{
    if events.len() > 0 {
        law_run_done_stays(r, events.drop_last());
    }
}

/// The end of a process is told with its code, and counts as what its status says; without a code
/// it is an error, and nothing is told.
pub proof fn law_exit_is_told(status: ExitStatus, r: (Result<bool, Error>, Option<Report>))
    requires
        call_ensures(ExitStatus::exit_ok, (status,), r),
    ensures
        match status.code {
            Some(code) => r.0 == Ok::<bool, Error>(status.success) && (
            r.1 matches Some(Report::Console { text, is_err }) && is_err && text@
                == "Process exited with code: "@ + crate::text::signed_decimal(code as int)),
            None => r.0 == Err::<bool, Error>(Error::NoneValue) && r.1 is None,
        },
{
}

/// Both outputs are handed out where both are there, and then neither is left. Nothing is lost
/// where standard output is not there: standard error is as it was.
pub proof fn law_outputs_are_taken<A, B>(
    stdout: &mut Option<A>,
    stderr: &mut Option<B>,
    r: Result<(A, B), Error>,
)
    requires
        call_ensures(take_output::<A, B>, (stdout, stderr), r),
    ensures
        r is Ok <==> *old(stdout) is Some && *old(stderr) is Some,
        r matches Ok(both) ==> Some(both.0) == *old(stdout) && Some(both.1) == *old(stderr),
        r matches Err(e) ==> e == Error::NoneValue,
        *final(stdout) is None,
        *old(stdout) is Some ==> *final(stderr) is None,
        *old(stdout) is None ==> *final(stderr) == *old(stderr),
{
}

/// A command with a limit on its time succeeds only where it ran to its end in that time and its
/// status says so; every other end is passed on as the error that it is.
pub proof fn law_timed_success(
    status: Result<Result<ExitStatus, Error>, Error>,
    r: Result<bool, Error>,
)
    requires
        call_ensures(success, (status,), r),
    ensures
        r == Ok::<bool, Error>(true) <==> (status matches Ok(Ok(ended)) && ended.success),
        r == Ok::<bool, Error>(false) <==> (status matches Ok(Ok(ended)) && !ended.success),
        status matches Err(e) ==> r == Err::<bool, Error>(e),
        status matches Ok(Err(e)) ==> r == Err::<bool, Error>(e),
{
}

/// Stopping begins with the number of the process where processes can be asked to end, and with
/// the kill where they cannot.
pub proof fn law_stop_begins(can_signal: bool, r: StopState)
    requires
        call_ensures(StopState::start, (can_signal,), r),
    ensures
        can_signal ==> r == StopState::FindPid,
        !can_signal ==> r == StopState::Kill,
        r == StopState::first(can_signal),
{
}

/// What each step of stopping leads to: the request goes to the process with the number that was
/// found, a request that was sent is followed by a wait of five seconds at most, whatever else
/// happens by a kill, and the kill by the end. No other event moves the stopping.
pub proof fn law_stop_steps(state: StopState, event: StopEvent, r: (StopState, Option<Report>))
    requires
        call_ensures(StopState::step, (state, event), r),
    ensures
        state is FindPid ==> (event matches StopEvent::Pid(number) ==> r.0 == match number {
            Some(pid) => StopState::Terminate(pid as i32),
            None => StopState::Kill,
        }),
        state is Terminate ==> (event matches StopEvent::Signalled(sent) ==> r.0 == if sent is Ok {
            StopState::AwaitExit(5)
        } else {
            StopState::Kill
        }),
        state is AwaitExit && event is Waited ==> r.0 == StopState::Kill,
        state is Kill ==> (event matches StopEvent::Killed(killed) ==> r.0 == StopState::Done(
            match killed {
                Ok(_) => Error::Cancelled,
                Err(e) => e,
            },
        )),
        !(state is FindPid && event is Pid || state is Terminate && event is Signalled || state
            is AwaitExit && event is Waited || state is Kill && event is Killed) ==> r.0 == state,
        r.0 == state.next(event),
{
}

/// Only two things are told while a process is stopped, both as they are and on the error stream:
/// that it has no number, and that the request to the number could not be sent, and why.
pub proof fn law_stop_tells(state: StopState, event: StopEvent, r: (StopState, Option<Report>))
    requires
        call_ensures(StopState::step, (state, event), r),
    ensures
        r.1 is Some <==> (state is FindPid && event == StopEvent::Pid(None)) || (state is Terminate
            && (event matches StopEvent::Signalled(sent) && sent is Err)),
        r.1 matches Some(report) ==> match (state, event) {
            (StopState::Terminate(pid), StopEvent::Signalled(Err(e))) => {
                report matches Report::Plain(Print::Stderr(text)) && text@
                    == "Failed to send SIGTERM to process "@ + crate::text::signed_decimal(
                    pid as int,
                ) + ": "@ + e.text()
            },
            _ => report matches Report::Plain(Print::Stderr(text)) && text@
                == "Failed to get process ID"@,
        },
{
}

/// A run begins with the start of its process, which is told.
pub proof fn law_run_begins(r: (RunState, Report))
    requires
        call_ensures(RunState::start, (), r),
    ensures
        r.0 == RunState::Spawn,
        r.1 matches Report::Console { text, is_err } && is_err && text@ == "Process start"@,
{
}

/// What each step of a run up to its watch leads to: a process that was started has its outputs
/// taken, one whose outputs were taken is watched, one whose outputs were not is killed. What
/// goes wrong is the result of the run, the kill before the outputs.
pub proof fn law_run_steps(state: RunState, event: RunEvent, r: (RunState, Option<Report>))
    requires
        call_ensures(RunState::step, (state, event), r),
    ensures
        r.0 == state.next(event),
        state is Spawn ==> (event matches RunEvent::Spawned(started) ==> r.0 == match started {
            Ok(_) => RunState::TakeOutput,
            Err(e) => RunState::Done(Err(e)),
        }),
        state is TakeOutput ==> (event matches RunEvent::OutputTaken(taken) ==> r.0 == match taken {
            Ok(_) => RunState::Watch,
            Err(e) => RunState::KillUnread(e),
        }),
        state matches RunState::KillUnread(unread) ==> (event matches RunEvent::Killed(killed)
            ==> r.0 == RunState::Done(
            Err(
                match killed {
                    Ok(_) => unread,
                    Err(e) => e,
                },
            ),
        )),
        state is Spawn && !(event is Spawned) ==> r.0 == state,
        state is TakeOutput && !(event is OutputTaken) ==> r.0 == state,
        state is KillUnread && !(event is Killed) ==> r.0 == state,
        state is Stop && !(event is Stop) ==> r.0 == state,
        state is Done ==> r.0 == state,
{
}

/// What ends the watch of a process: its end, with the outcome that its status gives, or a
/// cancellation, with the first step of stopping it. Nothing else does.
pub proof fn law_watch_steps(event: RunEvent, r: (RunState, Option<Report>))
    requires
        call_ensures(RunState::step, (RunState::Watch, event), r),
    ensures
        match event {
            RunEvent::Cancelled { can_signal } => r.0 == RunState::Stop(
                if can_signal {
                    StopState::FindPid
                } else {
                    StopState::Kill
                },
            ),
            RunEvent::Exited(Ok(status)) => r.0 == RunState::Done(
                match status.code {
                    Some(_) => Ok(status.success),
                    None => Err(Error::NoneValue),
                },
            ),
            RunEvent::Exited(Err(e)) => r.0 == RunState::Done(Err(e)),
            _ => r.0 == RunState::Watch,
        },
{
}

/// All that a process prints is told as it was read, each output on its own stream, and nothing
/// is told of a read that gave nothing or failed.
pub proof fn law_output_is_told(read: Result<String, Error>, r: (RunState, Option<Report>))
    ensures
        call_ensures(RunState::step, (RunState::Watch, RunEvent::Stdout(read)), r) ==> match read {
            Ok(buf) => if buf@.len() > 0 {
                r.1 matches Some(Report::Console { text, is_err }) && !is_err && text@ == buf@
            } else {
                r.1 is None
            },
            Err(_) => r.1 is None,
        },
        call_ensures(RunState::step, (RunState::Watch, RunEvent::Stderr(read)), r) ==> match read {
            Ok(buf) => if buf@.len() > 0 {
                r.1 matches Some(Report::Console { text, is_err }) && is_err && text@ == buf@
            } else {
                r.1 is None
            },
            Err(_) => r.1 is None,
        },
{
}

/// What else is told of a run: that the outputs could not be taken, and why; the code with which
/// the process ended; and of a process that is stopped, just what its stopping tells.
pub proof fn law_run_tells(state: RunState, event: RunEvent, r: (RunState, Option<Report>))
    requires
        call_ensures(RunState::step, (state, event), r),
    ensures
        match (state, event) {
            (RunState::TakeOutput, RunEvent::OutputTaken(Err(e))) => {
                r.1 matches Some(Report::Console { text, is_err }) && is_err && text@
                    == "Failed to take output, error: "@ + e.text()
            },
            (RunState::Watch, RunEvent::Exited(Ok(status))) => match status.code {
                Some(code) => r.1 matches Some(Report::Console { text, is_err }) && is_err && text@
                    == "Process exited with code: "@ + crate::text::signed_decimal(code as int),
                None => r.1 is None,
            },
            (RunState::Watch, RunEvent::Stdout(_)) => true,
            (RunState::Watch, RunEvent::Stderr(_)) => true,
            (RunState::Stop(stop), RunEvent::Stop(event)) => crate::console::report_view(r.1)
                == stop.tells(event),
            _ => r.1 is None,
        },
{
}

proof fn lemma_never_back_before_watch(events: Seq<RunEvent>)
    ensures
        match RunState::Watch.after(events) {
            RunState::Watch | RunState::Stop(_) | RunState::Done(_) => true,
            _ => false,
        },
    decreases events.len(),
{
    if events.len() > 0 {
        lemma_never_back_before_watch(events.drop_last());
    }
}

/// A process is watched for as long as neither its end nor a cancellation has come, whatever it
/// prints.
pub proof fn law_watch_goes_on(events: Seq<RunEvent>)
    ensures
        RunState::Watch.after(events) is Watch <==> forall|i: int|
            0 <= i < events.len() ==> !((#[trigger] events[i]) is Exited || events[i] is Cancelled),
    decreases events.len(),
{
    if events.len() > 0 {
        let front = events.drop_last();
        law_watch_goes_on(front);
        lemma_never_back_before_watch(front);
        assert(events[events.len() - 1] == events.last());
        if RunState::Watch.after(events) is Watch {
            assert(RunState::Watch.after(front) is Watch);
            assert forall|i: int| 0 <= i < events.len() implies !((#[trigger] events[i]) is Exited
                || events[i] is Cancelled) by {
                if i < front.len() {
                    assert(front[i] == events[i]);
                }
            }
        } else if forall|i: int|
            0 <= i < events.len() ==> !((#[trigger] events[i]) is Exited || events[i]
                is Cancelled) {
            assert forall|i: int| 0 <= i < front.len() implies !((#[trigger] front[i]) is Exited
                || front[i] is Cancelled) by {
                assert(front[i] == events[i]);
            }
        }
    }
}

/// Where the end of a watched process comes before any cancellation, it is the result of the run,
/// whatever was printed before and whatever comes after.
pub proof fn law_exit_decides(events: Seq<RunEvent>, i: int, status: ExitStatus)
    requires
        0 <= i < events.len(),
        events[i] == RunEvent::Exited(Ok(status)),
        forall|j: int|
            0 <= j < i ==> !((#[trigger] events[j]) is Exited || events[j] is Cancelled),
    ensures
        RunState::Watch.after(events) == RunState::Done(
            match status.code {
                Some(_) => Ok(status.success),
                None => Err(Error::NoneValue),
            },
        ),
    decreases events.len(),
{
    let front = events.drop_last();
    if i < front.len() {
        law_exit_decides(front, i, status);
    } else {
        law_watch_goes_on(front);
        assert(events.last() == events[i]);
    }
}

/// The events of `events` that belong to the stopping of a process, in order.
pub open spec fn stop_events(events: Seq<RunEvent>) -> Seq<StopEvent>
    decreases events.len(),
{
    if events.len() == 0 {
        Seq::empty()
    } else {
        match events.last() {
            RunEvent::Stop(event) => stop_events(events.drop_last()).push(event),
            _ => stop_events(events.drop_last()),
        }
    }
}

proof fn lemma_run_stops(stop: StopState, events: Seq<RunEvent>)
    requires
        !(stop is Done),
    ensures
        RunState::Stop(stop).after(events) == match stop.after(stop_events(events)) {
            StopState::Done(e) => RunState::Done(Err(e)),
            stop => RunState::Stop(stop),
        },
    decreases events.len(),
{
    if events.len() > 0 {
        lemma_run_stops(stop, events.drop_last());
        if let RunEvent::Stop(event) = events.last() {
            let before = stop_events(events.drop_last());
            assert(before.push(event).drop_last() =~= before);
        }
    }
}

proof fn lemma_stop_events_of_stops(stops: Seq<StopEvent>)
    ensures
        stop_events(stops.map_values(|event: StopEvent| RunEvent::Stop(event))) == stops,
    decreases stops.len(),
{
    let events = stops.map_values(|event: StopEvent| RunEvent::Stop(event));
    if stops.len() > 0 {
        lemma_stop_events_of_stops(stops.drop_last());
        assert(events.drop_last() =~= stops.drop_last().map_values(
            |event: StopEvent| RunEvent::Stop(event),
        ));
    }
    assert(stop_events(events) =~= stops);
}

/// A cancelled run goes through exactly the steps of the stopping of a process, and its result is
/// the error that the stopping comes to. Events that do not belong to the stopping, among them the
/// end of the process, neither shorten it nor change its result.
pub proof fn law_cancelled_run_is_stopped(can_signal: bool, events: Seq<RunEvent>)
    ensures
        RunState::Watch.next(RunEvent::Cancelled { can_signal }).after(events) == match (if can_signal {
            StopState::FindPid
        } else {
            StopState::Kill
        }).after(stop_events(events)) {
            StopState::Done(e) => RunState::Done(Err(e)),
            stop => RunState::Stop(stop),
        },
{
    lemma_run_stops(StopState::first(can_signal), events);
}

/// A cancelled run that is given the events `stops` of the stopping of a process is where the
/// stopping itself is after them.
pub proof fn law_cancelled_run_follows_stop(can_signal: bool, stops: Seq<StopEvent>)
    ensures
        RunState::Watch.next(RunEvent::Cancelled { can_signal }).after(
            stops.map_values(|event: StopEvent| RunEvent::Stop(event)),
        ) == match StopState::first(can_signal).after(stops) {
            StopState::Done(e) => RunState::Done(Err(e)),
            stop => RunState::Stop(stop),
        },
{
    lemma_stop_events_of_stops(stops);
    lemma_run_stops(
        StopState::first(can_signal),
        stops.map_values(|event: StopEvent| RunEvent::Stop(event)),
    );
}

/// A cancelled run whose process has a number asks the process to end before it kills it: it kills
/// only after a wait of five seconds at most that followed the request, or where the request was
/// made and could not be sent.
pub proof fn law_cancelled_run_asks_first(pid: u32, stops: Seq<StopEvent>)
    ensures
        ({
            let asking = StopState::Terminate(pid as i32);
            match RunState::Watch.next(RunEvent::Cancelled { can_signal: true }).next(
                RunEvent::Stop(StopEvent::Pid(Some(pid))),
            ).after(stops.map_values(|event: StopEvent| RunEvent::Stop(event))) {
                RunState::Stop(StopState::Terminate(p)) => p == pid as i32,
                RunState::Stop(StopState::AwaitExit(secs)) => secs == 5 && request_sent(
                    asking,
                    stops,
                ),
                RunState::Stop(StopState::Kill) => request_failed(asking, stops)
                    || waited_after_request(asking, stops),
                RunState::Done(r) => r is Err && (request_failed(asking, stops)
                    || waited_after_request(asking, stops)),
                _ => false,
            }
        }),
{
    let asking = StopState::first(true).next(StopEvent::Pid(Some(pid)));
    lemma_stop_events_of_stops(stops);
    lemma_run_stops(asking, stops.map_values(|event: StopEvent| RunEvent::Stop(event)));
    law_stop_asks_first(pid, stops);
}

} // verus!
