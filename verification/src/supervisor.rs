//! Sets of jobs: which run together, under which names, and how a set comes to its end.
use crate::config::{Config, Job, Jobs};
use crate::console::{colored_name, Print};
use crate::table::Table;
use crate::text::unsigned_text;
use vstd::prelude::*;

verus! {

/// A set of jobs that run side by side.
#[derive(Debug)]
pub struct JobSet {
    /// The line that is printed before the set starts.
    pub header: Option<String>,
    pub jobs: Table<Job>,
}

/// A set of jobs, by its text.
pub struct JobSetView {
    pub header: Option<Seq<char>>,
    pub jobs: Seq<(Seq<char>, crate::config::JobView)>,
}

impl View for JobSet {
    type V = JobSetView;

    open spec fn view(&self) -> JobSetView {
        JobSetView {
            header: match self.header {
                Some(header) => Some(header@),
                None => None,
            },
            jobs: self.jobs@,
        }
    }
}

/// The line that is printed before the set at position `index` starts.
pub open spec fn set_header(index: int) -> Seq<char> {
    "Running job set "@ + crate::text::decimal(index as nat) + ":"@
}

/// The sets of a configuration: one without a header, or each with the header of its position.
pub open spec fn job_sets_of(jobs: Jobs) -> Seq<JobSetView> {
    match jobs {
        Jobs::Single(set) => seq![JobSetView { header: None, jobs: set@ }],
        Jobs::Multiple(sets) => Seq::new(
            sets@.len(),
            |i: int| JobSetView { header: Some(set_header(i)), jobs: sets@[i]@ },
        ),
    }
}

/// The views of job sets.
pub open spec fn job_sets_view(sets: Seq<JobSet>) -> Seq<JobSetView> {
    sets.map_values(|set: JobSet| set@)
}

impl Config {
    /// The sets of jobs, in the order in which they run, one after the other.
    pub fn job_sets(self) -> (r: Vec<JobSet>)
        ensures
            job_sets_view(r@) == job_sets_of(self.jobs),
    {
        let mut r: Vec<JobSet> = Vec::new();
        let ghost jobs = self.jobs;
        match self.jobs {
            Jobs::Single(set) => {
                r.push(JobSet { header: None, jobs: set });
            },
            Jobs::Multiple(mut sets) => {
                let ghost all = sets@;
                let len: usize = sets.len();
                let mut index: usize = 0;
                while index < len
                    invariant
                        index <= len,
                        len == all.len(),
                        sets@ == all.skip(index as int),
                        r@.len() == index,
                        forall|i: int|
                            0 <= i < index ==> (#[trigger] r@[i])@ == (JobSetView {
                                header: Some(set_header(i)),
                                jobs: all[i]@,
                            }),
                    decreases len - index,
                {
                    let header = "Running job set ".to_owned().concat(
                        unsigned_text(index as u64).as_str(),
                    ).concat(":");
                    let set = sets.remove(0);
                    r.push(JobSet { header: Some(header), jobs: set });
                    index = index + 1;
                    assert(sets@ =~= all.skip(index as int));
                }
            },
        }
        assert(job_sets_view(r@) =~= job_sets_of(jobs));
        r
    }
}

/// `named` are the jobs `jobs`, in order, each under its name in the colour of its position.
pub open spec fn named_jobs(
    named: Seq<(Seq<char>, crate::config::JobView)>,
    jobs: Seq<(Seq<char>, crate::config::JobView)>,
) -> bool {
    &&& named.len() == jobs.len()
    &&& forall|i: int|
        0 <= i < jobs.len() ==> {
            &&& (#[trigger] named[i]).1 == jobs[i].1
            &&& crate::console::painted(named[i].0, crate::console::job_tint(i).code(), jobs[i].0)
            &&& crate::console::coloured(crate::console::job_tint(i), jobs[i].0, named[i].0)
        }
}

/// The jobs that are started side by side, each under its name in the colour of its position.
///
/// Whether names are coloured is up to the environment. `label_jobs` says what follows for
/// whatever names come out.
pub fn run_jobs(jobs: Vec<(String, Job)>) -> (r: Vec<(String, Job)>)
    ensures
        named_jobs(crate::table::entries_view(r@), crate::table::entries_view(jobs@)),
{
    let names = colored_names(&jobs);
    label_jobs(names, jobs)
}

/// The names of `jobs`, each in the colour of its position.
fn colored_names(jobs: &Vec<(String, Job)>) -> (r: Vec<String>)
    ensures
        r@.len() == jobs@.len(),
        forall|i: int|
            0 <= i < jobs@.len() ==> crate::console::painted(
                (#[trigger] r@[i])@,
                crate::console::job_tint(i).code(),
                jobs@[i].0@,
            ) && crate::console::coloured(crate::console::job_tint(i), jobs@[i].0@, r@[i]@),
{
    let mut r: Vec<String> = Vec::new();
    let len: usize = jobs.len();
    let mut index: usize = 0;
    while index < len
        invariant
            index <= len,
            len == jobs@.len(),
            r@.len() == index,
            forall|i: int|
                0 <= i < index ==> crate::console::painted(
                    (#[trigger] r@[i])@,
                    crate::console::job_tint(i).code(),
                    jobs@[i].0@,
                ) && crate::console::coloured(crate::console::job_tint(i), jobs@[i].0@, r@[i]@),
        decreases len - index,
    {
        r.push(colored_name(jobs[index].0.as_str(), index));
        index = index + 1;
    }
    r
}

/// The jobs `jobs`, in order, each under the name in `names` at its position.
pub open spec fn labelled(
    names: Seq<Seq<char>>,
    jobs: Seq<(Seq<char>, crate::config::JobView)>,
) -> Seq<(Seq<char>, crate::config::JobView)> {
    Seq::new(jobs.len(), |i: int| (names[i], jobs[i].1))
}

/// The jobs, in order, each under the name in `names` at its position in place of its own.
pub fn label_jobs(names: Vec<String>, jobs: Vec<(String, Job)>) -> (r: Vec<(String, Job)>)
    requires
        names@.len() == jobs@.len(),
    ensures
        crate::table::entries_view(r@) == labelled(
            names.deep_view(),
            crate::table::entries_view(jobs@),
        ),
{
    let mut names = names;
    let mut jobs = jobs;
    let ghost all_names = names@;
    let ghost all = jobs@;
    let mut r: Vec<(String, Job)> = Vec::new();
    let len: usize = jobs.len();
    let mut index: usize = 0;
    while index < len
        invariant
            index <= len,
            len == all.len(),
            len == all_names.len(),
            names@ == all_names.skip(index as int),
            jobs@ == all.skip(index as int),
            r@.len() == index,
            forall|i: int|
                0 <= i < index ==> (#[trigger] r@[i]).0@ == all_names[i]@ && r@[i].1@ == all[i].1@,
        decreases len - index,
    {
        let name = names.remove(0);
        let (_, job) = jobs.remove(0);
        r.push((name, job));
        index = index + 1;
        assert(names@ =~= all_names.skip(index as int));
        assert(jobs@ =~= all.skip(index as int));
    }
    r
}

/// A set of running jobs, by what is to be done next.
#[derive(Debug, Clone, Copy, PartialEq, Eq, Structural)]
pub enum SetState {
    /// Wait for an interrupt, or for the end of all jobs.
    Running,
    /// Cancel all jobs, then wait for the end of all of them.
    Cancelling,
    /// All jobs are over.
    Done,
}

/// What happened to a set of running jobs.
#[derive(Debug, Clone, Copy, PartialEq, Eq, Structural)]
pub enum SetEvent {
    /// The program was interrupted.
    CtrlC,
    /// All jobs are over.
    AllDone,
}

impl SetState {
    /// The state after an event.
    pub open spec fn next(self, event: SetEvent) -> SetState {
        match (self, event) {
            (SetState::Running, SetEvent::CtrlC) => SetState::Cancelling,
            (_, SetEvent::AllDone) => SetState::Done,
            _ => self,
        }
    }

    /// What is printed at an event.
    pub open spec fn tells(self, event: SetEvent) -> Option<crate::console::PrintView> {
        match (self, event) {
            (SetState::Running, SetEvent::CtrlC) => Some(
                crate::console::PrintView::Stdout("Ctrl-C received, cancelling jobs..."@),
            ),
            (SetState::Running, SetEvent::AllDone) => Some(
                crate::console::PrintView::Stdout("All jobs completed"@),
            ),
            _ => None,
        }
    }

    /// The state after a number of events.
    pub open spec fn after(self, events: Seq<SetEvent>) -> SetState
        decreases events.len(),
    {
        if events.len() == 0 {
            self
        } else {
            self.after(events.drop_last()).next(events.last())
        }
    }

    /// The beginning.
    pub fn start() -> (r: SetState)
        ensures
            r == SetState::Running,
    {
        SetState::Running
    }

    /// Goes on with an event.
    pub fn step(self, event: SetEvent) -> (r: (SetState, Option<Print>))
        ensures
            r.0 == self.next(event),
            match r.1 {
                Some(print) => self.tells(event) == Some(print@),
                None => self.tells(event) is None,
            },
    {
        match (self, event) {
            (SetState::Running, SetEvent::CtrlC) => (
                SetState::Cancelling,
                Some(Print::Stdout("Ctrl-C received, cancelling jobs...".to_owned())),
            ),
            (SetState::Running, SetEvent::AllDone) => (
                SetState::Done,
                Some(Print::Stdout("All jobs completed".to_owned())),
            ),
            (_, SetEvent::AllDone) => (SetState::Done, None),
            (state, _) => (state, None),
        }
    }
}

/// A set is over exactly when all of its jobs are, after an interrupt as without one.
pub proof fn law_set_waits_for_all(events: Seq<SetEvent>)
    ensures
        SetState::Running.after(events) is Done <==> events.contains(SetEvent::AllDone),
    decreases events.len(),
{
    if events.len() > 0 {
        let front = events.drop_last();
        law_set_waits_for_all(front);
        if front.contains(SetEvent::AllDone) {
            let i = choose|i: int| 0 <= i < front.len() && front[i] == SetEvent::AllDone;
            assert(events[i] == SetEvent::AllDone);
        }
        if events.last() == SetEvent::AllDone {
            assert(events[events.len() - 1] == SetEvent::AllDone);
        } else if events.contains(SetEvent::AllDone) {
            let i = choose|i: int| 0 <= i < events.len() && events[i] == SetEvent::AllDone;
            assert(front[i] == SetEvent::AllDone);
        }
    }
}

/// Jobs are cancelled exactly when an interrupt comes before the end of all of them, and no
/// further interrupt changes that.
pub proof fn law_set_cancels_on_interrupt(events: Seq<SetEvent>)
    ensures
        SetState::Running.after(events) is Cancelling <==> events.contains(SetEvent::CtrlC)
            && !events.contains(SetEvent::AllDone),
    decreases events.len(),
{
    law_set_waits_for_all(events);
    if events.len() > 0 {
        let front = events.drop_last();
        law_set_cancels_on_interrupt(front);
        law_set_waits_for_all(front);
        if front.contains(SetEvent::CtrlC) {
            let i = choose|i: int| 0 <= i < front.len() && front[i] == SetEvent::CtrlC;
            assert(events[i] == SetEvent::CtrlC);
        }
        if events.last() == SetEvent::CtrlC {
            assert(events[events.len() - 1] == SetEvent::CtrlC);
        } else if events.contains(SetEvent::CtrlC) {
            let i = choose|i: int| 0 <= i < events.len() && events[i] == SetEvent::CtrlC;
            assert(front[i] == SetEvent::CtrlC);
        }
    }
}

/// A single set runs alone and without a header. Of several sets, each runs at the position that
/// the configuration gives it, behind the header with the number of that position.
pub proof fn law_job_sets_keep_jobs(jobs: Jobs, i: int)
    ensures
        match jobs {
            Jobs::Single(set) => job_sets_of(jobs).len() == 1 && job_sets_of(jobs)[0].jobs == set@
                && job_sets_of(jobs)[0].header is None,
            Jobs::Multiple(sets) => job_sets_of(jobs).len() == sets@.len() && (0 <= i
                < sets@.len() ==> job_sets_of(jobs)[i].jobs == sets@[i]@
                && job_sets_of(jobs)[i].header == Some(set_header(i))
                && job_sets_of(jobs)[i].header == Some(
                "Running job set "@ + crate::text::decimal(i as nat) + ":"@,
            )),
        },
{
}

/// No set of a configuration is lost, added or moved: one set runs alone and without a header, and
/// several run in their order, each with all of its jobs behind the header with its number,
/// counted from 0.
pub proof fn law_sets_run_in_order(config: Config, r: Vec<JobSet>)
    requires
        call_ensures(Config::job_sets, (config,), r),
    ensures
        match config.jobs {
            Jobs::Single(set) => r@.len() == 1 && r@[0].header is None && r@[0].jobs@ == set@,
            Jobs::Multiple(sets) => r@.len() == sets@.len() && forall|i: int|
                0 <= i < sets@.len() ==> (#[trigger] r@[i]).jobs@ == sets@[i]@ && (
                r@[i].header matches Some(header) && header@ == "Running job set "@
                    + crate::text::decimal(i as nat) + ":"@),
        },
{
    let views = job_sets_view(r@);
    let expected = job_sets_of(config.jobs);
    assert forall|i: int| 0 <= i < r@.len() implies (#[trigger] r@[i])@ == expected[i] by {
        assert(views[i] == r@[i]@);
    }
    assert(views.len() == r@.len());
    if config.jobs is Single {
        assert(r@[0]@ == expected[0]);
    }
}

/// Every job of a set is started, in its place, under its own name, which is plain or in the colour
/// of that place.
pub proof fn law_all_jobs_are_started(jobs: Vec<(String, Job)>, r: Vec<(String, Job)>, i: int)
    requires
        call_ensures(run_jobs, (jobs,), r),
        0 <= i < jobs@.len(),
    ensures
        r@.len() == jobs@.len(),
        r@[i].1@ == jobs@[i].1@,
        r@[i].0@ == jobs@[i].0@ || r@[i].0@ == crate::console::paint(
            if i % 6 == 0 || i % 6 == 4 {
                "95"@
            } else if i % 6 == 1 {
                "92"@
            } else if i % 6 == 2 {
                "93"@
            } else if i % 6 == 3 {
                "94"@
            } else {
                "96"@
            },
            jobs@[i].0@,
        ),
        crate::console::coloured(crate::console::job_tint(i), jobs@[i].0@, r@[i].0@),
{
    let started = crate::table::entries_view(r@);
    let stated = crate::table::entries_view(jobs@);
    assert(started[i] == (r@[i].0@, r@[i].1@));
    assert(stated[i] == (jobs@[i].0@, jobs@[i].1@));
}

/// Labels change names and nothing else.
pub proof fn law_labels_change_names(
    names: Vec<String>,
    jobs: Vec<(String, Job)>,
    r: Vec<(String, Job)>,
    i: int,
)
    requires
        call_ensures(label_jobs, (names, jobs), r),
        names@.len() == jobs@.len(),
        0 <= i < jobs@.len(),
    ensures
        r@.len() == jobs@.len(),
        r@[i].0@ == names@[i]@,
        r@[i].1@ == jobs@[i].1@,
{
    let given = crate::table::entries_view(r@);
    let stated = crate::table::entries_view(jobs@);
    assert(given == labelled(names.deep_view(), stated));
    assert(given.len() == stated.len());
    assert(given[i] == (r@[i].0@, r@[i].1@));
    assert(stated[i] == (jobs@[i].0@, jobs@[i].1@));
}

/// A set begins with all of its jobs running. What each event leads to: an interrupt of running
/// jobs to their cancellation, the end of all jobs to the end of the set, and nothing else changes
/// anything.
pub proof fn law_set_steps(
    begun: SetState,
    state: SetState,
    event: SetEvent,
    r: (SetState, Option<Print>),
)
    requires
        call_ensures(SetState::start, (), begun),
        call_ensures(SetState::step, (state, event), r),
    ensures
        begun == SetState::Running,
        r.0 == state.next(event),
        event is AllDone ==> r.0 == SetState::Done,
        event is CtrlC ==> r.0 == if state is Running {
            SetState::Cancelling
        } else {
            state
        },
{
}

/// An interrupt is told once, and the end of all jobs only where there was no interrupt.
pub proof fn law_set_tells(state: SetState, event: SetEvent, r: (SetState, Option<Print>))
    requires
        call_ensures(SetState::step, (state, event), r),
    ensures
        r.1 is Some <==> state is Running,
        r.1 matches Some(print) ==> (print matches Print::Stdout(text) && text@ == if event
            is CtrlC {
            "Ctrl-C received, cancelling jobs..."@
        } else {
            "All jobs completed"@
        }),
{
}

} // verus!
