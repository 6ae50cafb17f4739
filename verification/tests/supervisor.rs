use pa::config::{Cmdline, Config, Job, Jobs};
use pa::console::Print;
use pa::supervisor::{label_jobs, run_jobs, SetEvent, SetState};
use pa::table::Table;

fn job(s: &str) -> Job {
    Job::Cmdline(Cmdline::Line(s.to_string()))
}

fn table(names: &[&str]) -> Table<Job> {
    let mut table = Table::new();
    for name in names {
        table = table.with(name.to_string(), job(name));
    }
    table
}

fn names(table: Table<Job>) -> Vec<String> {
    table.into_entries().into_iter().map(|e| e.0).collect()
}

fn out(print: Option<Print>) -> Option<String> {
    match print {
        Some(Print::Stdout(text)) => Some(text),
        Some(Print::Stderr(text)) => panic!("{text}"),
        None => None,
    }
}

#[test]
fn jobs_are_named_by_position() {
    colored::control::set_override(true);
    let jobs = table(&["a", "b", "c", "d", "e", "f", "g"]).into_entries();
    let named = run_jobs(jobs);
    let codes = ["95", "92", "93", "94", "95", "96", "95"];
    assert_eq!(named.len(), 7);
    for (i, (name, job)) in named.iter().enumerate() {
        let plain = ["a", "b", "c", "d", "e", "f", "g"][i];
        assert_eq!(name, &format!("\x1b[{}m{plain}\x1b[0m", codes[i]));
        match job {
            Job::Cmdline(Cmdline::Line(line)) => assert_eq!(line, plain),
            other => panic!("{other:?}"),
        }
    }
    assert!(run_jobs(vec![]).is_empty());
}

#[test]
fn labels_replace_the_names() {
    let names = vec!["x".to_string(), "\x1b[92my\x1b[0m".to_string()];
    let labelled = label_jobs(names.clone(), table(&["a", "b"]).into_entries());
    assert_eq!(labelled.len(), 2);
    for (i, (name, job)) in labelled.iter().enumerate() {
        assert_eq!(name, &names[i]);
        match job {
            Job::Cmdline(Cmdline::Line(line)) => assert_eq!(line, ["a", "b"][i]),
            other => panic!("{other:?}"),
        }
    }
    assert!(label_jobs(vec![], vec![]).is_empty());
}

#[test]
fn single_set_has_no_header() {
    let mut sets = Config { jobs: Jobs::Single(table(&["a", "b"])) }.job_sets();
    assert_eq!(sets.len(), 1);
    let set = sets.remove(0);
    assert!(set.header.is_none());
    assert_eq!(names(set.jobs), vec!["a", "b"]);
}

#[test]
fn several_sets_run_in_order() {
    let tables = (0..12).map(|i| table(&[&format!("job{i}")])).collect();
    let sets = Config { jobs: Jobs::Multiple(tables) }.job_sets();
    assert_eq!(sets.len(), 12);
    for (i, set) in sets.into_iter().enumerate() {
        assert_eq!(set.header, Some(format!("Running job set {i}:")));
        assert_eq!(names(set.jobs), vec![format!("job{i}")]);
    }
    assert!(Config { jobs: Jobs::Multiple(vec![]) }.job_sets().is_empty());
}

#[test]
fn set_ends_with_its_jobs() {
    let (state, print) = SetState::start().step(SetEvent::AllDone);
    assert_eq!(state, SetState::Done);
    assert_eq!(out(print), Some("All jobs completed".to_string()));
}

#[test]
fn interrupt_cancels_and_waits() {
    let (state, print) = SetState::start().step(SetEvent::CtrlC);
    assert_eq!(state, SetState::Cancelling);
    assert_eq!(out(print), Some("Ctrl-C received, cancelling jobs...".to_string()));
    let (state, print) = state.step(SetEvent::CtrlC);
    assert_eq!(state, SetState::Cancelling);
    assert_eq!(out(print), None);
    let (state, print) = state.step(SetEvent::AllDone);
    assert_eq!(state, SetState::Done);
    assert_eq!(out(print), None);
    assert_eq!(state.step(SetEvent::CtrlC).0, SetState::Done);
}
