use pa::command::{Command, CommandExt, StdioMode};
use pa::config::{Cmdline, Job, Restart, SingleJob};
use pa::table::Table;

fn line(s: &str) -> Cmdline {
    Cmdline::Line(s.to_string())
}

fn array(words: &[&str]) -> Cmdline {
    Cmdline::Array(words.iter().map(|w| w.to_string()).collect())
}

fn job(cmd: Cmdline) -> SingleJob {
    SingleJob { cmd, workdir: None, env: None, inherit_env: None, delay: None, restart: None }
}

fn words(command: &Command) -> Vec<String> {
    let mut words = vec![command.program.clone()];
    words.extend(command.args.iter().cloned());
    words
}

#[test]
fn line_is_cut_into_program_and_arguments() {
    let command = line("  docker run\t-it  alpine ").try_into().unwrap();
    assert_eq!(command.program, "docker");
    assert_eq!(command.args, vec!["run", "-it", "alpine"]);
    assert!(command.kill_on_drop);
    assert!(!command.env_clear);
    assert!(command.workdir.is_none());
    assert!(command.envs.is_none());
    assert_eq!((command.stdin, command.stdout, command.stderr), (None, None, None));
}

#[test]
fn array_is_taken_as_it_is() {
    let command = array(&["sh", "-c", "echo a b"]).try_into().unwrap();
    assert_eq!(command.program, "sh");
    assert_eq!(command.args, vec!["-c", "echo a b"]);
    let command = array(&["", ""]).try_into().unwrap();
    assert_eq!(words(&command), vec!["", ""]);
    assert!(array(&["top"]).try_into().unwrap().args.is_empty());
}

#[test]
fn line_and_array_of_its_words_are_one_command() {
    let by_line = line("a b c").try_into().unwrap();
    let by_array = array(&["a", "b", "c"]).try_into().unwrap();
    assert_eq!(format!("{by_line:?}"), format!("{by_array:?}"));
}

#[test]
fn command_without_words_is_an_error() {
    for cmd in [line(""), line(" \t\n"), array(&[])] {
        assert_eq!(cmd.run().unwrap_err().message(), "Command is empty");
        assert_eq!(cmd.success(1).unwrap_err().message(), "Command is empty");
        let full = job(cmd.clone());
        assert_eq!(full.run().unwrap_err().message(), "Command is empty");
        assert_eq!(full.success(1).unwrap_err().message(), "Command is empty");
        assert_eq!(full.try_into().unwrap_err().message(), "Command is empty");
        assert_eq!(Job::Cmdline(cmd.clone()).run().unwrap_err().message(), "Command is empty");
        assert_eq!(cmd.try_into().unwrap_err().message(), "Command is empty");
    }
}

#[test]
fn job_command_has_pipes_and_no_input() {
    let command = job(line("ls")).try_into().unwrap();
    assert_eq!(command.stdin, Some(StdioMode::Null));
    assert_eq!(command.stdout, Some(StdioMode::Piped));
    assert_eq!(command.stderr, Some(StdioMode::Piped));
    assert!(command.kill_on_drop);
}

#[test]
fn job_command_has_directory_and_environment() {
    let full = SingleJob {
        workdir: Some("/srv".to_string()),
        env: Some(Table::new().with("A".to_string(), "1".to_string())),
        inherit_env: Some(false),
        restart: Some(Restart::Always),
        ..job(line("make all"))
    };
    let command = full.run().unwrap();
    assert_eq!(words(&command), vec!["make", "all"]);
    assert_eq!(command.workdir.as_deref(), Some("/srv"));
    assert!(command.env_clear);
    let envs = command.envs.unwrap().into_entries();
    assert_eq!(envs, vec![("A".to_string(), "1".to_string())]);
}

#[test]
fn environment_is_inherited_unless_refused() {
    for (inherit_env, cleared) in [(None, false), (Some(true), false), (Some(false), true)] {
        let full = SingleJob { inherit_env, ..job(line("env")) };
        assert_eq!(full.try_into().unwrap().env_clear, cleared);
    }
}

#[test]
fn timed_commands_carry_their_limit() {
    let timed = line("curl -f localhost").success(10_000).unwrap();
    assert_eq!(timed.timeout, 10_000);
    assert_eq!(words(&timed.command), vec!["curl", "-f", "localhost"]);
    assert_eq!(timed.command.stdout, None);
    let timed = job(line("ls")).success(7).unwrap();
    assert_eq!(timed.timeout, 7);
    assert_eq!(timed.command.stdout, Some(StdioMode::Piped));
}

#[test]
fn jobs_run_what_they_hold() {
    let bare = Job::Cmdline(line("ls -l"));
    assert_eq!(words(&bare.run().unwrap()), vec!["ls", "-l"]);
    assert_eq!(bare.run().unwrap().stdout, None);
    assert_eq!(bare.success(3).unwrap().timeout, 3);
    let full = Job::Job(job(line("ls -l")));
    assert_eq!(full.run().unwrap().stdout, Some(StdioMode::Piped));
    assert_eq!(full.success(4).unwrap().timeout, 4);
}
