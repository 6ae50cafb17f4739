//! The commands that jobs run: program, arguments and surroundings of a process.
use crate::config::{Cmdline, Job, SingleJob};
use crate::error::Error;
use crate::table::Table;
use crate::text::split_ascii_whitespace;
use vstd::prelude::*;

verus! {

/// What a stream of a process is bound to.
#[derive(Debug, Clone, Copy, PartialEq, Eq, Structural)]
pub enum StdioMode {
    /// Nothing: reads end at once, writes vanish.
    Null,
    /// A pipe to the process that started it.
    Piped,
}

/// How a process is to be started. What is `None` is left as it is by default.
#[derive(Debug)]
pub struct Command {
    pub program: String,
    pub args: Vec<String>,
    /// The process is killed when its handle is dropped.
    pub kill_on_drop: bool,
    pub workdir: Option<String>,
    /// The process starts without the variables of the environment.
    pub env_clear: bool,
    /// Variables that are set for the process, after `env_clear`.
    pub envs: Option<Table<String>>,
    pub stdin: Option<StdioMode>,
    pub stdout: Option<StdioMode>,
    pub stderr: Option<StdioMode>,
}

/// How a process is to be started, by its text.
pub struct CommandView {
    pub program: Seq<char>,
    pub args: Seq<Seq<char>>,
    pub kill_on_drop: bool,
    pub workdir: Option<Seq<char>>,
    pub env_clear: bool,
    pub envs: Option<Seq<(Seq<char>, Seq<char>)>>,
    pub stdin: Option<StdioMode>,
    pub stdout: Option<StdioMode>,
    pub stderr: Option<StdioMode>,
}

impl View for Command {
    type V = CommandView;

    open spec fn view(&self) -> CommandView {
        CommandView {
            program: self.program@,
            args: self.args.deep_view(),
            kill_on_drop: self.kill_on_drop,
            workdir: match self.workdir {
                Some(workdir) => Some(workdir@),
                None => None,
            },
            env_clear: self.env_clear,
            envs: match self.envs {
                Some(envs) => Some(envs@),
                None => None,
            },
            stdin: self.stdin,
            stdout: self.stdout,
            stderr: self.stderr,
        }
    }
}

/// The command with the program and the arguments that `words` name, killed when dropped, and
/// otherwise as by default.
pub open spec fn command_of_words(words: Seq<Seq<char>>) -> CommandView {
    CommandView {
        program: words.first(),
        args: words.drop_first(),
        kill_on_drop: true,
        workdir: None,
        env_clear: false,
        envs: None,
        stdin: None,
        stdout: None,
        stderr: None,
    }
}

/// The command of a job: that of its command line, in its directory and environment, with no
/// input and with both outputs on pipes.
pub open spec fn command_of_job(job: crate::config::SingleJobView) -> CommandView {
    CommandView {
        workdir: job.workdir,
        env_clear: job.inherit_env == Some(false),
        envs: job.env,
        stdin: Some(StdioMode::Null),
        stdout: Some(StdioMode::Piped),
        stderr: Some(StdioMode::Piped),
        ..command_of_words(job.cmd.words())
    }
}

/// `r` is the command `c`; without words there is none, and `r` is the error that says so.
pub open spec fn is_command_of(
    r: Result<Command, Error>,
    words: Seq<Seq<char>>,
    c: CommandView,
) -> bool {
    if words.len() > 0 {
        r is Ok && r->Ok_0@ == c
    } else {
        r == Err::<Command, Error>(Error::EmptyCommand)
    }
}

impl Cmdline {
    /// The command of this command line.
    pub fn try_into(self) -> (r: Result<Command, Error>)
        ensures
            is_command_of(r, self@.words(), command_of_words(self@.words())),
    {
        let ghost words = self@.words();
        let mut cmdline = match self {
            Cmdline::Line(line) => split_ascii_whitespace(line.as_str()),
            Cmdline::Array(array) => array,
        };
        assert(cmdline.deep_view() == words);
        if cmdline.len() == 0 {
            return Err(Error::EmptyCommand);
        }
        let program = cmdline.remove(0);
        assert(program@ == words.first());
        assert(cmdline.deep_view() =~= words.drop_first());
        Ok(
            Command {
                program,
                args: cmdline,
                kill_on_drop: true,
                workdir: None,
                env_clear: false,
                envs: None,
                stdin: None,
                stdout: None,
                stderr: None,
            },
        )
    }
}

impl SingleJob {
    /// The command of this job.
    pub fn try_into(self) -> (r: Result<Command, Error>)
        ensures
            is_command_of(r, self@.cmd.words(), command_of_job(self@)),
    {
        let mut command = match self.cmd.try_into() {
            Ok(command) => command,
            Err(e) => {
                return Err(e);
            },
        };
        if let Some(workdir) = self.workdir {
            command.workdir = Some(workdir);
        }
        if let Some(false) = self.inherit_env {
            command.env_clear = true;
        }
        if let Some(envs) = self.env {
            command.envs = Some(envs);
        }
        command.stdin = Some(StdioMode::Null);
        command.stdout = Some(StdioMode::Piped);
        command.stderr = Some(StdioMode::Piped);
        Ok(command)
    }
}

/// A command that may take only so long.
#[derive(Debug)]
pub struct TimedCommand {
    pub command: Command,
    /// Milliseconds until it is given up.
    pub timeout: u64,
}

/// What can be run as a process.
pub trait CommandExt {
    /// The words of the command line.
    spec fn words(&self) -> Seq<Seq<char>>;

    /// The command, where there are words.
    spec fn command(&self) -> CommandView;

    /// The command to run and to watch.
    fn run(&self) -> (r: Result<Command, Error>)
        ensures
            is_command_of(r, self.words(), self.command()),
    ;

    /// The command to run for its success alone, and for how many milliseconds at most.
    fn success(&self, timeout: u64) -> (r: Result<TimedCommand, Error>)
        ensures
            if self.words().len() > 0 {
                r is Ok && r->Ok_0.command@ == self.command() && r->Ok_0.timeout == timeout
            } else {
                r == Err::<TimedCommand, Error>(Error::EmptyCommand)
            },
    ;
}

/// The command with a limit on its time, where there is a command.
fn timed(command: Result<Command, Error>, timeout: u64) -> (r: Result<TimedCommand, Error>)
    ensures
        r == match command {
            Ok(command) => Ok::<TimedCommand, Error>(TimedCommand { command, timeout }),
            Err(e) => Err(e),
        },
{
    match command {
        Ok(command) => Ok(TimedCommand { command, timeout }),
        Err(e) => Err(e),
    }
}

impl CommandExt for Cmdline {
    open spec fn words(&self) -> Seq<Seq<char>> {
        self@.words()
    }

    open spec fn command(&self) -> CommandView {
        command_of_words(self@.words())
    }

    fn run(&self) -> (r: Result<Command, Error>) {
        self.clone().try_into()
    }

    fn success(&self, timeout: u64) -> (r: Result<TimedCommand, Error>) {
        timed(self.clone().try_into(), timeout)
    }
}

impl CommandExt for SingleJob {
    open spec fn words(&self) -> Seq<Seq<char>> {
        self@.cmd.words()
    }

    open spec fn command(&self) -> CommandView {
        command_of_job(self@)
    }

    fn run(&self) -> (r: Result<Command, Error>) {
        self.clone().try_into()
    }

    fn success(&self, timeout: u64) -> (r: Result<TimedCommand, Error>) {
        timed(self.clone().try_into(), timeout)
    }
}

impl CommandExt for Job {
    open spec fn words(&self) -> Seq<Seq<char>> {
        match self@ {
            crate::config::JobView::Cmdline(cmdline) => cmdline.words(),
            crate::config::JobView::Job(job) => job.cmd.words(),
        }
    }

    open spec fn command(&self) -> CommandView {
        match self@ {
            crate::config::JobView::Cmdline(cmdline) => command_of_words(cmdline.words()),
            crate::config::JobView::Job(job) => command_of_job(job),
        }
    }

    fn run(&self) -> (r: Result<Command, Error>) {
        match self {
            Job::Cmdline(cmdline) => cmdline.run(),
            Job::Job(job) => job.run(),
        }
    }

    fn success(&self, timeout: u64) -> (r: Result<TimedCommand, Error>) {
        match self {
            Job::Cmdline(cmdline) => cmdline.success(timeout),
            Job::Job(job) => job.success(timeout),
        }
    }
}

/// A line and the array of its words are the same command, and words joined by single spaces
/// are the same command as the words themselves.
pub proof fn law_line_is_array(line: Seq<char>, array: Seq<Seq<char>>)
    requires
        forall|i: int| 0 <= i < array.len() ==> (#[trigger] array[i]).len() > 0,
        forall|i: int, j: int|
            0 <= i < array.len() && 0 <= j < array[i].len() ==> !crate::text::ascii_white_space(
                #[trigger] array[i][j],
            ),
    ensures
        crate::config::CmdlineView::Line(line).words() == crate::config::CmdlineView::Array(
            crate::text::words(line),
        ).words(),
        crate::config::CmdlineView::Line(crate::text::joined(array)).words()
            == crate::config::CmdlineView::Array(array).words(),
{
    crate::text::law_words_of_joined(array);
}

/// Nothing is lost between a command line and its command: the program and the arguments are
/// the words, in order.
pub proof fn law_command_holds_words(words: Seq<Seq<char>>)
    requires
        words.len() > 0,
    ensures
        seq![command_of_words(words).program] + command_of_words(words).args == words,
        command_of_words(words).kill_on_drop,
{
    assert(seq![words.first()] + words.drop_first() =~= words);
}

/// Of a job's command, only the program and the arguments come from its command line; delay and
/// restart policy leave no trace in it, and the environment is dropped only where the job says
/// that it is not inherited. The variables and the directory are those of the job, whatever else
/// it says.
pub proof fn law_command_of_job(a: crate::config::SingleJobView, b: crate::config::SingleJobView)
    requires
        a.cmd == b.cmd,
        a.workdir == b.workdir,
        a.env == b.env,
        a.inherit_env == Some(false) <==> b.inherit_env == Some(false),
    ensures
        command_of_job(a) == command_of_job(b),
        command_of_job(a).program == command_of_words(a.cmd.words()).program,
        command_of_job(a).args == command_of_words(a.cmd.words()).args,
        command_of_job(a).env_clear <==> a.inherit_env == Some(false),
        command_of_job(a).envs == a.env,
        command_of_job(a).workdir == a.workdir,
        command_of_job(a).stdin == Some(StdioMode::Null),
        command_of_job(a).stdout == Some(StdioMode::Piped),
        command_of_job(a).stderr == Some(StdioMode::Piped),
        command_of_job(a).kill_on_drop,
{
}

/// The command of a command line is its words, the first as the program and the others as its
/// arguments; nothing else of the process is changed, and without a word there is no command.
pub proof fn law_cmdline_command(cmdline: Cmdline, r: Result<Command, Error>)
    requires
        call_ensures(Cmdline::try_into, (cmdline,), r),
    ensures
        ({
            let words = match cmdline {
                Cmdline::Line(line) => crate::text::words(line@),
                Cmdline::Array(array) => array.deep_view(),
            };
            if words.len() == 0 {
                r == Err::<Command, Error>(Error::EmptyCommand)
            } else {
                r matches Ok(command) && command.program@ == words[0] && command.args.deep_view()
                    == words.subrange(1, words.len() as int) && command.kill_on_drop
                    && command.workdir is None && !command.env_clear && command.envs is None
                    && command.stdin is None && command.stdout is None && command.stderr is None
            }
        }),
{
}

/// The command of a job is that of its command line, with the directory and the variables that the
/// job states, each whatever else it says; without the environment exactly where the job says so;
/// with no input and with both outputs on pipes.
pub proof fn law_job_command(job: SingleJob, r: Result<Command, Error>)
    requires
        call_ensures(SingleJob::try_into, (job,), r),
    ensures
        ({
            let words = match job.cmd {
                Cmdline::Line(line) => crate::text::words(line@),
                Cmdline::Array(array) => array.deep_view(),
            };
            if words.len() == 0 {
                r == Err::<Command, Error>(Error::EmptyCommand)
            } else {
                r matches Ok(command) && command.program@ == words[0] && command.args.deep_view()
                    == words.subrange(1, words.len() as int) && command.kill_on_drop && (match (
                    job.workdir,
                    command.workdir,
                ) {
                    (Some(stated), Some(set)) => stated@ == set@,
                    (None, None) => true,
                    _ => false,
                }) && (match (job.env, command.envs) {
                    (Some(stated), Some(set)) => stated@ == set@,
                    (None, None) => true,
                    _ => false,
                }) && (command.env_clear <==> job.inherit_env == Some(false)) && command.stdin
                    == Some(StdioMode::Null) && command.stdout == Some(StdioMode::Piped)
                    && command.stderr == Some(StdioMode::Piped)
            }
        }),
{
}

/// Running a command line runs its command, and running it for its success alone runs the same
/// command with the limit that is given.
pub proof fn law_cmdline_runs_its_command(
    cmdline: Cmdline,
    timeout: u64,
    command: Result<Command, Error>,
    run: Result<Command, Error>,
    tried: Result<TimedCommand, Error>,
)
    requires
        call_ensures(Cmdline::try_into, (cmdline,), command),
        call_ensures(<Cmdline as CommandExt>::run, (&cmdline,), run),
        call_ensures(<Cmdline as CommandExt>::success, (&cmdline, timeout), tried),
    ensures
        match (command, run, tried) {
            (Ok(a), Ok(b), Ok(c)) => a@ == b@ && a@ == c.command@ && c.timeout == timeout,
            (Err(a), Err(b), Err(c)) => a == b && a == c,
            _ => false,
        },
{
}

/// Running a job runs its command, and running it for its success alone runs the same command with
/// the limit that is given.
pub proof fn law_job_runs_its_command(
    job: SingleJob,
    timeout: u64,
    command: Result<Command, Error>,
    run: Result<Command, Error>,
    tried: Result<TimedCommand, Error>,
)
    requires
        call_ensures(SingleJob::try_into, (job,), command),
        call_ensures(<SingleJob as CommandExt>::run, (&job,), run),
        call_ensures(<SingleJob as CommandExt>::success, (&job, timeout), tried),
    ensures
        match (command, run, tried) {
            (Ok(a), Ok(b), Ok(c)) => a@ == b@ && a@ == c.command@ && c.timeout == timeout,
            (Err(a), Err(b), Err(c)) => a == b && a == c,
            _ => false,
        },
{
}

/// A job of either kind runs as what it is: a bare command line as a command line, a full
/// description as a job.
pub proof fn law_any_job_runs_its_command(
    cmdline: Cmdline,
    job: SingleJob,
    timeout: u64,
    of_cmdline: Result<Command, Error>,
    of_job: Result<Command, Error>,
    run: Result<Command, Error>,
    tried: Result<TimedCommand, Error>,
)
    requires
        call_ensures(Cmdline::try_into, (cmdline,), of_cmdline),
        call_ensures(SingleJob::try_into, (job,), of_job),
    ensures
        call_ensures(<Job as CommandExt>::run, (&Job::Cmdline(cmdline),), run) && call_ensures(
            <Job as CommandExt>::success,
            (&Job::Cmdline(cmdline), timeout),
            tried,
        ) ==> match (of_cmdline, run, tried) {
            (Ok(a), Ok(b), Ok(c)) => a@ == b@ && a@ == c.command@ && c.timeout == timeout,
            (Err(a), Err(b), Err(c)) => a == b && a == c,
            _ => false,
        },
        call_ensures(<Job as CommandExt>::run, (&Job::Job(job),), run) && call_ensures(
            <Job as CommandExt>::success,
            (&Job::Job(job), timeout),
            tried,
        ) ==> match (of_job, run, tried) {
            (Ok(a), Ok(b), Ok(c)) => a@ == b@ && a@ == c.command@ && c.timeout == timeout,
            (Err(a), Err(b), Err(c)) => a == b && a == c,
            _ => false,
        },
{
}

} // verus!
