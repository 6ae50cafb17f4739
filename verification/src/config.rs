//! The configuration: what it holds, and where it is found.
use crate::error::Error;
use crate::table::Table;
use crate::text::{file_extension, same_text};
use vstd::prelude::*;

verus! {

/// The formats of a configuration file.
#[derive(Debug, Clone, Copy, PartialEq, Eq, Structural)]
pub enum ArgsConfigFormat {
    Json,
    Yaml,
    Toml,
}

/// The arguments of the program.
#[derive(Debug)]
pub struct Args {
    pub config_file: Option<String>,
    pub config_format: Option<ArgsConfigFormat>,
}

/// The command line of a process.
#[derive(Debug)]
pub enum Cmdline {
    /// A line that is cut into words at ASCII white space.
    Line(String),
    /// The words themselves.
    Array(Vec<String>),
}

/// A command that is tried again and again until it succeeds.
#[derive(Debug)]
pub struct TestCommand {
    /// Milliseconds from one try to the next.
    pub interval: u64,
    pub cmd: Cmdline,
}

/// What a job waits for before it starts.
#[derive(Debug)]
pub enum Delay {
    /// A number of milliseconds.
    ConstantDuration(u64),
    /// The success of a command.
    Command(TestCommand),
}

/// When a job is started again after it ended.
#[derive(Debug, Clone, Copy, PartialEq, Eq, Structural)]
pub enum Restart {
    Always,
    Never,
    OnFailure,
}

/// A job with all that can be said of it.
#[derive(Debug)]
pub struct SingleJob {
    pub cmd: Cmdline,
    pub workdir: Option<String>,
    pub env: Option<Table<String>>,
    pub inherit_env: Option<bool>,
    pub delay: Option<Delay>,
    pub restart: Option<Restart>,
}

/// A job: a bare command line, or a full description.
#[derive(Debug)]
pub enum Job {
    Cmdline(Cmdline),
    Job(SingleJob),
}

/// The jobs of a configuration.
#[derive(Debug)]
pub enum Jobs {
    /// One set, whose jobs run side by side.
    Single(Table<Job>),
    /// Sets that run one after the other.
    Multiple(Vec<Table<Job>>),
}

/// A configuration.
#[derive(Debug)]
pub struct Config {
    pub jobs: Jobs,
}

/// A command line, by its text.
pub enum CmdlineView {
    Line(Seq<char>),
    Array(Seq<Seq<char>>),
}

/// A command that is tried until it succeeds, by its text.
pub struct TestCommandView {
    pub interval: u64,
    pub cmd: CmdlineView,
}

/// What a job waits for, by its text.
pub enum DelayView {
    ConstantDuration(u64),
    Command(TestCommandView),
}

/// A job with all that can be said of it, by its text.
pub struct SingleJobView {
    pub cmd: CmdlineView,
    pub workdir: Option<Seq<char>>,
    pub env: Option<Seq<(Seq<char>, Seq<char>)>>,
    pub inherit_env: Option<bool>,
    pub delay: Option<DelayView>,
    pub restart: Option<Restart>,
}

/// A job, by its text.
pub enum JobView {
    Cmdline(CmdlineView),
    Job(SingleJobView),
}

impl CmdlineView {
    /// The words of the command line.
    pub open spec fn words(self) -> Seq<Seq<char>> {
        match self {
            CmdlineView::Line(line) => crate::text::words(line),
            CmdlineView::Array(array) => array,
        }
    }

    /// The job that runs this command line and says nothing more.
    pub open spec fn job(self) -> SingleJobView {
        SingleJobView {
            cmd: self,
            workdir: None,
            env: None,
            inherit_env: None,
            delay: None,
            restart: None,
        }
    }
}

impl View for Cmdline {
    type V = CmdlineView;

    open spec fn view(&self) -> CmdlineView {
        match self {
            Cmdline::Line(line) => CmdlineView::Line(line@),
            Cmdline::Array(array) => CmdlineView::Array(array.deep_view()),
        }
    }
}

impl View for TestCommand {
    type V = TestCommandView;

    open spec fn view(&self) -> TestCommandView {
        TestCommandView { interval: self.interval, cmd: self.cmd@ }
    }
}

impl View for Delay {
    type V = DelayView;

    open spec fn view(&self) -> DelayView {
        match self {
            Delay::ConstantDuration(duration) => DelayView::ConstantDuration(*duration),
            Delay::Command(command) => DelayView::Command(command@),
        }
    }
}

impl View for SingleJob {
    type V = SingleJobView;

    open spec fn view(&self) -> SingleJobView {
        SingleJobView {
            cmd: self.cmd@,
            workdir: match self.workdir {
                Some(workdir) => Some(workdir@),
                None => None,
            },
            env: match self.env {
                Some(env) => Some(env@),
                None => None,
            },
            inherit_env: self.inherit_env,
            delay: match self.delay {
                Some(delay) => Some(delay@),
                None => None,
            },
            restart: self.restart,
        }
    }
}

impl View for Job {
    type V = JobView;

    open spec fn view(&self) -> JobView {
        match self {
            Job::Cmdline(cmdline) => JobView::Cmdline(cmdline@),
            Job::Job(job) => JobView::Job(job@),
        }
    }
}

/// The texts of `v`, copied.
fn clone_texts(v: &Vec<String>) -> (r: Vec<String>)
    ensures
        r.deep_view() == v.deep_view(),
{
    let mut r: Vec<String> = Vec::new();
    let len: usize = v.len();
    let mut i: usize = 0;
    while i < len
        invariant
            i <= len,
            len == v@.len(),
            r@ == v@.take(i as int),
        decreases len - i,
    {
        r.push(v[i].clone());
        i = i + 1;
        assert(r@ =~= v@.take(i as int));
    }
    assert(r@ =~= v@);
    r
}

impl Clone for Cmdline {
    fn clone(&self) -> (r: Self)
        ensures
            r@ == self@,
    {
        match self {
            Cmdline::Line(line) => Cmdline::Line(line.clone()),
            Cmdline::Array(array) => Cmdline::Array(clone_texts(array)),
        }
    }
}

impl Clone for TestCommand {
    fn clone(&self) -> (r: Self)
        ensures
            r@ == self@,
    {
        TestCommand { interval: self.interval, cmd: self.cmd.clone() }
    }
}

impl Clone for Delay {
    fn clone(&self) -> (r: Self)
        ensures
            r@ == self@,
    {
        match self {
            Delay::ConstantDuration(duration) => Delay::ConstantDuration(*duration),
            Delay::Command(command) => Delay::Command(command.clone()),
        }
    }
}

impl Clone for SingleJob {
    fn clone(&self) -> (r: Self)
        ensures
            r@ == self@,
    {
        SingleJob {
            cmd: self.cmd.clone(),
            workdir: match &self.workdir {
                Some(workdir) => Some(workdir.clone()),
                None => None,
            },
            env: match &self.env {
                Some(env) => Some(env.clone()),
                None => None,
            },
            inherit_env: self.inherit_env,
            delay: match &self.delay {
                Some(delay) => Some(delay.clone()),
                None => None,
            },
            restart: self.restart,
        }
    }
}

impl Clone for Job {
    fn clone(&self) -> (r: Self)
        ensures
            r@ == self@,
    {
        match self {
            Job::Cmdline(cmdline) => Job::Cmdline(cmdline.clone()),
            Job::Job(job) => Job::Job(job.clone()),
        }
    }
}

/// The policy where none may be given: a job is not started again.
pub open spec fn restart_or_never(restart: Option<Restart>) -> Restart {
    match restart {
        Some(restart) => restart,
        None => Restart::Never,
    }
}

impl From<Option<Restart>> for Restart {
    fn from(restart: Option<Restart>) -> (r: Self) {
        match restart {
            Some(restart) => restart,
            None => Restart::Never,
        }
    }
}

impl vstd::std_specs::convert::FromSpecImpl<Option<Restart>> for Restart {
    open spec fn obeys_from_spec() -> bool {
        true
    }

    open spec fn from_spec(restart: Option<Restart>) -> Restart {
        restart_or_never(restart)
    }
}

/// Where the configuration comes from.
#[derive(Debug)]
pub enum ConfigSource {
    /// A file, in a format.
    File { path: String, format: ArgsConfigFormat },
    /// The first default file that exists.
    AutoFind,
}

/// The format that a file extension stands for.
pub open spec fn format_of_extension(ext: Seq<char>) -> Option<ArgsConfigFormat> {
    if ext == "json"@ {
        Some(ArgsConfigFormat::Json)
    } else if ext == "yaml"@ || ext == "yml"@ {
        Some(ArgsConfigFormat::Yaml)
    } else if ext == "toml"@ {
        Some(ArgsConfigFormat::Toml)
    } else {
        None
    }
}

impl ArgsConfigFormat {
    /// The format that a file extension stands for, if any.
    pub fn from_extension(ext: &str) -> (r: Option<ArgsConfigFormat>)
        ensures
            r == format_of_extension(ext@),
    {
        if same_text(ext, "json") {
            Some(ArgsConfigFormat::Json)
        } else if same_text(ext, "yaml") || same_text(ext, "yml") {
            Some(ArgsConfigFormat::Yaml)
        } else if same_text(ext, "toml") {
            Some(ArgsConfigFormat::Toml)
        } else {
            None
        }
    }
}

impl Args {
    /// Where the arguments say that the configuration comes from. A format that is given holds;
    /// otherwise the extension of the file decides, and one that stands for no format is an
    /// error. Without a file, the default files are searched, whatever format is given.
    pub fn try_into(self) -> (r: Result<ConfigSource, Error>)
        ensures
            match (self.config_file, self.config_format) {
                (None, _) => r == Ok::<ConfigSource, Error>(ConfigSource::AutoFind),
                (Some(path), Some(format)) => r == Ok::<ConfigSource, Error>(
                    ConfigSource::File { path, format },
                ),
                (Some(path), None) => match format_of_extension(crate::text::extension(path@)) {
                    Some(format) => r == Ok::<ConfigSource, Error>(
                        ConfigSource::File { path, format },
                    ),
                    None => r is Err && r->Err_0 is UnsupportedFormat
                        && r->Err_0->UnsupportedFormat_0@ == crate::text::extension(path@),
                },
            },
    {
        match self.config_file {
            Some(path) => match self.config_format {
                Some(format) => Ok(ConfigSource::File { path, format }),
                None => {
                    let ext = file_extension(path.as_str()).to_owned();
                    match ArgsConfigFormat::from_extension(ext.as_str()) {
                        Some(format) => Ok(ConfigSource::File { path, format }),
                        None => Err(Error::UnsupportedFormat(ext)),
                    }
                },
            },
            None => Ok(ConfigSource::AutoFind),
        }
    }
}

/// How many default configuration files there are.
pub const DEFAULT_FILES: usize = 4;

/// The path of the default configuration file at position `i`.
pub open spec fn default_path(i: int) -> Seq<char> {
    if i == 0 {
        "./pa.yaml"@
    } else if i == 1 {
        "./pa.json"@
    } else if i == 2 {
        "./pa.yml"@
    } else {
        "./pa.toml"@
    }
}

/// The format of the default configuration file at position `i`.
pub open spec fn default_format(i: int) -> ArgsConfigFormat {
    if i == 1 {
        ArgsConfigFormat::Json
    } else if i == 0 || i == 2 {
        ArgsConfigFormat::Yaml
    } else {
        ArgsConfigFormat::Toml
    }
}

/// The search for a default configuration file.
#[derive(Debug, Clone, Copy, PartialEq, Eq, Structural)]
pub enum AutoFind {
    /// Look whether the default file at this position exists.
    Probe(usize),
    /// The default file at this position is the one.
    Found(usize),
    /// There is none.
    NotFound,
}

impl AutoFind {
    /// The search after the answer to a probe.
    pub open spec fn next(self, found: bool) -> AutoFind {
        match self {
            AutoFind::Probe(i) => if found {
                AutoFind::Found(i)
            } else if i < DEFAULT_FILES - 1 {
                AutoFind::Probe((i + 1) as usize)
            } else {
                AutoFind::NotFound
            },
            _ => self,
        }
    }

    /// The search after `n` probes, where `there` tells which paths exist.
    pub open spec fn after(self, there: spec_fn(Seq<char>) -> bool, n: nat) -> AutoFind
        decreases n,
    {
        if n == 0 {
            self
        } else {
            let s = self.after(there, (n - 1) as nat);
            match s {
                AutoFind::Probe(i) => s.next(there(default_path(i as int))),
                _ => s,
            }
        }
    }

    /// A search that begins.
    pub fn start() -> (r: AutoFind)
        ensures
            r == AutoFind::Probe(0),
    {
        AutoFind::Probe(0)
    }

    /// The path to probe, while the search goes on.
    pub fn probe(&self) -> (r: Option<String>)
        ensures
            match self {
                AutoFind::Probe(i) => r is Some && r->0@ == default_path(*i as int),
                _ => r is None,
            },
    {
        match self {
            AutoFind::Probe(i) => Some(default_file_path(*i)),
            _ => None,
        }
    }

    /// Goes on with the answer to a probe.
    pub fn step(self, found: bool) -> (r: AutoFind)
        ensures
            r == self.next(found),
    {
        match self {
            AutoFind::Probe(i) => if found {
                AutoFind::Found(i)
            } else if i < DEFAULT_FILES - 1 {
                AutoFind::Probe(i + 1)
            } else {
                AutoFind::NotFound
            },
            _ => self,
        }
    }

    /// What the search came to: the file to read and its format, or the error that there is
    /// none. Nothing while it goes on.
    pub fn result(&self) -> (r: Option<Result<(String, ArgsConfigFormat), Error>>)
        ensures
            match self {
                AutoFind::Probe(_) => r is None,
                AutoFind::Found(i) => r matches Some(Ok(file)) && file.0@ == default_path(*i as int)
                    && file.1 == default_format(*i as int),
                AutoFind::NotFound => r == Some(
                    Err::<(String, ArgsConfigFormat), Error>(Error::NoConfigFile),
                ),
            },
    {
        match self {
            AutoFind::Probe(_) => None,
            AutoFind::Found(i) => {
                let format = if *i == 1 {
                    ArgsConfigFormat::Json
                } else if *i == 0 || *i == 2 {
                    ArgsConfigFormat::Yaml
                } else {
                    ArgsConfigFormat::Toml
                };
                Some(Ok((default_file_path(*i), format)))
            },
            AutoFind::NotFound => Some(Err(Error::NoConfigFile)),
        }
    }
}

/// The path of the default configuration file at position `i`.
fn default_file_path(i: usize) -> (r: String)
    ensures
        r@ == default_path(i as int),
{
    if i == 0 {
        "./pa.yaml".to_owned()
    } else if i == 1 {
        "./pa.json".to_owned()
    } else if i == 2 {
        "./pa.yml".to_owned()
    } else {
        "./pa.toml".to_owned()
    }
}

/// A search ends after at most one probe of each default file, at the first one that exists,
/// and without one exactly where none exists.
pub proof fn law_auto_find_first(there: spec_fn(Seq<char>) -> bool, i: int)
    requires
        0 <= i < DEFAULT_FILES,
    ensures
        AutoFind::Probe(0).after(there, DEFAULT_FILES as nat) == AutoFind::Found(i as usize) <==> (
        there(default_path(i)) && forall|j: int| 0 <= j < i ==> !there(#[trigger] default_path(j))),
        AutoFind::Probe(0).after(there, DEFAULT_FILES as nat) == AutoFind::NotFound <==> forall|
            j: int,
        |
            0 <= j < DEFAULT_FILES ==> !there(#[trigger] default_path(j)),
        !(AutoFind::Probe(0).after(there, DEFAULT_FILES as nat) is Probe),
{
    reveal_with_fuel(AutoFind::after, 5);
    let _ = (default_path(0), default_path(1), default_path(2), default_path(3));
}

/// The format of a default file is the one that its extension stands for.
pub proof fn law_default_formats(i: int)
    requires
        0 <= i < DEFAULT_FILES,
    ensures
        format_of_extension(crate::text::extension(default_path(i))) == Some(default_format(i)),
{
    reveal_strlit("./pa.yaml");
    reveal_strlit("./pa.json");
    reveal_strlit("./pa.yml");
    reveal_strlit("./pa.toml");
    reveal_strlit("yaml");
    reveal_strlit("json");
    reveal_strlit("yml");
    reveal_strlit("toml");
    let front = "./pa"@;
    reveal_strlit("./pa");
    let ext = if i == 0 {
        "yaml"@
    } else if i == 1 {
        "json"@
    } else if i == 2 {
        "yml"@
    } else {
        "toml"@
    };
    assert(default_path(i) =~= front.push('.') + ext);
    crate::text::lemma_extension_of(front, ext);
    assert(ext[0] == 'y' || ext[0] == 'j' || ext[0] == 't');
    assert("yaml"@.len() != "yml"@.len());
}

/// A policy that is given holds, and without one a job is not started again.
pub proof fn law_policy_or_never(restart: Option<Restart>, r: Restart)
    requires
        call_ensures(<Restart as From<Option<Restart>>>::from, (restart,), r),
    ensures
        restart matches Some(policy) ==> r == policy,
        restart is None ==> r == Restart::Never,
{
}

/// Where the configuration comes from: without a file from the search, with a file and a format
/// from that file in that format, whatever it is called.
pub proof fn law_given_source_holds(args: Args, r: Result<ConfigSource, Error>)
    requires
        call_ensures(Args::try_into, (args,), r),
    ensures
        args.config_file is None ==> r == Ok::<ConfigSource, Error>(ConfigSource::AutoFind),
        args.config_file matches Some(path) ==> (args.config_format matches Some(format) ==> r
            == Ok::<ConfigSource, Error>(ConfigSource::File { path, format })),
        args.config_file matches Some(path) ==> (r matches Ok(source) ==> (source matches
            ConfigSource::File { path: read, format: _ } && read == path)),
{
}

/// Without a format, what follows the last dot of the file decides it, or all of its path where
/// there is no dot: four texts stand for the three formats, and any other is the error that names
/// it.
pub proof fn law_extension_decides(
    args: Args,
    r: Result<ConfigSource, Error>,
    front: Seq<char>,
    ext: Seq<char>,
)
    requires
        call_ensures(Args::try_into, (args,), r),
        args.config_format is None,
        args.config_file matches Some(path) && (path@ == ext || path@ == front.push('.') + ext),
        forall|j: int| 0 <= j < ext.len() ==> #[trigger] ext[j] != '.',
    ensures
        ({
            let path = args.config_file->0;
            let format = if ext == "json"@ {
                Some(ArgsConfigFormat::Json)
            } else if ext == "yaml"@ || ext == "yml"@ {
                Some(ArgsConfigFormat::Yaml)
            } else if ext == "toml"@ {
                Some(ArgsConfigFormat::Toml)
            } else {
                None
            };
            match format {
                Some(format) => r == Ok::<ConfigSource, Error>(ConfigSource::File { path, format }),
                None => r matches Err(Error::UnsupportedFormat(named)) && named@ == ext,
            }
        }),
{
    let path = args.config_file->0;
    if path@ == front.push('.') + ext {
        crate::text::lemma_extension_of(front, ext);
    } else {
        crate::text::lemma_extension_of_all(ext);
    }
}

/// The texts that stand for a format are told apart, and there are no others.
pub proof fn law_extensions(ext: &str, r: Option<ArgsConfigFormat>)
    requires
        call_ensures(ArgsConfigFormat::from_extension, (ext,), r),
    ensures
        r == Some(ArgsConfigFormat::Json) <==> ext@ == "json"@,
        r == Some(ArgsConfigFormat::Yaml) <==> ext@ == "yaml"@ || ext@ == "yml"@,
        r == Some(ArgsConfigFormat::Toml) <==> ext@ == "toml"@,
{
    reveal_strlit("yaml");
    reveal_strlit("json");
    reveal_strlit("yml");
    reveal_strlit("toml");
    assert("json"@[0] == 'j' && "yaml"@[0] == 'y' && "yml"@[0] == 'y' && "toml"@[0] == 't');
}

/// The search looks for the default files one by one: YAML, JSON, YAML under its short extension,
/// TOML.
pub proof fn law_search_looks_for(search: AutoFind, r: Option<String>)
    requires
        call_ensures(AutoFind::probe, (&search,), r),
    ensures
        r is Some <==> search is Probe,
        search == AutoFind::Probe(0) ==> r->0@ == "./pa.yaml"@,
        search == AutoFind::Probe(1) ==> r->0@ == "./pa.json"@,
        search == AutoFind::Probe(2) ==> r->0@ == "./pa.yml"@,
        search == AutoFind::Probe(3) ==> r->0@ == "./pa.toml"@,
{
}

/// The search begins with the first file, goes on with the next where a file does not exist, ends
/// with the one that does, and fails after the fourth. A search that is over stays so.
pub proof fn law_search_steps(begun: AutoFind, search: AutoFind, found: bool, r: AutoFind)
    requires
        call_ensures(AutoFind::start, (), begun),
        call_ensures(AutoFind::step, (search, found), r),
    ensures
        begun == AutoFind::Probe(0),
        search matches AutoFind::Probe(i) ==> (found ==> r == AutoFind::Found(i)),
        search matches AutoFind::Probe(i) ==> (!found && i < 3 ==> r == AutoFind::Probe(
            (i + 1) as usize,
        )),
        search matches AutoFind::Probe(i) ==> (!found && i >= 3 ==> r == AutoFind::NotFound),
        !(search is Probe) ==> r == search,
{
}

/// What is read is the file that was looked for and found, in the format that its name stands for;
/// where none was found, that is the error, and while the search goes on there is no result.
pub proof fn law_search_result(
    i: usize,
    looked: Option<String>,
    r: Option<Result<(String, ArgsConfigFormat), Error>>,
)
    requires
        i < 4,
    ensures
        call_ensures(AutoFind::probe, (&AutoFind::Probe(i),), looked) && call_ensures(
            AutoFind::result,
            (&AutoFind::Found(i),),
            r,
        ) ==> (r matches Some(Ok(file)) && file.0@ == looked->0@ && file.1 == if i == 1 {
            ArgsConfigFormat::Json
        } else if i == 3 {
            ArgsConfigFormat::Toml
        } else {
            ArgsConfigFormat::Yaml
        }),
        call_ensures(AutoFind::result, (&AutoFind::NotFound,), r) ==> r == Some(
            Err::<(String, ArgsConfigFormat), Error>(Error::NoConfigFile),
        ),
        call_ensures(AutoFind::result, (&AutoFind::Probe(i),), r) ==> r is None,
{
}

/// A copy of a job states what the job states, field by field.
pub proof fn law_copy_states_the_same(job: SingleJob, r: SingleJob)
    requires
        call_ensures(SingleJob::clone, (&job,), r),
    ensures
        r.cmd@ == job.cmd@,
        match (job.workdir, r.workdir) {
            (Some(a), Some(b)) => a@ == b@,
            (None, None) => true,
            _ => false,
        },
        match (job.env, r.env) {
            (Some(a), Some(b)) => a@ == b@,
            (None, None) => true,
            _ => false,
        },
        r.inherit_env == job.inherit_env,
        match (job.delay, r.delay) {
            (Some(Delay::ConstantDuration(a)), Some(Delay::ConstantDuration(b))) => a == b,
            (Some(Delay::Command(a)), Some(Delay::Command(b))) => a.interval == b.interval
                && a.cmd@ == b.cmd@,
            (None, None) => true,
            _ => false,
        },
        r.restart == job.restart,
{
}

/// A copy of a command line is of the same kind and holds the same text.
pub proof fn law_copy_of_cmdline(cmdline: Cmdline, r: Cmdline)
    requires
        call_ensures(Cmdline::clone, (&cmdline,), r),
    ensures
        match (cmdline, r) {
            (Cmdline::Line(a), Cmdline::Line(b)) => a@ == b@,
            (Cmdline::Array(a), Cmdline::Array(b)) => a.deep_view() == b.deep_view(),
            _ => false,
        },
{
}

/// A copy of a job of either kind is of the same kind and states the same.
pub proof fn law_copy_of_any_job(job: Job, r: Job)
    requires
        call_ensures(Job::clone, (&job,), r),
    ensures
        match (job, r) {
            (Job::Cmdline(a), Job::Cmdline(b)) => a@ == b@,
            (Job::Job(a), Job::Job(b)) => a@ == b@,
            _ => false,
        },
{
}

} // verus!
