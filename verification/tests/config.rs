use pa::config::{
    Args, ArgsConfigFormat, AutoFind, Cmdline, ConfigSource, Delay, Job, Restart, SingleJob,
    TestCommand,
};
use pa::error::{Error, OptionExt};
use pa::table::Table;

fn source(file: Option<&str>, format: Option<ArgsConfigFormat>) -> Result<ConfigSource, Error> {
    Args { config_file: file.map(|f| f.to_string()), config_format: format }.try_into()
}

#[test]
fn extension_decides_without_a_format() {
    let cases = [
        ("conf/pa.json", ArgsConfigFormat::Json),
        ("pa.yaml", ArgsConfigFormat::Yaml),
        ("pa.local.yml", ArgsConfigFormat::Yaml),
        ("toml", ArgsConfigFormat::Toml),
    ];
    for (file, expected) in cases {
        match source(Some(file), None) {
            Ok(ConfigSource::File { path, format }) => {
                assert_eq!(path, file);
                assert_eq!(format, expected);
            }
            other => panic!("{other:?}"),
        }
    }
}

#[test]
fn given_format_holds_over_the_extension() {
    match source(Some("pa.json"), Some(ArgsConfigFormat::Toml)) {
        Ok(ConfigSource::File { path, format }) => {
            assert_eq!(path, "pa.json");
            assert_eq!(format, ArgsConfigFormat::Toml);
        }
        other => panic!("{other:?}"),
    }
    assert!(source(Some("pa.ini"), Some(ArgsConfigFormat::Json)).is_ok());
}

#[test]
fn unknown_extension_is_an_error() {
    for (file, ext) in [("pa.ini", "ini"), ("pa.JSON", "JSON"), ("config", "config"), ("pa.", "")] {
        match source(Some(file), None) {
            Err(e) => assert_eq!(e.message(), format!("Unsupported file format: {ext}")),
            other => panic!("{other:?}"),
        }
    }
}

#[test]
fn no_file_means_search() {
    assert!(matches!(source(None, None), Ok(ConfigSource::AutoFind)));
    assert!(matches!(
        source(None, Some(ArgsConfigFormat::Json)),
        Ok(ConfigSource::AutoFind)
    ));
}

fn search(there: &[&str]) -> (Vec<String>, Result<(String, ArgsConfigFormat), Error>) {
    let mut probed = vec![];
    let mut state = AutoFind::start();
    loop {
        if let Some(result) = state.result() {
            assert!(state.probe().is_none());
            return (probed, result);
        }
        let path = state.probe().unwrap();
        let found = there.contains(&path.as_str());
        probed.push(path);
        state = state.step(found);
    }
}

#[test]
fn first_default_file_wins() {
    let (probed, result) = search(&["./pa.json", "./pa.yml", "./pa.toml"]);
    assert_eq!(probed, vec!["./pa.yaml", "./pa.json"]);
    assert_eq!(result.unwrap(), ("./pa.json".to_string(), ArgsConfigFormat::Json));

    assert_eq!(
        search(&["./pa.yaml", "./pa.json"]).1.unwrap(),
        ("./pa.yaml".to_string(), ArgsConfigFormat::Yaml)
    );
    assert_eq!(
        search(&["./pa.toml", "./pa.yml"]).1.unwrap(),
        ("./pa.yml".to_string(), ArgsConfigFormat::Yaml)
    );
    assert_eq!(
        search(&["./pa.toml"]).1.unwrap(),
        ("./pa.toml".to_string(), ArgsConfigFormat::Toml)
    );
}

#[test]
fn no_default_file_is_an_error() {
    let (probed, result) = search(&["./other.json"]);
    assert_eq!(probed, vec!["./pa.yaml", "./pa.json", "./pa.yml", "./pa.toml"]);
    match result {
        Err(e) => assert_eq!(e.message(), "No config file found"),
        Ok(file) => panic!("{file:?}"),
    }
}

#[test]
fn search_that_is_over_stays_so() {
    assert_eq!(AutoFind::Found(1).step(true), AutoFind::Found(1));
    assert_eq!(AutoFind::NotFound.step(true), AutoFind::NotFound);
}

#[test]
fn default_formats_fit_the_extensions() {
    for i in 0..4usize {
        let (path, format) = AutoFind::Found(i).result().unwrap().unwrap();
        match source(Some(&path), None) {
            Ok(ConfigSource::File { format: by_extension, .. }) => assert_eq!(by_extension, format),
            other => panic!("{other:?}"),
        }
    }
}

#[test]
fn no_policy_means_no_restart() {
    assert_eq!(Restart::from(None), Restart::Never);
    assert_eq!(Restart::from(Some(Restart::Always)), Restart::Always);
    assert_eq!(Restart::from(Some(Restart::OnFailure)), Restart::OnFailure);
}

#[test]
fn error_texts() {
    assert_eq!(Error::EmptyCommand.message(), "Command is empty");
    assert_eq!(Error::Cancelled.message(), "Cancelled");
    assert_eq!(Error::Outside("no such file".to_string()).message(), "no such file");
    match None::<u8>.some() {
        Err(e) => assert_eq!(e.message(), "Option was None"),
        Ok(v) => panic!("{v}"),
    }
    assert!(matches!(Some(3u8).some(), Ok(3)));
}

#[test]
fn table_keeps_one_entry_under_a_name() {
    let table = Table::new()
        .with("PATH".to_string(), "/bin".to_string())
        .with("HOME".to_string(), "/".to_string())
        .with("PATH".to_string(), "/usr/bin".to_string());
    let expected = vec![
        ("PATH".to_string(), "/usr/bin".to_string()),
        ("HOME".to_string(), "/".to_string()),
    ];
    assert_eq!(table.entries(), &expected);
    assert_eq!(table.clone().into_entries(), expected);
}

#[test]
fn clones_hold_the_same() {
    let job = Job::Job(SingleJob {
        cmd: Cmdline::Array(vec!["a".to_string(), "b c".to_string()]),
        workdir: Some("/tmp".to_string()),
        env: Some(Table::new().with("K".to_string(), "V".to_string())),
        inherit_env: Some(false),
        delay: Some(Delay::Command(TestCommand {
            interval: 5,
            cmd: Cmdline::Line("true".to_string()),
        })),
        restart: Some(Restart::OnFailure),
    });
    assert_eq!(format!("{:?}", job.clone()), format!("{job:?}"));
    let bare = Job::Cmdline(Cmdline::Line("x".to_string()));
    assert_eq!(format!("{:?}", bare.clone()), format!("{bare:?}"));
    let sleep = Delay::ConstantDuration(9);
    assert_eq!(format!("{:?}", sleep.clone()), format!("{sleep:?}"));
}
