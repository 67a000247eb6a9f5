use volume_backup::batch::{
    backup_container, exit_success, BackupReport, BatchStep, NO_DATA_RETURNED,
};
use volume_backup::command::Command;
use volume_backup::lifecycle::{BackupOutcome, Stage};
use volume_backup::types::{
    BackupConfig, ContainerConfig, ContainerInfo, DockerError, FailureKind, Mounts, PsInfo,
};

fn record(id: &str, mounts: &[&str], helper: bool) -> ContainerInfo {
    let mut config = ContainerConfig::new();
    if helper {
        config = config.with_label("type".to_string(), "backupcontainer".to_string());
    }
    ContainerInfo {
        id: id.to_string(),
        mounts: mounts.iter().map(|m| Mounts { destination: m.to_string() }).collect(),
        config,
    }
}

fn listing(names: &[&str]) -> Vec<PsInfo> {
    names.iter().map(|n| PsInfo { names: n.to_string() }).collect()
}

fn pass_settings(stop_start: bool) -> BackupConfig {
    BackupConfig { stop_start, image: "ubuntu".to_string() }
}

fn non_zero_exit() -> DockerError {
    DockerError { kind: FailureKind::NonZeroExit, message: String::new() }
}

fn archive_of(id: &str, file: &str, mount: &str) -> Command {
    Command::Archive {
        id: id.to_string(),
        image: "ubuntu".to_string(),
        file: file.to_string(),
        mount: mount.to_string(),
    }
}

fn inspect_of(name: &str) -> Command {
    Command::Inspect { name: name.to_string() }
}

/// Runs a pass to its end against an engine that answers an inspection with
/// `inspect` and lets a command succeed where `exit` says so.
fn run_pass(
    names: &[&str],
    stop_start: bool,
    inspect: impl Fn(&str) -> Result<Vec<ContainerInfo>, DockerError>,
    exit: impl Fn(&Command) -> bool,
) -> (Vec<Command>, BackupReport) {
    let mut commands = Vec::new();
    let mut step = backup_container(listing(names), pass_settings(stop_start));
    loop {
        step = match step {
            BatchStep::Finished { report } => return (commands, report),
            BatchStep::Inspect { command, inspecting } => {
                let reply = match &command {
                    Command::Inspect { name } => inspect(name),
                    other => panic!("not an inspection: {:?}", other),
                };
                commands.push(command);
                inspecting.inspected(reply)
            }
            BatchStep::Run { command, executing } => {
                let exited = if exit(&command) { Ok(()) } else { Err(non_zero_exit()) };
                commands.push(command);
                executing.exited(exited)
            }
        };
    }
}

#[test]
fn pass_over_no_container_succeeds_at_once() {
    let (commands, report) = run_pass(&[], true, |_| panic!("nothing to inspect"), |_| true);
    assert_eq!(commands, Vec::<Command>::new());
    assert_eq!(report.outcomes, Vec::<BackupOutcome>::new());
    assert!(report.success());
}

#[test]
fn single_container_with_all_mounts_archived_succeeds() {
    let (commands, report) =
        run_pass(&["web"], false, |_| Ok(vec![record("c1", &["/data"], false)]), |_| true);
    assert_eq!(commands, vec![inspect_of("web"), archive_of("c1", "web_data.tar", "/data")]);
    assert_eq!(report.ps_info, listing(&["web"]));
    assert_eq!(report.outcomes, vec![BackupOutcome::Archived { failed_mounts: 0 }]);
    assert!(report.success());
}

#[test]
fn database_is_archived_and_helper_is_skipped() {
    let (commands, report) = run_pass(
        &["db", "cache"],
        false,
        |name| match name {
            "db" => Ok(vec![record("d1", &["/var/lib/db"], false)]),
            "cache" => Ok(vec![record("c1", &[], true)]),
            other => panic!("unknown container {}", other),
        },
        |_| true,
    );
    assert_eq!(
        commands,
        vec![
            inspect_of("db"),
            archive_of("d1", "db_var_lib_db.tar", "/var/lib/db"),
            inspect_of("cache"),
        ]
    );
    let archives = commands.iter().filter(|c| matches!(c, Command::Archive { .. })).count();
    assert_eq!(archives, 1);
    assert_eq!(
        report.outcomes,
        vec![BackupOutcome::Archived { failed_mounts: 0 }, BackupOutcome::Skipped]
    );
    assert!(report.success());
}

#[test]
fn helper_with_mounts_gets_no_command() {
    let (commands, report) = run_pass(
        &["helper", "web"],
        true,
        |name| match name {
            "helper" => Ok(vec![record("h1", &["/a", "/b"], true)]),
            _ => Ok(vec![record("w1", &["/a"], false)]),
        },
        |_| true,
    );
    assert_eq!(
        commands,
        vec![
            inspect_of("helper"),
            inspect_of("web"),
            Command::Stop { id: "w1".to_string() },
            archive_of("w1", "web_a.tar", "/a"),
            Command::Start { id: "w1".to_string() },
        ]
    );
    assert_eq!(
        report.outcomes,
        vec![BackupOutcome::Skipped, BackupOutcome::Archived { failed_mounts: 0 }]
    );
    assert!(report.success());
}

#[test]
fn one_failed_container_fails_the_pass_and_the_rest_is_done() {
    let (commands, report) = run_pass(
        &["a", "b", "c"],
        false,
        |name| Ok(vec![record(name, &["/data"], false)]),
        |command| !matches!(command, Command::Archive { id, .. } if id == "b"),
    );
    assert_eq!(
        commands,
        vec![
            inspect_of("a"),
            archive_of("a", "a_data.tar", "/data"),
            inspect_of("b"),
            archive_of("b", "b_data.tar", "/data"),
            inspect_of("c"),
            archive_of("c", "c_data.tar", "/data"),
        ]
    );
    assert_eq!(
        report.outcomes,
        vec![
            BackupOutcome::Archived { failed_mounts: 0 },
            BackupOutcome::Archived { failed_mounts: 1 },
            BackupOutcome::Archived { failed_mounts: 0 },
        ]
    );
    assert!(!report.success());
}

#[test]
fn inspection_without_record_fails_the_container() {
    let (commands, report) = run_pass(
        &["gone", "web"],
        false,
        |name| match name {
            "gone" => Ok(Vec::new()),
            _ => Ok(vec![record("w1", &[], false)]),
        },
        |_| true,
    );
    assert_eq!(commands, vec![inspect_of("gone"), inspect_of("web")]);
    assert_eq!(
        report.outcomes,
        vec![
            BackupOutcome::InspectFailed {
                error: DockerError {
                    kind: FailureKind::MissingData,
                    message: NO_DATA_RETURNED.to_string(),
                },
            },
            BackupOutcome::Archived { failed_mounts: 0 },
        ]
    );
    assert!(!report.success());
}

#[test]
fn failed_inspection_fails_the_container() {
    let cause = DockerError { kind: FailureKind::DecodeError, message: "expected value".to_string() };
    let (commands, report) = run_pass(
        &["odd", "web"],
        true,
        |name| match name {
            "odd" => {
                Err(DockerError { kind: FailureKind::DecodeError, message: "expected value".to_string() })
            }
            _ => Ok(vec![record("w1", &[], true)]),
        },
        |_| true,
    );
    assert_eq!(commands, vec![inspect_of("odd"), inspect_of("web")]);
    assert_eq!(
        report.outcomes,
        vec![BackupOutcome::InspectFailed { error: cause }, BackupOutcome::Skipped]
    );
    assert!(!report.success());
}

#[test]
fn only_the_first_record_of_an_inspection_counts() {
    let (commands, report) = run_pass(
        &["web"],
        false,
        |_| Ok(vec![record("first", &["/a"], false), record("second", &["/b", "/c"], true)]),
        |_| true,
    );
    assert_eq!(commands, vec![inspect_of("web"), archive_of("first", "web_a.tar", "/a")]);
    assert_eq!(report.outcomes, vec![BackupOutcome::Archived { failed_mounts: 0 }]);
}

#[test]
fn failed_stop_leaves_the_container_and_the_pass_goes_on() {
    let (commands, report) = run_pass(
        &["a", "b"],
        true,
        |name| Ok(vec![record(name, &["/data"], false)]),
        |command| !matches!(command, Command::Stop { id } if id == "a"),
    );
    assert_eq!(
        commands,
        vec![
            inspect_of("a"),
            Command::Stop { id: "a".to_string() },
            inspect_of("b"),
            Command::Stop { id: "b".to_string() },
            archive_of("b", "b_data.tar", "/data"),
            Command::Start { id: "b".to_string() },
        ]
    );
    assert_eq!(
        report.outcomes,
        vec![
            BackupOutcome::StopFailed { error: non_zero_exit() },
            BackupOutcome::Archived { failed_mounts: 0 },
        ]
    );
    assert!(!report.success());
}

#[test]
fn failed_start_fails_the_pass() {
    let (commands, report) = run_pass(
        &["a"],
        true,
        |name| Ok(vec![record(name, &["/data"], false)]),
        |command| !matches!(command, Command::Start { .. }),
    );
    assert_eq!(commands.len(), 4);
    assert_eq!(
        report.outcomes,
        vec![BackupOutcome::RestartFailed { failed_mounts: 0, error: non_zero_exit() }]
    );
    assert!(!report.success());
}

#[test]
fn report_fails_exactly_when_a_container_failed() {
    let names = listing(&["a", "b", "c"]);
    let good = BackupOutcome::Archived { failed_mounts: 0 };
    let bad = BackupOutcome::Archived { failed_mounts: 3 };
    let all_good = BackupReport {
        ps_info: names.clone(),
        outcomes: vec![good.clone(), BackupOutcome::Skipped, good.clone()],
    };
    assert!(all_good.success());
    for position in 0..3 {
        let mut outcomes = vec![good.clone(), BackupOutcome::Skipped, good.clone()];
        outcomes[position] = bad.clone();
        assert!(!BackupReport { ps_info: names.clone(), outcomes }.success());
    }
    assert!(BackupReport { ps_info: Vec::new(), outcomes: Vec::new() }.success());
}

#[test]
fn process_ends_as_the_pass_did() {
    let names = listing(&["a"]);
    let good = BackupReport {
        ps_info: names.clone(),
        outcomes: vec![BackupOutcome::Archived { failed_mounts: 0 }],
    };
    let bad = BackupReport {
        ps_info: names,
        outcomes: vec![BackupOutcome::StopFailed { error: non_zero_exit() }],
    };
    assert!(exit_success(&Ok(good)));
    assert!(!exit_success(&Ok(bad)));
}

#[test]
fn process_ends_with_success_when_nothing_could_be_listed() {
    let cause = DockerError { kind: FailureKind::SpawnFailed, message: "no engine".to_string() };
    assert!(exit_success(&Err(cause)));
}

#[test]
fn first_step_inspects_the_first_container() {
    let step = backup_container(listing(&["db", "cache"]), pass_settings(true));
    match step {
        BatchStep::Inspect { command, .. } => assert_eq!(command, inspect_of("db")),
        _ => panic!("the pass does not begin with an inspection"),
    }
}

#[test]
fn waiting_pass_tells_its_container() {
    let step = backup_container(listing(&["db", "web"]), pass_settings(true));
    let inspecting = match step {
        BatchStep::Inspect { inspecting, .. } => inspecting,
        _ => panic!("the pass does not begin with an inspection"),
    };
    assert_eq!(inspecting.container().names, "db");
    let step = inspecting.inspected(Err(non_zero_exit()));
    let inspecting = match step {
        BatchStep::Inspect { command, inspecting } => {
            assert_eq!(command, inspect_of("web"));
            inspecting
        }
        _ => panic!("the pass does not go on to the next container"),
    };
    assert_eq!(inspecting.container().names, "web");
    let step = inspecting.inspected(Ok(vec![record("w1", &["/a", "/b"], false)]));
    let executing = match step {
        BatchStep::Run { command, executing } => {
            assert_eq!(command, Command::Stop { id: "w1".to_string() });
            executing
        }
        _ => panic!("the backup does not begin with the stop"),
    };
    assert_eq!(executing.container().names, "web");
    assert_eq!(executing.container_info().id, "w1");
    assert_eq!(executing.stage(), Stage::Stopping);
    let step = executing.exited(Ok(()));
    match step {
        BatchStep::Run { command, executing } => {
            assert_eq!(command, archive_of("w1", "web_a.tar", "/a"));
            assert_eq!(executing.stage(), Stage::Archiving { mount: 0, failed: 0 });
        }
        _ => panic!("the stop is not followed by the first archive"),
    }
}
