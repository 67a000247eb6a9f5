use volume_backup::command::{exit_result, Command, TYPE_BACKUPCONTAINER};
use volume_backup::types::{DockerError, FailureKind};

fn words(command: &Command) -> Vec<String> {
    command.arguments()
}

#[test]
fn helper_mark_is_backupcontainer() {
    assert_eq!(TYPE_BACKUPCONTAINER, "backupcontainer");
}

#[test]
fn list_arguments() {
    assert_eq!(words(&Command::List), vec!["ps", "--format=json"]);
}

#[test]
fn inspect_arguments() {
    let command = Command::Inspect { name: "db".to_string() };
    assert_eq!(words(&command), vec!["inspect", "db", "--format=json"]);
}

#[test]
fn stop_and_start_arguments() {
    assert_eq!(words(&Command::Stop { id: "4f2a".to_string() }), vec!["stop", "4f2a"]);
    assert_eq!(words(&Command::Start { id: "4f2a".to_string() }), vec!["start", "4f2a"]);
}

#[test]
fn archive_arguments() {
    let command = Command::Archive {
        id: "4f2a".to_string(),
        image: "ubuntu".to_string(),
        file: "web_data.tar".to_string(),
        mount: "/data".to_string(),
    };
    assert_eq!(
        words(&command),
        vec![
            "run",
            "--rm",
            "--label",
            "type=backupcontainer",
            "-v",
            ".:/backupdest",
            "--volumes-from",
            "4f2a",
            "ubuntu",
            "tar",
            "cvf",
            "/backupdest/web_data.tar",
            "/data",
        ]
    );
}

#[test]
fn exit_with_success_is_ok() {
    assert_eq!(exit_result(Ok(true)), Ok(()));
}

#[test]
fn exit_with_failure_is_non_zero_exit() {
    assert_eq!(
        exit_result(Ok(false)),
        Err(DockerError { kind: FailureKind::NonZeroExit, message: String::new() })
    );
}

#[test]
fn exit_without_process_is_spawn_failed() {
    let cause = std::io::Error::new(std::io::ErrorKind::NotFound, "no such executable");
    let text = cause.to_string();
    assert_eq!(
        exit_result(Err(cause)),
        Err(DockerError { kind: FailureKind::SpawnFailed, message: text })
    );
}

#[test]
fn io_error_becomes_spawn_failed() {
    let cause = std::io::Error::new(std::io::ErrorKind::PermissionDenied, "denied");
    let error = DockerError::from(cause);
    assert_eq!(error.kind, FailureKind::SpawnFailed);
    assert_eq!(error.message, "denied");
}

#[test]
fn json_error_becomes_decode_error() {
    let cause = serde_json::from_str::<serde_json::Value>("[1, 2").unwrap_err();
    let text = cause.to_string();
    assert!(!text.is_empty());
    let error = DockerError::from(cause);
    assert_eq!(error.kind, FailureKind::DecodeError);
    assert_eq!(error.message, text);
}
