//! The invocations of the container engine that a backup pass makes, the
//! argument list of each, and what the end of an invocation means.

use crate::types::{DockerError, DockerErrorView, FailureKind};
use vstd::prelude::*;
use vstd::string::to_string_from_display_ensures;

verus! {

/// The value of the label `type` that marks a helper container, so that a
/// later pass does not back it up.
pub const TYPE_BACKUPCONTAINER: &'static str = "backupcontainer";

/// One invocation of the container engine.
#[derive(Debug, Clone, PartialEq, Eq)]
pub enum Command {
    /// List the running containers, one JSON object per line.
    List,
    /// Inspect the container called `name`; the reply is a JSON array.
    Inspect { name: String },
    /// Stop the container `id`.
    Stop { id: String },
    /// Run a helper container from `image` that shares the volumes of the
    /// container `id` and writes the contents of `mount` to the archive
    /// `file` in the working directory.
    Archive { id: String, image: String, file: String, mount: String },
    /// Start the container `id`.
    Start { id: String },
}

pub enum CommandView {
    List,
    Inspect { name: Seq<char> },
    Stop { id: Seq<char> },
    Archive { id: Seq<char>, image: Seq<char>, file: Seq<char>, mount: Seq<char> },
    Start { id: Seq<char> },
}

impl View for Command {
    type V = CommandView;

    open spec fn view(&self) -> CommandView {
        match self {
            Command::List => CommandView::List,
            Command::Inspect { name } => CommandView::Inspect { name: name@ },
            Command::Stop { id } => CommandView::Stop { id: id@ },
            Command::Archive { id, image, file, mount } => CommandView::Archive {
                id: id@,
                image: image@,
                file: file@,
                mount: mount@,
            },
            Command::Start { id } => CommandView::Start { id: id@ },
        }
    }
}

impl CommandView {
    /// Whether the command acts on a container: stops it, archives one of its
    /// mounts, or starts it.
    pub open spec fn touches_container(self) -> bool {
        self is Stop || self is Archive || self is Start
    }

    /// The arguments that the engine is invoked with.
    pub open spec fn arguments(self) -> Seq<Seq<char>> {
        match self {
            CommandView::List => seq!["ps"@, "--format=json"@],
            CommandView::Inspect { name } => seq!["inspect"@, name, "--format=json"@],
            CommandView::Stop { id } => seq!["stop"@, id],
            CommandView::Archive { id, image, file, mount } => seq![
                "run"@,
                "--rm"@,
                "--label"@,
                "type="@ + TYPE_BACKUPCONTAINER@,
                "-v"@,
                ".:/backupdest"@,
                "--volumes-from"@,
                id,
                image,
                "tar"@,
                "cvf"@,
                "/backupdest/"@ + file,
                mount,
            ],
            CommandView::Start { id } => seq!["start"@, id],
        }
    }
}

impl Command {
    /// The arguments to invoke the engine with, in order.
    pub fn arguments(&self) -> (args: Vec<String>)
        ensures
            args.deep_view() == self@.arguments(),
    {
        let mut args: Vec<String> = Vec::new();
        match self {
            Command::List => {
                args.push("ps".to_owned());
                args.push("--format=json".to_owned());
            },
            Command::Inspect { name } => {
                args.push("inspect".to_owned());
                args.push(name.clone());
                args.push("--format=json".to_owned());
            },
            Command::Stop { id } => {
                args.push("stop".to_owned());
                args.push(id.clone());
            },
            Command::Archive { id, image, file, mount } => {
                let mut label = "type=".to_owned();
                label.append(TYPE_BACKUPCONTAINER);
                let mut target = "/backupdest/".to_owned();
                target.append(file.as_str());
                args.push("run".to_owned());
                args.push("--rm".to_owned());
                args.push("--label".to_owned());
                args.push(label);
                args.push("-v".to_owned());
                args.push(".:/backupdest".to_owned());
                args.push("--volumes-from".to_owned());
                args.push(id.clone());
                args.push(image.clone());
                args.push("tar".to_owned());
                args.push("cvf".to_owned());
                args.push(target);
                args.push(mount.clone());
            },
            Command::Start { id } => {
                args.push("start".to_owned());
                args.push(id.clone());
            },
        }
        args
    }
}

/// What the end of an engine process means. `waited` is `Ok` with the
/// verdict of the exit status where the process was started and waited for,
/// and the I/O error where it could not be.
///
/// An invocation succeeds if and only if the process ran and its exit status
/// says success. A process that ran and failed gives `NonZeroExit` with an
/// empty message; one that could not be run gives `SpawnFailed` with the
/// text of the I/O error.
pub fn exit_result(waited: Result<bool, std::io::Error>) -> (result: Result<(), DockerError>)
    ensures
        match waited {
            Ok(true) => result is Ok,
            Ok(false) => result matches Err(error) && error@ == (DockerErrorView {
                kind: FailureKind::NonZeroExit,
                message: Seq::empty(),
            }),
            Err(cause) => result matches Err(error) && error.kind == FailureKind::SpawnFailed
                && to_string_from_display_ensures::<std::io::Error>(&cause, error.message),
        },
{
    match waited {
        Ok(true) => Ok(()),
        Ok(false) => Err(DockerError { kind: FailureKind::NonZeroExit, message: String::new() }),
        Err(cause) => Err(DockerError::from(cause)),
    }
}

} // verus!
