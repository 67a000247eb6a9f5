//! Records that the container engine reports, the settings of a backup pass,
//! and the failure type.

use vstd::hash_map::StringHashMap;
use vstd::prelude::*;
use vstd::std_specs::convert::FromSpecImpl;
use vstd::string::to_string_from_display_ensures;

verus! {

/// `serde_json::Error`, carried through as an opaque value.
#[verifier::external_type_specification]
#[verifier::external_body]
pub struct ExJsonError(serde_json::Error);

/// `std::io::Error`, carried through as an opaque value.
#[verifier::external_type_specification]
#[verifier::external_body]
pub struct ExIoError(std::io::Error);

/// One running container, as the engine lists it.
#[derive(Debug, Clone, PartialEq, Eq)]
pub struct PsInfo {
    pub names: String,
}

pub struct PsInfoView {
    pub names: Seq<char>,
}

impl View for PsInfo {
    type V = PsInfoView;

    open spec fn view(&self) -> PsInfoView {
        PsInfoView { names: self.names@ }
    }
}

/// One mount of a container: the path inside the container that is archived
/// as one unit.
#[derive(Debug, Clone, PartialEq, Eq)]
pub struct Mounts {
    pub destination: String,
}

pub struct MountsView {
    pub destination: Seq<char>,
}

impl View for Mounts {
    type V = MountsView;

    open spec fn view(&self) -> MountsView {
        MountsView { destination: self.destination@ }
    }
}

/// The part of a container's configuration that a backup pass reads.
pub struct ContainerConfig {
    pub labels: StringHashMap<String>,
}

pub struct ContainerConfigView {
    pub labels: Map<Seq<char>, Seq<char>>,
}

impl ContainerConfig {
    /// A configuration without labels.
    pub fn new() -> (config: ContainerConfig)
        ensures
            config@.labels == Map::<Seq<char>, Seq<char>>::empty(),
    {
        ContainerConfig { labels: StringHashMap::new() }
    }

    /// The configuration with the label `key` set to `value`, in place of
    /// any value that the label had.
    pub fn with_label(self, key: String, value: String) -> (config: ContainerConfig)
        ensures
            config@.labels == self@.labels.insert(key@, value@),
    {
        let mut labels = self.labels;
        labels.insert(key, value);
        ContainerConfig { labels }
    }

    /// The value of the label `key`, if the container has that label.
    pub fn label(&self, key: &str) -> (value: Option<&String>)
        ensures
            match value {
                Some(text) => self@.labels.contains_key(key@) && text@ == self@.labels[key@],
                None => !self@.labels.contains_key(key@),
            },
    {
        self.labels.get(key)
    }
}

impl View for ContainerConfig {
    type V = ContainerConfigView;

    open spec fn view(&self) -> ContainerConfigView {
        ContainerConfigView { labels: self.labels@.map_values(|value: String| value@) }
    }
}

/// What inspecting one container by name reports. `id` is the identifier that
/// the engine assigned, not the container's name.
pub struct ContainerInfo {
    pub id: String,
    pub mounts: Vec<Mounts>,
    pub config: ContainerConfig,
}

pub struct ContainerInfoView {
    pub id: Seq<char>,
    pub mounts: Seq<MountsView>,
    pub config: ContainerConfigView,
}

impl View for ContainerInfo {
    type V = ContainerInfoView;

    open spec fn view(&self) -> ContainerInfoView {
        ContainerInfoView {
            id: self.id@,
            mounts: self.mounts@.map_values(|mount: Mounts| mount@),
            config: self.config@,
        }
    }
}

/// The settings of a backup pass.
#[derive(Debug, Clone, PartialEq, Eq)]
pub struct BackupConfig {
    /// Stop each container before its backup and start it again afterwards.
    pub stop_start: bool,
    /// The image of the helper container that writes the archives.
    pub image: String,
}

pub struct BackupConfigView {
    pub stop_start: bool,
    pub image: Seq<char>,
}

impl View for BackupConfig {
    type V = BackupConfigView;

    open spec fn view(&self) -> BackupConfigView {
        BackupConfigView { stop_start: self.stop_start, image: self.image@ }
    }
}

/// Where a failure came from.
#[derive(Debug, Clone, Copy, PartialEq, Eq, Structural)]
pub enum FailureKind {
    /// The engine could not be started, or waiting for it failed.
    SpawnFailed,
    /// The engine ran and reported failure by its exit status.
    NonZeroExit,
    /// The engine's output was not the JSON that was expected.
    DecodeError,
    /// Inspecting a container returned no record.
    MissingData,
}

/// A failed engine invocation, or a reply that could not be used.
#[derive(Debug, Clone, PartialEq, Eq)]
pub struct DockerError {
    pub kind: FailureKind,
    pub message: String,
}

pub struct DockerErrorView {
    pub kind: FailureKind,
    pub message: Seq<char>,
}

impl View for DockerError {
    type V = DockerErrorView;

    open spec fn view(&self) -> DockerErrorView {
        DockerErrorView { kind: self.kind, message: self.message@ }
    }
}

impl From<std::io::Error> for DockerError {
    /// A failure of process I/O. The message is the error's own text.
    fn from(value: std::io::Error) -> (error: DockerError)
        ensures
            error.kind == FailureKind::SpawnFailed,
            to_string_from_display_ensures::<std::io::Error>(&value, error.message),
    {
        DockerError { kind: FailureKind::SpawnFailed, message: value.to_string() }
    }
}

impl FromSpecImpl<std::io::Error> for DockerError {
    /// The message is whatever text the error displays, which no spec
    /// function fixes: the conversion is described by the `ensures` of `from`.
    open spec fn obeys_from_spec() -> bool {
        false
    }

    open spec fn from_spec(value: std::io::Error) -> DockerError {
        DockerError {
            kind: FailureKind::SpawnFailed,
            message: choose|text: String|
                to_string_from_display_ensures::<std::io::Error>(&value, text),
        }
    }
}

impl From<serde_json::Error> for DockerError {
    /// A failure to decode the engine's output. The message is the error's
    /// own text.
    fn from(value: serde_json::Error) -> (error: DockerError)
        ensures
            error.kind == FailureKind::DecodeError,
            to_string_from_display_ensures::<serde_json::Error>(&value, error.message),
    {
        DockerError { kind: FailureKind::DecodeError, message: value.to_string() }
    }
}

impl FromSpecImpl<serde_json::Error> for DockerError {
    /// As for `std::io::Error`: described by the `ensures` of `from`.
    open spec fn obeys_from_spec() -> bool {
        false
    }

    open spec fn from_spec(value: serde_json::Error) -> DockerError {
        DockerError {
            kind: FailureKind::DecodeError,
            message: choose|text: String|
                to_string_from_display_ensures::<serde_json::Error>(&value, text),
        }
    }
}

} // verus!
