//! The backup of one container, step by step.
//!
//! A container that carries the helper label is skipped. Any other container
//! is stopped first where the settings ask for it, then each of its mounts is
//! archived in the order in which the engine reported them, then the container
//! is started again where it was stopped. The functions here decide; the
//! caller runs each command that they hand out and reports how it ended.

use crate::command::{Command, CommandView, TYPE_BACKUPCONTAINER};
use crate::naming::{archive_file_name, archive_name};
use crate::types::{
    BackupConfig, BackupConfigView, ContainerInfo, ContainerInfoView, DockerError,
    DockerErrorView, PsInfo, PsInfoView,
};
use vstd::prelude::*;

verus! {

/// The command whose end the backup of a container is waiting for.
#[derive(Debug, Clone, Copy, PartialEq, Eq)]
pub enum Stage {
    /// The container is being stopped.
    Stopping,
    /// The mount at index `mount` is being archived; `failed` of the mounts
    /// before it could not be archived.
    Archiving { mount: usize, failed: usize },
    /// Every mount has been tried, `failed` of them in vain, and the
    /// container is being started again.
    Restarting { failed: usize },
}

pub enum StageView {
    Stopping,
    Archiving { mount: nat, failed: nat },
    Restarting { failed: nat },
}

impl View for Stage {
    type V = StageView;

    open spec fn view(&self) -> StageView {
        match self {
            Stage::Stopping => StageView::Stopping,
            Stage::Archiving { mount, failed } => StageView::Archiving {
                mount: *mount as nat,
                failed: *failed as nat,
            },
            Stage::Restarting { failed } => StageView::Restarting { failed: *failed as nat },
        }
    }
}

impl Stage {
    /// Whether the stage can occur in the backup of `container_info`.
    pub fn fits(&self, container_info: &ContainerInfo) -> (ok: bool)
        ensures
            ok == self@.fits(container_info@),
    {
        match self {
            Stage::Stopping => true,
            Stage::Archiving { mount, failed } => *mount < container_info.mounts.len() && *failed
                <= *mount,
            Stage::Restarting { failed } => *failed <= container_info.mounts.len(),
        }
    }
}

impl StageView {
    /// Whether the stage can occur in the backup of the container `info`:
    /// the mount exists, and no more mounts have failed than were tried.
    pub open spec fn fits(self, info: ContainerInfoView) -> bool {
        match self {
            StageView::Stopping => true,
            StageView::Archiving { mount, failed } => mount < info.mounts.len() && failed <= mount,
            StageView::Restarting { failed } => failed <= info.mounts.len(),
        }
    }
}

/// How the backup of one container ended.
#[derive(Debug, Clone, PartialEq, Eq)]
pub enum BackupOutcome {
    /// The container is a helper of an earlier pass: nothing was done.
    Skipped,
    /// Every mount was tried, and `failed_mounts` of them could not be
    /// archived. A container that was stopped is running again.
    Archived { failed_mounts: usize },
    /// The container could not be inspected: the engine failed, its reply
    /// could not be decoded, or the reply held no record.
    InspectFailed { error: DockerError },
    /// The container was to be stopped and the stop failed: no mount was
    /// archived.
    StopFailed { error: DockerError },
    /// Every mount was tried, and the container could not be started again.
    RestartFailed { failed_mounts: usize, error: DockerError },
}

pub enum BackupOutcomeView {
    Skipped,
    Archived { failed_mounts: nat },
    InspectFailed { error: DockerErrorView },
    StopFailed { error: DockerErrorView },
    RestartFailed { failed_mounts: nat, error: DockerErrorView },
}

impl View for BackupOutcome {
    type V = BackupOutcomeView;

    open spec fn view(&self) -> BackupOutcomeView {
        match self {
            BackupOutcome::Skipped => BackupOutcomeView::Skipped,
            BackupOutcome::Archived { failed_mounts } => BackupOutcomeView::Archived {
                failed_mounts: *failed_mounts as nat,
            },
            BackupOutcome::InspectFailed { error } => BackupOutcomeView::InspectFailed {
                error: error@,
            },
            BackupOutcome::StopFailed { error } => BackupOutcomeView::StopFailed { error: error@ },
            BackupOutcome::RestartFailed { failed_mounts, error } => {
                BackupOutcomeView::RestartFailed {
                    failed_mounts: *failed_mounts as nat,
                    error: error@,
                }
            },
        }
    }
}

impl BackupOutcomeView {
    /// A container counts as backed up when it was skipped as a helper, or
    /// when every one of its mounts was archived and nothing failed around
    /// them.
    pub open spec fn succeeded(self) -> bool {
        match self {
            BackupOutcomeView::Skipped => true,
            BackupOutcomeView::Archived { failed_mounts } => failed_mounts == 0,
            _ => false,
        }
    }
}

impl BackupOutcome {
    /// Whether the container counts as backed up.
    pub fn succeeded(&self) -> (ok: bool)
        ensures
            ok == self@.succeeded(),
    {
        match self {
            BackupOutcome::Skipped => true,
            BackupOutcome::Archived { failed_mounts } => *failed_mounts == 0,
            _ => false,
        }
    }
}

/// What the backup of a container asks for next.
#[derive(Debug, Clone, PartialEq, Eq)]
pub enum ContainerStep {
    /// Run `command`, then report how it ended together with `resume`.
    Run { command: Command, resume: Stage },
    /// Nothing is left to do for this container.
    Finished { outcome: BackupOutcome },
}

pub enum ContainerStepView {
    Run { command: CommandView, resume: StageView },
    Finished { outcome: BackupOutcomeView },
}

impl View for ContainerStep {
    type V = ContainerStepView;

    open spec fn view(&self) -> ContainerStepView {
        match self {
            ContainerStep::Run { command, resume } => ContainerStepView::Run {
                command: command@,
                resume: resume@,
            },
            ContainerStep::Finished { outcome } => ContainerStepView::Finished {
                outcome: outcome@,
            },
        }
    }
}

impl ContainerStepView {
    /// A step that hands out a command waits at a stage that fits `info`.
    pub open spec fn fits(self, info: ContainerInfoView) -> bool {
        self matches ContainerStepView::Run { resume, .. } ==> resume.fits(info)
    }
}

/// How a command ended, with the failure by its view.
pub open spec fn exit_view(exited: Result<(), DockerError>) -> Result<(), DockerErrorView> {
    match exited {
        Ok(_) => Ok(()),
        Err(error) => Err(error@),
    }
}

/// A helper container: one whose label `type` holds the helper mark.
pub open spec fn backup_helper(info: ContainerInfoView) -> bool {
    info.config.labels.contains_key("type"@) && info.config.labels["type"@]
        == TYPE_BACKUPCONTAINER@
}

/// The command that archives the mount at index `mount` of the container
/// `info`, which the engine lists as `container`.
pub open spec fn archive_command(
    info: ContainerInfoView,
    container: PsInfoView,
    config: BackupConfigView,
    mount: int,
) -> CommandView {
    CommandView::Archive {
        id: info.id,
        image: config.image,
        file: archive_file_name(container.names, info.mounts[mount].destination),
        mount: info.mounts[mount].destination,
    }
}

/// The step that follows when the mounts before index `mount` have been
/// tried and `failed` of them have failed: archive that mount; where none is
/// left, start the container again if it was stopped; else finish.
pub open spec fn archive_from(
    info: ContainerInfoView,
    container: PsInfoView,
    config: BackupConfigView,
    mount: nat,
    failed: nat,
) -> ContainerStepView {
    if mount < info.mounts.len() {
        ContainerStepView::Run {
            command: archive_command(info, container, config, mount as int),
            resume: StageView::Archiving { mount, failed },
        }
    } else if config.stop_start {
        ContainerStepView::Run {
            command: CommandView::Start { id: info.id },
            resume: StageView::Restarting { failed },
        }
    } else {
        ContainerStepView::Finished {
            outcome: BackupOutcomeView::Archived { failed_mounts: failed },
        }
    }
}

/// The first step of the backup of a container that has been inspected.
pub open spec fn backup_begun(
    info: ContainerInfoView,
    container: PsInfoView,
    config: BackupConfigView,
) -> ContainerStepView {
    if backup_helper(info) {
        ContainerStepView::Finished { outcome: BackupOutcomeView::Skipped }
    } else if config.stop_start {
        ContainerStepView::Run {
            command: CommandView::Stop { id: info.id },
            resume: StageView::Stopping,
        }
    } else {
        archive_from(info, container, config, 0, 0)
    }
}

/// The step that follows when the command awaited at `stage` has ended as
/// `exited` says.
///
/// A failed stop ends the backup before any mount is archived. A failed
/// archive is counted and the next mount is tried. A failed start ends the
/// backup as failed, with the archives as they are.
pub open spec fn backup_resumed(
    info: ContainerInfoView,
    container: PsInfoView,
    config: BackupConfigView,
    stage: StageView,
    exited: Result<(), DockerErrorView>,
) -> ContainerStepView {
    match stage {
        StageView::Stopping => match exited {
            Err(error) => ContainerStepView::Finished {
                outcome: BackupOutcomeView::StopFailed { error },
            },
            Ok(_) => archive_from(info, container, config, 0, 0),
        },
        StageView::Archiving { mount, failed } => archive_from(
            info,
            container,
            config,
            mount + 1,
            if exited is Err {
                failed + 1
            } else {
                failed
            },
        ),
        StageView::Restarting { failed } => match exited {
            Err(error) => ContainerStepView::Finished {
                outcome: BackupOutcomeView::RestartFailed { failed_mounts: failed, error },
            },
            Ok(_) => ContainerStepView::Finished {
                outcome: BackupOutcomeView::Archived { failed_mounts: failed },
            },
        },
    }
}

/// Whether the container is a helper of an earlier pass.
pub fn is_backup_helper(container_info: &ContainerInfo) -> (helper: bool)
    ensures
        helper == backup_helper(container_info@),
{
    match container_info.config.label("type") {
        Some(value) => {
            let mark = TYPE_BACKUPCONTAINER.to_owned();
            *value == mark
        },
        None => false,
    }
}

fn archive_next(
    container_info: &ContainerInfo,
    container: &PsInfo,
    config: &BackupConfig,
    mount: usize,
    failed: usize,
) -> (step: ContainerStep)
    requires
        mount <= container_info.mounts.len(),
        failed <= mount,
    ensures
        step@ == archive_from(
            container_info@,
            container@,
            config@,
            mount as nat,
            failed as nat,
        ),
{
    if mount < container_info.mounts.len() {
        let destination = &container_info.mounts[mount].destination;
        ContainerStep::Run {
            command: Command::Archive {
                id: container_info.id.clone(),
                image: config.image.clone(),
                file: archive_name(container.names.as_str(), destination.as_str()),
                mount: destination.clone(),
            },
            resume: Stage::Archiving { mount, failed },
        }
    } else if config.stop_start {
        ContainerStep::Run {
            command: Command::Start { id: container_info.id.clone() },
            resume: Stage::Restarting { failed },
        }
    } else {
        ContainerStep::Finished { outcome: BackupOutcome::Archived { failed_mounts: failed } }
    }
}

/// Backup the mounts listed in the container as tar files: the first step.
///
/// A helper container is finished at once, as skipped. Otherwise the step
/// hands out the stop command, where the settings ask for it, or else the
/// archive command of the first mount; a container without mounts is
/// finished at once.
pub fn backup_all_mounts(
    container_info: &ContainerInfo,
    container: &PsInfo,
    config: &BackupConfig,
) -> (step: ContainerStep)
    ensures
        step@ == backup_begun(container_info@, container@, config@),
        step@.fits(container_info@),
{
    if is_backup_helper(container_info) {
        ContainerStep::Finished { outcome: BackupOutcome::Skipped }
    } else if config.stop_start {
        ContainerStep::Run {
            command: Command::Stop { id: container_info.id.clone() },
            resume: Stage::Stopping,
        }
    } else {
        archive_next(container_info, container, config, 0, 0)
    }
}

/// The next step of the backup of a container, when the command that was
/// handed out with `stage` has ended as `exited` says.
///
/// `stage` is one that a step of the backup of this container handed out:
/// such a stage fits the container, which `Stage::fits` tests.
pub fn resume_backup(
    container_info: &ContainerInfo,
    container: &PsInfo,
    config: &BackupConfig,
    stage: Stage,
    exited: Result<(), DockerError>,
) -> (step: ContainerStep)
    requires
        stage@.fits(container_info@),
    ensures
        step@ == backup_resumed(
            container_info@,
            container@,
            config@,
            stage@,
            exit_view(exited),
        ),
        step@.fits(container_info@),
{
    assert(container_info@.mounts.len() == container_info.mounts.len());
    match stage {
        Stage::Stopping => match exited {
            Err(error) => ContainerStep::Finished { outcome: BackupOutcome::StopFailed { error } },
            Ok(_) => archive_next(container_info, container, config, 0, 0),
        },
        Stage::Archiving { mount, failed } => {
            let failed: usize = if exited.is_err() {
                failed + 1
            } else {
                failed
            };
            archive_next(container_info, container, config, mount + 1, failed)
        },
        Stage::Restarting { failed } => match exited {
            Err(error) => ContainerStep::Finished {
                outcome: BackupOutcome::RestartFailed { failed_mounts: failed, error },
            },
            Ok(_) => ContainerStep::Finished {
                outcome: BackupOutcome::Archived { failed_mounts: failed },
            },
        },
    }
}

} // verus!
