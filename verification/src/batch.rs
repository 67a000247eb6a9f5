//! One backup pass over the running containers, step by step.
//!
//! The containers are taken in the order in which the engine listed them.
//! Each is inspected and then backed up as `lifecycle` says; how it ended is
//! recorded, and the pass goes on to the next container whatever happened to
//! this one. The pass succeeds when every container did.
//!
//! The functions here decide; the caller runs each command that they hand
//! out. A step hands the waiting pass back together with the command, and the
//! pass takes the command's result in turn: an inspection is answered with
//! `Inspecting::inspected`, any other command with `Executing::exited`.

use crate::command::{Command, CommandView};
use crate::lifecycle::{
    backup_all_mounts, backup_begun, backup_resumed, exit_view, resume_backup, BackupOutcome,
    BackupOutcomeView, ContainerStep, ContainerStepView, Stage, StageView,
};
use crate::types::{
    BackupConfig, BackupConfigView, ContainerInfo, ContainerInfoView, DockerError,
    DockerErrorView, FailureKind, PsInfo, PsInfoView,
};
use vstd::prelude::*;

verus! {

/// The text of the failure that stands for an inspection without a record.
pub const NO_DATA_RETURNED: &'static str = "Response from inspect is wrong (no data returned)";

/// A pass that waits for the reply to the inspection of its next container.
pub struct Inspecting {
    ps_info: Vec<PsInfo>,
    config: BackupConfig,
    outcomes: Vec<BackupOutcome>,
}

/// A pass that waits for the end of a command of the backup of one
/// container.
pub struct Executing {
    ps_info: Vec<PsInfo>,
    config: BackupConfig,
    outcomes: Vec<BackupOutcome>,
    info: ContainerInfo,
    stage: Stage,
}

/// How a pass ended: the containers as they were listed, and for each, at
/// the same index, how its backup ended.
#[derive(Debug, Clone, PartialEq, Eq)]
pub struct BackupReport {
    pub ps_info: Vec<PsInfo>,
    pub outcomes: Vec<BackupOutcome>,
}

/// What a pass asks for next.
pub enum BatchStep {
    /// Run `command`, which inspects the next container, decode its output,
    /// and hand the result to `inspecting`.
    Inspect { command: Command, inspecting: Inspecting },
    /// Run `command`, which stops, archives or starts, and hand how it ended
    /// to `executing`.
    Run { command: Command, executing: Executing },
    /// Every container has been dealt with.
    Finished { report: BackupReport },
}

/// The state of a pass: the containers listed, the settings, and how the
/// backups of the first containers ended, one entry per container done.
pub struct PassView {
    pub containers: Seq<PsInfoView>,
    pub config: BackupConfigView,
    pub outcomes: Seq<BackupOutcomeView>,
}

/// The state of a pass within the backup of the container `info`.
pub struct ExecutingView {
    pub pass: PassView,
    pub info: ContainerInfoView,
    pub stage: StageView,
}

pub struct BackupReportView {
    pub containers: Seq<PsInfoView>,
    pub outcomes: Seq<BackupOutcomeView>,
}

pub enum BatchStepView {
    Inspect { command: CommandView, inspecting: PassView },
    Run { command: CommandView, executing: ExecutingView },
    Finished { report: BackupReportView },
}

/// The reply to an inspection: the records decoded, or the failure.
pub type InspectReply = Result<Seq<ContainerInfoView>, DockerErrorView>;

impl PassView {
    /// The container that the pass is dealing with: the first one without an
    /// outcome.
    pub open spec fn current(self) -> PsInfoView {
        self.containers[self.outcomes.len() as int]
    }

    /// Whether a container is left to deal with.
    pub open spec fn unfinished(self) -> bool {
        self.outcomes.len() < self.containers.len()
    }

    /// The pass with the current container done.
    pub open spec fn with_outcome(self, outcome: BackupOutcomeView) -> PassView {
        PassView { outcomes: self.outcomes.push(outcome), ..self }
    }
}

impl BackupReportView {
    /// A pass succeeds when every container counts as backed up.
    pub open spec fn success(self) -> bool {
        forall|i: int| 0 <= i < self.outcomes.len() ==> (#[trigger] self.outcomes[i]).succeeded()
    }
}

impl BatchStepView {
    /// What holds of every step that a pass takes: a pass that waits has a
    /// container left to deal with, waits at a stage that fits the container
    /// inspected, and has no more outcomes than containers; a report has one
    /// outcome for each container.
    pub open spec fn consistent(self) -> bool {
        match self {
            BatchStepView::Inspect { command, inspecting } => inspecting.unfinished() && command
                == CommandView::Inspect { name: inspecting.current().names },
            BatchStepView::Run { command, executing } => executing.pass.unfinished()
                && executing.stage.fits(executing.info) && command.touches_container(),
            BatchStepView::Finished { report } => report.outcomes.len() == report.containers.len(),
        }
    }
}

/// The views of the parts of a pass.
spec fn pass_view(
    ps_info: Vec<PsInfo>,
    config: BackupConfig,
    outcomes: Vec<BackupOutcome>,
) -> PassView {
    PassView {
        containers: ps_info@.map_values(|container: PsInfo| container@),
        config: config@,
        outcomes: outcomes@.map_values(|outcome: BackupOutcome| outcome@),
    }
}

impl View for Inspecting {
    type V = PassView;

    closed spec fn view(&self) -> PassView {
        pass_view(self.ps_info, self.config, self.outcomes)
    }
}

impl View for Executing {
    type V = ExecutingView;

    closed spec fn view(&self) -> ExecutingView {
        ExecutingView {
            pass: pass_view(self.ps_info, self.config, self.outcomes),
            info: self.info@,
            stage: self.stage@,
        }
    }
}

impl View for BackupReport {
    type V = BackupReportView;

    open spec fn view(&self) -> BackupReportView {
        BackupReportView {
            containers: self.ps_info@.map_values(|container: PsInfo| container@),
            outcomes: self.outcomes@.map_values(|outcome: BackupOutcome| outcome@),
        }
    }
}

impl View for BatchStep {
    type V = BatchStepView;

    open spec fn view(&self) -> BatchStepView {
        match self {
            BatchStep::Inspect { command, inspecting } => BatchStepView::Inspect {
                command: command@,
                inspecting: inspecting@,
            },
            BatchStep::Run { command, executing } => BatchStepView::Run {
                command: command@,
                executing: executing@,
            },
            BatchStep::Finished { report } => BatchStepView::Finished { report: report@ },
        }
    }
}

/// The reply to an inspection, with records and failure by their views.
pub open spec fn reply_view(reply: Result<Vec<ContainerInfo>, DockerError>) -> InspectReply {
    match reply {
        Ok(records) => Ok(records@.map_values(|record: ContainerInfo| record@)),
        Err(error) => Err(error@),
    }
}

/// The failure that stands for an inspection that returned no record.
pub open spec fn missing_data() -> DockerErrorView {
    DockerErrorView { kind: FailureKind::MissingData, message: NO_DATA_RETURNED@ }
}

/// The step of a pass in the state `pass`: inspect the current container,
/// or, where none is left, report.
pub open spec fn pass_continued(pass: PassView) -> BatchStepView {
    if pass.unfinished() {
        BatchStepView::Inspect {
            command: CommandView::Inspect { name: pass.current().names },
            inspecting: pass,
        }
    } else {
        BatchStepView::Finished {
            report: BackupReportView { containers: pass.containers, outcomes: pass.outcomes },
        }
    }
}

/// The step of a pass whose current container, inspected as `info`, has
/// come to `step`: run its command, or record its outcome and go on.
pub open spec fn pass_followed(
    pass: PassView,
    info: ContainerInfoView,
    step: ContainerStepView,
) -> BatchStepView {
    match step {
        ContainerStepView::Run { command, resume } => BatchStepView::Run {
            command,
            executing: ExecutingView { pass, info, stage: resume },
        },
        ContainerStepView::Finished { outcome } => pass_continued(pass.with_outcome(outcome)),
    }
}

/// The first step of a pass over `containers`.
pub open spec fn pass_begun(containers: Seq<PsInfoView>, config: BackupConfigView) -> BatchStepView {
    pass_continued(PassView { containers, config, outcomes: Seq::empty() })
}

/// The step that follows the reply to the inspection of the current
/// container.
///
/// A failure, and a reply without a record, end the container as failed and
/// the pass goes on. Otherwise the first record is the container, and its
/// backup begins.
pub open spec fn pass_inspected(pass: PassView, reply: InspectReply) -> BatchStepView {
    match reply {
        Err(error) => pass_continued(
            pass.with_outcome(BackupOutcomeView::InspectFailed { error }),
        ),
        Ok(records) => {
            if records.len() == 0 {
                pass_continued(
                    pass.with_outcome(BackupOutcomeView::InspectFailed { error: missing_data() }),
                )
            } else {
                pass_followed(
                    pass,
                    records[0],
                    backup_begun(records[0], pass.current(), pass.config),
                )
            }
        },
    }
}

/// The step that follows the end of the command that the pass waited for.
pub open spec fn pass_exited(
    executing: ExecutingView,
    exited: Result<(), DockerErrorView>,
) -> BatchStepView {
    pass_followed(
        executing.pass,
        executing.info,
        backup_resumed(
            executing.info,
            executing.pass.current(),
            executing.pass.config,
            executing.stage,
            exited,
        ),
    )
}

impl Inspecting {
    #[verifier::type_invariant]
    spec fn has_a_container_left(self) -> bool {
        self.outcomes.len() < self.ps_info.len()
    }

    /// The container whose inspection the pass waits for.
    pub fn container(&self) -> (container: &PsInfo)
        ensures
            container@ == self@.current(),
    {
        proof {
            use_type_invariant(self);
        }
        &self.ps_info[self.outcomes.len()]
    }

    /// The next step of the pass, once the inspection that it waited for has
    /// been answered with `reply`.
    pub fn inspected(self, reply: Result<Vec<ContainerInfo>, DockerError>) -> (step: BatchStep)
        ensures
            step@ == pass_inspected(self@, reply_view(reply)),
            step@.consistent(),
    {
        proof {
            use_type_invariant(&self);
        }
        let Inspecting { ps_info, config, outcomes } = self;
        match reply {
            Err(error) => conclude(ps_info, config, outcomes, BackupOutcome::InspectFailed { error }),
            Ok(mut records) => {
                if records.len() == 0 {
                    let error = DockerError {
                        kind: FailureKind::MissingData,
                        message: NO_DATA_RETURNED.to_owned(),
                    };
                    conclude(ps_info, config, outcomes, BackupOutcome::InspectFailed { error })
                } else {
                    let info = records.remove(0);
                    let step = backup_all_mounts(&info, &ps_info[outcomes.len()], &config);
                    follow(ps_info, config, outcomes, info, step)
                }
            },
        }
    }
}

impl Executing {
    #[verifier::type_invariant]
    spec fn is_within_a_backup(self) -> bool {
        self.outcomes.len() < self.ps_info.len() && self.stage@.fits(self.info@)
    }

    /// The container that is being backed up, as it was listed.
    pub fn container(&self) -> (container: &PsInfo)
        ensures
            container@ == self@.pass.current(),
    {
        proof {
            use_type_invariant(self);
        }
        &self.ps_info[self.outcomes.len()]
    }

    /// The container that is being backed up, as it was inspected.
    pub fn container_info(&self) -> (info: &ContainerInfo)
        ensures
            info@ == self@.info,
    {
        &self.info
    }

    /// The command whose end the pass waits for.
    pub fn stage(&self) -> (stage: Stage)
        ensures
            stage@ == self@.stage,
    {
        self.stage
    }

    /// The next step of the pass, once the command that it waited for has
    /// ended as `exited` says.
    pub fn exited(self, exited: Result<(), DockerError>) -> (step: BatchStep)
        ensures
            step@ == pass_exited(self@, exit_view(exited)),
            step@.consistent(),
    {
        proof {
            use_type_invariant(&self);
        }
        let Executing { ps_info, config, outcomes, info, stage } = self;
        let step = resume_backup(&info, &ps_info[outcomes.len()], &config, stage, exited);
        follow(ps_info, config, outcomes, info, step)
    }
}

fn proceed(ps_info: Vec<PsInfo>, config: BackupConfig, outcomes: Vec<BackupOutcome>) -> (step:
    BatchStep)
    requires
        outcomes.len() <= ps_info.len(),
    ensures
        step@ == pass_continued(pass_view(ps_info, config, outcomes)),
        step@.consistent(),
{
    if outcomes.len() < ps_info.len() {
        let name = ps_info[outcomes.len()].names.clone();
        BatchStep::Inspect {
            command: Command::Inspect { name },
            inspecting: Inspecting { ps_info, config, outcomes },
        }
    } else {
        BatchStep::Finished { report: BackupReport { ps_info, outcomes } }
    }
}

fn conclude(
    ps_info: Vec<PsInfo>,
    config: BackupConfig,
    outcomes: Vec<BackupOutcome>,
    outcome: BackupOutcome,
) -> (step: BatchStep)
    requires
        outcomes.len() < ps_info.len(),
    ensures
        step@ == pass_continued(pass_view(ps_info, config, outcomes).with_outcome(outcome@)),
        step@.consistent(),
{
    let mut outcomes = outcomes;
    let ghost before = outcomes@;
    outcomes.push(outcome);
    assert(outcomes@.map_values(|outcome: BackupOutcome| outcome@) =~= before.map_values(
        |outcome: BackupOutcome| outcome@,
    ).push(outcome@));
    proceed(ps_info, config, outcomes)
}

fn follow(
    ps_info: Vec<PsInfo>,
    config: BackupConfig,
    outcomes: Vec<BackupOutcome>,
    info: ContainerInfo,
    step: ContainerStep,
) -> (next: BatchStep)
    requires
        outcomes.len() < ps_info.len(),
        step@.fits(info@),
        step@ matches ContainerStepView::Run { command, .. } ==> command.touches_container(),
    ensures
        next@ == pass_followed(pass_view(ps_info, config, outcomes), info@, step@),
        next@.consistent(),
{
    match step {
        ContainerStep::Run { command, resume } => BatchStep::Run {
            command,
            executing: Executing { ps_info, config, outcomes, info, stage: resume },
        },
        ContainerStep::Finished { outcome } => conclude(ps_info, config, outcomes, outcome),
    }
}

/// Begins a backup pass over the containers `ps_info`, in their order: the
/// first step inspects the first container, or reports at once where there
/// is none.
pub fn backup_container(ps_info: Vec<PsInfo>, config: BackupConfig) -> (step: BatchStep)
    ensures
        step@ == pass_begun(ps_info@.map_values(|container: PsInfo| container@), config@),
        step@.consistent(),
{
    let outcomes: Vec<BackupOutcome> = Vec::new();
    assert(outcomes@.map_values(|outcome: BackupOutcome| outcome@) =~= Seq::<
        BackupOutcomeView,
    >::empty());
    proceed(ps_info, config, outcomes)
}

impl BackupReport {
    /// Whether the pass succeeded: it failed if and only if the backup of at
    /// least one container did.
    pub fn success(&self) -> (ok: bool)
        ensures
            ok == self@.success(),
            !ok <==> exists|i: int|
                0 <= i < self.outcomes.len() && !(#[trigger] self.outcomes[i])@.succeeded(),
    {
        let mut ok = true;
        for i in 0..self.outcomes.len()
            invariant
                ok <==> forall|j: int| 0 <= j < i ==> (#[trigger] self.outcomes[j])@.succeeded(),
        {
            if !self.outcomes[i].succeeded() {
                ok = false;
            }
        }
        assert(forall|j: int|
            0 <= j < self.outcomes.len() ==> self@.outcomes[j] == (#[trigger] self.outcomes[j])@);
        ok
    }
}

/// Whether the process that made the pass ends with success. `pass` is the
/// report of the pass, or the failure to list the running containers.
///
/// A pass that could not list the containers did no work and harmed
/// nothing: the process ends with success. Otherwise it ends as the pass
/// did.
pub fn exit_success(pass: &Result<BackupReport, DockerError>) -> (ok: bool)
    ensures
        ok == match pass {
            Ok(report) => report@.success(),
            Err(_) => true,
        },
{
    match pass {
        Ok(report) => report.success(),
        Err(_) => true,
    }
}

} // verus!
