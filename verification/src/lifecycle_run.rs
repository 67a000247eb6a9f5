//! Whole backups of one container: what the steps of `lifecycle` add up to
//! when each command that they hand out is run and its end is reported back.
//!
//! A run is taken over every way in which the commands can end, so what is
//! proved here holds whatever the engine does.

use crate::command::CommandView;
use crate::lifecycle::{
    archive_command, archive_from, backup_begun, backup_helper, backup_resumed,
    BackupOutcomeView, ContainerStepView, StageView,
};
use crate::types::{BackupConfigView, ContainerInfoView, DockerErrorView, PsInfoView};
use vstd::prelude::*;

verus! {

/// How one command ended.
pub type Exit = Result<(), DockerErrorView>;

/// The commands that a backup handed out, in order, and how it ended.
/// `outcome` is `None` for a backup that is still waiting for a command.
pub struct ContainerRun {
    pub commands: Seq<CommandView>,
    pub outcome: Option<BackupOutcomeView>,
}

/// The run that starts at `step`, where the command handed out first ends as
/// `exits[0]`, the next as `exits[1]`, and so on. A run that needs more
/// results than `exits` holds stops at the command whose result is missing.
pub open spec fn run_from(
    info: ContainerInfoView,
    container: PsInfoView,
    config: BackupConfigView,
    step: ContainerStepView,
    exits: Seq<Exit>,
) -> ContainerRun
    decreases exits.len(),
{
    match step {
        ContainerStepView::Finished { outcome } => ContainerRun {
            commands: Seq::empty(),
            outcome: Some(outcome),
        },
        ContainerStepView::Run { command, resume } => {
            if exits.len() == 0 {
                ContainerRun { commands: seq![command], outcome: None }
            } else {
                let next = backup_resumed(info, container, config, resume, exits[0]);
                let rest = run_from(info, container, config, next, exits.drop_first());
                ContainerRun { commands: seq![command] + rest.commands, outcome: rest.outcome }
            }
        },
    }
}

/// The run of the backup of the container `info` from its first step.
pub open spec fn container_run(
    info: ContainerInfoView,
    container: PsInfoView,
    config: BackupConfigView,
    exits: Seq<Exit>,
) -> ContainerRun {
    run_from(info, container, config, backup_begun(info, container, config), exits)
}

/// One archive command for each mount of the container, in the order in
/// which the engine reported the mounts.
pub open spec fn planned_archives(
    info: ContainerInfoView,
    container: PsInfoView,
    config: BackupConfigView,
) -> Seq<CommandView> {
    Seq::new(info.mounts.len(), |i: int| archive_command(info, container, config, i))
}

/// The archive commands among `commands`, in order.
pub open spec fn archive_invocations(commands: Seq<CommandView>) -> Seq<CommandView> {
    commands.filter(|command: CommandView| command is Archive)
}

/// The start commands among `commands`, in order.
pub open spec fn start_invocations(commands: Seq<CommandView>) -> Seq<CommandView> {
    commands.filter(|command: CommandView| command is Start)
}

/// How many of `exits` are failures.
pub open spec fn failures(exits: Seq<Exit>) -> nat {
    exits.filter(|exit: Exit| exit is Err).len()
}

/// The run from the point where the mounts before index `mount` have been
/// tried and `failed` of them have failed, in closed form.
pub open spec fn archiving_run(
    info: ContainerInfoView,
    container: PsInfoView,
    config: BackupConfigView,
    mount: nat,
    failed: nat,
    exits: Seq<Exit>,
) -> ContainerRun {
    let planned = planned_archives(info, container, config);
    let left = info.mounts.len() - mount;
    if exits.len() < left {
        ContainerRun {
            commands: planned.subrange(mount as int, mount + exits.len() + 1int),
            outcome: None,
        }
    } else {
        let failed_mounts = failed + failures(exits.take(left));
        let archives = planned.subrange(mount as int, planned.len() as int);
        if !config.stop_start {
            ContainerRun {
                commands: archives,
                outcome: Some(BackupOutcomeView::Archived { failed_mounts }),
            }
        } else {
            ContainerRun {
                commands: archives.push(CommandView::Start { id: info.id }),
                outcome: if exits.len() == left {
                    None
                } else {
                    Some(
                        match exits[left] {
                            Err(error) => BackupOutcomeView::RestartFailed { failed_mounts, error },
                            Ok(_) => BackupOutcomeView::Archived { failed_mounts },
                        },
                    )
                },
            }
        }
    }
}

proof fn lemma_failures_of_first(exits: Seq<Exit>, count: int)
    requires
        0 < count <= exits.len(),
    ensures
        failures(exits.take(count)) == failures(exits.drop_first().take(count - 1)) + if exits[0]
            is Err {
            1nat
        } else {
            0nat
        },
{
    let is_failure = |exit: Exit| exit is Err;
    let head = seq![exits[0]];
    let tail = exits.drop_first().take(count - 1);
    assert(exits.take(count) =~= head + tail);
    Seq::filter_distributes_over_add(head, tail, is_failure);
    reveal_with_fuel(Seq::filter, 2);
}

/// The run from any point of the archiving is the closed form above.
pub proof fn lemma_archiving_run(
    info: ContainerInfoView,
    container: PsInfoView,
    config: BackupConfigView,
    mount: nat,
    failed: nat,
    exits: Seq<Exit>,
)
    requires
        mount <= info.mounts.len(),
    ensures
        run_from(
            info,
            container,
            config,
            archive_from(info, container, config, mount, failed),
            exits,
        ) == archiving_run(info, container, config, mount, failed, exits),
    decreases info.mounts.len() - mount,
{
    let step = archive_from(info, container, config, mount, failed);
    let run = run_from(info, container, config, step, exits);
    let closed = archiving_run(info, container, config, mount, failed, exits);
    let left = info.mounts.len() - mount;
    if mount < info.mounts.len() {
        if exits.len() > 0 {
            let now_failed = if exits[0] is Err {
                failed + 1
            } else {
                failed
            };
            lemma_archiving_run(info, container, config, mount + 1, now_failed, exits.drop_first());
            if exits.len() >= left {
                lemma_failures_of_first(exits, left);
            }
        }
    } else {
        reveal_with_fuel(Seq::filter, 1);
        if config.stop_start && exits.len() > 0 {
            let next = backup_resumed(
                info,
                container,
                config,
                StageView::Restarting { failed },
                exits[0],
            );
            let rest = run_from(info, container, config, next, exits.drop_first());
            assert(rest.commands =~= Seq::<CommandView>::empty());
        }
    }
    assert(run.commands =~= closed.commands);
}

proof fn lemma_filter_keeps_all<A>(items: Seq<A>, pred: spec_fn(A) -> bool)
    requires
        forall|i: int| 0 <= i < items.len() ==> pred(items[i]),
    ensures
        items.filter(pred) == items,
    decreases items.len(),
{
    reveal(Seq::filter);
    if items.len() > 0 {
        lemma_filter_keeps_all(items.drop_last(), pred);
    }
}

proof fn lemma_filter_drops_all<A>(items: Seq<A>, pred: spec_fn(A) -> bool)
    requires
        forall|i: int| 0 <= i < items.len() ==> !pred(items[i]),
    ensures
        items.filter(pred) == Seq::<A>::empty(),
    decreases items.len(),
{
    reveal(Seq::filter);
    if items.len() > 0 {
        lemma_filter_drops_all(items.drop_last(), pred);
    }
}

/// The run of a container that is no helper and is not to be stopped: the
/// archiving from the first mount.
proof fn lemma_live_run(
    info: ContainerInfoView,
    container: PsInfoView,
    config: BackupConfigView,
    exits: Seq<Exit>,
)
    requires
        !backup_helper(info),
        !config.stop_start,
    ensures
        container_run(info, container, config, exits) == archiving_run(
            info,
            container,
            config,
            0,
            0,
            exits,
        ),
{
    lemma_archiving_run(info, container, config, 0, 0, exits);
}

/// The run of a container that is no helper and is stopped with success:
/// the stop, then the archiving from the first mount.
proof fn lemma_stopped_run(
    info: ContainerInfoView,
    container: PsInfoView,
    config: BackupConfigView,
    exits: Seq<Exit>,
)
    requires
        !backup_helper(info),
        config.stop_start,
        exits.len() > 0,
        exits[0] is Ok,
    ensures
        container_run(info, container, config, exits).commands == seq![
            CommandView::Stop { id: info.id },
        ] + archiving_run(info, container, config, 0, 0, exits.drop_first()).commands,
        container_run(info, container, config, exits).outcome == archiving_run(
            info,
            container,
            config,
            0,
            0,
            exits.drop_first(),
        ).outcome,
{
    lemma_archiving_run(info, container, config, 0, 0, exits.drop_first());
}

/// A helper container is left alone: whatever the engine would answer, no
/// command is handed out for it, and it counts as backed up.
pub proof fn lemma_helper_is_skipped(
    info: ContainerInfoView,
    container: PsInfoView,
    config: BackupConfigView,
    exits: Seq<Exit>,
)
    requires
        backup_helper(info),
    ensures
        container_run(info, container, config, exits).commands == Seq::<CommandView>::empty(),
        container_run(info, container, config, exits).outcome == Some(BackupOutcomeView::Skipped),
        BackupOutcomeView::Skipped.succeeded(),
{
}

/// Every mount is archived, once and in the order in which the engine
/// reported the mounts: in a backup that ran to its end, of a container that
/// is no helper and whose stop, if it was to be stopped, did not fail, the
/// archive commands are those of the mounts. That holds whichever of the
/// archive commands fail.
pub proof fn lemma_every_mount_is_archived(
    info: ContainerInfoView,
    container: PsInfoView,
    config: BackupConfigView,
    exits: Seq<Exit>,
)
    requires
        !backup_helper(info),
        container_run(info, container, config, exits).outcome matches Some(outcome) && !(outcome
            is StopFailed),
    ensures
        archive_invocations(container_run(info, container, config, exits).commands)
            == planned_archives(info, container, config),
{
    let planned = planned_archives(info, container, config);
    let is_archive = |command: CommandView| command is Archive;
    let run = container_run(info, container, config, exits);
    lemma_filter_keeps_all(planned, is_archive);
    if config.stop_start {
        let stop = seq![CommandView::Stop { id: info.id }];
        let start = seq![CommandView::Start { id: info.id }];
        if exits.len() > 0 && exits[0] is Err {
            lemma_failed_stop_abandons_backup(info, container, config, exits);
        } else if exits.len() > 0 {
            lemma_stopped_run(info, container, config, exits);
            assert(run.commands =~= stop + planned + start);
            lemma_filter_drops_all(stop, is_archive);
            lemma_filter_drops_all(start, is_archive);
            Seq::filter_distributes_over_add(stop, planned, is_archive);
            Seq::filter_distributes_over_add(stop + planned, start, is_archive);
        }
    } else {
        lemma_live_run(info, container, config, exits);
        assert(run.commands =~= planned);
    }
}

/// A container whose stop fails is not archived: the stop is the only
/// command handed out, and the container counts as failed.
pub proof fn lemma_failed_stop_abandons_backup(
    info: ContainerInfoView,
    container: PsInfoView,
    config: BackupConfigView,
    exits: Seq<Exit>,
)
    requires
        !backup_helper(info),
        config.stop_start,
        exits.len() > 0,
        exits[0] is Err,
    ensures
        container_run(info, container, config, exits).commands == seq![
            CommandView::Stop { id: info.id },
        ],
        archive_invocations(container_run(info, container, config, exits).commands)
            == Seq::<CommandView>::empty(),
        container_run(info, container, config, exits).outcome == Some(
            BackupOutcomeView::StopFailed { error: exits[0]->Err_0 },
        ),
        !container_run(info, container, config, exits).outcome->0.succeeded(),
{
    let stop = seq![CommandView::Stop { id: info.id }];
    let next = backup_resumed(info, container, config, StageView::Stopping, exits[0]);
    let rest = run_from(info, container, config, next, exits.drop_first());
    assert(rest.commands =~= Seq::<CommandView>::empty());
    lemma_filter_drops_all(stop, |command: CommandView| command is Archive);
}

/// A container that was stopped is started again: once every mount has been
/// tried, whichever of them failed, the commands handed out are the stop,
/// the archive commands of the mounts in order, and one start at the end.
/// The outcome counts the mounts that failed.
pub proof fn lemma_stopped_container_is_started_again(
    info: ContainerInfoView,
    container: PsInfoView,
    config: BackupConfigView,
    exits: Seq<Exit>,
)
    requires
        !backup_helper(info),
        config.stop_start,
        exits.len() > info.mounts.len(),
        exits[0] is Ok,
    ensures
        container_run(info, container, config, exits).commands == seq![
            CommandView::Stop { id: info.id },
        ] + planned_archives(info, container, config) + seq![CommandView::Start { id: info.id }],
        start_invocations(container_run(info, container, config, exits).commands) == seq![
            CommandView::Start { id: info.id },
        ],
        exits.len() > info.mounts.len() + 1 ==> container_run(
            info,
            container,
            config,
            exits,
        ).outcome == Some(
            match exits[info.mounts.len() + 1int] {
                Err(error) => BackupOutcomeView::RestartFailed {
                    failed_mounts: failures(exits.subrange(1, info.mounts.len() + 1int)),
                    error,
                },
                Ok(_) => BackupOutcomeView::Archived {
                    failed_mounts: failures(exits.subrange(1, info.mounts.len() + 1int)),
                },
            },
        ),
{
    let planned = planned_archives(info, container, config);
    let is_start = |command: CommandView| command is Start;
    let stop = seq![CommandView::Stop { id: info.id }];
    let start = seq![CommandView::Start { id: info.id }];
    let run = container_run(info, container, config, exits);
    lemma_stopped_run(info, container, config, exits);
    lemma_filter_drops_all(stop, is_start);
    lemma_filter_drops_all(planned, is_start);
    lemma_filter_keeps_all(start, is_start);
    Seq::filter_distributes_over_add(stop, planned, is_start);
    Seq::filter_distributes_over_add(stop + planned, start, is_start);
    assert(exits.drop_first().take(info.mounts.len() as int) =~= exits.subrange(
        1,
        info.mounts.len() + 1int,
    ));
}

/// A container that is not to be stopped keeps running: once every mount
/// has been tried, the commands handed out are the archive commands of the
/// mounts and nothing else, and the outcome counts the mounts that failed.
pub proof fn lemma_live_backup_only_archives(
    info: ContainerInfoView,
    container: PsInfoView,
    config: BackupConfigView,
    exits: Seq<Exit>,
)
    requires
        !backup_helper(info),
        !config.stop_start,
        exits.len() >= info.mounts.len(),
    ensures
        container_run(info, container, config, exits).commands == planned_archives(
            info,
            container,
            config,
        ),
        container_run(info, container, config, exits).outcome == Some(
            BackupOutcomeView::Archived {
                failed_mounts: failures(exits.take(info.mounts.len() as int)),
            },
        ),
{
    lemma_live_run(info, container, config, exits);
}

/// The backup of a container with `n` mounts hands out at most `n + 2`
/// commands, and has ended once that many results are in.
pub proof fn lemma_run_is_bounded(
    info: ContainerInfoView,
    container: PsInfoView,
    config: BackupConfigView,
    exits: Seq<Exit>,
)
    ensures
        container_run(info, container, config, exits).commands.len() <= info.mounts.len() + 2,
        exits.len() >= info.mounts.len() + 2 ==> container_run(
            info,
            container,
            config,
            exits,
        ).outcome is Some,
{
    if backup_helper(info) {
    } else if !config.stop_start {
        lemma_live_run(info, container, config, exits);
    } else if exits.len() == 0 {
    } else if exits[0] is Ok {
        lemma_stopped_run(info, container, config, exits);
    } else {
        lemma_failed_stop_abandons_backup(info, container, config, exits);
    }
}

} // verus!
