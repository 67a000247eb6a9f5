//! Whole passes: what the steps of `batch` add up to when each command that
//! they hand out is run and its result is handed back.
//!
//! A run is taken over every way in which the engine can answer, so what is
//! proved here holds whatever the engine does.

use crate::batch::{
    pass_begun, pass_continued, pass_exited, pass_followed, pass_inspected, BackupReportView,
    BatchStepView, InspectReply, PassView,
};
use crate::command::CommandView;
use crate::lifecycle::{
    backup_begun, backup_helper, backup_resumed, BackupOutcomeView, ContainerStepView,
};
use crate::lifecycle_run::{container_run, run_from, Exit};
use crate::types::{BackupConfigView, ContainerInfoView, PsInfoView};
use vstd::prelude::*;

verus! {

/// The result of one command, as the caller hands it to the pass.
pub enum Event {
    /// The reply to an inspection.
    Inspected(InspectReply),
    /// The end of a command that stops, archives or starts.
    Exited(Exit),
}

/// The commands that a pass handed out, in order, and its report. `report`
/// is `None` for a pass that is still waiting for a result.
pub struct PassRun {
    pub commands: Seq<CommandView>,
    pub report: Option<BackupReportView>,
}

/// The step that follows `step` when its command is answered with `event`;
/// `None` where the step has ended the pass, or the event is not of the kind
/// that answers the command.
pub open spec fn pass_answered(step: BatchStepView, event: Event) -> Option<BatchStepView> {
    match (step, event) {
        (BatchStepView::Inspect { inspecting, .. }, Event::Inspected(reply)) => Some(
            pass_inspected(inspecting, reply),
        ),
        (BatchStepView::Run { executing, .. }, Event::Exited(exited)) => Some(
            pass_exited(executing, exited),
        ),
        _ => None,
    }
}

/// The run that starts at `step`, where the command handed out first is
/// answered with `events[0]`, the next with `events[1]`, and so on. A run
/// stops at the command for which no fitting answer is there.
pub open spec fn pass_run_from(step: BatchStepView, events: Seq<Event>) -> PassRun
    decreases events.len(),
{
    match step {
        BatchStepView::Finished { report } => PassRun {
            commands: Seq::empty(),
            report: Some(report),
        },
        BatchStepView::Inspect { command, .. } | BatchStepView::Run { command, .. } => {
            if events.len() == 0 {
                PassRun { commands: seq![command], report: None }
            } else {
                match pass_answered(step, events[0]) {
                    None => PassRun { commands: seq![command], report: None },
                    Some(next) => {
                        let rest = pass_run_from(next, events.drop_first());
                        PassRun { commands: seq![command] + rest.commands, report: rest.report }
                    },
                }
            }
        },
    }
}

/// The run of a pass over `containers` from its first step.
pub open spec fn pass_run(
    containers: Seq<PsInfoView>,
    config: BackupConfigView,
    events: Seq<Event>,
) -> PassRun {
    pass_run_from(pass_begun(containers, config), events)
}

/// One inspection for each of `containers`, in their order.
pub open spec fn inspections(containers: Seq<PsInfoView>) -> Seq<CommandView> {
    Seq::new(containers.len(), |i: int| CommandView::Inspect { name: containers[i].names })
}

/// The inspections among `commands`, in order.
pub open spec fn inspect_invocations(commands: Seq<CommandView>) -> Seq<CommandView> {
    commands.filter(|command: CommandView| command is Inspect)
}

/// The containers that the pass of `step` goes over.
pub open spec fn containers_of(step: BatchStepView) -> Seq<PsInfoView> {
    match step {
        BatchStepView::Inspect { inspecting, .. } => inspecting.containers,
        BatchStepView::Run { executing, .. } => executing.pass.containers,
        BatchStepView::Finished { report } => report.containers,
    }
}

/// The number of containers whose inspection has been handed out by the
/// time the pass is at `step`.
pub open spec fn inspected_so_far(step: BatchStepView) -> nat {
    match step {
        BatchStepView::Inspect { inspecting, .. } => inspecting.outcomes.len(),
        BatchStepView::Run { executing, .. } => executing.pass.outcomes.len() + 1,
        BatchStepView::Finished { report } => report.outcomes.len(),
    }
}

/// A step of a pass leads to a step of the same pass: the containers stay,
/// and the next step is consistent where this one is.
pub proof fn lemma_pass_stays_consistent(step: BatchStepView, event: Event)
    requires
        step.consistent(),
        pass_answered(step, event) is Some,
    ensures
        pass_answered(step, event)->0.consistent(),
        containers_of(pass_answered(step, event)->0) == containers_of(step),
        inspected_so_far(step) <= inspected_so_far(pass_answered(step, event)->0)
            <= inspected_so_far(step) + 1,
{
}

/// A helper container is passed over: once it has been inspected, the pass
/// records it as skipped, which counts as backed up, and goes on to the next
/// container without a command for this one.
pub proof fn lemma_helper_is_passed_over(pass: PassView, records: Seq<ContainerInfoView>)
    requires
        records.len() > 0,
        backup_helper(records[0]),
    ensures
        pass_inspected(pass, Ok(records)) == pass_continued(
            pass.with_outcome(BackupOutcomeView::Skipped),
        ),
        BackupOutcomeView::Skipped.succeeded(),
{
}

/// A container that cannot be inspected, or whose inspection returns no
/// record, is recorded as failed, and the pass goes on to the next
/// container.
pub proof fn lemma_failed_inspection_is_recorded(pass: PassView, reply: InspectReply)
    requires
        reply is Err || reply->Ok_0.len() == 0,
    ensures
        pass_inspected(pass, reply) matches BatchStepView::Inspect { inspecting, .. } ==> {
            &&& inspecting.outcomes.len() == pass.outcomes.len() + 1
            &&& inspecting.outcomes.last() is InspectFailed
            &&& inspecting.containers == pass.containers
        },
        pass_inspected(pass, reply) matches BatchStepView::Finished { report } ==> {
            &&& report.outcomes.len() == pass.outcomes.len() + 1
            &&& report.outcomes.last() is InspectFailed
            &&& !report.success()
        },
        !(pass_inspected(pass, reply) is Run),
{
}

proof fn lemma_inspections_from(step: BatchStepView, events: Seq<Event>)
    requires
        step.consistent(),
        inspected_so_far(step) <= containers_of(step).len(),
        pass_run_from(step, events).report is Some,
    ensures
        inspect_invocations(pass_run_from(step, events).commands) == inspections(
            containers_of(step),
        ).skip(inspected_so_far(step) as int),
        pass_run_from(step, events).report->0.containers == containers_of(step),
        pass_run_from(step, events).report->0.outcomes.len() == containers_of(step).len(),
    decreases events.len(),
{
    let is_inspect = |command: CommandView| command is Inspect;
    reveal_with_fuel(Seq::filter, 2);
    match step {
        BatchStepView::Finished { .. } => {},
        BatchStepView::Inspect { command, .. } | BatchStepView::Run { command, .. } => {
            let next = pass_answered(step, events[0])->0;
            let rest = pass_run_from(next, events.drop_first());
            lemma_pass_stays_consistent(step, events[0]);
            lemma_inspections_from(next, events.drop_first());
            Seq::filter_distributes_over_add(seq![command], rest.commands, is_inspect);
        },
    }
}

/// A pass never stops early: a pass that has ended has inspected every
/// container that was listed, once and in the order of the listing,
/// whatever failed on the way, and its report holds one outcome for each.
pub proof fn lemma_every_container_is_inspected(
    containers: Seq<PsInfoView>,
    config: BackupConfigView,
    events: Seq<Event>,
)
    requires
        pass_run(containers, config, events).report is Some,
    ensures
        inspect_invocations(pass_run(containers, config, events).commands) == inspections(
            containers,
        ),
        pass_run(containers, config, events).report->0.containers == containers,
        pass_run(containers, config, events).report->0.outcomes.len() == containers.len(),
{
    lemma_inspections_from(pass_begun(containers, config), events);
}

/// A pass fails if and only if one of its containers did: the report of a
/// pass that has ended holds one outcome for each container that was
/// listed, and it tells success exactly when none of them is a failure.
pub proof fn lemma_pass_fails_with_a_container(
    containers: Seq<PsInfoView>,
    config: BackupConfigView,
    events: Seq<Event>,
)
    requires
        pass_run(containers, config, events).report is Some,
    ensures
        ({
            let report = pass_run(containers, config, events).report->0;
            &&& report.outcomes.len() == containers.len()
            &&& !report.success() <==> exists|i: int|
                0 <= i < containers.len() && !(#[trigger] report.outcomes[i]).succeeded()
        }),
{
    lemma_every_container_is_inspected(containers, config, events);
}

/// The events with which the caller answers commands that end as `exits`.
pub open spec fn exit_events(exits: Seq<Exit>) -> Seq<Event> {
    exits.map_values(|exit: Exit| Event::Exited(exit))
}

/// The run of a pass from the point where its current container has ended
/// as `outcome` says.
pub open spec fn pass_run_after(
    pass: PassView,
    outcome: BackupOutcomeView,
    more: Seq<Event>,
) -> PassRun {
    pass_run_from(pass_continued(pass.with_outcome(outcome)), more)
}

proof fn lemma_pass_follows_backup(
    pass: PassView,
    info: ContainerInfoView,
    step: ContainerStepView,
    exits: Seq<Exit>,
    more: Seq<Event>,
)
    requires
        run_from(info, pass.current(), pass.config, step, exits).outcome is Some,
        run_from(info, pass.current(), pass.config, step, exits).commands.len() == exits.len(),
    ensures
        ({
            let backup = run_from(info, pass.current(), pass.config, step, exits);
            let after = pass_run_after(pass, backup.outcome->0, more);
            pass_run_from(pass_followed(pass, info, step), exit_events(exits) + more) == (PassRun {
                commands: backup.commands + after.commands,
                report: after.report,
            })
        }),
    decreases exits.len(),
{
    let events = exit_events(exits) + more;
    let backup = run_from(info, pass.current(), pass.config, step, exits);
    let after = pass_run_after(pass, backup.outcome->0, more);
    let whole = pass_run_from(pass_followed(pass, info, step), events);
    match step {
        ContainerStepView::Finished { .. } => {
            assert(events =~= more);
        },
        ContainerStepView::Run { resume, .. } => {
            let next = backup_resumed(info, pass.current(), pass.config, resume, exits[0]);
            assert(events.drop_first() =~= exit_events(exits.drop_first()) + more);
            lemma_pass_follows_backup(pass, info, next, exits.drop_first(), more);
        },
    }
    assert(whole.commands =~= backup.commands + after.commands);
}

/// Within a pass, the backup of a container is the backup of that container
/// alone: once the inspection has returned `records`, the pass hands out the
/// commands of the run of the first record, in order and nothing between
/// them, records the outcome of that run, and then goes on with the next
/// container as it would have after any other outcome. So what
/// `lifecycle_run` proves of the backup of one container holds of each
/// container of a pass.
///
/// `exits` holds how the commands of this container end, one entry for each
/// command; `more` is what the engine answers afterwards.
pub proof fn lemma_pass_runs_each_backup(
    pass: PassView,
    records: Seq<ContainerInfoView>,
    exits: Seq<Exit>,
    more: Seq<Event>,
)
    requires
        records.len() > 0,
        container_run(records[0], pass.current(), pass.config, exits).outcome is Some,
        container_run(records[0], pass.current(), pass.config, exits).commands.len()
            == exits.len(),
    ensures
        ({
            let backup = container_run(records[0], pass.current(), pass.config, exits);
            let after = pass_run_after(pass, backup.outcome->0, more);
            pass_run_from(pass_inspected(pass, Ok(records)), exit_events(exits) + more) == (PassRun {
                commands: backup.commands + after.commands,
                report: after.report,
            })
        }),
{
    lemma_pass_follows_backup(
        pass,
        records[0],
        backup_begun(records[0], pass.current(), pass.config),
        exits,
        more,
    );
}

} // verus!
