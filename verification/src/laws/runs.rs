//! Laws of whole sessions: what holds of everything that is done for a command, whatever the
//! service and the user report.

use vstd::prelude::*;

use crate::action::ActionModel;
use crate::commands::{
    change_type_script, chosen_ids, confirm_script, confirms, modification, modifications,
    offer_script, restart_script, review_script, OutputFormat, WAIT_SECONDS,
};
use crate::instances::{infos_of, InfoModel};
use crate::laws::choosing::law_choice_was_offered;
use crate::session::{
    advance_outcome, command_outcome, launch_outcome, perform_outcome, profile_of, CommandModel,
    EventModel, Outcome, SessionModel, TaskModel,
};
use crate::states::state_filter_of;

verus! {

/// A report to a session, and the width of the terminal at that time.
pub ghost struct Report {
    pub event: EventModel,
    pub width: Option<u16>,
}

/// Where the session of `command` stands after `reports`, and all that was to be done until then.
pub open spec fn run(command: CommandModel, reports: Seq<Report>) -> Outcome
    decreases reports.len(),
{
    if reports.len() == 0 {
        launch_outcome(command)
    } else {
        let before = run(command, reports.drop_last());
        let step = advance_outcome(before.session, reports.last().event, reports.last().width);
        Outcome { session: step.session, actions: before.actions + step.actions }
    }
}

/// The instances that an action is about, if it is about certain instances.
pub open spec fn subjects(action: ActionModel) -> Option<Seq<Seq<char>>> {
    match action {
        ActionModel::DescribeByIds { ids } => Some(ids),
        ActionModel::StartInstances { ids } => Some(ids),
        ActionModel::StopInstances { ids } => Some(ids),
        ActionModel::TerminateInstances { ids } => Some(ids),
        ActionModel::ModifyInstanceType { id, instance_type } => Some(seq![id]),
        ActionModel::WaitUntilRunning { ids, seconds } => Some(ids),
        ActionModel::WaitUntilStopped { ids, seconds } => Some(ids),
        _ => None,
    }
}

/// Whether an action changes instances.
pub open spec fn changes(action: ActionModel) -> bool {
    ||| action is StartInstances
    ||| action is StopInstances
    ||| action is TerminateInstances
    ||| action is ModifyInstanceType
}

/// Whether `task` is for the change that `action` makes.
pub open spec fn intends(task: TaskModel, action: ActionModel) -> bool {
    match action {
        ActionModel::StartInstances { ids } => task is Start || task is Restart,
        ActionModel::StopInstances { ids } => task is Stop || task is Restart,
        ActionModel::TerminateInstances { ids } => task is Terminate,
        ActionModel::ModifyInstanceType { id, instance_type } => task
            == (TaskModel::ChangeType { instance_type }),
        _ => true,
    }
}

/// Whether one of `reports` describes exactly `infos`.
pub open spec fn described(reports: Seq<Report>, infos: Seq<InfoModel>) -> bool {
    exists|k: int|
        0 <= k < reports.len() && (#[trigger] reports[k]).event is Described && infos == infos_of(
            reports[k].event->reservations,
        )
}

/// Whether `ids` are the instances that `command` is about: those that it was given or, where
/// none was given, one of those that the service described.
pub open spec fn resolved(
    command: CommandModel,
    reports: Seq<Report>,
    ids: Seq<Seq<char>>,
) -> bool {
    &&& command is Act
    &&& ids.len() > 0
    &&& if command->instance_ids.len() > 0 {
        ids == command->instance_ids
    } else {
        exists|infos: Seq<InfoModel>, i: int|
            #![trigger described(reports, infos), infos[i]]
            described(reports, infos) && 0 <= i < infos.len() && ids == seq![infos[i].instance_id]
    }
}

/// Whether `action` belongs to `command`: what it is about is what the command is about, what it
/// changes is what the command is for, and it waits as long as commands wait.
pub open spec fn belongs(
    command: CommandModel,
    reports: Seq<Report>,
    action: ActionModel,
) -> bool {
    &&& changes(action) ==> command is Act && intends(command->task, action)
    &&& subjects(action) is Some ==> exists|ids: Seq<Seq<char>>| #[trigger]
        resolved(command, reports, ids) && (subjects(action)->Some_0 == ids || (action
            is ModifyInstanceType && ids.contains(action->id)))
    &&& action is WaitUntilRunning ==> action->WaitUntilRunning_seconds == WAIT_SECONDS
    &&& action is WaitUntilStopped ==> action->WaitUntilStopped_seconds == WAIT_SECONDS
}

/// Whether the last things in `actions` were to show the instances that one of `reports`
/// describes, to warn, and to ask for the word that confirms their termination.
pub open spec fn shown_for_review(reports: Seq<Report>, actions: Seq<ActionModel>) -> bool {
    &&& actions.len() >= 3
    &&& exists|infos: Seq<InfoModel>, output: OutputFormat, width: Option<u16>|
        described(reports, infos) && actions.skip(actions.len() - 3) == #[trigger] review_script(
            infos,
            output,
            width,
        )
}

/// Whether the session of `command` may stand where it does after `reports`, with `actions`
/// behind it.
spec fn consistent(
    command: CommandModel,
    reports: Seq<Report>,
    session: SessionModel,
    actions: Seq<ActionModel>,
) -> bool {
    &&& actions.len() > 0
    &&& match session {
        SessionModel::Listing { output } => {
            &&& command is List
            &&& actions.last() is DescribeByFilter
        },
        SessionModel::Offering { task } => {
            &&& command is Act
            &&& command->task == task
            &&& command->instance_ids.len() == 0
            &&& actions.last() is DescribeByFilter
        },
        SessionModel::Choosing { task, infos } => {
            &&& command is Act
            &&& command->task == task
            &&& command->instance_ids.len() == 0
            &&& described(reports, infos)
            &&& actions.last() is Ask
        },
        SessionModel::Reviewing { ids, output } => {
            &&& command is Act
            &&& command->task is Terminate
            &&& resolved(command, reports, ids)
            &&& actions.last() == (ActionModel::DescribeByIds { ids })
        },
        SessionModel::Confirming { ids } => {
            &&& command is Act
            &&& command->task is Terminate
            &&& resolved(command, reports, ids)
            &&& shown_for_review(reports, actions)
        },
        SessionModel::Finished => true,
    }
}

/// A further report leaves described what was described.
proof fn lemma_reports_grow(command: CommandModel, reports: Seq<Report>)
    requires
        reports.len() > 0,
    ensures
        forall|infos: Seq<InfoModel>| #[trigger]
            described(reports.drop_last(), infos) ==> described(reports, infos),
        forall|ids: Seq<Seq<char>>| #[trigger]
            resolved(command, reports.drop_last(), ids) ==> resolved(command, reports, ids),
        forall|action: ActionModel| #[trigger]
            belongs(command, reports.drop_last(), action) ==> belongs(command, reports, action),
        forall|actions: Seq<ActionModel>| #[trigger]
            shown_for_review(reports.drop_last(), actions) ==> shown_for_review(reports, actions),
{
    let fewer = reports.drop_last();
    assert forall|infos: Seq<InfoModel>| #[trigger] described(fewer, infos) implies described(
        reports,
        infos,
    ) by {
        let k = choose|k: int|
            0 <= k < fewer.len() && (#[trigger] fewer[k]).event is Described && infos == infos_of(
                fewer[k].event->reservations,
            );
        assert(reports[k] == fewer[k]);
    }
    assert forall|ids: Seq<Seq<char>>| #[trigger] resolved(command, fewer, ids) implies resolved(
        command,
        reports,
        ids,
    ) by {
        if command->instance_ids.len() == 0 {
            let (infos, i) = choose|infos: Seq<InfoModel>, i: int|
                #![trigger described(fewer, infos), infos[i]]
                described(fewer, infos) && 0 <= i < infos.len() && ids
                    == seq![infos[i].instance_id];
            assert(described(reports, infos));
            assert(infos[i] == infos[i]);
        }
    }
    assert forall|actions: Seq<ActionModel>| #[trigger]
        shown_for_review(fewer, actions) implies shown_for_review(reports, actions) by {
        let (infos, output, width) = choose|
            infos: Seq<InfoModel>,
            output: OutputFormat,
            width: Option<u16>,
        |
            described(fewer, infos) && actions.skip(actions.len() - 3)
                == #[trigger] review_script(infos, output, width);
        assert(described(reports, infos));
        assert(actions.skip(actions.len() - 3) == review_script(infos, output, width));
    }
    assert forall|action: ActionModel| #[trigger] belongs(command, fewer, action) implies belongs(
        command,
        reports,
        action,
    ) by {
        if subjects(action) is Some {
            let ids = choose|ids: Seq<Seq<char>>| #[trigger]
                resolved(command, fewer, ids) && (subjects(action)->Some_0 == ids || (action
                    is ModifyInstanceType && ids.contains(action->id)));
            assert(resolved(command, reports, ids));
        }
    }
}

/// What the modifications of instances are.
pub(crate) proof fn lemma_modifications(ids: Seq<Seq<char>>, instance_type: Seq<char>)
    ensures
        modifications(ids, instance_type).len() == 2 * ids.len(),
        forall|i: int|
            0 <= i < ids.len() ==> modifications(ids, instance_type)[2 * i] == (
            ActionModel::ModifyInstanceType { id: #[trigger] ids[i], instance_type }),
        forall|i: int|
            0 <= i < ids.len() ==> modifications(ids, instance_type)[2 * i + 1] == modification(
                #[trigger] ids[i],
                instance_type,
            )[1],
    decreases ids.len(),
{
    if ids.len() > 0 {
        let fewer = ids.drop_last();
        lemma_modifications(fewer, instance_type);
        let actions = modifications(ids, instance_type);
        let before = modifications(fewer, instance_type);
        assert forall|i: int| 0 <= i < ids.len() implies actions[2 * i] == (
        ActionModel::ModifyInstanceType { id: #[trigger] ids[i], instance_type }) && actions[2 * i
            + 1] == modification(ids[i], instance_type)[1] by {
            if i < fewer.len() {
                assert(ids[i] == fewer[i]);
                assert(actions[2 * i] == before[2 * i]);
                assert(actions[2 * i + 1] == before[2 * i + 1]);
            }
        }
    }
}

/// Each action in the modifications of instances is one of those of a single instance.
proof fn lemma_modification_of_one(ids: Seq<Seq<char>>, instance_type: Seq<char>, j: int)
    requires
        0 <= j < modifications(ids, instance_type).len(),
    ensures
        exists|i: int|
            0 <= i < ids.len() && modification(#[trigger] ids[i], instance_type).contains(
                modifications(ids, instance_type)[j],
            ),
{
    lemma_modifications(ids, instance_type);
    let i = j / 2;
    assert(0 <= i < ids.len());
    let one = modification(ids[i], instance_type);
    if j % 2 == 0 {
        assert(j == 2 * i);
        assert(one[0] == modifications(ids, instance_type)[j]);
    } else {
        assert(j == 2 * i + 1);
        assert(one[1] == modifications(ids, instance_type)[j]);
    }
}

/// Carrying out the task of a command on the instances that it is about stays within it.
proof fn lemma_performing_belongs(
    command: CommandModel,
    reports: Seq<Report>,
    ids: Seq<Seq<char>>,
)
    requires
        command is Act,
        ids.len() > 0 ==> resolved(command, reports, ids),
    ensures
        forall|j: int|
            0 <= j < perform_outcome(command->task, ids).actions.len() ==> belongs(
                command,
                reports,
                #[trigger] perform_outcome(command->task, ids).actions[j],
            ),
{
    let actions = perform_outcome(command->task, ids).actions;
    if ids.len() > 0 {
        assert(resolved(command, reports, ids));
        if command->task is ChangeType {
            let instance_type = command->task->instance_type;
            let middle = modifications(ids, instance_type);
            assert forall|j: int| 0 <= j < actions.len() implies belongs(
                command,
                reports,
                #[trigger] actions[j],
            ) by {
                if 0 < j <= middle.len() {
                    assert(actions[j] == middle[j - 1]);
                    lemma_modification_of_one(ids, instance_type, j - 1);
                    let i = choose|i: int|
                        0 <= i < ids.len() && modification(
                            #[trigger] ids[i],
                            instance_type,
                        ).contains(middle[j - 1]);
                    assert(ids.contains(ids[i]));
                }
            }
        }
    }
}

/// What holds after every report.
#[verifier::rlimit(40)]
#[verifier::spinoff_prover]
proof fn lemma_run(command: CommandModel, reports: Seq<Report>)
    ensures
        consistent(
            command,
            reports,
            run(command, reports).session,
            run(command, reports).actions,
        ),
        forall|i: int|
            0 <= i < run(command, reports).actions.len() ==> belongs(
                command,
                reports,
                #[trigger] run(command, reports).actions[i],
            ),
    decreases reports.len(),
{
    let outcome = run(command, reports);
    if reports.len() == 0 {
        let first = command_outcome(command).actions;
        if command is Act && command->instance_ids.len() > 0 {
            let ids = command->instance_ids;
            assert(resolved(command, reports, ids));
            lemma_performing_belongs(command, reports, ids);
            assert(first == perform_outcome(command->task, ids).actions);
        }
        assert forall|i: int| 0 <= i < outcome.actions.len() implies belongs(
            command,
            reports,
            #[trigger] outcome.actions[i],
        ) by {
            if i > 0 {
                assert(outcome.actions[i] == first[i - 1]);
            }
        }
    } else {
        let fewer = reports.drop_last();
        let before = run(command, fewer);
        let event = reports.last().event;
        let step = advance_outcome(before.session, event, reports.last().width);
        lemma_run(command, fewer);
        lemma_reports_grow(command, reports);
        if event is Described {
            assert(reports[reports.len() - 1].event is Described);
            assert(described(reports, infos_of(event->reservations)));
        }
        if before.session is Choosing && event is Typed {
            let infos = before.session->infos;
            let ids = chosen_ids(infos, event->line);
            if ids.len() > 0 {
                law_choice_was_offered(infos, event->line);
                assert(ids.contains(ids[0]));
                let i = choose|i: int|
                    0 <= i < infos.len() && #[trigger] infos[i].instance_id == ids[0];
                assert(ids == seq![infos[i].instance_id]);
                assert(described(reports, infos) && infos[i] == infos[i]);
                assert(resolved(command, reports, ids));
            }
            lemma_performing_belongs(command, reports, ids);
        }
        if before.session is Confirming {
            assert(resolved(command, reports, before.session->Confirming_ids));
        }
        if step.session is Confirming && event is Described && before.session is Reviewing {
            let infos = infos_of(event->reservations);
            let output = before.session->Reviewing_output;
            assert(step.actions == review_script(infos, output, reports.last().width));
            assert(outcome.actions.skip(outcome.actions.len() - 3) == step.actions);
            assert(shown_for_review(reports, outcome.actions));
        }
        if step.actions.len() == 0 {
            assert(outcome.actions == before.actions);
        }
        assert forall|i: int| 0 <= i < step.actions.len() implies belongs(
            command,
            reports,
            #[trigger] step.actions[i],
        ) by {}
        assert forall|i: int| 0 <= i < outcome.actions.len() implies belongs(
            command,
            reports,
            #[trigger] outcome.actions[i],
        ) by {
            if i < before.actions.len() {
                assert(outcome.actions[i] == before.actions[i]);
                assert(belongs(command, fewer, before.actions[i]));
            } else {
                assert(outcome.actions[i] == step.actions[i - before.actions.len()]);
            }
        }
    }
}

/// Everything that is done for a command is about the instances that the command is about (those
/// that it was given or, where none was given, one of those that the service described), and
/// there is always at least one.
pub proof fn law_actions_are_about_the_resolved_instances(
    command: CommandModel,
    reports: Seq<Report>,
    i: int,
)
    requires
        0 <= i < run(command, reports).actions.len(),
        subjects(run(command, reports).actions[i]) is Some,
    ensures
        ({
            let action = run(command, reports).actions[i];
            exists|ids: Seq<Seq<char>>| #[trigger]
                resolved(command, reports, ids) && (subjects(action)->Some_0 == ids || (action
                    is ModifyInstanceType && ids.contains(action->id)))
        }),
        subjects(run(command, reports).actions[i])->Some_0.len() > 0,
{
    lemma_run(command, reports);
    assert(belongs(command, reports, run(command, reports).actions[i]));
}

/// A command makes no change but those that it is for. Listing and waiting change nothing.
pub proof fn law_commands_change_what_they_are_for(
    command: CommandModel,
    reports: Seq<Report>,
    i: int,
)
    requires
        0 <= i < run(command, reports).actions.len(),
        changes(run(command, reports).actions[i]),
    ensures
        command is Act,
        intends(command->task, run(command, reports).actions[i]),
        !(command->task is Wait),
{
    lemma_run(command, reports);
    assert(belongs(command, reports, run(command, reports).actions[i]));
}

/// Every wait for instances is given the same time.
pub proof fn law_waits_are_bounded(command: CommandModel, reports: Seq<Report>, i: int)
    requires
        0 <= i < run(command, reports).actions.len(),
    ensures
        ({
            let action = run(command, reports).actions[i];
            &&& action is WaitUntilRunning ==> action->WaitUntilRunning_seconds == 300
            &&& action is WaitUntilStopped ==> action->WaitUntilStopped_seconds == 300
        }),
{
    lemma_run(command, reports);
    assert(belongs(command, reports, run(command, reports).actions[i]));
}

/// A session connects with the profile of its command before it does anything else, and never
/// again.
pub proof fn law_connects_first_and_once(command: CommandModel, reports: Seq<Report>)
    ensures
        run(command, reports).actions.len() > 0,
        run(command, reports).actions[0] == (ActionModel::Connect {
            profile: profile_of(command),
        }),
        forall|i: int|
            0 < i < run(command, reports).actions.len() ==> !((#[trigger] run(
                command,
                reports,
            ).actions[i]) is Connect),
    decreases reports.len(),
{
    let outcome = run(command, reports);
    if reports.len() == 0 {
        let first = command_outcome(command).actions;
        if command is Act {
            lemma_performing_does_not_connect(command->task, command->instance_ids);
        }
        assert forall|i: int| 0 < i < outcome.actions.len() implies !((
        #[trigger] outcome.actions[i]) is Connect) by {
            assert(outcome.actions[i] == first[i - 1]);
        }
    } else {
        let before = run(command, reports.drop_last());
        law_connects_first_and_once(command, reports.drop_last());
        let event = reports.last().event;
        let step = advance_outcome(before.session, event, reports.last().width);
        if before.session is Choosing && event is Typed {
            lemma_performing_does_not_connect(
                before.session->Choosing_task,
                chosen_ids(before.session->infos, event->line),
            );
        }
        assert forall|i: int| 0 < i < outcome.actions.len() implies !((
        #[trigger] outcome.actions[i]) is Connect) by {
            if i < before.actions.len() {
                assert(outcome.actions[i] == before.actions[i]);
            } else {
                assert(outcome.actions[i] == step.actions[i - before.actions.len()]);
            }
        }
    }
}

/// Carrying out a task does not connect.
proof fn lemma_performing_does_not_connect(task: TaskModel, ids: Seq<Seq<char>>)
    ensures
        forall|j: int|
            0 <= j < perform_outcome(task, ids).actions.len() ==> !((#[trigger] perform_outcome(
                task,
                ids,
            ).actions[j]) is Connect),
{
    let actions = perform_outcome(task, ids).actions;
    if task is ChangeType && ids.len() > 0 {
        let middle = modifications(ids, task->instance_type);
        assert forall|j: int| 0 <= j < actions.len() implies !((#[trigger] actions[j])
            is Connect) by {
            if 0 < j <= middle.len() {
                assert(actions[j] == middle[j - 1]);
                lemma_modification_of_one(ids, task->instance_type, j - 1);
            }
        }
    }
}

/// Whether the session of `command`, after `reports`, has just shown instances to the user, warned
/// of their termination and asked to confirm it for `ids`.
pub open spec fn asked_to_confirm(
    command: CommandModel,
    reports: Seq<Report>,
    ids: Seq<Seq<char>>,
) -> bool {
    &&& run(command, reports).session == (SessionModel::Confirming { ids })
    &&& shown_for_review(reports, run(command, reports).actions)
}

/// Instances are terminated only where the user was warned, was asked to confirm it for just these
/// instances, and answered with the word that confirms it.
pub proof fn law_termination_requires_confirmation(
    command: CommandModel,
    reports: Seq<Report>,
    i: int,
)
    requires
        0 <= i < run(command, reports).actions.len(),
        run(command, reports).actions[i] is TerminateInstances,
    ensures
        exists|k: int|
            0 <= k < reports.len() && asked_to_confirm(
                command,
                #[trigger] reports.take(k),
                run(command, reports).actions[i]->TerminateInstances_ids,
            ) && reports[k].event is Typed && confirms(reports[k].event->line),
    decreases reports.len(),
{
    let outcome = run(command, reports);
    let ids = outcome.actions[i]->TerminateInstances_ids;
    if reports.len() == 0 {
        let first = command_outcome(command).actions;
        assert(i > 0);
        assert(outcome.actions[i] == first[i - 1]);
        if command is Act {
            lemma_performing_does_not_terminate(command->task, command->instance_ids);
        }
        assert(false);
    } else {
        let fewer = reports.drop_last();
        let before = run(command, fewer);
        let event = reports.last().event;
        let step = advance_outcome(before.session, event, reports.last().width);
        if i < before.actions.len() {
            assert(outcome.actions[i] == before.actions[i]);
            law_termination_requires_confirmation(command, fewer, i);
            let k = choose|k: int|
                0 <= k < fewer.len() && asked_to_confirm(command, #[trigger] fewer.take(k), ids)
                    && fewer[k].event is Typed && confirms(fewer[k].event->line);
            assert(fewer.take(k) == reports.take(k));
            assert(fewer[k] == reports[k]);
        } else {
            let j = i - before.actions.len();
            assert(outcome.actions[i] == step.actions[j]);
            lemma_terminating_step(before.session, event, reports.last().width, j);
            lemma_run(command, fewer);
            let k = reports.len() - 1;
            assert(reports.take(k) == fewer);
            assert(asked_to_confirm(command, reports.take(k), ids));
        }
    }
}

/// The step that terminates instances.
proof fn lemma_terminating_step(
    session: SessionModel,
    event: EventModel,
    width: Option<u16>,
    j: int,
)
    requires
        0 <= j < advance_outcome(session, event, width).actions.len(),
        advance_outcome(session, event, width).actions[j] is TerminateInstances,
    ensures
        session == (SessionModel::Confirming {
            ids: advance_outcome(session, event, width).actions[j]->TerminateInstances_ids,
        }),
        event is Typed,
        confirms(event->line),
{
    if session is Choosing && event is Typed {
        lemma_performing_does_not_terminate(
            session->Choosing_task,
            chosen_ids(session->infos, event->line),
        );
    }
}

/// Carrying out a task does not terminate instances at once.
proof fn lemma_performing_does_not_terminate(task: TaskModel, ids: Seq<Seq<char>>)
    ensures
        forall|j: int|
            0 <= j < perform_outcome(task, ids).actions.len() ==> !((#[trigger] perform_outcome(
                task,
                ids,
            ).actions[j]) is TerminateInstances),
{
    let actions = perform_outcome(task, ids).actions;
    if task is ChangeType && ids.len() > 0 {
        let middle = modifications(ids, task->instance_type);
        assert forall|j: int| 0 <= j < actions.len() implies !((#[trigger] actions[j])
            is TerminateInstances) by {
            if 0 < j <= middle.len() {
                assert(actions[j] == middle[j - 1]);
                lemma_modification_of_one(ids, task->instance_type, j - 1);
            }
        }
    }
}

/// Once the user was asked, the word that confirms it has just the instances in question
/// terminated, and any other answer ends the session without that.
pub proof fn law_answer_decides_termination(
    command: CommandModel,
    reports: Seq<Report>,
    ids: Seq<Seq<char>>,
)
    requires
        reports.len() > 0,
        reports.last().event is Typed,
        run(command, reports.drop_last()).session == (SessionModel::Confirming { ids }),
    ensures
        run(command, reports).session is Finished,
        ({
            let before = run(command, reports.drop_last()).actions;
            let after = run(command, reports).actions;
            &&& before == after.take(before.len() as int)
            &&& confirms(reports.last().event->line) ==> after[before.len() as int] == (
            ActionModel::TerminateInstances { ids })
            &&& !confirms(reports.last().event->line) ==> forall|i: int|
                before.len() <= i < after.len() ==> !((#[trigger] after[i]) is TerminateInstances)
        }),
{
    let before = run(command, reports.drop_last()).actions;
    let after = run(command, reports).actions;
    let step = confirm_script(ids, reports.last().event->line);
    assert(after == before + step);
    assert(before == after.take(before.len() as int));
    if !confirms(reports.last().event->line) {
        assert forall|i: int| before.len() <= i < after.len() implies !((#[trigger] after[i])
            is TerminateInstances) by {
            assert(after[i] == step[i - before.len()]);
        }
    }
}

/// A command that was given instances goes on with them at once: nothing is listed, and no
/// choice is asked for.
pub proof fn law_given_instances_are_used(command: CommandModel)
    requires
        command is Act,
        command->instance_ids.len() > 0,
    ensures
        run(command, Seq::empty()).session == perform_outcome(
            command->task,
            command->instance_ids,
        ).session,
        run(command, Seq::empty()).actions == seq![
            ActionModel::Connect { profile: profile_of(command) },
        ] + perform_outcome(command->task, command->instance_ids).actions,
        forall|i: int|
            0 <= i < run(command, Seq::empty()).actions.len() ==> !((#[trigger] run(
                command,
                Seq::empty(),
            ).actions[i]) is DescribeByFilter) && !(run(command, Seq::empty()).actions[i] is Ask),
{
    let outcome = run(command, Seq::empty());
    let ids = command->instance_ids;
    let actions = perform_outcome(command->task, ids).actions;
    assert forall|i: int| 0 <= i < outcome.actions.len() implies !((#[trigger] outcome.actions[i])
        is DescribeByFilter) && !(outcome.actions[i] is Ask) by {
        if i > 0 {
            assert(outcome.actions[i] == actions[i - 1]);
            if command->task is ChangeType {
                let middle = modifications(ids, command->task->instance_type);
                if i - 1 > 0 && i - 1 <= middle.len() {
                    assert(actions[i - 1] == middle[i - 2]);
                    lemma_modification_of_one(ids, command->task->instance_type, i - 2);
                }
            }
        }
    }
}

/// A command that was given no instances lists those in one of the default states, asks for a
/// choice, and goes on with the instance that was chosen.
pub proof fn law_omitted_instances_are_chosen(
    command: CommandModel,
    listing: Report,
    choice: Report,
)
    requires
        command is Act,
        command->instance_ids.len() == 0,
        listing.event is Described,
        infos_of(listing.event->reservations).len() > 0,
        choice.event is Typed,
    ensures
        ({
            let infos = infos_of(listing.event->reservations);
            let ids = chosen_ids(infos, choice.event->line);
            &&& run(command, seq![listing, choice]).session == perform_outcome(
                command->task,
                ids,
            ).session
            &&& run(command, seq![listing, choice]).actions == seq![
                ActionModel::Connect { profile: profile_of(command) },
                ActionModel::DescribeByFilter { filter: state_filter_of(Seq::empty()) },
            ] + offer_script(infos, listing.width) + perform_outcome(command->task, ids).actions
        }),
{
    let reports = seq![listing, choice];
    let fewer = seq![listing];
    assert(reports.drop_last() == fewer);
    assert(fewer.drop_last() == Seq::<Report>::empty());
    reveal_with_fuel(run, 3);
    assert(run(command, Seq::empty()).actions == seq![
        ActionModel::Connect { profile: profile_of(command) },
        ActionModel::DescribeByFilter { filter: state_filter_of(Seq::empty()) },
    ]);
}

/// A choice of no instance ends the session, and nothing further is done.
pub proof fn law_no_choice_does_nothing(
    task: TaskModel,
    infos: Seq<InfoModel>,
    line: Seq<char>,
    width: Option<u16>,
)
    requires
        chosen_ids(infos, line).len() == 0,
    ensures
        advance_outcome(
            SessionModel::Choosing { task, infos },
            EventModel::Typed { line },
            width,
        ) == (Outcome { session: SessionModel::Finished, actions: Seq::empty() }),
{
}

/// Restarting starts instances only after these instances were stopped and waited for.
pub proof fn law_restart_stops_first(command: CommandModel, reports: Seq<Report>, i: int)
    requires
        command is Act,
        command->task is Restart,
        0 <= i < run(command, reports).actions.len(),
        run(command, reports).actions[i] is StartInstances,
    ensures
        2 < i,
        run(command, reports).actions[i - 3] == (ActionModel::StopInstances {
            ids: run(command, reports).actions[i]->StartInstances_ids,
        }),
        run(command, reports).actions[i - 2] == (ActionModel::WaitUntilStopped {
            ids: run(command, reports).actions[i]->StartInstances_ids,
            seconds: WAIT_SECONDS,
        }),
    decreases reports.len(),
{
    let outcome = run(command, reports);
    if reports.len() == 0 {
        let ids = command->instance_ids;
        let first = command_outcome(command).actions;
        assert(outcome.actions[i] == first[i - 1]);
        assert(first == restart_script(ids));
        assert(i - 1 == 4);
        assert(outcome.actions[i - 3] == first[i - 4]);
        assert(outcome.actions[i - 2] == first[i - 3]);
    } else {
        let fewer = reports.drop_last();
        let before = run(command, fewer);
        let event = reports.last().event;
        let step = advance_outcome(before.session, event, reports.last().width);
        if i < before.actions.len() {
            assert(outcome.actions[i] == before.actions[i]);
            law_restart_stops_first(command, fewer, i);
            assert(outcome.actions[i - 3] == before.actions[i - 3]);
            assert(outcome.actions[i - 2] == before.actions[i - 2]);
        } else {
            let j = i - before.actions.len();
            lemma_run(command, fewer);
            assert(outcome.actions[i] == step.actions[j]);
            assert(before.session is Choosing);
            assert(step.actions == restart_script(chosen_ids(before.session->infos, event->line)));
            assert(j == 4);
            assert(outcome.actions[i - 3] == step.actions[j - 3]);
            assert(outcome.actions[i - 2] == step.actions[j - 2]);
        }
    }
}

/// Changing the type of instances asks once for each of them, in their order, for just that type.
pub proof fn law_change_type_covers_every_instance(ids: Seq<Seq<char>>, instance_type: Seq<char>)
    requires
        ids.len() > 0,
    ensures
        change_type_script(ids, instance_type).len() == 2 * ids.len() + 2,
        forall|i: int|
            0 <= i < ids.len() ==> change_type_script(ids, instance_type)[2 * i + 1] == (
            ActionModel::ModifyInstanceType { id: #[trigger] ids[i], instance_type }),
        forall|j: int|
            0 <= j < change_type_script(ids, instance_type).len() && (
            #[trigger] change_type_script(ids, instance_type)[j]) is ModifyInstanceType ==> j % 2
                == 1 && j < 2 * ids.len(),
{
    lemma_modifications(ids, instance_type);
    let actions = change_type_script(ids, instance_type);
    let middle = modifications(ids, instance_type);
    assert forall|i: int| 0 <= i < ids.len() implies actions[2 * i + 1] == (
    ActionModel::ModifyInstanceType { id: #[trigger] ids[i], instance_type }) by {
        assert(actions[2 * i + 1] == middle[2 * i]);
    }
    assert forall|j: int|
        0 <= j < actions.len() && (#[trigger] actions[j]) is ModifyInstanceType implies j % 2 == 1
        && j < 2 * ids.len() by {
        if 0 < j <= middle.len() && j % 2 == 0 {
            let i = (j - 2) / 2;
            assert(j == 2 * i + 2);
            assert(actions[j] == middle[2 * i + 1]);
            assert(middle[2 * i + 1] == modification(ids[i], instance_type)[1]);
        }
    }
}

/// Whether an action is answered by a description of instances.
pub open spec fn describes(action: ActionModel) -> bool {
    action is DescribeByFilter || action is DescribeByIds
}

/// Whether a session waits for the kind of report that `event` is.
pub open spec fn awaits(session: SessionModel, event: EventModel) -> bool {
    match event {
        EventModel::Described { reservations } => session is Listing || session is Offering
            || session is Reviewing,
        EventModel::Typed { line } => session is Choosing || session is Confirming,
    }
}

/// The steps that are left to a session, at most.
pub open spec fn steps_left(session: SessionModel) -> nat {
    match session {
        SessionModel::Listing { output } => 1,
        SessionModel::Offering { task } => 4,
        SessionModel::Choosing { task, infos } => 3,
        SessionModel::Reviewing { ids, output } => 2,
        SessionModel::Confirming { ids } => 1,
        SessionModel::Finished => 0,
    }
}

/// A session waits for a description only where the last thing it asked for was one, and for a
/// line only where the last thing it asked for was one.
pub proof fn law_sessions_wait_for_what_they_asked(command: CommandModel, reports: Seq<Report>)
    ensures
        run(command, reports).actions.len() > 0,
        forall|event: EventModel| #[trigger]
            awaits(run(command, reports).session, event) ==> if event is Described {
                describes(run(command, reports).actions.last())
            } else {
                run(command, reports).actions.last() is Ask
            },
{
    lemma_run(command, reports);
    let outcome = run(command, reports);
    if outcome.session is Confirming {
        let last = outcome.actions.skip(outcome.actions.len() - 3);
        assert(last[2] == outcome.actions.last());
    }
}

/// Only the last action of a step is answered by a report, and then the session waits for it.
pub proof fn law_only_the_last_action_is_answered(
    session: SessionModel,
    event: EventModel,
    width: Option<u16>,
)
    ensures
        ({
            let step = advance_outcome(session, event, width);
            &&& forall|i: int|
                0 <= i < step.actions.len() - 1 ==> !describes(#[trigger] step.actions[i])
                    && !(step.actions[i] is Ask)
            &&& step.actions.len() > 0 && describes(step.actions.last()) ==> awaits(
                step.session,
                EventModel::Described { reservations: Seq::empty() },
            )
            &&& step.actions.len() > 0 && step.actions.last() is Ask ==> awaits(
                step.session,
                EventModel::Typed { line: Seq::empty() },
            )
        }),
{
    let step = advance_outcome(session, event, width);
    if session is Choosing && event is Typed {
        lemma_performing_is_answered_last(
            session->Choosing_task,
            chosen_ids(session->infos, event->line),
        );
    }
}

/// The same of the first step.
pub proof fn law_only_the_last_action_is_answered_at_first(command: CommandModel)
    ensures
        ({
            let step = launch_outcome(command);
            &&& forall|i: int|
                0 <= i < step.actions.len() - 1 ==> !describes(#[trigger] step.actions[i])
                    && !(step.actions[i] is Ask)
            &&& describes(step.actions.last()) ==> awaits(
                step.session,
                EventModel::Described { reservations: Seq::empty() },
            )
            &&& !(step.actions.last() is Ask)
        }),
{
    let step = launch_outcome(command);
    let first = command_outcome(command).actions;
    if command is Act {
        lemma_performing_is_answered_last(command->task, command->instance_ids);
    }
    assert forall|i: int| 0 <= i < step.actions.len() - 1 implies !describes(
        #[trigger] step.actions[i],
    ) && !(step.actions[i] is Ask) by {
        if i > 0 {
            assert(step.actions[i] == first[i - 1]);
        }
    }
    if first.len() > 0 {
        assert(step.actions.last() == first.last());
    } else {
        assert(step.actions.last() == step.actions[0]);
    }
}

/// Of the actions that carry out a task, only the last may be answered, by a description.
proof fn lemma_performing_is_answered_last(task: TaskModel, ids: Seq<Seq<char>>)
    ensures
        ({
            let step = perform_outcome(task, ids);
            &&& forall|i: int|
                0 <= i < step.actions.len() - 1 ==> !describes(#[trigger] step.actions[i])
                    && !(step.actions[i] is Ask)
            &&& step.actions.len() > 0 && describes(step.actions.last()) ==> step.session
                is Reviewing
            &&& step.actions.len() > 0 ==> !(step.actions.last() is Ask)
        }),
{
    let step = perform_outcome(task, ids);
    if task is ChangeType && ids.len() > 0 {
        let middle = modifications(ids, task->instance_type);
        assert forall|i: int| 0 <= i < step.actions.len() - 1 implies !describes(
            #[trigger] step.actions[i],
        ) && !(step.actions[i] is Ask) by {
            if 0 < i <= middle.len() {
                assert(step.actions[i] == middle[i - 1]);
                lemma_modification_of_one(ids, task->instance_type, i - 1);
            }
        }
    }
}

/// A session comes to its end: every report that it waits for leaves it fewer steps, it waits for
/// nothing just when no step is left, and other reports change nothing.
pub proof fn law_sessions_end(session: SessionModel, event: EventModel, width: Option<u16>)
    ensures
        awaits(session, event) ==> steps_left(advance_outcome(session, event, width).session)
            < steps_left(session),
        !awaits(session, event) ==> advance_outcome(session, event, width) == (Outcome {
            session,
            actions: Seq::empty(),
        }),
        steps_left(session) == 0 <==> session is Finished,
        steps_left(session) <= 4,
        session is Finished ==> !awaits(session, event),
{
}

} // verus!
