//! Laws of what each command does from its beginning to its end: what is asked of the service, in
//! which order, and what the user gets to see.

use vstd::prelude::*;

use crate::action::ActionModel;
use crate::commands::{chosen_ids, modification, modifications, OutputFormat};
use crate::instances::{infos_of, ReservationModel};
use crate::laws::choosing::law_number_chooses;
use crate::laws::drawing::{
    law_every_format_shows_every_instance, law_every_instance_is_drawn, shows, tabulates, tells,
};
use crate::laws::reading::{law_pieces_hold_no_separator, padded};
use crate::laws::runs::{
    awaits, law_sessions_end, law_sessions_wait_for_what_they_asked, lemma_modifications, run,
    Report,
};
use crate::render::rendered_table;
use crate::session::{advance_outcome, CommandModel, EventModel, SessionModel, TaskModel};
use crate::table::{drawn_table, TableModel};
use crate::text::{decimal, joined, parsed_number, pieces, trimmed};

verus! {

/// Whether an action asks something of the service.
pub open spec fn is_request(action: ActionModel) -> bool {
    !(action is Print) && !(action is Page) && !(action is Ask)
}

/// What is asked of the service in `actions`, in its order.
#[verifier::opaque]
pub open spec fn requests(actions: Seq<ActionModel>) -> Seq<ActionModel> {
    actions.filter(|action: ActionModel| is_request(action))
}

/// A command for instances.
pub open spec fn command_for(
    profile: Seq<char>,
    task: TaskModel,
    ids: Seq<Seq<char>>,
) -> CommandModel {
    CommandModel::Act { profile, task, instance_ids: ids }
}

/// The requests among the first actions, with one more action.
proof fn lemma_requests_one_more(actions: Seq<ActionModel>, i: int)
    requires
        0 <= i < actions.len(),
    ensures
        requests(actions.take(i + 1)) == if is_request(actions[i]) {
            requests(actions.take(i)).push(actions[i])
        } else {
            requests(actions.take(i))
        },
{
    reveal(requests);
    reveal(Seq::filter);
    assert(actions.take(i + 1).drop_last() == actions.take(i));
    assert(actions.take(i + 1).last() == actions[i]);
}

/// The requests among no actions, and among all of them.
proof fn lemma_requests_ends(actions: Seq<ActionModel>)
    ensures
        requests(actions.take(0)) == Seq::<ActionModel>::empty(),
        requests(actions.take(actions.len() as int)) == requests(actions),
{
    reveal(requests);
    reveal(Seq::filter);
    assert(actions.take(0) == Seq::<ActionModel>::empty());
    assert(actions.take(actions.len() as int) == actions);
}

/// A command that has come to its end stays as it is.
proof fn lemma_finished_stays(command: CommandModel, reports: Seq<Report>, more: Seq<Report>)
    requires
        run(command, reports).session is Finished,
    ensures
        run(command, reports + more) == run(command, reports),
    decreases more.len(),
{
    if more.len() == 0 {
        assert(reports + more == reports);
    } else {
        lemma_finished_stays(command, reports, more.drop_last());
        assert((reports + more).drop_last() == reports + more.drop_last());
        let before = run(command, reports + more.drop_last());
        assert(run(command, reports + more).actions == before.actions);
    }
}

/// A command whose first step ends it is the same after any reports.
proof fn lemma_ended_at_once(command: CommandModel, reports: Seq<Report>)
    requires
        run(command, Seq::empty()).session is Finished,
    ensures
        run(command, reports) == run(command, Seq::empty()),
{
    lemma_finished_stays(command, Seq::empty(), reports);
    assert(Seq::<Report>::empty() + reports == reports);
}

/// Starting asks the service to start just the given instances, and then to wait until they run;
/// nothing else is asked. It is said how many are started and, at the end, which.
pub proof fn law_start_starts_and_waits(
    profile: Seq<char>,
    ids: Seq<Seq<char>>,
    reports: Seq<Report>,
)
    requires
        ids.len() > 0,
    ensures
        ({
            let end = run(command_for(profile, TaskModel::Start, ids), reports);
            &&& end.session is Finished
            &&& requests(end.actions) == seq![
                ActionModel::Connect { profile },
                ActionModel::StartInstances { ids },
                ActionModel::WaitUntilRunning { ids, seconds: 300 },
            ]
            &&& end.actions.len() == 5
            &&& end.actions[2] == (ActionModel::Print {
                text: "  "@ + ("\u{1F680} Starting "@ + decimal(ids.len()) + " instance(s)..."@),
            })
            &&& end.actions[4] == (ActionModel::Print {
                text: "  "@ + ("\u{2705} Instance(s) "@ + joined(ids, ", "@)
                    + " is now running"@),
            })
        }),
{
    let command = command_for(profile, TaskModel::Start, ids);
    lemma_ended_at_once(command, reports);
    let actions = run(command, reports).actions;
    lemma_requests_ends(actions);
    lemma_requests_one_more(actions, 0);
    lemma_requests_one_more(actions, 1);
    lemma_requests_one_more(actions, 2);
    lemma_requests_one_more(actions, 3);
    lemma_requests_one_more(actions, 4);
}

/// Stopping asks the service to stop just the given instances; nothing else is asked. It is said
/// which are stopped.
pub proof fn law_stop_stops(profile: Seq<char>, ids: Seq<Seq<char>>, reports: Seq<Report>)
    requires
        ids.len() > 0,
    ensures
        ({
            let end = run(command_for(profile, TaskModel::Stop, ids), reports);
            &&& end.session is Finished
            &&& requests(end.actions) == seq![
                ActionModel::Connect { profile },
                ActionModel::StopInstances { ids },
            ]
            &&& end.actions.len() == 3
            &&& end.actions[2] == (ActionModel::Print {
                text: "  "@ + ("\u{1F6D1} Instance(s) "@ + joined(ids, ", "@) + " stopped"@),
            })
        }),
{
    let command = command_for(profile, TaskModel::Stop, ids);
    lemma_ended_at_once(command, reports);
    let actions = run(command, reports).actions;
    lemma_requests_ends(actions);
    lemma_requests_one_more(actions, 0);
    lemma_requests_one_more(actions, 1);
    lemma_requests_one_more(actions, 2);
}

/// Restarting asks the service to stop just the given instances, to wait until they are stopped, to
/// start them again and to wait until they run, in this order; nothing else is asked. It is said
/// how many are restarted, when they are stopped and, at the end, which were restarted.
pub proof fn law_restart_stops_and_starts_again(
    profile: Seq<char>,
    ids: Seq<Seq<char>>,
    reports: Seq<Report>,
)
    requires
        ids.len() > 0,
    ensures
        ({
            let end = run(command_for(profile, TaskModel::Restart, ids), reports);
            &&& end.session is Finished
            &&& requests(end.actions) == seq![
                ActionModel::Connect { profile },
                ActionModel::StopInstances { ids },
                ActionModel::WaitUntilStopped { ids, seconds: 300 },
                ActionModel::StartInstances { ids },
                ActionModel::WaitUntilRunning { ids, seconds: 300 },
            ]
            &&& end.actions.len() == 8
            &&& end.actions[1] == (ActionModel::Print {
                text: "  "@ + ("\u{1F504} Restarting "@ + decimal(ids.len())
                    + " instance(s)..."@),
            })
            &&& end.actions[4] == (ActionModel::Print {
                text: "  "@ + "\u{23F3} Instances stopped, starting..."@,
            })
            &&& end.actions[7] == (ActionModel::Print {
                text: "  "@ + ("\u{2705} Instance(s) "@ + joined(ids, ", "@)
                    + " restarted successfully"@),
            })
        }),
{
    let command = command_for(profile, TaskModel::Restart, ids);
    lemma_ended_at_once(command, reports);
    let actions = run(command, reports).actions;
    lemma_requests_ends(actions);
    lemma_requests_one_more(actions, 0);
    lemma_requests_one_more(actions, 1);
    lemma_requests_one_more(actions, 2);
    lemma_requests_one_more(actions, 3);
    lemma_requests_one_more(actions, 4);
    lemma_requests_one_more(actions, 5);
    lemma_requests_one_more(actions, 6);
    lemma_requests_one_more(actions, 7);
}

/// Waiting asks the service to wait until just the given instances are stopped; nothing else is
/// asked. It is said for how many and, at the end, for which.
pub proof fn law_wait_waits(profile: Seq<char>, ids: Seq<Seq<char>>, reports: Seq<Report>)
    requires
        ids.len() > 0,
    ensures
        ({
            let end = run(command_for(profile, TaskModel::Wait, ids), reports);
            &&& end.session is Finished
            &&& requests(end.actions) == seq![
                ActionModel::Connect { profile },
                ActionModel::WaitUntilStopped { ids, seconds: 300 },
            ]
            &&& end.actions.len() == 4
            &&& end.actions[1] == (ActionModel::Print {
                text: "  "@ + ("\u{23F3} Waiting for "@ + decimal(ids.len())
                    + " instance(s) to stop..."@),
            })
            &&& end.actions[3] == (ActionModel::Print {
                text: "  "@ + ("\u{2705} Instance(s) "@ + joined(ids, ", "@)
                    + " are now stopped"@),
            })
        }),
{
    let command = command_for(profile, TaskModel::Wait, ids);
    lemma_ended_at_once(command, reports);
    let actions = run(command, reports).actions;
    lemma_requests_ends(actions);
    lemma_requests_one_more(actions, 0);
    lemma_requests_one_more(actions, 1);
    lemma_requests_one_more(actions, 2);
    lemma_requests_one_more(actions, 3);
}

/// Changing the type asks the service to give each of the given instances the new type, once each
/// and in their order; nothing else is asked. It is said what the new type is, of each instance
/// that it has got it, and that this is all.
pub proof fn law_change_type_changes_each(
    profile: Seq<char>,
    ids: Seq<Seq<char>>,
    instance_type: Seq<char>,
    reports: Seq<Report>,
)
    requires
        ids.len() > 0,
    ensures
        ({
            let end = run(
                command_for(profile, TaskModel::ChangeType { instance_type }, ids),
                reports,
            );
            &&& end.session is Finished
            &&& requests(end.actions).len() == ids.len() + 1
            &&& requests(end.actions)[0] == (ActionModel::Connect { profile })
            &&& forall|i: int|
                0 <= i < ids.len() ==> requests(end.actions)[i + 1] == (
                ActionModel::ModifyInstanceType { id: #[trigger] ids[i], instance_type })
            &&& end.actions.len() == 2 * ids.len() + 3
            &&& end.actions[1] == (ActionModel::Print {
                text: "  "@ + ("\u{1F527} Changing instance type to "@ + instance_type + "..."@),
            })
            &&& forall|i: int|
                0 <= i < ids.len() ==> end.actions[2 * i + 2] == (
                ActionModel::ModifyInstanceType { id: #[trigger] ids[i], instance_type })
                    && end.actions[2 * i + 3] == (ActionModel::Print {
                    text: "  "@ + ("     "@ + ids[i] + " \u{2192} "@ + instance_type),
                })
            &&& end.actions.last() == (ActionModel::Print {
                text: "  "@ + "\u{2705} Instance type(s) updated"@,
            })
        }),
{
    let command = command_for(profile, TaskModel::ChangeType { instance_type }, ids);
    lemma_change_type_actions(profile, ids, instance_type);
    lemma_ended_at_once(command, reports);
    let actions = run(command, reports).actions;
    lemma_requests_ends(actions);
    lemma_requests_one_more(actions, 0);
    lemma_requests_one_more(actions, 1);
    let n = ids.len() as int;
    lemma_change_type_requests(actions, ids, instance_type, n);
    lemma_requests_one_more(actions, 2 * n + 2);
    assert(requests(actions) == requests(actions.take(2 * n + 2)));
}

/// The actions of a change of the type, place by place.
proof fn lemma_change_type_actions(
    profile: Seq<char>,
    ids: Seq<Seq<char>>,
    instance_type: Seq<char>,
)
    requires
        ids.len() > 0,
    ensures
        ({
            let end = run(
                command_for(profile, TaskModel::ChangeType { instance_type }, ids),
                Seq::empty(),
            );
            &&& end.session is Finished
            &&& end.actions.len() == 2 * ids.len() + 3
            &&& end.actions[0] == (ActionModel::Connect { profile })
            &&& end.actions[1] == (ActionModel::Print {
                text: "  "@ + ("\u{1F527} Changing instance type to "@ + instance_type + "..."@),
            })
            &&& forall|i: int|
                0 <= i < ids.len() ==> end.actions[2 * i + 2] == (
                ActionModel::ModifyInstanceType { id: #[trigger] ids[i], instance_type })
                    && end.actions[2 * i + 3] == (ActionModel::Print {
                    text: "  "@ + ("     "@ + ids[i] + " \u{2192} "@ + instance_type),
                })
            &&& end.actions.last() == (ActionModel::Print {
                text: "  "@ + "\u{2705} Instance type(s) updated"@,
            })
        }),
{
    let command = command_for(profile, TaskModel::ChangeType { instance_type }, ids);
    let actions = run(command, Seq::empty()).actions;
    let middle = modifications(ids, instance_type);
    lemma_modifications(ids, instance_type);
    assert forall|i: int| 0 <= i < ids.len() implies actions[2 * i + 2] == (
    ActionModel::ModifyInstanceType { id: #[trigger] ids[i], instance_type }) && actions[2 * i
        + 3] == (ActionModel::Print {
        text: "  "@ + ("     "@ + ids[i] + " \u{2192} "@ + instance_type),
    }) by {
        assert(actions[2 * i + 2] == middle[2 * i]);
        assert(actions[2 * i + 3] == middle[2 * i + 1]);
        assert(middle[2 * i + 1] == modification(ids[i], instance_type)[1]);
    }
}

/// The requests up to the modification of the first `n` instances.
proof fn lemma_change_type_requests(
    actions: Seq<ActionModel>,
    ids: Seq<Seq<char>>,
    instance_type: Seq<char>,
    n: int,
)
    requires
        0 <= n <= ids.len(),
        actions.len() == 2 * ids.len() + 3,
        requests(actions.take(2)).len() == 1,
        forall|i: int|
            0 <= i < ids.len() ==> actions[2 * i + 2] == (ActionModel::ModifyInstanceType {
                id: #[trigger] ids[i],
                instance_type,
            }) && actions[2 * i + 3] is Print,
    ensures
        requests(actions.take(2 * n + 2)).len() == n + 1,
        requests(actions.take(2 * n + 2))[0] == requests(actions.take(2))[0],
        forall|i: int|
            0 <= i < n ==> requests(actions.take(2 * n + 2))[i + 1] == (
            ActionModel::ModifyInstanceType { id: #[trigger] ids[i], instance_type }),
    decreases n,
{
    if n > 0 {
        lemma_change_type_requests(actions, ids, instance_type, n - 1);
        assert(ids[n - 1] == ids[n - 1]);
        assert(2 * (n - 1) + 2 == 2 * n);
        lemma_requests_one_more(actions, 2 * n);
        lemma_requests_one_more(actions, 2 * n + 1);
        let before = requests(actions.take(2 * n));
        let after = requests(actions.take(2 * n + 2));
        assert(after == before.push(actions[2 * n]));
        assert forall|i: int| 0 <= i < n implies after[i + 1] == (
        ActionModel::ModifyInstanceType { id: #[trigger] ids[i], instance_type }) by {
            if i < n - 1 {
                assert(after[i + 1] == before[i + 1]);
            }
        }
    }
}

/// Listing asks the service for the instances whose state is one of those that are listed between
/// commas, without the white space around them; where none is listed, for those that are pending,
/// running, stopping or stopped. Nothing else is asked.
pub proof fn law_list_asks_for_the_states(
    profile: Seq<char>,
    state: Option<Seq<char>>,
    output: OutputFormat,
)
    ensures
        ({
            let actions = run(CommandModel::List { profile, state, output }, Seq::empty()).actions;
            &&& actions.len() == 2
            &&& actions[0] == (ActionModel::Connect { profile })
            &&& actions[1] is DescribeByFilter
            &&& actions[1]->filter.name == "instance-state-name"@
            &&& state is None ==> actions[1]->filter.values == seq![
                "pending"@,
                "running"@,
                "stopping"@,
                "stopped"@,
            ]
            &&& state is Some ==> {
                let parts = pieces(state->Some_0, ',');
                &&& actions[1]->filter.values.len() == parts.len()
                &&& forall|i: int|
                    0 <= i < parts.len() ==> #[trigger] actions[1]->filter.values[i] == trimmed(
                        parts[i],
                    )
            }
        }),
{
    if state is Some {
        law_pieces_hold_no_separator(state->Some_0, ',');
    }
}

/// Listing then shows all instances that the service described, in the format that was asked for
/// and with their number in the title, or says that there are none; and this is the end.
pub proof fn law_list_shows_what_was_described(
    profile: Seq<char>,
    state: Option<Seq<char>>,
    output: OutputFormat,
    description: Report,
    more: Seq<Report>,
)
    requires
        description.event is Described,
    ensures
        ({
            let command = CommandModel::List { profile, state, output };
            let infos = infos_of(description.event->reservations);
            let end = run(command, seq![description] + more);
            &&& end.session is Finished
            &&& end.actions.len() == 3
            &&& end.actions.take(2) == run(command, Seq::empty()).actions
            &&& infos.len() == 0 ==> end.actions[2] == (ActionModel::Print {
                text: "\n  \u{26A0}\u{FE0F}  No instances found.\n"@,
            })
            &&& infos.len() > 0 ==> shows(
                end.actions[2],
                "EC2 Instances  ("@ + decimal(infos.len()) + " instance(s))"@,
                infos,
                output,
                description.width,
            )
        }),
{
    let command = CommandModel::List { profile, state, output };
    let infos = infos_of(description.event->reservations);
    let first = seq![description];
    assert(first.drop_last() == Seq::<Report>::empty());
    reveal_with_fuel(run, 2);
    lemma_finished_stays(command, first, more);
    law_every_format_shows_every_instance(
        infos,
        "EC2 Instances  ("@ + decimal(infos.len()) + " instance(s))"@,
        output,
        description.width,
    );
    let actions = run(command, first).actions;
    assert(actions.take(2) == run(command, Seq::empty()).actions);
}

/// A command that was given no instances first asks the service for those that are pending,
/// running, stopping or stopped, and for nothing else.
pub proof fn law_omitted_instances_are_asked_for(profile: Seq<char>, task: TaskModel)
    ensures
        ({
            let actions = run(command_for(profile, task, Seq::empty()), Seq::empty()).actions;
            &&& actions.len() == 2
            &&& actions[0] == (ActionModel::Connect { profile })
            &&& actions[1] is DescribeByFilter
            &&& actions[1]->filter.name == "instance-state-name"@
            &&& actions[1]->filter.values == seq![
                "pending"@,
                "running"@,
                "stopping"@,
                "stopped"@,
            ]
        }),
{
}

/// Where the service described none, the command has come to its end, and nothing more is done.
pub proof fn law_nothing_to_choose_from(
    profile: Seq<char>,
    task: TaskModel,
    listing: Report,
    more: Seq<Report>,
)
    requires
        listing.event is Described,
        infos_of(listing.event->reservations).len() == 0,
    ensures
        ({
            let command = command_for(profile, task, Seq::empty());
            let end = run(command, seq![listing] + more);
            &&& end.session is Finished
            &&& end.actions == run(command, Seq::empty()).actions
        }),
{
    let command = command_for(profile, task, Seq::empty());
    let first = seq![listing];
    assert(first.drop_last() == Seq::<Report>::empty());
    reveal_with_fuel(run, 2);
    lemma_finished_stays(command, first, more);
    assert(run(command, first).actions == run(command, Seq::empty()).actions);
}

/// Otherwise all instances that the service described are shown in a table, and a number is asked
/// for. The number of a row, counted from one, chooses the instance whose identifier that row of
/// the table begins with.
pub proof fn law_offered_rows_are_what_numbers_choose(
    profile: Seq<char>,
    task: TaskModel,
    listing: Report,
)
    requires
        listing.event is Described,
        infos_of(listing.event->reservations).len() > 0,
    ensures
        ({
            let command = command_for(profile, task, Seq::empty());
            let infos = infos_of(listing.event->reservations);
            let offer = run(command, seq![listing]);
            &&& offer.actions.len() == 4
            &&& offer.actions.take(2) == run(command, Seq::empty()).actions
            &&& offer.actions[3] == (ActionModel::Ask {
                prompt: "  Enter instance number (or 0 to cancel): "@,
            })
            &&& exists|table: TableModel| #[trigger]
                tabulates(table, infos, listing.width) && offer.actions[2] == (
                ActionModel::Print {
                    text: "\n"@ + ("\n  "@ + "\u{1F4CB} Available instances"@ + "\n"@
                        + drawn_table(table)),
                }) && forall|k: usize|
                    0 < k <= table.rows.len() ==> #[trigger] chosen_ids(infos, decimal(k as nat))
                        == seq![table.rows[k - 1][0].text]
        }),
{
    let command = command_for(profile, task, Seq::empty());
    let infos = infos_of(listing.event->reservations);
    let title = "\u{1F4CB} Available instances"@;
    let first = seq![listing];
    assert(first.drop_last() == Seq::<Report>::empty());
    reveal_with_fuel(run, 2);
    law_every_instance_is_drawn(infos, title, listing.width);
    let offer = run(command, first);
    assert(offer.actions.take(2) == run(command, Seq::empty()).actions);
    let text = rendered_table(infos, title, listing.width);
    let table = choose|table: TableModel| #[trigger]
        tabulates(table, infos, listing.width) && text == "\n  "@ + title + "\n"@ + drawn_table(
            table,
        );
    assert forall|k: usize| 0 < k <= table.rows.len() implies #[trigger] chosen_ids(
        infos,
        decimal(k as nat),
    ) == seq![table.rows[k - 1][0].text] by {
        law_number_chooses(infos, k, Seq::empty(), Seq::empty());
        assert(padded(Seq::empty(), decimal(k as nat), Seq::empty()) == decimal(k as nat));
        assert(tells(table.rows[k - 1], infos[k - 1]));
    }
}

/// To choose an instance by its number is as good as to give its identifier: from there on the
/// command does just what it does where that identifier was given, whatever is reported.
pub proof fn law_chosen_is_as_good_as_given(
    profile: Seq<char>,
    task: TaskModel,
    listing: Report,
    choice: Report,
    number: usize,
    more: Seq<Report>,
)
    requires
        listing.event is Described,
        choice.event is Typed,
        parsed_number(trimmed(choice.event->line)) == Some(number),
        0 < number <= infos_of(listing.event->reservations).len(),
    ensures
        ({
            let open = command_for(profile, task, Seq::empty());
            let id = infos_of(listing.event->reservations)[number - 1].instance_id;
            let given = run(command_for(profile, task, seq![id]), more);
            let chosen = run(open, seq![listing, choice] + more);
            &&& chosen.session == given.session
            &&& chosen.actions == run(open, seq![listing]).actions + given.actions.drop_first()
        }),
    decreases more.len(),
{
    let open = command_for(profile, task, Seq::empty());
    let infos = infos_of(listing.event->reservations);
    let closed = command_for(profile, task, seq![infos[number - 1].instance_id]);
    let first = seq![listing];
    let both = seq![listing, choice];
    if more.len() == 0 {
        assert(both + more == both);
        assert(both.drop_last() == first);
        assert(first.drop_last() == Seq::<Report>::empty());
        reveal_with_fuel(run, 3);
        assert(more == Seq::<Report>::empty());
        assert(run(open, first).session == (SessionModel::Choosing { task, infos }));
        let step = advance_outcome(run(open, first).session, choice.event, choice.width);
        assert(run(closed, more).actions.drop_first() == step.actions);
    } else {
        law_chosen_is_as_good_as_given(profile, task, listing, choice, number, more.drop_last());
        assert((both + more).drop_last() == both + more.drop_last());
        let before = run(closed, more.drop_last());
        lemma_actions_not_empty(closed, more.drop_last());
        let step = advance_outcome(before.session, more.last().event, more.last().width);
        assert((before.actions + step.actions).drop_first() == before.actions.drop_first()
            + step.actions);
        assert(run(open, both + more).actions == run(open, both + more.drop_last()).actions
            + step.actions);
        assert(run(open, first).actions + before.actions.drop_first() + step.actions == run(
            open,
            first,
        ).actions + (before.actions.drop_first() + step.actions));
    }
}

/// A session does at least one thing.
proof fn lemma_actions_not_empty(command: CommandModel, reports: Seq<Report>)
    ensures
        run(command, reports).actions.len() > 0,
    decreases reports.len(),
{
    if reports.len() > 0 {
        lemma_actions_not_empty(command, reports.drop_last());
    }
}

/// Any other line, be it no number, zero or a number beyond the last row, is the end of the
/// command, and nothing more is done.
pub proof fn law_other_lines_end_the_command(
    profile: Seq<char>,
    task: TaskModel,
    listing: Report,
    choice: Report,
    more: Seq<Report>,
)
    requires
        listing.event is Described,
        infos_of(listing.event->reservations).len() > 0,
        choice.event is Typed,
        match parsed_number(trimmed(choice.event->line)) {
            Some(number) => number == 0 || number > infos_of(
                listing.event->reservations,
            ).len(),
            None => true,
        },
    ensures
        ({
            let command = command_for(profile, task, Seq::empty());
            let end = run(command, seq![listing, choice] + more);
            &&& end.session is Finished
            &&& end.actions == run(command, seq![listing]).actions
        }),
{
    let command = command_for(profile, task, Seq::empty());
    let first = seq![listing];
    let both = seq![listing, choice];
    assert(both.drop_last() == first);
    assert(first.drop_last() == Seq::<Report>::empty());
    reveal_with_fuel(run, 3);
    lemma_finished_stays(command, both, more);
    assert(run(command, both).actions == run(command, first).actions);
}

/// Terminating first asks the service to describe just the given instances. All instances that it
/// described are then shown, in the format that was asked for; a warning follows, and the word
/// that confirms is asked for. Nothing was changed until then.
pub proof fn law_terminate_shows_what_was_described(
    profile: Seq<char>,
    ids: Seq<Seq<char>>,
    output: OutputFormat,
    description: Report,
)
    requires
        ids.len() > 0,
        description.event is Described,
    ensures
        ({
            let command = command_for(profile, TaskModel::Terminate { output }, ids);
            let actions = run(command, seq![description]).actions;
            &&& run(command, Seq::empty()).actions == seq![
                ActionModel::Connect { profile },
                ActionModel::DescribeByIds { ids },
            ]
            &&& actions.len() == 5
            &&& actions.take(2) == run(command, Seq::empty()).actions
            &&& shows(
                actions[2],
                "\u{1F4CB} Instances to terminate"@,
                infos_of(description.event->reservations),
                output,
                description.width,
            )
            &&& actions[3] == (ActionModel::Print {
                text: "\n  \u{26A0}  WARNING: Termination permanently deletes the instance!"@,
            })
            &&& actions[4] == (ActionModel::Ask {
                prompt: "  Type \"terminate\" to confirm: "@,
            })
        }),
{
    let command = command_for(profile, TaskModel::Terminate { output }, ids);
    let infos = infos_of(description.event->reservations);
    let first = seq![description];
    assert(first.drop_last() == Seq::<Report>::empty());
    reveal_with_fuel(run, 2);
    law_every_format_shows_every_instance(
        infos,
        "\u{1F4CB} Instances to terminate"@,
        output,
        description.width,
    );
    assert(run(command, Seq::empty()).actions == seq![
        ActionModel::Connect { profile },
        ActionModel::DescribeByIds { ids },
    ]);
    assert(run(command, first).actions.take(2) == run(command, Seq::empty()).actions);
}

/// The word `terminate`, with any white space around it, then has the given instances terminated,
/// all of them and no others, and it is said which. Any other line has nothing terminated, and
/// that is said. Either way the command has come to its end.
pub proof fn law_terminate_obeys_the_answer(
    profile: Seq<char>,
    ids: Seq<Seq<char>>,
    output: OutputFormat,
    description: Report,
    answer: Report,
    more: Seq<Report>,
)
    requires
        ids.len() > 0,
        description.event is Described,
        answer.event is Typed,
    ensures
        ({
            let command = command_for(profile, TaskModel::Terminate { output }, ids);
            let asked = run(command, seq![description]).actions;
            let end = run(command, seq![description, answer] + more);
            &&& end.session is Finished
            &&& trimmed(answer.event->line) == "terminate"@ ==> end.actions == asked + seq![
                ActionModel::TerminateInstances { ids },
                ActionModel::Print {
                    text: "\n  \u{1F480} Instance(s) "@ + joined(ids, ", "@)
                        + " terminated successfully"@,
                },
            ]
            &&& trimmed(answer.event->line) != "terminate"@ ==> end.actions == asked + seq![
                ActionModel::Print { text: "  \u{274C} Termination cancelled."@ },
            ]
        }),
{
    let command = command_for(profile, TaskModel::Terminate { output }, ids);
    let first = seq![description];
    let both = seq![description, answer];
    assert(both.drop_last() == first);
    assert(first.drop_last() == Seq::<Report>::empty());
    reveal_with_fuel(run, 3);
    lemma_finished_stays(command, both, more);
}

/// A report of a kind that a command is not waiting for makes no difference to it: a line that was
/// typed unasked, a description that nothing asked for, or anything after its end.
pub proof fn law_unasked_reports_make_no_difference(
    command: CommandModel,
    reports: Seq<Report>,
    unasked: Report,
)
    requires
        ({
            let last = run(command, reports).actions.last();
            &&& unasked.event is Typed ==> !(last is Ask)
            &&& unasked.event is Described ==> !(last is DescribeByFilter) && !(last
                is DescribeByIds)
        }),
    ensures
        run(command, reports.push(unasked)) == run(command, reports),
{
    let before = run(command, reports);
    assert(reports.push(unasked).drop_last() == reports);
    law_sessions_wait_for_what_they_asked(command, reports);
    law_sessions_end(before.session, unasked.event, unasked.width);
    assert(!awaits(before.session, unasked.event));
    assert(run(command, reports.push(unasked)).actions == before.actions);
}

/// Whichever instances a session is about to terminate, the first thing that it does with the
/// description of them is to show every instance in it; it then waits for the confirmation, and it
/// is still about the same instances.
pub proof fn law_review_shows_every_instance(
    ids: Seq<Seq<char>>,
    output: OutputFormat,
    reservations: Seq<ReservationModel>,
    width: Option<u16>,
)
    ensures
        ({
            let step = advance_outcome(
                SessionModel::Reviewing { ids, output },
                EventModel::Described { reservations },
                width,
            );
            &&& step.session == (SessionModel::Confirming { ids })
            &&& step.actions.len() == 3
            &&& shows(
                step.actions[0],
                "\u{1F4CB} Instances to terminate"@,
                infos_of(reservations),
                output,
                width,
            )
            &&& step.actions[1] is Print
            &&& step.actions[2] is Ask
        }),
{
    law_every_format_shows_every_instance(
        infos_of(reservations),
        "\u{1F4CB} Instances to terminate"@,
        output,
        width,
    );
}

/// A session that waits for the confirmation terminates just the instances that it is about where
/// the answer confirms it, and otherwise none; then it has come to its end.
pub proof fn law_confirmation_decides(ids: Seq<Seq<char>>, line: Seq<char>, width: Option<u16>)
    ensures
        ({
            let step = advance_outcome(
                SessionModel::Confirming { ids },
                EventModel::Typed { line },
                width,
            );
            &&& step.session is Finished
            &&& trimmed(line) == "terminate"@ ==> step.actions == seq![
                ActionModel::TerminateInstances { ids },
                ActionModel::Print {
                    text: "\n  \u{1F480} Instance(s) "@ + joined(ids, ", "@)
                        + " terminated successfully"@,
                },
            ]
            &&& trimmed(line) != "terminate"@ ==> step.actions == seq![
                ActionModel::Print { text: "  \u{274C} Termination cancelled."@ },
            ]
        }),
{
}

} // verus!
