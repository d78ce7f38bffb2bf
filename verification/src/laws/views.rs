//! Laws of the views: what the laws of sessions say of the contents of values holds of the values
//! themselves. A view keeps the kind of a value and each of its parts.

use vstd::prelude::*;

use crate::action::Action;
use crate::instances::{Instance, InstanceInfo, InstanceState, Reservation, Tag};
use crate::session::{outcome_of, Commands, Event, Session, Task, TaskModel};
use crate::states::Filter;

verus! {

/// A command is seen as what it is: listing as listing, and each of the other commands as its own
/// task, with the profile, the instances and the further arguments that it was given.
pub proof fn law_commands_are_seen_as_given(command: Commands)
    ensures
        command matches Commands::List { profile, state, output } ==> {
            &&& command.deep_view() is List
            &&& command.deep_view()->List_profile == profile.profile@
            &&& command.deep_view()->state is Some <==> state is Some
            &&& state is Some ==> command.deep_view()->state->Some_0 == state->Some_0@
            &&& command.deep_view()->output == output
        },
        !(command is List) ==> command.deep_view() is Act,
        command matches Commands::Start { profile, instance_ids } ==> {
            &&& command.deep_view()->Act_profile == profile.profile@
            &&& command.deep_view()->task == TaskModel::Start
            &&& command.deep_view()->instance_ids == instance_ids.deep_view()
        },
        command matches Commands::Stop { profile, instance_ids } ==> {
            &&& command.deep_view()->Act_profile == profile.profile@
            &&& command.deep_view()->task == TaskModel::Stop
            &&& command.deep_view()->instance_ids == instance_ids.deep_view()
        },
        command matches Commands::Restart { profile, instance_ids } ==> {
            &&& command.deep_view()->Act_profile == profile.profile@
            &&& command.deep_view()->task == TaskModel::Restart
            &&& command.deep_view()->instance_ids == instance_ids.deep_view()
        },
        command matches Commands::Wait { profile, instance_ids } ==> {
            &&& command.deep_view()->Act_profile == profile.profile@
            &&& command.deep_view()->task == TaskModel::Wait
            &&& command.deep_view()->instance_ids == instance_ids.deep_view()
        },
        command matches Commands::ChangeType { profile, instance_type, instance_ids } ==> {
            &&& command.deep_view()->Act_profile == profile.profile@
            &&& command.deep_view()->task == (TaskModel::ChangeType {
                instance_type: instance_type@,
            })
            &&& command.deep_view()->instance_ids == instance_ids.deep_view()
        },
        command matches Commands::Terminate { profile, instance_ids, output } ==> {
            &&& command.deep_view()->Act_profile == profile.profile@
            &&& command.deep_view()->task == (TaskModel::Terminate { output })
            &&& command.deep_view()->instance_ids == instance_ids.deep_view()
        },
{
}

/// An action is seen as what it is.
pub proof fn law_actions_are_seen_as_they_are(action: Action)
    ensures
        action matches Action::Connect { profile } ==> action.deep_view() is Connect
            && action.deep_view()->profile == profile@,
        action matches Action::DescribeByFilter { filter } ==> action.deep_view()
            is DescribeByFilter && action.deep_view()->filter.name == filter.name@
            && action.deep_view()->filter.values == filter.values.deep_view(),
        action matches Action::DescribeByIds { ids } ==> action.deep_view() is DescribeByIds
            && action.deep_view()->DescribeByIds_ids == ids.deep_view(),
        action matches Action::StartInstances { ids } ==> action.deep_view() is StartInstances
            && action.deep_view()->StartInstances_ids == ids.deep_view(),
        action matches Action::StopInstances { ids } ==> action.deep_view() is StopInstances
            && action.deep_view()->StopInstances_ids == ids.deep_view(),
        action matches Action::TerminateInstances { ids } ==> action.deep_view()
            is TerminateInstances && action.deep_view()->TerminateInstances_ids
            == ids.deep_view(),
        action matches Action::ModifyInstanceType { id, instance_type } ==> action.deep_view()
            is ModifyInstanceType && action.deep_view()->id == id@
            && action.deep_view()->instance_type == instance_type@,
        action matches Action::WaitUntilRunning { ids, seconds } ==> action.deep_view()
            is WaitUntilRunning && action.deep_view()->WaitUntilRunning_ids == ids.deep_view()
            && action.deep_view()->WaitUntilRunning_seconds == seconds,
        action matches Action::WaitUntilStopped { ids, seconds } ==> action.deep_view()
            is WaitUntilStopped && action.deep_view()->WaitUntilStopped_ids == ids.deep_view()
            && action.deep_view()->WaitUntilStopped_seconds == seconds,
        action matches Action::Print { text } ==> action.deep_view() is Print
            && action.deep_view()->Print_text == text@,
        action matches Action::Page { text } ==> action.deep_view() is Page
            && action.deep_view()->Page_text == text@,
        action matches Action::Ask { prompt } ==> action.deep_view() is Ask
            && action.deep_view()->prompt == prompt@,
{
}

/// A report is seen as what it is: a description with all its reservations, or the line that was
/// typed.
pub proof fn law_events_are_seen_as_they_are(event: Event)
    ensures
        event matches Event::Described { reservations } ==> {
            &&& event.deep_view() is Described
            &&& event.deep_view()->reservations.len() == reservations@.len()
            &&& forall|i: int|
                0 <= i < reservations@.len() ==> #[trigger] event.deep_view()->reservations[i]
                    == reservations@[i].deep_view()
        },
        event matches Event::Typed { line } ==> event.deep_view() is Typed
            && event.deep_view()->line == line@,
{
}

/// A reservation is seen with all its instances, and an instance with all its parts and tags.
pub proof fn law_descriptions_are_seen_in_full(
    reservation: Reservation,
    instance: Instance,
    state: InstanceState,
    tag: Tag,
)
    ensures
        reservation.deep_view().instances == reservation.instances.deep_view(),
        instance.deep_view().instance_id == instance.instance_id.deep_view(),
        instance.deep_view().instance_type == instance.instance_type.deep_view(),
        instance.deep_view().private_ip_address == instance.private_ip_address.deep_view(),
        instance.deep_view().tags == instance.tags.deep_view(),
        instance.deep_view().state is Some <==> instance.state is Some,
        instance.state is Some ==> instance.deep_view().state->Some_0
            == instance.state->Some_0.deep_view(),
        state.deep_view().name == state.name.deep_view(),
        tag.deep_view().key == tag.key.deep_view(),
        tag.deep_view().value == tag.value.deep_view(),
{
}

/// A summary and a filter are seen with all their parts.
pub proof fn law_summaries_are_seen_in_full(info: InstanceInfo, filter: Filter)
    ensures
        info.deep_view().instance_id == info.instance_id@,
        info.deep_view().name == info.name@,
        info.deep_view().instance_type == info.instance_type@,
        info.deep_view().state == info.state@,
        info.deep_view().private_ip == info.private_ip@,
        filter.deep_view().name == filter.name@,
        filter.deep_view().values == filter.values.deep_view(),
{
}

/// A task is seen as what it is, and a session as what it is waiting for and what it is about.
pub proof fn law_tasks_and_sessions_are_seen(task: Task, session: Session)
    ensures
        task is Start <==> task.deep_view() is Start,
        task is Stop <==> task.deep_view() is Stop,
        task is Restart <==> task.deep_view() is Restart,
        task is Wait <==> task.deep_view() is Wait,
        task is ChangeType <==> task.deep_view() is ChangeType,
        task is ChangeType ==> task.deep_view()->instance_type == task->instance_type@,
        task is Terminate <==> task.deep_view() is Terminate,
        task is Terminate ==> task.deep_view()->output == task->output,
        session is Finished <==> session.deep_view() is Finished,
        session matches Session::Listing { output } ==> session.deep_view() is Listing
            && session.deep_view()->Listing_output == output,
        session matches Session::Offering { task } ==> session.deep_view() is Offering
            && session.deep_view()->Offering_task == task.deep_view(),
        session matches Session::Choosing { task, instances } ==> session.deep_view() is Choosing
            && session.deep_view()->Choosing_task == task.deep_view()
            && session.deep_view()->infos == instances.deep_view(),
        session matches Session::Reviewing { ids, output } ==> session.deep_view() is Reviewing
            && session.deep_view()->Reviewing_ids == ids.deep_view()
            && session.deep_view()->Reviewing_output == output,
        session matches Session::Confirming { ids } ==> session.deep_view() is Confirming
            && session.deep_view()->Confirming_ids == ids.deep_view(),
{
}

/// A step is seen with all its actions, in their order.
pub proof fn law_steps_are_seen_in_full(step: (Session, Vec<Action>))
    ensures
        outcome_of(step).session == step.0.deep_view(),
        outcome_of(step).actions.len() == step.1@.len(),
        forall|i: int|
            0 <= i < step.1@.len() ==> #[trigger] outcome_of(step).actions[i]
                == step.1@[i].deep_view(),
{
}

} // verus!
