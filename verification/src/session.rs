//! A session: one command from the command line to its end, driven by what the service and the
//! user report.

use vstd::prelude::*;

use crate::action::Action;
use crate::commands::{
    choose_instance, cmd_change_type, cmd_list, cmd_restart, cmd_start, cmd_stop, cmd_terminate,
    cmd_wait, confirm_terminate, describe_instances, offer_instances, review_terminate,
    OutputFormat,
};
use crate::instances::{summarize_all, InstanceInfo, Reservation};
use crate::render::terminal_width;
use crate::states::parse_states;

#[allow(unused_imports)]
use crate::action::ActionModel;
#[allow(unused_imports)]
use crate::commands::{
    change_type_script, chosen_ids, confirm_script, list_script, offer_script, restart_script,
    review_script, start_script, stop_script, terminate_script, wait_script,
};
#[allow(unused_imports)]
use crate::instances::{infos_of, InfoModel, ReservationModel};
#[allow(unused_imports)]
use crate::states::{listed_states, state_filter_of};

verus! {

/// The profile that is used where none is given.
pub const DEFAULT_PROFILE: &'static str = "ml-dev";

/// Which profile to connect with.
#[derive(Debug)]
pub struct ProfileArgs {
    pub profile: String,
}

/// A command as it was given on the command line. Where a command takes identifiers of instances
/// and none is given, the user is asked to choose.
#[derive(Debug)]
pub enum Commands {
    /// List all EC2 instances
    List { profile: ProfileArgs, state: Option<String>, output: OutputFormat },
    /// Start one or more EC2 instances
    Start { profile: ProfileArgs, instance_ids: Vec<String> },
    /// Stop one or more EC2 instances
    Stop { profile: ProfileArgs, instance_ids: Vec<String> },
    /// Restart (stop+start) one or more EC2 instances
    Restart { profile: ProfileArgs, instance_ids: Vec<String> },
    /// Wait for instances to stop
    Wait { profile: ProfileArgs, instance_ids: Vec<String> },
    /// Change instance type
    ChangeType { profile: ProfileArgs, instance_type: String, instance_ids: Vec<String> },
    /// Terminate an instance (requires confirmation)
    Terminate { profile: ProfileArgs, instance_ids: Vec<String>, output: OutputFormat },
}

/// What is to be done with instances, once it is known which.
#[derive(Debug)]
pub enum Task {
    Start,
    Stop,
    Restart,
    Wait,
    ChangeType { instance_type: String },
    Terminate { output: OutputFormat },
}

/// What a session is waiting for.
#[derive(Debug)]
pub enum Session {
    /// For the instances to list.
    Listing { output: OutputFormat },
    /// For the instances to offer.
    Offering { task: Task },
    /// For the user to choose one of the instances.
    Choosing { task: Task, instances: Vec<InstanceInfo> },
    /// For the description of the instances that are to be terminated.
    Reviewing { ids: Vec<String>, output: OutputFormat },
    /// For the user to confirm that the instances are to be terminated.
    Confirming { ids: Vec<String> },
    /// For nothing: the command has come to its end.
    Finished,
}

/// What the outside world reports to a session.
#[derive(Debug)]
pub enum Event {
    /// The description that was asked for last.
    Described { reservations: Vec<Reservation> },
    /// The line that the user typed.
    Typed { line: String },
}

/// The content of a [`Task`].
pub ghost enum TaskModel {
    Start,
    Stop,
    Restart,
    Wait,
    ChangeType { instance_type: Seq<char> },
    Terminate { output: OutputFormat },
}

/// The content of a command: what it connects with and what it is about.
pub ghost enum CommandModel {
    List { profile: Seq<char>, state: Option<Seq<char>>, output: OutputFormat },
    Act { profile: Seq<char>, task: TaskModel, instance_ids: Seq<Seq<char>> },
}

/// The content of a [`Session`].
pub ghost enum SessionModel {
    Listing { output: OutputFormat },
    Offering { task: TaskModel },
    Choosing { task: TaskModel, infos: Seq<InfoModel> },
    Reviewing { ids: Seq<Seq<char>>, output: OutputFormat },
    Confirming { ids: Seq<Seq<char>> },
    Finished,
}

/// The content of an [`Event`].
pub ghost enum EventModel {
    Described { reservations: Seq<ReservationModel> },
    Typed { line: Seq<char> },
}

/// What comes of a step: where the session stands, and what is to be done in the meantime.
pub ghost struct Outcome {
    pub session: SessionModel,
    pub actions: Seq<ActionModel>,
}

impl DeepView for Task {
    type V = TaskModel;

    open spec fn deep_view(&self) -> TaskModel {
        match self {
            Task::Start => TaskModel::Start,
            Task::Stop => TaskModel::Stop,
            Task::Restart => TaskModel::Restart,
            Task::Wait => TaskModel::Wait,
            Task::ChangeType { instance_type } => TaskModel::ChangeType {
                instance_type: instance_type@,
            },
            Task::Terminate { output } => TaskModel::Terminate { output: *output },
        }
    }
}

impl DeepView for Commands {
    type V = CommandModel;

    open spec fn deep_view(&self) -> CommandModel {
        match self {
            Commands::List { profile, state, output } => CommandModel::List {
                profile: profile.profile@,
                state: state.deep_view(),
                output: *output,
            },
            Commands::Start { profile, instance_ids } => CommandModel::Act {
                profile: profile.profile@,
                task: TaskModel::Start,
                instance_ids: instance_ids.deep_view(),
            },
            Commands::Stop { profile, instance_ids } => CommandModel::Act {
                profile: profile.profile@,
                task: TaskModel::Stop,
                instance_ids: instance_ids.deep_view(),
            },
            Commands::Restart { profile, instance_ids } => CommandModel::Act {
                profile: profile.profile@,
                task: TaskModel::Restart,
                instance_ids: instance_ids.deep_view(),
            },
            Commands::Wait { profile, instance_ids } => CommandModel::Act {
                profile: profile.profile@,
                task: TaskModel::Wait,
                instance_ids: instance_ids.deep_view(),
            },
            Commands::ChangeType { profile, instance_type, instance_ids } => CommandModel::Act {
                profile: profile.profile@,
                task: TaskModel::ChangeType { instance_type: instance_type@ },
                instance_ids: instance_ids.deep_view(),
            },
            Commands::Terminate { profile, instance_ids, output } => CommandModel::Act {
                profile: profile.profile@,
                task: TaskModel::Terminate { output: *output },
                instance_ids: instance_ids.deep_view(),
            },
        }
    }
}

impl DeepView for Session {
    type V = SessionModel;

    open spec fn deep_view(&self) -> SessionModel {
        match self {
            Session::Listing { output } => SessionModel::Listing { output: *output },
            Session::Offering { task } => SessionModel::Offering { task: task.deep_view() },
            Session::Choosing { task, instances } => SessionModel::Choosing {
                task: task.deep_view(),
                infos: instances.deep_view(),
            },
            Session::Reviewing { ids, output } => SessionModel::Reviewing {
                ids: ids.deep_view(),
                output: *output,
            },
            Session::Confirming { ids } => SessionModel::Confirming { ids: ids.deep_view() },
            Session::Finished => SessionModel::Finished,
        }
    }
}

impl DeepView for Event {
    type V = EventModel;

    open spec fn deep_view(&self) -> EventModel {
        match self {
            Event::Described { reservations } => EventModel::Described {
                reservations: reservations.deep_view(),
            },
            Event::Typed { line } => EventModel::Typed { line: line@ },
        }
    }
}

/// The task is carried out on `ids`. Termination has to be confirmed first; every other task
/// runs to its end, and so does termination without instances.
pub open spec fn perform_outcome(task: TaskModel, ids: Seq<Seq<char>>) -> Outcome {
    match task {
        TaskModel::Start => Outcome {
            session: SessionModel::Finished,
            actions: start_script(ids),
        },
        TaskModel::Stop => Outcome { session: SessionModel::Finished, actions: stop_script(ids) },
        TaskModel::Restart => Outcome {
            session: SessionModel::Finished,
            actions: restart_script(ids),
        },
        TaskModel::Wait => Outcome { session: SessionModel::Finished, actions: wait_script(ids) },
        TaskModel::ChangeType { instance_type } => Outcome {
            session: SessionModel::Finished,
            actions: change_type_script(ids, instance_type),
        },
        TaskModel::Terminate { output } => Outcome {
            session: if ids.len() == 0 {
                SessionModel::Finished
            } else {
                SessionModel::Reviewing { ids, output }
            },
            actions: terminate_script(ids),
        },
    }
}

/// The instances are those that were given; where none was given, the user has to be offered
/// some.
pub open spec fn resolve_outcome(task: TaskModel, provided: Seq<Seq<char>>) -> Outcome {
    if provided.len() == 0 {
        Outcome {
            session: SessionModel::Offering { task },
            actions: seq![
                ActionModel::DescribeByFilter { filter: state_filter_of(Seq::empty()) },
            ],
        }
    } else {
        perform_outcome(task, provided)
    }
}

/// What a command begins with, once connected.
pub open spec fn command_outcome(command: CommandModel) -> Outcome {
    match command {
        CommandModel::List { profile, state, output } => Outcome {
            session: SessionModel::Listing { output },
            actions: seq![
                ActionModel::DescribeByFilter { filter: state_filter_of(listed_states(state)) },
            ],
        },
        CommandModel::Act { profile, task, instance_ids } => resolve_outcome(task, instance_ids),
    }
}

/// The profile that a command connects with.
pub open spec fn profile_of(command: CommandModel) -> Seq<char> {
    match command {
        CommandModel::List { profile, state, output } => profile,
        CommandModel::Act { profile, task, instance_ids } => profile,
    }
}

/// The first step of a session: it connects, and begins with its command.
pub open spec fn launch_outcome(command: CommandModel) -> Outcome {
    Outcome {
        session: command_outcome(command).session,
        actions: seq![ActionModel::Connect { profile: profile_of(command) }] + command_outcome(
            command,
        ).actions,
    }
}

/// A further step of a session, with tables fitted into `width`. A report that the session is
/// not waiting for changes nothing.
pub open spec fn advance_outcome(
    session: SessionModel,
    event: EventModel,
    width: Option<u16>,
) -> Outcome {
    match (session, event) {
        (SessionModel::Listing { output }, EventModel::Described { reservations }) => Outcome {
            session: SessionModel::Finished,
            actions: list_script(infos_of(reservations), output, width),
        },
        (SessionModel::Offering { task }, EventModel::Described { reservations }) => Outcome {
            session: if infos_of(reservations).len() == 0 {
                SessionModel::Finished
            } else {
                SessionModel::Choosing { task, infos: infos_of(reservations) }
            },
            actions: offer_script(infos_of(reservations), width),
        },
        (SessionModel::Choosing { task, infos }, EventModel::Typed { line }) => perform_outcome(
            task,
            chosen_ids(infos, line),
        ),
        (SessionModel::Reviewing { ids, output }, EventModel::Described { reservations }) => Outcome {
            session: SessionModel::Confirming { ids },
            actions: review_script(infos_of(reservations), output, width),
        },
        (SessionModel::Confirming { ids }, EventModel::Typed { line }) => Outcome {
            session: SessionModel::Finished,
            actions: confirm_script(ids, line),
        },
        _ => Outcome { session, actions: Seq::empty() },
    }
}

/// What a step of a session comes to.
pub open spec fn outcome_of(step: (Session, Vec<Action>)) -> Outcome {
    Outcome { session: step.0.deep_view(), actions: step.1.deep_view() }
}

/// Carries out a task on the given instances.
fn perform(task: Task, ids: Vec<String>) -> (step: (Session, Vec<Action>))
    ensures
        outcome_of(step) == perform_outcome(task.deep_view(), ids.deep_view()),
{
    match task {
        Task::Start => (Session::Finished, cmd_start(ids.as_slice())),
        Task::Stop => (Session::Finished, cmd_stop(ids.as_slice())),
        Task::Restart => (Session::Finished, cmd_restart(ids.as_slice())),
        Task::Wait => (Session::Finished, cmd_wait(ids.as_slice())),
        Task::ChangeType { instance_type } => (
            Session::Finished,
            cmd_change_type(instance_type.as_str(), ids.as_slice()),
        ),
        Task::Terminate { output } => {
            let actions = cmd_terminate(ids.as_slice());
            if ids.len() == 0 {
                (Session::Finished, actions)
            } else {
                (Session::Reviewing { ids, output }, actions)
            }
        },
    }
}

/// Settles which instances a task is about: those that were given, or else one that the user is
/// yet to choose.
pub fn resolve_instance_ids(task: Task, provided_ids: Vec<String>) -> (step: (
    Session,
    Vec<Action>,
))
    ensures
        outcome_of(step) == resolve_outcome(task.deep_view(), provided_ids.deep_view()),
{
    if provided_ids.len() == 0 {
        let no_states: Vec<String> = Vec::new();
        assert(no_states.deep_view() == Seq::<Seq<char>>::empty());
        let actions = vec![describe_instances(no_states.as_slice())];
        assert(actions.deep_view() == resolve_outcome(
            task.deep_view(),
            provided_ids.deep_view(),
        ).actions);
        (Session::Offering { task }, actions)
    } else {
        perform(task, provided_ids)
    }
}

/// Begins a session with a command.
pub fn launch(command: Commands) -> (step: (Session, Vec<Action>))
    ensures
        outcome_of(step) == launch_outcome(command.deep_view()),
{
    let (profile, (session, mut rest)) = match command {
        Commands::List { profile, state, output } => {
            let actions = vec![describe_instances(parse_states(&state).as_slice())];
            assert(actions.deep_view() == command_outcome(command.deep_view()).actions);
            (profile, (Session::Listing { output }, actions))
        },
        Commands::Start { profile, instance_ids } => (
            profile,
            resolve_instance_ids(Task::Start, instance_ids),
        ),
        Commands::Stop { profile, instance_ids } => (
            profile,
            resolve_instance_ids(Task::Stop, instance_ids),
        ),
        Commands::Restart { profile, instance_ids } => (
            profile,
            resolve_instance_ids(Task::Restart, instance_ids),
        ),
        Commands::Wait { profile, instance_ids } => (
            profile,
            resolve_instance_ids(Task::Wait, instance_ids),
        ),
        Commands::ChangeType { profile, instance_type, instance_ids } => (
            profile,
            resolve_instance_ids(Task::ChangeType { instance_type }, instance_ids),
        ),
        Commands::Terminate { profile, instance_ids, output } => (
            profile,
            resolve_instance_ids(Task::Terminate { output }, instance_ids),
        ),
    };
    let mut actions = vec![Action::Connect { profile: profile.profile }];
    let ghost first = seq![ActionModel::Connect { profile: profile_of(command.deep_view()) }];
    assert(actions.deep_view() == first);
    let ghost others = rest.deep_view();
    actions.append(&mut rest);
    assert(actions.deep_view() == first + others);
    (session, actions)
}

impl Session {
    /// Whether the command has come to its end.
    pub fn is_finished(&self) -> (finished: bool)
        ensures
            finished == (self.deep_view() is Finished),
    {
        match self {
            Session::Finished => true,
            _ => false,
        }
    }

    /// Takes a session one step further, with tables fitted into the given width.
    pub fn advance_to_width(self, event: Event, width: Option<u16>) -> (step: (
        Session,
        Vec<Action>,
    ))
        ensures
            outcome_of(step) == advance_outcome(self.deep_view(), event.deep_view(), width),
    {
        match (self, event) {
            (Session::Listing { output }, Event::Described { reservations }) => {
                let instances = summarize_all(reservations.as_slice());
                (Session::Finished, cmd_list(instances.as_slice(), output, width))
            },
            (Session::Offering { task }, Event::Described { reservations }) => {
                let instances = summarize_all(reservations.as_slice());
                let actions = offer_instances(instances.as_slice(), width);
                if instances.len() == 0 {
                    (Session::Finished, actions)
                } else {
                    (Session::Choosing { task, instances }, actions)
                }
            },
            (Session::Choosing { task, instances }, Event::Typed { line }) => {
                perform(task, choose_instance(instances.as_slice(), line.as_str()))
            },
            (Session::Reviewing { ids, output }, Event::Described { reservations }) => {
                let instances = summarize_all(reservations.as_slice());
                let actions = review_terminate(instances.as_slice(), output, width);
                (Session::Confirming { ids }, actions)
            },
            (Session::Confirming { ids }, Event::Typed { line }) => (
                Session::Finished,
                confirm_terminate(ids.as_slice(), line.as_str()),
            ),
            (session, _) => {
                let actions: Vec<Action> = Vec::new();
                assert(actions.deep_view() == Seq::<ActionModel>::empty());
                (session, actions)
            },
        }
    }

    /// Takes a session one step further, with tables fitted into whatever width the terminal
    /// has.
    pub fn advance(self, event: Event) -> (step: (Session, Vec<Action>))
        ensures
            exists|width: Option<u16>|
                outcome_of(step) == #[trigger] advance_outcome(
                    self.deep_view(),
                    event.deep_view(),
                    width,
                ),
    {
        self.advance_to_width(event, terminal_width())
    }
}

} // verus!
