use ec2::action::Action;
use ec2::commands::{
    cmd_change_type, cmd_list, cmd_restart, cmd_start, cmd_stop, cmd_wait, confirm_terminate,
    describe_instances, offer_instances, review_terminate, OutputFormat,
};
use ec2::instances::{summarize_all, Instance, InstanceState, Reservation};
use ec2::session::{
    launch, resolve_instance_ids, Commands, Event, ProfileArgs, Session, Task, DEFAULT_PROFILE,
};

fn profile() -> ProfileArgs {
    ProfileArgs { profile: "ops".to_string() }
}

fn connect() -> Action {
    Action::Connect { profile: "ops".to_string() }
}

fn ids() -> Vec<String> {
    vec!["i-1".to_string(), "i-2".to_string()]
}

fn instance(id: &str) -> Instance {
    Instance {
        instance_id: Some(id.to_string()),
        instance_type: Some("t3.micro".to_string()),
        state: Some(InstanceState { name: Some("stopped".to_string()) }),
        private_ip_address: None,
        tags: Vec::new(),
    }
}

fn reservations() -> Vec<Reservation> {
    vec![
        Reservation { instances: vec![instance("i-7")] },
        Reservation { instances: vec![instance("i-8"), instance("i-9")] },
    ]
}

fn described() -> Event {
    Event::Described { reservations: reservations() }
}

fn typed(line: &str) -> Event {
    Event::Typed { line: line.to_string() }
}

fn after_connect(mut actions: Vec<Action>) -> Vec<Action> {
    actions.insert(0, connect());
    actions
}

#[test]
fn the_default_profile_is_known() {
    assert_eq!(DEFAULT_PROFILE, "ml-dev");
}

#[test]
fn given_instances_are_used_at_once() {
    let (session, actions) = launch(Commands::Start { profile: profile(), instance_ids: ids() });
    assert!(session.is_finished());
    assert_eq!(actions, after_connect(cmd_start(&ids())));

    let (session, actions) = launch(Commands::Stop { profile: profile(), instance_ids: ids() });
    assert!(session.is_finished());
    assert_eq!(actions, after_connect(cmd_stop(&ids())));

    let (session, actions) = launch(Commands::Restart { profile: profile(), instance_ids: ids() });
    assert!(session.is_finished());
    assert_eq!(actions, after_connect(cmd_restart(&ids())));

    let (session, actions) = launch(Commands::Wait { profile: profile(), instance_ids: ids() });
    assert!(session.is_finished());
    assert_eq!(actions, after_connect(cmd_wait(&ids())));

    let (session, actions) = launch(Commands::ChangeType {
        profile: profile(),
        instance_type: "t3.large".to_string(),
        instance_ids: ids(),
    });
    assert!(session.is_finished());
    assert_eq!(actions, after_connect(cmd_change_type("t3.large", &ids())));
}

#[test]
fn listing_filters_and_shows() {
    let (session, actions) = launch(Commands::List {
        profile: profile(),
        state: Some("running, stopped".to_string()),
        output: OutputFormat::Json,
    });
    assert!(!session.is_finished());
    let states = ["running".to_string(), "stopped".to_string()];
    assert_eq!(actions, vec![connect(), describe_instances(&states)]);
    let (session, actions) = session.advance_to_width(described(), None);
    assert!(session.is_finished());
    assert_eq!(actions, cmd_list(&summarize_all(&reservations()), OutputFormat::Json, None));
}

#[test]
fn omitted_instances_are_chosen() {
    let (session, actions) = launch(Commands::Stop { profile: profile(), instance_ids: vec![] });
    assert!(!session.is_finished());
    assert_eq!(actions, vec![connect(), describe_instances(&[])]);
    let (session, actions) = session.advance_to_width(described(), Some(100));
    assert!(!session.is_finished());
    assert_eq!(actions, offer_instances(&summarize_all(&reservations()), Some(100)));
    let (session, actions) = session.advance_to_width(typed("3\n"), Some(100));
    assert!(session.is_finished());
    assert_eq!(actions, cmd_stop(&["i-9".to_string()]));
}

#[test]
fn a_cancelled_choice_ends_the_session() {
    let (session, _) = launch(Commands::Restart { profile: profile(), instance_ids: vec![] });
    let (session, _) = session.advance_to_width(described(), None);
    let (session, actions) = session.advance_to_width(typed("0\n"), None);
    assert!(session.is_finished());
    assert!(actions.is_empty());
}

#[test]
fn no_instances_to_choose_from_end_the_session() {
    let (session, _) = launch(Commands::Wait { profile: profile(), instance_ids: vec![] });
    let (session, actions) = session.advance_to_width(Event::Described { reservations: vec![] }, None);
    assert!(session.is_finished());
    assert!(actions.is_empty());
}

#[test]
fn termination_asks_and_obeys() {
    let (session, actions) = launch(Commands::Terminate {
        profile: profile(),
        instance_ids: ids(),
        output: OutputFormat::Table,
    });
    assert_eq!(actions, vec![connect(), Action::DescribeByIds { ids: ids() }]);
    let (session, actions) = session.advance_to_width(described(), None);
    assert!(!session.is_finished());
    assert_eq!(actions, review_terminate(&summarize_all(&reservations()), OutputFormat::Table, None));
    let (session, actions) = session.advance_to_width(typed("terminate\n"), None);
    assert!(session.is_finished());
    assert_eq!(actions, confirm_terminate(&ids(), "terminate"));
    assert_eq!(actions[0], Action::TerminateInstances { ids: ids() });
}

#[test]
fn refused_termination_terminates_nothing() {
    let (session, _) = launch(Commands::Terminate {
        profile: profile(),
        instance_ids: vec![],
        output: OutputFormat::Less,
    });
    let (session, _) = session.advance_to_width(described(), None);
    let (session, actions) = session.advance_to_width(typed("1\n"), None);
    assert_eq!(actions, vec![Action::DescribeByIds { ids: vec!["i-7".to_string()] }]);
    let (session, _) = session.advance_to_width(described(), None);
    let (session, actions) = session.advance_to_width(typed("no\n"), None);
    assert!(session.is_finished());
    assert_eq!(actions, confirm_terminate(&[], "no"));
    assert!(!actions.iter().any(|action| matches!(action, Action::TerminateInstances { .. })));
}

#[test]
fn unexpected_reports_change_nothing() {
    let (session, _) = launch(Commands::Stop { profile: profile(), instance_ids: vec![] });
    let (session, actions) = session.advance_to_width(typed("1\n"), None);
    assert!(actions.is_empty());
    assert!(matches!(session, Session::Offering { task: Task::Stop }));
    let (session, actions) = Session::Finished.advance_to_width(described(), None);
    assert!(actions.is_empty());
    assert!(session.is_finished());
}

#[test]
fn instances_are_resolved() {
    let (session, actions) = resolve_instance_ids(Task::Start, vec![]);
    assert!(matches!(session, Session::Offering { task: Task::Start }));
    assert_eq!(actions, vec![describe_instances(&[])]);
    let (session, actions) = resolve_instance_ids(Task::Start, ids());
    assert!(session.is_finished());
    assert_eq!(actions, cmd_start(&ids()));
}

#[test]
fn a_session_fits_tables_to_the_terminal() {
    let (session, _) = launch(Commands::List {
        profile: profile(),
        state: None,
        output: OutputFormat::Table,
    });
    let (session, actions) = session.advance(described());
    assert!(session.is_finished());
    let width = ec2::render::terminal_width();
    assert_eq!(actions, cmd_list(&summarize_all(&reservations()), OutputFormat::Table, width));
}
