use ec2::action::Action;
use ec2::commands::{
    choose_instance, cmd_change_type, cmd_list, cmd_restart, cmd_start, cmd_stop, cmd_terminate,
    cmd_wait, confirm_terminate, describe_instances, describe_instances_by_ids, offer_instances,
    output_instances, output_status, review_terminate, OutputFormat, WAIT_SECONDS,
};
use ec2::instances::InstanceInfo;
use ec2::render::{render_instance_json, render_instance_table_to_width};
use ec2::states::state_filter;

fn info(id: &str) -> InstanceInfo {
    InstanceInfo {
        instance_id: id.to_string(),
        name: "web".to_string(),
        instance_type: "t3.micro".to_string(),
        state: "running".to_string(),
        private_ip: "10.0.0.1".to_string(),
    }
}

fn ids() -> Vec<String> {
    vec!["i-1".to_string(), "i-2".to_string()]
}

fn print(text: &str) -> Action {
    Action::Print { text: text.to_string() }
}

fn ask(prompt: &str) -> Action {
    Action::Ask { prompt: prompt.to_string() }
}

#[test]
fn the_default_format_is_a_table() {
    assert_eq!(OutputFormat::default(), OutputFormat::Table);
}

#[test]
fn messages_are_indented() {
    assert_eq!(output_status("done"), print("  done"));
}

#[test]
fn starting_waits_for_running() {
    assert_eq!(
        cmd_start(&ids()),
        vec![
            Action::StartInstances { ids: ids() },
            print("  \u{1F680} Starting 2 instance(s)..."),
            Action::WaitUntilRunning { ids: ids(), seconds: 300 },
            print("  \u{2705} Instance(s) i-1, i-2 is now running"),
        ]
    );
}

#[test]
fn stopping_does_not_wait() {
    assert_eq!(
        cmd_stop(&ids()),
        vec![
            Action::StopInstances { ids: ids() },
            print("  \u{1F6D1} Instance(s) i-1, i-2 stopped"),
        ]
    );
}

#[test]
fn restarting_stops_and_starts() {
    assert_eq!(
        cmd_restart(&ids()),
        vec![
            print("  \u{1F504} Restarting 2 instance(s)..."),
            Action::StopInstances { ids: ids() },
            Action::WaitUntilStopped { ids: ids(), seconds: 300 },
            print("  \u{23F3} Instances stopped, starting..."),
            Action::StartInstances { ids: ids() },
            Action::WaitUntilRunning { ids: ids(), seconds: 300 },
            print("  \u{2705} Instance(s) i-1, i-2 restarted successfully"),
        ]
    );
}

#[test]
fn waiting_changes_nothing() {
    assert_eq!(
        cmd_wait(&ids()),
        vec![
            print("  \u{23F3} Waiting for 2 instance(s) to stop..."),
            Action::WaitUntilStopped { ids: ids(), seconds: 300 },
            print("  \u{2705} Instance(s) i-1, i-2 are now stopped"),
        ]
    );
    assert_eq!(WAIT_SECONDS, 300);
}

#[test]
fn types_change_one_by_one() {
    assert_eq!(
        cmd_change_type("t3.large", &ids()),
        vec![
            print("  \u{1F527} Changing instance type to t3.large..."),
            Action::ModifyInstanceType { id: "i-1".to_string(), instance_type: "t3.large".to_string() },
            print("       i-1 \u{2192} t3.large"),
            Action::ModifyInstanceType { id: "i-2".to_string(), instance_type: "t3.large".to_string() },
            print("       i-2 \u{2192} t3.large"),
            print("  \u{2705} Instance type(s) updated"),
        ]
    );
}

#[test]
fn nothing_is_done_without_instances() {
    assert!(cmd_start(&[]).is_empty());
    assert!(cmd_stop(&[]).is_empty());
    assert!(cmd_restart(&[]).is_empty());
    assert!(cmd_wait(&[]).is_empty());
    assert!(cmd_change_type("t3.large", &[]).is_empty());
    assert!(cmd_terminate(&[]).is_empty());
    assert!(offer_instances(&[], None).is_empty());
}

#[test]
fn descriptions_are_asked_for() {
    assert_eq!(describe_instances(&[]), Action::DescribeByFilter { filter: state_filter(&[]) });
    let states = ["stopped".to_string()];
    assert_eq!(describe_instances(&states), Action::DescribeByFilter { filter: state_filter(&states) });
    assert_eq!(describe_instances_by_ids(&ids()), Action::DescribeByIds { ids: ids() });
    assert_eq!(cmd_terminate(&ids()), vec![Action::DescribeByIds { ids: ids() }]);
}

#[test]
fn instances_are_shown_in_every_format() {
    let table = render_instance_table_to_width(&[info("i-1")], "T", None);
    assert_eq!(output_instances(&[info("i-1")], "T", OutputFormat::Table, None), print(&table));
    assert_eq!(
        output_instances(&[info("i-1")], "T", OutputFormat::Less, None),
        Action::Page { text: table }
    );
    assert_eq!(
        output_instances(&[info("i-1")], "T", OutputFormat::Json, None),
        print(&render_instance_json(&[info("i-1")]))
    );
}

#[test]
fn listing_counts_the_instances() {
    let instances = [info("i-1"), info("i-2")];
    let table = render_instance_table_to_width(&instances, "EC2 Instances  (2 instance(s))", None);
    assert_eq!(cmd_list(&instances, OutputFormat::Table, None), vec![print(&table)]);
}

#[test]
fn listing_no_instances_says_so() {
    let expected = "\n  \u{26A0}\u{FE0F}  No instances found.\n";
    assert_eq!(cmd_list(&[], OutputFormat::Table, None), vec![print(expected)]);
    assert_eq!(cmd_list(&[], OutputFormat::Json, None), vec![print(expected)]);
}

#[test]
fn offering_shows_a_table() {
    let table = render_instance_table_to_width(&[info("i-1")], "\u{1F4CB} Available instances", None);
    assert_eq!(
        offer_instances(&[info("i-1")], None),
        vec![
            print(&format!("\n{}", table)),
            ask("  Enter instance number (or 0 to cancel): "),
        ]
    );
}

#[test]
fn numbers_choose_instances() {
    let instances = [info("i-1"), info("i-2"), info("i-3")];
    assert_eq!(choose_instance(&instances, "1\n"), vec!["i-1"]);
    assert_eq!(choose_instance(&instances, "  3\r\n"), vec!["i-3"]);
    assert_eq!(choose_instance(&instances, "+2"), vec!["i-2"]);
}

#[test]
fn other_answers_choose_none() {
    let instances = [info("i-1"), info("i-2"), info("i-3")];
    for line in ["0\n", "4\n", "-1\n", "\n", "", "one\n", "1 2\n", "99999999999999999999999\n"] {
        assert!(choose_instance(&instances, line).is_empty());
    }
    assert!(choose_instance(&[], "1\n").is_empty());
}

#[test]
fn termination_is_reviewed() {
    let table = render_instance_table_to_width(&[info("i-1")], "\u{1F4CB} Instances to terminate", Some(80));
    assert_eq!(
        review_terminate(&[info("i-1")], OutputFormat::Less, Some(80)),
        vec![
            Action::Page { text: table },
            print("\n  \u{26A0}  WARNING: Termination permanently deletes the instance!"),
            ask("  Type \"terminate\" to confirm: "),
        ]
    );
}

#[test]
fn termination_is_confirmed_by_a_word() {
    for line in ["terminate", "terminate\n", " \tterminate \r\n"] {
        assert_eq!(
            confirm_terminate(&ids(), line),
            vec![
                Action::TerminateInstances { ids: ids() },
                print("\n  \u{1F480} Instance(s) i-1, i-2 terminated successfully"),
            ]
        );
    }
}

#[test]
fn termination_is_cancelled_by_any_other_answer() {
    for line in ["", "\n", "yes\n", "Terminate\n", "terminate!\n", "terminate terminate\n"] {
        assert_eq!(
            confirm_terminate(&ids(), line),
            vec![print("  \u{274C} Termination cancelled.")]
        );
    }
}
