//! What each command says and asks for once it knows which instances it is about.

use vstd::prelude::*;

use crate::action::Action;
use crate::instances::InstanceInfo;
use crate::render::{render_instance_json, render_instance_table_to_width};
use crate::states::state_filter;
use crate::text::{copy_texts, decimal_text, join, parse_number, same_text, trim};

#[allow(unused_imports)]
use crate::action::ActionModel;
#[allow(unused_imports)]
use crate::instances::InfoModel;
#[allow(unused_imports)]
use crate::json::pretty_json;
#[allow(unused_imports)]
use crate::render::{document, rendered_table};
#[allow(unused_imports)]
use crate::states::state_filter_of;
#[allow(unused_imports)]
use crate::text::{decimal, joined, parsed_number, trimmed};

verus! {

/// How long a command waits for instances to change their state, in seconds.
pub const WAIT_SECONDS: u64 = 300;

/// How a list of instances is shown.
#[derive(Clone, Copy, Debug, PartialEq, Eq, Structural)]
pub enum OutputFormat {
    /// Pretty table (default)
    Table,
    /// Pipe through less pager
    Less,
    /// JSON output
    Json,
}

impl Default for OutputFormat {
    fn default() -> (format: Self)
        ensures
            format == OutputFormat::Table,
    {
        OutputFormat::Table
    }
}

/// A message as it stands on the screen.
pub open spec fn status_model(message: Seq<char>) -> ActionModel {
    ActionModel::Print { text: "  "@ + message }
}

/// `before`, `count` in decimal and `after`.
pub open spec fn counted(before: Seq<char>, count: nat, after: Seq<char>) -> Seq<char> {
    before + decimal(count) + after
}

/// `before`, the `ids` with commas between them and `after`.
pub open spec fn listing(before: Seq<char>, ids: Seq<Seq<char>>, after: Seq<char>) -> Seq<char> {
    before + joined(ids, ", "@) + after
}

/// How `infos` are shown under `title`.
pub open spec fn output_model(
    infos: Seq<InfoModel>,
    title: Seq<char>,
    format: OutputFormat,
    width: Option<u16>,
) -> ActionModel {
    match format {
        OutputFormat::Table => ActionModel::Print { text: rendered_table(infos, title, width) },
        OutputFormat::Less => ActionModel::Page { text: rendered_table(infos, title, width) },
        OutputFormat::Json => ActionModel::Print { text: pretty_json(document(infos)) },
    }
}

/// Listing instances: they are shown, or it is said that there are none.
pub open spec fn list_script(
    infos: Seq<InfoModel>,
    format: OutputFormat,
    width: Option<u16>,
) -> Seq<ActionModel> {
    if infos.len() == 0 {
        seq![ActionModel::Print { text: "\n  \u{26A0}\u{FE0F}  No instances found.\n"@ }]
    } else {
        seq![
            output_model(
                infos,
                counted("EC2 Instances  ("@, infos.len(), " instance(s))"@),
                format,
                width,
            ),
        ]
    }
}

/// Starting instances: the request, and the wait until they run. Without instances, nothing.
pub open spec fn start_script(ids: Seq<Seq<char>>) -> Seq<ActionModel> {
    if ids.len() == 0 {
        Seq::empty()
    } else {
        seq![
            ActionModel::StartInstances { ids },
            status_model(counted("\u{1F680} Starting "@, ids.len(), " instance(s)..."@)),
            ActionModel::WaitUntilRunning { ids, seconds: WAIT_SECONDS },
            status_model(listing("\u{2705} Instance(s) "@, ids, " is now running"@)),
        ]
    }
}

/// Stopping instances: the request alone. Without instances, nothing.
pub open spec fn stop_script(ids: Seq<Seq<char>>) -> Seq<ActionModel> {
    if ids.len() == 0 {
        Seq::empty()
    } else {
        seq![
            ActionModel::StopInstances { ids },
            status_model(listing("\u{1F6D1} Instance(s) "@, ids, " stopped"@)),
        ]
    }
}

/// Restarting instances: they are stopped and, once stopped, started. Without instances,
/// nothing.
pub open spec fn restart_script(ids: Seq<Seq<char>>) -> Seq<ActionModel> {
    if ids.len() == 0 {
        Seq::empty()
    } else {
        seq![
            status_model(counted("\u{1F504} Restarting "@, ids.len(), " instance(s)..."@)),
            ActionModel::StopInstances { ids },
            ActionModel::WaitUntilStopped { ids, seconds: WAIT_SECONDS },
            status_model("\u{23F3} Instances stopped, starting..."@),
            ActionModel::StartInstances { ids },
            ActionModel::WaitUntilRunning { ids, seconds: WAIT_SECONDS },
            status_model(listing("\u{2705} Instance(s) "@, ids, " restarted successfully"@)),
        ]
    }
}

/// Waiting for instances to stop. Without instances, nothing.
pub open spec fn wait_script(ids: Seq<Seq<char>>) -> Seq<ActionModel> {
    if ids.len() == 0 {
        Seq::empty()
    } else {
        seq![
            status_model(counted("\u{23F3} Waiting for "@, ids.len(), " instance(s) to stop..."@)),
            ActionModel::WaitUntilStopped { ids, seconds: WAIT_SECONDS },
            status_model(listing("\u{2705} Instance(s) "@, ids, " are now stopped"@)),
        ]
    }
}

/// Changing the type of one instance, and saying so.
pub open spec fn modification(id: Seq<char>, instance_type: Seq<char>) -> Seq<ActionModel> {
    seq![
        ActionModel::ModifyInstanceType { id, instance_type },
        status_model("     "@ + id + " \u{2192} "@ + instance_type),
    ]
}

/// Changing the type of each of `ids` in turn.
pub open spec fn modifications(ids: Seq<Seq<char>>, instance_type: Seq<char>) -> Seq<ActionModel>
    decreases ids.len(),
{
    if ids.len() == 0 {
        Seq::empty()
    } else {
        modifications(ids.drop_last(), instance_type) + modification(ids.last(), instance_type)
    }
}

/// Changing the type of instances. Without instances, nothing.
pub open spec fn change_type_script(
    ids: Seq<Seq<char>>,
    instance_type: Seq<char>,
) -> Seq<ActionModel> {
    if ids.len() == 0 {
        Seq::empty()
    } else {
        seq![
            status_model("\u{1F527} Changing instance type to "@ + instance_type + "..."@),
        ] + modifications(ids, instance_type) + seq![
            status_model("\u{2705} Instance type(s) updated"@),
        ]
    }
}

/// Terminating instances begins with a look at them. Without instances, nothing.
pub open spec fn terminate_script(ids: Seq<Seq<char>>) -> Seq<ActionModel> {
    if ids.len() == 0 {
        Seq::empty()
    } else {
        seq![ActionModel::DescribeByIds { ids }]
    }
}

/// Before terminating: the instances are shown, and a confirmation is asked for.
pub open spec fn review_script(
    infos: Seq<InfoModel>,
    format: OutputFormat,
    width: Option<u16>,
) -> Seq<ActionModel> {
    seq![
        output_model(infos, "\u{1F4CB} Instances to terminate"@, format, width),
        ActionModel::Print {
            text: "\n  \u{26A0}  WARNING: Termination permanently deletes the instance!"@,
        },
        ActionModel::Ask { prompt: "  Type \"terminate\" to confirm: "@ },
    ]
}

/// Whether `line` confirms a termination.
pub open spec fn confirms(line: Seq<char>) -> bool {
    trimmed(line) == "terminate"@
}

/// Terminating instances, if `line` confirms it.
pub open spec fn confirm_script(ids: Seq<Seq<char>>, line: Seq<char>) -> Seq<ActionModel> {
    if confirms(line) {
        seq![
            ActionModel::TerminateInstances { ids },
            ActionModel::Print {
                text: listing("\n  \u{1F480} Instance(s) "@, ids, " terminated successfully"@),
            },
        ]
    } else {
        seq![ActionModel::Print { text: "  \u{274C} Termination cancelled."@ }]
    }
}

/// Offering instances to choose from. Without instances, nothing.
pub open spec fn offer_script(infos: Seq<InfoModel>, width: Option<u16>) -> Seq<ActionModel> {
    if infos.len() == 0 {
        Seq::empty()
    } else {
        seq![
            ActionModel::Print {
                text: "\n"@ + rendered_table(infos, "\u{1F4CB} Available instances"@, width),
            },
            ActionModel::Ask { prompt: "  Enter instance number (or 0 to cancel): "@ },
        ]
    }
}

/// The instance that `line` chooses by its place in `infos`, counted from one; none where the
/// line is not the number of a place.
pub open spec fn chosen_ids(infos: Seq<InfoModel>, line: Seq<char>) -> Seq<Seq<char>> {
    match parsed_number(trimmed(line)) {
        Some(number) => if 0 < number <= infos.len() {
            seq![infos[number - 1].instance_id]
        } else {
            Seq::empty()
        },
        None => Seq::empty(),
    }
}

/// Writes a message with the indentation of all messages.
pub fn output_status(message: &str) -> (action: Action)
    ensures
        action.deep_view() == status_model(message@),
        action.deep_view() == (ActionModel::Print { text: "  "@ + message@ }),
{
    let mut text = "  ".to_owned();
    text.append(message);
    Action::Print { text }
}

/// A text with a number in it.
fn counted_text(before: &str, count: usize, after: &str) -> (text: String)
    ensures
        text@ == counted(before@, count as nat, after@),
{
    let mut text = before.to_owned();
    text.append(decimal_text(count).as_str());
    text.append(after);
    text
}

/// A text with a list of identifiers in it.
fn listing_text(before: &str, ids: &[String], after: &str) -> (text: String)
    ensures
        text@ == listing(before@, ids.deep_view(), after@),
{
    let mut text = before.to_owned();
    text.append(join(ids, ", ").as_str());
    text.append(after);
    text
}

/// Shows instances under a title: as a table, as a table in a pager, or as a JSON document.
pub fn output_instances(
    instances: &[InstanceInfo],
    title: &str,
    format: OutputFormat,
    width: Option<u16>,
) -> (action: Action)
    ensures
        action.deep_view() == output_model(instances.deep_view(), title@, format, width),
{
    match format {
        OutputFormat::Table => Action::Print {
            text: render_instance_table_to_width(instances, title, width),
        },
        OutputFormat::Less => Action::Page {
            text: render_instance_table_to_width(instances, title, width),
        },
        OutputFormat::Json => Action::Print { text: render_instance_json(instances) },
    }
}

/// Lists the instances that were described.
pub fn cmd_list(instances: &[InstanceInfo], format: OutputFormat, width: Option<u16>) -> (actions:
    Vec<Action>)
    ensures
        actions.deep_view() == list_script(instances.deep_view(), format, width),
{
    if instances.len() == 0 {
        vec![
            Action::Print { text: "\n  \u{26A0}\u{FE0F}  No instances found.\n".to_owned() },
        ]
    } else {
        let title = counted_text("EC2 Instances  (", instances.len(), " instance(s))");
        vec![output_instances(instances, title.as_str(), format, width)]
    }
}

/// Starts instances and waits until they run.
pub fn cmd_start(ids: &[String]) -> (actions: Vec<Action>)
    ensures
        actions.deep_view() == start_script(ids.deep_view()),
{
    if ids.len() == 0 {
        return Vec::new();
    }
    vec![
        Action::StartInstances { ids: copy_texts(ids) },
        output_status(
            counted_text("\u{1F680} Starting ", ids.len(), " instance(s)...").as_str(),
        ),
        Action::WaitUntilRunning { ids: copy_texts(ids), seconds: WAIT_SECONDS },
        output_status(listing_text("\u{2705} Instance(s) ", ids, " is now running").as_str()),
    ]
}

/// Stops instances.
pub fn cmd_stop(ids: &[String]) -> (actions: Vec<Action>)
    ensures
        actions.deep_view() == stop_script(ids.deep_view()),
{
    if ids.len() == 0 {
        return Vec::new();
    }
    vec![
        Action::StopInstances { ids: copy_texts(ids) },
        output_status(listing_text("\u{1F6D1} Instance(s) ", ids, " stopped").as_str()),
    ]
}

/// Stops instances, waits until they are stopped, starts them and waits until they run.
pub fn cmd_restart(ids: &[String]) -> (actions: Vec<Action>)
    ensures
        actions.deep_view() == restart_script(ids.deep_view()),
{
    if ids.len() == 0 {
        return Vec::new();
    }
    vec![
        output_status(
            counted_text("\u{1F504} Restarting ", ids.len(), " instance(s)...").as_str(),
        ),
        Action::StopInstances { ids: copy_texts(ids) },
        Action::WaitUntilStopped { ids: copy_texts(ids), seconds: WAIT_SECONDS },
        output_status("\u{23F3} Instances stopped, starting..."),
        Action::StartInstances { ids: copy_texts(ids) },
        Action::WaitUntilRunning { ids: copy_texts(ids), seconds: WAIT_SECONDS },
        output_status(
            listing_text("\u{2705} Instance(s) ", ids, " restarted successfully").as_str(),
        ),
    ]
}

/// Waits until instances are stopped.
pub fn cmd_wait(ids: &[String]) -> (actions: Vec<Action>)
    ensures
        actions.deep_view() == wait_script(ids.deep_view()),
{
    if ids.len() == 0 {
        return Vec::new();
    }
    vec![
        output_status(
            counted_text("\u{23F3} Waiting for ", ids.len(), " instance(s) to stop...").as_str(),
        ),
        Action::WaitUntilStopped { ids: copy_texts(ids), seconds: WAIT_SECONDS },
        output_status(listing_text("\u{2705} Instance(s) ", ids, " are now stopped").as_str()),
    ]
}

/// Changes the type of instances, one after the other.
pub fn cmd_change_type(instance_type: &str, ids: &[String]) -> (actions: Vec<Action>)
    ensures
        actions.deep_view() == change_type_script(ids.deep_view(), instance_type@),
{
    if ids.len() == 0 {
        return Vec::new();
    }
    let mut message = "\u{1F527} Changing instance type to ".to_owned();
    message.append(instance_type);
    message.append("...");
    let mut actions: Vec<Action> = Vec::new();
    actions.push(output_status(message.as_str()));
    let ghost first = status_model(
        "\u{1F527} Changing instance type to "@ + instance_type@ + "..."@,
    );
    assert(actions.deep_view() == seq![first] + modifications(
        ids.deep_view().take(0),
        instance_type@,
    ));
    let mut i: usize = 0;
    while i < ids.len()
        invariant
            i <= ids@.len(),
            actions.deep_view() == seq![first] + modifications(
                ids.deep_view().take(i as int),
                instance_type@,
            ),
        decreases ids@.len() - i,
    {
        let ghost before = actions.deep_view();
        let ghost id = ids.deep_view()[i as int];
        actions.push(
            Action::ModifyInstanceType {
                id: ids[i].clone(),
                instance_type: instance_type.to_owned(),
            },
        );
        let mut message = "     ".to_owned();
        message.append(ids[i].as_str());
        message.append(" \u{2192} ");
        message.append(instance_type);
        actions.push(output_status(message.as_str()));
        assert(actions.deep_view() == before + modification(id, instance_type@));
        assert(ids.deep_view().take(i + 1).drop_last() == ids.deep_view().take(i as int));
        i = i + 1;
    }
    assert(ids.deep_view().take(i as int) == ids.deep_view());
    let ghost before = actions.deep_view();
    actions.push(output_status("\u{2705} Instance type(s) updated"));
    assert(actions.deep_view() == before + seq![
        status_model("\u{2705} Instance type(s) updated"@),
    ]);
    actions
}

/// Asks for a description of the instances in one of the given states, or in one of the default
/// states where none is given.
pub fn describe_instances(states: &[String]) -> (action: Action)
    ensures
        action.deep_view() == (ActionModel::DescribeByFilter {
            filter: state_filter_of(states.deep_view()),
        }),
{
    Action::DescribeByFilter { filter: state_filter(states) }
}

/// Asks for a description of certain instances.
pub fn describe_instances_by_ids(ids: &[String]) -> (action: Action)
    ensures
        action.deep_view() == (ActionModel::DescribeByIds { ids: ids.deep_view() }),
{
    Action::DescribeByIds { ids: copy_texts(ids) }
}

/// Begins to terminate instances: they are looked up first.
pub fn cmd_terminate(ids: &[String]) -> (actions: Vec<Action>)
    ensures
        actions.deep_view() == terminate_script(ids.deep_view()),
{
    if ids.len() == 0 {
        return Vec::new();
    }
    vec![describe_instances_by_ids(ids)]
}

/// Shows the instances that are to be terminated, and asks for a confirmation.
pub fn review_terminate(
    instances: &[InstanceInfo],
    format: OutputFormat,
    width: Option<u16>,
) -> (actions: Vec<Action>)
    ensures
        actions.deep_view() == review_script(instances.deep_view(), format, width),
{
    vec![
        output_instances(instances, "\u{1F4CB} Instances to terminate", format, width),
        Action::Print {
            text: "\n  \u{26A0}  WARNING: Termination permanently deletes the instance!".to_owned(),
        },
        Action::Ask { prompt: "  Type \"terminate\" to confirm: ".to_owned() },
    ]
}

/// Terminates instances if the line that was typed confirms it.
pub fn confirm_terminate(ids: &[String], line: &str) -> (actions: Vec<Action>)
    ensures
        actions.deep_view() == confirm_script(ids.deep_view(), line@),
{
    if same_text(trim(line), "terminate") {
        vec![
            Action::TerminateInstances { ids: copy_texts(ids) },
            Action::Print {
                text: listing_text(
                    "\n  \u{1F480} Instance(s) ",
                    ids,
                    " terminated successfully",
                ),
            },
        ]
    } else {
        vec![Action::Print { text: "  \u{274C} Termination cancelled.".to_owned() }]
    }
}

/// Shows instances to choose from, and asks for a choice.
pub fn offer_instances(instances: &[InstanceInfo], width: Option<u16>) -> (actions: Vec<Action>)
    ensures
        actions.deep_view() == offer_script(instances.deep_view(), width),
{
    if instances.len() == 0 {
        return Vec::new();
    }
    let table = render_instance_table_to_width(
        instances,
        "\u{1F4CB} Available instances",
        width,
    );
    let mut text = "\n".to_owned();
    text.append(table.as_str());
    vec![
        Action::Print { text },
        Action::Ask { prompt: "  Enter instance number (or 0 to cancel): ".to_owned() },
    ]
}

/// The identifier of the instance that the typed line chooses, if it chooses one.
pub fn choose_instance(instances: &[InstanceInfo], line: &str) -> (ids: Vec<String>)
    ensures
        ids.deep_view() == chosen_ids(instances.deep_view(), line@),
{
    let number: usize = match parse_number(trim(line)) {
        Some(number) => number,
        None => 0,
    };
    if number > 0 && number <= instances.len() {
        vec![instances[number - 1].instance_id.clone()]
    } else {
        Vec::new()
    }
}

} // verus!
