//! What the tool has done for it: requests to the service and exchanges with the user.

use vstd::prelude::*;

use crate::states::Filter;

#[allow(unused_imports)]
use crate::states::FilterModel;

verus! {

/// Something to be done on behalf of a session.
#[derive(Debug, PartialEq, Eq)]
pub enum Action {
    /// Set up the client of the service for a profile.
    Connect { profile: String },
    /// Have the instances that pass a filter described, and report them.
    DescribeByFilter { filter: Filter },
    /// Have certain instances described, and report them.
    DescribeByIds { ids: Vec<String> },
    /// Start instances.
    StartInstances { ids: Vec<String> },
    /// Stop instances.
    StopInstances { ids: Vec<String> },
    /// Terminate instances.
    TerminateInstances { ids: Vec<String> },
    /// Change the type of an instance.
    ModifyInstanceType { id: String, instance_type: String },
    /// Wait until instances are running, for at most so many seconds.
    WaitUntilRunning { ids: Vec<String>, seconds: u64 },
    /// Wait until instances are stopped, for at most so many seconds.
    WaitUntilStopped { ids: Vec<String>, seconds: u64 },
    /// Write a text and a line break.
    Print { text: String },
    /// Show a text in a pager.
    Page { text: String },
    /// Write a text without a line break, read a line and report it.
    Ask { prompt: String },
}

/// The content of an [`Action`].
pub ghost enum ActionModel {
    Connect { profile: Seq<char> },
    DescribeByFilter { filter: FilterModel },
    DescribeByIds { ids: Seq<Seq<char>> },
    StartInstances { ids: Seq<Seq<char>> },
    StopInstances { ids: Seq<Seq<char>> },
    TerminateInstances { ids: Seq<Seq<char>> },
    ModifyInstanceType { id: Seq<char>, instance_type: Seq<char> },
    WaitUntilRunning { ids: Seq<Seq<char>>, seconds: u64 },
    WaitUntilStopped { ids: Seq<Seq<char>>, seconds: u64 },
    Print { text: Seq<char> },
    Page { text: Seq<char> },
    Ask { prompt: Seq<char> },
}

impl DeepView for Action {
    type V = ActionModel;

    open spec fn deep_view(&self) -> ActionModel {
        match self {
            Action::Connect { profile } => ActionModel::Connect { profile: profile@ },
            Action::DescribeByFilter { filter } => ActionModel::DescribeByFilter {
                filter: filter.deep_view(),
            },
            Action::DescribeByIds { ids } => ActionModel::DescribeByIds { ids: ids.deep_view() },
            Action::StartInstances { ids } => ActionModel::StartInstances { ids: ids.deep_view() },
            Action::StopInstances { ids } => ActionModel::StopInstances { ids: ids.deep_view() },
            Action::TerminateInstances { ids } => ActionModel::TerminateInstances {
                ids: ids.deep_view(),
            },
            Action::ModifyInstanceType { id, instance_type } => ActionModel::ModifyInstanceType {
                id: id@,
                instance_type: instance_type@,
            },
            Action::WaitUntilRunning { ids, seconds } => ActionModel::WaitUntilRunning {
                ids: ids.deep_view(),
                seconds: *seconds,
            },
            Action::WaitUntilStopped { ids, seconds } => ActionModel::WaitUntilStopped {
                ids: ids.deep_view(),
                seconds: *seconds,
            },
            Action::Print { text } => ActionModel::Print { text: text@ },
            Action::Page { text } => ActionModel::Page { text: text@ },
            Action::Ask { prompt } => ActionModel::Ask { prompt: prompt@ },
        }
    }
}

} // verus!
