//! The failures that the supervisor reports.
use crate::text::{concat2, concat3};
use vstd::prelude::*;

verus! {

/// Why a supervisor operation did not succeed.
#[derive(Debug, Clone, PartialEq, Eq)]
pub enum SupervisorError {
    /// No configuration exists for the instance identifier.
    NotFound { id: String },
    /// A process already runs in the working directory of the named instance.
    AlreadyRunning { name: String },
    /// No worker of the named instance could be reached.
    NotRunning { name: String },
    /// The operating system could not launch the worker.
    SpawnFailed { detail: String },
    /// Reading, writing or flushing a stream failed.
    IoFailure { detail: String },
    /// A graceful command was attempted for an identifier without a registered
    /// command channel.
    ChannelUnavailable { id: String },
}

/// The mathematical content of a [`SupervisorError`].
pub enum SupervisorErrorView {
    NotFound { id: Seq<char> },
    AlreadyRunning { name: Seq<char> },
    NotRunning { name: Seq<char> },
    SpawnFailed { detail: Seq<char> },
    IoFailure { detail: Seq<char> },
    ChannelUnavailable { id: Seq<char> },
}

impl View for SupervisorError {
    type V = SupervisorErrorView;

    open spec fn view(&self) -> SupervisorErrorView {
        match self {
            SupervisorError::NotFound { id } => SupervisorErrorView::NotFound { id: id@ },
            SupervisorError::AlreadyRunning { name } => SupervisorErrorView::AlreadyRunning {
                name: name@,
            },
            SupervisorError::NotRunning { name } => SupervisorErrorView::NotRunning { name: name@ },
            SupervisorError::SpawnFailed { detail } => SupervisorErrorView::SpawnFailed {
                detail: detail@,
            },
            SupervisorError::IoFailure { detail } => SupervisorErrorView::IoFailure {
                detail: detail@,
            },
            SupervisorError::ChannelUnavailable { id } => SupervisorErrorView::ChannelUnavailable {
                id: id@,
            },
        }
    }
}

/// The human-readable text of a failure.
pub open spec fn message_of(e: SupervisorErrorView) -> Seq<char> {
    match e {
        SupervisorErrorView::NotFound { id } => "Instance with id "@ + id + " not found"@,
        SupervisorErrorView::AlreadyRunning { name } => "Instance '"@ + name
            + "' is already running"@,
        SupervisorErrorView::NotRunning { name } => "Instance '"@ + name + "' is not running"@,
        SupervisorErrorView::SpawnFailed { detail } => "Failed to start Java process: "@ + detail,
        SupervisorErrorView::IoFailure { detail } => detail,
        SupervisorErrorView::ChannelUnavailable { id } => "No command channel for instance "@ + id,
    }
}

impl SupervisorError {
    /// The human-readable text of the failure.
    pub fn message(&self) -> (text: String)
        ensures
            text@ == message_of(self@),
    {
        match self {
            SupervisorError::NotFound { id } => concat3(
                "Instance with id ",
                id.as_str(),
                " not found",
            ),
            SupervisorError::AlreadyRunning { name } => concat3(
                "Instance '",
                name.as_str(),
                "' is already running",
            ),
            SupervisorError::NotRunning { name } => concat3(
                "Instance '",
                name.as_str(),
                "' is not running",
            ),
            SupervisorError::SpawnFailed { detail } => concat2(
                "Failed to start Java process: ",
                detail.as_str(),
            ),
            SupervisorError::IoFailure { detail } => detail.clone(),
            SupervisorError::ChannelUnavailable { id } => concat2(
                "No command channel for instance ",
                id.as_str(),
            ),
        }
    }
}

} // verus!
