//! Events that spawned processes broadcast to the channels.

use vstd::prelude::*;
use vstd::string::*;
use crate::ids::{BranchId, ChannelId, WorkerId};
use crate::message::option_view;

verus! {

/// A notification on the shared event bus. Every channel sees every event.
#[derive(Clone, Debug, PartialEq, Eq)]
#[allow(inconsistent_fields)]
pub enum ProcessEvent {
    /// A branch has reached its conclusion.
    BranchResult { agent_id: String, branch_id: BranchId, channel_id: ChannelId, conclusion: String },
    /// A worker reports what it is doing.
    WorkerStatus {
        agent_id: String,
        worker_id: WorkerId,
        channel_id: Option<ChannelId>,
        status: String,
    },
    /// A worker has ended, well or badly.
    WorkerComplete {
        agent_id: String,
        worker_id: WorkerId,
        channel_id: Option<ChannelId>,
        result: String,
        notify: bool,
    },
}

/// Model of a [`ProcessEvent`].
#[allow(inconsistent_fields)]
pub enum ProcessEventView {
    BranchResult {
        agent_id: Seq<char>,
        branch_id: BranchId,
        channel_id: Seq<char>,
        conclusion: Seq<char>,
    },
    WorkerStatus {
        agent_id: Seq<char>,
        worker_id: WorkerId,
        channel_id: Option<Seq<char>>,
        status: Seq<char>,
    },
    WorkerComplete {
        agent_id: Seq<char>,
        worker_id: WorkerId,
        channel_id: Option<Seq<char>>,
        result: Seq<char>,
        notify: bool,
    },
}

impl View for ProcessEvent {
    type V = ProcessEventView;

    open spec fn view(&self) -> ProcessEventView {
        match *self {
            ProcessEvent::BranchResult { agent_id, branch_id, channel_id, conclusion } => {
                ProcessEventView::BranchResult {
                    agent_id: agent_id@,
                    branch_id,
                    channel_id: channel_id@,
                    conclusion: conclusion@,
                }
            },
            ProcessEvent::WorkerStatus { agent_id, worker_id, channel_id, status } => {
                ProcessEventView::WorkerStatus {
                    agent_id: agent_id@,
                    worker_id,
                    channel_id: option_view(channel_id),
                    status: status@,
                }
            },
            ProcessEvent::WorkerComplete { agent_id, worker_id, channel_id, result, notify } => {
                ProcessEventView::WorkerComplete {
                    agent_id: agent_id@,
                    worker_id,
                    channel_id: option_view(channel_id),
                    result: result@,
                    notify,
                }
            },
        }
    }
}

} // verus!
