//! Branches and workers: what a channel launches, what it keeps of them
//! while they run, and the event with which each of them ends.

use vstd::prelude::*;
use vstd::string::*;
use crate::event::{ProcessEvent, ProcessEventView};
use crate::ids::{BranchId, ChannelId, WorkerId};
use crate::message::{history_view, option_view, Message, MessageView};

verus! {

/// What a channel keeps of a running branch.
#[derive(Clone, Copy, Debug, PartialEq, Eq)]
pub struct BranchHandle {
    /// Length of the history that the branch was given.
    pub history_len: usize,
}

/// What a channel keeps of a running worker.
#[derive(Clone, Copy, Debug, PartialEq, Eq)]
pub struct WorkerHandle {
    /// Whether the worker takes follow-up input.
    pub interactive: bool,
}

/// A branch, ready to run: a line of thought that starts from a copy of the
/// channel's history and ends in one conclusion.
#[derive(Debug, PartialEq, Eq)]
pub struct Branch {
    pub id: BranchId,
    pub agent_id: String,
    pub channel_id: ChannelId,
    pub description: String,
    pub system_prompt: String,
    pub history: Vec<Message>,
}

/// Model of a [`Branch`].
pub struct BranchView {
    pub id: BranchId,
    pub agent_id: Seq<char>,
    pub channel_id: Seq<char>,
    pub description: Seq<char>,
    pub system_prompt: Seq<char>,
    pub history: Seq<MessageView>,
}

impl View for Branch {
    type V = BranchView;

    open spec fn view(&self) -> BranchView {
        BranchView {
            id: self.id,
            agent_id: self.agent_id@,
            channel_id: self.channel_id@,
            description: self.description@,
            system_prompt: self.system_prompt@,
            history: history_view(self.history@),
        }
    }
}

/// The event with which a branch ends.
pub open spec fn branch_result(branch: BranchView, conclusion: Seq<char>) -> ProcessEventView {
    ProcessEventView::BranchResult {
        agent_id: branch.agent_id,
        branch_id: branch.id,
        channel_id: branch.channel_id,
        conclusion,
    }
}

impl Branch {
    /// Ends the branch with its conclusion. The branch is used up: it
    /// concludes once.
    pub fn conclude(self, conclusion: String) -> (event: ProcessEvent)
        ensures
            event@ == branch_result(self@, conclusion@),
    {
        ProcessEvent::BranchResult {
            agent_id: self.agent_id,
            branch_id: self.id,
            channel_id: self.channel_id,
            conclusion,
        }
    }
}

/// A worker, ready to run: a delegated task that ends in one result.
#[derive(Debug, PartialEq, Eq)]
pub struct Worker {
    pub id: WorkerId,
    pub agent_id: String,
    pub channel_id: Option<ChannelId>,
    pub task: String,
    pub system_prompt: String,
    pub interactive: bool,
}

/// Model of a [`Worker`].
pub struct WorkerView {
    pub id: WorkerId,
    pub agent_id: Seq<char>,
    pub channel_id: Option<Seq<char>>,
    pub task: Seq<char>,
    pub system_prompt: Seq<char>,
    pub interactive: bool,
}

impl View for Worker {
    type V = WorkerView;

    open spec fn view(&self) -> WorkerView {
        WorkerView {
            id: self.id,
            agent_id: self.agent_id@,
            channel_id: option_view(self.channel_id),
            task: self.task@,
            system_prompt: self.system_prompt@,
            interactive: self.interactive,
        }
    }
}

/// What a worker's run came to: its result, or the words of its failure.
pub open spec fn outcome_text(outcome: Result<String, String>) -> Seq<char> {
    match outcome {
        Ok(result) => result@,
        Err(error) => "Worker failed: "@ + error@,
    }
}

/// The event with which a worker ends.
pub open spec fn worker_complete(worker: WorkerView, result: Seq<char>) -> ProcessEventView {
    ProcessEventView::WorkerComplete {
        agent_id: worker.agent_id,
        worker_id: worker.id,
        channel_id: worker.channel_id,
        result,
        notify: true,
    }
}

impl Worker {
    /// Ends the worker. Whatever its run came to, the result is one
    /// completion event for this worker that asks to be notified: a failure
    /// is reported in the event's result. The worker is used up: it
    /// completes once.
    pub fn complete(self, outcome: Result<String, String>) -> (event: ProcessEvent)
        ensures
            event@ == worker_complete(self@, outcome_text(outcome)),
    {
        let result = match outcome {
            Ok(result) => result,
            Err(error) => {
                let mut text = String::from_str("Worker failed: ");
                text.append(error.as_str());
                text
            },
        };
        ProcessEvent::WorkerComplete {
            agent_id: self.agent_id,
            worker_id: self.id,
            channel_id: self.channel_id,
            result,
            notify: true,
        }
    }
}

} // verus!
