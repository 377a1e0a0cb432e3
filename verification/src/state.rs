//! The state that a channel shares with its tools, and the protocol by which
//! branches and workers are spawned and tracked.

use std::collections::HashMap;
use vstd::prelude::*;
use vstd::string::*;
use crate::error::AgentError;
use crate::event::{ProcessEvent, ProcessEventView};
use crate::ids::{fresh_id, is_random_uuid, BranchId, ChannelId, WorkerId};
use crate::message::{history_view, snapshot, Message, MessageView, Role};
use crate::process::{Branch, BranchHandle, BranchView, Worker, WorkerHandle, WorkerView};
use crate::status::{
    lemma_push_mentions, lemma_with_text_mentions, lemma_without_mentions, mentions, StatusBlock,
    StatusBlockView,
};

verus! {

/// Settings of a channel.
#[derive(Clone, Copy, Debug, PartialEq, Eq)]
pub struct ChannelConfig {
    /// How many branches may run at once.
    pub max_concurrent_branches: usize,
    /// How many rounds of tool calls one turn of the model may take.
    pub max_turns: usize,
}

impl ChannelConfig {
    /// Whether both limits are positive.
    pub open spec fn wf(&self) -> bool {
        self.max_concurrent_branches > 0 && self.max_turns > 0
    }

    /// Whether both limits are positive.
    pub fn is_valid(&self) -> (valid: bool)
        ensures
            valid == self.wf(),
    {
        self.max_concurrent_branches > 0 && self.max_turns > 0
    }
}

impl Default for ChannelConfig {
    /// Five branches at once and five rounds for each turn.
    fn default() -> (config: ChannelConfig)
        ensures
            config.max_concurrent_branches == 5,
            config.max_turns == 5,
            config.wf(),
    {
        ChannelConfig { max_concurrent_branches: 5, max_turns: 5 }
    }
}

/// The message with which the channel tells the model something.
pub open spec fn note(text: Seq<char>) -> MessageView {
    MessageView { role: Role::User, content: text }
}

/// The history entry for the conclusion of a branch.
pub open spec fn branch_note(conclusion: Seq<char>) -> MessageView {
    note("[Branch result]: "@ + conclusion)
}

/// The history entry for the result of a worker.
pub open spec fn worker_note(result: Seq<char>) -> MessageView {
    note("[Worker completed]: "@ + result)
}

/// Whether the channel is to wake up after the event and answer the user.
pub open spec fn retriggers(event: ProcessEventView) -> bool {
    match event {
        ProcessEventView::BranchResult { .. } => true,
        ProcessEventView::WorkerComplete { notify, .. } => notify,
        ProcessEventView::WorkerStatus { .. } => false,
    }
}

/// Whether `error` is the refusal that a branch meets at the limit of
/// `state`.
pub open spec fn refuses_branch(error: AgentError, state: ChannelStateView) -> bool {
    &&& error matches AgentError::BranchLimitReached { channel_id, max }
    &&& channel_id@ == state.channel_id
    &&& max == state.max_concurrent_branches
}

/// Model of a [`ChannelState`].
pub struct ChannelStateView {
    pub channel_id: Seq<char>,
    pub agent_id: Seq<char>,
    pub history: Seq<MessageView>,
    pub branches: Map<BranchId, BranchHandle>,
    pub workers: Map<WorkerId, WorkerHandle>,
    pub status: StatusBlockView,
    pub identity_context: Seq<char>,
    pub branch_system_prompt: Seq<char>,
    pub worker_system_prompt: Seq<char>,
    pub max_concurrent_branches: usize,
}

impl ChannelStateView {
    /// The invariant of a channel's state: no more branches run than the
    /// channel allows, and the status block shows exactly the branches and
    /// workers that are tracked.
    pub open spec fn wf(self) -> bool {
        &&& self.branches.dom().finite()
        &&& self.workers.dom().finite()
        &&& self.branches.len() <= self.max_concurrent_branches
        &&& forall|id: u128|
            #![trigger mentions(self.status.branches, id)]
            #![trigger self.branches.dom().contains(id)]
            mentions(self.status.branches, id) <==> self.branches.dom().contains(id)
        &&& forall|id: u128|
            #![trigger mentions(self.status.workers, id)]
            #![trigger self.workers.dom().contains(id)]
            mentions(self.status.workers, id) <==> self.workers.dom().contains(id)
    }

    /// The state of a channel that has not seen anything yet.
    pub open spec fn initial(
        channel_id: Seq<char>,
        agent_id: Seq<char>,
        identity_context: Seq<char>,
        branch_system_prompt: Seq<char>,
        worker_system_prompt: Seq<char>,
        max_concurrent_branches: usize,
    ) -> ChannelStateView {
        ChannelStateView {
            channel_id,
            agent_id,
            history: Seq::empty(),
            branches: Map::empty(),
            workers: Map::empty(),
            status: StatusBlockView::empty(),
            identity_context,
            branch_system_prompt,
            worker_system_prompt,
            max_concurrent_branches,
        }
    }

    /// Whether no further branch may be spawned.
    pub open spec fn at_branch_limit(self) -> bool {
        self.branches.len() >= self.max_concurrent_branches
    }

    /// The branch that a spawn under `id` launches.
    pub open spec fn branch(self, id: BranchId, description: Seq<char>) -> BranchView {
        BranchView {
            id,
            agent_id: self.agent_id,
            channel_id: self.channel_id,
            description,
            system_prompt: self.branch_system_prompt,
            history: self.history,
        }
    }

    /// The state after a branch was spawned under `id`.
    pub open spec fn spawn_branch(self, id: BranchId) -> ChannelStateView {
        ChannelStateView {
            branches: self.branches.insert(
                id,
                BranchHandle { history_len: self.history.len() as usize },
            ),
            status: self.status.add_branch(id, "thinking..."@),
            ..self
        }
    }

    /// The worker that a spawn under `id` launches.
    pub open spec fn worker(self, id: WorkerId, task: Seq<char>, interactive: bool) -> WorkerView {
        WorkerView {
            id,
            agent_id: self.agent_id,
            channel_id: Some(self.channel_id),
            task,
            system_prompt: self.worker_system_prompt,
            interactive,
        }
    }

    /// The state after a worker was spawned under `id`. The status block
    /// shows its task, and does not mark it as interactive.
    pub open spec fn spawn_worker(
        self,
        id: WorkerId,
        task: Seq<char>,
        interactive: bool,
    ) -> ChannelStateView {
        ChannelStateView {
            workers: self.workers.insert(id, WorkerHandle { interactive }),
            status: self.status.add_worker(id, task, false),
            ..self
        }
    }

    /// The state after an event. Every event updates the status block. The
    /// result of a branch ends its tracking and is noted in the history; the
    /// end of a worker ends its tracking, and is noted in the history where
    /// the event asks for it.
    pub open spec fn apply_event(self, event: ProcessEventView) -> ChannelStateView {
        let status = self.status.update(event);
        match event {
            ProcessEventView::BranchResult { branch_id, conclusion, .. } => ChannelStateView {
                status,
                branches: self.branches.remove(branch_id),
                history: self.history.push(branch_note(conclusion)),
                ..self
            },
            ProcessEventView::WorkerComplete { worker_id, result, notify, .. } => ChannelStateView {
                status,
                workers: self.workers.remove(worker_id),
                history: if notify {
                    self.history.push(worker_note(result))
                } else {
                    self.history
                },
                ..self
            },
            ProcessEventView::WorkerStatus { .. } => ChannelStateView { status, ..self },
        }
    }

    /// The state after the messages of a turn were added to the history.
    pub open spec fn extend_history(self, transcript: Seq<MessageView>) -> ChannelStateView {
        ChannelStateView { history: self.history + transcript, ..self }
    }
}

/// Spawning a branch below the limit keeps the state's invariant.
pub proof fn lemma_spawn_branch_wf(state: ChannelStateView, id: BranchId)
    requires
        state.wf(),
        !state.at_branch_limit(),
    ensures
        state.spawn_branch(id).wf(),
{
    let after = state.spawn_branch(id);
    assert forall|other: u128|
        mentions(after.status.branches, other) <==> after.branches.dom().contains(other) by {
        let cleared = crate::status::without(state.status.branches, id);
        lemma_without_mentions(state.status.branches, id, other);
        lemma_push_mentions(
            cleared,
            crate::status::StatusEntryView { id, text: "thinking..."@, interactive: false },
            other,
        );
    }
}

/// Spawning a worker keeps the state's invariant.
pub proof fn lemma_spawn_worker_wf(
    state: ChannelStateView,
    id: WorkerId,
    task: Seq<char>,
    interactive: bool,
)
    requires
        state.wf(),
    ensures
        state.spawn_worker(id, task, interactive).wf(),
{
    let after = state.spawn_worker(id, task, interactive);
    assert forall|other: u128|
        mentions(after.status.workers, other) <==> after.workers.dom().contains(other) by {
        let cleared = crate::status::without(state.status.workers, id);
        lemma_without_mentions(state.status.workers, id, other);
        lemma_push_mentions(
            cleared,
            crate::status::StatusEntryView { id, text: task, interactive: false },
            other,
        );
    }
}

/// Every event keeps the state's invariant.
pub proof fn lemma_apply_event_wf(state: ChannelStateView, event: ProcessEventView)
    requires
        state.wf(),
    ensures
        state.apply_event(event).wf(),
{
    let after = state.apply_event(event);
    match event {
        ProcessEventView::BranchResult { branch_id, .. } => {
            assert forall|other: u128|
                mentions(after.status.branches, other) <==> after.branches.dom().contains(
                    other,
                ) by {
                lemma_without_mentions(state.status.branches, branch_id, other);
            }
        },
        ProcessEventView::WorkerComplete { worker_id, .. } => {
            assert forall|other: u128|
                mentions(after.status.workers, other) <==> after.workers.dom().contains(
                    other,
                ) by {
                lemma_without_mentions(state.status.workers, worker_id, other);
            }
        },
        ProcessEventView::WorkerStatus { worker_id, status, .. } => {
            assert forall|other: u128|
                mentions(after.status.workers, other) <==> after.workers.dom().contains(
                    other,
                ) by {
                lemma_with_text_mentions(state.status.workers, worker_id, status, other);
            }
        },
    }
}

/// The state of one channel: its history, the branches and workers it
/// tracks, its status block, and what it needs to spawn further processes.
#[derive(Debug)]
pub struct ChannelState {
    channel_id: ChannelId,
    agent_id: String,
    history: Vec<Message>,
    active_branches: HashMap<BranchId, BranchHandle>,
    active_workers: HashMap<WorkerId, WorkerHandle>,
    status_block: StatusBlock,
    identity_context: String,
    branch_system_prompt: String,
    worker_system_prompt: String,
    max_concurrent_branches: usize,
}

impl View for ChannelState {
    type V = ChannelStateView;

    closed spec fn view(&self) -> ChannelStateView {
        ChannelStateView {
            channel_id: self.channel_id@,
            agent_id: self.agent_id@,
            history: history_view(self.history@),
            branches: self.active_branches@,
            workers: self.active_workers@,
            status: self.status_block@,
            identity_context: self.identity_context@,
            branch_system_prompt: self.branch_system_prompt@,
            worker_system_prompt: self.worker_system_prompt@,
            max_concurrent_branches: self.max_concurrent_branches,
        }
    }
}

impl ChannelState {
    /// The state of a channel that has not seen anything yet.
    pub fn new(
        channel_id: ChannelId,
        agent_id: String,
        identity_context: String,
        branch_system_prompt: String,
        worker_system_prompt: String,
        max_concurrent_branches: usize,
    ) -> (state: ChannelState)
        ensures
            state@ == ChannelStateView::initial(
                channel_id@,
                agent_id@,
                identity_context@,
                branch_system_prompt@,
                worker_system_prompt@,
                max_concurrent_branches,
            ),
            state@.wf(),
    {
        broadcast use vstd::std_specs::hash::group_hash_axioms;

        let state = ChannelState {
            channel_id,
            agent_id,
            history: Vec::new(),
            active_branches: HashMap::new(),
            active_workers: HashMap::new(),
            status_block: StatusBlock::new(),
            identity_context,
            branch_system_prompt,
            worker_system_prompt,
            max_concurrent_branches,
        };
        assert(history_view(state.history@) =~= Seq::empty());
        state
    }

    /// Spawns a branch under the given identifier, unless the channel
    /// already runs as many branches as it may. The branch gets a copy of
    /// the history as it stands; the channel tracks the branch and shows it
    /// as thinking. At the limit nothing changes. A branch already tracked
    /// under the identifier is replaced by the new one.
    pub fn register_branch(&mut self, id: BranchId, description: String) -> (spawned: Result<
        Branch,
        AgentError,
    >)
        requires
            old(self)@.wf(),
        ensures
            final(self)@.wf(),
            (match spawned {
                Ok(branch) => {
                    &&& !old(self)@.at_branch_limit()
                    &&& branch@ == old(self)@.branch(id, description@)
                    &&& final(self)@ == old(self)@.spawn_branch(id)
                },
                Err(error) => {
                    &&& old(self)@.at_branch_limit()
                    &&& refuses_branch(error, old(self)@)
                    &&& final(self)@ == old(self)@
                },
            }),
    {
        broadcast use vstd::std_specs::hash::group_hash_axioms;

        if self.at_branch_limit() {
            return Err(self.branch_limit_error());
        }
        let history = snapshot(&self.history);
        let branch = Branch {
            id,
            agent_id: self.agent_id.clone(),
            channel_id: self.channel_id.clone(),
            description,
            system_prompt: self.branch_system_prompt.clone(),
            history,
        };
        self.active_branches.insert(id, BranchHandle { history_len: self.history.len() });
        self.status_block.add_branch(id, "thinking...");
        proof {
            lemma_spawn_branch_wf(old(self)@, id);
        }
        Ok(branch)
    }

    /// Spawns a worker under the given identifier. The channel tracks the
    /// worker and shows its task.
    pub fn register_worker(&mut self, id: WorkerId, task: String, interactive: bool) -> (worker:
        Worker)
        requires
            old(self)@.wf(),
        ensures
            final(self)@.wf(),
            final(self)@ == old(self)@.spawn_worker(id, task@, interactive),
            worker@ == old(self)@.worker(id, task@, interactive),
    {
        broadcast use vstd::std_specs::hash::group_hash_axioms;

        self.active_workers.insert(id, WorkerHandle { interactive });
        self.status_block.add_worker(id, task.as_str(), false);
        proof {
            lemma_spawn_worker_wf(old(self)@, id, task@, interactive);
        }
        Worker {
            id,
            agent_id: self.agent_id.clone(),
            channel_id: Some(self.channel_id.clone()),
            task,
            system_prompt: self.worker_system_prompt.clone(),
            interactive,
        }
    }

    /// Takes in an event of the bus, and says whether the channel is to
    /// wake up and answer the user.
    pub fn apply_event(&mut self, event: &ProcessEvent) -> (retrigger: bool)
        requires
            old(self)@.wf(),
        ensures
            final(self)@.wf(),
            final(self)@ == old(self)@.apply_event(event@),
            retrigger == retriggers(event@),
    {
        broadcast use vstd::std_specs::hash::group_hash_axioms;

        self.status_block.update(event);
        let ghost before = self.history@;
        let mut retrigger = false;
        match event {
            ProcessEvent::BranchResult { branch_id, conclusion, .. } => {
                self.active_branches.remove(branch_id);
                let mut text = String::from_str("[Branch result]: ");
                text.append(conclusion.as_str());
                self.history.push(Message::user(text));
                assert(history_view(self.history@) == history_view(before).push(
                    branch_note(conclusion@),
                ));
                retrigger = true;
            },
            ProcessEvent::WorkerComplete { worker_id, result, notify, .. } => {
                self.active_workers.remove(worker_id);
                if *notify {
                    let mut text = String::from_str("[Worker completed]: ");
                    text.append(result.as_str());
                    self.history.push(Message::user(text));
                    assert(history_view(self.history@) == history_view(before).push(
                        worker_note(result@),
                    ));
                    retrigger = true;
                }
            },
            ProcessEvent::WorkerStatus { .. } => {},
        }
        proof {
            lemma_apply_event_wf(old(self)@, event@);
        }
        retrigger
    }

    /// Adds the messages of a turn to the end of the history.
    pub fn extend_history(&mut self, transcript: Vec<Message>)
        requires
            old(self)@.wf(),
        ensures
            final(self)@.wf(),
            final(self)@ == old(self)@.extend_history(history_view(transcript@)),
    {
        let ghost before = self.history@;
        let mut transcript = transcript;
        let ghost added = transcript@;
        self.history.append(&mut transcript);
        assert(history_view(self.history@) == history_view(before) + history_view(added));
    }

    /// Whether no further branch may be spawned.
    pub fn at_branch_limit(&self) -> (full: bool)
        ensures
            full == self@.at_branch_limit(),
    {
        broadcast use vstd::std_specs::hash::group_hash_axioms;

        self.active_branches.len() >= self.max_concurrent_branches
    }

    /// The refusal that a spawn at the branch limit meets.
    pub fn branch_limit_error(&self) -> (error: AgentError)
        ensures
            refuses_branch(error, self@),
    {
        AgentError::BranchLimitReached {
            channel_id: self.channel_id.clone(),
            max: self.max_concurrent_branches,
        }
    }

    /// Name of the channel.
    pub fn channel_id(&self) -> (id: &String)
        ensures
            id@ == self@.channel_id,
    {
        &self.channel_id
    }

    /// Name of the agent that the channel belongs to.
    pub fn agent_id(&self) -> (id: &String)
        ensures
            id@ == self@.agent_id,
    {
        &self.agent_id
    }

    /// The conversation so far.
    pub fn history(&self) -> (history: &Vec<Message>)
        ensures
            history_view(history@) == self@.history,
    {
        &self.history
    }

    /// The status block.
    pub fn status_block(&self) -> (block: &StatusBlock)
        ensures
            block@ == self@.status,
    {
        &self.status_block
    }

    /// What the agent says of itself, put before every system prompt.
    pub fn identity_context(&self) -> (text: &String)
        ensures
            text@ == self@.identity_context,
    {
        &self.identity_context
    }

    /// How many branches may run at once.
    pub fn max_concurrent_branches(&self) -> (max: usize)
        ensures
            max == self@.max_concurrent_branches,
    {
        self.max_concurrent_branches
    }

    /// How many branches run.
    pub fn branch_count(&self) -> (count: usize)
        ensures
            count == self@.branches.len(),
    {
        broadcast use vstd::std_specs::hash::group_hash_axioms;

        self.active_branches.len()
    }

    /// How many workers run.
    pub fn worker_count(&self) -> (count: usize)
        ensures
            count == self@.workers.len(),
    {
        broadcast use vstd::std_specs::hash::group_hash_axioms;

        self.active_workers.len()
    }

    /// Whether the branch is tracked.
    pub fn has_branch(&self, id: BranchId) -> (present: bool)
        ensures
            present == self@.branches.contains_key(id),
    {
        broadcast use vstd::std_specs::hash::group_hash_axioms;

        self.active_branches.contains_key(&id)
    }

    /// What the channel keeps of a branch, if it tracks the branch.
    pub fn branch_handle(&self, id: BranchId) -> (handle: Option<BranchHandle>)
        ensures
            handle == if self@.branches.contains_key(id) {
                Some(self@.branches[id])
            } else {
                None
            },
    {
        broadcast use vstd::std_specs::hash::group_hash_axioms;

        match self.active_branches.get(&id) {
            Some(handle) => Some(*handle),
            None => None,
        }
    }

    /// What the channel keeps of a worker, if it tracks the worker.
    pub fn worker_handle(&self, id: WorkerId) -> (handle: Option<WorkerHandle>)
        ensures
            handle == if self@.workers.contains_key(id) {
                Some(self@.workers[id])
            } else {
                None
            },
    {
        broadcast use vstd::std_specs::hash::group_hash_axioms;

        match self.active_workers.get(&id) {
            Some(handle) => Some(*handle),
            None => None,
        }
    }

    /// Whether the worker is tracked.
    pub fn has_worker(&self, id: WorkerId) -> (present: bool)
        ensures
            present == self@.workers.contains_key(id),
    {
        broadcast use vstd::std_specs::hash::group_hash_axioms;

        self.active_workers.contains_key(&id)
    }
}

/// Spawns a branch of the channel under a fresh identifier. At the branch
/// limit the call fails and leaves the state as it was. Below it, the state
/// changes as for a spawn under the identifier of the branch that comes
/// back, which is that of a random UUID.
pub fn spawn_branch_from_state(state: &mut ChannelState, description: String) -> (spawned: Result<
    Branch,
    AgentError,
>)
    requires
        old(state)@.wf(),
    ensures
        final(state)@.wf(),
        (match spawned {
            Ok(branch) => {
                &&& !old(state)@.at_branch_limit()
                &&& is_random_uuid(branch.id)
                &&& branch@ == old(state)@.branch(branch.id, description@)
                &&& final(state)@ == old(state)@.spawn_branch(branch.id)
            },
            Err(error) => {
                &&& old(state)@.at_branch_limit()
                &&& refuses_branch(error, old(state)@)
                &&& final(state)@ == old(state)@
            },
        }),
{
    if state.at_branch_limit() {
        return Err(state.branch_limit_error());
    }
    let id = fresh_id();
    state.register_branch(id, description)
}

/// Spawns a worker of the channel under a fresh identifier. The call always
/// succeeds: the state changes as for a spawn under the identifier of the
/// worker that comes back, which is that of a random UUID.
pub fn spawn_worker_from_state(
    state: &mut ChannelState,
    task: String,
    interactive: bool,
) -> (spawned: Result<Worker, AgentError>)
    requires
        old(state)@.wf(),
    ensures
        final(state)@.wf(),
        (match spawned {
            Ok(worker) => {
                &&& is_random_uuid(worker.id)
                &&& worker@ == old(state)@.worker(worker.id, task@, interactive)
                &&& final(state)@ == old(state)@.spawn_worker(worker.id, task@, interactive)
            },
            Err(_) => false,
        }),
{
    let id = fresh_id();
    Ok(state.register_worker(id, task, interactive))
}

} // verus!
