//! What holds of a channel whatever happens to it: the branch limit, the
//! growth of the history, and the effect of each kind of event.

use vstd::prelude::*;
use crate::channel::ChannelView;
use crate::error::CompletionError;
use crate::event::ProcessEventView;
use crate::ids::{BranchId, WorkerId};
use crate::message::{InboundMessageView, MessageView};
use crate::process::{branch_result, outcome_text, worker_complete};
use crate::state::{
    branch_note, lemma_apply_event_wf, lemma_spawn_branch_wf, lemma_spawn_worker_wf, retriggers,
    worker_note, ChannelConfig, ChannelStateView,
};
use crate::status::{lemma_render_empty_iff_idle, lemma_without_mentions, mentions};

verus! {

/// One thing that can happen to a channel.
pub enum Step {
    /// A message arrives.
    Message { message: InboundMessageView },
    /// A turn ends and leaves its messages.
    TurnDone { transcript: Seq<MessageView> },
    /// An event arrives from the bus.
    Event { event: ProcessEventView },
    /// A tool asks for a branch, which would run under `branch_id`.
    SpawnBranch { branch_id: BranchId },
    /// A tool asks for a worker, which runs under `worker_id`.
    SpawnWorker { worker_id: WorkerId, task: Seq<char>, interactive: bool },
}

/// The channel after one step. A branch asked for at the limit is refused
/// and changes nothing.
pub open spec fn after_step(channel: ChannelView, step: Step) -> ChannelView {
    match step {
        Step::Message { message } => channel.receive(message),
        Step::TurnDone { transcript } => channel.complete_turn(transcript),
        Step::Event { event } => channel.apply_event(event),
        Step::SpawnBranch { branch_id } => if channel.state.at_branch_limit() {
            channel
        } else {
            ChannelView { state: channel.state.spawn_branch(branch_id), ..channel }
        },
        Step::SpawnWorker { worker_id, task, interactive } => ChannelView {
            state: channel.state.spawn_worker(worker_id, task, interactive),
            ..channel
        },
    }
}

/// The channel after a series of steps.
pub open spec fn after_steps(channel: ChannelView, steps: Seq<Step>) -> ChannelView
    decreases steps.len(),
{
    if steps.len() == 0 {
        channel
    } else {
        after_step(after_steps(channel, steps.drop_last()), steps.last())
    }
}

/// No step breaks the invariant of a channel, and none lets more branches
/// run than the channel allows.
pub proof fn lemma_step_keeps_invariant(channel: ChannelView, step: Step)
    requires
        channel.wf(),
    ensures
        after_step(channel, step).wf(),
        after_step(channel, step).state.branches.len() <= channel.config.max_concurrent_branches,
        after_step(channel, step).config == channel.config,
{
    match step {
        Step::Message { .. } => {},
        Step::TurnDone { .. } => {},
        Step::Event { event } => {
            lemma_apply_event_wf(channel.state, event);
        },
        Step::SpawnBranch { branch_id } => {
            if !channel.state.at_branch_limit() {
                lemma_spawn_branch_wf(channel.state, branch_id);
            }
        },
        Step::SpawnWorker { worker_id, task, interactive } => {
            lemma_spawn_worker_wf(channel.state, worker_id, task, interactive);
        },
    }
}

/// No series of steps breaks the invariant of a channel.
pub proof fn lemma_steps_keep_invariant(channel: ChannelView, steps: Seq<Step>)
    requires
        channel.wf(),
    ensures
        after_steps(channel, steps).wf(),
        after_steps(channel, steps).config == channel.config,
    decreases steps.len(),
{
    if steps.len() > 0 {
        lemma_steps_keep_invariant(channel, steps.drop_last());
        lemma_step_keeps_invariant(after_steps(channel, steps.drop_last()), steps.last());
    }
}

/// Whatever happens to a channel from its creation on, it never runs more
/// branches than its settings allow.
pub proof fn lemma_branch_limit_never_exceeded(
    id: Seq<char>,
    agent_id: Seq<char>,
    config: ChannelConfig,
    system_prompt: Seq<char>,
    identity_context: Seq<char>,
    branch_system_prompt: Seq<char>,
    worker_system_prompt: Seq<char>,
    steps: Seq<Step>,
)
    ensures
        after_steps(
            ChannelView::initial(
                id,
                agent_id,
                config,
                system_prompt,
                identity_context,
                branch_system_prompt,
                worker_system_prompt,
            ),
            steps,
        ).state.branches.len() <= config.max_concurrent_branches,
{
    let start = ChannelView::initial(
        id,
        agent_id,
        config,
        system_prompt,
        identity_context,
        branch_system_prompt,
        worker_system_prompt,
    );
    assert(start.wf()) by {
        assert forall|other: u128| !mentions(start.state.status.branches, other) by {}
        assert forall|other: u128| !mentions(start.state.status.workers, other) by {}
    }
    lemma_steps_keep_invariant(start, steps);
}

/// A branch asked for at the limit leaves the channel as it was.
pub proof fn lemma_spawn_at_limit_changes_nothing(channel: ChannelView, branch_id: BranchId)
    requires
        channel.state.at_branch_limit(),
    ensures
        after_step(channel, Step::SpawnBranch { branch_id }) == channel,
{
}

/// No step takes a message out of the history or changes one: the history
/// before the step is a prefix of the history after it.
pub proof fn lemma_step_extends_history(channel: ChannelView, step: Step)
    ensures
        channel.state.history.is_prefix_of(after_step(channel, step).state.history),
{
    let before = channel.state.history;
    let after = after_step(channel, step).state.history;
    assert(before =~= after.subrange(0, before.len() as int));
}

/// The history before a series of steps is a prefix of the history after it.
/// A turn is such a series: the message that starts it, the branches and
/// workers spawned while it runs, and its end.
pub proof fn lemma_steps_extend_history(channel: ChannelView, steps: Seq<Step>)
    ensures
        channel.state.history.is_prefix_of(after_steps(channel, steps).state.history),
    decreases steps.len(),
{
    let before = channel.state.history;
    if steps.len() == 0 {
        assert(before =~= before.subrange(0, before.len() as int));
    } else {
        let middle = after_steps(channel, steps.drop_last());
        lemma_steps_extend_history(channel, steps.drop_last());
        lemma_step_extends_history(middle, steps.last());
        let after = after_step(middle, steps.last()).state.history;
        assert(before =~= after.subrange(0, before.len() as int));
    }
}

/// The history after a turn is the history before it followed by the
/// messages of the turn.
pub proof fn lemma_turn_appends_transcript(
    channel: ChannelView,
    message: InboundMessageView,
    transcript: Seq<MessageView>,
)
    ensures
        channel.receive(message).complete_turn(transcript).state.history
            == channel.state.history + transcript,
        channel.state.history.is_prefix_of(
            channel.receive(message).complete_turn(transcript).state.history,
        ),
{
    let before = channel.state.history;
    let after = before + transcript;
    assert(before =~= after.subrange(0, before.len() as int));
}

/// The result of a branch ends the tracking of the branch, clears its status
/// entry, adds one entry to the history, which is the conclusion behind
/// `[Branch result]: `, and asks the channel to wake up.
pub proof fn lemma_branch_result_is_merged(
    state: ChannelStateView,
    agent_id: Seq<char>,
    branch_id: BranchId,
    channel_id: Seq<char>,
    conclusion: Seq<char>,
)
    ensures
        ({
            let event = ProcessEventView::BranchResult {
                agent_id,
                branch_id,
                channel_id,
                conclusion,
            };
            let after = state.apply_event(event);
            &&& !after.branches.contains_key(branch_id)
            &&& !mentions(after.status.branches, branch_id)
            &&& after.history == state.history.push(branch_note(conclusion))
            &&& after.history.last().content == "[Branch result]: "@ + conclusion
            &&& "[Branch result]: "@.is_prefix_of(after.history.last().content)
            &&& after.workers == state.workers
            &&& retriggers(event)
        }),
{
    lemma_without_mentions(state.status.branches, branch_id, branch_id);
    let head = "[Branch result]: "@;
    assert(head =~= (head + conclusion).subrange(0, head.len() as int));
}

/// The end of a worker that asks to be notified ends the tracking of the
/// worker, clears its status entry, adds one entry to the history, which is
/// the result behind `[Worker completed]: `, and asks the channel to wake up.
pub proof fn lemma_worker_result_is_merged(
    state: ChannelStateView,
    agent_id: Seq<char>,
    worker_id: WorkerId,
    channel_id: Option<Seq<char>>,
    result: Seq<char>,
)
    ensures
        ({
            let event = ProcessEventView::WorkerComplete {
                agent_id,
                worker_id,
                channel_id,
                result,
                notify: true,
            };
            let after = state.apply_event(event);
            &&& !after.workers.contains_key(worker_id)
            &&& !mentions(after.status.workers, worker_id)
            &&& after.history == state.history.push(worker_note(result))
            &&& after.history.last().content == "[Worker completed]: "@ + result
            &&& "[Worker completed]: "@.is_prefix_of(after.history.last().content)
            &&& after.branches == state.branches
            &&& retriggers(event)
        }),
{
    lemma_without_mentions(state.status.workers, worker_id, worker_id);
    let head = "[Worker completed]: "@;
    assert(head =~= (head + result).subrange(0, head.len() as int));
}

/// The end of a worker that does not ask to be notified ends the tracking of
/// the worker and clears its status entry, but leaves the history as it was
/// and does not wake the channel.
pub proof fn lemma_silent_completion_leaves_history(
    channel: ChannelView,
    agent_id: Seq<char>,
    worker_id: WorkerId,
    channel_id: Option<Seq<char>>,
    result: Seq<char>,
)
    ensures
        ({
            let event = ProcessEventView::WorkerComplete {
                agent_id,
                worker_id,
                channel_id,
                result,
                notify: false,
            };
            let after = channel.apply_event(event);
            &&& !after.state.workers.contains_key(worker_id)
            &&& !mentions(after.state.status.workers, worker_id)
            &&& after.state.history == channel.state.history
            &&& !retriggers(event)
            &&& !channel.wakes(event)
        }),
{
    lemma_without_mentions(channel.state.status.workers, worker_id, worker_id);
}

/// However the run of a spawned worker ends, the one event that it ends in
/// is a completion that asks to be notified, and that event reaps the worker:
/// the channel tracks what it tracked before the spawn, less the worker, and
/// the history gains the note of the result, which for a failed run holds
/// the words of the failure.
pub proof fn lemma_worker_is_reaped_by_its_completion(
    state: ChannelStateView,
    id: WorkerId,
    task: Seq<char>,
    interactive: bool,
    outcome: Result<String, String>,
)
    ensures
        ({
            let worker = state.worker(id, task, interactive);
            let event = worker_complete(worker, outcome_text(outcome));
            let after = state.spawn_worker(id, task, interactive).apply_event(event);
            &&& event matches ProcessEventView::WorkerComplete { worker_id, notify, .. }
            &&& worker_id == id
            &&& notify
            &&& retriggers(event)
            &&& after.workers == state.workers.remove(id)
            &&& after.branches == state.branches
            &&& after.history == state.history.push(worker_note(outcome_text(outcome)))
        }),
{
    let after = state.spawn_worker(id, task, interactive).apply_event(
        worker_complete(state.worker(id, task, interactive), outcome_text(outcome)),
    );
    assert(after.workers =~= state.workers.remove(id));
}

/// The result of a spawned branch reaps the branch: the channel tracks what
/// it tracked before the spawn, less the branch, and the history gains the
/// note of the conclusion.
pub proof fn lemma_branch_is_reaped_by_its_result(
    state: ChannelStateView,
    id: BranchId,
    description: Seq<char>,
    conclusion: Seq<char>,
)
    ensures
        ({
            let event = branch_result(state.branch(id, description), conclusion);
            let after = state.spawn_branch(id).apply_event(event);
            &&& retriggers(event)
            &&& after.branches == state.branches.remove(id)
            &&& after.workers == state.workers
            &&& after.history == state.history.push(branch_note(conclusion))
        }),
{
    let after = state.spawn_branch(id).apply_event(
        branch_result(state.branch(id, description), conclusion),
    );
    assert(after.branches =~= state.branches.remove(id));
}

/// A turn that succeeded with text replies with exactly that text.
pub proof fn lemma_answer_is_sent_as_it_is(text: String)
    requires
        text@.len() > 0,
    ensures
        crate::channel::turn_reply(Ok(text)) == Some(
            crate::message::OutboundResponseView::Text(text@),
        ),
{
}

/// A turn that ran out of turns, like every failed turn, has no reply.
pub proof fn lemma_failed_turn_has_no_reply(error: CompletionError)
    ensures
        crate::channel::turn_reply(Err(error)) is None,
        crate::channel::turn_reply(Err(CompletionError::MaxTurns)) is None,
{
}

/// The system prompt without a status section.
pub open spec fn prompt_without_status(
    identity: Seq<char>,
    base: Seq<char>,
    context: Option<Seq<char>>,
) -> Seq<char> {
    let head = if identity.len() > 0 {
        identity + "\n\n"@
    } else {
        Seq::empty()
    };
    let middle = match context {
        Some(c) => "\n\n## Conversation Context\n\n"@ + c,
        None => Seq::empty(),
    };
    head + base + middle
}

/// While no branch and no worker is tracked, the status summary is empty and
/// the system prompt has no status section.
pub proof fn lemma_idle_prompt_has_no_status_section(channel: ChannelView)
    requires
        channel.wf(),
        channel.state.branches.len() == 0,
        channel.state.workers.len() == 0,
    ensures
        channel.state.status.is_idle(),
        channel.state.status.render().len() == 0,
        channel.system_prompt_now() == prompt_without_status(
            channel.state.identity_context,
            channel.system_prompt,
            channel.conversation_context,
        ),
{
    let status = channel.state.status;
    if status.branches.len() > 0 {
        assert(mentions(status.branches, status.branches[0].id));
        assert(channel.state.branches.dom().contains(status.branches[0].id));
    }
    if status.workers.len() > 0 {
        assert(mentions(status.workers, status.workers[0].id));
        assert(channel.state.workers.dom().contains(status.workers[0].id));
    }
    lemma_render_empty_iff_idle(status);
    let short = prompt_without_status(
        channel.state.identity_context,
        channel.system_prompt,
        channel.conversation_context,
    );
    assert(short + Seq::<char>::empty() =~= short);
}

/// While a branch or a worker is tracked, the system prompt ends with the
/// status section.
pub proof fn lemma_busy_prompt_has_status_section(channel: ChannelView)
    requires
        channel.wf(),
        channel.state.branches.len() > 0 || channel.state.workers.len() > 0,
    ensures
        !channel.state.status.is_idle(),
        channel.system_prompt_now() == prompt_without_status(
            channel.state.identity_context,
            channel.system_prompt,
            channel.conversation_context,
        ) + "\n\n## Current Status\n\n"@ + channel.state.status.render(),
{
    let state = channel.state;
    if state.branches.len() > 0 {
        vstd::set_lib::lemma_set_empty_equivalency_len(state.branches.dom());
        let id = choose|id: u128| state.branches.dom().contains(id);
        assert(mentions(state.status.branches, id));
    } else {
        vstd::set_lib::lemma_set_empty_equivalency_len(state.workers.dom());
        let id = choose|id: u128| state.workers.dom().contains(id);
        assert(mentions(state.status.workers, id));
    }
    lemma_render_empty_iff_idle(state.status);
    let short = prompt_without_status(
        state.identity_context,
        channel.system_prompt,
        channel.conversation_context,
    );
    assert(channel.system_prompt_now() =~= short + "\n\n## Current Status\n\n"@
        + state.status.render());
}

} // verus!
