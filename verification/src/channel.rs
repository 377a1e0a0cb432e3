//! The channel: one conversation with its users, driven turn by turn and
//! woken by the results of the processes it has spawned.

use vstd::prelude::*;
use vstd::string::*;
use crate::error::{AgentError, CompletionError};
use crate::event::{ProcessEvent, ProcessEventView};
use crate::format::{
    attributed_text, build_conversation_context, build_system_prompt, conversation_context,
    format_user_message, system_prompt_text,
};
use crate::ids::{fresh_id, id_text, is_random_uuid, render_id, ChannelId, ProcessId};
use crate::message::{
    content_text, current_time, history_view, option_view, InboundMessage, InboundMessageView,
    Message, MessageContent, MessageContentView, MessageView, Metadata, OutboundResponse,
    OutboundResponseView, StatusUpdate, Timestamp,
};
use crate::process::{Branch, Worker};
use crate::state::{
    refuses_branch, retriggers, spawn_branch_from_state, spawn_worker_from_state, ChannelConfig,
    ChannelState, ChannelStateView,
};

verus! {

/// What the completion agent is to be run with for one turn.
#[derive(Clone, Debug, PartialEq, Eq)]
pub struct TurnPlan {
    /// The conversation that the turn's tools answer to.
    pub conversation_id: String,
    /// The system prompt of the turn.
    pub system_prompt: String,
    /// The user's words, attributed to their sender.
    pub user_text: String,
    /// How many rounds of tool calls the turn may take.
    pub max_turns: usize,
    /// What to show the user while the model works.
    pub status: StatusUpdate,
}

/// Model of a [`TurnPlan`].
pub struct TurnPlanView {
    pub conversation_id: Seq<char>,
    pub system_prompt: Seq<char>,
    pub user_text: Seq<char>,
    pub max_turns: usize,
    pub status: StatusUpdate,
}

impl View for TurnPlan {
    type V = TurnPlanView;

    open spec fn view(&self) -> TurnPlanView {
        TurnPlanView {
            conversation_id: self.conversation_id@,
            system_prompt: self.system_prompt@,
            user_text: self.user_text@,
            max_turns: self.max_turns,
            status: self.status,
        }
    }
}

/// The reply for a text that the model gave without calling the reply tool:
/// the text itself, or nothing where it is empty.
pub open spec fn reply_for(answer: Seq<char>) -> Option<OutboundResponseView> {
    if answer.len() > 0 {
        Some(OutboundResponseView::Text(answer))
    } else {
        None
    }
}

/// Model of an optional response.
pub open spec fn response_view(response: Option<OutboundResponse>) -> Option<
    OutboundResponseView,
> {
    match response {
        Some(r) => Some(r@),
        None => None,
    }
}

/// The reply that ends a turn: a successful completion replies with its
/// text, as it is, unless that is empty; a failed one does not reply.
pub open spec fn turn_reply(outcome: Result<String, CompletionError>) -> Option<
    OutboundResponseView,
> {
    match outcome {
        Ok(text) => reply_for(text@),
        Err(_) => None,
    }
}

/// Turns the text of a completion into the reply to send, if any.
pub fn fallback_reply(answer: String) -> (response: Option<OutboundResponse>)
    ensures
        response_view(response) == reply_for(answer@),
{
    if answer.as_str().is_empty() {
        None
    } else {
        Some(OutboundResponse::Text(answer))
    }
}

/// The words with which a channel wakes itself.
pub open spec fn retrigger_text() -> Seq<char> {
    "[System: a background process has completed. Check your history and status block for the result, then respond to the user.]"@
}

/// The message with which a channel wakes itself after a process has
/// completed.
pub open spec fn retrigger_view(
    conversation_id: Seq<char>,
    message_id: Seq<char>,
    now: Timestamp,
) -> InboundMessageView {
    InboundMessageView {
        id: message_id,
        source: "system"@,
        conversation_id,
        sender_id: "system"@,
        agent_id: None,
        content: MessageContentView::Text(retrigger_text()),
        timestamp: now,
        metadata: Map::empty(),
    }
}

/// Whether `message` is one with which a channel wakes itself in the given
/// conversation: all of it is fixed but its identifier and its time.
pub open spec fn is_retrigger(message: InboundMessage, conversation_id: Seq<char>) -> bool {
    message@ == retrigger_view(conversation_id, message.id@, message.timestamp)
}

/// Builds the message with which a channel wakes itself.
pub fn retrigger_message(conversation_id: &str, message_id: String, now: Timestamp) -> (message:
    InboundMessage)
    ensures
        message@ == retrigger_view(conversation_id@, message_id@, now),
{
    InboundMessage {
        id: message_id,
        source: String::from_str("system"),
        conversation_id: String::from_str(conversation_id),
        sender_id: String::from_str("system"),
        agent_id: None,
        content: MessageContent::Text(
            String::from_str(
                "[System: a background process has completed. Check your history and status block for the result, then respond to the user.]",
            ),
        ),
        timestamp: now,
        metadata: Metadata::new(),
    }
}

/// What the channel's loop has found on its two sources.
#[derive(Debug)]
pub enum ChannelInput {
    /// A message from the inbound queue.
    Message(InboundMessage),
    /// An event from the bus.
    Event(ProcessEvent),
    /// Both sources are closed for good.
    Closed,
}

/// What the channel's loop is to do next.
#[derive(Debug)]
pub enum ChannelAction {
    /// Run the completion agent as planned, then end the turn.
    Turn(TurnPlan),
    /// Put the message into the channel's own queue, if there is room.
    Wake(InboundMessage),
    /// Nothing to do; wait for the next input.
    Wait,
    /// Leave the loop.
    Stop,
}

/// Model of a [`Channel`].
pub struct ChannelView {
    pub id: Seq<char>,
    pub title: Option<Seq<char>>,
    pub config: ChannelConfig,
    pub state: ChannelStateView,
    pub system_prompt: Seq<char>,
    pub conversation_id: Option<Seq<char>>,
    pub conversation_context: Option<Seq<char>>,
}

impl ChannelView {
    /// The invariant of a channel: its state is sound and agrees with the
    /// channel's name and settings, and the conversation's context is known
    /// as soon as the conversation is.
    pub open spec fn wf(self) -> bool {
        &&& self.state.wf()
        &&& self.state.channel_id == self.id
        &&& self.state.max_concurrent_branches == self.config.max_concurrent_branches
        &&& self.conversation_id is Some ==> self.conversation_context is Some
    }

    /// A channel that has not seen anything yet.
    pub open spec fn initial(
        id: Seq<char>,
        agent_id: Seq<char>,
        config: ChannelConfig,
        system_prompt: Seq<char>,
        identity_context: Seq<char>,
        branch_system_prompt: Seq<char>,
        worker_system_prompt: Seq<char>,
    ) -> ChannelView {
        ChannelView {
            id,
            title: None,
            config,
            state: ChannelStateView::initial(
                id,
                agent_id,
                identity_context,
                branch_system_prompt,
                worker_system_prompt,
                config.max_concurrent_branches,
            ),
            system_prompt,
            conversation_id: None,
            conversation_context: None,
        }
    }

    /// The channel after a message has arrived: the first message fixes the
    /// conversation and its context, later ones change nothing.
    pub open spec fn receive(self, message: InboundMessageView) -> ChannelView {
        ChannelView {
            conversation_id: match self.conversation_id {
                Some(id) => Some(id),
                None => Some(message.conversation_id),
            },
            conversation_context: match self.conversation_context {
                Some(context) => Some(context),
                None => Some(conversation_context(message.source, message.metadata)),
            },
            ..self
        }
    }

    /// The system prompt of a turn that starts now.
    pub open spec fn system_prompt_now(self) -> Seq<char> {
        system_prompt_text(
            self.state.identity_context,
            self.system_prompt,
            self.conversation_context,
            self.state.status.render(),
        )
    }

    /// The plan of the turn that answers `message`, for a channel that has
    /// received it.
    pub open spec fn turn_plan(self, message: InboundMessageView) -> TurnPlanView {
        TurnPlanView {
            conversation_id: message.conversation_id,
            system_prompt: self.system_prompt_now(),
            user_text: attributed_text(
                content_text(message.content),
                message.source,
                message.sender_id,
                message.metadata,
            ),
            max_turns: self.config.max_turns,
            status: StatusUpdate::Thinking,
        }
    }

    /// The channel after a turn has added its messages to the history.
    pub open spec fn complete_turn(self, transcript: Seq<MessageView>) -> ChannelView {
        ChannelView { state: self.state.extend_history(transcript), ..self }
    }

    /// The channel after an event.
    pub open spec fn apply_event(self, event: ProcessEventView) -> ChannelView {
        ChannelView { state: self.state.apply_event(event), ..self }
    }

    /// Whether the channel wakes itself after the event: the event asks for
    /// it and the conversation is known.
    pub open spec fn wakes(self, event: ProcessEventView) -> bool {
        retriggers(event) && self.conversation_id is Some
    }
}

/// One conversation with its users.
#[derive(Debug)]
pub struct Channel {
    id: ChannelId,
    title: Option<String>,
    config: ChannelConfig,
    state: ChannelState,
    system_prompt: String,
    conversation_id: Option<String>,
    conversation_context: Option<String>,
}

impl View for Channel {
    type V = ChannelView;

    closed spec fn view(&self) -> ChannelView {
        ChannelView {
            id: self.id@,
            title: option_view(self.title),
            config: self.config,
            state: self.state@,
            system_prompt: self.system_prompt@,
            conversation_id: option_view(self.conversation_id),
            conversation_context: option_view(self.conversation_context),
        }
    }
}

impl Channel {
    /// Creates a channel that has not seen anything yet.
    pub fn new(
        id: ChannelId,
        agent_id: String,
        config: ChannelConfig,
        system_prompt: String,
        identity_context: String,
        branch_system_prompt: String,
        worker_system_prompt: String,
    ) -> (channel: Channel)
        ensures
            channel@ == ChannelView::initial(
                id@,
                agent_id@,
                config,
                system_prompt@,
                identity_context@,
                branch_system_prompt@,
                worker_system_prompt@,
            ),
            channel@.wf(),
    {
        let state = ChannelState::new(
            id.clone(),
            agent_id,
            identity_context,
            branch_system_prompt,
            worker_system_prompt,
            config.max_concurrent_branches,
        );
        Channel {
            id,
            title: None,
            config,
            state,
            system_prompt,
            conversation_id: None,
            conversation_context: None,
        }
    }

    /// Takes in a message and plans the turn that answers it. The first
    /// message fixes the conversation and its context. The plan holds the
    /// system prompt, made of the identity context, the channel's prompt,
    /// the conversation context and the status summary, and the user's
    /// words with their sender's name before them.
    pub fn handle_message(&mut self, message: InboundMessage) -> (plan: TurnPlan)
        requires
            old(self)@.wf(),
        ensures
            final(self)@.wf(),
            final(self)@ == old(self)@.receive(message@),
            plan@ == final(self)@.turn_plan(message@),
    {
        if self.conversation_id.is_none() {
            self.conversation_id = Some(message.conversation_id.clone());
        }
        let raw_text = message.content.raw_text();
        let user_text = format_user_message(raw_text.as_str(), &message);
        if self.conversation_context.is_none() {
            self.conversation_context = Some(build_conversation_context(&message));
        }
        let status_text = self.state.status_block().render();
        let system_prompt = build_system_prompt(
            self.state.identity_context().as_str(),
            self.system_prompt.as_str(),
            &self.conversation_context,
            status_text.as_str(),
        );
        TurnPlan {
            conversation_id: message.conversation_id,
            system_prompt,
            user_text,
            max_turns: self.config.max_turns,
            status: StatusUpdate::Thinking,
        }
    }

    /// Ends a turn. The messages that the turn produced go to the end of the
    /// history, whatever the outcome. A completion that succeeded with text
    /// replies with that text, unchanged; one that succeeded with empty
    /// text, ran out of turns, was cancelled or failed replies with nothing.
    pub fn complete_turn(
        &mut self,
        transcript: Vec<Message>,
        outcome: Result<String, CompletionError>,
    ) -> (response: Option<OutboundResponse>)
        requires
            old(self)@.wf(),
        ensures
            final(self)@.wf(),
            final(self)@ == old(self)@.complete_turn(history_view(transcript@)),
            old(self)@.state.history.is_prefix_of(final(self)@.state.history),
            response_view(response) == turn_reply(outcome),
    {
        self.state.extend_history(transcript);
        match outcome {
            Ok(text) => fallback_reply(text),
            Err(_) => None,
        }
    }

    /// Takes in an event of the bus. The state follows the event. Where the
    /// event asks for it and the conversation is known, the message with
    /// which the channel wakes itself comes back, to be put into the
    /// channel's own queue: it carries a fresh random identifier and the
    /// time of the call.
    pub fn handle_event(&mut self, event: &ProcessEvent) -> (wake: Option<InboundMessage>)
        requires
            old(self)@.wf(),
        ensures
            final(self)@.wf(),
            final(self)@ == old(self)@.apply_event(event@),
            (match wake {
                Some(message) => {
                    &&& old(self)@.wakes(event@)
                    &&& is_retrigger(message, old(self)@.conversation_id->0)
                    &&& message.timestamp.nanos < 1_000_000_000
                    &&& exists|id: u128| is_random_uuid(id) && message.id@ == #[trigger] id_text(id)
                },
                None => !old(self)@.wakes(event@),
            }),
    {
        let retrigger = self.state.apply_event(event);
        if !retrigger {
            return None;
        }
        match &self.conversation_id {
            Some(conversation_id) => {
                let id = fresh_id();
                let message_id = render_id(id);
                let now = current_time();
                Some(retrigger_message(conversation_id.as_str(), message_id, now))
            },
            None => None,
        }
    }

    /// One round of the channel's loop: a message starts a turn, an event
    /// is merged into the state and may wake the channel, and the loop ends
    /// only when both sources are closed.
    pub fn step(&mut self, input: ChannelInput) -> (action: ChannelAction)
        requires
            old(self)@.wf(),
        ensures
            final(self)@.wf(),
            action is Stop <==> input is Closed,
            (match input {
                ChannelInput::Message(message) => {
                    &&& final(self)@ == old(self)@.receive(message@)
                    &&& action matches ChannelAction::Turn(plan)
                    &&& plan@ == final(self)@.turn_plan(message@)
                },
                ChannelInput::Event(event) => {
                    &&& final(self)@ == old(self)@.apply_event(event@)
                    &&& if old(self)@.wakes(event@) {
                        &&& action matches ChannelAction::Wake(message)
                        &&& is_retrigger(message, old(self)@.conversation_id->0)
                    } else {
                        action is Wait
                    }
                },
                ChannelInput::Closed => final(self)@ == old(self)@,
            }),
    {
        match input {
            ChannelInput::Message(message) => ChannelAction::Turn(self.handle_message(message)),
            ChannelInput::Event(event) => match self.handle_event(&event) {
                Some(message) => ChannelAction::Wake(message),
                None => ChannelAction::Wait,
            },
            ChannelInput::Closed => ChannelAction::Stop,
        }
    }

    /// Spawns a branch of this channel.
    pub fn spawn_branch(&mut self, description: String) -> (spawned: Result<Branch, AgentError>)
        requires
            old(self)@.wf(),
        ensures
            final(self)@.wf(),
            final(self)@ == (ChannelView { state: final(self)@.state, ..old(self)@ }),
            (match spawned {
                Ok(branch) => {
                    &&& !old(self)@.state.at_branch_limit()
                    &&& is_random_uuid(branch.id)
                    &&& branch@ == old(self)@.state.branch(branch.id, description@)
                    &&& final(self)@.state == old(self)@.state.spawn_branch(branch.id)
                },
                Err(error) => {
                    &&& old(self)@.state.at_branch_limit()
                    &&& refuses_branch(error, old(self)@.state)
                    &&& final(self)@.state == old(self)@.state
                },
            }),
    {
        spawn_branch_from_state(&mut self.state, description)
    }

    /// Spawns a worker of this channel.
    pub fn spawn_worker(&mut self, task: String, interactive: bool) -> (spawned: Result<
        Worker,
        AgentError,
    >)
        requires
            old(self)@.wf(),
        ensures
            final(self)@.wf(),
            final(self)@ == (ChannelView { state: final(self)@.state, ..old(self)@ }),
            (match spawned {
                Ok(worker) => {
                    &&& is_random_uuid(worker.id)
                    &&& worker@ == old(self)@.state.worker(worker.id, task@, interactive)
                    &&& final(self)@.state == old(self)@.state.spawn_worker(
                        worker.id,
                        task@,
                        interactive,
                    )
                },
                Err(_) => false,
            }),
    {
        spawn_worker_from_state(&mut self.state, task, interactive)
    }

    /// The status block as text.
    pub fn get_status(&self) -> (text: String)
        ensures
            text@ == self@.state.status.render(),
            text@.len() == 0 <==> self@.state.status.is_idle(),
    {
        self.state.status_block().render()
    }

    /// Name of the channel.
    pub fn id(&self) -> (id: &String)
        ensures
            id@ == self@.id,
    {
        &self.id
    }

    /// The actor under which the channel reports.
    pub fn process_id(&self) -> (process: ProcessId)
        ensures
            process matches ProcessId::Channel(id) && id@ == self@.id,
    {
        ProcessId::Channel(self.id.clone())
    }

    /// Title of the conversation, if it has one.
    pub fn title(&self) -> (title: &Option<String>)
        ensures
            option_view(*title) == self@.title,
    {
        &self.title
    }

    /// Gives the conversation a title.
    pub fn set_title(&mut self, title: String)
        ensures
            final(self)@ == (ChannelView { title: Some(title@), ..old(self)@ }),
    {
        self.title = Some(title);
    }

    /// Settings of the channel.
    pub fn config(&self) -> (config: ChannelConfig)
        ensures
            config == self@.config,
    {
        self.config
    }

    /// State of the channel.
    pub fn state(&self) -> (state: &ChannelState)
        ensures
            state@ == self@.state,
    {
        &self.state
    }

    /// The channel's own system prompt.
    pub fn system_prompt(&self) -> (prompt: &String)
        ensures
            prompt@ == self@.system_prompt,
    {
        &self.system_prompt
    }

    /// The conversation, known from the first message on.
    pub fn conversation_id(&self) -> (id: &Option<String>)
        ensures
            option_view(*id) == self@.conversation_id,
    {
        &self.conversation_id
    }

    /// Where the conversation takes place, known from the first message on.
    pub fn conversation_context(&self) -> (context: &Option<String>)
        ensures
            option_view(*context) == self@.conversation_context,
    {
        &self.conversation_context
    }
}

} // verus!
