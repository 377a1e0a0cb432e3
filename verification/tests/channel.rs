use channel_core::{
    fallback_reply, retrigger_message, Channel, ChannelAction, ChannelConfig, ChannelInput,
    CompletionError, InboundMessage, Message, MessageContent, Metadata, MetadataValue,
    OutboundResponse, ProcessEvent, ProcessId, Role, StatusUpdate, Timestamp,
};

const RETRIGGER: &str = "[System: a background process has completed. Check your history and status block for the result, then respond to the user.]";

fn channel() -> Channel {
    Channel::new(
        "chan-1".to_string(),
        "agent-1".to_string(),
        ChannelConfig { max_concurrent_branches: 2, max_turns: 7 },
        "Be kind.".to_string(),
        "I am Bot.".to_string(),
        "branch prompt".to_string(),
        "worker prompt".to_string(),
    )
}

fn inbound(conversation: &str, name: &str, words: &str) -> InboundMessage {
    let mut metadata = Metadata::new();
    metadata.insert("sender_display_name".to_string(), MetadataValue::Text(name.to_string()));
    metadata.insert("discord_guild_name".to_string(), MetadataValue::Text("Guild".to_string()));
    InboundMessage {
        id: "m-1".to_string(),
        source: "discord".to_string(),
        conversation_id: conversation.to_string(),
        sender_id: "u-1".to_string(),
        agent_id: None,
        content: MessageContent::Text(words.to_string()),
        timestamp: Timestamp { seconds: 1_700_000_000, nanos: 5 },
        metadata,
    }
}

fn branch_result(id: u128) -> ProcessEvent {
    ProcessEvent::BranchResult {
        agent_id: "agent-1".to_string(),
        branch_id: id,
        channel_id: "chan-1".to_string(),
        conclusion: "done".to_string(),
    }
}

#[test]
fn new_channel_has_seen_nothing() {
    let c = channel();
    assert_eq!(c.id(), "chan-1");
    assert_eq!(c.title(), &None);
    assert_eq!(c.config(), ChannelConfig { max_concurrent_branches: 2, max_turns: 7 });
    assert_eq!(c.system_prompt(), "Be kind.");
    assert_eq!(c.conversation_id(), &None);
    assert_eq!(c.conversation_context(), &None);
    assert_eq!(c.get_status(), "");
    assert_eq!(c.state().max_concurrent_branches(), 2);
    assert_eq!(c.state().channel_id(), "chan-1");
    assert!(matches!(c.process_id(), ProcessId::Channel(id) if id == "chan-1"));
}

#[test]
fn title_can_be_set() {
    let mut c = channel();
    c.set_title("Weekend plans".to_string());
    assert_eq!(c.title(), &Some("Weekend plans".to_string()));
}

#[test]
fn first_message_fixes_the_conversation() {
    let mut c = channel();
    let plan = c.handle_message(inbound("conv-1", "Alice", "hi"));
    assert_eq!(c.conversation_id(), &Some("conv-1".to_string()));
    let context = "Platform: discord\nServer: Guild\nMultiple users may be present. Each message is prefixed with [username].";
    assert_eq!(c.conversation_context(), &Some(context.to_string()));
    assert_eq!(plan.conversation_id, "conv-1");
    assert_eq!(plan.user_text, "[Alice]: hi");
    assert_eq!(plan.max_turns, 7);
    assert_eq!(plan.status, StatusUpdate::Thinking);
    assert_eq!(
        plan.system_prompt,
        format!("I am Bot.\n\nBe kind.\n\n## Conversation Context\n\n{context}")
    );
    assert!(c.state().history().is_empty());
}

#[test]
fn later_messages_keep_the_first_context() {
    let mut c = channel();
    c.handle_message(inbound("conv-1", "Alice", "hi"));
    let mut second = inbound("conv-2", "Bob", "yo");
    second.source = "telegram".to_string();
    let plan = c.handle_message(second);
    assert_eq!(c.conversation_id(), &Some("conv-1".to_string()));
    assert!(c.conversation_context().as_ref().unwrap().starts_with("Platform: discord\n"));
    assert_eq!(plan.conversation_id, "conv-2");
    assert_eq!(plan.user_text, "[Bob]: yo");
}

#[test]
fn prompt_shows_status_while_processes_run() {
    let mut c = channel();
    c.handle_message(inbound("conv-1", "Alice", "hi"));
    let branch = c.spawn_branch("think".to_string()).unwrap();
    let status = c.get_status();
    assert_eq!(
        status,
        format!("Active branches:\n- {}: thinking...", uuid::Uuid::from_u128(branch.id))
    );
    let plan = c.handle_message(inbound("conv-1", "Alice", "and?"));
    assert!(plan.system_prompt.ends_with(&format!("\n\n## Current Status\n\n{status}")));
    c.handle_event(&branch_result(branch.id));
    let plan = c.handle_message(inbound("conv-1", "Alice", "well?"));
    assert!(!plan.system_prompt.contains("## Current Status"));
}

#[test]
fn system_message_is_not_attributed() {
    let mut c = channel();
    let wake = retrigger_message("conv-1", "id-1".to_string(), Timestamp { seconds: 1, nanos: 2 });
    let plan = c.handle_message(wake);
    assert_eq!(plan.user_text, RETRIGGER);
}

#[test]
fn media_without_caption_gives_empty_text() {
    let mut c = channel();
    let mut m = inbound("conv-1", "Alice", "");
    m.content = MessageContent::Media { text: None };
    assert_eq!(c.handle_message(m).user_text, "[Alice]: ");
}

#[test]
fn plain_answer_becomes_the_reply() {
    let mut c = channel();
    c.handle_message(inbound("conv-1", "Alice", "hi"));
    let transcript = vec![
        Message::user("[Alice]: hi".to_string()),
        Message { role: Role::Assistant, content: "hello".to_string() },
    ];
    let reply = c.complete_turn(transcript.clone(), Ok("hello".to_string()));
    assert_eq!(reply, Some(OutboundResponse::Text("hello".to_string())));
    assert_eq!(c.state().history(), &transcript);
}

#[test]
fn padded_answer_is_sent_as_returned() {
    let mut c = channel();
    let reply = c.complete_turn(vec![], Ok("  hello \n".to_string()));
    assert_eq!(reply, Some(OutboundResponse::Text("  hello \n".to_string())));
}

#[test]
fn blank_answer_is_still_an_answer() {
    let mut c = channel();
    let reply = c.complete_turn(vec![], Ok(" \t\n ".to_string()));
    assert_eq!(reply, Some(OutboundResponse::Text(" \t\n ".to_string())));
    assert_eq!(
        c.complete_turn(vec![], Ok(" ".to_string())),
        Some(OutboundResponse::Text(" ".to_string()))
    );
}

#[test]
fn empty_answer_gives_no_reply() {
    let mut c = channel();
    assert_eq!(c.complete_turn(vec![], Ok(String::new())), None);
}

#[test]
fn running_out_of_turns_gives_no_reply() {
    let mut c = channel();
    c.handle_message(inbound("conv-1", "Alice", "hi"));
    let transcript = vec![Message::user("[Alice]: hi".to_string())];
    assert_eq!(c.complete_turn(transcript.clone(), Err(CompletionError::MaxTurns)), None);
    assert_eq!(c.state().history(), &transcript);
    let plan = c.handle_message(inbound("conv-1", "Alice", "again"));
    assert_eq!(plan.user_text, "[Alice]: again");
    let action = c.step(ChannelInput::Message(inbound("conv-1", "Alice", "once more")));
    assert!(matches!(action, ChannelAction::Turn(_)));
}

#[test]
fn cancelled_and_failed_turns_give_no_reply() {
    let mut c = channel();
    let cancelled = CompletionError::Cancelled { reason: "policy".to_string() };
    assert_eq!(c.complete_turn(vec![], Err(cancelled)), None);
    let failed = CompletionError::Failed { message: "boom".to_string() };
    assert_eq!(c.complete_turn(vec![], Err(failed)), None);
}

#[test]
fn turn_keeps_earlier_history_as_prefix() {
    let mut c = channel();
    c.handle_message(inbound("conv-1", "Alice", "hi"));
    c.complete_turn(vec![Message::user("one".to_string())], Ok("a".to_string()));
    let before = c.state().history().clone();
    c.handle_message(inbound("conv-1", "Alice", "more"));
    c.spawn_worker("job".to_string(), false).unwrap();
    c.complete_turn(
        vec![Message::user("two".to_string()), Message::user("three".to_string())],
        Err(CompletionError::MaxTurns),
    );
    let after = c.state().history();
    assert_eq!(after.len(), 3);
    assert_eq!(&after[..before.len()], &before[..]);
}

#[test]
fn fallback_reply_skips_empty_text() {
    assert_eq!(fallback_reply(String::new()), None);
    assert_eq!(fallback_reply("x".to_string()), Some(OutboundResponse::Text("x".to_string())));
    assert_eq!(fallback_reply(" ".to_string()), Some(OutboundResponse::Text(" ".to_string())));
}

#[test]
fn branch_result_wakes_the_channel() {
    let mut c = channel();
    c.handle_message(inbound("conv-1", "Alice", "hi"));
    let branch = c.spawn_branch("think".to_string()).unwrap();
    let wake = c.handle_event(&branch_result(branch.id)).unwrap();
    assert_eq!(wake.source, "system");
    assert_eq!(wake.sender_id, "system");
    assert_eq!(wake.conversation_id, "conv-1");
    assert_eq!(wake.agent_id, None);
    assert_eq!(wake.content, MessageContent::Text(RETRIGGER.to_string()));
    assert_eq!(wake.metadata, Metadata::new());
    assert!(wake.timestamp.seconds > 1_600_000_000);
    assert!(wake.timestamp.nanos < 1_000_000_000);
    let parsed = uuid::Uuid::parse_str(&wake.id).unwrap();
    assert_eq!(parsed.get_version_num(), 4);
    assert_eq!(wake.id, parsed.to_string());
    assert_eq!(wake.id.len(), 36);
    assert!(!c.state().has_branch(branch.id));
    assert_eq!(c.state().history().len(), 1);
    assert_eq!(c.state().history()[0].content, "[Branch result]: done");
}

#[test]
fn wake_messages_have_distinct_ids() {
    let mut c = channel();
    c.handle_message(inbound("conv-1", "Alice", "hi"));
    let a = c.handle_event(&branch_result(1)).unwrap();
    let b = c.handle_event(&branch_result(2)).unwrap();
    assert_ne!(a.id, b.id);
}

#[test]
fn no_wake_before_the_first_message() {
    let mut c = channel();
    let branch = c.spawn_branch("think".to_string()).unwrap();
    assert_eq!(c.handle_event(&branch_result(branch.id)), None);
    assert!(!c.state().has_branch(branch.id));
    assert_eq!(c.state().history().len(), 1);
}

#[test]
fn silent_worker_completion_does_not_wake() {
    let mut c = channel();
    c.handle_message(inbound("conv-1", "Alice", "hi"));
    let worker = c.spawn_worker("job".to_string(), false).unwrap();
    let id = worker.id;
    let mut event = worker.complete(Ok("fine".to_string()));
    if let ProcessEvent::WorkerComplete { notify, .. } = &mut event {
        *notify = false;
    }
    assert_eq!(c.handle_event(&event), None);
    assert!(!c.state().has_worker(id));
    assert!(c.state().history().is_empty());
    assert_eq!(c.get_status(), "");
}

#[test]
fn failed_worker_still_reports_and_wakes() {
    let mut c = channel();
    c.handle_message(inbound("conv-1", "Alice", "hi"));
    let worker = c.spawn_worker("job".to_string(), false).unwrap();
    let id = worker.id;
    let event = worker.complete(Err("timeout".to_string()));
    let wake = c.handle_event(&event);
    assert!(wake.is_some());
    assert!(!c.state().has_worker(id));
    assert_eq!(c.state().history()[0].content, "[Worker completed]: Worker failed: timeout");
}

#[test]
fn channel_refuses_branches_at_its_limit() {
    let mut c = channel();
    assert!(c.spawn_branch("a".to_string()).is_ok());
    assert!(c.spawn_branch("b".to_string()).is_ok());
    assert!(c.spawn_branch("c".to_string()).is_err());
    assert_eq!(c.state().branch_count(), 2);
}

#[test]
fn loop_stops_only_when_sources_close() {
    let mut c = channel();
    assert!(matches!(c.step(ChannelInput::Event(branch_result(9))), ChannelAction::Wait));
    let action = c.step(ChannelInput::Message(inbound("conv-1", "Alice", "hi")));
    match action {
        ChannelAction::Turn(plan) => assert_eq!(plan.user_text, "[Alice]: hi"),
        other => panic!("a message starts a turn, not {other:?}"),
    }
    match c.step(ChannelInput::Event(branch_result(9))) {
        ChannelAction::Wake(message) => assert_eq!(message.conversation_id, "conv-1"),
        other => panic!("a result wakes the channel, not {other:?}"),
    }
    let report = ProcessEvent::WorkerStatus {
        agent_id: "agent-1".to_string(),
        worker_id: 3,
        channel_id: None,
        status: "busy".to_string(),
    };
    assert!(matches!(c.step(ChannelInput::Event(report)), ChannelAction::Wait));
    assert!(matches!(c.step(ChannelInput::Closed), ChannelAction::Stop));
}
