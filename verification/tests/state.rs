use channel_core::{
    spawn_branch_from_state, spawn_worker_from_state, AgentError, ChannelConfig, ChannelState,
    Message, ProcessEvent, Role,
};

fn state(max: usize) -> ChannelState {
    ChannelState::new(
        "chan-1".to_string(),
        "agent-1".to_string(),
        "identity".to_string(),
        "branch prompt".to_string(),
        "worker prompt".to_string(),
        max,
    )
}

fn branch_result(id: u128, conclusion: &str) -> ProcessEvent {
    ProcessEvent::BranchResult {
        agent_id: "agent-1".to_string(),
        branch_id: id,
        channel_id: "chan-1".to_string(),
        conclusion: conclusion.to_string(),
    }
}

fn worker_complete(id: u128, result: &str, notify: bool) -> ProcessEvent {
    ProcessEvent::WorkerComplete {
        agent_id: "agent-1".to_string(),
        worker_id: id,
        channel_id: Some("chan-1".to_string()),
        result: result.to_string(),
        notify,
    }
}

#[test]
fn default_config_allows_five() {
    let config = ChannelConfig::default();
    assert_eq!(config.max_concurrent_branches, 5);
    assert_eq!(config.max_turns, 5);
    assert!(config.is_valid());
    assert!(!ChannelConfig { max_concurrent_branches: 0, max_turns: 5 }.is_valid());
    assert!(!ChannelConfig { max_concurrent_branches: 5, max_turns: 0 }.is_valid());
}

#[test]
fn new_state_is_empty() {
    let s = state(5);
    assert_eq!(s.channel_id(), "chan-1");
    assert_eq!(s.agent_id(), "agent-1");
    assert_eq!(s.identity_context(), "identity");
    assert_eq!(s.max_concurrent_branches(), 5);
    assert_eq!(s.branch_count(), 0);
    assert_eq!(s.worker_count(), 0);
    assert!(s.history().is_empty());
    assert!(s.status_block().is_empty());
    assert!(!s.at_branch_limit());
}

#[test]
fn spawned_branch_is_bound_to_the_channel() {
    let mut s = state(5);
    s.extend_history(vec![Message::user("earlier".to_string())]);
    let branch = spawn_branch_from_state(&mut s, "look into it".to_string()).unwrap();
    assert_eq!(branch.channel_id, "chan-1");
    assert_eq!(branch.agent_id, "agent-1");
    assert_eq!(branch.description, "look into it");
    assert_eq!(branch.system_prompt, "branch prompt");
    assert_eq!(branch.history, vec![Message::user("earlier".to_string())]);
    assert_eq!(s.branch_count(), 1);
    assert!(s.has_branch(branch.id));
    assert_eq!(s.status_block().branches().len(), 1);
    assert_eq!(s.status_block().branches()[0].id, branch.id);
    assert_eq!(s.status_block().branches()[0].text, "thinking...");
    assert_eq!(s.history().len(), 1);
}

#[test]
fn spawned_ids_are_random_version_four() {
    let mut s = state(5);
    let a = spawn_branch_from_state(&mut s, "a".to_string()).unwrap();
    let b = spawn_branch_from_state(&mut s, "b".to_string()).unwrap();
    let w = spawn_worker_from_state(&mut s, "w".to_string(), false).unwrap();
    assert_ne!(a.id, b.id);
    assert_ne!(a.id, w.id);
    for id in [a.id, b.id, w.id] {
        let parsed = uuid::Uuid::from_u128(id);
        assert_eq!(parsed.get_version_num(), 4);
        assert_eq!((id >> 76) & 0xf, 4);
        assert_eq!((id >> 62) & 0x3, 2);
    }
}

#[test]
fn spawn_at_the_limit_is_refused() {
    let mut s = state(2);
    let a = spawn_branch_from_state(&mut s, "a".to_string()).unwrap();
    let b = spawn_branch_from_state(&mut s, "b".to_string()).unwrap();
    assert!(s.at_branch_limit());
    let status_before = s.status_block().clone();
    let refused = spawn_branch_from_state(&mut s, "c".to_string());
    assert_eq!(
        refused,
        Err(AgentError::BranchLimitReached { channel_id: "chan-1".to_string(), max: 2 })
    );
    assert_eq!(s.branch_count(), 2);
    assert!(s.has_branch(a.id));
    assert!(s.has_branch(b.id));
    assert_eq!(s.status_block(), &status_before);
    assert!(s.history().is_empty());
}

#[test]
fn limit_of_zero_refuses_every_branch() {
    let mut s = state(0);
    assert!(s.at_branch_limit());
    assert_eq!(
        spawn_branch_from_state(&mut s, "a".to_string()),
        Err(AgentError::BranchLimitReached { channel_id: "chan-1".to_string(), max: 0 })
    );
    assert_eq!(s.branch_count(), 0);
}

#[test]
fn branch_count_never_passes_the_limit() {
    let mut s = state(3);
    let mut spawned = Vec::new();
    for round in 0..10 {
        match spawn_branch_from_state(&mut s, format!("branch {round}")) {
            Ok(branch) => spawned.push(branch.id),
            Err(AgentError::BranchLimitReached { max, .. }) => assert_eq!(max, 3),
        }
        assert!(s.branch_count() <= 3);
        if round % 4 == 3 {
            let id = spawned.remove(0);
            s.apply_event(&branch_result(id, "done"));
            assert!(!s.has_branch(id));
        }
    }
    assert_eq!(s.branch_count(), s.status_block().branches().len());
}

#[test]
fn result_frees_a_place() {
    let mut s = state(1);
    let a = spawn_branch_from_state(&mut s, "a".to_string()).unwrap();
    assert!(spawn_branch_from_state(&mut s, "b".to_string()).is_err());
    assert!(s.apply_event(&branch_result(a.id, "found it")));
    assert_eq!(s.branch_count(), 0);
    assert!(spawn_branch_from_state(&mut s, "b".to_string()).is_ok());
}

#[test]
fn registering_a_known_id_replaces_it() {
    let mut s = state(5);
    s.register_branch(7, "first".to_string()).unwrap();
    s.register_branch(7, "second".to_string()).unwrap();
    assert_eq!(s.branch_count(), 1);
    assert_eq!(s.status_block().branches().len(), 1);
}

#[test]
fn spawned_worker_is_bound_to_the_channel() {
    let mut s = state(5);
    let worker = spawn_worker_from_state(&mut s, "fetch the page".to_string(), true).unwrap();
    assert_eq!(worker.channel_id, Some("chan-1".to_string()));
    assert_eq!(worker.agent_id, "agent-1");
    assert_eq!(worker.task, "fetch the page");
    assert_eq!(worker.system_prompt, "worker prompt");
    assert!(worker.interactive);
    assert_eq!(s.worker_count(), 1);
    assert!(s.has_worker(worker.id));
    assert_eq!(s.status_block().workers().len(), 1);
    assert_eq!(s.status_block().workers()[0].text, "fetch the page");
    assert!(!s.status_block().workers()[0].interactive);
}

#[test]
fn workers_have_no_limit() {
    let mut s = state(1);
    for round in 0..20 {
        assert!(spawn_worker_from_state(&mut s, format!("task {round}"), false).is_ok());
    }
    assert_eq!(s.worker_count(), 20);
    assert_eq!(s.branch_count(), 0);
}

#[test]
fn branch_result_is_noted_in_history() {
    let mut s = state(5);
    let branch = spawn_branch_from_state(&mut s, "a".to_string()).unwrap();
    let retrigger = s.apply_event(&branch_result(branch.id, "the answer is 42"));
    assert!(retrigger);
    assert!(!s.has_branch(branch.id));
    assert!(s.status_block().is_empty());
    assert_eq!(
        s.history(),
        &vec![Message { role: Role::User, content: "[Branch result]: the answer is 42".to_string() }]
    );
}

#[test]
fn branch_result_of_a_stranger_is_noted_too() {
    let mut s = state(5);
    let branch = spawn_branch_from_state(&mut s, "a".to_string()).unwrap();
    assert!(s.apply_event(&branch_result(branch.id ^ 1, "elsewhere")));
    assert!(s.has_branch(branch.id));
    assert_eq!(s.history().len(), 1);
    assert_eq!(s.history()[0].content, "[Branch result]: elsewhere");
}

#[test]
fn worker_completion_with_notice_is_noted() {
    let mut s = state(5);
    let worker = spawn_worker_from_state(&mut s, "t".to_string(), false).unwrap();
    assert!(s.apply_event(&worker_complete(worker.id, "all done", true)));
    assert!(!s.has_worker(worker.id));
    assert!(s.status_block().is_empty());
    assert_eq!(s.history().len(), 1);
    assert_eq!(s.history()[0].role, Role::User);
    assert_eq!(s.history()[0].content, "[Worker completed]: all done");
}

#[test]
fn worker_completion_without_notice_is_silent() {
    let mut s = state(5);
    let worker = spawn_worker_from_state(&mut s, "t".to_string(), false).unwrap();
    assert!(!s.apply_event(&worker_complete(worker.id, "all done", false)));
    assert!(!s.has_worker(worker.id));
    assert!(s.status_block().is_empty());
    assert!(s.history().is_empty());
}

#[test]
fn worker_report_touches_status_only() {
    let mut s = state(5);
    let worker = spawn_worker_from_state(&mut s, "t".to_string(), false).unwrap();
    let report = ProcessEvent::WorkerStatus {
        agent_id: "agent-1".to_string(),
        worker_id: worker.id,
        channel_id: None,
        status: "halfway".to_string(),
    };
    assert!(!s.apply_event(&report));
    assert!(s.has_worker(worker.id));
    assert!(s.history().is_empty());
    assert_eq!(s.status_block().workers()[0].text, "halfway");
}

#[test]
fn worker_ends_in_one_completion_event() {
    let mut s = state(5);
    let good = spawn_worker_from_state(&mut s, "t".to_string(), false).unwrap();
    let good_id = good.id;
    assert_eq!(
        good.complete(Ok("fine".to_string())),
        ProcessEvent::WorkerComplete {
            agent_id: "agent-1".to_string(),
            worker_id: good_id,
            channel_id: Some("chan-1".to_string()),
            result: "fine".to_string(),
            notify: true,
        }
    );
    let bad = spawn_worker_from_state(&mut s, "t".to_string(), false).unwrap();
    let bad_id = bad.id;
    assert_eq!(
        bad.complete(Err("connection reset".to_string())),
        ProcessEvent::WorkerComplete {
            agent_id: "agent-1".to_string(),
            worker_id: bad_id,
            channel_id: Some("chan-1".to_string()),
            result: "Worker failed: connection reset".to_string(),
            notify: true,
        }
    );
}

#[test]
fn branch_ends_in_its_result() {
    let mut s = state(5);
    let branch = spawn_branch_from_state(&mut s, "a".to_string()).unwrap();
    let id = branch.id;
    let event = branch.conclude("so it is".to_string());
    assert_eq!(event, branch_result(id, "so it is"));
    assert!(s.apply_event(&event));
    assert_eq!(s.branch_count(), 0);
}

#[test]
fn history_only_grows() {
    let mut s = state(5);
    s.extend_history(vec![
        Message::user("[Alice]: hi".to_string()),
        Message { role: Role::Assistant, content: "hello".to_string() },
    ]);
    let before = s.history().clone();
    let branch = spawn_branch_from_state(&mut s, "a".to_string()).unwrap();
    s.apply_event(&branch_result(branch.id, "x"));
    s.extend_history(vec![Message { role: Role::Tool, content: "{}".to_string() }]);
    assert_eq!(s.history().len(), 4);
    assert_eq!(&s.history()[..before.len()], &before[..]);
}

#[test]
fn snapshot_copies_every_message() {
    let history = vec![
        Message::user("one".to_string()),
        Message { role: Role::Assistant, content: "two".to_string() },
        Message { role: Role::Tool, content: "{\"k\":1}".to_string() },
    ];
    assert_eq!(channel_core::snapshot(&history), history);
    assert_eq!(channel_core::snapshot(&Vec::new()), Vec::<Message>::new());
    assert_eq!(history[1].duplicate(), history[1]);
}

#[test]
fn branch_keeps_its_snapshot_when_history_moves_on() {
    let mut s = state(5);
    s.extend_history(vec![Message::user("before".to_string())]);
    let branch = spawn_branch_from_state(&mut s, "a".to_string()).unwrap();
    s.extend_history(vec![Message::user("after".to_string())]);
    assert_eq!(branch.history, vec![Message::user("before".to_string())]);
    assert_eq!(s.history().len(), 2);
}

#[test]
fn handles_tell_what_was_spawned() {
    let mut s = state(5);
    s.extend_history(vec![Message::user("a".to_string()), Message::user("b".to_string())]);
    let branch = spawn_branch_from_state(&mut s, "think".to_string()).unwrap();
    let worker = spawn_worker_from_state(&mut s, "work".to_string(), true).unwrap();
    assert_eq!(s.branch_handle(branch.id), Some(channel_core::BranchHandle { history_len: 2 }));
    assert_eq!(s.worker_handle(worker.id), Some(channel_core::WorkerHandle { interactive: true }));
    assert_eq!(s.branch_handle(worker.id ^ branch.id ^ 1), None);
    assert_eq!(s.worker_handle(branch.id ^ 1), None);
}
