use channel_core::{ProcessEvent, StatusBlock};

const B1: u128 = 0x11111111_2222_4333_8444_555555555555;
const B2: u128 = 0x99999999_aaaa_4bbb_8ccc_dddddddddddd;
const W1: u128 = 0x01234567_89ab_4def_8123_456789abcdef;

fn branch_result(id: u128) -> ProcessEvent {
    ProcessEvent::BranchResult {
        agent_id: "agent".to_string(),
        branch_id: id,
        channel_id: "chan".to_string(),
        conclusion: "done".to_string(),
    }
}

fn worker_complete(id: u128, notify: bool) -> ProcessEvent {
    ProcessEvent::WorkerComplete {
        agent_id: "agent".to_string(),
        worker_id: id,
        channel_id: None,
        result: "ok".to_string(),
        notify,
    }
}

fn worker_status(id: u128, status: &str) -> ProcessEvent {
    ProcessEvent::WorkerStatus {
        agent_id: "agent".to_string(),
        worker_id: id,
        channel_id: None,
        status: status.to_string(),
    }
}

#[test]
fn empty_block_renders_nothing() {
    let block = StatusBlock::new();
    assert!(block.is_empty());
    assert_eq!(block.render(), "");
}

#[test]
fn block_renders_branches_then_workers() {
    let mut block = StatusBlock::new();
    block.add_worker(W1, "index the repo", true);
    block.add_branch(B1, "thinking...");
    block.add_branch(B2, "weighing options");
    assert!(!block.is_empty());
    assert_eq!(
        block.render(),
        "Active branches:\n\
         - 11111111-2222-4333-8444-555555555555: thinking...\n\
         - 99999999-aaaa-4bbb-8ccc-dddddddddddd: weighing options\n\
         Active workers:\n\
         - 01234567-89ab-4def-8123-456789abcdef: index the repo (interactive)"
    );
}

#[test]
fn block_with_workers_only() {
    let mut block = StatusBlock::new();
    block.add_worker(W1, "fetch", false);
    assert_eq!(
        block.render(),
        "Active workers:\n- 01234567-89ab-4def-8123-456789abcdef: fetch"
    );
}

#[test]
fn adding_again_replaces_and_moves_last() {
    let mut block = StatusBlock::new();
    block.add_branch(B1, "first");
    block.add_branch(B2, "second");
    block.add_branch(B1, "third");
    assert_eq!(block.branches().len(), 2);
    assert_eq!(block.branches()[0].id, B2);
    assert_eq!(block.branches()[1].id, B1);
    assert_eq!(block.branches()[1].text, "third");
}

#[test]
fn results_clear_entries() {
    let mut block = StatusBlock::new();
    block.add_branch(B1, "thinking...");
    block.add_worker(W1, "fetch", false);
    block.update(&branch_result(B1));
    assert_eq!(block.branches().len(), 0);
    assert_eq!(block.workers().len(), 1);
    block.update(&worker_complete(W1, false));
    assert!(block.is_empty());
    assert_eq!(block.render(), "");
}

#[test]
fn events_about_strangers_change_nothing() {
    let mut block = StatusBlock::new();
    block.add_branch(B1, "thinking...");
    block.add_worker(W1, "fetch", false);
    let before = block.clone();
    block.update(&branch_result(B2));
    block.update(&worker_complete(B2, true));
    block.update(&worker_status(B2, "lost"));
    assert_eq!(block, before);
}

#[test]
fn worker_report_replaces_text() {
    let mut block = StatusBlock::new();
    block.add_worker(W1, "fetch", true);
    block.update(&worker_status(W1, "halfway"));
    assert_eq!(block.workers().len(), 1);
    assert_eq!(block.workers()[0].text, "halfway");
    assert!(block.workers()[0].interactive);
    assert_eq!(
        block.render(),
        "Active workers:\n- 01234567-89ab-4def-8123-456789abcdef: halfway (interactive)"
    );
}

#[test]
fn branch_and_worker_ids_do_not_mix() {
    let mut block = StatusBlock::new();
    block.add_branch(B1, "thinking...");
    block.add_worker(B1, "same number", false);
    block.update(&worker_complete(B1, true));
    assert_eq!(block.branches().len(), 1);
    assert_eq!(block.workers().len(), 0);
}

#[test]
fn entries_can_be_removed_by_hand() {
    let mut block = StatusBlock::new();
    block.add_branch(B1, "thinking...");
    block.add_branch(B2, "thinking...");
    block.add_worker(W1, "fetch", false);
    block.remove_branch(B1);
    block.remove_branch(W1);
    assert_eq!(block.branches().len(), 1);
    assert_eq!(block.branches()[0].id, B2);
    block.remove_worker(W1);
    assert!(block.workers().is_empty());
}
