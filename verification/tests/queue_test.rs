#![allow(unused_imports)]
use opencode_voice::approval::queue::ApprovalQueue;
use opencode_voice::approval::types::PendingApproval;
use opencode_voice::approval::types::PermissionRequest;
use opencode_voice::approval::types::QuestionRequest;
use opencode_voice::json::Json;

fn make_permission(id: &str) -> PermissionRequest {
    PermissionRequest {
        id: id.to_string(),
        permission: "bash".to_string(),
        metadata: Json::Null,
    }
}

fn make_question(id: &str) -> QuestionRequest {
    QuestionRequest {
        id: id.to_string(),
        questions: vec![],
    }
}

#[test]
fn test_new_queue_is_empty() {
    let q = ApprovalQueue::new();
    assert!(!q.has_pending());
    assert_eq!(q.len(), 0);
    assert!(q.peek().is_none());
}

#[test]
fn test_add_permission_and_peek() {
    let mut q = ApprovalQueue::new();
    q.add_permission(make_permission("perm-1"));
    assert_eq!(q.len(), 1);
    assert!(q.has_pending());
    let item = q.peek().unwrap();
    assert_eq!(item.id(), "perm-1");
    assert!(matches!(item, PendingApproval::Permission(_)));
}

#[test]
fn test_add_question_and_peek() {
    let mut q = ApprovalQueue::new();
    q.add_question(make_question("q-1"));
    assert_eq!(q.len(), 1);
    let item = q.peek().unwrap();
    assert_eq!(item.id(), "q-1");
    assert!(matches!(item, PendingApproval::Question(_)));
}

#[test]
fn test_fifo_ordering() {
    let mut q = ApprovalQueue::new();
    q.add_permission(make_permission("first"));
    q.add_question(make_question("second"));
    q.add_permission(make_permission("third"));

    // Peek should return first
    assert_eq!(q.peek().unwrap().id(), "first");
    assert_eq!(q.len(), 3);
}

#[test]
fn test_remove_found() {
    let mut q = ApprovalQueue::new();
    q.add_permission(make_permission("perm-1"));
    q.add_question(make_question("q-1"));

    let removed = q.remove("perm-1");
    assert!(removed);
    assert_eq!(q.len(), 1);
    assert_eq!(q.peek().unwrap().id(), "q-1");
}

#[test]
fn test_remove_not_found() {
    let mut q = ApprovalQueue::new();
    q.add_permission(make_permission("perm-1"));

    let removed = q.remove("nonexistent");
    assert!(!removed);
    assert_eq!(q.len(), 1);
}

#[test]
fn test_remove_middle_item() {
    let mut q = ApprovalQueue::new();
    q.add_permission(make_permission("a"));
    q.add_permission(make_permission("b"));
    q.add_permission(make_permission("c"));

    q.remove("b");
    assert_eq!(q.len(), 2);
    assert_eq!(q.peek().unwrap().id(), "a");
}

#[test]
fn test_has_pending_tracks_state() {
    let mut q = ApprovalQueue::new();
    assert!(!q.has_pending());

    q.add_permission(make_permission("x"));
    assert!(q.has_pending());
}

// --- Additional tests added to expand coverage ---

#[test]
fn test_default_creates_empty_queue() {
    let q = ApprovalQueue::default();
    assert_eq!(q.len(), 0);
}

#[test]
fn test_remove_last_item_leaves_empty() {
    let mut q = ApprovalQueue::new();
    q.add_permission(make_permission("only"));
    let removed = q.remove("only");
    assert!(removed);
    assert_eq!(q.len(), 0);
    assert!(q.peek().is_none());
}

#[test]
fn test_remove_preserves_fifo_order() {
    let mut q = ApprovalQueue::new();
    q.add_permission(make_permission("a"));
    q.add_question(make_question("b"));
    q.add_permission(make_permission("c"));

    // Remove middle item
    q.remove("b");

    // Remaining items should be in original order
    assert_eq!(q.len(), 2);
    assert_eq!(q.peek().unwrap().id(), "a");
}

#[test]
fn test_peek_does_not_remove() {
    let mut q = ApprovalQueue::new();
    q.add_permission(make_permission("p1"));
    q.add_permission(make_permission("p2"));

    // Peek multiple times — should always return same item
    assert_eq!(q.peek().unwrap().id(), "p1");
    assert_eq!(q.peek().unwrap().id(), "p1");
    assert_eq!(q.len(), 2);
}

#[test]
fn test_insertion_order_preserved() {
    let mut q = ApprovalQueue::new();
    q.add_permission(make_permission("first"));
    q.add_question(make_question("second"));
    q.add_permission(make_permission("third"));

    assert_eq!(q.len(), 3);
    assert_eq!(q.peek().unwrap().id(), "first");
}

#[test]
fn test_len_increments_correctly() {
    let mut q = ApprovalQueue::new();
    assert_eq!(q.len(), 0);
    q.add_permission(make_permission("a"));
    assert_eq!(q.len(), 1);
    q.add_question(make_question("b"));
    assert_eq!(q.len(), 2);
    q.add_permission(make_permission("c"));
    assert_eq!(q.len(), 3);
}

#[test]
fn test_remove_not_found_does_not_change_len() {
    let mut q = ApprovalQueue::new();
    q.add_permission(make_permission("a"));
    q.add_permission(make_permission("b"));

    let removed = q.remove("nonexistent");
    assert!(!removed);
    assert_eq!(q.len(), 2);
}

#[test]
fn test_mixed_permission_and_question_types() {
    let mut q = ApprovalQueue::new();
    q.add_permission(make_permission("perm"));
    q.add_question(make_question("quest"));

    let first = q.peek().unwrap();
    assert!(matches!(first, PendingApproval::Permission(_)));
    assert_eq!(first.id(), "perm");

    q.remove("perm");
    let second = q.peek().unwrap();
    assert!(matches!(second, PendingApproval::Question(_)));
    assert_eq!(second.id(), "quest");
}

#[test]
fn test_add_then_remove_restores_queue() {
    let mut q = ApprovalQueue::new();
    q.add_permission(make_permission("a"));
    q.add_question(make_question("b"));
    q.add_permission(make_permission("new"));
    assert!(q.remove("new"));
    assert_eq!(q.len(), 2);
    assert_eq!(q.peek().unwrap().id(), "a");
    assert!(q.remove("a"));
    assert_eq!(q.peek().unwrap().id(), "b");
}

#[test]
fn test_remove_takes_only_first_of_duplicate_ids() {
    let mut q = ApprovalQueue::new();
    q.add_permission(make_permission("dup"));
    q.add_question(make_question("dup"));
    assert!(q.remove("dup"));
    assert_eq!(q.len(), 1);
    assert!(matches!(q.peek().unwrap(), PendingApproval::Question(_)));
}

#[test]
fn test_clear_empties_queue() {
    let mut q = ApprovalQueue::new();
    q.add_permission(make_permission("a"));
    q.add_question(make_question("b"));
    q.clear();
    assert_eq!(q.len(), 0);
    assert!(!q.has_pending());
    assert!(q.peek().is_none());
}
