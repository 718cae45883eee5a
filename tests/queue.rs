use desktop_bridge::MutationQueue;

fn queue_with(batches: &[&str]) -> MutationQueue {
    let mut q = MutationQueue::new();
    for b in batches {
        q.push(b.to_string());
    }
    q
}

#[test]
fn drain_scenario_waits_then_hands_out_in_order() {
    let mut q = MutationQueue::new();
    q.push("[]".to_string());
    q.push("[{\"op\":\"append\"}]".to_string());
    assert_eq!(q.drain_if_ready(), Vec::<String>::new());
    assert_eq!(q.len(), 2);
    q.set_ready();
    assert_eq!(
        q.drain_if_ready(),
        vec!["[]".to_string(), "[{\"op\":\"append\"}]".to_string()]
    );
    assert!(q.is_empty());
    assert_eq!(q.drain_if_ready(), Vec::<String>::new());
}

#[test]
fn drain_keeps_push_order() {
    let mut q = queue_with(&["a", "b", "c", "d", "e"]);
    q.set_ready();
    let out = q.drain_if_ready();
    assert_eq!(out, vec!["a", "b", "c", "d", "e"]);
    assert!(q.is_empty());
}

#[test]
fn drain_after_more_pushes_returns_only_new_batches() {
    let mut q = queue_with(&["a"]);
    q.set_ready();
    assert_eq!(q.drain_if_ready(), vec!["a"]);
    q.push("b".to_string());
    q.push("c".to_string());
    assert_eq!(q.drain_if_ready(), vec!["b", "c"]);
}

#[test]
fn drain_not_ready_keeps_everything() {
    let mut q = queue_with(&["x", "y", "z"]);
    assert!(!q.is_ready());
    assert!(q.drain_if_ready().is_empty());
    assert!(q.drain_if_ready().is_empty());
    assert_eq!(q.len(), 3);
    q.set_ready();
    assert!(q.is_ready());
    assert_eq!(q.drain_if_ready(), vec!["x", "y", "z"]);
}

#[test]
fn drain_empty_queue_changes_nothing() {
    let mut q = MutationQueue::new();
    assert!(q.drain_if_ready().is_empty());
    assert!(!q.is_ready());
    assert!(q.is_empty());
    q.set_ready();
    assert!(q.drain_if_ready().is_empty());
    assert!(q.is_ready());
    assert!(q.is_empty());
}

#[test]
fn interleaved_pushes_and_drains_hand_out_each_batch_once() {
    let mut q = MutationQueue::new();
    let mut out: Vec<String> = Vec::new();
    q.push("b1".to_string());
    out.extend(q.drain_if_ready());
    q.push("b2".to_string());
    q.set_ready();
    out.extend(q.drain_if_ready());
    out.extend(q.drain_if_ready());
    q.push("b3".to_string());
    q.push("b4".to_string());
    out.extend(q.drain_if_ready());
    q.push("b5".to_string());
    out.extend(q.drain_if_ready());
    assert_eq!(out, vec!["b1", "b2", "b3", "b4", "b5"]);
    assert!(q.is_empty());
}
