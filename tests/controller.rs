use desktop_bridge::{edit_script, edit_scripts, DesktopController, LoadOutcome, MutationQueue};

#[test]
fn edit_script_wraps_batch() {
    assert_eq!(edit_script("[]"), "window.interpreter.handleEdits([])");
    assert_eq!(
        edit_script("[{\"op\":\"append\"}]"),
        "window.interpreter.handleEdits([{\"op\":\"append\"}])"
    );
    assert_eq!(edit_script(""), "window.interpreter.handleEdits()");
}

#[test]
fn edit_scripts_one_per_batch_in_order() {
    let out = edit_scripts(&vec!["1".to_string(), "2".to_string()]);
    assert_eq!(
        out,
        vec![
            "window.interpreter.handleEdits(1)".to_string(),
            "window.interpreter.handleEdits(2)".to_string()
        ]
    );
    assert!(edit_scripts(&Vec::new()).is_empty());
}

#[test]
fn close_only_window_quits() {
    let mut c: DesktopController<&str> = DesktopController::new(true);
    c.add_window(7, "main");
    assert!(c.close_window(7));
    assert_eq!(c.window_count(), 0);
}

#[test]
fn close_one_of_two_windows_keeps_running() {
    let mut c: DesktopController<&str> = DesktopController::new(true);
    c.add_window(1, "a");
    c.add_window(2, "b");
    assert!(!c.close_window(1));
    assert_eq!(c.window_count(), 1);
    assert!(c.contains(2));
    assert!(!c.contains(1));
    assert_eq!(c.first_window(), Some(&"b"));
    assert!(c.close_window(2));
}

#[test]
fn close_without_quit_policy_keeps_running() {
    let mut c: DesktopController<&str> = DesktopController::new(false);
    c.add_window(3, "only");
    assert!(!c.close_window(3));
    assert_eq!(c.window_count(), 0);
    assert!(!c.quits_on_close());
}

#[test]
fn close_unknown_window_changes_nothing() {
    let mut c: DesktopController<&str> = DesktopController::new(true);
    c.add_window(1, "a");
    assert!(!c.close_window(9));
    assert_eq!(c.window_count(), 1);
}

#[test]
fn add_window_with_same_id_replaces_handle() {
    let mut c: DesktopController<&str> = DesktopController::new(true);
    c.add_window(1, "a");
    c.add_window(2, "b");
    c.add_window(1, "c");
    assert_eq!(c.window_count(), 2);
    assert_eq!(c.first_window(), Some(&"c"));
}

#[test]
fn load_not_ready_leaves_queue() {
    let c: DesktopController<&str> = DesktopController::new(true);
    let mut q = MutationQueue::new();
    q.push("[]".to_string());
    assert!(matches!(c.try_load_ready_webviews(&mut q), LoadOutcome::NotReady));
    assert_eq!(q.len(), 1);
}

#[test]
fn load_without_window_leaves_queue() {
    let c: DesktopController<&str> = DesktopController::new(true);
    let mut q = MutationQueue::new();
    q.push("[]".to_string());
    q.set_ready();
    assert!(matches!(c.try_load_ready_webviews(&mut q), LoadOutcome::NoWindow));
    assert_eq!(q.len(), 1);
}

#[test]
fn load_ready_targets_first_window() {
    let mut c: DesktopController<&str> = DesktopController::new(true);
    c.add_window(4, "first");
    c.add_window(5, "second");
    let mut q = MutationQueue::new();
    q.push("[]".to_string());
    q.push("[{\"op\":\"append\"}]".to_string());
    q.set_ready();
    match c.try_load_ready_webviews(&mut q) {
        LoadOutcome::Apply { window, scripts } => {
            assert_eq!(window, 4);
            assert_eq!(
                scripts,
                vec![
                    "window.interpreter.handleEdits([])".to_string(),
                    "window.interpreter.handleEdits([{\"op\":\"append\"}])".to_string()
                ]
            );
        }
        _ => panic!("expected scripts to apply"),
    }
    assert!(q.is_empty());
    match c.try_load_ready_webviews(&mut q) {
        LoadOutcome::Apply { window, scripts } => {
            assert_eq!(window, 4);
            assert!(scripts.is_empty());
        }
        _ => panic!("expected an empty apply"),
    }
}
