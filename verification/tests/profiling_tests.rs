use fsm_core::profiling::{current_function_name, ArcMonitor};

fn test_function() {
    // The type name of an item `f` declared in this function's body.
    let name = current_function_name("profiling_tests::test_function::f");
    assert!(name.contains("test_function") || name == "unknown");
}

#[test]
fn test_current_function_macro() {
    test_function();
}

#[test]
fn function_name_takes_last_segment() {
    assert_eq!(current_function_name("app::view::render::f"), "render");
    assert_eq!(current_function_name("plain"), "plain");
    assert_eq!(current_function_name("a:::b"), ":b");
    assert_eq!(current_function_name("a::b::"), "");
}

#[test]
fn lock_ordering_warns_on_ui_then_fs() {
    let ops = vec![
        ("lock_ui".to_string(), 100u64),
        ("lock_fs".to_string(), 150u64),
        ("lock_fs".to_string(), 5000u64),
        ("lock_ui".to_string(), 6000u64),
        ("lock_fs".to_string(), 7000u64),
    ];
    let w = ArcMonitor::analyze_lock_ordering(&ops);
    assert_eq!(w, vec!["Potential deadlock pattern: lock_ui -> lock_fs within 50ms".to_string()]);
}

#[test]
fn lock_ordering_handles_short_inputs() {
    assert!(ArcMonitor::analyze_lock_ordering(&[]).is_empty());
    assert!(ArcMonitor::analyze_lock_ordering(&[("ui".to_string(), 1)]).is_empty());
    let back_in_time = vec![("ui".to_string(), 900u64), ("fs".to_string(), 100u64)];
    assert_eq!(
        ArcMonitor::analyze_lock_ordering(&back_in_time),
        vec!["Potential deadlock pattern: ui -> fs within 0ms".to_string()]
    );
}
