use fitgirl_ecoqos::lookup::{name_matches, parse_thread_handle, pick_thread, Thread};

#[test]
fn handle_text_with_quotes() {
    assert_eq!(parse_thread_handle("\"1234\""), Some(1234));
    assert_eq!(parse_thread_handle("1234"), Some(1234));
    assert_eq!(parse_thread_handle("\"\"\"7\"\""), Some(7));
    assert_eq!(parse_thread_handle("+5"), Some(5));
    assert_eq!(parse_thread_handle("007"), Some(7));
}

#[test]
fn handle_text_limits() {
    assert_eq!(parse_thread_handle("4294967295"), Some(u32::MAX));
    assert_eq!(parse_thread_handle("4294967296"), None);
    assert_eq!(parse_thread_handle("99999999999999999999"), None);
}

#[test]
fn handle_text_rejected() {
    assert_eq!(parse_thread_handle(""), None);
    assert_eq!(parse_thread_handle("\"\""), None);
    assert_eq!(parse_thread_handle("+"), None);
    assert_eq!(parse_thread_handle("-1"), None);
    assert_eq!(parse_thread_handle("12a"), None);
    assert_eq!(parse_thread_handle(" 12"), None);
    assert_eq!(parse_thread_handle("\"1\"2\""), None);
}

#[test]
fn names_full_and_partial() {
    assert!(name_matches("mythread", "mythread", true));
    assert!(!name_matches("mythread", "my-thread", true));
    assert!(!name_matches("mythread-snap", "mythread", true));
    assert!(name_matches("mythread-snap", "mythread", false));
    assert!(name_matches("mythread-snap", "snap", false));
    assert!(name_matches("mythread-snap", "", false));
    assert!(!name_matches("mythread", "mythread-snap", false));
    assert!(!name_matches("hello", "world", false));
}

#[test]
fn thread_picked_by_name() {
    assert_eq!(
        pick_thread(12, "mythread-snap".to_string(), "mythread-snap", true),
        Some(Thread { thread_id: 12, thread_name: "mythread-snap".to_string() })
    );
    assert_eq!(pick_thread(12, "other".to_string(), "mythread", false), None);
}
