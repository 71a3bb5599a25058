use session_windows::{
    is_session_window, list_session_windows, session_window_label, SESSION_WINDOW_PREFIX,
};

#[test]
fn label_is_prefix_and_tab_id() {
    assert_eq!(session_window_label("tab-42"), "session-window-tab-42");
    assert_eq!(SESSION_WINDOW_PREFIX, "session-window-");
}

#[test]
fn label_of_empty_tab_id_is_the_prefix() {
    assert_eq!(session_window_label(""), "session-window-");
}

#[test]
fn label_takes_the_tab_id_as_it_stands() {
    assert_eq!(session_window_label("a b/ä&=é"), "session-window-a b/ä&=é");
    assert_eq!(
        session_window_label("session-window-x"),
        "session-window-session-window-x"
    );
}

#[test]
fn different_tabs_get_different_labels() {
    assert_ne!(session_window_label("a"), session_window_label("b"));
    assert_ne!(session_window_label("a"), session_window_label("a "));
    assert_eq!(session_window_label("a"), session_window_label("a"));
}

#[test]
fn labels_with_the_prefix_are_session_windows() {
    assert!(is_session_window("session-window-1"));
    assert!(is_session_window("session-window-"));
    assert!(is_session_window("session-window-täb"));
    assert!(is_session_window(&session_window_label("anything")));
}

#[test]
fn labels_without_the_prefix_are_not_session_windows() {
    assert!(!is_session_window(""));
    assert!(!is_session_window("main"));
    assert!(!is_session_window("session-window"));
    assert!(!is_session_window("session-windo"));
    assert!(!is_session_window("Session-Window-1"));
    assert!(!is_session_window(" session-window-1"));
    assert!(!is_session_window("my-session-window-1"));
    assert!(!is_session_window("session_window_1"));
    assert!(!is_session_window("sessión-window-1"));
}

#[test]
fn listing_keeps_session_windows_only() {
    let windows = vec![
        String::from("main"),
        String::from("session-window-b"),
        String::from("settings"),
        String::from("session-window-a"),
        String::from("session-window"),
    ];
    assert_eq!(
        list_session_windows(&windows),
        Ok(vec![String::from("session-window-b"), String::from("session-window-a")])
    );
}

#[test]
fn listing_keeps_the_order_given() {
    let windows = vec![
        String::from("session-window-3"),
        String::from("session-window-1"),
        String::from("session-window-2"),
    ];
    assert_eq!(list_session_windows(&windows), Ok(windows.clone()));
}

#[test]
fn listing_of_other_windows_is_empty() {
    let windows = vec![String::from("main"), String::from("about")];
    assert_eq!(list_session_windows(&windows), Ok(Vec::new()));
    assert_eq!(list_session_windows(&Vec::new()), Ok(Vec::new()));
}
