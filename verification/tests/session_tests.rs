use batt_reminder::session::session_allowed;

#[test]
fn exact_match_is_allowed() {
    let targets = vec!["GNOME".to_string(), "sway".to_string()];
    assert!(session_allowed(&targets, "sway"));
    assert!(session_allowed(&targets, "GNOME"));
}

#[test]
fn wildcard_allows_everything() {
    let targets = vec!["any".to_string()];
    assert!(session_allowed(&targets, "KDE"));
    assert!(session_allowed(&targets, ""));
}

#[test]
fn mismatch_is_refused() {
    let targets = vec!["GNOME".to_string()];
    assert!(!session_allowed(&targets, "gnome"));
    assert!(!session_allowed(&targets, "KDE"));
}

#[test]
fn empty_list_refuses_everything() {
    let targets: Vec<String> = Vec::new();
    assert!(!session_allowed(&targets, "GNOME"));
}
