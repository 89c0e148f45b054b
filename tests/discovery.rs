use de_switcher::{catalog_profile_names, contains_str, desktop_from_session, get_available_des};

#[test]
fn session_value_last_segment() {
    assert_eq!(desktop_from_session(Some("ubuntu:GNOME")), "GNOME");
    assert_eq!(desktop_from_session(Some("KDE")), "KDE");
    assert_eq!(desktop_from_session(Some("a:b:c")), "c");
    assert_eq!(desktop_from_session(Some("X:")), "");
    assert_eq!(desktop_from_session(None), "Unknown");
}

#[test]
fn listing_failure_falls_back_to_catalog() {
    assert_eq!(get_available_des(None), catalog_profile_names());
    assert_eq!(get_available_des(Some("")), catalog_profile_names());
    assert_eq!(get_available_des(Some("foo\nbar\n")), catalog_profile_names());
}

#[test]
fn listing_keeps_trimmed_profile_lines() {
    let out = "Available profiles:\n  KDE-Desktop  \nbase\ni3\r\nGNOME-Desktop\nsway-Window-Manager\n";
    assert_eq!(
        get_available_des(Some(out)),
        vec!["KDE-Desktop", "i3", "GNOME-Desktop", "sway-Window-Manager"]
    );
}

#[test]
fn contains_finds_infix() {
    assert!(contains_str("xi3y", "i3"));
    assert!(contains_str("abc", ""));
    assert!(!contains_str("i", "i3"));
    assert!(!contains_str("I3", "i3"));
}
