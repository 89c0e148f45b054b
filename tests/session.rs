use de_switcher::{generate, App, AppStep, Flow, Key};

fn kde_session() -> App {
    App::new(
        "KDE".to_string(),
        vec!["KDE-Desktop".to_string(), "GNOME-Desktop".to_string()],
    )
}

#[test]
fn new_session_defaults() {
    let app = kde_session();
    assert_eq!(app.current_de_profile, "KDE-Desktop");
    assert_eq!(app.selected_de_index, 0);
    assert_eq!(app.selected_pkg_manager_index, 0);
    assert_eq!(app.current_step, AppStep::SelectDE);
    assert_eq!(app.input_buffer, "./de_switcher_KDE_to_KDE.sh");
    assert_eq!(app.input_cursor_position, app.input_buffer.len());
    assert_eq!(app.current_package_manager(), "pacman");
    assert!(app.input_error.is_none());
}

#[test]
fn unknown_session_default_path() {
    let app = App::new("Unknown".to_string(), vec!["i3-Window-Manager".to_string()]);
    assert_eq!(app.current_de_profile, "Unknown-Desktop");
    assert_eq!(app.generate_filename(), "./de_switcher_from_Unknown_to_i3.sh");
}

#[test]
fn next_then_previous_restores_index() {
    let profiles: Vec<String> = ["A-Desktop", "B-Desktop", "C-Desktop"].iter().map(|s| s.to_string()).collect();
    for start in 0..3 {
        let mut app = App::new("A".to_string(), profiles.clone());
        app.selected_de_index = start;
        app.next_de();
        app.previous_de();
        assert_eq!(app.selected_de_index, start);
        app.previous_de();
        app.next_de();
        assert_eq!(app.selected_de_index, start);
    }
}

#[test]
fn target_index_wraps() {
    let mut app = kde_session();
    app.previous_de();
    assert_eq!(app.selected_de_index, 1);
    assert_eq!(app.current_target(), "GNOME-Desktop");
    assert_eq!(app.input_buffer, "./de_switcher_KDE_to_GNOME.sh");
    app.next_de();
    assert_eq!(app.selected_de_index, 0);
    assert_eq!(app.input_buffer, "./de_switcher_KDE_to_KDE.sh");
}

#[test]
fn package_manager_cycles_in_three() {
    let mut app = kde_session();
    let names: Vec<&str> = (0..4)
        .map(|_| {
            let n = app.current_package_manager();
            app.cycle_pkg_manager();
            n
        })
        .collect();
    assert_eq!(names, vec!["pacman", "yay", "paru", "pacman"]);
    for start in 0..3 {
        app.selected_pkg_manager_index = start;
        app.cycle_pkg_manager();
        app.cycle_pkg_manager();
        app.cycle_pkg_manager();
        assert_eq!(app.selected_pkg_manager_index, start);
    }
}

#[test]
fn kde_to_gnome_with_yay_end_to_end() {
    let mut app = kde_session();
    assert_eq!(app.handle_key(Key::Tab, false, true), Flow::Continue);
    assert_eq!(app.current_package_manager(), "yay");
    assert_eq!(app.handle_key(Key::Char('j'), false, true), Flow::Continue);
    assert_eq!(app.current_target(), "GNOME-Desktop");
    assert_eq!(app.handle_key(Key::Enter, false, true), Flow::Continue);
    assert_eq!(app.current_step, AppStep::InputPath);
    assert_eq!(app.input_buffer, "./de_switcher_KDE_to_GNOME.sh");
    assert_eq!(app.handle_key(Key::Enter, false, true), Flow::Done);
    assert!(app.should_quit);
    let s = app.generate_script();
    assert!(s.contains("# Target DE: GNOME-Desktop\n"));
    assert!(s.contains("# Package Manager: yay\n"));
    assert!(s.contains("yay -S $(eos-packagelist --install \"GNOME-Desktop\")"));
    assert!(s.contains("sudo systemctl enable gdm\n"));
    let f = app.final_script();
    assert!(f.contains("# bash de_switcher_KDE_to_GNOME.sh\n"));
    assert!(!f.contains("de_switch_script.sh"));
}

#[test]
fn unknown_current_profile_never_removes() {
    let mut app = App::new(
        "Hyprland".to_string(),
        vec!["KDE-Desktop".to_string(), "GNOME-Desktop".to_string()],
    );
    assert_eq!(app.current_de_profile, "Unknown-Desktop");
    for _ in 0..2 {
        let s = app.generate_script();
        assert!(s.contains("Skipping old DE removal"));
        assert!(!s.contains("-Rcs"));
        app.next_de();
    }
    assert_eq!(
        app.generate_script(),
        generate("Unknown-Desktop", "KDE-Desktop", "pacman")
    );
}

#[test]
fn select_step_keys() {
    let mut app = kde_session();
    assert_eq!(app.handle_key(Key::Down, false, true), Flow::Continue);
    assert_eq!(app.selected_de_index, 1);
    assert_eq!(app.handle_key(Key::Up, false, true), Flow::Continue);
    assert_eq!(app.handle_key(Key::Char('k'), false, true), Flow::Continue);
    assert_eq!(app.selected_de_index, 1);
    assert_eq!(app.handle_key(Key::Ctrl('p'), false, true), Flow::Continue);
    assert_eq!(app.selected_pkg_manager_index, 1);
    assert_eq!(app.handle_key(Key::Char('x'), false, true), Flow::Continue);
    assert_eq!(app.handle_key(Key::Backspace, false, true), Flow::Continue);
    assert_eq!(app.input_buffer, "./de_switcher_KDE_to_GNOME.sh");
    assert_eq!(app.handle_key(Key::Char('q'), false, true), Flow::Cancelled);
    assert!(!app.should_quit);
    let mut other = kde_session();
    assert_eq!(other.handle_key(Key::Esc, false, true), Flow::Cancelled);
}

#[test]
fn path_editing_keys() {
    let mut app = App::new("KDE".to_string(), vec!["KDE-Desktop".to_string()]);
    app.handle_key(Key::Enter, false, true);
    app.input_buffer = "ab".to_string();
    app.input_cursor_position = 2;
    app.handle_key(Key::Left, false, true);
    assert_eq!(app.input_cursor_position, 1);
    app.handle_key(Key::Char('X'), false, true);
    assert_eq!(app.input_buffer, "aXb");
    assert_eq!(app.input_cursor_position, 2);
    app.handle_key(Key::Char('é'), false, true);
    assert_eq!(app.input_buffer, "aXéb");
    assert_eq!(app.input_cursor_position, 3);
    app.handle_key(Key::Backspace, false, true);
    assert_eq!(app.input_buffer, "aXb");
    app.handle_key(Key::Delete, false, true);
    assert_eq!(app.input_buffer, "aX");
    app.handle_key(Key::Delete, false, true);
    assert_eq!(app.input_buffer, "aX");
    app.handle_key(Key::Right, false, true);
    assert_eq!(app.input_cursor_position, 2);
    for _ in 0..3 {
        app.handle_key(Key::Left, false, true);
    }
    assert_eq!(app.input_cursor_position, 0);
    app.handle_key(Key::Backspace, false, true);
    assert_eq!(app.input_buffer, "aX");
    app.handle_key(Key::Char('j'), false, true);
    assert_eq!(app.input_buffer, "jaX");
    assert_eq!(app.selected_de_index, 0);
}

#[test]
fn failed_confirmation_keeps_editing() {
    let mut app = kde_session();
    app.handle_key(Key::Enter, false, true);
    assert_eq!(app.handle_key(Key::Enter, false, false), Flow::Continue);
    assert_eq!(app.current_step, AppStep::InputPath);
    assert_eq!(app.input_error.as_deref(), Some("Directory does not exist."));
    assert!(!app.should_quit);
    assert_eq!(app.handle_key(Key::Enter, true, true), Flow::Continue);
    assert_eq!(
        app.input_error.as_deref(),
        Some("Path cannot be a directory. Please provide a filename.")
    );
    assert_eq!(app.handle_key(Key::Enter, false, true), Flow::Done);
    assert!(app.input_error.is_none());
}

#[test]
fn cancel_path_entry_restores_default() {
    let mut app = kde_session();
    app.handle_key(Key::Enter, false, true);
    app.handle_key(Key::Char('z'), false, true);
    app.handle_key(Key::Enter, true, true);
    assert!(app.input_error.is_some());
    assert_eq!(app.handle_key(Key::Esc, false, true), Flow::Continue);
    assert_eq!(app.current_step, AppStep::SelectDE);
    assert!(app.input_error.is_none());
    assert_eq!(app.input_buffer, "./de_switcher_KDE_to_KDE.sh");
}

#[test]
fn final_script_uses_file_name_of_path() {
    let mut app = kde_session();
    app.input_buffer = "/tmp/out/switch.sh".to_string();
    let f = app.final_script();
    assert!(f.contains("# bash switch.sh\n"));
    app.input_buffer = "/tmp/..".to_string();
    assert!(app.final_script().contains("# bash de_switcher.sh\n"));
}
