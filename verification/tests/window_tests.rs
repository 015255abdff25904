use pester::window::{apply_window_command, on_close_requested, WindowCommand, WindowModel};

#[test]
fn close_request_hides_instead_of_terminating() {
    let w = WindowModel { visible: true, minimized: false, focused: true };
    let r = on_close_requested(w);
    assert!(r.prevent_close);
    assert!(!r.exit);
    assert!(!r.window.visible);
    assert!(!r.window.minimized);
    assert!(r.window.focused);
}

#[test]
fn hidden_window_is_recovered_by_an_open_selection() {
    let w = WindowModel { visible: true, minimized: false, focused: true };
    let hidden = on_close_requested(w).window;
    assert!(!hidden.visible);
    let reopened = apply_window_command(hidden, WindowCommand::Reveal);
    assert!(reopened.visible);
    assert!(!reopened.minimized);
    assert!(reopened.focused);
}

#[test]
fn reveal_unminimizes_shows_and_focuses() {
    let w = WindowModel { visible: false, minimized: true, focused: false };
    let r = apply_window_command(w, WindowCommand::Reveal);
    assert!(r.visible && !r.minimized && r.focused);
}

#[test]
fn tray_click_reveal_focuses_an_unfocused_minimized_window() {
    let w = WindowModel { visible: true, minimized: true, focused: false };
    let r = apply_window_command(w, WindowCommand::Reveal);
    assert!(r.visible && !r.minimized && r.focused);
}

#[test]
fn keep_changes_nothing() {
    let w = WindowModel { visible: false, minimized: true, focused: false };
    let r = apply_window_command(w, WindowCommand::Keep);
    assert!(r == w);
}
