use webview_shell::shortcut::{
    app_shortcut_action, global_shortcut_descriptors, global_shortcut_event, handle_app_shortcut,
    Chord, Emission, Focus, KeyCode, KeyState,
};

fn pair(e: Option<Emission>) -> Option<(String, String)> {
    e.map(|e| (e.event, e.payload))
}

fn ctrl_shift(key: KeyCode) -> Chord {
    Chord { ctrl: true, shift: true, other_modifiers: false, key }
}

#[test]
fn new_tab_when_focused() {
    assert_eq!(
        pair(handle_app_shortcut(Focus::Focused, "CommandOrControl+T")),
        Some(("app_shortcut".to_string(), "new_tab".to_string()))
    );
}

#[test]
fn nothing_when_unfocused() {
    assert_eq!(pair(handle_app_shortcut(Focus::Unfocused, "CommandOrControl+T")), None);
    assert_eq!(pair(handle_app_shortcut(Focus::Unknown, "CommandOrControl+T")), None);
    assert_eq!(pair(handle_app_shortcut(Focus::NoWindow, "CommandOrControl+T")), None);
}

#[test]
fn unknown_descriptor_ignored() {
    assert_eq!(pair(handle_app_shortcut(Focus::Focused, "CommandOrControl+Z")), None);
    assert_eq!(pair(handle_app_shortcut(Focus::Focused, "")), None);
    assert_eq!(app_shortcut_action("commandorcontrol+t"), None);
}

#[test]
fn shortcut_table() {
    let table = [
        ("CommandOrControl+T", "new_tab"),
        ("CommandOrControl+W", "close_tab"),
        ("CommandOrControl+Shift+T", "reopen_tab"),
        ("CommandOrControl+R", "refresh_tab"),
        ("CommandOrControl+Tab", "next_tab"),
        ("CommandOrControl+Shift+Tab", "prev_tab"),
        ("CommandOrControl+M", "minimize_window"),
        ("Alt+Enter", "toggle_maximize"),
        ("CommandOrControl+Q", "close_window"),
        ("CommandOrControl+H", "hide_app"),
        ("F1", "show_help"),
        ("Escape", "hide_help"),
        ("CommandOrControl+1", "switch_tab_1"),
        ("CommandOrControl+5", "switch_tab_5"),
        ("CommandOrControl+9", "switch_tab_9"),
    ];
    for (descriptor, action) in table {
        assert_eq!(app_shortcut_action(descriptor), Some(action));
    }
}

#[test]
fn global_show_app_on_press() {
    assert_eq!(
        pair(global_shortcut_event(KeyState::Pressed, ctrl_shift(KeyCode::KeyB))),
        Some(("global_shortcut".to_string(), "global_show_app".to_string()))
    );
}

#[test]
fn global_new_tab_and_toggle() {
    assert_eq!(
        pair(global_shortcut_event(KeyState::Pressed, ctrl_shift(KeyCode::KeyN))),
        Some(("global_shortcut".to_string(), "global_new_tab".to_string()))
    );
    assert_eq!(
        pair(global_shortcut_event(KeyState::Pressed, ctrl_shift(KeyCode::KeyV))),
        Some(("global_shortcut".to_string(), "global_toggle_visibility".to_string()))
    );
}

#[test]
fn global_ignores_release_and_other_chords() {
    assert_eq!(pair(global_shortcut_event(KeyState::Released, ctrl_shift(KeyCode::KeyB))), None);
    assert_eq!(pair(global_shortcut_event(KeyState::Pressed, ctrl_shift(KeyCode::Other))), None);
    let with_alt = Chord { ctrl: true, shift: true, other_modifiers: true, key: KeyCode::KeyB };
    assert_eq!(pair(global_shortcut_event(KeyState::Pressed, with_alt)), None);
    let ctrl_only = Chord { ctrl: true, shift: false, other_modifiers: false, key: KeyCode::KeyB };
    assert_eq!(pair(global_shortcut_event(KeyState::Pressed, ctrl_only)), None);
}

#[test]
fn global_descriptors_registered() {
    assert_eq!(global_shortcut_descriptors(), vec!["Ctrl+Shift+B", "Ctrl+Shift+N", "Ctrl+Shift+V"]);
}
