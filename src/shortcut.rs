//! Keyboard shortcuts: in-focus application shortcuts named by a descriptor
//! string, and the process-wide global chords.

use vstd::prelude::*;
use vstd::string::*;
use crate::text::str_equal;

verus! {

/// The action id an application shortcut descriptor stands for.
pub open spec fn app_action_of(s: Seq<char>) -> Option<Seq<char>> {
    if s == "CommandOrControl+T"@ {
        Some("new_tab"@)
    } else if s == "CommandOrControl+W"@ {
        Some("close_tab"@)
    } else if s == "CommandOrControl+Shift+T"@ {
        Some("reopen_tab"@)
    } else if s == "CommandOrControl+R"@ {
        Some("refresh_tab"@)
    } else if s == "CommandOrControl+Tab"@ {
        Some("next_tab"@)
    } else if s == "CommandOrControl+Shift+Tab"@ {
        Some("prev_tab"@)
    } else if s == "CommandOrControl+M"@ {
        Some("minimize_window"@)
    } else if s == "Alt+Enter"@ {
        Some("toggle_maximize"@)
    } else if s == "CommandOrControl+Q"@ {
        Some("close_window"@)
    } else if s == "CommandOrControl+H"@ {
        Some("hide_app"@)
    } else if s == "F1"@ {
        Some("show_help"@)
    } else if s == "Escape"@ {
        Some("hide_help"@)
    } else if s == "CommandOrControl+1"@ {
        Some("switch_tab_1"@)
    } else if s == "CommandOrControl+2"@ {
        Some("switch_tab_2"@)
    } else if s == "CommandOrControl+3"@ {
        Some("switch_tab_3"@)
    } else if s == "CommandOrControl+4"@ {
        Some("switch_tab_4"@)
    } else if s == "CommandOrControl+5"@ {
        Some("switch_tab_5"@)
    } else if s == "CommandOrControl+6"@ {
        Some("switch_tab_6"@)
    } else if s == "CommandOrControl+7"@ {
        Some("switch_tab_7"@)
    } else if s == "CommandOrControl+8"@ {
        Some("switch_tab_8"@)
    } else if s == "CommandOrControl+9"@ {
        Some("switch_tab_9"@)
    } else {
        None
    }
}

/// Maps a shortcut descriptor such as `CommandOrControl+T` to its action id.
pub fn app_shortcut_action(shortcut: &str) -> (r: Option<&'static str>)
    ensures
        match r {
            Some(a) => app_action_of(shortcut@) == Some(a@),
            None => app_action_of(shortcut@) is None,
        },
{
    if str_equal(shortcut, "CommandOrControl+T") {
        return Some("new_tab");
    }
    if str_equal(shortcut, "CommandOrControl+W") {
        return Some("close_tab");
    }
    if str_equal(shortcut, "CommandOrControl+Shift+T") {
        return Some("reopen_tab");
    }
    if str_equal(shortcut, "CommandOrControl+R") {
        return Some("refresh_tab");
    }
    if str_equal(shortcut, "CommandOrControl+Tab") {
        return Some("next_tab");
    }
    if str_equal(shortcut, "CommandOrControl+Shift+Tab") {
        return Some("prev_tab");
    }
    if str_equal(shortcut, "CommandOrControl+M") {
        return Some("minimize_window");
    }
    if str_equal(shortcut, "Alt+Enter") {
        return Some("toggle_maximize");
    }
    if str_equal(shortcut, "CommandOrControl+Q") {
        return Some("close_window");
    }
    if str_equal(shortcut, "CommandOrControl+H") {
        return Some("hide_app");
    }
    if str_equal(shortcut, "F1") {
        return Some("show_help");
    }
    if str_equal(shortcut, "Escape") {
        return Some("hide_help");
    }
    if str_equal(shortcut, "CommandOrControl+1") {
        return Some("switch_tab_1");
    }
    if str_equal(shortcut, "CommandOrControl+2") {
        return Some("switch_tab_2");
    }
    if str_equal(shortcut, "CommandOrControl+3") {
        return Some("switch_tab_3");
    }
    if str_equal(shortcut, "CommandOrControl+4") {
        return Some("switch_tab_4");
    }
    if str_equal(shortcut, "CommandOrControl+5") {
        return Some("switch_tab_5");
    }
    if str_equal(shortcut, "CommandOrControl+6") {
        return Some("switch_tab_6");
    }
    if str_equal(shortcut, "CommandOrControl+7") {
        return Some("switch_tab_7");
    }
    if str_equal(shortcut, "CommandOrControl+8") {
        return Some("switch_tab_8");
    }
    if str_equal(shortcut, "CommandOrControl+9") {
        return Some("switch_tab_9");
    }
    None
}

/// What the host said about the main window's input focus.
#[derive(Clone, Copy, Debug, PartialEq, Eq, Structural)]
pub enum Focus {
    /// There is no main window.
    NoWindow,
    /// The focus state could not be read.
    Unknown,
    Unfocused,
    Focused,
}

/// An event for the frontend: its name and its string payload.
#[derive(Clone, Debug)]
pub struct Emission {
    pub event: String,
    pub payload: String,
}

/// `r` is the emission of `event` with `payload`.
pub open spec fn emits(r: Option<Emission>, event: Seq<char>, payload: Seq<char>) -> bool {
    match r {
        Some(e) => e.event@ == event && e.payload@ == payload,
        None => false,
    }
}

/// Handles an application shortcut: it fires only while the main window is
/// known to have focus, and only for a known descriptor.
pub fn handle_app_shortcut(focus: Focus, shortcut: &str) -> (r: Option<Emission>)
    ensures
        focus == Focus::Focused && app_action_of(shortcut@) is Some ==> emits(
            r,
            "app_shortcut"@,
            app_action_of(shortcut@)->Some_0,
        ),
        !(focus == Focus::Focused && app_action_of(shortcut@) is Some) ==> r is None,
{
    match focus {
        Focus::Focused => {},
        _ => return None,
    }
    match app_shortcut_action(shortcut) {
        Some(action) => Some(
            Emission { event: String::from_str("app_shortcut"), payload: String::from_str(action) },
        ),
        None => None,
    }
}

/// Whether a global chord was pressed or released.
#[derive(Clone, Copy, Debug, PartialEq, Eq, Structural)]
pub enum KeyState {
    Pressed,
    Released,
}

/// The key of a chord, as far as the global shortcuts tell keys apart.
#[derive(Clone, Copy, Debug, PartialEq, Eq, Structural)]
pub enum KeyCode {
    KeyB,
    KeyN,
    KeyV,
    Other,
}

/// A key with its modifiers: control, shift, and whether any other modifier
/// is held.
#[derive(Clone, Copy, Debug, PartialEq, Eq, Structural)]
pub struct Chord {
    pub ctrl: bool,
    pub shift: bool,
    pub other_modifiers: bool,
    pub key: KeyCode,
}

/// The descriptors of the global shortcuts registered at start-up.
pub fn global_shortcut_descriptors() -> (r: Vec<&'static str>)
    ensures
        r@.len() == 3,
        r@[0]@ == "Ctrl+Shift+B"@,
        r@[1]@ == "Ctrl+Shift+N"@,
        r@[2]@ == "Ctrl+Shift+V"@,
{
    let mut v: Vec<&'static str> = Vec::new();
    v.push("Ctrl+Shift+B");
    v.push("Ctrl+Shift+N");
    v.push("Ctrl+Shift+V");
    v
}

/// The action id of a global chord: exactly Ctrl+Shift with B, N or V.
pub open spec fn global_action_of(c: Chord) -> Option<Seq<char>> {
    if c.ctrl && c.shift && !c.other_modifiers {
        match c.key {
            KeyCode::KeyB => Some("global_show_app"@),
            KeyCode::KeyN => Some("global_new_tab"@),
            KeyCode::KeyV => Some("global_toggle_visibility"@),
            KeyCode::Other => None,
        }
    } else {
        None
    }
}

/// Handles a global chord, whatever the window's focus: a press of a
/// registered chord is reported; anything else is ignored.
pub fn global_shortcut_event(state: KeyState, chord: Chord) -> (r: Option<Emission>)
    ensures
        state == KeyState::Pressed && global_action_of(chord) is Some ==> emits(
            r,
            "global_shortcut"@,
            global_action_of(chord)->Some_0,
        ),
        !(state == KeyState::Pressed && global_action_of(chord) is Some) ==> r is None,
{
    if state != KeyState::Pressed || !chord.ctrl || !chord.shift || chord.other_modifiers {
        return None;
    }
    let action = match chord.key {
        KeyCode::KeyB => "global_show_app",
        KeyCode::KeyN => "global_new_tab",
        KeyCode::KeyV => "global_toggle_visibility",
        KeyCode::Other => return None,
    };
    Some(Emission { event: String::from_str("global_shortcut"), payload: String::from_str(action) })
}

} // verus!
