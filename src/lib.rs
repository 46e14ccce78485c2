//! Native core of a multi-tab desktop shell: the rules that decide what
//! happens to embedded content surfaces, context menus and keyboard shortcuts.
//! The windowing runtime itself is driven from outside; the functions here take
//! its answers as plain values and say what follows from them.

pub mod error;
pub mod greeting;
pub mod menu;
pub mod shortcut;
pub mod surface;
pub mod text;
