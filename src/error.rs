//! The closed set of failures a command can report, and their messages.

use vstd::prelude::*;
use vstd::string::*;
use crate::text::join;

verus! {

/// Why a command failed. Each runtime failure carries the runtime's own text.
#[derive(Clone, Debug)]
pub enum ShellError {
    WindowNotFound,
    InvalidUrl(String),
    AttachFailed(String),
    PositionFailed(String),
    SizeFailed(String),
    ShowFailed(String),
    HideFailed(String),
    DestroyFailed(String),
    OpacityFailed(String),
    RefreshFailed(String),
    MenuItemFailed(String),
    MenuBuildFailed(String),
    MenuPopupFailed(String),
}

/// The human-readable message of an error, as the frontend receives it.
pub open spec fn message_of(e: ShellError) -> Seq<char> {
    match e {
        ShellError::WindowNotFound => "Main window not found"@,
        ShellError::InvalidUrl(d) => "Invalid URL: "@ + d@,
        ShellError::AttachFailed(d) => "Failed to create webview: "@ + d@,
        ShellError::PositionFailed(d) => "Failed to set position: "@ + d@,
        ShellError::SizeFailed(d) => "Failed to set size: "@ + d@,
        ShellError::ShowFailed(d) => "Failed to show webview: "@ + d@,
        ShellError::HideFailed(d) => "Failed to hide webview: "@ + d@,
        ShellError::DestroyFailed(d) => "Failed to destroy webview: "@ + d@,
        ShellError::OpacityFailed(d) => "Failed to set opacity: "@ + d@,
        ShellError::RefreshFailed(d) => "Failed to refresh webview: "@ + d@,
        ShellError::MenuItemFailed(d) => "Failed to create menu item: "@ + d@,
        ShellError::MenuBuildFailed(d) => "Failed to create menu: "@ + d@,
        ShellError::MenuPopupFailed(d) => "Failed to show context menu: "@ + d@,
    }
}

impl ShellError {
    /// The message the frontend receives for this error.
    pub fn message(&self) -> (r: String)
        ensures
            r@ == message_of(*self),
    {
        match self {
            ShellError::WindowNotFound => String::from_str("Main window not found"),
            ShellError::InvalidUrl(d) => join("Invalid URL: ", d.as_str()),
            ShellError::AttachFailed(d) => join("Failed to create webview: ", d.as_str()),
            ShellError::PositionFailed(d) => join("Failed to set position: ", d.as_str()),
            ShellError::SizeFailed(d) => join("Failed to set size: ", d.as_str()),
            ShellError::ShowFailed(d) => join("Failed to show webview: ", d.as_str()),
            ShellError::HideFailed(d) => join("Failed to hide webview: ", d.as_str()),
            ShellError::DestroyFailed(d) => join("Failed to destroy webview: ", d.as_str()),
            ShellError::OpacityFailed(d) => join("Failed to set opacity: ", d.as_str()),
            ShellError::RefreshFailed(d) => join("Failed to refresh webview: ", d.as_str()),
            ShellError::MenuItemFailed(d) => join("Failed to create menu item: ", d.as_str()),
            ShellError::MenuBuildFailed(d) => join("Failed to create menu: ", d.as_str()),
            ShellError::MenuPopupFailed(d) => join("Failed to show context menu: ", d.as_str()),
        }
    }
}

} // verus!
