//! Commands and notification levels the window layer exchanges with the
//! rest of the IDE.

use vstd::prelude::*;
use crate::wire::SearchOptions;

verus! {

/// A command sent to the window.
#[derive(Debug, Clone, PartialEq)]
pub enum UiCommand {
    OpenFile { path: String },
    OpenFolder { path: String },
    SaveFile { buffer_id: String },
    Search { query: String, options: SearchOptions },
    CancelSearch,
    SetTheme { theme_name: String },
    ShowNotification { message: String, level: NotificationLevel },
}

/// Severity of a message shown to the user.
#[derive(Debug, Clone, Copy, PartialEq, Eq, Structural)]
pub enum NotificationLevel {
    Info,
    Warning,
    Error,
    Success,
}

} // verus!
