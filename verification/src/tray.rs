//! The menu of the tray icon.

use vstd::prelude::*;
use crate::messages::{GUIMessage, GUIMessageView};

verus! {

/// Identifier of the tray icon.
pub const TRAY_ID: &'static str = "songrec";

/// Name of the icon shown in the tray.
pub const TRAY_ICON_NAME: &'static str = "re.fossplant.songrec";

/// Title of the tray icon.
pub const TRAY_TITLE: &'static str = "SongRec";

/// An entry of the tray icon's menu.
#[derive(Clone, Copy, Debug, PartialEq, Eq, Structural)]
pub enum TrayEntry {
    /// Bring up the main window.
    OpenWindow,
    /// End the application.
    Quit,
}

/// The event that choosing `entry` sends to the presentation surfaces.
pub open spec fn entry_event(entry: TrayEntry) -> GUIMessageView {
    match entry {
        TrayEntry::OpenWindow => GUIMessageView::ShowWindow,
        TrayEntry::Quit => GUIMessageView::QuitApplication,
    }
}

/// The entries of the menu, from top to bottom.
pub fn menu() -> (entries: Vec<TrayEntry>)
    ensures
        entries@ == seq![TrayEntry::OpenWindow, TrayEntry::Quit],
{
    let mut entries: Vec<TrayEntry> = Vec::new();
    entries.push(TrayEntry::OpenWindow);
    entries.push(TrayEntry::Quit);
    assert(entries@ =~= seq![TrayEntry::OpenWindow, TrayEntry::Quit]);
    entries
}

/// The event that is sent when `entry` is chosen.
pub fn activate(entry: TrayEntry) -> (message: GUIMessage)
    ensures
        message@ == entry_event(entry),
{
    match entry {
        TrayEntry::OpenWindow => GUIMessage::ShowWindow,
        TrayEntry::Quit => GUIMessage::QuitApplication,
    }
}

} // verus!
