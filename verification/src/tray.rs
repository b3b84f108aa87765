//! What the system tray does with a menu choice or a click.

use vstd::prelude::*;
use crate::text::str_eq;

verus! {

/// What the tray does to the application.
#[derive(Debug, Clone, Copy, PartialEq, Eq, Structural)]
pub enum TrayAction {
    /// Exit the application.
    Quit,
    /// Show the main window and focus it.
    ShowMain,
    /// Hide the main window.
    HideMain,
    /// Nothing.
    Ignore,
}

/// The menu items of the tray, as (id, label).
pub const MENU_ITEMS: [(&'static str, &'static str); 3] = [("show", "Show"), ("hide", "Hide"), ("quit", "Quit")];

/// The action of a menu item, by its id.
pub open spec fn menu_action_spec(id: Seq<char>) -> TrayAction {
    if id == "quit"@ {
        TrayAction::Quit
    } else if id == "show"@ {
        TrayAction::ShowMain
    } else if id == "hide"@ {
        TrayAction::HideMain
    } else {
        TrayAction::Ignore
    }
}

/// The action of the tray menu item with the given id.
pub fn menu_action(id: &str) -> (r: TrayAction)
    ensures
        r == menu_action_spec(id@),
{
    if str_eq(id, "quit") {
        TrayAction::Quit
    } else if str_eq(id, "show") {
        TrayAction::ShowMain
    } else if str_eq(id, "hide") {
        TrayAction::HideMain
    } else {
        TrayAction::Ignore
    }
}

/// The action of a click on the tray icon: a left click, on release,
/// toggles the main window (a window whose visibility cannot be read counts
/// as hidden); any other click does nothing.
pub fn click_action(left_button: bool, released: bool, main_visible: Option<bool>) -> (r: TrayAction)
    ensures
        r == if left_button && released {
            if main_visible == Some(true) { TrayAction::HideMain } else { TrayAction::ShowMain }
        } else {
            TrayAction::Ignore
        },
{
    if left_button && released {
        let visible = match main_visible {
            Some(v) => v,
            None => false,
        };
        if visible {
            TrayAction::HideMain
        } else {
            TrayAction::ShowMain
        }
    } else {
        TrayAction::Ignore
    }
}

} // verus!
