//! The tray icon: what its menu entries and clicks do.
use crate::text::reads;
use vstd::prelude::*;

verus! {

/// What the user asked of the tray icon.
#[derive(Clone, Copy, PartialEq, Eq, Structural)]
pub enum TrayAction {
    /// Show the settings window.
    Show,
    /// End the program.
    Quit,
    /// Nothing.
    Ignore,
}

/// What choosing the menu entry of this id does.
pub fn menu_action(id: &str) -> (action: TrayAction)
    ensures
        action == (if id@ == "show"@ {
            TrayAction::Show
        } else if id@ == "quit"@ {
            TrayAction::Quit
        } else {
            TrayAction::Ignore
        }),
{
    if reads(id, "show") {
        TrayAction::Show
    } else if reads(id, "quit") {
        TrayAction::Quit
    } else {
        TrayAction::Ignore
    }
}

/// What a click on the icon itself does: letting go of the left button shows
/// the window.
pub fn click_action(left_button: bool, released: bool) -> (action: TrayAction)
    ensures
        action == (if left_button && released {
            TrayAction::Show
        } else {
            TrayAction::Ignore
        }),
{
    if left_button && released {
        TrayAction::Show
    } else {
        TrayAction::Ignore
    }
}

/// Each of the two menu entries does what it says, and no other id does anything.
pub proof fn law_menu_entries(id: &str, action: TrayAction)
    requires
        call_ensures(menu_action, (id,), action),
    ensures
        action == TrayAction::Show <==> id@ == seq!['s', 'h', 'o', 'w'],
        action == TrayAction::Quit <==> id@ == seq!['q', 'u', 'i', 't'],
{
    reveal_strlit("show");
    reveal_strlit("quit");
    assert("show"@ =~= seq!['s', 'h', 'o', 'w']);
    assert("quit"@ =~= seq!['q', 'u', 'i', 't']);
    assert("show"@[0] != "quit"@[0]);
}

/// A click shows the window exactly when the left button is let go, and never ends
/// the program.
pub proof fn law_left_click_shows(left: bool, released: bool, action: TrayAction)
    requires
        call_ensures(click_action, (left, released), action),
    ensures
        action == TrayAction::Show <==> left && released,
        action != TrayAction::Quit,
{
}

} // verus!
