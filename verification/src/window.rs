//! The one decision the core makes for the windowing shell: whether a
//! visibility request should show or hide the main window.

use vstd::prelude::*;

verus! {

/// What the windowing shell should do with the main window.
#[derive(Clone, Copy, PartialEq, Eq, Structural, Debug)]
pub enum WindowAction {
    Show,
    Hide,
}

/// Decides a toggle request: a window that is both visible and focused is
/// hidden; one that is hidden or unfocused is shown and focused.
pub fn toggle_decision(is_visible: bool, is_focused: bool) -> (r: WindowAction)
    ensures
        r == if is_visible && is_focused {
            WindowAction::Hide
        } else {
            WindowAction::Show
        },
{
    if is_visible && is_focused {
        WindowAction::Hide
    } else {
        WindowAction::Show
    }
}

} // verus!
