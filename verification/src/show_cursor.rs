//! Showing and hiding the cursor: it is shown exactly while some entity
//! carries a [`ShowCursor`].

use vstd::prelude::*;

verus! {

/// If any entity has this component, the cursor will be shown.
///
/// Otherwise, the cursor will be hidden.
#[derive(Debug, Clone, Copy, PartialEq, Eq, Structural, Default)]
pub struct ShowCursor;

/// What to do with the cursor this frame.
#[derive(Debug, Clone, Copy, PartialEq, Eq, Structural)]
pub enum CursorChange {
    /// Make it visible.
    Show,
    /// Hide it.
    Hide,
}

/// The change to make to the cursor, given how many entities carry
/// [`ShowCursor`] and whether it is shown now.
pub open spec fn planned_cursor_change(n_show_cursor: nat, cursor_shown: bool) -> Option<CursorChange> {
    if n_show_cursor == 0 {
        if cursor_shown { Some(CursorChange::Hide) } else { None }
    } else if !cursor_shown {
        Some(CursorChange::Show)
    } else {
        None
    }
}

/// Whether the cursor is shown after a change is made.
pub open spec fn shown_after(cursor_shown: bool, c: Option<CursorChange>) -> bool {
    match c {
        Some(CursorChange::Show) => true,
        Some(CursorChange::Hide) => false,
        None => cursor_shown,
    }
}

/// Given how many entities carry [`ShowCursor`] and whether the cursor is
/// shown now, the change to make, if any: it is hidden when none does and
/// shown when some do.
pub fn cursor_change(n_show_cursor: usize, cursor_shown: bool) -> (c: Option<CursorChange>)
    ensures
        c == planned_cursor_change(n_show_cursor as nat, cursor_shown),
{
    if n_show_cursor == 0 {
        if cursor_shown {
            Some(CursorChange::Hide)
        } else {
            None
        }
    } else if !cursor_shown {
        Some(CursorChange::Show)
    } else {
        None
    }
}

/// True if there are no open menus, that is, no entity carries
/// [`ShowCursor`].
///
/// This is particularlly useful if you are dealing with realtime inputs
/// you don't want running with UIs open, such as movement.
pub fn no_open_menus(n_show_cursor: usize) -> (r: bool)
    ensures
        r == (n_show_cursor == 0),
{
    n_show_cursor == 0
}

/// After the planned change is made, the cursor is shown exactly when some
/// entity carries [`ShowCursor`]; and no change is planned when it already
/// is in that state.
pub proof fn law_cursor_follows_show_cursor(n_show_cursor: nat, cursor_shown: bool)
    ensures
        shown_after(cursor_shown, planned_cursor_change(n_show_cursor, cursor_shown)) == (n_show_cursor > 0),
        (cursor_shown == (n_show_cursor > 0)) == (planned_cursor_change(n_show_cursor, cursor_shown) is None),
{
}

} // verus!
