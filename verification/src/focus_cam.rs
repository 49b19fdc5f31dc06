//! The picture-in-picture view of the waypoint focused while piloting: when
//! it is shown, and the key that toggles it.

use vstd::prelude::*;
use crate::reasons::{added, removed, law_added_reason_hides, law_remove_undoes_add, law_removed_reason_is_gone, HiddenReasons};

verus! {

/// The reason the view is hidden while no ship, station or asteroid is
/// focused.
pub const NOT_FOCUSED_REASON: &'static str = "cosmos:ship_not_focused";

/// The reason the view is hidden after the player toggled it off.
pub const TOGGLED_REASON: &'static str = "cosmos:toggled_off";

/// Toggles the view with its key: removes the toggled-off reason when it is
/// there, and adds it otherwise. Returns whether the view is now toggled
/// off.
pub fn toggle_view(reasons: &mut HiddenReasons) -> (off: bool)
    ensures
        off == !old(reasons)@.contains(TOGGLED_REASON@),
        off ==> final(reasons)@ == added(old(reasons)@, TOGGLED_REASON@),
        !off ==> final(reasons)@ == removed(old(reasons)@, TOGGLED_REASON@),
{
    if reasons.has_reason(TOGGLED_REASON) {
        reasons.remove_reason(TOGGLED_REASON);
        false
    } else {
        reasons.add_reason(TOGGLED_REASON);
        true
    }
}

/// Updates the view's reasons for this frame: with no valid focus target it
/// is hidden as not focused; with one, that reason goes, and the toggled-off
/// reason is kept while the player has the view toggled off. Returns
/// whether the view's camera renders.
pub fn update_focus_view(reasons: &mut HiddenReasons, has_target: bool, toggled_off: bool) -> (active: bool)
    ensures
        active == has_target,
        !has_target ==> final(reasons)@ == added(old(reasons)@, NOT_FOCUSED_REASON@),
        has_target && !toggled_off ==> final(reasons)@ == removed(old(reasons)@, NOT_FOCUSED_REASON@),
        has_target && toggled_off ==> final(reasons)@ == added(
            removed(old(reasons)@, NOT_FOCUSED_REASON@),
            TOGGLED_REASON@,
        ),
{
    if !has_target {
        reasons.add_reason(NOT_FOCUSED_REASON);
        return false;
    }
    reasons.remove_reason(NOT_FOCUSED_REASON);
    if toggled_off {
        reasons.add_reason(TOGGLED_REASON);
    }
    true
}

/// Each press of the toggle key flips whether the view is toggled off; two
/// presses, starting from on, give back the reasons there were.
pub proof fn law_toggle_flips(v: Seq<Seq<char>>)
    requires
        v.no_duplicates(),
    ensures
        added(v, TOGGLED_REASON@).contains(TOGGLED_REASON@),
        !removed(v, TOGGLED_REASON@).contains(TOGGLED_REASON@),
        !v.contains(TOGGLED_REASON@) ==> removed(added(v, TOGGLED_REASON@), TOGGLED_REASON@) == v,
{
    law_added_reason_hides(v, TOGGLED_REASON@);
    reveal_strlit("cosmos:toggled_off");
    reveal_strlit("cosmos:ship_not_focused");
    assert(TOGGLED_REASON@.len() != NOT_FOCUSED_REASON@.len());
    law_removed_reason_is_gone(v, TOGGLED_REASON@, NOT_FOCUSED_REASON@);
    if !v.contains(TOGGLED_REASON@) {
        law_remove_undoes_add(v, TOGGLED_REASON@);
    }
}

} // verus!
