//! The datapad: when it opens, what its faction tab shows and answers, and
//! which mission is the active one.

use vstd::prelude::*;
use crate::text::{decimal, owned, push_decimal};
use crate::text_input::InputType;

verus! {

/// What a press of the datapad key does.
#[derive(Debug, Clone, Copy, PartialEq, Eq, Structural)]
pub enum DatapadToggle {
    /// Nothing.
    Ignore,
    /// The open datapad closes.
    Close,
    /// The datapad opens, with its missions and faction tabs.
    Open,
}

/// What a press of the datapad key does: nothing unless it was just
/// pressed and the player pilots no ship; then it closes an open datapad
/// or opens one.
pub fn datapad_toggle(pressed: bool, piloting: bool, open: bool) -> (t: DatapadToggle)
    ensures
        !pressed || piloting ==> t == DatapadToggle::Ignore,
        pressed && !piloting && open ==> t == DatapadToggle::Close,
        pressed && !piloting && !open ==> t == DatapadToggle::Open,
{
    if !pressed || piloting {
        DatapadToggle::Ignore
    } else if open {
        DatapadToggle::Close
    } else {
        DatapadToggle::Open
    }
}

/// The datapad's tabs, left to right.
pub const DATAPAD_TABS: [&'static str; 2] = ["Missions", "Faction"];

// ---------------------------------------------------------------------------
// Faction tab
// ---------------------------------------------------------------------------

/// What the faction tab shows.
#[derive(Debug, Clone, Copy, PartialEq, Eq, Structural)]
pub enum FactionView {
    /// "No Faction" and a button to create one.
    NoFaction,
    /// The faction's name, its members, and buttons to invite and leave.
    WithFaction,
}

/// What the faction tab shows: the player's faction when the player has one
/// and it is known; otherwise that there is none.
pub fn faction_view(has_faction_id: bool, faction_known: bool) -> (v: FactionView)
    ensures
        v == (if has_faction_id && faction_known { FactionView::WithFaction } else { FactionView::NoFaction }),
{
    if has_faction_id && faction_known {
        FactionView::WithFaction
    } else {
        FactionView::NoFaction
    }
}

/// Whether the faction tab is drawn again: when the factions changed, or
/// the player's faction was set, changed or removed.
pub fn faction_needs_redraw(factions_changed: bool, own_faction_changed: bool, own_faction_removed: bool) -> (r: bool)
    ensures
        r == (factions_changed || own_faction_changed || own_faction_removed),
{
    factions_changed || own_faction_changed || own_faction_removed
}

/// The longest faction name the name box accepts.
pub const MAX_FACTION_NAME_CHARS: usize = 30;

/// The box the faction name is typed into.
pub fn faction_name_input() -> (t: InputType)
    ensures
        t == (InputType::Text { max_length: Some(MAX_FACTION_NAME_CHARS) }),
{
    InputType::Text { max_length: Some(MAX_FACTION_NAME_CHARS) }
}

/// Whether clicking "Create Faction" opens the name box: not when one is
/// already open.
pub fn opens_name_box(clicked: bool, name_box_open: bool) -> (r: bool)
    ensures
        r == (clicked && !name_box_open),
{
    clicked && !name_box_open
}

/// The server's answer to creating a faction.
#[derive(Debug, Clone, Copy, PartialEq, Eq, Structural)]
pub enum CreateFactionResponse {
    /// Another faction has that name.
    NameTaken,
    /// The server failed.
    ServerError,
    /// The name is too long.
    NameTooLong,
    /// The player already is in a faction.
    AlreadyInFaction,
    /// The faction was created.
    Success,
}

/// What the client does with the answer: show an error, or close the name
/// box.
#[derive(Debug, Clone, PartialEq, Eq)]
pub enum CreateFactionOutcome {
    /// Show this error.
    ShowError(String),
    /// Close the name box.
    CloseNameBox,
}

/// The error shown for each refusal.
pub open spec fn spec_refusal_text(r: CreateFactionResponse) -> Seq<char> {
    match r {
        CreateFactionResponse::NameTaken => "Faction name already taken."@,
        CreateFactionResponse::ServerError => "Something bad happened - check server logs."@,
        CreateFactionResponse::NameTooLong => "Faction name too long."@,
        CreateFactionResponse::AlreadyInFaction => "You cannot create a faction while being in one."@,
        CreateFactionResponse::Success => Seq::empty(),
    }
}

/// What the client does with the server's answer to creating a faction:
/// a success closes the name box; every refusal shows its error and leaves
/// the box open.
pub fn create_faction_outcome(r: CreateFactionResponse) -> (o: CreateFactionOutcome)
    ensures
        r == CreateFactionResponse::Success ==> o == CreateFactionOutcome::CloseNameBox,
        r != CreateFactionResponse::Success ==> (o matches CreateFactionOutcome::ShowError(t) && t@ == spec_refusal_text(r)),
{
    match r {
        CreateFactionResponse::NameTaken => CreateFactionOutcome::ShowError(owned("Faction name already taken.")),
        CreateFactionResponse::ServerError => CreateFactionOutcome::ShowError(
            owned("Something bad happened - check server logs."),
        ),
        CreateFactionResponse::NameTooLong => CreateFactionOutcome::ShowError(owned("Faction name too long.")),
        CreateFactionResponse::AlreadyInFaction => CreateFactionOutcome::ShowError(
            owned("You cannot create a faction while being in one."),
        ),
        CreateFactionResponse::Success => CreateFactionOutcome::CloseNameBox,
    }
}

/// The question asked before leaving a faction.
pub const LEAVE_FACTION_PROMPT: &'static str = "Are you sure you want to leave your faction?";

// ---------------------------------------------------------------------------
// Missions tab
// ---------------------------------------------------------------------------

/// The mission that is active after the player clicks mission `clicked`:
/// clicking the active mission makes none active, clicking another makes
/// it the active one.
pub open spec fn spec_after_click(active: Option<u64>, clicked: u64) -> Option<u64> {
    if active == Some(clicked) {
        None
    } else {
        Some(clicked)
    }
}

/// The mission that is active after the player clicks a mission.
pub fn active_after_click(active: Option<u64>, clicked: u64) -> (r: Option<u64>)
    ensures
        r == spec_after_click(active, clicked),
{
    match active {
        Some(a) => {
            if a == clicked {
                None
            } else {
                Some(clicked)
            }
        },
        None => Some(clicked),
    }
}

/// Clicking the same mission twice leaves the active mission as it was,
/// when that mission was the active one or none was.
pub proof fn law_click_twice(active: Option<u64>, clicked: u64)
    requires
        active is None || active == Some(clicked),
    ensures
        spec_after_click(spec_after_click(active, clicked), clicked) == active,
{
}

/// Whether the mission with this id is drawn as the active one.
pub fn is_active_mission(id: u64, active: Option<u64>) -> (r: bool)
    ensures
        r == (active == Some(id)),
{
    match active {
        Some(a) => a == id,
        None => false,
    }
}

/// The reward line of a mission: `+$` and the payout.
pub fn payout_text(payout: u64) -> (t: String)
    ensures
        t@ == "+$"@ + decimal(payout as nat),
{
    let mut t = owned("+$");
    push_decimal(&mut t, payout);
    t
}

/// What the missions tab says when there are none.
pub const NO_MISSIONS_TEXT: &'static str = "No Active Missions.";

/// The line below it.
pub const NO_MISSIONS_HINT: &'static str = "Hopefully a Merchant will give you one soon.";

} // verus!
