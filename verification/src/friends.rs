//! Inviting friends: which group each friend is listed under, and which
//! friends the search box keeps visible.

use vstd::prelude::*;
use crate::reactivity::ReactableValue;
use crate::text::{contains, lowercase, owned, str_contains, to_lowercase, trim, trimmed};

verus! {

/// What the search box holds.
#[derive(Debug, Clone, PartialEq, Eq)]
pub struct FriendSearch(pub String);

impl ReactableValue for FriendSearch {
    open spec fn value_text(&self) -> Seq<char> {
        self.0@
    }

    open spec fn text_after_set(&self, text: Seq<char>) -> Seq<char> {
        text
    }

    fn as_value(&self) -> (r: String) {
        owned(self.0.as_str())
    }

    fn set_from_value(&mut self, new_value: &str) {
        self.0 = owned(new_value);
    }
}

/// A friend's state as Steam reports it.
#[derive(Debug, Clone, Copy, PartialEq, Eq, Structural)]
pub enum FriendState {
    /// Offline.
    Offline,
    /// Online.
    Online,
    /// Busy.
    Busy,
    /// Away.
    Away,
    /// Snoozing.
    Snooze,
    /// Looking to trade.
    LookingToTrade,
    /// Looking to play.
    LookingToPlay,
}

/// Whether a friend in this state is listed as offline: busy, away and
/// snoozing count as offline.
pub open spec fn spec_is_offline(state: FriendState) -> bool {
    match state {
        FriendState::Busy | FriendState::Away | FriendState::Offline | FriendState::Snooze => true,
        _ => false,
    }
}

/// Whether a friend in this state is listed as offline.
pub fn is_offline(state: FriendState) -> (r: bool)
    ensures
        r == spec_is_offline(state),
{
    match state {
        FriendState::Busy | FriendState::Away | FriendState::Offline | FriendState::Snooze => true,
        _ => false,
    }
}

/// What the list needs to know of a friend.
#[derive(Debug, Clone, Copy, PartialEq, Eq, Structural)]
pub struct FriendInfo {
    /// The friend's Steam id.
    pub id: u64,
    /// The friend's state.
    pub state: FriendState,
    /// Whether the friend is playing this game.
    pub in_this_game: bool,
}

/// The groups friends are listed under, in order.
#[derive(Debug, Clone, Copy, PartialEq, Eq, Structural)]
pub enum FriendGroup {
    /// Playing this game.
    InGame,
    /// Online, and not playing this game.
    Online,
    /// Offline.
    Offline,
}

/// The heading of a group.
pub fn group_title(g: FriendGroup) -> (t: &'static str)
    ensures
        t@ == (match g {
            FriendGroup::InGame => "In-Game"@,
            FriendGroup::Online => "Online"@,
            FriendGroup::Offline => "Offline"@,
        }),
{
    match g {
        FriendGroup::InGame => "In-Game",
        FriendGroup::Online => "Online",
        FriendGroup::Offline => "Offline",
    }
}

/// Whether some friend with this id plays this game.
pub open spec fn id_in_game(all: Seq<FriendInfo>, id: u64) -> bool {
    exists|j: int| 0 <= j < all.len() && (#[trigger] all[j]).in_this_game && all[j].id == id
}

/// Whether friend `f` is listed under group `g`. (A friend away while
/// playing is listed both in game and offline.)
pub open spec fn listed_under(all: Seq<FriendInfo>, f: FriendInfo, g: FriendGroup) -> bool {
    match g {
        FriendGroup::InGame => f.in_this_game,
        FriendGroup::Online => !spec_is_offline(f.state) && !id_in_game(all, f.id),
        FriendGroup::Offline => spec_is_offline(f.state),
    }
}

/// The indices, in order, of the first `n` friends listed under `g`.
pub open spec fn group_members(all: Seq<FriendInfo>, n: int, g: FriendGroup) -> Seq<usize>
    decreases n,
{
    if n <= 0 {
        Seq::empty()
    } else {
        let rest = group_members(all, n - 1, g);
        if listed_under(all, all[n - 1], g) {
            rest.push((n - 1) as usize)
        } else {
            rest
        }
    }
}

/// A friend is among the first `n` listed under `g` exactly when it is one
/// of the first `n` friends and is listed under `g`.
pub proof fn lemma_group_members_contains(all: Seq<FriendInfo>, n: int, g: FriendGroup, i: int)
    requires
        0 <= n <= all.len() <= usize::MAX,
        0 <= i < all.len(),
    ensures
        group_members(all, n, g).contains(i as usize) <==> (i < n && listed_under(all, all[i], g)),
    decreases n,
{
    if n > 0 {
        lemma_group_members_contains(all, n - 1, g, i);
        let rest = group_members(all, n - 1, g);
        if listed_under(all, all[n - 1], g) {
            assert(rest.push((n - 1) as usize)[rest.len() as int] == (n - 1) as usize);
            if rest.push((n - 1) as usize).contains(i as usize) && i != n - 1 {
                let k = choose|k: int| 0 <= k < rest.len() + 1 && #[trigger] rest.push((n - 1) as usize)[k] == i as usize;
                assert(rest[k] == i as usize);
            }
            if rest.contains(i as usize) {
                let k = choose|k: int| 0 <= k < rest.len() && #[trigger] rest[k] == i as usize;
                assert(rest.push((n - 1) as usize)[k] == i as usize);
            }
        }
    }
}

/// A friend who is offline, busy, away or snoozing is listed under Offline
/// and never under Online; one in any other state is never listed under
/// Offline.
pub proof fn law_offline_states_are_listed_offline(all: Seq<FriendInfo>, i: int)
    requires
        0 <= i < all.len() <= usize::MAX,
    ensures
        group_members(all, all.len() as int, FriendGroup::Offline).contains(i as usize) <==> (all[i].state
            == FriendState::Offline || all[i].state == FriendState::Busy || all[i].state == FriendState::Away
            || all[i].state == FriendState::Snooze),
        (all[i].state == FriendState::Offline || all[i].state == FriendState::Busy || all[i].state
            == FriendState::Away || all[i].state == FriendState::Snooze) ==> !group_members(
            all,
            all.len() as int,
            FriendGroup::Online,
        ).contains(i as usize),
{
    lemma_group_members_contains(all, all.len() as int, FriendGroup::Offline, i);
    lemma_group_members_contains(all, all.len() as int, FriendGroup::Online, i);
}

fn some_in_game_with_id(all: &Vec<FriendInfo>, id: u64) -> (r: bool)
    ensures
        r == id_in_game(all@, id),
{
    let mut j: usize = 0;
    while j < all.len()
        invariant
            j <= all.len(),
            forall|q: int| 0 <= q < j ==> !((#[trigger] all@[q]).in_this_game && all@[q].id == id),
        decreases all.len() - j,
    {
        if all[j].in_this_game && all[j].id == id {
            return true;
        }
        j = j + 1;
    }
    false
}

/// The indices, in order, of the friends listed under `g`.
pub fn friends_in_group(all: &Vec<FriendInfo>, g: FriendGroup) -> (r: Vec<usize>)
    ensures
        r@ == group_members(all@, all.len() as int, g),
{
    let mut r: Vec<usize> = Vec::new();
    let mut i: usize = 0;
    while i < all.len()
        invariant
            i <= all.len(),
            r@ == group_members(all@, i as int, g),
        decreases all.len() - i,
    {
        let f = all[i];
        let listed = match g {
            FriendGroup::InGame => f.in_this_game,
            FriendGroup::Online => !is_offline(f.state) && !some_in_game_with_id(all, f.id),
            FriendGroup::Offline => is_offline(f.state),
        };
        if listed {
            r.push(i);
        }
        i = i + 1;
    }
    r
}

/// Where no two friends share an id, every friend is listed under at least
/// one group; and no friend is both online and offline, nor both online
/// and in game.
pub proof fn law_every_friend_is_listed(all: Seq<FriendInfo>, i: int)
    requires
        0 <= i < all.len(),
        forall|j: int, k: int| 0 <= j < all.len() && 0 <= k < all.len() && #[trigger] all[j].id == #[trigger] all[k].id ==> j == k,
    ensures
        listed_under(all, all[i], FriendGroup::InGame) || listed_under(all, all[i], FriendGroup::Online)
            || listed_under(all, all[i], FriendGroup::Offline),
        !(listed_under(all, all[i], FriendGroup::Online) && listed_under(all, all[i], FriendGroup::Offline)),
        !(listed_under(all, all[i], FriendGroup::Online) && listed_under(all, all[i], FriendGroup::InGame)),
{
    if !all[i].in_this_game && !spec_is_offline(all[i].state) {
        if id_in_game(all, all[i].id) {
            let j = choose|j: int| 0 <= j < all.len() && (#[trigger] all[j]).in_this_game && all[j].id == all[i].id;
            assert(j == i);
        }
    }
    if all[i].in_this_game {
        assert(id_in_game(all, all[i].id));
    }
}

// ---------------------------------------------------------------------------
// Search
// ---------------------------------------------------------------------------

/// The search term as it is compared: trimmed, then in lower case.
pub open spec fn search_term(search: Seq<char>) -> Seq<char> {
    lowercase(trimmed(search))
}

/// Whether a friend stays visible for a search: its name in lower case, or
/// its nickname as it is, holds the search term.
pub open spec fn matches_search(name: Seq<char>, nick: Option<Seq<char>>, search: Seq<char>) -> bool {
    let term = search_term(search);
    contains(lowercase(name), term) || match nick {
        Some(n) => contains(n, term),
        None => false,
    }
}

/// Whether a friend with this name and nickname stays visible for the
/// search typed.
pub fn friend_visible(name: &str, nick: &Option<String>, search: &str) -> (r: bool)
    ensures
        r == matches_search(name@, match nick {
            Some(n) => Some(n@),
            None => None,
        }, search@),
{
    let t = trim(search);
    let term = to_lowercase(t.as_str());
    let lname = to_lowercase(name);
    if str_contains(lname.as_str(), term.as_str()) {
        return true;
    }
    match nick {
        Some(n) => str_contains(n.as_str(), term.as_str()),
        None => false,
    }
}

/// The name a friend is listed by: the nickname given, else the name.
pub fn friend_display_name(name: &str, nick: &Option<String>) -> (r: String)
    ensures
        r@ == (match nick {
            Some(n) => n@,
            None => name@,
        }),
{
    match nick {
        Some(n) => owned(n.as_str()),
        None => owned(name),
    }
}

} // verus!
