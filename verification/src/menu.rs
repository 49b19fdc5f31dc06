//! Menus that the pause key closes, and the rule that picks which of them a
//! press of that key closes.
//!
//! Every open menu has a level. One press closes the group of menus at the
//! highest level, all together; menus below that level stay open until a
//! later press.

use vstd::prelude::*;

verus! {

/// All systems that handle GUI interactions should be in here
#[derive(Debug, Clone, Copy, PartialEq, Eq, Structural, Hash)]
pub enum UiSystemSet {
    /// Handles the logic behind detecting changed react values
    PreDoUi,
    /// UI systems should do their work here
    DoUi,
    /// After this, all UI systems are finished
    FinishUi,
}

/// How a menu should be closed
#[derive(Debug, Clone, Copy, PartialEq, Eq, Structural, Hash)]
pub enum CloseMethod {
    /// The menu should be despawned.
    Despawn,
    /// The menu should be hidden.
    Visibility,
    /// This menu cannot be automatically closed (eg via escape)
    Disabled,
    /// You will handle closing this menu yourself, in answer to a close
    /// message.
    Custom,
}

impl Default for CloseMethod {
    fn default() -> (m: Self)
        ensures
            m == CloseMethod::Despawn,
    {
        CloseMethod::Despawn
    }
}

/// When you make a menu that can be closed via the `Escape`/pause menu key,
/// give it one of these.
#[derive(Debug, Clone, Copy, PartialEq, Eq, Structural, Hash)]
pub struct OpenMenu {
    level: u32,
    close_method: CloseMethod,
}

/// The menu level that modal dialogs open at.
pub const MODAL_MENU_LEVEL: u32 = 10;

impl OpenMenu {
    /// The level of this menu.
    pub closed spec fn spec_level(self) -> u32 {
        self.level
    }

    /// The way this menu is closed.
    pub closed spec fn spec_close_method(self) -> CloseMethod {
        self.close_method
    }

    /// The menu at `level` that is closed by `close_method`.
    pub closed spec fn spec_made(level: u32, close_method: CloseMethod) -> OpenMenu {
        OpenMenu { level, close_method }
    }

    /// A menu is the one made from its level and close method: two menus
    /// with the same level and the same close method are the same value.
    pub proof fn law_made_from_fields(self)
        ensures
            self == OpenMenu::spec_made(self.spec_level(), self.spec_close_method()),
            OpenMenu::spec_made(self.spec_level(), self.spec_close_method()).spec_level() == self.spec_level(),
            OpenMenu::spec_made(self.spec_level(), self.spec_close_method()).spec_close_method()
                == self.spec_close_method(),
    {
    }

    /// A menu made with a level and the despawn close method is the same
    /// value as the one [`OpenMenu::new`] makes for that level: `a` stands
    /// for what `new(level)` returns, `b` for what
    /// `with_close_method(level, CloseMethod::Despawn)` returns.
    pub proof fn law_despawn_is_new(level: u32, a: OpenMenu, b: OpenMenu)
        requires
            a.spec_level() == level,
            a.spec_close_method() == CloseMethod::Despawn,
            b.spec_level() == level,
            b.spec_close_method() == CloseMethod::Despawn,
        ensures
            a == b,
            a == OpenMenu::spec_made(level, CloseMethod::Despawn),
    {
    }

    /// Creates an open menu with this "level" of being above every other menu.
    ///
    /// This doesn't effect rendering order, rather effects which menu the
    /// "Escape" button will target first. Menus of the same level will all be
    /// closed together. Each escape press will remove the highest-level group
    /// of menus.
    pub fn new(level: u32) -> (m: Self)
        ensures
            m == OpenMenu::spec_made(level, CloseMethod::Despawn),
            m.spec_level() == level,
            m.spec_close_method() == CloseMethod::Despawn,
    {
        OpenMenu { level, close_method: CloseMethod::Despawn }
    }

    /// Creates an open menu with this level, closed by `close_method`.
    pub fn with_close_method(level: u32, close_method: CloseMethod) -> (m: Self)
        ensures
            m == OpenMenu::spec_made(level, close_method),
            m.spec_level() == level,
            m.spec_close_method() == close_method,
    {
        OpenMenu { level, close_method }
    }

    /// Sets the level for this menu
    pub fn set_level(&mut self, level: u32)
        ensures
            final(self).spec_level() == level,
            final(self).spec_close_method() == old(self).spec_close_method(),
    {
        self.level = level;
    }

    /// Gets the level for this menu
    pub fn level(&self) -> (l: u32)
        ensures
            l == self.spec_level(),
    {
        self.level
    }

    /// Gets the method that should be used to close this menu
    pub fn close_method(&self) -> (m: &CloseMethod)
        ensures
            *m == self.spec_close_method(),
    {
        &self.close_method
    }
}

/// An open menu as the pause key sees it: the entity that carries it, its
/// [`OpenMenu`], and whether it is currently hidden.
#[derive(Debug, Clone, Copy, PartialEq, Eq, Structural)]
pub struct MenuEntry {
    /// The entity the menu is on.
    pub entity: u64,
    /// The menu's level and close method.
    pub menu: OpenMenu,
    /// Whether the menu is hidden at the moment.
    pub hidden: bool,
}

/// What closing one menu takes.
#[derive(Debug, Clone, Copy, PartialEq, Eq, Structural)]
pub struct CloseAction {
    /// The entity the menu is on.
    pub entity: u64,
    /// How to close it: despawn it, hide it (and drop its menu and cursor
    /// markers), or send it a close message.
    pub method: CloseMethod,
}

/// The menus one press of the pause key closes.
#[derive(Debug, PartialEq, Eq)]
pub struct CloseOutcome {
    /// The menus to close, in the order they were given.
    pub actions: Vec<CloseAction>,
    /// Whether every open menu was closed by this press.
    pub all_closed: bool,
}

/// A menu still counts as open unless it is closed by hiding and is hidden.
pub open spec fn counts_as_open(m: MenuEntry) -> bool {
    !(m.menu.spec_close_method() is Visibility) || !m.hidden
}

/// The highest level among the menus that count as open, or -1 when none
/// does.
pub open spec fn top_level(ms: Seq<MenuEntry>) -> int
    decreases ms.len(),
{
    if ms.len() == 0 {
        -1
    } else {
        let rest = top_level(ms.drop_last());
        let m = ms.last();
        if counts_as_open(m) && m.menu.spec_level() as int > rest {
            m.menu.spec_level() as int
        } else {
            rest
        }
    }
}

/// The menus that count as open and stand at `level`, in the order given.
pub open spec fn group_at(ms: Seq<MenuEntry>, level: int) -> Seq<MenuEntry>
    decreases ms.len(),
{
    if ms.len() == 0 {
        Seq::empty()
    } else {
        let g = group_at(ms.drop_last(), level);
        let m = ms.last();
        if counts_as_open(m) && m.menu.spec_level() as int == level {
            g.push(m)
        } else {
            g
        }
    }
}

/// The longest prefix of `g` that holds no menu whose closing is disabled.
pub open spec fn until_disabled(g: Seq<MenuEntry>) -> Seq<MenuEntry>
    decreases g.len(),
{
    if g.len() == 0 {
        Seq::empty()
    } else {
        let p = until_disabled(g.drop_last());
        if p.len() == g.len() - 1 && !(g.last().menu.spec_close_method() is Disabled) {
            p.push(g.last())
        } else {
            p
        }
    }
}

/// The closable prefix is never longer than the group.
pub proof fn lemma_until_disabled_len(g: Seq<MenuEntry>)
    ensures
        until_disabled(g).len() <= g.len(),
    decreases g.len(),
{
    if g.len() > 0 {
        lemma_until_disabled_len(g.drop_last());
    }
}

/// The action that closes one menu.
pub open spec fn action_of(m: MenuEntry) -> CloseAction {
    CloseAction { entity: m.entity, method: m.menu.spec_close_method() }
}

/// The menus one press closes: those at the top level, in the order given,
/// up to the first one whose closing is disabled.
pub open spec fn planned_actions(ms: Seq<MenuEntry>) -> Seq<CloseAction> {
    until_disabled(group_at(ms, top_level(ms))).map_values(|m: MenuEntry| action_of(m))
}

/// Every menu that counts as open stands at the top level, and none of them
/// has its closing disabled.
pub open spec fn closes_everything(ms: Seq<MenuEntry>) -> bool {
    &&& forall|i: int|
        0 <= i < ms.len() && counts_as_open(#[trigger] ms[i]) ==> ms[i].menu.spec_level() as int
            == top_level(ms)
    &&& until_disabled(group_at(ms, top_level(ms))).len() == group_at(ms, top_level(ms)).len()
}

/// Some menu counts as open.
pub open spec fn any_open(ms: Seq<MenuEntry>) -> bool {
    exists|i: int| 0 <= i < ms.len() && counts_as_open(#[trigger] ms[i])
}

/// The top level is at least the level of every menu that counts as open,
/// and is -1 only when none does.
pub proof fn lemma_top_level_bounds(ms: Seq<MenuEntry>)
    ensures
        forall|i: int|
            0 <= i < ms.len() && counts_as_open(#[trigger] ms[i]) ==> ms[i].menu.spec_level() as int
                <= top_level(ms),
        top_level(ms) >= -1,
        any_open(ms) ==> top_level(ms) >= 0,
        !any_open(ms) ==> top_level(ms) == -1,
        any_open(ms) ==> exists|i: int|
            0 <= i < ms.len() && counts_as_open(#[trigger] ms[i]) && ms[i].menu.spec_level() as int
                == top_level(ms),
    decreases ms.len(),
{
    if ms.len() > 0 {
        let d = ms.drop_last();
        lemma_top_level_bounds(d);
        assert forall|i: int|
            0 <= i < ms.len() && counts_as_open(#[trigger] ms[i]) implies ms[i].menu.spec_level() as int
            <= top_level(ms) by {
            if i < ms.len() - 1 {
                assert(d[i] == ms[i]);
            }
        }
        if !any_open(ms) {
            if any_open(d) {
                let i = choose|i: int| 0 <= i < d.len() && counts_as_open(#[trigger] d[i]);
                assert(ms[i] == d[i]);
            }
            assert(!counts_as_open(ms[ms.len() - 1]));
        }
        if any_open(ms) {
            if counts_as_open(ms.last()) && ms.last().menu.spec_level() as int > top_level(d) {
                assert(counts_as_open(ms[ms.len() - 1]));
                assert(ms[ms.len() - 1].menu.spec_level() as int == top_level(ms));
            } else if any_open(d) {
                let i = choose|i: int|
                    0 <= i < d.len() && counts_as_open(#[trigger] d[i]) && d[i].menu.spec_level() as int
                        == top_level(d);
                assert(ms[i] == d[i]);
            } else {
                let i = choose|i: int| 0 <= i < ms.len() && counts_as_open(#[trigger] ms[i]);
                if i < ms.len() - 1 {
                    assert(d[i] == ms[i]);
                    assert(any_open(d));
                }
            }
        }
    }
}

/// Decides which menus one press of the pause key closes.
///
/// Menus that close by hiding and are hidden are not open. Of the others,
/// the ones at the highest level are closed, in the order given, until one is
/// reached whose closing is disabled; that one and the rest stay. The outcome
/// says whether every open menu was closed.
pub fn close_topmost_menus(menus: &Vec<MenuEntry>) -> (out: CloseOutcome)
    requires
        any_open(menus@),
    ensures
        out.actions@ == planned_actions(menus@),
        out.all_closed == closes_everything(menus@),
{
    let ghost ms = menus@;
    // The highest level among the open menus.
    let mut top: u32 = 0;
    let mut found = false;
    let mut i: usize = 0;
    while i < menus.len()
        invariant
            i <= menus.len(),
            ms == menus@,
            found ==> top as int == top_level(ms.take(i as int)),
            !found ==> top_level(ms.take(i as int)) == -1,
        decreases menus.len() - i,
    {
        let m = menus[i];
        assert(ms.take(i + 1).drop_last() =~= ms.take(i as int));
        let open = match m.menu.close_method {
            CloseMethod::Visibility => !m.hidden,
            _ => true,
        };
        if open && (!found || m.menu.level > top) {
            top = m.menu.level;
            found = true;
        }
        i = i + 1;
    }
    assert(ms.take(i as int) =~= ms);
    proof {
        lemma_top_level_bounds(ms);
    }
    assert(found);
    // Walk the menus at that level.
    let mut actions: Vec<CloseAction> = Vec::new();
    let mut stopped = false;
    let mut any_lower = false;
    let ghost level = top as int;
    i = 0;
    while i < menus.len()
        invariant
            i <= menus.len(),
            ms == menus@,
            level == top as int,
            level == top_level(ms),
            actions@ == until_disabled(group_at(ms.take(i as int), level)).map_values(
                |m: MenuEntry| action_of(m),
            ),
            stopped == (until_disabled(group_at(ms.take(i as int), level)).len() < group_at(
                ms.take(i as int),
                level,
            ).len()),
            any_lower == (exists|j: int|
                0 <= j < i && counts_as_open(#[trigger] ms[j]) && ms[j].menu.level as int
                    != level),
        decreases menus.len() - i,
    {
        let m = menus[i];
        let ghost pre = ms.take(i as int);
        let ghost cur = ms.take(i + 1);
        assert(cur.drop_last() =~= pre);
        assert(cur.last() == m);
        let open = match m.menu.close_method {
            CloseMethod::Visibility => !m.hidden,
            _ => true,
        };
        if open && m.menu.level == top {
            let ghost g = group_at(pre, level);
            let ghost g2 = group_at(cur, level);
            assert(g2 == g.push(m));
            assert(g2.drop_last() =~= g);
            proof {
                lemma_until_disabled_len(g);
            }
            let disabled = match m.menu.close_method {
                CloseMethod::Disabled => true,
                _ => false,
            };
            if !stopped && !disabled {
                actions.push(CloseAction { entity: m.entity, method: m.menu.close_method });
            }
            if disabled {
                stopped = true;
            }
            assert(actions@ =~= until_disabled(group_at(cur, level)).map_values(
                |m: MenuEntry| action_of(m),
            ));
        } else {
            assert(group_at(cur, level) == group_at(pre, level));
        }
        if open && m.menu.level != top {
            any_lower = true;
        }
        i = i + 1;
    }
    assert(ms.take(i as int) =~= ms);
    proof {
        lemma_until_disabled_len(group_at(ms, level));
    }
    CloseOutcome { actions, all_closed: !stopped && !any_lower }
}


/// The menus left after dropping the open ones at `level`.
pub open spec fn without_level(ms: Seq<MenuEntry>, level: int) -> Seq<MenuEntry>
    decreases ms.len(),
{
    if ms.len() == 0 {
        Seq::empty()
    } else {
        let r = without_level(ms.drop_last(), level);
        let m = ms.last();
        if counts_as_open(m) && m.menu.spec_level() as int == level {
            r
        } else {
            r.push(m)
        }
    }
}

/// The members of a group are exactly the open menus at its level.
pub proof fn lemma_group_at_members(ms: Seq<MenuEntry>, level: int)
    ensures
        forall|k: int|
            0 <= k < group_at(ms, level).len() ==> exists|i: int|
                0 <= i < ms.len() && ms[i] == #[trigger] group_at(ms, level)[k] && counts_as_open(
                    ms[i],
                ) && ms[i].menu.spec_level() as int == level,
        forall|i: int|
            0 <= i < ms.len() && counts_as_open(#[trigger] ms[i]) && ms[i].menu.spec_level() as int
                == level ==> group_at(ms, level).contains(ms[i]),
    decreases ms.len(),
{
    if ms.len() > 0 {
        let d = ms.drop_last();
        lemma_group_at_members(d, level);
        let g = group_at(d, level);
        let g2 = group_at(ms, level);
        assert forall|k: int| 0 <= k < g2.len() implies exists|i: int|
            0 <= i < ms.len() && ms[i] == #[trigger] g2[k] && counts_as_open(ms[i])
                && ms[i].menu.spec_level() as int == level by {
            if k < g.len() {
                assert(g2[k] == g[k]);
                let i = choose|i: int|
                    0 <= i < d.len() && d[i] == #[trigger] g[k] && counts_as_open(d[i])
                        && d[i].menu.spec_level() as int == level;
                assert(ms[i] == d[i]);
            } else {
                assert(ms[ms.len() - 1] == g2[k]);
            }
        }
        assert forall|i: int|
            0 <= i < ms.len() && counts_as_open(#[trigger] ms[i]) && ms[i].menu.spec_level() as int
                == level implies g2.contains(ms[i]) by {
            if i < ms.len() - 1 {
                assert(d[i] == ms[i]);
                assert(g.contains(d[i]));
                let k = choose|k: int| 0 <= k < g.len() && g[k] == d[i];
                assert(g2[k] == g[k]);
            } else {
                assert(g2[g2.len() - 1] == ms[i]);
            }
        }
    }
}

/// The closable prefix is a prefix, and is the whole group when nothing in
/// the group has its closing disabled.
pub proof fn lemma_until_disabled_prefix(g: Seq<MenuEntry>)
    ensures
        forall|k: int| 0 <= k < until_disabled(g).len() ==> #[trigger] until_disabled(g)[k] == g[k],
        (forall|k: int| 0 <= k < g.len() ==> !(#[trigger] g[k].menu.spec_close_method() is Disabled))
            ==> until_disabled(g) == g,
    decreases g.len(),
{
    if g.len() > 0 {
        let d = g.drop_last();
        lemma_until_disabled_prefix(d);
        lemma_until_disabled_len(d);
        if forall|k: int| 0 <= k < g.len() ==> !(#[trigger] g[k].menu.spec_close_method() is Disabled) {
            assert forall|k: int| 0 <= k < d.len() implies !(#[trigger] d[k].menu.spec_close_method() is Disabled) by {
                assert(d[k] == g[k]);
            }
            assert(!(g[g.len() - 1].menu.spec_close_method() is Disabled));
            assert(until_disabled(g) =~= g);
        }
    } else {
        assert(until_disabled(g) =~= g);
    }
}

/// One press closes only open menus at the top level: every planned action
/// is the action of such a menu.
pub proof fn law_only_top_level_menus_close(ms: Seq<MenuEntry>)
    ensures
        forall|k: int|
            0 <= k < planned_actions(ms).len() ==> exists|i: int|
                0 <= i < ms.len() && counts_as_open(ms[i]) && ms[i].menu.spec_level() as int
                    == top_level(ms) && action_of(ms[i]) == #[trigger] planned_actions(ms)[k],
{
    let level = top_level(ms);
    let g = group_at(ms, level);
    lemma_group_at_members(ms, level);
    lemma_until_disabled_prefix(g);
    lemma_until_disabled_len(g);
    assert forall|k: int| 0 <= k < planned_actions(ms).len() implies exists|i: int|
        0 <= i < ms.len() && counts_as_open(ms[i]) && ms[i].menu.spec_level() as int == level
            && action_of(ms[i]) == #[trigger] planned_actions(ms)[k] by {
        assert(until_disabled(g)[k] == g[k]);
        let i = choose|i: int|
            0 <= i < ms.len() && ms[i] == #[trigger] g[k] && counts_as_open(ms[i])
                && ms[i].menu.spec_level() as int == level;
    }
}

/// A menu that is hidden, or below the top level, is not closed by a press:
/// no planned action names its entity, when entities are distinct.
pub proof fn law_lower_and_hidden_menus_stay(ms: Seq<MenuEntry>, i: int)
    requires
        0 <= i < ms.len(),
        !counts_as_open(ms[i]) || (ms[i].menu.spec_level() as int) < top_level(ms),
        forall|a: int, b: int| 0 <= a < ms.len() && 0 <= b < ms.len() && a != b ==> ms[a].entity
            != ms[b].entity,
    ensures
        forall|k: int|
            0 <= k < planned_actions(ms).len() ==> (#[trigger] planned_actions(ms)[k]).entity
                != ms[i].entity,
{
    law_only_top_level_menus_close(ms);
    assert forall|k: int| 0 <= k < planned_actions(ms).len() implies (
    #[trigger] planned_actions(ms)[k]).entity != ms[i].entity by {
        let j = choose|j: int|
            0 <= j < ms.len() && counts_as_open(ms[j]) && ms[j].menu.spec_level() as int
                == top_level(ms) && action_of(ms[j]) == #[trigger] planned_actions(ms)[k];
        assert(j != i);
    }
}

/// When no open menu at the top level has its closing disabled, one press
/// closes every one of them, together, in the order given.
pub proof fn law_top_group_closes_together(ms: Seq<MenuEntry>)
    requires
        forall|i: int|
            0 <= i < ms.len() && counts_as_open(#[trigger] ms[i]) && ms[i].menu.spec_level() as int
                == top_level(ms) ==> !(ms[i].menu.spec_close_method() is Disabled),
    ensures
        planned_actions(ms) == group_at(ms, top_level(ms)).map_values(|m: MenuEntry| action_of(m)),
        forall|i: int|
            0 <= i < ms.len() && counts_as_open(#[trigger] ms[i]) && ms[i].menu.spec_level() as int
                == top_level(ms) ==> planned_actions(ms).contains(action_of(ms[i])),
{
    let level = top_level(ms);
    let g = group_at(ms, level);
    lemma_group_at_members(ms, level);
    assert forall|k: int| 0 <= k < g.len() implies !(#[trigger] g[k].menu.spec_close_method() is Disabled) by {
        let i = choose|i: int|
            0 <= i < ms.len() && ms[i] == #[trigger] g[k] && counts_as_open(ms[i])
                && ms[i].menu.spec_level() as int == level;
    }
    lemma_until_disabled_prefix(g);
    assert forall|i: int|
        0 <= i < ms.len() && counts_as_open(#[trigger] ms[i]) && ms[i].menu.spec_level() as int
            == level implies planned_actions(ms).contains(action_of(ms[i])) by {
        assert(g.contains(ms[i]));
        let k = choose|k: int| 0 <= k < g.len() && g[k] == ms[i];
        assert(planned_actions(ms)[k] == action_of(ms[i]));
    }
}

/// A press reports that everything closed exactly when every open menu is
/// at the top level and none of them has its closing disabled.
pub proof fn law_all_closed_exactly_when(ms: Seq<MenuEntry>)
    ensures
        closes_everything(ms) <==> forall|i: int|
            0 <= i < ms.len() && counts_as_open(#[trigger] ms[i]) ==> ms[i].menu.spec_level() as int
                == top_level(ms) && !(ms[i].menu.spec_close_method() is Disabled),
{
    let level = top_level(ms);
    let g = group_at(ms, level);
    lemma_group_at_members(ms, level);
    lemma_until_disabled_prefix(g);
    lemma_until_disabled_len(g);
    if forall|i: int|
        0 <= i < ms.len() && counts_as_open(#[trigger] ms[i]) ==> ms[i].menu.spec_level() as int
            == level && !(ms[i].menu.spec_close_method() is Disabled) {
        assert forall|k: int| 0 <= k < g.len() implies !(#[trigger] g[k].menu.spec_close_method() is Disabled) by {
            let i = choose|i: int|
                0 <= i < ms.len() && ms[i] == #[trigger] g[k] && counts_as_open(ms[i])
                    && ms[i].menu.spec_level() as int == level;
        }
    }
    if closes_everything(ms) {
        assert forall|i: int| 0 <= i < ms.len() && counts_as_open(#[trigger] ms[i]) implies !(
        ms[i].menu.spec_close_method() is Disabled) by {
            assert(g.contains(ms[i]));
            let k = choose|k: int| 0 <= k < g.len() && g[k] == ms[i];
            assert(until_disabled(g)[k] == g[k]);
            lemma_until_disabled_no_disabled(g, k);
        }
    }
}

/// Nothing in the closable prefix has its closing disabled.
pub proof fn lemma_until_disabled_no_disabled(g: Seq<MenuEntry>, k: int)
    requires
        0 <= k < until_disabled(g).len(),
    ensures
        !(until_disabled(g)[k].menu.spec_close_method() is Disabled),
    decreases g.len(),
{
    let d = g.drop_last();
    lemma_until_disabled_len(d);
    if k < until_disabled(d).len() {
        lemma_until_disabled_no_disabled(d, k);
    }
}

/// After the top group is closed, whatever stays open is at a strictly lower
/// level: each press takes the menus down one group.
pub proof fn law_next_press_is_lower(ms: Seq<MenuEntry>)
    requires
        any_open(ms),
    ensures
        top_level(without_level(ms, top_level(ms))) < top_level(ms),
{
    lemma_top_level_bounds(ms);
    lemma_without_level_below(ms, top_level(ms));
}

/// Dropping the open menus at `level` leaves only open menus below it, when
/// `level` bounds them all.
pub proof fn lemma_without_level_below(ms: Seq<MenuEntry>, level: int)
    requires
        level >= 0,
        forall|i: int|
            0 <= i < ms.len() && counts_as_open(#[trigger] ms[i]) ==> ms[i].menu.spec_level() as int
                <= level,
    ensures
        top_level(without_level(ms, level)) < level,
    decreases ms.len(),
{
    if ms.len() > 0 {
        let d = ms.drop_last();
        assert forall|i: int|
            0 <= i < d.len() && counts_as_open(#[trigger] d[i]) implies d[i].menu.spec_level() as int
            <= level by {
            assert(ms[i] == d[i]);
        }
        lemma_without_level_below(d, level);
        let r = without_level(d, level);
        let m = ms.last();
        if !(counts_as_open(m) && m.menu.spec_level() as int == level) {
            let r2 = r.push(m);
            assert(r2.drop_last() =~= r);
            assert(counts_as_open(ms[ms.len() - 1]) ==> ms[ms.len() - 1].menu.spec_level() as int <= level);
        }
    }
}


/// What a press of the pause key does.
#[derive(Debug, PartialEq, Eq)]
pub enum PauseResponse {
    /// The key was not pressed.
    Nothing,
    /// No menu was open: the pause menu opens (at level 0).
    OpenPauseMenu,
    /// Some menus were open: the top group closes, and the pause menu is
    /// shown again when everything closed and it exists.
    CloseMenus {
        /// The menus to close.
        outcome: CloseOutcome,
        /// Whether the (hidden) pause menu should be made visible.
        show_pause_menu: bool,
    },
}

/// The level the pause menu opens at.
pub const PAUSE_MENU_LEVEL: u32 = 0;

/// The level the settings screen opened from the pause menu takes.
pub const PAUSE_SETTINGS_LEVEL: u32 = 1;

/// Whether some menu counts as open.
pub fn some_menu_open(menus: &Vec<MenuEntry>) -> (r: bool)
    ensures
        r == any_open(menus@),
{
    let mut i: usize = 0;
    while i < menus.len()
        invariant
            i <= menus.len(),
            forall|j: int| 0 <= j < i ==> !counts_as_open(#[trigger] menus@[j]),
        decreases menus.len() - i,
    {
        let m = menus[i];
        let hidden_away = match m.menu.close_method() {
            CloseMethod::Visibility => m.hidden,
            _ => false,
        };
        if !hidden_away {
            assert(counts_as_open(menus@[i as int]));
            return true;
        }
        i += 1;
    }
    false
}

/// Decides what a press of the pause key does, given the open menus and
/// whether a pause menu exists: with no menu that counts as open (none at
/// all, or only hidden ones), the pause menu opens; otherwise the top group
/// of open menus closes.
pub fn on_pause_pressed(pressed: bool, menus: &Vec<MenuEntry>, pause_menu_exists: bool) -> (r:
    PauseResponse)
    ensures
        !pressed ==> r == PauseResponse::Nothing,
        pressed && !any_open(menus@) ==> r == PauseResponse::OpenPauseMenu,
        pressed && any_open(menus@) ==> (r matches PauseResponse::CloseMenus { outcome, show_pause_menu }
            && outcome.actions@ == planned_actions(menus@) && outcome.all_closed == closes_everything(
            menus@,
        ) && show_pause_menu == (closes_everything(menus@) && pause_menu_exists)),
{
    if !pressed {
        return PauseResponse::Nothing;
    }
    if !some_menu_open(menus) {
        return PauseResponse::OpenPauseMenu;
    }
    let outcome = close_topmost_menus(menus);
    let show = outcome.all_closed && pause_menu_exists;
    PauseResponse::CloseMenus { outcome, show_pause_menu: show }
}

/// A button of the pause menu.
#[derive(Debug, Clone, Copy, PartialEq, Eq, Structural)]
pub enum PauseButton {
    /// Closes the pause menu and goes back to the game.
    Resume,
    /// Opens the settings above the pause menu.
    Settings,
    /// Leaves the server.
    Disconnect,
    /// Closes the game.
    QuitGame,
}

/// The pause menu's buttons, top to bottom, with their labels.
pub fn pause_menu_buttons() -> (r: Vec<(&'static str, PauseButton)>)
    ensures
        r@.len() == 4,
        r@[0].0@ == "RESUME"@ && r@[0].1 == PauseButton::Resume,
        r@[1].0@ == "SETTINGS"@ && r@[1].1 == PauseButton::Settings,
        r@[2].0@ == "DISCONNECT"@ && r@[2].1 == PauseButton::Disconnect,
        r@[3].0@ == "QUIT GAME"@ && r@[3].1 == PauseButton::QuitGame,
{
    let mut r: Vec<(&'static str, PauseButton)> = Vec::new();
    r.push(("RESUME", PauseButton::Resume));
    r.push(("SETTINGS", PauseButton::Settings));
    r.push(("DISCONNECT", PauseButton::Disconnect));
    r.push(("QUIT GAME", PauseButton::QuitGame));
    r
}

} // verus!
