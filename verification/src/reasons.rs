//! Sets of reasons: a UI element stays hidden, or the crosshair keeps its
//! indicating look, as long as at least one reason is registered.

use vstd::prelude::*;
use crate::text::str_eq;

verus! {

/// The index of the first reason equal to `reason`, by characters.
pub(crate) fn position_of(v: &Vec<&'static str>, reason: &str) -> (r: Option<usize>)
    ensures
        match r {
            Some(i) => i < v.len() && v@[i as int]@ == reason@ && forall|j: int|
                0 <= j < i ==> (#[trigger] v@[j])@ != reason@,
            None => forall|j: int| 0 <= j < v.len() ==> (#[trigger] v@[j])@ != reason@,
        },
{
    let mut i: usize = 0;
    while i < v.len()
        invariant
            i <= v.len(),
            forall|j: int| 0 <= j < i ==> (#[trigger] v@[j])@ != reason@,
        decreases v.len() - i,
    {
        if str_eq(v[i], reason) {
            return Some(i);
        }
        i = i + 1;
    }
    None
}

/// The characters of each reason.
pub open spec fn reason_texts(v: Seq<&'static str>) -> Seq<Seq<char>> {
    v.map_values(|r: &'static str| r@)
}

/// The reasons after adding `r`: unchanged when `r` is already there,
/// otherwise `r` at the end.
pub open spec fn added(v: Seq<Seq<char>>, r: Seq<char>) -> Seq<Seq<char>> {
    if v.contains(r) {
        v
    } else {
        v.push(r)
    }
}

/// `i` is the first index holding `r`.
pub open spec fn is_first_index(v: Seq<Seq<char>>, r: Seq<char>, i: int) -> bool {
    0 <= i < v.len() && v[i] == r && forall|j: int| 0 <= j < i ==> v[j] != r
}

/// The first index holding `r` (meaningful when `v` holds `r`).
pub open spec fn first_index(v: Seq<Seq<char>>, r: Seq<char>) -> int {
    choose|i: int| is_first_index(v, r, i)
}

/// The reasons after removing `r`: its first occurrence taken out, the
/// others in their order.
pub open spec fn removed(v: Seq<Seq<char>>, r: Seq<char>) -> Seq<Seq<char>> {
    if v.contains(r) {
        v.remove(first_index(v, r))
    } else {
        v
    }
}

/// A sequence holding `r` has a first index holding it, and only one.
pub proof fn lemma_first_index(v: Seq<Seq<char>>, r: Seq<char>, i: int)
    requires
        is_first_index(v, r, i),
    ensures
        first_index(v, r) == i,
{
    let j = first_index(v, r);
    assert(is_first_index(v, r, j));
    if j < i {
        assert(v[j] != r);
    }
    if i < j {
        assert(v[i] != r);
    }
}

/// For UI: if multiple things can hide this UI element, it is hidden as long
/// as any reason is registered.
#[derive(Debug)]
pub struct HiddenReasons(Vec<&'static str>);

impl View for HiddenReasons {
    type V = Seq<Seq<char>>;

    closed spec fn view(&self) -> Seq<Seq<char>> {
        reason_texts(self.0@)
    }
}

impl HiddenReasons {
    #[verifier::type_invariant]
    closed spec fn unique(self) -> bool {
        reason_texts(self.0@).no_duplicates()
    }

    /// No reasons: the element is shown.
    pub fn new() -> (r: Self)
        ensures
            r@ == Seq::<Seq<char>>::empty(),
    {
        let r = HiddenReasons(Vec::new());
        assert(reason_texts(r.0@) =~= Seq::<Seq<char>>::empty());
        r
    }

    /// Adds a reason to hide this UI (a reason already there is not added
    /// twice).
    pub fn add_reason(&mut self, reason: &'static str)
        ensures
            final(self)@ == added(old(self)@, reason@),
            final(self)@.no_duplicates(),
    {
        proof {
            use_type_invariant(&*self);
        }
        match position_of(&self.0, reason) {
            Some(i) => {
                assert(reason_texts(self.0@)[i as int] == reason@);
            },
            None => {
                let ghost before = reason_texts(self.0@);
                assert(!before.contains(reason@)) by {
                    if before.contains(reason@) {
                        let k = choose|k: int| 0 <= k < before.len() && before[k] == reason@;
                        assert(self.0@[k]@ == reason@);
                    }
                }
                let mut v = Vec::new();
                std::mem::swap(&mut v, &mut self.0);
                v.push(reason);
                assert(reason_texts(v@) =~= before.push(reason@));
                self.0 = v;
            },
        }
    }

    /// Checks if this UI has any reason to be hidden
    pub fn is_hidden(&self) -> (hidden: bool)
        ensures
            hidden == (self@.len() > 0),
    {
        self.0.len() != 0
    }

    /// Whether this reason is registered.
    pub fn has_reason(&self, reason: &str) -> (has: bool)
        ensures
            has == self@.contains(reason@),
    {
        let r = position_of(&self.0, reason);
        proof {
            let t = reason_texts(self.0@);
            match r {
                Some(i) => {
                    assert(t[i as int] == reason@);
                },
                None => {
                    if t.contains(reason@) {
                        let k = choose|k: int| 0 <= k < t.len() && t[k] == reason@;
                        assert(self.0@[k]@ == reason@);
                    }
                },
            }
        }
        r.is_some()
    }

    /// Removes a reason for this to be hidden
    pub fn remove_reason(&mut self, reason: &'static str)
        ensures
            final(self)@ == removed(old(self)@, reason@),
            final(self)@.no_duplicates(),
    {
        proof {
            use_type_invariant(&*self);
        }
        let ghost before = reason_texts(self.0@);
        match position_of(&self.0, reason) {
            Some(i) => {
                let mut v = Vec::new();
                std::mem::swap(&mut v, &mut self.0);
                let ghost vv = v@;
                v.remove(i);
                assert(reason_texts(v@) =~= before.remove(i as int));
                assert(before[i as int] == reason@);
                assert(is_first_index(before, reason@, i as int));
                proof {
                    lemma_remove_keeps_unique(before, i as int);
                    lemma_first_index(before, reason@, i as int);
                }
                self.0 = v;
            },
            None => {
                assert(!before.contains(reason@)) by {
                    if before.contains(reason@) {
                        let k = choose|k: int| 0 <= k < before.len() && before[k] == reason@;
                        assert(self.0@[k]@ == reason@);
                    }
                }
            },
        }
    }
}

impl Default for HiddenReasons {
    fn default() -> (r: Self)
        ensures
            r@ == Seq::<Seq<char>>::empty(),
    {
        HiddenReasons::new()
    }
}

/// Removing an element of a sequence without duplicates leaves one without
/// duplicates that no longer holds that element.
pub proof fn lemma_remove_keeps_unique(s: Seq<Seq<char>>, i: int)
    requires
        s.no_duplicates(),
        0 <= i < s.len(),
    ensures
        s.remove(i).no_duplicates(),
        !s.remove(i).contains(s[i]),
{
    let r = s.remove(i);
    assert forall|a: int, b: int| 0 <= a < r.len() && 0 <= b < r.len() && a != b implies r[a]
        != r[b] by {
        let a2 = if a < i { a } else { a + 1 };
        let b2 = if b < i { b } else { b + 1 };
        assert(r[a] == s[a2]);
        assert(r[b] == s[b2]);
    }
    if r.contains(s[i]) {
        let k = choose|k: int| 0 <= k < r.len() && r[k] == s[i];
        let k2 = if k < i { k } else { k + 1 };
        assert(r[k] == s[k2]);
    }
}


/// Once a reason is added the element is hidden, and the reason is there.
pub proof fn law_added_reason_hides(v: Seq<Seq<char>>, r: Seq<char>)
    ensures
        added(v, r).contains(r),
        added(v, r).len() > 0,
{
    if !v.contains(r) {
        assert(v.push(r)[v.len() as int] == r);
    }
}

/// Adding a reason twice is the same as adding it once.
pub proof fn law_add_is_idempotent(v: Seq<Seq<char>>, r: Seq<char>)
    ensures
        added(added(v, r), r) == added(v, r),
{
    law_added_reason_hides(v, r);
}

/// Removing a reason that was just added, when it was not there before,
/// gives back the reasons there were.
pub proof fn law_remove_undoes_add(v: Seq<Seq<char>>, r: Seq<char>)
    requires
        !v.contains(r),
    ensures
        removed(added(v, r), r) == v,
{
    let w = v.push(r);
    assert(w[v.len() as int] == r);
    assert(is_first_index(w, r, v.len() as int)) by {
        assert forall|j: int| 0 <= j < v.len() implies w[j] != r by {
            assert(w[j] == v[j]);
        }
    }
    lemma_first_index(w, r, v.len() as int);
    assert(w.remove(v.len() as int) =~= v);
}

/// After a reason is removed from reasons without duplicates, it is no
/// longer there, and every other reason still is.
pub proof fn law_removed_reason_is_gone(v: Seq<Seq<char>>, r: Seq<char>, other: Seq<char>)
    requires
        v.no_duplicates(),
        other != r,
    ensures
        !removed(v, r).contains(r),
        v.contains(other) ==> removed(v, r).contains(other),
{
    if v.contains(r) {
        let i = choose|i: int| 0 <= i < v.len() && v[i] == r;
        assert(is_first_index(v, r, i)) by {
            assert forall|j: int| 0 <= j < i implies v[j] != r by {
                assert(v[j] != v[i]);
            }
        }
        lemma_first_index(v, r, i);
        lemma_remove_keeps_unique(v, i);
        if v.contains(other) {
            let k = choose|k: int| 0 <= k < v.len() && v[k] == other;
            let rr = v.remove(i);
            if k < i {
                assert(rr[k] == other);
            } else {
                assert(k != i);
                assert(rr[k - 1] == other);
            }
        }
    }
}

/// The reason the player's "hide UI" key hides an element.
pub const HIDE_UI_REASON: &'static str = "cosmos:hide_ui";

/// What the "hide UI" key does: nothing unless just pressed; otherwise it
/// flips whether the UI is hidden, giving the new state.
pub fn hide_ui_after_press(pressed: bool, currently_hidden: bool) -> (r: Option<bool>)
    ensures
        !pressed ==> r is None,
        pressed ==> r == Some(!currently_hidden),
{
    if pressed {
        Some(!currently_hidden)
    } else {
        None
    }
}

/// Hides an element for the "hide UI" key, or shows it again: the key's
/// reason is added or removed.
pub fn apply_hide_ui(reasons: &mut HiddenReasons, hide: bool)
    ensures
        hide ==> final(reasons)@ == added(old(reasons)@, HIDE_UI_REASON@),
        !hide ==> final(reasons)@ == removed(old(reasons)@, HIDE_UI_REASON@),
{
    if hide {
        reasons.add_reason(HIDE_UI_REASON);
    } else {
        reasons.remove_reason(HIDE_UI_REASON);
    }
}

} // verus!
