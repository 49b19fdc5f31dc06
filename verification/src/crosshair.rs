//! The crosshair the player sees in & out of a ship: it shows its indicating
//! look as long as any reason asks for it.

use vstd::prelude::*;
use crate::reasons::{position_of, reason_texts, is_first_index, first_index, lemma_first_index};

verus! {

/// Which crosshair image is shown.
#[derive(Debug, Clone, Copy, PartialEq, Eq, Structural)]
pub enum State {
    /// The plain crosshair.
    Normal,
    /// The crosshair that marks something to interact with.
    Indicating,
}

/// The reasons after dropping the first occurrence of `r` by moving the last
/// reason into its place (`Vec::swap_remove`).
pub open spec fn swap_removed(v: Seq<Seq<char>>, r: Seq<char>) -> Seq<Seq<char>> {
    if v.contains(r) {
        v.update(first_index(v, r), v.last()).drop_last()
    } else {
        v
    }
}

/// The look that a set of requests asks for.
pub open spec fn look_for(v: Seq<Seq<char>>) -> State {
    if v.len() == 0 {
        State::Normal
    } else {
        State::Indicating
    }
}

/// Controls the type of crosshair being displayed
#[derive(Debug)]
pub struct CrosshairState {
    indicating_requests: Vec<&'static str>,
    prev_state: State,
}

impl CrosshairState {
    #[verifier::type_invariant]
    closed spec fn unique(self) -> bool {
        reason_texts(self.indicating_requests@).no_duplicates()
    }

    /// The reasons asking for the indicating look.
    pub closed spec fn requests(self) -> Seq<Seq<char>> {
        reason_texts(self.indicating_requests@)
    }

    /// The look shown the last time the image was updated.
    pub closed spec fn previous(self) -> State {
        self.prev_state
    }

    /// No requests, plain look.
    pub fn new() -> (c: Self)
        ensures
            c.requests() == Seq::<Seq<char>>::empty(),
            c.previous() == State::Normal,
    {
        let c = CrosshairState { indicating_requests: Vec::new(), prev_state: State::Normal };
        assert(reason_texts(c.indicating_requests@) =~= Seq::<Seq<char>>::empty());
        c
    }

    /// Shows an indicator crosshair so long as this reason is valid
    pub fn request_indicating(&mut self, id: &'static str)
        ensures
            final(self).requests() == crate::reasons::added(old(self).requests(), id@),
            final(self).previous() == old(self).previous(),
    {
        proof {
            use_type_invariant(&*self);
        }
        let ghost before = reason_texts(self.indicating_requests@);
        match position_of(&self.indicating_requests, id) {
            Some(i) => {
                assert(before[i as int] == id@);
            },
            None => {
                assert(!before.contains(id@)) by {
                    if before.contains(id@) {
                        let k = choose|k: int| 0 <= k < before.len() && before[k] == id@;
                        assert(self.indicating_requests@[k]@ == id@);
                    }
                }
                let mut v = Vec::new();
                std::mem::swap(&mut v, &mut self.indicating_requests);
                v.push(id);
                assert(reason_texts(v@) =~= before.push(id@));
                self.indicating_requests = v;
            },
        }
    }

    /// Removes this reason from using an indicator crosshair. Once there are
    /// no reasons, the indicating crosshair will not be used.
    pub fn remove_indicating(&mut self, id: &'static str)
        ensures
            final(self).requests() == swap_removed(old(self).requests(), id@),
            final(self).previous() == old(self).previous(),
    {
        proof {
            use_type_invariant(&*self);
        }
        let ghost before = reason_texts(self.indicating_requests@);
        match position_of(&self.indicating_requests, id) {
            Some(i) => {
                let mut v = Vec::new();
                std::mem::swap(&mut v, &mut self.indicating_requests);
                let ghost vv = v@;
                v.swap_remove(i);
                assert(before[i as int] == id@);
                assert(is_first_index(before, id@, i as int));
                proof {
                    lemma_first_index(before, id@, i as int);
                    lemma_swap_remove_keeps_unique(before, i as int);
                }
                assert(reason_texts(v@) =~= before.update(i as int, before.last()).drop_last());
                self.indicating_requests = v;
            },
            None => {
                assert(!before.contains(id@)) by {
                    if before.contains(id@) {
                        let k = choose|k: int| 0 <= k < before.len() && before[k] == id@;
                        assert(self.indicating_requests@[k]@ == id@);
                    }
                }
            },
        }
    }

    /// The look the current requests ask for.
    pub fn state(&self) -> (s: State)
        ensures
            s == look_for(self.requests()),
    {
        if self.indicating_requests.len() == 0 {
            State::Normal
        } else {
            State::Indicating
        }
    }

    /// Whether the requested look differs from the one last shown.
    pub fn is_different_state(&self) -> (d: bool)
        ensures
            d == (self.previous() != look_for(self.requests())),
    {
        let s = self.state();
        match (self.prev_state, s) {
            (State::Normal, State::Normal) => false,
            (State::Indicating, State::Indicating) => false,
            _ => true,
        }
    }

    /// Records the requested look as the one shown.
    pub fn update_prev_state(&mut self)
        ensures
            final(self).previous() == look_for(old(self).requests()),
            final(self).requests() == old(self).requests(),
    {
        proof {
            use_type_invariant(&*self);
        }
        self.prev_state = self.state();
    }

    /// When the requested look differs from the one shown, records it and
    /// returns it: the image to switch to.
    pub fn take_state_change(&mut self) -> (change: Option<State>)
        ensures
            final(self).requests() == old(self).requests(),
            final(self).previous() == look_for(old(self).requests()),
            change == (if old(self).previous() != look_for(old(self).requests()) {
                Some(look_for(old(self).requests()))
            } else {
                None
            }),
    {
        if !self.is_different_state() {
            return None;
        }
        self.update_prev_state();
        Some(self.state())
    }

    /// Asks for the indicating look while the player looks at an
    /// interactable block, and drops that request otherwise.
    pub fn apply_looking_at(&mut self, id: &'static str, interactable: bool)
        ensures
            interactable ==> final(self).requests() == crate::reasons::added(old(self).requests(), id@),
            !interactable ==> final(self).requests() == swap_removed(old(self).requests(), id@),
            final(self).previous() == old(self).previous(),
    {
        if interactable {
            self.request_indicating(id);
        } else {
            self.remove_indicating(id);
        }
    }
}

impl Default for CrosshairState {
    fn default() -> (c: Self)
        ensures
            c.requests() == Seq::<Seq<char>>::empty(),
            c.previous() == State::Normal,
    {
        CrosshairState::new()
    }
}

/// Swap-removing an element keeps a sequence free of duplicates.
pub proof fn lemma_swap_remove_keeps_unique(s: Seq<Seq<char>>, i: int)
    requires
        s.no_duplicates(),
        0 <= i < s.len(),
    ensures
        s.update(i, s.last()).drop_last().no_duplicates(),
        !s.update(i, s.last()).drop_last().contains(s[i]),
{
    let r = s.update(i, s.last()).drop_last();
    let n = s.len() - 1;
    assert forall|a: int, b: int| 0 <= a < r.len() && 0 <= b < r.len() && a != b implies r[a]
        != r[b] by {
        let a2 = if a == i { n } else { a };
        let b2 = if b == i { n } else { b };
        assert(r[a] == s[a2]);
        assert(r[b] == s[b2]);
    }
    if r.contains(s[i]) {
        let k = choose|k: int| 0 <= k < r.len() && r[k] == s[i];
        let k2 = if k == i { n } else { k };
        assert(r[k] == s[k2]);
    }
}

/// Any request gives the indicating look; with no requests the look is
/// plain.
pub proof fn law_look_follows_requests(v: Seq<Seq<char>>, r: Seq<char>)
    ensures
        look_for(crate::reasons::added(v, r)) == State::Indicating,
        look_for(Seq::<Seq<char>>::empty()) == State::Normal,
{
    crate::reasons::law_added_reason_hides(v, r);
}

/// Withdrawing the only request brings back the plain look.
pub proof fn law_withdrawing_last_request_restores_normal(r: Seq<char>)
    ensures
        look_for(swap_removed(seq![r], r)) == State::Normal,
{
    let v = seq![r];
    assert(v[0] == r);
    assert(is_first_index(v, r, 0));
    lemma_first_index(v, r, 0);
}

/// A request withdrawn from requests without duplicates is gone.
pub proof fn law_withdrawn_request_is_gone(v: Seq<Seq<char>>, r: Seq<char>)
    requires
        v.no_duplicates(),
    ensures
        !swap_removed(v, r).contains(r),
{
    if v.contains(r) {
        let i = choose|i: int| 0 <= i < v.len() && v[i] == r;
        assert(is_first_index(v, r, i)) by {
            assert forall|j: int| 0 <= j < i implies v[j] != r by {
                assert(v[j] != v[i]);
            }
        }
        lemma_first_index(v, r, i);
        lemma_swap_remove_keeps_unique(v, i);
    }
}

/// The width and height, in pixels, the crosshair image is drawn at: the
/// indicating one is twice the size of the plain one.
pub fn crosshair_size_px(state: State) -> (px: u32)
    ensures
        px == (match state {
            State::Normal => 8u32,
            State::Indicating => 16u32,
        }),
{
    match state {
        State::Normal => 8,
        State::Indicating => 16,
    }
}

} // verus!
