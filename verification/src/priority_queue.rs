//! Ownership arbitration: several sources ask to control one thing, and the
//! one with the highest priority wins.

use vstd::prelude::*;
use std::marker::PhantomData;
use crate::text::{chars_of, chars_eq, owned};

verus! {

/// The entries of a queue as character sequences and priorities.
pub open spec fn entries_view(q: Seq<(String, i32)>) -> Seq<(Seq<char>, i32)> {
    q.map_values(|e: (String, i32)| (e.0@, e.1))
}

/// Priorities never increase along the queue.
pub open spec fn sorted_desc(q: Seq<(Seq<char>, i32)>) -> bool {
    forall|i: int, j: int| 0 <= i < j < q.len() ==> q[i].1 >= q[j].1
}

/// Where an entry of priority `p` goes: after every leading entry whose
/// priority is at least `p`.
pub open spec fn insertion_point(q: Seq<(Seq<char>, i32)>, p: i32) -> int
    decreases q.len(),
{
    if q.len() == 0 {
        0
    } else if q[0].1 >= p {
        1 + insertion_point(q.drop_first(), p)
    } else {
        0
    }
}

/// The queue after adding `id` with priority `p`.
pub open spec fn with_entry(q: Seq<(Seq<char>, i32)>, id: Seq<char>, p: i32) -> Seq<(Seq<char>, i32)> {
    q.insert(insertion_point(q, p), (id, p))
}

/// `i` is the first index whose id is `id`.
pub open spec fn is_first_id(q: Seq<(Seq<char>, i32)>, id: Seq<char>, i: int) -> bool {
    0 <= i < q.len() && q[i].0 == id && forall|j: int| 0 <= j < i ==> q[j].0 != id
}

/// Some entry has this id.
pub open spec fn has_id(q: Seq<(Seq<char>, i32)>, id: Seq<char>) -> bool {
    exists|i: int| 0 <= i < q.len() && q[i].0 == id
}

/// The queue after removing the first entry with this id.
pub open spec fn without_id(q: Seq<(Seq<char>, i32)>, id: Seq<char>) -> Seq<(Seq<char>, i32)> {
    if has_id(q, id) {
        q.remove(choose|i: int| is_first_id(q, id, i))
    } else {
        q
    }
}

/// Represents who should have ownership over something. This is useful when
/// multiple sources want to control the same thing, but one should have
/// priority over the other.
#[derive(Debug)]
pub struct PriorityQueue<T> {
    _phantom: PhantomData<T>,
    queue: Vec<(String, i32)>,
}

impl<T> View for PriorityQueue<T> {
    type V = Seq<(Seq<char>, i32)>;

    closed spec fn view(&self) -> Seq<(Seq<char>, i32)> {
        entries_view(self.queue@)
    }
}

/// The insertion point splits a sorted queue into the entries of priority at
/// least `p` and those below it.
pub proof fn lemma_insertion_point(q: Seq<(Seq<char>, i32)>, p: i32)
    requires
        sorted_desc(q),
    ensures
        0 <= insertion_point(q, p) <= q.len(),
        forall|i: int| 0 <= i < insertion_point(q, p) ==> q[i].1 >= p,
        forall|i: int| insertion_point(q, p) <= i < q.len() ==> q[i].1 < p,
    decreases q.len(),
{
    if q.len() > 0 {
        let d = q.drop_first();
        assert(sorted_desc(d)) by {
            assert forall|i: int, j: int| 0 <= i < j < d.len() implies d[i].1 >= d[j].1 by {
                assert(d[i] == q[i + 1] && d[j] == q[j + 1]);
            }
        }
        lemma_insertion_point(d, p);
        if q[0].1 >= p {
            assert forall|i: int| 0 <= i < insertion_point(q, p) implies q[i].1 >= p by {
                if i > 0 {
                    assert(q[i] == d[i - 1]);
                }
            }
            assert forall|i: int| insertion_point(q, p) <= i < q.len() implies q[i].1 < p by {
                assert(q[i] == d[i - 1]);
            }
        } else {
            assert forall|i: int| 0 <= i < q.len() implies q[i].1 < p by {
                if i > 0 {
                    assert(q[0].1 >= q[i].1);
                }
            }
        }
    }
}

/// Adding an entry at its insertion point keeps a queue sorted.
pub proof fn lemma_with_entry_sorted(q: Seq<(Seq<char>, i32)>, id: Seq<char>, p: i32)
    requires
        sorted_desc(q),
    ensures
        sorted_desc(with_entry(q, id, p)),
        with_entry(q, id, p).len() == q.len() + 1,
{
    lemma_insertion_point(q, p);
    let k = insertion_point(q, p);
    let r = with_entry(q, id, p);
    assert forall|i: int, j: int| 0 <= i < j < r.len() implies r[i].1 >= r[j].1 by {
        let i2 = if i < k { i } else { i - 1 };
        let j2 = if j < k { j } else { j - 1 };
        if i != k && j != k {
            assert(r[i] == q[i2] && r[j] == q[j2]);
        } else if i == k {
            assert(r[j] == q[j2]);
        } else {
            assert(r[i] == q[i2]);
        }
    }
}

impl<T> PriorityQueue<T> {
    #[verifier::type_invariant]
    closed spec fn sorted(self) -> bool {
        sorted_desc(entries_view(self.queue@))
    }

    /// An empty queue.
    pub fn new() -> (q: Self)
        ensures
            q@ == Seq::<(Seq<char>, i32)>::empty(),
    {
        let q = PriorityQueue { _phantom: PhantomData, queue: Vec::new() };
        assert(entries_view(q.queue@) =~= Seq::<(Seq<char>, i32)>::empty());
        q
    }

    /// Adds an id to the priority queue.
    ///
    /// It goes after every entry of equal or higher priority, so among equal
    /// priorities the one added first stays ahead. If its priority is the
    /// highest, [`Self::active`] gives it.
    pub fn add(&mut self, id: &str, queue_priority: i32)
        requires
            queue_priority != i32::MIN,
        ensures
            final(self)@ == with_entry(old(self)@, id@, queue_priority),
            sorted_desc(old(self)@),
            sorted_desc(final(self)@),
    {
        proof {
            use_type_invariant(&*self);
        }
        let ghost before = entries_view(self.queue@);
        let mut k: usize = 0;
        assert(before.skip(0) =~= before);
        while k < self.queue.len() && self.queue[k].1 >= queue_priority
            invariant
                k <= self.queue.len(),
                before == entries_view(self.queue@),
                insertion_point(before, queue_priority) == k + insertion_point(
                    before.skip(k as int),
                    queue_priority,
                ),
            decreases self.queue.len() - k,
        {
            assert(before.skip(k as int).drop_first() =~= before.skip(k + 1));
            k = k + 1;
        }
        assert(insertion_point(before, queue_priority) == k);
        proof {
            lemma_with_entry_sorted(before, id@, queue_priority);
        }
        let entry = (owned(id), queue_priority);
        let mut v = Vec::new();
        std::mem::swap(&mut v, &mut self.queue);
        v.insert(k, entry);
        assert(entries_view(v@) =~= with_entry(before, id@, queue_priority));
        self.queue = v;
    }

    /// Returns the current id that has the highest priority
    pub fn active(&self) -> (a: Option<&str>)
        ensures
            self@.len() == 0 ==> a is None,
            self@.len() > 0 ==> (a matches Some(s) && s@ == self@[0].0),
            sorted_desc(self@),
    {
        proof {
            use_type_invariant(self);
        }
        if self.queue.len() == 0 {
            None
        } else {
            Some(self.queue[0].0.as_str())
        }
    }

    /// Removes this id from the priority queue
    ///
    /// Returns if that id was ever in the queue
    pub fn remove(&mut self, id: &str) -> (was_there: bool)
        ensures
            was_there == has_id(old(self)@, id@),
            final(self)@ == without_id(old(self)@, id@),
            sorted_desc(final(self)@),
    {
        proof {
            use_type_invariant(&*self);
        }
        let ghost before = entries_view(self.queue@);
        let target = chars_of(id);
        let mut i: usize = 0;
        while i < self.queue.len()
            invariant
                i <= self.queue.len(),
                before == entries_view(self.queue@),
                target@ == id@,
                before == old(self)@,
                sorted_desc(before),
                forall|j: int| 0 <= j < i ==> before[j].0 != id@,
            decreases self.queue.len() - i,
        {
            let cs = chars_of(self.queue[i].0.as_str());
            assert(before[i as int].0 == cs@);
            if chars_eq(&cs, &target) {
                assert(before[i as int].0 == id@);
                assert(is_first_id(before, id@, i as int));
                let ghost chosen = choose|j: int| is_first_id(before, id@, j);
                assert(chosen == i) by {
                    if chosen < i {
                        assert(before[chosen].0 != id@);
                    }
                    if i < chosen {
                        assert(before[i as int].0 != id@);
                    }
                }
                let mut v = Vec::new();
                std::mem::swap(&mut v, &mut self.queue);
                v.remove(i);
                assert(entries_view(v@) =~= before.remove(i as int));
                assert(sorted_desc(before.remove(i as int))) by {
                    let r = before.remove(i as int);
                    assert forall|a: int, b: int| 0 <= a < b < r.len() implies r[a].1 >= r[b].1 by {
                        let a2 = if a < i { a } else { a + 1 };
                        let b2 = if b < i { b } else { b + 1 };
                        assert(r[a] == before[a2] && r[b] == before[b2]);
                    }
                }
                self.queue = v;
                return true;
            }
            i = i + 1;
        }
        false
    }
}

impl<T> Default for PriorityQueue<T> {
    fn default() -> (q: Self)
        ensures
            q@ == Seq::<(Seq<char>, i32)>::empty(),
    {
        PriorityQueue::new()
    }
}

/// The active entry has the highest priority of all, and among entries of
/// that priority it was added first.
pub proof fn law_active_has_highest_priority(q: Seq<(Seq<char>, i32)>)
    requires
        sorted_desc(q),
        q.len() > 0,
    ensures
        forall|i: int| 0 <= i < q.len() ==> q[0].1 >= #[trigger] q[i].1,
{
}

/// A newly added entry goes behind every entry of equal or higher priority
/// and ahead of every lower one; the order of the others is kept.
pub proof fn law_add_is_stable(q: Seq<(Seq<char>, i32)>, id: Seq<char>, p: i32)
    requires
        sorted_desc(q),
    ensures
        ({
            let k = insertion_point(q, p);
            let r = with_entry(q, id, p);
            &&& r[k] == (id, p)
            &&& forall|i: int| 0 <= i < k ==> r[i] == q[i] && q[i].1 >= p
            &&& forall|i: int| k < i < r.len() ==> r[i] == q[i - 1] && q[i - 1].1 < p
        }),
{
    lemma_insertion_point(q, p);
}

/// An entry with a priority higher than every other becomes the active one.
pub proof fn law_highest_new_entry_becomes_active(q: Seq<(Seq<char>, i32)>, id: Seq<char>, p: i32)
    requires
        sorted_desc(q),
        forall|i: int| 0 <= i < q.len() ==> #[trigger] q[i].1 < p,
    ensures
        with_entry(q, id, p)[0] == (id, p),
{
    lemma_insertion_point(q, p);
    if q.len() > 0 {
        assert(q[0].1 < p);
    }
}

/// Removing an id that was just added, when no entry had it before, gives
/// back the queue there was.
pub proof fn law_remove_undoes_add(q: Seq<(Seq<char>, i32)>, id: Seq<char>, p: i32)
    requires
        sorted_desc(q),
        !has_id(q, id),
    ensures
        without_id(with_entry(q, id, p), id) == q,
{
    lemma_insertion_point(q, p);
    let k = insertion_point(q, p);
    let r = with_entry(q, id, p);
    assert(r[k].0 == id);
    assert(is_first_id(r, id, k)) by {
        assert forall|j: int| 0 <= j < k implies r[j].0 != id by {
            assert(r[j] == q[j]);
        }
    }
    let c = choose|i: int| is_first_id(r, id, i);
    assert(c == k) by {
        if c < k {
            assert(r[c] == q[c]);
        }
        if k < c {
            assert(r[k].0 == id);
        }
    }
    assert(r.remove(k) =~= q);
}

} // verus!
