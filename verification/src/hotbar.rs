//! The player's hotbar: which slot is selected, how scrolling and the number
//! keys move the selection, and what each slot holds.

use vstd::prelude::*;
use crate::priority_queue::PriorityQueue;
use crate::text::{str_eq, u64_to_string, decimal};

verus! {

/// The entities that make up one slot of the hotbar on screen.
#[derive(Debug, Clone, Copy, PartialEq, Eq, Structural)]
pub struct HotbarEntities {
    /// The slot's frame.
    pub slot: u64,
    /// The text showing the stack's quantity.
    pub slot_text: u64,
    /// The node the item is rendered into.
    pub render_item_ent: u64,
}

/// Which way the mouse wheel turned.
#[derive(Debug, Clone, Copy, PartialEq, Eq, Structural)]
pub enum ScrollDirection {
    /// The wheel turned up (positive y): the selection moves left.
    Up,
    /// The wheel turned down (negative y): the selection moves right.
    Down,
    /// No vertical movement.
    Still,
}

/// The slot selected after one turn of the wheel, wrapping at both ends.
pub open spec fn scrolled(selected: nat, max_slots: nat, dir: ScrollDirection) -> nat {
    match dir {
        ScrollDirection::Up => if selected == 0 {
            (max_slots - 1) as nat
        } else {
            (selected - 1) as nat
        },
        ScrollDirection::Down => if selected == max_slots - 1 {
            0
        } else {
            selected + 1
        },
        ScrollDirection::Still => selected,
    }
}

/// The slot selected after a run of wheel turns.
pub open spec fn scrolled_all(selected: nat, max_slots: nat, dirs: Seq<ScrollDirection>) -> nat
    decreases dirs.len(),
{
    if dirs.len() == 0 {
        selected
    } else {
        scrolled(scrolled_all(selected, max_slots, dirs.drop_last()), max_slots, dirs.last())
    }
}

/// The hotbar the player can see
#[derive(Debug)]
pub struct Hotbar {
    slots: Vec<HotbarEntities>,
    selected_slot: usize,
    prev_slot: usize,
    max_slots: usize,
}

/// The number of slots a default hotbar has.
pub const DEFAULT_HOTBAR_SLOTS: usize = 9;

impl Hotbar {
    #[verifier::type_invariant]
    closed spec fn in_range(self) -> bool {
        &&& self.max_slots > 0
        &&& self.selected_slot < self.max_slots
        &&& self.prev_slot < self.max_slots
    }

    /// The number of slots.
    pub closed spec fn spec_n_slots(self) -> nat {
        self.max_slots as nat
    }

    /// The selected slot.
    pub closed spec fn spec_selected(self) -> nat {
        self.selected_slot as nat
    }

    /// The slot that was selected when the display was last updated.
    pub closed spec fn spec_previous(self) -> nat {
        self.prev_slot as nat
    }

    /// The on-screen entities of the slots created so far.
    pub closed spec fn spec_slots(self) -> Seq<HotbarEntities> {
        self.slots@
    }

    /// A hotbar with this many slots, the first selected.
    pub fn new(max_slots: usize) -> (h: Self)
        requires
            max_slots > 0,
        ensures
            h.spec_n_slots() == max_slots,
            h.spec_selected() == 0,
            h.spec_previous() == 0,
            h.spec_slots() == Seq::<HotbarEntities>::empty(),
    {
        Hotbar { max_slots, selected_slot: 0, prev_slot: 0, slots: Vec::new() }
    }

    /// The slots a hotbar covers are from 0..max_slots
    pub fn n_slots(&self) -> (n: usize)
        ensures
            n == self.spec_n_slots(),
            n > 0,
    {
        proof {
            use_type_invariant(self);
        }
        self.max_slots
    }

    /// Sets the slot selected by the user to this value
    pub fn set_selected_slot(&mut self, slot: usize)
        requires
            slot < old(self).spec_n_slots(),
        ensures
            final(self).spec_selected() == slot,
            final(self).spec_n_slots() == old(self).spec_n_slots(),
            final(self).spec_previous() == old(self).spec_previous(),
            final(self).spec_slots() == old(self).spec_slots(),
    {
        proof { use_type_invariant(&*self); }
        self.selected_slot = slot;
    }

    /// This is the slot the player has currently selected - corresponds to
    /// the proper inventory slots
    pub fn selected_slot(&self) -> (s: usize)
        ensures
            s == self.spec_selected(),
            s < self.spec_n_slots(),
    {
        proof {
            use_type_invariant(self);
        }
        self.selected_slot
    }

    /// Records the entities of the next slot created on screen.
    pub fn push_slot(&mut self, entities: HotbarEntities)
        ensures
            final(self).spec_slots() == old(self).spec_slots().push(entities),
            final(self).spec_n_slots() == old(self).spec_n_slots(),
            final(self).spec_selected() == old(self).spec_selected(),
            final(self).spec_previous() == old(self).spec_previous(),
    {
        proof { use_type_invariant(&*self); }
        let mut v: Vec<HotbarEntities> = Vec::new();
        std::mem::swap(&mut v, &mut self.slots);
        v.push(entities);
        self.slots = v;
    }

    /// The on-screen entities of a slot, if it was created.
    pub fn slot_entities(&self, slot: usize) -> (e: Option<HotbarEntities>)
        ensures
            slot < self.spec_slots().len() ==> e == Some(self.spec_slots()[slot as int]),
            slot >= self.spec_slots().len() ==> e is None,
    {
        if slot < self.slots.len() {
            Some(self.slots[slot])
        } else {
            None
        }
    }

    /// Moves the selection by one turn of the mouse wheel, wrapping around.
    pub fn scroll(&mut self, dir: ScrollDirection)
        ensures
            final(self).spec_selected() == scrolled(old(self).spec_selected(), old(self).spec_n_slots(), dir),
            final(self).spec_n_slots() == old(self).spec_n_slots(),
            final(self).spec_previous() == old(self).spec_previous(),
            final(self).spec_slots() == old(self).spec_slots(),
    {
        proof {
            use_type_invariant(&*self);
        }
        match dir {
            ScrollDirection::Up => {
                if self.selected_slot == 0 {
                    self.selected_slot = self.max_slots - 1;
                } else {
                    self.selected_slot = self.selected_slot - 1;
                }
            },
            ScrollDirection::Down => {
                if self.selected_slot == self.max_slots - 1 {
                    self.selected_slot = 0;
                } else {
                    self.selected_slot = self.selected_slot + 1;
                }
            },
            ScrollDirection::Still => {},
        }
    }

    /// Applies one frame of input: every wheel turn in order, then the
    /// number keys pressed, the last of which wins.
    pub fn apply_inputs(&mut self, scrolls: &Vec<ScrollDirection>, pressed_slots: &Vec<usize>)
        requires
            forall|i: int| 0 <= i < pressed_slots.len() ==> pressed_slots[i] < old(self).spec_n_slots(),
        ensures
            pressed_slots.len() == 0 ==> final(self).spec_selected() == scrolled_all(
                old(self).spec_selected(),
                old(self).spec_n_slots(),
                scrolls@,
            ),
            pressed_slots.len() > 0 ==> final(self).spec_selected() == pressed_slots@.last(),
            final(self).spec_n_slots() == old(self).spec_n_slots(),
            final(self).spec_previous() == old(self).spec_previous(),
            final(self).spec_slots() == old(self).spec_slots(),
    {
        let mut i: usize = 0;
        while i < scrolls.len()
            invariant
                i <= scrolls.len(),
                self.spec_selected() == scrolled_all(old(self).spec_selected(), old(self).spec_n_slots(), scrolls@.take(i as int)),
                self.spec_n_slots() == old(self).spec_n_slots(),
                self.spec_previous() == old(self).spec_previous(),
                self.spec_slots() == old(self).spec_slots(),
            decreases scrolls.len() - i,
        {
            assert(scrolls@.take(i + 1).drop_last() =~= scrolls@.take(i as int));
            self.scroll(scrolls[i]);
            i = i + 1;
        }
        assert(scrolls@.take(i as int) =~= scrolls@);
        let mut k: usize = 0;
        while k < pressed_slots.len()
            invariant
                k <= pressed_slots.len(),
                forall|j: int| 0 <= j < pressed_slots.len() ==> pressed_slots[j] < self.spec_n_slots(),
                k == 0 ==> self.spec_selected() == scrolled_all(old(self).spec_selected(), old(self).spec_n_slots(), scrolls@),
                k > 0 ==> self.spec_selected() == pressed_slots@[k - 1],
                self.spec_n_slots() == old(self).spec_n_slots(),
                self.spec_previous() == old(self).spec_previous(),
                self.spec_slots() == old(self).spec_slots(),
            decreases pressed_slots.len() - k,
        {
            self.set_selected_slot(pressed_slots[k]);
            k = k + 1;
        }
    }

    /// When the selection moved since the display was last updated, records
    /// the new one and returns `(previous, selected)`: the slot frames to
    /// swap.
    pub fn take_slot_change(&mut self) -> (change: Option<(usize, usize)>)
        ensures
            old(self).spec_selected() != old(self).spec_previous() ==> change == Some(
                (old(self).spec_previous() as usize, old(self).spec_selected() as usize),
            ),
            old(self).spec_selected() == old(self).spec_previous() ==> change is None,
            final(self).spec_previous() == old(self).spec_selected(),
            final(self).spec_selected() == old(self).spec_selected(),
            final(self).spec_n_slots() == old(self).spec_n_slots(),
            final(self).spec_slots() == old(self).spec_slots(),
    {
        proof { use_type_invariant(&*self); }
        if self.selected_slot == self.prev_slot {
            return None;
        }
        let prev = self.prev_slot;
        self.prev_slot = self.selected_slot;
        Some((prev, self.selected_slot))
    }
}

impl Default for Hotbar {
    fn default() -> (h: Self)
        ensures
            h.spec_n_slots() == DEFAULT_HOTBAR_SLOTS,
            h.spec_selected() == 0,
            h.spec_previous() == 0,
            h.spec_slots() == Seq::<HotbarEntities>::empty(),
    {
        Hotbar::new(DEFAULT_HOTBAR_SLOTS)
    }
}

/// The held-item slot to set so it follows the hotbar, if it differs.
pub fn held_slot_update(selected: usize, held: u32) -> (r: Option<u32>)
    requires
        selected <= u32::MAX,
    ensures
        r == (if selected as u32 != held {
            Some(selected as u32)
        } else {
            None
        }),
{
    if selected as u32 != held {
        Some(selected as u32)
    } else {
        None
    }
}

/// The image a slot frame shows.
pub fn image_path(selected: bool) -> (p: &'static str)
    ensures
        selected ==> p@ == "cosmos/images/ui/hotbar-slot-selected.png"@,
        !selected ==> p@ == "cosmos/images/ui/hotbar-slot.png"@,
{
    if selected {
        "cosmos/images/ui/hotbar-slot-selected.png"
    } else {
        "cosmos/images/ui/hotbar-slot.png"
    }
}

/// The text under a slot: the stack's quantity, or nothing for a single
/// item or an empty slot.
pub fn quantity_text(quantity: Option<u16>) -> (t: String)
    ensures
        t@ == (match quantity {
            Some(q) => if q != 1 {
                decimal(q as nat)
            } else {
                Seq::<char>::empty()
            },
            None => Seq::<char>::empty(),
        }),
{
    match quantity {
        Some(q) => {
            if q != 1 {
                u64_to_string(q as u64)
            } else {
                String::new()
            }
        },
        None => String::new(),
    }
}

/// The contents that should be displayed on the hotbar
#[derive(Debug)]
pub struct HotbarContents<I> {
    items: Vec<Option<I>>,
}

impl<I> View for HotbarContents<I> {
    type V = Seq<Option<I>>;

    closed spec fn view(&self) -> Seq<Option<I>> {
        self.items@
    }
}

impl<I> HotbarContents<I> {
    /// Creates a new hotbar contents that can hold up to the specified size.
    pub fn new(n_slots: usize) -> (c: Self)
        ensures
            c@.len() == n_slots,
            forall|i: int| 0 <= i < n_slots ==> c@[i] is None,
    {
        let mut items: Vec<Option<I>> = Vec::new();
        let mut i: usize = 0;
        while i < n_slots
            invariant
                i <= n_slots,
                items@.len() == i,
                forall|j: int| 0 <= j < i ==> items@[j] is None,
            decreases n_slots - i,
        {
            items.push(None);
            i = i + 1;
        }
        HotbarContents { items }
    }

    /// Gets the item stack at this slot if there is one. If the slot is out
    /// of bounds, this will also return None.
    pub fn itemstack_at(&self, slot: usize) -> (r: Option<&I>)
        ensures
            slot < self@.len() ==> r == match self@[slot as int] {
                Some(i) => Some(&i),
                None => None::<&I>,
            },
            slot >= self@.len() ==> r is None,
    {
        if slot < self.items.len() {
            match &self.items[slot] {
                Some(i) => Some(i),
                None => None,
            }
        } else {
            None
        }
    }

    /// Sets the itemstack at this slot.
    pub fn set_itemstack_at(&mut self, slot: usize, itemstack: Option<I>)
        requires
            slot < old(self)@.len(),
        ensures
            final(self)@ == old(self)@.update(slot as int, itemstack),
    {
        self.items.set(slot, itemstack);
    }

    /// Clears any items that are in the contents
    ///
    /// This does NOT delete the items from the world - since a hotbar is
    /// typically a visual representation of the items, not the items
    /// themselves
    pub fn clear_contents(&mut self)
        ensures
            final(self)@.len() == old(self)@.len(),
            forall|i: int| 0 <= i < final(self)@.len() ==> final(self)@[i] is None,
    {
        let n = self.items.len();
        *self = HotbarContents::new(n);
    }

    /// Every slot, in order.
    pub fn iter(&self) -> (s: &[Option<I>])
        ensures
            s@ == self@,
    {
        self.items.as_slice()
    }

    /// Reports the number of slots this can hold
    pub fn n_slots(&self) -> (n: usize)
        ensures
            n == self@.len(),
    {
        self.items.len()
    }

    /// Copies the first slots of the inventory into the hotbar: slot `i`
    /// takes inventory slot `i`, for as many slots as both have.
    pub fn sync_from(&mut self, inventory: Vec<Option<I>>)
        ensures
            final(self)@.len() == old(self)@.len(),
            forall|i: int|
                0 <= i < final(self)@.len() ==> final(self)@[i] == if i < inventory@.len() {
                    inventory@[i]
                } else {
                    old(self)@[i]
                },
    {
        let ghost inv = inventory@;
        let mut inventory = inventory;
        let n = self.items.len();
        let take = if inventory.len() < n {
            inventory.len()
        } else {
            n
        };
        inventory.truncate(take);
        let ghost before = self.items@;
        while inventory.len() > 0
            invariant
                inventory@ == inv.take(inventory@.len() as int),
                inventory@.len() <= take,
                take <= n,
                take <= inv.len(),
                n == self.items@.len(),
                n == before.len(),
                forall|i: int| 0 <= i < n ==> self.items@[i] == if inventory@.len() <= i < take {
                    inv[i]
                } else {
                    before[i]
                },
            decreases inventory.len(),
        {
            let idx = inventory.len() - 1;
            let item = inventory.pop().unwrap();
            self.items.set(idx, item);
            assert(inventory@ =~= inv.take(inventory@.len() as int));
        }
    }
}

impl<I> Default for HotbarContents<I> {
    fn default() -> (c: Self)
        ensures
            c@.len() == 0,
    {
        HotbarContents { items: Vec::new() }
    }
}

/// The priority-queue id the inventory owns the hotbar under.
pub const INVENTORY_PRIORITY_IDENTIFIER: &'static str = "cosmos:inventory";

/// Whether the inventory is the source that currently owns the hotbar: the
/// hotbar then mirrors the inventory.
pub fn inventory_owns_hotbar<T>(queue: &PriorityQueue<T>) -> (owns: bool)
    ensures
        owns == (queue@.len() > 0 && queue@[0].0 == INVENTORY_PRIORITY_IDENTIFIER@),
{
    match queue.active() {
        Some(a) => str_eq(a, INVENTORY_PRIORITY_IDENTIFIER),
        None => false,
    }
}

/// Turning the wheel up once and then down once (or the reverse) leaves the
/// selection where it was.
pub proof fn law_scroll_up_then_down_returns(selected: nat, max_slots: nat)
    requires
        selected < max_slots,
    ensures
        scrolled(scrolled(selected, max_slots, ScrollDirection::Up), max_slots, ScrollDirection::Down) == selected,
        scrolled(scrolled(selected, max_slots, ScrollDirection::Down), max_slots, ScrollDirection::Up) == selected,
{
}

/// Scrolling never leaves the hotbar's range.
pub proof fn law_scroll_stays_in_range(selected: nat, max_slots: nat, dir: ScrollDirection)
    requires
        selected < max_slots,
    ensures
        scrolled(selected, max_slots, dir) < max_slots,
{
}

} // verus!
