//! Items drawn in the interface: where each item's picture sits in the
//! atlas of rendered items, and when hovering an item shows its tooltip.

use vstd::prelude::*;
use crate::text::owned;

verus! {

/// Put this onto a UI element to render a 3D item there
#[derive(Debug, Clone, Copy, PartialEq, Eq, Structural)]
pub struct RenderItem {
    /// The item's id
    pub item_id: u16,
}

/// A rendered item with this will display this text instead of the item's
/// name.
#[derive(Debug)]
pub struct CustomHoverTooltip(String);

impl CustomHoverTooltip {
    /// The text shown.
    pub closed spec fn spec_text(&self) -> Seq<char> {
        self.0@
    }

    /// Creates a new Hover Tooltip with this text
    pub fn new(text: &str) -> (t: Self)
        ensures
            t.spec_text() == text@,
    {
        CustomHoverTooltip(owned(text))
    }

    /// The text shown.
    pub fn text(&self) -> (t: &str)
        ensures
            t@ == self.spec_text(),
    {
        self.0.as_str()
    }
}

// ---------------------------------------------------------------------------
// The atlas
// ---------------------------------------------------------------------------

/// The width and height, in pixels, of one item's picture in the atlas.
pub const PX_PER_ITEM: usize = 100;

/// The column and row of cell `index` in a grid `width` cells wide, filled
/// row by row.
pub open spec fn spec_expand_2d(index: nat, width: nat) -> (nat, nat) {
    ((index % width) as nat, (index / width) as nat)
}

/// The column and row of cell `index` in a grid `width` cells wide, filled
/// row by row.
pub fn expand_2d(index: usize, width: usize) -> (r: (usize, usize))
    requires
        width > 0,
    ensures
        r.0 == spec_expand_2d(index as nat, width as nat).0,
        r.1 == spec_expand_2d(index as nat, width as nat).1,
        r.0 < width,
        width * r.1 + r.0 == index,
{
    proof {
        vstd::arithmetic::div_mod::lemma_fundamental_div_mod(index as int, width as int);
    }
    (index % width, index / width)
}

/// The number of columns of the atlas for `n` items: the smallest `w` with
/// `w * w >= n`.
pub open spec fn is_atlas_width(n: nat, w: nat) -> bool {
    w * w >= n && (w == 0 || (w - 1) * (w - 1) < n)
}

/// The number of columns and rows of the atlas for `n` items: about square,
/// with as few rows as hold them all.
pub fn atlas_dimensions(n: usize) -> (r: (usize, usize))
    ensures
        is_atlas_width(n as nat, r.0 as nat),
        r.0 == 0 ==> r.1 == 0,
        r.0 > 0 ==> r.0 * r.1 >= n && r.0 * (r.1 - 1) < n,
{
    let mut w: u128 = 0;
    while w * w < n as u128
        invariant
            w <= 0x1_0000_0000,
            w * w <= 0x1_0000_0000_0000_0000,
            w == 0 || (w - 1) * (w - 1) < n,
        decreases n - w,
    {
        proof {
            assert(w < 0x1_0000_0000) by (nonlinear_arith)
                requires
                    w * w < n,
                    n <= 0xffff_ffff_ffff_ffff,
            ;
            assert(w <= w * w) by (nonlinear_arith);
            assert((w + 1) * (w + 1) <= 0x1_0000_0000_0000_0000) by (nonlinear_arith)
                requires
                    w < 0x1_0000_0000,
            ;
        }
        w = w + 1;
    }
    if w == 0 {
        return (0, 0);
    }
    assert(w <= n) by (nonlinear_arith)
        requires
            w > 0,
            (w - 1) * (w - 1) < n,
    ;
    let wu = w as usize;
    let q = n / wu;
    let rem = n % wu;
    proof {
        vstd::arithmetic::div_mod::lemma_fundamental_div_mod(n as int, wu as int);
        assert(rem != 0 ==> q < n) by (nonlinear_arith)
            requires
                wu > 0,
                n == wu * q + rem,
                0 <= rem,
        ;
    }
    let h = if rem == 0 { q } else { q + 1 };
    proof {
        assert(wu * h >= n && wu * (h - 1) < n) by (nonlinear_arith)
            requires
                wu > 0,
                n == wu * q + rem,
                0 <= rem < wu,
                h == (if rem == 0 { q as int } else { q + 1 }),
                n > 0,
        ;
    }
    (wu, h)
}

/// The pixel rectangle `(min_x, min_y, max_x, max_y)` of item `id`'s
/// picture in an atlas `width` pictures wide.
pub fn item_rect(id: u16, width: usize) -> (r: (usize, usize, usize, usize))
    requires
        width > 0,
    ensures
        r.0 == PX_PER_ITEM * (id as int % width as int),
        r.1 == PX_PER_ITEM * (id as int / width as int),
        r.2 == r.0 + PX_PER_ITEM,
        r.3 == r.1 + PX_PER_ITEM,
{
    let (x, y) = expand_2d(id as usize, width);
    assert(x < width && y <= id);
    (PX_PER_ITEM * x, PX_PER_ITEM * y, PX_PER_ITEM * (x + 1), PX_PER_ITEM * (y + 1))
}

// ---------------------------------------------------------------------------
// Tooltips on hover
// ---------------------------------------------------------------------------

/// How an item's interaction changed this frame.
#[derive(Debug, Clone, Copy, PartialEq, Eq, Structural)]
pub struct HoverChange {
    /// Whether the pointer left it.
    pub left: bool,
    /// Whether it shows a tooltip now.
    pub has_tooltip: bool,
}

/// What becomes of an item's tooltip.
#[derive(Debug, Clone, Copy, PartialEq, Eq, Structural)]
pub enum TooltipAction {
    /// Its tooltip is removed.
    Remove,
    /// A tooltip is shown for it.
    Show,
    /// Nothing.
    Keep,
}

/// What becomes of the tooltips of the items whose interaction changed,
/// in order, and whether one was shown: an item the pointer left loses its
/// tooltip; the first hovered item without one gets one, unless some
/// tooltip is in use already. Only one is shown at a time.
pub open spec fn spec_tooltip_actions(changes: Seq<HoverChange>, any_in_use: bool) -> (Seq<TooltipAction>, bool)
    decreases changes.len(),
{
    if changes.len() == 0 {
        (Seq::empty(), false)
    } else {
        let (rest, shown) = spec_tooltip_actions(changes.drop_last(), any_in_use);
        let c = changes.last();
        if c.left {
            (rest.push(if c.has_tooltip { TooltipAction::Remove } else { TooltipAction::Keep }), shown)
        } else if shown || c.has_tooltip || any_in_use {
            (rest.push(TooltipAction::Keep), shown)
        } else {
            (rest.push(TooltipAction::Show), true)
        }
    }
}

/// What becomes of the tooltips of the items whose interaction changed.
pub fn tooltip_actions(changes: &Vec<HoverChange>, any_in_use: bool) -> (r: Vec<TooltipAction>)
    ensures
        r@ == spec_tooltip_actions(changes@, any_in_use).0,
{
    let mut r: Vec<TooltipAction> = Vec::new();
    let mut shown = false;
    let mut i: usize = 0;
    while i < changes.len()
        invariant
            i <= changes.len(),
            (r@, shown) == spec_tooltip_actions(changes@.subrange(0, i as int), any_in_use),
        decreases changes.len() - i,
    {
        assert(changes@.subrange(0, i as int + 1).drop_last() =~= changes@.subrange(0, i as int));
        let c = changes[i];
        if c.left {
            r.push(if c.has_tooltip { TooltipAction::Remove } else { TooltipAction::Keep });
        } else if shown || c.has_tooltip || any_in_use {
            r.push(TooltipAction::Keep);
        } else {
            r.push(TooltipAction::Show);
            shown = true;
        }
        i = i + 1;
    }
    assert(changes@.subrange(0, changes.len() as int) =~= changes@);
    r
}

/// At most one tooltip is shown per frame.
pub proof fn law_one_tooltip_at_a_time(changes: Seq<HoverChange>, any_in_use: bool, i: int, j: int)
    requires
        0 <= i < j < spec_tooltip_actions(changes, any_in_use).0.len(),
        spec_tooltip_actions(changes, any_in_use).0[i] == TooltipAction::Show,
    ensures
        spec_tooltip_actions(changes, any_in_use).0[j] != TooltipAction::Show,
    decreases changes.len(),
{
    lemma_tooltip_actions_len(changes, any_in_use);
    let (rest, shown) = spec_tooltip_actions(changes.drop_last(), any_in_use);
    lemma_tooltip_actions_len(changes.drop_last(), any_in_use);
    if j < changes.len() - 1 {
        law_one_tooltip_at_a_time(changes.drop_last(), any_in_use, i, j);
    } else {
        lemma_shown_iff(changes.drop_last(), any_in_use, i);
    }
}

proof fn lemma_tooltip_actions_len(changes: Seq<HoverChange>, any_in_use: bool)
    ensures
        spec_tooltip_actions(changes, any_in_use).0.len() == changes.len(),
    decreases changes.len(),
{
    if changes.len() > 0 {
        lemma_tooltip_actions_len(changes.drop_last(), any_in_use);
    }
}

proof fn lemma_shown_iff(changes: Seq<HoverChange>, any_in_use: bool, i: int)
    requires
        0 <= i < spec_tooltip_actions(changes, any_in_use).0.len(),
        spec_tooltip_actions(changes, any_in_use).0[i] == TooltipAction::Show,
    ensures
        spec_tooltip_actions(changes, any_in_use).1,
    decreases changes.len(),
{
    lemma_tooltip_actions_len(changes, any_in_use);
    lemma_tooltip_actions_len(changes.drop_last(), any_in_use);
    if i < changes.len() - 1 {
        lemma_shown_iff(changes.drop_last(), any_in_use, i);
    }
}

} // verus!
