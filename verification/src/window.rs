//! Windows: movable panels with a title bar and a close button. A window's
//! children are split between its title bar and its body.

use vstd::prelude::*;

verus! {

/// The indices, in order, of the first `n` children that go to the title
/// bar (`to_title_bar` true) or to the body (false).
pub open spec fn children_where(is_title_bar: Seq<bool>, n: int, to_title_bar: bool) -> Seq<usize>
    decreases n,
{
    if n <= 0 {
        Seq::empty()
    } else {
        let rest = children_where(is_title_bar, n - 1, to_title_bar);
        if is_title_bar[n - 1] == to_title_bar {
            rest.push((n - 1) as usize)
        } else {
            rest
        }
    }
}

/// Splits a new window's children, given for each whether it is marked to
/// go in the title bar: the indices of those moved into the title bar, and
/// of those moved into the body, each in the order given.
pub fn split_window_children(is_title_bar: &Vec<bool>) -> (r: (Vec<usize>, Vec<usize>))
    ensures
        r.0@ == children_where(is_title_bar@, is_title_bar.len() as int, true),
        r.1@ == children_where(is_title_bar@, is_title_bar.len() as int, false),
{
    let mut bar: Vec<usize> = Vec::new();
    let mut body: Vec<usize> = Vec::new();
    let mut i: usize = 0;
    while i < is_title_bar.len()
        invariant
            i <= is_title_bar.len(),
            bar@ == children_where(is_title_bar@, i as int, true),
            body@ == children_where(is_title_bar@, i as int, false),
        decreases is_title_bar.len() - i,
    {
        if is_title_bar[i] {
            bar.push(i);
        } else {
            body.push(i);
        }
        i = i + 1;
    }
    (bar, body)
}

/// Every child goes to exactly one place: the two lists together are as
/// long as the children.
pub proof fn law_each_child_moves_once(is_title_bar: Seq<bool>, n: int)
    requires
        0 <= n <= is_title_bar.len(),
    ensures
        children_where(is_title_bar, n, true).len() + children_where(is_title_bar, n, false).len() == n,
    decreases n,
{
    if n > 0 {
        law_each_child_moves_once(is_title_bar, n - 1);
    }
}

/// The label of a window's close button.
pub const CLOSE_BUTTON_LABEL: &'static str = "X";

/// The steps of a window each frame.
#[derive(Debug, Hash, PartialEq, Eq, Clone, Copy, Structural)]
pub enum UiWindowSystemSet {
    /// Creates the window
    CreateWindow,
    /// Messages such as closing and moving the window are performed
    SendWindowMessages,
}

} // verus!
