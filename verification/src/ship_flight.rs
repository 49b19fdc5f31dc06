//! While piloting: which waypoint indicator is focused, and how the tinted
//! indicator images are shared between indicators of one colour.

use vstd::prelude::*;

verus! {

/// The waypoint focused after the focus key is pressed, given the one
/// focused now and the one closest to the centre of the screen.
pub open spec fn spec_focus_after_press(focused: Option<u64>, closest: Option<u64>) -> Option<u64> {
    match focused {
        Some(cur) => match closest {
            Some(c) => if c != cur { Some(c) } else { None },
            None => None,
        },
        None => closest,
    }
}

/// The waypoint focused after the focus key is pressed: the one focused is
/// unfocused, and the one closest to the centre of the screen is focused
/// unless it was the one just unfocused.
pub fn focus_after_press(focused: Option<u64>, closest: Option<u64>) -> (r: Option<u64>)
    ensures
        r == spec_focus_after_press(focused, closest),
{
    match focused {
        Some(cur) => match closest {
            Some(c) => {
                if c != cur {
                    Some(c)
                } else {
                    None
                }
            },
            None => None,
        },
        None => closest,
    }
}

/// With the view still, pressing the focus key twice gives back what was
/// focused when nothing was: the closest waypoint is focused, then
/// unfocused.
pub proof fn law_focus_press_twice(closest: Option<u64>)
    ensures
        spec_focus_after_press(spec_focus_after_press(None, closest), closest) is None,
{
}

/// The key under which the image tinted with a colour is kept: its red,
/// green and blue bytes, most significant first, then a zero byte; the
/// alpha is not part of it.
pub open spec fn spec_color_key(r: u8, g: u8, b: u8) -> int {
    r as int * 0x1000000 + g as int * 0x10000 + b as int * 0x100
}

/// The key under which the image tinted with an indicator's colour is kept
/// (`u32::from_be_bytes([r, g, b, 0])`).
pub fn color_key(r: u8, g: u8, b: u8) -> (k: u32)
    ensures
        k == spec_color_key(r, g, b),
{
    (r as u32) * 0x1000000 + (g as u32) * 0x10000 + (b as u32) * 0x100
}

/// Two colours share a tinted image exactly when their red, green and blue
/// bytes are equal.
pub proof fn law_color_key_distinguishes(r1: u8, g1: u8, b1: u8, r2: u8, g2: u8, b2: u8)
    ensures
        (spec_color_key(r1, g1, b1) == spec_color_key(r2, g2, b2)) <==> (r1 == r2 && g1 == g2 && b1 == b2),
{
    assert((r1 as int * 0x1000000 + g1 as int * 0x10000 + b1 as int * 0x100 == r2 as int * 0x1000000 + g2 as int
        * 0x10000 + b2 as int * 0x100) ==> (r1 == r2 && g1 == g2 && b1 == b2)) by (nonlinear_arith)
        requires
            r1 < 256,
            g1 < 256,
            b1 < 256,
            r2 < 256,
            g2 < 256,
            b2 < 256,
    ;
}

} // verus!
