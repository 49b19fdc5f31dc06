//! A checkable UI element: a click toggles it, and its colour shows
//! whether it is checked.

use vstd::prelude::*;

verus! {

/// A checkable UI element
#[derive(Debug, Clone, Copy, PartialEq, Eq, Structural)]
pub enum Checkbox {
    /// The checkbox is checked
    Enabled,
    /// The checkbox is not checked
    Disabled,
}

impl Checkbox {
    /// Whether this value means "checked".
    pub open spec fn spec_checked(self) -> bool {
        self is Enabled
    }

    /// The state after a toggle.
    pub open spec fn spec_toggled(self) -> Checkbox {
        match self {
            Checkbox::Enabled => Checkbox::Disabled,
            Checkbox::Disabled => Checkbox::Enabled,
        }
    }

    /// Checks whether this is checked as a true/false value
    pub fn get(&self) -> (checked: bool)
        ensures
            checked == self.spec_checked(),
    {
        match *self {
            Checkbox::Enabled => true,
            Checkbox::Disabled => false,
        }
    }

    /// Toggles this checkbox's state
    pub fn toggle(&mut self)
        ensures
            *final(self) == old(self).spec_toggled(),
    {
        *self = match *self {
            Checkbox::Enabled => Checkbox::Disabled,
            Checkbox::Disabled => Checkbox::Enabled,
        };
    }
}

impl Default for Checkbox {
    fn default() -> (cb: Self)
        ensures
            cb == Checkbox::Disabled,
    {
        Checkbox::Disabled
    }
}

/// The colour of a checkbox: aqua when checked, dark grey otherwise.
#[derive(Debug, Clone, Copy, PartialEq, Eq, Structural)]
pub enum CheckboxColor {
    /// Aqua.
    Aqua,
    /// Dark grey.
    DarkGrey,
}

/// The colour a checkbox is drawn in.
pub fn checkbox_color(cb: Checkbox) -> (c: CheckboxColor)
    ensures
        c == (if cb.spec_checked() { CheckboxColor::Aqua } else { CheckboxColor::DarkGrey }),
{
    match cb {
        Checkbox::Enabled => CheckboxColor::Aqua,
        Checkbox::Disabled => CheckboxColor::DarkGrey,
    }
}

/// A toggle flips whether the box is checked, and toggling twice gives
/// back the state it started in.
pub proof fn law_toggle_twice(cb: Checkbox)
    ensures
        cb.spec_toggled().spec_checked() == !cb.spec_checked(),
        cb.spec_toggled().spec_toggled() == cb,
{
}

} // verus!
