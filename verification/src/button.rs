//! Buttons: the colours they take as the pointer moves over and presses
//! them, what becomes of their label when it changes, and when a press
//! counts as a click.

use vstd::prelude::*;

verus! {

/// How the pointer is interacting with a button.
#[derive(Debug, Clone, Copy, PartialEq, Eq, Structural)]
pub enum PointerInteraction {
    /// The pointer is elsewhere.
    Idle,
    /// The pointer is over the button.
    Hovered,
    /// The button is pressed.
    Pressed,
}

/// Out-of-the-box color changing for the different states a button can be
/// in, over colours of type `C`.
#[derive(Debug, Clone, Copy)]
pub struct ButtonStyles<C> {
    /// Color used when not hovering/clicking the button
    pub background_color: C,
    /// Color used when not hovering/clicking the button
    pub foreground_color: C,
    /// Color used when hovering but not clicking the button
    pub hover_background_color: C,
    /// Color used when hovering but not clicking the button
    pub hover_foreground_color: C,
    /// Color used when clicking the button
    pub press_background_color: C,
    /// Color used when clicking the button
    pub press_foreground_color: C,
}

/// The background and text colours a styled button takes for an
/// interaction.
pub open spec fn spec_button_colors<C>(styles: ButtonStyles<C>, interaction: PointerInteraction) -> (C, C) {
    match interaction {
        PointerInteraction::Idle => (styles.background_color, styles.foreground_color),
        PointerInteraction::Hovered => (styles.hover_background_color, styles.hover_foreground_color),
        PointerInteraction::Pressed => (styles.press_background_color, styles.press_foreground_color),
    }
}

/// The background and text colours a styled button takes for an
/// interaction: its normal colours when idle, its hover colours under the
/// pointer, its press colours while pressed.
pub fn button_colors<C: Copy>(styles: &ButtonStyles<C>, interaction: PointerInteraction) -> (r: (C, C))
    ensures
        r == spec_button_colors(*styles, interaction),
{
    match interaction {
        PointerInteraction::Idle => (styles.background_color, styles.foreground_color),
        PointerInteraction::Hovered => (styles.hover_background_color, styles.hover_foreground_color),
        PointerInteraction::Pressed => (styles.press_background_color, styles.press_foreground_color),
    }
}

/// The colours of a button after a pointer event: none change for a button
/// without styles.
pub fn colors_after_pointer<C: Copy>(styles: &Option<ButtonStyles<C>>, interaction: PointerInteraction) -> (r: Option<(C, C)>)
    ensures
        r == (match styles {
            Some(s) => Some(spec_button_colors(*s, interaction)),
            None => None,
        }),
{
    match styles {
        Some(s) => Some(button_colors(s, interaction)),
        None => None,
    }
}

/// What becomes of a button's label when the button changes.
#[derive(Debug, Clone, Copy, PartialEq, Eq, Structural)]
pub enum LabelChange {
    /// The label shown is rewritten, if it differs.
    Update,
    /// The label shown is removed.
    Remove,
    /// A label is created.
    Create,
    /// Nothing.
    Keep,
}

/// What becomes of a button's label: the shown label follows the wanted one,
/// created when there was none and removed when none is wanted.
pub fn label_change(label_shown: bool, label_wanted: bool) -> (c: LabelChange)
    ensures
        label_shown && label_wanted ==> c == LabelChange::Update,
        label_shown && !label_wanted ==> c == LabelChange::Remove,
        !label_shown && label_wanted ==> c == LabelChange::Create,
        !label_shown && !label_wanted ==> c == LabelChange::Keep,
{
    if label_shown {
        if label_wanted {
            LabelChange::Update
        } else {
            LabelChange::Remove
        }
    } else if label_wanted {
        LabelChange::Create
    } else {
        LabelChange::Keep
    }
}

/// Whether a button sends its event: when clicked, or when its submit key
/// was just pressed; never while disabled.
pub fn sends_event(disabled: bool, clicked: bool, submit_key_pressed: bool) -> (r: bool)
    ensures
        r == (!disabled && (clicked || submit_key_pressed)),
{
    !disabled && (clicked || submit_key_pressed)
}

/// The steps of a button each frame.
#[derive(Debug, Hash, PartialEq, Eq, Clone, Copy, Structural)]
pub enum ButtonUiSystemSet {
    /// Sets up any buttons added.
    AddButtonBundle,
    /// Sends user events from the various buttons.
    SendButtonMessages,
}

} // verus!
