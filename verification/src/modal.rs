//! Modals: small windows above everything else that ask for a text or a
//! yes/no answer, and what each of their buttons answers.

use vstd::prelude::*;
use crate::text::owned;
use crate::text_input::InputType;

verus! {

/// The buttons a text modal has.
#[derive(Debug, Clone, Copy, PartialEq, Eq, Structural)]
pub enum TextModalButtons {
    /// Ok + Cancel buttons
    OkCancel,
}

impl Default for TextModalButtons {
    fn default() -> (b: Self)
        ensures
            b == TextModalButtons::OkCancel,
    {
        TextModalButtons::OkCancel
    }
}

/// The buttons a confirm modal has.
#[derive(Debug, Clone, Copy, PartialEq, Eq, Structural)]
pub enum ConfirmModalButtons {
    /// Yes + No buttons
    YesNo,
}

impl Default for ConfirmModalButtons {
    fn default() -> (b: Self)
        ensures
            b == ConfirmModalButtons::YesNo,
    {
        ConfirmModalButtons::YesNo
    }
}

/// A modal where the user enters text
#[derive(Debug)]
pub struct TextModal {
    /// The prompt
    pub prompt: String,
    /// The starting value of that text
    pub starting_value: String,
    /// The buttons this will have
    pub buttons: TextModalButtons,
    /// What type of input we want
    pub input_type: InputType,
}

/// A modal asking the user to confirm something
#[derive(Debug)]
pub struct ConfirmModal {
    /// The question asked
    pub prompt: String,
    /// The buttons this will have
    pub buttons: ConfirmModalButtons,
}

/// What a modal's button does.
#[derive(Debug, Clone, Copy, PartialEq, Eq, Structural)]
pub enum ModalAnswer {
    /// Closes the modal without an answer (text modal) or answers no
    /// (confirm modal).
    Decline,
    /// Closes the modal with the text typed (text modal) or answers yes
    /// (confirm modal).
    Accept,
}

/// The buttons of a text modal, left to right: their labels and answers.
pub fn text_modal_buttons(b: TextModalButtons) -> (r: Vec<(&'static str, ModalAnswer)>)
    ensures
        r@.len() == 2,
        r@[0].0@ == "Cancel"@ && r@[0].1 == ModalAnswer::Decline,
        r@[1].0@ == "Ok"@ && r@[1].1 == ModalAnswer::Accept,
{
    match b {
        TextModalButtons::OkCancel => {
            let mut r: Vec<(&'static str, ModalAnswer)> = Vec::new();
            r.push(("Cancel", ModalAnswer::Decline));
            r.push(("Ok", ModalAnswer::Accept));
            r
        },
    }
}

/// The buttons of a confirm modal, left to right: their labels and answers.
pub fn confirm_modal_buttons(b: ConfirmModalButtons) -> (r: Vec<(&'static str, ModalAnswer)>)
    ensures
        r@.len() == 2,
        r@[0].0@ == "No"@ && r@[0].1 == ModalAnswer::Decline,
        r@[1].0@ == "Yes"@ && r@[1].1 == ModalAnswer::Accept,
{
    match b {
        ConfirmModalButtons::YesNo => {
            let mut r: Vec<(&'static str, ModalAnswer)> = Vec::new();
            r.push(("No", ModalAnswer::Decline));
            r.push(("Yes", ModalAnswer::Accept));
            r
        },
    }
}

/// What a text modal reports when one of its buttons is pressed, the box
/// holding `value`: the text on accepting, nothing on declining. Either way
/// the modal closes.
pub fn text_modal_result(answer: ModalAnswer, value: &str) -> (r: Option<String>)
    ensures
        answer == ModalAnswer::Decline ==> r is None,
        answer == ModalAnswer::Accept ==> (r matches Some(t) && t@ == value@),
{
    match answer {
        ModalAnswer::Decline => None,
        ModalAnswer::Accept => Some(owned(value)),
    }
}

/// What a confirm modal reports when one of its buttons is pressed:
/// whether the user confirmed.
pub fn confirm_modal_result(answer: ModalAnswer) -> (confirmed: bool)
    ensures
        confirmed == (answer == ModalAnswer::Accept),
{
    match answer {
        ModalAnswer::Decline => false,
        ModalAnswer::Accept => true,
    }
}

/// Whether a text modal shows its prompt above the box: only when it has
/// one.
pub fn shows_prompt(prompt: &str) -> (r: bool)
    ensures
        r == (prompt@.len() > 0),
{
    let cs = crate::text::chars_of(prompt);
    cs.len() > 0
}

} // verus!
