//! Text boxes the user types in: the value they hold and the rule that
//! decides which texts an integer box accepts.

use vstd::prelude::*;
use crate::text::{owned, parse_signed, parsed_signed, str_eq};

verus! {

/// Holds the value input by the user in this text field.
///
/// For an integer box, a single minus sign may be stored while the user
/// starts typing a negative number; it does not parse, but is a valid
/// input.
#[derive(Debug, Clone)]
pub struct InputValue(String);

impl InputValue {
    /// The text held.
    pub closed spec fn spec_value(&self) -> Seq<char> {
        self.0@
    }

    /// Creates an input value with this value. This is not checked for validity.
    pub fn new(value: &str) -> (v: Self)
        ensures
            v.spec_value() == value@,
    {
        InputValue(owned(value))
    }

    /// Sets the value
    pub fn set_value(&mut self, value: &str)
        ensures
            final(self).spec_value() == value@,
    {
        self.0 = owned(value);
    }

    /// Gets the value.
    ///
    /// If you parse this, handle the error case: an empty text or a lone
    /// minus sign is a valid input that does not parse.
    pub fn value(&self) -> (v: &str)
        ensures
            v@ == self.spec_value(),
    {
        self.0.as_str()
    }
}

impl Default for InputValue {
    fn default() -> (v: Self)
        ensures
            v.spec_value() == Seq::<char>::empty(),
    {
        InputValue(String::new())
    }
}

/// Used to validate user input for a given text field. (A field for
/// decimal numbers, whose bounds are floating point, is handled by the
/// application.)
#[derive(Debug, Clone, Copy, PartialEq, Eq, Structural)]
pub enum InputType {
    /// Input can by anything, with an optional maximum length.
    Text {
        /// The optional maximum length of the user's input
        max_length: Option<usize>,
    },
    /// Input can only be a valid `i64` value.
    Integer {
        /// Minimum value
        min: i64,
        /// Maximum value
        max: i64,
    },
}

impl Default for InputType {
    fn default() -> (t: Self)
        ensures
            t == (InputType::Text { max_length: None }),
    {
        InputType::Text { max_length: None }
    }
}

/// Whether an integer box with these bounds accepts the text: a lone `-`
/// when negative values are allowed, or an `i64` within the bounds.
pub open spec fn integer_accepts(s: Seq<char>, min: i64, max: i64) -> bool {
    (s == seq!['-'] && min < 0) || match parsed_signed(s, i64::MIN as int, i64::MAX as int) {
        Some(v) => min <= v && v <= max,
        None => false,
    }
}

/// Whether an integer box with these bounds accepts the text the user is
/// typing.
pub fn integer_input_accepted(s: &str, min: i64, max: i64) -> (r: bool)
    ensures
        r == integer_accepts(s@, min, max),
{
    let dash = str_eq(s, "-");
    proof {
        reveal_strlit("-");
        assert("-"@ =~= seq!['-']);
    }
    if dash && min < 0 {
        return true;
    }
    match parse_signed(s, i64::MIN, i64::MAX) {
        Some(v) => min <= v && v <= max,
        None => false,
    }
}

/// The most characters a box accepts, for the text editor: a bound only
/// for a text box that has one.
pub fn max_chars(t: InputType) -> (r: Option<usize>)
    ensures
        r == (match t {
            InputType::Text { max_length } => max_length,
            _ => None,
        }),
{
    match t {
        InputType::Text { max_length } => max_length,
        _ => None,
    }
}

/// An integer box accepts exactly the numbers within its bounds among the
/// texts that parse.
pub proof fn law_integer_box_bounds(s: Seq<char>, min: i64, max: i64)
    requires
        s != seq!['-'],
        parsed_signed(s, i64::MIN as int, i64::MAX as int) is Some,
    ensures
        integer_accepts(s, min, max) == (min <= parsed_signed(s, i64::MIN as int, i64::MAX as int)->0 <= max),
{
}

/// The first entity, in the order given, that the pointer interacts with.
pub open spec fn first_interacted(entities: Seq<(u64, bool)>) -> Option<u64>
    decreases entities.len(),
{
    if entities.len() == 0 {
        None
    } else if entities[0].1 {
        Some(entities[0].0)
    } else {
        first_interacted(entities.drop_first())
    }
}

/// The element focused after a left click, given each enabled element and
/// whether the pointer interacts with it: the first one it does, or none.
pub fn focus_after_click(entities: &Vec<(u64, bool)>) -> (r: Option<u64>)
    ensures
        r == first_interacted(entities@),
{
    let mut i: usize = 0;
    assert(entities@.skip(0) =~= entities@);
    while i < entities.len()
        invariant
            i <= entities.len(),
            first_interacted(entities@) == first_interacted(entities@.skip(i as int)),
        decreases entities.len() - i,
    {
        if entities[i].1 {
            return Some(entities[i].0);
        }
        assert(entities@.skip(i as int).drop_first() =~= entities@.skip(i + 1));
        i = i + 1;
    }
    None
}

/// Whether the text an editor shows must be replaced by the box's value:
/// when they differ (the value was changed from outside the editor).
pub fn editor_needs_reset(shown: &str, value: &str) -> (r: bool)
    ensures
        r == (shown@ != value@),
{
    !str_eq(shown, value)
}

} // verus!
