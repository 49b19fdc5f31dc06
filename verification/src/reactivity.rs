//! A framework for adding UI items that will react to variables.
//!
//! A UI item carries [`BindValues`] naming the entities whose values it
//! shows; when one of those values changes, the item is told to fetch it
//! again, and when the user edits the item, the value is written back.

use vstd::prelude::*;
use crate::slider::{Slider, SliderValue};
use crate::text_input::InputType;
use crate::text::{i64_to_string, parse_signed, parsed_signed, signed_decimal, str_eq};
use std::marker::PhantomData;

verus! {

/// Use this to signify which field type should be reacted to for this variable
#[derive(Debug, Clone, Copy, PartialEq, Eq, Structural)]
pub enum ReactableFields {
    /// A value that is set or constantly displayed
    Value,
    /// A text field (aka label)
    Text {
        /// When you make a Text component, that text is composed of sections
        ///
        /// This is the section you want change's index. A new section will NOT be made for this
        /// index if one does not exist, so make sure to create your needed sections first.
        section: usize,
    },
    /// A min field - generally a numeric value
    Min,
    /// A max field - generally a numeric value
    Max,
}

/// A value that can be reacted to
pub trait ReactableValue: Sized {
    /// The text this value shows.
    spec fn value_text(&self) -> Seq<char>;

    /// The text the value shows after it was set from `text`.
    spec fn text_after_set(&self, text: Seq<char>) -> Seq<char>;

    /// Convert whatever value this is into a string representation
    fn as_value(&self) -> (r: String)
        ensures
            r@ == self.value_text(),
    ;

    /// Parse this value back from the string representation
    ///
    /// The `new_value` is NOT guarenteed to be a valid representation, so if
    /// you do any parsing be sure to have a default for an invalid form.
    fn set_from_value(&mut self, new_value: &str)
        ensures
            final(self).value_text() == old(self).text_after_set(new_value@),
    ;
}

/// Binds a value to the proper field.
///
/// The `bound_entity` field should corruspond to the entity that has the `T` component on it to read from/write to.
pub struct BindValue<T> {
    bound_entity: u64,
    field: ReactableFields,
    _phantom: PhantomData<T>,
}

impl<T> BindValue<T> {
    /// The entity whose value is bound.
    pub closed spec fn spec_bound_entity(&self) -> u64 {
        self.bound_entity
    }

    /// The field the value is bound to.
    pub closed spec fn spec_field(&self) -> ReactableFields {
        self.field
    }

    /// - The `bound_entity` field should corruspond to the entity that has the `T` component on it to read from/write to.
    /// - The `field` is the marker of the field you want to link to. Be sure to check the component's documentation to see what
    ///   fields you can bind to.
    pub fn new(bound_entity: u64, field: ReactableFields) -> (b: Self)
        ensures
            b.spec_bound_entity() == bound_entity,
            b.spec_field() == field,
    {
        BindValue { bound_entity, field, _phantom: PhantomData }
    }

    /// The entity whose value is bound.
    pub fn bound_entity(&self) -> (e: u64)
        ensures
            e == self.spec_bound_entity(),
    {
        self.bound_entity
    }

    /// The field the value is bound to.
    pub fn field(&self) -> (f: ReactableFields)
        ensures
            f == self.spec_field(),
    {
        self.field
    }
}

/// Binds different values to this component.
///
/// You can use multiple BindValues on the same struct as long as they
/// have different generic types.
pub struct BindValues<T>(Vec<BindValue<T>>);

/// The entities a list of bindings reads from, in order.
pub open spec fn bound_entities<T>(items: Seq<BindValue<T>>) -> Seq<u64> {
    items.map_values(|b: BindValue<T>| b.spec_bound_entity())
}

impl<T> BindValues<T> {
    /// The bindings, in order.
    pub closed spec fn spec_items(&self) -> Seq<BindValue<T>> {
        self.0@
    }

    /// Binds different values to this component.
    ///
    /// Specify the values to bind in this vec
    pub fn new(items: Vec<BindValue<T>>) -> (b: Self)
        ensures
            b.spec_items() == items@,
    {
        BindValues(items)
    }

    /// Binds a value to this component.
    pub fn single(item: BindValue<T>) -> (b: Self)
        ensures
            b.spec_items() == seq![item],
    {
        let mut v: Vec<BindValue<T>> = Vec::new();
        v.push(item);
        BindValues(v)
    }

    /// The bindings, in order.
    pub fn items(&self) -> (s: &[BindValue<T>])
        ensures
            s@ == self.spec_items(),
    {
        self.0.as_slice()
    }

    /// Whether one of the bindings reads from `entity`.
    pub fn binds_to(&self, entity: u64) -> (r: bool)
        ensures
            r == bound_entities(self.spec_items()).contains(entity),
    {
        let mut i: usize = 0;
        while i < self.0.len()
            invariant
                i <= self.0.len(),
                forall|j: int| 0 <= j < i ==> self.0@[j].spec_bound_entity() != entity,
            decreases self.0.len() - i,
        {
            if self.0[i].bound_entity == entity {
                proof {
                    assert(bound_entities(self.0@)[i as int] == entity);
                }
                return true;
            }
            i = i + 1;
        }
        proof {
            if bound_entities(self.0@).contains(entity) {
                let k = choose|k: int| 0 <= k < bound_entities(self.0@).len() && bound_entities(self.0@)[k] == entity;
                assert(self.0@[k].spec_bound_entity() == entity);
            }
        }
        false
    }
}

/// The listeners, in order, that are told to fetch again when the value on
/// `changed` changes: those with a binding that reads from it.
pub open spec fn notified<T>(listeners: Seq<(u64, BindValues<T>)>, changed: u64) -> Seq<u64>
    decreases listeners.len(),
{
    if listeners.len() == 0 {
        Seq::empty()
    } else {
        let rest = notified(listeners.drop_last(), changed);
        if bound_entities(listeners.last().1.spec_items()).contains(changed) {
            rest.push(listeners.last().0)
        } else {
            rest
        }
    }
}

/// The listeners, given as their entity and bindings, that need their
/// values fetched because the value on `changed` changed.
pub fn listeners_to_notify<T>(listeners: &Vec<(u64, BindValues<T>)>, changed: u64) -> (r: Vec<u64>)
    ensures
        r@ == notified(listeners@, changed),
{
    let mut r: Vec<u64> = Vec::new();
    let mut i: usize = 0;
    while i < listeners.len()
        invariant
            i <= listeners.len(),
            r@ == notified(listeners@.subrange(0, i as int), changed),
        decreases listeners.len() - i,
    {
        let ghost before = listeners@.subrange(0, i as int);
        let ghost after = listeners@.subrange(0, i as int + 1);
        assert(after.drop_last() =~= before);
        if listeners[i].1.binds_to(changed) {
            r.push(listeners[i].0);
        }
        i = i + 1;
    }
    assert(listeners@.subrange(0, listeners.len() as int) =~= listeners@);
    r
}

/// The text to write into a label's section for a binding, given the bound
/// value: its text, for a binding to a text section.
pub fn text_section_update<T: ReactableValue>(field: ReactableFields, value: &T) -> (r: Option<(usize, String)>)
    ensures
        match field {
            ReactableFields::Text { section } => r matches Some((s, t)) && s == section && t@ == value.value_text(),
            _ => r is None,
        },
{
    match field {
        ReactableFields::Text { section } => Some((section, value.as_value())),
        _ => None,
    }
}

/// Whether a text input bound to a value must take that value's text: when
/// they differ, except that an empty input is left alone when the value is
/// `0`.
pub open spec fn input_takes_value(input: Seq<char>, value: Seq<char>) -> bool {
    input != value && !(input.len() == 0 && value == seq!['0'])
}

/// Whether a text input showing `input` must be set to the bound value's
/// text `value`.
pub fn input_needs_value(input: &str, value: &str) -> (r: bool)
    ensures
        r == input_takes_value(input@, value@),
{
    let same = str_eq(input, value);
    let zero = str_eq(value, "0");
    let empty = str_eq(input, "");
    proof {
        reveal_strlit("0");
        reveal_strlit("");
        assert("0"@ =~= seq!['0']);
        assert(""@ =~= Seq::<char>::empty());
        assert(input@.len() == 0 ==> input@ =~= Seq::<char>::empty());
    }
    !same && !(empty && zero)
}

/// Writes what the user typed into a text input back into the value bound
/// to it: the value is set from the text when its own text differs, and
/// left alone otherwise.
pub fn sync_from_input<T: ReactableValue>(value: &mut T, input: &str)
    ensures
        old(value).value_text() == input@ ==> *final(value) == *old(value),
        old(value).value_text() != input@ ==> final(value).value_text() == old(value).text_after_set(input@),
{
    let current = value.as_value();
    if !str_eq(current.as_str(), input) {
        value.set_from_value(input);
    }
}

/// Writes the number a slider selected back into the value bound to it, as
/// its decimal text.
pub fn sync_from_slider<T: ReactableValue>(value: &mut T, slider: &SliderValue)
    ensures
        old(value).value_text() == signed_decimal(slider.spec_value()) ==> *final(value) == *old(value),
        old(value).value_text() != signed_decimal(slider.spec_value()) ==> final(value).value_text()
            == old(value).text_after_set(signed_decimal(slider.spec_value())),
{
    let text = i64_to_string(slider.value());
    sync_from_input(value, text.as_str());
}

/// A number read from the bound value's text, for a slider's value or a
/// numeric bound: `None` when the text is no `i64`.
pub fn bound_number<T: ReactableValue>(value: &T) -> (r: Option<i64>)
    ensures
        r == (match parsed_signed(value.value_text(), i64::MIN as int, i64::MAX as int) {
            Some(v) => Some(v as i64),
            None => None::<i64>,
        }),
{
    let text = value.as_value();
    parse_signed(text.as_str(), i64::MIN, i64::MAX)
}

/// Sets a slider bound to a value from that value's text; returns `false`,
/// leaving the slider as it was, when the text is no `i64`.
pub fn slider_from_value<T: ReactableValue>(slider: &mut SliderValue, value: &T) -> (ok: bool)
    ensures
        ok == parsed_signed(value.value_text(), i64::MIN as int, i64::MAX as int) is Some,
        ok ==> final(slider).spec_value() == parsed_signed(value.value_text(), i64::MIN as int, i64::MAX as int)->0,
        !ok ==> *final(slider) == *old(slider),
{
    match bound_number(value) {
        Some(v) => {
            if slider.value() != v {
                slider.set_value(v);
            }
            true
        },
        None => false,
    }
}

/// A slider after a value bound to one of its fields changed: the value, the
/// minimum or the maximum takes the value's number, even where that leaves
/// the value outside the range. Nothing changes, and `false` is returned,
/// when the text is no `i64` or the binding is to a text section.
pub fn slider_from_binding<T: ReactableValue>(
    slider_value: &mut SliderValue,
    slider: &mut Slider,
    field: ReactableFields,
    value: &T,
) -> (ok: bool)
    ensures
        ok == (!(field is Text) && parsed_signed(value.value_text(), i64::MIN as int, i64::MAX as int) is Some),
        !ok ==> *final(slider_value) == *old(slider_value) && *final(slider) == *old(slider),
        ok && field == ReactableFields::Value ==> *final(slider) == *old(slider)
            && final(slider_value).spec_value() == parsed_signed(value.value_text(), i64::MIN as int, i64::MAX as int)->0,
        ok && field == ReactableFields::Min ==> *final(slider_value) == *old(slider_value) && *final(slider) == (Slider {
            min: parsed_signed(value.value_text(), i64::MIN as int, i64::MAX as int)->0 as i64,
            max: old(slider).max,
        }),
        ok && field == ReactableFields::Max ==> *final(slider_value) == *old(slider_value) && *final(slider) == (Slider {
            min: old(slider).min,
            max: parsed_signed(value.value_text(), i64::MIN as int, i64::MAX as int)->0 as i64,
        }),
{
    match field {
        ReactableFields::Value => slider_from_value(slider_value, value),
        ReactableFields::Min => match bound_number(value) {
            Some(v) => {
                if slider.min != v {
                    slider.min = v;
                }
                true
            },
            None => false,
        },
        ReactableFields::Max => match bound_number(value) {
            Some(v) => {
                if slider.max != v {
                    slider.max = v;
                }
                true
            },
            None => false,
        },
        ReactableFields::Text { .. } => false,
    }
}

/// The bounds of an integer text box after a value bound to its minimum or
/// maximum changed: the bound takes the value's number. Nothing changes, and
/// `false` is returned, when the box is no integer box, the binding is to
/// neither bound, or the text is no `i64`.
pub fn integer_bound_from_value<T: ReactableValue>(input_type: &mut InputType, field: ReactableFields, value: &T) -> (ok: bool)
    ensures
        ok == ((field == ReactableFields::Min || field == ReactableFields::Max) && *old(input_type) is Integer
            && parsed_signed(value.value_text(), i64::MIN as int, i64::MAX as int) is Some),
        !ok ==> *final(input_type) == *old(input_type),
        ok && field == ReactableFields::Min ==> *final(input_type) == (InputType::Integer {
            min: parsed_signed(value.value_text(), i64::MIN as int, i64::MAX as int)->0 as i64,
            max: old(input_type)->max,
        }),
        ok && field == ReactableFields::Max ==> *final(input_type) == (InputType::Integer {
            min: old(input_type)->min,
            max: parsed_signed(value.value_text(), i64::MIN as int, i64::MAX as int)->0 as i64,
        }),
{
    let is_min = match field {
        ReactableFields::Min => true,
        ReactableFields::Max => false,
        _ => return false,
    };
    match *input_type {
        InputType::Integer { min, max } => match bound_number(value) {
            Some(v) => {
                if is_min {
                    *input_type = InputType::Integer { min: v, max };
                } else {
                    *input_type = InputType::Integer { min, max: v };
                }
                true
            },
            None => false,
        },
        _ => false,
    }
}

/// The steps of the reactive UI, in order.
#[derive(Debug, Hash, PartialEq, Eq, Clone, Copy, Structural)]
pub enum ReactiveUiSystemSet {
    /// Text inputs read from and write to their values.
    ProcessTextValueChanges,
    /// Sliders and labels read from and write to their values.
    ProcessSliderValueChanges,
    /// Other changes.
    ProcessChanges,
}

} // verus!
