//! The settings screen: the values typed or slid for each setting, the
//! order the settings are listed in, the texts of the control buttons, and
//! what is saved when the player is done.

use vstd::prelude::*;
use crate::reactivity::ReactableValue;
use crate::text::{all_ascii, lemma_replaced_ascii, chars_le, lex_le, lemma_lex_total, lemma_lex_transitive, lowercase, to_lowercase, chars_of, i64_to_string, owned, parse_signed, parsed_signed, push_char, push_chars, push_str, replace_all, replaced, signed_decimal};
use crate::slider::{Slider, SliderValue};
use crate::text_input::InputType;

verus! {

/// The text a setting shows while it is being edited, and the setting it
/// belongs to.
#[derive(Debug, Clone, PartialEq, Eq)]
pub struct WrittenSetting {
    /// The value as typed or slid.
    pub value: String,
    /// The numeric id of the setting.
    pub setting_id: u16,
}

impl ReactableValue for WrittenSetting {
    open spec fn value_text(&self) -> Seq<char> {
        self.value@
    }

    open spec fn text_after_set(&self, text: Seq<char>) -> Seq<char> {
        text
    }

    fn as_value(&self) -> (r: String) {
        owned(self.value.as_str())
    }

    fn set_from_value(&mut self, new_value: &str)
        ensures
            final(self).setting_id == old(self).setting_id,
    {
        self.value = owned(new_value)
    }
}

/// The group a setting is listed under.
#[derive(Debug, Clone, Copy, PartialEq, Eq, Structural)]
pub enum SettingCategory {
    /// Graphics settings.
    Graphics,
    /// Mouse settings.
    Mouse,
    /// Audio settings.
    Audio,
}

/// The heading shown above a category's settings.
pub fn category_name(c: SettingCategory) -> (n: &'static str)
    ensures
        n@ == (match c {
            SettingCategory::Graphics => "Graphics"@,
            SettingCategory::Mouse => "Mouse"@,
            SettingCategory::Audio => "Audio"@,
        }),
{
    match c {
        SettingCategory::Graphics => "Graphics",
        SettingCategory::Mouse => "Mouse",
        SettingCategory::Audio => "Audio",
    }
}

/// The place of a category in the list: graphics, then mouse, then audio.
pub open spec fn category_rank(c: SettingCategory) -> int {
    match c {
        SettingCategory::Graphics => 0,
        SettingCategory::Mouse => 1,
        SettingCategory::Audio => 2,
    }
}

fn category_rank_exec(c: SettingCategory) -> (r: u8)
    ensures
        r == category_rank(c),
{
    match c {
        SettingCategory::Graphics => 0,
        SettingCategory::Mouse => 1,
        SettingCategory::Audio => 2,
    }
}

/// What a setting is listed by: its category's place, then its display
/// name in lower case.
pub open spec fn listing_key(entry: (SettingCategory, Seq<char>)) -> (int, Seq<char>) {
    (category_rank(entry.0), lowercase(entry.1))
}

/// Whether a setting with key `a` may be listed before one with key `b`.
pub open spec fn key_le(a: (int, Seq<char>), b: (int, Seq<char>)) -> bool {
    a.0 < b.0 || (a.0 == b.0 && lex_le(a.1, b.1))
}

/// The settings, given by index, listed with key `k`, in the order given.
pub open spec fn with_key(order: Seq<usize>, entries: Seq<(SettingCategory, Seq<char>)>, k: (int, Seq<char>)) -> Seq<usize>
    decreases order.len(),
{
    if order.len() == 0 {
        Seq::empty()
    } else {
        let rest = with_key(order.drop_last(), entries, k);
        if listing_key(entries[order.last() as int]) == k {
            rest.push(order.last())
        } else {
            rest
        }
    }
}

/// The category and display name of each setting, as plain values.
pub open spec fn entries_view(entries: Seq<(SettingCategory, String)>) -> Seq<(SettingCategory, Seq<char>)> {
    entries.map_values(|e: (SettingCategory, String)| (e.0, e.1@))
}

/// The indices `0..n` in order.
pub open spec fn identity_order(n: nat) -> Seq<usize> {
    Seq::new(n, |i: int| i as usize)
}

proof fn lemma_with_key_concat(a: Seq<usize>, b: Seq<usize>, entries: Seq<(SettingCategory, Seq<char>)>, k: (int, Seq<char>))
    ensures
        with_key(a + b, entries, k) == with_key(a, entries, k) + with_key(b, entries, k),
    decreases b.len(),
{
    if b.len() == 0 {
        assert(a + b =~= a);
        assert(with_key(a, entries, k) + with_key(b, entries, k) =~= with_key(a, entries, k));
    } else {
        assert((a + b).drop_last() =~= a + b.drop_last());
        lemma_with_key_concat(a, b.drop_last(), entries, k);
        if listing_key(entries[b.last() as int]) == k {
            assert(with_key(a, entries, k) + with_key(b.drop_last(), entries, k).push(b.last()) =~= (with_key(a, entries, k)
                + with_key(b.drop_last(), entries, k)).push(b.last()));
        }
    }
}

proof fn lemma_with_key_none(b: Seq<usize>, entries: Seq<(SettingCategory, Seq<char>)>, k: (int, Seq<char>))
    requires
        forall|i: int| 0 <= i < b.len() ==> listing_key(entries[#[trigger] b[i] as int]) != k,
    ensures
        with_key(b, entries, k) == Seq::<usize>::empty(),
    decreases b.len(),
{
    if b.len() > 0 {
        lemma_with_key_none(b.drop_last(), entries, k);
    }
}

proof fn lemma_key_le_total(a: (int, Seq<char>), b: (int, Seq<char>))
    ensures
        key_le(a, b) || key_le(b, a),
{
    lemma_lex_total(a.1, b.1);
}

proof fn lemma_key_le_transitive(a: (int, Seq<char>), b: (int, Seq<char>), c: (int, Seq<char>))
    requires
        key_le(a, b),
        key_le(b, c),
    ensures
        key_le(a, c),
{
    if a.0 == b.0 && b.0 == c.0 {
        lemma_lex_transitive(a.1, b.1, c.1);
    }
}

/// An index is among those with its key exactly when it is in the order.
proof fn lemma_with_key_contains(order: Seq<usize>, entries: Seq<(SettingCategory, Seq<char>)>, t: usize)
    ensures
        order.contains(t) <==> with_key(order, entries, listing_key(entries[t as int])).contains(t),
    decreases order.len(),
{
    let k = listing_key(entries[t as int]);
    if order.len() > 0 {
        let d = order.drop_last();
        lemma_with_key_contains(d, entries, t);
        let w = with_key(d, entries, k);
        if order.contains(t) && !d.contains(t) {
            assert(order.last() == t) by {
                let i = choose|i: int| 0 <= i < order.len() && order[i] == t;
                if i < order.len() - 1 {
                    assert(d[i] == t);
                }
            }
            assert(w.push(t)[w.len() as int] == t);
        }
        if d.contains(t) {
            let i = choose|i: int| 0 <= i < d.len() && d[i] == t;
            assert(order[i] == t);
        }
        if with_key(order, entries, k).contains(t) && !w.contains(t) {
            assert(order.last() == t) by {
                let i = choose|i: int| 0 <= i < with_key(order, entries, k).len() && with_key(order, entries, k)[i] == t;
                if listing_key(entries[order.last() as int]) == k {
                    if i < w.len() {
                        assert(w[i] == t);
                    }
                } else {
                    assert(w[i] == t);
                }
            }
            assert(order[order.len() - 1] == t);
        }
        if w.contains(t) {
            let i = choose|i: int| 0 <= i < w.len() && w[i] == t;
            if listing_key(entries[order.last() as int]) == k {
                assert(w.push(order.last())[i] == t);
            }
        }
    }
}

/// The order in which the general tab lists the settings, given each one's
/// category and display name in registry order: by category, then by name
/// ignoring case, settings with the same name keeping their registry order
/// (a stable sort). Returns the indices of the settings in listing order.
pub fn listing_order(entries: &Vec<(SettingCategory, String)>) -> (order: Vec<usize>)
    ensures
        order.len() == entries.len(),
        forall|i: int| 0 <= i < order.len() ==> order[i] < entries.len(),
        forall|i: int, j: int|
            0 <= i < j < order.len() ==> key_le(
                #[trigger] listing_key(entries_view(entries@)[order[i] as int]),
                #[trigger] listing_key(entries_view(entries@)[order[j] as int]),
            ),
        forall|k: (int, Seq<char>)|
            #[trigger] with_key(order@, entries_view(entries@), k) == with_key(
                identity_order(entries.len() as nat),
                entries_view(entries@),
                k,
            ),
        forall|t: usize| t < entries.len() ==> #[trigger] order@.contains(t),
{
    let ghost ents = entries_view(entries@);
    let mut ranks: Vec<u8> = Vec::new();
    let mut lowered: Vec<Vec<char>> = Vec::new();
    let mut q: usize = 0;
    while q < entries.len()
        invariant
            q <= entries.len(),
            ents == entries_view(entries@),
            ranks.len() == q,
            lowered.len() == q,
            forall|t: int| 0 <= t < q ==> #[trigger] ranks@[t] == listing_key(ents[t]).0,
            forall|t: int| 0 <= t < q ==> (#[trigger] lowered@[t])@ == listing_key(ents[t]).1,
        decreases entries.len() - q,
    {
        ranks.push(category_rank_exec(entries[q].0));
        let l = to_lowercase(entries[q].1.as_str());
        lowered.push(chars_of(l.as_str()));
        q = q + 1;
    }
    let mut r: Vec<usize> = Vec::new();
    let mut i: usize = 0;
    while i < entries.len()
        invariant
            i <= entries.len(),
            ents == entries_view(entries@),
            ranks.len() == entries.len(),
            lowered.len() == entries.len(),
            forall|t: int| 0 <= t < entries.len() ==> #[trigger] ranks@[t] == listing_key(ents[t]).0,
            forall|t: int| 0 <= t < entries.len() ==> (#[trigger] lowered@[t])@ == listing_key(ents[t]).1,
            r.len() == i,
            forall|t: int| 0 <= t < r.len() ==> r[t] < i,
            forall|a: int, b: int|
                0 <= a < b < r.len() ==> key_le(#[trigger] listing_key(ents[r[a] as int]), #[trigger] listing_key(ents[r[b] as int])),
            forall|k: (int, Seq<char>)| #[trigger] with_key(r@, ents, k) == with_key(identity_order(i as nat), ents, k),
        decreases entries.len() - i,
    {
        let ghost kx = listing_key(ents[i as int]);
        let mut p: usize = 0;
        while p < r.len() && (ranks[r[p]] < ranks[i] || (ranks[r[p]] == ranks[i] && chars_le(&lowered[r[p]], &lowered[i])))
            invariant
                p <= r.len(),
                i < entries.len(),
                kx == listing_key(ents[i as int]),
                ranks.len() == entries.len(),
                lowered.len() == entries.len(),
                forall|t: int| 0 <= t < entries.len() ==> #[trigger] ranks@[t] == listing_key(ents[t]).0,
                forall|t: int| 0 <= t < entries.len() ==> (#[trigger] lowered@[t])@ == listing_key(ents[t]).1,
                forall|t: int| 0 <= t < r.len() ==> r[t] < i,
                forall|t: int| 0 <= t < p ==> key_le(#[trigger] listing_key(ents[r[t] as int]), kx),
            decreases r.len() - p,
        {
            p = p + 1;
        }
        let ghost old_r = r@;
        proof {
            if p < old_r.len() {
                assert(!key_le(listing_key(ents[old_r[p as int] as int]), kx));
            }
            assert forall|t: int| p <= t < old_r.len() implies !key_le(#[trigger] listing_key(ents[old_r[t] as int]), kx)
                && key_le(kx, listing_key(ents[old_r[t] as int])) && listing_key(ents[old_r[t] as int]) != kx by {
                let kp = listing_key(ents[old_r[p as int] as int]);
                let kt = listing_key(ents[old_r[t] as int]);
                lemma_key_le_total(kp, kx);
                if t > p {
                    assert(key_le(kp, kt));
                    lemma_key_le_transitive(kx, kp, kt);
                    if key_le(kt, kx) {
                        lemma_key_le_transitive(kp, kt, kx);
                    }
                }
            }
        }
        r.insert(p, i);
        proof {
            let pre = old_r.subrange(0, p as int);
            let post = old_r.subrange(p as int, old_r.len() as int);
            assert(r@ =~= pre.push(i) + post);
            assert(old_r =~= pre + post);
            assert(identity_order(i as nat + 1).drop_last() =~= identity_order(i as nat));
            assert(identity_order(i as nat + 1).last() == i);
            assert forall|k: (int, Seq<char>)| #[trigger] with_key(r@, ents, k) == with_key(identity_order(i as nat + 1), ents, k) by {
                lemma_with_key_concat(pre.push(i), post, ents, k);
                lemma_with_key_concat(pre, post, ents, k);
                assert(pre.push(i).drop_last() =~= pre);
                if k == kx {
                    assert forall|q: int| 0 <= q < post.len() implies listing_key(ents[#[trigger] post[q] as int]) != k by {
                        assert(post[q] == old_r[p + q]);
                    }
                    lemma_with_key_none(post, ents, k);
                    assert(with_key(pre, ents, k) + Seq::<usize>::empty() =~= with_key(pre, ents, k));
                    assert(with_key(pre, ents, k).push(i) + Seq::<usize>::empty() =~= with_key(pre, ents, k).push(i));
                }
            }
            assert forall|a: int, b: int| 0 <= a < b < r@.len() implies key_le(
                #[trigger] listing_key(ents[r@[a] as int]),
                #[trigger] listing_key(ents[r@[b] as int]),
            ) by {
                if b < p {
                } else if b == p {
                    assert(r@[a] == old_r[a]);
                } else if a < p {
                    assert(r@[a] == old_r[a] && r@[b] == old_r[b - 1]);
                    lemma_key_le_transitive(listing_key(ents[old_r[a] as int]), kx, listing_key(ents[old_r[b - 1] as int]));
                } else if a == p {
                    assert(r@[b] == old_r[b - 1]);
                } else {
                    assert(r@[a] == old_r[a - 1] && r@[b] == old_r[b - 1]);
                }
            }
        }
        i = i + 1;
    }
    proof {
        assert forall|t: usize| t < entries.len() implies #[trigger] r@.contains(t) by {
            let ident = identity_order(entries.len() as nat);
            assert(ident[t as int] == t);
            assert(ident.contains(t));
            lemma_with_key_contains(ident, ents, t);
            lemma_with_key_contains(r@, ents, t);
        }
    }
    r
}

/// The value a setting holds.
#[derive(Debug, Clone, PartialEq, Eq)]
pub enum SettingData {
    /// A whole number.
    I32(i32),
    /// A text.
    String(String),
}

/// The text a setting's box starts with: the number in decimal, or the
/// text.
pub fn initial_input_value(data: &SettingData) -> (t: String)
    ensures
        t@ == (match data {
            SettingData::I32(v) => signed_decimal(*v as int),
            SettingData::String(s) => s@,
        }),
{
    match data {
        SettingData::I32(v) => i64_to_string(*v as i64),
        SettingData::String(s) => owned(s.as_str()),
    }
}

/// What a setting's box accepts: any `i32` for a number, any text for a
/// text.
pub fn input_type_for(data: &SettingData) -> (t: InputType)
    ensures
        t == (match data {
            SettingData::I32(_) => InputType::Integer { min: i32::MIN as i64, max: i32::MAX as i64 },
            SettingData::String(_) => InputType::Text { max_length: None },
        }),
{
    match data {
        SettingData::I32(_) => InputType::Integer { min: i32::MIN as i64, max: i32::MAX as i64 },
        SettingData::String(_) => InputType::Text { max_length: None },
    }
}

/// A limit on the values a setting may take.
#[derive(Debug, Clone, Copy, PartialEq, Eq, Structural)]
pub enum SettingConstraint {
    /// A whole number from `min` to `max`.
    I32 {
        /// The smallest value allowed.
        min: i32,
        /// The largest value allowed.
        max: i32,
    },
}

/// What a setting's row lets the player change it with.
#[derive(Debug, Clone, PartialEq, Eq)]
pub enum SettingWidget {
    /// A slider over the constraint's range, with the number beside it.
    Slider {
        /// The slider's range.
        slider: Slider,
        /// The value the slider starts at.
        value: SliderValue,
        /// The text beside the slider: the value in decimal.
        label: String,
    },
    /// A text box.
    TextBox {
        /// What the box accepts.
        input_type: InputType,
        /// The text the box starts with.
        text: String,
    },
}

/// The control of a setting's row: a slider over `min..=max` starting at the
/// value for a number with an `I32` constraint, and otherwise a text box
/// that accepts what [`input_type_for`] says and starts with
/// [`initial_input_value`]. A text setting cannot carry a number's
/// constraint.
pub fn setting_widget(data: &SettingData, constraint: &Option<SettingConstraint>) -> (w: SettingWidget)
    requires
        !(constraint is Some && data is String),
    ensures
        match (constraint, data) {
            (Some(SettingConstraint::I32 { min, max }), SettingData::I32(v)) => w matches SettingWidget::Slider { slider, value, label }
                && slider == (Slider { min: *min as i64, max: *max as i64 })
                && value.spec_value() == *v as int
                && label@ == signed_decimal(*v as int),
            _ => w matches SettingWidget::TextBox { input_type, text }
                && input_type == (match data {
                    SettingData::I32(_) => InputType::Integer { min: i32::MIN as i64, max: i32::MAX as i64 },
                    SettingData::String(_) => InputType::Text { max_length: None },
                })
                && text@ == (match data {
                    SettingData::I32(v) => signed_decimal(*v as int),
                    SettingData::String(s) => s@,
                }),
        },
{
    match (constraint, data) {
        (Some(SettingConstraint::I32 { min, max }), SettingData::I32(v)) => SettingWidget::Slider {
            slider: Slider { min: *min as i64, max: *max as i64 },
            value: SliderValue::new(*v as i64),
            label: i64_to_string(*v as i64),
        },
        _ => SettingWidget::TextBox { input_type: input_type_for(data), text: initial_input_value(data) },
    }
}

/// The value a setting takes when the player is done: the typed text read
/// as an `i32` for a number (`None`, leaving the setting as it was, when it
/// is no `i32`), or the typed text for a text.
pub fn applied_setting(data: &SettingData, written: &str) -> (r: Option<SettingData>)
    ensures
        match data {
            SettingData::I32(_) => match parsed_signed(written@, i32::MIN as int, i32::MAX as int) {
                Some(v) => r == Some(SettingData::I32(v as i32)),
                None => r is None,
            },
            SettingData::String(_) => (r matches Some(SettingData::String(s)) && s@ == written@),
        },
{
    match data {
        SettingData::I32(_) => match parse_signed(written, i32::MIN as i64, i32::MAX as i64) {
            Some(v) => Some(SettingData::I32(v as i32)),
            None => None,
        },
        SettingData::String(_) => Some(SettingData::String(owned(written))),
    }
}

// ---------------------------------------------------------------------------
// Control buttons
// ---------------------------------------------------------------------------

/// The text of a control button while it waits for the new key:
/// `> {text} <`.
pub fn listening_text(current: &str) -> (t: String)
    ensures
        t@ == "> "@ + current@ + " <"@,
{
    let mut t = owned("> ");
    push_str(&mut t, current);
    push_str(&mut t, " <");
    t
}

/// Whether a click on a control button starts listening for its new key:
/// not while another button listens, nor on the frame this button stopped
/// listening (so that binding the left mouse button does not start again).
pub fn starts_listening(another_listening: bool, stopped_this_frame: bool) -> (r: bool)
    ensures
        r == (!another_listening && !stopped_this_frame),
{
    !another_listening && !stopped_this_frame
}

/// A control bound to a key `K` or a mouse button `M`.
#[derive(Debug, Clone, Copy, PartialEq, Eq, Structural)]
pub enum ControlType<K, M> {
    /// A key.
    Key(K),
    /// A mouse button.
    Mouse(M),
}

/// What a listening control button takes this frame, if anything: pausing
/// unbinds it, and otherwise a released key, or else a released mouse
/// button, becomes its control.
pub fn captured_control<K, M>(pause_pressed: bool, key: Option<K>, mouse: Option<M>) -> (r: Option<Option<ControlType<K, M>>>)
    ensures
        pause_pressed ==> r == Some(None::<ControlType<K, M>>),
        !pause_pressed ==> r == (match key {
            Some(k) => Some(Some(ControlType::Key(k))),
            None => match mouse {
                Some(m) => Some(Some(ControlType::Mouse(m))),
                None => None,
            },
        }),
{
    if pause_pressed {
        return Some(None);
    }
    match key {
        Some(k) => Some(Some(ControlType::Key(k))),
        None => match mouse {
            Some(m) => Some(Some(ControlType::Mouse(m))),
            None => None,
        },
    }
}

/// Whether a character is an uppercase letter in Unicode (the `Uppercase`
/// property).
pub uninterp spec fn uppercase(c: char) -> bool;

/// `char::is_uppercase`.
///
/// Claims that the result is [`uppercase`] of `c`, and that among ASCII
/// characters exactly `A` to `Z` are uppercase; what it says of other
/// characters is left to Unicode's tables.
#[verifier::external_body]
fn char_is_uppercase(c: char) -> (r: bool)
    ensures
        r == uppercase(c),
        c <= '\u{7f}' ==> (r == ('A' <= c && c <= 'Z')),
{
    c.is_uppercase()
}

/// The name with a space before each uppercase letter but the first.
pub open spec fn spaced(s: Seq<char>) -> Seq<char>
    decreases s.len(),
{
    if s.len() == 0 {
        Seq::empty()
    } else {
        let r = spaced(s.drop_last());
        let c = s.last();
        (if uppercase(c) && r.len() > 0 { r.push(' ') } else { r }).push(c)
    }
}

/// The pieces of `s` between spaces (`str::split(" ")`).
pub open spec fn words(s: Seq<char>) -> Seq<Seq<char>>
    decreases s.len(),
{
    if s.len() == 0 {
        seq![Seq::empty()]
    } else {
        let w = words(s.drop_last());
        if s.last() == ' ' {
            w.push(Seq::empty())
        } else {
            w.update(w.len() - 1, w.last().push(s.last()))
        }
    }
}

/// The words from `ws[from]` on, joined by spaces, last first.
pub open spec fn joined_reversed(ws: Seq<Seq<char>>, from: int) -> Seq<char>
    decreases ws.len() - from,
{
    if from >= ws.len() {
        Seq::empty()
    } else if from == ws.len() - 1 {
        ws[from]
    } else {
        joined_reversed(ws, from + 1) + seq![' '] + ws[from]
    }
}

/// A key's name as shown: a space before each capital but the first, and
/// the words in reverse order (`ArrowUp` reads `Up Arrow`).
pub open spec fn spec_display_debug_name(name: Seq<char>) -> Seq<char> {
    joined_reversed(words(spaced(name)), 0)
}

/// [`spaced`] for an ASCII name, whose uppercase letters are `A` to `Z`.
pub open spec fn spaced_ascii(s: Seq<char>) -> Seq<char>
    decreases s.len(),
{
    if s.len() == 0 {
        Seq::empty()
    } else {
        let r = spaced_ascii(s.drop_last());
        let c = s.last();
        (if 'A' <= c && c <= 'Z' && r.len() > 0 { r.push(' ') } else { r }).push(c)
    }
}

/// [`spec_display_debug_name`] for an ASCII name.
pub open spec fn ascii_display_debug_name(name: Seq<char>) -> Seq<char> {
    joined_reversed(words(spaced_ascii(name)), 0)
}

/// A key's name as shown on its button; for an ASCII name, the capitals are
/// `A` to `Z`.
pub fn display_debug_name(input: &str) -> (r: String)
    ensures
        r@ == spec_display_debug_name(input@),
        all_ascii(input@) ==> r@ == ascii_display_debug_name(input@),
{
    let cs = chars_of(input);
    let mut sp: Vec<char> = Vec::new();
    let mut i: usize = 0;
    while i < cs.len()
        invariant
            i <= cs.len(),
            cs@ == input@,
            sp@ == spaced(cs@.subrange(0, i as int)),
            all_ascii(input@) ==> sp@ == spaced_ascii(cs@.subrange(0, i as int)),
        decreases cs.len() - i,
    {
        assert(cs@.subrange(0, i as int + 1).drop_last() =~= cs@.subrange(0, i as int));
        let c = cs[i];
        assert(all_ascii(input@) ==> input@[i as int] <= '\u{7f}');
        if char_is_uppercase(c) && sp.len() > 0 {
            sp.push(' ');
        }
        sp.push(c);
        i = i + 1;
    }
    assert(cs@.subrange(0, cs.len() as int) =~= cs@);
    let mut ws: Vec<Vec<char>> = Vec::new();
    let ghost mut gws: Seq<Seq<char>> = Seq::empty();
    let mut cur: Vec<char> = Vec::new();
    let mut k: usize = 0;
    assert(sp@.subrange(0, 0) =~= Seq::<char>::empty());
    assert(gws.push(cur@) =~= words(sp@.subrange(0, 0)));
    while k < sp.len()
        invariant
            k <= sp.len(),
            sp@ == spaced(input@),
            gws.len() == ws.len(),
            forall|q: int| 0 <= q < ws.len() ==> (#[trigger] ws@[q])@ == gws[q],
            gws.push(cur@) == words(sp@.subrange(0, k as int)),
        decreases sp.len() - k,
    {
        assert(sp@.subrange(0, k as int + 1).drop_last() =~= sp@.subrange(0, k as int));
        let ghost before = gws.push(cur@);
        let c = sp[k];
        if c == ' ' {
            proof {
                gws = gws.push(cur@);
            }
            let done = cur;
            ws.push(done);
            cur = Vec::new();
            assert(gws.push(cur@) =~= before.push(Seq::<char>::empty()));
        } else {
            cur.push(c);
            assert(gws.push(cur@) =~= before.update(before.len() - 1, before.last().push(c)));
        }
        k = k + 1;
    }
    assert(sp@.subrange(0, sp.len() as int) =~= sp@);
    proof {
        gws = gws.push(cur@);
    }
    ws.push(cur);
    let ghost all = gws;
    assert(all == words(spaced(input@)));
    let n = ws.len();
    let mut out = String::new();
    assert(ws@[n - 1]@ == all[n - 1]);
    push_chars(&mut out, &ws[n - 1]);
    let mut j: usize = n - 1;
    assert(out@ =~= joined_reversed(all, j as int));
    while j > 0
        invariant
            1 <= n,
            j < n,
            n == ws.len(),
            all.len() == n,
            forall|q: int| 0 <= q < ws.len() ==> (#[trigger] ws@[q])@ == all[q],
            out@ == joined_reversed(all, j as int),
        decreases j,
    {
        j = j - 1;
        push_char(&mut out, ' ');
        assert(ws@[j as int]@ == all[j as int]);
        push_chars(&mut out, &ws[j]);
        assert(out@ =~= joined_reversed(all, j as int));
    }
    out
}

/// The text of a control button: `None` when unbound, `{button} Mouse` for
/// a mouse button, and for a key its name without `Key` or `Digit`, shown
/// as [`display_debug_name`] shows it.
pub fn control_text(binding: &Option<ControlType<String, String>>) -> (t: String)
    ensures
        t@ == (match binding {
            None => "None"@,
            Some(ControlType::Mouse(m)) => m@ + " Mouse"@,
            Some(ControlType::Key(k)) => spec_display_debug_name(
                replaced(replaced(k@, "Key"@, Seq::<char>::empty()), "Digit"@, Seq::<char>::empty()),
            ),
        }),
        match binding {
            Some(ControlType::Key(k)) => all_ascii(k@) ==> t@ == ascii_display_debug_name(
                replaced(replaced(k@, "Key"@, Seq::<char>::empty()), "Digit"@, Seq::<char>::empty()),
            ),
            _ => true,
        },
{
    match binding {
        None => owned("None"),
        Some(ControlType::Mouse(m)) => {
            let mut t = owned(m.as_str());
            push_str(&mut t, " Mouse");
            t
        },
        Some(ControlType::Key(k)) => {
            proof {
                reveal_strlit("Key");
                reveal_strlit("Digit");
                reveal_strlit("");
                assert(""@ =~= Seq::<char>::empty());
            }
            let a = replace_all(k.as_str(), "Key", "");
            let b = replace_all(a.as_str(), "Digit", "");
            proof {
                if all_ascii(k@) {
                    lemma_replaced_ascii(k@, "Key"@, Seq::<char>::empty());
                    lemma_replaced_ascii(a@, "Digit"@, Seq::<char>::empty());
                }
            }
            display_debug_name(b.as_str())
        },
    }
}

} // verus!
