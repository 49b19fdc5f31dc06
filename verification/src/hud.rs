//! What the heads-up display shows: the message above the hotbar, info
//! popups, the tooltip of the block looked at, and the alignment notice.

use vstd::prelude::*;
use crate::text::{owned, push_str, str_eq};

verus! {

/// A colour text is drawn in, by its CSS name.
#[derive(Debug, Clone, Copy, PartialEq, Eq, Structural)]
pub enum NamedColor {
    /// White.
    White,
    /// Red.
    Red,
    /// Green.
    Green,
    /// Yellow.
    Yellow,
    /// Aqua.
    Aqua,
}

/// A way of describing colored text used in the HUD message
#[derive(Debug, Clone)]
pub struct RichText {
    /// The color this text should be (default is white)
    pub color: NamedColor,
    /// The text to display
    pub text: String,
}

impl RichText {
    /// Creates a new rich text with these fields
    pub fn new(text: String, color: NamedColor) -> (r: Self)
        ensures
            r.text == text,
            r.color == color,
    {
        RichText { color, text }
    }

    /// White text.
    pub fn from_string(text: String) -> (r: Self)
        ensures
            r.text == text,
            r.color == NamedColor::White,
    {
        RichText { color: NamedColor::White, text }
    }
}

impl From<String> for RichText {
    /// White text.
    fn from(text: String) -> (r: Self) {
        RichText { color: NamedColor::White, text }
    }
}

impl vstd::std_specs::convert::FromSpecImpl<String> for RichText {
    open spec fn obeys_from_spec() -> bool {
        true
    }

    open spec fn from_spec(text: String) -> RichText {
        RichText { color: NamedColor::White, text }
    }
}

impl Default for RichText {
    fn default() -> (r: Self)
        ensures
            r.text@ == Seq::<char>::empty(),
            r.color == NamedColor::White,
    {
        RichText { color: NamedColor::White, text: String::new() }
    }
}

/// A piece of a message as plain values: its colour and characters.
pub open spec fn rich_view(r: RichText) -> (NamedColor, Seq<char>) {
    (r.color, r.text@)
}

/// A message that can be displayed in the HUD
#[derive(Debug, Clone)]
pub struct HudMessage {
    text: Vec<RichText>,
}

impl HudMessage {
    /// The pieces of the message, in order, as colours and characters.
    pub closed spec fn spec_pieces(&self) -> Seq<(NamedColor, Seq<char>)> {
        self.text@.map_values(|r: RichText| rich_view(r))
    }

    /// The text will be displayed in the order it is given
    ///
    /// Useful for creating multicolored strings
    pub fn new(text: Vec<RichText>) -> (m: Self)
        ensures
            m.spec_pieces() == text@.map_values(|r: RichText| rich_view(r)),
    {
        HudMessage { text }
    }

    /// Creates this from a string, in white.
    pub fn with_string(text: &str) -> (m: Self)
        ensures
            m.spec_pieces() == seq![(NamedColor::White, text@)],
    {
        let mut v: Vec<RichText> = Vec::new();
        v.push(RichText::from_string(owned(text)));
        let m = HudMessage { text: v };
        assert(m.spec_pieces() =~= seq![(NamedColor::White, text@)]);
        m
    }

    /// Creates this from a colored string
    pub fn with_colored_string(text: &str, color: NamedColor) -> (m: Self)
        ensures
            m.spec_pieces() == seq![(color, text@)],
    {
        let mut v: Vec<RichText> = Vec::new();
        v.push(RichText::new(owned(text), color));
        let m = HudMessage { text: v };
        assert(m.spec_pieces() =~= seq![(color, text@)]);
        m
    }

    /// All the rich text present in this hud message, in order
    pub fn iter(&self) -> (s: &[RichText])
        ensures
            s@.map_values(|r: RichText| rich_view(r)) == self.spec_pieces(),
    {
        self.text.as_slice()
    }
}

impl From<String> for HudMessage {
    /// The text, in white.
    fn from(value: String) -> (m: Self)
        ensures
            m.spec_pieces() == seq![(NamedColor::White, value@)],
    {
        HudMessage::with_string(value.as_str())
    }
}

/// A message holds a `Vec`, which two equal views do not make equal, so
/// `from` names no single value as its result: its own `ensures` states the
/// pieces it gives.
impl vstd::std_specs::convert::FromSpecImpl<String> for HudMessage {
    open spec fn obeys_from_spec() -> bool {
        false
    }

    open spec fn from_spec(value: String) -> HudMessage {
        choose|m: HudMessage| m.spec_pieces() == seq![(NamedColor::White, value@)]
    }
}

/// The text of a message: its pieces' texts one after another.
pub open spec fn message_text(pieces: Seq<(NamedColor, Seq<char>)>) -> Seq<char>
    decreases pieces.len(),
{
    if pieces.len() == 0 {
        Seq::empty()
    } else {
        message_text(pieces.drop_last()) + pieces.last().1
    }
}

impl HudMessage {
    /// The text of the message, all pieces together.
    pub fn text(&self) -> (t: String)
        ensures
            t@ == message_text(self.spec_pieces()),
    {
        let mut t = String::new();
        let mut i: usize = 0;
        while i < self.text.len()
            invariant
                i <= self.text.len(),
                t@ == message_text(self.spec_pieces().subrange(0, i as int)),
            decreases self.text.len() - i,
        {
            assert(self.spec_pieces().subrange(0, i as int + 1).drop_last() =~= self.spec_pieces().subrange(0, i as int));
            push_str(&mut t, self.text[i].text.as_str());
            i = i + 1;
        }
        assert(self.spec_pieces().subrange(0, self.text.len() as int) =~= self.spec_pieces());
        t
    }
}

/// Whether no two messages waiting share their text.
pub open spec fn texts_unique(q: Seq<HudMessage>) -> bool {
    forall|i: int, j: int|
        0 <= i < j < q.len() ==> message_text(#[trigger] q[i].spec_pieces()) != message_text(#[trigger] q[j].spec_pieces())
}

/// Whether some message waiting has this text.
pub open spec fn has_text(q: Seq<HudMessage>, text: Seq<char>) -> bool {
    exists|i: int| 0 <= i < q.len() && message_text(#[trigger] q[i].spec_pieces()) == text
}

/// Used to interact with messages shown to the user in the above-hotbar
/// display area: the messages waiting to be shown, first come first.
#[derive(Debug)]
pub struct HudMessages(Vec<HudMessage>);

impl HudMessages {
    #[verifier::type_invariant]
    closed spec fn no_repeats(self) -> bool {
        texts_unique(self.0@)
    }

    /// The messages waiting to be shown, in the order they will be.
    pub closed spec fn spec_pending(&self) -> Seq<HudMessage> {
        self.0@
    }

    /// No message waiting.
    pub fn new() -> (h: Self)
        ensures
            h.spec_pending() == Seq::<HudMessage>::empty(),
    {
        HudMessages(Vec::new())
    }

    /// Adds this HUD message to the queue of messages to be displayed, and
    /// will display it when it is ready. A message with the same text as one
    /// already waiting is not added again.
    pub fn display_message(&mut self, message: HudMessage)
        ensures
            has_text(old(self).spec_pending(), message_text(message.spec_pieces())) ==> final(self).spec_pending()
                == old(self).spec_pending(),
            !has_text(old(self).spec_pending(), message_text(message.spec_pieces())) ==> final(self).spec_pending()
                == old(self).spec_pending().push(message),
            texts_unique(final(self).spec_pending()),
    {
        proof {
            use_type_invariant(&*self);
        }
        let text = message.text();
        let mut i: usize = 0;
        while i < self.0.len()
            invariant
                i <= self.0.len(),
                text@ == message_text(message.spec_pieces()),
                texts_unique(self.0@),
                forall|j: int| 0 <= j < i ==> message_text((#[trigger] self.0@[j]).spec_pieces()) != text@,
            decreases self.0.len() - i,
        {
            let other = self.0[i].text();
            if str_eq(other.as_str(), text.as_str()) {
                return;
            }
            i = i + 1;
        }
        let mut v: Vec<HudMessage> = Vec::new();
        std::mem::swap(&mut v, &mut self.0);
        let ghost before = v@;
        v.push(message);
        proof {
            assert forall|a: int, b: int| 0 <= a < b < v@.len() implies message_text(#[trigger] v@[a].spec_pieces())
                != message_text(#[trigger] v@[b].spec_pieces()) by {
                if b < before.len() {
                    assert(message_text(before[a].spec_pieces()) != message_text(before[b].spec_pieces()));
                } else {
                    assert(message_text(before[a].spec_pieces()) != text@);
                }
            }
        }
        self.0 = v;
    }

    /// Takes the message to show next, if one is waiting.
    pub fn take_pending(&mut self) -> (m: Option<HudMessage>)
        ensures
            old(self).spec_pending().len() == 0 ==> m is None && final(self).spec_pending() == old(self).spec_pending(),
            old(self).spec_pending().len() > 0 ==> m == Some(old(self).spec_pending()[0]) && final(self).spec_pending()
                == old(self).spec_pending().drop_first(),
    {
        proof {
            use_type_invariant(&*self);
        }
        if self.0.len() == 0 {
            return None;
        }
        let mut v: Vec<HudMessage> = Vec::new();
        std::mem::swap(&mut v, &mut self.0);
        let ghost before = v@;
        let first = v.remove(0);
        proof {
            assert(v@ =~= before.drop_first());
            assert forall|a: int, b: int| 0 <= a < b < v@.len() implies message_text(#[trigger] v@[a].spec_pieces())
                != message_text(#[trigger] v@[b].spec_pieces()) by {
                assert(message_text(before[a + 1].spec_pieces()) != message_text(before[b + 1].spec_pieces()));
            }
        }
        self.0 = v;
        Some(first)
    }
}

impl Default for HudMessages {
    fn default() -> (h: Self)
        ensures
            h.spec_pending() == Seq::<HudMessage>::empty(),
    {
        HudMessages(Vec::new())
    }
}

/// How long a message stays on screen, in milliseconds.
pub const HUD_DISPLAY_MILLIS: u64 = 7000;

/// What becomes of the message on screen this frame.
#[derive(Debug, Clone, Copy, PartialEq, Eq, Structural)]
pub enum ShownMessageFate {
    /// It stays (fading during its last three seconds).
    Stays,
    /// It is removed.
    Removed,
}

/// What becomes of the message on screen, shown `elapsed_millis` ago: a
/// waiting message replaces it at once; otherwise it goes when its time is
/// up.
pub fn shown_message_fate(new_message_waiting: bool, elapsed_millis: u64) -> (f: ShownMessageFate)
    ensures
        f == (if new_message_waiting || elapsed_millis >= HUD_DISPLAY_MILLIS {
            ShownMessageFate::Removed
        } else {
            ShownMessageFate::Stays
        }),
{
    if new_message_waiting || elapsed_millis >= HUD_DISPLAY_MILLIS {
        ShownMessageFate::Removed
    } else {
        ShownMessageFate::Stays
    }
}

// ---------------------------------------------------------------------------
// Info popups
// ---------------------------------------------------------------------------

/// The kind of a popup.
#[derive(Debug, Clone, Copy, PartialEq, Eq, Structural)]
pub enum PopupType {
    /// An error, shown in red.
    Error,
}

/// A message shown for a few seconds at the side of the screen.
#[derive(Debug)]
pub struct ShowInfoPopup {
    /// The text shown.
    pub text: String,
    /// The kind of popup.
    pub popup_type: PopupType,
}

impl ShowInfoPopup {
    /// An error popup with this text.
    pub fn error(message: &str) -> (p: Self)
        ensures
            p.text@ == message@,
            p.popup_type == PopupType::Error,
    {
        ShowInfoPopup { text: owned(message), popup_type: PopupType::Error }
    }
}

// ---------------------------------------------------------------------------
// The tooltip of the block looked at
// ---------------------------------------------------------------------------

/// One message of the tooltip, under a label that identifies who wrote it.
#[derive(Debug, Clone)]
pub struct TooltipMessage {
    message: HudMessage,
    label: String,
    ent: Option<u64>,
}

/// The labels of a tooltip's messages, in order.
pub open spec fn labels_of(info: Seq<TooltipMessage>) -> Seq<Seq<char>> {
    info.map_values(|m: TooltipMessage| m.spec_label())
}

/// Whether no two messages share a label.
pub open spec fn labels_unique(info: Seq<TooltipMessage>) -> bool {
    forall|i: int, j: int| 0 <= i < j < info.len() ==> #[trigger] info[i].spec_label() != #[trigger] info[j].spec_label()
}

impl TooltipMessage {
    /// The label.
    pub closed spec fn spec_label(&self) -> Seq<char> {
        self.label@
    }

    /// The message.
    pub closed spec fn spec_message(&self) -> HudMessage {
        self.message
    }

    /// The on-screen entity drawing it, once drawn.
    pub closed spec fn spec_entity(&self) -> Option<u64> {
        self.ent
    }

    /// The label.
    pub fn label(&self) -> (l: &str)
        ensures
            l@ == self.spec_label(),
    {
        self.label.as_str()
    }

    /// The message.
    pub fn message(&self) -> (m: &HudMessage)
        ensures
            *m == self.spec_message(),
    {
        &self.message
    }

    /// The on-screen entity drawing it, once drawn.
    pub fn entity(&self) -> (e: Option<u64>)
        ensures
            e == self.spec_entity(),
    {
        self.ent
    }
}

/// The tooltip shown over the block the player looks at: one message per
/// label.
#[derive(Debug)]
pub struct LookingAtTooltip {
    info: Vec<TooltipMessage>,
}

impl LookingAtTooltip {
    #[verifier::type_invariant]
    closed spec fn unique(self) -> bool {
        labels_unique(self.info@)
    }

    /// The messages, in the order they were first added.
    pub closed spec fn spec_info(&self) -> Seq<TooltipMessage> {
        self.info@
    }

    /// A tooltip with no messages.
    pub fn new() -> (t: Self)
        ensures
            t.spec_info() == Seq::<TooltipMessage>::empty(),
    {
        LookingAtTooltip { info: Vec::new() }
    }

    /// The messages, in the order they were first added.
    pub fn messages(&self) -> (s: &[TooltipMessage])
        ensures
            s@ == self.spec_info(),
            labels_unique(s@),
    {
        proof {
            use_type_invariant(self);
        }
        self.info.as_slice()
    }

    /// Sets the message under `label`: replaces the one there, keeping its
    /// place and its entity, or adds it at the end.
    pub fn add_or_modify_message(&mut self, message: HudMessage, label: &str)
        ensures
            labels_unique(final(self).spec_info()),
            labels_of(old(self).spec_info()).contains(label@) ==> {
                let i = labels_of(old(self).spec_info()).index_of(label@);
                &&& final(self).spec_info().len() == old(self).spec_info().len()
                &&& final(self).spec_info()[i].spec_message() == message
                &&& final(self).spec_info()[i].spec_label() == label@
                &&& final(self).spec_info()[i].spec_entity() == old(self).spec_info()[i].spec_entity()
                &&& forall|j: int|
                    0 <= j < old(self).spec_info().len() && j != i ==> #[trigger] final(self).spec_info()[j]
                        == old(self).spec_info()[j]
            },
            !labels_of(old(self).spec_info()).contains(label@) ==> {
                &&& final(self).spec_info().len() == old(self).spec_info().len() + 1
                &&& final(self).spec_info().subrange(0, old(self).spec_info().len() as int) == old(self).spec_info()
                &&& final(self).spec_info().last().spec_message() == message
                &&& final(self).spec_info().last().spec_label() == label@
                &&& final(self).spec_info().last().spec_entity() is None
            },
    {
        proof {
            use_type_invariant(&*self);
        }
        let ghost before = self.info@;
        let mut i: usize = 0;
        while i < self.info.len()
            invariant
                i <= self.info.len(),
                self.info@ == before,
                before == old(self).spec_info(),
                labels_unique(before),
                forall|j: int| 0 <= j < i ==> (#[trigger] self.info@[j]).spec_label() != label@,
            decreases self.info.len() - i,
        {
            if str_eq(self.info[i].label.as_str(), label) {
                let mut v: Vec<TooltipMessage> = Vec::new();
                std::mem::swap(&mut v, &mut self.info);
                let ent = v[i].ent;
                let old_label = owned(v[i].label.as_str());
                v.set(i, TooltipMessage { message, label: old_label, ent });
                proof {
                    assert(labels_of(before)[i as int] == label@);
                    assert(labels_of(before).contains(label@));
                    assert(labels_of(before).index_of(label@) == i as int) by {
                        assert forall|a: int, b: int| 0 <= a < b < labels_of(before).len() implies #[trigger] labels_of(before)[a]
                            != #[trigger] labels_of(before)[b] by {
                            assert(before[a].spec_label() != before[b].spec_label());
                        }
                        lemma_index_of_unique(labels_of(before), label@, i as int);
                    }
                    assert forall|a: int, b: int| 0 <= a < b < v@.len() implies #[trigger] v@[a].spec_label()
                        != #[trigger] v@[b].spec_label() by {
                        assert(before[a].spec_label() != before[b].spec_label());
                    }
                }
                self.info = v;
                return;
            }
            i = i + 1;
        }
        proof {
            assert(!labels_of(before).contains(label@)) by {
                if labels_of(before).contains(label@) {
                    let k = choose|k: int| 0 <= k < labels_of(before).len() && labels_of(before)[k] == label@;
                    assert(before[k].spec_label() == label@);
                }
            }
        }
        let mut v: Vec<TooltipMessage> = Vec::new();
        std::mem::swap(&mut v, &mut self.info);
        v.push(TooltipMessage { label: owned(label), message, ent: None });
        proof {
            assert(v@.subrange(0, before.len() as int) =~= before);
            assert forall|a: int, b: int| 0 <= a < b < v@.len() implies #[trigger] v@[a].spec_label()
                != #[trigger] v@[b].spec_label() by {
                if b < before.len() {
                    assert(before[a].spec_label() != before[b].spec_label());
                } else {
                    assert(before[a].spec_label() != label@);
                }
            }
        }
        self.info = v;
    }

    /// Records the on-screen entity that draws message `index`.
    pub fn set_entity(&mut self, index: usize, ent: u64)
        requires
            index < old(self).spec_info().len(),
        ensures
            final(self).spec_info().len() == old(self).spec_info().len(),
            final(self).spec_info()[index as int].spec_entity() == Some(ent),
            final(self).spec_info()[index as int].spec_label() == old(self).spec_info()[index as int].spec_label(),
            final(self).spec_info()[index as int].spec_message() == old(self).spec_info()[index as int].spec_message(),
            forall|j: int|
                0 <= j < old(self).spec_info().len() && j != index ==> #[trigger] final(self).spec_info()[j]
                    == old(self).spec_info()[j],
    {
        proof {
            use_type_invariant(&*self);
        }
        let ghost before = self.info@;
        let mut v: Vec<TooltipMessage> = Vec::new();
        std::mem::swap(&mut v, &mut self.info);
        let mut m = v.remove(index);
        m.ent = Some(ent);
        v.insert(index, m);
        proof {
            assert(v@ =~= before.update(index as int, m));
            assert forall|a: int, b: int| 0 <= a < b < v@.len() implies #[trigger] v@[a].spec_label()
                != #[trigger] v@[b].spec_label() by {
                assert(before[a].spec_label() != before[b].spec_label());
            }
        }
        self.info = v;
    }
}

proof fn lemma_index_of_unique(s: Seq<Seq<char>>, x: Seq<char>, i: int)
    requires
        0 <= i < s.len(),
        s[i] == x,
        forall|a: int, b: int| 0 <= a < b < s.len() ==> #[trigger] s[a] != #[trigger] s[b],
    ensures
        s.index_of(x) == i,
{
    assert(s[i] == x);
    let k = s.index_of(x);
    assert(0 <= k < s.len() && s[k] == x);
    if k < i {
        assert(s[k] != s[i]);
    } else if k > i {
        assert(s[i] != s[k]);
    }
}

/// What happens to the tooltip when the block looked at changes.
#[derive(Debug, Clone, Copy, PartialEq, Eq, Structural)]
pub enum TooltipChange {
    /// No block is looked at: the tooltip, if any, is removed.
    Remove,
    /// A block is looked at: the tooltip is emptied (or created) and its
    /// messages are asked for again.
    Regenerate,
}

/// What happens to the tooltip when the block looked at changes.
pub fn tooltip_change(looking_at_block: bool) -> (c: TooltipChange)
    ensures
        c == (if looking_at_block { TooltipChange::Regenerate } else { TooltipChange::Remove }),
{
    if looking_at_block {
        TooltipChange::Regenerate
    } else {
        TooltipChange::Remove
    }
}

/// The mark a tooltip line starts with.
#[derive(Debug, Clone, Copy, PartialEq, Eq, Structural)]
pub enum Mark {
    /// A tick: all is well.
    Check,
    /// A cross: something is wrong.
    Cross,
}

/// A line of a tooltip: its mark, if any, its words and its colour.
#[derive(Debug, Clone, Copy)]
pub struct TooltipLine {
    /// The mark before the words.
    pub mark: Option<Mark>,
    /// The words.
    pub text: &'static str,
    /// The colour.
    pub color: NamedColor,
}

/// The label under which the railgun writes its tooltip message.
pub const RAILGUN_MSG_LABEL: &'static str = "cosmos:railgun";

/// The label under which the warp drive writes its tooltip message.
pub const WARP_DRIVE_MSG_LABEL: &'static str = "cosmos:warp_drive";

/// Why a railgun cannot fire.
#[derive(Debug, Clone, Copy, PartialEq, Eq, Structural)]
pub enum InvalidRailgunReason {
    /// Too few magnets.
    NoMagnets,
    /// The barrel is blocked.
    Obstruction,
    /// It shares blocks with another railgun.
    TouchingAnother,
    /// It has no capacitors.
    NoCapacitors,
    /// It has no cooling.
    NoCooling,
}

/// The tooltip line of a railgun: ready, in green with a tick, or why not,
/// in red with a cross.
pub fn railgun_line(invalid: Option<InvalidRailgunReason>) -> (l: TooltipLine)
    ensures
        invalid is None ==> l.mark == Some(Mark::Check) && l.color == NamedColor::Green && l.text@ == "Railgun Ready"@,
        invalid is Some ==> l.mark == Some(Mark::Cross) && l.color == NamedColor::Red,
        invalid == Some(InvalidRailgunReason::NoMagnets) ==> l.text@ == "Railgun needs more magnets"@,
        invalid == Some(InvalidRailgunReason::Obstruction) ==> l.text@ == "Something is obstructing the barrel"@,
        invalid == Some(InvalidRailgunReason::TouchingAnother) ==> l.text@
            == "This railgun is sharing blocks with another railgun"@,
        invalid == Some(InvalidRailgunReason::NoCapacitors) ==> l.text@ == "This railgun has no capacitors to charge"@,
        invalid == Some(InvalidRailgunReason::NoCooling) ==> l.text@ == "This railgun has no cooling mechanism"@,
{
    match invalid {
        None => TooltipLine { mark: Some(Mark::Check), text: "Railgun Ready", color: NamedColor::Green },
        Some(reason) => {
            let text = match reason {
                InvalidRailgunReason::NoMagnets => "Railgun needs more magnets",
                InvalidRailgunReason::Obstruction => "Something is obstructing the barrel",
                InvalidRailgunReason::TouchingAnother => "This railgun is sharing blocks with another railgun",
                InvalidRailgunReason::NoCapacitors => "This railgun has no capacitors to charge",
                InvalidRailgunReason::NoCooling => "This railgun has no cooling mechanism",
            };
            TooltipLine { mark: Some(Mark::Cross), text, color: NamedColor::Red }
        },
    }
}

/// The state of a ship's warp drive.
#[derive(Debug, Clone, Copy, PartialEq, Eq, Structural)]
pub enum WarpDriveState {
    /// Charged and able to jump.
    ReadyToWarp,
    /// Still charging.
    Charging,
    /// The ship is too heavy for its drives.
    StructureTooBig,
}

/// The tooltip line of a warp drive.
pub fn warp_drive_line(state: WarpDriveState) -> (l: TooltipLine)
    ensures
        state == WarpDriveState::ReadyToWarp ==> l.mark == Some(Mark::Check) && l.color == NamedColor::Green
            && l.text@ == "Ready to Jump"@,
        state == WarpDriveState::Charging ==> l.mark is None && l.color == NamedColor::Yellow && l.text@
            == "Warp Drive Charging"@,
        state == WarpDriveState::StructureTooBig ==> l.mark == Some(Mark::Cross) && l.color == NamedColor::Red
            && l.text@ == "Structure too Massive! Place more warp drives"@,
{
    match state {
        WarpDriveState::ReadyToWarp => TooltipLine { mark: Some(Mark::Check), text: "Ready to Jump", color: NamedColor::Green },
        WarpDriveState::Charging => TooltipLine { mark: None, text: "Warp Drive Charging", color: NamedColor::Yellow },
        WarpDriveState::StructureTooBig => TooltipLine {
            mark: Some(Mark::Cross),
            text: "Structure too Massive! Place more warp drives",
            color: NamedColor::Red,
        },
    }
}

/// The text of a tooltip line, given how its mark is written: the mark, a
/// space, then the words; or the words alone.
pub fn line_text(line: TooltipLine, mark_text: &str) -> (t: String)
    ensures
        line.mark is Some ==> t@ == mark_text@ + seq![' '] + line.text@,
        line.mark is None ==> t@ == line.text@,
{
    match line.mark {
        Some(_) => {
            let mut t = owned(mark_text);
            push_str(&mut t, " ");
            push_str(&mut t, line.text);
            proof {
                reveal_strlit(" ");
                assert(t@ =~= mark_text@ + seq![' '] + line.text@);
            }
            t
        },
        None => owned(line.text),
    }
}

/// The tooltip message a line makes.
pub fn line_message(line: TooltipLine, mark_text: &str) -> (m: HudMessage)
    ensures
        m.spec_pieces().len() == 1,
        m.spec_pieces()[0].0 == line.color,
        line.mark is Some ==> m.spec_pieces()[0].1 == mark_text@ + seq![' '] + line.text@,
        line.mark is None ==> m.spec_pieces()[0].1 == line.text@,
{
    let t = line_text(line, mark_text);
    HudMessage::with_colored_string(t.as_str(), line.color)
}

// ---------------------------------------------------------------------------
// Alignment notice
// ---------------------------------------------------------------------------

/// What the player is aligned to.
#[derive(Debug, Clone, Copy, PartialEq, Eq, Structural)]
pub enum AlignedTo {
    /// A planet.
    Planet,
    /// A ship.
    Ship,
    /// A station.
    Station,
    /// An asteroid.
    Asteroid,
    /// Something else.
    Other,
}

/// What the alignment notice does.
#[derive(Debug, Clone, Copy)]
pub enum AlignmentNotice {
    /// It is hidden.
    Hide,
    /// It is shown with this text.
    Show(&'static str),
    /// It is left as it is.
    Unchanged,
}

/// What the alignment notice does: hidden while piloting, when not aligned,
/// or when aligned to a planet (which is obvious); otherwise it names what
/// the player is aligned to.
pub fn alignment_notice(piloting: bool, aligned: Option<AlignedTo>) -> (n: AlignmentNotice)
    ensures
        piloting ==> n == AlignmentNotice::Hide,
        !piloting && (aligned is None || aligned == Some(AlignedTo::Planet)) ==> n == AlignmentNotice::Hide,
        !piloting && aligned == Some(AlignedTo::Other) ==> n == AlignmentNotice::Unchanged,
        !piloting && aligned == Some(AlignedTo::Ship) ==> (n matches AlignmentNotice::Show(t) && t@ == "Aligned to Ship"@),
        !piloting && aligned == Some(AlignedTo::Station) ==> (n matches AlignmentNotice::Show(t) && t@
            == "Aligned to Station"@),
        !piloting && aligned == Some(AlignedTo::Asteroid) ==> (n matches AlignmentNotice::Show(t) && t@
            == "Aligned to Asteroid"@),
{
    if piloting {
        return AlignmentNotice::Hide;
    }
    match aligned {
        None => AlignmentNotice::Hide,
        Some(AlignedTo::Planet) => AlignmentNotice::Hide,
        Some(AlignedTo::Ship) => AlignmentNotice::Show("Aligned to Ship"),
        Some(AlignedTo::Station) => AlignmentNotice::Show("Aligned to Station"),
        Some(AlignedTo::Asteroid) => AlignmentNotice::Show("Aligned to Asteroid"),
        Some(AlignedTo::Other) => AlignmentNotice::Unchanged,
    }
}

/// The hint shown under the alignment notice.
pub const ALIGNMENT_HINT: &'static str = "Press <L> to de-align yourself.";

} // verus!
