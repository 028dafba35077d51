//! The current cue state and the rules by which a message changes it.

use vstd::prelude::*;
use vstd::string::StringExecFns;
use crate::label::{cue_label_fields, option_fields, parse_cue_label, LabelFields, LabelFieldsView};
use crate::osc::{MessageView, OscMessage, OscValue, ValueView};
use crate::text::{decimal_text, int_text, option_text, text_is};

verus! {

/// The single snapshot of what the console last reported.
///
/// `fader_level_bits` is the IEEE-754 single-precision bit pattern of the
/// last master fader level; the displayed progress is that level times one
/// hundred.
#[derive(Clone)]
pub struct CueState {
    pub sequence_name: String,
    pub cue_number: String,
    pub cue_name: String,
    pub fader_level_bits: u32,
    pub is_active: bool,
    pub last_update: Option<String>,
    pub connected: bool,
}

/// Mathematical model of a [`CueState`].
pub struct CueStateView {
    pub sequence_name: Seq<char>,
    pub cue_number: Seq<char>,
    pub cue_name: Seq<char>,
    pub fader_level_bits: u32,
    pub is_active: bool,
    pub last_update: Option<Seq<char>>,
    pub connected: bool,
}

impl View for CueState {
    type V = CueStateView;

    open spec fn view(&self) -> CueStateView {
        CueStateView {
            sequence_name: self.sequence_name@,
            cue_number: self.cue_number@,
            cue_name: self.cue_name@,
            fader_level_bits: self.fader_level_bits,
            is_active: self.is_active,
            last_update: option_text(self.last_update),
            connected: self.connected,
        }
    }
}

/// The cue number shown while none is known.
pub open spec fn unknown_cue_number() -> Seq<char> {
    "--"@
}

/// The state before any message has arrived.
pub open spec fn initial_state() -> CueStateView {
    CueStateView {
        sequence_name: Seq::empty(),
        cue_number: unknown_cue_number(),
        cue_name: Seq::empty(),
        fader_level_bits: 0,
        is_active: false,
        last_update: None,
        connected: false,
    }
}

/// Whether `word` names a navigation event.
pub open spec fn is_navigation_word(word: Seq<char>) -> bool {
    word == "Go+"@ || word == "Go-"@ || word == "Goto"@ || word == "Top"@
}

/// The first argument of `m` where it is a string.
pub open spec fn action_word(m: MessageView) -> Option<Seq<char>> {
    if m.args.len() > 0 {
        match m.args[0] {
            ValueView::Str(word) => Some(word),
            _ => None,
        }
    } else {
        None
    }
}

/// Whether `m` announces a cue advance, retreat or jump.
pub open spec fn is_navigation(m: MessageView) -> bool {
    match action_word(m) {
        Some(word) => is_navigation_word(word),
        None => false,
    }
}

/// The combined label of a navigation message: its third argument where
/// that is a string.
pub open spec fn navigation_label(m: MessageView) -> Option<Seq<char>> {
    if is_navigation(m) && m.args.len() > 2 {
        match m.args[2] {
            ValueView::Str(label) => Some(label),
            _ => None,
        }
    } else {
        None
    }
}

/// The fader level that `m` announces: the bits of its third argument where
/// the first is the word `FaderMaster` and the third a single-precision
/// number.
pub open spec fn fader_level(m: MessageView) -> Option<u32> {
    if action_word(m) == Some("FaderMaster"@) && m.args.len() > 2 {
        match m.args[2] {
            ValueView::Float { bits, text } => Some(bits),
            _ => None,
        }
    } else {
        None
    }
}

/// The text of a numeric argument: the decimal writing of an integer, the
/// carried text of a single-precision number.
pub open spec fn numeric_text(v: ValueView) -> Option<Seq<char>> {
    match v {
        ValueView::Int(i) => Some(decimal_text(i as int)),
        ValueView::Float { bits, text } => Some(text),
        _ => None,
    }
}

/// `s` stamped as updated at `now`: connected, with `now` as the time of the
/// last update.
pub open spec fn stamped(s: CueStateView, now: Seq<char>) -> CueStateView {
    CueStateView { connected: true, last_update: Some(now), ..s }
}

/// `s` after a navigation message announced `label`, whose fields are
/// `fields` where the label is well formed: the label becomes the cue name,
/// and well-formed fields replace the sequence name and the cue number.
pub open spec fn labelled(
    s: CueStateView,
    label: Option<Seq<char>>,
    fields: Option<LabelFieldsView>,
) -> CueStateView {
    match label {
        Some(text) => match fields {
            Some(f) => CueStateView {
                cue_name: text,
                sequence_name: f.name,
                cue_number: f.number,
                ..s
            },
            None => CueStateView { cue_name: text, ..s },
        },
        None => s,
    }
}

/// `s` with the numeric second argument of `m` as its cue number, where the
/// cue number of `s` is still unknown.
pub open spec fn numbered(s: CueStateView, m: MessageView) -> CueStateView {
    if m.args.len() > 1 && s.cue_number == unknown_cue_number() {
        match numeric_text(m.args[1]) {
            Some(text) => CueStateView { cue_number: text, ..s },
            None => s,
        }
    } else {
        s
    }
}

/// The state that follows `s` when message `m` arrives at time `now`, given
/// the fields `fields` of the message's label.
pub open spec fn interpreted(
    s: CueStateView,
    m: MessageView,
    now: Seq<char>,
    fields: Option<LabelFieldsView>,
) -> CueStateView {
    let base = stamped(s, now);
    if is_navigation(m) {
        CueStateView {
            is_active: true,
            ..numbered(labelled(base, navigation_label(m), fields), m)
        }
    } else {
        match fader_level(m) {
            Some(bits) => CueStateView { fader_level_bits: bits, ..base },
            None => base,
        }
    }
}

/// The fields of the label that `m` carries, where it carries a well-formed
/// one.
pub open spec fn message_fields(m: MessageView) -> Option<LabelFieldsView> {
    match navigation_label(m) {
        Some(label) => cue_label_fields(label),
        None => None,
    }
}

/// The state that follows `s` when message `m` arrives at time `now`.
pub open spec fn interpret(s: CueStateView, m: MessageView, now: Seq<char>) -> CueStateView {
    interpreted(s, m, now, message_fields(m))
}

/// Whether `word` names a navigation event.
pub fn navigation_word(word: &String) -> (r: bool)
    ensures
        r == is_navigation_word(word@),
{
    text_is(word, "Go+") || text_is(word, "Go-") || text_is(word, "Goto") || text_is(word, "Top")
}

impl CueState {
    /// The state before any message has arrived: nothing known, the cue
    /// number unknown.
    pub fn new() -> (r: CueState)
        ensures
            r@ == initial_state(),
    {
        CueState {
            sequence_name: String::new(),
            cue_number: String::from_str("--"),
            cue_name: String::new(),
            fader_level_bits: 0,
            is_active: false,
            last_update: None,
            connected: false,
        }
    }

    /// A copy of this state.
    pub fn snapshot(&self) -> (r: CueState)
        ensures
            r@ == self@,
    {
        CueState {
            sequence_name: self.sequence_name.clone(),
            cue_number: self.cue_number.clone(),
            cue_name: self.cue_name.clone(),
            fader_level_bits: self.fader_level_bits,
            is_active: self.is_active,
            last_update: match &self.last_update {
                Some(t) => Some(t.clone()),
                None => None,
            },
            connected: self.connected,
        }
    }

    /// Applies message `msg`, received at `now`, whose label has the fields
    /// `fields` where it is well formed.
    pub fn apply_parsed(&mut self, msg: &OscMessage, now: String, fields: Option<LabelFields>)
        ensures
            final(self)@ == interpreted(old(self)@, msg@, now@, option_fields(fields)),
    {
        self.connected = true;
        self.last_update = Some(now);
        if msg.args.len() == 0 {
            return ;
        }
        if let OscValue::Str(action) = &msg.args[0] {
            if navigation_word(action) {
                if msg.args.len() > 2 {
                    if let OscValue::Str(label) = &msg.args[2] {
                        self.cue_name = label.clone();
                        if let Some(f) = fields {
                            self.sequence_name = f.name;
                            self.cue_number = f.number;
                        }
                    }
                }
                if msg.args.len() > 1 && text_is(&self.cue_number, "--") {
                    match &msg.args[1] {
                        OscValue::Int(i) => {
                            self.cue_number = int_text(*i);
                        },
                        OscValue::Float { bits, text } => {
                            self.cue_number = text.clone();
                        },
                        _ => {},
                    }
                }
                self.is_active = true;
            } else if text_is(action, "FaderMaster") && msg.args.len() > 2 {
                if let OscValue::Float { bits, text } = &msg.args[2] {
                    self.fader_level_bits = *bits;
                }
            }
        }
    }

    /// Applies message `msg`, received at `now`.
    pub fn apply(&mut self, msg: &OscMessage, now: String)
        ensures
            final(self)@ == interpret(old(self)@, msg@, now@),
    {
        let fields = label_fields(msg);
        self.apply_parsed(msg, now, fields);
    }
}

/// The fields of the label that `msg` carries, where it carries a
/// well-formed one.
pub fn label_fields(msg: &OscMessage) -> (r: Option<LabelFields>)
    ensures
        option_fields(r) == message_fields(msg@),
{
    if msg.args.len() > 2 {
        if let OscValue::Str(action) = &msg.args[0] {
            if navigation_word(action) {
                if let OscValue::Str(label) = &msg.args[2] {
                    return parse_cue_label(label.as_str());
                }
            }
        }
    }
    None
}

/// A navigation message with a well-formed label sets every field from the
/// label: the label itself becomes the cue name, its fields become the
/// sequence name and the cue number, and the cue becomes active. A
/// well-formed number is made of digits, so it is never the unknown mark.
pub proof fn lemma_labelled_navigation(
    s: CueStateView,
    m: MessageView,
    now: Seq<char>,
    label: Seq<char>,
    fields: LabelFieldsView,
)
    requires
        is_navigation(m),
        navigation_label(m) == Some(label),
        cue_label_fields(label) == Some(fields),
        fields.number != unknown_cue_number(),
    ensures
        interpret(s, m, now).sequence_name == fields.name,
        interpret(s, m, now).cue_number == fields.number,
        interpret(s, m, now).cue_name == label,
        interpret(s, m, now).is_active,
{
}

/// A navigation message without a well-formed label but with a numeric
/// second argument supplies the cue number only while none is known: an
/// unknown cue number becomes the text of the argument, a known one stays.
pub proof fn lemma_numeric_fallback(
    s: CueStateView,
    m: MessageView,
    now: Seq<char>,
    number: Seq<char>,
)
    requires
        is_navigation(m),
        message_fields(m) is None,
        m.args.len() > 1,
        numeric_text(m.args[1]) == Some(number),
    ensures
        s.cue_number == unknown_cue_number() ==> interpret(s, m, now).cue_number == number,
        s.cue_number != unknown_cue_number() ==> interpret(s, m, now).cue_number == s.cue_number,
        interpret(s, m, now).sequence_name == s.sequence_name,
        interpret(s, m, now).is_active,
{
}

/// A fader message sets the fader level to the level it carries and leaves
/// the cue as it was.
pub proof fn lemma_fader_sets_level(s: CueStateView, m: MessageView, now: Seq<char>, bits: u32)
    requires
        fader_level(m) == Some(bits),
    ensures
        interpret(s, m, now) == (CueStateView { fader_level_bits: bits, ..stamped(s, now) }),
{
    reveal_strlit("FaderMaster");
    reveal_strlit("Go+");
    reveal_strlit("Go-");
    reveal_strlit("Goto");
    reveal_strlit("Top");
    assert("FaderMaster"@.len() == 11);
}

/// Every message, whatever it says, marks the console as connected and
/// stamps the time of its arrival.
pub proof fn lemma_every_message_stamps(s: CueStateView, m: MessageView, now: Seq<char>)
    ensures
        interpret(s, m, now).connected,
        interpret(s, m, now).last_update == Some(now),
{
}

/// No message deactivates the cue: an active state stays active.
pub proof fn lemma_activity_is_kept(s: CueStateView, m: MessageView, now: Seq<char>)
    requires
        s.is_active,
    ensures
        interpret(s, m, now).is_active,
{
}

/// A message that is neither a navigation event nor a fader level changes
/// nothing but the stamp.
pub proof fn lemma_other_messages_only_stamp(s: CueStateView, m: MessageView, now: Seq<char>)
    requires
        !is_navigation(m),
        fader_level(m) is None,
    ensures
        interpret(s, m, now) == stamped(s, now),
{
}

} // verus!
