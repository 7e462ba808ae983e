use vstd::prelude::*;

verus! {

/// Deck control whose value can be typed in.
#[derive(Clone, Copy, Debug, PartialEq, Eq, Structural)]
pub enum NumericEntryTarget {
    Mix,
    OutputGain,
    Smooth,
    Swing,
    FreeRate,
}

impl NumericEntryTarget {
    pub open spec fn spec_label(self) -> Seq<char> {
        match self {
            NumericEntryTarget::Mix => "Mix"@,
            NumericEntryTarget::OutputGain => "Output"@,
            NumericEntryTarget::Smooth => "Smooth"@,
            NumericEntryTarget::Swing => "Swing"@,
            NumericEntryTarget::FreeRate => "Free Rate"@,
        }
    }

    /// Human-readable control name.
    pub fn label(self) -> (label: &'static str)
        ensures
            label@ == self.spec_label(),
    {
        match self {
            NumericEntryTarget::Mix => "Mix",
            NumericEntryTarget::OutputGain => "Output",
            NumericEntryTarget::Smooth => "Smooth",
            NumericEntryTarget::Swing => "Swing",
            NumericEntryTarget::FreeRate => "Free Rate",
        }
    }

    pub open spec fn spec_widget_key(self) -> Seq<char> {
        match self {
            NumericEntryTarget::Mix => "numeric-entry-mix"@,
            NumericEntryTarget::OutputGain => "numeric-entry-output"@,
            NumericEntryTarget::Smooth => "numeric-entry-smooth"@,
            NumericEntryTarget::Swing => "numeric-entry-swing"@,
            NumericEntryTarget::FreeRate => "numeric-entry-free-rate"@,
        }
    }

    /// Stable widget key of the value label, so focus survives re-projection.
    pub fn widget_key(self) -> (key: &'static str)
        ensures
            key@ == self.spec_widget_key(),
    {
        match self {
            NumericEntryTarget::Mix => "numeric-entry-mix",
            NumericEntryTarget::OutputGain => "numeric-entry-output",
            NumericEntryTarget::Smooth => "numeric-entry-smooth",
            NumericEntryTarget::Swing => "numeric-entry-swing",
            NumericEntryTarget::FreeRate => "numeric-entry-free-rate",
        }
    }
}

/// Unit in which the free-running rate is shown and typed.
#[derive(Clone, Copy, Debug, PartialEq, Eq, Structural)]
pub enum FreeRateUnit {
    Milliseconds,
    Seconds,
    Hertz,
    Kilohertz,
}

impl FreeRateUnit {
    pub open spec fn spec_all() -> Seq<FreeRateUnit> {
        seq![
            FreeRateUnit::Milliseconds,
            FreeRateUnit::Seconds,
            FreeRateUnit::Hertz,
            FreeRateUnit::Kilohertz,
        ]
    }

    /// The units in dropdown order.
    pub fn all() -> (units: Vec<FreeRateUnit>)
        ensures
            units@ == Self::spec_all(),
    {
        let units = vec![
            FreeRateUnit::Milliseconds,
            FreeRateUnit::Seconds,
            FreeRateUnit::Hertz,
            FreeRateUnit::Kilohertz,
        ];
        assert(units@ =~= Self::spec_all());
        units
    }

    pub open spec fn spec_label(self) -> Seq<char> {
        match self {
            FreeRateUnit::Milliseconds => "ms"@,
            FreeRateUnit::Seconds => "s"@,
            FreeRateUnit::Hertz => "Hz"@,
            FreeRateUnit::Kilohertz => "kHz"@,
        }
    }

    /// Unit suffix shown in the timing dropdown.
    pub fn label(self) -> (label: &'static str)
        ensures
            label@ == self.spec_label(),
    {
        match self {
            FreeRateUnit::Milliseconds => "ms",
            FreeRateUnit::Seconds => "s",
            FreeRateUnit::Hertz => "Hz",
            FreeRateUnit::Kilohertz => "kHz",
        }
    }
}

/// Characters accepted while typing a value: ASCII digits, sign and decimal
/// point, percent, space, and the letters of a "dB" suffix.
pub open spec fn spec_is_numeric_entry_char(ch: char) -> bool {
    ('0' <= ch && ch <= '9') || ch == '.' || ch == '-' || ch == '+' || ch == '%' || ch == ' '
        || ch == 'd' || ch == 'D' || ch == 'b' || ch == 'B'
}

pub fn is_numeric_entry_char(ch: char) -> (accepted: bool)
    ensures
        accepted == spec_is_numeric_entry_char(ch),
{
    ('0' <= ch && ch <= '9') || ch == '.' || ch == '-' || ch == '+' || ch == '%' || ch == ' '
        || ch == 'd' || ch == 'D' || ch == 'b' || ch == 'B'
}

/// Longest draft that can be typed.
pub const VALUE_ENTRY_MAX_CHARS: usize = 16;

/// Appends `ch` to the end of `s` (`String::push`).
#[verifier::external_body]
fn string_push(s: &mut String, ch: char)
    ensures
        final(s)@ == old(s)@.push(ch),
{
    s.push(ch);
}

/// Removes the last character of `s` and returns it, or returns `None` and
/// leaves `s` unchanged when it is empty (`String::pop`).
#[verifier::external_body]
fn string_pop(s: &mut String) -> (popped: Option<char>)
    ensures
        old(s)@.len() == 0 ==> popped is None && final(s)@ == old(s)@,
        old(s)@.len() > 0 ==> popped == Some(old(s)@.last()) && final(s)@ == old(s)@.drop_last(),
{
    s.pop()
}

/// Message from a value label to the editor.
#[derive(Clone, Debug, PartialEq, Eq)]
pub enum NumericEntryMessage {
    Begin { target: NumericEntryTarget },
    DraftChanged { target: NumericEntryTarget, draft: String, dirty: bool },
    Commit { target: NumericEntryTarget, draft: String },
    Cancel { target: NumericEntryTarget },
}

/// Keys a value label reacts to while editing.
#[derive(Clone, Copy, Debug, PartialEq, Eq, Structural)]
pub enum EntryKey {
    Enter,
    Backspace,
    Delete,
    Other,
}

/// Input delivered to a value label. Pointer positions are given as whether
/// they lie inside the label.
#[derive(Clone, Copy, Debug, PartialEq, Eq, Structural)]
pub enum LabelInput {
    PointerMove { inside: bool },
    PointerPress { inside: bool, primary: bool, command: bool },
    FocusChanged { focused: bool },
    Character { ch: char },
    KeyPress { key: EntryKey },
    Other,
}

/// The text shown under a deck knob; while `editing` it holds the draft, and
/// `dirty` records whether the user has typed since editing began.
#[derive(Clone, Debug)]
pub struct NumericValueLabel {
    pub target: NumericEntryTarget,
    pub text: String,
    pub editing: bool,
    pub dirty: bool,
    pub hovered: bool,
    pub focused: bool,
}

/// The draft after typing `ch`: an untouched label is replaced by the
/// character, a typed draft is extended; characters outside the accepted set,
/// or beyond `VALUE_ENTRY_MAX_CHARS`, are refused.
pub open spec fn spec_draft_with_character(text: Seq<char>, dirty: bool, ch: char) -> Option<Seq<char>> {
    let base = if dirty { text } else { Seq::<char>::empty() };
    if !spec_is_numeric_entry_char(ch) || base.len() >= VALUE_ENTRY_MAX_CHARS {
        None
    } else {
        Some(base.push(ch))
    }
}

/// The draft after Backspace: an untouched label is cleared, a typed draft
/// loses its last character.
pub open spec fn spec_draft_after_backspace(text: Seq<char>, dirty: bool) -> Seq<char> {
    if !dirty {
        Seq::<char>::empty()
    } else if text.len() == 0 {
        text
    } else {
        text.drop_last()
    }
}

/// The draft after Delete: an untouched label is cleared, a typed draft is kept.
pub open spec fn spec_draft_after_delete(text: Seq<char>, dirty: bool) -> Seq<char> {
    if dirty {
        text
    } else {
        Seq::<char>::empty()
    }
}

/// A message with its draft text as a sequence of characters.
pub ghost enum NumericEntryMessageView {
    Begin { target: NumericEntryTarget },
    DraftChanged { target: NumericEntryTarget, draft: Seq<char>, dirty: bool },
    Commit { target: NumericEntryTarget, draft: Seq<char> },
    Cancel { target: NumericEntryTarget },
}

impl View for NumericEntryMessage {
    type V = NumericEntryMessageView;

    open spec fn view(&self) -> NumericEntryMessageView {
        match *self {
            NumericEntryMessage::Begin { target } => NumericEntryMessageView::Begin { target },
            NumericEntryMessage::DraftChanged { target, draft, dirty } => NumericEntryMessageView::DraftChanged {
                target,
                draft: draft@,
                dirty,
            },
            NumericEntryMessage::Commit { target, draft } => NumericEntryMessageView::Commit {
                target,
                draft: draft@,
            },
            NumericEntryMessage::Cancel { target } => NumericEntryMessageView::Cancel { target },
        }
    }
}

pub open spec fn option_message_view(m: Option<NumericEntryMessage>) -> Option<NumericEntryMessageView> {
    match m {
        Some(m) => Some(m@),
        None => None,
    }
}

/// What a label emits for `input`, given its state before the input.
pub open spec fn spec_label_message(label: NumericValueLabel, input: LabelInput) -> Option<NumericEntryMessageView> {
    match input {
        LabelInput::PointerPress { inside, primary, command } => {
            if inside && primary && command {
                Some(NumericEntryMessageView::Begin { target: label.target })
            } else {
                None
            }
        },
        LabelInput::FocusChanged { focused } => {
            if !focused && label.editing {
                Some(NumericEntryMessageView::Cancel { target: label.target })
            } else {
                None
            }
        },
        LabelInput::Character { ch } => {
            if !label.editing {
                None
            } else if ch == '\u{1b}' {
                Some(NumericEntryMessageView::Cancel { target: label.target })
            } else if ch == '\r' || ch == '\n' {
                Some(NumericEntryMessageView::Commit { target: label.target, draft: label.text@ })
            } else {
                match spec_draft_with_character(label.text@, label.dirty, ch) {
                    Some(draft) => Some(
                        NumericEntryMessageView::DraftChanged { target: label.target, draft, dirty: true },
                    ),
                    None => None,
                }
            }
        },
        LabelInput::KeyPress { key } => {
            if !label.editing {
                None
            } else {
                match key {
                    EntryKey::Enter => Some(
                        NumericEntryMessageView::Commit { target: label.target, draft: label.text@ },
                    ),
                    EntryKey::Backspace => Some(
                        NumericEntryMessageView::DraftChanged {
                            target: label.target,
                            draft: spec_draft_after_backspace(label.text@, label.dirty),
                            dirty: true,
                        },
                    ),
                    EntryKey::Delete => Some(
                        NumericEntryMessageView::DraftChanged {
                            target: label.target,
                            draft: spec_draft_after_delete(label.text@, label.dirty),
                            dirty: true,
                        },
                    ),
                    EntryKey::Other => None,
                }
            }
        },
        _ => None,
    }
}

impl NumericValueLabel {
    /// A label showing `text`; `editing` when it holds a draft.
    pub fn new(target: NumericEntryTarget, text: String, editing: bool, dirty: bool) -> (label: Self)
        ensures
            label.target == target,
            label.text@ == text@,
            label.editing == editing,
            label.dirty == dirty,
            !label.hovered,
            !label.focused,
    {
        NumericValueLabel { target, text, editing, dirty, hovered: false, focused: false }
    }

    /// The draft after typing `ch`, or `None` when the character is refused.
    pub fn draft_with_character(&self, ch: char) -> (draft: Option<String>)
        ensures
            match draft {
                Some(d) => spec_draft_with_character(self.text@, self.dirty, ch) == Some(d@),
                None => spec_draft_with_character(self.text@, self.dirty, ch) is None,
            },
    {
        if !is_numeric_entry_char(ch) {
            return None;
        }
        let mut draft = if self.dirty {
            self.text.clone()
        } else {
            String::new()
        };
        if draft.as_str().unicode_len() >= VALUE_ENTRY_MAX_CHARS {
            return None;
        }
        string_push(&mut draft, ch);
        Some(draft)
    }

    /// The draft after Backspace.
    pub fn draft_after_backspace(&self) -> (draft: String)
        ensures
            draft@ == spec_draft_after_backspace(self.text@, self.dirty),
    {
        if !self.dirty {
            return String::new();
        }
        let mut draft = self.text.clone();
        let _ = string_pop(&mut draft);
        draft
    }

    /// The draft after Delete.
    pub fn draft_after_delete(&self) -> (draft: String)
        ensures
            draft@ == spec_draft_after_delete(self.text@, self.dirty),
    {
        if self.dirty {
            self.text.clone()
        } else {
            String::new()
        }
    }

    /// Report an edited draft.
    pub fn changed(&self, draft: String) -> (message: NumericEntryMessage)
        ensures
            message@ == (NumericEntryMessageView::DraftChanged { target: self.target, draft: draft@, dirty: true }),
    {
        NumericEntryMessage::DraftChanged { target: self.target, draft, dirty: true }
    }

    /// React to one input: pointer moves track hover, a primary press inside
    /// focuses the label and begins editing only with Command held, losing focus
    /// or Escape cancels an edit, Return/Enter commits it, and typed characters,
    /// Backspace and Delete report the new draft.
    pub fn handle_input(&mut self, input: LabelInput) -> (message: Option<NumericEntryMessage>)
        ensures
            option_message_view(message) == spec_label_message(*old(self), input),
            final(self).target == old(self).target,
            final(self).text == old(self).text,
            final(self).editing == old(self).editing,
            final(self).dirty == old(self).dirty,
            final(self).hovered == match input {
                LabelInput::PointerMove { inside } => inside,
                LabelInput::PointerPress { inside, primary, command } => if inside && primary {
                    true
                } else {
                    old(self).hovered
                },
                _ => old(self).hovered,
            },
            final(self).focused == match input {
                LabelInput::PointerPress { inside, primary, command } => if inside && primary {
                    true
                } else {
                    old(self).focused
                },
                LabelInput::FocusChanged { focused } => focused,
                _ => old(self).focused,
            },
    {
        match input {
            LabelInput::PointerMove { inside } => {
                self.hovered = inside;
                None
            },
            LabelInput::PointerPress { inside, primary, command } => {
                if inside && primary {
                    self.focused = true;
                    self.hovered = true;
                    if command {
                        Some(NumericEntryMessage::Begin { target: self.target })
                    } else {
                        None
                    }
                } else {
                    None
                }
            },
            LabelInput::FocusChanged { focused } => {
                self.focused = focused;
                if !focused && self.editing {
                    Some(NumericEntryMessage::Cancel { target: self.target })
                } else {
                    None
                }
            },
            LabelInput::Character { ch } => {
                if !self.editing {
                    None
                } else if ch == '\u{1b}' {
                    Some(NumericEntryMessage::Cancel { target: self.target })
                } else if ch == '\r' || ch == '\n' {
                    Some(NumericEntryMessage::Commit { target: self.target, draft: self.text.clone() })
                } else {
                    match self.draft_with_character(ch) {
                        Some(draft) => Some(self.changed(draft)),
                        None => None,
                    }
                }
            },
            LabelInput::KeyPress { key } => {
                if !self.editing {
                    None
                } else {
                    match key {
                        EntryKey::Enter => Some(
                            NumericEntryMessage::Commit { target: self.target, draft: self.text.clone() },
                        ),
                        EntryKey::Backspace => Some(self.changed(self.draft_after_backspace())),
                        EntryKey::Delete => Some(self.changed(self.draft_after_delete())),
                        EntryKey::Other => None,
                    }
                }
            },
            LabelInput::Other => None,
        }
    }
}

} // verus!

verus! {

/// The value label being edited, with its draft.
#[derive(Clone, Debug)]
pub struct NumericEntryState {
    pub target: NumericEntryTarget,
    pub draft: String,
    pub dirty: bool,
}

/// Whether an edit of `target` is in progress.
pub open spec fn entry_is_active(entry: Option<NumericEntryState>, target: NumericEntryTarget) -> bool {
    entry matches Some(e) && e.target == target
}

/// Whether `entry` holds exactly this target, draft and dirty flag.
pub open spec fn entry_is(entry: Option<NumericEntryState>, target: NumericEntryTarget, draft: Seq<char>, dirty: bool) -> bool {
    entry matches Some(e) && e.target == target && e.draft@ == draft && e.dirty == dirty
}

/// The edit state `before` becomes `after`, and `apply` is what reducing
/// `message` gives, with `begin_draft` the current value formatted for display
/// and `committed` the value parsed from a commit's draft.
///
/// Beginning an edit starts one with the formatted value as an untouched
/// draft. A commit that parses ends the edit and returns the target and value
/// to apply; one that does not parse keeps the edit open. Drafts, commits and
/// cancels for a control that is not being edited are ignored.
pub open spec fn spec_numeric_entry_message<V>(
    before: Option<NumericEntryState>,
    after: Option<NumericEntryState>,
    message: NumericEntryMessage,
    begin_draft: Seq<char>,
    committed: Option<V>,
    apply: Option<(NumericEntryTarget, V)>,
) -> bool {
    match message {
        NumericEntryMessage::Begin { target } => {
            &&& entry_is(after, target, begin_draft, false)
            &&& apply is None
        },
        NumericEntryMessage::DraftChanged { target, draft, dirty } => {
            &&& entry_is_active(before, target) ==> entry_is(after, target, draft@, dirty)
            &&& !entry_is_active(before, target) ==> after == before
            &&& apply is None
        },
        NumericEntryMessage::Commit { target, draft } => {
            if entry_is_active(before, target) && committed is Some {
                &&& after is None
                &&& apply == Some((target, committed.unwrap()))
            } else {
                &&& after == before
                &&& apply is None
            }
        },
        NumericEntryMessage::Cancel { target } => {
            &&& entry_is_active(before, target) ==> after is None
            &&& !entry_is_active(before, target) ==> after == before
            &&& apply is None
        },
    }
}

/// Reduce one value-entry message.
///
/// `begin_draft` is the current value formatted for display, used when an edit
/// begins; `committed` is the value parsed from the trimmed draft of a commit
/// (`None` when the text does not parse). A commit that parses ends the edit
/// and returns the target and value to apply; one that does not parse keeps the
/// edit open. Drafts, commits and cancels for a control that is not being
/// edited are ignored.
pub fn reduce_numeric_entry_message<V>(
    entry: &mut Option<NumericEntryState>,
    message: NumericEntryMessage,
    begin_draft: String,
    committed: Option<V>,
) -> (apply: Option<(NumericEntryTarget, V)>)
    ensures
        spec_numeric_entry_message(*old(entry), *final(entry), message, begin_draft@, committed, apply),
{
    let active_target: Option<NumericEntryTarget> = match entry {
        Some(e) => Some(e.target),
        None => None,
    };
    match message {
        NumericEntryMessage::Begin { target } => {
            *entry = Some(NumericEntryState { target, draft: begin_draft, dirty: false });
            None
        },
        NumericEntryMessage::DraftChanged { target, draft, dirty } => {
            if active_target == Some(target) {
                *entry = Some(NumericEntryState { target, draft, dirty });
            }
            None
        },
        NumericEntryMessage::Commit { target, draft: _ } => {
            if active_target == Some(target) {
                match committed {
                    Some(value) => {
                        *entry = None;
                        Some((target, value))
                    },
                    None => None,
                }
            } else {
                None
            }
        },
        NumericEntryMessage::Cancel { target } => {
            if active_target == Some(target) {
                *entry = None;
            }
            None
        },
    }
}

} // verus!
