use vstd::prelude::*;

verus! {

/// One of the two sounds the plugin holds.
#[derive(Clone, Copy, Debug, PartialEq, Eq, Structural)]
pub enum SoundSide {
    A,
    B,
}

impl SoundSide {
    pub open spec fn spec_other(self) -> SoundSide {
        match self {
            SoundSide::A => SoundSide::B,
            SoundSide::B => SoundSide::A,
        }
    }

    /// The other sound.
    pub fn other(self) -> (other: SoundSide)
        ensures
            other == self.spec_other(),
    {
        match self {
            SoundSide::A => SoundSide::B,
            SoundSide::B => SoundSide::A,
        }
    }

    /// The letter shown on the sound's button.
    pub fn label(self) -> (label: &'static str)
        ensures
            label@ == match self {
                SoundSide::A => "A"@,
                SoundSide::B => "B"@,
            },
    {
        match self {
            SoundSide::A => "A",
            SoundSide::B => "B",
        }
    }
}

/// A request from the header's sound buttons: select `side`, copying the
/// active sound onto it first when `copy` holds; or copy the active sound onto
/// `side` and switch to it.
#[derive(Clone, Copy, Debug, PartialEq, Eq, Structural)]
pub enum SoundMessage {
    SelectSound { side: SoundSide, copy: bool },
    CopyAndSelectSound(SoundSide),
}

/// Input delivered to a header sound button. Modifiers are those the event
/// carries; `activated` is whether the button the event reached reported an
/// activation (a release over the pressed button, or Enter/Space).
#[derive(Clone, Copy, Debug, PartialEq, Eq, Structural)]
pub enum HeaderButtonInput {
    ModifiersChanged { command: bool, alt: bool },
    PointerPress { command: bool, alt: bool },
    PointerRelease { command: bool, alt: bool, activated: bool },
    ActivationKey { activated: bool },
    PointerDrop,
    Other,
}

/// What a sound message asks of the plugin's two sounds, given the active one:
/// nothing, copying the active sound onto the other, switching, or copying
/// and then switching.
#[derive(Clone, Copy, Debug, PartialEq, Eq, Structural)]
pub enum SoundAction {
    Nothing,
    CopyOntoInactive,
    Switch { side: SoundSide },
    CopyAndSwitch { side: SoundSide },
}

/// The action for `message` while `active` is the active sound.
///
/// A copying select acts only on the other sound; a plain select only when
/// the side is not already active; copy-and-switch only toward the other
/// sound.
pub open spec fn spec_sound_action(active: SoundSide, message: SoundMessage) -> SoundAction {
    match message {
        SoundMessage::SelectSound { side, copy } => if copy {
            if side == active.spec_other() {
                SoundAction::CopyOntoInactive
            } else {
                SoundAction::Nothing
            }
        } else if side != active {
            SoundAction::Switch { side }
        } else {
            SoundAction::Nothing
        },
        SoundMessage::CopyAndSelectSound(side) => if side == active {
            SoundAction::Nothing
        } else {
            SoundAction::CopyAndSwitch { side }
        },
    }
}

/// Decide what `message` does while `active` is the active sound (see
/// `spec_sound_action`).
pub fn plan_sound_message(active: SoundSide, message: SoundMessage) -> (action: SoundAction)
    ensures
        action == spec_sound_action(active, message),
{
    match message {
        SoundMessage::SelectSound { side, copy } => {
            if copy {
                if side == active.other() {
                    SoundAction::CopyOntoInactive
                } else {
                    SoundAction::Nothing
                }
            } else if side != active {
                SoundAction::Switch { side }
            } else {
                SoundAction::Nothing
            }
        },
        SoundMessage::CopyAndSelectSound(side) => {
            if side == active {
                SoundAction::Nothing
            } else {
                SoundAction::CopyAndSwitch { side }
            }
        },
    }
}

/// The note the header shows after a sound action.
#[derive(Clone, Copy, Debug, PartialEq, Eq, Structural)]
pub enum SoundConfirmation {
    Copied { from: SoundSide, to: SoundSide },
    Switched { to: SoundSide },
    CopiedAndSwitched { from: SoundSide, to: SoundSide },
}

/// What the editor does after a sound action was carried out: record the undo
/// step (the state before the action), clear the curve selection, show a
/// confirmation, and report the new active sound to the host.
#[derive(Clone, Copy, Debug, PartialEq, Eq, Structural)]
pub struct SoundOutcome {
    pub push_history: bool,
    pub clear_selection: bool,
    pub confirmation: Option<SoundConfirmation>,
    pub sound_update: Option<SoundSide>,
}

/// The outcome of `action` taken while `active` was active, where `copied`
/// says whether the copy changed the other sound and `switched` whether the
/// switch took effect (each is false for an action that does not make it).
///
/// A copy that changed nothing leaves no trace. A plain switch records its
/// undo step even when the switch does not take effect. A copy-and-switch
/// whose switch fails leaves no trace, even when the copy changed the other
/// sound.
pub open spec fn spec_sound_outcome(active: SoundSide, action: SoundAction, copied: bool, switched: bool) -> SoundOutcome {
    let none = SoundOutcome { push_history: false, clear_selection: false, confirmation: None, sound_update: None };
    match action {
        SoundAction::Nothing => none,
        SoundAction::CopyOntoInactive => if copied {
            SoundOutcome {
                push_history: true,
                clear_selection: true,
                confirmation: Some(SoundConfirmation::Copied { from: active, to: active.spec_other() }),
                sound_update: None,
            }
        } else {
            none
        },
        SoundAction::Switch { side } => if switched {
            SoundOutcome {
                push_history: true,
                clear_selection: true,
                confirmation: Some(SoundConfirmation::Switched { to: side }),
                sound_update: Some(side),
            }
        } else {
            SoundOutcome { push_history: true, ..none }
        },
        SoundAction::CopyAndSwitch { side } => if switched {
            SoundOutcome {
                push_history: true,
                clear_selection: true,
                confirmation: Some(
                    if copied {
                        SoundConfirmation::CopiedAndSwitched { from: active, to: side }
                    } else {
                        SoundConfirmation::Switched { to: side }
                    },
                ),
                sound_update: Some(side),
            }
        } else {
            none
        },
    }
}

/// The editor's response to a sound action that was carried out (see
/// `spec_sound_outcome`).
pub fn sound_outcome(active: SoundSide, action: SoundAction, copied: bool, switched: bool) -> (outcome: SoundOutcome)
    ensures
        outcome == spec_sound_outcome(active, action, copied, switched),
{
    let none = SoundOutcome { push_history: false, clear_selection: false, confirmation: None, sound_update: None };
    match action {
        SoundAction::Nothing => none,
        SoundAction::CopyOntoInactive => {
            if copied {
                SoundOutcome {
                    push_history: true,
                    clear_selection: true,
                    confirmation: Some(SoundConfirmation::Copied { from: active, to: active.other() }),
                    sound_update: None,
                }
            } else {
                none
            }
        },
        SoundAction::Switch { side } => {
            if switched {
                SoundOutcome {
                    push_history: true,
                    clear_selection: true,
                    confirmation: Some(SoundConfirmation::Switched { to: side }),
                    sound_update: Some(side),
                }
            } else {
                SoundOutcome { push_history: true, ..none }
            }
        },
        SoundAction::CopyAndSwitch { side } => {
            if switched {
                let confirmation = if copied {
                    SoundConfirmation::CopiedAndSwitched { from: active, to: side }
                } else {
                    SoundConfirmation::Switched { to: side }
                };
                SoundOutcome {
                    push_history: true,
                    clear_selection: true,
                    confirmation: Some(confirmation),
                    sound_update: Some(side),
                }
            } else {
                none
            }
        },
    }
}

/// A sound message only ever switches to the sound that is not active, and
/// whenever the editor reports a new active sound it has recorded an undo step.
pub proof fn law_sound_switch_targets_the_other_side(
    active: SoundSide,
    message: SoundMessage,
    copied: bool,
    switched: bool,
)
    ensures
        ({
            let action = spec_sound_action(active, message);
            let outcome = spec_sound_outcome(active, action, copied, switched);
            &&& match action {
                SoundAction::Switch { side } => side == active.spec_other(),
                SoundAction::CopyAndSwitch { side } => side == active.spec_other(),
                _ => true,
            }
            &&& outcome.sound_update is Some ==> outcome.push_history && outcome.sound_update == Some(
                active.spec_other(),
            )
        }),
{
}

/// The arrow between the A and B buttons: it switches to the other sound, and
/// with Command held at press or release copies the active sound over first.
#[derive(Clone, Copy, Debug, PartialEq, Eq, Structural)]
pub struct SoundSwitchButton {
    pub active_sound: SoundSide,
    pub command_held: bool,
}

/// What the switch button reports for `input`, and whether Command stays
/// remembered.
pub open spec fn spec_switch_input(button: SoundSwitchButton, input: HeaderButtonInput) -> (
    Option<SoundMessage>,
    bool,
) {
    let other = button.active_sound.spec_other();
    match input {
        HeaderButtonInput::ModifiersChanged { command, .. } => (None, command),
        HeaderButtonInput::PointerPress { command, .. } => (None, command),
        HeaderButtonInput::PointerRelease { command, activated, .. } => (
            if !activated {
                None
            } else if button.command_held || command {
                Some(SoundMessage::CopyAndSelectSound(other))
            } else {
                Some(SoundMessage::SelectSound { side: other, copy: false })
            },
            false,
        ),
        HeaderButtonInput::ActivationKey { activated } => (
            if activated {
                Some(SoundMessage::SelectSound { side: other, copy: false })
            } else {
                None
            },
            button.command_held,
        ),
        HeaderButtonInput::PointerDrop => (None, false),
        HeaderButtonInput::Other => (None, button.command_held),
    }
}

impl SoundSwitchButton {
    /// A switch showing `active_sound`, with no modifier remembered.
    pub fn new(active_sound: SoundSide) -> (button: SoundSwitchButton)
        ensures
            button.active_sound == active_sound,
            !button.command_held,
    {
        SoundSwitchButton { active_sound, command_held: false }
    }

    /// React to one input (see `spec_switch_input`): Command is remembered from
    /// the press so that releasing it before the button does not lose the copy;
    /// the keyboard only ever switches.
    pub fn handle_input(&mut self, input: HeaderButtonInput) -> (message: Option<SoundMessage>)
        ensures
            (message, final(self).command_held) == spec_switch_input(*old(self), input),
            final(self).active_sound == old(self).active_sound,
    {
        let other = self.active_sound.other();
        match input {
            HeaderButtonInput::ModifiersChanged { command, .. } => {
                self.command_held = command;
                None
            },
            HeaderButtonInput::PointerPress { command, .. } => {
                self.command_held = command;
                None
            },
            HeaderButtonInput::PointerRelease { command, activated, .. } => {
                let command_held = self.command_held || command;
                self.command_held = false;
                if !activated {
                    None
                } else if command_held {
                    Some(SoundMessage::CopyAndSelectSound(other))
                } else {
                    Some(SoundMessage::SelectSound { side: other, copy: false })
                }
            },
            HeaderButtonInput::ActivationKey { activated } => {
                if activated {
                    Some(SoundMessage::SelectSound { side: other, copy: false })
                } else {
                    None
                }
            },
            HeaderButtonInput::PointerDrop => {
                self.command_held = false;
                None
            },
            HeaderButtonInput::Other => None,
        }
    }
}

/// The A or B button: it selects its sound, and with Option held at press or
/// release, on the sound that is not selected, copies the active sound onto it.
#[derive(Clone, Copy, Debug, PartialEq, Eq, Structural)]
pub struct SoundSideButton {
    pub side: SoundSide,
    pub selected: bool,
    pub alt_held: bool,
}

/// What a side button reports for `input`, and whether Option stays
/// remembered.
pub open spec fn spec_side_input(button: SoundSideButton, input: HeaderButtonInput) -> (
    Option<SoundMessage>,
    bool,
) {
    match input {
        HeaderButtonInput::ModifiersChanged { alt, .. } => (None, alt),
        HeaderButtonInput::PointerPress { alt, .. } => (None, alt),
        HeaderButtonInput::PointerRelease { alt, activated, .. } => (
            if activated {
                Some(
                    SoundMessage::SelectSound {
                        side: button.side,
                        copy: (button.alt_held || alt) && !button.selected,
                    },
                )
            } else {
                None
            },
            false,
        ),
        HeaderButtonInput::ActivationKey { activated } => (
            if activated {
                Some(SoundMessage::SelectSound { side: button.side, copy: false })
            } else {
                None
            },
            button.alt_held,
        ),
        HeaderButtonInput::PointerDrop => (None, false),
        HeaderButtonInput::Other => (None, button.alt_held),
    }
}

impl SoundSideButton {
    /// The button of `side`, shown selected when it is the active sound.
    pub fn new(side: SoundSide, selected: bool) -> (button: SoundSideButton)
        ensures
            button.side == side,
            button.selected == selected,
            !button.alt_held,
    {
        SoundSideButton { side, selected, alt_held: false }
    }

    /// React to one input (see `spec_side_input`). Command has no meaning
    /// here; the keyboard only ever selects.
    pub fn handle_input(&mut self, input: HeaderButtonInput) -> (message: Option<SoundMessage>)
        ensures
            (message, final(self).alt_held) == spec_side_input(*old(self), input),
            final(self).side == old(self).side,
            final(self).selected == old(self).selected,
    {
        match input {
            HeaderButtonInput::ModifiersChanged { alt, .. } => {
                self.alt_held = alt;
                None
            },
            HeaderButtonInput::PointerPress { alt, .. } => {
                self.alt_held = alt;
                None
            },
            HeaderButtonInput::PointerRelease { alt, activated, .. } => {
                let alt_held = self.alt_held || alt;
                self.alt_held = false;
                if activated {
                    Some(SoundMessage::SelectSound { side: self.side, copy: alt_held && !self.selected })
                } else {
                    None
                }
            },
            HeaderButtonInput::ActivationKey { activated } => {
                if activated {
                    Some(SoundMessage::SelectSound { side: self.side, copy: false })
                } else {
                    None
                }
            },
            HeaderButtonInput::PointerDrop => {
                self.alt_held = false;
                None
            },
            HeaderButtonInput::Other => None,
        }
    }
}

/// Input to a header action button, as far as a disabled one looks at it.
#[derive(Clone, Copy, Debug, PartialEq, Eq, Structural)]
pub enum ActionButtonInput {
    PointerMove { inside: bool },
    Other,
}

/// An icon button of the header's action row; a disabled one cannot be
/// activated.
#[derive(Clone, Copy, Debug, PartialEq, Eq, Structural)]
pub struct ActionIconButton {
    pub disabled: bool,
    pub hovered: bool,
}

impl ActionIconButton {
    /// Filter one input. A disabled button stays hoverable, so that its
    /// explanatory tooltip can be found, and takes no other input; an enabled
    /// one hands every input on to the button itself. Returns whether the
    /// input is handed on.
    pub fn handle_input(&mut self, input: ActionButtonInput) -> (forward: bool)
        ensures
            forward == !old(self).disabled,
            final(self).disabled == old(self).disabled,
            final(self).hovered == match input {
                ActionButtonInput::PointerMove { inside } => if old(self).disabled {
                    inside
                } else {
                    old(self).hovered
                },
                ActionButtonInput::Other => old(self).hovered,
            },
    {
        if self.disabled {
            if let ActionButtonInput::PointerMove { inside } = input {
                self.hovered = inside;
            }
            return false;
        }
        true
    }
}

/// A request from a stored-curve slot: load its curve, or store the current
/// curve in it.
#[derive(Clone, Copy, Debug, PartialEq, Eq, Structural)]
pub enum CurveSlotMessage {
    Load { index: usize },
    Store { index: usize },
}

/// Input delivered to a curve slot. Pointer positions are given as whether
/// they lie inside the slot.
#[derive(Clone, Copy, Debug, PartialEq, Eq, Structural)]
pub enum CurveSlotInput {
    PointerMove { inside: bool },
    ModifiersChanged { command: bool },
    PointerPress { inside: bool, primary: bool, command: bool },
    PointerRelease,
    PointerDrop,
    FocusChanged { focused: bool },
    Other,
}

/// One of the stored-curve slots under the curve editor.
#[derive(Clone, Copy, Debug, PartialEq, Eq, Structural)]
pub struct CurveSlot {
    pub index: usize,
    pub hovered: bool,
    pub focused: bool,
    pub pressed: bool,
    pub command_hovered: bool,
}

/// The slot after `input`, and what it reports.
pub open spec fn spec_slot_input(slot: CurveSlot, input: CurveSlotInput) -> (CurveSlot, Option<CurveSlotMessage>) {
    match input {
        CurveSlotInput::PointerMove { inside } => (CurveSlot { hovered: inside, ..slot }, None),
        CurveSlotInput::ModifiersChanged { command } => (CurveSlot { command_hovered: command, ..slot }, None),
        CurveSlotInput::PointerPress { inside, primary, command } => if inside && primary {
            (
                CurveSlot { hovered: true, focused: true, pressed: true, command_hovered: command, ..slot },
                Some(
                    if command {
                        CurveSlotMessage::Store { index: slot.index }
                    } else {
                        CurveSlotMessage::Load { index: slot.index }
                    },
                ),
            )
        } else {
            (slot, None)
        },
        CurveSlotInput::PointerRelease => (CurveSlot { pressed: false, ..slot }, None),
        CurveSlotInput::PointerDrop => (CurveSlot { pressed: false, ..slot }, None),
        CurveSlotInput::FocusChanged { focused } => (CurveSlot { focused, ..slot }, None),
        CurveSlotInput::Other => (slot, None),
    }
}

impl CurveSlot {
    /// Slot `index`, idle.
    pub fn new(index: usize) -> (slot: CurveSlot)
        ensures
            slot == (CurveSlot {
                index,
                hovered: false,
                focused: false,
                pressed: false,
                command_hovered: false,
            }),
    {
        CurveSlot { index, hovered: false, focused: false, pressed: false, command_hovered: false }
    }

    /// React to one input (see `spec_slot_input`): a primary press inside loads
    /// the slot, or stores into it with Command held; the slot acts on press,
    /// so wheel and arrow keys do nothing.
    pub fn handle_input(&mut self, input: CurveSlotInput) -> (message: Option<CurveSlotMessage>)
        ensures
            (*final(self), message) == spec_slot_input(*old(self), input),
    {
        match input {
            CurveSlotInput::PointerMove { inside } => {
                self.hovered = inside;
                None
            },
            CurveSlotInput::ModifiersChanged { command } => {
                self.command_hovered = command;
                None
            },
            CurveSlotInput::PointerPress { inside, primary, command } => {
                if inside && primary {
                    self.focused = true;
                    self.hovered = true;
                    self.pressed = true;
                    self.command_hovered = command;
                    if command {
                        Some(CurveSlotMessage::Store { index: self.index })
                    } else {
                        Some(CurveSlotMessage::Load { index: self.index })
                    }
                } else {
                    None
                }
            },
            CurveSlotInput::PointerRelease | CurveSlotInput::PointerDrop => {
                self.pressed = false;
                None
            },
            CurveSlotInput::FocusChanged { focused } => {
                self.focused = focused;
                None
            },
            CurveSlotInput::Other => None,
        }
    }
}

} // verus!
