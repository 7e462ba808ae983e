use pump::header::{
    plan_sound_message, ActionButtonInput, ActionIconButton, sound_outcome, CurveSlot, CurveSlotInput, CurveSlotMessage, HeaderButtonInput, SoundAction,
    SoundConfirmation, SoundMessage, SoundOutcome, SoundSide, SoundSideButton, SoundSwitchButton,
};

fn press(command: bool, alt: bool) -> HeaderButtonInput {
    HeaderButtonInput::PointerPress { command, alt }
}

/// A plain release over the pressed button, which the button reports as an
/// activation.
fn release() -> HeaderButtonInput {
    HeaderButtonInput::PointerRelease { command: false, alt: false, activated: true }
}

#[test]
fn ab_buttons_activate_on_release_and_preserve_modifier_intent() {
    let mut switch = SoundSwitchButton::new(SoundSide::A);
    assert_eq!(switch.handle_input(press(false, false)), None);
    assert_eq!(switch.handle_input(release()), Some(SoundMessage::SelectSound { side: SoundSide::B, copy: false }));

    let mut copy_switch = SoundSwitchButton::new(SoundSide::A);
    assert_eq!(copy_switch.handle_input(press(true, false)), None);
    assert_eq!(copy_switch.handle_input(release()), Some(SoundMessage::CopyAndSelectSound(SoundSide::B)));

    let mut option_switch = SoundSwitchButton::new(SoundSide::A);
    assert_eq!(option_switch.handle_input(press(false, true)), None);
    assert_eq!(
        option_switch.handle_input(release()),
        Some(SoundMessage::SelectSound { side: SoundSide::B, copy: false })
    );

    let mut active = SoundSideButton::new(SoundSide::A, true);
    assert_eq!(active.handle_input(press(true, false)), None);
    assert_eq!(active.handle_input(release()), Some(SoundMessage::SelectSound { side: SoundSide::A, copy: false }));

    let mut inactive = SoundSideButton::new(SoundSide::B, false);
    assert_eq!(inactive.handle_input(press(true, false)), None);
    assert_eq!(inactive.handle_input(release()), Some(SoundMessage::SelectSound { side: SoundSide::B, copy: false }));

    let mut option_inactive = SoundSideButton::new(SoundSide::B, false);
    assert_eq!(option_inactive.handle_input(press(false, true)), None);
    assert_eq!(
        option_inactive.handle_input(release()),
        Some(SoundMessage::SelectSound { side: SoundSide::B, copy: true })
    );
}

#[test]
fn active_option_click_does_not_copy_or_create_undo_history() {
    let mut active = SoundSideButton::new(SoundSide::A, true);
    assert_eq!(active.handle_input(press(false, true)), None);
    let message = active.handle_input(release());
    assert_eq!(message, Some(SoundMessage::SelectSound { side: SoundSide::A, copy: false }));

    let action = plan_sound_message(SoundSide::A, message.expect("active click should select normally"));
    assert_eq!(action, SoundAction::Nothing);
    let outcome = sound_outcome(SoundSide::A, action, false, false);
    assert!(!outcome.push_history);
}

#[test]
fn sound_messages_plan_the_expected_actions() {
    let a = SoundSide::A;
    let b = SoundSide::B;
    assert_eq!(plan_sound_message(a, SoundMessage::SelectSound { side: b, copy: true }), SoundAction::CopyOntoInactive);
    assert_eq!(plan_sound_message(a, SoundMessage::SelectSound { side: a, copy: true }), SoundAction::Nothing);
    assert_eq!(plan_sound_message(a, SoundMessage::SelectSound { side: b, copy: false }), SoundAction::Switch { side: b });
    assert_eq!(plan_sound_message(b, SoundMessage::SelectSound { side: b, copy: false }), SoundAction::Nothing);
    assert_eq!(plan_sound_message(a, SoundMessage::CopyAndSelectSound(b)), SoundAction::CopyAndSwitch { side: b });
    assert_eq!(plan_sound_message(b, SoundMessage::CopyAndSelectSound(b)), SoundAction::Nothing);
}

#[test]
fn sound_outcomes_follow_what_the_sounds_did() {
    let a = SoundSide::A;
    let b = SoundSide::B;
    let none = SoundOutcome { push_history: false, clear_selection: false, confirmation: None, sound_update: None };

    assert_eq!(
        sound_outcome(a, SoundAction::CopyOntoInactive, true, false),
        SoundOutcome {
            push_history: true,
            clear_selection: true,
            confirmation: Some(SoundConfirmation::Copied { from: a, to: b }),
            sound_update: None,
        }
    );
    assert_eq!(sound_outcome(a, SoundAction::CopyOntoInactive, false, false), none);

    assert_eq!(
        sound_outcome(a, SoundAction::Switch { side: b }, false, true),
        SoundOutcome {
            push_history: true,
            clear_selection: true,
            confirmation: Some(SoundConfirmation::Switched { to: b }),
            sound_update: Some(b),
        }
    );
    assert_eq!(
        sound_outcome(a, SoundAction::Switch { side: b }, false, false),
        SoundOutcome { push_history: true, ..none }
    );

    assert_eq!(
        sound_outcome(a, SoundAction::CopyAndSwitch { side: b }, true, true).confirmation,
        Some(SoundConfirmation::CopiedAndSwitched { from: a, to: b })
    );
    assert_eq!(
        sound_outcome(a, SoundAction::CopyAndSwitch { side: b }, false, true).confirmation,
        Some(SoundConfirmation::Switched { to: b })
    );
    assert_eq!(sound_outcome(a, SoundAction::CopyAndSwitch { side: b }, true, false), none);
    assert_eq!(sound_outcome(b, SoundAction::Nothing, true, true), none);
}

#[test]
fn sound_buttons_forget_modifiers_after_release_or_drop() {
    let mut switch = SoundSwitchButton::new(SoundSide::B);
    switch.handle_input(press(true, false));
    assert!(switch.command_held);
    switch.handle_input(HeaderButtonInput::PointerDrop);
    assert!(!switch.command_held);
    switch.handle_input(press(false, false));
    assert_eq!(switch.handle_input(release()), Some(SoundMessage::SelectSound { side: SoundSide::A, copy: false }));

    let mut side = SoundSideButton::new(SoundSide::B, false);
    side.handle_input(press(false, true));
    assert_eq!(
        side.handle_input(HeaderButtonInput::PointerRelease { command: false, alt: false, activated: false }),
        None
    );
    assert!(!side.alt_held);
}

#[test]
fn sound_buttons_activate_from_the_keyboard_without_copying() {
    let mut switch = SoundSwitchButton::new(SoundSide::A);
    switch.handle_input(HeaderButtonInput::ModifiersChanged { command: true, alt: false });
    assert_eq!(
        switch.handle_input(HeaderButtonInput::ActivationKey { activated: true }),
        Some(SoundMessage::SelectSound { side: SoundSide::B, copy: false })
    );
    let mut side = SoundSideButton::new(SoundSide::B, false);
    side.handle_input(HeaderButtonInput::ModifiersChanged { command: false, alt: true });
    assert_eq!(
        side.handle_input(HeaderButtonInput::ActivationKey { activated: true }),
        Some(SoundMessage::SelectSound { side: SoundSide::B, copy: false })
    );
    assert_eq!(side.handle_input(HeaderButtonInput::ActivationKey { activated: false }), None);
}

#[test]
fn sound_side_labels_and_other() {
    assert_eq!(SoundSide::A.label(), "A");
    assert_eq!(SoundSide::B.label(), "B");
    assert_eq!(SoundSide::A.other(), SoundSide::B);
    assert_eq!(SoundSide::B.other(), SoundSide::A);
}

#[test]
fn curve_slot_widget_click_loads_and_command_click_stores() {
    let mut slot = CurveSlot::new(3);
    assert_eq!(
        slot.handle_input(CurveSlotInput::PointerPress { inside: true, primary: true, command: false }),
        Some(CurveSlotMessage::Load { index: 3 })
    );
    assert_eq!(
        slot.handle_input(CurveSlotInput::PointerPress { inside: true, primary: true, command: true }),
        Some(CurveSlotMessage::Store { index: 3 })
    );
    slot.handle_input(CurveSlotInput::PointerRelease);
    assert!(!slot.pressed);
}

#[test]
fn curve_slot_widget_does_not_navigate_with_wheel_or_arrows() {
    let mut slot = CurveSlot::new(3);
    assert_eq!(slot.handle_input(CurveSlotInput::Other), None);
    assert_eq!(slot.handle_input(CurveSlotInput::FocusChanged { focused: true }), None);
    assert!(slot.focused);
}

#[test]
fn curve_slot_ignores_presses_outside_or_with_other_buttons() {
    let mut slot = CurveSlot::new(1);
    assert_eq!(slot.handle_input(CurveSlotInput::PointerPress { inside: false, primary: true, command: false }), None);
    assert_eq!(slot.handle_input(CurveSlotInput::PointerPress { inside: true, primary: false, command: false }), None);
    assert_eq!(slot, CurveSlot::new(1));
    slot.handle_input(CurveSlotInput::PointerMove { inside: true });
    assert!(slot.hovered);
    slot.handle_input(CurveSlotInput::ModifiersChanged { command: true });
    assert!(slot.command_hovered);
}

#[test]
fn disabled_action_is_hoverable_but_not_activatable() {
    let mut settings = ActionIconButton { disabled: true, hovered: false };
    assert!(!settings.handle_input(ActionButtonInput::PointerMove { inside: true }));
    assert!(settings.hovered);
    assert!(!settings.handle_input(ActionButtonInput::Other));
    assert!(!settings.handle_input(ActionButtonInput::PointerMove { inside: false }));
    assert!(!settings.hovered);

    let mut enabled = ActionIconButton { disabled: false, hovered: false };
    assert!(enabled.handle_input(ActionButtonInput::PointerMove { inside: true }));
    assert!(!enabled.hovered);
}
