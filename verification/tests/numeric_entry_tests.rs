use pump::numeric_entry::{
    is_numeric_entry_char, reduce_numeric_entry_message, EntryKey, FreeRateUnit, LabelInput,
    NumericEntryMessage, NumericEntryState, NumericEntryTarget, NumericValueLabel,
};

#[test]
fn radiant_numeric_entry_commit_valid_value_updates_param() {
    let mut entry: Option<NumericEntryState> = None;
    let mut mix = 1.0_f32;

    let applied = reduce_numeric_entry_message::<f32>(
        &mut entry,
        NumericEntryMessage::Begin { target: NumericEntryTarget::Mix },
        "100%".to_string(),
        None,
    );
    assert!(applied.is_none());
    assert_eq!(entry.as_ref().map(|e| e.draft.as_str()), Some("100%"));

    reduce_numeric_entry_message::<f32>(
        &mut entry,
        NumericEntryMessage::DraftChanged { target: NumericEntryTarget::Mix, draft: "25".to_string(), dirty: true },
        String::new(),
        None,
    );
    let applied = reduce_numeric_entry_message(
        &mut entry,
        NumericEntryMessage::Commit { target: NumericEntryTarget::Mix, draft: "25".to_string() },
        String::new(),
        Some(0.25_f32),
    );
    if let Some((NumericEntryTarget::Mix, value)) = applied {
        mix = value;
    }
    assert_eq!(mix, 0.25);
    assert!(entry.is_none());
}

#[test]
fn radiant_numeric_entry_rejects_invalid_commit_without_corrupting_param() {
    let mut entry: Option<NumericEntryState> = None;
    let output_gain_db = -3.0_f32;
    reduce_numeric_entry_message::<f32>(
        &mut entry,
        NumericEntryMessage::Begin { target: NumericEntryTarget::OutputGain },
        "-3.0 dB".to_string(),
        None,
    );
    let applied = reduce_numeric_entry_message::<f32>(
        &mut entry,
        NumericEntryMessage::Commit { target: NumericEntryTarget::OutputGain, draft: "not a number".to_string() },
        String::new(),
        None,
    );
    assert!(applied.is_none());
    assert_eq!(output_gain_db, -3.0);
    assert_eq!(entry.as_ref().map(|e| e.target), Some(NumericEntryTarget::OutputGain));
}

#[test]
fn radiant_numeric_entry_cancel_leaves_prior_value() {
    let mut entry: Option<NumericEntryState> = None;
    reduce_numeric_entry_message::<f32>(
        &mut entry,
        NumericEntryMessage::Begin { target: NumericEntryTarget::FreeRate },
        "1.00 Hz".to_string(),
        None,
    );
    reduce_numeric_entry_message::<f32>(
        &mut entry,
        NumericEntryMessage::DraftChanged { target: NumericEntryTarget::FreeRate, draft: "75".to_string(), dirty: true },
        String::new(),
        None,
    );
    let applied = reduce_numeric_entry_message::<f32>(
        &mut entry,
        NumericEntryMessage::Cancel { target: NumericEntryTarget::FreeRate },
        String::new(),
        None,
    );
    assert!(applied.is_none());
    assert!(entry.is_none());
}

#[test]
fn numeric_entry_ignores_messages_for_other_targets() {
    let mut entry: Option<NumericEntryState> = None;
    reduce_numeric_entry_message::<f32>(
        &mut entry,
        NumericEntryMessage::Begin { target: NumericEntryTarget::Mix },
        "50%".to_string(),
        None,
    );
    let applied = reduce_numeric_entry_message(
        &mut entry,
        NumericEntryMessage::Commit { target: NumericEntryTarget::Swing, draft: "10".to_string() },
        String::new(),
        Some(0.1_f32),
    );
    assert!(applied.is_none());
    assert_eq!(entry.as_ref().map(|e| e.target), Some(NumericEntryTarget::Mix));
}

#[test]
fn numeric_value_label_starts_edit_only_on_command_click() {
    let mut label = NumericValueLabel::new(NumericEntryTarget::Mix, "50%".to_string(), false, false);
    assert!(label.handle_input(LabelInput::PointerPress { inside: true, primary: true, command: false }).is_none());
    assert_eq!(
        label.handle_input(LabelInput::PointerPress { inside: true, primary: true, command: true }),
        Some(NumericEntryMessage::Begin { target: NumericEntryTarget::Mix })
    );
}

#[test]
fn numeric_value_label_edits_commits_and_cancels_draft() {
    let mut label = NumericValueLabel::new(NumericEntryTarget::Mix, "100%".to_string(), true, false);
    assert_eq!(
        label.handle_input(LabelInput::Character { ch: '2' }),
        Some(NumericEntryMessage::DraftChanged { target: NumericEntryTarget::Mix, draft: "2".to_string(), dirty: true })
    );

    label.text = "2".to_string();
    label.dirty = true;
    assert_eq!(
        label.handle_input(LabelInput::Character { ch: '5' }),
        Some(NumericEntryMessage::DraftChanged { target: NumericEntryTarget::Mix, draft: "25".to_string(), dirty: true })
    );

    label.text = "25".to_string();
    assert_eq!(
        label.handle_input(LabelInput::KeyPress { key: EntryKey::Enter }),
        Some(NumericEntryMessage::Commit { target: NumericEntryTarget::Mix, draft: "25".to_string() })
    );
    assert_eq!(
        label.handle_input(LabelInput::FocusChanged { focused: false }),
        Some(NumericEntryMessage::Cancel { target: NumericEntryTarget::Mix })
    );
}

#[test]
fn numeric_value_label_backspace_and_delete_edit_the_draft() {
    let label = NumericValueLabel::new(NumericEntryTarget::Swing, "25".to_string(), true, true);
    assert_eq!(label.draft_after_backspace(), "2");
    assert_eq!(label.draft_after_delete(), "25");
    let untouched = NumericValueLabel::new(NumericEntryTarget::Swing, "25%".to_string(), true, false);
    assert_eq!(untouched.draft_after_backspace(), "");
    assert_eq!(untouched.draft_after_delete(), "");
    assert_eq!(untouched.draft_with_character('x'), None);
    assert_eq!(untouched.draft_with_character('7'), Some("7".to_string()));
}

#[test]
fn numeric_entry_labels_and_characters() {
    assert!(is_numeric_entry_char('7'));
    assert!(is_numeric_entry_char('-'));
    assert!(is_numeric_entry_char('B'));
    assert!(!is_numeric_entry_char('q'));
    assert_eq!(NumericEntryTarget::Mix.label(), "Mix");
    assert_eq!(NumericEntryTarget::FreeRate.label(), "Free Rate");
    assert_eq!(NumericEntryTarget::OutputGain.widget_key(), "numeric-entry-output");
    assert_eq!(
        FreeRateUnit::all().iter().map(|unit| unit.label()).collect::<Vec<_>>(),
        ["ms", "s", "Hz", "kHz"]
    );
}
