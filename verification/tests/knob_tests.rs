use pump::history::{history_shortcut_for_character, EditHistory, HistoryShortcut};
use pump::knob::{
    reduce_knob_message, try_toggle_bypass, BypassParam, HostParamEditSink, HostSink, KnobMessage, SinkCall,
};
use pump::numeric_entry::NumericEntryTarget;

/// A host queue with room for `capacity` events that drops the newest ones
/// once full; each accepted call is logged.
struct QueueSink {
    capacity: usize,
    events: Vec<&'static str>,
}

impl QueueSink {
    fn new(capacity: usize) -> Self {
        QueueSink { capacity, events: Vec::new() }
    }

    fn enqueue(&mut self, kind: &'static str) -> bool {
        if self.events.len() >= self.capacity {
            return false;
        }
        self.events.push(kind);
        true
    }
}

impl HostParamEditSink<NumericEntryTarget, f32> for QueueSink {
    fn edit(&mut self, _target: NumericEntryTarget, _value: f32) -> bool {
        if self.events.len() + 3 > self.capacity {
            return false;
        }
        self.enqueue("begin") && self.enqueue("value") && self.enqueue("end")
    }

    fn gesture_started(&mut self, _target: NumericEntryTarget) -> bool {
        self.enqueue("begin")
    }

    fn gesture_value(&mut self, _target: NumericEntryTarget, _value: f32) -> bool {
        self.enqueue("value")
    }

    fn gesture_ended(&mut self, _target: NumericEntryTarget) -> bool {
        self.enqueue("end")
    }
}

/// Parameter value, history depth and open gesture of the deck, driven the way
/// the editor drives them from knob outcomes.
struct Deck {
    value: f32,
    history: EditHistory<f32>,
    active: Option<NumericEntryTarget>,
}

impl Deck {
    fn new(value: f32) -> Self {
        Deck { value, history: EditHistory::new(), active: None }
    }

    fn knob(
        &mut self,
        sink: &mut HostSink<NumericEntryTarget, f32, QueueSink>,
        target: NumericEntryTarget,
        message: KnobMessage<f32>,
    ) -> Vec<SinkCall<NumericEntryTarget, f32>> {
        let outcome = reduce_knob_message(&mut self.active, sink, target, message);
        if outcome.push_history {
            self.history.push_history_snapshot(self.value);
        }
        if let Some(value) = outcome.set_value {
            self.value = value;
        }
        outcome.calls
    }
}

#[test]
fn swing_knob_transaction_updates_param_and_emits_complete_gesture() {
    let mut sink = HostSink::new(QueueSink::new(64));
    let mut deck = Deck::new(0.0);
    deck.knob(&mut sink, NumericEntryTarget::Swing, KnobMessage::GestureStarted);
    deck.knob(&mut sink, NumericEntryTarget::Swing, KnobMessage::ValueChanged { value: 0.5 });
    deck.knob(&mut sink, NumericEntryTarget::Swing, KnobMessage::GestureEnded);

    assert_eq!(deck.value, 0.5);
    assert_eq!(deck.history.undo_len(), 1);
    assert!(deck.active.is_none());
    assert_eq!(sink.inner.events, ["begin", "value", "end"]);
}

#[test]
fn wheel_gesture_updates_mapped_param_with_one_ordered_transaction() {
    let mut sink = HostSink::new(QueueSink::new(64));
    let mut deck = Deck::new(0.5);
    let calls = deck.knob(&mut sink, NumericEntryTarget::FreeRate, KnobMessage::WheelGesture { value: Some(0.75) });

    assert_eq!(deck.value, 0.75);
    assert_eq!(deck.history.undo_len(), 1);
    assert!(deck.active.is_none());
    assert_eq!(sink.inner.events, ["begin", "value", "end"]);
    assert_eq!(
        calls,
        vec![
            SinkCall::GestureStarted { target: NumericEntryTarget::FreeRate, accepted: true },
            SinkCall::GestureValue { target: NumericEntryTarget::FreeRate, value: 0.75, accepted: true },
            SinkCall::GestureEnded { target: NumericEntryTarget::FreeRate, accepted: true },
        ]
    );
}

#[test]
fn wheel_gesture_ends_after_rejected_value_without_mutating_state() {
    let mut queue = QueueSink::new(2);
    queue.events.clear();
    let mut deck = Deck::new(0.5);
    // The queue holds two events: the value is dropped, the end is kept by
    // making room for it once the value was refused.
    struct RejectValue(QueueSink);
    impl HostParamEditSink<NumericEntryTarget, f32> for RejectValue {
        fn edit(&mut self, target: NumericEntryTarget, value: f32) -> bool {
            self.0.edit(target, value)
        }
        fn gesture_started(&mut self, target: NumericEntryTarget) -> bool {
            self.0.gesture_started(target)
        }
        fn gesture_value(&mut self, _target: NumericEntryTarget, _value: f32) -> bool {
            false
        }
        fn gesture_ended(&mut self, target: NumericEntryTarget) -> bool {
            self.0.gesture_ended(target)
        }
    }
    let mut rejecting = HostSink::new(RejectValue(queue));
    let outcome = reduce_knob_message(
        &mut deck.active,
        &mut rejecting,
        NumericEntryTarget::FreeRate,
        KnobMessage::WheelGesture { value: Some(0.75) },
    );
    if outcome.push_history {
        deck.history.push_history_snapshot(deck.value);
    }
    assert_eq!(outcome.set_value, None);
    assert_eq!(deck.value, 0.5);
    assert_eq!(deck.history.undo_len(), 1);
    assert!(deck.active.is_none());
    assert_eq!(rejecting.inner.0.events, ["begin", "end"]);
}

#[test]
fn knob_routes_pointer_keyboard_and_reset_lifecycles_without_batch_spam() {
    let mut sink = HostSink::new(QueueSink::new(64));
    let mut deck = Deck::new(0.0);
    let target = NumericEntryTarget::FreeRate;
    deck.knob(&mut sink, target, KnobMessage::GestureStarted);
    deck.knob(&mut sink, target, KnobMessage::ValueChanged { value: 0.25 });
    deck.knob(&mut sink, target, KnobMessage::ValueChanged { value: 0.5 });
    deck.knob(&mut sink, target, KnobMessage::GestureEnded);
    assert_eq!(deck.value, 0.5);
    assert_eq!(sink.inner.events, ["begin", "value", "value", "end"]);

    deck.knob(&mut sink, target, KnobMessage::KeyboardGesture { value: Some(0.75) });
    deck.knob(&mut sink, target, KnobMessage::Reset { value: 0.0 });
    assert_eq!(sink.inner.events.len(), 10);
    assert_eq!(deck.value, 0.0);
}

#[test]
fn knob_moves_outside_a_gesture_are_ignored() {
    let mut sink = HostSink::new(QueueSink::new(64));
    let mut deck = Deck::new(0.2);
    let calls = deck.knob(&mut sink, NumericEntryTarget::Mix, KnobMessage::ValueChanged { value: 0.9 });
    assert!(calls.is_empty());
    assert_eq!(deck.value, 0.2);
    let refused = deck.knob(&mut HostSink::new(QueueSink::new(0)), NumericEntryTarget::Mix, KnobMessage::GestureStarted);
    assert_eq!(refused, vec![SinkCall::GestureStarted { target: NumericEntryTarget::Mix, accepted: false }]);
    assert!(deck.active.is_none());
    assert_eq!(deck.history.undo_len(), 0);
}

#[test]
fn history_shortcut_characters() {
    assert_eq!(history_shortcut_for_character('u', false, true, true), Some(HistoryShortcut::Undo));
    assert_eq!(history_shortcut_for_character('U', false, true, true), Some(HistoryShortcut::Redo));
    assert_eq!(history_shortcut_for_character('U', false, true, false), None);
    assert_eq!(history_shortcut_for_character('x', false, true, true), None);
    assert_eq!(history_shortcut_for_character('u', true, true, true), None);
}

#[test]
fn history_keeps_at_most_the_limit() {
    let mut history: EditHistory<u32> = EditHistory::new();
    for value in 0..200 {
        history.push_history_snapshot(value);
    }
    assert_eq!(history.undo_len(), pump::history::HISTORY_LIMIT);
    assert_eq!(history.undo(1000), Some(199));
    assert_eq!(history.redo(7), Some(1000));
    assert_eq!(history.undo(8), Some(7));
}

/// A host that takes bypass edits while it has room for a full edit.
struct BypassHost {
    room: usize,
    sent: Vec<bool>,
}

impl HostParamEditSink<BypassParam, bool> for BypassHost {
    fn edit(&mut self, _target: BypassParam, value: bool) -> bool {
        if self.room < 3 {
            return false;
        }
        self.room -= 3;
        self.sent.push(value);
        true
    }

    fn gesture_started(&mut self, _target: BypassParam) -> bool {
        false
    }

    fn gesture_value(&mut self, _target: BypassParam, _value: bool) -> bool {
        false
    }

    fn gesture_ended(&mut self, _target: BypassParam) -> bool {
        false
    }
}

#[test]
fn bypass_toggle_sends_one_complete_edit_and_flips_when_accepted() {
    let mut host = HostSink::new(BypassHost { room: 6, sent: Vec::new() });
    let mut bypassed = false;
    let call = try_toggle_bypass(&mut bypassed, &mut host);
    assert_eq!(call, SinkCall::Edit { target: BypassParam, value: true, accepted: true });
    assert!(bypassed);
    let call = try_toggle_bypass(&mut bypassed, &mut host);
    assert_eq!(call, SinkCall::Edit { target: BypassParam, value: false, accepted: true });
    assert!(!bypassed);
    assert_eq!(host.inner.sent, vec![true, false]);
}

#[test]
fn bypass_toggle_keeps_state_when_the_edit_cannot_fit() {
    let mut host = HostSink::new(BypassHost { room: 2, sent: Vec::new() });
    let mut bypassed = false;
    let call = try_toggle_bypass(&mut bypassed, &mut host);
    assert_eq!(call, SinkCall::Edit { target: BypassParam, value: true, accepted: false });
    assert!(!bypassed);
    assert!(host.inner.sent.is_empty());
}
