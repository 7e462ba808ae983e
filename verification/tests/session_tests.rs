use pump::chrome::{ChromeMessage, EditorChromeState, TimingMode};
use pump::curve::{CurveNode, CurveSegment, EditableCurve, UNIT};
use pump::screen::Point;
use pump::editor::{CurveEditorState, CurvePreviewMessage, DeckParams, PhaseOffsetParam};
use pump::header::{CurveSlotMessage, SoundMessage, SoundSide};
use pump::knob::{BypassParam, HostParamEditSink, KnobMessage, SinkCall};
use pump::numeric_entry::{FreeRateUnit, NumericEntryMessage, NumericEntryTarget};
use pump::session::{DeckParam, DeckValue, EditorHost, EditorMessage, EditorState};
use pump::slots::CurveSlotBank;

/// A host end that accepts every event and keeps what it was handed.
struct Recorder<P, V> {
    calls: Vec<SinkCall<P, V>>,
}

impl<P, V> Recorder<P, V> {
    fn new() -> Self {
        Recorder { calls: Vec::new() }
    }
}

impl<P, V> HostParamEditSink<P, V> for Recorder<P, V> {
    fn edit(&mut self, target: P, value: V) -> bool {
        self.calls.push(SinkCall::Edit { target, value, accepted: true });
        true
    }
    fn gesture_started(&mut self, target: P) -> bool {
        self.calls.push(SinkCall::GestureStarted { target, accepted: true });
        true
    }
    fn gesture_value(&mut self, target: P, value: V) -> bool {
        self.calls.push(SinkCall::GestureValue { target, value, accepted: true });
        true
    }
    fn gesture_ended(&mut self, target: P) -> bool {
        self.calls.push(SinkCall::GestureEnded { target, accepted: true });
        true
    }
}

type Host = EditorHost<
    Recorder<NumericEntryTarget, u32>,
    Recorder<BypassParam, bool>,
    Recorder<PhaseOffsetParam, u32>,
    Recorder<DeckParam, DeckValue>,
>;

fn host() -> Host {
    EditorHost::new(Recorder::new(), Recorder::new(), Recorder::new(), Recorder::new())
}

fn nothing_sent(h: &Host) -> bool {
    h.knobs.inner.calls.is_empty()
        && h.bypass.inner.calls.is_empty()
        && h.phase.inner.calls.is_empty()
        && h.deck.inner.calls.is_empty()
}

fn no_snap(x: u32) -> u32 {
    x
}

fn move_pair(curve: &EditableCurve, _index: usize, _start: Point, _current: Point) -> EditableCurve {
    curve.clone()
}

fn state() -> EditorState {
    let points = [(0, UNIT), (100_000, 300_000), (500_000, 700_000), (UNIT, UNIT)];
    let curve = EditableCurve {
        nodes: points.iter().map(|&(x, y)| CurveNode { x, y }).collect(),
        segments: vec![CurveSegment { tension: 0 }; points.len() - 1],
    };
    let deck = DeckParams {
        mix: UNIT,
        smooth: 0,
        swing: 0,
        depth: 120_000,
        floor: 0,
        output_gain: 0,
        sync_division: 4,
        timing_mode: TimingMode::Sync,
    };
    EditorState {
        editor: CurveEditorState::new(curve, 0, deck, 2_000),
        chrome: EditorChromeState {
            timing_mode: TimingMode::Sync,
            timing_dropdown_open: true,
            hotkey_help_open: false,
            free_rate_unit: FreeRateUnit::Hertz,
            waveform_live: true,
        },
        active_knob: None,
        numeric_entry: None,
        bypassed: false,
        slots: CurveSlotBank::new(8),
    }
}

fn send(s: &mut EditorState, h: &mut Host, message: EditorMessage) -> pump::session::EditorEffects {
    s.reduce_editor_message(message, &no_snap, &move_pair, h)
}

#[test]
fn editor_undoes_knob_timing_and_sound_edits_in_order() {
    let mut s = state();
    let mut h = host();
    let knob = |message| EditorMessage::Knob { target: NumericEntryTarget::Mix, message };
    send(&mut s, &mut h, knob(KnobMessage::GestureStarted));
    send(&mut s, &mut h, knob(KnobMessage::ValueChanged { value: 200_000 }));
    send(&mut s, &mut h, knob(KnobMessage::GestureEnded));
    let effects = send(&mut s, &mut h, EditorMessage::Chrome(ChromeMessage::ToggleTimingMode));
    assert_eq!(effects.timing_mode_update, Some(TimingMode::Free));
    assert!(!s.chrome.timing_dropdown_open);
    send(&mut s, &mut h, EditorMessage::Sound(SoundMessage::CopyAndSelectSound(SoundSide::B)));
    assert_eq!(s.editor.active_sound, SoundSide::B);

    send(&mut s, &mut h, EditorMessage::Undo);
    assert_eq!(s.editor.active_sound, SoundSide::A);
    send(&mut s, &mut h, EditorMessage::Undo);
    assert_eq!(s.editor.deck.timing_mode, TimingMode::Sync);
    assert_eq!(s.chrome.timing_mode, TimingMode::Sync);
    send(&mut s, &mut h, EditorMessage::Undo);
    assert_eq!(s.editor.deck.mix, UNIT);
    send(&mut s, &mut h, EditorMessage::Redo);
    assert_eq!(s.editor.deck.mix, 200_000);
}

#[test]
fn editor_bypass_stays_out_of_undo_history() {
    let mut s = state();
    let mut h = host();
    let effects = send(&mut s, &mut h, EditorMessage::ToggleBypass);
    assert_eq!(effects.bypass_call, Some(SinkCall::Edit { target: BypassParam, value: true, accepted: true }));
    assert!(s.bypassed);
    assert_eq!(s.editor.history.undo_len(), 0);
    send(&mut s, &mut h, EditorMessage::Undo);
    assert!(s.bypassed);
    assert_eq!(h.bypass.inner.calls, vec![SinkCall::Edit { target: BypassParam, value: true, accepted: true }]);
    assert!(h.knobs.inner.calls.is_empty() && h.phase.inner.calls.is_empty() && h.deck.inner.calls.is_empty());
}

#[test]
fn editor_routes_curve_slot_and_typed_value_messages() {
    let mut s = state();
    let mut h = host();
    send(&mut s, &mut h, EditorMessage::Curve(CurvePreviewMessage::DeleteNode { index: 1 }));
    assert_eq!(s.editor.curve.nodes.len(), 3);
    assert_eq!(s.editor.history.undo_len(), 1);
    send(&mut s, &mut h, EditorMessage::CurveSlot(CurveSlotMessage::Store { index: 0 }));
    assert_eq!(s.slots.loaded, Some(0));

    send(&mut s, &mut h, EditorMessage::NumericEntry {
        message: NumericEntryMessage::Begin { target: NumericEntryTarget::Swing },
        begin_draft: "0%".to_string(),
        committed: None,
    });
    let effects = send(&mut s, &mut h, EditorMessage::NumericEntry {
        message: NumericEntryMessage::Commit { target: NumericEntryTarget::Swing, draft: "40".to_string() },
        begin_draft: String::new(),
        committed: Some(400_000),
    });
    assert_eq!(effects.numeric_apply, Some((NumericEntryTarget::Swing, 400_000)));
    assert_eq!(s.editor.deck.swing, 400_000);
    assert!(s.numeric_entry.is_none());
    assert_eq!(s.editor.history.undo_len(), 1);

    send(&mut s, &mut h, EditorMessage::SyncDivision { division: 6, max_division: 7 });
    assert_eq!(s.editor.deck.sync_division, 6);
    assert_eq!(s.editor.history.undo_len(), 2);
    assert_eq!(
        h.knobs.inner.calls,
        vec![SinkCall::Edit { target: NumericEntryTarget::Swing, value: 400_000, accepted: true }]
    );
    assert_eq!(
        h.deck.inner.calls,
        vec![SinkCall::Edit { target: DeckParam::SyncDivision, value: DeckValue::SyncDivision(6), accepted: true }]
    );
}

#[test]
fn editor_sends_timing_mode_sync_division_and_sound_to_the_host() {
    let mut s = state();
    let mut h = host();
    send(&mut s, &mut h, EditorMessage::Chrome(ChromeMessage::ToggleTimingMode));
    send(&mut s, &mut h, EditorMessage::SyncDivision { division: 12, max_division: 7 });
    assert_eq!(s.editor.deck.sync_division, 7);
    send(&mut s, &mut h, EditorMessage::Sound(SoundMessage::CopyAndSelectSound(SoundSide::B)));
    assert_eq!(
        h.deck.inner.calls,
        vec![
            SinkCall::Edit { target: DeckParam::TimingMode, value: DeckValue::TimingMode(TimingMode::Free), accepted: true },
            SinkCall::Edit { target: DeckParam::SyncDivision, value: DeckValue::SyncDivision(7), accepted: true },
            SinkCall::Edit { target: DeckParam::Sound, value: DeckValue::Sound(SoundSide::B), accepted: true },
        ]
    );
}

#[test]
fn editor_knob_reset_sends_one_complete_edit() {
    let mut s = state();
    let mut h = host();
    let knob = |message| EditorMessage::Knob { target: NumericEntryTarget::Mix, message };
    send(&mut s, &mut h, knob(KnobMessage::Reset { value: 250_000 }));
    assert_eq!(s.editor.deck.mix, 250_000);
    assert_eq!(
        h.knobs.inner.calls,
        vec![SinkCall::Edit { target: NumericEntryTarget::Mix, value: 250_000, accepted: true }]
    );
}

#[test]
fn editor_display_only_messages_send_nothing() {
    let mut s = state();
    let mut h = host();
    send(&mut s, &mut h, EditorMessage::Chrome(ChromeMessage::SelectFreeRateUnit(FreeRateUnit::Milliseconds)));
    assert_eq!(s.chrome.free_rate_unit, FreeRateUnit::Milliseconds);
    assert!(!s.chrome.timing_dropdown_open);
    send(&mut s, &mut h, EditorMessage::Chrome(ChromeMessage::ToggleHotkeyHelp));
    send(&mut s, &mut h, EditorMessage::Undo);
    send(&mut s, &mut h, EditorMessage::Redo);
    assert_eq!(s.editor.history.undo_len(), 0);
    assert!(nothing_sent(&h));
}

/// A parameter id as the host queue sees it.
#[derive(Clone, Copy, Debug, PartialEq)]
enum Id {
    Knob(NumericEntryTarget),
    Bypass,
    Phase,
    Deck(DeckParam),
}

/// One event in the host queue.
#[derive(Clone, Copy, Debug, PartialEq)]
enum Event {
    Begin(Id),
    Value(Id, i64),
    End(Id),
}

/// A host queue shared by the four host ends, holding at most `capacity`
/// events; an edit goes in whole or not at all.
struct Queue {
    capacity: usize,
    events: Vec<Event>,
}

struct QueueEnd<P, V> {
    queue: std::rc::Rc<std::cell::RefCell<Queue>>,
    id: fn(P) -> Id,
    value: fn(V) -> i64,
}

impl<P, V> HostParamEditSink<P, V> for QueueEnd<P, V> {
    fn edit(&mut self, target: P, value: V) -> bool {
        let id = (self.id)(target);
        let mut queue = self.queue.borrow_mut();
        if queue.events.len() + 3 > queue.capacity {
            return false;
        }
        let value = (self.value)(value);
        queue.events.extend([Event::Begin(id), Event::Value(id, value), Event::End(id)]);
        true
    }
    fn gesture_started(&mut self, target: P) -> bool {
        self.push(Event::Begin((self.id)(target)))
    }
    fn gesture_value(&mut self, target: P, value: V) -> bool {
        self.push(Event::Value((self.id)(target), (self.value)(value)))
    }
    fn gesture_ended(&mut self, target: P) -> bool {
        self.push(Event::End((self.id)(target)))
    }
}

impl<P, V> QueueEnd<P, V> {
    fn push(&mut self, event: Event) -> bool {
        let mut queue = self.queue.borrow_mut();
        if queue.events.len() >= queue.capacity {
            return false;
        }
        queue.events.push(event);
        true
    }
}

type QueueHost = EditorHost<
    QueueEnd<NumericEntryTarget, u32>,
    QueueEnd<BypassParam, bool>,
    QueueEnd<PhaseOffsetParam, u32>,
    QueueEnd<DeckParam, DeckValue>,
>;

fn queue_host(queue: &std::rc::Rc<std::cell::RefCell<Queue>>) -> QueueHost {
    EditorHost::new(
        QueueEnd { queue: queue.clone(), id: Id::Knob, value: |v: u32| v as i64 },
        QueueEnd { queue: queue.clone(), id: |_: BypassParam| Id::Bypass, value: |v: bool| v as i64 },
        QueueEnd { queue: queue.clone(), id: |_: PhaseOffsetParam| Id::Phase, value: |v: u32| v as i64 },
        QueueEnd {
            queue: queue.clone(),
            id: Id::Deck,
            value: |v: DeckValue| match v {
                DeckValue::TimingMode(TimingMode::Free) => 0,
                DeckValue::TimingMode(TimingMode::Sync) => 1,
                DeckValue::SyncDivision(d) => d as i64,
                DeckValue::Sound(SoundSide::A) => 0,
                DeckValue::Sound(SoundSide::B) => 1,
            },
        },
    )
}

fn shared_queue(capacity: usize) -> std::rc::Rc<std::cell::RefCell<Queue>> {
    std::rc::Rc::new(std::cell::RefCell::new(Queue { capacity, events: Vec::new() }))
}

#[test]
fn radiant_editor_reduces_slider_messages_to_params() {
    let queue = shared_queue(1024);
    let mut h = queue_host(&queue);
    let mut s = state();
    for (target, value) in [
        (NumericEntryTarget::Mix, 250_000),
        (NumericEntryTarget::OutputGain, 500_000),
        (NumericEntryTarget::Smooth, 500_000),
        (NumericEntryTarget::Swing, 500_000),
        (NumericEntryTarget::FreeRate, 500_000),
    ] {
        s.reduce_editor_message(
            EditorMessage::Knob { target, message: KnobMessage::Reset { value } },
            &no_snap,
            &move_pair,
            &mut h,
        );
    }
    s.reduce_editor_message(EditorMessage::SyncDivision { division: 7, max_division: 7 }, &no_snap, &move_pair, &mut h);

    assert_eq!(s.editor.deck.mix, 250_000);
    assert_eq!(s.editor.free_rate, 500_000);
    assert_eq!(s.editor.deck.output_gain, 500_000);
    assert_eq!(s.editor.deck.sync_division, 7);

    let events = &queue.borrow().events;
    assert_eq!(events.len(), 18);
    let value_ids: Vec<Id> = events
        .iter()
        .filter_map(|event| match event {
            Event::Value(id, _) => Some(*id),
            _ => None,
        })
        .collect();
    assert_eq!(
        value_ids,
        vec![
            Id::Knob(NumericEntryTarget::Mix),
            Id::Knob(NumericEntryTarget::OutputGain),
            Id::Knob(NumericEntryTarget::Smooth),
            Id::Knob(NumericEntryTarget::Swing),
            Id::Knob(NumericEntryTarget::FreeRate),
            Id::Deck(DeckParam::SyncDivision),
        ]
    );
}

#[test]
fn bypass_reducer_emits_complete_clap_gesture_and_stays_out_of_undo_history() {
    let queue = shared_queue(1024);
    let mut h = queue_host(&queue);
    let mut s = state();
    s.reduce_editor_message(EditorMessage::ToggleBypass, &no_snap, &move_pair, &mut h);
    assert!(s.bypassed);
    assert_eq!(s.editor.history.undo_len(), 0);
    s.reduce_editor_message(EditorMessage::Undo, &no_snap, &move_pair, &mut h);
    assert!(s.bypassed, "undo must never alter host bypass");

    let events = &queue.borrow().events;
    assert_eq!(events.len(), 3);
    let value = events.iter().find_map(|event| match event {
        Event::Value(id, value) => Some((*id, *value)),
        _ => None,
    });
    assert_eq!(value, Some((Id::Bypass, 1)));
}

#[test]
fn bypass_reducer_keeps_state_active_when_clap_gesture_cannot_fit() {
    let queue = shared_queue(3);
    queue.borrow_mut().events.push(Event::Value(Id::Knob(NumericEntryTarget::Mix), 250_000));
    let mut h = queue_host(&queue);
    let mut s = state();
    let effects = s.reduce_editor_message(EditorMessage::ToggleBypass, &no_snap, &move_pair, &mut h);
    assert!(!s.bypassed);
    assert_eq!(effects.bypass_call, Some(SinkCall::Edit { target: BypassParam, value: true, accepted: false }));
    assert_eq!(queue.borrow().events.len(), 1);
}
