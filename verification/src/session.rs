use vstd::prelude::*;
use crate::chrome::{spec_chrome_message, ChromeMessage, EditorChromeState, TimingMode};
use crate::deck::{spec_knob_applied, spec_sound_message, spec_sync_division_selected, spec_timing_mode_toggled};
use crate::editor::{
    spec_editor_curve_message, spec_editor_redo, spec_editor_undo, spec_translator_ok, CurveEditorState,
    CurvePreviewMessage,
    PhaseOffsetParam,
};
use crate::header::{CurveSlotMessage, SoundMessage, SoundSide};
use crate::knob::{
    spec_knob_message, strip, try_toggle_bypass, BypassParam, HostParamEditSink, HostSink, KnobMessage, KnobOutcome,
    SinkCall,
};
use crate::numeric_entry::{
    reduce_numeric_entry_message, spec_numeric_entry_message, NumericEntryMessage, NumericEntryState,
    NumericEntryTarget,
};
use crate::slots::{reduce_curve_slot_message, spec_curve_slot_message, CurveSlotBank};
use crate::curve::EditableCurve;
use crate::screen::Point;

verus! {

/// Everything the editor keeps: the curve editor with the deck values and
/// history, the header, the knob gesture in progress, the value being typed,
/// the host bypass switch and the stored-curve slots.
pub struct EditorState {
    pub editor: CurveEditorState,
    pub chrome: EditorChromeState,
    pub active_knob: Option<NumericEntryTarget>,
    pub numeric_entry: Option<NumericEntryState>,
    pub bypassed: bool,
    pub slots: CurveSlotBank,
}

impl EditorState {
    /// The parts are well formed, and the header shows the deck's timing mode.
    pub open spec fn wf(&self) -> bool {
        &&& self.editor.wf()
        &&& self.slots.wf()
        &&& self.chrome.timing_mode == self.editor.deck.timing_mode
    }
}

/// A message to the editor.
pub enum EditorMessage {
    Undo,
    Redo,
    Chrome(ChromeMessage),
    Knob { target: NumericEntryTarget, message: KnobMessage<u32> },
    SyncDivision { division: u32, max_division: u32 },
    Sound(SoundMessage),
    ToggleBypass,
    Curve(CurvePreviewMessage),
    CurveSlot(CurveSlotMessage),
    NumericEntry { message: NumericEntryMessage, begin_draft: String, committed: Option<u32> },
}

/// The host parameters the editor sets besides the knobs, the bypass switch
/// and the phase offset.
#[derive(Clone, Copy, Debug, PartialEq, Eq, Structural)]
pub enum DeckParam {
    TimingMode,
    SyncDivision,
    Sound,
}

/// A value of one of the `DeckParam` parameters.
#[derive(Clone, Copy, Debug, PartialEq, Eq, Structural)]
pub enum DeckValue {
    TimingMode(TimingMode),
    SyncDivision(u32),
    Sound(SoundSide),
}

/// The host ends the editor talks to, each with the log of what it was
/// handed: knob values, the bypass switch, the phase offset and the other
/// deck parameters.
pub struct EditorHost<K, B, Q, D> {
    pub knobs: HostSink<NumericEntryTarget, u32, K>,
    pub bypass: HostSink<BypassParam, bool, B>,
    pub phase: HostSink<PhaseOffsetParam, u32, Q>,
    pub deck: HostSink<DeckParam, DeckValue, D>,
}

impl<
    K: HostParamEditSink<NumericEntryTarget, u32>,
    B: HostParamEditSink<BypassParam, bool>,
    Q: HostParamEditSink<PhaseOffsetParam, u32>,
    D: HostParamEditSink<DeckParam, DeckValue>,
> EditorHost<K, B, Q, D> {
    /// The four host ends, with nothing sent yet.
    pub fn new(knobs: K, bypass: B, phase: Q, deck: D) -> (host: Self)
        ensures
            host.knobs.inner == knobs,
            host.bypass.inner == bypass,
            host.phase.inner == phase,
            host.deck.inner == deck,
            host.knobs.sent@.len() == 0,
            host.bypass.sent@.len() == 0,
            host.phase.sent@.len() == 0,
            host.deck.sent@.len() == 0,
    {
        EditorHost {
            knobs: HostSink::new(knobs),
            bypass: HostSink::new(bypass),
            phase: HostSink::new(phase),
            deck: HostSink::new(deck),
        }
    }
}

/// What a message made the editor tell the host or apply: the knob outcome,
/// the bypass edit, the phase offset calls, the new timing mode, the new
/// active sound, the edit of another deck parameter, the typed value that was
/// applied and the edit that sent it.
pub struct EditorEffects {
    pub knob: Option<KnobOutcome<u32>>,
    pub bypass_call: Option<SinkCall<BypassParam, bool>>,
    pub phase_calls: Vec<SinkCall<PhaseOffsetParam, u32>>,
    pub timing_mode_update: Option<TimingMode>,
    pub sound_update: Option<SoundSide>,
    pub deck_call: Option<SinkCall<DeckParam, DeckValue>>,
    pub numeric_apply: Option<(NumericEntryTarget, u32)>,
    pub numeric_call: Option<SinkCall<NumericEntryTarget, u32>>,
}

/// The message reported nothing and sent nothing.
pub open spec fn spec_quiet_effects(e: EditorEffects) -> bool {
    &&& e.knob is None
    &&& e.bypass_call is None
    &&& e.phase_calls@.len() == 0
    &&& e.timing_mode_update is None
    &&& e.sound_update is None
    &&& e.deck_call is None
    &&& e.numeric_apply is None
    &&& e.numeric_call is None
}

/// The call, if any, as a sequence.
pub open spec fn opt_seq<T>(o: Option<T>) -> Seq<T> {
    match o {
        Some(c) => seq![c],
        None => Seq::empty(),
    }
}

/// The knob-value calls the effects report: those of the knob outcome, then
/// the edit of a typed value.
pub open spec fn knob_calls(e: EditorEffects) -> Seq<SinkCall<NumericEntryTarget, u32>> {
    let outcome_calls = match e.knob {
        Some(o) => o.calls@,
        None => Seq::empty(),
    };
    outcome_calls + opt_seq(e.numeric_call)
}

/// Each host end of `after` was handed, after what `before`'s was, exactly
/// the calls `e` reports for it, in order.
pub open spec fn spec_host_log<K, B, Q, D>(
    before: EditorHost<K, B, Q, D>,
    after: EditorHost<K, B, Q, D>,
    e: EditorEffects,
) -> bool {
    &&& after.knobs.sent@ == before.knobs.sent@ + knob_calls(e)
    &&& after.bypass.sent@ == before.bypass.sent@ + opt_seq(e.bypass_call)
    &&& after.phase.sent@ == before.phase.sent@ + e.phase_calls@
    &&& after.deck.sent@ == before.deck.sent@ + opt_seq(e.deck_call)
}

/// `c` is one complete edit of `target` to `value`, whatever the host replied.
pub open spec fn is_edit<P, V>(c: Option<SinkCall<P, V>>, target: P, value: V) -> bool {
    c matches Some(call) && strip(call) == (SinkCall::Edit { target, value, accepted: true })
}

/// The editor after `message`, and what it reported and sent.
///
/// Undo and redo drop a paint stroke in progress and then act as
/// `spec_editor_undo` and `spec_editor_redo` say. Switching the timing mode
/// records an undo step, closes the timing dropdown and sends the new mode to
/// the host; the other header messages only change the header. A knob message
/// is reduced and its outcome applied; a sync division is selected with an
/// undo step, closes the dropdown and is sent to the host; sound messages act
/// as `spec_sound_message` says and send the new active sound when it
/// changed; the bypass switch is sent one complete edit to the other state and
/// flipped when the host takes it, without an undo step; curve messages act as
/// `spec_editor_curve_message` says; slot messages as `spec_curve_slot_message`
/// says; and a typed value that commits is stored without an undo step and
/// sent to the host. The header always shows the deck's timing mode. What is
/// sent goes to the host ends as `spec_host_log` says; nothing else is sent.
pub open spec fn spec_editor_message<F: Fn(u32) -> u32, M: Fn(&EditableCurve, usize, Point, Point) -> EditableCurve>(
    b: EditorState,
    a: EditorState,
    message: EditorMessage,
    snap: F,
    translate: M,
    e: EditorEffects,
) -> bool {
    let synced = EditorChromeState { timing_mode: a.editor.deck.timing_mode, ..b.chrome };
    let unpainted = CurveEditorState { active_curve_paint: None, ..b.editor };
    let no_deck_or_typed = e.deck_call is None && e.numeric_apply is None && e.numeric_call is None;
    match message {
        EditorMessage::Undo => {
            &&& spec_editor_undo(unpainted, a.editor, b.editor.history.undo_seq().len() > 0)
            &&& a == EditorState { editor: a.editor, chrome: synced, ..b }
            &&& spec_quiet_effects(e)
        },
        EditorMessage::Redo => {
            &&& spec_editor_redo(unpainted, a.editor, b.editor.history.redo_seq().len() > 0)
            &&& a == EditorState { editor: a.editor, chrome: synced, ..b }
            &&& spec_quiet_effects(e)
        },
        EditorMessage::Chrome(m) => match m {
            ChromeMessage::ToggleTimingMode => {
                &&& spec_timing_mode_toggled(b.editor, a.editor)
                &&& a == EditorState {
                    editor: a.editor,
                    chrome: spec_chrome_message(b.chrome, m).0,
                    ..b
                }
                &&& e.timing_mode_update == Some(a.editor.deck.timing_mode)
                &&& is_edit(e.deck_call, DeckParam::TimingMode, DeckValue::TimingMode(a.editor.deck.timing_mode))
                &&& e.knob is None && e.bypass_call is None && e.phase_calls@.len() == 0
                &&& e.sound_update is None && e.numeric_apply is None && e.numeric_call is None
            },
            _ => {
                &&& a == EditorState { chrome: spec_chrome_message(b.chrome, m).0, ..b }
                &&& spec_quiet_effects(e)
            },
        },
        EditorMessage::Knob { target, message } => {
            &&& e.knob matches Some(o) && spec_knob_message(b.active_knob, a.active_knob, target, message, o)
                && spec_knob_applied(b.editor, a.editor, target, o.push_history, o.set_value)
            &&& a == EditorState { editor: a.editor, active_knob: a.active_knob, chrome: synced, ..b }
            &&& e.bypass_call is None && e.phase_calls@.len() == 0 && e.timing_mode_update is None
            &&& e.sound_update is None && no_deck_or_typed
        },
        EditorMessage::SyncDivision { division, max_division } => {
            &&& spec_sync_division_selected(b.editor, a.editor, division, max_division)
            &&& a == EditorState {
                editor: a.editor,
                chrome: EditorChromeState { timing_dropdown_open: false, ..synced },
                ..b
            }
            &&& is_edit(e.deck_call, DeckParam::SyncDivision, DeckValue::SyncDivision(a.editor.deck.sync_division))
            &&& e.knob is None && e.bypass_call is None && e.phase_calls@.len() == 0
            &&& e.timing_mode_update is None && e.sound_update is None
            &&& e.numeric_apply is None && e.numeric_call is None
        },
        EditorMessage::Sound(m) => {
            &&& spec_sound_message(b.editor, a.editor, m, e.sound_update)
            &&& a == EditorState { editor: a.editor, chrome: synced, ..b }
            &&& match e.sound_update {
                Some(side) => is_edit(e.deck_call, DeckParam::Sound, DeckValue::Sound(side)),
                None => e.deck_call is None,
            }
            &&& e.knob is None && e.bypass_call is None && e.phase_calls@.len() == 0
            &&& e.timing_mode_update is None && e.numeric_apply is None && e.numeric_call is None
        },
        EditorMessage::ToggleBypass => {
            &&& is_edit(e.bypass_call, BypassParam, !b.bypassed)
            &&& a.bypassed == if e.bypass_call->0.accepted() {
                !b.bypassed
            } else {
                b.bypassed
            }
            &&& a == EditorState { bypassed: a.bypassed, ..b }
            &&& e.knob is None && e.phase_calls@.len() == 0 && e.timing_mode_update is None
            &&& e.sound_update is None && no_deck_or_typed
        },
        EditorMessage::Curve(m) => {
            &&& spec_editor_curve_message(b.editor, a.editor, m, snap, translate, e.phase_calls@)
            &&& a == EditorState { editor: a.editor, chrome: synced, ..b }
            &&& e.knob is None && e.bypass_call is None && e.timing_mode_update is None
            &&& e.sound_update is None && no_deck_or_typed
        },
        EditorMessage::CurveSlot(m) => {
            &&& spec_curve_slot_message(b.editor, a.editor, b.slots, a.slots, m)
            &&& a == EditorState { editor: a.editor, slots: a.slots, chrome: synced, ..b }
            &&& spec_quiet_effects(e)
        },
        EditorMessage::NumericEntry { message, begin_draft, committed } => {
            &&& spec_numeric_entry_message(
                b.numeric_entry,
                a.numeric_entry,
                message,
                begin_draft@,
                committed,
                e.numeric_apply,
            )
            &&& match e.numeric_apply {
                Some((t, v)) => spec_knob_applied(b.editor, a.editor, t, false, Some(v)) && is_edit(
                    e.numeric_call,
                    t,
                    v,
                ),
                None => a.editor == b.editor && e.numeric_call is None,
            }
            &&& a == EditorState { editor: a.editor, numeric_entry: a.numeric_entry, chrome: synced, ..b }
            &&& e.knob is None && e.bypass_call is None && e.phase_calls@.len() == 0
            &&& e.timing_mode_update is None && e.sound_update is None && e.deck_call is None
        },
    }
}

fn quiet() -> (e: EditorEffects)
    ensures
        spec_quiet_effects(e),
{
    EditorEffects {
        knob: None,
        bypass_call: None,
        phase_calls: Vec::new(),
        timing_mode_update: None,
        sound_update: None,
        deck_call: None,
        numeric_apply: None,
        numeric_call: None,
    }
}

impl EditorState {
    fn sync_timing_mode(&mut self)
        ensures
            *final(self) == (EditorState {
                chrome: EditorChromeState { timing_mode: old(self).editor.deck.timing_mode, ..old(self).chrome },
                ..*old(self)
            }),
    {
        self.chrome.timing_mode = self.editor.deck.timing_mode;
    }

    fn on_history(&mut self, redo: bool) -> (e: EditorEffects)
        requires
            old(self).wf(),
        ensures
            final(self).wf(),
            redo ==> spec_editor_message(*old(self), *final(self), EditorMessage::Redo, |x: u32| x, |c: &EditableCurve, i: usize, p: Point, q: Point| *c, e),
            !redo ==> spec_editor_message(*old(self), *final(self), EditorMessage::Undo, |x: u32| x, |c: &EditableCurve, i: usize, p: Point, q: Point| *c, e),
    {
        if redo {
            self.editor.handle_redo();
        } else {
            self.editor.handle_undo();
        }
        self.sync_timing_mode();
        quiet()
    }

    fn on_chrome<D: HostParamEditSink<DeckParam, DeckValue>>(
        &mut self,
        m: ChromeMessage,
        deck: &mut HostSink<DeckParam, DeckValue, D>,
    ) -> (e: EditorEffects)
        requires
            old(self).wf(),
        ensures
            final(self).wf(),
            spec_editor_message(*old(self), *final(self), EditorMessage::Chrome(m), |x: u32| x, |c: &EditableCurve, i: usize, p: Point, q: Point| *c, e),
            final(deck).sent@ == old(deck).sent@ + opt_seq(e.deck_call),
    {
        match m {
            ChromeMessage::ToggleTimingMode => {
                let mode = self.editor.toggle_timing_mode();
                self.chrome.reduce(m);
                let accepted = deck.edit(DeckParam::TimingMode, DeckValue::TimingMode(mode));
                let call = SinkCall::Edit { target: DeckParam::TimingMode, value: DeckValue::TimingMode(mode), accepted };
                let e = EditorEffects { timing_mode_update: Some(mode), deck_call: Some(call), ..quiet() };
                assert(deck.sent@ =~= old(deck).sent@ + opt_seq(e.deck_call));
                e
            },
            _ => {
                self.chrome.reduce(m);
                let e = quiet();
                assert(deck.sent@ + opt_seq(e.deck_call) =~= deck.sent@);
                e
            },
        }
    }

    fn on_knob<K: HostParamEditSink<NumericEntryTarget, u32>>(
        &mut self,
        target: NumericEntryTarget,
        message: KnobMessage<u32>,
        knobs: &mut HostSink<NumericEntryTarget, u32, K>,
    ) -> (e: EditorEffects)
        requires
            old(self).wf(),
        ensures
            final(self).wf(),
            spec_editor_message(*old(self), *final(self), EditorMessage::Knob { target, message }, |x: u32| x, |c: &EditableCurve, i: usize, p: Point, q: Point| *c, e),
            final(knobs).sent@ == old(knobs).sent@ + knob_calls(e),
    {
        let outcome = self.editor.reduce_knob(&mut self.active_knob, knobs, target, message);
        self.sync_timing_mode();
        let e = EditorEffects { knob: Some(outcome), ..quiet() };
        assert(knob_calls(e) =~= outcome.calls@);
        e
    }

    fn on_sync_division<D: HostParamEditSink<DeckParam, DeckValue>>(
        &mut self,
        division: u32,
        max_division: u32,
        deck: &mut HostSink<DeckParam, DeckValue, D>,
    ) -> (e: EditorEffects)
        requires
            old(self).wf(),
        ensures
            final(self).wf(),
            spec_editor_message(
                *old(self),
                *final(self),
                EditorMessage::SyncDivision { division, max_division },
                |x: u32| x,
                |c: &EditableCurve, i: usize, p: Point, q: Point| *c,
                e,
            ),
            final(deck).sent@ == old(deck).sent@ + opt_seq(e.deck_call),
    {
        self.editor.select_sync_division(division, max_division);
        self.chrome.timing_dropdown_open = false;
        self.sync_timing_mode();
        let value = DeckValue::SyncDivision(self.editor.deck.sync_division);
        let accepted = deck.edit(DeckParam::SyncDivision, value);
        let e = EditorEffects {
            deck_call: Some(SinkCall::Edit { target: DeckParam::SyncDivision, value, accepted }),
            ..quiet()
        };
        assert(deck.sent@ =~= old(deck).sent@ + opt_seq(e.deck_call));
        e
    }

    fn on_sound<D: HostParamEditSink<DeckParam, DeckValue>>(
        &mut self,
        m: SoundMessage,
        deck: &mut HostSink<DeckParam, DeckValue, D>,
    ) -> (e: EditorEffects)
        requires
            old(self).wf(),
        ensures
            final(self).wf(),
            spec_editor_message(*old(self), *final(self), EditorMessage::Sound(m), |x: u32| x, |c: &EditableCurve, i: usize, p: Point, q: Point| *c, e),
            final(deck).sent@ == old(deck).sent@ + opt_seq(e.deck_call),
    {
        let update = self.editor.reduce_sound_message(m);
        self.sync_timing_mode();
        match update {
            Some(side) => {
                let accepted = deck.edit(DeckParam::Sound, DeckValue::Sound(side));
                let call = SinkCall::Edit { target: DeckParam::Sound, value: DeckValue::Sound(side), accepted };
                let e = EditorEffects { sound_update: update, deck_call: Some(call), ..quiet() };
                assert(deck.sent@ =~= old(deck).sent@ + opt_seq(e.deck_call));
                e
            },
            None => {
                let e = quiet();
                assert(deck.sent@ + opt_seq(e.deck_call) =~= deck.sent@);
                e
            },
        }
    }

    fn on_bypass<B: HostParamEditSink<BypassParam, bool>>(
        &mut self,
        bypass: &mut HostSink<BypassParam, bool, B>,
    ) -> (e: EditorEffects)
        requires
            old(self).wf(),
        ensures
            final(self).wf(),
            spec_editor_message(*old(self), *final(self), EditorMessage::ToggleBypass, |x: u32| x, |c: &EditableCurve, i: usize, p: Point, q: Point| *c, e),
            final(bypass).sent@ == old(bypass).sent@ + opt_seq(e.bypass_call),
    {
        let call = try_toggle_bypass(&mut self.bypassed, bypass);
        let e = EditorEffects { bypass_call: Some(call), ..quiet() };
        assert(bypass.sent@ =~= old(bypass).sent@ + opt_seq(e.bypass_call));
        e
    }

    fn on_curve<F: Fn(u32) -> u32, M: Fn(&EditableCurve, usize, Point, Point) -> EditableCurve, Q: HostParamEditSink<PhaseOffsetParam, u32>>(
        &mut self,
        m: CurvePreviewMessage,
        snap: &F,
        translate: &M,
        phase: &mut HostSink<PhaseOffsetParam, u32, Q>,
    ) -> (e: EditorEffects)
        requires
            old(self).wf(),
            forall|x: u32| call_requires(*snap, (x,)),
            spec_translator_ok(*translate),
        ensures
            final(self).wf(),
            spec_editor_message(*old(self), *final(self), EditorMessage::Curve(m), *snap, *translate, e),
            final(phase).sent@ == old(phase).sent@ + e.phase_calls@,
    {
        let calls = self.editor.reduce_editor_curve_message(m, snap, translate, phase);
        self.sync_timing_mode();
        EditorEffects { phase_calls: calls, ..quiet() }
    }

    fn on_curve_slot(&mut self, m: CurveSlotMessage) -> (e: EditorEffects)
        requires
            old(self).wf(),
        ensures
            final(self).wf(),
            spec_editor_message(*old(self), *final(self), EditorMessage::CurveSlot(m), |x: u32| x, |c: &EditableCurve, i: usize, p: Point, q: Point| *c, e),
    {
        reduce_curve_slot_message(&mut self.editor, &mut self.slots, m);
        self.sync_timing_mode();
        quiet()
    }

    fn on_numeric_entry<K: HostParamEditSink<NumericEntryTarget, u32>>(
        &mut self,
        message: NumericEntryMessage,
        begin_draft: String,
        committed: Option<u32>,
        knobs: &mut HostSink<NumericEntryTarget, u32, K>,
    ) -> (e: EditorEffects)
        requires
            old(self).wf(),
        ensures
            final(self).wf(),
            spec_editor_message(
                *old(self),
                *final(self),
                EditorMessage::NumericEntry { message, begin_draft, committed },
                |x: u32| x,
                |c: &EditableCurve, i: usize, p: Point, q: Point| *c,
                e,
            ),
            final(knobs).sent@ == old(knobs).sent@ + knob_calls(e),
    {
        let apply = reduce_numeric_entry_message(&mut self.numeric_entry, message, begin_draft, committed);
        let call = match apply {
            Some((target, value)) => {
                self.editor.apply_numeric_entry_value(target, value);
                let accepted = knobs.edit(target, value);
                Some(SinkCall::Edit { target, value, accepted })
            },
            None => None,
        };
        self.sync_timing_mode();
        let e = EditorEffects { numeric_apply: apply, numeric_call: call, ..quiet() };
        assert(knob_calls(e) =~= opt_seq(call));
        assert(knobs.sent@ =~= old(knobs).sent@ + knob_calls(e));
        e
    }

    /// Reduce one editor message (see `spec_editor_message`), with `snap` for
    /// beat-grid snapping, `translate` for moving a segment's pair of nodes,
    /// and `host` receiving the parameter edits (see `spec_host_log`).
    pub fn reduce_editor_message<
        F: Fn(u32) -> u32,
        M: Fn(&EditableCurve, usize, Point, Point) -> EditableCurve,
        K: HostParamEditSink<NumericEntryTarget, u32>,
        B: HostParamEditSink<BypassParam, bool>,
        Q: HostParamEditSink<PhaseOffsetParam, u32>,
        D: HostParamEditSink<DeckParam, DeckValue>,
    >(
        &mut self,
        message: EditorMessage,
        snap: &F,
        translate: &M,
        host: &mut EditorHost<K, B, Q, D>,
    ) -> (effects: EditorEffects)
        requires
            old(self).wf(),
            forall|x: u32| call_requires(*snap, (x,)),
            spec_translator_ok(*translate),
        ensures
            final(self).wf(),
            spec_editor_message(*old(self), *final(self), message, *snap, *translate, effects),
            spec_host_log(*old(host), *final(host), effects),
    {
        let ghost h0 = *host;
        let e = match message {
            EditorMessage::Undo => self.on_history(false),
            EditorMessage::Redo => self.on_history(true),
            EditorMessage::Chrome(m) => self.on_chrome(m, &mut host.deck),
            EditorMessage::Knob { target, message } => self.on_knob(target, message, &mut host.knobs),
            EditorMessage::SyncDivision { division, max_division } => self.on_sync_division(
                division,
                max_division,
                &mut host.deck,
            ),
            EditorMessage::Sound(m) => self.on_sound(m, &mut host.deck),
            EditorMessage::ToggleBypass => self.on_bypass(&mut host.bypass),
            EditorMessage::Curve(m) => self.on_curve(m, snap, translate, &mut host.phase),
            EditorMessage::CurveSlot(m) => self.on_curve_slot(m),
            EditorMessage::NumericEntry { message, begin_draft, committed } => self.on_numeric_entry(
                message,
                begin_draft,
                committed,
                &mut host.knobs,
            ),
        };
        proof {
            assert(h0.knobs.sent@ + Seq::<SinkCall<NumericEntryTarget, u32>>::empty() =~= h0.knobs.sent@);
            assert(h0.bypass.sent@ + Seq::<SinkCall<BypassParam, bool>>::empty() =~= h0.bypass.sent@);
            assert(h0.phase.sent@ + Seq::<SinkCall<PhaseOffsetParam, u32>>::empty() =~= h0.phase.sent@);
            assert(h0.deck.sent@ + Seq::<SinkCall<DeckParam, DeckValue>>::empty() =~= h0.deck.sent@);
            assert(knob_calls(e).len() == 0 ==> knob_calls(e) =~= Seq::<SinkCall<NumericEntryTarget, u32>>::empty());
            assert(e.phase_calls@.len() == 0 ==> e.phase_calls@ =~= Seq::<SinkCall<PhaseOffsetParam, u32>>::empty());
        }
        e
    }
}

} // verus!
