use vstd::prelude::*;
use crate::chrome::TimingMode;
use crate::editor::{
    snapshots_view, sound_view, spec_editor_redo, spec_editor_undo, undoable_view, CurveEditorState, DeckParams,
    EditorView, SoundState, SoundView,
};
use crate::header::{plan_sound_message, spec_sound_action, SoundAction, SoundConfirmation, SoundMessage, SoundSide};
use crate::history::{history_shortcut_for_character, spec_bounded_push, spec_history_shortcut, HistoryShortcut};
use crate::knob::{reduce_knob_message, spec_knob_message, HostParamEditSink, HostSink, KnobMessage, KnobOutcome, SinkCall};
use crate::numeric_entry::NumericEntryTarget;
use crate::paint::same_curve;

verus! {

/// The active sound's curve, phase offset and deck values as a sound.
pub open spec fn live_view(s: CurveEditorState) -> SoundView {
    SoundView { nodes: s.curve.nodes@, segments: s.curve.segments@, phase_offset: s.phase_offset, deck: s.deck }
}

/// The deck values with the control `target` set to `value`; the free rate is
/// not a deck value and leaves them as they are.
pub open spec fn spec_with_knob_value(deck: DeckParams, target: NumericEntryTarget, value: u32) -> DeckParams {
    match target {
        NumericEntryTarget::Mix => DeckParams { mix: value, ..deck },
        NumericEntryTarget::OutputGain => DeckParams { output_gain: value, ..deck },
        NumericEntryTarget::Smooth => DeckParams { smooth: value, ..deck },
        NumericEntryTarget::Swing => DeckParams { swing: value, ..deck },
        NumericEntryTarget::FreeRate => deck,
    }
}

/// The history of `after` is that of `before` with the undoable state of
/// `before` recorded as the newest undo step and the redo steps cleared when
/// `record` holds, and unchanged otherwise.
pub open spec fn spec_maybe_recorded(before: CurveEditorState, after: CurveEditorState, record: bool) -> bool {
    if record {
        &&& snapshots_view(after.history.undo_seq()) == spec_bounded_push(
            snapshots_view(before.history.undo_seq()),
            undoable_view(before),
        )
        &&& after.history.redo_seq().len() == 0
    } else {
        after.history == before.history
    }
}

/// `after` is `before` once a knob `outcome` for `target` is applied: the
/// undo step is recorded first when the outcome asks for one (which clears
/// the A/B confirmation), then the value, if any, is stored (the free rate
/// outside the deck values).
pub open spec fn spec_knob_applied(
    before: CurveEditorState,
    after: CurveEditorState,
    target: NumericEntryTarget,
    push_history: bool,
    set_value: Option<u32>,
) -> bool {
    &&& spec_maybe_recorded(before, after, push_history)
    &&& after.ab_confirmation == if push_history {
        None
    } else {
        before.ab_confirmation
    }
    &&& after.deck == match set_value {
        Some(v) => spec_with_knob_value(before.deck, target, v),
        None => before.deck,
    }
    &&& after.free_rate == match set_value {
        Some(v) => if target == NumericEntryTarget::FreeRate {
            v
        } else {
            before.free_rate
        },
        None => before.free_rate,
    }
    &&& after == (CurveEditorState {
        history: after.history,
        ab_confirmation: after.ab_confirmation,
        deck: after.deck,
        free_rate: after.free_rate,
        ..before
    })
}

/// `after` is `before` with the timing mode switched after recording the
/// undo step.
pub open spec fn spec_timing_mode_toggled(before: CurveEditorState, after: CurveEditorState) -> bool {
    let mode = match before.deck.timing_mode {
        TimingMode::Free => TimingMode::Sync,
        TimingMode::Sync => TimingMode::Free,
    };
    &&& spec_maybe_recorded(before, after, true)
    &&& after == (CurveEditorState {
        history: after.history,
        ab_confirmation: None,
        deck: DeckParams { timing_mode: mode, ..before.deck },
        ..before
    })
}

/// The editor after a sound message, and the active sound to report to the
/// host.
///
/// A copy onto the other sound that changes it records the undo step, clears
/// the selection and confirms the copy; one that changes nothing leaves no
/// trace. A switch records the undo step, swaps the two sounds, clears the
/// selection and confirms the switch. A copy-and-switch copies the active
/// sound over the other one and switches to it, so both sounds hold what was
/// active; it records the undo step from before the copy, clears the
/// selection and confirms the copy, or only the switch when the sounds were
/// already equal.
pub open spec fn spec_sound_message(
    before: CurveEditorState,
    after: CurveEditorState,
    message: SoundMessage,
    update: Option<SoundSide>,
) -> bool {
    let active = before.active_sound;
    let copied = sound_view(before.inactive_sound) != live_view(before);
    let cleared = |a: CurveEditorState| a.selected_curve_nodes@.len() == 0 && a.active_curve_marquee is None;
    let rest = CurveEditorState {
        curve: after.curve,
        phase_offset: after.phase_offset,
        deck: after.deck,
        active_sound: after.active_sound,
        inactive_sound: after.inactive_sound,
        history: after.history,
        ab_confirmation: after.ab_confirmation,
        selected_curve_nodes: after.selected_curve_nodes,
        active_curve_marquee: after.active_curve_marquee,
        ..before
    };
    match spec_sound_action(active, message) {
        SoundAction::Nothing => after == before && update is None,
        SoundAction::CopyOntoInactive => if copied {
            &&& spec_maybe_recorded(before, after, true)
            &&& cleared(after)
            &&& after.ab_confirmation == Some(SoundConfirmation::Copied { from: active, to: active.spec_other() })
            &&& live_view(after) == live_view(before)
            &&& sound_view(after.inactive_sound) == live_view(before)
            &&& after.active_sound == active
            &&& after == rest
            &&& update is None
        } else {
            after == before && update is None
        },
        SoundAction::Switch { side } => {
            &&& spec_maybe_recorded(before, after, true)
            &&& cleared(after)
            &&& after.ab_confirmation == Some(SoundConfirmation::Switched { to: side })
            &&& live_view(after) == sound_view(before.inactive_sound)
            &&& sound_view(after.inactive_sound) == live_view(before)
            &&& after.active_sound == side
            &&& after == rest
            &&& update == Some(side)
        },
        SoundAction::CopyAndSwitch { side } => {
            &&& spec_maybe_recorded(before, after, true)
            &&& cleared(after)
            &&& after.ab_confirmation == Some(
                if copied {
                    SoundConfirmation::CopiedAndSwitched { from: active, to: side }
                } else {
                    SoundConfirmation::Switched { to: side }
                },
            )
            &&& live_view(after) == live_view(before)
            &&& sound_view(after.inactive_sound) == live_view(before)
            &&& after.active_sound == side
            &&& after == rest
            &&& update == Some(side)
        },
    }
}

impl CurveEditorState {
    /// The active sound's curve, phase offset and deck values as a sound.
    fn live_sound(&self) -> (sound: SoundState)
        requires
            self.curve.wf(),
        ensures
            sound_view(sound) == live_view(*self),
            sound.curve.wf(),
    {
        SoundState { curve: self.curve.snapshot(), phase_offset: self.phase_offset, deck: self.deck }
    }

    /// Whether the other sound differs from the active one.
    pub fn sound_sides_differ(&self) -> (differ: bool)
        ensures
            differ == (sound_view(self.inactive_sound) != live_view(*self)),
    {
        let same = same_curve(&self.inactive_sound.curve, &self.curve) && self.inactive_sound.phase_offset
            == self.phase_offset && self.inactive_sound.deck == self.deck;
        proof {
            if same {
                assert(sound_view(self.inactive_sound) == live_view(*self));
            }
        }
        !same
    }

    /// Reduce one knob message for `target` and apply its outcome (see
    /// `reduce_knob_message` and `spec_knob_applied`).
    pub fn reduce_knob<S: HostParamEditSink<NumericEntryTarget, u32>>(
        &mut self,
        active: &mut Option<NumericEntryTarget>,
        sink: &mut HostSink<NumericEntryTarget, u32, S>,
        target: NumericEntryTarget,
        message: KnobMessage<u32>,
    ) -> (outcome: KnobOutcome<u32>)
        requires
            old(self).wf(),
        ensures
            final(self).wf(),
            final(sink).sent@ == old(sink).sent@ + outcome.calls@,
            spec_knob_message(*old(active), *final(active), target, message, outcome),
            spec_knob_applied(*old(self), *final(self), target, outcome.push_history, outcome.set_value),
    {
        let outcome = reduce_knob_message(active, sink, target, message);
        self.apply_knob_outcome(target, outcome.push_history, outcome.set_value);
        outcome
    }

    /// Apply a knob outcome for `target` (see `spec_knob_applied`).
    pub fn apply_knob_outcome(&mut self, target: NumericEntryTarget, push_history: bool, set_value: Option<u32>)
        requires
            old(self).wf(),
        ensures
            final(self).wf(),
            spec_knob_applied(*old(self), *final(self), target, push_history, set_value),
    {
        if push_history {
            self.push_history();
        }
        if let Some(v) = set_value {
            match target {
                NumericEntryTarget::Mix => self.deck.mix = v,
                NumericEntryTarget::OutputGain => self.deck.output_gain = v,
                NumericEntryTarget::Smooth => self.deck.smooth = v,
                NumericEntryTarget::Swing => self.deck.swing = v,
                NumericEntryTarget::FreeRate => self.free_rate = v,
            }
        }
    }

    /// Switch the timing mode, recording the undo step first (see
    /// `spec_timing_mode_toggled`); returns the new mode for the host.
    pub fn toggle_timing_mode(&mut self) -> (mode: TimingMode)
        requires
            old(self).wf(),
        ensures
            final(self).wf(),
            spec_timing_mode_toggled(*old(self), *final(self)),
            mode == final(self).deck.timing_mode,
    {
        self.push_history();
        let mode = match self.deck.timing_mode {
            TimingMode::Free => TimingMode::Sync,
            TimingMode::Sync => TimingMode::Free,
        };
        self.deck.timing_mode = mode;
        mode
    }

    /// Apply a sound message (see `spec_sound_message`); returns the active
    /// sound to report to the host, if it changed.
    pub fn reduce_sound_message(&mut self, message: SoundMessage) -> (update: Option<SoundSide>)
        requires
            old(self).wf(),
        ensures
            final(self).wf(),
            spec_sound_message(*old(self), *final(self), message, update),
    {
        let active = self.active_sound;
        let copied = self.sound_sides_differ();
        match plan_sound_message(active, message) {
            SoundAction::Nothing => None,
            SoundAction::CopyOntoInactive => {
                if copied {
                    self.push_history();
                    self.inactive_sound = self.live_sound();
                    self.clear_curve_selection();
                    self.ab_confirmation = Some(SoundConfirmation::Copied { from: active, to: active.other() });
                }
                None
            },
            SoundAction::Switch { side } => {
                self.push_history();
                let live = self.live_sound();
                let other = self.inactive_sound.snapshot();
                self.curve = other.curve;
                self.phase_offset = other.phase_offset;
                self.deck = other.deck;
                self.inactive_sound = live;
                self.active_sound = side;
                self.clear_curve_selection();
                self.ab_confirmation = Some(SoundConfirmation::Switched { to: side });
                Some(side)
            },
            SoundAction::CopyAndSwitch { side } => {
                self.push_history();
                self.inactive_sound = self.live_sound();
                self.active_sound = side;
                self.clear_curve_selection();
                self.ab_confirmation = Some(
                    if copied {
                        SoundConfirmation::CopiedAndSwitched { from: active, to: side }
                    } else {
                        SoundConfirmation::Switched { to: side }
                    },
                );
                Some(side)
            },
        }
    }

    /// The `u` and `U` shortcuts: while no value is being typed, `u` sends the
    /// Undo message and `U` the Redo message when there is a step to take (see
    /// `spec_history_shortcut`).
    /// Returns whether the character was used.
    pub fn dispatch_character(&mut self, ch: char, numeric_entry_active: bool) -> (handled: bool)
        requires
            old(self).wf(),
        ensures
            final(self).wf(),
            handled == spec_history_shortcut(
                ch,
                numeric_entry_active,
                old(self).history.undo_seq().len() > 0,
                old(self).history.redo_seq().len() > 0,
            ) is Some,
            match spec_history_shortcut(
                ch,
                numeric_entry_active,
                old(self).history.undo_seq().len() > 0,
                old(self).history.redo_seq().len() > 0,
            ) {
                Some(HistoryShortcut::Undo) => spec_editor_undo(
                    CurveEditorState { active_curve_paint: None, ..*old(self) },
                    *final(self),
                    true,
                ),
                Some(HistoryShortcut::Redo) => spec_editor_redo(
                    CurveEditorState { active_curve_paint: None, ..*old(self) },
                    *final(self),
                    true,
                ),
                None => *final(self) == *old(self),
            },
    {
        let shortcut = history_shortcut_for_character(
            ch,
            numeric_entry_active,
            self.history.can_undo(),
            self.history.can_redo(),
        );
        match shortcut {
            Some(HistoryShortcut::Undo) => {
                self.handle_undo();
                true
            },
            Some(HistoryShortcut::Redo) => {
                self.handle_redo();
                true
            },
            None => false,
        }
    }
}

/// `after` is `before` with division `division` selected (at most
/// `max_division`) after recording the undo step.
pub open spec fn spec_sync_division_selected(
    before: CurveEditorState,
    after: CurveEditorState,
    division: u32,
    max_division: u32,
) -> bool {
    &&& spec_maybe_recorded(before, after, true)
    &&& after == (CurveEditorState {
        history: after.history,
        ab_confirmation: None,
        deck: DeckParams {
            sync_division: if division > max_division {
                max_division
            } else {
                division
            },
            ..before.deck
        },
        ..before
    })
}

/// `after` is `before` once the host switched the active sound to `side`:
/// when that is not the active sound the two sounds swap and the selection
/// and marquee are dropped, without an undo step; otherwise nothing changes.
pub open spec fn spec_host_sound_switch(before: CurveEditorState, after: CurveEditorState, side: SoundSide) -> bool {
    if side == before.active_sound {
        after == before
    } else {
        &&& live_view(after) == sound_view(before.inactive_sound)
        &&& sound_view(after.inactive_sound) == live_view(before)
        &&& after.active_sound == side
        &&& after.selected_curve_nodes@.len() == 0
        &&& after == (CurveEditorState {
            curve: after.curve,
            phase_offset: after.phase_offset,
            deck: after.deck,
            active_sound: side,
            inactive_sound: after.inactive_sound,
            selected_curve_nodes: after.selected_curve_nodes,
            active_curve_marquee: None,
            ..before
        })
    }
}

impl CurveEditorState {
    /// Store a value typed into the label of `target`; a typed value is not an
    /// undo step (see `spec_knob_applied`).
    pub fn apply_numeric_entry_value(&mut self, target: NumericEntryTarget, value: u32)
        requires
            old(self).wf(),
        ensures
            final(self).wf(),
            spec_knob_applied(*old(self), *final(self), target, false, Some(value)),
    {
        self.apply_knob_outcome(target, false, Some(value));
    }

    /// Select the sync division `division`, limited to `max_division`,
    /// recording the undo step first (see `spec_sync_division_selected`).
    pub fn select_sync_division(&mut self, division: u32, max_division: u32)
        requires
            old(self).wf(),
        ensures
            final(self).wf(),
            spec_sync_division_selected(*old(self), *final(self), division, max_division),
    {
        self.push_history();
        self.deck.sync_division = if division > max_division { max_division } else { division };
    }

    /// Follow a switch of the active sound made by the host (see
    /// `spec_host_sound_switch`); returns whether the sounds swapped.
    pub fn apply_host_sound_switch(&mut self, side: SoundSide) -> (switched: bool)
        requires
            old(self).wf(),
        ensures
            final(self).wf(),
            spec_host_sound_switch(*old(self), *final(self), side),
            switched == (side != old(self).active_sound),
    {
        if side == self.active_sound {
            return false;
        }
        let live = self.live_sound();
        let other = self.inactive_sound.snapshot();
        self.curve = other.curve;
        self.phase_offset = other.phase_offset;
        self.deck = other.deck;
        self.inactive_sound = live;
        self.active_sound = side;
        self.clear_curve_selection();
        true
    }
}

/// Whatever records an undo step, undoing it right away gives back every
/// undoable value as it was before: the curve and phase offset, the deck
/// values, which sound is active and what the other sound holds.
pub proof fn law_undo_restores_recorded_state(s0: CurveEditorState, s1: CurveEditorState, s2: CurveEditorState)
    requires
        spec_maybe_recorded(s0, s1, true),
        spec_editor_undo(s1, s2, true),
    ensures
        undoable_view(s2) == undoable_view(s0),
        snapshots_view(s2.history.redo_seq()) == seq![undoable_view(s1)],
{
    let u = snapshots_view(s0.history.undo_seq());
    let pushed = u.push(undoable_view(s0));
    if pushed.len() > crate::history::HISTORY_LIMIT {
        assert(pushed.subrange(1, pushed.len() as int).last() == undoable_view(s0));
    }
    assert(snapshots_view(s1.history.redo_seq()) =~= Seq::<EditorView>::empty());
}

/// Undoing a knob edit that recorded an undo step restores the deck values
/// from before the edit.
pub proof fn law_undo_after_knob_edit_restores_deck(
    s0: CurveEditorState,
    s1: CurveEditorState,
    s2: CurveEditorState,
    target: NumericEntryTarget,
    set_value: Option<u32>,
)
    requires
        spec_knob_applied(s0, s1, target, true, set_value),
        spec_editor_undo(s1, s2, true),
    ensures
        s2.deck == s0.deck,
        undoable_view(s2) == undoable_view(s0),
{
    law_undo_restores_recorded_state(s0, s1, s2);
}

/// Undoing a sound message that changed the sounds brings back both sounds
/// and which one was active.
pub proof fn law_undo_after_sound_message_restores_sounds(
    s0: CurveEditorState,
    s1: CurveEditorState,
    s2: CurveEditorState,
    message: SoundMessage,
    update: Option<SoundSide>,
)
    requires
        spec_sound_message(s0, s1, message, update),
        s1.history != s0.history,
        spec_editor_undo(s1, s2, true),
    ensures
        live_view(s2) == live_view(s0),
        sound_view(s2.inactive_sound) == sound_view(s0.inactive_sound),
        s2.active_sound == s0.active_sound,
{
    law_undo_restores_recorded_state(s0, s1, s2);
}

} // verus!
