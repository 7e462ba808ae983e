use vstd::prelude::*;
use crate::curve::{CurveNode, CurveSegment, EditableCurve};
use crate::editor::CurveEditorState;
use crate::header::CurveSlotMessage;
use crate::paint::same_curve;

verus! {

/// How many stored-curve slots the editor offers.
pub const GLOBAL_CURVE_SLOT_COUNT: usize = 8;

/// The stored curves offered under the curve editor, and the slot last loaded
/// or stored into.
#[derive(Debug)]
pub struct CurveSlotBank {
    pub slots: Vec<Option<EditableCurve>>,
    pub loaded: Option<usize>,
}

/// A stored curve as plain values.
pub open spec fn slot_view(slot: Option<EditableCurve>) -> Option<(Seq<CurveNode>, Seq<CurveSegment>)> {
    match slot {
        Some(c) => Some((c.nodes@, c.segments@)),
        None => None,
    }
}

/// The slots as plain values.
pub open spec fn slots_view(slots: Seq<Option<EditableCurve>>) -> Seq<Option<(Seq<CurveNode>, Seq<CurveSegment>)>> {
    slots.map_values(|s: Option<EditableCurve>| slot_view(s))
}

impl CurveSlotBank {
    /// Every stored curve is normalized, and the loaded slot holds a curve.
    pub open spec fn wf(&self) -> bool {
        &&& forall|i: int| 0 <= i < self.slots@.len() ==> (#[trigger] self.slots@[i] matches Some(c) ==> c.wf())
        &&& (self.loaded matches Some(i) ==> i < self.slots@.len() && self.slots@[i as int] is Some)
    }

    /// The slot that shows the editor's curve has drifted: the loaded slot,
    /// when the curve it holds differs from `curve`.
    pub open spec fn spec_deviated_slot(&self, curve: EditableCurve) -> Option<usize> {
        match self.loaded {
            Some(i) => if slot_view(self.slots@[i as int]) != Some((curve.nodes@, curve.segments@)) {
                Some(i)
            } else {
                None
            },
            None => None,
        }
    }

    /// The loaded slot, when the editor's `curve` no longer matches it (see
    /// `spec_deviated_slot`).
    pub fn deviated_slot(&self, curve: &EditableCurve) -> (slot: Option<usize>)
        requires
            self.wf(),
        ensures
            slot == self.spec_deviated_slot(*curve),
    {
        match self.loaded {
            Some(i) => match &self.slots[i] {
                Some(stored) => {
                    if same_curve(stored, curve) {
                        None
                    } else {
                        Some(i)
                    }
                },
                None => None,
            },
            None => None,
        }
    }

    /// `count` empty slots, none loaded.
    pub fn new(count: usize) -> (bank: CurveSlotBank)
        ensures
            bank.wf(),
            bank.slots@.len() == count,
            forall|i: int| 0 <= i < count ==> #[trigger] bank.slots@[i] is None,
            bank.loaded is None,
    {
        let mut slots: Vec<Option<EditableCurve>> = Vec::new();
        let mut i: usize = 0;
        while i < count
            invariant
                i <= count,
                slots@.len() == i,
                forall|j: int| 0 <= j < i ==> #[trigger] slots@[j] is None,
            decreases count - i,
        {
            slots.push(None);
            i = i + 1;
        }
        CurveSlotBank { slots, loaded: None }
    }
}

/// The editor after loading a stored curve with `nodes` and `segments`: the
/// curve is replaced and the phase offset kept; the selection, the marquee,
/// the active node and segment gesture, the hover and the insertion preview
/// are dropped. Loading is not an undo step.
pub open spec fn spec_loaded_curve(
    before: CurveEditorState,
    after: CurveEditorState,
    nodes: Seq<CurveNode>,
    segments: Seq<CurveSegment>,
) -> bool {
    &&& after.curve.nodes@ == nodes
    &&& after.curve.segments@ == segments
    &&& after.selected_curve_nodes@.len() == 0
    &&& after == CurveEditorState {
        curve: after.curve,
        selected_curve_nodes: after.selected_curve_nodes,
        active_curve_marquee: None,
        active_curve_node: None,
        active_curve_segment: None,
        hover_curve_node: None,
        preview_curve_node: None,
        hover_curve_segment: None,
        ..before
    }
}

/// The editor and the slots after `message`.
///
/// Loading a slot that holds a curve puts that curve in the editor (see
/// `spec_loaded_curve`) and marks the slot loaded; loading an empty slot, or
/// one past the last, changes nothing. Storing copies the editor's curve into
/// the slot and marks it loaded; storing past the last slot changes nothing.
pub open spec fn spec_curve_slot_message(
    before: CurveEditorState,
    after: CurveEditorState,
    bank_before: CurveSlotBank,
    bank_after: CurveSlotBank,
    message: CurveSlotMessage,
) -> bool {
    let slots = bank_before.slots@;
    match message {
        CurveSlotMessage::Load { index } => if index < slots.len() && slots[index as int] is Some {
            let c = slots[index as int]->0;
            &&& spec_loaded_curve(before, after, c.nodes@, c.segments@)
            &&& slots_view(bank_after.slots@) == slots_view(slots)
            &&& bank_after.loaded == Some(index)
        } else {
            &&& after == before
            &&& slots_view(bank_after.slots@) == slots_view(slots)
            &&& bank_after.loaded == bank_before.loaded
        },
        CurveSlotMessage::Store { index } => if index < slots.len() {
            &&& after == before
            &&& slots_view(bank_after.slots@) == slots_view(slots).update(
                index as int,
                Some((before.curve.nodes@, before.curve.segments@)),
            )
            &&& bank_after.loaded == Some(index)
        } else {
            &&& after == before
            &&& slots_view(bank_after.slots@) == slots_view(slots)
            &&& bank_after.loaded == bank_before.loaded
        },
    }
}

impl CurveEditorState {
    /// Put a stored curve in the editor (see `spec_loaded_curve`).
    pub fn load_curve(&mut self, curve: EditableCurve)
        requires
            old(self).wf(),
            curve.wf(),
        ensures
            final(self).wf(),
            spec_loaded_curve(*old(self), *final(self), curve.nodes@, curve.segments@),
    {
        self.curve = curve;
        self.clear_curve_selection();
        self.active_curve_node = None;
        self.active_curve_segment = None;
        self.hover_curve_node = None;
        self.preview_curve_node = None;
        self.hover_curve_segment = None;
    }
}

/// Load or store a curve slot (see `spec_curve_slot_message`).
pub fn reduce_curve_slot_message(state: &mut CurveEditorState, bank: &mut CurveSlotBank, message: CurveSlotMessage)
    requires
        old(state).wf(),
        old(bank).wf(),
    ensures
        final(state).wf(),
        final(bank).wf(),
        final(bank).slots@.len() == old(bank).slots@.len(),
        spec_curve_slot_message(*old(state), *final(state), *old(bank), *final(bank), message),
{
    match message {
        CurveSlotMessage::Load { index } => {
            if index < bank.slots.len() {
                match &bank.slots[index] {
                    Some(curve) => {
                        let copy = curve.snapshot();
                        state.load_curve(copy);
                        bank.loaded = Some(index);
                    },
                    None => {},
                }
            }
        },
        CurveSlotMessage::Store { index } => {
            if index < bank.slots.len() {
                let ghost before = bank.slots@;
                let copy = state.curve.snapshot();
                bank.slots.set(index, Some(copy));
                bank.loaded = Some(index);
                assert(slots_view(bank.slots@) =~= slots_view(before).update(
                    index as int,
                    Some((state.curve.nodes@, state.curve.segments@)),
                ));
            }
        },
    }
}

/// Right after a slot is stored into, or loaded from a slot that holds a
/// curve, the editor's curve matches the slot: nothing shows as drifted.
pub proof fn law_stored_or_loaded_slot_matches(
    s0: CurveEditorState,
    s1: CurveEditorState,
    b0: CurveSlotBank,
    b1: CurveSlotBank,
    message: CurveSlotMessage,
)
    requires
        spec_curve_slot_message(s0, s1, b0, b1, message),
        match message {
            CurveSlotMessage::Store { index } => index < b0.slots@.len(),
            CurveSlotMessage::Load { index } => index < b0.slots@.len() && b0.slots@[index as int] is Some,
        },
    ensures
        b1.spec_deviated_slot(s1.curve) is None,
{
    assert(slots_view(b1.slots@).len() == b1.slots@.len());
    assert(slots_view(b0.slots@).len() == b0.slots@.len());
    match message {
        CurveSlotMessage::Store { index } => {
            assert(slots_view(b1.slots@)[index as int] == Some((s0.curve.nodes@, s0.curve.segments@)));
        },
        CurveSlotMessage::Load { index } => {
            assert(slots_view(b1.slots@)[index as int] == slots_view(b0.slots@)[index as int]);
        },
    }
}

/// Loading a slot right after storing into it brings back the curve that was
/// stored.
pub proof fn law_load_after_store_restores_curve(
    s0: CurveEditorState,
    s1: CurveEditorState,
    s2: CurveEditorState,
    b0: CurveSlotBank,
    b1: CurveSlotBank,
    b2: CurveSlotBank,
    index: usize,
)
    requires
        index < b0.slots@.len(),
        spec_curve_slot_message(s0, s1, b0, b1, CurveSlotMessage::Store { index }),
        spec_curve_slot_message(s1, s2, b1, b2, CurveSlotMessage::Load { index }),
    ensures
        s2.curve.nodes@ == s0.curve.nodes@,
        s2.curve.segments@ == s0.curve.segments@,
        s2.phase_offset == s0.phase_offset,
        b2.loaded == Some(index),
{
    assert(slots_view(b1.slots@).len() == b1.slots@.len());
    assert(slots_view(b0.slots@).len() == b0.slots@.len());
    assert(slots_view(b1.slots@)[index as int] == Some((s0.curve.nodes@, s0.curve.segments@)));
    assert(slot_view(b1.slots@[index as int]) == Some((s0.curve.nodes@, s0.curve.segments@)));
}

/// The fill of a stored-curve slot card.
#[derive(Clone, Copy, Debug, PartialEq, Eq, Structural)]
pub enum SlotFill {
    /// The loaded curve was edited away from the slot.
    Deviated,
    Pressed,
    Loaded,
    Hovered,
    Idle,
}

/// The border of a stored-curve slot card.
#[derive(Clone, Copy, Debug, PartialEq, Eq, Structural)]
pub enum SlotBorder {
    Deviated,
    Accent,
    Muted,
}

/// How a stored-curve slot card is drawn: its fill and border, whether the
/// loaded ring is shown, whether the curve is drawn in the accent colour and
/// whether its stroke is the wide one.
#[derive(Clone, Copy, Debug, PartialEq, Eq, Structural)]
pub struct SlotLook {
    pub fill: SlotFill,
    pub border: SlotBorder,
    pub loaded_ring: bool,
    pub accent_curve: bool,
    pub wide_stroke: bool,
}

/// The look of a slot card: a deviated slot wins over a pressed one, which
/// wins over the loaded one, which wins over a hovered one; the border is the
/// deviation colour, else the accent when loaded, hovered or pressed; the
/// curve is in the accent colour when the slot holds one or deviated; the
/// stroke widens in every state but idle.
pub open spec fn spec_slot_look(deviated: bool, pressed: bool, loaded: bool, hovered: bool, has_curve: bool) -> SlotLook {
    SlotLook {
        fill: if deviated {
            SlotFill::Deviated
        } else if pressed {
            SlotFill::Pressed
        } else if loaded {
            SlotFill::Loaded
        } else if hovered {
            SlotFill::Hovered
        } else {
            SlotFill::Idle
        },
        border: if deviated {
            SlotBorder::Deviated
        } else if loaded || hovered || pressed {
            SlotBorder::Accent
        } else {
            SlotBorder::Muted
        },
        loaded_ring: loaded,
        accent_curve: deviated || has_curve,
        wide_stroke: hovered || pressed || loaded || deviated,
    }
}

/// The look of a slot card (see `spec_slot_look`).
pub fn slot_look(deviated: bool, pressed: bool, loaded: bool, hovered: bool, has_curve: bool) -> (look: SlotLook)
    ensures
        look == spec_slot_look(deviated, pressed, loaded, hovered, has_curve),
{
    let fill = if deviated {
        SlotFill::Deviated
    } else if pressed {
        SlotFill::Pressed
    } else if loaded {
        SlotFill::Loaded
    } else if hovered {
        SlotFill::Hovered
    } else {
        SlotFill::Idle
    };
    let border = if deviated {
        SlotBorder::Deviated
    } else if loaded || hovered || pressed {
        SlotBorder::Accent
    } else {
        SlotBorder::Muted
    };
    SlotLook {
        fill,
        border,
        loaded_ring: loaded,
        accent_curve: deviated || has_curve,
        wide_stroke: hovered || pressed || loaded || deviated,
    }
}

} // verus!
