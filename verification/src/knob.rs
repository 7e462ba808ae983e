use vstd::prelude::*;

use crate::numeric_entry::NumericEntryTarget;

verus! {

/// Host end of UI-originated edits of the parameters named by `P`. Each
/// method forwards one event to the host and reports whether the host
/// accepted it; a refused gesture begin means no gesture is open. Whether the
/// host accepts an event depends on its queue, so no reply is promised.
pub trait HostParamEditSink<P, V> {
    /// One complete begin/value/end edit.
    fn edit(&mut self, target: P, value: V) -> bool;

    /// Begin a continuous gesture.
    fn gesture_started(&mut self, target: P) -> bool;

    /// One value inside an open gesture.
    fn gesture_value(&mut self, target: P, value: V) -> bool;

    /// End a continuous gesture.
    fn gesture_ended(&mut self, target: P) -> bool;
}

/// A host sink together with the log of the events handed to it: `sent` holds
/// every event passed on to `inner`, oldest first, each with the reply the
/// host gave.
pub struct HostSink<P, V, S> {
    pub inner: S,
    pub sent: Ghost<Seq<SinkCall<P, V>>>,
}

impl<P, V, S: HostParamEditSink<P, V>> HostSink<P, V, S> {
    /// `inner`, with nothing sent yet.
    pub fn new(inner: S) -> (sink: Self)
        ensures
            sink.inner == inner,
            sink.sent@ == Seq::<SinkCall<P, V>>::empty(),
    {
        HostSink { inner, sent: Ghost(Seq::empty()) }
    }

    /// Hand one complete edit of `target` to `value` to the host.
    pub fn edit(&mut self, target: P, value: V) -> (accepted: bool)
        ensures
            final(self).sent@ == old(self).sent@.push(SinkCall::Edit { target, value, accepted }),
    {
        let accepted = self.inner.edit(target, value);
        self.sent = Ghost(self.sent@.push(SinkCall::Edit { target, value, accepted }));
        accepted
    }

    /// Hand the begin of a gesture on `target` to the host.
    pub fn gesture_started(&mut self, target: P) -> (accepted: bool)
        ensures
            final(self).sent@ == old(self).sent@.push(SinkCall::GestureStarted { target, accepted }),
    {
        let accepted = self.inner.gesture_started(target);
        self.sent = Ghost(self.sent@.push(SinkCall::GestureStarted { target, accepted }));
        accepted
    }

    /// Hand one value of the open gesture on `target` to the host.
    pub fn gesture_value(&mut self, target: P, value: V) -> (accepted: bool)
        ensures
            final(self).sent@ == old(self).sent@.push(SinkCall::GestureValue { target, value, accepted }),
    {
        let accepted = self.inner.gesture_value(target, value);
        self.sent = Ghost(self.sent@.push(SinkCall::GestureValue { target, value, accepted }));
        accepted
    }

    /// Hand the end of the gesture on `target` to the host.
    pub fn gesture_ended(&mut self, target: P) -> (accepted: bool)
        ensures
            final(self).sent@ == old(self).sent@.push(SinkCall::GestureEnded { target, accepted }),
    {
        let accepted = self.inner.gesture_ended(target);
        self.sent = Ghost(self.sent@.push(SinkCall::GestureEnded { target, accepted }));
        accepted
    }
}

/// One call made to the sink, with the host's reply.
#[derive(Clone, Copy, Debug, PartialEq, Eq)]
pub enum SinkCall<P, V> {
    Edit { target: P, value: V, accepted: bool },
    GestureStarted { target: P, accepted: bool },
    GestureValue { target: P, value: V, accepted: bool },
    GestureEnded { target: P, accepted: bool },
}

impl<P, V> SinkCall<P, V> {
    pub open spec fn accepted(self) -> bool {
        match self {
            SinkCall::Edit { accepted, .. } => accepted,
            SinkCall::GestureStarted { accepted, .. } => accepted,
            SinkCall::GestureValue { accepted, .. } => accepted,
            SinkCall::GestureEnded { accepted, .. } => accepted,
        }
    }
}

/// Message from a deck knob; values are those the knob reports.
#[derive(Clone, Copy, Debug, PartialEq, Eq)]
pub enum KnobMessage<V> {
    /// A pointer drag began.
    GestureStarted,
    /// The pointer drag moved the knob.
    ValueChanged { value: V },
    /// The pointer drag ended.
    GestureEnded,
    /// Double-click reset to `value`.
    Reset { value: V },
    /// A keyboard step; `value` is the value it reached, if it changed one.
    KeyboardGesture { value: Option<V> },
    /// A wheel step; `value` is the value it reached, if it changed one.
    WheelGesture { value: Option<V> },
}

/// What reducing one knob message did: the sink calls made, in order, whether
/// an undo snapshot is to be recorded, and the value to store in the parameter
/// (recorded first, then stored).
pub struct KnobOutcome<V> {
    pub calls: Vec<SinkCall<NumericEntryTarget, V>>,
    pub push_history: bool,
    pub set_value: Option<V>,
}

/// The sink was called exactly with `expected`, up to the replies it gave.
pub open spec fn calls_match<P, V>(calls: Seq<SinkCall<P, V>>, expected: Seq<SinkCall<P, V>>) -> bool {
    &&& calls.len() == expected.len()
    &&& forall|i: int| 0 <= i < calls.len() ==> #[trigger] strip(calls[i]) == strip(expected[i])
}

/// A call with its reply set to "accepted", so that calls can be compared up to
/// the host's replies.
pub open spec fn strip<P, V>(c: SinkCall<P, V>) -> SinkCall<P, V> {
    match c {
        SinkCall::Edit { target, value, .. } => SinkCall::Edit { target, value, accepted: true },
        SinkCall::GestureStarted { target, .. } => SinkCall::GestureStarted { target, accepted: true },
        SinkCall::GestureValue { target, value, .. } => SinkCall::GestureValue { target, value, accepted: true },
        SinkCall::GestureEnded { target, .. } => SinkCall::GestureEnded { target, accepted: true },
    }
}

/// The knob state `before` becomes `after`, and `outcome` (the calls made,
/// with the host's replies, the undo request and the value to store) is what
/// reducing `message` for `target` gives.
///
/// A pointer drag opens a host gesture only when no knob gesture is open and
/// the host accepts the begin; the undo snapshot is taken then. Moves send the
/// value inside the open gesture and store it only when the host accepts it.
/// The end closes the open gesture. A reset closes an open gesture of the same
/// knob and then sends one complete edit, recording history and storing the
/// value only when the host accepts it. A keyboard or wheel step that changed
/// the value is one complete gesture of its own: begin (nothing more when it is
/// refused), history, value (stored when accepted), end.
pub open spec fn spec_knob_message<V>(
    before: Option<NumericEntryTarget>,
    after: Option<NumericEntryTarget>,
    target: NumericEntryTarget,
    message: KnobMessage<V>,
    outcome: KnobOutcome<V>,
) -> bool {
    &&& forall|i: int| 0 <= i < outcome.calls@.len() ==> (match #[trigger] outcome.calls@[i] {
            SinkCall::Edit { target: t, .. } => t == target,
            SinkCall::GestureStarted { target: t, .. } => t == target,
            SinkCall::GestureValue { target: t, .. } => t == target,
            SinkCall::GestureEnded { target: t, .. } => t == target,
        })
    &&& match message {
            KnobMessage::GestureStarted => if before is None {
                &&& calls_match(outcome.calls@, seq![SinkCall::GestureStarted { target, accepted: true }])
                &&& outcome.push_history == outcome.calls@[0].accepted()
                &&& after == if outcome.calls@[0].accepted() { Some(target) } else { None }
                &&& outcome.set_value is None
            } else {
                &&& outcome.calls@.len() == 0
                &&& !outcome.push_history
                &&& after == before
                &&& outcome.set_value is None
            },
            KnobMessage::ValueChanged { value } => if before == Some(target) {
                &&& calls_match(outcome.calls@, seq![SinkCall::GestureValue { target, value, accepted: true }])
                &&& !outcome.push_history
                &&& after == before
                &&& outcome.set_value == if outcome.calls@[0].accepted() { Some(value) } else { None }
            } else {
                &&& outcome.calls@.len() == 0
                &&& !outcome.push_history
                &&& after == before
                &&& outcome.set_value is None
            },
            KnobMessage::GestureEnded => if before == Some(target) {
                &&& calls_match(outcome.calls@, seq![SinkCall::GestureEnded { target, accepted: true }])
                &&& !outcome.push_history
                &&& after is None
                &&& outcome.set_value is None
            } else {
                &&& outcome.calls@.len() == 0
                &&& !outcome.push_history
                &&& after == before
                &&& outcome.set_value is None
            },
            KnobMessage::Reset { value } => {
                let closing = before == Some(target);
                let edit = SinkCall::Edit { target, value, accepted: true };
                &&& if closing {
                    calls_match(outcome.calls@, seq![SinkCall::GestureEnded { target, accepted: true }, edit])
                } else {
                    calls_match(outcome.calls@, seq![edit])
                }
                &&& outcome.push_history == outcome.calls@.last().accepted()
                &&& outcome.set_value == if outcome.calls@.last().accepted() { Some(value) } else { None }
                &&& after == if closing { None } else { before }
            },
            KnobMessage::KeyboardGesture { value: step } | KnobMessage::WheelGesture { value: step } => {
                &&& after == before
                &&& match step {
                    None => outcome.calls@.len() == 0 && !outcome.push_history && outcome.set_value is None,
                    Some(value) => if outcome.calls@.len() > 0 && outcome.calls@[0].accepted() {
                        &&& calls_match(
                            outcome.calls@,
                            seq![
                                SinkCall::GestureStarted { target, accepted: true },
                                SinkCall::GestureValue { target, value, accepted: true },
                                SinkCall::GestureEnded { target, accepted: true },
                            ],
                        )
                        &&& outcome.push_history
                        &&& outcome.set_value == if outcome.calls@[1].accepted() { Some(value) } else { None }
                    } else {
                        &&& calls_match(outcome.calls@, seq![SinkCall::GestureStarted { target, accepted: true }])
                        &&& !outcome.push_history
                        &&& outcome.set_value is None
                    },
                }
            },
        }
}

/// Reduce one knob message for `target` (see `spec_knob_message`).
pub fn reduce_knob_message<V: Copy, S: HostParamEditSink<NumericEntryTarget, V>>(
    active: &mut Option<NumericEntryTarget>,
    sink: &mut HostSink<NumericEntryTarget, V, S>,
    target: NumericEntryTarget,
    message: KnobMessage<V>,
) -> (outcome: KnobOutcome<V>)
    ensures
        spec_knob_message(*old(active), *final(active), target, message, outcome),
        final(sink).sent@ == old(sink).sent@ + outcome.calls@,
{
    let ghost start = sink.sent@;
    let mut calls: Vec<SinkCall<NumericEntryTarget, V>> = Vec::new();
    let outcome = match message {
        KnobMessage::GestureStarted => {
            if active.is_none() {
                let accepted = sink.gesture_started(target);
                calls.push(SinkCall::GestureStarted { target, accepted });
                if accepted {
                    *active = Some(target);
                }
                KnobOutcome { calls, push_history: accepted, set_value: None }
            } else {
                KnobOutcome { calls, push_history: false, set_value: None }
            }
        },
        KnobMessage::ValueChanged { value } => {
            if *active == Some(target) {
                let accepted = sink.gesture_value(target, value);
                calls.push(SinkCall::GestureValue { target, value, accepted });
                KnobOutcome { calls, push_history: false, set_value: if accepted { Some(value) } else { None } }
            } else {
                KnobOutcome { calls, push_history: false, set_value: None }
            }
        },
        KnobMessage::GestureEnded => {
            if *active == Some(target) {
                let accepted = sink.gesture_ended(target);
                calls.push(SinkCall::GestureEnded { target, accepted });
                *active = None;
            }
            KnobOutcome { calls, push_history: false, set_value: None }
        },
        KnobMessage::Reset { value } => {
            if *active == Some(target) {
                let accepted = sink.gesture_ended(target);
                calls.push(SinkCall::GestureEnded { target, accepted });
                *active = None;
            }
            let accepted = sink.edit(target, value);
            calls.push(SinkCall::Edit { target, value, accepted });
            KnobOutcome { calls, push_history: accepted, set_value: if accepted { Some(value) } else { None } }
        },
        KnobMessage::KeyboardGesture { value: step } | KnobMessage::WheelGesture { value: step } => {
            reduce_discrete_knob_gesture(sink, target, step)
        },
    };
    proof {
        assert(sink.sent@ =~= start + outcome.calls@);
    }
    outcome
}

/// One keyboard or wheel step as a complete gesture (see `reduce_knob_message`).
fn reduce_discrete_knob_gesture<V: Copy, S: HostParamEditSink<NumericEntryTarget, V>>(
    sink: &mut HostSink<NumericEntryTarget, V, S>,
    target: NumericEntryTarget,
    step: Option<V>,
) -> (outcome: KnobOutcome<V>)
    ensures
        final(sink).sent@ == old(sink).sent@ + outcome.calls@,
        forall|i: int| 0 <= i < outcome.calls@.len() ==> (match #[trigger] outcome.calls@[i] {
            SinkCall::Edit { target: t, .. } => t == target,
            SinkCall::GestureStarted { target: t, .. } => t == target,
            SinkCall::GestureValue { target: t, .. } => t == target,
            SinkCall::GestureEnded { target: t, .. } => t == target,
        }),
        match step {
            None => outcome.calls@.len() == 0 && !outcome.push_history && outcome.set_value is None,
            Some(value) => if outcome.calls@.len() > 0 && outcome.calls@[0].accepted() {
                &&& calls_match(
                    outcome.calls@,
                    seq![
                        SinkCall::GestureStarted { target, accepted: true },
                        SinkCall::GestureValue { target, value, accepted: true },
                        SinkCall::GestureEnded { target, accepted: true },
                    ],
                )
                &&& outcome.push_history
                &&& outcome.set_value == if outcome.calls@[1].accepted() { Some(value) } else { None }
            } else {
                &&& calls_match(outcome.calls@, seq![SinkCall::GestureStarted { target, accepted: true }])
                &&& !outcome.push_history
                &&& outcome.set_value is None
            },
        },
{
    let ghost start = sink.sent@;
    let mut calls: Vec<SinkCall<NumericEntryTarget, V>> = Vec::new();
    let value = match step {
        Some(value) => value,
        None => {
            assert(sink.sent@ =~= start + calls@);
            return KnobOutcome { calls, push_history: false, set_value: None };
        },
    };
    let started = sink.gesture_started(target);
    calls.push(SinkCall::GestureStarted { target, accepted: started });
    if !started {
        assert(sink.sent@ =~= start + calls@);
        return KnobOutcome { calls, push_history: false, set_value: None };
    }
    let accepted = sink.gesture_value(target, value);
    calls.push(SinkCall::GestureValue { target, value, accepted });
    let ended = sink.gesture_ended(target);
    calls.push(SinkCall::GestureEnded { target, accepted: ended });
    assert(sink.sent@ =~= start + calls@);
    KnobOutcome { calls, push_history: true, set_value: if accepted { Some(value) } else { None } }
}

/// The host's bypass switch.
#[derive(Clone, Copy, Debug, PartialEq, Eq, Structural)]
pub struct BypassParam;

/// Ask the host to flip the bypass switch with one complete edit to the other
/// state, and store the new state only when the host accepts it. The switch
/// is the host's: toggling it never records an undo step. Returns the call
/// made; the switch flipped exactly when it was accepted.
pub fn try_toggle_bypass<S: HostParamEditSink<BypassParam, bool>>(
    bypassed: &mut bool,
    sink: &mut HostSink<BypassParam, bool, S>,
) -> (call: SinkCall<BypassParam, bool>)
    ensures
        final(sink).sent@ == old(sink).sent@.push(call),
        strip(call) == (SinkCall::Edit { target: BypassParam, value: !*old(bypassed), accepted: true }),
        *final(bypassed) == if call.accepted() {
            !*old(bypassed)
        } else {
            *old(bypassed)
        },
{
    let value = !*bypassed;
    let accepted = sink.edit(BypassParam, value);
    if accepted {
        *bypassed = value;
    }
    SinkCall::Edit { target: BypassParam, value, accepted }
}

} // verus!
