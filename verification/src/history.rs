use vstd::prelude::*;

verus! {

/// Most undo snapshots retained; older ones are forgotten first.
pub const HISTORY_LIMIT: usize = 128;

/// Undo and redo stacks of editor snapshots.
///
/// The model is the pair of sequences (undo, redo), most recent last.
#[derive(Debug)]
pub struct EditHistory<T> {
    undo_history: Vec<T>,
    redo_history: Vec<T>,
}

impl<T> EditHistory<T> {
    pub closed spec fn undo_seq(&self) -> Seq<T> {
        self.undo_history@
    }

    pub closed spec fn redo_seq(&self) -> Seq<T> {
        self.redo_history@
    }

    /// An empty history.
    pub fn new() -> (h: Self)
        ensures
            h.undo_seq() == Seq::<T>::empty(),
            h.redo_seq() == Seq::<T>::empty(),
    {
        EditHistory { undo_history: Vec::new(), redo_history: Vec::new() }
    }

    pub fn undo_len(&self) -> (n: usize)
        ensures
            n == self.undo_seq().len(),
    {
        self.undo_history.len()
    }

    pub fn redo_len(&self) -> (n: usize)
        ensures
            n == self.redo_seq().len(),
    {
        self.redo_history.len()
    }

    /// Whether an undo step is available.
    pub fn can_undo(&self) -> (r: bool)
        ensures
            r == (self.undo_seq().len() > 0),
    {
        !self.undo_history.is_empty()
    }

    /// Whether a redo step is available.
    pub fn can_redo(&self) -> (r: bool)
        ensures
            r == (self.redo_seq().len() > 0),
    {
        !self.redo_history.is_empty()
    }

    /// Record the state before an edit: it becomes the newest undo step, the
    /// oldest undo step is dropped once more than `HISTORY_LIMIT` are held, and
    /// the redo stack is cleared.
    pub fn push_history_snapshot(&mut self, snapshot: T)
        ensures
            final(self).undo_seq() == spec_bounded_push(old(self).undo_seq(), snapshot),
            final(self).redo_seq() == Seq::<T>::empty(),
    {
        self.undo_history.push(snapshot);
        if self.undo_history.len() > HISTORY_LIMIT {
            self.undo_history.remove(0);
        }
        self.redo_history.clear();
    }

    /// Step back: the newest undo snapshot is returned for restoring and
    /// `current` becomes the newest redo snapshot. Nothing changes when there is
    /// no undo step.
    pub fn undo(&mut self, current: T) -> (restored: Option<T>)
        ensures
            (final(self).undo_seq(), final(self).redo_seq(), restored) == spec_undo_step(
                old(self).undo_seq(),
                old(self).redo_seq(),
                current,
            ),
    {
        match self.undo_history.pop() {
            Some(snapshot) => {
                self.redo_history.push(current);
                Some(snapshot)
            },
            None => None,
        }
    }

    /// Step forward: the newest redo snapshot is returned for restoring and
    /// `current` becomes the newest undo snapshot. Nothing changes when there is
    /// no redo step.
    pub fn redo(&mut self, current: T) -> (restored: Option<T>)
        ensures
            (final(self).undo_seq(), final(self).redo_seq(), restored) == spec_redo_step(
                old(self).undo_seq(),
                old(self).redo_seq(),
                current,
            ),
    {
        match self.redo_history.pop() {
            Some(snapshot) => {
                self.undo_history.push(current);
                Some(snapshot)
            },
            None => None,
        }
    }
}

/// A history step requested from the keyboard.
#[derive(Clone, Copy, Debug, PartialEq, Eq, Structural)]
pub enum HistoryShortcut {
    Undo,
    Redo,
}

/// The Vim-style history shortcut a typed character asks for: `u` undoes and
/// `U` redoes, each only while such a step is available. While a numeric entry
/// owns text input no character is a shortcut, so typing keeps editing the
/// entry.
pub open spec fn spec_history_shortcut(
    ch: char,
    numeric_entry_active: bool,
    can_undo: bool,
    can_redo: bool,
) -> Option<HistoryShortcut> {
    if numeric_entry_active {
        None
    } else if ch == 'u' && can_undo {
        Some(HistoryShortcut::Undo)
    } else if ch == 'U' && can_redo {
        Some(HistoryShortcut::Redo)
    } else {
        None
    }
}

/// The history shortcut for `ch` (see `spec_history_shortcut`).
pub fn history_shortcut_for_character(
    ch: char,
    numeric_entry_active: bool,
    can_undo: bool,
    can_redo: bool,
) -> (shortcut: Option<HistoryShortcut>)
    ensures
        shortcut == spec_history_shortcut(ch, numeric_entry_active, can_undo, can_redo),
{
    if numeric_entry_active {
        None
    } else if ch == 'u' && can_undo {
        Some(HistoryShortcut::Undo)
    } else if ch == 'U' && can_redo {
        Some(HistoryShortcut::Redo)
    } else {
        None
    }
}

/// The stacks after undoing from state `current`, and the snapshot to restore.
pub open spec fn spec_undo_step<T>(undo: Seq<T>, redo: Seq<T>, current: T) -> (Seq<T>, Seq<T>, Option<T>) {
    if undo.len() == 0 {
        (undo, redo, None)
    } else {
        (undo.drop_last(), redo.push(current), Some(undo.last()))
    }
}

/// The stacks after redoing from state `current`, and the snapshot to restore.
pub open spec fn spec_redo_step<T>(undo: Seq<T>, redo: Seq<T>, current: T) -> (Seq<T>, Seq<T>, Option<T>) {
    if redo.len() == 0 {
        (undo, redo, None)
    } else {
        (undo.push(current), redo.drop_last(), Some(redo.last()))
    }
}

/// Undoing right after an edit gives back the snapshot recorded for that edit,
/// and the edited state becomes the only redo step.
pub proof fn law_undo_after_edit_restores_snapshot<T>(undo: Seq<T>, snapshot: T, edited: T)
    ensures
        spec_undo_step(spec_bounded_push(undo, snapshot), Seq::<T>::empty(), edited) == (
            spec_bounded_push(undo, snapshot).drop_last(),
            seq![edited],
            Some(snapshot),
        ),
        undo.len() < HISTORY_LIMIT ==> spec_bounded_push(undo, snapshot).drop_last() == undo,
{
    let pushed = undo.push(snapshot);
    assert(pushed.last() == snapshot);
    if pushed.len() > HISTORY_LIMIT {
        assert(pushed.subrange(1, pushed.len() as int).last() == snapshot);
    } else {
        assert(pushed.drop_last() =~= undo);
    }
    assert(Seq::<T>::empty().push(edited) =~= seq![edited]);
}

/// Redo right after undo gives back the state the undo left, and restores both
/// stacks when the state undo restored is the one redo starts from.
pub proof fn law_redo_after_undo_round_trips<T>(undo: Seq<T>, redo: Seq<T>, current: T)
    requires
        undo.len() > 0,
    ensures
        ({
            let (u1, r1, restored) = spec_undo_step(undo, redo, current);
            let (u2, r2, again) = spec_redo_step(u1, r1, restored.unwrap());
            &&& again == Some(current)
            &&& u2 == undo
            &&& r2 == redo
        }),
{
    assert(undo.drop_last().push(undo.last()) =~= undo);
    assert(redo.push(current).drop_last() =~= redo);
}

/// Undo right after redo gives back the state the redo left, and restores both
/// stacks when the state redo restored is the one undo starts from.
pub proof fn law_undo_after_redo_round_trips<T>(undo: Seq<T>, redo: Seq<T>, current: T)
    requires
        redo.len() > 0,
    ensures
        ({
            let (u1, r1, restored) = spec_redo_step(undo, redo, current);
            let (u2, r2, again) = spec_undo_step(u1, r1, restored.unwrap());
            &&& again == Some(current)
            &&& u2 == undo
            &&& r2 == redo
        }),
{
    assert(redo.drop_last().push(redo.last()) =~= redo);
    assert(undo.push(current).drop_last() =~= undo);
}

/// Undo and redo move one snapshot between the stacks, so they never change how
/// many snapshots the history holds in total.
pub proof fn law_undo_redo_preserve_total<T>(undo: Seq<T>, redo: Seq<T>, current: T)
    ensures
        ({
            let (u1, r1, _) = spec_undo_step(undo, redo, current);
            u1.len() + r1.len() == undo.len() + redo.len()
        }),
        ({
            let (u2, r2, _) = spec_redo_step(undo, redo, current);
            u2.len() + r2.len() == undo.len() + redo.len()
        }),
{
}

/// `s` with `x` appended, keeping only the newest `HISTORY_LIMIT` entries.
pub open spec fn spec_bounded_push<T>(s: Seq<T>, x: T) -> Seq<T> {
    let pushed = s.push(x);
    if pushed.len() > HISTORY_LIMIT {
        pushed.subrange(1, pushed.len() as int)
    } else {
        pushed
    }
}

} // verus!
