use vstd::prelude::*;
use vstd::std_specs::cmp::PartialEqSpec;

verus! {

/// Most snapshots the undo and redo stacks hold together.
pub const MAX_UNDO: usize = 64;

/// The undo and redo stacks, last entry on top.
#[verifier::ext_equal]
pub struct HistoryModel<S> {
    pub undo: Seq<S>,
    pub redo: Seq<S>,
}

/// Whether the stacks hold no more than `MAX_UNDO` snapshots together: every operation
/// keeps this, so the caps on single stacks never cut anything off.
pub open spec fn within_cap<S>(h: HistoryModel<S>) -> bool {
    h.undo.len() + h.redo.len() <= MAX_UNDO
}

/// Whether `s` equals the snapshot on top of the undo stack.
pub open spec fn repeats_top<S: PartialEq>(undo: Seq<S>, s: S) -> bool {
    undo.len() > 0 && undo.last().eq_spec(&s)
}

/// Keeps at most the last `MAX_UNDO` entries of a stack.
pub open spec fn capped<S>(stack: Seq<S>) -> Seq<S> {
    if stack.len() > MAX_UNDO {
        stack.drop_first()
    } else {
        stack
    }
}

/// Capping a stack that has grown at most one past `MAX_UNDO` keeps its last entries: the
/// newest stays on top, at most `MAX_UNDO` remain, and only the oldest can fall off.
pub proof fn lemma_capped<S>(stack: Seq<S>)
    requires
        stack.len() <= MAX_UNDO + 1,
    ensures
        capped(stack).len() <= MAX_UNDO,
        capped(stack).len() >= stack.len() - 1,
        capped(stack) == stack.subrange(stack.len() - capped(stack).len(), stack.len() as int),
        stack.len() <= MAX_UNDO ==> capped(stack) == stack,
{
    assert(stack.drop_first() =~= stack.subrange(1, stack.len() as int));
    assert(stack =~= stack.subrange(0, stack.len() as int));
}

/// The stacks with `s` on top of the undo stack (the oldest entry falls off past
/// `MAX_UNDO`) and the redo stack emptied.
pub open spec fn pushed<S>(h: HistoryModel<S>, s: S) -> HistoryModel<S> {
    HistoryModel { undo: capped(h.undo.push(s)), redo: Seq::empty() }
}

/// Recording `s` before a change: unless it repeats the top of the undo stack, it is
/// pushed.
pub open spec fn spec_push<S: PartialEq>(h: HistoryModel<S>, s: S) -> HistoryModel<S> {
    if repeats_top(h.undo, s) {
        h
    } else {
        pushed(h, s)
    }
}

/// Whether recording `s` took the stacks from `h0` to `h1`: either they are unchanged or
/// `s` was pushed, and exactly as `spec_push` says where `==` on the snapshots follows
/// its specification.
pub open spec fn recorded<S: PartialEq>(h0: HistoryModel<S>, s: S, h1: HistoryModel<S>) -> bool {
    &&& S::obeys_eq_spec() ==> h1 == spec_push(h0, s)
    &&& h1 == h0 || h1 == pushed(h0, s)
}

/// Undo from state `current`: the top of the undo stack is handed back and `current`
/// goes on the redo stack; nothing happens when the undo stack is empty.
pub open spec fn spec_undo<S>(h: HistoryModel<S>, current: S) -> (Option<S>, HistoryModel<S>) {
    if h.undo.len() == 0 {
        (None, h)
    } else {
        (Some(h.undo.last()), HistoryModel { undo: h.undo.drop_last(), redo: h.redo.push(current) })
    }
}

/// Redo from state `current`: the top of the redo stack is handed back and `current`
/// goes on the undo stack; nothing happens when the redo stack is empty.
pub open spec fn spec_redo<S>(h: HistoryModel<S>, current: S) -> (Option<S>, HistoryModel<S>) {
    if h.redo.len() == 0 {
        (None, h)
    } else {
        (Some(h.redo.last()), HistoryModel { undo: h.undo.push(current), redo: h.redo.drop_last() })
    }
}

/// Undoing a recorded change hands back the recorded state, and redoing it then hands
/// back the state that was undone, leaving the undo stack as it was after recording.
pub proof fn lemma_undo_redo<S: PartialEq>(h: HistoryModel<S>, before: S, after: S)
    requires
        within_cap(h),
        !repeats_top(h.undo, before),
    ensures
        ({
            let recorded = spec_push(h, before);
            let (restored, undone) = spec_undo(recorded, after);
            let (redone, again) = spec_redo(undone, before);
            &&& restored == Some(before)
            &&& redone == Some(after)
            &&& again.undo == recorded.undo
            &&& again.redo.len() == 0
        }),
{
    let recorded = spec_push(h, before);
    assert(recorded.undo.last() == before);
    let (restored, undone) = spec_undo(recorded, after);
    assert(undone.undo.push(before) =~= recorded.undo);
}

/// Redoing an undone change, then undoing it again, brings back the same states.
pub proof fn lemma_redo_undo<S>(h: HistoryModel<S>, current: S)
    requires
        h.redo.len() > 0,
    ensures
        ({
            let (redone, after) = spec_redo(h, current);
            let (restored, back) = spec_undo(after, redone->0);
            &&& restored == Some(current)
            &&& back.redo == h.redo
            &&& back.undo == h.undo
        }),
{
    let (redone, after) = spec_redo(h, current);
    assert(after.undo.drop_last() =~= h.undo);
    assert(after.redo.push(redone->0) =~= h.redo);
}

/// Undo and redo of parameter snapshots.
pub struct UndoHistory<S> {
    undo_stack: Vec<S>,
    redo_stack: Vec<S>,
}

impl<S: Copy + PartialEq> UndoHistory<S> {
    /// The two stacks.
    pub closed spec fn model(&self) -> HistoryModel<S> {
        HistoryModel { undo: self.undo_stack@, redo: self.redo_stack@ }
    }

    pub fn new() -> (h: Self)
        ensures
            h.model().undo.len() == 0,
            h.model().redo.len() == 0,
    {
        UndoHistory { undo_stack: Vec::new(), redo_stack: Vec::new() }
    }

    pub fn undo_len(&self) -> (n: usize)
        ensures
            n == self.model().undo.len(),
    {
        self.undo_stack.len()
    }

    pub fn redo_len(&self) -> (n: usize)
        ensures
            n == self.model().redo.len(),
    {
        self.redo_stack.len()
    }

    /// Records `snapshot` as the state before a change.
    pub fn push(&mut self, snapshot: S)
        requires
            within_cap(old(self).model()),
        ensures
            within_cap(final(self).model()),
            recorded(old(self).model(), snapshot, final(self).model()),
    {
        let repeats = match self.undo_stack.last() {
            Some(top) => *top == snapshot,
            None => false,
        };
        if !repeats {
            self.undo_stack.push(snapshot);
            if self.undo_stack.len() > MAX_UNDO {
                self.undo_stack.remove(0);
                assert(self.undo_stack@ =~= capped(old(self).undo_stack@.push(snapshot)));
            }
            self.redo_stack.clear();
        }
    }

    /// Undo from state `current`: hands back the snapshot to restore, if any.
    pub fn undo(&mut self, current: S) -> (restored: Option<S>)
        requires
            within_cap(old(self).model()),
        ensures
            within_cap(final(self).model()),
            (restored, final(self).model()) == spec_undo(old(self).model(), current),
    {
        match self.undo_stack.pop() {
            Some(snapshot) => {
                self.redo_stack.push(current);
                self.redo_stack.truncate(MAX_UNDO);
                assert(self.model() =~= spec_undo(old(self).model(), current).1);
                Some(snapshot)
            },
            None => None,
        }
    }

    /// Redo from state `current`: hands back the snapshot to restore, if any.
    pub fn redo(&mut self, current: S) -> (restored: Option<S>)
        requires
            within_cap(old(self).model()),
        ensures
            within_cap(final(self).model()),
            (restored, final(self).model()) == spec_redo(old(self).model(), current),
    {
        match self.redo_stack.pop() {
            Some(snapshot) => {
                self.undo_stack.push(current);
                self.undo_stack.truncate(MAX_UNDO);
                assert(self.model() =~= spec_redo(old(self).model(), current).1);
                Some(snapshot)
            },
            None => None,
        }
    }

    /// After a gesture that began in state `before` and ended in `current`: records
    /// `before` if the gesture changed anything.
    pub fn record_if_changed(&mut self, before: S, current: S)
        requires
            within_cap(old(self).model()),
        ensures
            within_cap(final(self).model()),
            S::obeys_eq_spec() ==> final(self).model() == if current.eq_spec(&before) {
                old(self).model()
            } else {
                spec_push(old(self).model(), before)
            },
            final(self).model() == old(self).model() || final(self).model() == pushed(
                old(self).model(),
                before,
            ),
    {
        if current != before {
            self.push(before);
        }
    }
}

} // verus!
