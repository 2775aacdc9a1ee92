//! Edit history of the point editor's text: undo and redo stacks of whole-text snapshots.

use vstd::prelude::*;

verus! {

/// The largest number of undo snapshots kept; older ones are dropped first.
pub const POINTS_HISTORY_LIMIT: usize = 256;

/// The character content of a list of strings.
pub open spec fn texts(strings: Seq<String>) -> Seq<Seq<char>> {
    strings.map_values(|s: String| s@)
}

/// The undo stack after recording `snapshot`: unchanged when the top already equals it,
/// else pushed and cut back to the newest `POINTS_HISTORY_LIMIT` entries.
pub open spec fn spec_push_snapshot(undo: Seq<Seq<char>>, snapshot: Seq<char>) -> Seq<Seq<char>> {
    if undo.len() > 0 && undo.last() == snapshot {
        undo
    } else {
        let pushed = undo.push(snapshot);
        if pushed.len() > POINTS_HISTORY_LIMIT {
            pushed.skip(pushed.len() - POINTS_HISTORY_LIMIT)
        } else {
            pushed
        }
    }
}

/// The abstract state of an edit history: current text, undo stack, redo stack (tops last).
pub struct HistoryView {
    pub text: Seq<char>,
    pub undo: Seq<Seq<char>>,
    pub redo: Seq<Seq<char>>,
}

/// The text of the point editor and its undo and redo stacks.
#[derive(Debug)]
pub struct PointsHistory {
    pub text: String,
    pub undo_stack: Vec<String>,
    pub redo_stack: Vec<String>,
}

impl View for PointsHistory {
    type V = HistoryView;

    open spec fn view(&self) -> HistoryView {
        HistoryView { text: self.text@, undo: texts(self.undo_stack@), redo: texts(self.redo_stack@) }
    }
}

/// Replacing the text: nothing happens when it is unchanged; otherwise the redo stack is
/// emptied unless `keep_redo`.
pub open spec fn spec_apply_text_change(h: HistoryView, new_text: Seq<char>, keep_redo: bool) -> HistoryView {
    if h.text == new_text {
        h
    } else {
        HistoryView {
            text: new_text,
            undo: h.undo,
            redo: if keep_redo {
                h.redo
            } else {
                seq![]
            },
        }
    }
}

/// Undo: the top snapshot becomes the text and the text goes onto the redo stack.
pub open spec fn spec_undo(h: HistoryView) -> HistoryView {
    if h.undo.len() == 0 {
        h
    } else {
        spec_apply_text_change(
            HistoryView { text: h.text, undo: h.undo.drop_last(), redo: h.redo.push(h.text) },
            h.undo.last(),
            true,
        )
    }
}

/// Redo: the text is recorded for undo and the top redo snapshot becomes the text.
pub open spec fn spec_redo(h: HistoryView) -> HistoryView {
    if h.redo.len() == 0 {
        h
    } else {
        spec_apply_text_change(
            HistoryView {
                text: h.text,
                undo: spec_push_snapshot(h.undo, h.text),
                redo: h.redo.drop_last(),
            },
            h.redo.last(),
            true,
        )
    }
}

/// Writing new text: nothing happens when it is unchanged; otherwise the old text is
/// recorded for undo when asked, the text replaced and the redo stack emptied.
pub open spec fn spec_write_text(h: HistoryView, new_text: Seq<char>, record_undo: bool) -> HistoryView {
    if h.text == new_text {
        h
    } else {
        HistoryView {
            text: new_text,
            undo: if record_undo {
                spec_push_snapshot(h.undo, h.text)
            } else {
                h.undo
            },
            redo: seq![],
        }
    }
}

/// Clearing the text: nothing happens when it is empty; otherwise as writing empty text.
pub open spec fn spec_clear_text(h: HistoryView, record_undo: bool) -> HistoryView {
    spec_write_text(h, seq![], record_undo)
}

/// Starting an edit of valid points: the text is recorded for undo when asked, and the
/// redo stack emptied.
pub open spec fn spec_begin_points_edit(h: HistoryView, record_undo: bool) -> HistoryView {
    HistoryView {
        text: h.text,
        undo: if record_undo {
            spec_push_snapshot(h.undo, h.text)
        } else {
            h.undo
        },
        redo: seq![],
    }
}

/// A copy of a string.
fn copy_string(text: &String) -> (copy: String)
    ensures
        copy@ == text@,
{
    text.clone()
}

impl PointsHistory {
    /// An empty text with empty stacks.
    pub fn new() -> (history: PointsHistory)
        ensures
            history@.text == Seq::<char>::empty(),
            history@.undo == Seq::<Seq<char>>::empty(),
            history@.redo == Seq::<Seq<char>>::empty(),
    {
        PointsHistory { text: String::new(), undo_stack: Vec::new(), redo_stack: Vec::new() }
    }

    /// Records a snapshot for undo, unless the top snapshot already equals it; the oldest
    /// snapshots are dropped beyond `POINTS_HISTORY_LIMIT`.
    pub fn push_points_undo_snapshot(&mut self, snapshot: String)
        ensures
            final(self)@.text == old(self)@.text,
            final(self)@.redo == old(self)@.redo,
            final(self)@.undo == spec_push_snapshot(old(self)@.undo, snapshot@),
    {
        let len = self.undo_stack.len();
        if len > 0 && self.undo_stack[len - 1] == snapshot {
            return;
        }
        let ghost pushed = texts(self.undo_stack@).push(snapshot@);
        self.undo_stack.push(snapshot);
        proof {
            assert(texts(self.undo_stack@) =~= pushed);
        }
        let ghost mut removed: int = 0;
        while self.undo_stack.len() > POINTS_HISTORY_LIMIT
            invariant
                self.text == old(self).text,
                self.redo_stack == old(self).redo_stack,
                0 <= removed,
                self.undo_stack@.len() + removed == pushed.len(),
                pushed.len() > POINTS_HISTORY_LIMIT ==> self.undo_stack@.len() >= POINTS_HISTORY_LIMIT,
                pushed.len() <= POINTS_HISTORY_LIMIT ==> removed == 0,
                texts(self.undo_stack@) == pushed.skip(removed),
            decreases self.undo_stack.len(),
        {
            let ghost before = self.undo_stack@;
            self.undo_stack.remove(0);
            proof {
                assert(self.undo_stack@ =~= before.subrange(1, before.len() as int));
                assert forall|i: int| 0 <= i < self.undo_stack@.len() implies #[trigger] texts(
                    self.undo_stack@,
                )[i] == pushed.skip(removed + 1)[i] by {
                    assert(texts(before)[i + 1] == pushed.skip(removed)[i + 1]);
                }
                removed = removed + 1;
                assert(texts(self.undo_stack@) =~= pushed.skip(removed));
            }
        }
        proof {
            if pushed.len() <= POINTS_HISTORY_LIMIT {
                assert(pushed.skip(0) =~= pushed);
            }
        }
    }

    /// Replaces the text; returns whether it changed. The redo stack is emptied on a change
    /// unless `keep_redo`.
    pub fn apply_points_text_change(&mut self, new_text: String, keep_redo: bool) -> (changed: bool)
        ensures
            changed == (old(self)@.text != new_text@),
            final(self)@ == spec_apply_text_change(old(self)@, new_text@, keep_redo),
    {
        if self.text == new_text {
            return false;
        }
        self.text = new_text;
        if !keep_redo {
            self.redo_stack.clear();
        }
        proof {
            assert(texts(self.redo_stack@) =~= if keep_redo {
                old(self)@.redo
            } else {
                Seq::<Seq<char>>::empty()
            });
        }
        true
    }

    /// Undoes the last edit; returns whether there was one to undo.
    pub fn undo_points_edit(&mut self) -> (undone: bool)
        ensures
            undone == (old(self)@.undo.len() > 0),
            final(self)@ == spec_undo(old(self)@),
    {
        let previous = match self.undo_stack.pop() {
            Some(previous) => previous,
            None => return false,
        };
        let current = copy_string(&self.text);
        self.redo_stack.push(current);
        proof {
            assert(texts(self.undo_stack@) =~= old(self)@.undo.drop_last());
            assert(texts(self.redo_stack@) =~= old(self)@.redo.push(old(self)@.text));
        }
        self.apply_points_text_change(previous, true);
        true
    }

    /// Redoes the last undone edit; returns whether there was one to redo.
    pub fn redo_points_edit(&mut self) -> (redone: bool)
        ensures
            redone == (old(self)@.redo.len() > 0),
            final(self)@ == spec_redo(old(self)@),
    {
        let next = match self.redo_stack.pop() {
            Some(next) => next,
            None => return false,
        };
        proof {
            assert(texts(self.redo_stack@) =~= old(self)@.redo.drop_last());
        }
        let current = copy_string(&self.text);
        self.push_points_undo_snapshot(current);
        self.apply_points_text_change(next, true);
        true
    }

    /// Writes new text, recording the old text for undo when asked; returns whether the
    /// text changed.
    pub fn write_points_text(&mut self, new_text: String, record_undo: bool) -> (changed: bool)
        ensures
            changed == (old(self)@.text != new_text@),
            final(self)@ == spec_write_text(old(self)@, new_text@, record_undo),
    {
        if self.text == new_text {
            return false;
        }
        if record_undo {
            let current = copy_string(&self.text);
            self.push_points_undo_snapshot(current);
        }
        self.text = new_text;
        self.redo_stack.clear();
        proof {
            assert(texts(self.redo_stack@) =~= Seq::<Seq<char>>::empty());
        }
        true
    }

    /// Clears the text, recording it for undo when asked; returns whether it was non-empty.
    pub fn clear_points_text(&mut self, record_undo: bool) -> (changed: bool)
        ensures
            changed == (old(self)@.text.len() > 0),
            final(self)@ == spec_clear_text(old(self)@, record_undo),
    {
        let changed = self.write_points_text(String::new(), record_undo);
        proof {
            if old(self)@.text.len() > 0 {
                assert(old(self)@.text != Seq::<char>::empty());
            } else {
                assert(old(self)@.text =~= Seq::<char>::empty());
            }
        }
        changed
    }

    /// Prepares an edit of the parsed points: records the text for undo when asked and
    /// empties the redo stack.
    pub fn begin_points_edit(&mut self, record_undo: bool)
        ensures
            final(self)@ == spec_begin_points_edit(old(self)@, record_undo),
    {
        if record_undo {
            let current = copy_string(&self.text);
            self.push_points_undo_snapshot(current);
        }
        self.redo_stack.clear();
        proof {
            assert(texts(self.redo_stack@) =~= Seq::<Seq<char>>::empty());
        }
    }

    /// A copy of the history.
    pub fn duplicate(&self) -> (copy: PointsHistory)
        ensures
            copy@ == self@,
    {
        PointsHistory {
            text: copy_string(&self.text),
            undo_stack: copy_strings(&self.undo_stack),
            redo_stack: copy_strings(&self.redo_stack),
        }
    }
}

/// A copy of a list of strings.
fn copy_strings(strings: &Vec<String>) -> (copy: Vec<String>)
    ensures
        texts(copy@) == texts(strings@),
{
    let mut copy: Vec<String> = Vec::new();
    let mut k: usize = 0;
    while k < strings.len()
        invariant
            k <= strings.len(),
            texts(copy@) =~= texts(strings@).take(k as int),
        decreases strings.len() - k,
    {
        let ghost before = copy@;
        let item = copy_string(&strings[k]);
        let ghost item_view = item@;
        copy.push(item);
        proof {
            assert(texts(copy@) =~= texts(before).push(item_view));
            assert(texts(strings@).take(k + 1) =~= texts(strings@).take(k as int).push(
                strings@[k as int]@,
            ));
        }
        k = k + 1;
    }
    proof {
        assert(texts(strings@).take(strings.len() as int) =~= texts(strings@));
    }
    copy
}

/// Every operation keeps at most `POINTS_HISTORY_LIMIT` undo snapshots.
pub proof fn lemma_history_stays_bounded(h: HistoryView, text: Seq<char>, flag: bool)
    requires
        h.undo.len() <= POINTS_HISTORY_LIMIT,
    ensures
        spec_push_snapshot(h.undo, text).len() <= POINTS_HISTORY_LIMIT,
        spec_undo(h).undo.len() <= POINTS_HISTORY_LIMIT,
        spec_redo(h).undo.len() <= POINTS_HISTORY_LIMIT,
        spec_write_text(h, text, flag).undo.len() <= POINTS_HISTORY_LIMIT,
        spec_apply_text_change(h, text, flag).undo.len() <= POINTS_HISTORY_LIMIT,
        spec_clear_text(h, flag).undo.len() <= POINTS_HISTORY_LIMIT,
        spec_begin_points_edit(h, flag).undo.len() <= POINTS_HISTORY_LIMIT,
{
}

/// A recorded write is undone by one undo: the old text comes back, and the written text
/// is what redo would restore.
pub proof fn lemma_undo_reverts_write(h: HistoryView, new_text: Seq<char>)
    requires
        h.text != new_text,
    ensures
        spec_undo(spec_write_text(h, new_text, true)).text == h.text,
        spec_undo(spec_write_text(h, new_text, true)).redo == seq![new_text],
        spec_redo(spec_undo(spec_write_text(h, new_text, true))).text == new_text,
{
    let pushed = h.undo.push(h.text);
    if !(h.undo.len() > 0 && h.undo.last() == h.text) && pushed.len() > POINTS_HISTORY_LIMIT {
        assert(pushed.skip(pushed.len() - POINTS_HISTORY_LIMIT).last() == h.text);
    }
}

/// Redo undoes an undo: after undoing an edit, redo brings back the text from before it.
pub proof fn lemma_redo_reverts_undo(h: HistoryView)
    requires
        h.undo.len() > 0,
    ensures
        spec_redo(spec_undo(h)).text == h.text,
        spec_redo(spec_undo(h)).redo == h.redo,
{
    assert(h.redo.push(h.text).drop_last() =~= h.redo);
}

/// Undo and redo never touch the text when their stack is empty, and an edit that does not
/// change the text changes nothing.
pub proof fn lemma_no_op_edits(h: HistoryView, flag: bool)
    ensures
        h.undo.len() == 0 ==> spec_undo(h) == h,
        h.redo.len() == 0 ==> spec_redo(h) == h,
        spec_write_text(h, h.text, flag) == h,
        spec_apply_text_change(h, h.text, flag) == h,
{
}

/// Undo undoes a redo: redo records the text it replaces as the newest undo snapshot, so
/// an undo right after a redo brings that text back.
pub proof fn lemma_undo_reverts_redo(h: HistoryView)
    requires
        h.redo.len() > 0,
    ensures
        spec_redo(h).undo.len() > 0,
        spec_redo(h).undo.last() == h.text,
        spec_undo(spec_redo(h)).text == h.text,
{
    let pushed = h.undo.push(h.text);
    if !(h.undo.len() > 0 && h.undo.last() == h.text) && pushed.len() > POINTS_HISTORY_LIMIT {
        assert(pushed.skip(pushed.len() - POINTS_HISTORY_LIMIT).last() == h.text);
    }
}

} // verus!
