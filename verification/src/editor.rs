//! The query input editor: a text buffer of Unicode scalar values together
//! with a cursor, both indexed consistently in scalar-value units.

use vstd::prelude::*;

verus! {

/// Mathematical abstraction of an [`InputBuffer`]: the text as a sequence of
/// scalar values and the cursor as an insertion point into that sequence.
pub struct BufView {
    pub text: Seq<char>,
    pub cursor: int,
}

impl BufView {
    /// The cursor is always a valid insertion point into the text.
    pub open spec fn wf(self) -> bool {
        0 <= self.cursor <= self.text.len()
    }

    /// Effect of inserting scalar value `c` at the cursor.
    pub open spec fn insert_at_cursor(self, c: char) -> BufView {
        BufView { text: self.text.insert(self.cursor, c), cursor: self.cursor + 1 }
    }

    /// Effect of deleting the scalar value just before the cursor;
    /// the identity when the cursor sits at the start.
    pub open spec fn delete_before_cursor(self) -> BufView {
        if self.cursor == 0 {
            self
        } else {
            BufView { text: self.text.remove(self.cursor - 1), cursor: self.cursor - 1 }
        }
    }

    /// Effect of moving the cursor one position left, saturating at the start.
    pub open spec fn cursor_left(self) -> BufView {
        if self.cursor == 0 {
            self
        } else {
            BufView { text: self.text, cursor: self.cursor - 1 }
        }
    }

    /// Effect of moving the cursor one position right, saturating at the end.
    pub open spec fn cursor_right(self) -> BufView {
        if self.cursor == self.text.len() {
            self
        } else {
            BufView { text: self.text, cursor: self.cursor + 1 }
        }
    }

    /// The empty buffer with the cursor at the start.
    pub open spec fn cleared() -> BufView {
        BufView { text: Seq::empty(), cursor: 0 }
    }
}

/// One editing operation on the buffer, as a value, so that whole histories
/// of edits can be reasoned about.
pub enum EditOp {
    Insert(char),
    DeleteBackward,
    MoveLeft,
    MoveRight,
}

/// Effect of one editing operation on a buffer.
pub open spec fn apply_edit(v: BufView, op: EditOp) -> BufView {
    match op {
        EditOp::Insert(c) => v.insert_at_cursor(c),
        EditOp::DeleteBackward => v.delete_before_cursor(),
        EditOp::MoveLeft => v.cursor_left(),
        EditOp::MoveRight => v.cursor_right(),
    }
}

/// Effect of a whole history of editing operations, applied in order.
pub open spec fn apply_edits(v: BufView, ops: Seq<EditOp>) -> BufView
    decreases ops.len(),
{
    if ops.len() == 0 {
        v
    } else {
        apply_edit(apply_edits(v, ops.drop_last()), ops.last())
    }
}

/// For every sequence of insert / delete-backward / move-left / move-right
/// operations, the cursor stays a valid insertion point: starting from any
/// well-formed buffer, any history of edits leaves
/// `0 <= cursor <= text.len()`.
pub proof fn lemma_edits_keep_cursor_in_bounds(v: BufView, ops: Seq<EditOp>)
    requires
        v.wf(),
    ensures
        apply_edits(v, ops).wf(),
    decreases ops.len(),
{
    if ops.len() > 0 {
        lemma_edits_keep_cursor_in_bounds(v, ops.drop_last());
    }
}

/// The query input buffer: text plus cursor position, mutated only by the
/// editing operations below. Storing the text as a vector of scalar values
/// keeps the cursor arithmetic and the storage mutations in the same units,
/// so a multi-byte character can never be split.
pub struct InputBuffer {
    pub text: Vec<char>,
    pub cursor: usize,
}

impl View for InputBuffer {
    type V = BufView;

    open spec fn view(&self) -> BufView {
        BufView { text: self.text@, cursor: self.cursor as int }
    }
}

impl InputBuffer {
    /// The cursor is always a valid insertion point.
    pub open spec fn wf(&self) -> bool {
        self@.wf()
    }

    /// An empty buffer.
    pub fn new() -> (r: InputBuffer)
        ensures
            r@ == BufView::cleared(),
            r.wf(),
    {
        InputBuffer { text: Vec::new(), cursor: 0 }
    }

    /// Insert scalar value `c` at the cursor, then advance the cursor past it.
    pub fn insert(&mut self, c: char)
        requires
            old(self).wf(),
        ensures
            final(self).wf(),
            final(self)@ == old(self)@.insert_at_cursor(c),
    {
        self.text.insert(self.cursor, c);
        proof {
            // The grown text still fits in a vector, so the old cursor,
            // strictly below the new length, can be advanced without overflow.
            vstd::std_specs::vec::axiom_spec_len(&self.text);
        }
        self.cursor = self.cursor + 1;
    }

    /// Remove the scalar value immediately before the cursor and step the
    /// cursor back over it; with the cursor at the start this changes nothing.
    pub fn delete_backward(&mut self)
        requires
            old(self).wf(),
        ensures
            final(self).wf(),
            final(self)@ == old(self)@.delete_before_cursor(),
            old(self).cursor == 0 ==> *final(self) == *old(self),
    {
        if self.cursor != 0 {
            self.text.remove(self.cursor - 1);
            self.cursor = self.cursor - 1;
        }
    }

    /// Move the cursor one position left, saturating at the start.
    pub fn move_left(&mut self)
        requires
            old(self).wf(),
        ensures
            final(self).wf(),
            final(self)@ == old(self)@.cursor_left(),
            final(self).text == old(self).text,
    {
        if self.cursor != 0 {
            self.cursor = self.cursor - 1;
        }
    }

    /// Move the cursor one position right, saturating at the end of the text.
    pub fn move_right(&mut self)
        requires
            old(self).wf(),
        ensures
            final(self).wf(),
            final(self)@ == old(self)@.cursor_right(),
            final(self).text == old(self).text,
    {
        if self.cursor < self.text.len() {
            self.cursor = self.cursor + 1;
        }
    }

    /// Empty the text and reset the cursor to the start.
    pub fn clear(&mut self)
        ensures
            final(self).wf(),
            final(self)@ == BufView::cleared(),
    {
        self.text.clear();
        self.cursor = 0;
    }
}

} // verus!
