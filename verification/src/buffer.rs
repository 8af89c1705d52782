//! An editable text buffer with a cursor and a selection.
//!
//! The buffer holds a sequence of characters together with a cursor and a
//! selection anchor, both indices into that sequence. When cursor and anchor
//! differ, the characters between them are selected. Content-modifying edits
//! replace the selection (or act at the cursor when nothing is selected);
//! movement actions only reposition cursor and anchor.

use vstd::prelude::*;

verus! {

/// A cursor movement inside a buffer.
#[derive(Copy, Clone, Debug, PartialEq, Eq, Structural)]
pub enum Motion {
    /// One character to the left.
    Left,
    /// One character to the right.
    Right,
    /// To the start of the text.
    Start,
    /// To the end of the text.
    End,
}

/// A content-modifying edit.
#[derive(Clone, Debug)]
pub enum Edit {
    /// Insert one character.
    Insert(char),
    /// Insert a line break.
    Enter,
    /// Insert a whole string of characters.
    Paste(Vec<char>),
    /// Remove the selection, or the character before the cursor.
    Backspace,
    /// Remove the selection, or the character after the cursor.
    Delete,
}

/// An action a text-editor widget can send to a buffer.
#[derive(Clone, Debug)]
pub enum Action {
    /// Move the cursor, collapsing the selection onto it.
    Move(Motion),
    /// Move the cursor, leaving the selection anchor in place.
    Select(Motion),
    /// Select the whole text.
    SelectAll,
    /// Change the text.
    Edit(Edit),
}

/// The characters an edit inserts in place of what it removes.
pub open spec fn edit_insertion(e: Edit) -> Seq<char> {
    match e {
        Edit::Insert(c) => seq![c],
        Edit::Enter => seq!['\n'],
        Edit::Paste(v) => v@,
        Edit::Backspace => Seq::empty(),
        Edit::Delete => Seq::empty(),
    }
}

/// A text buffer: characters plus cursor and selection anchor.
#[derive(Clone, Debug)]
pub struct Buffer {
    text: Vec<char>,
    cursor: usize,
    anchor: usize,
}

impl Buffer {
    /// The characters the buffer holds.
    pub closed spec fn spec_text(&self) -> Seq<char> {
        self.text@
    }

    /// The insertion point.
    pub closed spec fn spec_cursor(&self) -> int {
        self.cursor as int
    }

    /// The far end of the selection; equal to the cursor when nothing is
    /// selected.
    pub closed spec fn spec_anchor(&self) -> int {
        self.anchor as int
    }

    /// Cursor and anchor lie inside the text.
    pub open spec fn wf(&self) -> bool {
        &&& 0 <= self.spec_cursor() <= self.spec_text().len()
        &&& 0 <= self.spec_anchor() <= self.spec_text().len()
    }

    /// The buffer holds no characters.
    pub open spec fn spec_is_empty(&self) -> bool {
        self.spec_text().len() == 0
    }

    /// The lower end of the selection.
    pub open spec fn spec_sel_lo(&self) -> int {
        if self.spec_cursor() < self.spec_anchor() {
            self.spec_cursor()
        } else {
            self.spec_anchor()
        }
    }

    /// The upper end of the selection.
    pub open spec fn spec_sel_hi(&self) -> int {
        if self.spec_cursor() < self.spec_anchor() {
            self.spec_anchor()
        } else {
            self.spec_cursor()
        }
    }

    /// First index an edit removes: the selection's lower end, or for a
    /// backspace without a selection the character before the cursor.
    pub open spec fn spec_edit_lo(&self, e: Edit) -> int {
        if self.spec_sel_lo() != self.spec_sel_hi() {
            self.spec_sel_lo()
        } else {
            match e {
                Edit::Backspace => if self.spec_cursor() > 0 {
                    self.spec_cursor() - 1
                } else {
                    0
                },
                _ => self.spec_cursor(),
            }
        }
    }

    /// First index an edit keeps again: the selection's upper end, or for a
    /// delete without a selection the character after the cursor.
    pub open spec fn spec_edit_hi(&self, e: Edit) -> int {
        if self.spec_sel_lo() != self.spec_sel_hi() {
            self.spec_sel_hi()
        } else {
            match e {
                Edit::Delete => if self.spec_cursor() < self.spec_text().len() {
                    self.spec_cursor() + 1
                } else {
                    self.spec_cursor()
                },
                _ => self.spec_cursor(),
            }
        }
    }

    /// The text after an edit: what precedes the removed range, the inserted
    /// characters, then what follows the removed range.
    pub open spec fn spec_text_after_edit(&self, e: Edit) -> Seq<char> {
        self.spec_text().subrange(0, self.spec_edit_lo(e)) + edit_insertion(e)
            + self.spec_text().subrange(self.spec_edit_hi(e), self.spec_text().len() as int)
    }

    /// The cursor after an edit: right after the inserted characters.
    pub open spec fn spec_cursor_after_edit(&self, e: Edit) -> int {
        self.spec_edit_lo(e) + edit_insertion(e).len()
    }

    /// Where a motion places the cursor.
    pub open spec fn spec_motion_target(&self, m: Motion) -> int {
        match m {
            Motion::Left => if self.spec_cursor() > 0 {
                self.spec_cursor() - 1
            } else {
                0
            },
            Motion::Right => if self.spec_cursor() < self.spec_text().len() {
                self.spec_cursor() + 1
            } else {
                self.spec_text().len() as int
            },
            Motion::Start => 0,
            Motion::End => self.spec_text().len() as int,
        }
    }

    /// The text after an action: only an edit can change it.
    pub open spec fn spec_text_after(&self, a: Action) -> Seq<char> {
        match a {
            Action::Edit(e) => self.spec_text_after_edit(e),
            _ => self.spec_text(),
        }
    }

    /// The cursor after an action.
    pub open spec fn spec_cursor_after(&self, a: Action) -> int {
        match a {
            Action::Move(m) => self.spec_motion_target(m),
            Action::Select(m) => self.spec_motion_target(m),
            Action::SelectAll => self.spec_text().len() as int,
            Action::Edit(e) => self.spec_cursor_after_edit(e),
        }
    }

    /// The anchor after an action.
    pub open spec fn spec_anchor_after(&self, a: Action) -> int {
        match a {
            Action::Move(m) => self.spec_motion_target(m),
            Action::Select(_) => self.spec_anchor(),
            Action::SelectAll => 0,
            Action::Edit(e) => self.spec_cursor_after_edit(e),
        }
    }

    /// An empty buffer with the cursor at the start.
    pub fn new() -> (r: Buffer)
        ensures
            r.wf(),
            r.spec_text() == Seq::<char>::empty(),
            r.spec_cursor() == 0,
            r.spec_anchor() == 0,
    {
        Buffer { text: Vec::new(), cursor: 0, anchor: 0 }
    }

    /// A copy of the buffer's characters.
    pub fn text(&self) -> (r: Vec<char>)
        ensures
            r@ == self.spec_text(),
    {
        let r = self.text.clone();
        proof {
            assert(r@ =~= self.text@);
        }
        r
    }

    /// The insertion point.
    pub fn cursor(&self) -> (r: usize)
        ensures
            r as int == self.spec_cursor(),
    {
        self.cursor
    }

    /// The selection anchor.
    pub fn anchor(&self) -> (r: usize)
        ensures
            r as int == self.spec_anchor(),
    {
        self.anchor
    }

    /// Whether the buffer holds no characters.
    pub fn is_empty(&self) -> (r: bool)
        ensures
            r == self.spec_is_empty(),
    {
        self.text.len() == 0
    }

    /// Replaces the whole content, leaving the cursor at the end of the new
    /// text with nothing selected.
    pub fn replace_all(&mut self, new_text: Vec<char>)
        ensures
            final(self).wf(),
            final(self).spec_text() == new_text@,
            final(self).spec_cursor() == new_text@.len(),
            final(self).spec_anchor() == new_text@.len(),
    {
        let n = new_text.len();
        self.text = new_text;
        self.cursor = n;
        self.anchor = n;
    }

    /// Applies one editor action.
    pub fn apply(&mut self, a: &Action)
        requires
            old(self).wf(),
        ensures
            final(self).wf(),
            final(self).spec_text() == old(self).spec_text_after(*a),
            final(self).spec_cursor() == old(self).spec_cursor_after(*a),
            final(self).spec_anchor() == old(self).spec_anchor_after(*a),
    {
        match a {
            Action::Move(m) => {
                let t = self.motion_target(*m);
                self.cursor = t;
                self.anchor = t;
            },
            Action::Select(m) => {
                let t = self.motion_target(*m);
                self.cursor = t;
            },
            Action::SelectAll => {
                self.anchor = 0;
                self.cursor = self.text.len();
            },
            Action::Edit(e) => {
                self.apply_edit(e);
            },
        }
    }

    /// Where a motion places the cursor.
    fn motion_target(&self, m: Motion) -> (r: usize)
        requires
            self.wf(),
        ensures
            r as int == self.spec_motion_target(m),
    {
        match m {
            Motion::Left => if self.cursor > 0 {
                self.cursor - 1
            } else {
                0
            },
            Motion::Right => if self.cursor < self.text.len() {
                self.cursor + 1
            } else {
                self.text.len()
            },
            Motion::Start => 0,
            Motion::End => self.text.len(),
        }
    }

    /// Applies one content-modifying edit.
    fn apply_edit(&mut self, e: &Edit)
        requires
            old(self).wf(),
        ensures
            final(self).wf(),
            final(self).spec_text() == old(self).spec_text_after_edit(*e),
            final(self).spec_cursor() == old(self).spec_cursor_after_edit(*e),
            final(self).spec_anchor() == old(self).spec_cursor_after_edit(*e),
    {
        let lo = self.edit_lo(e);
        let hi = self.edit_hi(e);
        let ins: Vec<char> = match e {
            Edit::Insert(c) => {
                let mut v: Vec<char> = Vec::new();
                v.push(*c);
                v
            },
            Edit::Enter => {
                let mut v: Vec<char> = Vec::new();
                v.push('\n');
                v
            },
            Edit::Paste(p) => {
                let v = p.clone();
                proof {
                    assert(v@ =~= p@);
                }
                v
            },
            Edit::Backspace => Vec::new(),
            Edit::Delete => Vec::new(),
        };
        proof {
            assert(ins@ =~= edit_insertion(*e));
        }
        let tail_len = self.text.len() - hi;
        let new_text = splice(&self.text, lo, hi, &ins);
        let ncur = new_text.len() - tail_len;
        self.text = new_text;
        self.cursor = ncur;
        self.anchor = ncur;
    }

    /// First index the edit removes.
    fn edit_lo(&self, e: &Edit) -> (r: usize)
        requires
            self.wf(),
        ensures
            r as int == self.spec_edit_lo(*e),
            r <= self.spec_text().len(),
    {
        let sel_lo = if self.cursor < self.anchor {
            self.cursor
        } else {
            self.anchor
        };
        let sel_hi = if self.cursor < self.anchor {
            self.anchor
        } else {
            self.cursor
        };
        if sel_lo != sel_hi {
            sel_lo
        } else {
            match e {
                Edit::Backspace => if self.cursor > 0 {
                    self.cursor - 1
                } else {
                    0
                },
                _ => self.cursor,
            }
        }
    }

    /// First index past what the edit removes.
    fn edit_hi(&self, e: &Edit) -> (r: usize)
        requires
            self.wf(),
        ensures
            r as int == self.spec_edit_hi(*e),
            self.spec_edit_lo(*e) <= r <= self.spec_text().len(),
    {
        let sel_lo = if self.cursor < self.anchor {
            self.cursor
        } else {
            self.anchor
        };
        let sel_hi = if self.cursor < self.anchor {
            self.anchor
        } else {
            self.cursor
        };
        if sel_lo != sel_hi {
            sel_hi
        } else {
            match e {
                Edit::Delete => if self.cursor < self.text.len() {
                    self.cursor + 1
                } else {
                    self.cursor
                },
                _ => self.cursor,
            }
        }
    }
}

/// The characters of `text` with the range `lo..hi` replaced by `ins`.
fn splice(text: &Vec<char>, lo: usize, hi: usize, ins: &Vec<char>) -> (r: Vec<char>)
    requires
        lo <= hi <= text@.len(),
    ensures
        r@ == text@.subrange(0, lo as int) + ins@ + text@.subrange(hi as int, text@.len() as int),
        r@.len() == lo + ins@.len() + (text@.len() - hi),
{
    let mut out: Vec<char> = Vec::new();
    let mut i: usize = 0;
    while i < lo
        invariant
            lo <= hi <= text@.len(),
            i <= lo,
            out@ == text@.subrange(0, i as int),
        decreases lo - i,
    {
        out.push(text[i]);
        proof {
            assert(out@ =~= text@.subrange(0, i as int + 1));
        }
        i = i + 1;
    }
    let mut j: usize = 0;
    while j < ins.len()
        invariant
            lo <= hi <= text@.len(),
            j <= ins@.len(),
            out@ == text@.subrange(0, lo as int) + ins@.subrange(0, j as int),
        decreases ins@.len() - j,
    {
        out.push(ins[j]);
        proof {
            assert(out@ =~= text@.subrange(0, lo as int) + ins@.subrange(0, j as int + 1));
        }
        j = j + 1;
    }
    proof {
        assert(ins@.subrange(0, ins@.len() as int) =~= ins@);
    }
    let mut k: usize = hi;
    while k < text.len()
        invariant
            lo <= hi <= k <= text@.len(),
            out@ == text@.subrange(0, lo as int) + ins@ + text@.subrange(hi as int, k as int),
        decreases text@.len() - k,
    {
        out.push(text[k]);
        proof {
            assert(out@ =~= text@.subrange(0, lo as int) + ins@ + text@.subrange(
                hi as int,
                k as int + 1,
            ));
        }
        k = k + 1;
    }
    out
}

/// A cursor-movement or selection action never changes a buffer's text; only
/// a content-modifying edit can.
pub proof fn lemma_non_edit_preserves_text(b: Buffer, a: Action)
    requires
        !(a is Edit),
    ensures
        b.spec_text_after(a) == b.spec_text(),
{
}

} // verus!
