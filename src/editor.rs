//! A single-field text editor whose cursor is a character index.

use vstd::prelude::*;

use crate::text::string_of_chars;

verus! {

/// What the editor holds, as mathematics: the characters and the cursor.
pub struct EditorView {
    pub content: Seq<char>,
    pub cursor: nat,
}

/// One editing step on a [`TextEditBuffer`].
pub enum EditOp {
    /// Insert a character at the cursor.
    Insert(char),
    /// Remove the character left of the cursor.
    DeleteBefore,
    MoveLeft,
    MoveRight,
    /// Empty the buffer.
    Clear,
}

impl EditorView {
    /// The cursor sits between two characters or at either end.
    pub open spec fn cursor_in_bounds(self) -> bool {
        self.cursor <= self.content.len()
    }

    pub open spec fn empty() -> EditorView {
        EditorView { content: Seq::empty(), cursor: 0 }
    }

    pub open spec fn inserted(self, c: char) -> EditorView {
        EditorView { content: self.content.insert(self.cursor as int, c), cursor: self.cursor + 1 }
    }

    pub open spec fn deleted_before(self) -> EditorView {
        if self.cursor == 0 {
            self
        } else {
            EditorView {
                content: self.content.remove(self.cursor - 1),
                cursor: (self.cursor - 1) as nat,
            }
        }
    }

    pub open spec fn moved_left(self) -> EditorView {
        if self.cursor == 0 {
            self
        } else {
            EditorView { content: self.content, cursor: (self.cursor - 1) as nat }
        }
    }

    pub open spec fn moved_right(self) -> EditorView {
        if self.cursor < self.content.len() {
            EditorView { content: self.content, cursor: self.cursor + 1 }
        } else {
            EditorView { content: self.content, cursor: self.content.len() }
        }
    }

    /// The state after one editing step.
    pub open spec fn apply(self, op: EditOp) -> EditorView {
        match op {
            EditOp::Insert(c) => self.inserted(c),
            EditOp::DeleteBefore => self.deleted_before(),
            EditOp::MoveLeft => self.moved_left(),
            EditOp::MoveRight => self.moved_right(),
            EditOp::Clear => EditorView::empty(),
        }
    }

    /// The state after a whole sequence of editing steps, first to last.
    pub open spec fn apply_all(self, ops: Seq<EditOp>) -> EditorView
        decreases ops.len(),
    {
        if ops.len() == 0 {
            self
        } else {
            self.apply(ops[0]).apply_all(ops.drop_first())
        }
    }
}

/// Lines joined with a line break between each two.
pub open spec fn join_lines(lines: Seq<Seq<char>>) -> Seq<char>
    decreases lines.len(),
{
    if lines.len() == 0 {
        Seq::empty()
    } else if lines.len() == 1 {
        lines[0]
    } else {
        join_lines(lines.drop_last()) + seq!['\n'] + lines.last()
    }
}

proof fn lemma_join_push(lines: Seq<Seq<char>>, x: Seq<char>)
    requires
        lines.len() >= 1,
    ensures
        join_lines(lines.push(x)) == join_lines(lines) + seq!['\n'] + x,
{
    assert(lines.push(x).drop_last() =~= lines);
}

proof fn lemma_join_extend_last(lines: Seq<Seq<char>>, x: Seq<char>, c: char)
    ensures
        join_lines(lines.push(x.push(c))) == join_lines(lines.push(x)).push(c),
{
    if lines.len() == 0 {
        assert(lines.push(x.push(c))[0] == x.push(c));
        assert(lines.push(x)[0] == x);
    } else {
        lemma_join_push(lines, x.push(c));
        lemma_join_push(lines, x);
        assert(join_lines(lines) + seq!['\n'] + x.push(c) =~= (join_lines(lines) + seq!['\n']
            + x).push(c));
    }
}

/// No sequence of editing steps takes the cursor out of `[0, character count]`.
pub proof fn lemma_edits_keep_cursor_in_bounds(v: EditorView, ops: Seq<EditOp>)
    requires
        v.cursor_in_bounds(),
    ensures
        v.apply_all(ops).cursor_in_bounds(),
    decreases ops.len(),
{
    if ops.len() > 0 {
        lemma_edits_keep_cursor_in_bounds(v.apply(ops[0]), ops.drop_first());
    }
}

/// Deleting before the cursor changes nothing where the cursor is at the start,
/// in particular on an empty buffer; so doing it again there changes nothing either.
pub proof fn lemma_delete_at_start_is_no_op(v: EditorView)
    requires
        v.cursor_in_bounds(),
        v.cursor == 0 || v.content.len() == 0,
    ensures
        v.deleted_before() == v,
        v.deleted_before().deleted_before() == v,
{
}

/// A draft message being edited: a sequence of characters and a cursor that
/// always sits on a character boundary, between `0` and the character count.
pub struct TextEditBuffer {
    chars: Vec<char>,
    cursor: usize,
}

impl View for TextEditBuffer {
    type V = EditorView;

    closed spec fn view(&self) -> EditorView {
        EditorView { content: self.chars@, cursor: self.cursor as nat }
    }
}

impl TextEditBuffer {
    #[verifier::type_invariant]
    spec fn cursor_in_bounds(&self) -> bool {
        self.cursor <= self.chars.len()
    }

    /// An empty buffer with the cursor at the start.
    pub fn new() -> (r: TextEditBuffer)
        ensures
            r@ == EditorView::empty(),
    {
        TextEditBuffer { chars: Vec::new(), cursor: 0 }
    }

    /// Takes the characters out, leaving an empty buffer behind.
    fn take_chars(&mut self) -> (r: (Vec<char>, usize))
        ensures
            r.0@ == old(self)@.content,
            r.1 == old(self)@.cursor,
            r.1 <= r.0.len(),
            final(self)@ == EditorView::empty(),
    {
        proof { use_type_invariant(&*self); }
        let at = self.cursor;
        self.cursor = 0;
        let mut chars = Vec::new();
        std::mem::swap(&mut chars, &mut self.chars);
        (chars, at)
    }

    /// Inserts `c` at the cursor and moves the cursor past it.
    pub fn insert(&mut self, c: char)
        requires
            old(self)@.content.len() < usize::MAX,
        ensures
            final(self)@ == old(self)@.inserted(c),
            final(self)@.cursor_in_bounds(),
    {
        let (mut chars, at) = self.take_chars();
        chars.insert(at, c);
        self.chars = chars;
        self.cursor = at + 1;
    }

    /// Removes the character left of the cursor and moves the cursor onto its
    /// place; does nothing with the cursor at the start.
    pub fn delete_before_cursor(&mut self)
        ensures
            final(self)@ == old(self)@.deleted_before(),
            final(self)@.cursor_in_bounds(),
    {
        let (mut chars, at) = self.take_chars();
        if at > 0 {
            chars.remove(at - 1);
            self.chars = chars;
            self.cursor = at - 1;
        } else {
            self.chars = chars;
            self.cursor = at;
        }
    }

    /// Moves the cursor one character left, stopping at the start.
    pub fn move_left(&mut self)
        ensures
            final(self)@ == old(self)@.moved_left(),
            final(self)@.cursor_in_bounds(),
    {
        proof { use_type_invariant(&*self); }
        if self.cursor > 0 {
            self.cursor = self.cursor - 1;
        }
    }

    /// Moves the cursor one character right, stopping at the end.
    pub fn move_right(&mut self)
        ensures
            final(self)@ == old(self)@.moved_right(),
            final(self)@.cursor_in_bounds(),
    {
        proof { use_type_invariant(&*self); }
        if self.cursor < self.chars.len() {
            self.cursor = self.cursor + 1;
        }
    }

    /// Empties the buffer.
    pub fn clear(&mut self)
        ensures
            final(self)@ == EditorView::empty(),
    {
        self.cursor = 0;
        self.chars = Vec::new();
    }

    /// Performs one editing step.
    pub fn apply(&mut self, op: EditOp)
        requires
            op is Insert ==> old(self)@.content.len() < usize::MAX,
        ensures
            final(self)@ == old(self)@.apply(op),
            final(self)@.cursor_in_bounds(),
    {
        match op {
            EditOp::Insert(c) => self.insert(c),
            EditOp::DeleteBefore => self.delete_before_cursor(),
            EditOp::MoveLeft => self.move_left(),
            EditOp::MoveRight => self.move_right(),
            EditOp::Clear => self.clear(),
        }
    }

    /// The draft as a string.
    pub fn content(&self) -> (r: String)
        ensures
            r@ == self@.content,
    {
        string_of_chars(self.chars.as_slice())
    }

    /// The draft cut at each line break: the lines hold no line break, and
    /// joined with one between each two they give the draft back.
    pub fn as_lines(&self) -> (r: Vec<String>)
        ensures
            r.len() >= 1,
            join_lines(r@.map_values(|l: String| l@)) == self@.content,
            forall|i: int, j: int|
                0 <= i < r.len() && 0 <= j < r@[i]@.len() ==> r@[i]@[j] != '\n',
    {
        let mut lines: Vec<String> = Vec::new();
        let mut current: Vec<char> = Vec::new();
        let mut i: usize = 0;
        while i < self.chars.len()
            invariant
                i <= self.chars.len(),
                join_lines(lines@.map_values(|l: String| l@).push(current@))
                    == self.chars@.subrange(0, i as int),
                forall|k: int, j: int|
                    0 <= k < lines.len() && 0 <= j < lines@[k]@.len() ==> lines@[k]@[j] != '\n',
                forall|j: int| 0 <= j < current.len() ==> current@[j] != '\n',
            decreases self.chars.len() - i,
        {
            let c = self.chars[i];
            let ghost before = lines@.map_values(|l: String| l@);
            if c == '\n' {
                let line = string_of_chars(current.as_slice());
                lines.push(line);
                proof {
                    assert(lines@.map_values(|l: String| l@) =~= before.push(current@));
                    lemma_join_push(before.push(current@), Seq::empty());
                    assert(join_lines(before.push(current@).push(Seq::empty())) =~= self.chars@.subrange(
                        0,
                        i + 1,
                    ));
                }
                current = Vec::new();
            } else {
                proof {
                    lemma_join_extend_last(before, current@, c);
                }
                current.push(c);
                proof {
                    assert(self.chars@.subrange(0, i as int).push(c) =~= self.chars@.subrange(
                        0,
                        i + 1,
                    ));
                }
            }
            i = i + 1;
        }
        let ghost before = lines@.map_values(|l: String| l@);
        let last = string_of_chars(current.as_slice());
        lines.push(last);
        proof {
            assert(lines@.map_values(|l: String| l@) =~= before.push(current@));
            assert(self.chars@.subrange(0, i as int) =~= self.chars@);
        }
        lines
    }

    /// The cursor, as a character index into the draft.
    pub fn cursor(&self) -> (r: usize)
        ensures
            r == self@.cursor,
            r <= self@.content.len(),
    {
        proof { use_type_invariant(self); }
        self.cursor
    }

    /// The number of characters in the draft.
    pub fn char_count(&self) -> (r: usize)
        ensures
            r == self@.content.len(),
    {
        self.chars.len()
    }
}

} // verus!
