//! The text buffer: an ordered sequence of characters together with a cursor,
//! mutated in place by discrete edit actions.

use vstd::prelude::*;

verus! {

/// An edit action applied to the buffer at its current cursor position.
#[derive(Clone, Debug, PartialEq, Eq)]
pub enum EditAction {
    /// Insert one character at the cursor.
    Insert(char),
    /// Insert a run of characters at the cursor.
    Paste(Vec<char>),
    /// Insert a line break at the cursor.
    Enter,
    /// Remove the character just before the cursor, if any.
    Backspace,
    /// Remove the character at the cursor, if any.
    Delete,
    /// Move the cursor one character to the left, if possible.
    MoveLeft,
    /// Move the cursor one character to the right, if possible.
    MoveRight,
}

/// The mathematical counterpart of `EditAction`.
pub enum EditModel {
    Insert(char),
    Paste(Seq<char>),
    Enter,
    Backspace,
    Delete,
    MoveLeft,
    MoveRight,
}

impl View for EditAction {
    type V = EditModel;

    open spec fn view(&self) -> EditModel {
        match self {
            EditAction::Insert(c) => EditModel::Insert(*c),
            EditAction::Paste(p) => EditModel::Paste(p@),
            EditAction::Enter => EditModel::Enter,
            EditAction::Backspace => EditModel::Backspace,
            EditAction::Delete => EditModel::Delete,
            EditAction::MoveLeft => EditModel::MoveLeft,
            EditAction::MoveRight => EditModel::MoveRight,
        }
    }
}

/// The mathematical state of a buffer: its text and the cursor's offset into it.
#[verifier::ext_equal]
pub struct BufferModel {
    pub text: Seq<char>,
    pub cursor: int,
}

impl BufferModel {
    /// The cursor always sits between 0 and the text's length, inclusive.
    pub open spec fn wf(&self) -> bool {
        0 <= self.cursor <= self.text.len()
    }

    pub open spec fn empty() -> BufferModel {
        BufferModel { text: Seq::empty(), cursor: 0 }
    }
}

/// What one edit action does to the buffer's state.
pub open spec fn apply_edit(b: BufferModel, a: EditModel) -> BufferModel {
    match a {
        EditModel::Insert(c) => BufferModel {
            text: b.text.insert(b.cursor, c),
            cursor: b.cursor + 1,
        },
        EditModel::Paste(p) => BufferModel {
            text: b.text.take(b.cursor) + p + b.text.skip(b.cursor),
            cursor: b.cursor + p.len(),
        },
        EditModel::Enter => BufferModel {
            text: b.text.insert(b.cursor, '\n'),
            cursor: b.cursor + 1,
        },
        EditModel::Backspace => if b.cursor > 0 {
            BufferModel { text: b.text.remove(b.cursor - 1), cursor: b.cursor - 1 }
        } else {
            b
        },
        EditModel::Delete => if b.cursor < b.text.len() {
            BufferModel { text: b.text.remove(b.cursor), cursor: b.cursor }
        } else {
            b
        },
        EditModel::MoveLeft => if b.cursor > 0 {
            BufferModel { text: b.text, cursor: b.cursor - 1 }
        } else {
            b
        },
        EditModel::MoveRight => if b.cursor < b.text.len() {
            BufferModel { text: b.text, cursor: b.cursor + 1 }
        } else {
            b
        },
    }
}

/// The sequential application of a whole sequence of edit actions.
pub open spec fn apply_edits(b: BufferModel, actions: Seq<EditModel>) -> BufferModel
    decreases actions.len(),
{
    if actions.len() == 0 {
        b
    } else {
        apply_edit(apply_edits(b, actions.drop_last()), actions.last())
    }
}

/// One edit action keeps the cursor inside the text.
pub proof fn lemma_apply_edit_wf(b: BufferModel, a: EditModel)
    requires
        b.wf(),
    ensures
        apply_edit(b, a).wf(),
{
}

/// Edit law: extending a sequence of edit actions by one more action yields
/// exactly the one-step effect of that action on the sequentially built state,
/// so applying actions one at a time equals their sequential application.
pub proof fn lemma_apply_edits_push(b: BufferModel, actions: Seq<EditModel>, a: EditModel)
    ensures
        apply_edits(b, actions.push(a)) == apply_edit(apply_edits(b, actions), a),
{
    assert(actions.push(a).drop_last() =~= actions);
    assert(actions.push(a).last() == a);
}

/// Any sequence of edit actions keeps the cursor inside the text.
pub proof fn lemma_apply_edits_wf(b: BufferModel, actions: Seq<EditModel>)
    requires
        b.wf(),
    ensures
        apply_edits(b, actions).wf(),
    decreases actions.len(),
{
    if actions.len() > 0 {
        lemma_apply_edits_wf(b, actions.drop_last());
        lemma_apply_edit_wf(apply_edits(b, actions.drop_last()), actions.last());
    }
}

/// Number of line breaks in a piece of text.
pub open spec fn line_of(s: Seq<char>) -> int
    decreases s.len(),
{
    if s.len() == 0 {
        0
    } else {
        line_of(s.drop_last()) + if s.last() == '\n' {
            1int
        } else {
            0int
        }
    }
}

/// Number of characters after the last line break of a piece of text.
pub open spec fn column_of(s: Seq<char>) -> int
    decreases s.len(),
{
    if s.len() == 0 {
        0
    } else if s.last() == '\n' {
        0
    } else {
        column_of(s.drop_last()) + 1
    }
}

/// The in-memory text being edited, with the cursor's position in it.
#[derive(Clone, Debug)]
pub struct Buffer {
    chars: Vec<char>,
    cursor: usize,
}

impl View for Buffer {
    type V = BufferModel;

    closed spec fn view(&self) -> BufferModel {
        BufferModel { text: self.chars@, cursor: self.cursor as int }
    }
}

impl Buffer {
    pub open spec fn wf(&self) -> bool {
        self@.wf()
    }

    /// An empty buffer with the cursor at the start.
    pub fn new() -> (r: Buffer)
        ensures
            r@ == BufferModel::empty(),
            r.wf(),
    {
        Buffer { chars: Vec::new(), cursor: 0 }
    }

    /// A buffer holding the given text, with the cursor at the start.
    pub fn from_chars(chars: Vec<char>) -> (r: Buffer)
        ensures
            r@.text == chars@,
            r@.cursor == 0,
            r.wf(),
    {
        Buffer { chars, cursor: 0 }
    }

    /// A snapshot of the buffer's text.
    pub fn text_chars(&self) -> (r: Vec<char>)
        ensures
            r@ == self@.text,
    {
        let mut r: Vec<char> = Vec::new();
        let mut i: usize = 0;
        while i < self.chars.len()
            invariant
                i <= self.chars@.len(),
                r@ == self.chars@.take(i as int),
            decreases self.chars@.len() - i,
        {
            r.push(self.chars[i]);
            proof {
                assert(self.chars@.take(i + 1).drop_last() =~= self.chars@.take(i as int));
                assert(r@ =~= self.chars@.take(i + 1));
            }
            i = i + 1;
        }
        proof {
            assert(self.chars@.take(self.chars@.len() as int) =~= self.chars@);
        }
        r
    }

    /// The cursor's position as a (line, column) pair, both counted from zero.
    pub fn cursor_position(&self) -> (r: (usize, usize))
        requires
            self.wf(),
        ensures
            r.0 == line_of(self@.text.take(self@.cursor)),
            r.1 == column_of(self@.text.take(self@.cursor)),
    {
        let mut line: usize = 0;
        let mut col: usize = 0;
        let mut i: usize = 0;
        while i < self.cursor
            invariant
                self.wf(),
                i <= self@.cursor,
                line == line_of(self@.text.take(i as int)),
                col == column_of(self@.text.take(i as int)),
                line <= i,
                col <= i,
            decreases self@.cursor - i,
        {
            let c = self.chars[i];
            proof {
                assert(self@.text.take(i + 1).drop_last() =~= self@.text.take(i as int));
                assert(self@.text.take(i + 1).last() == c);
            }
            if c == '\n' {
                line = line + 1;
                col = 0;
            } else {
                col = col + 1;
            }
            i = i + 1;
        }
        (line, col)
    }

    fn insert_char(&mut self, c: char)
        requires
            old(self).wf(),
        ensures
            final(self)@.text == old(self)@.text.insert(old(self)@.cursor, c),
            final(self)@.cursor == old(self)@.cursor + 1,
            final(self).wf(),
    {
        self.chars.insert(self.cursor, c);
        let n: usize = self.chars.len();
        assert(self.cursor < n);
        self.cursor = self.cursor + 1;
    }

    fn paste(&mut self, p: &Vec<char>)
        requires
            old(self).wf(),
        ensures
            final(self)@.text == old(self)@.text.take(old(self)@.cursor) + p@ + old(self)@.text.skip(
                old(self)@.cursor,
            ),
            final(self)@.cursor == old(self)@.cursor + p@.len(),
            final(self).wf(),
    {
        let ghost c0: int = old(self)@.cursor;
        let ghost t0: Seq<char> = old(self)@.text;
        proof {
            assert(self@.text =~= t0.take(c0) + p@.take(0) + t0.skip(c0));
        }
        let mut j: usize = 0;
        while j < p.len()
            invariant
                j <= p@.len(),
                0 <= c0 <= t0.len(),
                c0 + j == self@.cursor,
                self@.text =~= t0.take(c0) + p@.take(j as int) + t0.skip(c0),
                self.wf(),
            decreases p@.len() - j,
        {
            let ghost before: Seq<char> = self@.text;
            self.insert_char(p[j]);
            proof {
                let x = p@[j as int];
                before.insert_ensures(c0 + j, x);
                assert(self@.text =~= before.insert(c0 + j, x));
                assert(self@.text =~= t0.take(c0) + p@.take(j + 1) + t0.skip(c0));
            }
            j = j + 1;
        }
        proof {
            assert(p@.take(p@.len() as int) =~= p@);
            assert(self@.text =~= t0.take(c0) + p@ + t0.skip(c0));
        }
    }

    fn backspace(&mut self)
        requires
            old(self).wf(),
        ensures
            final(self)@ == apply_edit(old(self)@, EditModel::Backspace),
            final(self).wf(),
    {
        if self.cursor > 0 {
            self.cursor = self.cursor - 1;
            self.chars.remove(self.cursor);
        }
    }

    fn delete(&mut self)
        requires
            old(self).wf(),
        ensures
            final(self)@ == apply_edit(old(self)@, EditModel::Delete),
            final(self).wf(),
    {
        if self.cursor < self.chars.len() {
            self.chars.remove(self.cursor);
        }
    }

    fn move_left(&mut self)
        requires
            old(self).wf(),
        ensures
            final(self)@ == apply_edit(old(self)@, EditModel::MoveLeft),
            final(self).wf(),
    {
        if self.cursor > 0 {
            self.cursor = self.cursor - 1;
        }
    }

    fn move_right(&mut self)
        requires
            old(self).wf(),
        ensures
            final(self)@ == apply_edit(old(self)@, EditModel::MoveRight),
            final(self).wf(),
    {
        if self.cursor < self.chars.len() {
            self.cursor = self.cursor + 1;
        }
    }

    /// Apply one edit action at the cursor.
    pub fn edit(&mut self, a: EditAction)
        requires
            old(self).wf(),
        ensures
            final(self)@ == apply_edit(old(self)@, a@),
            final(self).wf(),
    {
        let ghost av: EditModel = a@;
        match a {
            EditAction::Insert(c) => self.insert_char(c),
            EditAction::Paste(p) => {
                self.paste(&p);
                proof {
                    assert(self@ =~= apply_edit(old(self)@, av));
                }
            },
            EditAction::Enter => self.insert_char('\n'),
            EditAction::Backspace => self.backspace(),
            EditAction::Delete => self.delete(),
            EditAction::MoveLeft => self.move_left(),
            EditAction::MoveRight => self.move_right(),
        }
    }
}

} // verus!
