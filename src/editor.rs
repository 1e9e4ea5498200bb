//! The text-entry buffer: a sequence of characters and a cursor between
//! them, edited one key at a time.

use vstd::prelude::*;
use crate::text::{alphanumeric, is_alphanumeric, string_of, trim_text, trimmed};

verus! {

/// One editing operation on the buffer.
#[derive(Debug, Clone, Copy, PartialEq, Eq, Structural)]
pub enum Edit {
    /// Insert the character at the cursor.
    Insert(char),
    /// Remove the character before the cursor.
    Backspace,
    /// Remove the character at the cursor.
    Delete,
    Left,
    Right,
    /// Move to the start of the current or previous word.
    WordLeft,
    /// Move past the current word and the separator after it.
    WordRight,
    Home,
    End,
}

/// The buffer's contents and cursor.
pub struct InputView {
    pub chars: Seq<char>,
    pub cursor: nat,
}

/// Start of the run of alphanumeric characters that ends at `pos`.
pub open spec fn word_start(chars: Seq<char>, pos: nat) -> nat
    decreases pos,
{
    if pos > 0 && alphanumeric(chars[pos - 1]) {
        word_start(chars, (pos - 1) as nat)
    } else {
        pos
    }
}

/// End of the run of alphanumeric characters that starts at `pos`.
pub open spec fn word_end(chars: Seq<char>, pos: nat) -> nat
    decreases chars.len() - pos,
{
    if pos < chars.len() && alphanumeric(chars[pos as int]) {
        word_end(chars, pos + 1)
    } else {
        pos
    }
}

/// Cursor after a word-left move: one step left, then left across
/// alphanumeric characters.
pub open spec fn word_left_target(chars: Seq<char>, cursor: nat) -> nat {
    word_start(chars, if cursor > 0 { (cursor - 1) as nat } else { 0 })
}

/// Cursor after a word-right move: right across alphanumeric characters, then
/// one more step unless at the end.
pub open spec fn word_right_target(chars: Seq<char>, cursor: nat) -> nat {
    let e = word_end(chars, cursor);
    if e < chars.len() {
        e + 1
    } else {
        e
    }
}

/// Whether `edit` removes a character when applied to `m`.
pub open spec fn removes(m: InputView, edit: Edit) -> bool {
    match edit {
        Edit::Backspace => m.cursor > 0,
        Edit::Delete => m.cursor < m.chars.len(),
        _ => false,
    }
}

/// The buffer after applying `edit` to `m`.
pub open spec fn edit_step(m: InputView, edit: Edit) -> InputView {
    match edit {
        Edit::Insert(c) => InputView { chars: m.chars.insert(m.cursor as int, c), cursor: m.cursor + 1 },
        Edit::Backspace => if m.cursor > 0 {
            InputView { chars: m.chars.remove(m.cursor - 1), cursor: (m.cursor - 1) as nat }
        } else {
            m
        },
        Edit::Delete => if m.cursor < m.chars.len() {
            InputView { chars: m.chars.remove(m.cursor as int), cursor: m.cursor }
        } else {
            m
        },
        Edit::Left => InputView {
            chars: m.chars,
            cursor: if m.cursor > 0 { (m.cursor - 1) as nat } else { 0 },
        },
        Edit::Right => InputView {
            chars: m.chars,
            cursor: if m.cursor < m.chars.len() { m.cursor + 1 } else { m.cursor },
        },
        Edit::WordLeft => InputView { chars: m.chars, cursor: word_left_target(m.chars, m.cursor) },
        Edit::WordRight => InputView {
            chars: m.chars,
            cursor: word_right_target(m.chars, m.cursor),
        },
        Edit::Home => InputView { chars: m.chars, cursor: 0 },
        Edit::End => InputView { chars: m.chars, cursor: m.chars.len() },
    }
}

/// The buffer after applying `edits` in order.
pub open spec fn run_edits(m: InputView, edits: Seq<Edit>) -> InputView
    decreases edits.len(),
{
    if edits.len() == 0 {
        m
    } else {
        run_edits(edit_step(m, edits[0]), edits.drop_first())
    }
}

/// Number of insertions among `edits`.
pub open spec fn inserted_count(edits: Seq<Edit>) -> nat
    decreases edits.len(),
{
    if edits.len() == 0 {
        0
    } else {
        (if edits[0] is Insert { 1nat } else { 0nat }) + inserted_count(edits.drop_first())
    }
}

/// Number of `edits` that remove a character when applied in order from `m`.
pub open spec fn removed_count(m: InputView, edits: Seq<Edit>) -> nat
    decreases edits.len(),
{
    if edits.len() == 0 {
        0
    } else {
        (if removes(m, edits[0]) { 1nat } else { 0nat }) + removed_count(
            edit_step(m, edits[0]),
            edits.drop_first(),
        )
    }
}

proof fn lemma_word_start_bounded(chars: Seq<char>, pos: nat)
    ensures
        word_start(chars, pos) <= pos,
    decreases pos,
{
    if pos > 0 && alphanumeric(chars[pos - 1]) {
        lemma_word_start_bounded(chars, (pos - 1) as nat);
    }
}

proof fn lemma_word_end_bounded(chars: Seq<char>, pos: nat)
    requires
        pos <= chars.len(),
    ensures
        pos <= word_end(chars, pos) <= chars.len(),
    decreases chars.len() - pos,
{
    if pos < chars.len() && alphanumeric(chars[pos as int]) {
        lemma_word_end_bounded(chars, pos + 1);
    }
}

/// Every edit keeps the cursor within the buffer, and changes the length by
/// one for an insertion, minus one for a removal, and zero otherwise.
pub proof fn lemma_edit_step(m: InputView, edit: Edit)
    requires
        m.cursor <= m.chars.len(),
    ensures
        edit_step(m, edit).cursor <= edit_step(m, edit).chars.len(),
        edit_step(m, edit).chars.len() + (if removes(m, edit) { 1int } else { 0int }) == m.chars.len()
            + (if edit is Insert { 1int } else { 0int }),
{
    match edit {
        Edit::WordLeft => {
            lemma_word_start_bounded(m.chars, if m.cursor > 0 { (m.cursor - 1) as nat } else { 0 });
        },
        Edit::WordRight => {
            lemma_word_end_bounded(m.chars, m.cursor);
        },
        _ => {},
    }
}

/// For every sequence of edits from a buffer whose cursor lies within it, the
/// final length is the initial length plus the insertions minus the removals,
/// and the cursor stays within the buffer.
pub proof fn lemma_edits_keep_length_and_cursor(m: InputView, edits: Seq<Edit>)
    requires
        m.cursor <= m.chars.len(),
    ensures
        run_edits(m, edits).chars.len() == m.chars.len() + inserted_count(edits) - removed_count(
            m,
            edits,
        ),
        run_edits(m, edits).cursor <= run_edits(m, edits).chars.len(),
    decreases edits.len(),
{
    if edits.len() > 0 {
        lemma_edit_step(m, edits[0]);
        lemma_edits_keep_length_and_cursor(edit_step(m, edits[0]), edits.drop_first());
    }
}

/// The characters being composed and the cursor, an index between them.
#[derive(Debug)]
pub struct InputBuffer {
    chars: Vec<char>,
    cursor: usize,
}

impl View for InputBuffer {
    type V = InputView;

    closed spec fn view(&self) -> InputView {
        InputView { chars: self.chars@, cursor: self.cursor as nat }
    }
}

impl InputBuffer {
    #[verifier::type_invariant]
    spec fn cursor_within(self) -> bool {
        self.cursor <= self.chars.len()
    }

    /// An empty buffer.
    pub fn new() -> (r: InputBuffer)
        ensures
            r@ == (InputView { chars: Seq::empty(), cursor: 0 }),
    {
        let r = InputBuffer { chars: Vec::new(), cursor: 0 };
        assert(r@.chars =~= Seq::<char>::empty());
        r
    }

    pub fn chars(&self) -> (r: &Vec<char>)
        ensures
            r@ == self@.chars,
    {
        &self.chars
    }

    pub fn cursor(&self) -> (r: usize)
        ensures
            r == self@.cursor,
            r <= self@.chars.len(),
    {
        proof {
            use_type_invariant(self);
        }
        self.cursor
    }

    fn copy_chars(&self) -> (r: Vec<char>)
        ensures
            r@ == self@.chars,
    {
        let r = self.chars.clone();
        assert(r@ =~= self.chars@);
        r
    }

    /// Number of characters in the buffer.
    pub fn len(&self) -> (r: usize)
        ensures
            r == self@.chars.len(),
    {
        self.chars.len()
    }

    /// The buffer's contents as a string.
    pub fn text(&self) -> (r: String)
        ensures
            r@ == self@.chars,
    {
        string_of(&self.chars)
    }

    /// Whether the contents are empty once trimmed of white space.
    pub fn is_blank(&self) -> (r: bool)
        ensures
            r == (trimmed(self@.chars).len() == 0),
    {
        let s = string_of(&self.chars);
        trim_text(s.as_str()).is_empty()
    }

    /// The contents with a block mark standing at the cursor.
    pub fn display(&self) -> (r: String)
        ensures
            r@ == self@.chars.insert(self@.cursor as int, '█'),
    {
        proof {
            use_type_invariant(self);
        }
        let mut shown = self.copy_chars();
        shown.insert(self.cursor, '█');
        string_of(&shown)
    }

    /// Empties the buffer and puts the cursor at the start.
    pub fn clear(&mut self)
        ensures
            final(self)@ == (InputView { chars: Seq::empty(), cursor: 0 }),
    {
        *self = InputBuffer::new();
    }

    pub fn insert_char_at_cursor(&mut self, c: char)
        ensures
            final(self)@ == edit_step(old(self)@, Edit::Insert(c)),
    {
        proof {
            use_type_invariant(&*self);
        }
        let mut chars = self.copy_chars();
        chars.insert(self.cursor, c);
        let n = chars.len();
        assert(self.cursor < n);
        *self = InputBuffer { chars, cursor: self.cursor + 1 };
    }

    pub fn delete_char_before_cursor(&mut self)
        ensures
            final(self)@ == edit_step(old(self)@, Edit::Backspace),
    {
        proof {
            use_type_invariant(&*self);
        }
        if self.cursor > 0 {
            let mut chars = self.copy_chars();
            chars.remove(self.cursor - 1);
            *self = InputBuffer { chars, cursor: self.cursor - 1 };
        }
    }

    pub fn delete_char_at_cursor(&mut self)
        ensures
            final(self)@ == edit_step(old(self)@, Edit::Delete),
    {
        proof {
            use_type_invariant(&*self);
        }
        if self.cursor < self.chars.len() {
            let mut chars = self.copy_chars();
            chars.remove(self.cursor);
            *self = InputBuffer { chars, cursor: self.cursor };
        }
    }

    /// Cursor position after a word-left move.
    pub fn word_left(&self) -> (r: usize)
        ensures
            r == word_left_target(self@.chars, self@.cursor),
    {
        proof {
            use_type_invariant(self);
        }
        let mut pos: usize = if self.cursor > 0 { self.cursor - 1 } else { 0 };
        while pos > 0 && is_alphanumeric(self.chars[pos - 1])
            invariant
                pos <= self.chars@.len(),
                word_start(self.chars@, pos as nat) == word_left_target(self@.chars, self@.cursor),
            decreases pos,
        {
            pos = pos - 1;
        }
        pos
    }

    /// Cursor position after a word-right move.
    pub fn word_right(&self) -> (r: usize)
        ensures
            r == word_right_target(self@.chars, self@.cursor),
    {
        proof {
            use_type_invariant(self);
        }
        let mut pos: usize = self.cursor;
        while pos < self.chars.len() && is_alphanumeric(self.chars[pos])
            invariant
                pos <= self.chars@.len(),
                word_end(self.chars@, pos as nat) == word_end(self@.chars, self@.cursor),
            decreases self.chars@.len() - pos,
        {
            pos = pos + 1;
        }
        if pos < self.chars.len() {
            pos = pos + 1;
        }
        pos
    }

    /// Applies one editing operation.
    pub fn apply(&mut self, edit: Edit)
        ensures
            final(self)@ == edit_step(old(self)@, edit),
    {
        proof {
            use_type_invariant(&*self);
            lemma_edit_step(self@, edit);
        }
        match edit {
            Edit::Insert(c) => self.insert_char_at_cursor(c),
            Edit::Backspace => self.delete_char_before_cursor(),
            Edit::Delete => self.delete_char_at_cursor(),
            Edit::Left => {
                if self.cursor > 0 {
                    self.cursor = self.cursor - 1;
                }
            },
            Edit::Right => {
                if self.cursor < self.chars.len() {
                    self.cursor = self.cursor + 1;
                }
            },
            Edit::WordLeft => {
                self.cursor = self.word_left();
            },
            Edit::WordRight => {
                self.cursor = self.word_right();
            },
            Edit::Home => {
                self.cursor = 0;
            },
            Edit::End => {
                self.cursor = self.chars.len();
            },
        }
    }
}

} // verus!
