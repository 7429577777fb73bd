//! A line of text with a cursor, counted in characters.

use vstd::prelude::*;
use crate::text::{string_from_chars, string_of_range};

verus! {

/// The mathematical value of an [`InputBuffer`]: its characters and the cursor's index.
pub struct BufferModel {
    pub text: Seq<char>,
    pub cursor: nat,
}

impl BufferModel {
    /// The cursor stands on a character or just behind the last one.
    pub open spec fn wf(self) -> bool {
        self.cursor <= self.text.len()
    }

    /// The buffer with `c` put in at the cursor and the cursor moved behind it.
    pub open spec fn insert(self, c: char) -> BufferModel {
        BufferModel { text: self.text.insert(self.cursor as int, c), cursor: self.cursor + 1 }
    }

    /// Whether an insertion at this cursor asks for the completion to be computed anew.
    pub open spec fn insert_signals(self) -> bool {
        self.cursor > 0
    }

    /// The buffer after a backspace. Before the first character the cursor cannot go
    /// back, and the first character leaves instead.
    pub open spec fn remove_before_cursor(self) -> BufferModel {
        if self.text.len() == 0 {
            self
        } else if self.cursor > 0 {
            BufferModel {
                text: self.text.remove(self.cursor as int - 1),
                cursor: (self.cursor - 1) as nat,
            }
        } else {
            BufferModel { text: self.text.remove(0), cursor: 0 }
        }
    }

    /// Whether a backspace at this cursor asks for the completion to be computed anew.
    pub open spec fn remove_signals(self) -> bool {
        self.text.len() > 0 && self.cursor > 0
    }

    pub open spec fn move_left(self) -> BufferModel {
        BufferModel {
            text: self.text,
            cursor: if self.cursor > 0 {
                (self.cursor - 1) as nat
            } else {
                0
            },
        }
    }

    pub open spec fn move_right(self) -> BufferModel {
        BufferModel {
            text: self.text,
            cursor: if self.cursor < self.text.len() {
                self.cursor + 1
            } else {
                self.cursor
            },
        }
    }

    /// The characters in front of the cursor.
    pub open spec fn before_cursor(self) -> Seq<char> {
        self.text.subrange(0, self.cursor as int)
    }

    /// The characters from the cursor on.
    pub open spec fn after_cursor(self) -> Seq<char> {
        self.text.subrange(self.cursor as int, self.text.len() as int)
    }
}

/// One insertion of a run of edits: where the cursor stands, and what is typed there.
pub struct Keystroke {
    pub cursor: nat,
    pub ch: char,
}

/// The buffer after the cursor was placed and a character typed, once for each
/// keystroke in turn.
pub open spec fn type_all(m: BufferModel, keys: Seq<Keystroke>) -> BufferModel
    decreases keys.len(),
{
    if keys.len() == 0 {
        m
    } else {
        let first = BufferModel { text: m.text, cursor: keys[0].cursor }.insert(keys[0].ch);
        type_all(first, keys.drop_first())
    }
}

/// Every keystroke of the run finds its cursor inside the text as it is by then.
pub open spec fn cursors_valid(len: nat, keys: Seq<Keystroke>) -> bool {
    forall|i: int| 0 <= i < keys.len() ==> (#[trigger] keys[i]).cursor <= len + i
}

/// Insertions at valid cursor positions make the text longer by exactly their number,
/// and leave the cursor inside the text.
pub proof fn lemma_inserts_grow_by_count(m: BufferModel, keys: Seq<Keystroke>)
    requires
        m.wf(),
        cursors_valid(m.text.len(), keys),
    ensures
        type_all(m, keys).text.len() == m.text.len() + keys.len(),
        type_all(m, keys).wf(),
    decreases keys.len(),
{
    if keys.len() > 0 {
        let first = BufferModel { text: m.text, cursor: keys[0].cursor }.insert(keys[0].ch);
        let rest = keys.drop_first();
        assert forall|i: int| 0 <= i < rest.len() implies (#[trigger] rest[i]).cursor
            <= first.text.len() + i by {
            assert(rest[i] == keys[i + 1]);
        }
        lemma_inserts_grow_by_count(first, rest);
    }
}

/// A backspace behind at least one character is undone by typing that character again:
/// text and cursor are as before.
pub proof fn lemma_remove_then_insert_restores(m: BufferModel)
    requires
        m.wf(),
        m.cursor > 0,
    ensures
        m.remove_before_cursor().insert(m.text[m.cursor as int - 1]) == m,
{
    let r = m.remove_before_cursor();
    let back = r.insert(m.text[m.cursor as int - 1]);
    assert(back.text =~= m.text);
}

/// A line of text under edit, with a cursor that is never outside it.
#[derive(Debug, PartialEq, Eq)]
pub struct InputBuffer {
    chars: Vec<char>,
    cursor: usize,
}

impl View for InputBuffer {
    type V = BufferModel;

    closed spec fn view(&self) -> BufferModel {
        BufferModel { text: self.chars@, cursor: self.cursor as nat }
    }
}

impl Clone for InputBuffer {
    fn clone(&self) -> (b: InputBuffer)
        ensures
            b@ == self@,
    {
        proof {
            use_type_invariant(self);
        }
        InputBuffer { chars: self.chars.clone(), cursor: self.cursor }
    }
}

impl InputBuffer {
    #[verifier::type_invariant]
    spec fn inv(&self) -> bool {
        self.cursor <= self.chars.len()
    }

    /// An empty line with the cursor at its start.
    pub fn new() -> (b: InputBuffer)
        ensures
            b@.text == Seq::<char>::empty(),
            b@.cursor == 0,
            b@.wf(),
    {
        InputBuffer { chars: Vec::new(), cursor: 0 }
    }

    /// Puts `c` in at the cursor and moves the cursor behind it. The result says
    /// whether the completion is to be computed anew.
    pub fn insert(&mut self, c: char) -> (recompute: bool)
        ensures
            final(self)@ == old(self)@.insert(c),
            final(self)@.wf(),
            recompute == old(self)@.insert_signals(),
    {
        let mut taken = InputBuffer::new();
        core::mem::swap(self, &mut taken);
        proof {
            use_type_invariant(&taken);
        }
        let InputBuffer { mut chars, cursor } = taken;
        chars.insert(cursor, c);
        let len: usize = chars.len();
        assert(cursor < len);
        *self = InputBuffer { chars, cursor: cursor + 1 };
        cursor > 0
    }

    /// The backspace: takes out the character before the cursor and moves the cursor
    /// back. With the cursor before the first character, that character leaves and the
    /// cursor stays. The result says whether the completion is to be computed anew.
    pub fn remove_before_cursor(&mut self) -> (recompute: bool)
        ensures
            final(self)@ == old(self)@.remove_before_cursor(),
            final(self)@.wf(),
            recompute == old(self)@.remove_signals(),
    {
        let mut taken = InputBuffer::new();
        core::mem::swap(self, &mut taken);
        proof {
            use_type_invariant(&taken);
        }
        let InputBuffer { mut chars, cursor } = taken;
        if chars.len() == 0 {
            *self = InputBuffer { chars, cursor };
            false
        } else if cursor > 0 {
            chars.remove(cursor - 1);
            *self = InputBuffer { chars, cursor: cursor - 1 };
            true
        } else {
            chars.remove(0);
            *self = InputBuffer { chars, cursor };
            false
        }
    }

    /// Moves the cursor one character back, unless it is at the start.
    pub fn move_left(&mut self)
        ensures
            final(self)@ == old(self)@.move_left(),
            final(self)@.wf(),
    {
        proof {
            use_type_invariant(&*self);
        }
        if self.cursor > 0 {
            self.cursor = self.cursor - 1;
        }
    }

    /// Moves the cursor one character on, unless it is at the end.
    pub fn move_right(&mut self)
        ensures
            final(self)@ == old(self)@.move_right(),
            final(self)@.wf(),
    {
        proof {
            use_type_invariant(&*self);
        }
        if self.cursor < self.chars.len() {
            self.cursor = self.cursor + 1;
        }
    }

    /// Empties the line and puts the cursor at its start.
    pub fn clear(&mut self)
        ensures
            final(self)@.text == Seq::<char>::empty(),
            final(self)@.cursor == 0,
    {
        *self = InputBuffer::new();
    }

    /// The number of characters.
    pub fn len(&self) -> (n: usize)
        ensures
            n == self@.text.len(),
            self@.wf(),
    {
        proof {
            use_type_invariant(self);
        }
        self.chars.len()
    }

    /// Whether the line holds no character.
    pub fn is_empty(&self) -> (r: bool)
        ensures
            r == (self@.text.len() == 0),
    {
        self.chars.len() == 0
    }

    /// The cursor's index.
    pub fn cursor(&self) -> (n: usize)
        ensures
            n == self@.cursor,
            self@.wf(),
    {
        proof {
            use_type_invariant(self);
        }
        self.cursor
    }

    /// The whole line.
    pub fn text(&self) -> (s: String)
        ensures
            s@ == self@.text,
    {
        string_from_chars(&self.chars)
    }

    /// The line in two parts, what stands before the cursor and what stands from it
    /// on. With the cursor at the end the second part is empty.
    pub fn split_at_cursor(&self) -> (parts: (String, String))
        ensures
            parts.0@ == self@.before_cursor(),
            parts.1@ == self@.after_cursor(),
            parts.0@ + parts.1@ == self@.text,
    {
        proof {
            use_type_invariant(self);
        }
        let before = string_of_range(&self.chars, 0, self.cursor);
        let after = string_of_range(&self.chars, self.cursor, self.chars.len());
        assert(before@ + after@ =~= self@.text);
        (before, after)
    }
}

} // verus!
