//! A one-line text editor: a buffer of characters, a cursor counted in
//! characters, and one saved copy of both for an edit that may be cancelled.

use crate::text::{
    byte_offset, insert_at_byte, lemma_encode_injective, lemma_splice_is_insert, without_char,
};
use vstd::prelude::*;
use vstd::string::*;

verus! {

/// The editor as plain values. The cursor counts characters, never bytes.
pub struct InputterView {
    pub input: Seq<char>,
    pub cursor: nat,
    pub saved_input: Seq<char>,
    pub saved_cursor: nat,
    pub render_placeholder: bool,
}

impl InputterView {
    /// The cursor stands on a character or just behind the last one.
    pub open spec fn cursor_in_line(self) -> bool {
        self.cursor <= self.input.len()
    }

    /// The cursor is within the line, and the saved cursor within the saved
    /// line.
    pub open spec fn wf(self) -> bool {
        self.cursor_in_line() && self.saved_cursor <= self.saved_input.len()
    }

    /// The empty editor.
    pub open spec fn empty() -> InputterView {
        InputterView {
            input: Seq::empty(),
            cursor: 0,
            saved_input: Seq::empty(),
            saved_cursor: 0,
            render_placeholder: true,
        }
    }

    /// `idx` brought into the range of cursor positions.
    pub open spec fn clamp(self, idx: nat) -> nat {
        if idx <= self.input.len() {
            idx
        } else {
            self.input.len()
        }
    }

    /// Buffer and cursor copied into the saved pair.
    pub open spec fn save(self) -> InputterView {
        InputterView { saved_input: self.input, saved_cursor: self.cursor, ..self }
    }

    /// The saved pair copied back into buffer and cursor.
    pub open spec fn restore(self) -> InputterView {
        InputterView { input: self.saved_input, cursor: self.saved_cursor, ..self }
    }

    /// The cursor put at `idx`, clamped; the placeholder shows exactly when
    /// the cursor then stands at the start.
    pub open spec fn seek(self, idx: nat) -> InputterView {
        InputterView {
            cursor: self.clamp(idx),
            render_placeholder: self.clamp(idx) == 0,
            ..self
        }
    }

    /// One step to the right, not past the end.
    pub open spec fn right(self) -> InputterView {
        self.seek(self.cursor + 1)
    }

    /// One step to the left, not before the start.
    pub open spec fn left(self) -> InputterView {
        self.seek(
            if self.cursor == 0 {
                0
            } else {
                (self.cursor - 1) as nat
            },
        )
    }

    /// The cursor at the start of the line.
    pub open spec fn move_to_start(self) -> InputterView {
        InputterView { cursor: 0, ..self }
    }

    /// The cursor behind the last character.
    pub open spec fn move_to_end(self) -> InputterView {
        InputterView { cursor: self.input.len(), ..self }
    }

    /// Empty buffer, cursor at the start.
    pub open spec fn reset(self) -> InputterView {
        InputterView { input: Seq::empty(), cursor: 0, render_placeholder: true, ..self }
    }

    /// `c` put in at the cursor (at the end, if the cursor is beyond it), the
    /// cursor one step further.
    pub open spec fn insert(self, c: char) -> InputterView {
        InputterView {
            input: self.input.insert(self.clamp(self.cursor) as int, c),
            ..self
        }.right()
    }

    /// The character before the cursor removed, the cursor one step back.
    /// Nothing changes with the cursor at the start.
    pub open spec fn delete_left(self) -> InputterView {
        if self.cursor == 0 {
            self
        } else if self.cursor <= self.input.len() {
            InputterView { input: self.input.remove(self.cursor - 1), ..self }.left()
        } else {
            self.left()
        }
    }

    /// The character at the cursor removed, the cursor where it was.
    /// Nothing changes with the cursor at or beyond the end.
    pub open spec fn delete_right(self) -> InputterView {
        if self.cursor < self.input.len() {
            InputterView { input: self.input.remove(self.cursor as int), ..self }
        } else {
            self
        }
    }

    /// `delete_right` or `delete_left`, as `right` says.
    pub open spec fn delete(self, right: bool) -> InputterView {
        if right {
            self.delete_right()
        } else {
            self.delete_left()
        }
    }

    /// The buffer replaced by `text`, the cursor behind its last character.
    pub open spec fn load(self, text: Seq<char>) -> InputterView {
        InputterView { input: text, cursor: text.len(), ..self }
    }
}

/// One change to the line, as a key press can ask for it.
pub enum Edit {
    Insert(char),
    Left,
    Right,
    Start,
    End,
    DeleteLeft,
    DeleteRight,
    Reset,
    Load(Seq<char>),
}

impl InputterView {
    /// The editor after one change.
    pub open spec fn apply(self, edit: Edit) -> InputterView {
        match edit {
            Edit::Insert(c) => self.insert(c),
            Edit::Left => self.left(),
            Edit::Right => self.right(),
            Edit::Start => self.move_to_start(),
            Edit::End => self.move_to_end(),
            Edit::DeleteLeft => self.delete_left(),
            Edit::DeleteRight => self.delete_right(),
            Edit::Reset => self.reset(),
            Edit::Load(text) => self.load(text),
        }
    }

    /// The editor after the changes of `edits`, first to last.
    pub open spec fn apply_all(self, edits: Seq<Edit>) -> InputterView
        decreases edits.len(),
    {
        if edits.len() == 0 {
            self
        } else {
            self.apply_all(edits.drop_last()).apply(edits.last())
        }
    }
}

/// Whatever is done to the line, in whatever order, the cursor stays on a
/// character of the line or just behind the last one.
pub proof fn law_cursor_stays_in_line(start: InputterView, edits: Seq<Edit>)
    requires
        start.cursor_in_line(),
    ensures
        start.apply_all(edits).cursor_in_line(),
    decreases edits.len(),
{
    if edits.len() > 0 {
        law_cursor_stays_in_line(start, edits.drop_last());
    }
}

/// A step left or right ends within the line wherever the cursor stood
/// before, so any run of such steps does.
pub proof fn law_moves_stay_in_line(start: InputterView, moves: Seq<Edit>)
    requires
        moves.len() > 0,
        forall|i: int| 0 <= i < moves.len() ==> moves[i] is Left || moves[i] is Right,
    ensures
        start.apply_all(moves).cursor_in_line(),
{
}

/// Inserting a character makes the line one character longer and moves the
/// cursor one character on, whatever the character takes in bytes.
pub proof fn law_insert_advances(before: InputterView, c: char)
    requires
        before.cursor_in_line(),
    ensures
        before.insert(c).input.len() == before.input.len() + 1,
        before.insert(c).cursor == before.cursor + 1,
        before.insert(c).input[before.cursor as int] == c,
{
}

/// Deleting the character before the cursor and typing it again gives back
/// the line and the cursor as they were.
pub proof fn law_delete_left_then_insert(before: InputterView)
    requires
        before.cursor_in_line(),
        before.cursor > 0,
    ensures
        before.delete_left().insert(before.input[before.cursor - 1]).input == before.input,
        before.delete_left().insert(before.input[before.cursor - 1]).cursor == before.cursor,
{
    let c = before.input[before.cursor - 1];
    assert(before.delete_left().insert(c).input =~= before.input);
}

/// With the cursor at the start there is nothing to delete on the left.
pub proof fn law_delete_left_at_start(before: InputterView)
    requires
        before.cursor == 0,
    ensures
        before.delete_left() == before,
{
}

/// After `save`, whatever is done to the line, `restore` brings back the
/// line and the cursor as they were at the `save`.
pub proof fn law_restore_after_edits(before: InputterView, edits: Seq<Edit>)
    ensures
        before.save().apply_all(edits).restore().input == before.input,
        before.save().apply_all(edits).restore().cursor == before.cursor,
{
    lemma_edits_keep_saved(before.save(), edits);
}

/// No change to the line touches the saved pair.
pub proof fn lemma_edits_keep_saved(start: InputterView, edits: Seq<Edit>)
    ensures
        start.apply_all(edits).saved_input == start.saved_input,
        start.apply_all(edits).saved_cursor == start.saved_cursor,
    decreases edits.len(),
{
    if edits.len() > 0 {
        lemma_edits_keep_saved(start, edits.drop_last());
    }
}

/// The state of the input line.
#[derive(Debug)]
pub struct Inputter {
    pub input: String,
    pub cursor: usize,
    pub saved_input: String,
    pub saved_cursor: usize,
    pub render_placeholder: bool,
}

impl View for Inputter {
    type V = InputterView;

    open spec fn view(&self) -> InputterView {
        InputterView {
            input: self.input@,
            cursor: self.cursor as nat,
            saved_input: self.saved_input@,
            saved_cursor: self.saved_cursor as nat,
            render_placeholder: self.render_placeholder,
        }
    }
}

impl Inputter {
    /// An empty line with the cursor at its start and nothing saved.
    pub fn new() -> (r: Inputter)
        ensures
            r@ == InputterView::empty(),
    {
        Inputter {
            input: String::new(),
            cursor: 0,
            saved_input: String::new(),
            saved_cursor: 0,
            render_placeholder: true,
        }
    }

    /// Number of characters in the buffer.
    pub fn char_count(&self) -> (n: usize)
        ensures
            n == self@.input.len(),
    {
        self.input.as_str().unicode_len()
    }

    /// Keeps a copy of the line and the cursor for a later `restore`.
    pub fn save(&mut self)
        ensures
            final(self)@ == old(self)@.save(),
            old(self)@.cursor_in_line() ==> final(self)@.wf(),
    {
        self.saved_cursor = self.cursor;
        self.saved_input = self.input.clone();
    }

    /// Puts back the line and the cursor that `save` kept, and drops what
    /// was typed since.
    pub fn restore(&mut self)
        ensures
            final(self)@ == old(self)@.restore(),
            old(self)@.wf() ==> final(self)@.wf(),
    {
        self.cursor = self.saved_cursor;
        self.input = self.saved_input.clone();
    }

    /// `idx`, or the number of characters in the line if `idx` is beyond
    /// it. That number fits the index type.
    pub fn clamp(&self, idx: usize) -> (r: usize)
        ensures
            r == self@.clamp(idx as nat),
            self@.input.len() <= usize::MAX,
    {
        let count: usize = self.char_count();
        if idx <= count {
            idx
        } else {
            count
        }
    }

    /// The byte position in the line at which the cursor stands: the number
    /// of bytes that the characters before it take. A cursor beyond the end
    /// counts as one at the end.
    pub fn byte_index(&self) -> (r: usize)
        ensures
            r == byte_offset(self@.input, self@.clamp(self@.cursor) as int),
    {
        let at: usize = self.clamp(self.cursor);
        let head: &str = self.input.as_str().substring_char(0, at);
        head.as_bytes().len()
    }

    /// Moves the cursor one character to the right, unless it is at the end.
    pub fn right(&mut self)
        ensures
            final(self)@ == old(self)@.right(),
            final(self)@.cursor_in_line(),
    {
        self.cursor = self.clamp(self.cursor.saturating_add(1));
        self.render_placeholder = self.cursor == 0;
    }

    /// Moves the cursor one character to the left, unless it is at the
    /// start.
    pub fn left(&mut self)
        ensures
            final(self)@ == old(self)@.left(),
            final(self)@.cursor_in_line(),
    {
        self.cursor = self.clamp(self.cursor.saturating_sub(1));
        self.render_placeholder = self.cursor == 0;
    }

    /// Cursor to the start of the line.
    pub fn move_to_start(&mut self)
        ensures
            final(self)@ == old(self)@.move_to_start(),
            final(self)@.cursor_in_line(),
    {
        self.cursor = 0;
    }

    /// Cursor behind the last character.
    pub fn move_to_end(&mut self)
        ensures
            final(self)@ == old(self)@.move_to_end(),
            final(self)@.cursor_in_line(),
    {
        self.cursor = self.char_count();
    }

    /// Empties the line and puts the cursor at its start. What was saved
    /// stays saved.
    pub fn reset(&mut self)
        ensures
            final(self)@ == old(self)@.reset(),
            final(self)@.cursor_in_line(),
    {
        self.cursor = 0;
        self.render_placeholder = true;
        self.input = String::new();
    }

    /// Puts `c` into the line where the cursor stands and moves the cursor
    /// behind it. A cursor beyond the end counts as one at the end.
    pub fn insert(&mut self, c: char)
        ensures
            final(self)@ == old(self)@.insert(c),
            final(self)@.cursor_in_line(),
            final(self)@.input.len() == old(self)@.input.len() + 1,
            old(self)@.cursor_in_line() ==> final(self)@.cursor == old(self)@.cursor + 1,
    {
        let index: usize = self.byte_index();
        proof {
            let at = self@.clamp(self@.cursor) as int;
            lemma_splice_is_insert(self@.input, at, c);
        }
        insert_at_byte(&mut self.input, index, c);
        proof {
            let at = old(self)@.clamp(old(self)@.cursor) as int;
            lemma_encode_injective(self.input@, old(self)@.input.insert(at, c));
        }
        self.right();
    }

    /// Removes the character before the cursor and moves the cursor one
    /// back. With the cursor at the start nothing happens; with the cursor
    /// beyond the end only the cursor moves, back into the line.
    pub fn delete_left(&mut self)
        ensures
            final(self)@ == old(self)@.delete_left(),
            old(self)@.cursor > 0 || old(self)@.cursor_in_line() ==> final(self)@.cursor_in_line(),
    {
        if self.cursor == 0 {
            return ;
        }
        if self.cursor <= self.char_count() {
            self.input = without_char(&self.input, self.cursor - 1);
        }
        self.left();
    }

    /// Removes the character at the cursor and leaves the cursor where it
    /// is. With the cursor at or beyond the end nothing happens.
    pub fn delete_right(&mut self)
        ensures
            final(self)@ == old(self)@.delete_right(),
            old(self)@.cursor_in_line() ==> final(self)@.cursor_in_line(),
    {
        if self.cursor < self.char_count() {
            self.input = without_char(&self.input, self.cursor);
        }
    }

    /// Removes the character at the cursor if `right` is set, the one
    /// before it otherwise.
    pub fn delete(&mut self, right: bool)
        ensures
            final(self)@ == old(self)@.delete(right),
            old(self)@.cursor_in_line() ==> final(self)@.cursor_in_line(),
    {
        if right {
            self.delete_right();
        } else {
            self.delete_left();
        }
    }

    /// Replace the buffer by `text` and put the cursor behind it.
    pub fn load(&mut self, text: String)
        ensures
            final(self)@ == old(self)@.load(text@),
            final(self)@.cursor_in_line(),
    {
        self.cursor = text.as_str().unicode_len();
        self.input = text;
    }
}

} // verus!
