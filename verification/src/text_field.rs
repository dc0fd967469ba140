//! A single-line text buffer with a cursor.

use vstd::prelude::*;

verus! {

/// Largest number of characters a field may hold: the width of the entry box.
pub const FIELD_WIDTH: usize = 50;

/// What a text field is: its characters in order, and the cursor's place
/// among them, counted in characters from the left.
pub struct TextFieldView {
    pub content: Seq<char>,
    pub cursor_pos: nat,
}

impl TextFieldView {
    /// The cursor stands within the text, and the text fits the field.
    pub open spec fn wf(self) -> bool {
        self.cursor_pos <= self.content.len() <= FIELD_WIDTH
    }

    /// The text as the entry box shows it: filled up with spaces to
    /// [`FIELD_WIDTH`] characters.
    pub open spec fn shown(self) -> Seq<char> {
        self.content + Seq::new((FIELD_WIDTH - self.content.len()) as nat, |i: int| ' ')
    }

    /// The field before anything was typed.
    pub open spec fn empty() -> Self {
        TextFieldView { content: Seq::empty(), cursor_pos: 0 }
    }

    /// Typing `c`: it goes in at the cursor, which moves past it. A full field
    /// stays as it is.
    pub open spec fn insert_char(self, c: char) -> Self {
        if self.content.len() < FIELD_WIDTH {
            TextFieldView {
                content: self.content.insert(self.cursor_pos as int, c),
                cursor_pos: self.cursor_pos + 1,
            }
        } else {
            self
        }
    }

    /// Backspace: the character left of the cursor goes, and the cursor steps
    /// back. Nothing happens at the start of the text.
    pub open spec fn delete_char(self) -> Self {
        if self.cursor_pos > 0 {
            TextFieldView {
                content: self.content.remove(self.cursor_pos - 1),
                cursor_pos: (self.cursor_pos - 1) as nat,
            }
        } else {
            self
        }
    }

    /// One step left, stopping at the start of the text.
    pub open spec fn move_cursor_left(self) -> Self {
        if self.cursor_pos > 0 {
            TextFieldView { cursor_pos: (self.cursor_pos - 1) as nat, ..self }
        } else {
            self
        }
    }

    /// One step right, stopping behind the last character.
    pub open spec fn move_cursor_right(self) -> Self {
        if self.cursor_pos < self.content.len() {
            TextFieldView { cursor_pos: self.cursor_pos + 1, ..self }
        } else {
            self
        }
    }
}

/// One editing step on a text field.
pub enum Edit {
    Insert(char),
    Delete,
    Left,
    Right,
}

impl TextFieldView {
    /// The field after one editing step.
    pub open spec fn edit(self, step: Edit) -> Self {
        match step {
            Edit::Insert(c) => self.insert_char(c),
            Edit::Delete => self.delete_char(),
            Edit::Left => self.move_cursor_left(),
            Edit::Right => self.move_cursor_right(),
        }
    }

    /// The field after the editing steps `steps`, taken in order.
    pub open spec fn edit_all(self, steps: Seq<Edit>) -> Self
        decreases steps.len(),
    {
        if steps.len() == 0 {
            self
        } else {
            self.edit_all(steps.drop_last()).edit(steps.last())
        }
    }
}

/// An editing step keeps the cursor within the text and the text within the
/// field.
pub proof fn lemma_edit_keeps_wf(field: TextFieldView, step: Edit)
    requires
        field.wf(),
    ensures
        field.edit(step).wf(),
{
}

/// Whatever is typed, deleted or passed over, and in whatever order, after
/// every step the cursor stands within the text: at least at 0 and at most
/// behind its last character.
pub proof fn lemma_cursor_stays_in_text(start: TextFieldView, steps: Seq<Edit>)
    requires
        start.wf(),
    ensures
        forall|n: int|
            0 <= n <= steps.len() ==> {
                let field = #[trigger] start.edit_all(steps.take(n));
                0 <= field.cursor_pos <= field.content.len() <= FIELD_WIDTH
            },
    decreases steps.len(),
{
    if steps.len() > 0 {
        let shorter = steps.drop_last();
        lemma_cursor_stays_in_text(start, shorter);
        assert forall|n: int| 0 <= n <= steps.len() implies {
            let field = #[trigger] start.edit_all(steps.take(n));
            0 <= field.cursor_pos <= field.content.len() <= FIELD_WIDTH
        } by {
            if n < steps.len() {
                assert(steps.take(n) == shorter.take(n));
            } else {
                assert(steps.take(n) == steps);
                assert(shorter.take(shorter.len() as int) == shorter);
                lemma_edit_keeps_wf(start.edit_all(shorter), steps.last());
            }
        }
    } else {
        assert(steps.take(0) == steps);
    }
}

/// A single-line text buffer with a cursor. The text never grows beyond
/// [`FIELD_WIDTH`] characters and the cursor never leaves it.
pub struct TextField {
    content: Vec<char>,
    cursor_pos: usize,
}

impl View for TextField {
    type V = TextFieldView;

    closed spec fn view(&self) -> TextFieldView {
        TextFieldView { content: self.content@, cursor_pos: self.cursor_pos as nat }
    }
}

impl TextField {
    #[verifier::type_invariant]
    spec fn inv(self) -> bool {
        self.cursor_pos <= self.content@.len() <= FIELD_WIDTH
    }

    /// An empty field with the cursor at its start.
    pub fn new() -> (field: Self)
        ensures
            field@ == TextFieldView::empty(),
    {
        TextField { content: Vec::new(), cursor_pos: 0 }
    }

    /// Inserts `c` at the cursor and moves the cursor past it. A field that
    /// already holds [`FIELD_WIDTH`] characters is left unchanged.
    pub fn insert_char(&mut self, c: char)
        ensures
            final(self)@ == old(self)@.insert_char(c),
            final(self)@.wf(),
    {
        let TextField { mut content, cursor_pos } = self.take();
        if content.len() < FIELD_WIDTH {
            content.insert(cursor_pos, c);
            *self = TextField { content, cursor_pos: cursor_pos + 1 };
        } else {
            *self = TextField { content, cursor_pos };
        }
    }

    /// Removes the character left of the cursor and moves the cursor onto its
    /// place. With the cursor at the start nothing happens.
    pub fn delete_char(&mut self)
        ensures
            final(self)@ == old(self)@.delete_char(),
            final(self)@.wf(),
    {
        let TextField { mut content, cursor_pos } = self.take();
        if cursor_pos > 0 {
            content.remove(cursor_pos - 1);
            *self = TextField { content, cursor_pos: cursor_pos - 1 };
        } else {
            *self = TextField { content, cursor_pos };
        }
    }

    /// Moves the cursor one character left, unless it is at the start.
    pub fn move_cursor_left(&mut self)
        ensures
            final(self)@ == old(self)@.move_cursor_left(),
            final(self)@.wf(),
    {
        proof {
            use_type_invariant(&*self);
        }
        if self.cursor_pos > 0 {
            self.cursor_pos -= 1;
        }
    }

    /// Moves the cursor one character right, unless it is behind the last
    /// character.
    pub fn move_cursor_right(&mut self)
        ensures
            final(self)@ == old(self)@.move_cursor_right(),
            final(self)@.wf(),
    {
        proof {
            use_type_invariant(&*self);
        }
        if self.cursor_pos < self.content.len() {
            self.cursor_pos += 1;
        }
    }

    /// The text as a string.
    pub fn text(&self) -> (text: String)
        ensures
            text@ == self@.content,
    {
        let mut text = String::new();
        let mut i: usize = 0;
        while i < self.content.len()
            invariant
                i <= self.content@.len(),
                text@ == self.content@.take(i as int),
            decreases self.content@.len() - i,
        {
            push_char(&mut text, self.content[i]);
            i += 1;
            assert(self.content@.take(i as int) == self.content@.take(i - 1).push(
                self.content@[i - 1],
            ));
        }
        assert(self.content@.take(i as int) == self.content@);
        text
    }

    /// The text as the entry box shows it: filled up with spaces to
    /// [`FIELD_WIDTH`] characters.
    pub fn display_text(&self) -> (shown: String)
        ensures
            shown@ == self@.shown(),
            shown@.len() == FIELD_WIDTH,
    {
        proof {
            use_type_invariant(self);
        }
        let mut shown = self.text();
        let mut width: usize = self.content.len();
        while width < FIELD_WIDTH
            invariant
                self.content@.len() <= width <= FIELD_WIDTH,
                shown@ == self.content@ + Seq::new((width - self.content@.len()) as nat, |i: int| ' '),
            decreases FIELD_WIDTH - width,
        {
            push_char(&mut shown, ' ');
            width += 1;
        }
        shown
    }

    /// The number of characters in the field.
    pub fn len(&self) -> (len: usize)
        ensures
            len == self@.content.len(),
            len <= FIELD_WIDTH,
    {
        proof {
            use_type_invariant(self);
        }
        self.content.len()
    }

    /// The cursor's place, counted in characters from the left.
    pub fn cursor_pos(&self) -> (pos: usize)
        ensures
            pos == self@.cursor_pos,
            pos <= self@.content.len(),
    {
        proof {
            use_type_invariant(self);
        }
        self.cursor_pos
    }

    /// Moves the field's value out, leaving an empty field behind.
    fn take(&mut self) -> (taken: Self)
        ensures
            taken == *old(self),
            taken.inv(),
            final(self)@ == TextFieldView::empty(),
    {
        proof {
            use_type_invariant(&*self);
        }
        let mut taken = TextField::new();
        core::mem::swap(self, &mut taken);
        taken
    }
}

/// `String::push` of the standard library: the string grows by the one
/// character `c`, at its end.
#[verifier::external_body]
fn push_char(text: &mut String, c: char)
    ensures
        final(text)@ == old(text)@.push(c),
{
    text.push(c);
}

} // verus!
