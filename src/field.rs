use vstd::prelude::*;
use tui_input::{Input, InputRequest as R};
use self::EditRequest as E;

verus! {

/// Whether a text field's keys move through the interface or edit its text.
#[derive(Debug, Clone, Copy, PartialEq, Eq, Structural)]
pub enum InputMode {
    Normal,
    Editing,
}

/// A key pressed on the keyboard, as the panels tell keys apart.
#[derive(Debug, Clone, Copy, PartialEq, Eq, Structural)]
pub enum Key {
    Char(char),
    Enter,
    Esc,
    Tab,
    Backspace,
    Delete,
    Left,
    Right,
    Up,
    Down,
    Home,
    End,
    Other,
}

/// One change to a line of text and its cursor.
#[derive(Debug, Clone, Copy, PartialEq, Eq, Structural)]
pub enum EditRequest {
    InsertChar(char),
    GoToPrevChar,
    GoToNextChar,
    GoToPrevWord,
    GoToNextWord,
    GoToStart,
    GoToEnd,
    DeletePrevChar,
    DeleteNextChar,
    DeletePrevWord,
    DeleteNextWord,
    DeleteLine,
    DeleteTillEnd,
}

/// A key press as a panel receives it: the key, and the edit it asks of a
/// text field being edited, if any.
#[derive(Debug, Clone, Copy, PartialEq, Eq, Structural)]
pub struct KeyPress {
    pub key: Key,
    pub edit: Option<EditRequest>,
}

/// The requests that move or delete by words, whose effect depends on which
/// characters count as alphanumeric.
pub open spec fn is_word_request(req: EditRequest) -> bool {
    match req {
        EditRequest::GoToPrevWord | EditRequest::GoToNextWord
        | EditRequest::DeletePrevWord | EditRequest::DeleteNextWord => true,
        _ => false,
    }
}

/// The text and cursor after a word request on `value` with the cursor at
/// `cursor`.
pub uninterp spec fn word_edited(value: Seq<char>, cursor: nat, req: EditRequest) -> (Seq<char>, nat);

/// The text and cursor after one edit of `value` with the cursor at `cursor`.
pub open spec fn edited(value: Seq<char>, cursor: nat, req: EditRequest) -> (Seq<char>, nat) {
    match req {
        EditRequest::InsertChar(c) =>
            (value.subrange(0, cursor as int) + seq![c] + value.subrange(cursor as int, value.len() as int), cursor + 1),
        EditRequest::DeletePrevChar =>
            if cursor == 0 { (value, cursor) } else { (value.remove(cursor - 1), (cursor - 1) as nat) },
        EditRequest::DeleteNextChar =>
            if cursor >= value.len() { (value, cursor) } else { (value.remove(cursor as int), cursor) },
        EditRequest::GoToPrevChar =>
            if cursor == 0 { (value, cursor) } else { (value, (cursor - 1) as nat) },
        EditRequest::GoToNextChar =>
            if cursor >= value.len() { (value, cursor) } else { (value, cursor + 1) },
        EditRequest::GoToStart => (value, 0),
        EditRequest::GoToEnd => (value, value.len()),
        EditRequest::DeleteLine => (Seq::<char>::empty(), 0),
        EditRequest::DeleteTillEnd => (value.subrange(0, cursor as int), cursor),
        _ => word_edited(value, cursor, req),
    }
}

/// Relies on tui_input's `Input::handle`: one editing request applied to a
/// line of text whose cursor stands at `cursor` (counted in characters). The
/// input is built with `Input::new` and `Input::with_cursor`, which leaves a
/// cursor within the text where it is, and read back with `value` and
/// `cursor`. A word request only moves the cursor within the text, or deletes
/// characters and leaves the cursor within what is left.
#[verifier::external_body]
fn apply_edit(value: &String, cursor: usize, req: EditRequest) -> (r: (String, usize))
    requires
        cursor <= value@.len(),
        value@.len() < usize::MAX,
    ensures
        !is_word_request(req) ==> (r.0@, r.1 as nat) == edited(value@, cursor as nat, req),
        is_word_request(req) ==> (r.0@, r.1 as nat) == word_edited(value@, cursor as nat, req),
        is_word_request(req) ==> r.1 <= r.0@.len() && r.0@.len() <= value@.len(),
{
    let mut input = Input::new(value.clone()).with_cursor(cursor);
    input.handle(match req {
        E::InsertChar(c) => R::InsertChar(c),
        E::GoToPrevChar => R::GoToPrevChar, E::GoToNextChar => R::GoToNextChar,
        E::GoToPrevWord => R::GoToPrevWord, E::GoToNextWord => R::GoToNextWord,
        E::GoToStart => R::GoToStart, E::GoToEnd => R::GoToEnd,
        E::DeletePrevChar => R::DeletePrevChar, E::DeleteNextChar => R::DeleteNextChar,
        E::DeletePrevWord => R::DeletePrevWord, E::DeleteNextWord => R::DeleteNextWord,
        E::DeleteLine => R::DeleteLine, E::DeleteTillEnd => R::DeleteTillEnd,
    });
    (input.value().to_string(), input.cursor())
}

/// A line of text with a cursor, counted in characters.
pub struct TextInput {
    pub value: String,
    pub cursor: usize,
}

impl TextInput {
    pub open spec fn well_formed(&self) -> bool {
        &&& self.cursor <= self.value@.len()
        &&& self.value@.len() < usize::MAX
    }

    /// A line holding `value`, with the cursor at its end.
    pub fn new(value: &String) -> (r: TextInput)
        requires
            value@.len() < usize::MAX,
        ensures
            r.well_formed(),
            r.value@ == value@,
            r.cursor == value@.len(),
    {
        let mut r = TextInput { value: String::new(), cursor: 0 };
        r.set_value(value);
        r
    }

    /// Applies one edit.
    pub fn handle(&mut self, req: EditRequest)
        requires
            old(self).well_formed(),
            old(self).value@.len() + 1 < usize::MAX,
        ensures
            final(self).well_formed(),
            (final(self).value@, final(self).cursor as nat) == edited(old(self).value@, old(self).cursor as nat, req),
    {
        let (v, c) = apply_edit(&self.value, self.cursor, req);
        proof {
            if is_word_request(req) {
                assert(edited(old(self).value@, old(self).cursor as nat, req) == word_edited(old(self).value@, old(self).cursor as nat, req));
            }
        }
        self.value = v;
        self.cursor = c;
    }

    /// Empties the line.
    pub fn reset(&mut self)
        ensures
            final(self).well_formed(),
            final(self).value@ == Seq::<char>::empty(),
            final(self).cursor == 0,
    {
        self.value = String::new();
        self.cursor = 0;
    }

    /// Replaces the text with `value`, typed in one character at a time, which
    /// leaves the cursor at its end.
    pub fn set_value(&mut self, value: &String)
        requires
            value@.len() < usize::MAX,
        ensures
            final(self).well_formed(),
            final(self).value@ == value@,
            final(self).cursor == value@.len(),
    {
        self.reset();
        let n = value.as_str().unicode_len();
        let mut i: usize = 0;
        while i < n
            invariant
                n == value@.len(),
                n < usize::MAX,
                i <= n,
                self.value@ == value@.subrange(0, i as int),
                self.cursor == i,
            decreases n - i,
        {
            let c = value.as_str().get_char(i);
            self.handle(EditRequest::InsertChar(c));
            proof {
                assert(self.value@ =~= value@.subrange(0, i + 1));
            }
            i = i + 1;
        }
        proof {
            assert(value@.subrange(0, n as int) =~= value@);
        }
    }
}

/// What a key press does to a text field: in normal mode `a` starts editing
/// and everything else is left alone; in editing mode `Esc` stops editing and
/// any other press applies the edit it asks for, if any (a text as long as a
/// length can count stays as it is).
pub open spec fn field_after_key(mode: InputMode, value: Seq<char>, cursor: nat, k: KeyPress) -> (InputMode, Seq<char>, nat) {
    match mode {
        InputMode::Normal => if k.key == Key::Char('a') {
            (InputMode::Editing, value, cursor)
        } else {
            (mode, value, cursor)
        },
        InputMode::Editing => if k.key == Key::Esc {
            (InputMode::Normal, value, cursor)
        } else {
            match k.edit {
                Some(req) => if value.len() + 2 < usize::MAX {
                    let e = edited(value, cursor, req);
                    (mode, e.0, e.1)
                } else {
                    (mode, value, cursor)
                },
                None => (mode, value, cursor),
            }
        },
    }
}

fn field_key(mode: &mut InputMode, input: &mut TextInput, k: KeyPress)
    requires
        old(input).well_formed(),
    ensures
        final(input).well_formed(),
        (*final(mode), final(input).value@, final(input).cursor as nat)
            == field_after_key(*old(mode), old(input).value@, old(input).cursor as nat, k),
{
    match *mode {
        InputMode::Normal => {
            if k.key == Key::Char('a') {
                *mode = InputMode::Editing;
            }
        },
        InputMode::Editing => {
            if k.key == Key::Esc {
                *mode = InputMode::Normal;
            } else {
                match k.edit {
                    Some(req) => {
                        if input.value.as_str().unicode_len() < usize::MAX - 2 {
                            input.handle(req);
                        }
                    },
                    None => {},
                }
            }
        },
    }
}

/// The field that holds the path of the listed directory.
pub struct PathField {
    pub input: TextInput,
    pub input_mode: InputMode,
    pub in_focus: bool,
}

/// The command bar.
pub struct Command {
    pub input: TextInput,
    pub input_mode: InputMode,
    pub in_focus: bool,
}

impl PathField {
    pub open spec fn well_formed(&self) -> bool {
        self.input.well_formed()
    }

    /// A field showing `path`, in normal mode and unfocused.
    pub fn new(path: &String) -> (r: PathField)
        requires
            path@.len() < usize::MAX,
        ensures
            r.well_formed(),
            r.input.value@ == path@,
            r.input_mode == InputMode::Normal,
            !r.in_focus,
    {
        PathField { input: TextInput::new(path), input_mode: InputMode::Normal, in_focus: false }
    }

    /// Replaces the text, with the cursor at its end.
    pub fn set_value(&mut self, value: String)
        requires
            value@.len() < usize::MAX,
        ensures
            final(self).well_formed(),
            final(self).input.value@ == value@,
            final(self).input.cursor == value@.len(),
            final(self).input_mode == old(self).input_mode,
            final(self).in_focus == old(self).in_focus,
    {
        self.input.set_value(&value);
    }

    /// Handles a key sent to the field (see `field_after_key`).
    pub fn handle_input(&mut self, k: KeyPress)
        requires
            old(self).well_formed(),
        ensures
            final(self).well_formed(),
            (final(self).input_mode, final(self).input.value@, final(self).input.cursor as nat)
                == field_after_key(old(self).input_mode, old(self).input.value@, old(self).input.cursor as nat, k),
            final(self).in_focus == old(self).in_focus,
    {
        field_key(&mut self.input_mode, &mut self.input, k);
    }
}

impl Command {
    pub open spec fn well_formed(&self) -> bool {
        self.input.well_formed()
    }

    /// An empty command bar, in normal mode and unfocused.
    pub fn new() -> (r: Command)
        ensures
            r.well_formed(),
            r.input.value@ == Seq::<char>::empty(),
            r.input_mode == InputMode::Normal,
            !r.in_focus,
    {
        Command { input: TextInput { value: String::new(), cursor: 0 }, input_mode: InputMode::Normal, in_focus: false }
    }

    /// Replaces the text, with the cursor at its end.
    pub fn set_value(&mut self, value: String)
        requires
            value@.len() < usize::MAX,
        ensures
            final(self).well_formed(),
            final(self).input.value@ == value@,
            final(self).input.cursor == value@.len(),
            final(self).input_mode == old(self).input_mode,
            final(self).in_focus == old(self).in_focus,
    {
        self.input.set_value(&value);
    }

    /// Handles a key sent to the bar (see `field_after_key`).
    pub fn handle_input(&mut self, k: KeyPress)
        requires
            old(self).well_formed(),
        ensures
            final(self).well_formed(),
            (final(self).input_mode, final(self).input.value@, final(self).input.cursor as nat)
                == field_after_key(old(self).input_mode, old(self).input.value@, old(self).input.cursor as nat, k),
            final(self).in_focus == old(self).in_focus,
    {
        field_key(&mut self.input_mode, &mut self.input, k);
    }
}

} // verus!
