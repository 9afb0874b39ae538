//! Text fields and the forms built from them.

use vstd::prelude::*;
use crate::keys::Key;
use crate::modules::input_functions::reset_cursor;
use crate::modules::servers::{ServerModuleData, ServerModuleDataView, ServerModules};
use crate::modules::users::{UserModuleData, UserModuleDataView, UserModules};

pub mod input_functions;
pub mod offsets;
pub mod rendering;
pub mod selection;
pub mod servers;
pub mod users;
pub mod validation;

verus! {

/// The module in front, with the screen that it shows.
#[derive(Clone, Copy, Debug, PartialEq, Eq)]
pub enum SelectedModule {
    ServerModule(ServerModules),
    UserModule(UserModules),
}

/// What the modules keep between key presses.
#[derive(Debug, PartialEq, Eq)]
pub struct ModuleData {
    pub server_module: ServerModuleData,
    pub user_module: UserModuleData,
}

/// What a `ModuleData` holds, as mathematical values.
pub struct ModuleDataView {
    pub server_module: ServerModuleDataView,
    pub user_module: UserModuleDataView,
}

impl ModuleDataView {
    /// Empty lists, empty drafts, nothing chosen.
    pub open spec fn fresh() -> ModuleDataView {
        ModuleDataView {
            server_module: ServerModuleDataView::fresh(),
            user_module: UserModuleDataView::fresh(),
        }
    }
}

impl View for ModuleData {
    type V = ModuleDataView;

    open spec fn view(&self) -> ModuleDataView {
        ModuleDataView { server_module: self.server_module@, user_module: self.user_module@ }
    }
}

impl Default for ModuleData {
    fn default() -> (data: Self)
        ensures
            data@ == ModuleDataView::fresh(),
    {
        Self { server_module: ServerModuleData::default(), user_module: UserModuleData::default() }
    }
}

/// One editable line of text with a cursor and a validity flag.
///
/// `index` counts characters, never bytes: it names the gap in front of the
/// character with that number, and `text@.len()` names the end of the line.
#[derive(Debug, PartialEq, Eq)]
pub struct TextInput {
    pub text: String,
    pub index: usize,
    pub valid: bool,
}

/// What a `TextInput` holds, as mathematical values.
pub struct TextInputView {
    pub text: Seq<char>,
    pub index: nat,
    pub valid: bool,
}

impl View for TextInput {
    type V = TextInputView;

    open spec fn view(&self) -> TextInputView {
        TextInputView { text: self.text@, index: self.index as nat, valid: self.valid }
    }
}

impl TextInputView {
    /// The cursor is an insertion point of the text.
    pub open spec fn cursor_in_text(self) -> bool {
        self.index <= self.text.len()
    }

    /// The insertion point that the cursor stands for: the cursor itself,
    /// or the end of the text where the cursor lies beyond it.
    pub open spec fn insertion_point(self) -> nat {
        if self.index <= self.text.len() {
            self.index
        } else {
            self.text.len()
        }
    }

    /// The empty, invalid field with the cursor at the start.
    pub open spec fn blank() -> TextInputView {
        TextInputView { text: Seq::<char>::empty(), index: 0, valid: false }
    }

    /// A field that was filled from a stored record and not edited yet.
    pub open spec fn filled(text: Seq<char>) -> TextInputView {
        TextInputView { text, index: 0, valid: false }
    }

    /// The field with the cursor at `index`, text and flag as they are.
    pub open spec fn with_cursor(self, index: nat) -> TextInputView {
        TextInputView { text: self.text, index, valid: self.valid }
    }

    /// The cursor one character to the left, stopping at the start. A
    /// cursor beyond the text comes back to its end.
    pub open spec fn move_left(self) -> TextInputView {
        if self.index == 0 {
            self
        } else if self.index <= self.text.len() {
            self.with_cursor((self.index - 1) as nat)
        } else {
            self.with_cursor(self.text.len())
        }
    }

    /// The cursor one character to the right, stopping at the end.
    pub open spec fn move_right(self) -> TextInputView {
        if self.index < self.text.len() {
            self.with_cursor(self.index + 1)
        } else {
            self.with_cursor(self.text.len())
        }
    }

    /// `c` put in at the insertion point, the cursor behind it.
    pub open spec fn insert(self, c: char) -> TextInputView {
        TextInputView {
            text: self.text.insert(self.insertion_point() as int, c),
            index: self.insertion_point() + 1,
            valid: self.valid,
        }
    }

    /// The field after a key press while it has the focus: the four
    /// editing keys act on it, every other key leaves it as it is.
    pub open spec fn after_key(self, key: Key) -> TextInputView {
        match key {
            Key::Backspace => self.delete_backward(),
            Key::Left => self.move_left(),
            Key::Right => self.move_right(),
            Key::Char(c) => self.insert(c),
            _ => self,
        }
    }

    /// The field after a run of key presses, first key first.
    pub open spec fn after_keys(self, keys: Seq<Key>) -> TextInputView
        decreases keys.len(),
    {
        if keys.len() == 0 {
            self
        } else {
            self.after_keys(keys.drop_last()).after_key(keys.last())
        }
    }

    /// The field with its flag set to `valid`.
    pub open spec fn with_flag(self, valid: bool) -> TextInputView {
        TextInputView { text: self.text, index: self.index, valid }
    }

    /// The character in front of the cursor taken out and the cursor moved
    /// onto its place. Nothing changes at the start of the text; a cursor
    /// beyond the text comes back to its end and removes nothing.
    pub open spec fn delete_backward(self) -> TextInputView {
        if self.index == 0 {
            self
        } else if self.index <= self.text.len() {
            TextInputView {
                text: self.text.remove(self.index - 1),
                index: (self.index - 1) as nat,
                valid: self.valid,
            }
        } else {
            self.with_cursor(self.text.len())
        }
    }
}

impl TextInput {
    /// A field that holds `text`, with the cursor in front of it and the
    /// validity flag not yet computed.
    pub fn new(text: String) -> (input: Self)
        ensures
            input == (TextInput { text, index: 0, valid: false }),
            input@ == TextInputView::filled(text@),
    {
        Self { text, index: 0, valid: false }
    }

    /// Empties the field: no text, the cursor at the start, the flag
    /// taken back.
    pub fn reset(&mut self)
        ensures
            final(self)@ == TextInputView::blank(),
    {
        self.text = String::new();
        reset_cursor(&mut self.index);
        self.valid = false;
    }
}

impl Default for TextInput {
    fn default() -> (input: Self)
        ensures
            input@ == TextInputView::blank(),
    {
        Self { text: String::new(), index: 0, valid: false }
    }
}

impl Clone for TextInput {
    fn clone(&self) -> (copy: Self)
        ensures
            copy@ == self@,
    {
        Self { text: self.text.clone(), index: self.index, valid: self.valid }
    }
}

/// A form: a record made of text fields, each with a rule of its own for
/// what its text may be.
pub trait SanitizedForm {
    /// Every field of the form is flagged valid.
    spec fn all_flags_set(&self) -> bool;

    /// The flag of every field says what the rule of that field says of
    /// the text that the field holds now.
    spec fn flags_are_current(&self) -> bool;

    /// Texts and cursors of `self` are those of `other`.
    spec fn same_entries(&self, other: &Self) -> bool;

    /// Every field is empty and flagged invalid, its cursor at the start.
    spec fn is_blank(&self) -> bool;

    /// Whether the form may be committed.
    fn verify_input(&self) -> (ok: bool)
        ensures
            ok == self.all_flags_set(),
    ;

    /// Computes the flag of every field anew from its text.
    fn update_validity(&mut self)
        ensures
            final(self).flags_are_current(),
            final(self).same_entries(old(self)),
    ;

    /// Empties the form.
    fn clear_form(&mut self)
        ensures
            final(self).is_blank(),
    ;
}

/// Typing a character and deleting backward at once gives back the field
/// as it was, wherever the cursor stood in the text.
pub proof fn law_insert_then_delete_restores(field: TextInputView, c: char)
    requires
        field.cursor_in_text(),
    ensures
        field.insert(c).delete_backward() == field,
{
    let at = field.index as int;
    assert(field.text.insert(at, c).remove(at) =~= field.text);
}

/// A single key press leaves the cursor an insertion point of the text
/// where it was one; an editing key makes it one whatever the field was
/// before.
pub proof fn law_cursor_in_text_after_key(field: TextInputView, key: Key)
    ensures
        field.cursor_in_text() ==> field.after_key(key).cursor_in_text(),
        key is Backspace || key is Left || key is Right || key is Char ==> field.after_key(
            key,
        ).cursor_in_text(),
{
}

/// Through every run of key presses on a field the cursor stays an
/// insertion point of the text: it is one after each key of the run.
pub proof fn law_cursor_stays_in_text(field: TextInputView, keys: Seq<Key>)
    requires
        field.cursor_in_text(),
    ensures
        forall|n: int|
            0 <= n <= keys.len() ==> (#[trigger] field.after_keys(keys.take(n))).cursor_in_text(),
        field.after_keys(keys).cursor_in_text(),
{
    assert forall|n: int| 0 <= n <= keys.len() implies (#[trigger] field.after_keys(
        keys.take(n),
    )).cursor_in_text() by {
        lemma_cursor_in_text_after_keys(field, keys.take(n));
    }
    lemma_cursor_in_text_after_keys(field, keys);
}

proof fn lemma_cursor_in_text_after_keys(field: TextInputView, keys: Seq<Key>)
    requires
        field.cursor_in_text(),
    ensures
        field.after_keys(keys).cursor_in_text(),
    decreases keys.len(),
{
    if keys.len() > 0 {
        lemma_cursor_in_text_after_keys(field, keys.drop_last());
        law_cursor_in_text_after_key(field.after_keys(keys.drop_last()), keys.last());
    }
}

} // verus!
