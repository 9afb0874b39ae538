//! The editing operations of a text field. Every one of them works on
//! character positions and is defined for every field, whether or not its
//! cursor lies inside the text; after each of them it does.

use vstd::prelude::*;
use vstd::std_specs::iter::IteratorSpec;
use vstd::string::{StrSliceExecFns, StringExecFns};
use vstd::utf8::encode_utf8;
use crate::keys::Key;
use crate::modules::TextInput;
use crate::modules::offsets::{
    lemma_insert_into_storage, lemma_storage_of_pushed, lemma_storage_split, storage_offset,
};

verus! {

/// Moves the cursor one character to the left; at the start it stays.
pub fn move_cursor_left(input: &mut TextInput)
    ensures
        final(input)@ == old(input)@.move_left(),
        final(input)@.cursor_in_text(),
{
    let cursor_moved_left = input.index.saturating_sub(1);
    input.index = clamp_cursor(&mut input.text, cursor_moved_left);
}

/// Moves the cursor one character to the right; at the end it stays.
pub fn move_cursor_right(input: &mut TextInput)
    ensures
        final(input)@ == old(input)@.move_right(),
        final(input)@.cursor_in_text(),
{
    let cursor_moved_right = input.index.saturating_add(1);
    input.index = clamp_cursor(&mut input.text, cursor_moved_right);
}

/// Puts `new_char` in at the cursor and moves the cursor behind it. The
/// place in the storage is found from the character position, so text of
/// any width stays whole.
pub fn enter_char(input: &mut TextInput, new_char: char)
    ensures
        final(input)@ == old(input)@.insert(new_char),
        final(input)@.cursor_in_text(),
{
    let index = byte_index(input);
    proof {
        assert(input.text@.take(input.text@.len() as int) =~= input.text@);
        lemma_storage_split(input.text@, input@.insertion_point());
    }
    let ghost before = input.text@;
    input.text.insert(index, new_char);
    proof {
        lemma_insert_into_storage(before, old(input)@.insertion_point(), new_char, input.text@);
    }
    move_cursor_right(input);
}

/// The byte position in the storage of the text at which the character
/// under the cursor begins; the size of the storage where the cursor stands
/// at the end of the text or beyond it.
pub fn byte_index(input: &mut TextInput) -> (offset: usize)
    ensures
        final(input)@ == old(input)@,
        offset == storage_offset(old(input).text@, old(input).index as nat),
{
    let index = input.index;
    let text = input.text.as_str();
    let total = text.as_bytes().len();
    let mut chars = text.chars();
    let mut seen: usize = 0;
    let mut offset: usize = 0;
    loop
        invariant
            seen <= index,
            seen <= text@.len(),
            chars.remaining() == text@.skip(seen as int),
            offset == encode_utf8(text@.take(seen as int)).len(),
            total == encode_utf8(text@).len(),
        ensures
            offset == storage_offset(text@, index as nat),
        decreases text@.len() - seen,
    {
        if seen >= index {
            break ;
        }
        match chars.next() {
            None => {
                assert(text@.take(seen as int) =~= text@);
                break ;
            },
            Some(c) => {
                proof {
                    let head = text@.take(seen as int);
                    assert(text@.take(seen + 1) =~= head.push(c));
                    lemma_storage_of_pushed(head, c);
                    lemma_storage_split(text@, (seen + 1) as nat);
                }
                offset = offset + c.len_utf8();
                seen = seen + 1;
            },
        }
    }
    offset
}

/// Takes out the character in front of the cursor and moves the cursor onto
/// its place; at the start of the text nothing changes.
pub fn delete_char(input: &mut TextInput)
    ensures
        final(input)@ == old(input)@.delete_backward(),
        final(input)@.cursor_in_text(),
{
    let is_not_cursor_leftmost = input.index != 0;
    if is_not_cursor_leftmost {
        let current_index = input.index;
        let from_left_to_current_index = current_index - 1;
        let count = input.text.as_str().unicode_len();
        if current_index <= count {
            let before_char_to_delete = input.text.as_str().substring_char(
                0,
                from_left_to_current_index,
            );
            let after_char_to_delete = input.text.as_str().substring_char(current_index, count);
            let mut joined = String::from_str(before_char_to_delete);
            joined.append(after_char_to_delete);
            assert(joined@ =~= old(input).text@.remove(current_index - 1));
            input.text = joined;
        }
        move_cursor_left(input);
    }
}

/// Hands a key press to the field that has the focus. Backspace, the two
/// arrows and the characters edit it; no other key does anything.
pub fn press_key(input: &mut TextInput, key: Key)
    ensures
        final(input)@ == old(input)@.after_key(key),
{
    match key {
        Key::Backspace => delete_char(input),
        Key::Left => move_cursor_left(input),
        Key::Right => move_cursor_right(input),
        Key::Char(c) => enter_char(input, c),
        _ => {},
    }
}

/// The position nearest to `new_cursor_pos` that is an insertion point of
/// `input_string`.
pub fn clamp_cursor(input_string: &mut String, new_cursor_pos: usize) -> (cursor: usize)
    ensures
        final(input_string)@ == old(input_string)@,
        cursor == if new_cursor_pos <= old(input_string)@.len() {
            new_cursor_pos as nat
        } else {
            old(input_string)@.len()
        },
        old(input_string)@.len() <= usize::MAX,
{
    let count = input_string.as_str().unicode_len();
    if new_cursor_pos <= count {
        new_cursor_pos
    } else {
        count
    }
}

/// Puts a cursor back in front of the first character.
pub fn reset_cursor(input_index: &mut usize)
    ensures
        *final(input_index) == 0,
{
    *input_index = 0;
}

} // verus!
