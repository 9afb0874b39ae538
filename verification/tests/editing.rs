use server_console::keys::Key;
use server_console::modules::input_functions::{
    byte_index, clamp_cursor, delete_char, enter_char, move_cursor_left, move_cursor_right,
    press_key, reset_cursor,
};
use server_console::modules::TextInput;

fn field(text: &str, index: usize) -> TextInput {
    TextInput { text: text.to_string(), index, valid: false }
}

#[test]
fn new_field_holds_text_with_cursor_at_start() {
    let input = TextInput::new("db1".to_string());
    assert_eq!(input.text, "db1");
    assert_eq!(input.index, 0);
    assert!(!input.valid);
}

#[test]
fn default_field_is_empty_and_invalid() {
    let input = TextInput::default();
    assert_eq!(input.text, "");
    assert_eq!(input.index, 0);
    assert!(!input.valid);
}

#[test]
fn clone_keeps_text_cursor_and_flag() {
    let input = TextInput { text: "héllo".to_string(), index: 3, valid: true };
    assert_eq!(input.clone(), input);
}

#[test]
fn typing_abc_gives_abc_with_cursor_at_three() {
    let mut input = TextInput::default();
    enter_char(&mut input, 'a');
    enter_char(&mut input, 'b');
    enter_char(&mut input, 'c');
    assert_eq!(input.text, "abc");
    assert_eq!(input.index, 3);
}

#[test]
fn two_backspaces_on_abc_leave_a() {
    let mut input = field("abc", 3);
    delete_char(&mut input);
    delete_char(&mut input);
    assert_eq!(input.text, "a");
    assert_eq!(input.index, 1);
}

#[test]
fn insert_in_the_middle_splits_at_the_cursor() {
    let mut input = field("ac", 1);
    enter_char(&mut input, 'b');
    assert_eq!(input.text, "abc");
    assert_eq!(input.index, 2);
}

#[test]
fn insert_at_the_start_moves_the_text_right() {
    let mut input = field("bc", 0);
    enter_char(&mut input, 'a');
    assert_eq!(input.text, "abc");
    assert_eq!(input.index, 1);
}

#[test]
fn insert_between_wide_characters_keeps_them_whole() {
    let mut input = field("é日🙂", 2);
    enter_char(&mut input, 'x');
    assert_eq!(input.text, "é日x🙂");
    assert_eq!(input.index, 3);
}

#[test]
fn insert_a_wide_character_into_plain_text() {
    let mut input = field("ab", 1);
    enter_char(&mut input, '🙂');
    assert_eq!(input.text, "a🙂b");
    assert_eq!(input.index, 2);
}

#[test]
fn insert_with_cursor_beyond_the_text_appends() {
    let mut input = field("ab", 9);
    enter_char(&mut input, 'c');
    assert_eq!(input.text, "abc");
    assert_eq!(input.index, 3);
}

#[test]
fn insert_keeps_the_flag() {
    let mut input = TextInput { text: "a".to_string(), index: 1, valid: true };
    enter_char(&mut input, 'b');
    assert!(input.valid);
}

#[test]
fn byte_index_counts_bytes_not_characters() {
    let mut input = field("é日🙂z", 0);
    assert_eq!(byte_index(&mut input), 0);
    input.index = 1;
    assert_eq!(byte_index(&mut input), 2);
    input.index = 2;
    assert_eq!(byte_index(&mut input), 5);
    input.index = 3;
    assert_eq!(byte_index(&mut input), 9);
    input.index = 4;
    assert_eq!(byte_index(&mut input), 10);
}

#[test]
fn byte_index_beyond_the_text_is_its_size() {
    let mut input = field("é日", 7);
    assert_eq!(byte_index(&mut input), 5);
    assert_eq!(input, field("é日", 7));
}

#[test]
fn byte_index_of_empty_text_is_zero() {
    let mut input = field("", 0);
    assert_eq!(byte_index(&mut input), 0);
}

#[test]
fn delete_at_the_start_changes_nothing() {
    let mut input = field("abc", 0);
    delete_char(&mut input);
    assert_eq!(input, field("abc", 0));
}

#[test]
fn delete_in_the_middle_removes_the_character_before_the_cursor() {
    let mut input = field("abc", 2);
    delete_char(&mut input);
    assert_eq!(input.text, "ac");
    assert_eq!(input.index, 1);
}

#[test]
fn delete_removes_one_wide_character() {
    let mut input = field("a🙂日b", 2);
    delete_char(&mut input);
    assert_eq!(input.text, "a日b");
    assert_eq!(input.index, 1);
}

#[test]
fn delete_with_cursor_beyond_the_text_only_moves_the_cursor() {
    let mut input = field("ab", 5);
    delete_char(&mut input);
    assert_eq!(input.text, "ab");
    assert_eq!(input.index, 2);
}

#[test]
fn delete_on_empty_text_changes_nothing() {
    let mut input = field("", 0);
    delete_char(&mut input);
    assert_eq!(input, field("", 0));
}

#[test]
fn insert_then_delete_restores_the_field() {
    for index in 0..=4 {
        let before = TextInput { text: "a日🙂z".to_string(), index, valid: true };
        let mut input = before.clone();
        enter_char(&mut input, 'é');
        delete_char(&mut input);
        assert_eq!(input, before);
    }
}

#[test]
fn move_left_stops_at_the_start() {
    let mut input = field("ab", 1);
    move_cursor_left(&mut input);
    assert_eq!(input.index, 0);
    move_cursor_left(&mut input);
    assert_eq!(input.index, 0);
    assert_eq!(input.text, "ab");
}

#[test]
fn move_right_stops_at_the_end() {
    let mut input = field("日本", 1);
    move_cursor_right(&mut input);
    assert_eq!(input.index, 2);
    move_cursor_right(&mut input);
    assert_eq!(input.index, 2);
    assert_eq!(input.text, "日本");
}

#[test]
fn move_left_from_beyond_the_text_lands_on_its_end() {
    let mut input = field("ab", 10);
    move_cursor_left(&mut input);
    assert_eq!(input.index, 2);
}

#[test]
fn move_right_at_the_largest_cursor_lands_on_the_end() {
    let mut input = field("ab", usize::MAX);
    move_cursor_right(&mut input);
    assert_eq!(input.index, 2);
}

#[test]
fn cursor_stays_in_text_through_a_run_of_edits() {
    let keys = [
        Key::Left,
        Key::Char('a'),
        Key::Right,
        Key::Right,
        Key::Char('日'),
        Key::Backspace,
        Key::Backspace,
        Key::Backspace,
        Key::Char('🙂'),
        Key::Left,
        Key::Left,
        Key::Char('b'),
        Key::Right,
        Key::Right,
        Key::Right,
    ];
    let mut input = TextInput::default();
    for key in keys {
        press_key(&mut input, key);
        assert!(input.index <= input.text.chars().count());
    }
    assert_eq!(input.text, "b🙂");
    assert_eq!(input.index, 2);
}

#[test]
fn press_key_hands_editing_keys_to_the_operations() {
    let mut input = field("ab", 1);
    press_key(&mut input, Key::Char('x'));
    assert_eq!(input, field("axb", 2));
    press_key(&mut input, Key::Left);
    assert_eq!(input, field("axb", 1));
    press_key(&mut input, Key::Right);
    assert_eq!(input, field("axb", 2));
    press_key(&mut input, Key::Backspace);
    assert_eq!(input, field("ab", 1));
}

#[test]
fn press_key_ignores_other_keys() {
    for key in [Key::Esc, Key::Enter, Key::Up, Key::Down, Key::Other] {
        let mut input = field("ab", 1);
        press_key(&mut input, key);
        assert_eq!(input, field("ab", 1));
    }
}

#[test]
fn clamp_cursor_keeps_positions_inside_the_text() {
    let mut text = "日本語".to_string();
    assert_eq!(clamp_cursor(&mut text, 0), 0);
    assert_eq!(clamp_cursor(&mut text, 2), 2);
    assert_eq!(clamp_cursor(&mut text, 3), 3);
    assert_eq!(clamp_cursor(&mut text, 4), 3);
    assert_eq!(clamp_cursor(&mut text, usize::MAX), 3);
    assert_eq!(text, "日本語");
}

#[test]
fn reset_cursor_goes_to_the_start() {
    let mut index = 7usize;
    reset_cursor(&mut index);
    assert_eq!(index, 0);
}

#[test]
fn reset_empties_the_field() {
    let mut input = TextInput { text: "é日".to_string(), index: 2, valid: true };
    input.reset();
    assert_eq!(input, TextInput::default());
    assert_eq!(input.text, "");
    assert_eq!(input.index, 0);
    assert!(!input.valid);
}
