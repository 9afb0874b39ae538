use server_console::config::{Config, Server};
use server_console::keys::Key;
use server_console::modules::rendering::cursor_column;
use server_console::modules::selection::TableCursor;
use server_console::modules::servers::{SelectedInput, ServerEntry};
use server_console::modules::users::{endpoint_of, UserEntry};
use server_console::modules::validation::{
    is_acceptable, verdict, ADDRESS_PATTERN, NAME_PATTERN, PORT_PATTERN,
};
use server_console::modules::{SanitizedForm, TextInput};

fn filled(text: &str) -> TextInput {
    TextInput { text: text.to_string(), index: 0, valid: false }
}

fn entry(name: &str, address: &str, port: &str) -> ServerEntry {
    ServerEntry { name: filled(name), address: filled(address), port: filled(port) }
}

fn server(name: &str, address: &str, port: &str) -> Server {
    Server { name: name.to_string(), address: address.to_string(), port: port.to_string() }
}

#[test]
fn name_rule_wants_some_text() {
    assert!(is_acceptable(NAME_PATTERN, "db1"));
    assert!(is_acceptable(NAME_PATTERN, "日本"));
    assert!(!is_acceptable(NAME_PATTERN, ""));
}

#[test]
fn address_rule_takes_dotted_numbers_and_localhost() {
    assert!(is_acceptable(ADDRESS_PATTERN, "localhost"));
    assert!(is_acceptable(ADDRESS_PATTERN, "192.168.0.1"));
    assert!(is_acceptable(ADDRESS_PATTERN, "10.0.0.255"));
    assert!(!is_acceptable(ADDRESS_PATTERN, ""));
    assert!(!is_acceptable(ADDRESS_PATTERN, "example"));
    assert!(!is_acceptable(ADDRESS_PATTERN, "192.168.0"));
    assert!(!is_acceptable(ADDRESS_PATTERN, "local"));
}

#[test]
fn port_rule_wants_digits() {
    assert!(is_acceptable(PORT_PATTERN, "5432"));
    assert!(is_acceptable(PORT_PATTERN, "1"));
    assert!(is_acceptable(PORT_PATTERN, "65535"));
    assert!(!is_acceptable(PORT_PATTERN, "abcde"));
    assert!(!is_acceptable(PORT_PATTERN, ""));
}

#[test]
fn a_pattern_that_does_not_compile_accepts_nothing() {
    assert!(!is_acceptable("(", "("));
    assert!(!is_acceptable("[0-9", "5"));
}

#[test]
fn a_match_anywhere_in_the_text_counts() {
    assert!(is_acceptable("b+", "abbc"));
    assert!(!is_acceptable("b+", "acd"));
}

#[test]
fn verdict_needs_text_and_a_match() {
    assert!(verdict(false, Ok(true)));
    assert!(!verdict(false, Ok(false)));
    assert!(!verdict(true, Ok(true)));
    assert!(!verdict(true, Ok(false)));
    let failed = regex::Regex::new("(").map(|_| true);
    assert!(failed.is_err());
    assert!(!verdict(false, failed.clone()));
    assert!(!verdict(true, failed));
}

#[test]
fn default_server_form_is_blank_and_invalid() {
    let form = ServerEntry::default();
    assert_eq!(form, entry("", "", ""));
    assert!(!form.verify_input());
}

#[test]
fn update_validity_sets_each_flag_from_its_text() {
    let mut form = entry("db1", "localhost", "abcde");
    form.update_validity();
    assert!(form.name.valid);
    assert!(form.address.valid);
    assert!(!form.port.valid);
    assert!(!form.verify_input());
    assert_eq!(form.name.text, "db1");
    assert_eq!(form.address.text, "localhost");
    assert_eq!(form.port.text, "abcde");
}

#[test]
fn update_validity_takes_back_a_stale_flag() {
    let mut form = entry("", "nowhere", "5432");
    form.name.valid = true;
    form.address.valid = true;
    form.update_validity();
    assert!(!form.name.valid);
    assert!(!form.address.valid);
    assert!(form.port.valid);
}

#[test]
fn update_validity_keeps_cursors() {
    let mut form = entry("db1", "localhost", "5432");
    form.name.index = 2;
    form.port.index = 4;
    form.update_validity();
    assert_eq!(form.name.index, 2);
    assert_eq!(form.address.index, 0);
    assert_eq!(form.port.index, 4);
    assert!(form.verify_input());
}

#[test]
fn verify_input_is_the_and_of_the_flags() {
    for bits in 0..8u8 {
        let mut form = entry("a", "b", "c");
        form.set_validity(bits & 1 != 0, bits & 2 != 0, bits & 4 != 0);
        assert_eq!(form.name.valid, bits & 1 != 0);
        assert_eq!(form.address.valid, bits & 2 != 0);
        assert_eq!(form.port.valid, bits & 4 != 0);
        assert_eq!(form.verify_input(), bits == 7);
    }
}

#[test]
fn clear_form_empties_a_server_form() {
    let mut form = entry("db1", "localhost", "5432");
    form.update_validity();
    form.name.index = 3;
    form.clear_form();
    assert_eq!(form, entry("", "", ""));
}

#[test]
fn server_form_hands_keys_to_the_focused_field() {
    let mut form = entry("", "", "");
    form.press_key(SelectedInput::Name, Key::Char('n'));
    form.press_key(SelectedInput::Address, Key::Char('a'));
    form.press_key(SelectedInput::Port, Key::Char('1'));
    form.press_key(SelectedInput::Port, Key::Char('2'));
    form.press_key(SelectedInput::Port, Key::Backspace);
    assert_eq!(form.name.text, "n");
    assert_eq!(form.address.text, "a");
    assert_eq!(form.port.text, "1");
    assert_eq!(form.port.index, 1);
}

#[test]
fn record_of_an_entry_holds_its_three_texts() {
    let mut form = entry("db1", "localhost", "5432");
    form.name.index = 2;
    form.update_validity();
    assert_eq!(form.record(), server("db1", "localhost", "5432"));
}

#[test]
fn entry_from_a_stored_server_is_unedited() {
    let stored = server("db1", "localhost", "5432");
    let shown = ServerEntry::from(&stored);
    assert_eq!(shown, entry("db1", "localhost", "5432"));
    assert_eq!(shown.clone(), shown);
}

#[test]
fn focus_walks_round_the_three_fields() {
    assert_eq!(SelectedInput::default(), SelectedInput::Name);
    assert_eq!(SelectedInput::Name.next(), SelectedInput::Address);
    assert_eq!(SelectedInput::Address.next(), SelectedInput::Port);
    assert_eq!(SelectedInput::Port.next(), SelectedInput::Name);
    assert_eq!(SelectedInput::Name.prev(), SelectedInput::Port);
    assert_eq!(SelectedInput::Address.prev(), SelectedInput::Name);
    assert_eq!(SelectedInput::Port.prev(), SelectedInput::Address);
}

#[test]
fn user_form_validates_its_name() {
    let mut form = UserEntry::default();
    form.update_validity();
    assert!(!form.verify_input());
    form.press_key(server_console::modules::users::SelectedInput::Name, Key::Char('z'));
    assert!(!form.verify_input());
    form.update_validity();
    assert!(form.verify_input());
    assert_eq!(form.name.text, "z");
    form.set_validity(false);
    assert!(!form.verify_input());
    form.clear_form();
    assert_eq!(form, UserEntry::default());
}

#[test]
fn endpoint_is_built_from_address_and_port() {
    let chosen = entry("db1", "localhost", "5432");
    assert_eq!(endpoint_of(&chosen), "http://localhost:5432/api/users");
    let other = entry("x", "10.0.0.7", "80");
    assert_eq!(endpoint_of(&other), "http://10.0.0.7:80/api/users");
}

#[test]
fn config_takes_over_what_was_stored() {
    let mut config = Config::default();
    assert!(config.servers.is_empty());
    let rewrite = config.initialize(Some(vec![server("a", "localhost", "1")]));
    assert!(!rewrite);
    assert_eq!(config.servers, vec![server("a", "localhost", "1")]);
}

#[test]
fn config_starts_empty_where_nothing_was_stored() {
    let mut config = Config { servers: vec![server("old", "localhost", "1")] };
    let rewrite = config.initialize(None);
    assert!(rewrite);
    assert!(config.servers.is_empty());
}

#[test]
fn add_new_server_appends() {
    let mut config = Config { servers: vec![server("a", "localhost", "1")] };
    config.add_new_server(server("b", "10.0.0.1", "22"));
    assert_eq!(config.servers, vec![server("a", "localhost", "1"), server("b", "10.0.0.1", "22")]);
}

#[test]
fn server_clone_and_default() {
    let one = server("a", "localhost", "1");
    assert_eq!(one.clone(), one);
    assert_eq!(Server::default(), server("", "", ""));
}

#[test]
fn cursor_of_an_empty_list_selects_nothing() {
    let mut cursor = TableCursor::default();
    assert_eq!(cursor.selected(), None);
    cursor.select_next(0);
    assert_eq!(cursor.selected(), None);
    cursor.select_previous(0);
    assert_eq!(cursor.selected(), None);
    cursor.settle(0);
    assert_eq!(cursor.selected(), None);
    let mut stale = TableCursor { selected: Some(3) };
    stale.settle(0);
    assert_eq!(stale.selected(), None);
}

#[test]
fn cursor_moves_by_one_inside_the_list() {
    let mut cursor = TableCursor { selected: Some(1) };
    cursor.select_next(3);
    assert_eq!(cursor.selected(), Some(2));
    cursor.select_next(3);
    assert_eq!(cursor.selected(), Some(2));
    cursor.select_previous(3);
    assert_eq!(cursor.selected(), Some(1));
    cursor.select_previous(3);
    assert_eq!(cursor.selected(), Some(0));
    cursor.select_previous(3);
    assert_eq!(cursor.selected(), Some(0));
}

#[test]
fn cursor_without_a_row_takes_an_end_of_the_list() {
    let mut cursor = TableCursor::default();
    cursor.select_next(4);
    assert_eq!(cursor.selected(), Some(0));
    let mut cursor = TableCursor::default();
    cursor.select_previous(4);
    assert_eq!(cursor.selected(), Some(3));
    let mut cursor = TableCursor::default();
    cursor.settle(4);
    assert_eq!(cursor.selected(), Some(0));
}

#[test]
fn cursor_behind_the_list_comes_back_to_its_last_row() {
    let mut cursor = TableCursor { selected: Some(9) };
    cursor.settle(4);
    assert_eq!(cursor.selected(), Some(3));
    let mut cursor = TableCursor { selected: Some(9) };
    cursor.select_next(4);
    assert_eq!(cursor.selected(), Some(3));
    let mut cursor = TableCursor { selected: Some(9) };
    cursor.select_previous(4);
    assert_eq!(cursor.selected(), Some(3));
    let mut cursor = TableCursor { selected: Some(2) };
    cursor.settle(4);
    assert_eq!(cursor.selected(), Some(2));
}

#[test]
fn cursor_column_counts_border_and_characters() {
    assert_eq!(cursor_column(0, 0), 1);
    assert_eq!(cursor_column(10, 3), 14);
    assert_eq!(cursor_column(65534, 0), 65535);
    assert_eq!(cursor_column(65535, 0), 65535);
    assert_eq!(cursor_column(7, usize::MAX), 65535);
    assert_eq!(cursor_column(65000, 534), 65535);
    assert_eq!(cursor_column(65000, 533), 65534);
}

#[test]
fn fields_of_the_form_have_their_rows() {
    let form = entry("n", "a", "p");
    assert_eq!(SelectedInput::Name.position(), 0);
    assert_eq!(SelectedInput::Address.position(), 1);
    assert_eq!(SelectedInput::Port.position(), 2);
    assert_eq!(form.input(SelectedInput::Name).text, "n");
    assert_eq!(form.input(SelectedInput::Address).text, "a");
    assert_eq!(form.input(SelectedInput::Port).text, "p");
}
