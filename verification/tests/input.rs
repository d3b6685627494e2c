use inquire::input::Input;
use inquire::ui::{Key, KeyModifiers};

fn typed(text: &str) -> Input {
    let mut input = Input::new();
    for c in text.chars() {
        input.append_char(c);
    }
    input
}

#[test]
fn new_input_is_empty() {
    let input = Input::new();
    assert_eq!("", input.content());
    assert!(input.is_empty());
}

#[test]
fn append_char_types_at_the_end() {
    let mut input = Input::new();
    input.append_char('a');
    assert_eq!("a", input.content());
    input.append_char('ß');
    input.append_char('c');
    assert_eq!("aßc", input.content());
    assert!(!input.is_empty());
}

#[test]
fn backspace_removes_one_character() {
    let mut input = typed("abc");
    assert_eq!(true, input.backspace());
    assert_eq!("ab", input.content());
    assert_eq!(true, input.backspace());
    assert_eq!(true, input.backspace());
    assert_eq!("", input.content());
}

#[test]
fn backspace_on_empty_text_is_a_no_op() {
    let mut input = Input::new();
    assert_eq!(false, input.backspace());
    assert_eq!("", input.content());
}

#[test]
fn backspace_removes_a_whole_grapheme_cluster() {
    // "e" followed by a combining acute accent is one cluster.
    let mut input = typed("ne\u{301}");
    assert_eq!(true, input.backspace());
    assert_eq!("n", input.content());

    // Carriage return and line feed are one cluster.
    let mut input = typed("a\r\n");
    assert_eq!(true, input.backspace());
    assert_eq!("a", input.content());

    // Two regional indicators make one flag.
    let mut input = typed("b\u{1F1F7}\u{1F1FA}\u{1F1F8}\u{1F1F9}");
    assert_eq!(true, input.backspace());
    assert_eq!("b\u{1F1F7}\u{1F1FA}", input.content());
    assert_eq!(true, input.backspace());
    assert_eq!("b", input.content());
}

#[test]
fn clear_empties_the_text() {
    let mut input = typed("filter");
    input.clear();
    assert_eq!("", input.content());
}

#[test]
fn handle_key_edits_and_reports() {
    let mut input = Input::new();
    assert_eq!(false, input.handle_key(Key::Backspace));
    assert_eq!(true, input.handle_key(Key::Char('a', KeyModifiers::none())));
    assert_eq!(true, input.handle_key(Key::Char('B', KeyModifiers::shift())));
    assert_eq!("aB", input.content());
    let control = KeyModifiers { shift: false, control: true, alt: false };
    let alt = KeyModifiers { shift: false, control: false, alt: true };
    assert_eq!(false, input.handle_key(Key::Char('c', control)));
    assert_eq!(false, input.handle_key(Key::Char('d', alt)));
    assert_eq!(false, input.handle_key(Key::Up(KeyModifiers::none())));
    assert_eq!(false, input.handle_key(Key::Submit));
    assert_eq!(false, input.handle_key(Key::Tab));
    assert_eq!(false, input.handle_key(Key::Any));
    assert_eq!("aB", input.content());
    assert_eq!(true, input.handle_key(Key::Backspace));
    assert_eq!("a", input.content());
}

#[test]
fn key_modifiers_by_example() {
    assert!(KeyModifiers::none().is_none());
    assert!(!KeyModifiers::shift().is_none());
    assert!(KeyModifiers::none().types_text());
    assert!(KeyModifiers::shift().types_text());
    assert!(!KeyModifiers { shift: true, control: true, alt: false }.types_text());
}
