use volnita::input_mode::InputMode;
use volnita::keys::{KeyCode, KeyEvent};
use volnita::view_components::input_field::{is_quit_event, InputField, PromptSignal};

fn press(code: KeyCode) -> KeyEvent {
    KeyEvent::press(code)
}

fn type_text(field: &mut InputField, text: &str) {
    for c in text.chars() {
        field.input.handle_key(press(KeyCode::Char(c)));
    }
}

#[test]
fn typing_then_submitting_records_the_line() {
    let mut field = InputField::default();
    type_text(&mut field, "abc");
    assert_eq!(field.input.value(), "abc");
    assert_eq!(field.input.cursor(), 3);
    field.enter_message();
    assert_eq!(field.messages, vec!["abc".to_string()]);
    assert_eq!(field.input.value(), "");
    assert_eq!(field.input.cursor(), 0);
}

#[test]
fn last_message_absent_before_any_submit() {
    let field = InputField::default();
    assert_eq!(field.last_message(), None);
}

#[test]
fn last_message_returns_latest_submission() {
    let mut field = InputField::default();
    type_text(&mut field, "first");
    field.enter_message();
    type_text(&mut field, "second");
    field.enter_message();
    assert_eq!(field.last_message(), Some("second".to_string()));
    assert_eq!(field.messages.len(), 2);
}

#[test]
fn backspace_removes_before_cursor_and_clamps() {
    let mut field = InputField::default();
    type_text(&mut field, "ab");
    field.input.handle_key(press(KeyCode::Backspace));
    assert_eq!(field.input.value(), "a");
    assert_eq!(field.input.cursor(), 1);
    field.input.handle_key(press(KeyCode::Backspace));
    field.input.handle_key(press(KeyCode::Backspace));
    assert_eq!(field.input.value(), "");
    assert_eq!(field.input.cursor(), 0);
}

#[test]
fn delete_removes_under_cursor() {
    let mut field = InputField::default();
    type_text(&mut field, "abc");
    field.input.handle_key(press(KeyCode::Left));
    field.input.handle_key(press(KeyCode::Left));
    assert_eq!(field.input.cursor(), 1);
    field.input.handle_key(press(KeyCode::Delete));
    assert_eq!(field.input.value(), "ac");
    assert_eq!(field.input.cursor(), 1);
}

#[test]
fn insertion_happens_at_the_cursor() {
    let mut field = InputField::default();
    type_text(&mut field, "ac");
    field.input.handle_key(press(KeyCode::Left));
    field.input.handle_key(press(KeyCode::Char('b')));
    assert_eq!(field.input.value(), "abc");
    assert_eq!(field.input.cursor(), 2);
}

#[test]
fn cursor_movement_clamps_at_both_ends() {
    let mut field = InputField::default();
    type_text(&mut field, "ab");
    field.input.handle_key(press(KeyCode::Right));
    assert_eq!(field.input.cursor(), 2);
    field.input.handle_key(press(KeyCode::Left));
    field.input.handle_key(press(KeyCode::Left));
    field.input.handle_key(press(KeyCode::Left));
    assert_eq!(field.input.cursor(), 0);
}

#[test]
fn control_keys_do_not_edit() {
    let mut field = InputField::default();
    type_text(&mut field, "ab");
    field.input.handle_key(KeyEvent { code: KeyCode::Char('x'), ctrl: true, press: true });
    assert_eq!(field.input.value(), "ab");
}

#[test]
fn default_mode_is_editing() {
    let field = InputField::default();
    assert_eq!(field.input_mode, InputMode::Editing);
}

#[test]
fn quit_chord_is_control_c_only() {
    assert!(is_quit_event(&KeyEvent { code: KeyCode::Char('c'), ctrl: true, press: true }));
    assert!(!is_quit_event(&KeyEvent { code: KeyCode::Char('c'), ctrl: false, press: true }));
    assert!(!is_quit_event(&KeyEvent { code: KeyCode::Char('d'), ctrl: true, press: true }));
    assert!(!is_quit_event(&KeyEvent { code: KeyCode::Enter, ctrl: true, press: true }));
}

#[test]
fn prompt_step_follows_the_three_outcomes() {
    let mut field = InputField::default();
    let pending = field.prompt_step(press(KeyCode::Char('h')));
    assert!(matches!(pending, PromptSignal::Pending));
    let submitted = field.prompt_step(press(KeyCode::Enter));
    assert!(matches!(submitted, PromptSignal::Submitted));
    assert_eq!(field.last_message(), Some("h".to_string()));
    let quit = field.prompt_step(KeyEvent { code: KeyCode::Char('c'), ctrl: true, press: true });
    assert!(matches!(quit, PromptSignal::Quit));
    assert_eq!(field.messages.len(), 1);
}
