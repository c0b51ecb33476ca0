use tui_kit::input::key::{KeyCode, KeyEvent, KeyModifiers};
use tui_kit::input::login::{handle_login_key, LoginKeyBindings, LoginKeyOutcome};
use tui_kit::input::TextInputState;

#[derive(Debug, Clone, Copy, PartialEq, Eq)]
enum Focus {
    User,
    Password,
    Submit,
}

fn next(f: Focus) -> Focus {
    match f {
        Focus::User => Focus::Password,
        Focus::Password => Focus::Submit,
        Focus::Submit => Focus::User,
    }
}

fn prev(f: Focus) -> Focus {
    match f {
        Focus::User => Focus::Submit,
        Focus::Password => Focus::User,
        Focus::Submit => Focus::Password,
    }
}

fn press(key: KeyEvent, focus: &mut Focus, input: Option<&mut TextInputState>, bindings: LoginKeyBindings) -> LoginKeyOutcome {
    handle_login_key(key, focus, Focus::Password, Focus::Submit, input, next, prev, bindings)
}

fn plain(code: KeyCode) -> KeyEvent {
    KeyEvent::new(code, KeyModifiers::none())
}

#[test]
fn login_focus_moves_and_escape_quits() {
    let b = LoginKeyBindings::default();
    let mut focus = Focus::User;
    assert_eq!(press(plain(KeyCode::Tab), &mut focus, None, b), LoginKeyOutcome::FocusChanged);
    assert_eq!(focus, Focus::Password);
    assert_eq!(press(KeyEvent::new(KeyCode::Tab, KeyModifiers::shift()), &mut focus, None, b), LoginKeyOutcome::FocusChanged);
    assert_eq!(focus, Focus::User);
    assert_eq!(press(plain(KeyCode::Up), &mut focus, None, b), LoginKeyOutcome::FocusChanged);
    assert_eq!(focus, Focus::Submit);
    assert_eq!(press(plain(KeyCode::Down), &mut focus, None, b), LoginKeyOutcome::FocusChanged);
    assert_eq!(focus, Focus::User);
    assert_eq!(press(plain(KeyCode::Esc), &mut focus, None, b), LoginKeyOutcome::Quit);
    assert_eq!(focus, Focus::User);
}

#[test]
fn login_enter_submits_or_moves_on() {
    let b = LoginKeyBindings::default();
    assert!(b.submit_on_password);
    let mut focus = Focus::User;
    assert_eq!(press(plain(KeyCode::Enter), &mut focus, None, b), LoginKeyOutcome::FocusChanged);
    assert_eq!(focus, Focus::Password);
    assert_eq!(press(plain(KeyCode::Enter), &mut focus, None, b), LoginKeyOutcome::Submit);
    let off = LoginKeyBindings { submit_on_password: false };
    assert_eq!(press(plain(KeyCode::Enter), &mut focus, None, off), LoginKeyOutcome::FocusChanged);
    assert_eq!(focus, Focus::Submit);
    assert_eq!(press(plain(KeyCode::Enter), &mut focus, None, off), LoginKeyOutcome::Submit);
}

#[test]
fn login_field_keys_edit_the_focused_input() {
    let b = LoginKeyBindings::default();
    let mut focus = Focus::User;
    let mut input = TextInputState::new();
    assert_eq!(press(plain(KeyCode::Char('x')), &mut focus, Some(&mut input), b), LoginKeyOutcome::Edited);
    assert_eq!(input.value, "x");
    assert_eq!(press(KeyEvent::new(KeyCode::Char('v'), KeyModifiers::alt()), &mut focus, Some(&mut input), b), LoginKeyOutcome::TogglePassword);
    assert_eq!(press(KeyEvent::new(KeyCode::Char('L'), KeyModifiers::control()), &mut focus, Some(&mut input), b), LoginKeyOutcome::SavedLogin);
    assert_eq!(press(KeyEvent::new(KeyCode::Char('k'), KeyModifiers::control()), &mut focus, Some(&mut input), b), LoginKeyOutcome::Ignored);
    assert_eq!(press(plain(KeyCode::Char('y')), &mut focus, None, b), LoginKeyOutcome::Ignored);
    focus = Focus::Submit;
    assert_eq!(press(plain(KeyCode::Char('z')), &mut focus, Some(&mut input), b), LoginKeyOutcome::Ignored);
    assert_eq!(input.value, "x");
}
