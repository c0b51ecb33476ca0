use tui_kit::input::key::{KeyCode, KeyEvent, KeyModifiers};
use tui_kit::input::search::{SearchKeyOutcome, SearchMode, SearchModalState};
use tui_kit::input::TextInputState;

fn key(code: KeyCode) -> KeyEvent {
    KeyEvent::new(code, KeyModifiers::none())
}

#[test]
fn edits_unicode_safely() {
    let mut input = TextInputState::from("aäb");
    input.move_left();
    input.backspace();
    assert_eq!(input.value, "ab");
    input.insert('ß');
    assert_eq!(input.value, "aßb");
}

#[test]
fn esc_cancels_and_enter_submits() {
    let mut s = SearchModalState::new();
    assert_eq!(s.handle_key(key(KeyCode::Esc), 5, SearchMode::Live), SearchKeyOutcome::Cancel);
    assert_eq!(s.handle_key(key(KeyCode::Enter), 5, SearchMode::Deferred), SearchKeyOutcome::Submit);
}

#[test]
fn up_down_move_with_clamp() {
    let mut s = SearchModalState::new();
    assert_eq!(s.handle_key(key(KeyCode::Up), 3, SearchMode::Live), SearchKeyOutcome::Ignored);
    assert_eq!(s.handle_key(key(KeyCode::Down), 3, SearchMode::Live), SearchKeyOutcome::Moved);
    assert_eq!(s.selected, 1);
    assert_eq!(s.handle_key(key(KeyCode::Down), 3, SearchMode::Live), SearchKeyOutcome::Moved);
    assert_eq!(s.handle_key(key(KeyCode::Down), 3, SearchMode::Live), SearchKeyOutcome::Ignored);
    assert_eq!(s.selected, 2);
}

#[test]
fn down_with_zero_max_no_op() {
    let mut s = SearchModalState::new();
    assert_eq!(s.handle_key(key(KeyCode::Down), 0, SearchMode::Live), SearchKeyOutcome::Ignored);
    assert_eq!(s.selected, 0);
}

#[test]
fn live_edit_resets_selection() {
    let mut s = SearchModalState::new();
    s.selected = 3;
    let outcome = s.handle_key(key(KeyCode::Char('a')), 10, SearchMode::Live);
    assert_eq!(outcome, SearchKeyOutcome::Edited);
    assert_eq!(s.selected, 0);
    assert_eq!(s.input.value, "a");
}

#[test]
fn deferred_edit_preserves_selection() {
    let mut s = SearchModalState::new();
    s.selected = 3;
    let outcome = s.handle_key(key(KeyCode::Char('a')), 10, SearchMode::Deferred);
    assert_eq!(outcome, SearchKeyOutcome::Edited);
    assert_eq!(s.selected, 3);
}

#[test]
fn alt_backspace_word_deletes_via_input() {
    let mut s = SearchModalState::from_query("foo bar");
    let outcome = s.handle_key(
        KeyEvent::new(KeyCode::Backspace, KeyModifiers::alt()),
        10,
        SearchMode::Live,
    );
    assert_eq!(outcome, SearchKeyOutcome::Edited);
    assert_eq!(s.input.value, "foo ");
}

#[test]
fn clamp_handles_shrinking_list() {
    let mut s = SearchModalState::new();
    s.selected = 5;
    s.clamp(3);
    assert_eq!(s.selected, 2);
    s.clamp(0);
    assert_eq!(s.selected, 0);
}

#[test]
fn insert_then_backspace_restores_text_and_cursor() {
    let mut input = TextInputState::from("héllo");
    input.move_left();
    input.move_left();
    let before = input.clone();
    input.insert('x');
    assert_eq!(input.value, "hélxlo");
    assert_eq!(input.cursor, 4);
    input.backspace();
    assert_eq!(input, before);
}

#[test]
fn cursor_stays_within_text_through_edits() {
    let mut input = TextInputState::from("ab");
    for code in [KeyCode::Right, KeyCode::Right, KeyCode::Delete, KeyCode::Backspace, KeyCode::End, KeyCode::Left, KeyCode::Home, KeyCode::Delete] {
        input.handle_key(key(code));
        assert!(input.cursor <= input.value.chars().count());
    }
    assert_eq!(input.value, "");
    assert_eq!(input.cursor, 0);
}

#[test]
fn left_then_right_returns() {
    let mut input = TextInputState::from("abc");
    input.move_left();
    let at = input.cursor;
    input.move_left();
    input.move_right();
    assert_eq!(input.cursor, at);
    input.move_home();
    input.move_left();
    assert_eq!(input.cursor, 0);
    input.move_end();
    input.move_right();
    assert_eq!(input.cursor, 3);
}

#[test]
fn cursor_past_end_edits_at_end() {
    let mut input = TextInputState::from("ab");
    input.cursor = 5;
    input.insert('c');
    assert_eq!(input.value, "abc");
    assert_eq!(input.cursor, 6);
    input.backspace();
    assert_eq!(input.value, "abc");
    assert_eq!(input.cursor, 5);
    input.delete();
    assert_eq!(input.value, "abc");
}

#[test]
fn masked_display_and_set() {
    let mut input = TextInputState::new().with_mask(true);
    input.set("päss");
    assert_eq!(input.cursor, 4);
    assert_eq!(input.display(), "****");
    let plain = input.clone().with_mask(false);
    assert_eq!(plain.display(), "päss");
}

#[test]
fn control_and_alt_characters_are_not_typed() {
    let mut input = TextInputState::from("a");
    assert!(!input.handle_key(KeyEvent::new(KeyCode::Char('x'), KeyModifiers::control())));
    assert!(!input.handle_key(KeyEvent::new(KeyCode::Char('x'), KeyModifiers::alt())));
    assert!(!input.handle_key(key(KeyCode::Tab)));
    assert!(input.handle_key(KeyEvent::new(KeyCode::Char('X'), KeyModifiers::shift())));
    assert_eq!(input.value, "aX");
}

#[test]
fn alt_backspace_skips_spaces_then_word() {
    let mut input = TextInputState::from("one two   ");
    assert!(input.handle_key(KeyEvent::new(KeyCode::Backspace, KeyModifiers::alt())));
    assert_eq!(input.value, "one ");
    assert_eq!(input.cursor, 4);
    input.move_home();
    assert!(input.handle_key(KeyEvent::new(KeyCode::Backspace, KeyModifiers::alt())));
    assert_eq!(input.value, "one ");
    assert_eq!(input.cursor, 0);
}

#[test]
fn deferred_selection_stays_in_list() {
    let mut s = SearchModalState::from_query("x");
    s.selected = 1;
    assert_eq!(s.handle_key(key(KeyCode::Up), 2, SearchMode::Deferred), SearchKeyOutcome::Moved);
    assert_eq!(s.selected, 0);
    assert_eq!(s.handle_key(key(KeyCode::Backspace), 2, SearchMode::Deferred), SearchKeyOutcome::Edited);
    assert_eq!(s.input.value, "");
    assert_eq!(s.handle_key(key(KeyCode::F(1)), 2, SearchMode::Live), SearchKeyOutcome::Ignored);
    s.reset();
    assert_eq!(s, SearchModalState::new());
}

#[test]
fn clamp_twice_is_clamp_once() {
    let mut s = SearchModalState::new();
    s.selected = 9;
    s.clamp(4);
    let once = s.selected;
    s.clamp(4);
    assert_eq!(s.selected, once);
    assert_eq!(once, 3);
}
