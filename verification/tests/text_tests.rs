use tui_kit::shortcuts::{char_key, ctrl_char, display, plain_char, shifted_char};
use tui_kit::input::key::{KeyCode, KeyEvent, KeyModifiers};
use tui_kit::ui::text::{fit_text, line_with_right_parts, render_input_text, to_single_line, truncate_text, RightAlignedLine};
use tui_kit::ui::widgets::{centered_message_text, field_value_text, filter_chip_text, login_field_label};
use tui_kit::strings::trim_end_string;

#[test]
fn single_line_collapses_white_space() {
    assert_eq!(to_single_line("  hello \t world\n "), "hello world");
    assert_eq!(to_single_line(" \u{3000} "), "");
    assert_eq!(to_single_line("a\u{a0}b  c"), "a b c");
}

#[test]
fn fit_text_pads_by_characters() {
    assert_eq!(fit_text("abc", 5), "abc  ");
    assert_eq!(fit_text("abc", 0), "");
    assert_eq!(fit_text("日本語", 6), "日本語   ");
}

#[test]
fn fit_text_cuts_with_ellipsis() {
    assert_eq!(fit_text("abcdef", 4), "abc…");
    assert_eq!(fit_text("abcdef", 1), "…");
    assert_eq!(fit_text("日本語", 5), "日本…");
    assert_eq!(fit_text("日本語", 4), "日… ");
}

#[test]
fn truncate_text_drops_padding() {
    assert_eq!(truncate_text("abc", 5), "abc");
    assert_eq!(truncate_text("日本語", 4), "日…");
    let t = truncate_text("a b   c  ", 20);
    assert_eq!(t, "a b   c");
    assert!(!t.ends_with(char::is_whitespace));
    assert_eq!(trim_end_string("x \t\u{2003}"), "x");
}

#[test]
fn input_text_marks_cursor() {
    assert_eq!(render_input_text("", 0, false), "_");
    assert_eq!(render_input_text("ab", 2, false), "ab_");
    assert_eq!(render_input_text("ab", 1, false), "ab");
    assert_eq!(render_input_text("ab", 1, true), "**");
    assert_eq!(render_input_text("ab", 5, true), "**_");
}

#[test]
fn right_aligned_line_layouts() {
    assert_eq!(line_with_right_parts("left", "", 10), RightAlignedLine::Left("left".to_string()));
    assert_eq!(line_with_right_parts("left", "right", 6), RightAlignedLine::Right("right".to_string()));
    assert_eq!(line_with_right_parts("left", "right", 3), RightAlignedLine::Right("ri…".to_string()));
    assert_eq!(
        line_with_right_parts("hello", "ok", 10),
        RightAlignedLine::Both { left: "hello".to_string(), gap: 3, right: "ok".to_string() }
    );
    assert_eq!(
        line_with_right_parts("a long left text", "ok", 10),
        RightAlignedLine::Both { left: "a long…".to_string(), gap: 1, right: "ok".to_string() }
    );
}

#[test]
fn widget_texts() {
    assert_eq!(filter_chip_text("All"), " All ");
    assert_eq!(field_value_text("", "user", false), "user");
    assert_eq!(field_value_text("pw", "x", true), "**");
    assert_eq!(field_value_text("pw", "x", false), "pw");
    assert_eq!(login_field_label("Name", true), "> Name: ");
    assert_eq!(login_field_label("Name", false), "  Name: ");
}

#[test]
fn centered_message_lines_are_padded() {
    assert_eq!(centered_message_text("hi", 5, 10), vec!["".to_string(), "".to_string(), "    hi".to_string()]);
    assert_eq!(centered_message_text("hi", 1, 3), vec!["hi".to_string()]);
    assert!(centered_message_text("hi", 0, 10).is_empty());
    assert!(centered_message_text("hi", 3, 0).is_empty());
    assert_eq!(centered_message_text("toolong", 1, 4), vec!["too…".to_string()]);
}

#[test]
fn shortcut_key_matching() {
    let ctrl_a = KeyEvent::new(KeyCode::Char('a'), KeyModifiers::control());
    let shift_a = KeyEvent::new(KeyCode::Char('A'), KeyModifiers::shift());
    assert!(char_key(ctrl_a, 'a'));
    assert!(!char_key(ctrl_a, 'b'));
    assert!(!plain_char(ctrl_a, 'a'));
    assert!(ctrl_char(ctrl_a, 'a'));
    assert!(shifted_char(shift_a, 'A'));
    assert!(plain_char(shift_a, 'A'));
    assert!(!char_key(KeyEvent::new(KeyCode::Enter, KeyModifiers::none()), 'a'));
    let d = display("quit", "q", "Quit");
    assert_eq!((d.id, d.keys, d.action), ("quit", "q", "Quit"));
}
