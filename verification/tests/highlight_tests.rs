use ratatui::style::{Color, Modifier, Style};
use tui_kit::ui::search::highlight_spans;

fn hi_style() -> Style {
    Style::default().fg(Color::Indexed(220)).add_modifier(Modifier::BOLD)
}

#[test]
fn highlight_empty_indices_returns_single_base_span() {
    let spans = highlight_spans("hello", &[], Style::default(), hi_style());
    assert_eq!(spans.len(), 1);
    assert_eq!(spans[0].content, "hello");
}

#[test]
fn highlight_groups_adjacent_indices() {
    let spans = highlight_spans("Mathematics", &[0, 1, 4], Style::default(), hi_style());
    assert_eq!(
        spans.iter().map(|s| s.content.as_str()).collect::<Vec<_>>(),
        vec!["Ma", "th", "e", "matics"]
    );
    assert_eq!(spans[0].style.fg, Some(Color::Indexed(220)));
    assert_eq!(spans[1].style.fg, None);
    assert_eq!(spans[2].style.fg, Some(Color::Indexed(220)));
}

#[test]
fn highlight_handles_unicode_char_indices() {
    let spans = highlight_spans("aäb", &[1], Style::default(), hi_style());
    assert_eq!(
        spans.iter().map(|s| s.content.as_str()).collect::<Vec<_>>(),
        vec!["a", "ä", "b"]
    );
}
