use tui_kit::shortcuts::{display, ShortcutSection};
use tui_kit::ui::layout::{centered_rect_fixed, centered_rect_percent, Area};
use tui_kit::ui::login::{field_label_column, LoginModal};
use tui_kit::ui::search::{category_ribbon_rows, highlight_spans, visible_rows, SearchModalCategory};
use tui_kit::ui::settings::{SettingsLine, SettingsModal};

#[test]
fn centered_rects() {
    let area = Area { x: 0, y: 0, width: 80, height: 24 };
    assert_eq!(centered_rect_fixed(10, 4, area), Area { x: 35, y: 10, width: 10, height: 4 });
    assert_eq!(centered_rect_fixed(100, 40, area), area);
    let area = Area { x: 2, y: 1, width: 100, height: 50 };
    assert_eq!(centered_rect_percent(70, 60, area), Area { x: 17, y: 11, width: 70, height: 30 });
    assert_eq!(centered_rect_percent(150, 100, area), area);
}

#[test]
fn visible_rows_keep_selection_in_view() {
    let r = visible_rows(10, 7, 3);
    assert_eq!((r.selected, r.start, r.end), (7, 5, 8));
    let r = visible_rows(10, 20, 3);
    assert_eq!((r.selected, r.start, r.end), (9, 7, 10));
    let r = visible_rows(10, 1, 3);
    assert_eq!((r.selected, r.start, r.end), (1, 0, 3));
    let r = visible_rows(2, 1, 0);
    assert_eq!((r.selected, r.start, r.end), (1, 1, 1));
}

#[test]
fn category_chips_wrap_greedily() {
    let cats = [
        SearchModalCategory { label: "All", active: true },
        SearchModalCategory { label: "Books", active: false },
        SearchModalCategory { label: "Music", active: false },
        SearchModalCategory { label: "An extremely long label", active: false },
    ];
    assert_eq!(category_ribbon_rows(&cats, 15), vec![vec![0, 1], vec![2], vec![3]]);
    assert_eq!(category_ribbon_rows(&cats, 200), vec![vec![0, 1, 2, 3]]);
    assert_eq!(category_ribbon_rows(&cats[..0], 10), Vec::<Vec<usize>>::new());
}

#[test]
fn highlight_marks_exactly_listed_indices() {
    let spans = highlight_spans("abcde", &[1, 3], 0u8, 1u8);
    let texts: Vec<&str> = spans.iter().map(|s| s.content.as_str()).collect();
    assert_eq!(texts, vec!["a", "b", "c", "d", "e"]);
    assert_eq!(spans.iter().map(|s| s.style).collect::<Vec<_>>(), vec![0, 1, 0, 1, 0]);
    assert_eq!(texts.concat(), "abcde");
    let spans = highlight_spans("", &[0], 0u8, 1u8);
    assert!(spans.is_empty());
    let spans = highlight_spans("", &[], 0u8, 1u8);
    assert_eq!(spans.len(), 1);
    assert_eq!(spans[0].content, "");
}

#[test]
fn login_modal_size_and_submit() {
    let mut m = LoginModal::new("Login");
    assert_eq!(m.width, 72);
    assert_eq!(m.height_in(100), 16);
    assert_eq!(m.height_in(10), 10);
    assert_eq!(m.width_in(50), 50);
    assert_eq!(m.submit_text(), "  [ Submit ]  ");
    m.busy = true;
    assert_eq!(m.submit_text(), "  [ Working… ]  ");
    m.min_height = 5;
    m.help_lines = vec!["a", "b"];
    m.error = Some("bad");
    assert_eq!(m.height_in(100), 10);
    assert_eq!(field_label_column("User"), "User        ");
}

#[test]
fn settings_lines_and_scroll() {
    let sections = vec![ShortcutSection { title: "Nav", items: vec![display("up", "↑", "up"), display("quit", "q", "quit")] }];
    let modal = SettingsModal::from_shortcuts("Keys", sections);
    assert_eq!(modal.key_width, 16);
    let mut modal = SettingsModal::new(modal.title, modal.sections);
    modal.key_width = 4;
    assert_eq!(
        modal.lines(),
        vec![
            SettingsLine::Title("Nav".to_string()),
            SettingsLine::Item { keys: "  ↑   ".to_string(), action: "up".to_string() },
            SettingsLine::Item { keys: "  q   ".to_string(), action: "quit".to_string() },
            SettingsLine::Blank,
        ]
    );
    modal.scroll = 5;
    assert_eq!(modal.scroll_in(10, 8), (2, 2));
    assert_eq!(modal.scroll_in(4, 8), (0, 0));
    assert_eq!(modal.size_in(10, 1), (8, 1));
}
