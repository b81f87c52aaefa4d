use gistui::chrome::{
    apply_hscroll_spans, category_color, centered_confirm_rect, centered_modal_rect,
    confirm_modal_width, footer_height, footer_with_status, input_line, spinner_glyph,
    wrap_line_count, Category, Rect, StyledText, TextInput, MINIMAL_HINT,
};
use gistui::theme::{Color, Theme};

#[test]
fn footer_with_status_prefers_status_else_colourised_hints() {
    let (msg, colored) = footer_with_status(Some("already in sync"), "↑↓ move · q back");
    assert_eq!(msg, "already in sync");
    assert!(!colored);
    let (hint, colored) = footer_with_status(None, "↑↓ move · q back");
    assert_eq!(hint, "↑↓ move · q back");
    assert!(colored);
}

#[test]
fn spinner_glyph_cycles_through_frames_and_wraps() {
    assert_ne!(spinner_glyph(0), spinner_glyph(1));
    assert_eq!(spinner_glyph(0), spinner_glyph(10));
    assert_eq!(spinner_glyph(3), spinner_glyph(13));
    let frames: std::collections::HashSet<_> = (0..10).map(spinner_glyph).collect();
    assert_eq!(frames.len(), 10);
}

#[test]
fn category_color_maps_every_category() {
    let dark = Theme::dark();
    assert_eq!(category_color(Category::Nav, &dark), Color::Cyan);
    assert_eq!(category_color(Category::Read, &dark), Color::Cyan);
    assert_eq!(category_color(Category::Write, &dark), Color::Green);
    assert_eq!(category_color(Category::Destructive, &dark), Color::Red);
}

#[test]
fn wrap_line_count_is_responsive_to_width() {
    let text = "aaa bbb ccc";
    assert_eq!(wrap_line_count(text, 100), 1);
    assert_eq!(wrap_line_count(text, 7), 2);
    assert_eq!(wrap_line_count(text, 3), 3);
    assert_eq!(wrap_line_count(text, 0), 1);
}

#[test]
fn wrap_line_count_breaks_a_word_wider_than_the_line() {
    assert_eq!(wrap_line_count("aaaaaaaaaa", 5), 2);
    assert_eq!(wrap_line_count("aaaaaaaaaaa", 5), 3);
    assert_eq!(wrap_line_count("ab aaaaaaaaaa", 5), 3);
}

#[test]
fn footer_height_collapses_to_zero_when_empty_else_wraps() {
    assert_eq!(footer_height("", 100, "", false), 0);
    assert_eq!(footer_height("? Help", 100, "", false), 1);
    assert_eq!(footer_height("aaa bbb ccc", 9, "", false), 2);
    assert_eq!(footer_height("/x_", 100, "Filter", false), 2);
    assert_eq!(footer_height("aaa bbb ccc", 9, "", true), 1);
}

#[test]
fn minimal_hint_shows_menu_and_palette_shortcuts() {
    assert_eq!(MINIMAL_HINT, "; Menu · Ctrl+p Palette");
    let (hint, colored) = footer_with_status(None, MINIMAL_HINT);
    assert_eq!(hint, "; Menu · Ctrl+p Palette");
    assert!(colored);
    let (status, colored) = footer_with_status(Some("Downloaded file.txt"), MINIMAL_HINT);
    assert_eq!(status, "Downloaded file.txt");
    assert!(!colored);
}

#[test]
fn input_line_reverses_the_char_under_the_cursor() {
    let mut input = TextInput::from("abc");
    input.left();
    let line = input_line("/", &input, "");
    let reversed: Vec<&str> = line
        .iter()
        .filter(|s| s.reversed)
        .map(|s| s.text.as_str())
        .collect();
    assert_eq!(reversed, vec!["c"]);
    let text: String = line.iter().map(|s| s.text.as_str()).collect();
    assert_eq!(text, "/abc");
}

#[test]
fn input_line_cursor_at_end_reverses_trailing_space() {
    let input = TextInput::from("ab");
    let line = input_line("", &input, "");
    let reversed: Vec<&str> = line
        .iter()
        .filter(|s| s.reversed)
        .map(|s| s.text.as_str())
        .collect();
    assert_eq!(reversed, vec![" "]);
}

#[test]
fn text_input_inserts_at_the_caret() {
    let mut input = TextInput::from("ac");
    input.left();
    input.insert('b');
    assert_eq!(input.text(), "abc");
    assert_eq!(input.cursor(), 2);
    input.right();
    input.right();
    assert_eq!(input.cursor(), 3);
}

#[test]
fn modal_rects_are_centred_inside_the_frame() {
    let area = Rect { x: 0, y: 0, width: 100, height: 40 };
    let r = centered_modal_rect(area, "short body");
    assert_eq!(r.width, 60);
    assert_eq!(r.height, 3);
    assert_eq!(r.x, 20);
    assert_eq!(r.y, 18);
    assert_eq!(confirm_modal_width(area), 60);
    let c = centered_confirm_rect(area, 4);
    assert_eq!(c.height, 8);
    assert_eq!(c.y, 16);
    let narrow = Rect { x: 0, y: 0, width: 30, height: 10 };
    assert_eq!(confirm_modal_width(narrow), 24);
    let tall = centered_confirm_rect(narrow, 50);
    assert_eq!(tall.height, 8);
    assert!(tall.x + tall.width <= 30 && tall.y + tall.height <= 10);
}

fn run(text: &str, fg: Option<Color>, bold: bool) -> StyledText {
    StyledText { text: text.to_string(), fg, bold, reversed: false }
}

#[test]
fn hscroll_spans_drops_leading_chars_across_runs() {
    let spans = vec![run("-", Some(Color::Red), false), run("hello ", Some(Color::Red), false), run("world", Some(Color::Red), true)];
    let out = apply_hscroll_spans(spans, 3);
    assert_eq!(out.len(), 2);
    assert_eq!(out[0].text, "llo ");
    assert_eq!(out[1].text, "world");
    assert!(out[1].bold);
    let all = apply_hscroll_spans(vec![run("ab", None, false)], 5);
    assert!(all.is_empty());
}
