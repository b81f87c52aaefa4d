use gistui::chrome::{Category, MINIMAL_HINT};
use gistui::hints::{category_for_key, hint_line, KeyBinding};
use gistui::theme::{Color, Theme};

fn binding(key: &str, category: Category) -> KeyBinding {
    KeyBinding { key: key.into(), category }
}

/// The List screen's keys that the hints below name.
fn list_bindings() -> Vec<KeyBinding> {
    vec![
        binding("Tab", Category::Nav),
        binding("d", Category::Write),
        binding("P", Category::Read),
        binding("Esc/q", Category::Nav),
        binding("X", Category::Destructive),
    ]
}

fn key_fg(line: &[gistui::chrome::StyledText], k: &str) -> Option<Color> {
    line.iter().find(|s| s.text == k).unwrap_or_else(|| panic!("key span {k}")).fg
}

#[test]
fn hint_line_colours_keys_by_action_category() {
    let line = hint_line(
        "Tab panes  ·  d download  ·  P pins  ·  Esc/q back",
        &list_bindings(),
        &Theme::dark(),
    );
    assert_eq!(key_fg(&line, "Tab"), Some(Color::Cyan)); // navigation
    assert_eq!(key_fg(&line, "d"), Some(Color::Green)); // write
    assert_eq!(key_fg(&line, "P"), Some(Color::Cyan)); // opens a view, not the `pin` write action
    assert_eq!(key_fg(&line, "Esc/q"), Some(Color::Cyan)); // navigation
    // Labels keep default brightness (no fg override) regardless of the key's category.
    let label = line.iter().find(|s| s.text.contains("download")).expect("label span");
    assert_eq!(label.fg, None);
}

#[test]
fn hint_line_leaves_an_unclaimed_key_on_the_navigation_accent() {
    let line = hint_line(MINIMAL_HINT, &[binding("X", Category::Destructive)], &Theme::dark());
    assert_eq!(key_fg(&line, ";"), Some(Color::Cyan));
    assert_eq!(key_fg(&line, "Ctrl+p"), Some(Color::Cyan));
}

#[test]
fn hint_line_preserves_every_character() {
    let text = "↑↓ move  ·  Enter diff · q back";
    let joined: String =
        hint_line(text, &list_bindings(), &Theme::dark()).iter().map(|s| s.text.as_str()).collect();
    assert_eq!(joined, text);
}

#[test]
fn separators_and_indents_are_dimmed_and_a_destructive_key_is_red() {
    let theme = Theme::dark();
    let line = hint_line("X delete · Tab", &list_bindings(), &theme);
    let runs: Vec<(&str, Option<Color>)> = line.iter().map(|s| (s.text.as_str(), s.fg)).collect();
    assert_eq!(
        runs,
        vec![
            ("X", Some(Color::Red)),
            (" delete ", None),
            ("·", Some(theme.dim)),
            (" ", Some(theme.dim)),
            ("Tab", Some(Color::Cyan)),
        ]
    );
    assert!(line.iter().all(|s| !s.bold && !s.reversed));
}

#[test]
fn the_first_binding_of_a_key_decides() {
    let b = vec![binding("y", Category::Read), binding("y", Category::Write)];
    assert_eq!(category_for_key(&b, "y"), Category::Read);
    assert_eq!(category_for_key(&b, "z"), Category::Nav);
}
