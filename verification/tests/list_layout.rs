use gistui::chrome::Rect;
use gistui::list_pane::{
    pane_lines, row_hscroll, visible_list_row, LIST_CHROME_CELLS, LIST_HIGHLIGHT_SYMBOL,
    MIN_PANE_CELLS,
};
use gistui::list_split::{
    clamp_split_percent, percent_for_col, split_cells, MAX_SPLIT_PERCENT, MIN_SPLIT_PERCENT,
};
use gistui::text_fit::cell_width;
use gistui::view_model::{ListPaneEmpty, ListPaneVm, PaneTitleVm, RowEmphasis, RowVm};

fn list_row_pane_width(content_cells: u16) -> u16 {
    LIST_CHROME_CELLS + cell_width(LIST_HIGHLIGHT_SYMBOL) as u16 + content_cells
}

fn pane_of(rows: &[&str]) -> ListPaneVm {
    ListPaneVm {
        title: PaneTitleVm::new("Pane".to_string()),
        focused: true,
        selected: if rows.is_empty() { None } else { Some(0) },
        empty: if rows.is_empty() { ListPaneEmpty::NoItems } else { ListPaneEmpty::HasRows },
        empty_message: if rows.is_empty() { Some("  nothing here".to_string()) } else { None },
        rows: rows
            .iter()
            .map(|label| RowVm { label: (*label).to_string(), emphasis: RowEmphasis::Plain })
            .collect(),
        hscroll: 0,
        scrollbar: false,
    }
}

#[test]
fn split_cells_rounds_to_nearest_cell() {
    assert_eq!(split_cells(40, 100), 40);
    assert_eq!(split_cells(40, 137), 55);
    assert_eq!(split_cells(15, 80), 12);
}

#[test]
fn clamp_split_percent_keeps_both_panes_readable() {
    assert_eq!(clamp_split_percent(50, 200), Some(50));
    assert_eq!(clamp_split_percent(5, 200), Some(MIN_SPLIT_PERCENT));
    assert_eq!(clamp_split_percent(99, 200), Some(MAX_SPLIT_PERCENT));
    for width in [MIN_PANE_CELLS * 2, 40, 60] {
        let low = clamp_split_percent(0, width).expect("width fits two panes");
        let high = clamp_split_percent(100, width).expect("width fits two panes");
        assert!(split_cells(low, width) >= MIN_PANE_CELLS, "low {low} @ {width}");
        assert!(width - split_cells(high, width) >= MIN_PANE_CELLS, "high {high} @ {width}");
    }
    assert_eq!(clamp_split_percent(40, MIN_PANE_CELLS * 2 - 1), None);
}

#[test]
fn percent_for_col_puts_the_divider_under_the_pointer() {
    let area = Rect { x: 0, y: 1, width: 100, height: 20 };
    assert_eq!(percent_for_col(area, 39), 40);
    assert_eq!(percent_for_col(area, 59), 60);
    assert_eq!(percent_for_col(Rect { x: 10, y: 1, width: 100, height: 20 }, 49), 40);
}

#[test]
fn percent_for_col_lands_within_one_cell_on_widths_that_are_not_multiples_of_100() {
    for width in [80u16, 137, 200] {
        let area = Rect { x: 0, y: 1, width, height: 20 };
        for col in 20..(width - 20) {
            let cells = split_cells(percent_for_col(area, col), width);
            let landed = i32::from(cells) - 1;
            let step = i32::from(width).div_euclid(100) + 1;
            assert!((landed - i32::from(col)).abs() <= step, "col {col} @ {width} landed on {landed}");
        }
    }
}

#[test]
fn min_pane_cells_matches_the_highlight_symbol_it_budgets_for() {
    assert_eq!(cell_width(LIST_HIGHLIGHT_SYMBOL), 2);
}

#[test]
fn visible_list_row_leaves_an_unscrolled_value_intact() {
    let width = list_row_pane_width(20);
    assert_eq!(visible_list_row("AGENTS.md", 0, width), "AGENTS.md");
}

#[test]
fn visible_list_row_marks_a_horizontal_offset_with_a_leading_ellipsis() {
    let width = list_row_pane_width(20);
    assert_eq!(visible_list_row("AGENTS.md", 6, width), "….md");
}

#[test]
fn row_hscroll_moves_only_the_selected_row() {
    assert_eq!(row_hscroll(Some(1), 1, 4), 4);
    assert_eq!(row_hscroll(Some(1), 0, 4), 0);
    assert_eq!(row_hscroll(None, 0, 4), 0);
}

#[test]
fn pane_lines_clip_with_an_ellipsis_and_scroll_only_the_selection() {
    let mut pane = pane_of(&["alpha-keep", "beta-XYZmarker", "0123456789abcdefghij"]);
    pane.selected = Some(1);
    pane.hscroll = 5;
    let lines = pane_lines(&pane, list_row_pane_width(14));
    assert_eq!(lines[0].0, "alpha-keep");
    assert_eq!(lines[1].0, "…XYZmarker");
    assert_eq!(lines[2].0, "0123456789abc…");
}

#[test]
fn an_empty_pane_shows_its_message() {
    let lines = pane_lines(&pane_of(&[]), 30);
    assert_eq!(lines.len(), 1);
    assert_eq!(lines[0].0, "  nothing here");
}

#[test]
fn list_hscroll_leaves_unselected_rows_readable_from_their_start() {
    let mut pane = pane_of(&[
        "AGENTS.md",
        "docs/adr/0001-appstate-field-visibility.md",
        "CHANGELOG.md",
    ]);
    pane.selected = Some(1);
    pane.hscroll = 6;
    let text: String = pane_lines(&pane, 32)
        .into_iter()
        .map(|(line, _)| line + "\n")
        .collect();
    assert!(text.contains("AGENTS.md"), "unselected short row lost its start: {text}");
    assert!(text.contains("CHANGELOG.md"), "unselected short row lost its start: {text}");
    assert!(text.contains("…dr/0001"), "selected row must show a leading ellipsis: {text}");
    assert!(
        !text.contains("docs/adr/0001-appstate-field-visibility.md"),
        "selected row should have scrolled past its head: {text}"
    );
}
