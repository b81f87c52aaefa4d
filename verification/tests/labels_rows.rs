use gistui::diff::preview_diff_text;
use gistui::domain::{
    parse_rfc3339_to_unix, GistFile, GistGroup, GistGroupSort, GistView, MatchMark,
    RankedGistFile,
};
use gistui::labels::{
    count_label, file_list_scroll, format_unix_utc, gist_group_row_label, gist_info_line,
    gist_row_label, gist_time_label, marked_row_text,
};

fn group(id: &str, description: &str, file_count: usize) -> GistGroup {
    GistGroup {
        id: id.into(),
        description: description.into(),
        public: false,
        updated_at: "2026-06-10T00:00:00Z".into(),
        created_at: "2026-06-01T00:00:00Z".into(),
        file_count,
        owner_login: String::new(),
        fork_of_id: None,
    }
}

fn now() -> u64 {
    parse_rfc3339_to_unix("2026-06-11T00:00:00Z").unwrap()
}

#[test]
fn file_list_scroll_keeps_cursor_visible() {
    assert_eq!(file_list_scroll(0, 5, 3), 0);
    assert_eq!(file_list_scroll(2, 5, 3), 0);
    assert_eq!(file_list_scroll(2, 5, 20), 0);
    assert_eq!(file_list_scroll(4, 5, 20), 0);
    assert_eq!(file_list_scroll(5, 5, 20), 1);
    assert_eq!(file_list_scroll(19, 5, 20), 15);
    assert_eq!(file_list_scroll(19, 0, 20), 0);
}

#[test]
fn count_label_plain_unless_filtered() {
    assert_eq!(count_label(12, 12), "(12)");
    assert_eq!(count_label(0, 0), "(0)");
    assert_eq!(count_label(3, 12), "(3/12)");
}

#[test]
fn gist_row_label_switches_with_view() {
    let g = RankedGistFile {
        file: GistFile {
            description: "My Ghostty config".into(),
            public: true,
            updated_at: "x".into(),
            created_at: "x".into(),
            ..GistFile::fixture("abc", "config")
        },
        mark: MatchMark::NoMatch,
    };
    assert_eq!(
        gist_row_label(&g, GistView::Description),
        "config — My Ghostty config"
    );
    assert_eq!(gist_row_label(&g, GistView::Id), "abc / config");
}

#[test]
fn preview_diff_text_flips_with_focus() {
    let dl = preview_diff_text(false, "local: a", "old\n", "gist b", "new\n", false);
    assert!(dl.starts_with("--- local: a\n+++ gist b\n"));
    let ul = preview_diff_text(true, "local: a", "old\n", "gist b", "new\n", false);
    assert!(ul.starts_with("--- gist b\n+++ local: a\n"));
}

#[test]
fn format_unix_utc_known_instants() {
    assert_eq!(format_unix_utc(0), "1970-01-01 00:00 UTC");
    assert_eq!(format_unix_utc(1_780_656_360), "2026-06-05 10:46 UTC");
}

#[test]
fn gist_time_label_normalises_rfc3339() {
    assert_eq!(gist_time_label("2026-06-08T11:06:18Z"), "2026-06-08 11:06 UTC");
    assert_eq!(gist_time_label(""), "unknown");
    assert_eq!(gist_time_label("short"), "short");
}

#[test]
fn marked_row_text_uses_match_mark_pin_prefix() {
    assert_eq!(marked_row_text("x".into(), MatchMark::Pinned), "↔ x");
    assert_eq!(marked_row_text("x".into(), MatchMark::ExactFilename), "x");
    assert_eq!(marked_row_text("x".into(), MatchMark::NoMatch), "x");
}

#[test]
fn gist_row_label_falls_back_to_filename_when_description_empty() {
    let g = RankedGistFile {
        file: GistFile {
            description: "  ".into(),
            public: true,
            updated_at: "x".into(),
            created_at: "x".into(),
            ..GistFile::fixture("abc", "config")
        },
        mark: MatchMark::NoMatch,
    };
    assert_eq!(gist_row_label(&g, GistView::Description), "config");
}

#[test]
fn gist_group_row_age_tracks_active_sort() {
    let group = group("g1", "demo", 2);
    let updated =
        gist_group_row_label(&group, now(), GistGroupSort::Updated, (0, 0, 0), false, None);
    let created =
        gist_group_row_label(&group, now(), GistGroupSort::Created, (0, 0, 0), false, None);
    assert!(updated.ends_with("  1d"), "{updated}");
    assert!(created.ends_with("  1w"), "{created}");
}

#[test]
fn gist_group_row_shows_comment_count_only_when_present() {
    let group = group("g1", "demo", 2);
    assert!(
        !gist_group_row_label(&group, now(), GistGroupSort::Updated, (0, 0, 0), false, None)
            .contains("comment")
    );
    assert!(
        gist_group_row_label(&group, now(), GistGroupSort::Updated, (3, 0, 0), false, None)
            .contains("3 comments")
    );
}

#[test]
fn gist_group_row_shows_foreign_owner() {
    let group = GistGroup {
        public: true,
        owner_login: "karpathy".into(),
        ..group("g1", "demo", 1)
    };
    let foreign = gist_group_row_label(
        &group,
        now(),
        GistGroupSort::Updated,
        (0, 0, 0),
        false,
        Some("me"),
    );
    assert!(foreign.contains("@karpathy"));
    let own = gist_group_row_label(
        &group,
        now(),
        GistGroupSort::Updated,
        (0, 0, 0),
        false,
        Some("karpathy"),
    );
    assert!(!own.contains("@karpathy"));
}

#[test]
fn gist_group_row_shows_fork_marker_only_when_present() {
    let group = group("g1", "demo", 2);
    assert!(
        !gist_group_row_label(&group, now(), GistGroupSort::Updated, (0, 0, 0), false, None)
            .contains('⑂')
    );
    assert!(
        gist_group_row_label(&group, now(), GistGroupSort::Updated, (0, 0, 2), false, None)
            .contains("⑂ 2")
    );
}

#[test]
fn gist_group_row_shows_star_marker_only_when_present() {
    let group = group("g1", "demo", 2);
    assert!(
        !gist_group_row_label(&group, now(), GistGroupSort::Updated, (0, 0, 0), false, None)
            .contains('☆')
    );
    assert!(
        gist_group_row_label(&group, now(), GistGroupSort::Updated, (0, 3, 0), false, None)
            .contains("☆ 3")
    );
}

#[test]
fn gist_group_row_description_leads_and_id_is_abbreviated() {
    let group = group("abcdef0123456789abcdef0123456789", "My cool gist", 2);
    let row = gist_group_row_label(&group, now(), GistGroupSort::Updated, (0, 0, 0), false, None);
    assert!(
        row.trim_start().starts_with("My cool gist"),
        "description should lead the row, got {row}"
    );
    assert!(!row.contains(&group.id), "full id must not appear: {row}");
    assert!(
        row.contains(&format!("#{}", &group.id[..7])),
        "abbreviated id should still be reachable inline: {row}"
    );
}

#[test]
fn gist_group_row_badge_column_is_fixed_width() {
    let group = group("g1", "demo", 1);
    let unbadged =
        gist_group_row_label(&group, now(), GistGroupSort::Updated, (0, 0, 0), false, None);
    let starred =
        gist_group_row_label(&group, now(), GistGroupSort::Updated, (0, 0, 0), true, None);
    let char_col = |s: &str| s.find("demo").map(|byte_idx| s[..byte_idx].chars().count());
    assert_eq!(char_col(&unbadged), char_col(&starred), "{unbadged:?} vs {starred:?}");
}

#[test]
fn gist_group_row_legacy_short_id_still_aligns() {
    let short = group("abc12", "demo", 1);
    let long = GistGroup {
        id: "abcdef0123456789".into(),
        ..short.clone()
    };
    let short_row =
        gist_group_row_label(&short, now(), GistGroupSort::Updated, (0, 0, 0), false, None);
    let long_row =
        gist_group_row_label(&long, now(), GistGroupSort::Updated, (0, 0, 0), false, None);
    assert_eq!(short_row.find("1 file"), long_row.find("1 file"), "{short_row:?} vs {long_row:?}");
}

#[test]
fn gist_info_line_shows_counts_when_nonzero() {
    let group = GistGroup {
        public: true,
        ..group("616796de59282c8bfdae3005511c588e", "demo", 1)
    };
    let quiet = gist_info_line(&group, now(), None, false, (0, 0, 0));
    assert!(!quiet.contains('☆'));
    assert!(!quiet.contains('⑂'));
    assert!(!quiet.contains("comment"));
    let rich = gist_info_line(&group, now(), None, true, (2, 3, 1));
    assert!(rich.starts_with("★ starred · "));
    assert!(rich.contains("☆ 3 · ⑂ 1 · 2 comments"));
    assert!(rich.contains(&group.id));
}

#[test]
fn identical_contents_give_an_empty_preview_diff() {
    let same = preview_diff_text(false, "local: a", "x\n", "gist b", "x\n", false);
    assert_eq!(same, "");
    let ignored = preview_diff_text(false, "local: a", "x", "gist b", "x\n\n", true);
    assert_eq!(ignored, "");
    let strict = preview_diff_text(false, "local: a", "x", "gist b", "x\n", false);
    assert!(strict.starts_with("--- local: a\n+++ gist b\n"));
}

#[test]
fn format_unix_utc_reads_leap_days() {
    assert_eq!(format_unix_utc(951_782_400), "2000-02-29 00:00 UTC");
}
