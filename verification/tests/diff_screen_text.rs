use gistui::confirm::PendingAction;
use gistui::diff_screen::{diff_footer, diff_title, display_path};
use gistui::domain::GistFile;
use gistui::labels::diff_labels;

const HOME: &str = "/home/u";

#[test]
fn diff_footer_reflects_wrap_toggle() {
    assert!(diff_footer(false, 3, false, false, false).contains("w wrap [off]"));
    let footer = diff_footer(false, 3, true, false, false);
    assert!(footer.contains("w wrap [on]"));
    assert!(!footer.contains("←→"));
}

#[test]
fn diff_footer_offers_sync_keys_only_for_a_real_difference() {
    assert_eq!(
        diff_footer(false, 3, false, true, false),
        "↑↓←→ PgUp/Dn scroll  ·  d download  ·  u upload  ·  w wrap [off]  ·  c context [3]  ·  Esc/q back"
    );
    assert_eq!(
        diff_footer(true, 3, true, true, true),
        "Files are identical — nothing to sync  ·  ↑↓ PgUp/Dn scroll  ·  w wrap [on]  ·  c context [full]  ·  Esc/q back"
    );
    assert!(diff_footer(false, 7, false, false, true).starts_with("Files are identical  ·  "));
}

#[test]
fn create_diff_title_shortens_home_path() {
    let pending = PendingAction::Create { local_path: format!("{HOME}/notes.txt") };
    assert_eq!(
        diff_title(Some(&pending), false, "", "", Some(HOME)),
        "Create gist from ~/notes.txt"
    );
}

#[test]
fn diff_view_title_shortens_single_home_path() {
    let target = format!("{HOME}/notes.txt");
    assert_eq!(diff_title(None, false, "", &target, Some(HOME)), "Diff → ~/notes.txt");
}

#[test]
fn diff_view_title_shortens_both_home_paths() {
    let local = format!("{HOME}/src/a.txt");
    let target = format!("{HOME}/b.txt");
    assert_eq!(
        diff_title(None, false, &local, &target, Some(HOME)),
        "Diff: ~/src/a.txt → ~/b.txt"
    );
}

#[test]
fn diff_titles_name_the_pending_action() {
    let upload = PendingAction::Upload { gist_id: "g1".into(), filename: "a.txt".into(), local_path: "a.txt".into() };
    assert_eq!(diff_title(Some(&upload), false, "", "", None), "Upload → gist g1 / a.txt");
    let remove = PendingAction::RemoveFile { gist_id: "g1".into(), filename: "a.txt".into(), label: "x".into() };
    assert_eq!(diff_title(Some(&remove), false, "", "", None), "Remove a.txt from gist g1");
    let delete = PendingAction::Delete { gist_id: "g1".into(), label: "x".into() };
    assert_eq!(diff_title(Some(&delete), false, "", "", None), "Delete gist g1");
    assert_eq!(diff_title(None, true, "/a", "/a", None), "Diff (identical) → /a");
}

#[test]
fn display_path_only_abbreviates_whole_home_components() {
    assert_eq!(display_path("/home/u", Some(HOME)), "~");
    assert_eq!(display_path("/home/user/x", Some(HOME)), "/home/user/x");
    assert_eq!(display_path("/etc/x", Some(HOME)), "/etc/x");
    assert_eq!(display_path("/home/u/x", None), "/home/u/x");
}

#[test]
fn stage_preview_diff_builds_labels() {
    let gist = GistFile {
        updated_at: "2026-06-10T00:00:00Z".into(),
        ..GistFile::fixture("g1", "a.txt")
    };
    let (local_label, gist_label) = diff_labels(Some("a.txt"), None, &gist);
    assert!(local_label.starts_with("local: a.txt"));
    assert!(gist_label.starts_with("gist g1 / a.txt"));
}

#[test]
fn stage_download_gist_builds_labels() {
    let gist = GistFile {
        updated_at: "2026-06-10T00:00:00Z".into(),
        ..GistFile::fixture("g1", "a.txt")
    };
    let (local_label, gist_label) = diff_labels(Some("a.txt"), Some("2026-06-09 10:00 UTC"), &gist);
    assert!(local_label.starts_with("local: a.txt"));
    assert!(gist_label.starts_with("gist g1 / a.txt"));
    assert_eq!(gist_label, "gist g1 / a.txt (2026-06-10 00:00 UTC)");
}
