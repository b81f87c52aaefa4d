use gistui::domain::{GistGroup, GistRevision, GistRevisionChangeStatus};
use gistui::confirm::PendingAction;
use gistui::confirm_flow::raise_confirm;
use gistui::content_cache::ContentCache;
use gistui::list_pane::pane_lines;
use gistui::revisions::{
    build_revisions_vm, on_restore_revision_done, on_revisions_fetched, revision_row_label,
    short_sha, LoopFlow,
};
use gistui::state::{initial_state, AppState, ListCursor, RevisionState, Screen};

fn revision_ref(state: &AppState) -> &RevisionState {
    state.revision().expect("expected Screen::Revisions")
}

fn entry() -> GistRevision {
    GistRevision {
        version: "abc123".into(),
        committed_at: "2026-01-01T00:00:00Z".into(),
        user: "alice".into(),
        change_status: GistRevisionChangeStatus {
            total: 1,
            additions: 1,
            deletions: 0,
        },
    }
}

fn revisions_screen(cursor: ListCursor) -> AppState {
    let mut state = initial_state();
    state.screen = Screen::Revisions(RevisionState {
        gist_id: Some("g1".into()),
        cursor,
        ..Default::default()
    });
    state
}

#[test]
fn on_revisions_fetched_clamps_an_out_of_range_cursor() {
    let mut state = revisions_screen(ListCursor { index: 3, hscroll: 7 });
    on_revisions_fetched(&mut state, "g1".into(), Ok(vec![entry(), entry()]));
    assert_eq!(revision_ref(&state).cursor.index, 1, "clamped into range");
    assert_eq!(revision_ref(&state).cursor.hscroll, 0, "stale hscroll cleared");
}

#[test]
fn on_revisions_fetched_preserves_an_in_range_cursor() {
    let mut state = revisions_screen(ListCursor { index: 1, hscroll: 4 });
    on_revisions_fetched(&mut state, "g1".into(), Ok(vec![entry(), entry(), entry()]));
    assert_eq!(revision_ref(&state).cursor.index, 1);
    assert_eq!(revision_ref(&state).cursor.hscroll, 4);
}

#[test]
fn on_revisions_fetched_returns_skip_iteration_on_gist_mismatch() {
    let mut state = revisions_screen(ListCursor::default());
    let flow = on_revisions_fetched(&mut state, "other-gist".into(), Ok(Vec::new()));
    assert!(matches!(flow, LoopFlow::SkipIteration));
    assert!(state.revision().unwrap().entries.is_none());
}

#[test]
fn on_revisions_fetched_ok_sets_entries() {
    let mut state = revisions_screen(ListCursor::default());
    let flow = on_revisions_fetched(&mut state, "g1".into(), Ok(vec![entry(), entry()]));
    assert!(matches!(flow, LoopFlow::Proceed));
    assert_eq!(state.revision().unwrap().entries.as_ref().unwrap().len(), 2);
}

#[test]
fn on_revisions_fetched_err_sets_fetch_error() {
    let mut state = revisions_screen(ListCursor::default());
    on_revisions_fetched(&mut state, "g1".into(), Err("boom".into()));
    let rev = state.revision().unwrap();
    assert_eq!(rev.fetch_error.as_deref(), Some("boom"));
    assert_eq!(rev.entries, Some(Vec::new()));
}

#[test]
fn on_restore_revision_done_err_sets_status() {
    let mut state = initial_state();
    let mut cache = ContentCache::new();
    cache.insert("g1".into(), "a.txt".into(), "kept".into());
    on_restore_revision_done(&mut state, &mut cache, Err("boom".into()), "g1".into(), "a.txt".into());
    assert_eq!(cache.get("g1", "a.txt").map(String::as_str), Some("kept"));
    assert_eq!(state.status.as_deref(), Some("restore failed: boom"));
    assert!(!state.gist_list_stale);
    assert!(state.revisions_stale.is_none());
}

#[test]
fn on_restore_revision_done_ok_returns_to_revisions_and_marks_stale() {
    let mut state = initial_state();
    state.screen = Screen::Revisions(RevisionState {
        gist_id: Some("g1".into()),
        cursor: ListCursor { index: 3, ..Default::default() },
        entries: Some(Vec::new()),
        fetch_error: Some("old".into()),
        ..Default::default()
    });
    raise_confirm(
        &mut state,
        PendingAction::RestoreRevision {
            gist_id: "g1".into(),
            filename: "a.txt".into(),
            version: "abc".into(),
            version_label: "abc (1d ago)".into(),
            content: "old".into(),
        },
        String::new(),
    );
    let mut cache = ContentCache::new();
    cache.insert("g1".into(), "a.txt".into(), "stale".into());
    cache.insert("g1".into(), "b.txt".into(), "other".into());

    on_restore_revision_done(&mut state, &mut cache, Ok(()), "g1".into(), "a.txt".into());

    assert!(state.gist_list_stale);
    assert_eq!(state.revisions_stale.as_deref(), Some("g1"));
    assert!(matches!(state.screen, Screen::Revisions(_)));
    assert!(state.nav_stack.is_empty());
    let rev = state.revision().unwrap();
    assert_eq!(rev.gist_id.as_deref(), Some("g1"));
    assert_eq!(rev.cursor.index, 0);
    assert!(rev.entries.is_none());
    assert!(rev.fetch_error.is_none());
    assert_eq!(
        state.status.as_deref(),
        Some("Restored a.txt from old revision (new revision created)")
    );
    assert!(cache.get("g1", "a.txt").is_none());
    assert_eq!(cache.get("g1", "b.txt").map(String::as_str), Some("other"));
}

#[test]
fn a_single_revision_notes_that_nothing_can_be_restored() {
    let mut state = revisions_screen(ListCursor::default());
    on_revisions_fetched(&mut state, "g1".into(), Ok(vec![entry()]));
    assert_eq!(state.status.as_deref(), Some("only one revision — nothing to restore"));
}

#[test]
fn revision_rows_show_age_delta_user_and_short_sha() {
    let now = gistui::domain::parse_rfc3339_to_unix("2026-01-03T00:00:00Z").unwrap();
    let rev = GistRevision {
        version: "abc1234def".into(),
        change_status: GistRevisionChangeStatus { total: 5, additions: 3, deletions: 2 },
        ..entry()
    };
    assert_eq!(revision_row_label(&rev, 0, now), "#1  2d ago  +3/-2  alice  abc1234 (current)");
    assert_eq!(revision_row_label(&rev, 4, now), "#5  2d ago  +3/-2  alice  abc1234");
    let undated = GistRevision { committed_at: "yesterday".into(), ..rev };
    assert!(revision_row_label(&undated, 1, now).starts_with("#2  ? ago"));
    assert_eq!(short_sha("abc"), "abc");
}

#[test]
fn revisions_rows_clip_with_an_ellipsis_and_scroll_only_the_selection() {
    let revision = |user: &str| GistRevision {
        version: "abc1234def".into(),
        committed_at: "2026-06-10T00:00:00Z".into(),
        user: user.into(),
        change_status: GistRevisionChangeStatus { total: 1, additions: 1, deletions: 0 },
    };
    let mut state = initial_state();
    state.screen = Screen::Revisions(RevisionState {
        gist_id: Some("g1".into()),
        entries: Some(vec![revision("aaa-FIRSTROW-marker"), revision("bbb-SECONDROW-marker")]),
        cursor: ListCursor { index: 1, hscroll: 8 },
        ..Default::default()
    });
    let now = gistui::domain::parse_rfc3339_to_unix("2026-06-11T00:00:00Z").unwrap();
    let vm = build_revisions_vm(&state, None, &[], now);
    let text: String = pane_lines(&vm.pane, 40)
        .into_iter()
        .map(|(line, _)| line + "\n")
        .collect();
    assert!(!text.contains("aaa-FIRSTROW-marker"), "unselected row must be clipped: {text}");
    assert!(text.contains('…'), "clipped row lost its ellipsis: {text}");
    assert!(text.contains("#1  "), "unselected row lost its start: {text}");
    assert!(!text.contains("#2  "), "selected row should have scrolled past its head: {text}");
}

#[test]
fn revisions_vm_names_the_gist_and_counts_entries() {
    let group = GistGroup {
        id: "g1".into(),
        description: "dotfiles".into(),
        public: false,
        updated_at: String::new(),
        created_at: String::new(),
        file_count: 2,
        owner_login: String::new(),
        fork_of_id: None,
    };
    let mut state = revisions_screen(ListCursor::default());
    let files = vec!["a.txt".to_string(), "b.txt".to_string()];
    if let Screen::Revisions(r) = &mut state.screen {
        r.target_file = "b.txt".into();
    }
    let loading = build_revisions_vm(&state, Some(&group), &files, 0);
    assert_eq!(loading.footer, "Loading revisions…");
    assert_eq!(loading.pane.title.segments[0], "Revisions: dotfiles (0)");
    on_revisions_fetched(&mut state, "g1".into(), Ok(vec![entry(), entry()]));
    let loaded = build_revisions_vm(&state, Some(&group), &files, 0);
    assert_eq!(loaded.footer, "file=b.txt (2/2)");
    assert_eq!(loaded.pane.title.segments[0], "Revisions: dotfiles (2)");
    assert_eq!(loaded.pane.rows.len(), 2);
    assert_eq!(loaded.pane.selected, Some(0));
    assert!(!loaded.footer_colored);
}
