use gistui::diff_flow::{
    diff_guard, handle_key_diff, on_download_selected, on_download_written, on_preview_diff,
    on_revision_diff, DiffKeyOutcome, DownloadNext,
};
use gistui::keys::Key;
use gistui::outcomes::apply_diff_outcome;
use gistui::settings::RuntimeSettings;
use gistui::domain::GistFileRef;
use gistui::revisions::LoopFlow;
use gistui::state::{initial_state, Screen};

fn gist_file_ref(gist_id: &str, filename: &str) -> GistFileRef {
    GistFileRef {
        gist_id: gist_id.into(),
        filename: filename.into(),
        raw_url: None,
    }
}

#[test]
fn enter_diff_sets_diff_screen() {
    let mut state = initial_state();
    state.enter_diff(
        "the diff".into(),
        "remote body".into(),
        "/tmp/x".into(),
        "/tmp/cwd/x".into(),
    );
    assert!(state.is_diff());
    assert!(state.diff_previewed());
    assert_eq!(state.preview_remote(), "remote body");
    assert_eq!(state.preview_local(), "/tmp/x");
    assert_eq!(state.download_target(), "/tmp/cwd/x");
    assert_eq!(state.scroll_body().expect("Diff ScrollBody").scroll, 0);
}

#[test]
fn on_preview_diff_err_sets_status() {
    let mut state = initial_state();
    on_preview_diff(
        &mut state,
        Err("boom".into()),
        None,
        Ok(None),
        "local",
        "gist",
        "target".into(),
        false,
        None,
        false,
    );
    assert_eq!(state.status.as_deref(), Some("fetch failed: boom"));
}

#[test]
fn on_preview_diff_ok_without_local_enters_diff() {
    let mut state = initial_state();
    let flow = on_preview_diff(
        &mut state,
        Ok("remote body".into()),
        None,
        Ok(None),
        "local",
        "gist",
        "target".into(),
        false,
        None,
        false,
    );
    assert_eq!(flow, LoopFlow::Proceed);
    let diff = state.diff().expect("expected Screen::Diff");
    assert_eq!(diff.remote_content, "remote body");
    assert!(!diff.identical);
    assert_eq!(diff.download_target, "target");
    assert!(diff.body.text.starts_with("--- local\n+++ gist\n"));
}

#[test]
fn preview_diff_of_matching_sides_is_identical() {
    let mut state = initial_state();
    on_preview_diff(
        &mut state,
        Ok("same\n".into()),
        Some("/tmp/a.txt".into()),
        Ok(Some("same".into())),
        "local",
        "gist",
        "/tmp/a.txt".into(),
        true,
        Some(gist_file_ref("g1", "a.txt")),
        true,
    );
    let diff = state.diff().expect("expected Screen::Diff");
    assert!(diff.identical);
    assert_eq!(diff.local_path, "/tmp/a.txt");
    assert_eq!(diff.gist_id.as_deref(), Some("g1"));
    assert_eq!(diff.gist_filename.as_deref(), Some("a.txt"));
}

#[test]
fn preview_diff_reports_an_unreadable_local_file() {
    let mut state = initial_state();
    on_preview_diff(
        &mut state,
        Ok("remote".into()),
        Some("/tmp/a.txt".into()),
        Err("denied".into()),
        "local",
        "gist",
        "/tmp/a.txt".into(),
        false,
        None,
        false,
    );
    assert_eq!(state.screen, Screen::List);
    assert_eq!(state.status.as_deref(), Some("read failed: denied"));
}

#[test]
fn on_download_selected_err_sets_status() {
    let mut state = initial_state();
    let (flow, next) = on_download_selected(
        &mut state,
        Err("boom".into()),
        "target".into(),
        None,
        "local",
        "gist",
        gist_file_ref("g1", "a.txt"),
        false,
    );
    assert_eq!(flow, LoopFlow::Proceed);
    assert_eq!(next, DownloadNext::Nothing);
    assert_eq!(state.status.as_deref(), Some("fetch failed: boom"));
}

#[test]
fn on_download_selected_ok_existing_target_enters_diff() {
    let mut state = initial_state();
    on_download_selected(
        &mut state,
        Ok("remote body".into()),
        "/tmp/a.txt".into(),
        Some(Ok("local body".into())),
        "local",
        "gist",
        gist_file_ref("g1", "a.txt"),
        false,
    );
    let diff = state.diff().expect("expected Screen::Diff");
    assert_eq!(diff.remote_content, "remote body");
    assert_eq!(diff.gist_id.as_deref(), Some("g1"));
    assert_eq!(diff.gist_filename.as_deref(), Some("a.txt"));
}

#[test]
fn download_to_a_new_file_asks_for_the_write() {
    let mut state = initial_state();
    let (_, next) = on_download_selected(
        &mut state,
        Ok("remote body".into()),
        "/tmp/new.txt".into(),
        None,
        "local",
        "gist",
        gist_file_ref("g1", "new.txt"),
        false,
    );
    assert_eq!(
        next,
        DownloadNext::WriteNew {
            target: "/tmp/new.txt".into(),
            content: "remote body".into(),
        }
    );
    assert_eq!(state.screen, Screen::List);
    assert_eq!(state.status, None);
}

#[test]
fn download_written_reports_the_file_name() {
    let mut state = initial_state();
    on_download_written(&mut state, Ok(()), "/tmp/dir/new.txt");
    assert_eq!(state.status.as_deref(), Some("Downloaded new.txt"));
    on_download_written(&mut state, Err("disk full".into()), "/tmp/dir/new.txt");
    assert_eq!(state.status.as_deref(), Some("download failed: disk full"));
}

#[test]
fn on_revision_diff_ok_enters_diff() {
    let mut state = initial_state();
    on_revision_diff(
        &mut state,
        Ok(("old body".into(), "new body".into())),
        "old",
        "new",
        false,
    );
    let diff = state.diff().expect("expected Screen::Diff");
    assert!(!diff.identical);
    assert!(diff.body.text.starts_with("--- old\n+++ new\n"));
}

#[test]
fn on_revision_diff_err_sets_status() {
    let mut state = initial_state();
    on_revision_diff(&mut state, Err("boom".into()), "old", "new", false);
    assert_eq!(state.status.as_deref(), Some("boom"));
}

fn diff_state() -> gistui::state::DiffState {
    let mut state = initial_state();
    state.enter_diff(
        "l1\nl2".into(),
        "remote".into(),
        "/tmp/x".into(),
        "/tmp/cwd/x".into(),
    );
    state.diff().expect("diff").clone()
}

#[test]
fn diff_w_toggles_wrap_and_resets_hscroll() {
    let mut d = diff_state();
    d.body.hscroll = 4;
    let mut wrap = false;
    let mut settings = RuntimeSettings::default();
    assert_eq!(
        handle_key_diff(&mut d, &mut wrap, &mut settings, true, Key::Char('w')),
        DiffKeyOutcome::Nothing
    );
    assert!(wrap);
    assert_eq!(d.body.hscroll, 0);
    handle_key_diff(&mut d, &mut wrap, &mut settings, true, Key::Char('w'));
    assert!(!wrap);
}

#[test]
fn diff_context_toggle_flips_effective_radius() {
    let mut d = diff_state();
    d.body.scroll = 1;
    let mut wrap = false;
    let mut settings = RuntimeSettings::default();
    assert_eq!(settings.effective_diff_context(), Some(3));
    assert_eq!(
        handle_key_diff(&mut d, &mut wrap, &mut settings, true, Key::Char('c')),
        DiffKeyOutcome::PersistSettings {
            effect: None,
            success_message: "Diff context: full file".into(),
        }
    );
    assert!(settings.diff_show_full());
    assert_eq!(d.body.scroll, 0);
    assert_eq!(settings.effective_diff_context(), None);
    assert_eq!(
        handle_key_diff(&mut d, &mut wrap, &mut settings, true, Key::Char('c')),
        DiffKeyOutcome::PersistSettings {
            effect: None,
            success_message: "Diff context: 3 lines".into(),
        }
    );
    assert_eq!(settings.effective_diff_context(), Some(3));
}

#[test]
fn d_and_u_in_diff_request_download_and_upload() {
    let mut d = diff_state();
    let mut wrap = false;
    let mut settings = RuntimeSettings::default();
    assert_eq!(
        handle_key_diff(&mut d, &mut wrap, &mut settings, true, Key::Char('d')),
        DiffKeyOutcome::DownloadRequested {
            target: "/tmp/cwd/x".into()
        }
    );
    assert_eq!(
        handle_key_diff(&mut d, &mut wrap, &mut settings, true, Key::Char('u')),
        DiffKeyOutcome::Upload
    );
    assert_eq!(
        handle_key_diff(&mut d, &mut wrap, &mut settings, true, Key::Esc),
        DiffKeyOutcome::Leave
    );
}

#[test]
fn identical_diff_disables_download_and_upload() {
    let mut d = diff_state();
    d.identical = true;
    let mut wrap = false;
    let mut settings = RuntimeSettings::default();
    assert!(!diff_guard(true, true, Key::Char('d')));
    assert_eq!(
        handle_key_diff(&mut d, &mut wrap, &mut settings, true, Key::Char('d')),
        DiffKeyOutcome::Nothing
    );
    assert_eq!(
        handle_key_diff(&mut d, &mut wrap, &mut settings, true, Key::Char('u')),
        DiffKeyOutcome::Nothing
    );
    // Leaving still works.
    let mut state = initial_state();
    state.screen = Screen::Diff(d.clone());
    let out = handle_key_diff(&mut d, &mut wrap, &mut settings, true, Key::Esc);
    assert_eq!(out, DiffKeyOutcome::Leave);
    apply_diff_outcome(&mut state, &out, false);
    assert_eq!(state.screen, Screen::List);
}

#[test]
fn revision_diff_omits_download_upload() {
    let mut d = diff_state();
    let mut wrap = false;
    let mut settings = RuntimeSettings::default();
    // A diff between two revisions is no pair to sync: its footer offers neither.
    let footer = gistui::diff_screen::diff_footer(false, 3, false, false, false);
    assert!(!footer.contains("download"));
    assert!(!footer.contains("upload"));
    assert_eq!(
        handle_key_diff(&mut d, &mut wrap, &mut settings, false, Key::Char('d')),
        DiffKeyOutcome::Nothing
    );
    assert_eq!(
        handle_key_diff(&mut d, &mut wrap, &mut settings, false, Key::Char('u')),
        DiffKeyOutcome::Nothing
    );
}

#[test]
fn back_to_list_clears_preview() {
    let mut state = initial_state();
    state.enter_diff("d".into(), "r".into(), "/tmp/x".into(), "/tmp/x".into());
    state.back_to_list();
    assert_eq!(state.screen, Screen::List);
    assert!(!state.diff_previewed());
    assert!(state.scroll_body().is_none());
    assert!(state.preview_remote().is_empty());
    assert_eq!(state.preview_local(), "");
    assert_eq!(state.download_target(), "");
}
