use gistui::content_cache::ContentCache;
use gistui::domain::GistGroup;
use gistui::keys::{Key, NavAction};
use gistui::preview::{
    build_preview_vm, file_ext, handle_key_preview, on_preview_content, preview_title,
    scroll_navigation, PreviewAction, PreviewSession, PreviewState,
};
use gistui::outcomes::apply_preview_outcome;
use gistui::revisions::LoopFlow;
use gistui::state::{initial_state, DetailState, Screen};
use gistui::scroll::ScrollBody;

fn demo() -> GistGroup {
    GistGroup {
        id: "g1".into(),
        description: "demo".into(),
        public: false,
        updated_at: String::new(),
        created_at: String::new(),
        file_count: 2,
        owner_login: String::new(),
        fork_of_id: None,
    }
}

fn session(text: &str, key: Option<(&str, &str)>) -> PreviewSession {
    PreviewSession {
        preview: PreviewState {
            title: "t".into(),
            body: ScrollBody { text: text.into(), ..ScrollBody::default() },
            gist_key: key.map(|(a, b)| (a.to_string(), b.to_string())),
        },
        wrap: false,
        status: None,
    }
}

#[test]
fn preview_title_uses_gist_description() {
    assert_eq!(preview_title(Some(&demo()), "g1", "a.txt"), "Preview: demo / a.txt");
}

#[test]
fn preview_title_falls_back_to_id_without_description() {
    assert_eq!(preview_title(None, "unknown-id", "a.txt"), "Preview: Gist unknown-id / a.txt");
}

#[test]
fn on_preview_content_ok_caches_and_enters_preview() {
    let mut cache = ContentCache::new();
    let mut status = None;
    let (preview, flow) = on_preview_content(
        &mut cache,
        &mut status,
        Ok("body".into()),
        "g1".into(),
        "a.txt".into(),
        "a.txt".into(),
    );
    assert_eq!(cache.get("g1", "a.txt").map(String::as_str), Some("body"));
    let preview = preview.expect("expected a preview");
    assert_eq!(preview.body.text, "body");
    assert_eq!(preview.gist_key, Some(("g1".to_string(), "a.txt".to_string())));
    assert_eq!(flow, LoopFlow::Proceed);
    assert!(status.is_none());
}

#[test]
fn on_preview_content_err_sets_status() {
    let mut cache = ContentCache::new();
    let mut status = None;
    let (preview, _) = on_preview_content(
        &mut cache,
        &mut status,
        Err("boom".into()),
        "g1".into(),
        "a.txt".into(),
        "a.txt".into(),
    );
    assert!(cache.get("g1", "a.txt").is_none());
    assert!(preview.is_none());
    assert_eq!(status.as_deref(), Some("fetch failed: boom"));
}

#[test]
fn preview_w_toggles_line_wrapping() {
    let mut s = session("", None);
    assert!(!s.wrap);
    handle_key_preview(&mut s, Key::Char('w'), None);
    assert!(s.wrap);
    handle_key_preview(&mut s, Key::Char('w'), None);
    assert!(!s.wrap);
}

#[test]
fn preview_key_clears_lingering_status_for_one_shot_display() {
    let mut s = session("", None);
    s.status = Some("fetch failed: boom".into());
    handle_key_preview(&mut s, Key::Down, None);
    assert_eq!(s.status, None);
}

#[test]
fn preview_scrolls_with_arrows() {
    let mut s = session("l1\nl2\nl3", None);
    scroll_navigation(&mut s.preview.body, NavAction::Down);
    assert_eq!(s.preview.body.scroll, 1);
    scroll_navigation(&mut s.preview.body, NavAction::Up);
    assert_eq!(s.preview.body.scroll, 0);
}

#[test]
fn page_keys_jump_by_ten() {
    let text = (0..12).map(|i| format!("l{i}")).collect::<Vec<_>>().join("\n");
    let mut s = session(&text, None);
    scroll_navigation(&mut s.preview.body, NavAction::PageDown);
    assert_eq!(s.preview.body.scroll, 10);
    scroll_navigation(&mut s.preview.body, NavAction::PageUp);
    assert_eq!(s.preview.body.scroll, 0);
}

#[test]
fn preview_y_copies_url_and_capital_y_copies_content() {
    let mut s = session("", None);
    assert!(matches!(
        handle_key_preview(&mut s, Key::Char('y'), Some("g1")),
        PreviewAction::CopyGistUrl { .. }
    ));
    assert_eq!(handle_key_preview(&mut s, Key::Char('Y'), Some("g1")), PreviewAction::CopyPreviewContent);
}

#[test]
fn preview_q_returns_to_launch_screen() {
    let mut s = session("", None);
    assert_eq!(handle_key_preview(&mut s, Key::Esc, None), PreviewAction::Leave);
    let mut state = initial_state();
    state.nav_stack.push(Screen::GistDetail(DetailState::default()));
    state.screen = Screen::Preview(s.preview.clone());
    let out = handle_key_preview(&mut s, Key::Char('q'), None);
    assert_eq!(out, PreviewAction::Leave);
    apply_preview_outcome(&mut state, &out);
    assert!(matches!(state.screen, Screen::GistDetail(_)));
    // The way back is drained, so a later preview opened from the List is not sent here.
    assert!(state.nav_stack.is_empty());
}

#[test]
fn refresh_asks_for_the_previewed_file() {
    let mut s = session("x", Some(("g1", "a.rs")));
    assert_eq!(
        handle_key_preview(&mut s, Key::Char('R'), None),
        PreviewAction::RefreshPreview { gist_id: "g1".into(), filename: "a.rs".into() }
    );
    let vm = build_preview_vm(&s, true);
    assert_eq!(vm.ext.as_deref(), Some("rs"));
    assert!(vm.footer.contains("w wrap [off]"));
    assert!(vm.footer_colored);
}

#[test]
fn file_extensions_skip_dotfiles_and_trailing_dots() {
    assert_eq!(file_ext("main.rs").as_deref(), Some("rs"));
    assert_eq!(file_ext("a.tar.gz").as_deref(), Some("gz"));
    assert_eq!(file_ext(".zshrc"), None);
    assert_eq!(file_ext("Makefile"), None);
    assert_eq!(file_ext("x."), None);
}
