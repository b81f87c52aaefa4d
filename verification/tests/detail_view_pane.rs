use gistui::chrome::TextInput;
use gistui::detail_view::{
    build_comments_pane_vm, build_compact_gist_bg_vm, build_gist_detail_vm, comments_body, comments_max_scroll,
    comments_title_text, CommentLineVm, CommentRowStyle, CommentsAffordance, CommentsPaneVm,
    DetailGist,
};
use gistui::domain::{GistComment, GistGroup};
use gistui::state::{comment_lines_count, DetailFocus, DetailState};

const NOW: u64 = 1_781_395_200; // 2026-06-14T00:00:00Z

fn comment(author: &str, created_at: &str, body: &str) -> GistComment {
    GistComment {
        author: author.into(),
        created_at: created_at.into(),
        body: body.into(),
    }
}

fn two_comments() -> Vec<GistComment> {
    vec![
        comment("alice", "2026-06-13T00:00:00Z", "one line"),
        comment("bob", "later", "two\nlines"),
    ]
}

fn group(id: &str, description: &str) -> GistGroup {
    GistGroup {
        id: id.into(),
        description: description.into(),
        public: true,
        updated_at: "2026-06-10T00:00:00Z".into(),
        created_at: "2026-06-01T00:00:00Z".into(),
        file_count: 2,
        owner_login: "me".into(),
        fork_of_id: None,
    }
}

#[test]
fn thread_lines_match_the_count() {
    let mut d = DetailState::new();
    d.comments = Some(two_comments());
    d.comments_loaded_oldest_page = 1;
    assert_eq!(comment_lines_count(&two_comments()), 7);
    match build_comments_pane_vm(&d, NOW) {
        CommentsPaneVm::Thread {
            lines, affordance, ..
        } => {
            assert_eq!(lines.len(), 7);
            assert_eq!(affordance, CommentsAffordance::StartOfThread);
            assert_eq!(
                lines[0],
                CommentLineVm::Author {
                    text: "alice · 1d".into()
                }
            );
            assert_eq!(
                lines[1],
                CommentLineVm::Body {
                    text: "  one line".into()
                }
            );
            assert_eq!(lines[2], CommentLineVm::Blank);
            assert_eq!(
                lines[3],
                CommentLineVm::Author {
                    text: "bob · ?".into()
                }
            );
            assert_eq!(
                lines[5],
                CommentLineVm::Body {
                    text: "  lines".into()
                }
            );
        }
        _ => panic!("expected a thread"),
    }
}

#[test]
fn comments_pane_states() {
    let mut d = DetailState::new();
    assert_eq!(build_comments_pane_vm(&d, NOW), CommentsPaneVm::PromptLoad);
    d.comments_loading = true;
    assert_eq!(build_comments_pane_vm(&d, NOW), CommentsPaneVm::Loading);
    d.comments = Some(vec![]);
    assert_eq!(build_comments_pane_vm(&d, NOW), CommentsPaneVm::Empty);
    d.comments_error = Some("boom".into());
    assert_eq!(
        build_comments_pane_vm(&d, NOW),
        CommentsPaneVm::Error {
            message: "comments error: boom".into()
        }
    );
}

#[test]
fn comments_title_counts_the_window() {
    let mut d = DetailState::new();
    assert_eq!(comments_title_text(&d), "Comments");
    d.comments = Some(two_comments());
    assert_eq!(comments_title_text(&d), "Comments (newest 2)");
    d.comments_total = Some(910);
    assert_eq!(comments_title_text(&d), "Comments (909–910 / 910)");
    d.comments_error = Some("x".into());
    assert_eq!(comments_title_text(&d), "Comments (2)");
}

#[test]
fn comments_body_wraps_and_marks_the_load_prompt() {
    let mut d = DetailState::new();
    d.comments = Some(vec![comment("al", "x", "a fairly long body line")]);
    d.comments_loaded_oldest_page = 3;
    let vm = build_comments_pane_vm(&d, NOW);
    let body = comments_body(&vm, 12);
    assert!(body.load_older);
    assert_eq!(body.title, "Comments (newest 1)");
    assert_eq!(
        body.rows[0],
        ("↑ Load 30 older comments".to_string(), CommentRowStyle::Dim)
    );
    assert_eq!(body.rows[1], (String::new(), CommentRowStyle::Plain));
    assert_eq!(body.rows[2], ("al · ?".to_string(), CommentRowStyle::Accent));
    assert!(body.rows.len() > 5);
    assert!(body
        .rows
        .iter()
        .skip(3)
        .all(|(row, _)| row.chars().count() <= 12));
    let empty = comments_body(&CommentsPaneVm::Empty, 12);
    assert_eq!(empty.rows, vec![("No comments".to_string(), CommentRowStyle::Dim)]);
    assert!(!empty.load_older);
}

#[test]
fn comments_scroll_stops_at_the_last_page() {
    assert_eq!(comments_max_scroll(30, 12), 20);
    assert_eq!(comments_max_scroll(5, 12), 0);
    assert_eq!(comments_max_scroll(5, 1), 5);
}

#[test]
fn detail_vm_for_a_known_gist() {
    let mut d = DetailState::new();
    d.gist_id = Some("g1".into());
    d.file_cursor = 9;
    let g = DetailGist {
        group: Some(group("g1", "demo")),
        starred: false,
        counts: (4, 0, 0),
        files: vec!["a.txt".into(), "b.txt".into()],
        size_label: "1.2 KB".into(),
    };
    let vm = build_gist_detail_vm(&d, &g, NOW, Some("me"), None, "q back", None);
    assert!(!vm.missing);
    assert_eq!(vm.block_title, "Gist: demo");
    assert_eq!(vm.files_title, "Files (2): 1.2 KB total");
    assert_eq!(vm.file_cursor, 1);
    assert_eq!(vm.comments_count, 4);
    assert_eq!(vm.comments, CommentsPaneVm::PromptLoad);
    assert_eq!(vm.footer, "q back");
    assert!(vm.footer_colored);
    assert_eq!(vm.focus, DetailFocus::Files);
    assert!(vm.description_input.is_none());
}

#[test]
fn detail_vm_for_a_missing_gist() {
    let d = DetailState::new();
    let g = DetailGist {
        group: None,
        starred: false,
        counts: (0, 0, 0),
        files: vec![],
        size_label: String::new(),
    };
    let input = TextInput::from("draft");
    let vm = build_gist_detail_vm(&d, &g, NOW, None, Some("gone"), "q back", Some(&input));
    assert!(vm.missing);
    assert_eq!(vm.footer, "gone");
    assert!(!vm.footer_colored);
    assert_eq!(vm.description_input.map(|i| i.text()), Some("draft".to_string()));
    let blank = DetailGist {
        group: Some(group("g9", "  ")),
        ..g
    };
    let mut d = DetailState::new();
    d.gist_id = Some("g9".into());
    let vm = build_gist_detail_vm(&d, &blank, NOW, None, None, "", None);
    assert_eq!(vm.block_title, "Gist g9");
}

#[test]
fn confirm_vm_compact_background() {
    let g = DetailGist {
        group: Some(GistGroup {
            id: "g1".into(),
            description: "pack".into(),
            public: false,
            updated_at: String::new(),
            created_at: String::new(),
            file_count: 1,
            owner_login: String::new(),
            fork_of_id: None,
        }),
        starred: false,
        counts: (0, 0, 0),
        files: vec!["a.txt".into()],
        size_label: "1 B".into(),
    };
    let bg = build_compact_gist_bg_vm(&g, None, 0, None).expect("CompactGist bg");
    assert!(bg.block_title.contains("pack") || bg.block_title.contains("g1"));
    assert!(!bg.files.is_empty());
    assert_eq!(bg.file_cursor, 0);
    // A detail cursor past the files is kept on the last one.
    assert_eq!(build_compact_gist_bg_vm(&g, Some(5), 0, None).unwrap().file_cursor, 0);
    let unknown = DetailGist { group: None, ..g };
    assert!(build_compact_gist_bg_vm(&unknown, None, 0, None).is_none());
}
