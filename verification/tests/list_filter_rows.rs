use gistui::domain::GistFile;
use gistui::list_filter::{
    gist_matches_query, local_matches_query, matching_gist_indices, relative_path,
    visible_local_indices,
};

fn paths(ps: &[&str]) -> Vec<String> {
    ps.iter().map(|p| p.to_string()).collect()
}

fn two_gists() -> Vec<GistFile> {
    let mut a = GistFile::fixture("a", "config.ghostty");
    a.description = "My Ghostty config".into();
    a.public = true;
    a.updated_at = "x".into();
    a.created_at = "x".into();
    let mut b = GistFile::fixture("b", "ssh_config");
    b.description = "SSH config".into();
    b.updated_at = "x".into();
    b.created_at = "x".into();
    vec![a, b]
}

#[test]
fn local_filter_matches_filename_and_relative_path() {
    let locals = paths(&["/cwd/settings.json", "/cwd/src/main.rs", "/cwd/notes.txt"]);

    assert_eq!(visible_local_indices(&locals, "/cwd", "").len(), 3);

    let visible: Vec<String> = visible_local_indices(&locals, "/cwd", "json")
        .iter()
        .map(|&i| locals[i].clone())
        .collect();
    assert_eq!(visible, vec!["/cwd/settings.json".to_string()]);

    let visible: Vec<String> = visible_local_indices(&locals, "/cwd", "src/")
        .iter()
        .map(|&i| locals[i].clone())
        .collect();
    assert_eq!(visible, vec!["/cwd/src/main.rs".to_string()]);

    assert_eq!(visible_local_indices(&locals, "/cwd", "NOTES").len(), 1);
}

#[test]
fn filter_matches_description_case_insensitively() {
    let gists = two_gists();
    let ranked = matching_gist_indices(&gists, "SSH");
    assert_eq!(ranked.len(), 1);
    assert_eq!(gists[ranked[0]].gist_id, "b");
}

#[test]
fn relative_path_strips_the_working_directory() {
    assert_eq!(relative_path("/cwd/src/main.rs", "/cwd"), "src/main.rs");
    assert_eq!(relative_path("/elsewhere/main.rs", "/cwd"), "/elsewhere/main.rs");
    // A sibling directory that merely starts with the same letters is not under it.
    assert_eq!(relative_path("/cwdx/main.rs", "/cwd"), "/cwdx/main.rs");
    assert_eq!(relative_path("/cwd", "/cwd"), "/cwd");
}

#[test]
fn local_filter_looks_only_below_the_working_directory() {
    // "cwd" is part of every absolute path, but not of any relative one.
    let locals = paths(&["/cwd/a.txt", "/cwd/b.txt"]);
    assert!(visible_local_indices(&locals, "/cwd", "cwd").is_empty());
    assert!(local_matches_query("/other/cwd.txt", "/cwd", "CWD"));
}

#[test]
fn gist_filter_matches_the_file_name_too() {
    let gists = two_gists();
    assert!(gist_matches_query(&gists[0], "GHOSTTY"));
    assert_eq!(matching_gist_indices(&gists, ".ghostty"), vec![0]);
    assert_eq!(matching_gist_indices(&gists, "config"), vec![0, 1]);
    assert_eq!(matching_gist_indices(&gists, ""), vec![0, 1]);
    assert!(matching_gist_indices(&gists, "zsh").is_empty());
}
