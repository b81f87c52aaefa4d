use gistui::confirm::{ConfirmKeyVm, ConfirmPromptVm};
use gistui::confirm_layout::{confirm_body_rows, confirm_key_rows, KeySpan};

fn row_text(row: &[KeySpan]) -> String {
    row.iter().map(|s| s.text.as_str()).collect()
}

fn upload_keys() -> (Vec<ConfirmKeyVm>, Vec<ConfirmKeyVm>) {
    (
        vec![
            ConfirmKeyVm::new("y", "upload"),
            ConfirmKeyVm::new("e", "edit first"),
            ConfirmKeyVm::new("n", "cancel"),
        ],
        vec![
            ConfirmKeyVm::new("p", "pretty [off]"),
            ConfirmKeyVm::new("s", "sort [off]"),
        ],
    )
}

#[test]
fn key_rows_keep_each_key_whole() {
    let (keys, options) = upload_keys();
    let rows = confirm_key_rows(&keys, &options, 76);
    assert_eq!(rows.len(), 2);
    for hint in ["y  upload", "e  edit first", "n  cancel", "p  pretty [off]", "s  sort [off]"] {
        assert!(rows.iter().any(|r| row_text(r).contains(hint)), "{hint}");
    }
    // Every key of a row but the last is padded out to the same cell.
    assert_eq!(row_text(&rows[0]), "y  upload          e  edit first      n  cancel");
    assert!(rows[0][0].is_key);
    assert!(!rows[0][1].is_key);
}

#[test]
fn narrow_modal_puts_one_key_on_a_row() {
    let (keys, options) = upload_keys();
    let rows = confirm_key_rows(&keys, &options, 10);
    assert_eq!(rows.len(), 5);
    assert_eq!(row_text(&rows[0]), "y  upload");
    assert_eq!(row_text(&rows[4]), "s  sort [off]");
}

#[test]
fn no_keys_no_rows() {
    assert!(confirm_key_rows(&[], &[], 40).is_empty());
}

#[test]
fn body_rows_count_question_detail_gap_and_keys() {
    let prompt = ConfirmPromptVm {
        question: "Permanently delete gist abc?".into(),
        detail: Some("The gist and its history are gone for good.".into()),
        keys: vec![ConfirmKeyVm::new("n", "cancel"), ConfirmKeyVm::new("y", "delete")],
        options: vec![],
    };
    assert_eq!(confirm_body_rows(&prompt, 96), 4);
    let bare = ConfirmPromptVm {
        question: "Sure?".into(),
        detail: None,
        keys: vec![],
        options: vec![],
    };
    assert_eq!(confirm_body_rows(&bare, 96), 1);
}
