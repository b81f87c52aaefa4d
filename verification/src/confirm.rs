//! Confirm modals: what each pending action asks, which keys resolve it, and how it is
//! styled.

use vstd::prelude::*;
use crate::chrome::{spinner_frame, spinner_glyph, TextInput};
use crate::diff_screen::{display_path, display_path_spec};
use crate::text::{chars_of, dec, owned, push_dec, push_str};
use crate::theme::{Color, Theme};

verus! {

/// What a confirm, or the diff in front of it, is about to do.
#[derive(Debug, Clone, PartialEq, Eq)]
pub enum PendingAction {
    Download,
    Upload { gist_id: String, filename: String, local_path: String },
    Create { local_path: String },
    Delete { gist_id: String, label: String },
    RemoveFile { gist_id: String, filename: String, label: String },
    CompactGist { gist_id: String, label: String, count: usize },
    RestoreRevision {
        gist_id: String,
        filename: String,
        version: String,
        version_label: String,
        content: String,
    },
}

/// One key that resolves a confirm modal, plus the verb it performs.
#[derive(Debug, Clone, PartialEq, Eq)]
pub struct ConfirmKeyVm {
    pub key: &'static str,
    pub label: String,
}

impl ConfirmKeyVm {
    /// Key `key` performing `label`.
    pub fn new(key: &'static str, label: &str) -> (k: ConfirmKeyVm)
        ensures
            k.key == key,
            k.label@ == label@,
    {
        ConfirmKeyVm { key, label: owned(label) }
    }

    /// Cells the key column plus its label occupy, before any gutter.
    pub fn width(&self) -> (w: usize)
        requires
            self.key@.len() + self.label@.len() + 2 <= usize::MAX,
        ensures
            w == self.key@.len() + 2 + self.label@.len(),
    {
        self.key.unicode_len() + 2 + self.label.unicode_len()
    }
}

/// The structured body of a confirm modal: the question, an optional second line of context
/// or consequence, the keys that resolve it, and any secondary toggles.
#[derive(Debug, Clone, PartialEq, Eq)]
pub struct ConfirmPromptVm {
    pub question: String,
    pub detail: Option<String>,
    pub keys: Vec<ConfirmKeyVm>,
    pub options: Vec<ConfirmKeyVm>,
}

/// The body of a confirm modal.
#[derive(Debug, Clone, PartialEq, Eq)]
pub enum ConfirmModalKind {
    /// A question resolved by keys.
    Prompt(ConfirmPromptVm),
    /// The create flow's description editor.
    DescriptionInput { prefix: &'static str, input: TextInput, keys: Vec<ConfirmKeyVm> },
}

/// What a confirm modal paints behind itself.
#[derive(Debug, Clone, Copy, PartialEq, Eq, Structural)]
pub enum ConfirmBackdrop {
    /// The diff the action is about (the screen below the modal).
    Diff,
    /// The gist about to be compacted: its header and files (nothing when the gist is not
    /// known).
    CompactGist,
    /// Nothing.
    Empty,
}

/// The backdrop of the confirm for `pending`: the compaction panel for compacting, the diff
/// for every other action, nothing when no action is pending.
pub open spec fn backdrop_spec(pending: Option<PendingAction>) -> ConfirmBackdrop {
    match pending {
        None => ConfirmBackdrop::Empty,
        Some(PendingAction::CompactGist { .. }) => ConfirmBackdrop::CompactGist,
        Some(_) => ConfirmBackdrop::Diff,
    }
}

/// A confirm modal: title, border colour, body and backdrop.
#[derive(Debug, Clone, PartialEq, Eq)]
pub struct ConfirmVm {
    pub title: &'static str,
    pub border: Color,
    pub kind: ConfirmModalKind,
    pub background: ConfirmBackdrop,
}

/// The upload flow's session flags.
#[derive(Debug, Clone, Copy, PartialEq, Eq, Structural)]
pub struct UploadFlags {
    /// An external editor is open on the upload content.
    pub watching: bool,
    /// The upload content was edited.
    pub edited: bool,
    pub json_pretty: bool,
    pub json_sort: bool,
}

/// Label and trailing hint around the create flow's description input.
pub const CREATE_DESC_PREFIX: &'static str = "Description (optional): ";

/// The hint after the create flow's description input.
pub const CREATE_DESC_SUFFIX: &'static str = "   ·  Enter next  ·  Esc cancel";

/// Rows a mouse-wheel tick scrolls the diff behind a confirm.
pub fn wheel_step() -> (n: usize)
    ensures
        n == 3,
{
    3
}

/// The (key, label) view of keys.
pub open spec fn keys_view(v: Seq<ConfirmKeyVm>) -> Seq<(Seq<char>, Seq<char>)> {
    v.map_values(|k: ConfirmKeyVm| (k.key@, k.label@))
}

/// The keys that resolve the create flow's description editor.
pub fn description_input_keys() -> (v: Vec<ConfirmKeyVm>)
    ensures
        keys_view(v@) == seq![("Enter"@, "next"@), ("Esc"@, "cancel"@)],
{
    let mut v = Vec::new();
    v.push(ConfirmKeyVm::new("Enter", "next"));
    v.push(ConfirmKeyVm::new("Esc", "cancel"));
    assert(keys_view(v@) =~= seq![("Enter"@, "next"@), ("Esc"@, "cancel"@)]);
    v
}

/// `[on]` or `[off]`.
pub open spec fn on_off(flag: bool) -> Seq<char> {
    if flag {
        "[on]"@
    } else {
        "[off]"@
    }
}

/// Whether `path` names a JSON file: its name ends in `.json`, in any ASCII case.
pub open spec fn is_json_path(path: Seq<char>) -> bool {
    path.len() >= 5 && {
        let ext = path.skip(path.len() - 5);
        &&& ext[0] == '.'
        &&& (ext[1] == 'j' || ext[1] == 'J')
        &&& (ext[2] == 's' || ext[2] == 'S')
        &&& (ext[3] == 'o' || ext[3] == 'O')
        &&& (ext[4] == 'n' || ext[4] == 'N')
    }
}

/// Whether `path` names a JSON file.
pub fn is_json_file(path: &str) -> (r: bool)
    ensures
        r == is_json_path(path@),
{
    let v = chars_of(path);
    let n = v.len();
    if n < 5 {
        return false;
    }
    let a = v[n - 5];
    let b = v[n - 4];
    let c = v[n - 3];
    let d = v[n - 2];
    let e = v[n - 1];
    a == '.' && (b == 'j' || b == 'J') && (c == 's' || c == 'S') && (d == 'o' || d == 'O') && (
    e == 'n' || e == 'N')
}

/// The upload question: a spinner while the external editor is still open, otherwise the
/// upload prompt plus the JSON toggles the keys actually honour.
pub open spec fn upload_prompt_ok(
    p: ConfirmPromptVm,
    gist_id: Seq<char>,
    filename: Seq<char>,
    local_path: Seq<char>,
    flags: UploadFlags,
    frame: nat,
) -> bool {
    if flags.watching {
        &&& p.question@ == spinner_frame((frame % 10) as int) + " Waiting for the editor to close…"@
        &&& p.detail matches Some(d) && d@ == "Editing "@ + filename + " before upload."@
        &&& keys_view(p.keys@) == seq![("n"@, "cancel"@)]
        &&& p.options@.len() == 0
    } else {
        &&& p.question@ == "Upload "@ + filename + " to gist "@ + gist_id + "?"@
        &&& p.detail.is_none()
        &&& keys_view(p.keys@) == seq![
            ("y"@, "upload"@),
            ("n"@, "cancel"@),
            (
                "e"@,
                if flags.edited {
                    "edit first [edited]"@
                } else {
                    "edit first"@
                },
            ),
        ]
        &&& keys_view(p.options@) == if is_json_path(local_path) {
            seq![
                ("p"@, "pretty "@ + on_off(flags.json_pretty)),
                ("s"@, "sort "@ + on_off(flags.json_sort)),
            ]
        } else {
            Seq::empty()
        }
    }
}

fn toggle_key(key: &'static str, word: &str, flag: bool) -> (k: ConfirmKeyVm)
    ensures
        k.key == key,
        k.label@ == word@ + on_off(flag),
{
    let mut label = owned(word);
    push_str(&mut label, if flag {
        "[on]"
    } else {
        "[off]"
    });
    ConfirmKeyVm { key, label }
}

/// The upload question for `filename` of gist `gist_id`, from the local file `local_path`.
pub fn upload_prompt(
    gist_id: &str,
    filename: &str,
    local_path: &str,
    flags: UploadFlags,
    frame: usize,
) -> (p: ConfirmPromptVm)
    ensures
        upload_prompt_ok(p, gist_id@, filename@, local_path@, flags, frame as nat),
{
    if flags.watching {
        let mut question = spinner_glyph(frame);
        push_str(&mut question, " Waiting for the editor to close…");
        let mut detail = owned("Editing ");
        push_str(&mut detail, filename);
        push_str(&mut detail, " before upload.");
        let mut keys = Vec::new();
        keys.push(ConfirmKeyVm::new("n", "cancel"));
        assert(keys_view(keys@) =~= seq![("n"@, "cancel"@)]);
        return ConfirmPromptVm { question, detail: Some(detail), keys, options: Vec::new() };
    }
    let edit_label = if flags.edited {
        "edit first [edited]"
    } else {
        "edit first"
    };
    let mut options = Vec::new();
    if is_json_file(local_path) {
        options.push(toggle_key("p", "pretty ", flags.json_pretty));
        options.push(toggle_key("s", "sort ", flags.json_sort));
    }
    let mut question = owned("Upload ");
    push_str(&mut question, filename);
    push_str(&mut question, " to gist ");
    push_str(&mut question, gist_id);
    push_str(&mut question, "?");
    let mut keys = Vec::new();
    keys.push(ConfirmKeyVm::new("y", "upload"));
    keys.push(ConfirmKeyVm::new("n", "cancel"));
    keys.push(ConfirmKeyVm::new("e", edit_label));
    let p = ConfirmPromptVm { question, detail: None, keys, options };
    assert(keys_view(p.keys@) =~= seq![
        ("y"@, "upload"@),
        ("n"@, "cancel"@),
        (
            "e"@,
            if flags.edited {
                "edit first [edited]"@
            } else {
                "edit first"@
            },
        ),
    ]);
    assert(keys_view(p.options@) =~= if is_json_path(local_path@) {
        seq![
            ("p"@, "pretty "@ + on_off(flags.json_pretty)),
            ("s"@, "sort "@ + on_off(flags.json_sort)),
        ]
    } else {
        Seq::<(Seq<char>, Seq<char>)>::empty()
    });
    p
}

/// Whether `p` is a plain prompt: `question`, `detail`, `keys`, and no toggles.
pub open spec fn prompt_is(
    p: ConfirmPromptVm,
    question: Seq<char>,
    detail: Option<Seq<char>>,
    keys: Seq<(Seq<char>, Seq<char>)>,
) -> bool {
    &&& p.question@ == question
    &&& match (p.detail, detail) {
        (Some(a), Some(b)) => a@ == b,
        (None, None) => true,
        _ => false,
    }
    &&& keys_view(p.keys@) == keys
    &&& p.options@.len() == 0
}

/// `n cancel` followed by the action's own key.
pub open spec fn cancel_then(key: Seq<char>, verb: Seq<char>) -> Seq<(Seq<char>, Seq<char>)> {
    seq![("n"@, "cancel"@), (key, verb)]
}

/// Whether `vm` is the confirm modal for `pending`: the title and border each action gets,
/// its question, consequence and keys — a destructive action leads with `n cancel` and
/// states what is lost; the create flow shows its description editor while it is being
/// typed.
pub open spec fn confirm_vm_ok(
    vm: ConfirmVm,
    pending: Option<PendingAction>,
    theme: Theme,
    editing_description: bool,
    description: TextInput,
    download_target: Seq<char>,
    home: Option<Seq<char>>,
    flags: UploadFlags,
    frame: nat,
) -> bool {
    match pending {
        None => {
            &&& vm.title@ == "Confirm"@
            &&& vm.border == theme.notice_color
            &&& vm.kind matches ConfirmModalKind::Prompt(p) && prompt_is(p, Seq::empty(), None, Seq::empty())
        },
        Some(PendingAction::Download) => {
            &&& vm.title@ == "Overwrite"@
            &&& vm.border == theme.del_color
            &&& vm.kind matches ConfirmModalKind::Prompt(p) && prompt_is(
                p,
                "Overwrite "@ + display_path_spec(download_target, home) + "?"@,
                Some("The local file is replaced with the gist's content."@),
                cancel_then("y"@, "overwrite"@),
            )
        },
        Some(PendingAction::Upload { gist_id, filename, local_path }) => {
            &&& vm.title@ == "Upload"@
            &&& vm.border == theme.notice_color
            &&& vm.kind matches ConfirmModalKind::Prompt(p) && upload_prompt_ok(
                p,
                gist_id@,
                filename@,
                local_path@,
                flags,
                frame,
            )
        },
        Some(PendingAction::Create { local_path }) => if editing_description {
            &&& vm.title@ == "Description"@
            &&& vm.border == theme.accent
            &&& vm.kind matches ConfirmModalKind::DescriptionInput { prefix, input, keys } && prefix
                == CREATE_DESC_PREFIX && input.text_view() == description.text_view()
                && input.cursor_view() == description.cursor_view() && keys_view(keys@) == seq![
                ("Enter"@, "next"@),
                ("Esc"@, "cancel"@),
            ]
        } else {
            &&& vm.title@ == "Create gist"@
            &&& vm.border == theme.notice_color
            &&& vm.kind matches ConfirmModalKind::Prompt(p) && prompt_is(
                p,
                "Create a gist from "@ + display_path_spec(local_path@, home) + "?"@,
                Some(
                    if description.text_view().len() == 0 {
                        "No description."@
                    } else {
                        "Description: "@ + description.text_view()
                    },
                ),
                seq![("s"@, "secret"@), ("p"@, "public"@), ("Esc"@, "cancel"@)],
            )
        },
        Some(PendingAction::Delete { gist_id, label }) => {
            &&& vm.title@ == "Delete"@
            &&& vm.border == theme.del_color
            &&& vm.kind matches ConfirmModalKind::Prompt(p) && prompt_is(
                p,
                "Permanently delete \""@ + label@ + "\"?"@,
                Some("gist "@ + gist_id@ + " — every file in it goes with it."@),
                cancel_then("y"@, "delete"@),
            )
        },
        Some(PendingAction::RemoveFile { gist_id, filename, .. }) => {
            &&& vm.title@ == "Remove file"@
            &&& vm.border == theme.del_color
            &&& vm.kind matches ConfirmModalKind::Prompt(p) && prompt_is(
                p,
                "Remove "@ + filename@ + " from this gist?"@,
                Some("gist "@ + gist_id@ + " — the file is deleted remotely."@),
                cancel_then("y"@, "remove"@),
            )
        },
        Some(PendingAction::CompactGist { label, count, .. }) => {
            &&& vm.title@ == "Compact revisions"@
            &&& vm.border == theme.del_color
            &&& vm.kind matches ConfirmModalKind::Prompt(p) && prompt_is(
                p,
                "Compact "@ + dec(count as nat) + " revisions of \""@ + label@ + "\" into one?"@,
                Some("This force-pushes and cannot be undone."@),
                cancel_then("y"@, "compact"@),
            )
        },
        Some(PendingAction::RestoreRevision { filename, version_label, .. }) => {
            &&& vm.title@ == "Restore revision"@
            &&& vm.border == theme.notice_color
            &&& vm.kind matches ConfirmModalKind::Prompt(p) && prompt_is(
                p,
                "Restore "@ + filename@ + " to revision "@ + version_label@ + "?"@,
                Some("The old content is uploaded as a new revision."@),
                seq![("y"@, "restore"@), ("n"@, "cancel"@)],
            )
        },
    }
}

fn two_keys(k1: &'static str, l1: &str, k2: &'static str, l2: &str) -> (v: Vec<ConfirmKeyVm>)
    ensures
        keys_view(v@) == seq![(k1@, l1@), (k2@, l2@)],
{
    let mut v = Vec::new();
    v.push(ConfirmKeyVm::new(k1, l1));
    v.push(ConfirmKeyVm::new(k2, l2));
    assert(keys_view(v@) =~= seq![(k1@, l1@), (k2@, l2@)]);
    v
}

fn prompt(question: String, detail: String, keys: Vec<ConfirmKeyVm>) -> (p: ConfirmPromptVm)
    ensures
        p.question == question,
        p.detail == Some(detail),
        p.keys == keys,
        p.options@.len() == 0,
{
    ConfirmPromptVm { question, detail: Some(detail), keys, options: Vec::new() }
}

/// The confirm modal for `pending`. `description` is the create flow's description input,
/// `download_target` the path a download would overwrite, `home` the home directory (when
/// known), `flags` the upload session and `frame` the spinner tick.
pub fn build_confirm_vm(
    pending: Option<&PendingAction>,
    theme: &Theme,
    editing_description: bool,
    description: &TextInput,
    download_target: &str,
    home: Option<&str>,
    flags: UploadFlags,
    frame: usize,
) -> (vm: ConfirmVm)
    ensures
        confirm_vm_ok(
            vm,
            match pending {
                Some(p) => Some(*p),
                None => None,
            },
            *theme,
            editing_description,
            *description,
            download_target@,
            match home {
                Some(h) => Some(h@),
                None => None,
            },
            flags,
            frame as nat,
        ),
        vm.background == backdrop_spec(
            match pending {
                Some(p) => Some(*p),
                None => None,
            },
        ),
{
    let action = match pending {
        Some(a) => a,
        None => {
            let p = ConfirmPromptVm {
                question: String::new(),
                detail: None,
                keys: Vec::new(),
                options: Vec::new(),
            };
            assert(keys_view(p.keys@) =~= Seq::empty());
            return ConfirmVm {
                background: ConfirmBackdrop::Empty,
                title: "Confirm",
                border: theme.notice_color,
                kind: ConfirmModalKind::Prompt(p),
            };
        },
    };
    match action {
        PendingAction::Download => {
            let mut q = owned("Overwrite ");
            let target = display_path(download_target, home);
            push_str(&mut q, target.as_str());
            push_str(&mut q, "?");
            ConfirmVm {
                background: ConfirmBackdrop::Diff,
                title: "Overwrite",
                border: theme.del_color,
                kind: ConfirmModalKind::Prompt(
                    prompt(
                        q,
                        owned("The local file is replaced with the gist's content."),
                        two_keys("n", "cancel", "y", "overwrite"),
                    ),
                ),
            }
        },
        PendingAction::Upload { gist_id, filename, local_path } => ConfirmVm {
            background: ConfirmBackdrop::Diff,
            title: "Upload",
            border: theme.notice_color,
            kind: ConfirmModalKind::Prompt(
                upload_prompt(gist_id.as_str(), filename.as_str(), local_path.as_str(), flags, frame),
            ),
        },
        PendingAction::Create { local_path } => if editing_description {
            ConfirmVm {
                background: ConfirmBackdrop::Diff,
                title: "Description",
                border: theme.accent,
                kind: ConfirmModalKind::DescriptionInput {
                    prefix: CREATE_DESC_PREFIX,
                    input: description.duplicate(),
                    keys: description_input_keys(),
                },
            }
        } else {
            let mut q = owned("Create a gist from ");
            let shown = display_path(local_path.as_str(), home);
            push_str(&mut q, shown.as_str());
            push_str(&mut q, "?");
            let detail = if description.is_empty() {
                owned("No description.")
            } else {
                let mut d = owned("Description: ");
                let text = description.text();
                push_str(&mut d, text.as_str());
                d
            };
            let mut keys = Vec::new();
            keys.push(ConfirmKeyVm::new("s", "secret"));
            keys.push(ConfirmKeyVm::new("p", "public"));
            keys.push(ConfirmKeyVm::new("Esc", "cancel"));
            assert(keys_view(keys@) =~= seq![("s"@, "secret"@), ("p"@, "public"@), ("Esc"@, "cancel"@)]);
            ConfirmVm {
                background: ConfirmBackdrop::Diff,
                title: "Create gist",
                border: theme.notice_color,
                kind: ConfirmModalKind::Prompt(prompt(q, detail, keys)),
            }
        },
        PendingAction::Delete { gist_id, label } => {
            let mut q = owned("Permanently delete \"");
            push_str(&mut q, label.as_str());
            push_str(&mut q, "\"?");
            let mut d = owned("gist ");
            push_str(&mut d, gist_id.as_str());
            push_str(&mut d, " — every file in it goes with it.");
            ConfirmVm {
                background: ConfirmBackdrop::Diff,
                title: "Delete",
                border: theme.del_color,
                kind: ConfirmModalKind::Prompt(prompt(q, d, two_keys("n", "cancel", "y", "delete"))),
            }
        },
        PendingAction::RemoveFile { gist_id, filename, .. } => {
            let mut q = owned("Remove ");
            push_str(&mut q, filename.as_str());
            push_str(&mut q, " from this gist?");
            let mut d = owned("gist ");
            push_str(&mut d, gist_id.as_str());
            push_str(&mut d, " — the file is deleted remotely.");
            ConfirmVm {
                background: ConfirmBackdrop::Diff,
                title: "Remove file",
                border: theme.del_color,
                kind: ConfirmModalKind::Prompt(prompt(q, d, two_keys("n", "cancel", "y", "remove"))),
            }
        },
        PendingAction::CompactGist { label, count, .. } => {
            let mut q = owned("Compact ");
            push_dec(&mut q, *count as u64);
            push_str(&mut q, " revisions of \"");
            push_str(&mut q, label.as_str());
            push_str(&mut q, "\" into one?");
            ConfirmVm {
                background: ConfirmBackdrop::CompactGist,
                title: "Compact revisions",
                border: theme.del_color,
                kind: ConfirmModalKind::Prompt(
                    prompt(
                        q,
                        owned("This force-pushes and cannot be undone."),
                        two_keys("n", "cancel", "y", "compact"),
                    ),
                ),
            }
        },
        PendingAction::RestoreRevision { filename, version_label, .. } => {
            let mut q = owned("Restore ");
            push_str(&mut q, filename.as_str());
            push_str(&mut q, " to revision ");
            push_str(&mut q, version_label.as_str());
            push_str(&mut q, "?");
            ConfirmVm {
                background: ConfirmBackdrop::Diff,
                title: "Restore revision",
                border: theme.notice_color,
                kind: ConfirmModalKind::Prompt(
                    prompt(
                        q,
                        owned("The old content is uploaded as a new revision."),
                        two_keys("y", "restore", "n", "cancel"),
                    ),
                ),
            }
        },
    }
}

/// Whether `a` destroys something: an overwrite, a deletion, a removal or a compaction.
pub open spec fn is_destructive(a: PendingAction) -> bool {
    match a {
        PendingAction::Download | PendingAction::Delete { .. } | PendingAction::RemoveFile { .. }
        | PendingAction::CompactGist { .. } => true,
        _ => false,
    }
}

/// Every pending action gets a titled modal that some key resolves, and every question
/// it asks is non-empty — in the create flow's description step too.
pub proof fn law_every_confirm_can_be_resolved(
    vm: ConfirmVm,
    action: PendingAction,
    theme: Theme,
    editing_description: bool,
    description: TextInput,
    download_target: Seq<char>,
    home: Option<Seq<char>>,
    flags: UploadFlags,
    frame: nat,
)
    requires
        confirm_vm_ok(
            vm,
            Some(action),
            theme,
            editing_description,
            description,
            download_target,
            home,
            flags,
            frame,
        ),
    ensures
        vm.title@.len() > 0,
        match vm.kind {
            ConfirmModalKind::Prompt(p) => p.question@.len() > 0 && p.keys@.len() > 0,
            ConfirmModalKind::DescriptionInput { keys, .. } => keys@.len() > 0,
        },
{
    reveal_strlit("Overwrite");
    reveal_strlit("Upload");
    reveal_strlit("Description");
    reveal_strlit("Create gist");
    reveal_strlit("Delete");
    reveal_strlit("Remove file");
    reveal_strlit("Compact revisions");
    reveal_strlit("Restore revision");
    reveal_strlit("Overwrite ");
    reveal_strlit("Upload ");
    reveal_strlit(" Waiting for the editor to close…");
    reveal_strlit("Create a gist from ");
    reveal_strlit("Permanently delete \"");
    reveal_strlit("Remove ");
    reveal_strlit("Compact ");
    reveal_strlit("Restore ");
    match vm.kind {
        ConfirmModalKind::Prompt(p) => {
            assert(keys_view(p.keys@).len() == p.keys@.len());
        },
        ConfirmModalKind::DescriptionInput { keys, .. } => {
            assert(keys_view(keys@).len() == keys@.len());
        },
    }
}

/// A destructive action is drawn in the delete colour, leads with `n cancel`, and states its
/// consequence, so the stakes do not rest on the border colour alone.
pub proof fn law_destructive_confirms_lead_with_cancel(
    vm: ConfirmVm,
    action: PendingAction,
    theme: Theme,
    editing_description: bool,
    description: TextInput,
    download_target: Seq<char>,
    home: Option<Seq<char>>,
    flags: UploadFlags,
    frame: nat,
)
    requires
        is_destructive(action),
        confirm_vm_ok(
            vm,
            Some(action),
            theme,
            editing_description,
            description,
            download_target,
            home,
            flags,
            frame,
        ),
    ensures
        vm.border == theme.del_color,
        vm.kind matches ConfirmModalKind::Prompt(p) && p.detail is Some && p.keys@.len() >= 1
            && p.keys@[0].key@ == "n"@ && p.keys@[0].label@ == "cancel"@,
{
    match vm.kind {
        ConfirmModalKind::Prompt(p) => {
            assert(keys_view(p.keys@).len() == p.keys@.len());
            assert(keys_view(p.keys@)[0] == (p.keys@[0].key@, p.keys@[0].label@));
        },
        _ => {},
    }
}

} // verus!
