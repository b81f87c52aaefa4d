//! The Diff screen's words: the pending action a diff stands for, the pane title, the footer
//! hints, and how paths under the home directory are shown.

use vstd::prelude::*;
use crate::confirm::PendingAction;
use crate::text::{chars_of, dec, owned, push_dec, push_str, string_of_range};

verus! {

/// Rows a mouse-wheel tick scrolls the diff.
pub fn wheel_step() -> (n: usize)
    ensures
        n == 3,
{
    3
}

/// `path` shown with the home directory written `~`: the home itself reads `~`, a path under
/// it `~/rest`; any other path is shown as is.
pub open spec fn display_path_spec(path: Seq<char>, home: Option<Seq<char>>) -> Seq<char> {
    match home {
        Some(h) => if h.len() > 0 && path == h {
            seq!['~']
        } else if h.len() > 0 && path.len() > h.len() && path.take(h.len() as int) == h
            && path[h.len() as int] == '/' {
            seq!['~'] + path.skip(h.len() as int)
        } else {
            path
        },
        None => path,
    }
}

/// Show `path` with the home directory `home` (when known) abbreviated to `~`.
pub fn display_path(path: &str, home: Option<&str>) -> (s: String)
    ensures
        s@ == display_path_spec(
            path@,
            match home {
                Some(h) => Some(h@),
                None => None,
            },
        ),
{
    let p = chars_of(path);
    let whole = string_of_range(p.as_slice(), 0, p.len());
    assert(p@.subrange(0, p@.len() as int) =~= p@);
    let h = match home {
        Some(h) => chars_of(h),
        None => return whole,
    };
    if h.len() == 0 || p.len() < h.len() {
        return whole;
    }
    let mut k: usize = 0;
    while k < h.len()
        invariant
            k <= h@.len(),
            h@.len() <= p@.len(),
            p@ == path@,
            whole@ == path@,
            home matches Some(hh) && h@ == hh@,
            h@.len() > 0,
            forall|j: int| 0 <= j < k ==> p@[j] == h@[j],
        decreases h@.len() - k,
    {
        if p[k] != h[k] {
            assert(p@.take(h@.len() as int)[k as int] != h@[k as int]);
            assert(p@.take(h@.len() as int) != h@);
            assert(p@[k as int] != h@[k as int]);
            assert(p@ != h@);
            return whole;
        }
        k = k + 1;
    }
    assert(p@.take(h@.len() as int) =~= h@);
    if p.len() == h.len() {
        assert(p@ =~= h@);
        let mut s = String::new();
        crate::text::push_char(&mut s, '~');
        return s;
    }
    if p[h.len()] != '/' {
        return whole;
    }
    let mut s = String::new();
    crate::text::push_char(&mut s, '~');
    let rest = string_of_range(p.as_slice(), h.len(), p.len());
    push_str(&mut s, rest.as_str());
    assert(p@.subrange(h@.len() as int, p@.len() as int) =~= p@.skip(h@.len() as int));
    s
}

/// The diff pane title: what the pending action does, or — for a plain diff — the local and
/// target paths (one when they coincide or there is no local file), marked when identical.
pub open spec fn diff_title_spec(
    pending: Option<PendingAction>,
    identical: bool,
    local: Seq<char>,
    target: Seq<char>,
    home: Option<Seq<char>>,
) -> Seq<char> {
    match pending {
        Some(PendingAction::Upload { gist_id, filename, .. }) => "Upload → gist "@ + gist_id@ + " / "@
            + filename@,
        Some(PendingAction::Create { local_path }) => "Create gist from "@ + display_path_spec(
            local_path@,
            home,
        ),
        Some(PendingAction::Delete { gist_id, .. }) => "Delete gist "@ + gist_id@,
        Some(PendingAction::RemoveFile { gist_id, filename, .. }) => "Remove "@ + filename@
            + " from gist "@ + gist_id@,
        _ => {
            let label = if identical {
                "Diff (identical)"@
            } else {
                "Diff"@
            };
            if local.len() == 0 || local == target {
                label + " → "@ + display_path_spec(target, home)
            } else {
                label + ": "@ + display_path_spec(local, home) + " → "@ + display_path_spec(
                    target,
                    home,
                )
            }
        },
    }
}

/// The diff pane title. The gist id, file names and both sides' times live in the diff's
/// `--- / +++` header lines; the title stays concise and avoids repeating a path.
pub fn diff_title(
    pending: Option<&PendingAction>,
    identical: bool,
    local: &str,
    target: &str,
    home: Option<&str>,
) -> (s: String)
    ensures
        s@ == diff_title_spec(
            match pending {
                Some(p) => Some(*p),
                None => None,
            },
            identical,
            local@,
            target@,
            match home {
                Some(h) => Some(h@),
                None => None,
            },
        ),
{
    match pending {
        Some(PendingAction::Upload { gist_id, filename, .. }) => {
            let mut s = owned("Upload → gist ");
            push_str(&mut s, gist_id.as_str());
            push_str(&mut s, " / ");
            push_str(&mut s, filename.as_str());
            return s;
        },
        Some(PendingAction::Create { local_path }) => {
            let mut s = owned("Create gist from ");
            let p = display_path(local_path.as_str(), home);
            push_str(&mut s, p.as_str());
            return s;
        },
        Some(PendingAction::Delete { gist_id, .. }) => {
            let mut s = owned("Delete gist ");
            push_str(&mut s, gist_id.as_str());
            return s;
        },
        Some(PendingAction::RemoveFile { gist_id, filename, .. }) => {
            let mut s = owned("Remove ");
            push_str(&mut s, filename.as_str());
            push_str(&mut s, " from gist ");
            push_str(&mut s, gist_id.as_str());
            return s;
        },
        _ => {},
    }
    let mut s = if identical {
        owned("Diff (identical)")
    } else {
        owned("Diff")
    };
    let same = crate::text::str_eq(local, target);
    if local.unicode_len() == 0 || same {
        push_str(&mut s, " → ");
        let t = display_path(target, home);
        push_str(&mut s, t.as_str());
    } else {
        push_str(&mut s, ": ");
        let l = display_path(local, home);
        push_str(&mut s, l.as_str());
        push_str(&mut s, " → ");
        let t = display_path(target, home);
        push_str(&mut s, t.as_str());
    }
    s
}

/// The Diff screen's footer hints: scroll keys (no `←→` while wrapping), the sync keys when
/// the diff allows syncing and differs, the wrap and context toggles, and the way back; an
/// identical diff says so.
pub open spec fn diff_footer_spec(
    show_full: bool,
    context: u32,
    wrap: bool,
    allows_sync: bool,
    identical: bool,
) -> Seq<char> {
    let ctx = if show_full {
        "c context [full]"@
    } else {
        "c context ["@ + dec(context as nat) + "]"@
    };
    let scroll = if wrap {
        "↑↓ PgUp/Dn scroll"@
    } else {
        "↑↓←→ PgUp/Dn scroll"@
    };
    let wrap_hint = if wrap {
        "w wrap [on]"@
    } else {
        "w wrap [off]"@
    };
    let sep = "  ·  "@;
    let tail = wrap_hint + sep + ctx + sep + "Esc/q back"@;
    if !allows_sync {
        if identical {
            "Files are identical"@ + sep + scroll + sep + tail
        } else {
            scroll + sep + tail
        }
    } else if identical {
        "Files are identical — nothing to sync"@ + sep + scroll + sep + tail
    } else {
        scroll + sep + "d download"@ + sep + "u upload"@ + sep + tail
    }
}

/// Footer hints for the Diff screen.
pub fn diff_footer(
    show_full: bool,
    context: u32,
    wrap: bool,
    allows_sync: bool,
    identical: bool,
) -> (s: String)
    ensures
        s@ == diff_footer_spec(show_full, context, wrap, allows_sync, identical),
{
    let mut ctx = if show_full {
        owned("c context [full]")
    } else {
        let mut c = owned("c context [");
        push_dec(&mut c, context as u64);
        push_str(&mut c, "]");
        c
    };
    let scroll = if wrap {
        "↑↓ PgUp/Dn scroll"
    } else {
        "↑↓←→ PgUp/Dn scroll"
    };
    let wrap_hint = if wrap {
        "w wrap [on]"
    } else {
        "w wrap [off]"
    };
    let sep = "  ·  ";
    let mut tail = owned(wrap_hint);
    push_str(&mut tail, sep);
    push_str(&mut tail, ctx.as_str());
    push_str(&mut tail, sep);
    push_str(&mut tail, "Esc/q back");
    let mut s = if !allows_sync {
        if identical {
            let mut s = owned("Files are identical");
            push_str(&mut s, sep);
            s
        } else {
            String::new()
        }
    } else if identical {
        let mut s = owned("Files are identical — nothing to sync");
        push_str(&mut s, sep);
        s
    } else {
        String::new()
    };
    push_str(&mut s, scroll);
    push_str(&mut s, sep);
    if allows_sync && !identical {
        push_str(&mut s, "d download");
        push_str(&mut s, sep);
        push_str(&mut s, "u upload");
        push_str(&mut s, sep);
    }
    push_str(&mut s, tail.as_str());
    s
}

} // verus!
