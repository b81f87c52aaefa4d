//! Gist file contents kept from earlier fetches, and the staging of a preview or an upload
//! diff: what can be shown at once from the cache, and what must be fetched first (with the
//! raw URL filled in from the gist list when the request lacks it).

use vstd::prelude::*;
use crate::diff_flow::{file_name_of, path_file_name};
use crate::domain::{GistFile, GistFileRef, GistGroup};
use crate::labels::{
    boundary_at_16, byte_len, diff_labels, diff_labels_spec, gist_time_text, opt_str_view,
};
use crate::preview::{preview_title, preview_title_spec, PreviewState};
use crate::scroll::ScrollBody;
use crate::text::{owned, str_eq};

verus! {

/// One cached file content.
#[derive(Debug, Clone, PartialEq, Eq)]
pub struct CachedFile {
    pub gist_id: String,
    pub filename: String,
    pub content: String,
}

/// Contents of gist files, looked up by gist id and file name. Where a key occurs more than
/// once the entry stored last is the one that counts.
#[derive(Debug, Clone, PartialEq, Eq)]
pub struct ContentCache {
    pub entries: Vec<CachedFile>,
}

/// The content cached for (`gist_id`, `filename`): the last entry stored under that key.
pub open spec fn lookup_spec(entries: Seq<CachedFile>, gist_id: Seq<char>, filename: Seq<char>) -> Option<Seq<char>>
    decreases entries.len(),
{
    if entries.len() == 0 {
        None
    } else if entries.last().gist_id@ == gist_id && entries.last().filename@ == filename {
        Some(entries.last().content@)
    } else {
        lookup_spec(entries.drop_last(), gist_id, filename)
    }
}

/// `entries` without those stored under (`gist_id`, `filename`), in order.
pub open spec fn without_spec(entries: Seq<CachedFile>, gist_id: Seq<char>, filename: Seq<char>) -> Seq<CachedFile>
    decreases entries.len(),
{
    if entries.len() == 0 {
        Seq::empty()
    } else {
        let rest = without_spec(entries.drop_last(), gist_id, filename);
        if entries.last().gist_id@ == gist_id && entries.last().filename@ == filename {
            rest
        } else {
            rest.push(entries.last())
        }
    }
}

/// Dropping one key leaves every other key's content as it was, and that key with none.
pub proof fn lemma_lookup_without(
    entries: Seq<CachedFile>,
    gist_id: Seq<char>,
    filename: Seq<char>,
    g: Seq<char>,
    f: Seq<char>,
)
    ensures
        lookup_spec(without_spec(entries, gist_id, filename), g, f) == if g == gist_id && f
            == filename {
            None
        } else {
            lookup_spec(entries, g, f)
        },
    decreases entries.len(),
{
    if entries.len() > 0 {
        lemma_lookup_without(entries.drop_last(), gist_id, filename, g, f);
        let rest = without_spec(entries.drop_last(), gist_id, filename);
        assert(rest.push(entries.last()).drop_last() =~= rest);
    }
}

impl ContentCache {
    /// An empty cache.
    pub fn new() -> (c: ContentCache)
        ensures
            c.entries@.len() == 0,
    {
        ContentCache { entries: Vec::new() }
    }

    /// The content cached for (`gist_id`, `filename`).
    pub fn get(&self, gist_id: &str, filename: &str) -> (r: Option<&String>)
        ensures
            match r {
                Some(c) => lookup_spec(self.entries@, gist_id@, filename@) == Some(c@),
                None => lookup_spec(self.entries@, gist_id@, filename@) is None,
            },
    {
        let mut i: usize = self.entries.len();
        assert(self.entries@.take(i as int) =~= self.entries@);
        while i > 0
            invariant
                i <= self.entries@.len(),
                lookup_spec(self.entries@, gist_id@, filename@) == lookup_spec(
                    self.entries@.take(i as int),
                    gist_id@,
                    filename@,
                ),
            decreases i,
        {
            let e = &self.entries[i - 1];
            assert(self.entries@.take(i as int).drop_last() =~= self.entries@.take(i - 1));
            if str_eq(e.gist_id.as_str(), gist_id) && str_eq(e.filename.as_str(), filename) {
                return Some(&e.content);
            }
            i = i - 1;
        }
        None
    }

    /// Forget the content cached for (`gist_id`, `filename`); every other key keeps its own.
    pub fn remove(&mut self, gist_id: &str, filename: &str)
        ensures
            final(self).entries@ == without_spec(old(self).entries@, gist_id@, filename@),
    {
        let mut kept: Vec<CachedFile> = Vec::new();
        let mut i: usize = 0;
        while i < self.entries.len()
            invariant
                i <= self.entries@.len(),
                kept@ == without_spec(self.entries@.take(i as int), gist_id@, filename@),
            decreases self.entries@.len() - i,
        {
            let e = &self.entries[i];
            assert(self.entries@.take(i + 1).drop_last() =~= self.entries@.take(i as int));
            if !(str_eq(e.gist_id.as_str(), gist_id) && str_eq(e.filename.as_str(), filename)) {
                kept.push(
                    CachedFile {
                        gist_id: e.gist_id.clone(),
                        filename: e.filename.clone(),
                        content: e.content.clone(),
                    },
                );
            }
            i = i + 1;
        }
        assert(self.entries@.take(self.entries@.len() as int) =~= self.entries@);
        self.entries = kept;
    }

    /// Store `content` for (`gist_id`, `filename`), in place of what was there.
    pub fn insert(&mut self, gist_id: String, filename: String, content: String)
        ensures
            final(self).entries@ == without_spec(old(self).entries@, gist_id@, filename@).push(
                CachedFile { gist_id, filename, content },
            ),
    {
        self.remove(gist_id.as_str(), filename.as_str());
        self.entries.push(CachedFile { gist_id, filename, content });
    }
}

/// What a lookup gives after a store: the stored content for its key, and for every other
/// key what it gave before.
pub proof fn law_lookup_after_insert(
    entries: Seq<CachedFile>,
    stored: CachedFile,
    g: Seq<char>,
    f: Seq<char>,
)
    ensures
        lookup_spec(without_spec(entries, stored.gist_id@, stored.filename@).push(stored), g, f)
            == if g == stored.gist_id@ && f == stored.filename@ {
            Some(stored.content@)
        } else {
            lookup_spec(entries, g, f)
        },
{
    let rest = without_spec(entries, stored.gist_id@, stored.filename@);
    assert(rest.push(stored).drop_last() =~= rest);
    lemma_lookup_without(entries, stored.gist_id@, stored.filename@, g, f);
}

/// After a removal the key gives nothing, and every other key what it gave before.
pub proof fn law_lookup_after_remove(
    entries: Seq<CachedFile>,
    gist_id: Seq<char>,
    filename: Seq<char>,
    g: Seq<char>,
    f: Seq<char>,
)
    ensures
        lookup_spec(without_spec(entries, gist_id, filename), g, f) == if g == gist_id && f
            == filename {
            None
        } else {
            lookup_spec(entries, g, f)
        },
{
    lemma_lookup_without(entries, gist_id, filename, g, f);
}

// ---------------------------------------------------------------------------------------------
// The gist list
// ---------------------------------------------------------------------------------------------

/// The first file of the gist list that is `filename` of gist `gist_id`.
pub open spec fn catalog_entry(catalog: Seq<GistFile>, gist_id: Seq<char>, filename: Seq<char>) -> Option<GistFile>
    decreases catalog.len(),
{
    if catalog.len() == 0 {
        None
    } else if catalog[0].gist_id@ == gist_id && catalog[0].filename@ == filename {
        Some(catalog[0])
    } else {
        catalog_entry(catalog.drop_first(), gist_id, filename)
    }
}

/// The index of the first file of `catalog` at or after `from` that is `filename` of gist
/// `gist_id`.
fn find_entry(catalog: &[GistFile], gist_id: &str, filename: &str) -> (r: Option<usize>)
    ensures
        match r {
            Some(i) => i < catalog@.len() && catalog_entry(catalog@, gist_id@, filename@) == Some(
                catalog@[i as int],
            ),
            None => catalog_entry(catalog@, gist_id@, filename@) is None,
        },
{
    let mut i: usize = 0;
    assert(catalog@.skip(0) =~= catalog@);
    while i < catalog.len()
        invariant
            i <= catalog@.len(),
            catalog_entry(catalog@, gist_id@, filename@) == catalog_entry(
                catalog@.skip(i as int),
                gist_id@,
                filename@,
            ),
        decreases catalog@.len() - i,
    {
        assert(catalog@.skip(i as int)[0] == catalog@[i as int]);
        assert(catalog@.skip(i as int).drop_first() =~= catalog@.skip(i + 1));
        if str_eq(catalog[i].gist_id.as_str(), gist_id) && str_eq(
            catalog[i].filename.as_str(),
            filename,
        ) {
            return Some(i);
        }
        i = i + 1;
    }
    None
}

/// `file`'s raw URL, filled in from the gist list when the request has none.
pub open spec fn with_raw_url(catalog: Seq<GistFile>, file: GistFileRef) -> Option<Seq<char>> {
    match file.raw_url {
        Some(u) => Some(u@),
        None => match catalog_entry(catalog, file.gist_id@, file.filename@) {
            Some(g) => match g.raw_url {
                Some(u) => Some(u@),
                None => None,
            },
            None => None,
        },
    }
}

/// The request with the same gist id and file name, and its raw URL as [`with_raw_url`] says.
pub open spec fn filled(catalog: Seq<GistFile>, file: GistFileRef, out: GistFileRef) -> bool {
    &&& out.gist_id@ == file.gist_id@
    &&& out.filename@ == file.filename@
    &&& match out.raw_url {
        Some(u) => with_raw_url(catalog, file) == Some(u@),
        None => with_raw_url(catalog, file) is None,
    }
}

fn copy_opt(o: &Option<String>) -> (r: Option<String>)
    ensures
        r == *o,
{
    match o {
        Some(s) => Some(s.clone()),
        None => None,
    }
}

/// Fill in `file`'s raw URL from the gist list when it has none.
fn fill_raw_url(catalog: &[GistFile], file: GistFileRef) -> (out: GistFileRef)
    ensures
        filled(catalog@, file, out),
{
    if file.raw_url.is_some() {
        return file;
    }
    let raw_url = match find_entry(catalog, file.gist_id.as_str(), file.filename.as_str()) {
        Some(i) => copy_opt(&catalog[i].raw_url),
        None => None,
    };
    GistFileRef { gist_id: file.gist_id, filename: file.filename, raw_url }
}

// ---------------------------------------------------------------------------------------------
// Staging
// ---------------------------------------------------------------------------------------------

/// How a preview request goes on.
#[derive(Debug, Clone, PartialEq, Eq)]
pub enum StagedPreview {
    /// The content was cached: open this preview at once.
    Open(PreviewState),
    /// Fetch `file` first; the preview will carry `title`.
    Fetch { file: GistFileRef, title: String },
}

/// The group a title is taken from, as a value.
pub open spec fn group_view(group: Option<&GistGroup>) -> Option<GistGroup> {
    match group {
        Some(g) => Some(*g),
        None => None,
    }
}

/// `r` opens the preview titled `title` on `content`, unscrolled and tied to `file`.
pub open spec fn opens_at_once(r: StagedPreview, title: Seq<char>, content: Seq<char>, file: GistFileRef) -> bool {
    match r {
        StagedPreview::Open(p) => {
            &&& p.title@ == title
            &&& p.body.text@ == content
            &&& p.body.scroll == 0
            &&& p.body.hscroll == 0
            &&& match p.gist_key {
                Some((g, f)) => g@ == file.gist_id@ && f@ == file.filename@,
                None => false,
            }
        },
        _ => false,
    }
}

/// `r` asks to fetch `file` first, raw URL filled in (see [`filled`]), for a preview titled
/// `title`.
pub open spec fn fetches_first(r: StagedPreview, catalog: Seq<GistFile>, file: GistFileRef, title: Seq<char>) -> bool {
    match r {
        StagedPreview::Fetch { file: out, title: t } => filled(catalog, file, out) && t@ == title,
        _ => false,
    }
}

/// Stage the preview of `file` (of the gist `group` when it is known). A cached content
/// opens at once, unscrolled and tied to the file; otherwise the file is to be fetched, its
/// raw URL filled in from the gist list when the request lacks it.
pub fn stage_preview_content(
    cache: &ContentCache,
    catalog: &[GistFile],
    group: Option<&GistGroup>,
    file: GistFileRef,
) -> (r: StagedPreview)
    ensures
        match lookup_spec(cache.entries@, file.gist_id@, file.filename@) {
            Some(content) => opens_at_once(
                r,
                preview_title_spec(group_view(group), file.gist_id@, file.filename@),
                content,
                file,
            ),
            None => fetches_first(
                r,
                catalog@,
                file,
                preview_title_spec(group_view(group), file.gist_id@, file.filename@),
            ),
        },
{
    let title = preview_title(group, file.gist_id.as_str(), file.filename.as_str());
    match cache.get(file.gist_id.as_str(), file.filename.as_str()) {
        Some(content) => StagedPreview::Open(
            PreviewState {
                title,
                body: ScrollBody { text: content.clone(), scroll: 0, hscroll: 0 },
                gist_key: Some((file.gist_id, file.filename)),
            },
        ),
        None => StagedPreview::Fetch { file: fill_raw_url(catalog, file), title },
    }
}

/// Stage a refresh of the preview of `file`: its cached content is dropped (every other
/// file's is kept) and the file is to be fetched again, raw URL filled in as for a preview.
pub fn stage_refresh_preview(
    cache: &mut ContentCache,
    catalog: &[GistFile],
    group: Option<&GistGroup>,
    file: GistFileRef,
) -> (r: (GistFileRef, String))
    ensures
        final(cache).entries@ == without_spec(old(cache).entries@, file.gist_id@, file.filename@),
        filled(catalog@, file, r.0),
        r.1@ == preview_title_spec(group_view(group), file.gist_id@, file.filename@),
{
    cache.remove(file.gist_id.as_str(), file.filename.as_str());
    let title = preview_title(group, file.gist_id.as_str(), file.filename.as_str());
    (fill_raw_url(catalog, file), title)
}

/// The two labels of the upload diff against `file`: the local file's name and time, and the
/// gist file as the gist list has it; when the list lacks it, the request's id and name with
/// an unknown update time.
pub open spec fn upload_labels(
    catalog: Seq<GistFile>,
    file: GistFileRef,
    local_name: Option<Seq<char>>,
    local_time: Option<Seq<char>>,
) -> (Seq<char>, Seq<char>) {
    match catalog_entry(catalog, file.gist_id@, file.filename@) {
        Some(g) => diff_labels_spec(local_name, local_time, g),
        None => (
            "local: "@ + match local_name {
                Some(n) => n,
                None => "(none)"@,
            } + " ("@ + match local_time {
                Some(t) => t,
                None => "—"@,
            } + ")"@,
            "gist "@ + file.gist_id@ + " / "@ + file.filename@ + " ("@ + gist_time_text(Seq::empty())
                + ")"@,
        ),
    }
}

/// Every gist file's update time has its first 16 bytes end on a character boundary, as
/// the time label that cuts them there needs.
pub open spec fn times_cut_cleanly(catalog: Seq<GistFile>) -> bool {
    forall|i: int|
        0 <= i < catalog.len() ==> (byte_len(#[trigger] catalog[i].updated_at@) >= 16
            ==> boundary_at_16(catalog[i].updated_at@))
}

/// Stage the upload diff of the local file at `local_path` (modified as `local_time` says,
/// when that is known) against `file`: the gist file is always fetched afresh, raw URL filled
/// in from the gist list when the request lacks it; the two labels name the local file and
/// the gist file as the list has it.
pub fn stage_upload_preview(
    catalog: &[GistFile],
    local_path: &str,
    local_time: Option<&str>,
    file: GistFileRef,
) -> (r: (GistFileRef, String, String))
    requires
        times_cut_cleanly(catalog@),
    ensures
        filled(catalog@, file, r.0),
        (r.1@, r.2@) == upload_labels(
            catalog@,
            file,
            path_file_name(local_path@),
            opt_str_view(local_time),
        ),
{
    let name = file_name_of(local_path);
    let local_name: Option<&str> = match &name {
        Some(n) => Some(n.as_str()),
        None => None,
    };
    let (local_label, gist_label) = match find_entry(
        catalog,
        file.gist_id.as_str(),
        file.filename.as_str(),
    ) {
        Some(i) => diff_labels(local_name, local_time, &catalog[i]),
        None => {
            let bare = GistFile {
                gist_id: owned(file.gist_id.as_str()),
                filename: owned(file.filename.as_str()),
                description: String::new(),
                public: false,
                updated_at: String::new(),
                created_at: String::new(),
                owner_login: String::new(),
                fork_of_id: None,
                raw_url: copy_opt(&file.raw_url),
            };
            proof {
                reveal_strlit("");
            }
            diff_labels(local_name, local_time, &bare)
        },
    };
    (fill_raw_url(catalog, file), local_label, gist_label)
}

} // verus!
