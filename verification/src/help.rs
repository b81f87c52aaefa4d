//! The help screen: its topics, their bodies, the topic index and how keys move through it.

use vstd::prelude::*;
use crate::detail_keys::{index_at_spec, point_in, point_in_spec, PaneHit};
use crate::keys::{Key, NavAction, PAGE_SCROLL};
use crate::text::{lines_of, owned, push_char, push_str, split_lines, strings_view};

verus! {

/// A help topic.
#[derive(Debug, Clone, Copy, PartialEq, Eq, Structural)]
pub enum HelpTopic {
    List,
    Pins,
    GistManager,
    GistDetail,
    Revisions,
    Diff,
    Preview,
    Upload,
    Config,
    General,
    About,
}

/// Number of topics.
pub const TOPIC_COUNT: usize = 11;

/// The topics, in index order.
pub open spec fn topics() -> Seq<HelpTopic> {
    seq![
        HelpTopic::List,
        HelpTopic::Pins,
        HelpTopic::GistManager,
        HelpTopic::GistDetail,
        HelpTopic::Revisions,
        HelpTopic::Diff,
        HelpTopic::Preview,
        HelpTopic::Upload,
        HelpTopic::Config,
        HelpTopic::General,
        HelpTopic::About
    ]
}

/// A topic's title.
pub open spec fn title_text(t: HelpTopic) -> Seq<char> {
    match t {
        HelpTopic::List => "List screen"@,
        HelpTopic::Pins => "Pinned mappings"@,
        HelpTopic::GistManager => "Gist manager"@,
        HelpTopic::GistDetail => "Gist details"@,
        HelpTopic::Revisions => "Revision history"@,
        HelpTopic::Diff => "Diff"@,
        HelpTopic::Preview => "Preview"@,
        HelpTopic::Upload => "Upload confirm"@,
        HelpTopic::Config => "Settings"@,
        HelpTopic::General => "General"@,
        HelpTopic::About => "About"@,
    }
}

impl HelpTopic {
    /// Every topic, in index order.
    pub fn all() -> (v: Vec<HelpTopic>)
        ensures
            v@ == topics(),
    {
        vec![
            HelpTopic::List,
        HelpTopic::Pins,
        HelpTopic::GistManager,
        HelpTopic::GistDetail,
        HelpTopic::Revisions,
        HelpTopic::Diff,
        HelpTopic::Preview,
        HelpTopic::Upload,
        HelpTopic::Config,
        HelpTopic::General,
        HelpTopic::About
        ]
    }

    /// The topic's title.
    pub fn title(self) -> (s: &'static str)
        ensures
            s@ == title_text(self),
    {
        match self {
            HelpTopic::List => "List screen",
            HelpTopic::Pins => "Pinned mappings",
            HelpTopic::GistManager => "Gist manager",
            HelpTopic::GistDetail => "Gist details",
            HelpTopic::Revisions => "Revision history",
            HelpTopic::Diff => "Diff",
            HelpTopic::Preview => "Preview",
            HelpTopic::Upload => "Upload confirm",
            HelpTopic::Config => "Settings",
            HelpTopic::General => "General",
            HelpTopic::About => "About",
        }
    }
}

/// The key that opens a topic from the index.
pub open spec fn shortcut_spec(t: HelpTopic) -> char {
    match t {
        HelpTopic::List => '1',
        HelpTopic::Pins => '2',
        HelpTopic::GistManager => '3',
        HelpTopic::GistDetail => '4',
        HelpTopic::Revisions => '5',
        HelpTopic::Diff => '6',
        HelpTopic::Preview => '7',
        HelpTopic::Upload => '8',
        HelpTopic::Config => '9',
        HelpTopic::General => 'g',
        HelpTopic::About => '0',
    }
}

/// The index shortcut of `topic`.
pub fn help_index_shortcut(topic: HelpTopic) -> (c: char)
    ensures
        c == shortcut_spec(topic),
{
    match topic {
        HelpTopic::List => '1',
        HelpTopic::Pins => '2',
        HelpTopic::GistManager => '3',
        HelpTopic::GistDetail => '4',
        HelpTopic::Revisions => '5',
        HelpTopic::Diff => '6',
        HelpTopic::Preview => '7',
        HelpTopic::Upload => '8',
        HelpTopic::Config => '9',
        HelpTopic::General => 'g',
        HelpTopic::About => '0',
    }
}

/// The topic an index shortcut opens, if `key` is one.
pub open spec fn topic_for_key(key: char) -> Option<HelpTopic> {
    if key == '1' {
        Some(HelpTopic::List)
    } else if key == '2' {
        Some(HelpTopic::Pins)
    } else if key == '3' {
        Some(HelpTopic::GistManager)
    } else if key == '4' {
        Some(HelpTopic::GistDetail)
    } else if key == '5' {
        Some(HelpTopic::Revisions)
    } else if key == '6' {
        Some(HelpTopic::Diff)
    } else if key == '7' {
        Some(HelpTopic::Preview)
    } else if key == '8' {
        Some(HelpTopic::Upload)
    } else if key == '9' {
        Some(HelpTopic::Config)
    } else if key == 'g' {
        Some(HelpTopic::General)
    } else if key == '0' {
        Some(HelpTopic::About)
    } else {
        None
    }
}

/// The topic an index shortcut opens, if `key` is one.
pub fn help_topic_for_index_shortcut(key: char) -> (t: Option<HelpTopic>)
    ensures
        t == topic_for_key(key),
{
    if key == '1' {
        Some(HelpTopic::List)
    } else if key == '2' {
        Some(HelpTopic::Pins)
    } else if key == '3' {
        Some(HelpTopic::GistManager)
    } else if key == '4' {
        Some(HelpTopic::GistDetail)
    } else if key == '5' {
        Some(HelpTopic::Revisions)
    } else if key == '6' {
        Some(HelpTopic::Diff)
    } else if key == '7' {
        Some(HelpTopic::Preview)
    } else if key == '8' {
        Some(HelpTopic::Upload)
    } else if key == '9' {
        Some(HelpTopic::Config)
    } else if key == 'g' {
        Some(HelpTopic::General)
    } else if key == '0' {
        Some(HelpTopic::About)
    } else {
        None
    }
}

/// The body text of a topic (the About topic is built from the build's metadata instead).
pub open spec fn body_text(topic: HelpTopic) -> Seq<char> {
    match topic {
        HelpTopic::List => "\
Navigation
  Tab        switch pane (Local / Gists)
  1 / 2      jump to the Local / Gist pane
  Up/Down    move the selection (also j / k)
  Left/Right scroll the selected long row horizontally (also h / l)
  Ctrl+b/f   page up / down by 10 (also PageUp / PageDown)

List screen
  Footer     shows the primary screen actions; narrow terminals keep whole hints and the leave key
  r          toggle recursive file discovery (includes hidden paths; skips configured dirs)
  /          filter the focused pane (Local = path/filename, Gist = description/id)
             while filtering: type to match · ↑↓ move · PgUp/PgDn page · Tab apply + switch pane
             · Enter apply · Esc clear · ←/→/Home/End move · Del
  v          cycle gist visibility: all / public / secret / starred / forked
  *          star / unstar the selected gist
             (others' gists are read-only: preview, diff, download, browser — not pin/upload/delete;
              open gist detail to fork with F)
  s          cycle the focused pane's sort: match / name / recent
  t          toggle row view: description / id
  T          toggle light/dark colour theme (global; saved to config)
  a          flip which pane drives match ranking (anchor); the other pane
             re-ranks against the anchor's selection (focus stays put)
             (📌 = pinned pair · bold = same filename)

Actions (on the selected local file + gist)
  Enter      diff the local file against the gist; direction follows the focused
             pane — Gist pane = download view, Local pane = upload view
             (--- old / +++ new; local label = yellow, gist label = blue)
  Space      preview the gist file's content (R in preview to force-refresh;
             blocked for images/binary — use d to download instead)
  H          open revision history for the selected gist file
  d          download the gist into the cwd
  u          upload the local file into the gist
  n          create a new gist from the local file (type a description, then s/p)
  p          pin / unpin the local <-> gist pair
  P          view / manage all pinned mappings (sync status + s/u/d/x)
  S          smart-sync the selected pinned pair (push/pull by modified time)
  X          remove the selected file from its gist (y/n confirm)
  g          open the gist manager (edit description, delete gist)
  e          edit the local file in $EDITOR
  y          copy the selected gist's URL to the system clipboard

Mouse (on by default; disable with mouse = false in config or --no-mouse)
  Wheel      scroll the focused list or content pane
  Click      select the clicked row (List panes also switch focus)
  Dbl-click  open the clicked row (diff / detail / pin diff / preview)
  Tab click  switch Files / Comments on the Gist details screen
  [✕] btn    close / go back on any pop-up screen
  Top bar    click (g)ists / (P)ins / (C)onfig / (?)Help (top-right, every screen)
  Right-click  open the context menu at the click (same as ;)
  ; / Ctrl+p   open the menu / command palette from the keyboard (see General)"@,
        HelpTopic::Pins => r#"  Up/Down    move between pins (also j / k)
  PageUp/Dn  page by 10 (also Ctrl+b / Ctrl+f)
  Left/Right scroll the selected long local path horizontally (also h / l; ~ = home)
  /          filter pins by path or filename (↑↓ move · PgUp/PgDn page · Enter apply · Esc clear)
             ←/→/Home/End move the text cursor · Del deletes ahead
  o          cycle sort: default / local path / gist filename
  Enter      diff the selected pair (then d pull / u push from the diff)
  s          smart-sync (newer side wins; skips if already identical)
  u          force push  (upload local → gist)
  d          force pull  (download gist → local, diff + y/n confirm)
  x          unpin the selected pair
  Footer     shows sync actions; the status row explains the glyphs
  status     ✓ synced · ↑ local newer · ↓ remote newer · ✕ missing · ? unknown
  Each row shows (local <age> · gist <age>) relative modification times.
"#@,
        HelpTopic::GistManager => r#"  Footer     shows the primary screen actions; narrow terminals keep whole hints and the leave key
  Up/Down    move between gists (also j / k)
  PageUp/Dn  page by 10 (also Ctrl+b / Ctrl+f)
  Left/Right scroll the selected long description horizontally (also h / l)
  /          filter gists by description or id (↑↓ move · PgUp/PgDn page · Enter apply · Esc clear)
  s          cycle sort: updated / created
  v          cycle visibility: all / public / secret / starred / forked
  *          star / unstar the selected gist
  Enter      open the gist detail view (info, file list, comments)
  o          open the gist in your web browser
  y          copy the gist's URL to the system clipboard
  H          open revision history (browse, diff, restore)
  q / Esc    back to the list
             (edit description, compact, delete: gist detail only, owned gists)
  Rows show ☆ N (stargazers), ⑂ N (forks), 💬 N (comments) when non-zero;
  ★ prefix = you starred it; ⑂ prefix = this gist is a fork.
"#@,
        HelpTopic::GistDetail => "\
  Tab        switch tab: Files / Comments (Comments shows its total; opens on Files)
  Up/Down    move the file cursor (Files tab) or scroll comments (also j / k)
  PageUp/Dn  page comments / file cursor by 10 (also Ctrl+b / Ctrl+f)
  m          load 30 older comments (Comments tab; also click the top line)
  Enter      preview the cursor-selected file (file list focused; blocked for binary)
  1-9        preview the content of the Nth file (full-screen; R refresh, q back)
             rows show each file's size and type; non-text files are tagged binary
  H          open revision history for this gist (target = cursor file)
  *          star / unstar this gist
  o          open the gist in your web browser
  y          copy the gist's URL to the system clipboard
  q / Esc    back to the gist manager
  Info line shows ☆ N (stargazers), ⑂ N (forks), 💬 N (comments) when non-zero
  Owned gists only:
  e          edit the gist description (Enter apply, Esc cancel)
             ←/→/Home/End move the text cursor · Del deletes ahead
  c          compact revisions (y/n confirm; gist info shown as context)
  X          delete the entire gist and all its files (y/n confirm)
  Others' gists:
  F          fork into your account"@,
        HelpTopic::Revisions => "\
  Up/Down    move between revisions (also j / k; newest first; row 0 = current)
  PageUp/Dn  page by 10 (also Ctrl+b / Ctrl+f)
  Left/Right scroll the selected long row horizontally (also h / l)
  Enter      diff this revision vs its parent (incremental; initial = all additions)
  F          cycle the target file (multi-file gists; wraps)
  D          diff the target file: selected revision vs current (read-only; no download/upload)
  r          restore the target file from the selected revision (y/n confirm)
  q / Esc    back"@,
        HelpTopic::Diff => "\
  Up/Down/Left/Right  scroll the diff (also j / k / h / l; Left/Right only when wrap is off)
  PageUp/Dn  scroll the diff by 10 lines (also Ctrl+b / Ctrl+f)
  w          toggle soft line wrapping (remembered for the session)
  c          toggle context: configured radius <-> full file (remembered)
  d / u      download / upload from the diff
  syntax     unchanged context lines are syntax-highlighted by file type
  newline    a file-final-newline-only difference counts as identical
             (set ignore_trailing_newline = false for byte-exact diffs)
  Esc / q    back"@,
        HelpTopic::Preview => "\
  Up/Down/Left/Right  scroll (also j / k / h / l; Left/Right only when wrap is off)
  PageUp/Dn  scroll by 10 lines (also Ctrl+b / Ctrl+f)
  w          toggle soft line wrapping (remembered for the session)
  y          copy the gist URL to the clipboard
  Y          copy the file content to the clipboard
  syntax     known file types are syntax-highlighted
  R          re-fetch the content
  Esc / q    back"@,
        HelpTopic::Upload => "\
  y          confirm and execute the upload
  n / Esc    cancel the upload
  e          edit / redact the upload content in $EDITOR before upload
             (GUI editors: the diff updates live while the editor stays open;
             y/e wait until you close it — n still cancels immediately)
  p          (JSON only) toggle pretty-print formatting
  s          (JSON only) toggle recursive key sorting"@,
        HelpTopic::Config => "\
Settings (C, top-bar (C)onfig, or Ctrl+p → Open settings)
  Up/Down    move between fields (also j / k)
  Enter/Space  toggle a boolean, or increase a number
  h / l      decrease / increase (also ← / →)
  Esc / q    close (opening Settings never writes config by itself —
             values are saved only after you change a field)

Fields
  Theme                  dark / light (also global T)
  Mouse support          on / off (session still respects --no-mouse)
  Check for updates      on / off (session still respects --no-update-check)
  Show full diff         on / off (opens Diff expanded; c still toggles it)
  Ignore trailing newline  on / off (diff + overwrite confirm)
  Recursive scan depth   0–20 (r recursive discovery)
  Diff context lines     0–50 (c in Diff still toggles full vs this radius)

File-only: skip_dirs — ~/.config/gistui/config.toml (or $XDG_CONFIG_HOME)"@,
        HelpTopic::General => "\
  Esc / q    close an overlay; from the list, press twice to quit the app
  ?          show this help
  Tab        in this help, open the topic index (1-9 / g / 0 jump straight to a topic)
  C          open Settings (flat list of preferences; also Ctrl+p)
  ;          context menu (actions valid for the current screen + selection)
  Ctrl+p     command palette (all actions + cross-screen navigation; type to filter)
  T          toggle light/dark colour theme (saved to config)
  Up/Down    scroll this help text
  NO_COLOR   set this env var to disable syntax highlighting (preview + diff)"@,
        HelpTopic::About => Seq::empty(),
    }
}

/// The body text of a topic other than About.
pub fn help_topic_body(topic: HelpTopic) -> (s: &'static str)
    requires
        topic != HelpTopic::About,
    ensures
        s@ == body_text(topic),
{
    match topic {
        HelpTopic::List => "\
Navigation
  Tab        switch pane (Local / Gists)
  1 / 2      jump to the Local / Gist pane
  Up/Down    move the selection (also j / k)
  Left/Right scroll the selected long row horizontally (also h / l)
  Ctrl+b/f   page up / down by 10 (also PageUp / PageDown)

List screen
  Footer     shows the primary screen actions; narrow terminals keep whole hints and the leave key
  r          toggle recursive file discovery (includes hidden paths; skips configured dirs)
  /          filter the focused pane (Local = path/filename, Gist = description/id)
             while filtering: type to match · ↑↓ move · PgUp/PgDn page · Tab apply + switch pane
             · Enter apply · Esc clear · ←/→/Home/End move · Del
  v          cycle gist visibility: all / public / secret / starred / forked
  *          star / unstar the selected gist
             (others' gists are read-only: preview, diff, download, browser — not pin/upload/delete;
              open gist detail to fork with F)
  s          cycle the focused pane's sort: match / name / recent
  t          toggle row view: description / id
  T          toggle light/dark colour theme (global; saved to config)
  a          flip which pane drives match ranking (anchor); the other pane
             re-ranks against the anchor's selection (focus stays put)
             (📌 = pinned pair · bold = same filename)

Actions (on the selected local file + gist)
  Enter      diff the local file against the gist; direction follows the focused
             pane — Gist pane = download view, Local pane = upload view
             (--- old / +++ new; local label = yellow, gist label = blue)
  Space      preview the gist file's content (R in preview to force-refresh;
             blocked for images/binary — use d to download instead)
  H          open revision history for the selected gist file
  d          download the gist into the cwd
  u          upload the local file into the gist
  n          create a new gist from the local file (type a description, then s/p)
  p          pin / unpin the local <-> gist pair
  P          view / manage all pinned mappings (sync status + s/u/d/x)
  S          smart-sync the selected pinned pair (push/pull by modified time)
  X          remove the selected file from its gist (y/n confirm)
  g          open the gist manager (edit description, delete gist)
  e          edit the local file in $EDITOR
  y          copy the selected gist's URL to the system clipboard

Mouse (on by default; disable with mouse = false in config or --no-mouse)
  Wheel      scroll the focused list or content pane
  Click      select the clicked row (List panes also switch focus)
  Dbl-click  open the clicked row (diff / detail / pin diff / preview)
  Tab click  switch Files / Comments on the Gist details screen
  [✕] btn    close / go back on any pop-up screen
  Top bar    click (g)ists / (P)ins / (C)onfig / (?)Help (top-right, every screen)
  Right-click  open the context menu at the click (same as ;)
  ; / Ctrl+p   open the menu / command palette from the keyboard (see General)",
        HelpTopic::Pins => r#"  Up/Down    move between pins (also j / k)
  PageUp/Dn  page by 10 (also Ctrl+b / Ctrl+f)
  Left/Right scroll the selected long local path horizontally (also h / l; ~ = home)
  /          filter pins by path or filename (↑↓ move · PgUp/PgDn page · Enter apply · Esc clear)
             ←/→/Home/End move the text cursor · Del deletes ahead
  o          cycle sort: default / local path / gist filename
  Enter      diff the selected pair (then d pull / u push from the diff)
  s          smart-sync (newer side wins; skips if already identical)
  u          force push  (upload local → gist)
  d          force pull  (download gist → local, diff + y/n confirm)
  x          unpin the selected pair
  Footer     shows sync actions; the status row explains the glyphs
  status     ✓ synced · ↑ local newer · ↓ remote newer · ✕ missing · ? unknown
  Each row shows (local <age> · gist <age>) relative modification times.
"#,
        HelpTopic::GistManager => r#"  Footer     shows the primary screen actions; narrow terminals keep whole hints and the leave key
  Up/Down    move between gists (also j / k)
  PageUp/Dn  page by 10 (also Ctrl+b / Ctrl+f)
  Left/Right scroll the selected long description horizontally (also h / l)
  /          filter gists by description or id (↑↓ move · PgUp/PgDn page · Enter apply · Esc clear)
  s          cycle sort: updated / created
  v          cycle visibility: all / public / secret / starred / forked
  *          star / unstar the selected gist
  Enter      open the gist detail view (info, file list, comments)
  o          open the gist in your web browser
  y          copy the gist's URL to the system clipboard
  H          open revision history (browse, diff, restore)
  q / Esc    back to the list
             (edit description, compact, delete: gist detail only, owned gists)
  Rows show ☆ N (stargazers), ⑂ N (forks), 💬 N (comments) when non-zero;
  ★ prefix = you starred it; ⑂ prefix = this gist is a fork.
"#,
        HelpTopic::GistDetail => "\
  Tab        switch tab: Files / Comments (Comments shows its total; opens on Files)
  Up/Down    move the file cursor (Files tab) or scroll comments (also j / k)
  PageUp/Dn  page comments / file cursor by 10 (also Ctrl+b / Ctrl+f)
  m          load 30 older comments (Comments tab; also click the top line)
  Enter      preview the cursor-selected file (file list focused; blocked for binary)
  1-9        preview the content of the Nth file (full-screen; R refresh, q back)
             rows show each file's size and type; non-text files are tagged binary
  H          open revision history for this gist (target = cursor file)
  *          star / unstar this gist
  o          open the gist in your web browser
  y          copy the gist's URL to the system clipboard
  q / Esc    back to the gist manager
  Info line shows ☆ N (stargazers), ⑂ N (forks), 💬 N (comments) when non-zero
  Owned gists only:
  e          edit the gist description (Enter apply, Esc cancel)
             ←/→/Home/End move the text cursor · Del deletes ahead
  c          compact revisions (y/n confirm; gist info shown as context)
  X          delete the entire gist and all its files (y/n confirm)
  Others' gists:
  F          fork into your account",
        HelpTopic::Revisions => "\
  Up/Down    move between revisions (also j / k; newest first; row 0 = current)
  PageUp/Dn  page by 10 (also Ctrl+b / Ctrl+f)
  Left/Right scroll the selected long row horizontally (also h / l)
  Enter      diff this revision vs its parent (incremental; initial = all additions)
  F          cycle the target file (multi-file gists; wraps)
  D          diff the target file: selected revision vs current (read-only; no download/upload)
  r          restore the target file from the selected revision (y/n confirm)
  q / Esc    back",
        HelpTopic::Diff => "\
  Up/Down/Left/Right  scroll the diff (also j / k / h / l; Left/Right only when wrap is off)
  PageUp/Dn  scroll the diff by 10 lines (also Ctrl+b / Ctrl+f)
  w          toggle soft line wrapping (remembered for the session)
  c          toggle context: configured radius <-> full file (remembered)
  d / u      download / upload from the diff
  syntax     unchanged context lines are syntax-highlighted by file type
  newline    a file-final-newline-only difference counts as identical
             (set ignore_trailing_newline = false for byte-exact diffs)
  Esc / q    back",
        HelpTopic::Preview => "\
  Up/Down/Left/Right  scroll (also j / k / h / l; Left/Right only when wrap is off)
  PageUp/Dn  scroll by 10 lines (also Ctrl+b / Ctrl+f)
  w          toggle soft line wrapping (remembered for the session)
  y          copy the gist URL to the clipboard
  Y          copy the file content to the clipboard
  syntax     known file types are syntax-highlighted
  R          re-fetch the content
  Esc / q    back",
        HelpTopic::Upload => "\
  y          confirm and execute the upload
  n / Esc    cancel the upload
  e          edit / redact the upload content in $EDITOR before upload
             (GUI editors: the diff updates live while the editor stays open;
             y/e wait until you close it — n still cancels immediately)
  p          (JSON only) toggle pretty-print formatting
  s          (JSON only) toggle recursive key sorting",
        HelpTopic::Config => "\
Settings (C, top-bar (C)onfig, or Ctrl+p → Open settings)
  Up/Down    move between fields (also j / k)
  Enter/Space  toggle a boolean, or increase a number
  h / l      decrease / increase (also ← / →)
  Esc / q    close (opening Settings never writes config by itself —
             values are saved only after you change a field)

Fields
  Theme                  dark / light (also global T)
  Mouse support          on / off (session still respects --no-mouse)
  Check for updates      on / off (session still respects --no-update-check)
  Show full diff         on / off (opens Diff expanded; c still toggles it)
  Ignore trailing newline  on / off (diff + overwrite confirm)
  Recursive scan depth   0–20 (r recursive discovery)
  Diff context lines     0–50 (c in Diff still toggles full vs this radius)

File-only: skip_dirs — ~/.config/gistui/config.toml (or $XDG_CONFIG_HOME)",
        HelpTopic::General => "\
  Esc / q    close an overlay; from the list, press twice to quit the app
  ?          show this help
  Tab        in this help, open the topic index (1-9 / g / 0 jump straight to a topic)
  C          open Settings (flat list of preferences; also Ctrl+p)
  ;          context menu (actions valid for the current screen + selection)
  Ctrl+p     command palette (all actions + cross-screen navigation; type to filter)
  T          toggle light/dark colour theme (saved to config)
  Up/Down    scroll this help text
  NO_COLOR   set this env var to disable syntax highlighting (preview + diff)",
        HelpTopic::About => "",
    }
}

/// State of the help screen: the topic shown, whether the topic index is open and which row
/// of it is selected, and how far the body is scrolled.
#[derive(Debug, Clone, Copy, PartialEq, Eq, Structural)]
pub struct HelpState {
    pub topic: HelpTopic,
    pub index_open: bool,
    pub index_sel: usize,
    pub scroll: u16,
}

impl HelpState {
    /// The first topic, index closed, nothing scrolled.
    pub fn new() -> (h: HelpState)
        ensures
            h == (HelpState { topic: HelpTopic::List, index_open: false, index_sel: 0, scroll: 0 }),
    {
        HelpState { topic: HelpTopic::List, index_open: false, index_sel: 0, scroll: 0 }
    }
}

impl Default for HelpState {
    fn default() -> (h: HelpState)
        ensures
            h == (HelpState { topic: HelpTopic::List, index_open: false, index_sel: 0, scroll: 0 }),
    {
        HelpState::new()
    }
}

/// Rows a mouse-wheel tick moves: three lines of a topic body, one row of the index.
pub fn wheel_step(help: &HelpState) -> (n: usize)
    ensures
        n == (if help.index_open {
            1usize
        } else {
            3usize
        }),
{
    if help.index_open {
        1
    } else {
        3
    }
}

/// Position of `t` in the index.
pub open spec fn topic_index(t: HelpTopic) -> usize {
    match t {
        HelpTopic::List => 0,
        HelpTopic::Pins => 1,
        HelpTopic::GistManager => 2,
        HelpTopic::GistDetail => 3,
        HelpTopic::Revisions => 4,
        HelpTopic::Diff => 5,
        HelpTopic::Preview => 6,
        HelpTopic::Upload => 7,
        HelpTopic::Config => 8,
        HelpTopic::General => 9,
        HelpTopic::About => 10,
    }
}

fn position_of(t: HelpTopic) -> (i: usize)
    ensures
        i == topic_index(t),
{
    match t {
        HelpTopic::List => 0,
        HelpTopic::Pins => 1,
        HelpTopic::GistManager => 2,
        HelpTopic::GistDetail => 3,
        HelpTopic::Revisions => 4,
        HelpTopic::Diff => 5,
        HelpTopic::Preview => 6,
        HelpTopic::Upload => 7,
        HelpTopic::Config => 8,
        HelpTopic::General => 9,
        HelpTopic::About => 10,
    }
}

/// The help screen after `key`, and whether the key leaves it. In the index: Enter opens
/// the selected topic, a shortcut opens its topic. On a topic: Tab opens the index at the
/// current topic, a shortcut switches topic. Opening a topic starts it unscrolled. Esc, `q`
/// and `?` leave.
pub open spec fn help_key_spec(h: HelpState, key: Key) -> (HelpState, bool) {
    let leave = key == Key::Esc || key == Key::Char('q') || key == Key::Char('?');
    let next = if h.index_open {
        match key {
            Key::Enter => HelpState {
                topic: if h.index_sel < TOPIC_COUNT {
                    topics()[h.index_sel as int]
                } else {
                    h.topic
                },
                index_open: false,
                scroll: 0,
                ..h
            },
            Key::Char(c) => match topic_for_key(c) {
                Some(t) => HelpState { topic: t, index_open: false, scroll: 0, ..h },
                None => h,
            },
            _ => h,
        }
    } else {
        match key {
            Key::Tab => HelpState { index_sel: topic_index(h.topic), index_open: true, ..h },
            Key::Char(c) => match topic_for_key(c) {
                Some(t) => HelpState { topic: t, scroll: 0, ..h },
                None => h,
            },
            _ => h,
        }
    };
    (next, leave)
}

/// Apply `key` to the help screen; returns whether it leaves the screen.
pub fn handle_key_help(help: &mut HelpState, key: Key) -> (leave: bool)
    requires
        old(help).index_sel < TOPIC_COUNT || !old(help).index_open,
    ensures
        (*final(help), leave) == help_key_spec(*old(help), key),
{
    let leave = key == Key::Esc || key == Key::Char('q') || key == Key::Char('?');
    if help.index_open {
        match key {
            Key::Enter => {
                let all = HelpTopic::all();
                help.topic = all[help.index_sel];
                help.index_open = false;
                help.scroll = 0;
            },
            Key::Char(c) => match help_topic_for_index_shortcut(c) {
                Some(t) => {
                    help.topic = t;
                    help.index_open = false;
                    help.scroll = 0;
                },
                None => {},
            },
            _ => {},
        }
    } else {
        match key {
            Key::Tab => {
                help.index_sel = position_of(help.topic);
                help.index_open = true;
            },
            Key::Char(c) => match help_topic_for_index_shortcut(c) {
                Some(t) => {
                    help.topic = t;
                    help.scroll = 0;
                },
                None => {},
            },
            _ => {},
        }
    }
    leave
}

/// Arrow and page navigation: in the index Up/Down move the selection (clamped); on a topic
/// they scroll the body, a page at a time for the page keys (saturating). Sideways moves are
/// not navigation here.
pub fn apply_navigation_help(help: &mut HelpState, action: NavAction) -> (r: bool)
    ensures
        if old(help).index_open {
            match action {
                NavAction::Up => r && *final(help) == HelpState {
                    index_sel: if old(help).index_sel == 0 {
                        0
                    } else {
                        (old(help).index_sel - 1) as usize
                    },
                    ..*old(help)
                },
                NavAction::Down => r && *final(help) == HelpState {
                    index_sel: if old(help).index_sel + 1 < TOPIC_COUNT {
                        (old(help).index_sel + 1) as usize
                    } else {
                        old(help).index_sel
                    },
                    ..*old(help)
                },
                _ => !r && *final(help) == *old(help),
            }
        } else {
            let sc = old(help).scroll as int;
            let moved = |d: int|
                (if sc + d < 0 {
                    0
                } else if sc + d > u16::MAX {
                    u16::MAX as int
                } else {
                    sc + d
                }) as u16;
            match action {
                NavAction::Up => r && *final(help) == HelpState { scroll: moved(-1), ..*old(help) },
                NavAction::Down => r && *final(help) == HelpState { scroll: moved(1), ..*old(help) },
                NavAction::PageUp => r && *final(help) == HelpState {
                    scroll: moved(-(PAGE_SCROLL as int)),
                    ..*old(help)
                },
                NavAction::PageDown => r && *final(help) == HelpState {
                    scroll: moved(PAGE_SCROLL as int),
                    ..*old(help)
                },
                _ => !r && *final(help) == *old(help),
            }
        },
{
    if help.index_open {
        match action {
            NavAction::Up => {
                if help.index_sel > 0 {
                    help.index_sel = help.index_sel - 1;
                }
            },
            NavAction::Down => {
                if help.index_sel < TOPIC_COUNT - 1 {
                    help.index_sel = help.index_sel + 1;
                }
            },
            _ => return false,
        }
    } else {
        match action {
            NavAction::Up => help.scroll = help.scroll.saturating_sub(1),
            NavAction::Down => help.scroll = help.scroll.saturating_add(1),
            NavAction::PageUp => help.scroll = help.scroll.saturating_sub(PAGE_SCROLL),
            NavAction::PageDown => help.scroll = help.scroll.saturating_add(PAGE_SCROLL),
            _ => return false,
        }
    }
    true
}

/// Select the clicked topic-index row; `true` when a row was hit.
pub fn click_select_help(help: &mut HelpState, col: u16, row: u16, pane: Option<PaneHit>) -> (r: bool)
    ensures
        match pane {
            Some(hit) => if point_in_spec(hit.rect, col as int, row as int) {
                match index_at_spec(hit, row as int, TOPIC_COUNT as nat) {
                    Some(i) => r && *final(help) == HelpState { index_sel: i, ..*old(help) },
                    None => !r && *final(help) == *old(help),
                }
            } else {
                !r && *final(help) == *old(help)
            },
            None => !r && *final(help) == *old(help),
        },
{
    if let Some(hit) = pane {
        if point_in(hit.rect, col, row) {
            if let Some(idx) = hit.index_at(row, TOPIC_COUNT) {
                help.index_sel = idx;
                return true;
            }
        }
    }
    false
}

/// Every topic's index shortcut opens that very topic.
pub proof fn law_each_shortcut_opens_its_topic(t: HelpTopic)
    ensures
        topic_for_key(shortcut_spec(t)) == Some(t),
        topics()[topic_index(t) as int] == t,
        topic_index(t) < TOPIC_COUNT,
{
}

/// Opening the index from a topic selects that topic's row, so Enter there reopens it.
pub proof fn law_index_round_trip(h: HelpState)
    requires
        !h.index_open,
    ensures
        ({
            let (opened, _) = help_key_spec(h, Key::Tab);
            let (back, leave) = help_key_spec(opened, Key::Enter);
            &&& opened.index_open
            &&& back.topic == h.topic
            &&& !back.index_open
            &&& !leave
        }),
{
}

/// Title of the topic index.
pub const HELP_INDEX_TITLE: &'static str = "Help — pick a topic (1-9,g,0 / ↑↓ Enter · Esc back)";

/// Row of the About topic that holds the clickable repository line.
pub const ABOUT_REPO_LINE: usize = 2;

/// One row of the topic index: its shortcut and the topic's title.
#[derive(Debug, Clone, PartialEq, Eq)]
pub struct HelpIndexItemVm {
    pub key: String,
    pub title: String,
}

/// What the help screen paints: the topic index, or a topic's lines.
#[derive(Debug, Clone, PartialEq, Eq)]
pub enum HelpModeVm {
    Index { items: Vec<HelpIndexItemVm>, selected: usize },
    Topic { title: String, lines: Vec<String>, scroll: u16, about_repo_line: Option<usize> },
}

/// The index rows' (shortcut, title) views.
pub open spec fn items_view(v: Seq<HelpIndexItemVm>) -> Seq<(Seq<char>, Seq<char>)> {
    v.map_values(|i: HelpIndexItemVm| (i.key@, i.title@))
}

/// The index rows: each topic's shortcut and title, in index order.
pub open spec fn index_items_spec() -> Seq<(Seq<char>, Seq<char>)> {
    Seq::new(TOPIC_COUNT as nat, |i: int| (seq![shortcut_spec(topics()[i])], title_text(topics()[i])))
}

/// The title bar of a topic.
pub open spec fn topic_title_spec(t: HelpTopic) -> Seq<char> {
    "Help · "@ + title_text(t) + " — Tab topics · ↑↓ scroll · Esc back"@
}

/// The help screen for `help`; `about_lines` are the About topic's lines (built from the
/// program's version and repository, which only the binary knows).
pub fn build_help_vm(help: &HelpState, about_lines: &[String]) -> (vm: HelpModeVm)
    ensures
        help.index_open ==> (vm matches HelpModeVm::Index { items, selected } && items_view(items@)
            == index_items_spec() && selected == help.index_sel),
        !help.index_open ==> (vm matches HelpModeVm::Topic { title, lines, scroll, about_repo_line }
            && title@ == topic_title_spec(help.topic) && scroll == help.scroll && (if help.topic
            == HelpTopic::About {
            strings_view(lines@) == strings_view(about_lines@) && about_repo_line == Some(
                ABOUT_REPO_LINE,
            )
        } else {
            strings_view(lines@) == lines_of(body_text(help.topic)) && about_repo_line.is_none()
        })),
{
    if help.index_open {
        let all = HelpTopic::all();
        let mut items: Vec<HelpIndexItemVm> = Vec::new();
        let mut i: usize = 0;
        while i < all.len()
            invariant
                all@ == topics(),
                i <= all@.len(),
                items_view(items@) == index_items_spec().take(i as int),
            decreases all@.len() - i,
        {
            let mut key = String::new();
            push_char(&mut key, help_index_shortcut(all[i]));
            let ghost prev = items@;
            items.push(HelpIndexItemVm { key, title: owned(all[i].title()) });
            assert(items_view(items@) =~= items_view(prev).push(
                (seq![shortcut_spec(topics()[i as int])], title_text(topics()[i as int])),
            ));
            assert(index_items_spec().take(i + 1) =~= index_items_spec().take(i as int).push(
                index_items_spec()[i as int],
            ));
            i = i + 1;
        }
        assert(index_items_spec().take(TOPIC_COUNT as int) =~= index_items_spec());
        return HelpModeVm::Index { items, selected: help.index_sel };
    }
    let mut title = owned("Help · ");
    push_str(&mut title, help.topic.title());
    push_str(&mut title, " — Tab topics · ↑↓ scroll · Esc back");
    if help.topic == HelpTopic::About {
        let mut lines: Vec<String> = Vec::new();
        let mut i: usize = 0;
        while i < about_lines.len()
            invariant
                i <= about_lines@.len(),
                strings_view(lines@) == strings_view(about_lines@).take(i as int),
            decreases about_lines@.len() - i,
        {
            let ghost prev = lines@;
            lines.push(about_lines[i].clone());
            assert(strings_view(lines@) =~= strings_view(prev).push(about_lines@[i as int]@));
            assert(strings_view(about_lines@).take(i + 1) =~= strings_view(about_lines@).take(
                i as int,
            ).push(about_lines@[i as int]@));
            i = i + 1;
        }
        assert(strings_view(about_lines@).take(about_lines@.len() as int) =~= strings_view(
            about_lines@,
        ));
        return HelpModeVm::Topic {
            title,
            lines,
            scroll: help.scroll,
            about_repo_line: Some(ABOUT_REPO_LINE),
        };
    }
    let lines = split_lines(help_topic_body(help.topic));
    HelpModeVm::Topic { title, lines, scroll: help.scroll, about_repo_line: None }
}

/// One mouse-wheel tick: one index row, or three lines of a topic body (saturating).
pub fn wheel_help(help: &mut HelpState, down: bool)
    ensures
        old(help).index_open ==> *final(help) == (HelpState {
            index_sel: if down {
                if old(help).index_sel + 1 < TOPIC_COUNT {
                    (old(help).index_sel + 1) as usize
                } else {
                    old(help).index_sel
                }
            } else if old(help).index_sel == 0 {
                0
            } else {
                (old(help).index_sel - 1) as usize
            },
            ..*old(help)
        }),
        !old(help).index_open ==> *final(help) == (HelpState {
            scroll: if down {
                if old(help).scroll + 3 > u16::MAX {
                    u16::MAX
                } else {
                    (old(help).scroll + 3) as u16
                }
            } else if old(help).scroll < 3 {
                0
            } else {
                (old(help).scroll - 3) as u16
            },
            ..*old(help)
        }),
{
    if help.index_open {
        apply_navigation_help(help, if down {
            NavAction::Down
        } else {
            NavAction::Up
        });
    } else {
        let step = wheel_step(help) as u16;
        help.scroll = if down {
            help.scroll.saturating_add(step)
        } else {
            help.scroll.saturating_sub(step)
        };
    }
}

} // verus!
