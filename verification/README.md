# gistui

The logic of a terminal UI that keeps local files in step with GitHub gists, written in
Verus: every screen's keys, view models, layout arithmetic, text fitting and background-result
handling is an executable function whose `requires`/`ensures` Verus proves.

## Layout

- `src/` — the verified library.
  - `state.rs`: the shared state (`AppState`, the screens, the way back);
    `screens.rs`: what every screen answers alike (the help topic of `?`, the wheel step);
    `outcomes.rs`: applying what the keys ask for (raising and closing confirms, leaving,
    opening screens); `loop_step.rs`: the event loop's own decisions.
  - One module per screen: `list_keys`, `list_view`, `list_filter`, `list_split`,
    `list_pane` (List), `detail_keys`, `detail_view` (gist detail), `gists_screen`,
    `pins_screen`, `revision_keys`, `revisions`, `diff_flow`, `diff_screen`, `diff_view`,
    `confirm`, `confirm_flow`, `confirm_layout`, `preview`, `palette_screen`, `help`,
    `config_screen`, `settings`.
  - Shared helpers: `text` (character sequences), `text_fit` (width-aware fitting),
    `hints` (footer key hints), `chrome`, `labels`, `scroll`, `mouse`, `keys`, `theme`,
    `domain`, `content_cache`, `diff` (line diffs through the `similar` crate).
- `tests/` — tests of the library, run against the compiled crate.
- `app/` — the terminal front end: key and mouse input with crossterm, painting with
  ratatui, the directory scan and the event loop. Only the List and Help screens are wired.

Calls into `similar`, `ratatui` (cell widths) and std that Verus cannot read are made
through a few small trusted functions, each documented beside its contract.
