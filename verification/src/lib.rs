use vstd::prelude::*;

pub mod chrome;
pub mod config;
pub mod config_screen;
pub mod confirm;
pub mod confirm_flow;
pub mod confirm_layout;
pub mod content_cache;
pub mod detail_keys;
pub mod detail_view;
pub mod diff;
pub mod diff_flow;
pub mod diff_screen;
pub mod diff_view;
pub mod keys;
pub mod domain;
pub mod gists_screen;
pub mod help;
pub mod hints;
pub mod labels;
pub mod outcomes;
pub mod palette_screen;
pub mod pins_screen;
pub mod preview;
pub mod list_filter;
pub mod list_keys;
pub mod list_pane;
pub mod list_split;
pub mod loop_step;
pub mod mouse;
pub mod list_view;
pub mod revision_keys;
pub mod revisions;
pub mod screens;
pub mod scroll;
pub mod settings;
pub mod state;
pub mod text;
pub mod text_fit;
pub mod theme;
pub mod view_model;

verus! {

} // verus!
