//! The persisted configuration the Settings screen edits.

use vstd::prelude::*;
use crate::domain::PinnedMapping;
use crate::theme::ThemeChoice;

verus! {

/// Every preference the Settings screen owns.
#[derive(Debug, Clone, Copy, PartialEq, Eq, Structural)]
pub struct Preferences {
    pub theme: ThemeChoice,
    pub mouse: bool,
    pub check_updates: bool,
    pub diff_show_full: bool,
    pub ignore_trailing_newline: bool,
    pub normalize_line_endings: bool,
    pub scan_depth: u32,
    pub diff_context: u32,
}

/// Recursive scan depth a fresh configuration starts with.
pub const DEFAULT_SCAN_DEPTH: u32 = 3;

/// Diff context radius a fresh configuration starts with.
pub const DEFAULT_DIFF_CONTEXT: u32 = 3;

/// The preferences of a fresh configuration.
pub open spec fn default_prefs() -> Preferences {
    Preferences {
        theme: ThemeChoice::Dark,
        mouse: true,
        check_updates: true,
        diff_show_full: false,
        ignore_trailing_newline: false,
        normalize_line_endings: false,
        scan_depth: DEFAULT_SCAN_DEPTH,
        diff_context: DEFAULT_DIFF_CONTEXT,
    }
}

impl Default for Preferences {
    fn default() -> (p: Self)
        ensures
            p == default_prefs(),
    {
        Preferences {
            theme: ThemeChoice::Dark,
            mouse: true,
            check_updates: true,
            diff_show_full: false,
            ignore_trailing_newline: false,
            normalize_line_endings: false,
            scan_depth: DEFAULT_SCAN_DEPTH,
            diff_context: DEFAULT_DIFF_CONTEXT,
        }
    }
}

/// The whole configuration file: preferences, pins, and directories the scan skips.
#[derive(Debug, Clone, PartialEq, Eq)]
pub struct AppConfig {
    pub prefs: Preferences,
    pub pinned: Vec<PinnedMapping>,
    pub skip_dirs: Vec<String>,
}

impl Default for AppConfig {
    fn default() -> (c: Self)
        ensures
            c.prefs == default_prefs(),
            c.pinned@.len() == 0,
            c.skip_dirs@.len() == 0,
    {
        AppConfig { prefs: Preferences::default(), pinned: Vec::new(), skip_dirs: Vec::new() }
    }
}

} // verus!
