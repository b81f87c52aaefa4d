//! View-model pieces the painters read.

use vstd::prelude::*;
use crate::text::{owned, push_str};

verus! {

/// A pane title as ordered parts, so a narrow pane can drop whole parts instead of clipping
/// mid-word. `segments[0]` is the head (pane number, name, counts, anchor marker); the segments
/// after it are state a keypress changed; `context` is shown last and is the only part that
/// shrinks. `short_head` is the head without the pane name, spent only when it buys back a
/// state segment.
#[derive(Debug, Clone, PartialEq, Eq)]
pub struct PaneTitleVm {
    pub segments: Vec<String>,
    pub short_head: Option<String>,
    pub context: Option<String>,
}

impl PaneTitleVm {
    /// A title that is only its head.
    pub fn new(head: String) -> (t: PaneTitleVm)
        ensures
            t.segments@.len() == 1,
            t.segments@[0] == head,
            t.short_head.is_none(),
            t.context.is_none(),
    {
        let mut segments = Vec::new();
        segments.push(head);
        PaneTitleVm { segments, short_head: None, context: None }
    }

    /// Append a state segment.
    pub fn push(&mut self, segment: &str)
        ensures
            final(self).segments@.len() == old(self).segments@.len() + 1,
            forall|i: int|
                0 <= i < old(self).segments@.len() ==> final(self).segments@[i] == old(
                    self,
                ).segments@[i],
            final(self).segments@.last()@ == segment@,
            final(self).short_head == old(self).short_head,
            final(self).context == old(self).context,
    {
        self.segments.push(owned(segment));
    }

    /// Append the filter segment `/query`, when a query is set.
    pub fn push_filter(&mut self, query: &str)
        ensures
            query@.len() == 0 ==> *final(self) == *old(self),
            query@.len() > 0 ==> final(self).segments@.len() == old(self).segments@.len() + 1,
            query@.len() > 0 ==> forall|i: int|
                0 <= i < old(self).segments@.len() ==> final(self).segments@[i] == old(
                    self,
                ).segments@[i],
            query@.len() > 0 ==> final(self).segments@.last()@ == "/"@ + query@,
            final(self).short_head == old(self).short_head,
            final(self).context == old(self).context,
    {
        if query.unicode_len() == 0 {
            return;
        }
        let mut s = owned("/");
        push_str(&mut s, query);
        self.segments.push(s);
    }
}

/// Whether a list pane has rows, and why not when it has none.
#[derive(Debug, Clone, Copy, PartialEq, Eq, Structural)]
pub enum ListPaneEmpty {
    HasRows,
    Loading,
    NoItems,
    NoFilterMatch,
}

/// How a row is set off from its neighbours.
#[derive(Debug, Clone, Copy, PartialEq, Eq, Structural)]
pub enum RowEmphasis {
    Plain,
    Strong,
    Danger,
}

/// One row of a list pane.
#[derive(Debug, Clone, PartialEq, Eq)]
pub struct RowVm {
    pub label: String,
    pub emphasis: RowEmphasis,
}

/// Everything a list pane paints: title, focus, rows and which one is selected, the selected
/// row's horizontal scroll, and the empty state.
#[derive(Debug, Clone, PartialEq, Eq)]
pub struct ListPaneVm {
    pub title: PaneTitleVm,
    pub focused: bool,
    pub selected: Option<usize>,
    pub empty: ListPaneEmpty,
    pub empty_message: Option<String>,
    pub rows: Vec<RowVm>,
    pub hscroll: u16,
    pub scrollbar: bool,
}

} // verus!
