//! What one redraw shows, as plain values.

use vstd::prelude::*;
use crate::layout::{regions, Area, Regions, SELECTOR_HEIGHT};
use crate::selection::Dashboard;
use crate::tabs::TabSet;

verus! {

/// Title of the selector region.
pub const SELECTOR_TITLE: &'static str = "Tabs";

/// Title of the content region.
pub const CONTENT_TITLE: &'static str = "Content";

/// One label of the selector row.
#[derive(Clone, Debug)]
pub struct TabCell {
    /// The tab's label.
    pub label: String,
    /// Whether the tab is the selected one, which is drawn in the
    /// highlight style; the others are drawn in the normal style.
    pub highlighted: bool,
}

/// A complete frame: both regions, the selector row and the content text.
#[derive(Clone, Debug)]
pub struct Frame {
    /// Where the selector and the content are drawn.
    pub regions: Regions,
    /// The selector row: one cell per tab, in display order.
    pub cells: Vec<TabCell>,
    /// The text of the content region.
    pub content: String,
}

/// Whether `cells` is the selector row of `tabs` with the tab at `current`
/// selected: every tab's label, in order, and only that one highlighted.
pub open spec fn is_selector_row(cells: Seq<TabCell>, tabs: TabSet, current: nat) -> bool {
    &&& cells.len() == tabs@.len()
    &&& forall|i: int|
        0 <= i < cells.len() ==> (#[trigger] cells[i]).label@ == tabs.label_at(i)
            && cells[i].highlighted == (i == current)
}

/// Whether `frame` is the frame that shows `tabs` with the tab at `current`
/// selected on `area`: the selector in the top rows, the content region in
/// all the rows below, the selector row of the tabs, and the selected tab's
/// content.
pub open spec fn is_frame_of(frame: Frame, tabs: TabSet, current: nat, area: Area) -> bool {
    &&& frame.regions.selector.quad() == area.head(SELECTOR_HEIGHT as int)
    &&& frame.regions.content.quad() == area.tail(SELECTOR_HEIGHT as int)
    &&& is_selector_row(frame.cells@, tabs, current)
    &&& frame.content@ == tabs.content_at(current as int)
}

/// Builds the selector row of `tabs` with the tab at `current` selected.
/// Where `current` names no tab, no cell is highlighted.
pub fn selector_row(tabs: &TabSet, current: usize) -> (cells: Vec<TabCell>)
    ensures
        is_selector_row(cells@, *tabs, current as nat),
{
    let n: usize = tabs.len();
    let mut cells: Vec<TabCell> = Vec::new();
    let mut i: usize = 0;
    while i < n
        invariant
            n == tabs@.len(),
            i <= n,
            cells@.len() == i,
            forall|j: int|
                0 <= j < i ==> (#[trigger] cells@[j]).label@ == tabs.label_at(j)
                    && cells@[j].highlighted == (j == current),
        decreases n - i,
    {
        if let Some(label) = tabs.label(i) {
            cells.push(TabCell { label: label.to_string(), highlighted: i == current });
        }
        i = i + 1;
    }
    cells
}

/// Builds the frame that shows the dashboard's state on `area`.
pub fn compose(dashboard: &Dashboard, area: Area) -> (frame: Frame)
    ensures
        is_frame_of(frame, dashboard.tabs(), dashboard@.current, area),
{
    let tabs = dashboard.tab_set();
    let current: usize = dashboard.current();
    Frame {
        regions: regions(area),
        cells: selector_row(tabs, current),
        content: tabs.content(current).to_string(),
    }
}

} // verus!
