//! The fixed, ordered set of tabs.

use vstd::prelude::*;

verus! {

/// One tab: the label shown in the selector and the text shown while the
/// tab is selected.
#[derive(Clone, Debug)]
pub struct Tab {
    /// The label shown in the selector row.
    pub label: String,
    /// The static content, if the tab has any.
    pub content: Option<String>,
}

/// What a tab shows while selected: its content, or nothing where it has
/// none.
pub open spec fn tab_text(tab: Tab) -> Seq<char> {
    match tab.content {
        Some(text) => text@,
        None => Seq::empty(),
    }
}

/// A non-empty sequence of tabs that never changes once made.
pub struct TabSet {
    tabs: Vec<Tab>,
}

impl TabSet {
    #[verifier::type_invariant]
    pub(crate) open spec fn inv(self) -> bool {
        self@.len() >= 1
    }

    /// The tabs, in display order.
    pub closed spec fn view(&self) -> Seq<Tab> {
        self.tabs@
    }

    /// The label of the tab at `index`.
    pub open spec fn label_at(&self, index: int) -> Seq<char> {
        self@[index].label@
    }

    /// What the content region shows for `index`: the tab's content, or
    /// nothing where the tab has none or `index` names no tab.
    pub open spec fn content_at(&self, index: int) -> Seq<char> {
        if 0 <= index < self@.len() {
            tab_text(self@[index])
        } else {
            Seq::empty()
        }
    }

    /// Makes a tab set of the given tabs, or `None` where there are none.
    pub fn new(tabs: Vec<Tab>) -> (set: Option<TabSet>)
        ensures
            set.is_some() == (tabs@.len() >= 1),
            set.is_some() ==> set.unwrap()@ == tabs@,
    {
        if tabs.len() >= 1 {
            Some(TabSet { tabs })
        } else {
            None
        }
    }

    /// The dashboard's own three tabs: Home, Stats and About.
    pub fn standard() -> (set: TabSet)
        ensures
            set@.len() == 3,
            set.label_at(0) == "Home"@,
            set.label_at(1) == "Stats"@,
            set.label_at(2) == "About"@,
            set.content_at(0) == "Welcome to the Home tab."@,
            set.content_at(1) == "📊 Stats: Everything is running great!"@,
            set.content_at(2) == "🦀 About: This app is built with Rust + Ratatui."@,
    {
        let mut tabs: Vec<Tab> = Vec::new();
        tabs.push(
            Tab { label: "Home".to_string(), content: Some("Welcome to the Home tab.".to_string()) },
        );
        tabs.push(
            Tab {
                label: "Stats".to_string(),
                content: Some("📊 Stats: Everything is running great!".to_string()),
            },
        );
        tabs.push(
            Tab {
                label: "About".to_string(),
                content: Some("🦀 About: This app is built with Rust + Ratatui.".to_string()),
            },
        );
        TabSet { tabs }
    }

    /// The number of tabs, which is at least one.
    pub fn len(&self) -> (n: usize)
        ensures
            n == self@.len(),
            n >= 1,
    {
        proof {
            use_type_invariant(self);
        }
        self.tabs.len()
    }

    /// The label of the tab at `index`, or `None` where `index` names no
    /// tab.
    pub fn label(&self, index: usize) -> (label: Option<&str>)
        ensures
            label.is_some() == (index < self@.len()),
            label.is_some() ==> label.unwrap()@ == self.label_at(index as int),
    {
        if index < self.tabs.len() {
            Some(self.tabs[index].label.as_str())
        } else {
            None
        }
    }

    /// The text that the content region shows for `index`: empty where the
    /// tab has no content or `index` names no tab.
    pub fn content(&self, index: usize) -> (text: &str)
        ensures
            text@ == self.content_at(index as int),
    {
        proof {
            reveal_strlit("");
        }
        if index < self.tabs.len() {
            match &self.tabs[index].content {
                Some(text) => text.as_str(),
                None => "",
            }
        } else {
            ""
        }
    }
}

} // verus!
