//! `Tab` — one labelled body inside a tabbed container. Each tab
//! carries its own title, icon, and pod list.

use crate::container::Pod;
use crate::icons::Icon;
use crate::text::{blank, is_blank};
use crate::vocab::Id;
use vstd::prelude::*;

verus! {

/// A tab's icon is present: its name or markup is not blank.
pub open spec fn icon_present(icon: Icon<'static>) -> bool {
    match icon {
        Icon::Name(s) => !blank(s@),
        Icon::Svg(s) => !blank(s@),
    }
}

pub struct Tab {
    /// Stable id used by the per-pane tab-drag routing. Pass a value
    /// that survives renames (e.g. `"position"`, not the title).
    id: Id,
    title: String,
    icon: Icon<'static>,
    pods: Vec<Pod>,
}

impl Tab {
    pub closed spec fn spec_id(&self) -> Id {
        self.id
    }

    pub closed spec fn spec_title(&self) -> Seq<char> {
        self.title@
    }

    pub closed spec fn spec_icon(&self) -> Icon<'static> {
        self.icon
    }

    pub closed spec fn spec_pods(&self) -> Seq<Pod> {
        self.pods@
    }

    /// A tab with a non-blank title and icon, and no pods yet.
    pub fn new(id: Id, title: &str, icon: Icon<'static>) -> (tab: Self)
        requires
            !blank(title@),
            icon_present(icon),
        ensures
            tab.spec_id() == id,
            tab.spec_title() == title@,
            tab.spec_icon() == icon,
            tab.spec_pods() == Seq::<Pod>::empty(),
    {
        Tab { id, title: title.to_owned(), icon, pods: Vec::new() }
    }

    /// Replace the tab's pod list.
    pub fn pods(self, pods: Vec<Pod>) -> (tab: Self)
        ensures
            tab.spec_id() == self.spec_id(),
            tab.spec_title() == self.spec_title(),
            tab.spec_icon() == self.spec_icon(),
            tab.spec_pods() == pods@,
    {
        Tab { id: self.id, title: self.title, icon: self.icon, pods }
    }

    /// The stable id passed to [`Tab::new`].
    pub fn id(&self) -> (id: Id)
        ensures
            id == self.spec_id(),
    {
        self.id
    }

    /// The tab's title.
    pub fn title(&self) -> (t: &str)
        ensures
            t@ == self.spec_title(),
    {
        self.title.as_str()
    }

    /// The tab's icon.
    pub fn icon(&self) -> (i: Icon<'static>)
        ensures
            i == self.spec_icon(),
    {
        self.icon
    }
}

/// Whether a tab icon is present.
pub fn tab_icon_is_present(icon: Icon<'static>) -> (r: bool)
    ensures
        r == icon_present(icon),
{
    match icon {
        Icon::Name(name) => !is_blank(name),
        Icon::Svg(svg) => !is_blank(svg),
    }
}

} // verus!
