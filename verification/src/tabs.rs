//! The list of open sessions: which tabs exist, in which order, and which
//! one is active.

use vstd::prelude::*;
use vstd::string::*;
use crate::text::{decimal, decimal_string, join2, trim, trimmed};

verus! {

/// The kinds of tab.
#[derive(Clone, Copy, Debug, PartialEq, Eq)]
pub enum TabKind {
    Client,
}

/// One open tab.
pub struct Tab {
    pub id: u64,
    pub title: String,
}

/// The open tabs in display order.
pub struct TabList {
    next_tab_id: u64,
    tabs: Vec<Tab>,
    active_tab: Option<u64>,
}

/// The list in mathematical values; a tab is its identifier and title.
pub struct TabListView {
    pub next_tab_id: u64,
    pub tabs: Seq<(u64, Seq<char>)>,
    pub active_tab: Option<u64>,
}

/// The tabs as identifier and title.
pub open spec fn tabs_view(tabs: Seq<Tab>) -> Seq<(u64, Seq<char>)> {
    tabs.map_values(|t: Tab| (t.id, t.title@))
}

/// The position of the first tab with identifier `id`, or the length of
/// the list where there is none.
pub open spec fn position_of(tabs: Seq<(u64, Seq<char>)>, id: u64) -> int
    decreases tabs.len(),
{
    if tabs.len() == 0 {
        0
    } else if tabs[0].0 == id {
        0
    } else {
        1 + position_of(tabs.drop_first(), id)
    }
}

/// The title of a new tab: the broker as entered, or a numbered name where
/// none was entered.
pub open spec fn new_title(broker: Seq<char>, id: u64) -> Seq<char> {
    if broker.len() == 0 {
        "Client "@ + decimal(id as nat)
    } else {
        broker
    }
}

/// The title of a copy of a tab.
pub open spec fn copy_title(title: Seq<char>) -> Seq<char> {
    title + " copy"@
}

impl TabListView {
    /// Whether every tab has an identifier of its own, below the next one
    /// to be given out.
    pub open spec fn wf(self) -> bool {
        &&& forall|i: int|
            0 <= i < self.tabs.len() ==> (#[trigger] self.tabs[i]).0 < self.next_tab_id
        &&& forall|i: int, j: int|
            0 <= i < j < self.tabs.len() ==> (#[trigger] self.tabs[i]).0 != (
            #[trigger] self.tabs[j]).0
    }

    /// Whether a tab with identifier `id` is open.
    pub open spec fn has(self, id: u64) -> bool {
        position_of(self.tabs, id) < self.tabs.len()
    }

    /// The list after a tab titled `title` was opened: it goes last, takes
    /// the next identifier and becomes the active one.
    pub open spec fn opened(self, title: Seq<char>) -> TabListView {
        TabListView {
            next_tab_id: (self.next_tab_id + 1) as u64,
            tabs: self.tabs.push((self.next_tab_id, title)),
            active_tab: Some(self.next_tab_id),
        }
    }

    /// The list after tab `id` was closed. Closing the active tab makes
    /// its left neighbour active, or the new first tab where it was the
    /// first, or none where it was the only one.
    pub open spec fn closed(self, id: u64) -> TabListView {
        let at = position_of(self.tabs, id);
        if at < self.tabs.len() {
            let rest = self.tabs.remove(at);
            TabListView {
                tabs: rest,
                active_tab: if self.active_tab == Some(id) {
                    if rest.len() == 0 {
                        None
                    } else if at > 0 {
                        Some(rest[at - 1].0)
                    } else {
                        Some(rest[0].0)
                    }
                } else {
                    self.active_tab
                },
                ..self
            }
        } else {
            self
        }
    }

    /// The list after tab `id` was given the title `title`, surrounding
    /// whitespace removed; a blank title changes nothing.
    pub open spec fn renamed(self, id: u64, title: Seq<char>) -> TabListView {
        let at = position_of(self.tabs, id);
        if trimmed(title).len() > 0 && at < self.tabs.len() {
            TabListView { tabs: self.tabs.update(at, (id, trimmed(title))), ..self }
        } else {
            self
        }
    }

    /// The list after tab `source` was dropped on tab `target`: it moves to
    /// the place that `target` held.
    pub open spec fn reordered(self, source: u64, target: u64) -> TabListView {
        let from = position_of(self.tabs, source);
        let to = position_of(self.tabs, target);
        if source != target && from < self.tabs.len() && to < self.tabs.len() {
            let moved = self.tabs[from];
            let rest = self.tabs.remove(from);
            TabListView {
                tabs: rest.insert(
                    if from < to {
                        to - 1
                    } else {
                        to
                    },
                    moved,
                ),
                ..self
            }
        } else {
            self
        }
    }
}

/// `position_of` finds the first tab with the identifier and none before
/// it.
pub proof fn lemma_position_of(tabs: Seq<(u64, Seq<char>)>, id: u64)
    ensures
        0 <= position_of(tabs, id) <= tabs.len(),
        forall|i: int| 0 <= i < position_of(tabs, id) ==> (#[trigger] tabs[i]).0 != id,
        position_of(tabs, id) < tabs.len() ==> tabs[position_of(tabs, id)].0 == id,
    decreases tabs.len(),
{
    if tabs.len() > 0 && tabs[0].0 != id {
        let rest = tabs.drop_first();
        lemma_position_of(rest, id);
        assert forall|i: int| 0 <= i < position_of(tabs, id) implies (#[trigger] tabs[i]).0
            != id by {
            if i > 0 {
                assert(tabs[i] == rest[i - 1]);
            }
        }
        if position_of(tabs, id) < tabs.len() {
            assert(tabs[position_of(tabs, id)] == rest[position_of(rest, id)]);
        }
    }
}

/// An index whose tab has the identifier, with none before it, is the
/// position of the identifier.
pub proof fn lemma_position_is(tabs: Seq<(u64, Seq<char>)>, id: u64, at: int)
    requires
        0 <= at <= tabs.len(),
        forall|i: int| 0 <= i < at ==> (#[trigger] tabs[i]).0 != id,
        at < tabs.len() ==> tabs[at].0 == id,
    ensures
        position_of(tabs, id) == at,
{
    lemma_position_of(tabs, id);
    let found = position_of(tabs, id);
    if found < at {
        assert(tabs[found].0 != id);
    } else if at < found {
        assert(tabs[at].0 != id);
    }
}

/// Closing, renaming and reordering keep every tab's identifier its own,
/// and reordering keeps the same tabs open.
pub proof fn lemma_wf_preserved(list: TabListView, id: u64, other: u64, title: Seq<char>)
    requires
        list.wf(),
    ensures
        list.closed(id).wf(),
        !list.closed(id).has(id),
        list.renamed(id, title).wf(),
        list.reordered(id, other).wf(),
        list.reordered(id, other).tabs.len() == list.tabs.len(),
        forall|k: u64| list.reordered(id, other).has(k) == list.has(k),
{
    lemma_position_of(list.tabs, id);
    lemma_position_of(list.tabs, other);
    let at = position_of(list.tabs, id);
    let closed = list.closed(id);
    if at < list.tabs.len() {
        assert forall|i: int| 0 <= i < closed.tabs.len() implies (#[trigger] closed.tabs[i]).0
            != id by {
            if i < at {
                assert(closed.tabs[i] == list.tabs[i]);
            } else {
                assert(closed.tabs[i] == list.tabs[i + 1]);
            }
        }
        lemma_position_is(closed.tabs, id, closed.tabs.len() as int);
    }
    let to = position_of(list.tabs, other);
    let moved = list.reordered(id, other);
    if id != other && at < list.tabs.len() && to < list.tabs.len() {
        let rest = list.tabs.remove(at);
        let place = if at < to {
            to - 1
        } else {
            to
        };
        assert forall|i: int| 0 <= i < moved.tabs.len() implies exists|j: int|
            0 <= j < list.tabs.len() && list.tabs[j] == #[trigger] moved.tabs[i] && (j == at
                <==> i == place) && (i < place ==> (j == (if i < at {
                i
            } else {
                i + 1
            }))) && (i > place ==> (j == (if i - 1 < at {
                i - 1
            } else {
                i
            }))) by {
            if i == place {
                assert(moved.tabs[i] == list.tabs[at]);
            } else if i < place {
                assert(moved.tabs[i] == rest[i]);
            } else {
                assert(moved.tabs[i] == rest[i - 1]);
            }
        }
        assert forall|k: u64| moved.has(k) == list.has(k) by {
            lemma_position_of(list.tabs, k);
            lemma_position_of(moved.tabs, k);
            let p = position_of(list.tabs, k);
            let q = position_of(moved.tabs, k);
            if q < moved.tabs.len() {
                let j = choose|j: int|
                    0 <= j < list.tabs.len() && list.tabs[j] == moved.tabs[q];
                if p >= list.tabs.len() {
                    assert(list.tabs[j].0 != k);
                }
            }
            if p < list.tabs.len() {
                let i = if p == at {
                    place
                } else {
                    let r = if p < at {
                        p
                    } else {
                        p - 1
                    };
                    if r < place {
                        r
                    } else {
                        r + 1
                    }
                };
                if p == at {
                    assert(moved.tabs[i] == list.tabs[p]);
                } else {
                    let r = if p < at {
                        p
                    } else {
                        p - 1
                    };
                    assert(rest[r] == list.tabs[p]);
                    assert(moved.tabs[i] == rest[r]);
                }
                if q >= moved.tabs.len() {
                    assert(moved.tabs[i].0 != k);
                }
            }
        }
    }
}

impl View for TabList {
    type V = TabListView;

    closed spec fn view(&self) -> TabListView {
        TabListView {
            next_tab_id: self.next_tab_id,
            tabs: tabs_view(self.tabs@),
            active_tab: self.active_tab,
        }
    }
}

impl TabList {
    /// A list with no tab open.
    pub fn new() -> (list: TabList)
        ensures
            list@ == (TabListView { next_tab_id: 0, tabs: Seq::empty(), active_tab: None }),
            list@.wf(),
    {
        let list = TabList { next_tab_id: 0, tabs: Vec::new(), active_tab: None };
        assert(list@.tabs =~= Seq::empty());
        list
    }

    /// The number of open tabs.
    pub fn len(&self) -> (n: usize)
        ensures
            n == self@.tabs.len(),
    {
        self.tabs.len()
    }

    /// The tab at position `index`.
    pub fn get(&self, index: usize) -> (tab: &Tab)
        requires
            index < self@.tabs.len(),
        ensures
            (tab.id, tab.title@) == self@.tabs[index as int],
    {
        &self.tabs[index]
    }

    /// Whether another tab can be opened: an identifier is left for it.
    pub fn can_open(&self) -> (room: bool)
        ensures
            room == (self@.next_tab_id < u64::MAX),
    {
        self.next_tab_id < u64::MAX
    }

    /// The identifier of the active tab.
    pub fn active_tab(&self) -> (active: Option<u64>)
        ensures
            active == self@.active_tab,
    {
        self.active_tab
    }

    /// Makes tab `id` the active one.
    pub fn activate(&mut self, id: u64)
        ensures
            final(self)@ == (TabListView { active_tab: Some(id), ..old(self)@ }),
            old(self)@.wf() ==> final(self)@.wf(),
    {
        self.active_tab = Some(id);
    }

    /// The position of tab `id`, if it is open.
    pub fn position(&self, id: u64) -> (at: Option<usize>)
        ensures
            match at {
                Some(i) => i == position_of(self@.tabs, id) && self@.has(id),
                None => !self@.has(id),
            },
    {
        let mut i: usize = 0;
        while i < self.tabs.len()
            invariant
                i <= self.tabs.len(),
                forall|j: int| 0 <= j < i ==> (#[trigger] tabs_view(self.tabs@)[j]).0 != id,
            decreases self.tabs.len() - i,
        {
            if self.tabs[i].id == id {
                proof {
                    lemma_position_is(tabs_view(self.tabs@), id, i as int);
                }
                return Some(i);
            }
            i += 1;
        }
        proof {
            lemma_position_is(tabs_view(self.tabs@), id, i as int);
        }
        None
    }

    /// Opens a tab for a session with `broker`, and returns its
    /// identifier.
    pub fn new_tab(&mut self, kind: TabKind, broker: &str) -> (id: u64)
        requires
            old(self)@.wf(),
            old(self)@.next_tab_id < u64::MAX,
        ensures
            id == old(self)@.next_tab_id,
            final(self)@ == old(self)@.opened(new_title(broker@, id)),
            final(self)@.wf(),
    {
        let id = self.next_tab_id;
        let title = match kind {
            TabKind::Client => if broker.unicode_len() == 0 {
                let number = decimal_string(id);
                join2("Client ", number.as_str())
            } else {
                String::from_str(broker)
            },
        };
        self.push_tab(title)
    }

    fn push_tab(&mut self, title: String) -> (id: u64)
        requires
            old(self)@.wf(),
            old(self)@.next_tab_id < u64::MAX,
        ensures
            id == old(self)@.next_tab_id,
            final(self)@ == old(self)@.opened(title@),
            final(self)@.wf(),
    {
        let id = self.next_tab_id;
        self.next_tab_id = id + 1;
        self.tabs.push(Tab { id, title });
        self.active_tab = Some(id);
        assert(self@.tabs =~= old(self)@.tabs.push((id, title@)));
        id
    }

    /// Closes tab `id`; says whether it was open.
    pub fn close_tab(&mut self, id: u64) -> (was_open: bool)
        requires
            old(self)@.wf(),
        ensures
            was_open == old(self)@.has(id),
            final(self)@ == old(self)@.closed(id),
            final(self)@.wf(),
    {
        proof {
            lemma_wf_preserved(self@, id, id, Seq::empty());
        }
        let at = match self.position(id) {
            Some(at) => at,
            None => {
                return false;
            },
        };
        let _ = self.tabs.remove(at);
        assert(self@.tabs =~= old(self)@.tabs.remove(at as int));
        if self.active_tab == Some(id) {
            self.active_tab = if self.tabs.len() == 0 {
                None
            } else if at > 0 {
                Some(self.tabs[at - 1].id)
            } else {
                Some(self.tabs[0].id)
            };
        }
        true
    }

    /// Gives tab `id` a new title; a blank title changes nothing.
    pub fn rename_tab(&mut self, id: u64, new_title: &str)
        requires
            old(self)@.wf(),
        ensures
            final(self)@ == old(self)@.renamed(id, new_title@),
            final(self)@.wf(),
    {
        proof {
            lemma_wf_preserved(self@, id, id, new_title@);
        }
        let title = trim(new_title);
        if title.unicode_len() == 0 {
            return ;
        }
        if let Some(at) = self.position(id) {
            self.tabs.set(at, Tab { id, title: String::from_str(title) });
            assert(self@.tabs =~= old(self)@.tabs.update(at as int, (id, title@)));
        }
    }

    /// Moves tab `source` to the place of tab `target`.
    pub fn reorder_tabs(&mut self, source: u64, target: u64)
        requires
            old(self)@.wf(),
        ensures
            final(self)@ == old(self)@.reordered(source, target),
            final(self)@.wf(),
    {
        proof {
            lemma_wf_preserved(self@, source, target, Seq::empty());
        }
        if source == target {
            return ;
        }
        let from = match self.position(source) {
            Some(at) => at,
            None => {
                return ;
            },
        };
        let to = match self.position(target) {
            Some(at) => at,
            None => {
                return ;
            },
        };
        let tab = self.tabs.remove(from);
        let place = if from < to {
            to - 1
        } else {
            to
        };
        let ghost moved = (tab.id, tab.title@);
        self.tabs.insert(place, tab);
        assert(self@.tabs =~= old(self)@.tabs.remove(from as int).insert(place as int, moved));
    }

    /// Opens a copy of tab `id`, titled after it, and returns the copy's
    /// identifier; `None` where tab `id` is not open.
    pub fn duplicate_tab(&mut self, id: u64) -> (copy: Option<u64>)
        requires
            old(self)@.wf(),
            old(self)@.next_tab_id < u64::MAX,
        ensures
            match copy {
                Some(new_id) => old(self)@.has(id) && new_id == old(self)@.next_tab_id
                    && final(self)@ == old(self)@.opened(
                    copy_title(old(self)@.tabs[position_of(old(self)@.tabs, id)].1),
                ),
                None => !old(self)@.has(id) && final(self)@ == old(self)@,
            },
            final(self)@.wf(),
    {
        match self.position(id) {
            Some(at) => {
                let title = join2(self.tabs[at].title.as_str(), " copy");
                Some(self.push_tab(title))
            },
            None => None,
        }
    }
}

} // verus!
