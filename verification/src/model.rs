//! Application state: the current page and one state record per page.
//! The controller exclusively owns and mutates a `Model`; nothing else
//! reads or writes it.

use vstd::prelude::*;

use crate::view::{lines_of, lines_of_seq, ViewNode};

verus! {

/// The closed set of application screens.  Exactly one page is current at
/// any time; it selects both the dispatch branch and the render branch.
///
/// `SettingsEntry` is a minimal second page: it has no key handler and
/// renders an empty view, but it scopes the exit policy (an Escape-coded
/// event ends the session only on `HomeEntry`).
#[derive(Clone, Copy, Debug, PartialEq, Eq, Structural)]
pub enum Page {
    HomeEntry,
    SettingsEntry,
}

/// Selection state of the home page: a list of entries and the index of
/// the selected one.
///
/// The boundary policy is clamping: moving past either end of the list
/// leaves the selection on that end, with no wrap-around.
pub struct HomeEntryState {
    pub items: Vec<String>,
    pub selected: usize,
}

/// Index selected after one "move to previous item" under the clamp
/// policy.
pub open spec fn prev_index(i: nat) -> nat {
    if i > 0 {
        (i - 1) as nat
    } else {
        0
    }
}

/// Index selected after one "move to next item" under the clamp policy,
/// in a list of `len` items.
pub open spec fn next_index(i: nat, len: nat) -> nat {
    if i + 1 < len {
        i + 1
    } else {
        i
    }
}

/// The line a home-page entry renders to: the entry's text behind a
/// marker that singles out the selected entry.
pub open spec fn home_line(item: Seq<char>, selected: bool) -> Seq<char> {
    (if selected { "> "@ } else { "  "@ }) + item
}

/// The lines of the home page's view: one per entry, in list order.
pub open spec fn home_lines(s: HomeEntryState) -> Seq<Seq<char>> {
    Seq::new(s.items@.len(), |i: int| home_line(s.items@[i]@, i == s.selected))
}

impl HomeEntryState {
    /// The selection is a valid index whenever the list is non-empty, and
    /// pinned to zero when the list is empty.
    pub open spec fn wf(self) -> bool {
        if self.items@.len() == 0 {
            self.selected == 0
        } else {
            self.selected < self.items@.len()
        }
    }

    /// A home page over the given entries, with the first one selected.
    pub fn new(items: Vec<String>) -> (s: HomeEntryState)
        ensures
            s.items == items,
            s.selected == 0,
            s.wf(),
    {
        HomeEntryState { items, selected: 0 }
    }

    /// Moves the selection to the previous entry, clamping at the top.
    pub fn to_previous_item(&mut self)
        requires
            old(self).wf(),
        ensures
            final(self).wf(),
            final(self).items == old(self).items,
            final(self).selected == prev_index(old(self).selected as nat),
    {
        if self.selected > 0 {
            self.selected = self.selected - 1;
        }
    }

    /// Moves the selection to the next entry, clamping at the bottom.
    pub fn to_next_item(&mut self)
        requires
            old(self).wf(),
        ensures
            final(self).wf(),
            final(self).items == old(self).items,
            final(self).selected == next_index(old(self).selected as nat, old(self).items@.len()),
    {
        let len = self.items.len();
        if len > 0 && self.selected < len - 1 {
            self.selected = self.selected + 1;
        }
    }

    /// Produces the home page's view-tree: a column with one text line per
    /// entry, the selected entry marked.
    #[verifier::loop_isolation(false)]
    pub fn render(&self) -> (v: ViewNode)
        ensures
            lines_of(v) == home_lines(*self),
    {
        let mut children: Vec<ViewNode> = Vec::new();
        let mut i: usize = 0;
        while i < self.items.len()
            invariant
                i <= self.items@.len(),
                children@.len() == i as nat,
                lines_of_seq(children@) == home_lines(*self).subrange(0, i as int),
            decreases self.items@.len() - i,
        {
            let mut line = if i == self.selected {
                String::from_str("> ")
            } else {
                String::from_str("  ")
            };
            line.append(self.items[i].as_str());
            let ghost line_view = line@;
            let ghost prev = children@;
            children.push(ViewNode::Text(line));
            proof {
                assert(children@.drop_last() =~= prev);
                assert(lines_of(children@.last()) == seq![line_view]);
                assert(line_view == home_line(self.items@[i as int]@, i as int == self.selected));
                assert(home_lines(*self)[i as int] == home_line(
                    self.items@[i as int]@,
                    i as int == self.selected,
                ));
                assert(lines_of_seq(children@) == lines_of_seq(children@.drop_last()) + lines_of(
                    children@.last(),
                ));
                assert(lines_of_seq(children@) =~= home_lines(*self).subrange(0, (i + 1) as int));
            }
            i = i + 1;
        }
        proof {
            assert(home_lines(*self).subrange(0, self.items@.len() as int) =~= home_lines(*self));
        }
        ViewNode::Column(children)
    }
}

/// Per-page state records.  Only the home page carries state today; a new
/// page adds a record here and a handler in the controller's dispatch.
pub struct PagesState {
    pub home_entry_state: HomeEntryState,
}

/// The single owner of the current page and of every page's state.
pub struct Model {
    pub current_page: Page,
    pub state: PagesState,
}

impl Model {
    /// Every page's state is well formed.
    pub open spec fn wf(self) -> bool {
        self.state.home_entry_state.wf()
    }

    /// The default model: the home page, with an empty entry list.
    pub fn new() -> (m: Model)
        ensures
            m.current_page == Page::HomeEntry,
            m.state.home_entry_state.items@.len() == 0,
            m.state.home_entry_state.selected == 0,
            m.wf(),
    {
        Model {
            current_page: Page::HomeEntry,
            state: PagesState { home_entry_state: HomeEntryState::new(Vec::new()) },
        }
    }
}

} // verus!
