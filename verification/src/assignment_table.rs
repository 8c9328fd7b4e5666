//! The MIDI assignment table panel: which rows of the table it lists for the
//! current search text, target filter and "assigned only" switch.

use vstd::prelude::*;
use crate::text::{contains_seq, str_contains, str_eq, to_lowercase, unicode_lowercase};

verus! {

/// What a MIDI control is assigned to.
#[derive(Clone, Copy, Debug, PartialEq, Eq, Structural)]
pub enum AssignmentTarget {
    Unassigned,
    MapFlow,
    Mixxx,
    StreamerBot,
}

/// One row of the assignment table.
#[derive(Clone, Debug)]
pub struct FunctionAssignment {
    pub element_id: String,
    pub target: AssignmentTarget,
    pub function: String,
    pub description: String,
}

/// The target a filter name selects: "MapFlow", "Mixxx" or "Streamer.bot";
/// any other name selects none and filters nothing.
pub open spec fn target_named(name: Seq<char>) -> Option<AssignmentTarget> {
    if name == "MapFlow"@ {
        Some(AssignmentTarget::MapFlow)
    } else if name == "Mixxx"@ {
        Some(AssignmentTarget::Mixxx)
    } else if name == "Streamer.bot"@ {
        Some(AssignmentTarget::StreamerBot)
    } else {
        None
    }
}

/// Whether the search text matches a row: an empty search matches every row;
/// otherwise the element id, function or description contains it, case
/// ignored.
pub open spec fn search_matches(a: FunctionAssignment, search: Seq<char>) -> bool {
    let s = unicode_lowercase(search);
    ||| search.len() == 0
    ||| contains_seq(unicode_lowercase(a.element_id@), s)
    ||| contains_seq(unicode_lowercase(a.function@), s)
    ||| contains_seq(unicode_lowercase(a.description@), s)
}

/// Whether the table lists a row: the search matches it, its target is the
/// one the filter selects (if any), and it is assigned where only assigned
/// rows are shown.
pub open spec fn row_listed(
    a: FunctionAssignment,
    search: Seq<char>,
    filter: Option<Seq<char>>,
    assigned_only: bool,
) -> bool {
    &&& search_matches(a, search)
    &&& match filter {
        Some(f) => match target_named(f) {
            Some(t) => a.target == t,
            None => true,
        },
        None => true,
    }
    &&& !(assigned_only && a.target == AssignmentTarget::Unassigned)
}

/// The ghost text of an optional string.
pub open spec fn opt_text(s: Option<String>) -> Option<Seq<char>> {
    match s {
        Some(t) => Some(t@),
        None => None,
    }
}

fn target_of_filter(name: &str) -> (r: Option<AssignmentTarget>)
    ensures
        r == target_named(name@),
{
    if str_eq(name, "MapFlow") {
        Some(AssignmentTarget::MapFlow)
    } else if str_eq(name, "Mixxx") {
        Some(AssignmentTarget::Mixxx)
    } else if str_eq(name, "Streamer.bot") {
        Some(AssignmentTarget::StreamerBot)
    } else {
        None
    }
}

/// Whether the search text matches this row (see `search_matches`).
pub fn assignment_matches_search(a: &FunctionAssignment, search: &str) -> (r: bool)
    ensures
        r == search_matches(*a, search@),
{
    if search.unicode_len() == 0 {
        return true;
    }
    let s = to_lowercase(search);
    let element = to_lowercase(a.element_id.as_str());
    if str_contains(element.as_str(), s.as_str()) {
        return true;
    }
    let function = to_lowercase(a.function.as_str());
    if str_contains(function.as_str(), s.as_str()) {
        return true;
    }
    let description = to_lowercase(a.description.as_str());
    str_contains(description.as_str(), s.as_str())
}

/// Whether the table lists this row (see `row_listed`).
pub fn assignment_listed(
    a: &FunctionAssignment,
    search: &str,
    filter: Option<&str>,
    assigned_only: bool,
) -> (r: bool)
    ensures
        r == row_listed(
            *a,
            search@,
            match filter {
                Some(f) => Some(f@),
                None => None,
            },
            assigned_only,
        ),
{
    if !assignment_matches_search(a, search) {
        return false;
    }
    match filter {
        Some(f) => match target_of_filter(f) {
            Some(t) => {
                if a.target != t {
                    return false;
                }
            },
            None => {},
        },
        None => {},
    }
    !(assigned_only && a.target == AssignmentTarget::Unassigned)
}

/// State of the assignment table panel.
pub struct AssignmentTablePanel {
    /// The rows of the table
    pub table: Vec<FunctionAssignment>,
    /// Filter by target
    pub filter_target: Option<String>,
    /// Search filter
    pub search_filter: String,
    /// Selected element for editing
    pub selected_element: Option<String>,
    /// Show only assigned elements
    pub show_assigned_only: bool,
    /// Panel visibility
    pub visible: bool,
}

impl AssignmentTablePanel {
    /// A hidden panel over the given table (the controller's default
    /// assignments), with no filter, no search text and nothing selected.
    pub fn new(table: Vec<FunctionAssignment>) -> (p: Self)
        ensures
            p.table() == table@,
            p.filter_target() is None,
            p.search_filter().len() == 0,
            p.selected_element() is None,
            !p.show_assigned_only(),
            !p.is_visible(),
    {
        AssignmentTablePanel {
            table,
            filter_target: None,
            search_filter: String::new(),
            selected_element: None,
            show_assigned_only: false,
            visible: false,
        }
    }

    /// The rows of the table.
    pub open spec fn table(&self) -> Seq<FunctionAssignment> {
        self.table@
    }

    /// The selected target filter.
    pub open spec fn filter_target(&self) -> Option<Seq<char>> {
        opt_text(self.filter_target)
    }

    /// The search text.
    pub open spec fn search_filter(&self) -> Seq<char> {
        self.search_filter@
    }

    /// The element whose row is being edited.
    pub open spec fn selected_element(&self) -> Option<Seq<char>> {
        opt_text(self.selected_element)
    }

    /// Whether the panel is shown.
    pub open spec fn is_visible(&self) -> bool {
        self.visible
    }

    /// Whether only assigned rows are listed.
    pub open spec fn show_assigned_only(&self) -> bool {
        self.show_assigned_only
    }

    /// Replaces the table; the filters and selection stay.
    pub fn load_table(&mut self, table: Vec<FunctionAssignment>)
        ensures
            final(self).table() == table@,
            final(self).filter_target() == old(self).filter_target(),
            final(self).search_filter() == old(self).search_filter(),
            final(self).selected_element() == old(self).selected_element(),
            final(self).show_assigned_only() == old(self).show_assigned_only(),
            final(self).is_visible() == old(self).is_visible(),
    {
        self.table = table;
    }

    /// The rows of the table.
    pub fn rows(&self) -> (t: &Vec<FunctionAssignment>)
        ensures
            t@ == self.table(),
    {
        &self.table
    }

    /// Selects the target filter ("MapFlow", "Mixxx", "Streamer.bot"), or
    /// clears it.
    pub fn set_filter_target(&mut self, target: Option<String>)
        ensures
            final(self).filter_target() == opt_text(target),
            final(self).table() == old(self).table(),
            final(self).search_filter() == old(self).search_filter(),
            final(self).selected_element() == old(self).selected_element(),
            final(self).show_assigned_only() == old(self).show_assigned_only(),
            final(self).is_visible() == old(self).is_visible(),
    {
        self.filter_target = target;
    }

    /// Sets the search text.
    pub fn set_search_filter(&mut self, search: String)
        ensures
            final(self).search_filter() == search@,
            final(self).table() == old(self).table(),
            final(self).filter_target() == old(self).filter_target(),
            final(self).selected_element() == old(self).selected_element(),
            final(self).show_assigned_only() == old(self).show_assigned_only(),
            final(self).is_visible() == old(self).is_visible(),
    {
        self.search_filter = search;
    }

    /// Switches "assigned only" on or off.
    pub fn set_show_assigned_only(&mut self, on: bool)
        ensures
            final(self).show_assigned_only() == on,
            final(self).table() == old(self).table(),
            final(self).filter_target() == old(self).filter_target(),
            final(self).search_filter() == old(self).search_filter(),
            final(self).selected_element() == old(self).selected_element(),
            final(self).is_visible() == old(self).is_visible(),
    {
        self.show_assigned_only = on;
    }

    /// Selects the row of this element for editing.
    pub fn select_element(&mut self, element_id: String)
        ensures
            final(self).selected_element() == Some(element_id@),
            final(self).table() == old(self).table(),
            final(self).filter_target() == old(self).filter_target(),
            final(self).search_filter() == old(self).search_filter(),
            final(self).show_assigned_only() == old(self).show_assigned_only(),
            final(self).is_visible() == old(self).is_visible(),
    {
        self.selected_element = Some(element_id);
    }

    /// The positions of the rows the table lists, in table order.
    pub fn listed_rows(&self) -> (v: Vec<usize>)
        ensures
            v@ == Seq::new(self.table().len(), |i: int| i as usize).filter(
                |i: usize|
                    row_listed(
                        self.table()[i as int],
                        self.search_filter(),
                        self.filter_target(),
                        self.show_assigned_only(),
                    ),
            ),
    {
        broadcast use vstd::seq_lib::group_filter_ensures;

        let ghost pred = |i: usize|
            row_listed(
                self.table()[i as int],
                self.search_filter(),
                self.filter_target(),
                self.show_assigned_only(),
            );
        let ghost all = Seq::new(self.table@.len(), |i: int| i as usize);
        let filter: Option<&str> = match &self.filter_target {
            Some(f) => Some(f.as_str()),
            None => None,
        };
        let mut v: Vec<usize> = Vec::new();
        let mut i: usize = 0;
        assert(all.subrange(0, 0) =~= Seq::<usize>::empty());
        proof {
            reveal(Seq::filter);
        }
        while i < self.table.len()
            invariant
                i <= self.table.len(),
                all == Seq::new(self.table@.len(), |i: int| i as usize),
                pred == (|i: usize|
                    row_listed(
                        self.table()[i as int],
                        self.search_filter(),
                        self.filter_target(),
                        self.show_assigned_only(),
                    )),
                (match filter {
                    Some(f) => Some(f@),
                    None => None,
                }) == self.filter_target(),
                v@ == all.subrange(0, i as int).filter(pred),
            decreases self.table.len() - i,
        {
            let ghost pre = all.subrange(0, i as int);
            let listed = assignment_listed(
                &self.table[i],
                self.search_filter.as_str(),
                filter,
                self.show_assigned_only,
            );
            proof {
                assert(all.subrange(0, i + 1) =~= pre.push(i));
                pre.lemma_filter_push(i, pred);
            }
            if listed {
                v.push(i);
            }
            i = i + 1;
        }
        assert(all.subrange(0, self.table.len() as int) =~= all);
        v
    }
}

} // verus!
