//! Which tool rows the user expanded, and what a click on a tool row (or on
//! the note of the model's thinking) does.
use vstd::prelude::*;

use crate::layout::{first_hit, tool_row_at, Area};
use crate::search::str_eq;
use crate::tool_table::{find_call, ToolRowTable};

verus! {

broadcast use vstd::string::group_string_axioms;

/// The call ids of the tool rows that show all of their output.
#[derive(Debug, Clone, PartialEq, Eq)]
pub struct ExpandedRows {
    ids: Vec<String>,
}

/// Some entry among the first `n` of `v` is `id`.
pub open spec fn listed_before(v: Seq<String>, n: int, id: Seq<char>) -> bool {
    exists|k: int| 0 <= k < n && k < v.len() && #[trigger] v[k]@ == id
}

/// `after` is `before` with the row of call `id` expanded or collapsed, the
/// other rows as they were.
pub open spec fn toggled(before: ExpandedRows, after: ExpandedRows, id: Seq<char>) -> bool {
    &&& after.has(id) == !before.has(id)
    &&& forall|other: Seq<char>| other != id ==> #[trigger] after.has(other) == before.has(other)
}

impl ExpandedRows {
    /// Whether the row of call `id` is expanded.
    pub closed spec fn has(&self, id: Seq<char>) -> bool {
        listed_before(self.ids@, self.ids@.len() as int, id)
    }

    /// No row is expanded.
    pub fn new() -> (r: Self)
        ensures
            forall|id: Seq<char>| !#[trigger] r.has(id),
    {
        ExpandedRows { ids: Vec::new() }
    }

    /// Whether the row of call `call_id` is expanded.
    pub fn is_tool_expanded(&self, call_id: &str) -> (b: bool)
        ensures
            b == self.has(call_id@),
    {
        let mut i: usize = 0;
        while i < self.ids.len()
            invariant
                i <= self.ids@.len(),
                forall|j: int| 0 <= j < i ==> #[trigger] self.ids@[j]@ != call_id@,
            decreases self.ids@.len() - i,
        {
            if str_eq(self.ids[i].as_str(), call_id) {
                return true;
            }
            i = i + 1;
        }
        false
    }

    /// Expands the row of call `call_id`, or collapses it when it was
    /// expanded; the other rows stay as they were.
    pub fn toggle_tool_expanded(&mut self, call_id: &str)
        ensures
            toggled(*old(self), *final(self), call_id@),
    {
        if self.is_tool_expanded(call_id) {
            let mut kept: Vec<String> = Vec::new();
            let mut i: usize = 0;
            while i < self.ids.len()
                invariant
                    i <= self.ids@.len(),
                    self.ids@ == old(self).ids@,
                    forall|k: int| 0 <= k < kept@.len() ==> #[trigger] kept@[k]@ != call_id@,
                    forall|id: Seq<char>|
                        id != call_id@ ==> (listed_before(kept@, kept@.len() as int, id)
                            <==> #[trigger] listed_before(self.ids@, i as int, id)),
                decreases self.ids@.len() - i,
            {
                let ghost before = kept@;
                let keep = !str_eq(self.ids[i].as_str(), call_id);
                if keep {
                    kept.push(self.ids[i].clone());
                }
                proof {
                    assert forall|id: Seq<char>| id != call_id@ implies (listed_before(
                        kept@,
                        kept@.len() as int,
                        id,
                    ) <==> #[trigger] listed_before(self.ids@, i + 1, id)) by {
                        if listed_before(self.ids@, i + 1, id) {
                            let j = choose|j: int|
                                0 <= j < i + 1 && j < self.ids@.len() && #[trigger] self.ids@[j]@ == id;
                            if j == i {
                                assert(keep);
                                assert(kept@[before.len() as int]@ == id);
                                assert(listed_before(kept@, kept@.len() as int, id));
                            } else {
                                assert(listed_before(self.ids@, i as int, id));
                                assert(listed_before(before, before.len() as int, id));
                                let k = choose|k: int|
                                    0 <= k < before.len() && k < before.len() && #[trigger] before[k]@ == id;
                                assert(kept@[k]@ == id);
                                assert(listed_before(kept@, kept@.len() as int, id));
                            }
                        }
                        if listed_before(kept@, kept@.len() as int, id) {
                            let k = choose|k: int|
                                0 <= k < kept@.len() && k < kept@.len() && #[trigger] kept@[k]@ == id;
                            if keep && k == before.len() {
                                assert(self.ids@[i as int]@ == id);
                                assert(listed_before(self.ids@, i + 1, id));
                            } else {
                                assert(before[k]@ == id);
                                assert(listed_before(before, before.len() as int, id));
                                assert(listed_before(self.ids@, i as int, id));
                                let j = choose|j: int|
                                    0 <= j < i && j < self.ids@.len() && #[trigger] self.ids@[j]@ == id;
                                assert(self.ids@[j]@ == id);
                                assert(listed_before(self.ids@, i + 1, id));
                            }
                        }
                    }
                }
                i = i + 1;
            }
            self.ids = kept;
        } else {
            let ghost before = self.ids@;
            self.ids.push(call_id.to_owned());
            proof {
                assert(self.ids@[before.len() as int]@ == call_id@);
                assert forall|id: Seq<char>| id != call_id@ implies #[trigger] self.has(id) == old(
                    self,
                ).has(id) by {
                    if self.has(id) {
                        let k = choose|k: int|
                            0 <= k < self.ids@.len() && k < self.ids@.len() && #[trigger] self.ids@[k]@ == id;
                        assert(k != before.len());
                        assert(before[k]@ == id);
                    }
                    if old(self).has(id) {
                        let k = choose|k: int| 0 <= k < before.len() && k < before.len() && #[trigger] before[k]@ == id;
                        assert(self.ids@[k]@ == id);
                    }
                }
            }
        }
    }

    /// Collapses every row.
    pub fn clear(&mut self)
        ensures
            forall|id: Seq<char>| !#[trigger] final(self).has(id),
    {
        self.ids = Vec::new();
    }
}

/// The id under which the note of the model's thinking is clicked.
pub const THOUGHT_CLICK_ID: &'static str = "__thought__";

/// What a click on the lines of tool rows did.
#[derive(Debug, Clone, Copy, PartialEq, Eq, Structural)]
pub enum RowClick {
    /// The click was on no tool row.
    Missed,
    /// The note of the model's thinking was expanded or collapsed.
    Thought,
    /// A row with nothing more to show was clicked; nothing changed.
    Fixed,
    /// A row was expanded.
    Expanded,
    /// A row was collapsed.
    Collapsed,
}

impl RowClick {
    /// The note shown after the click.
    pub fn diagnostic(&self) -> (r: Option<&'static str>)
        ensures
            match *self {
                RowClick::Expanded => r is Some && r->0@ == "tool output expanded"@,
                RowClick::Collapsed => r is Some && r->0@ == "tool output collapsed"@,
                _ => r is None,
            },
    {
        match self {
            RowClick::Expanded => Some("tool output expanded"),
            RowClick::Collapsed => Some("tool output collapsed"),
            _ => None,
        }
    }
}

/// Handles a click at column `x`, row `y` on the lines drawn for tool rows,
/// where `clicks` tells which call's lines cover which area: on the thinking
/// note it flips whether the note is expanded; on the row of a call whose
/// first row in `table` has more to show, it expands or collapses that row;
/// elsewhere it changes nothing.
pub fn click_tool_rows(
    clicks: &[(String, Area)],
    table: &ToolRowTable,
    expanded: &mut ExpandedRows,
    thought_expanded: &mut bool,
    x: u16,
    y: u16,
) -> (r: RowClick)
    ensures
        match first_hit(clicks@, x as int, y as int, 0) {
            None => {
                &&& r == RowClick::Missed
                &&& *final(thought_expanded) == *old(thought_expanded)
                &&& *final(expanded) == *old(expanded)
            },
            Some(i) => {
                let id = clicks@[i].0@;
                if id == THOUGHT_CLICK_ID@ {
                    &&& r == RowClick::Thought
                    &&& *final(thought_expanded) == !*old(thought_expanded)
                    &&& *final(expanded) == *old(expanded)
                } else {
                    &&& *final(thought_expanded) == *old(thought_expanded)
                    &&& match find_call(table@.rows, id, 0) {
                        Some(k) if table@.rows[k].expandable => {
                            &&& toggled(*old(expanded), *final(expanded), id)
                            &&& r == if final(expanded).has(id) {
                                RowClick::Expanded
                            } else {
                                RowClick::Collapsed
                            }
                        },
                        _ => r == RowClick::Fixed && *final(expanded) == *old(expanded),
                    }
                }
            },
        },
{
    let hit = tool_row_at(clicks, x, y);
    match hit {
        None => RowClick::Missed,
        Some(call_id) => {
            if str_eq(call_id.as_str(), THOUGHT_CLICK_ID) {
                *thought_expanded = !*thought_expanded;
                return RowClick::Thought;
            }
            let can_expand = match table.find_call_index(call_id.as_str()) {
                Some(k) => table.tool_rows()[k].expandable,
                None => false,
            };
            if can_expand {
                expanded.toggle_tool_expanded(call_id.as_str());
                if expanded.is_tool_expanded(call_id.as_str()) {
                    RowClick::Expanded
                } else {
                    RowClick::Collapsed
                }
            } else {
                RowClick::Fixed
            }
        },
    }
}

} // verus!
