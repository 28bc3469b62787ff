//! The tool calls of the transcript, kept as a bounded list of rows, and the
//! call that is in progress.
use vstd::prelude::*;

use crate::json::{parsed_json, JsonValue};
use crate::search::str_eq;
use crate::text::{bounded, bounded_text};
use crate::tool_rows::{
    opt_nat, preparing_desc, row_expandable, ToolRow, MAX_IDENTITY_BYTES, MAX_TOOL_ARGUMENT_BYTES,
    MAX_TOOL_OUTPUT_BYTES, MAX_TOOL_ROWS,
};
use crate::tools::{same_tool, tool_names_match, ActiveToolInfo, ToolRowState};
use crate::tool_args::{effective_args, tool_target, tool_target_and_verbs};

verus! {

broadcast use vstd::string::group_string_axioms;

/// `Instant::now()`: the clock's reading, of which nothing is stated.
#[verifier::external_body]
fn now() -> std::time::Instant {
    std::time::Instant::now()
}

/// What a tool event says of a call: a new row for an unknown call id, or
/// new values for the row of a known one.
pub struct ToolRowUpdate<'a> {
    pub call_id: &'a str,
    pub name: &'a str,
    pub state: ToolRowState,
    pub desc: String,
    pub arguments: String,
    pub metadata: Option<JsonValue>,
}

/// The rows of the tool calls, oldest first, and the call in progress.
pub struct ToolRowTable {
    rows: Vec<ToolRow>,
    active_tool: Option<ActiveToolInfo>,
}

/// The call in progress, as the transcript shows it.
pub struct ActiveView {
    pub name: Seq<char>,
    pub desc: Seq<char>,
    pub started_at: std::time::Instant,
}

/// The contents of a [`ToolRowTable`].
pub struct ToolTableView {
    pub rows: Seq<ToolRow>,
    pub active: Option<ActiveView>,
}

/// The text of a call in progress.
pub open spec fn active_view(a: Option<ActiveToolInfo>) -> Option<ActiveView> {
    match a {
        Some(i) => Some(ActiveView { name: i.name@, desc: i.desc@, started_at: i.started_at }),
        None => None,
    }
}

impl View for ToolRowTable {
    type V = ToolTableView;

    closed spec fn view(&self) -> ToolTableView {
        ToolTableView { rows: self.rows@, active: active_view(self.active_tool) }
    }
}

/// A call that has not finished yet.
pub open spec fn is_open(s: ToolRowState) -> bool {
    s == ToolRowState::Pending || s == ToolRowState::Running
}

/// The last of `rows[..n]` that satisfies `p`.
pub open spec fn last_index_where(rows: Seq<ToolRow>, n: int, p: spec_fn(ToolRow) -> bool) -> Option<int>
    decreases n,
{
    if n <= 0 || n > rows.len() {
        None
    } else if p(rows[n - 1]) {
        Some(n - 1)
    } else {
        last_index_where(rows, n - 1, p)
    }
}

/// The first row from `i` on whose call id is `id`.
pub open spec fn find_call(rows: Seq<ToolRow>, id: Seq<char>, i: int) -> Option<int>
    decreases rows.len() - i,
{
    if i < 0 || i >= rows.len() {
        None
    } else if rows[i].call_id@ == id {
        Some(i)
    } else {
        find_call(rows, id, i + 1)
    }
}

pub open spec fn open_pred() -> spec_fn(ToolRow) -> bool {
    |r: ToolRow| is_open(r.state)
}

pub open spec fn open_named_pred(name: Seq<char>) -> spec_fn(ToolRow) -> bool {
    |r: ToolRow| same_tool(r.name@, name) && is_open(r.state)
}

/// The call in progress: the latest row that has not finished, with
/// `"preparing arguments..."` for a description it does not have yet.
pub open spec fn expected_active(rows: Seq<ToolRow>) -> Option<ActiveView> {
    match last_index_where(rows, rows.len() as int, open_pred()) {
        Some(i) => Some(
            ActiveView {
                name: rows[i].name@,
                desc: if rows[i].desc@.len() == 0 {
                    preparing_desc()
                } else {
                    rows[i].desc@
                },
                started_at: rows[i].started_at,
            },
        ),
        None => None,
    }
}

/// A row holds what an update made it, on top of the row it was: the name and
/// state are replaced, and the description, arguments and metadata are
/// replaced when the update has them (texts bounded in length).
pub open spec fn updated_row(before: ToolRow, u: ToolRowUpdate, after: ToolRow) -> bool {
    updated_row_v(before, u.name@, u.state, u.desc@, u.arguments@, u.metadata, after)
}

/// [`updated_row`], with the update's parts given one by one.
pub open spec fn updated_row_v(
    before: ToolRow,
    name: Seq<char>,
    state: ToolRowState,
    desc: Seq<char>,
    arguments: Seq<char>,
    metadata: Option<JsonValue>,
    after: ToolRow,
) -> bool {
    &&& after.call_id == before.call_id
    &&& after.name@ == name
    &&& after.state == state
    &&& after.desc@ == if desc.len() > 0 {
        bounded_text(desc, MAX_TOOL_ARGUMENT_BYTES as int)
    } else {
        before.desc@
    }
    &&& after.arguments@ == if arguments.len() > 0 {
        bounded_text(arguments, MAX_TOOL_ARGUMENT_BYTES as int)
    } else {
        before.arguments@
    }
    &&& after.metadata == if metadata is Some {
        metadata
    } else {
        before.metadata
    }
    &&& after.output == before.output
    &&& after.arguments_complete == before.arguments_complete
    &&& after.started_at == before.started_at
}

/// A row made from an update for a call the table did not have: texts bounded
/// in length, no output yet, started now.
pub open spec fn new_row(u: ToolRowUpdate, row: ToolRow) -> bool {
    new_row_v(u.call_id@, u.name@, u.state, u.desc@, u.arguments@, u.metadata, row)
}

/// [`new_row`], with the update's parts given one by one.
pub open spec fn new_row_v(
    call_id: Seq<char>,
    name: Seq<char>,
    state: ToolRowState,
    desc: Seq<char>,
    arguments: Seq<char>,
    metadata: Option<JsonValue>,
    row: ToolRow,
) -> bool {
    &&& row.call_id@ == bounded_text(call_id, MAX_IDENTITY_BYTES as int)
    &&& row.name@ == bounded_text(name, MAX_IDENTITY_BYTES as int)
    &&& row.desc@ == bounded_text(desc, MAX_TOOL_ARGUMENT_BYTES as int)
    &&& row.arguments@ == bounded_text(arguments, MAX_TOOL_ARGUMENT_BYTES as int)
    &&& row.output@.len() == 0
    &&& row.state == state
    &&& !row.arguments_complete
    &&& row.metadata == metadata
}

/// The table's call in progress is that of its rows, within its bounds.
pub open spec fn table_ok(t: ToolTableView) -> bool {
    t.rows.len() <= MAX_TOOL_ROWS && t.active == expected_active(t.rows)
}

/// What [`ToolRowTable::upsert_tool_row`] makes of table `t` for an update
/// given part by part.
pub open spec fn upserted(
    t: ToolTableView,
    call_id: Seq<char>,
    name: Seq<char>,
    state: ToolRowState,
    desc: Seq<char>,
    arguments: Seq<char>,
    metadata: Option<JsonValue>,
    edl: Option<usize>,
    u: ToolTableView,
) -> bool {
    &&& table_ok(u)
    &&& match find_call(t.rows, call_id, 0) {
        Some(i) => {
            &&& u.rows.len() == t.rows.len()
            &&& forall|j: int| 0 <= j < t.rows.len() && j != i ==> u.rows[j] == t.rows[j]
            &&& updated_row_v(t.rows[i], name, state, desc, arguments, metadata, u.rows[i])
            &&& expandable_ok(u.rows[i], edl)
        },
        None => {
            let n = t.rows.len();
            let kept = if n + 1 > MAX_TOOL_ROWS {
                t.rows.drop_first()
            } else {
                t.rows
            };
            &&& u.rows.len() == kept.len() + 1
            &&& u.rows.drop_last() == kept
            &&& new_row_v(call_id, name, state, desc, arguments, metadata, u.rows.last())
            &&& expandable_ok(u.rows.last(), edl)
        },
    }
}

/// What [`ToolRowTable::complete_tool_row`] makes of table `t`.
pub open spec fn completed(
    t: ToolTableView,
    call_id: Seq<char>,
    name: Seq<char>,
    success: bool,
    output: Seq<char>,
    edl: Option<usize>,
    u: ToolTableView,
) -> bool {
    &&& table_ok(u)
    &&& match completion_target(t.rows, call_id, name) {
        None => u.rows == t.rows,
        Some(i) => {
            let before = t.rows[i];
            let after = u.rows[i];
            &&& u.rows.len() == t.rows.len()
            &&& forall|j: int| 0 <= j < t.rows.len() && j != i ==> u.rows[j] == t.rows[j]
            &&& after.state == if success {
                ToolRowState::Completed
            } else {
                ToolRowState::Failed
            }
            &&& after.output@ == bounded_text(output, MAX_TOOL_OUTPUT_BYTES as int)
            &&& after.call_id == before.call_id
            &&& after.name == before.name
            &&& after.desc == before.desc
            &&& after.arguments == before.arguments
            &&& after.metadata == before.metadata
            &&& after.arguments_complete == before.arguments_complete
            &&& after.started_at == before.started_at
            &&& expandable_ok(after, edl)
        },
    }
}

/// What [`ToolRowTable::fail_unfinished_rows`] makes of table `t`.
pub open spec fn unfinished_failed(t: ToolTableView, u: ToolTableView) -> bool {
    &&& table_ok(u)
    &&& u.active is None
    &&& u.rows.len() == t.rows.len()
    &&& forall|i: int|
        0 <= i < t.rows.len() ==> #[trigger] u.rows[i] == if is_open(t.rows[i].state) {
            ToolRow { state: ToolRowState::Failed, ..t.rows[i] }
        } else {
            t.rows[i]
        }
}

/// A row's flag of having more to show agrees with its contents.
pub open spec fn expandable_ok(row: ToolRow, edit_diff_lines: Option<usize>) -> bool {
    row.expandable == row_expandable(row, parsed_json(row.arguments@), opt_nat(edit_diff_lines))
}

/// The row that completing a call of tool `name` with id `call_id` reaches:
/// the first row with that (bounded) call id, else the latest unfinished row
/// of the same tool; with no call id, the latest unfinished row of the same
/// tool, else the latest unfinished row.
pub open spec fn completion_target(rows: Seq<ToolRow>, call_id: Seq<char>, name: Seq<char>) -> Option<int> {
    let n = rows.len() as int;
    if call_id.len() > 0 {
        match find_call(rows, bounded_text(call_id, MAX_IDENTITY_BYTES as int), 0) {
            Some(i) => Some(i),
            None => last_index_where(rows, n, open_named_pred(name)),
        }
    } else {
        match last_index_where(rows, n, open_named_pred(name)) {
            Some(i) => Some(i),
            None => last_index_where(rows, n, open_pred()),
        }
    }
}

impl ToolRowTable {
    /// The table is within its bounds and its call in progress is that of its
    /// rows.
    pub open spec fn wf(&self) -> bool {
        &&& self@.rows.len() <= MAX_TOOL_ROWS
        &&& self@.active == expected_active(self@.rows)
    }

    /// An empty table.
    pub fn new() -> (t: Self)
        ensures
            t.wf(),
            t@.rows.len() == 0,
            t@.active is None,
    {
        ToolRowTable { rows: Vec::new(), active_tool: None }
    }

    /// The rows, oldest first.
    pub fn tool_rows(&self) -> (r: &[ToolRow])
        ensures
            r@ == self@.rows,
    {
        self.rows.as_slice()
    }

    /// The call in progress.
    pub fn active_tool(&self) -> (r: Option<&ActiveToolInfo>)
        ensures
            active_view(
                match r {
                    Some(a) => Some(*a),
                    None => None,
                },
            ) == self@.active,
    {
        self.active_tool.as_ref()
    }

    /// A call id as rows keep it: bounded in length.
    pub fn normalized_tool_call_id(call_id: &str) -> (r: String)
        ensures
            r@ == bounded_text(call_id@, MAX_IDENTITY_BYTES as int),
    {
        bounded(call_id.to_owned(), MAX_IDENTITY_BYTES)
    }

    fn last_index_open(&self, name: Option<&str>) -> (r: Option<usize>)
        ensures
            r is Some ==> r->0 < self@.rows.len(),
            match name {
                Some(n) => opt_int(r) == last_index_where(
                    self@.rows,
                    self@.rows.len() as int,
                    open_named_pred(n@),
                ),
                None => opt_int(r) == last_index_where(
                    self@.rows,
                    self@.rows.len() as int,
                    open_pred(),
                ),
            },
    {
        let ghost p = match name {
            Some(n) => open_named_pred(n@),
            None => open_pred(),
        };
        let mut n = self.rows.len();
        while n > 0
            invariant
                n <= self.rows@.len(),
                p == (match name {
                    Some(nm) => open_named_pred(nm@),
                    None => open_pred(),
                }),
                last_index_where(self.rows@, self.rows@.len() as int, p) == last_index_where(
                    self.rows@,
                    n as int,
                    p,
                ),
            decreases n,
        {
            let row = &self.rows[n - 1];
            let open = row.state == ToolRowState::Pending || row.state == ToolRowState::Running;
            let hit = match name {
                Some(nm) => open && tool_names_match(row.name.as_str(), nm),
                None => open,
            };
            if hit {
                return Some(n - 1);
            }
            n = n - 1;
        }
        None
    }

    pub(crate) fn find_call_index(&self, id: &str) -> (r: Option<usize>)
        ensures
            r is Some ==> r->0 < self@.rows.len(),
            opt_int(r) == find_call(self@.rows, id@, 0),
    {
        let mut i: usize = 0;
        while i < self.rows.len()
            invariant
                i <= self.rows@.len(),
                find_call(self.rows@, id@, 0) == find_call(self.rows@, id@, i as int),
            decreases self.rows@.len() - i,
        {
            if str_eq(self.rows[i].call_id.as_str(), id) {
                return Some(i);
            }
            i = i + 1;
        }
        None
    }

    /// The rows, taken out; the table is left empty.
    pub fn take_rows(&mut self) -> (rows: Vec<ToolRow>)
        ensures
            rows@ == old(self)@.rows,
            final(self).wf(),
            final(self)@.rows.len() == 0,
    {
        let mut rows: Vec<ToolRow> = Vec::new();
        std::mem::swap(&mut rows, &mut self.rows);
        self.active_tool = None;
        proof {
            assert(expected_active(self@.rows) is None) by {
                assert(self@.rows.len() == 0);
                assert(last_index_where(self@.rows, 0, open_pred()) is None);
            }
        }
        rows
    }

    /// A table of `rows`, with the call in progress found among them.
    pub fn with_rows(rows: Vec<ToolRow>) -> (t: Self)
        requires
            rows@.len() <= MAX_TOOL_ROWS,
        ensures
            t.wf(),
            t@.rows == rows@,
    {
        let mut t = ToolRowTable { rows, active_tool: None };
        t.refresh_active_tool();
        t
    }

    /// Sets the call in progress from the rows (see [`expected_active`]).
    pub fn refresh_active_tool(&mut self)
        ensures
            final(self)@.rows == old(self)@.rows,
            final(self)@.active == expected_active(old(self)@.rows),
    {
        self.active_tool = match self.last_index_open(None) {
            Some(i) => {
                let row = &self.rows[i];
                let desc = if row.desc.as_str().is_empty() {
                    "preparing arguments...".to_owned()
                } else {
                    row.desc.clone()
                };
                Some(ActiveToolInfo { name: row.name.clone(), desc, started_at: row.started_at })
            },
            None => None,
        };
    }

    /// Records what a tool event says of a call (see [`updated_row`] and
    /// [`new_row`]): the row with the update's call id is updated, or a new
    /// row is added, dropping the oldest beyond [`MAX_TOOL_ROWS`]. The
    /// touched row's flag of having more to show is recomputed
    /// (`edit_diff_lines` is the number of lines of the diff of its edit, see
    /// [`crate::tool_rows::edit_strings`]), and the call in progress with it.
    pub fn upsert_tool_row(&mut self, update: ToolRowUpdate, edit_diff_lines: Option<usize>)
        requires
            old(self).wf(),
        ensures
            final(self).wf(),
            upserted(
                old(self)@,
                update.call_id@,
                update.name@,
                update.state,
                update.desc@,
                update.arguments@,
                update.metadata,
                edit_diff_lines,
                final(self)@,
            ),
            match find_call(old(self)@.rows, update.call_id@, 0) {
                Some(i) => {
                    &&& final(self)@.rows.len() == old(self)@.rows.len()
                    &&& forall|j: int|
                        0 <= j < old(self)@.rows.len() && j != i ==> final(self)@.rows[j]
                            == old(self)@.rows[j]
                    &&& updated_row(old(self)@.rows[i], update, final(self)@.rows[i])
                    &&& expandable_ok(final(self)@.rows[i], edit_diff_lines)
                },
                None => {
                    let n = old(self)@.rows.len();
                    let kept = if n + 1 > MAX_TOOL_ROWS {
                        old(self)@.rows.drop_first()
                    } else {
                        old(self)@.rows
                    };
                    &&& final(self)@.rows.len() == kept.len() + 1
                    &&& final(self)@.rows.drop_last() == kept
                    &&& new_row(update, final(self)@.rows.last())
                    &&& expandable_ok(final(self)@.rows.last(), edit_diff_lines)
                },
            },
    {
        let ToolRowUpdate { call_id, name, state, desc, arguments, metadata } = update;
        let ghost u = update;
        match self.find_call_index(call_id) {
            Some(i) => {
                let mut row = self.rows.remove(i);
                let ghost before = row;
                row.name = name.to_owned();
                row.state = state;
                if !desc.as_str().is_empty() {
                    row.desc = bounded(desc, MAX_TOOL_ARGUMENT_BYTES);
                }
                if !arguments.as_str().is_empty() {
                    row.arguments = bounded(arguments, MAX_TOOL_ARGUMENT_BYTES);
                }
                if metadata.is_some() {
                    row.metadata = metadata;
                }
                row.expandable = row.compute_expandable(edit_diff_lines);
                assert(updated_row(before, u, row));
                self.rows.insert(i, row);
                assert(self.rows@ =~= old(self).rows@.update(i as int, row));
            },
            None => {
                let mut row = ToolRow {
                    call_id: bounded(call_id.to_owned(), MAX_IDENTITY_BYTES),
                    name: bounded(name.to_owned(), MAX_IDENTITY_BYTES),
                    desc: bounded(desc, MAX_TOOL_ARGUMENT_BYTES),
                    arguments: bounded(arguments, MAX_TOOL_ARGUMENT_BYTES),
                    output: String::new(),
                    state,
                    arguments_complete: false,
                    metadata,
                    started_at: now(),
                    expandable: false,
                };
                row.expandable = row.compute_expandable(edit_diff_lines);
                assert(new_row(u, row));
                self.rows.push(row);
                if self.rows.len() > MAX_TOOL_ROWS {
                    self.rows.remove(0);
                    assert(self.rows@.drop_last() =~= old(self).rows@.drop_first());
                } else {
                    assert(self.rows@.drop_last() =~= old(self).rows@);
                }
            },
        }
        self.refresh_active_tool();
    }

    /// Completes the row of a call (see [`completion_target`]): it becomes
    /// completed or failed, takes the output (bounded in length), and its
    /// flag of having more to show is recomputed (`edit_diff_lines` as for
    /// [`ToolRowTable::upsert_tool_row`]), and the call in progress with it.
    /// Returns whether there was such a row; with none, nothing changes.
    pub fn complete_tool_row(
        &mut self,
        call_id: &str,
        name: &str,
        success: bool,
        output: &str,
        edit_diff_lines: Option<usize>,
    ) -> (found: bool)
        requires
            old(self).wf(),
        ensures
            final(self).wf(),
            completed(old(self)@, call_id@, name@, success, output@, edit_diff_lines, final(self)@),
            found == completion_target(old(self)@.rows, call_id@, name@) is Some,
            !found ==> final(self)@.rows == old(self)@.rows,
            found ==> {
                let i = completion_target(old(self)@.rows, call_id@, name@)->0;
                let before = old(self)@.rows[i];
                let after = final(self)@.rows[i];
                &&& final(self)@.rows.len() == old(self)@.rows.len()
                &&& forall|j: int|
                    0 <= j < old(self)@.rows.len() && j != i ==> final(self)@.rows[j]
                        == old(self)@.rows[j]
                &&& after.state == if success {
                    ToolRowState::Completed
                } else {
                    ToolRowState::Failed
                }
                &&& after.output@ == bounded_text(output@, MAX_TOOL_OUTPUT_BYTES as int)
                &&& after.call_id == before.call_id
                &&& after.name == before.name
                &&& after.desc == before.desc
                &&& after.arguments == before.arguments
                &&& after.metadata == before.metadata
                &&& after.arguments_complete == before.arguments_complete
                &&& after.started_at == before.started_at
                &&& expandable_ok(after, edit_diff_lines)
            },
    {
        let found_index = if !call_id.is_empty() {
            let norm_id = Self::normalized_tool_call_id(call_id);
            match self.find_call_index(norm_id.as_str()) {
                Some(i) => Some(i),
                None => self.last_index_open(Some(name)),
            }
        } else {
            match self.last_index_open(Some(name)) {
                Some(i) => Some(i),
                None => self.last_index_open(None),
            }
        };
        let idx = match found_index {
            Some(i) => i,
            None => {
                return false;
            },
        };
        let mut row = self.rows.remove(idx);
        row.state = if success {
            ToolRowState::Completed
        } else {
            ToolRowState::Failed
        };
        row.output = bounded(output.to_owned(), MAX_TOOL_OUTPUT_BYTES);
        row.expandable = row.compute_expandable(edit_diff_lines);
        self.rows.insert(idx, row);
        assert(self.rows@ =~= old(self).rows@.update(idx as int, row));
        self.refresh_active_tool();
        true
    }

    /// Recomputes the flag of having more to show of the first row of call
    /// `call_id` (`edit_diff_lines` as for [`ToolRowTable::upsert_tool_row`]);
    /// with no such row, nothing changes.
    pub fn refresh_expandable(&mut self, call_id: &str, edit_diff_lines: Option<usize>)
        requires
            old(self).wf(),
        ensures
            final(self).wf(),
            final(self)@ == refreshed(old(self)@, call_id@, edit_diff_lines),
    {
        if let Some(i) = self.find_call_index(call_id) {
            let mut row = self.rows.remove(i);
            let ghost before = row;
            row.expandable = row.compute_expandable(edit_diff_lines);
            self.rows.insert(i, row);
            proof {
                assert(row == ToolRow { expandable: row.expandable, ..before });
                assert(self.rows@ =~= old(self).rows@.update(i as int, row));
                lemma_open_rows_unchanged(old(self)@.rows, i as int, row, old(self)@.rows.len() as int);
                let rows = old(self)@.rows;
                match last_index_where(rows, rows.len() as int, open_pred()) {
                    Some(k) => {
                        assert(self@.rows[k].name == rows[k].name);
                        assert(self@.rows[k].desc == rows[k].desc);
                        assert(self@.rows[k].started_at == rows[k].started_at);
                    },
                    None => {},
                }
                assert(expected_active(self@.rows) == expected_active(rows));
            }
        }
    }
}

impl ToolRowTable {
    /// Whether some call has not finished.
    pub fn has_unfinished_rows(&self) -> (b: bool)
        ensures
            b == exists|i: int| 0 <= i < self@.rows.len() && is_open(#[trigger] self@.rows[i].state),
    {
        let mut i: usize = 0;
        while i < self.rows.len()
            invariant
                i <= self@.rows.len(),
                self@.rows == self.rows@,
                forall|j: int| 0 <= j < i ==> !is_open(#[trigger] self@.rows[j].state),
            decreases self@.rows.len() - i,
        {
            if matches!(self.rows[i].state, ToolRowState::Pending | ToolRowState::Running) {
                assert(is_open(self@.rows[i as int].state));
                return true;
            }
            i = i + 1;
        }
        false
    }

    /// Marks every call that has not finished as failed, as when a turn is
    /// cut off; the other rows, and the order, stay. No call is then in
    /// progress.
    pub fn fail_unfinished_rows(&mut self)
        requires
            old(self).wf(),
        ensures
            final(self).wf(),
            unfinished_failed(old(self)@, final(self)@),
            final(self)@.active is None,
            final(self)@.rows.len() == old(self)@.rows.len(),
            forall|i: int|
                0 <= i < old(self)@.rows.len() ==> #[trigger] final(self)@.rows[i] == if is_open(
                    old(self)@.rows[i].state,
                ) {
                    ToolRow { state: ToolRowState::Failed, ..old(self)@.rows[i] }
                } else {
                    old(self)@.rows[i]
                },
    {
        let mut i: usize = 0;
        while i < self.rows.len()
            invariant
                i <= self.rows@.len(),
                self.rows@.len() == old(self)@.rows.len(),
                forall|j: int|
                    0 <= j < i ==> #[trigger] self.rows@[j] == if is_open(old(self)@.rows[j].state) {
                        ToolRow { state: ToolRowState::Failed, ..old(self)@.rows[j] }
                    } else {
                        old(self)@.rows[j]
                    },
                forall|j: int| i <= j < self.rows@.len() ==> #[trigger] self.rows@[j] == old(self)@.rows[j],
            decreases self.rows@.len() - i,
        {
            if matches!(self.rows[i].state, ToolRowState::Pending | ToolRowState::Running) {
                let mut row = self.rows.remove(i);
                row.state = ToolRowState::Failed;
                self.rows.insert(i, row);
            }
            i = i + 1;
        }
        self.active_tool = None;
        proof {
            lemma_no_open_rows(self.rows@, self.rows@.len() as int);
        }
    }

    /// Empties the table.
    pub fn clear(&mut self)
        ensures
            final(self).wf(),
            final(self)@.rows.len() == 0,
            final(self)@.active is None,
    {
        self.rows = Vec::new();
        self.active_tool = None;
    }
}

// ---------------------------------------------------------------------------
// What tool events do to a row
// ---------------------------------------------------------------------------

/// The target a call of tool `name` shows once its arguments read as JSON,
/// empty when they do not.
pub open spec fn target_from_args(name: Seq<char>, arguments: Seq<char>) -> Seq<char> {
    match parsed_json(arguments) {
        Some(a) => tool_target(name, effective_args(Some(a))),
        None => Seq::empty(),
    }
}

/// The table with row `i` replaced by `row`, its call in progress following.
pub open spec fn with_row(t: ToolTableView, i: int, row: ToolRow) -> ToolTableView {
    let rows = t.rows.update(i, row);
    ToolTableView { rows, active: expected_active(rows) }
}

/// More argument text of call `id`: the first row of that call takes it
/// (bounded in length) and, when the arguments then read as JSON with a
/// target, shows that target. Without such a row nothing changes.
pub open spec fn args_appended(t: ToolTableView, id: Seq<char>, delta: Seq<char>, edl: Option<usize>, u: ToolTableView) -> bool {
    match find_call(t.rows, id, 0) {
        None => u == t,
        Some(i) => {
            let before = t.rows[i];
            let args = bounded_text(before.arguments@ + delta, MAX_TOOL_ARGUMENT_BYTES as int);
            let target = target_from_args(before.name@, args);
            let after = u.rows[i];
            &&& after.arguments@ == args
            &&& after.desc@ == if target.len() > 0 {
                bounded_text(target, MAX_TOOL_ARGUMENT_BYTES as int)
            } else {
                before.desc@
            }
            &&& expandable_ok(after, edl)
            &&& after == ToolRow {
                arguments: after.arguments,
                desc: after.desc,
                expandable: after.expandable,
                ..before
            }
            &&& u == with_row(t, i, after)
        },
    }
}

/// The arguments of call `id` are complete: the first row of that call is
/// marked so, takes the metadata when there is some, and, while it still
/// shows `"preparing arguments..."`, shows the target its arguments give.
/// Without such a row nothing changes.
pub open spec fn args_ended(t: ToolTableView, id: Seq<char>, metadata: Option<JsonValue>, edl: Option<usize>, u: ToolTableView) -> bool {
    match find_call(t.rows, id, 0) {
        None => u == t,
        Some(i) => {
            let before = t.rows[i];
            let target = target_from_args(before.name@, before.arguments@);
            let after = u.rows[i];
            &&& after.arguments_complete
            &&& after.metadata == if metadata is Some {
                metadata
            } else {
                before.metadata
            }
            &&& after.desc@ == if before.desc@ == preparing_desc() && target.len() > 0 {
                bounded_text(target, MAX_TOOL_ARGUMENT_BYTES as int)
            } else {
                before.desc@
            }
            &&& expandable_ok(after, edl)
            &&& after == ToolRow {
                arguments_complete: after.arguments_complete,
                metadata: after.metadata,
                desc: after.desc,
                expandable: after.expandable,
                ..before
            }
            &&& u == with_row(t, i, after)
        },
    }
}

/// A finished call reported for the first row of call `id`: it takes the
/// tool's name, the target while it shows none or `"preparing
/// arguments..."`, and the arguments when the report has them (bounded).
/// Without such a row nothing changes.
pub open spec fn row_revised(
    t: ToolTableView,
    id: Seq<char>,
    name: Seq<char>,
    target: Seq<char>,
    arguments: Option<Seq<char>>,
    edl: Option<usize>,
    u: ToolTableView,
) -> bool {
    match find_call(t.rows, id, 0) {
        None => u == t,
        Some(i) => {
            let before = t.rows[i];
            let after = u.rows[i];
            &&& after.name@ == name
            &&& after.desc@ == if target.len() > 0 && (before.desc@ == preparing_desc()
                || before.desc@.len() == 0) {
                bounded_text(target, MAX_TOOL_ARGUMENT_BYTES as int)
            } else {
                before.desc@
            }
            &&& after.arguments@ == match arguments {
                Some(a) => bounded_text(a, MAX_TOOL_ARGUMENT_BYTES as int),
                None => before.arguments@,
            }
            &&& expandable_ok(after, edl)
            &&& after == ToolRow {
                name: after.name,
                desc: after.desc,
                arguments: after.arguments,
                expandable: after.expandable,
                ..before
            }
            &&& u == with_row(t, i, after)
        },
    }
}

/// The output a call cut off by the end of its generation shows.
pub open spec fn cut_off_output() -> Seq<char> {
    "generation ended before tool completion"@
}

/// Every unfinished call fails, showing [`cut_off_output`]; nothing is then
/// in progress.
pub open spec fn unfinished_ended(t: ToolTableView, u: ToolTableView) -> bool {
    &&& table_ok(u)
    &&& u.active is None
    &&& u.rows.len() == t.rows.len()
    &&& forall|i: int|
        0 <= i < t.rows.len() ==> if is_open(t.rows[i].state) {
            &&& (#[trigger] u.rows[i]).state == ToolRowState::Failed
            &&& u.rows[i].output@ == cut_off_output()
            &&& u.rows[i] == ToolRow { state: u.rows[i].state, output: u.rows[i].output, ..t.rows[i] }
        } else {
            u.rows[i] == t.rows[i]
        }
}

/// The row a finished call is reported for: the first row of call `id`,
/// else the latest unfinished row of the same tool; with no call id, the
/// latest unfinished row of the same tool, else the latest unfinished row.
pub open spec fn reported_row(rows: Seq<ToolRow>, id: Seq<char>, name: Seq<char>) -> Option<int> {
    let n = rows.len() as int;
    if id.len() > 0 {
        match find_call(rows, id, 0) {
            Some(i) => Some(i),
            None => last_index_where(rows, n, open_named_pred(name)),
        }
    } else {
        match last_index_where(rows, n, open_named_pred(name)) {
            Some(i) => Some(i),
            None => last_index_where(rows, n, open_pred()),
        }
    }
}

impl ToolRowTable {
    fn target_of(name: &str, arguments: &str) -> (r: String)
        ensures
            r@ == target_from_args(name@, arguments@),
    {
        match crate::json::parse_json(arguments) {
            Some(a) => {
                let (_, _, d) = tool_target_and_verbs(name, Some(&a));
                d
            },
            None => String::new(),
        }
    }

    /// Takes more argument text of a call (see [`args_appended`]).
    pub fn append_arguments(&mut self, call_id: &str, delta: &str, edit_diff_lines: Option<usize>)
        requires
            old(self).wf(),
        ensures
            final(self).wf(),
            args_appended(old(self)@, call_id@, delta@, edit_diff_lines, final(self)@),
    {
        if let Some(i) = self.find_call_index(call_id) {
            let mut row = self.rows.remove(i);
            let ghost before = row;
            let mut args = row.arguments.clone();
            crate::strings::string_push_str(&mut args, delta);
            row.arguments = bounded(args, MAX_TOOL_ARGUMENT_BYTES);
            let target = Self::target_of(row.name.as_str(), row.arguments.as_str());
            if !target.as_str().is_empty() {
                row.desc = bounded(target, MAX_TOOL_ARGUMENT_BYTES);
            }
            row.expandable = row.compute_expandable(edit_diff_lines);
            self.rows.insert(i, row);
            assert(self.rows@ =~= old(self).rows@.update(i as int, row));
            self.refresh_active_tool();
        }
    }

    /// Marks the arguments of a call complete (see [`args_ended`]).
    pub fn end_arguments(&mut self, call_id: &str, metadata: Option<JsonValue>, edit_diff_lines: Option<usize>)
        requires
            old(self).wf(),
        ensures
            final(self).wf(),
            args_ended(old(self)@, call_id@, metadata, edit_diff_lines, final(self)@),
    {
        if let Some(i) = self.find_call_index(call_id) {
            let mut row = self.rows.remove(i);
            row.arguments_complete = true;
            if metadata.is_some() {
                row.metadata = metadata;
            }
            if str_eq(row.desc.as_str(), "preparing arguments...") {
                let target = Self::target_of(row.name.as_str(), row.arguments.as_str());
                if !target.as_str().is_empty() {
                    row.desc = bounded(target, MAX_TOOL_ARGUMENT_BYTES);
                }
            }
            row.expandable = row.compute_expandable(edit_diff_lines);
            self.rows.insert(i, row);
            assert(self.rows@ =~= old(self).rows@.update(i as int, row));
            self.refresh_active_tool();
        }
    }

    /// Revises the row of a finished call (see [`row_revised`]).
    pub fn revise_row(
        &mut self,
        call_id: &str,
        name: &str,
        target: &str,
        arguments: Option<String>,
        edit_diff_lines: Option<usize>,
    )
        requires
            old(self).wf(),
        ensures
            final(self).wf(),
            row_revised(
                old(self)@,
                call_id@,
                name@,
                target@,
                match arguments {
                    Some(a) => Some(a@),
                    None => None,
                },
                edit_diff_lines,
                final(self)@,
            ),
    {
        if let Some(i) = self.find_call_index(call_id) {
            let mut row = self.rows.remove(i);
            row.name = name.to_owned();
            if !target.is_empty() && (str_eq(row.desc.as_str(), "preparing arguments...")
                || row.desc.as_str().is_empty()) {
                row.desc = bounded(target.to_owned(), MAX_TOOL_ARGUMENT_BYTES);
            }
            if let Some(a) = arguments {
                row.arguments = bounded(a, MAX_TOOL_ARGUMENT_BYTES);
            }
            row.expandable = row.compute_expandable(edit_diff_lines);
            self.rows.insert(i, row);
            assert(self.rows@ =~= old(self).rows@.update(i as int, row));
            self.refresh_active_tool();
        }
    }

    /// Ends every unfinished call (see [`unfinished_ended`]).
    pub fn end_unfinished_rows(&mut self)
        requires
            old(self).wf(),
        ensures
            final(self).wf(),
            unfinished_ended(old(self)@, final(self)@),
    {
        let mut i: usize = 0;
        while i < self.rows.len()
            invariant
                i <= self.rows@.len(),
                self.rows@.len() == old(self)@.rows.len(),
                forall|j: int|
                    0 <= j < i ==> if is_open(old(self)@.rows[j].state) {
                        &&& (#[trigger] self.rows@[j]).state == ToolRowState::Failed
                        &&& self.rows@[j].output@ == cut_off_output()
                        &&& self.rows@[j] == ToolRow {
                            state: self.rows@[j].state,
                            output: self.rows@[j].output,
                            ..old(self)@.rows[j]
                        }
                    } else {
                        self.rows@[j] == old(self)@.rows[j]
                    },
                forall|j: int| i <= j < self.rows@.len() ==> #[trigger] self.rows@[j] == old(self)@.rows[j],
            decreases self.rows@.len() - i,
        {
            if matches!(self.rows[i].state, ToolRowState::Pending | ToolRowState::Running) {
                let mut row = self.rows.remove(i);
                row.state = ToolRowState::Failed;
                row.output = "generation ended before tool completion".to_owned();
                self.rows.insert(i, row);
            }
            i = i + 1;
        }
        self.active_tool = None;
        proof {
            lemma_no_open_rows(self.rows@, self.rows@.len() as int);
        }
    }

    /// The call id of the row a finished call is reported for (see
    /// [`reported_row`]).
    pub fn reported_call(&self, call_id: &str, name: &str) -> (r: Option<String>)
        ensures
            match reported_row(self@.rows, call_id@, name@) {
                Some(i) => r matches Some(id) && id@ == self@.rows[i].call_id@,
                None => r is None,
            },
    {
        let found = if !call_id.is_empty() {
            match self.find_call_index(call_id) {
                Some(i) => Some(i),
                None => self.last_index_open(Some(name)),
            }
        } else {
            match self.last_index_open(Some(name)) {
                Some(i) => Some(i),
                None => self.last_index_open(None),
            }
        };
        match found {
            Some(i) => Some(self.rows[i].call_id.clone()),
            None => None,
        }
    }
}

/// With no unfinished row among the first `n`, there is no latest one.
proof fn lemma_no_open_rows(rows: Seq<ToolRow>, n: int)
    requires
        n <= rows.len(),
        forall|j: int| 0 <= j < n ==> !is_open(#[trigger] rows[j].state),
    ensures
        last_index_where(rows, n, open_pred()) is None,
    decreases n,
{
    if n > 0 {
        lemma_no_open_rows(rows, n - 1);
    }
}

/// The table after the flag of having more to show of the first row of call
/// `call_id` is recomputed; with no such row, the table as it was.
pub open spec fn refreshed(t: ToolTableView, call_id: Seq<char>, edit_diff_lines: Option<usize>) -> ToolTableView {
    match find_call(t.rows, call_id, 0) {
        Some(i) => {
            let before = t.rows[i];
            let after = ToolRow {
                expandable: row_expandable(before, parsed_json(before.arguments@), opt_nat(edit_diff_lines)),
                ..before
            };
            ToolTableView { rows: t.rows.update(i, after), active: t.active }
        },
        None => t,
    }
}

/// Changing a row in a way that keeps its state leaves the latest unfinished
/// row among the first `n` where it was.
proof fn lemma_open_rows_unchanged(rows: Seq<ToolRow>, i: int, row: ToolRow, n: int)
    requires
        0 <= i < rows.len(),
        row.state == rows[i].state,
    ensures
        last_index_where(rows.update(i, row), n, open_pred()) == last_index_where(rows, n, open_pred()),
        last_index_where(rows, n, open_pred()) matches Some(k) ==> 0 <= k < n,
    decreases n,
{
    if 0 < n <= rows.len() {
        lemma_open_rows_unchanged(rows, i, row, n - 1);
    }
}

/// An optional position as an integer.
pub open spec fn opt_int(o: Option<usize>) -> Option<int> {
    match o {
        Some(i) => Some(i as int),
        None => None,
    }
}

} // verus!
