//! The session picker: saved sessions, filtered by title, id or workspace.
use vstd::prelude::*;

use super::common::{
    cycle_next_or_reset, cycle_prev, cycle_prev_or_reset, deref_seq, filter_by,
    first_index_or_zero, lemma_filter_by_len, lemma_filter_by_step, lemma_first_index_absent,
    lemma_first_index_found, next_index,
};
use crate::cells::{cell_width, text_cell_width, truncate_with_ellipsis, truncated_title};
use crate::commands::clock_millis;
use crate::layout::{scroll_for, window_len};
use crate::numfmt::{decimal, i64_to_decimal, push_decimal, signed_decimal};
use crate::search::{lower_contains, lowercase_contains, seq_contains, str_contains};
use crate::strings::{lowercase, string_pop, string_push, string_push_str, to_lowercase};

verus! {

broadcast use vstd::string::group_string_axioms;

/// Whether a session's agent is working.
#[derive(Debug, Clone, Copy, PartialEq, Eq, Structural)]
pub enum SessionStatus {
    Idle,
    Running,
}

/// A saved conversation.
#[derive(Debug, Clone, PartialEq, Eq)]
pub struct Session {
    pub id: i64,
    pub title: String,
    pub workspace_id: i64,
    pub status: SessionStatus,
    pub pinned: bool,
}

/// State of the session picker.
#[derive(Debug, Clone, PartialEq, Eq)]
pub struct SessionsDialogState {
    pub items: Vec<Session>,
    pub selected: usize,
    pub filter: String,
    pub scroll_offset: usize,
}

/// A session matches a lowercased query when its title contains it ignoring
/// case, when its id's digits contain it, or when its workspace tag
/// `"ws#<workspace>"` contains it ignoring case.
pub open spec fn session_matches(s: Session, q: Seq<char>) -> bool {
    ||| lower_contains(s.title@, q)
    ||| seq_contains(signed_decimal(s.id as int), q)
    ||| lower_contains("ws#"@ + signed_decimal(s.workspace_id as int), q)
}

pub open spec fn session_filter(q: Seq<char>) -> spec_fn(Session) -> bool {
    |s: Session| session_matches(s, q)
}

/// The sessions the picker lists: all of them for an empty filter, otherwise
/// those matching the lowercased filter, in order.
pub open spec fn visible_sessions(items: Seq<Session>, filter: Seq<char>) -> Seq<Session> {
    if filter.len() == 0 {
        items
    } else {
        filter_by(items, session_filter(lowercase(filter)))
    }
}

pub open spec fn session_has_id(id: i64) -> spec_fn(Session) -> bool {
    |s: Session| s.id == id
}

pub open spec fn session_lacks_id(id: i64) -> spec_fn(Session) -> bool {
    |s: Session| s.id != id
}

/// The selection after removing entries: 0 for an empty list, the last entry
/// when past the end, otherwise unchanged.
pub open spec fn clamp_selection(selected: nat, count: nat) -> nat {
    if count == 0 {
        0
    } else if selected >= count {
        (count - 1) as nat
    } else {
        selected
    }
}

fn workspace_tag(ws: i64) -> (s: String)
    ensures
        s@ == "ws#"@ + signed_decimal(ws as int),
{
    let mut s = "ws#".to_owned();
    let d = i64_to_decimal(ws);
    string_push_str(&mut s, d.as_str());
    s
}

impl SessionsDialogState {
    /// The picker over `items`, with the session `active_session_id` selected
    /// (the first session when it is absent or not listed).
    pub fn new(items: Vec<Session>, active_session_id: Option<i64>) -> (s: Self)
        ensures
            s.items == items,
            s.selected == match active_session_id {
                Some(id) => first_index_or_zero(items@, session_has_id(id)),
                None => 0,
            },
            s.filter@.len() == 0,
            s.scroll_offset == 0,
    {
        let selected = match active_session_id {
            None => 0,
            Some(id) => {
                let mut i: usize = 0;
                while i < items.len() && items[i].id != id
                    invariant
                        i <= items@.len(),
                        forall|j: int| 0 <= j < i ==> !session_has_id(id)(items@[j]),
                    decreases items@.len() - i,
                {
                    i = i + 1;
                }
                if i < items.len() {
                    proof {
                        lemma_first_index_found(items@, session_has_id(id), i as int);
                    }
                    i
                } else {
                    proof {
                        lemma_first_index_absent(items@, session_has_id(id));
                    }
                    0
                }
            },
        };
        SessionsDialogState { items, selected, filter: String::new(), scroll_offset: 0 }
    }

    /// The sessions currently listed (see [`visible_sessions`]).
    pub fn filtered_items(&self) -> (r: Vec<&Session>)
        ensures
            deref_seq(r@) == visible_sessions(self.items@, self.filter@),
    {
        let mut out: Vec<&Session> = Vec::new();
        if self.filter.as_str().is_empty() {
            let mut i: usize = 0;
            while i < self.items.len()
                invariant
                    i <= self.items@.len(),
                    deref_seq(out@) == self.items@.take(i as int),
                decreases self.items@.len() - i,
            {
                let ghost prev = out@;
                let a = &self.items[i];
                out.push(a);
                assert(out@ == prev.push(a));
                assert(*a == self.items@[i as int]);
                assert(deref_seq(out@) =~= deref_seq(prev).push(*a));
                assert(self.items@.take(i as int + 1) =~= self.items@.take(i as int).push(*a));
                i = i + 1;
                assert(deref_seq(out@) =~= self.items@.take(i as int));
            }
            assert(self.items@.take(self.items@.len() as int) =~= self.items@);
            return out;
        }
        let q = to_lowercase(self.filter.as_str());
        let ghost p = session_filter(q@);
        let mut i: usize = 0;
        assert(deref_seq(out@) =~= filter_by(self.items@.take(0), p));
        while i < self.items.len()
            invariant
                i <= self.items@.len(),
                p == session_filter(q@),
                deref_seq(out@) == filter_by(self.items@.take(i as int), p),
            decreases self.items@.len() - i,
        {
            let a = &self.items[i];
            let id_text = i64_to_decimal(a.id);
            let tag = workspace_tag(a.workspace_id);
            let hit = lowercase_contains(a.title.as_str(), q.as_str()) || str_contains(
                id_text.as_str(),
                q.as_str(),
            ) || lowercase_contains(tag.as_str(), q.as_str());
            proof {
                lemma_filter_by_step(self.items@, p, i as int);
                assert(hit == p(self.items@[i as int]));
            }
            let ghost prev = out@;
            if hit {
                out.push(a);
                assert(deref_seq(out@) =~= deref_seq(prev).push(*a));
            }
            i = i + 1;
            assert(deref_seq(out@) =~= filter_by(self.items@.take(i as int), p));
        }
        assert(self.items@.take(self.items@.len() as int) =~= self.items@);
        out
    }

    /// The highlighted session: none when nothing is listed, otherwise the
    /// listed session at the selection, clamped to the last one.
    pub fn selected_session(&self) -> (r: Option<&Session>)
        ensures
            ({
                let v = visible_sessions(self.items@, self.filter@);
                if v.len() == 0 {
                    r is None
                } else {
                    r matches Some(a) && *a == v[if self.selected < v.len() {
                        self.selected as int
                    } else {
                        v.len() - 1
                    }]
                }
            }),
    {
        let filtered = self.filtered_items();
        if filtered.len() == 0 {
            return None;
        }
        let idx = if self.selected < filtered.len() {
            self.selected
        } else {
            filtered.len() - 1
        };
        Some(filtered[idx])
    }

    /// Moves the selection down, wrapping; an empty list resets it to 0.
    pub fn next(&mut self)
        ensures
            final(self).selected == cycle_next_or_reset(
                old(self).selected as nat,
                visible_sessions(old(self).items@, old(self).filter@).len(),
            ),
            final(self).items == old(self).items,
            final(self).filter == old(self).filter,
            final(self).scroll_offset == old(self).scroll_offset,
    {
        let count = self.filtered_items().len();
        if count > 0 {
            self.selected = next_index(self.selected, count);
        } else {
            self.selected = 0;
        }
    }

    /// Moves the selection up, wrapping (also from past the end); an empty
    /// list resets it to 0.
    pub fn previous(&mut self)
        ensures
            final(self).selected == cycle_prev_or_reset(
                old(self).selected as nat,
                visible_sessions(old(self).items@, old(self).filter@).len(),
            ),
            final(self).items == old(self).items,
            final(self).filter == old(self).filter,
            final(self).scroll_offset == old(self).scroll_offset,
    {
        let count = self.filtered_items().len();
        if count > 0 {
            self.selected = if self.selected == 0 || self.selected >= count {
                count - 1
            } else {
                self.selected - 1
            };
        } else {
            self.selected = 0;
        }
    }

    /// Types a character into the filter; the selection and scroll return to
    /// the top.
    pub fn push_char(&mut self, c: char)
        ensures
            final(self).filter@ == old(self).filter@.push(c),
            final(self).selected == 0,
            final(self).scroll_offset == 0,
            final(self).items == old(self).items,
    {
        string_push(&mut self.filter, c);
        self.selected = 0;
        self.scroll_offset = 0;
    }

    /// Deletes the filter's last character (if any); the selection and
    /// scroll return to the top.
    pub fn pop_char(&mut self)
        ensures
            final(self).filter@ == if old(self).filter@.len() > 0 {
                old(self).filter@.drop_last()
            } else {
                old(self).filter@
            },
            final(self).selected == 0,
            final(self).scroll_offset == 0,
            final(self).items == old(self).items,
    {
        string_pop(&mut self.filter);
        self.selected = 0;
        self.scroll_offset = 0;
    }

    /// Removes every session with id `id`, then keeps the selection within the
    /// listed sessions (see [`clamp_selection`]).
    pub fn remove_item(&mut self, id: i64)
        ensures
            final(self).items@ == filter_by(old(self).items@, session_lacks_id(id)),
            final(self).filter == old(self).filter,
            final(self).scroll_offset == old(self).scroll_offset,
            final(self).selected == clamp_selection(
                old(self).selected as nat,
                visible_sessions(final(self).items@, final(self).filter@).len(),
            ),
    {
        let ghost orig = self.items@;
        let ghost keep = session_lacks_id(id);
        let mut i: usize = 0;
        let ghost mut j: int = 0;
        assert(self.items@ =~= filter_by(orig.take(0), keep) + orig.skip(0));
        while i < self.items.len()
            invariant
                0 <= j <= orig.len(),
                i == filter_by(orig.take(j), keep).len(),
                self.items@ == filter_by(orig.take(j), keep) + orig.skip(j),
                keep == session_lacks_id(id),
                self.filter == old(self).filter,
                self.scroll_offset == old(self).scroll_offset,
                self.selected == old(self).selected,
            decreases self.items@.len() - i,
        {
            proof {
                lemma_filter_by_step(orig, keep, j);
                assert(self.items@[i as int] == orig[j]);
            }
            if self.items[i].id == id {
                let ghost before = self.items@;
                self.items.remove(i);
                proof {
                    assert(self.items@ =~= filter_by(orig.take(j + 1), keep) + orig.skip(j + 1));
                    j = j + 1;
                }
            } else {
                proof {
                    assert(self.items@ =~= filter_by(orig.take(j + 1), keep) + orig.skip(j + 1));
                    j = j + 1;
                }
                i = i + 1;
            }
        }
        proof {
            assert(j == orig.len()) by {
                if j < orig.len() {
                    assert(self.items@.len() > i);
                }
            }
            assert(orig.take(j) =~= orig);
            assert(orig.skip(j) =~= Seq::<Session>::empty());
            assert(self.items@ =~= filter_by(orig, keep));
        }
        let count = self.filtered_items().len();
        if count == 0 {
            self.selected = 0;
        } else if self.selected >= count {
            self.selected = count - 1;
        }
    }
}

/// The texts of a row of the session list, as drawn from left to right.
#[derive(Debug, Clone, PartialEq, Eq)]
pub struct SessionRow {
    /// `" › "` on the selected row, else blank.
    pub cursor: &'static str,
    /// `"● "` on the active session, else blank.
    pub dot: &'static str,
    /// Workspace, id, a star when pinned, and the title fitted to the row.
    pub title: String,
    /// Spaces between the title and the badge.
    pub pad: usize,
    /// `"[active]"`, `"[running]"`, `"[pinned]"` or nothing.
    pub badge: &'static str,
}

/// `n`, or the largest `usize` when `n` is larger.
pub open spec fn capped(n: int) -> int {
    if n > usize::MAX {
        usize::MAX as int
    } else {
        n
    }
}

/// `a - b`, or 0 when `b` is larger.
pub open spec fn sat_sub(a: int, b: int) -> nat {
    if a > b {
        (a - b) as nat
    } else {
        0
    }
}

/// What stands before a session's title: its workspace, its id, and a star
/// when it is pinned.
pub open spec fn title_prefix(s: Session) -> Seq<char> {
    "ws#"@ + signed_decimal(s.workspace_id as int) + " #"@ + signed_decimal(s.id as int) + " "@ + (
    if s.pinned {
        "★ "@
    } else {
        ""@
    })
}

/// The badge of a session: active, running or pinned, in that order.
pub open spec fn badge_text(s: Session, active: bool) -> Seq<char> {
    if active {
        "[active]"@
    } else if s.status == SessionStatus::Running {
        "[running]"@
    } else if s.pinned {
        "[pinned]"@
    } else {
        ""@
    }
}

pub open spec fn cursor_text(selected: bool) -> Seq<char> {
    if selected {
        " › "@
    } else {
        "   "@
    }
}

pub open spec fn dot_text(active: bool) -> Seq<char> {
    if active {
        "● "@
    } else {
        "  "@
    }
}

/// The title fitted to a row `width` cells wide: what is left once the
/// cursor, dot, prefix and badge are drawn, less two cells, holds the title
/// (see [`truncated_title`]); cells are counted up to the largest `usize`.
pub open spec fn fitted_title(s: Session, selected: bool, active: bool, width: nat) -> Seq<char> {
    let lead = cell_width(cursor_text(selected) + dot_text(active) + title_prefix(s));
    let badge = cell_width(badge_text(s, active));
    title_prefix(s) + truncated_title(s.title@, sat_sub(width as int, capped((lead + badge + 2) as int)))
}

/// The spaces that push the badge to the end of a row `width` cells wide
/// (cells counted up to the largest `usize`).
pub open spec fn row_pad(s: Session, selected: bool, active: bool, width: nat) -> nat {
    let shown = cell_width(
        cursor_text(selected) + dot_text(active) + fitted_title(s, selected, active, width),
    );
    sat_sub(width as int, capped((shown + cell_width(badge_text(s, active))) as int))
}

/// `a + b + c`, or the largest `usize` when that does not fit.
pub(crate) fn sum3(a: usize, b: usize, c: usize) -> (r: usize)
    ensures
        r == if a + b + c > usize::MAX {
            usize::MAX as int
        } else {
            a + b + c
        },
{
    a.saturating_add(b).saturating_add(c)
}

/// The row of the session list for `session`, `row_width` cells wide (see
/// [`fitted_title`] and [`row_pad`]).
pub fn session_row(session: &Session, is_selected: bool, is_active: bool, row_width: usize) -> (r: SessionRow)
    ensures
        r.cursor@ == cursor_text(is_selected),
        r.dot@ == dot_text(is_active),
        r.badge@ == badge_text(*session, is_active),
        r.title@ == fitted_title(*session, is_selected, is_active, row_width as nat),
        r.pad == row_pad(*session, is_selected, is_active, row_width as nat),
{
    let cursor = if is_selected {
        " › "
    } else {
        "   "
    };
    let dot = if is_active {
        "● "
    } else {
        "  "
    };
    let badge = if is_active {
        "[active]"
    } else if session.status == SessionStatus::Running {
        "[running]"
    } else if session.pinned {
        "[pinned]"
    } else {
        ""
    };
    let mut prefix = "ws#".to_owned();
    let ws = i64_to_decimal(session.workspace_id);
    string_push_str(&mut prefix, ws.as_str());
    string_push_str(&mut prefix, " #");
    let id = i64_to_decimal(session.id);
    string_push_str(&mut prefix, id.as_str());
    string_push_str(&mut prefix, " ");
    if session.pinned {
        string_push_str(&mut prefix, "★ ");
    }
    proof {
        reveal_strlit("");
        assert(prefix@ =~= title_prefix(*session));
    }
    let mut lead = cursor.to_owned();
    string_push_str(&mut lead, dot);
    string_push_str(&mut lead, prefix.as_str());
    let lead_len = text_cell_width(lead.as_str());
    let badge_len = text_cell_width(badge);
    let taken = sum3(lead_len, badge_len, 2);
    let available = row_width.saturating_sub(taken);
    let shown_title = truncate_with_ellipsis(session.title.as_str(), available);
    let mut title = prefix;
    string_push_str(&mut title, shown_title.as_str());
    let mut full = cursor.to_owned();
    string_push_str(&mut full, dot);
    string_push_str(&mut full, title.as_str());
    proof {
        assert(full@ =~= cursor@ + dot@ + title@);
    }
    let full_len = text_cell_width(full.as_str());
    let pad = row_width.saturating_sub(full_len.saturating_add(badge_len));
    SessionRow { cursor, dot, title, pad, badge }
}


/// What the session picker shows.
#[derive(Debug, Clone, PartialEq, Eq)]
pub struct SessionListView {
    /// The title, with the number of sessions (listed of all, when filtered).
    pub title: String,
    /// The rows in the list's window.
    pub rows: Vec<SessionRow>,
    /// The note shown when no session is listed.
    pub empty_note: Option<String>,
}

/// `r` is the row of session `s` (see [`session_row`]).
pub open spec fn session_row_ok(r: SessionRow, s: Session, selected: bool, active: bool, width: nat) -> bool {
    &&& r.cursor@ == cursor_text(selected)
    &&& r.dot@ == dot_text(active)
    &&& r.badge@ == badge_text(s, active)
    &&& r.title@ == fitted_title(s, selected, active, width)
    &&& r.pad == row_pad(s, selected, active, width)
}

/// What the picker shows with `listed` sessions listed out of its items, the
/// session `active` in use, a window of `height` rows and rows `width` cells
/// wide: the selection is kept inside the list and the window scrolled to it.
pub open spec fn session_list_ok(
    v: SessionListView,
    d: SessionsDialogState,
    listed: Seq<Session>,
    active: Option<i64>,
    height: nat,
    width: nat,
) -> bool {
    let total = d.items@.len();
    let sel = clamp_selection(d.selected as nat, listed.len());
    let start = scroll_for(sel, height);
    &&& v.title@ == if d.filter@.len() == 0 {
        " Sessions ("@ + decimal(total) + ") "@
    } else {
        " Sessions ("@ + decimal(listed.len()) + "/"@ + decimal(total) + ") "@
    }
    &&& if listed.len() == 0 {
        &&& v.rows@.len() == 0
        &&& v.empty_note matches Some(n) && n@ == "  No sessions matching \""@ + d.filter@ + "\""@
    } else {
        &&& v.empty_note is None
        &&& v.rows@.len() == window_len(listed.len(), sel, height)
        &&& forall|i: int|
            0 <= i < v.rows@.len() ==> session_row_ok(
                #[trigger] v.rows@[i],
                listed[start + i],
                start + i == sel,
                active == Some(listed[start + i].id),
                width,
            )
    }
}

impl SessionsDialogState {
    /// What the picker shows (see [`session_list_ok`]), with `listed` the
    /// sessions it lists (as [`SessionsDialogState::filtered_items`] gives
    /// them), `active_session_id` the session in use, a window of
    /// `list_height` rows and rows `row_width` cells wide.
    pub fn session_list_view(
        &self,
        listed: &[&Session],
        active_session_id: Option<i64>,
        list_height: usize,
        row_width: usize,
    ) -> (r: SessionListView)
        ensures
            session_list_ok(r, *self, deref_seq(listed@), active_session_id, list_height as nat, row_width as nat),
    {
        let total = self.items.len();
        let mut title = " Sessions (".to_owned();
        if !self.filter.as_str().is_empty() {
            push_decimal(&mut title, listed.len() as u64);
            string_push_str(&mut title, "/");
        }
        push_decimal(&mut title, total as u64);
        string_push_str(&mut title, ") ");
        let ghost ls = deref_seq(listed@);
        if listed.len() == 0 {
            let mut note = "  No sessions matching \"".to_owned();
            string_push_str(&mut note, self.filter.as_str());
            string_push_str(&mut note, "\"");
            return SessionListView { title, rows: Vec::new(), empty_note: Some(note) };
        }
        let sel: usize = if self.selected >= listed.len() {
            listed.len() - 1
        } else {
            self.selected
        };
        let start: usize = if sel >= list_height {
            sel + 1 - list_height
        } else {
            0
        };
        let count: usize = if start >= listed.len() {
            0
        } else if listed.len() - start < list_height {
            listed.len() - start
        } else {
            list_height
        };
        let mut rows: Vec<SessionRow> = Vec::new();
        let mut i: usize = 0;
        while i < count
            invariant
                i <= count,
                sel == clamp_selection(self.selected as nat, ls.len()),
                count == window_len(ls.len(), sel as nat, list_height as nat),
                start == scroll_for(sel as nat, list_height as nat),
                count == 0 || start + count <= listed@.len(),
                ls == deref_seq(listed@),
                rows@.len() == i,
                forall|j: int|
                    0 <= j < i ==> session_row_ok(
                        #[trigger] rows@[j],
                        ls[start + j],
                        start + j == sel,
                        active_session_id == Some(ls[start + j].id),
                        row_width as nat,
                    ),
            decreases count - i,
        {
            let idx = start + i;
            let s: &Session = listed[idx];
            assert(ls[idx as int] == *s);
            let active = match active_session_id {
                Some(id) => id == s.id,
                None => false,
            };
            let row = session_row(s, idx == sel, active, row_width);
            rows.push(row);
            i = i + 1;
        }
        SessionListView { title, rows, empty_note: None }
    }
}


// ---------------------------------------------------------------------------
// The session panel
// ---------------------------------------------------------------------------

/// A line of the session panel.
#[derive(Debug, Clone, Copy, PartialEq, Eq, Structural)]
pub enum PanelLine {
    /// The heading of a run of sessions of one workspace.
    Workspace(i64),
    /// The session at this index of the listing.
    Entry(usize),
}

/// What the session panel shows.
#[derive(Debug, Clone, PartialEq, Eq)]
pub struct SessionPanelView {
    /// Rows the panel takes: its border, a heading per workspace and a line
    /// per session, at most the screen's height.
    pub height: usize,
    pub lines: Vec<PanelLine>,
}

/// Whether session `i` of `ss` opens a run of its workspace.
pub open spec fn opens_group(ss: Seq<Session>, i: int) -> bool {
    i == 0 || ss[i - 1].workspace_id != ss[i].workspace_id
}

/// The panel's lines for the first `n` sessions of `ss`: each session,
/// after a heading when it opens a run of its workspace.
pub open spec fn panel_lines(ss: Seq<Session>, n: nat) -> Seq<PanelLine>
    decreases n,
{
    if n == 0 {
        Seq::empty()
    } else {
        let i = n - 1;
        let before = panel_lines(ss, i as nat);
        let with_heading = if opens_group(ss, i) {
            before.push(PanelLine::Workspace(ss[i].workspace_id))
        } else {
            before
        };
        with_heading.push(PanelLine::Entry(i as usize))
    }
}

/// The workspaces the listing holds.
pub open spec fn workspaces_of(ss: Seq<Session>) -> Set<i64> {
    ss.map_values(|s: Session| s.workspace_id).to_set()
}

/// What the panel shows for the listing `ss` on a screen `screen_height`
/// rows high.
pub open spec fn session_panel_ok(v: SessionPanelView, ss: Seq<Session>, screen_height: nat) -> bool {
    let wanted = 2 + workspaces_of(ss).len() + ss.len();
    &&& v.lines@ == panel_lines(ss, ss.len())
    &&& v.height == if wanted < screen_height {
        wanted
    } else {
        screen_height
    }
}

/// The number of workspaces in the listing.
fn workspace_count(ss: &[Session]) -> (r: usize)
    ensures
        r == workspaces_of(ss@).len(),
        r <= ss@.len(),
{
    let mut seen: Vec<i64> = Vec::new();
    let mut i: usize = 0;
    while i < ss.len()
        invariant
            i <= ss@.len(),
            seen@.no_duplicates(),
            seen@.len() <= i,
            seen@.to_set() == ss@.take(i as int).map_values(|s: Session| s.workspace_id).to_set(),
        decreases ss@.len() - i,
    {
        let ws = ss[i].workspace_id;
        let mut j: usize = 0;
        let mut found = false;
        while j < seen.len()
            invariant
                j <= seen@.len(),
                found == exists|k: int| 0 <= k < j && seen@[k] == ws,
            decreases seen@.len() - j,
        {
            if seen[j] == ws {
                found = true;
            }
            j = j + 1;
        }
        proof {
            let f = |s: Session| s.workspace_id;
            assert(ss@.take(i + 1).map_values(f) =~= ss@.take(i as int).map_values(f).push(ws));
            ss@.take(i as int).map_values(f).lemma_push_to_set_commute(ws);
        }
        if !found {
            proof {
                seen@.lemma_push_to_set_commute(ws);
                assert forall|a: int, b: int| 0 <= a < b < seen@.len() + 1 implies seen@.push(ws)[a] != seen@.push(
                    ws,
                )[b] by {
                    if b == seen@.len() {
                        assert(seen@[a] != ws);
                    }
                }
            }
            seen.push(ws);
        } else {
            proof {
                let k = choose|k: int| 0 <= k < seen@.len() && seen@[k] == ws;
                assert(seen@.to_set().contains(ws));
                assert(seen@.to_set().insert(ws) =~= seen@.to_set());
            }
        }
        i = i + 1;
    }
    proof {
        assert(ss@.take(ss@.len() as int) =~= ss@);
        seen@.unique_seq_to_set();
    }
    seen.len()
}

/// What the session panel shows (see [`session_panel_ok`]) for the listing
/// `sessions` on a screen `screen_height` rows high.
pub fn session_panel_view(sessions: &[Session], screen_height: usize) -> (r: SessionPanelView)
    ensures
        session_panel_ok(r, sessions@, screen_height as nat),
{
    let groups = workspace_count(sessions);
    let wanted = sum3(2, groups, sessions.len());
    let height = if wanted < screen_height {
        wanted
    } else {
        screen_height
    };
    let mut lines: Vec<PanelLine> = Vec::new();
    let mut i: usize = 0;
    while i < sessions.len()
        invariant
            i <= sessions@.len(),
            lines@ == panel_lines(sessions@, i as nat),
        decreases sessions@.len() - i,
    {
        let ws = sessions[i].workspace_id;
        if i == 0 || sessions[i - 1].workspace_id != ws {
            lines.push(PanelLine::Workspace(ws));
        }
        lines.push(PanelLine::Entry(i));
        i = i + 1;
    }
    SessionPanelView { height, lines }
}

/// Number of glyphs a running session's spinner cycles through.
pub const SPINNER_FRAMES: usize = 7;

/// The spinner's glyphs, in order.
pub open spec fn spinner_text(i: nat) -> Seq<char> {
    if i % 7 == 0 {
        "·"@
    } else if i % 7 == 1 {
        "✻"@
    } else if i % 7 == 2 {
        "✽"@
    } else if i % 7 == 3 {
        "✶"@
    } else if i % 7 == 4 {
        "✳"@
    } else if i % 7 == 5 {
        "✢"@
    } else {
        "*"@
    }
}

/// The spinner's glyph at a clock reading: one step every 120 ms, the first
/// glyph when there is no reading.
pub fn spinner_glyph_at(millis: Option<u128>) -> (r: &'static str)
    ensures
        r@ == spinner_text(
            match millis {
                Some(m) => (m / 120) as nat,
                None => 0,
            },
        ),
{
    let step: u128 = match millis {
        Some(m) => m / 120,
        None => 0,
    };
    let i = step % 7;
    if i == 0 {
        "·"
    } else if i == 1 {
        "✻"
    } else if i == 2 {
        "✽"
    } else if i == 3 {
        "✶"
    } else if i == 4 {
        "✳"
    } else if i == 5 {
        "✢"
    } else {
        "*"
    }
}

/// The spinner's glyph now (see [`spinner_glyph_at`]).
pub fn spinner_glyph() -> (r: &'static str)
    ensures
        exists|i: nat| i < SPINNER_FRAMES && r@ == spinner_text(i),
{
    let m = clock_millis();
    let r = spinner_glyph_at(m);
    proof {
        let n: nat = match m {
            Some(m) => (m / 120) as nat,
            None => 0,
        };
        assert(r@ == spinner_text((n % 7) as nat));
    }
    r
}

} // verus!
