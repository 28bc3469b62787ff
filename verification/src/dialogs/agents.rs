//! The agent picker: a fixed list of agents, filtered by a typed query.
use vstd::prelude::*;

use super::common::{
    cycle_next, deref_seq, step_back, filter_by, first_index_or_zero, lemma_filter_by_step,
    lemma_first_index_absent, lemma_first_index_found, next_index,
};
use crate::commands::ConversationMode;
use crate::search::{lower_contains, lowercase_contains, str_eq};
use crate::numfmt::{decimal, push_decimal};
use crate::strings::{lowercase, string_pop, string_push, string_push_str, string_truncate, to_lowercase};
use crate::utf8::{lemma_encode_utf8_concat, utf8_len};
use super::models::row_lead;
use super::sessions::{capped, sat_sub, sum3};
use vstd::utf8::*;

verus! {

broadcast use vstd::string::group_string_axioms;

/// One agent the user can switch to.
#[derive(Debug, Clone, PartialEq, Eq)]
pub struct AgentItem {
    pub id: String,
    pub name: String,
    pub description: String,
    pub mode: ConversationMode,
    pub shortcut: Option<String>,
}

/// State of the agent picker.
#[derive(Debug, Clone, PartialEq, Eq)]
pub struct AgentsDialogState {
    pub items: Vec<AgentItem>,
    pub selected: usize,
    pub filter: String,
    pub scroll_offset: usize,
}

/// An agent matches a lowercased query when its name, description or id
/// contains it, ignoring case.
pub open spec fn agent_matches(a: AgentItem, q: Seq<char>) -> bool {
    lower_contains(a.name@, q) || lower_contains(a.description@, q) || lower_contains(a.id@, q)
}

pub open spec fn agent_filter(q: Seq<char>) -> spec_fn(AgentItem) -> bool {
    |a: AgentItem| agent_matches(a, q)
}

/// The agents the picker lists: all of them for an empty filter, otherwise
/// those matching the lowercased filter, in order.
pub open spec fn visible_agents(items: Seq<AgentItem>, filter: Seq<char>) -> Seq<AgentItem> {
    if filter.len() == 0 {
        items
    } else {
        filter_by(items, agent_filter(lowercase(filter)))
    }
}

pub open spec fn agent_has_id(id: Seq<char>) -> spec_fn(AgentItem) -> bool {
    |a: AgentItem| a.id@ == id
}

/// Whether `a` has the given id, name, description, mode and shortcut.
pub open spec fn agent_is(
    a: AgentItem,
    id: Seq<char>,
    name: Seq<char>,
    description: Seq<char>,
    mode: ConversationMode,
    shortcut: Seq<char>,
) -> bool {
    &&& a.id@ == id
    &&& a.name@ == name
    &&& a.description@ == description
    &&& a.mode == mode
    &&& a.shortcut matches Some(s) && s@ == shortcut
}

fn agent(id: &str, name: &str, description: &str, mode: ConversationMode, shortcut: &str) -> (a:
    AgentItem)
    ensures
        agent_is(a, id@, name@, description@, mode, shortcut@),
{
    AgentItem {
        id: id.to_owned(),
        name: name.to_owned(),
        description: description.to_owned(),
        mode,
        shortcut: Some(shortcut.to_owned()),
    }
}

impl AgentsDialogState {
    /// The picker over the default agents, with `active_agent` selected (the
    /// first agent when no agent has that id).
    pub fn new(active_agent: &str) -> (s: Self)
        ensures
            AgentsDialogState::default_agents(s.items@),
            s.selected == first_index_or_zero(s.items@, agent_has_id(active_agent@)),
            s.filter@.len() == 0,
            s.scroll_offset == 0,
    {
        let items = Self::default_items();
        let mut i: usize = 0;
        while i < items.len() && !str_eq(items[i].id.as_str(), active_agent)
            invariant
                i <= items@.len(),
                forall|j: int| 0 <= j < i ==> !agent_has_id(active_agent@)(items@[j]),
            decreases items@.len() - i,
        {
            i = i + 1;
        }
        let selected = if i < items.len() {
            proof {
                lemma_first_index_found(items@, agent_has_id(active_agent@), i as int);
            }
            i
        } else {
            proof {
                lemma_first_index_absent(items@, agent_has_id(active_agent@));
            }
            0
        };
        AgentsDialogState { items, selected, filter: String::new(), scroll_offset: 0 }
    }

    /// The four built-in agents, in the order plan, build, review, compact.
    pub open spec fn default_agents(items: Seq<AgentItem>) -> bool {
        &&& items.len() == 4
        &&& agent_is(
            items[0],
            "plan"@,
            "Plan Agent"@,
            "Read-only exploration, architecture analysis, and safe plans"@,
            ConversationMode::Plan,
            "Tab /plan"@,
        )
        &&& agent_is(
            items[1],
            "build"@,
            "Build Agent"@,
            "Autonomous code editing, tool execution, and verified mutations"@,
            ConversationMode::Build,
            "Tab /build"@,
        )
        &&& agent_is(
            items[2],
            "review"@,
            "Review Agent"@,
            "Code review, security checks, and PR readiness verification"@,
            ConversationMode::Plan,
            "/review"@,
        )
        &&& agent_is(
            items[3],
            "compact"@,
            "Compact Agent"@,
            "Terse output, minimal tokens, low-latency execution"@,
            ConversationMode::Build,
            "/compact"@,
        )
    }

    /// The built-in agents (see [`AgentsDialogState::default_agents`]).
    pub fn default_items() -> (v: Vec<AgentItem>)
        ensures
            Self::default_agents(v@),
    {
        let mut v = Vec::new();
        v.push(
            agent(
                "plan",
                "Plan Agent",
                "Read-only exploration, architecture analysis, and safe plans",
                ConversationMode::Plan,
                "Tab /plan",
            ),
        );
        v.push(
            agent(
                "build",
                "Build Agent",
                "Autonomous code editing, tool execution, and verified mutations",
                ConversationMode::Build,
                "Tab /build",
            ),
        );
        v.push(
            agent(
                "review",
                "Review Agent",
                "Code review, security checks, and PR readiness verification",
                ConversationMode::Plan,
                "/review",
            ),
        );
        v.push(
            agent(
                "compact",
                "Compact Agent",
                "Terse output, minimal tokens, low-latency execution",
                ConversationMode::Build,
                "/compact",
            ),
        );
        v
    }

    /// The agents currently listed (see [`visible_agents`]).
    pub fn filtered_items(&self) -> (r: Vec<&AgentItem>)
        ensures
            deref_seq(r@) == visible_agents(self.items@, self.filter@),
    {
        let mut out: Vec<&AgentItem> = Vec::new();
        if self.filter.as_str().is_empty() {
            let mut i: usize = 0;
            while i < self.items.len()
                invariant
                    i <= self.items@.len(),
                    deref_seq(out@) == self.items@.take(i as int),
                decreases self.items@.len() - i,
            {
                let ghost prev = out@;
                let a = &self.items[i];
                out.push(a);
                assert(out@ == prev.push(a));
                assert(*a == self.items@[i as int]);
                assert(deref_seq(out@) =~= deref_seq(prev).push(*a));
                assert(self.items@.take(i as int + 1) =~= self.items@.take(i as int).push(*a));
                i = i + 1;
                assert(deref_seq(out@) =~= self.items@.take(i as int));
            }
            assert(self.items@.take(self.items@.len() as int) =~= self.items@);
            return out;
        }
        let q = to_lowercase(self.filter.as_str());
        let ghost p = agent_filter(q@);
        let mut i: usize = 0;
        assert(deref_seq(out@) =~= filter_by(self.items@.take(0), p));
        while i < self.items.len()
            invariant
                i <= self.items@.len(),
                p == agent_filter(q@),
                deref_seq(out@) == filter_by(self.items@.take(i as int), p),
            decreases self.items@.len() - i,
        {
            let a = &self.items[i];
            let hit = lowercase_contains(a.name.as_str(), q.as_str()) || lowercase_contains(
                a.description.as_str(),
                q.as_str(),
            ) || lowercase_contains(a.id.as_str(), q.as_str());
            proof {
                lemma_filter_by_step(self.items@, p, i as int);
                assert(hit == p(self.items@[i as int]));
            }
            let ghost prev = out@;
            if hit {
                out.push(a);
                assert(deref_seq(out@) =~= deref_seq(prev).push(*a));
            }
            i = i + 1;
            assert(deref_seq(out@) =~= filter_by(self.items@.take(i as int), p));
        }
        assert(self.items@.take(self.items@.len() as int) =~= self.items@);
        out
    }

    /// The highlighted agent: the listed agent at the selection, if any.
    pub fn selected_agent(&self) -> (r: Option<&AgentItem>)
        ensures
            ({
                let v = visible_agents(self.items@, self.filter@);
                if self.selected < v.len() {
                    r matches Some(a) && *a == v[self.selected as int]
                } else {
                    r is None
                }
            }),
    {
        let filtered = self.filtered_items();
        if self.selected < filtered.len() {
            Some(filtered[self.selected])
        } else {
            None
        }
    }

    /// Moves the selection down, wrapping (see [`cycle_next`]).
    pub fn next(&mut self)
        ensures
            final(self).selected == cycle_next(
                old(self).selected as nat,
                visible_agents(old(self).items@, old(self).filter@).len(),
            ),
            final(self).items == old(self).items,
            final(self).filter == old(self).filter,
            final(self).scroll_offset == old(self).scroll_offset,
    {
        let count = self.filtered_items().len();
        if count > 0 {
            self.selected = next_index(self.selected, count);
        }
    }

    /// Moves the selection up, wrapping (see [`step_back`]).
    pub fn previous(&mut self)
        ensures
            final(self).selected == step_back(
                old(self).selected as nat,
                visible_agents(old(self).items@, old(self).filter@).len(),
            ),
            final(self).items == old(self).items,
            final(self).filter == old(self).filter,
            final(self).scroll_offset == old(self).scroll_offset,
    {
        let count = self.filtered_items().len();
        if count > 0 {
            self.selected = if self.selected == 0 {
                count - 1
            } else {
                self.selected - 1
            };
        }
    }

    /// Types a character into the filter; the selection and scroll return to
    /// the top.
    pub fn push_char(&mut self, c: char)
        ensures
            final(self).filter@ == old(self).filter@.push(c),
            final(self).selected == 0,
            final(self).scroll_offset == 0,
            final(self).items == old(self).items,
    {
        string_push(&mut self.filter, c);
        self.selected = 0;
        self.scroll_offset = 0;
    }

    /// Deletes the filter's last character (if any); the selection and
    /// scroll return to the top.
    pub fn pop_char(&mut self)
        ensures
            final(self).filter@ == if old(self).filter@.len() > 0 {
                old(self).filter@.drop_last()
            } else {
                old(self).filter@
            },
            final(self).selected == 0,
            final(self).scroll_offset == 0,
            final(self).items == old(self).items,
    {
        string_pop(&mut self.filter);
        self.selected = 0;
        self.scroll_offset = 0;
    }
}


// ---------------------------------------------------------------------------
// How the picker shows
// ---------------------------------------------------------------------------

/// The indent of an agent's description line.
pub const DESCRIPTION_INDENT: usize = 6;

/// Where `text` is cut to fit `room` bytes: one byte before the room ends,
/// when it is longer than the room and the room is more than four bytes.
pub open spec fn ellipsis_cut(text: Seq<char>, room: nat) -> Option<int> {
    if utf8_len(text) > room && room > 4 {
        Some(room - 1)
    } else {
        None
    }
}

/// `shown` is `text` fitted to `room` bytes: cut with an ellipsis, or whole.
pub open spec fn fitted_to(shown: Seq<char>, text: Seq<char>, room: nat) -> bool {
    match ellipsis_cut(text, room) {
        Some(c) => encode_utf8(shown) == encode_utf8(text).take(c) + encode_utf8("…"@),
        None => shown == text,
    }
}

/// The cut of `text` to `room` bytes, if any, falls on a character boundary.
pub open spec fn cut_ok(text: Seq<char>, room: nat) -> bool {
    match ellipsis_cut(text, room) {
        Some(c) => is_char_boundary(encode_utf8(text), c),
        None => true,
    }
}

/// `text` fitted to `room` bytes (see [`fitted_to`]).
fn fit_to(text: &String, room: usize) -> (r: String)
    requires
        cut_ok(text@, room as nat),
    ensures
        fitted_to(r@, text@, room as nat),
{
    let len = text.as_str().as_bytes().len();
    if len > room && room > 4 {
        let mut n = text.clone();
        string_truncate(&mut n, room - 1);
        let ghost cut = n@;
        string_push_str(&mut n, "…");
        proof {
            lemma_encode_utf8_concat(cut, "…"@);
        }
        n
    } else {
        text.clone()
    }
}

/// An agent of the list: its row, then its description on a line of its own.
#[derive(Debug, Clone, PartialEq, Eq)]
pub struct AgentRow {
    pub selected: bool,
    pub active: bool,
    pub name: String,
    pub pad: usize,
    /// `[<shortcut>]`, or nothing.
    pub badge: String,
    pub description: String,
}

/// What the agent picker shows.
#[derive(Debug, Clone, PartialEq, Eq)]
pub struct AgentListView {
    /// The title, with the number of agents (listed of all, when filtered).
    pub title: String,
    /// One entry per listed agent.
    pub rows: Vec<AgentRow>,
    /// The note shown when no agent is listed.
    pub empty_note: Option<String>,
}

pub open spec fn shortcut_badge(a: AgentItem) -> Seq<char> {
    match a.shortcut {
        Some(s) => "["@ + s@ + "]"@,
        None => Seq::empty(),
    }
}

/// The bytes left for an agent's name on a row `width` wide.
pub open spec fn agent_name_room(a: AgentItem, selected: bool, active: bool, width: nat) -> nat {
    sat_sub(width as int, capped((row_lead(selected, active) + utf8_len(shortcut_badge(a)) + 2) as int))
}

/// The bytes left for an agent's description on a row `width` wide.
pub open spec fn description_room(width: nat) -> nat {
    sat_sub(width as int, DESCRIPTION_INDENT as int)
}

/// `r` is the entry of agent `a`.
pub open spec fn agent_row_ok(r: AgentRow, a: AgentItem, selected: bool, active: bool, width: nat) -> bool {
    &&& r.selected == selected
    &&& r.active == active
    &&& r.badge@ == shortcut_badge(a)
    &&& fitted_to(r.name@, a.name@, agent_name_room(a, selected, active, width))
    &&& r.pad == sat_sub(
        width as int,
        capped((row_lead(selected, active) + utf8_len(r.name@) + utf8_len(r.badge@)) as int),
    )
    &&& fitted_to(r.description@, a.description@, description_room(width))
}

/// Every cut of the list falls on a character boundary.
pub open spec fn agent_cuts_ok(listed: Seq<AgentItem>, selected: nat, active_mode: ConversationMode, width: nat) -> bool {
    forall|k: int|
        0 <= k < listed.len() ==> {
            &&& cut_ok(
                (#[trigger] listed[k]).name@,
                agent_name_room(listed[k], k == selected, listed[k].mode == active_mode, width),
            )
            &&& cut_ok(listed[k].description@, description_room(width))
        }
}

/// What the picker shows with `listed` agents listed out of its items, the
/// mode `active_mode` in use and rows `width` bytes wide: every listed agent,
/// with its description below it.
pub open spec fn agent_list_ok(
    v: AgentListView,
    d: AgentsDialogState,
    listed: Seq<AgentItem>,
    active_mode: ConversationMode,
    width: nat,
) -> bool {
    let total = d.items@.len();
    &&& v.title@ == if d.filter@.len() == 0 {
        " Select Agent Mode ("@ + decimal(total) + ") "@
    } else {
        " Select Agent Mode ("@ + decimal(listed.len()) + "/"@ + decimal(total) + ") "@
    }
    &&& if listed.len() == 0 {
        &&& v.rows@.len() == 0
        &&& v.empty_note matches Some(n) && n@ == "  No agents matching \""@ + d.filter@ + "\""@
    } else {
        &&& v.empty_note is None
        &&& v.rows@.len() == listed.len()
        &&& forall|i: int|
            0 <= i < v.rows@.len() ==> agent_row_ok(
                #[trigger] v.rows@[i],
                listed[i],
                i == d.selected,
                listed[i].mode == active_mode,
                width,
            )
    }
}

/// The shortcut badge of agent `a` (see [`shortcut_badge`]).
fn shortcut_text(a: &AgentItem) -> (b: String)
    ensures
        b@ == shortcut_badge(*a),
{
    match &a.shortcut {
        Some(s) => {
            let mut b = "[".to_owned();
            string_push_str(&mut b, s.as_str());
            string_push_str(&mut b, "]");
            b
        },
        None => String::new(),
    }
}

/// Whether the cut of `text` to `room` bytes falls on a character boundary
/// (see [`cut_ok`]).
fn cut_fits(text: &str, room: usize) -> (b: bool)
    ensures
        b == cut_ok(text@, room as nat),
{
    let len = text.as_bytes().len();
    if len > room && room > 4 {
        text.is_char_boundary(room - 1)
    } else {
        true
    }
}

/// Whether both cuts in the entry of agent `a` fall on character
/// boundaries.
fn agent_cuts_fit(a: &AgentItem, selected: bool, active: bool, width: usize) -> (b: bool)
    ensures
        b == (cut_ok(a.name@, agent_name_room(*a, selected, active, width as nat)) && cut_ok(
            a.description@,
            description_room(width as nat),
        )),
{
    let cursor = if selected {
        " › "
    } else {
        "   "
    };
    let dot = if active {
        "● "
    } else {
        "  "
    };
    let badge = shortcut_text(a);
    let lead = cursor.as_bytes().len().saturating_add(dot.as_bytes().len());
    let badge_len = badge.as_str().as_bytes().len();
    let room = width.saturating_sub(sum3(lead, badge_len, 2));
    cut_fits(a.name.as_str(), room) && cut_fits(a.description.as_str(), width.saturating_sub(DESCRIPTION_INDENT))
}

/// The entry of agent `a` (see [`agent_row_ok`]).
fn agent_row(a: &AgentItem, selected: bool, active: bool, width: usize) -> (r: AgentRow)
    requires
        cut_ok(a.name@, agent_name_room(*a, selected, active, width as nat)),
        cut_ok(a.description@, description_room(width as nat)),
    ensures
        agent_row_ok(r, *a, selected, active, width as nat),
{
    let cursor = if selected {
        " › "
    } else {
        "   "
    };
    let dot = if active {
        "● "
    } else {
        "  "
    };
    let badge = shortcut_text(a);
    let lead = cursor.as_bytes().len().saturating_add(dot.as_bytes().len());
    let badge_len = badge.as_str().as_bytes().len();
    let room = width.saturating_sub(sum3(lead, badge_len, 2));
    let name = fit_to(&a.name, room);
    let name_len = name.as_str().as_bytes().len();
    let pad = width.saturating_sub(sum3(lead, name_len, badge_len));
    let description = fit_to(&a.description, width.saturating_sub(DESCRIPTION_INDENT));
    AgentRow { selected, active, name, pad, badge, description }
}

impl AgentsDialogState {
    /// Whether the picker can be drawn with `listed` agents listed and rows
    /// `row_width` bytes wide: every cut falls on a character boundary (see
    /// [`agent_cuts_ok`]).
    pub fn agent_list_fits(&self, listed: &[&AgentItem], active_mode: ConversationMode, row_width: usize) -> (b: bool)
        ensures
            b == agent_cuts_ok(deref_seq(listed@), self.selected as nat, active_mode, row_width as nat),
    {
        let ghost ls = deref_seq(listed@);
        let mut i: usize = 0;
        while i < listed.len()
            invariant
                i <= listed@.len(),
                ls == deref_seq(listed@),
                forall|k: int|
                    0 <= k < i ==> {
                        &&& cut_ok(
                            (#[trigger] ls[k]).name@,
                            agent_name_room(ls[k], k == self.selected, ls[k].mode == active_mode, row_width as nat),
                        )
                        &&& cut_ok(ls[k].description@, description_room(row_width as nat))
                    },
            decreases listed@.len() - i,
        {
            let a: &AgentItem = listed[i];
            assert(ls[i as int] == *a);
            if !agent_cuts_fit(a, i == self.selected, a.mode == active_mode, row_width) {
                assert(!agent_cuts_ok(ls, self.selected as nat, active_mode, row_width as nat));
                return false;
            }
            i = i + 1;
        }
        true
    }
}

impl AgentsDialogState {
    /// What the picker shows (see [`agent_list_ok`]), with `listed` the
    /// agents it lists (as [`AgentsDialogState::filtered_items`] gives them),
    /// `active_mode` the mode in use and rows `row_width` bytes wide.
    pub fn agent_list_view(&self, listed: &[&AgentItem], active_mode: ConversationMode, row_width: usize) -> (r:
        AgentListView)
        requires
            agent_cuts_ok(deref_seq(listed@), self.selected as nat, active_mode, row_width as nat),
        ensures
            agent_list_ok(r, *self, deref_seq(listed@), active_mode, row_width as nat),
    {
        let total = self.items.len();
        let mut title = " Select Agent Mode (".to_owned();
        if !self.filter.as_str().is_empty() {
            push_decimal(&mut title, listed.len() as u64);
            string_push_str(&mut title, "/");
        }
        push_decimal(&mut title, total as u64);
        string_push_str(&mut title, ") ");
        let ghost ls = deref_seq(listed@);
        if listed.len() == 0 {
            let mut note = "  No agents matching \"".to_owned();
            string_push_str(&mut note, self.filter.as_str());
            string_push_str(&mut note, "\"");
            return AgentListView { title, rows: Vec::new(), empty_note: Some(note) };
        }
        let mut rows: Vec<AgentRow> = Vec::new();
        let mut i: usize = 0;
        while i < listed.len()
            invariant
                i <= listed@.len(),
                ls == deref_seq(listed@),
                agent_cuts_ok(ls, self.selected as nat, active_mode, row_width as nat),
                rows@.len() == i,
                forall|j: int|
                    0 <= j < i ==> agent_row_ok(
                        #[trigger] rows@[j],
                        ls[j],
                        j == self.selected,
                        ls[j].mode == active_mode,
                        row_width as nat,
                    ),
            decreases listed@.len() - i,
        {
            let a: &AgentItem = listed[i];
            assert(ls[i as int] == *a);
            let row = agent_row(a, i == self.selected, a.mode == active_mode, row_width);
            rows.push(row);
            i = i + 1;
        }
        AgentListView { title, rows, empty_note: None }
    }
}

} // verus!
