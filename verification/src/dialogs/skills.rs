//! The skill browser: discovered skills, filtered by a typed query, with a
//! scrollable preview of the highlighted one.
use vstd::prelude::*;

use super::common::{
    cycle_next_or_reset, cycle_prev, cycle_prev_or_reset, deref_seq, filter_by,
    lemma_filter_by_step, next_index,
};
use crate::search::{lower_contains, lowercase_contains};
use crate::numfmt::{decimal, push_decimal};
use crate::strings::{lowercase, string_pop, string_push, string_push_str, to_lowercase};
use super::git::git_file_scroll;
use super::sessions::clamp_selection;

verus! {

broadcast use vstd::string::group_string_axioms;

/// Where a skill was found.
#[derive(Debug, Clone, Copy, PartialEq, Eq, Structural)]
pub enum SkillSource {
    Project,
    Global,
    Agents,
    OpenCode,
    Claude,
}

/// A skill: named instructions the agent can load.
#[derive(Debug, Clone, PartialEq, Eq)]
pub struct SkillItem {
    pub name: String,
    pub description: String,
    pub instructions: String,
    pub source: SkillSource,
    pub location: std::path::PathBuf,
}

/// State of the skill browser.
#[derive(Debug, Clone, PartialEq, Eq)]
pub struct SkillsDialogState {
    pub skills: Vec<SkillItem>,
    pub selected: usize,
    pub filter: String,
    pub scroll_offset: usize,
    pub preview_scroll: u16,
}

/// A skill matches a lowercased query when its name, description or
/// instructions contain it, ignoring case.
pub open spec fn skill_matches(s: SkillItem, q: Seq<char>) -> bool {
    lower_contains(s.name@, q) || lower_contains(s.description@, q) || lower_contains(
        s.instructions@,
        q,
    )
}

pub open spec fn skill_filter(q: Seq<char>) -> spec_fn(SkillItem) -> bool {
    |s: SkillItem| skill_matches(s, q)
}

/// The skills the browser lists: all of them for an empty filter, otherwise
/// those matching the lowercased filter, in order.
pub open spec fn visible_skills(items: Seq<SkillItem>, filter: Seq<char>) -> Seq<SkillItem> {
    if filter.len() == 0 {
        items
    } else {
        filter_by(items, skill_filter(lowercase(filter)))
    }
}

impl SkillsDialogState {
    /// The browser over `skills`, with the first one selected.
    pub fn new(skills: Vec<SkillItem>) -> (s: Self)
        ensures
            s.skills == skills,
            s.selected == 0,
            s.filter@.len() == 0,
            s.scroll_offset == 0,
            s.preview_scroll == 0,
    {
        SkillsDialogState {
            skills,
            selected: 0,
            filter: String::new(),
            scroll_offset: 0,
            preview_scroll: 0,
        }
    }

    /// The skills currently listed (see [`visible_skills`]).
    pub fn filtered_skills(&self) -> (r: Vec<&SkillItem>)
        ensures
            deref_seq(r@) == visible_skills(self.skills@, self.filter@),
    {
        let mut out: Vec<&SkillItem> = Vec::new();
        if self.filter.as_str().is_empty() {
            let mut i: usize = 0;
            while i < self.skills.len()
                invariant
                    i <= self.skills@.len(),
                    deref_seq(out@) == self.skills@.take(i as int),
                decreases self.skills@.len() - i,
            {
                let ghost prev = out@;
                let a = &self.skills[i];
                out.push(a);
                assert(out@ == prev.push(a));
                assert(*a == self.skills@[i as int]);
                assert(deref_seq(out@) =~= deref_seq(prev).push(*a));
                assert(self.skills@.take(i as int + 1) =~= self.skills@.take(i as int).push(*a));
                i = i + 1;
                assert(deref_seq(out@) =~= self.skills@.take(i as int));
            }
            assert(self.skills@.take(self.skills@.len() as int) =~= self.skills@);
            return out;
        }
        let q = to_lowercase(self.filter.as_str());
        let ghost p = skill_filter(q@);
        let mut i: usize = 0;
        assert(deref_seq(out@) =~= filter_by(self.skills@.take(0), p));
        while i < self.skills.len()
            invariant
                i <= self.skills@.len(),
                p == skill_filter(q@),
                deref_seq(out@) == filter_by(self.skills@.take(i as int), p),
            decreases self.skills@.len() - i,
        {
            let a = &self.skills[i];
            let hit = lowercase_contains(a.name.as_str(), q.as_str()) || lowercase_contains(
                a.description.as_str(),
                q.as_str(),
            ) || lowercase_contains(a.instructions.as_str(), q.as_str());
            proof {
                lemma_filter_by_step(self.skills@, p, i as int);
                assert(hit == p(self.skills@[i as int]));
            }
            let ghost prev = out@;
            if hit {
                out.push(a);
                assert(deref_seq(out@) =~= deref_seq(prev).push(*a));
            }
            i = i + 1;
            assert(deref_seq(out@) =~= filter_by(self.skills@.take(i as int), p));
        }
        assert(self.skills@.take(self.skills@.len() as int) =~= self.skills@);
        out
    }

    /// The highlighted skill: none when nothing is listed, otherwise the
    /// listed skill at the selection, clamped to the last one.
    pub fn selected_skill(&self) -> (r: Option<&SkillItem>)
        ensures
            ({
                let v = visible_skills(self.skills@, self.filter@);
                if v.len() == 0 {
                    r is None
                } else {
                    r matches Some(a) && *a == v[if self.selected < v.len() {
                        self.selected as int
                    } else {
                        v.len() - 1
                    }]
                }
            }),
    {
        let filtered = self.filtered_skills();
        if filtered.len() == 0 {
            return None;
        }
        let idx = if self.selected < filtered.len() {
            self.selected
        } else {
            filtered.len() - 1
        };
        Some(filtered[idx])
    }

    /// Moves the selection down, wrapping; an empty list resets it to 0.
    pub fn next(&mut self)
        ensures
            final(self).selected == cycle_next_or_reset(
                old(self).selected as nat,
                visible_skills(old(self).skills@, old(self).filter@).len(),
            ),
            final(self).skills == old(self).skills,
            final(self).filter == old(self).filter,
            final(self).scroll_offset == old(self).scroll_offset,
            final(self).preview_scroll == 0,
    {
        let count = self.filtered_skills().len();
        if count > 0 {
            self.selected = next_index(self.selected, count);
        } else {
            self.selected = 0;
        }
        self.preview_scroll = 0;
    }

    /// Moves the selection up, wrapping (also from past the end); an empty
    /// list resets it to 0.
    pub fn previous(&mut self)
        ensures
            final(self).selected == cycle_prev_or_reset(
                old(self).selected as nat,
                visible_skills(old(self).skills@, old(self).filter@).len(),
            ),
            final(self).skills == old(self).skills,
            final(self).filter == old(self).filter,
            final(self).scroll_offset == old(self).scroll_offset,
            final(self).preview_scroll == 0,
    {
        let count = self.filtered_skills().len();
        if count > 0 {
            self.selected = if self.selected == 0 || self.selected >= count {
                count - 1
            } else {
                self.selected - 1
            };
        } else {
            self.selected = 0;
        }
        self.preview_scroll = 0;
    }

    /// Types a character into the filter; the selection and scroll return to
    /// the top.
    pub fn push_char(&mut self, c: char)
        ensures
            final(self).filter@ == old(self).filter@.push(c),
            final(self).selected == 0,
            final(self).scroll_offset == 0,
            final(self).preview_scroll == 0,
            final(self).skills == old(self).skills,
    {
        string_push(&mut self.filter, c);
        self.selected = 0;
        self.scroll_offset = 0;
        self.preview_scroll = 0;
    }

    /// Deletes the filter's last character (if any); the selection and
    /// scroll return to the top.
    pub fn pop_char(&mut self)
        ensures
            final(self).filter@ == if old(self).filter@.len() > 0 {
                old(self).filter@.drop_last()
            } else {
                old(self).filter@
            },
            final(self).selected == 0,
            final(self).scroll_offset == 0,
            final(self).preview_scroll == 0,
            final(self).skills == old(self).skills,
    {
        string_pop(&mut self.filter);
        self.selected = 0;
        self.scroll_offset = 0;
        self.preview_scroll = 0;
    }

    /// Scrolls the preview up by `lines`, stopping at the top.
    pub fn scroll_preview_up(&mut self, lines: u16)
        ensures
            final(self).preview_scroll == if old(self).preview_scroll >= lines {
                old(self).preview_scroll - lines
            } else {
                0
            },
            final(self).skills == old(self).skills,
            final(self).selected == old(self).selected,
            final(self).filter == old(self).filter,
            final(self).scroll_offset == old(self).scroll_offset,
    {
        self.preview_scroll = self.preview_scroll.saturating_sub(lines);
    }

    /// Scrolls the preview down by `lines`, saturating at `u16::MAX`.
    pub fn scroll_preview_down(&mut self, lines: u16)
        ensures
            final(self).preview_scroll == if old(self).preview_scroll + lines <= u16::MAX {
                (old(self).preview_scroll + lines) as u16
            } else {
                u16::MAX
            },
            final(self).skills == old(self).skills,
            final(self).selected == old(self).selected,
            final(self).filter == old(self).filter,
            final(self).scroll_offset == old(self).scroll_offset,
    {
        self.preview_scroll = self.preview_scroll.saturating_add(lines);
    }
}


// ---------------------------------------------------------------------------
// How the browser shows
// ---------------------------------------------------------------------------

/// A row of the skill list.
#[derive(Debug, Clone, PartialEq, Eq)]
pub struct SkillRow {
    pub selected: bool,
    pub source: SkillSource,
    pub name: String,
}

/// What the skill browser's list shows.
#[derive(Debug, Clone, PartialEq, Eq)]
pub struct SkillListView {
    /// The title, with the number of skills (listed of all, when filtered).
    pub title: String,
    /// The first listed skill in the window.
    pub scroll: usize,
    /// The rows in the window; none when nothing is listed.
    pub rows: Vec<SkillRow>,
}

/// How many rows a window of `visible` rows from `start` shows of `n`.
pub open spec fn skill_rows_shown(n: nat, start: nat, visible: nat) -> nat {
    if start >= n {
        0
    } else if n - start < visible {
        (n - start) as nat
    } else {
        visible
    }
}

/// What the list shows with `listed` skills listed out of all and a window
/// of `height` rows (at least one): the selection is kept inside the list,
/// and the window moves only as far as it must to show it.
pub open spec fn skill_list_ok(v: SkillListView, d: SkillsDialogState, listed: Seq<SkillItem>, height: nat) -> bool {
    let total = d.skills@.len();
    let sel = clamp_selection(d.selected as nat, listed.len());
    let visible: nat = if height == 0 {
        1
    } else {
        height
    };
    let start = git_file_scroll(sel, d.scroll_offset as nat, visible);
    &&& v.title@ == if d.filter@.len() == 0 {
        " Skills Library ("@ + decimal(total) + ") "@
    } else {
        " Skills Library ("@ + decimal(listed.len()) + "/"@ + decimal(total) + ") "@
    }
    &&& v.scroll == start
    &&& v.rows@.len() == skill_rows_shown(listed.len(), start, visible)
    &&& forall|i: int|
        0 <= i < v.rows@.len() ==> {
            &&& (#[trigger] v.rows@[i]).selected == (start + i == sel)
            &&& v.rows@[i].source == listed[start + i].source
            &&& v.rows@[i].name@ == listed[start + i].name@
        }
}

impl SkillsDialogState {
    /// What the list shows (see [`skill_list_ok`]), with `listed` the skills
    /// it lists (as [`SkillsDialogState::filtered_skills`] gives them) and a
    /// window of `list_height` rows.
    pub fn skill_list_view(&self, listed: &[&SkillItem], list_height: usize) -> (r: SkillListView)
        requires
            self.scroll_offset + (if list_height == 0 {
                1
            } else {
                list_height
            }) <= usize::MAX,
        ensures
            skill_list_ok(r, *self, deref_seq(listed@), list_height as nat),
    {
        let total = self.skills.len();
        let mut title = " Skills Library (".to_owned();
        if !self.filter.as_str().is_empty() {
            push_decimal(&mut title, listed.len() as u64);
            string_push_str(&mut title, "/");
        }
        push_decimal(&mut title, total as u64);
        string_push_str(&mut title, ") ");
        let ghost ls = deref_seq(listed@);
        let visible: usize = if list_height == 0 {
            1
        } else {
            list_height
        };
        let sel: usize = if listed.len() == 0 {
            0
        } else if self.selected >= listed.len() {
            listed.len() - 1
        } else {
            self.selected
        };
        let start: usize = if sel >= self.scroll_offset + visible {
            sel.saturating_sub(visible).saturating_add(1)
        } else if sel < self.scroll_offset {
            sel
        } else {
            self.scroll_offset
        };
        let count: usize = if start >= listed.len() {
            0
        } else if listed.len() - start < visible {
            listed.len() - start
        } else {
            visible
        };
        let mut rows: Vec<SkillRow> = Vec::new();
        let mut i: usize = 0;
        while i < count
            invariant
                i <= count,
                count == skill_rows_shown(ls.len(), start as nat, visible as nat),
                count == 0 || start + count <= listed@.len(),
                listed@.len() <= usize::MAX,
                ls == deref_seq(listed@),
                rows@.len() == i,
                forall|j: int|
                    0 <= j < i ==> {
                        &&& (#[trigger] rows@[j]).selected == (start + j == sel)
                        &&& rows@[j].source == ls[start + j].source
                        &&& rows@[j].name@ == ls[start + j].name@
                    },
            decreases count - i,
        {
            let idx = start + i;
            let sk: &SkillItem = listed[idx];
            assert(ls[idx as int] == *sk);
            rows.push(SkillRow { selected: idx == sel, source: sk.source, name: sk.name.clone() });
            i = i + 1;
        }
        SkillListView { title, scroll: start, rows }
    }
}

} // verus!
