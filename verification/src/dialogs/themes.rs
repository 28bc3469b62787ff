//! The theme picker: the available color themes, filtered by a typed query.
use vstd::prelude::*;

use super::common::{
    cycle_next_or_reset, cycle_prev, cycle_prev_or_reset, deref_seq, filter_by,
    first_index_or_zero, lemma_filter_by_step, lemma_first_index_absent, lemma_first_index_found,
    next_index,
};
use crate::search::{lower_contains, lowercase_contains, str_eq};
use crate::layout::{scroll_for, window_len};
use crate::numfmt::{decimal, push_decimal};
use crate::strings::{lowercase, string_pop, string_push, string_push_str, string_truncate, to_lowercase};
use crate::utf8::{lemma_encode_utf8_concat, utf8_len};
use super::models::row_lead;
use super::sessions::{capped, clamp_selection, sat_sub, sum3};
use vstd::utf8::*;

verus! {

broadcast use vstd::string::group_string_axioms;

/// A color theme as the picker lists it.
#[derive(Debug, Clone, PartialEq, Eq)]
pub struct ThemeInfo {
    pub id: String,
    pub name: String,
    pub description: String,
}

/// State of the theme picker.
#[derive(Debug, Clone, PartialEq, Eq)]
pub struct ThemesDialogState {
    pub items: Vec<ThemeInfo>,
    pub selected: usize,
    pub filter: String,
    pub scroll_offset: usize,
}

/// A theme matches a lowercased query when its name, description or id
/// contains it, ignoring case.
pub open spec fn theme_matches(t: ThemeInfo, q: Seq<char>) -> bool {
    lower_contains(t.name@, q) || lower_contains(t.description@, q) || lower_contains(t.id@, q)
}

pub open spec fn theme_filter(q: Seq<char>) -> spec_fn(ThemeInfo) -> bool {
    |t: ThemeInfo| theme_matches(t, q)
}

/// The themes the picker lists: all of them for an empty filter, otherwise
/// those matching the lowercased filter, in order.
pub open spec fn visible_themes(items: Seq<ThemeInfo>, filter: Seq<char>) -> Seq<ThemeInfo> {
    if filter.len() == 0 {
        items
    } else {
        filter_by(items, theme_filter(lowercase(filter)))
    }
}

pub open spec fn theme_has_id(id: Seq<char>) -> spec_fn(ThemeInfo) -> bool {
    |t: ThemeInfo| t.id@ == id
}

impl ThemesDialogState {
    /// The picker over `items`, with the theme `active_theme` selected (the
    /// first theme when no theme has that id).
    pub fn new(items: Vec<ThemeInfo>, active_theme: &str) -> (s: Self)
        ensures
            s.items == items,
            s.selected == first_index_or_zero(items@, theme_has_id(active_theme@)),
            s.filter@.len() == 0,
            s.scroll_offset == 0,
    {
        let mut i: usize = 0;
        while i < items.len() && !str_eq(items[i].id.as_str(), active_theme)
            invariant
                i <= items@.len(),
                forall|j: int| 0 <= j < i ==> !theme_has_id(active_theme@)(items@[j]),
            decreases items@.len() - i,
        {
            i = i + 1;
        }
        let selected = if i < items.len() {
            proof {
                lemma_first_index_found(items@, theme_has_id(active_theme@), i as int);
            }
            i
        } else {
            proof {
                lemma_first_index_absent(items@, theme_has_id(active_theme@));
            }
            0
        };
        ThemesDialogState { items, selected, filter: String::new(), scroll_offset: 0 }
    }

    /// The themes currently listed (see [`visible_themes`]).
    pub fn filtered_items(&self) -> (r: Vec<&ThemeInfo>)
        ensures
            deref_seq(r@) == visible_themes(self.items@, self.filter@),
    {
        let mut out: Vec<&ThemeInfo> = Vec::new();
        if self.filter.as_str().is_empty() {
            let mut i: usize = 0;
            while i < self.items.len()
                invariant
                    i <= self.items@.len(),
                    deref_seq(out@) == self.items@.take(i as int),
                decreases self.items@.len() - i,
            {
                let ghost prev = out@;
                let a = &self.items[i];
                out.push(a);
                assert(out@ == prev.push(a));
                assert(*a == self.items@[i as int]);
                assert(deref_seq(out@) =~= deref_seq(prev).push(*a));
                assert(self.items@.take(i as int + 1) =~= self.items@.take(i as int).push(*a));
                i = i + 1;
                assert(deref_seq(out@) =~= self.items@.take(i as int));
            }
            assert(self.items@.take(self.items@.len() as int) =~= self.items@);
            return out;
        }
        let q = to_lowercase(self.filter.as_str());
        let ghost p = theme_filter(q@);
        let mut i: usize = 0;
        assert(deref_seq(out@) =~= filter_by(self.items@.take(0), p));
        while i < self.items.len()
            invariant
                i <= self.items@.len(),
                p == theme_filter(q@),
                deref_seq(out@) == filter_by(self.items@.take(i as int), p),
            decreases self.items@.len() - i,
        {
            let a = &self.items[i];
            let hit = lowercase_contains(a.name.as_str(), q.as_str()) || lowercase_contains(
                a.description.as_str(),
                q.as_str(),
            ) || lowercase_contains(a.id.as_str(), q.as_str());
            proof {
                lemma_filter_by_step(self.items@, p, i as int);
                assert(hit == p(self.items@[i as int]));
            }
            let ghost prev = out@;
            if hit {
                out.push(a);
                assert(deref_seq(out@) =~= deref_seq(prev).push(*a));
            }
            i = i + 1;
            assert(deref_seq(out@) =~= filter_by(self.items@.take(i as int), p));
        }
        assert(self.items@.take(self.items@.len() as int) =~= self.items@);
        out
    }

    /// The highlighted theme: none when nothing is listed, otherwise the
    /// listed theme at the selection, clamped to the last one.
    pub fn selected_theme(&self) -> (r: Option<&ThemeInfo>)
        ensures
            ({
                let v = visible_themes(self.items@, self.filter@);
                if v.len() == 0 {
                    r is None
                } else {
                    r matches Some(a) && *a == v[if self.selected < v.len() {
                        self.selected as int
                    } else {
                        v.len() - 1
                    }]
                }
            }),
    {
        let filtered = self.filtered_items();
        if filtered.len() == 0 {
            return None;
        }
        let idx = if self.selected < filtered.len() {
            self.selected
        } else {
            filtered.len() - 1
        };
        Some(filtered[idx])
    }

    /// Moves the selection down, wrapping; an empty list resets it to 0.
    pub fn next(&mut self)
        ensures
            final(self).selected == cycle_next_or_reset(
                old(self).selected as nat,
                visible_themes(old(self).items@, old(self).filter@).len(),
            ),
            final(self).items == old(self).items,
            final(self).filter == old(self).filter,
            final(self).scroll_offset == old(self).scroll_offset,
    {
        let count = self.filtered_items().len();
        if count > 0 {
            self.selected = next_index(self.selected, count);
        } else {
            self.selected = 0;
        }
    }

    /// Moves the selection up, wrapping (also from past the end); an empty
    /// list resets it to 0.
    pub fn previous(&mut self)
        ensures
            final(self).selected == cycle_prev_or_reset(
                old(self).selected as nat,
                visible_themes(old(self).items@, old(self).filter@).len(),
            ),
            final(self).items == old(self).items,
            final(self).filter == old(self).filter,
            final(self).scroll_offset == old(self).scroll_offset,
    {
        let count = self.filtered_items().len();
        if count > 0 {
            self.selected = if self.selected == 0 || self.selected >= count {
                count - 1
            } else {
                self.selected - 1
            };
        } else {
            self.selected = 0;
        }
    }

    /// Types a character into the filter; the selection and scroll return to
    /// the top.
    pub fn push_char(&mut self, c: char)
        ensures
            final(self).filter@ == old(self).filter@.push(c),
            final(self).selected == 0,
            final(self).scroll_offset == 0,
            final(self).items == old(self).items,
    {
        string_push(&mut self.filter, c);
        self.selected = 0;
        self.scroll_offset = 0;
    }

    /// Deletes the filter's last character (if any); the selection and
    /// scroll return to the top.
    pub fn pop_char(&mut self)
        ensures
            final(self).filter@ == if old(self).filter@.len() > 0 {
                old(self).filter@.drop_last()
            } else {
                old(self).filter@
            },
            final(self).selected == 0,
            final(self).scroll_offset == 0,
            final(self).items == old(self).items,
    {
        string_pop(&mut self.filter);
        self.selected = 0;
        self.scroll_offset = 0;
    }
}


// ---------------------------------------------------------------------------
// How the picker shows
// ---------------------------------------------------------------------------

/// Cells the colour swatches of a row take: five blocks and a space.
pub const SWATCH_WIDTH: usize = 6;

/// A row of the theme list, as drawn from left to right: cursor and dot,
/// the swatches of the theme's colours, its name fitted to the row, spaces,
/// and the badge.
#[derive(Debug, Clone, PartialEq, Eq)]
pub struct ThemeRow {
    pub selected: bool,
    pub active: bool,
    /// The theme the swatches show.
    pub id: String,
    pub name: String,
    pub pad: usize,
    pub badge: String,
}

/// What the theme picker shows.
#[derive(Debug, Clone, PartialEq, Eq)]
pub struct ThemeListView {
    /// The title, with the number of themes (listed of all, when filtered).
    pub title: String,
    /// The rows in the list's window.
    pub rows: Vec<ThemeRow>,
    /// The note shown when no theme is listed.
    pub empty_note: Option<String>,
}

/// The badge of a row: the description, with `[active]` after it for the
/// theme in use.
pub open spec fn theme_badge(t: ThemeInfo, active: bool) -> Seq<char> {
    if active {
        t.description@ + " [active]"@
    } else {
        t.description@
    }
}

/// The bytes left for the name on a row `width` wide: the width less the
/// lead, the swatches, the badge and two (counted up to the largest `usize`).
pub open spec fn theme_name_room(t: ThemeInfo, selected: bool, active: bool, width: nat) -> nat {
    sat_sub(
        width as int,
        capped((row_lead(selected, active) + SWATCH_WIDTH + utf8_len(theme_badge(t, active)) + 2) as int),
    )
}

/// Where the name is cut, when it is longer than the room and the room is
/// more than four bytes: one byte before the room ends.
pub open spec fn theme_name_cut(t: ThemeInfo, selected: bool, active: bool, width: nat) -> Option<int> {
    let room = theme_name_room(t, selected, active, width);
    if utf8_len(t.name@) > room && room > 4 {
        Some(room - 1)
    } else {
        None
    }
}

/// `r` is the row of theme `t`.
pub open spec fn theme_row_ok(r: ThemeRow, t: ThemeInfo, selected: bool, active: bool, width: nat) -> bool {
    &&& r.selected == selected
    &&& r.active == active
    &&& r.id@ == t.id@
    &&& r.badge@ == theme_badge(t, active)
    &&& match theme_name_cut(t, selected, active, width) {
        Some(c) => encode_utf8(r.name@) == encode_utf8(t.name@).take(c) + encode_utf8("…"@),
        None => r.name@ == t.name@,
    }
    &&& r.pad == sat_sub(
        width as int,
        capped((row_lead(selected, active) + SWATCH_WIDTH + utf8_len(r.name@) + utf8_len(r.badge@)) as int),
    )
}

/// Every cut in the window falls on a character boundary of the name it cuts.
pub open spec fn theme_cuts_ok(
    listed: Seq<ThemeInfo>,
    selected: nat,
    active_theme: Seq<char>,
    height: nat,
    width: nat,
) -> bool {
    let sel = clamp_selection(selected, listed.len());
    let start = scroll_for(sel, height);
    forall|k: int|
        start <= k < start + window_len(listed.len(), sel, height) ==> match theme_name_cut(
            #[trigger] listed[k],
            k == sel,
            listed[k].id@ == active_theme,
            width,
        ) {
            Some(c) => is_char_boundary(encode_utf8(listed[k].name@), c),
            None => true,
        }
}

/// What the picker shows with `listed` themes listed out of its items, the
/// theme `active_theme` in use, a window of `height` rows and rows `width`
/// bytes wide: the selection is kept inside the list and the window
/// scrolled to it.
pub open spec fn theme_list_ok(
    v: ThemeListView,
    d: ThemesDialogState,
    listed: Seq<ThemeInfo>,
    active_theme: Seq<char>,
    height: nat,
    width: nat,
) -> bool {
    let total = d.items@.len();
    let sel = clamp_selection(d.selected as nat, listed.len());
    let start = scroll_for(sel, height);
    &&& v.title@ == if d.filter@.len() == 0 {
        " Color Theme ("@ + decimal(total) + ") "@
    } else {
        " Color Theme ("@ + decimal(listed.len()) + "/"@ + decimal(total) + ") "@
    }
    &&& if listed.len() == 0 {
        &&& v.rows@.len() == 0
        &&& v.empty_note matches Some(n) && n@ == "  No themes matching \""@ + d.filter@ + "\""@
    } else {
        &&& v.empty_note is None
        &&& v.rows@.len() == window_len(listed.len(), sel, height)
        &&& forall|i: int|
            0 <= i < v.rows@.len() ==> theme_row_ok(
                #[trigger] v.rows@[i],
                listed[start + i],
                start + i == sel,
                listed[start + i].id@ == active_theme,
                width,
            )
    }
}

/// Whether the cut the row of theme `t` makes in its name (see
/// [`theme_name_cut`]) falls on a character boundary.
fn theme_cut_fits(t: &ThemeInfo, selected: bool, active: bool, width: usize) -> (b: bool)
    ensures
        b == (match theme_name_cut(*t, selected, active, width as nat) {
            Some(c) => is_char_boundary(encode_utf8(t.name@), c),
            None => true,
        }),
{
    let cursor = if selected {
        " › "
    } else {
        "   "
    };
    let dot = if active {
        "● "
    } else {
        "  "
    };
    let mut badge = t.description.clone();
    if active {
        string_push_str(&mut badge, " [active]");
    }
    let lead = cursor.as_bytes().len().saturating_add(dot.as_bytes().len());
    let badge_len = badge.as_str().as_bytes().len();
    let room = width.saturating_sub(sum3(lead, SWATCH_WIDTH, badge_len).saturating_add(2));
    let name_len = t.name.as_str().as_bytes().len();
    if name_len > room && room > 4 {
        t.name.as_str().is_char_boundary(room - 1)
    } else {
        true
    }
}

/// The row of theme `t` (see [`theme_row_ok`]).
fn theme_row(t: &ThemeInfo, selected: bool, active: bool, width: usize) -> (r: ThemeRow)
    requires
        match theme_name_cut(*t, selected, active, width as nat) {
            Some(c) => is_char_boundary(encode_utf8(t.name@), c),
            None => true,
        },
    ensures
        theme_row_ok(r, *t, selected, active, width as nat),
{
    let cursor = if selected {
        " › "
    } else {
        "   "
    };
    let dot = if active {
        "● "
    } else {
        "  "
    };
    let mut badge = t.description.clone();
    if active {
        string_push_str(&mut badge, " [active]");
    }
    let lead = cursor.as_bytes().len().saturating_add(dot.as_bytes().len());
    let badge_len = badge.as_str().as_bytes().len();
    let room = width.saturating_sub(sum3(lead, SWATCH_WIDTH, badge_len).saturating_add(2));
    let name_len = t.name.as_str().as_bytes().len();
    let name = if name_len > room && room > 4 {
        let mut n = t.name.clone();
        string_truncate(&mut n, room - 1);
        let ghost cut = n@;
        string_push_str(&mut n, "…");
        proof {
            lemma_encode_utf8_concat(cut, "…"@);
        }
        n
    } else {
        t.name.clone()
    };
    let shown = name.as_str().as_bytes().len();
    let pad = width.saturating_sub(sum3(lead, SWATCH_WIDTH, shown).saturating_add(badge_len));
    ThemeRow { selected, active, id: t.id.clone(), name, pad, badge }
}

impl ThemesDialogState {
    /// Whether the picker can be drawn with `listed` themes listed, a window
    /// of `list_height` rows and rows `row_width` bytes wide: every name cut
    /// falls on a character boundary (see [`theme_cuts_ok`]).
    pub fn theme_list_fits(
        &self,
        listed: &[&ThemeInfo],
        active_theme: &str,
        list_height: usize,
        row_width: usize,
    ) -> (b: bool)
        ensures
            b == theme_cuts_ok(deref_seq(listed@), self.selected as nat, active_theme@, list_height as nat, row_width as nat),
    {
        let ghost ls = deref_seq(listed@);
        if listed.len() == 0 {
            return true;
        }
        let sel: usize = if self.selected >= listed.len() {
            listed.len() - 1
        } else {
            self.selected
        };
        let start: usize = if sel >= list_height {
            sel + 1 - list_height
        } else {
            0
        };
        let count: usize = if start >= listed.len() {
            0
        } else if listed.len() - start < list_height {
            listed.len() - start
        } else {
            list_height
        };
        let mut i: usize = 0;
        while i < count
            invariant
                i <= count,
                sel == clamp_selection(self.selected as nat, ls.len()),
                count == window_len(ls.len(), sel as nat, list_height as nat),
                start == scroll_for(sel as nat, list_height as nat),
                count == 0 || start + count <= listed@.len(),
                ls == deref_seq(listed@),
                forall|k: int|
                    start <= k < start + i ==> match theme_name_cut(
                        #[trigger] ls[k],
                        k == sel,
                        ls[k].id@ == active_theme@,
                        row_width as nat,
                    ) {
                        Some(c) => is_char_boundary(encode_utf8(ls[k].name@), c),
                        None => true,
                    },
            decreases count - i,
        {
            let idx = start + i;
            let t: &ThemeInfo = listed[idx];
            let active = str_eq(t.id.as_str(), active_theme);
            assert(ls[idx as int] == *t);
            if !theme_cut_fits(t, idx == sel, active, row_width) {
                assert(!theme_cuts_ok(ls, self.selected as nat, active_theme@, list_height as nat, row_width as nat));
                return false;
            }
            i = i + 1;
        }
        true
    }
}

impl ThemesDialogState {
    /// What the picker shows (see [`theme_list_ok`]), with `listed` the
    /// themes it lists (as [`ThemesDialogState::filtered_items`] gives them),
    /// `active_theme` the id of the theme in use, a window of `list_height`
    /// rows and rows `row_width` bytes wide.
    pub fn theme_list_view(
        &self,
        listed: &[&ThemeInfo],
        active_theme: &str,
        list_height: usize,
        row_width: usize,
    ) -> (r: ThemeListView)
        requires
            theme_cuts_ok(deref_seq(listed@), self.selected as nat, active_theme@, list_height as nat, row_width as nat),
        ensures
            theme_list_ok(r, *self, deref_seq(listed@), active_theme@, list_height as nat, row_width as nat),
    {
        let total = self.items.len();
        let mut title = " Color Theme (".to_owned();
        if !self.filter.as_str().is_empty() {
            push_decimal(&mut title, listed.len() as u64);
            string_push_str(&mut title, "/");
        }
        push_decimal(&mut title, total as u64);
        string_push_str(&mut title, ") ");
        let ghost ls = deref_seq(listed@);
        if listed.len() == 0 {
            let mut note = "  No themes matching \"".to_owned();
            string_push_str(&mut note, self.filter.as_str());
            string_push_str(&mut note, "\"");
            return ThemeListView { title, rows: Vec::new(), empty_note: Some(note) };
        }
        let sel: usize = if self.selected >= listed.len() {
            listed.len() - 1
        } else {
            self.selected
        };
        let start: usize = if sel >= list_height {
            sel + 1 - list_height
        } else {
            0
        };
        let count: usize = if start >= listed.len() {
            0
        } else if listed.len() - start < list_height {
            listed.len() - start
        } else {
            list_height
        };
        let mut rows: Vec<ThemeRow> = Vec::new();
        let mut i: usize = 0;
        while i < count
            invariant
                i <= count,
                sel == clamp_selection(self.selected as nat, ls.len()),
                count == window_len(ls.len(), sel as nat, list_height as nat),
                start == scroll_for(sel as nat, list_height as nat),
                count == 0 || start + count <= listed@.len(),
                ls == deref_seq(listed@),
                theme_cuts_ok(ls, self.selected as nat, active_theme@, list_height as nat, row_width as nat),
                rows@.len() == i,
                forall|j: int|
                    0 <= j < i ==> theme_row_ok(
                        #[trigger] rows@[j],
                        ls[start + j],
                        start + j == sel,
                        ls[start + j].id@ == active_theme@,
                        row_width as nat,
                    ),
            decreases count - i,
        {
            let idx = start + i;
            let t: &ThemeInfo = listed[idx];
            let active = str_eq(t.id.as_str(), active_theme);
            assert(ls[idx as int] == *t);
            let row = theme_row(t, idx == sel, active, row_width);
            rows.push(row);
            i = i + 1;
        }
        ThemeListView { title, rows, empty_note: None }
    }
}

} // verus!
