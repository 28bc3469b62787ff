//! The model picker: the available models, filtered by a typed query.
use vstd::prelude::*;

use super::common::{
    cycle_next, deref_seq, filter_by, first_index_or_zero, lemma_filter_by_step,
    lemma_first_index_absent, lemma_first_index_found, next_index, step_back,
};
pub use crate::numfmt::format_context_window;
use crate::search::{lower_contains, lowercase_contains, str_eq};
use crate::layout::{scroll_for, window_len};
use crate::numfmt::{context_window_label, decimal, push_decimal};
use crate::strings::{lowercase, string_pop, string_push, string_push_str, string_truncate, to_lowercase};
use crate::utf8::{lemma_encode_utf8_concat, utf8_len};
use super::sessions::{capped, cursor_text, dot_text, sat_sub, sum3};
use vstd::utf8::*;

verus! {

broadcast use vstd::string::group_string_axioms;

/// A model offered by a provider.
#[derive(Debug, Clone, PartialEq, Eq)]
pub struct ModelInfo {
    pub id: String,
    pub context_window: u64,
}

/// State of the model picker.
#[derive(Debug, Clone, PartialEq, Eq)]
pub struct ModelsDialogState {
    pub items: Vec<ModelInfo>,
    pub selected: usize,
    pub filter: String,
    pub scroll_offset: usize,
}

/// A model matches a lowercased query when its id contains it, ignoring case.
pub open spec fn model_matches(m: ModelInfo, q: Seq<char>) -> bool {
    lower_contains(m.id@, q)
}

pub open spec fn model_filter(q: Seq<char>) -> spec_fn(ModelInfo) -> bool {
    |m: ModelInfo| model_matches(m, q)
}

/// The models the picker lists: all of them for an empty filter, otherwise
/// those matching the lowercased filter, in order.
pub open spec fn visible_models(items: Seq<ModelInfo>, filter: Seq<char>) -> Seq<ModelInfo> {
    if filter.len() == 0 {
        items
    } else {
        filter_by(items, model_filter(lowercase(filter)))
    }
}

pub open spec fn model_has_id(id: Seq<char>) -> spec_fn(ModelInfo) -> bool {
    |m: ModelInfo| m.id@ == id
}

impl ModelsDialogState {
    /// The picker over `items`, with `active_model` selected (the first model
    /// when no model has that id).
    pub fn new(items: Vec<ModelInfo>, active_model: &str) -> (s: Self)
        ensures
            s.items == items,
            s.selected == first_index_or_zero(items@, model_has_id(active_model@)),
            s.filter@.len() == 0,
            s.scroll_offset == 0,
    {
        let mut i: usize = 0;
        while i < items.len() && !str_eq(items[i].id.as_str(), active_model)
            invariant
                i <= items@.len(),
                forall|j: int| 0 <= j < i ==> !model_has_id(active_model@)(items@[j]),
            decreases items@.len() - i,
        {
            i = i + 1;
        }
        let selected = if i < items.len() {
            proof {
                lemma_first_index_found(items@, model_has_id(active_model@), i as int);
            }
            i
        } else {
            proof {
                lemma_first_index_absent(items@, model_has_id(active_model@));
            }
            0
        };
        ModelsDialogState { items, selected, filter: String::new(), scroll_offset: 0 }
    }

    /// The models currently listed (see [`visible_models`]).
    pub fn filtered_items(&self) -> (r: Vec<&ModelInfo>)
        ensures
            deref_seq(r@) == visible_models(self.items@, self.filter@),
    {
        let mut out: Vec<&ModelInfo> = Vec::new();
        if self.filter.as_str().is_empty() {
            let mut i: usize = 0;
            while i < self.items.len()
                invariant
                    i <= self.items@.len(),
                    deref_seq(out@) == self.items@.take(i as int),
                decreases self.items@.len() - i,
            {
                let ghost prev = out@;
                let a = &self.items[i];
                out.push(a);
                assert(out@ == prev.push(a));
                assert(*a == self.items@[i as int]);
                assert(deref_seq(out@) =~= deref_seq(prev).push(*a));
                assert(self.items@.take(i as int + 1) =~= self.items@.take(i as int).push(*a));
                i = i + 1;
                assert(deref_seq(out@) =~= self.items@.take(i as int));
            }
            assert(self.items@.take(self.items@.len() as int) =~= self.items@);
            return out;
        }
        let q = to_lowercase(self.filter.as_str());
        let ghost p = model_filter(q@);
        let mut i: usize = 0;
        assert(deref_seq(out@) =~= filter_by(self.items@.take(0), p));
        while i < self.items.len()
            invariant
                i <= self.items@.len(),
                p == model_filter(q@),
                deref_seq(out@) == filter_by(self.items@.take(i as int), p),
            decreases self.items@.len() - i,
        {
            let a = &self.items[i];
            let hit = lowercase_contains(a.id.as_str(), q.as_str());
            proof {
                lemma_filter_by_step(self.items@, p, i as int);
                assert(hit == p(self.items@[i as int]));
            }
            let ghost prev = out@;
            if hit {
                out.push(a);
                assert(deref_seq(out@) =~= deref_seq(prev).push(*a));
            }
            i = i + 1;
            assert(deref_seq(out@) =~= filter_by(self.items@.take(i as int), p));
        }
        assert(self.items@.take(self.items@.len() as int) =~= self.items@);
        out
    }

    /// The highlighted model: the listed model at the selection, if any.
    pub fn selected_model(&self) -> (r: Option<&ModelInfo>)
        ensures
            ({
                let v = visible_models(self.items@, self.filter@);
                if self.selected < v.len() {
                    r matches Some(a) && *a == v[self.selected as int]
                } else {
                    r is None
                }
            }),
    {
        let filtered = self.filtered_items();
        if self.selected < filtered.len() {
            Some(filtered[self.selected])
        } else {
            None
        }
    }

    /// Moves the selection down, wrapping (see [`cycle_next`]).
    pub fn next(&mut self)
        ensures
            final(self).selected == cycle_next(
                old(self).selected as nat,
                visible_models(old(self).items@, old(self).filter@).len(),
            ),
            final(self).items == old(self).items,
            final(self).filter == old(self).filter,
            final(self).scroll_offset == old(self).scroll_offset,
    {
        let count = self.filtered_items().len();
        if count > 0 {
            self.selected = next_index(self.selected, count);
        }
    }

    /// Moves the selection up, wrapping (see [`step_back`]).
    pub fn previous(&mut self)
        ensures
            final(self).selected == step_back(
                old(self).selected as nat,
                visible_models(old(self).items@, old(self).filter@).len(),
            ),
            final(self).items == old(self).items,
            final(self).filter == old(self).filter,
            final(self).scroll_offset == old(self).scroll_offset,
    {
        let count = self.filtered_items().len();
        if count > 0 {
            self.selected = if self.selected == 0 {
                count - 1
            } else {
                self.selected - 1
            };
        }
    }

    /// Types a character into the filter; the selection and scroll return to
    /// the top.
    pub fn push_char(&mut self, c: char)
        ensures
            final(self).filter@ == old(self).filter@.push(c),
            final(self).selected == 0,
            final(self).scroll_offset == 0,
            final(self).items == old(self).items,
    {
        string_push(&mut self.filter, c);
        self.selected = 0;
        self.scroll_offset = 0;
    }

    /// Deletes the filter's last character (if any); the selection and
    /// scroll return to the top.
    pub fn pop_char(&mut self)
        ensures
            final(self).filter@ == if old(self).filter@.len() > 0 {
                old(self).filter@.drop_last()
            } else {
                old(self).filter@
            },
            final(self).selected == 0,
            final(self).scroll_offset == 0,
            final(self).items == old(self).items,
    {
        string_pop(&mut self.filter);
        self.selected = 0;
        self.scroll_offset = 0;
    }
}

// ---------------------------------------------------------------------------
// How the picker shows
// ---------------------------------------------------------------------------

/// A row of the model list, as drawn from left to right: cursor and dot
/// (see [`cursor_text`] and [`dot_text`]), the model's id fitted to the row,
/// spaces, and the badge.
#[derive(Debug, Clone, PartialEq, Eq)]
pub struct ModelRow {
    pub selected: bool,
    pub active: bool,
    pub name: String,
    pub pad: usize,
    pub badge: String,
}

/// What the model picker shows.
#[derive(Debug, Clone, PartialEq, Eq)]
pub struct ModelListView {
    /// The title, with the number of models (listed of all, when filtered).
    pub title: String,
    /// The rows in the list's window.
    pub rows: Vec<ModelRow>,
    /// The note shown when no model is listed.
    pub empty_note: Option<String>,
}

/// The badge of a row: the context window, with `[active]` after it for the
/// active model.
pub open spec fn model_badge(m: ModelInfo, active: bool) -> Seq<char> {
    let ctx = context_window_label(m.context_window as nat);
    if active {
        if ctx.len() > 0 {
            ctx + " [active]"@
        } else {
            "[active]"@
        }
    } else {
        ctx
    }
}

/// The bytes the cursor and dot take (counted up to the largest `usize`).
pub open spec fn row_lead(selected: bool, active: bool) -> int {
    capped((utf8_len(cursor_text(selected)) + utf8_len(dot_text(active))) as int)
}

/// The bytes left for the id on a row `width` wide: the width less the
/// lead, the badge and two (sums counted up to the largest `usize`).
pub open spec fn name_room(m: ModelInfo, selected: bool, active: bool, width: nat) -> nat {
    sat_sub(width as int, capped((row_lead(selected, active) + utf8_len(model_badge(m, active)) + 2) as int))
}

/// Where the id is cut, when it is longer than the room and the room is
/// more than four bytes: one byte before the room ends.
pub open spec fn name_cut(m: ModelInfo, selected: bool, active: bool, width: nat) -> Option<int> {
    let room = name_room(m, selected, active, width);
    if utf8_len(m.id@) > room && room > 4 {
        Some(room - 1)
    } else {
        None
    }
}

/// `r` is the row of model `m`.
pub open spec fn model_row_ok(r: ModelRow, m: ModelInfo, selected: bool, active: bool, width: nat) -> bool {
    &&& r.selected == selected
    &&& r.active == active
    &&& r.badge@ == model_badge(m, active)
    &&& match name_cut(m, selected, active, width) {
        Some(c) => encode_utf8(r.name@) == encode_utf8(m.id@).take(c) + encode_utf8("…"@),
        None => r.name@ == m.id@,
    }
    &&& r.pad == sat_sub(
        width as int,
        capped((row_lead(selected, active) + utf8_len(r.name@) + utf8_len(r.badge@)) as int),
    )
}

/// Every cut falls on a character boundary of the id it cuts.
pub open spec fn cuts_ok(
    listed: Seq<ModelInfo>,
    selected: nat,
    active_model: Seq<char>,
    height: nat,
    width: nat,
) -> bool {
    let start = scroll_for(selected, height);
    forall|k: int|
        start <= k < start + window_len(listed.len(), selected, height) ==> match name_cut(
            #[trigger] listed[k],
            k == selected,
            listed[k].id@ == active_model,
            width,
        ) {
            Some(c) => is_char_boundary(encode_utf8(listed[k].id@), c),
            None => true,
        }
}

/// What the picker shows with `listed` models listed out of its items, a
/// window of `height` rows and rows `width` bytes wide.
pub open spec fn model_list_ok(
    v: ModelListView,
    d: ModelsDialogState,
    listed: Seq<ModelInfo>,
    active_model: Seq<char>,
    height: nat,
    width: nat,
) -> bool {
    let total = d.items@.len();
    let start = scroll_for(d.selected as nat, height);
    &&& v.title@ == if d.filter@.len() == 0 {
        " Select Model ("@ + decimal(total) + ") "@
    } else {
        " Select Model ("@ + decimal(listed.len()) + "/"@ + decimal(total) + ") "@
    }
    &&& if listed.len() == 0 {
        &&& v.rows@.len() == 0
        &&& v.empty_note matches Some(n) && n@ == "  No models matching \""@ + d.filter@ + "\""@
    } else {
        &&& v.empty_note is None
        &&& v.rows@.len() == window_len(listed.len(), d.selected as nat, height)
        &&& forall|i: int|
            0 <= i < v.rows@.len() ==> model_row_ok(
                #[trigger] v.rows@[i],
                listed[start + i],
                start + i == d.selected,
                listed[start + i].id@ == active_model,
                width,
            )
    }
}

/// The badge of model `m` (see [`model_badge`]).
fn badge_text(m: &ModelInfo, active: bool) -> (b: String)
    ensures
        b@ == model_badge(*m, active),
{
    let ctx = format_context_window(m.context_window);
    if active {
        if !ctx.as_str().is_empty() {
            let mut b = ctx;
            string_push_str(&mut b, " [active]");
            b
        } else {
            "[active]".to_owned()
        }
    } else {
        ctx
    }
}

/// Whether the cut the row of model `m` makes in its id (see [`name_cut`])
/// falls on a character boundary.
fn name_cut_fits(m: &ModelInfo, selected: bool, active: bool, width: usize) -> (b: bool)
    ensures
        b == (match name_cut(*m, selected, active, width as nat) {
            Some(c) => is_char_boundary(encode_utf8(m.id@), c),
            None => true,
        }),
{
    let cursor = if selected {
        " › "
    } else {
        "   "
    };
    let dot = if active {
        "● "
    } else {
        "  "
    };
    let badge = badge_text(m, active);
    let lead = cursor.as_bytes().len().saturating_add(dot.as_bytes().len());
    let badge_len = badge.as_str().as_bytes().len();
    let room = width.saturating_sub(sum3(lead, badge_len, 2));
    let id_len = m.id.as_str().as_bytes().len();
    if id_len > room && room > 4 {
        m.id.as_str().is_char_boundary(room - 1)
    } else {
        true
    }
}

/// The row of model `m` (see [`model_row_ok`]).
fn model_row(m: &ModelInfo, selected: bool, active: bool, width: usize) -> (r: ModelRow)
    requires
        match name_cut(*m, selected, active, width as nat) {
            Some(c) => is_char_boundary(encode_utf8(m.id@), c),
            None => true,
        },
    ensures
        model_row_ok(r, *m, selected, active, width as nat),
{
    let cursor = if selected {
        " › "
    } else {
        "   "
    };
    let dot = if active {
        "● "
    } else {
        "  "
    };
    let badge = badge_text(m, active);
    let lead = cursor.as_bytes().len().saturating_add(dot.as_bytes().len());
    let badge_len = badge.as_str().as_bytes().len();
    let room = width.saturating_sub(sum3(lead, badge_len, 2));
    let id_len = m.id.as_str().as_bytes().len();
    let name = if id_len > room && room > 4 {
        let mut n = m.id.clone();
        string_truncate(&mut n, room - 1);
        let ghost cut = n@;
        string_push_str(&mut n, "…");
        proof {
            lemma_encode_utf8_concat(cut, "…"@);
        }
        n
    } else {
        m.id.clone()
    };
    let name_len = name.as_str().as_bytes().len();
    let pad = width.saturating_sub(sum3(lead, name_len, badge_len));
    ModelRow { selected, active, name, pad, badge }
}

impl ModelsDialogState {
    /// Whether the picker can be drawn with `listed` models listed, a window
    /// of `list_height` rows and rows `row_width` bytes wide: every id cut
    /// falls on a character boundary (see [`cuts_ok`]).
    pub fn model_list_fits(
        &self,
        listed: &[&ModelInfo],
        active_model: &str,
        list_height: usize,
        row_width: usize,
    ) -> (b: bool)
        requires
            self.selected < usize::MAX,
        ensures
            b == cuts_ok(deref_seq(listed@), self.selected as nat, active_model@, list_height as nat, row_width as nat),
    {
        let ghost ls = deref_seq(listed@);
        let start: usize = if self.selected >= list_height {
            self.selected + 1 - list_height
        } else {
            0
        };
        let count: usize = if start >= listed.len() {
            0
        } else if listed.len() - start < list_height {
            listed.len() - start
        } else {
            list_height
        };
        let mut i: usize = 0;
        while i < count
            invariant
                i <= count,
                count == window_len(ls.len(), self.selected as nat, list_height as nat),
                start == scroll_for(self.selected as nat, list_height as nat),
                count == 0 || start + count <= listed@.len(),
                ls == deref_seq(listed@),
                forall|k: int|
                    start <= k < start + i ==> match name_cut(
                        #[trigger] ls[k],
                        k == self.selected,
                        ls[k].id@ == active_model@,
                        row_width as nat,
                    ) {
                        Some(c) => is_char_boundary(encode_utf8(ls[k].id@), c),
                        None => true,
                    },
            decreases count - i,
        {
            let m: &ModelInfo = listed[start + i];
            let idx = start + i;
            let active = str_eq(m.id.as_str(), active_model);
            assert(ls[idx as int] == *m);
            if !name_cut_fits(m, idx == self.selected, active, row_width) {
                assert(!cuts_ok(ls, self.selected as nat, active_model@, list_height as nat, row_width as nat));
                return false;
            }
            i = i + 1;
        }
        true
    }
}

impl ModelsDialogState {
    /// What the picker shows (see [`model_list_ok`]), with `listed` the
    /// models it lists (as [`ModelsDialogState::filtered_items`] gives
    /// them), `active_model` the model in use, a window of `list_height`
    /// rows and rows `row_width` bytes wide.
    pub fn model_list_view(
        &self,
        listed: &[&ModelInfo],
        active_model: &str,
        list_height: usize,
        row_width: usize,
    ) -> (r: ModelListView)
        requires
            self.selected < usize::MAX,
            cuts_ok(deref_seq(listed@), self.selected as nat, active_model@, list_height as nat, row_width as nat),
        ensures
            model_list_ok(r, *self, deref_seq(listed@), active_model@, list_height as nat, row_width as nat),
    {
        let total = self.items.len();
        let mut title = " Select Model (".to_owned();
        if !self.filter.as_str().is_empty() {
            push_decimal(&mut title, listed.len() as u64);
            string_push_str(&mut title, "/");
        }
        push_decimal(&mut title, total as u64);
        string_push_str(&mut title, ") ");
        let ghost ls = deref_seq(listed@);
        if listed.len() == 0 {
            let mut note = "  No models matching \"".to_owned();
            string_push_str(&mut note, self.filter.as_str());
            string_push_str(&mut note, "\"");
            return ModelListView { title, rows: Vec::new(), empty_note: Some(note) };
        }
        let start: usize = if self.selected >= list_height {
            self.selected + 1 - list_height
        } else {
            0
        };
        let count: usize = if start >= listed.len() {
            0
        } else if listed.len() - start < list_height {
            listed.len() - start
        } else {
            list_height
        };
        let mut rows: Vec<ModelRow> = Vec::new();
        let mut i: usize = 0;
        while i < count
            invariant
                i <= count,
                count == window_len(ls.len(), self.selected as nat, list_height as nat),
                start == scroll_for(self.selected as nat, list_height as nat),
                count == 0 || start + count <= listed@.len(),
                ls == deref_seq(listed@),
                cuts_ok(ls, self.selected as nat, active_model@, list_height as nat, row_width as nat),
                rows@.len() == i,
                forall|j: int|
                    0 <= j < i ==> model_row_ok(
                        #[trigger] rows@[j],
                        ls[start + j],
                        start + j == self.selected,
                        ls[start + j].id@ == active_model@,
                        row_width as nat,
                    ),
            decreases count - i,
        {
            let m: &ModelInfo = listed[start + i];
            let idx = start + i;
            let active = str_eq(m.id.as_str(), active_model);
            assert(ls[idx as int] == *m);
            assert(match name_cut(ls[start + i], start + i == self.selected, ls[start + i].id@ == active_model@, row_width as nat) {
                Some(c) => is_char_boundary(encode_utf8(ls[start + i].id@), c),
                None => true,
            });
            let row = model_row(m, idx == self.selected, active, row_width);
            rows.push(row);
            i = i + 1;
        }
        ModelListView { title, rows, empty_note: None }
    }
}

} // verus!
