//! Where things sit on the screen and where a click lands: rectangles, the
//! tool rows drawn in the transcript's window, the rows of the completion
//! popup, centred dialogs and the scrolled-up note.
use vstd::prelude::*;

use crate::numfmt::{decimal, push_decimal};
use crate::search::str_eq;
use crate::strings::string_push_str;
use crate::utf8::utf8_len;

verus! {

/// A rectangle of terminal cells: its top-left corner and its size.
#[derive(Debug, Clone, Copy, PartialEq, Eq, Structural)]
pub struct Area {
    pub x: u16,
    pub y: u16,
    pub width: u16,
    pub height: u16,
}

/// The cell at column `x`, row `y` lies in `a`.
pub open spec fn contains_point(a: Area, x: int, y: int) -> bool {
    a.x <= x < a.x + a.width && a.y <= y < a.y + a.height
}

/// Whether the cell at column `x`, row `y` lies in `area`.
pub fn area_contains(area: &Area, x: u16, y: u16) -> (b: bool)
    ensures
        b == contains_point(*area, x as int, y as int),
{
    let right = area.x as u32 + area.width as u32;
    let bottom = area.y as u32 + area.height as u32;
    area.x <= x && (x as u32) < right && area.y <= y && (y as u32) < bottom
}

/// The first of `clicks` whose area holds the cell.
pub open spec fn first_hit(clicks: Seq<(String, Area)>, x: int, y: int, i: int) -> Option<int>
    decreases clicks.len() - i,
{
    if i < 0 || i >= clicks.len() {
        None
    } else if contains_point(clicks[i].1, x, y) {
        Some(i)
    } else {
        first_hit(clicks, x, y, i + 1)
    }
}

/// The id of the first tool row (or thought) drawn in an area that holds the
/// cell at column `x`, row `y`.
pub fn tool_row_at(clicks: &[(String, Area)], x: u16, y: u16) -> (r: Option<String>)
    ensures
        match first_hit(clicks@, x as int, y as int, 0) {
            Some(i) => 0 <= i < clicks@.len() && r is Some && r->0@ == clicks@[i].0@,
            None => r is None,
        },
{
    let mut i: usize = 0;
    while i < clicks.len()
        invariant
            i <= clicks@.len(),
            first_hit(clicks@, x as int, y as int, 0) == first_hit(clicks@, x as int, y as int, i as int),
        decreases clicks@.len() - i,
    {
        if area_contains(&clicks[i].1, x, y) {
            return Some(clicks[i].0.clone());
        }
        i = i + 1;
    }
    None
}

/// Which completion a click on row `y` of the popup `area` picks, when
/// `selected` is the selected one: the popup shows as many completions as fit
/// inside its border, scrolled so that the selected one shows; a click on the
/// border picks the nearest row. Nothing when no completion fits.
pub open spec fn popup_item(area: Area, y: int, selected: nat) -> Option<nat> {
    let visible: int = if area.height >= 2 {
        area.height - 2
    } else {
        0
    };
    if visible == 0 {
        None
    } else {
        let rel: int = if y <= area.y + 1 {
            0
        } else if y - (area.y + 1) < visible - 1 {
            y - (area.y + 1)
        } else {
            visible - 1
        };
        Some(scroll_for(selected, visible as nat) + rel as nat)
    }
}

/// The completion a click on row `y` of the popup picks (see
/// [`popup_item`]).
pub fn popup_item_at(area: &Area, y: u16, selected: usize) -> (r: Option<usize>)
    requires
        selected < usize::MAX,
    ensures
        match popup_item(*area, y as int, selected as nat) {
            Some(i) => r == Some(i as usize) && i <= usize::MAX,
            None => r is None,
        },
{
    let visible: usize = if area.height >= 2 {
        (area.height - 2) as usize
    } else {
        0
    };
    if visible == 0 {
        return None;
    }
    let top = area.y as u32 + 1;
    let rel: usize = if (y as u32) <= top {
        0
    } else if ((y as u32 - top) as usize) < visible - 1 {
        (y as u32 - top) as usize
    } else {
        visible - 1
    };
    let scroll = popup_scroll(selected, visible);
    Some(scroll + rel)
}

/// How far a list showing `visible` entries at a time is scrolled so that
/// entry `selected` shows: not at all while it is among the first, else so
/// that it is the last shown.
pub open spec fn scroll_for(selected: nat, visible: nat) -> nat {
    if selected >= visible {
        (selected + 1 - visible) as nat
    } else {
        0
    }
}

/// How many of `n` entries a window of `height` rows shows once scrolled
/// for entry `selected` (see [`scroll_for`]).
pub open spec fn window_len(n: nat, selected: nat, height: nat) -> nat {
    let start = scroll_for(selected, height);
    if start >= n {
        0
    } else if n - start < height {
        (n - start) as nat
    } else {
        height
    }
}

/// How far the list is scrolled (see [`scroll_for`]).
pub fn popup_scroll(selected: usize, visible: usize) -> (r: usize)
    requires
        selected < usize::MAX,
    ensures
        r == scroll_for(selected as nat, visible as nat),
{
    if selected >= visible {
        selected - visible + 1
    } else {
        0
    }
}

/// Where the popup of `count` model completions goes above the input area
/// `input`: as many rows as there are completions, at most 8 and at most
/// what fits above the input inside a border, at most 70 cells wide; none
/// when there is nothing to offer, the input is narrower than 10 cells or
/// fewer than 3 rows stand above it.
pub open spec fn model_popup(input: Area, count: nat) -> Option<Area> {
    if count == 0 || input.width < 10 || input.y < 3 {
        None
    } else {
        let max_visible: int = if 8 < input.y - 2 {
            8
        } else {
            input.y - 2
        };
        let visible: int = if count < max_visible {
            count as int
        } else {
            max_visible
        };
        let height = visible + 2;
        Some(
            Area {
                x: input.x,
                y: (input.y - height) as u16,
                width: if input.width < 70 {
                    input.width
                } else {
                    70
                },
                height: height as u16,
            },
        )
    }
}

/// Where the popup of model completions goes (see [`model_popup`]).
pub fn model_popup_area(input: &Area, count: usize) -> (r: Option<Area>)
    ensures
        r == model_popup(*input, count as nat),
{
    if count == 0 || input.width < 10 || input.y < 3 {
        return None;
    }
    let room: u16 = input.y - 2;
    let max_visible: u16 = if 8 < room {
        8
    } else {
        room
    };
    let visible: u16 = if count < max_visible as usize {
        count as u16
    } else {
        max_visible
    };
    let height: u16 = visible + 2;
    Some(
        Area {
            x: input.x,
            y: input.y - height,
            width: if input.width < 70 {
                input.width
            } else {
                70
            },
            height,
        },
    )
}


/// A box `width` by `height` centred in `area` (rounded towards the top
/// left), as the dialogs place themselves.
pub open spec fn centered_in(area: Area, width: nat, height: nat) -> Area {
    Area {
        x: (area.x + (if area.width > width {
            (area.width - width) as int
        } else {
            0
        }) / 2) as u16,
        y: (area.y + (if area.height > height {
            (area.height - height) as int
        } else {
            0
        }) / 2) as u16,
        width: width as u16,
        height: height as u16,
    }
}

/// The centred box's corner stays on the screen's coordinates.
pub open spec fn centred_fits(area: Area, width: nat, height: nat) -> bool {
    &&& area.x + (if area.width > width {
        (area.width - width) as int
    } else {
        0
    }) / 2 <= u16::MAX
    &&& area.y + (if area.height > height {
        (area.height - height) as int
    } else {
        0
    }) / 2 <= u16::MAX
}

/// A box `width` by `height` centred in `area` (see [`centered_in`]).
pub fn centered(area: &Area, width: u16, height: u16) -> (r: Area)
    requires
        centred_fits(*area, width as nat, height as nat),
    ensures
        r == centered_in(*area, width as nat, height as nat),
{
    Area {
        x: area.x + area.width.saturating_sub(width) / 2,
        y: area.y + area.height.saturating_sub(height) / 2,
        width,
        height,
    }
}

/// Where the shortcut sheet goes in `area`: 36 to 72 cells wide, 14 rows
/// high but two rows short of the area at most, centred.
pub open spec fn which_key_box(area: Area) -> Area {
    centered_in(area, which_key_width(area), which_key_height(area))
}

pub open spec fn which_key_width(area: Area) -> nat {
    if area.width < 36 {
        36
    } else if area.width > 72 {
        72
    } else {
        area.width as nat
    }
}

pub open spec fn which_key_height(area: Area) -> nat {
    let room: nat = if area.height > 2 {
        (area.height - 2) as nat
    } else {
        0
    };
    if room < 14 {
        room
    } else {
        14
    }
}

/// Where the shortcut sheet goes (see [`which_key_box`]).
pub fn which_key_area(area: &Area) -> (r: Area)
    requires
        centred_fits(*area, which_key_width(*area), which_key_height(*area)),
    ensures
        r == which_key_box(*area),
{
    let width: u16 = if area.width < 36 {
        36
    } else if area.width > 72 {
        72
    } else {
        area.width
    };
    let height = if area.height.saturating_sub(2) < 14 {
        area.height.saturating_sub(2)
    } else {
        14
    };
    centered(area, width, height)
}


/// What a quick-action card on the empty screen does.
#[derive(Debug, Clone, Copy, PartialEq, Eq, Structural)]
pub enum QuickAction {
    PlanMode,
    BuildMode,
    Models,
    Shortcuts,
}

/// What a click on the main screen lands on.
#[derive(Debug, Clone, PartialEq, Eq)]
pub enum ClickTarget {
    /// The reasoning block: it folds or unfolds.
    Thought,
    /// The tool row with this call id.
    ToolRow(String),
    /// The completion popup, and the completion picked there, if any.
    Popup(Option<usize>),
    /// A quick-action card.
    QuickAction(QuickAction),
    /// A quick-action card past the known ones, or nothing clickable.
    Nothing,
}

/// The id under which the reasoning block's area is recorded among the
/// tool rows.
pub open spec fn thought_id() -> Seq<char> {
    "__thought__"@
}

/// The first of `cards` from index `i` on that holds the cell.
pub open spec fn first_card(cards: Seq<Area>, x: int, y: int, i: int) -> Option<int>
    decreases cards.len() - i,
{
    if i < 0 || i >= cards.len() {
        None
    } else if contains_point(cards[i], x, y) {
        Some(i)
    } else {
        first_card(cards, x, y, i + 1)
    }
}

pub open spec fn quick_action_of(k: int) -> Option<QuickAction> {
    if k == 0 {
        Some(QuickAction::PlanMode)
    } else if k == 1 {
        Some(QuickAction::BuildMode)
    } else if k == 2 {
        Some(QuickAction::Models)
    } else if k == 3 {
        Some(QuickAction::Shortcuts)
    } else {
        None
    }
}

/// What a click at column `x`, row `y` lands on: a tool row (or the
/// reasoning block) first; then, while completions are offered, the popup
/// when it holds the cell; then, on an empty transcript, the first
/// quick-action card that holds it.
pub open spec fn click_target_ok(
    r: ClickTarget,
    clicks: Seq<(String, Area)>,
    popup: Option<Area>,
    offering: bool,
    selected: nat,
    cards: Seq<Area>,
    transcript_empty: bool,
    x: int,
    y: int,
) -> bool {
    match first_hit(clicks, x, y, 0) {
        Some(i) => if clicks[i].0@ == thought_id() {
            r == ClickTarget::Thought
        } else {
            r matches ClickTarget::ToolRow(id) && id@ == clicks[i].0@
        },
        None => if offering && popup is Some && contains_point(popup->0, x, y) {
            r matches ClickTarget::Popup(p) && match popup_item(popup->0, y, selected) {
                Some(k) => p == Some(k as usize),
                None => p is None,
            }
        } else if transcript_empty && first_card(cards, x, y, 0) is Some {
            match quick_action_of(first_card(cards, x, y, 0)->0) {
                Some(q) => r == ClickTarget::QuickAction(q),
                None => r == ClickTarget::Nothing,
            }
        } else {
            r == ClickTarget::Nothing
        },
    }
}

/// What a click at column `x`, row `y` lands on (see [`click_target_ok`]):
/// `clicks` are the tool rows drawn, `popup` the completion popup,
/// `offering` whether completions are offered, `selected` the selected
/// completion, `cards` the quick-action cards.
pub fn click_target(
    clicks: &[(String, Area)],
    popup: Option<Area>,
    offering: bool,
    selected: usize,
    cards: &[Area],
    transcript_empty: bool,
    x: u16,
    y: u16,
) -> (r: ClickTarget)
    requires
        first_hit(clicks@, x as int, y as int, 0) is None && offering && popup is Some && contains_point(
            popup->0,
            x as int,
            y as int,
        ) && popup->0.height > 2 ==> selected < usize::MAX,
    ensures
        click_target_ok(r, clicks@, popup, offering, selected as nat, cards@, transcript_empty, x as int, y as int),
{
    if let Some(id) = tool_row_at(clicks, x, y) {
        if str_eq(id.as_str(), "__thought__") {
            return ClickTarget::Thought;
        }
        return ClickTarget::ToolRow(id);
    }
    if offering {
        if let Some(a) = popup {
            if area_contains(&a, x, y) {
                if a.height <= 2 {
                    return ClickTarget::Popup(None);
                }
                return ClickTarget::Popup(popup_item_at(&a, y, selected));
            }
        }
    }
    if transcript_empty {
        let mut k: usize = 0;
        while k < cards.len()
            invariant
                k <= cards@.len(),
                transcript_empty,
                first_hit(clicks@, x as int, y as int, 0) is None,
                !(offering && popup is Some && contains_point(popup->0, x as int, y as int)),
                first_card(cards@, x as int, y as int, 0) == first_card(cards@, x as int, y as int, k as int),
            decreases cards@.len() - k,
        {
            if area_contains(&cards[k], x, y) {
                return if k == 0 {
                    ClickTarget::QuickAction(QuickAction::PlanMode)
                } else if k == 1 {
                    ClickTarget::QuickAction(QuickAction::BuildMode)
                } else if k == 2 {
                    ClickTarget::QuickAction(QuickAction::Models)
                } else if k == 3 {
                    ClickTarget::QuickAction(QuickAction::Shortcuts)
                } else {
                    ClickTarget::Nothing
                };
            }
            k = k + 1;
        }
    }
    ClickTarget::Nothing
}


// ---------------------------------------------------------------------------
// The transcript's window
// ---------------------------------------------------------------------------

/// `n`, held at the largest `u16`.
pub open spec fn cap16(n: int) -> int {
    if n > u16::MAX {
        u16::MAX as int
    } else {
        n
    }
}

/// The rows of the first `n` lines (each line's rows in `rows`).
pub open spec fn rows_sum(rows: Seq<usize>, n: int) -> int
    decreases n,
{
    if n <= 0 || n > rows.len() {
        0
    } else {
        rows_sum(rows, n - 1) + rows[n - 1]
    }
}

/// The row where line `n` starts, counted with each line's rows and the
/// running total held at the largest `u16`.
pub open spec fn line_start(rows: Seq<usize>, n: int) -> int
    decreases n,
{
    if n <= 0 || n > rows.len() {
        0
    } else {
        cap16(line_start(rows, n - 1) + cap16(rows[n - 1] as int))
    }
}

/// How the transcript sits in its area.
#[derive(Debug, Clone, PartialEq, Eq)]
pub struct ChatWindow {
    /// Rows the transcript takes, held at the largest `u16`.
    pub total_rows: u16,
    /// The first row shown.
    pub scroll_y: u16,
    /// How far above the bottom the view is, at most as far as it can be.
    pub scroll_offset: u16,
    /// The tool rows on screen, each with the row of the area it is drawn on.
    pub clicks: Vec<(String, Area)>,
}

/// The window's scroll for a transcript of `total` rows in `height` rows,
/// scrolled `chat_scroll` rows up from the bottom: (first row shown, offset).
pub open spec fn window_scroll(total: int, height: int, chat_scroll: int) -> (int, int) {
    let max_scroll = if total > height {
        total - height
    } else {
        0
    };
    let offset = if chat_scroll < max_scroll {
        chat_scroll
    } else {
        max_scroll
    };
    (max_scroll - offset, offset)
}

/// The screen row of line `index` of the transcript, whose lines take `rows`
/// rows, in `area` scrolled to `scroll_y` (arithmetic held within `u16`).
pub open spec fn line_row(rows: Seq<usize>, index: nat, area: Area, scroll_y: int) -> int {
    let before = line_start(rows, if index < rows.len() {
        index as int
    } else {
        rows.len() as int
    });
    let top = cap16(area.y + before);
    if top > scroll_y {
        top - scroll_y
    } else {
        0
    }
}

/// Whether screen row `y` is inside `area`'s rows (its bottom held within
/// `u16`).
pub open spec fn row_inside(area: Area, y: int) -> bool {
    area.y <= y < cap16(area.y + area.height)
}

/// The tool rows among `tools` (call id and line index) that show, in order,
/// each as a one-row area across the transcript's area.
pub open spec fn shown_tools(tools: Seq<(String, usize)>, rows: Seq<usize>, area: Area, scroll_y: int) -> Seq<(Seq<char>, Area)>
    decreases tools.len(),
{
    if tools.len() == 0 {
        Seq::empty()
    } else {
        let before = shown_tools(tools.drop_last(), rows, area, scroll_y);
        let t = tools.last();
        let y = line_row(rows, t.1 as nat, area, scroll_y);
        if row_inside(area, y) {
            before.push((t.0@, Area { x: area.x, y: y as u16, width: area.width, height: 1 }))
        } else {
            before
        }
    }
}

pub open spec fn click_views(c: Seq<(String, Area)>) -> Seq<(Seq<char>, Area)> {
    c.map_values(|p: (String, Area)| (p.0@, p.1))
}

/// How the transcript, whose lines take `rows` rows, sits in `area` when
/// scrolled `chat_scroll` rows up, with the tool rows `tools` (call id and
/// line index) that can be clicked.
pub open spec fn chat_window_ok(w: ChatWindow, rows: Seq<usize>, chat_scroll: u16, area: Area, tools: Seq<(String, usize)>) -> bool {
    let total = cap16(rows_sum(rows, rows.len() as int));
    let (scroll_y, offset) = window_scroll(total, area.height as int, chat_scroll as int);
    &&& w.total_rows == total
    &&& w.scroll_y == scroll_y
    &&& w.scroll_offset == offset
    &&& click_views(w.clicks@) == shown_tools(tools, rows, area, scroll_y)
}

/// How the transcript sits in its area (see [`chat_window_ok`]).
pub fn chat_window(rows: &[usize], chat_scroll: u16, area: &Area, tools: &[(String, usize)]) -> (w: ChatWindow)
    ensures
        chat_window_ok(w, rows@, chat_scroll, *area, tools@),
{
    // Running totals: `prefix[i]` is where line `i` starts.
    let mut prefix: Vec<u16> = Vec::new();
    prefix.push(0);
    let mut total: u32 = 0;
    let mut i: usize = 0;
    while i < rows.len()
        invariant
            i <= rows@.len(),
            total == cap16(rows_sum(rows@, i as int)),
            prefix@.len() == i + 1,
            forall|j: int| 0 <= j <= i ==> #[trigger] prefix@[j] == line_start(rows@, j),
        decreases rows@.len() - i,
    {
        let r: u32 = if rows[i] > 65535 {
            65535
        } else {
            rows[i] as u32
        };
        let last = prefix[i] as u32;
        let next: u16 = if last + r > 65535 {
            65535
        } else {
            (last + r) as u16
        };
        proof {
            assert(line_start(rows@, i + 1) == cap16(line_start(rows@, i as int) + cap16(rows@[i as int] as int)));
            assert(rows_sum(rows@, i + 1) == rows_sum(rows@, i as int) + rows@[i as int]);
        }
        prefix.push(next);
        total = if total + r > 65535 {
            65535
        } else {
            total + r
        };
        proof {
            assert(rows_sum(rows@, i as int) >= 0) by {
                lemma_rows_sum_nonneg(rows@, i as int);
            }
        }
        i = i + 1;
    }
    let total16 = total as u16;
    let max_scroll = total16.saturating_sub(area.height);
    let offset = if chat_scroll < max_scroll {
        chat_scroll
    } else {
        max_scroll
    };
    let scroll_y = max_scroll - offset;
    let bottom: u32 = area.y as u32 + area.height as u32;
    let bottom16: u32 = if bottom > 65535 {
        65535
    } else {
        bottom
    };
    let mut clicks: Vec<(String, Area)> = Vec::new();
    let mut k: usize = 0;
    while k < tools.len()
        invariant
            k <= tools@.len(),
            prefix@.len() == rows@.len() + 1,
            forall|j: int| 0 <= j <= rows@.len() ==> #[trigger] prefix@[j] == line_start(rows@, j),
            bottom16 == cap16(area.y + area.height),
            click_views(clicks@) == shown_tools(tools@.take(k as int), rows@, *area, scroll_y as int),
        decreases tools@.len() - k,
    {
        let idx = if tools[k].1 < rows.len() {
            tools[k].1
        } else {
            rows.len()
        };
        let before = prefix[idx] as u32;
        let top: u32 = if area.y as u32 + before > 65535 {
            65535
        } else {
            area.y as u32 + before
        };
        let y: u32 = if top > scroll_y as u32 {
            top - scroll_y as u32
        } else {
            0
        };
        proof {
            let t = tools@.take(k + 1);
            assert(t.drop_last() =~= tools@.take(k as int));
            assert(t.last() == tools@[k as int]);
            assert(y == line_row(rows@, tools@[k as int].1 as nat, *area, scroll_y as int));
        }
        let ghost before_clicks = clicks@;
        if area.y as u32 <= y && y < bottom16 {
            let id = tools[k].0.clone();
            clicks.push((id, Area { x: area.x, y: y as u16, width: area.width, height: 1 }));
            proof {
                assert(click_views(clicks@) =~= click_views(before_clicks).push(
                    (tools@[k as int].0@, Area { x: area.x, y: y as u16, width: area.width, height: 1 }),
                ));
            }
        }
        k = k + 1;
    }
    proof {
        assert(tools@.take(tools@.len() as int) =~= tools@);
    }
    ChatWindow { total_rows: total16, scroll_y, scroll_offset: offset, clicks }
}

proof fn lemma_rows_sum_nonneg(rows: Seq<usize>, n: int)
    ensures
        rows_sum(rows, n) >= 0,
    decreases n,
{
    if n > 0 && n <= rows.len() {
        lemma_rows_sum_nonneg(rows, n - 1);
    }
}


/// The note shown at the bottom right of the transcript while it is
/// scrolled up.
pub open spec fn scroll_badge_text(offset: u16) -> Seq<char> {
    " ↓ "@ + decimal(offset as nat) + " lines up (End to bottom) "@
}

/// Where the note goes: only while scrolled up in an area at least 30 cells
/// wide and 2 rows high that is wider than the note and two cells; then on
/// the area's last row, two cells from its right edge.
pub open spec fn scroll_badge_spot(offset: u16, area: Area) -> Option<Area> {
    let w = utf8_len(scroll_badge_text(offset));
    if offset > 0 && area.width >= 30 && area.height >= 2 && area.width > w + 2 {
        Some(
            Area {
                x: cap16(area.x + (area.width - w - 2)) as u16,
                y: cap16(area.y + area.height - 1) as u16,
                width: w as u16,
                height: 1,
            },
        )
    } else {
        None
    }
}

/// The scrolled-up note and where it goes (see [`scroll_badge_spot`]).
pub fn scroll_badge(offset: u16, area: &Area) -> (r: Option<(String, Area)>)
    ensures
        match scroll_badge_spot(offset, *area) {
            Some(a) => r matches Some((t, ra)) && t@ == scroll_badge_text(offset) && ra == a,
            None => r is None,
        },
{
    if offset == 0 || area.width < 30 || area.height < 2 {
        return None;
    }
    let mut text = " ↓ ".to_owned();
    push_decimal(&mut text, offset as u64);
    string_push_str(&mut text, " lines up (End to bottom) ");
    let w = text.as_str().as_bytes().len();
    if (area.width as usize) <= w.saturating_add(2) {
        return None;
    }
    let w16 = w as u16;
    let dx = area.width - w16 - 2;
    let x: u32 = if area.x as u32 + dx as u32 > 65535 {
        65535
    } else {
        area.x as u32 + dx as u32
    };
    let y: u32 = if area.y as u32 + area.height as u32 - 1 > 65535 {
        65535
    } else {
        area.y as u32 + area.height as u32 - 1
    };
    Some((text, Area { x: x as u16, y: y as u16, width: w16, height: 1 }))
}


/// What the completion popup offers.
#[derive(Debug, Clone, Copy, PartialEq, Eq, Structural)]
pub enum PopupKind {
    /// Slash commands.
    Command,
    /// Models, after `/model `.
    Model,
    /// Themes, after `/theme `.
    Theme,
}

pub open spec fn sat16(a: int, b: int) -> int {
    if a > b {
        a - b
    } else {
        0
    }
}

pub open spec fn min_int(a: int, b: int) -> int {
    if a < b {
        a
    } else {
        b
    }
}

/// Where the completion popup goes on a terminal `width` by `height` when
/// `count` completions are offered: just above the input box (centred and at
/// most 100 cells wide on the empty start screen, full width at the bottom
/// otherwise), as many rows as completions up to 8 for models and themes and
/// 6 for commands and inside the room above the input, and at most 70, 50 or
/// 64 cells wide for models, themes or commands. None when nothing is
/// offered, the terminal has no size, or fewer than 3 rows stand above the
/// input.
pub open spec fn completion_popup(width: int, height: int, transcript_empty: bool, kind: PopupKind, count: int) -> Option<Area> {
    let wh = sat16(height, 1);
    let input_h = min_int(5, sat16(wh, 6));
    let input_y = if transcript_empty {
        sat16(wh, input_h + 2)
    } else {
        sat16(wh, 6)
    };
    let input_w = if !transcript_empty {
        width
    } else if width >= 106 {
        100
    } else {
        sat16(width, 4)
    };
    let input_x = if transcript_empty {
        sat16(width, input_w) / 2
    } else {
        0
    };
    let cap = if kind == PopupKind::Command {
        6
    } else {
        8
    };
    let visible = min_int(count, min_int(cap, sat16(input_y, 2)));
    if count == 0 || width == 0 || height == 0 || input_y < 3 || visible == 0 {
        None
    } else {
        Some(
            Area {
                x: input_x as u16,
                y: sat16(input_y, visible + 2) as u16,
                width: min_int(
                    input_w,
                    if kind == PopupKind::Model {
                        70
                    } else if kind == PopupKind::Theme {
                        50
                    } else {
                        64
                    },
                ) as u16,
                height: (visible + 2) as u16,
            },
        )
    }
}

/// Where the completion popup goes (see [`completion_popup`]).
pub fn completion_popup_area(width: u16, height: u16, transcript_empty: bool, kind: PopupKind, count: usize) -> (r: Option<Area>)
    ensures
        r == completion_popup(width as int, height as int, transcript_empty, kind, count as int),
{
    if count == 0 || width == 0 || height == 0 {
        return None;
    }
    let wh = height.saturating_sub(1);
    let (input_x, input_y, input_w) = if transcript_empty {
        let room = wh.saturating_sub(6);
        let input_h: u16 = if room < 5 {
            room
        } else {
            5
        };
        let y = wh.saturating_sub(input_h + 2);
        let w: u16 = if width >= 106 {
            100
        } else {
            width.saturating_sub(4)
        };
        (width.saturating_sub(w) / 2, y, w)
    } else {
        (0u16, wh.saturating_sub(6), width)
    };
    if input_y < 3 {
        return None;
    }
    let cap: u16 = if kind == PopupKind::Command {
        6
    } else {
        8
    };
    let room = input_y - 2;
    let max_visible: u16 = if cap < room {
        cap
    } else {
        room
    };
    let visible: u16 = if count < max_visible as usize {
        count as u16
    } else {
        max_visible
    };
    if visible == 0 {
        return None;
    }
    let popup_w: u16 = if kind == PopupKind::Model {
        if input_w < 70 {
            input_w
        } else {
            70
        }
    } else if kind == PopupKind::Theme {
        if input_w < 50 {
            input_w
        } else {
            50
        }
    } else if input_w < 64 {
        input_w
    } else {
        64
    };
    Some(Area { x: input_x, y: input_y.saturating_sub(visible + 2), width: popup_w, height: visible + 2 })
}


/// The entries a popup of `visible` rows shows of `count` entries with entry
/// `selected` selected: where its window starts and how many it shows.
pub fn popup_window(count: usize, selected: usize, visible: usize) -> (r: (usize, usize))
    requires
        selected >= visible ==> selected < usize::MAX,
    ensures
        r.0 == scroll_for(selected as nat, visible as nat),
        r.1 == window_len(count as nat, selected as nat, visible as nat),
{
    let start = if selected >= visible {
        selected - visible + 1
    } else {
        0
    };
    let len = if start >= count {
        0
    } else if count - start < visible {
        count - start
    } else {
        visible
    };
    (start, len)
}

} // verus!
