//! How many terminal cells text takes, and cutting text down to a number of
//! cells.
use vstd::prelude::*;

use crate::strings::{string_push, string_push_str};
use crate::text::chars_of;

verus! {

broadcast use vstd::string::group_string_axioms;

/// What `ratatui::text::Span::width` gives for a span holding the characters
/// `s`: their display width in terminal cells, as unicode-width measures it.
pub uninterp spec fn cell_width(s: Seq<char>) -> nat;

/// `Span::raw(text).width()`: the number of terminal cells `text` takes; its
/// result is named by [`cell_width`].
#[verifier::external_body]
pub(crate) fn text_cell_width(text: &str) -> (w: usize)
    ensures
        w == cell_width(text@),
{
    ratatui::text::Span::raw(text).width()
}

/// The cells one character takes on its own.
pub open spec fn char_cells(c: char) -> nat {
    cell_width(seq![c])
}

/// The ellipsis that ends a shortened text.
pub open spec fn ellipsis() -> Seq<char> {
    "…"@
}

/// How many characters of `text`, from position `i` on (with `used` cells
/// already taken), fit in `budget` cells: the characters are taken in order
/// until the next one would not fit.
pub open spec fn fit_count(text: Seq<char>, budget: int, i: int, used: nat) -> int
    decreases text.len() - i,
{
    if i < 0 || i >= text.len() {
        text.len() as int
    } else if used + char_cells(text[i]) > budget {
        i
    } else {
        fit_count(text, budget, i + 1, used + char_cells(text[i]))
    }
}

/// `text` when it takes at most `max` cells; otherwise the characters of it
/// that fit in `max` cells together with an ellipsis, followed by the
/// ellipsis.
pub open spec fn truncated_text(text: Seq<char>, max: nat) -> Seq<char> {
    if cell_width(text) <= max {
        text
    } else {
        text.take(fit_count(text, max - cell_width(ellipsis()), 0, 0)) + ellipsis()
    }
}

/// A title fitted to `max` cells: the title itself when it fits; nothing
/// when no cell is left; otherwise the characters that fit in one cell
/// less than `max`, followed by an ellipsis.
pub open spec fn truncated_title(text: Seq<char>, max: nat) -> Seq<char> {
    if cell_width(text) <= max {
        text
    } else if max == 0 {
        Seq::empty()
    } else {
        text.take(fit_count(text, max - 1, 0, 0)) + ellipsis()
    }
}

proof fn lemma_fit_count_negative(text: Seq<char>, budget: int)
    requires
        budget < 0,
    ensures
        fit_count(text, budget, 0, 0) == 0,
{
}

proof fn lemma_fit_count_bounds(text: Seq<char>, budget: int, i: int, used: nat)
    requires
        0 <= i <= text.len(),
    ensures
        i <= fit_count(text, budget, i, used) <= text.len(),
    decreases text.len() - i,
{
    if i < text.len() && used + char_cells(text[i]) <= budget {
        lemma_fit_count_bounds(text, budget, i + 1, used + char_cells(text[i]));
    }
}

/// The characters of `text` that fit in `budget` cells, taken in order (see
/// [`fit_count`]).
fn fitting_prefix(text: &str, budget: usize) -> (r: String)
    ensures
        r@ == text@.take(fit_count(text@, budget as int, 0, 0)),
{
    let chars = chars_of(text);
    let mut result = String::new();
    let mut width: usize = 0;
    let mut i: usize = 0;
    proof {
        lemma_fit_count_bounds(chars@, budget as int, 0, 0);
    }
    while i < chars.len()
        invariant
            chars@ == text@,
            i <= chars@.len(),
            width <= budget,
            result@ == chars@.take(i as int),
            fit_count(chars@, budget as int, 0, 0) == fit_count(
                chars@,
                budget as int,
                i as int,
                width as nat,
            ),
        ensures
            i <= chars@.len(),
            result@ == chars@.take(i as int),
            fit_count(chars@, budget as int, 0, 0) == i,
        decreases chars@.len() - i,
    {
        let ch = chars[i];
        let mut one = String::new();
        string_push(&mut one, ch);
        assert(one@ =~= seq![ch]);
        let ch_width = text_cell_width(one.as_str());
        let over = match width.checked_add(ch_width) {
            Some(t) => t > budget,
            None => true,
        };
        if over {
            break;
        }
        assert(chars@.take(i as int + 1) =~= chars@.take(i as int).push(ch));
        string_push(&mut result, ch);
        width = width + ch_width;
        i = i + 1;
    }
    result
}

/// `text` shortened to `max_width` cells (see [`truncated_text`]).
pub fn truncate_tool_text(text: &str, max_width: usize) -> (r: String)
    ensures
        r@ == truncated_text(text@, max_width as nat),
{
    if text_cell_width(text) <= max_width {
        return text.to_owned();
    }
    let ellipsis_width = text_cell_width("…");
    let budget: usize = if ellipsis_width <= max_width { max_width - ellipsis_width } else { 0 };
    let mut result = if ellipsis_width <= max_width {
        fitting_prefix(text, budget)
    } else {
        String::new()
    };
    proof {
        if ellipsis_width > max_width {
            lemma_fit_count_negative(text@, max_width as int - ellipsis_width as int);
            assert(text@.take(0) =~= Seq::<char>::empty());
        }
    }
    string_push_str(&mut result, "…");
    result
}

/// `text` fitted to `max_width` cells as a title (see [`truncated_title`]).
pub fn truncate_with_ellipsis(text: &str, max_width: usize) -> (r: String)
    ensures
        r@ == truncated_title(text@, max_width as nat),
{
    if text_cell_width(text) <= max_width {
        return text.to_owned();
    }
    if max_width == 0 {
        return String::new();
    }
    let mut result = fitting_prefix(text, max_width - 1);
    string_push_str(&mut result, "…");
    result
}

} // verus!
