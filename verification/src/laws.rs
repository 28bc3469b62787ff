//! Properties that hold across the operations of the library, each stated
//! over the specifications that the operations' contracts use.
use vstd::prelude::*;
use vstd::utf8::*;

use crate::dialogs::common::{
    cycle_next, cycle_next_or_reset, cycle_prev, cycle_prev_or_reset, step_back,
};
use crate::dialogs::git::git_file_scroll;
use crate::events::{QueueView, UiEvent};
use crate::layout::{scroll_for, window_len};
use crate::runtime::{
    after_seq, from_ignored, payload_str, runtime_step, turn_step, ConversationModel, RuntimeEventView, RuntimeStep,
    TurnEffect, TurnEvent, TurnState,
};
use crate::json::JsonValue;
use crate::turn_view::{quiet, reasoning_then_typed, session_restored, session_stashed, view_step, TurnModel, ViewEffect};
use crate::session_stash::ClientSessionState;
use crate::session_stash::{switched, SessionStash};
use crate::commands::ConversationStatus;
use crate::expansion::{toggled, ExpandedRows};
use crate::prompt::{
    command_matches, completed, history_after, history_down, history_up, insert_at, model_suggestions,
    submission_of, submitted_text, theme_suggestions, usage_text, views, PromptEditor, SubmissionView,
};
use crate::dialogs::models::ModelInfo;
use crate::dialogs::themes::ThemeInfo;
use crate::tools::success_detail;
use crate::transcript_lines::{code_pairs, find_char_from, inline_segments, seg, SegmentKind, SegmentView};
use crate::lines::lines;
use crate::numfmt::decimal;
use crate::text::{is_unicode_whitespace, starts_with, trim, trim_end, trim_start};
use crate::text::{ceil_boundary, floor_boundary, lemma_ceil_boundary, lemma_floor_boundary};
use crate::tool_table::{expected_active, is_open, last_index_where, open_pred};
use crate::tool_rows::ToolRow;
use crate::stream::{
    appended_parts, capped_parts, first_reasoning_from, has_tool, last_user_index, part_text, PartView,
    MAX_STREAM_PARTS,
};

verus! {

/// Moving a list selection down and then up (or up and then down) comes back
/// to where it was, for every selection within the list and each way the
/// dialogs move.
pub proof fn law_selection_round_trips(selected: nat, count: nat)
    requires
        selected < count,
    ensures
        cycle_prev(cycle_next(selected, count), count) == selected,
        cycle_next(cycle_prev(selected, count), count) == selected,
        step_back(cycle_next(selected, count), count) == selected,
        cycle_next(step_back(selected, count), count) == selected,
        cycle_prev_or_reset(cycle_next_or_reset(selected, count), count) == selected,
        cycle_next_or_reset(cycle_prev_or_reset(selected, count), count) == selected,
{
    if selected + 1 < count {
        vstd::arithmetic::div_mod::lemma_small_mod((selected + 1) as nat, count);
    } else {
        vstd::arithmetic::div_mod::lemma_mod_self_0(count as int);
    }
    if selected > 0 {
        vstd::arithmetic::div_mod::lemma_small_mod(selected, count);
    } else {
        vstd::arithmetic::div_mod::lemma_mod_self_0(count as int);
    }
}

/// Moving a selection keeps it within a list that is not empty; moving up
/// from anywhere, even past the end, lands within it.
pub proof fn law_selection_stays_in_list(selected: nat, count: nat)
    requires
        count > 0,
    ensures
        cycle_next(selected, count) < count,
        cycle_next_or_reset(selected, count) < count,
        cycle_prev(selected, count) < count,
        cycle_prev_or_reset(selected, count) < count,
        selected < count ==> step_back(selected, count) < count,
{
    vstd::arithmetic::div_mod::lemma_mod_bound((selected + 1) as int, count as int);
}

/// Typing a character into a filter and deleting it again restores the
/// filter.
pub proof fn law_filter_edit_round_trip(filter: Seq<char>, c: char)
    ensures
        filter.push(c).len() > 0,
        filter.push(c).drop_last() == filter,
{
    assert(filter.push(c).drop_last() =~= filter);
}

/// Rounding a byte index down and up to character boundaries brackets it,
/// and leaves an index that is a boundary where it is.
pub proof fn law_boundaries_bracket_index(bytes: Seq<u8>, i: int)
    requires
        valid_utf8(bytes),
        0 <= i <= bytes.len(),
    ensures
        floor_boundary(bytes, i) <= i <= ceil_boundary(bytes, i),
        is_char_boundary(bytes, i) ==> floor_boundary(bytes, i) == i && ceil_boundary(bytes, i)
            == i,
{
    lemma_floor_boundary(bytes, i);
    lemma_ceil_boundary(bytes, i);
}

/// A queue in a valid state never holds more than its capacity.
pub proof fn law_queue_within_capacity(q: QueueView)
    requires
        q.wf(),
    ensures
        q.pending() <= q.capacity,
{
}

/// An ordinary event pushed onto a queue that keeps events is never the one
/// dropped: it is the newest event afterwards, and the events stay within the
/// queue's room.
pub proof fn law_newest_event_kept(q: QueueView, e: UiEvent)
    requires
        q.wf(),
        q.max_events() > 0,
    ensures
        q.events_after_push(e).len() > 0,
        q.events_after_push(e).last() == e,
        q.events_after_push(e).len() <= q.max_events(),
{
}

/// Typing a character at the cursor and deleting the character before the
/// new cursor gives the prompt back.
pub proof fn law_backspace_undoes_typing(prompt: Seq<char>, cursor: nat, c: char)
    requires
        cursor <= prompt.len(),
    ensures
        insert_at(prompt, cursor as int, seq![c]).remove(cursor as int) == prompt,
{
    assert(insert_at(prompt, cursor as int, seq![c]).remove(cursor as int) =~= prompt);
}

/// Stepping back into the history from the prompt being typed, and forward
/// again, gives back what was being typed.
pub proof fn law_history_returns_to_draft(e1: PromptEditor, e2: PromptEditor, e3: PromptEditor)
    requires
        e1.history_index is None,
        0 < e1.prompt_history@.len() <= usize::MAX,
        history_up(e1, e2),
        history_down(e2, e3),
    ensures
        e3.prompt == e1.prompt,
        e3.history_index is None,
        e3.prompt_history == e1.prompt_history,
{
}

/// The call shown as in progress is the latest unfinished call: some row that
/// has not finished carries its name and start, and every later row has
/// finished.
pub proof fn law_active_call_is_latest_unfinished(rows: Seq<ToolRow>)
    ensures
        expected_active(rows) matches Some(a) ==> exists|i: int|
            #![trigger rows[i]]
            0 <= i < rows.len() && is_open(rows[i].state) && a.name == rows[i].name@ && a.started_at
                == rows[i].started_at && forall|j: int| i < j < rows.len() ==> !is_open(
                #[trigger] rows[j].state,
            ),
        expected_active(rows) is None ==> forall|j: int|
            0 <= j < rows.len() ==> !is_open(#[trigger] rows[j].state),
{
    lemma_last_index_where(rows, rows.len() as int);
}

proof fn lemma_last_index_where(rows: Seq<ToolRow>, n: int)
    requires
        0 <= n <= rows.len(),
    ensures
        last_index_where(rows, n, open_pred()) matches Some(i) ==> 0 <= i < n && is_open(
            rows[i].state,
        ) && forall|j: int| i < j < n ==> !is_open(#[trigger] rows[j].state),
        last_index_where(rows, n, open_pred()) is None ==> forall|j: int|
            0 <= j < n ==> !is_open(#[trigger] rows[j].state),
    decreases n,
{
    if n > 0 {
        lemma_last_index_where(rows, n - 1);
    }
}

/// No two tool parts carry the same call id.
pub open spec fn tool_parts_unique(s: Seq<PartView>) -> bool {
    forall|i: int, j: int|
        0 <= i < j < s.len() && #[trigger] s[i] is Tool && #[trigger] s[j] is Tool ==> part_text(s[i])
            != part_text(s[j])
}

/// However many parts stream in, at most [`MAX_STREAM_PARTS`] are kept, and a
/// tool call is listed at most once: taking in a part keeps both.
pub proof fn law_stream_parts_stay_bounded_and_unique(s: Seq<PartView>, p: PartView)
    requires
        tool_parts_unique(s),
    ensures
        capped_parts(appended_parts(s, p)).len() <= MAX_STREAM_PARTS,
        tool_parts_unique(capped_parts(appended_parts(s, p))),
{
    let a = appended_parts(s, p);
    assert(tool_parts_unique(a)) by {
        match p {
            PartView::Tool(id) => {
                if !has_tool(s, id) {
                    assert forall|i: int, j: int|
                        0 <= i < j < a.len() && #[trigger] a[i] is Tool && #[trigger] a[j] is Tool
                        implies part_text(a[i]) != part_text(a[j]) by {
                        if j == s.len() {
                            assert(a[i] == s[i]);
                            if part_text(s[i]) == id {
                                assert(s[i] == PartView::Tool(id));
                            }
                        } else {
                            assert(a[i] == s[i] && a[j] == s[j]);
                        }
                    }
                }
            },
            _ => {
                lemma_first_reasoning_in_range(s, last_user_index(s, s.len() as int));
                assert forall|k: int| 0 <= k < a.len() && #[trigger] a[k] is Tool implies k < s.len()
                    && a[k] == s[k] by {}
                assert forall|i: int, j: int|
                    0 <= i < j < a.len() && #[trigger] a[i] is Tool && #[trigger] a[j] is Tool
                    implies part_text(a[i]) != part_text(a[j]) by {
                    assert(a[i] == s[i] && a[j] == s[j]);
                }
            },
        }
    }
    let c = capped_parts(a);
    if a.len() > MAX_STREAM_PARTS {
        let k = a.len() - MAX_STREAM_PARTS;
        assert forall|i: int, j: int|
            0 <= i < j < c.len() && #[trigger] c[i] is Tool && #[trigger] c[j] is Tool
            implies part_text(c[i]) != part_text(c[j]) by {
            assert(c[i] == a[i + k] && c[j] == a[j + k]);
        }
    }
}

proof fn lemma_first_reasoning_in_range(s: Seq<PartView>, i: int)
    ensures
        first_reasoning_from(s, i) matches Some(k) ==> 0 <= k < s.len() && s[k] is Reasoning,
    decreases s.len() - i,
{
    if 0 <= i < s.len() && !(s[i] is Reasoning) {
        lemma_first_reasoning_in_range(s, i + 1);
    }
}

/// Right after a prompt is submitted, stepping back in the history shows
/// that prompt first.
pub proof fn law_submission_is_recalled_first(
    history: Seq<Seq<char>>,
    submitted: Seq<char>,
    editor: PromptEditor,
    recalled: PromptEditor,
)
    requires
        views(editor.prompt_history@) == history_after(history, submitted),
        editor.history_index is None,
        history_up(editor, recalled),
    ensures
        recalled.prompt@ == submitted,
{
    let h = editor.prompt_history@;
    assert(views(h).len() == h.len());
    assert(views(h)[h.len() - 1] == h[h.len() - 1]@);
}

/// Clicking a tool row twice leaves every row expanded or collapsed as it
/// was.
pub proof fn law_expanding_twice_restores(
    before: ExpandedRows,
    once: ExpandedRows,
    twice: ExpandedRows,
    id: Seq<char>,
)
    requires
        toggled(before, once, id),
        toggled(once, twice, id),
    ensures
        forall|other: Seq<char>| #[trigger] twice.has(other) == before.has(other),
{
    assert forall|other: Seq<char>| #[trigger] twice.has(other) == before.has(other) by {
        if other != id {
            assert(once.has(other) == before.has(other));
        }
    }
}


/// A list window of at least one row, scrolled for an entry of the list,
/// shows that entry.
pub proof fn law_window_shows_selection(n: nat, selected: nat, height: nat)
    requires
        selected < n,
        height > 0,
    ensures
        scroll_for(selected, height) <= selected < scroll_for(selected, height) + window_len(n, selected, height),
        window_len(n, selected, height) <= height,
{
}

/// The git panel's file list, and the skill list that scrolls the same way,
/// keep the highlighted entry inside a window of at least one row, and move
/// the window not at all when it already shows it.
pub proof fn law_lazy_window_shows_selection(selected: nat, scroll: nat, visible: nat)
    requires
        visible > 0,
        selected + 1 <= usize::MAX,
    ensures
        git_file_scroll(selected, scroll, visible) <= selected < git_file_scroll(selected, scroll, visible)
            + visible,
        scroll <= selected < scroll + visible ==> git_file_scroll(selected, scroll, visible) == scroll,
{
}


/// Once a turn is cancelled, no event changes it or asks for anything more.
pub proof fn law_cancelled_turn_is_final(old: TurnState, e: TurnEvent, new: TurnState, effect: TurnEffect)
    requires
        old.status == ConversationStatus::Cancelled,
        turn_step(old, e, new, effect),
    ensures
        new == old,
        effect == TurnEffect::Nothing,
{
}


/// Switching from one session to another and back gives the first its view
/// again, keeps the second's view stashed, and leaves every other session's
/// view as it was: neither side loses its draft, transcript or scroll.
pub proof fn law_switching_back_restores_each_side<T>(
    s0: SessionStash<T>,
    s1: SessionStash<T>,
    s2: SessionStash<T>,
    a: i64,
    b: i64,
    x: T,
    y: T,
    r1: Option<T>,
    r2: Option<T>,
)
    requires
        a != b,
        switched(s0, a, x, b, s1, r1),
        switched(s1, b, y, a, s2, r2),
    ensures
        r2 == Some(x),
        s2.get(b) == Some(y),
        s2.get(a) is None,
        forall|k: i64| k != a && k != b ==> #[trigger] s2.get(k) == s0.get(k),
{
    assert(s1.get(a) == Some(x));
    assert forall|k: i64| k != a && k != b implies #[trigger] s2.get(k) == s0.get(k) by {
        assert(s1.get(k) == s0.get(k));
    }
}


/// An event of a cancelled generation changes nothing but the place in the
/// log, and asks for nothing, unless it is that generation's own end as
/// cancelled.
pub proof fn law_cancelled_generation_is_dropped(
    s: ConversationModel,
    e: RuntimeEventView,
    p: Option<JsonValue>,
    t: ConversationModel,
    r: RuntimeStep,
)
    requires
        from_ignored(s, e),
        !(e.kind@ == "generation_finished"@ && payload_str(p, "status"@) == Some("cancelled"@)),
        runtime_step(s, e, p, t, r),
    ensures
        r == RuntimeStep::Ignored,
        t == s || t == after_seq(s, e),
{
    assert(from_ignored(after_seq(s, e), e));
}

/// An event of a cancelled generation, taken by the conversation state and
/// then by the view, leaves everything the view shows as it was and asks
/// nothing of the caller: stale text never reaches the transcript, unless the
/// event is that generation's own end as cancelled.
pub proof fn law_cancelled_generation_leaves_view(
    s: ConversationModel,
    e: RuntimeEventView,
    p: Option<JsonValue>,
    t: ConversationModel,
    r: RuntimeStep,
    m: TurnModel,
    edit_diff_lines: Option<usize>,
    duration: Seq<char>,
    rest: Seq<char>,
    n: TurnModel,
    effect: ViewEffect,
)
    requires
        from_ignored(s, e),
        !(e.kind@ == "generation_finished"@ && payload_str(p, "status"@) == Some("cancelled"@)),
        runtime_step(s, e, p, t, r),
        view_step(m, r, edit_diff_lines, duration, rest, n, effect),
    ensures
        n == m,
        quiet(effect),
{
    law_cancelled_generation_is_dropped(s, e, p, t, r);
}

/// Switching away from a session and back gives the turn back as it was
/// once the reasoning and the text left to type out were written out: its
/// transcript, parts, rows, plan and where the reply starts; the prompt
/// comes back as typed with the cursor at its end, the scroll and the
/// expanded rows as they were, and the conversation its progress.
pub proof fn law_switching_back_restores_the_turn(
    m: TurnModel,
    c: ConversationModel,
    draft: Seq<char>,
    scroll: u16,
    expanded: Seq<String>,
    duration: Seq<char>,
    rest: Seq<char>,
    before: ClientSessionState,
    s: ClientSessionState,
    n: TurnModel,
    m2: TurnModel,
    c2: ConversationModel,
    e2: PromptEditor,
    n2: TurnModel,
    c3: ConversationModel,
    e3: PromptEditor,
    r: (u16, Vec<String>),
)
    requires
        session_stashed(m, c, draft, scroll, expanded, duration, rest, before, s, n),
        session_restored(m2, c2, e2, s, n2, c3, e3, r),
    ensures
        exists|a: TurnModel, b: TurnModel|
            #[trigger] reasoning_then_typed(m, duration, rest, a, b) && {
                &&& n2.transcript == b.transcript
                &&& n2.parts == b.parts
                &&& n2.rows.rows == b.rows.rows
                &&& n2.plan == b.plan
                &&& n2.base == b.base
            },
        e3.prompt@ == draft,
        e3.cursor_position == draft.len(),
        r.0 == scroll,
        r.1@ == expanded,
        c3.loaded_until_seq == c.loaded_until_seq,
        c3.status == c.status,
        c3.active_generation_id == c.active_generation_id,
        c3.text_stream_active == c.text_stream_active,
{
}

/// Stepping back in the history moves one entry at a time: from the prompt
/// being typed to the latest entry, from an entry `i > 0` to entry `i - 1`,
/// and from the oldest entry nowhere further; the entry shown is the prompt,
/// with the cursor at its end.
pub proof fn law_history_up_steps_back_one(before: PromptEditor, after: PromptEditor)
    requires
        history_up(before, after),
        before.prompt_history@.len() > 0,
    ensures
        before.history_index is None ==> after.history_index == Some(
            (before.prompt_history@.len() - 1) as usize,
        ) && after.prompt@ == before.prompt_history@.last()@,
        before.history_index is Some && 0 < before.history_index->0 < before.prompt_history@.len()
            ==> after.history_index == Some((before.history_index->0 - 1) as usize) && after.prompt@
            == before.prompt_history@[before.history_index->0 - 1]@,
        before.history_index == Some(0usize) ==> after.history_index == Some(0usize) && after.prompt@
            == before.prompt_history@[0]@,
        after.history_index matches Some(j) && after.cursor_position == after.prompt@.len() && j
            < before.prompt_history@.len(),
        after.prompt_history == before.prompt_history,
{
}

/// Completing the prompt takes the selected completion, whichever it is: a
/// model id after `/model `, a theme name after `/theme `, and otherwise the
/// template of the selected slash command, the cursor at its end.
pub proof fn law_completion_takes_the_selected_one(
    before: PromptEditor,
    after: PromptEditor,
    models: Seq<ModelInfo>,
    themes: Seq<ThemeInfo>,
    done: bool,
)
    requires
        completed(before, after, models, themes, done),
    ensures
        ({
            let p = before.prompt@;
            let k = before.selected_suggestion as int;
            &&& starts_with(p, "/model "@) && k < model_suggestions(p, models).len() ==> done && after.prompt@
                == "/model "@ + model_suggestions(p, models)[k]
            &&& starts_with(p, "/theme "@) && k < theme_suggestions(p, themes).len() ==> done
                && after.prompt@ == "/theme "@ + theme_suggestions(p, themes)[k]
            &&& !starts_with(p, "/model "@) && !starts_with(p, "/theme "@) && k < command_matches(p).len() ==> done
                && after.prompt@ == command_matches(p)[k].2 && after.cursor_position == after.prompt@.len()
        }),
{
    reveal_strlit("/model ");
    reveal_strlit("/theme ");
    let p = before.prompt@;
    if starts_with(p, "/model "@) && starts_with(p, "/theme "@) {
        assert(p.take(7)[1] == 'm');
        assert(p.take(7)[1] == 't');
    }
}

/// Submitting a slash command runs the selected completion, whichever it is:
/// a command whose template needs no argument submits its template; one that
/// needs an argument submits the text when it starts with the template, and
/// otherwise says how the command is used.
pub proof fn law_submission_runs_the_selected_command(
    p: Seq<char>,
    models: Seq<ModelInfo>,
    themes: Seq<ThemeInfo>,
    k: nat,
    r: SubmissionView,
)
    requires
        r == submission_of(p, models, themes, k),
        !starts_with(p, "/model "@),
        !starts_with(p, "/theme "@),
        k < command_matches(p).len(),
    ensures
        ({
            let c = command_matches(p)[k as int];
            let t = submitted_text(p);
            &&& !(c.2.len() > 0 && c.2.last() == ' ') ==> r == SubmissionView::Submit(c.2)
            &&& c.2.len() > 0 && c.2.last() == ' ' && !starts_with(t, c.2) ==> r == SubmissionView::Usage(
                usage_text(c),
            )
            &&& c.2.len() > 0 && c.2.last() == ' ' && starts_with(t, c.2) ==> r == SubmissionView::Submit(t)
        }),
{
    reveal_strlit("/");
    assert(starts_with(p, "/"@));
    assert(p[0] == '/') by {
        assert(p.take(1)[0] == '/');
    }
    assert(trim_start(p) == p);
    lemma_trim_end_keeps_first(p);
    let t = submitted_text(p);
    assert(t.len() > 0 && t[0] == '/');
    assert(starts_with(t, "/"@)) by {
        assert(t.take(1) =~= "/"@);
    }
}

/// Dropping the trailing whitespace of a text that starts with a character
/// other than whitespace keeps that character first.
proof fn lemma_trim_end_keeps_first(s: Seq<char>)
    requires
        s.len() > 0,
        !is_unicode_whitespace(s[0]),
    ensures
        trim_end(s).len() > 0,
        trim_end(s)[0] == s[0],
    decreases s.len(),
{
    if is_unicode_whitespace(s.last()) {
        assert(s.len() > 1);
        lemma_trim_end_keeps_first(s.drop_last());
    }
}

/// A grep finds as many lines as its output has: `1 line` for one, `<n>
/// lines` for more, and `0 matches` only when the output is blank.
pub proof fn law_grep_detail_counts_lines(name: Seq<char>, output: Seq<char>)
    requires
        name == "grep_search"@ || name == "grep"@,
    ensures
        trim(output).len() > 0 && lines(output).len() > 1 ==> success_detail(name, output) == decimal(
            lines(output).len(),
        ) + " lines"@,
        trim(output).len() > 0 && lines(output).len() == 1 ==> success_detail(name, output) == "1 line"@,
        trim(output).len() == 0 ==> success_detail(name, output) == "0 matches"@,
{
    reveal_strlit("read_file");
    reveal_strlit("read");
    reveal_strlit("grep_search");
    reveal_strlit("grep");
    reveal_strlit("lines");
    reveal_strlit(" lines");
    if name == "grep_search"@ {
        assert(name != "read_file"@ && name != "read"@) by {
            assert(name[1] == 'r' && "read_file"@[1] == 'e');
        }
    } else {
        assert(name.len() == 4 && "read"@.len() == 4);
        assert(name != "read_file"@ && name != "read"@) by {
            assert(name[1] == 'r' && "read"@[1] == 'e');
        }
    }
    if trim(output).len() > 0 && lines(output).len() > 1 {
        assert(decimal(lines(output).len()) + seq![' '] + "lines"@ =~= decimal(lines(output).len()) + " lines"@);
    }
}

/// What a search for `c` from `i` finds: the first position from `i` on that
/// holds it, or none when no position does.
proof fn lemma_find_char_facts(t: Seq<char>, c: char, i: int)
    requires
        0 <= i,
    ensures
        find_char_from(t, c, i) matches Some(k) ==> i <= k < t.len() && t[k] == c && forall|m: int|
            i <= m < k ==> t[m] != c,
        find_char_from(t, c, i) is None ==> forall|m: int| i <= m < t.len() ==> t[m] != c,
    decreases t.len() - i,
{
    if i < t.len() && t[i] != c {
        lemma_find_char_facts(t, c, i + 1);
    }
}

/// Text holds at most one backtick.
pub open spec fn no_backtick_pair(text: Seq<char>) -> bool {
    forall|a: int, b: int| 0 <= a < b < text.len() ==> !(#[trigger] text[a] == '`' && #[trigger] text[b] == '`')
}

/// Each pair of backticks in a line of text becomes a piece of code: the
/// pieces of `t1`, a backtick, `c`, a backtick and `t2` (with no backtick in
/// `t1` or `c`) are `t1` as plain text when it is not empty, `c` as code,
/// and then the pieces of `t2`, cut the same way.
pub proof fn law_each_backtick_pair_is_code(t1: Seq<char>, c: Seq<char>, t2: Seq<char>)
    requires
        !t1.contains('`'),
        !c.contains('`'),
    ensures
        code_pairs(t1 + seq!['`'] + c + seq!['`'] + t2) == (if t1.len() > 0 {
            seq![seg(SegmentKind::Plain, t1)]
        } else {
            Seq::<SegmentView>::empty()
        }) + seq![seg(SegmentKind::Code, c)] + code_pairs(t2),
{
    let r = t1 + seq!['`'] + c + seq!['`'] + t2;
    let s = t1.len() as int;
    let e = s + 1 + c.len();
    assert(r[s] == '`');
    assert(r[e] == '`');
    assert forall|m: int| 0 <= m < s implies r[m] != '`' by {
        assert(r[m] == t1[m]);
    }
    assert forall|m: int| s + 1 <= m < e implies r[m] != '`' by {
        assert(r[m] == c[m - s - 1]);
    }
    lemma_find_char_facts(r, '`', 0);
    lemma_find_char_facts(r, '`', s + 1);
    assert(find_char_from(r, '`', 0) == Some(s));
    assert(find_char_from(r, '`', s + 1) == Some(e));
    assert(r.take(s) =~= t1);
    assert(r.subrange(s + 1, e) =~= c);
    assert(r.skip(e + 1) =~= t2);
}

/// No piece of plain text holds a pair of backticks: every pair became code.
pub proof fn law_plain_text_holds_no_backtick_pair(r: Seq<char>)
    ensures
        forall|i: int|
            0 <= i < code_pairs(r).len() && (#[trigger] code_pairs(r)[i]).kind == SegmentKind::Plain
                ==> no_backtick_pair(code_pairs(r)[i].text),
    decreases r.len(),
{
    lemma_find_char_facts(r, '`', 0);
    match find_char_from(r, '`', 0) {
        Some(s) => {
            lemma_find_char_facts(r, '`', s + 1);
            match find_char_from(r, '`', s + 1) {
                Some(e) => {
                    let rest = r.skip(e + 1);
                    law_plain_text_holds_no_backtick_pair(rest);
                    let head = if s > 0 {
                        seq![seg(SegmentKind::Plain, r.take(s))]
                    } else {
                        Seq::<SegmentView>::empty()
                    };
                    let out = head + seq![seg(SegmentKind::Code, r.subrange(s + 1, e))] + code_pairs(rest);
                    assert(code_pairs(r) == out);
                    assert forall|i: int|
                        0 <= i < out.len() && (#[trigger] out[i]).kind == SegmentKind::Plain implies no_backtick_pair(
                        out[i].text) by {
                        if i < head.len() {
                            assert(out[i] == seg(SegmentKind::Plain, r.take(s)));
                            assert forall|a: int, b: int| 0 <= a < b < r.take(s).len() implies !(
                            #[trigger] r.take(s)[a] == '`' && #[trigger] r.take(s)[b] == '`') by {
                                assert(r.take(s)[a] == r[a]);
                            }
                        } else if i > head.len() {
                            assert(out[i] == code_pairs(rest)[i - head.len() - 1]);
                        }
                    }
                },
                None => {
                    assert forall|a: int, b: int| 0 <= a < b < r.len() implies !(#[trigger] r[a] == '`'
                        && #[trigger] r[b] == '`') by {
                        if r[a] == '`' && r[b] == '`' {
                            assert(a >= s);
                            assert(b >= s + 1);
                        }
                    }
                },
            }
        },
        None => {},
    }
}

/// In a line with no link, the pieces shown are those of its backtick pairs:
/// for `t1`, a backtick, `c`, a backtick and `t2` (no backtick in `t1` or
/// `c`, no `[` anywhere), `t1` as plain text when it is not empty, `c` as
/// code, then the pieces of `t2` cut the same way.
pub proof fn law_line_without_link_shows_its_code(t1: Seq<char>, c: Seq<char>, t2: Seq<char>)
    requires
        !t1.contains('`'),
        !c.contains('`'),
        !(t1 + seq!['`'] + c + seq!['`'] + t2).contains('['),
    ensures
        inline_segments(t1 + seq!['`'] + c + seq!['`'] + t2) == (if t1.len() > 0 {
            seq![seg(SegmentKind::Plain, t1)]
        } else {
            Seq::<SegmentView>::empty()
        }) + seq![seg(SegmentKind::Code, c)] + code_pairs(t2),
{
    let t = t1 + seq!['`'] + c + seq!['`'] + t2;
    lemma_find_char_facts(t, '[', 0);
    if let Some(k) = find_char_from(t, '[', 0) {
        assert(t.contains('['));
    }
    assert(t[t1.len() as int] == '`');
    assert(t.contains('`'));
    law_each_backtick_pair_is_code(t1, c, t2);
}

/// Stepping forward in the history moves one entry at a time: from entry `i`
/// to entry `i + 1`, and from the latest entry back to the prompt that was
/// being typed, which is no longer kept; with no entry shown nothing moves.
pub proof fn law_history_down_steps_forward_one(before: PromptEditor, after: PromptEditor)
    requires
        history_down(before, after),
    ensures
        before.history_index is None ==> after == before,
        before.history_index is Some && before.history_index->0 + 1 < before.prompt_history@.len()
            ==> after.history_index == Some((before.history_index->0 + 1) as usize) && after.prompt@
            == before.prompt_history@[before.history_index->0 + 1]@ && after.cursor_position
            == after.prompt@.len(),
        before.history_index is Some && before.history_index->0 + 1 >= before.prompt_history@.len()
            ==> after.history_index is None && after.prompt == before.draft_prompt && after.cursor_position
            == before.draft_prompt@.len() && after.draft_prompt@.len() == 0,
        after.prompt_history == before.prompt_history,
{
}

} // verus!
