//! What a runtime event does to what the interface shows of the turn: the
//! tool rows, the streamed parts, the transcript, the reasoning so far and
//! the plan. The conversation's state takes the event first (see
//! [`crate::runtime::runtime_event_step`]); the step it gives is applied
//! here, and what only the caller can do (keep time, type text out, open a
//! dialog) comes back as a [`ViewEffect`].
use vstd::prelude::*;

use crate::commands::ConversationStatus;
use crate::history::{break_paragraph, paragraph_break};
use crate::json::{json_text, json_text_of, opt_deref, JsonValue};
use crate::lines::trimmed;
use crate::runtime::{ConversationModel, ConversationView, RuntimeStep, Settlement, ToolReport};
use crate::prompt::PromptEditor;
use crate::session_stash::ClientSessionState;
use crate::tool_rows::{ToolRow, MAX_TOOL_ROWS};
use crate::search::{seq_contains, str_contains, str_eq};
use crate::stream::{
    appended_parts, base_after, capped_parts, has_tool, parts_view, push_stream_part, push_tool_part, PartView,
    StreamPart,
};
use crate::strings::string_push_str;
use crate::text::trim;
use crate::tool_args::{
    effective_args, pair_views, parse_plan_items, plan_items, question_of, question_options, question_text,
    tool_target, tool_target_and_verbs,
};
use crate::tool_rows::preparing_desc;
use crate::tool_table::{
    args_appended, args_ended, completed, completion_target, refreshed, reported_row, row_revised,
    is_open, unfinished_ended, unfinished_failed, upserted, ToolRowTable, ToolRowUpdate, ToolTableView,
};
use crate::tools::ToolRowState;
use crate::transcript::{append_user_prompt, with_prompt, reasoning_note, thought_note, truncate_transcript, MAX_TRANSCRIPT_BYTES, TRANSCRIPT_SLACK_BYTES, TRUNCATION_MARKER, cut_start};
use crate::utf8::utf8_len;
use vstd::utf8::*;

verus! {

broadcast use vstd::string::group_string_axioms;

/// What the interface shows of the turn.
pub struct TurnView {
    pub tool_rows: ToolRowTable,
    pub stream_parts: Vec<StreamPart>,
    /// Where the streamed reply starts in the transcript, in bytes.
    pub stream_base_len: Option<usize>,
    pub transcript: String,
    /// The reasoning streamed since it was last written to the transcript.
    pub reasoning_buffer: String,
    /// The plan's steps and their status.
    pub current_plan: Vec<(String, String)>,
}

/// A [`TurnView`] as a mathematical value.
pub struct TurnModel {
    pub rows: ToolTableView,
    pub parts: Seq<PartView>,
    pub base: Option<usize>,
    pub transcript: Seq<char>,
    pub reasoning: Seq<char>,
    pub plan: Seq<(Seq<char>, Seq<char>)>,
}

impl View for TurnView {
    type V = TurnModel;

    open spec fn view(&self) -> TurnModel {
        TurnModel {
            rows: self.tool_rows@,
            parts: parts_view(self.stream_parts@),
            base: self.stream_base_len,
            transcript: self.transcript@,
            reasoning: self.reasoning_buffer@,
            plan: pair_views(self.current_plan@),
        }
    }
}

/// What the caller does once a step is applied.
#[derive(Debug, Clone, PartialEq, Eq)]
pub struct ViewEffect {
    /// Note when the reasoning started, unless that is noted already.
    pub start_reasoning_clock: bool,
    /// Note how long the reasoning took, unless that is noted already.
    pub record_reasoning_time: bool,
    /// The reasoning was written out (or dropped, being blank): forget when
    /// it started and how long it took.
    pub reasoning_flushed: bool,
    /// Reply text to type out into the transcript.
    pub feed_typewriter: Option<String>,
    /// A question to ask with its answers (the question dialog opens).
    pub question: Option<(String, Vec<String>)>,
    /// The status the turn ends in, once the typed-out text has caught up.
    pub settle: Option<ConversationStatus>,
    /// Scroll the transcript to its bottom.
    pub scroll_to_bottom: bool,
}

pub open spec fn opt_text(o: Option<String>) -> Option<Seq<char>> {
    match o {
        Some(t) => Some(t@),
        None => None,
    }
}

pub open spec fn opt_question(o: Option<(String, Vec<String>)>) -> Option<(Seq<char>, Seq<Seq<char>>)> {
    match o {
        Some((q, opts)) => Some((q@, opts@.map_values(|t: String| t@))),
        None => None,
    }
}

/// `e` is the effect with these parts.
pub open spec fn effect_is(
    e: ViewEffect,
    start: bool,
    record: bool,
    flushed: bool,
    feed: Option<Seq<char>>,
    question: Option<(Seq<char>, Seq<Seq<char>>)>,
    settle: Option<ConversationStatus>,
    scroll: bool,
) -> bool {
    &&& e.start_reasoning_clock == start
    &&& e.record_reasoning_time == record
    &&& e.reasoning_flushed == flushed
    &&& opt_text(e.feed_typewriter) == feed
    &&& opt_question(e.question) == question
    &&& e.settle == settle
    &&& e.scroll_to_bottom == scroll
}

/// Nothing for the caller to do.
pub open spec fn quiet(e: ViewEffect) -> bool {
    effect_is(e, false, false, false, None, None, None, false)
}

/// What [`truncate_transcript`] makes of transcript `t0` with the streamed
/// reply starting at `b0`.
pub open spec fn truncated(t0: Seq<char>, b0: Option<usize>, t1: Seq<char>, b1: Option<usize>) -> bool {
    &&& utf8_len(t0) <= MAX_TRANSCRIPT_BYTES + TRANSCRIPT_SLACK_BYTES ==> t1 == t0 && b1 == b0
    &&& utf8_len(t0) > MAX_TRANSCRIPT_BYTES + TRANSCRIPT_SLACK_BYTES ==> {
        let removed = utf8_len(t0) - utf8_len(t1);
        &&& encode_utf8(t1) == encode_utf8(TRUNCATION_MARKER@) + encode_utf8(t0).skip(cut_start(t0))
        &&& b1 == match b0 {
            Some(b) => Some(
                if b >= removed {
                    (b - removed) as usize
                } else {
                    0usize
                },
            ),
            None => None,
        }
        &&& utf8_len(t1) <= MAX_TRANSCRIPT_BYTES
    }
}

/// `n` is `m` with `text` added to the transcript, which is then kept within
/// its size.
pub open spec fn text_added(m: TurnModel, text: Seq<char>, n: TurnModel) -> bool {
    truncated(m.transcript + text, m.base, n.transcript, n.base) && n == TurnModel {
        transcript: n.transcript,
        base: n.base,
        ..m
    }
}

/// `n` is `m` once the text left to type out, `rest`, is written out.
pub open spec fn typed_out(m: TurnModel, rest: Seq<char>, n: TurnModel) -> bool {
    if rest.len() == 0 {
        n == m
    } else {
        text_added(m, rest, n)
    }
}

/// `n` is `m` once its reasoning is written out as a note of how long the
/// model thought (`duration`), or dropped when it is blank.
pub open spec fn reasoning_written(m: TurnModel, duration: Seq<char>, n: TurnModel) -> bool {
    if trim(m.reasoning).len() == 0 {
        n == TurnModel { reasoning: Seq::empty(), ..m }
    } else {
        &&& truncated(m.transcript + thought_note(m.transcript, duration), m.base, n.transcript, n.base)
        &&& n == TurnModel { transcript: n.transcript, base: n.base, reasoning: Seq::empty(), ..m }
    }
}

/// `m` once a streamed part is taken in (see [`push_stream_part`]).
pub open spec fn after_part(m: TurnModel, p: PartView, edl: Option<usize>) -> TurnModel {
    TurnModel {
        parts: capped_parts(appended_parts(m.parts, p)),
        base: base_after(m.base, m.transcript),
        rows: match p {
            PartView::Tool(id) => refreshed(m.rows, id, edl),
            _ => m.rows,
        },
        ..m
    }
}

/// `m` once the tool part of call `id` is there (see [`push_tool_part`]).
pub open spec fn after_tool_part(m: TurnModel, id: Seq<char>, edl: Option<usize>) -> TurnModel {
    TurnModel {
        parts: if has_tool(m.parts, id) {
            m.parts
        } else {
            m.parts.push(PartView::Tool(id))
        },
        base: base_after(m.base, m.transcript),
        rows: refreshed(m.rows, id, edl),
        ..m
    }
}

/// Arguments as the rows keep them: printed as JSON, or nothing.
pub open spec fn arg_text(o: Option<JsonValue>) -> Seq<char> {
    match o {
        Some(a) => json_text_of(a),
        None => Seq::empty(),
    }
}

/// The description a running call shows: its target; else, for the tool
/// already in progress, what that one shows; else `"preparing
/// arguments..."`.
pub open spec fn executing_desc(t: ToolTableView, rep: ToolReport) -> Seq<char> {
    let target = tool_target(rep.name@, effective_args(rep.arguments));
    let d = if target.len() == 0 && t.active is Some && t.active->0.name == rep.name@
        && t.active->0.desc.len() > 0 {
        t.active->0.desc
    } else {
        target
    };
    if d.len() == 0 {
        preparing_desc()
    } else {
        d
    }
}

/// The call id under which a finished call is shown: that of the row it is
/// reported for, else its own.
pub open spec fn reported_id(t: ToolTableView, rep: ToolReport) -> Seq<char> {
    match reported_row(t.rows, rep.sent_id@, rep.name@) {
        Some(i) => t.rows[i].call_id@,
        None => rep.call_id@,
    }
}

/// The rows once a finished call is reported: a new running row, or the
/// row it is reported for revised (see [`row_revised`]), in `r1`; then
/// completed with its outcome, in `r2`.
pub open spec fn executed_rows(t: ToolTableView, rep: ToolReport, edl: Option<usize>, r1: ToolTableView, r2: ToolTableView) -> bool {
    let target = tool_target(rep.name@, effective_args(rep.arguments));
    let id = reported_id(t, rep);
    &&& match reported_row(t.rows, rep.sent_id@, rep.name@) {
        None => upserted(
            t,
            id,
            rep.name@,
            ToolRowState::Running,
            target,
            arg_text(rep.arguments),
            rep.metadata,
            edl,
            r1,
        ),
        Some(_) => row_revised(
            t,
            id,
            rep.name@,
            target,
            match rep.arguments {
                Some(a) => Some(json_text_of(a)),
                None => None,
            },
            edl,
            r1,
        ),
    }
    &&& completed(r1, id, rep.name@, rep.success, rep.output@, edl, r2)
}

/// The plan once a finished call is reported: a successful `update_plan`
/// call gives the steps of its arguments.
pub open spec fn executed_plan(plan: Seq<(Seq<char>, Seq<char>)>, rep: ToolReport) -> Seq<(Seq<char>, Seq<char>)> {
    if rep.name@ == "update_plan"@ && rep.success {
        plan_items(effective_args(rep.arguments))
    } else {
        plan
    }
}

/// The rows once a call settles: its row is completed; without one, a row is
/// made for it and then completed.
pub open spec fn settled_rows(t: ToolTableView, st: Settlement, edl: Option<usize>, r1: ToolTableView, r2: ToolTableView) -> bool {
    if completion_target(t.rows, st.call_id@, st.tool_name@) is Some {
        completed(t, st.call_id@, st.tool_name@, st.success, st.output@, edl, r2)
    } else {
        &&& upserted(
            t,
            st.call_id@,
            st.tool_name@,
            if st.success {
                ToolRowState::Completed
            } else {
                ToolRowState::Failed
            },
            tool_target(st.tool_name@, effective_args(st.arguments)),
            arg_text(st.arguments),
            None,
            edl,
            r1,
        )
        &&& completed(r1, st.call_id@, st.tool_name@, st.success, st.output@, edl, r2)
    }
}

/// Some streamed reply text already holds `t`.
pub open spec fn text_part_holds(parts: Seq<PartView>, t: Seq<char>) -> bool {
    exists|i: int| 0 <= i < parts.len() && (#[trigger] parts[i] matches PartView::Text(x) && seq_contains(x, t))
}

/// `m` once the assistant's message `t` is among the streamed parts.
pub open spec fn with_message_part(m: TurnModel, t: Seq<char>, edl: Option<usize>) -> TurnModel {
    if text_part_holds(m.parts, t) {
        m
    } else {
        after_part(m, PartView::Text(t), edl)
    }
}

/// Whether applying `step` writes out the text left to type out (the
/// caller hands that text in): at the end of a generation, on an error, and
/// for an assistant message the transcript does not hold yet.
pub open spec fn flushes_typing(m: TurnModel, step: RuntimeStep) -> bool {
    match step {
        RuntimeStep::GenerationFinished(_) => true,
        RuntimeStep::RuntimeError => true,
        RuntimeStep::AssistantMessage(Some(t)) => !seq_contains(m.transcript, t@),
        _ => false,
    }
}

/// The assistant's message `t` once the reasoning and the typed-out text are
/// written out (in `c`): added as a paragraph of its own unless the
/// transcript holds it by then.
pub open spec fn message_added(c: TurnModel, t: Seq<char>, n: TurnModel) -> bool {
    if seq_contains(c.transcript, t) {
        n == c
    } else {
        &&& truncated(paragraph_break(c.transcript) + t + "\n\n"@, c.base, n.transcript, n.base)
        &&& n == TurnModel { transcript: n.transcript, base: n.base, ..c }
    }
}

pub open spec fn reasoning_then_typed(m: TurnModel, duration: Seq<char>, rest: Seq<char>, b: TurnModel, c: TurnModel) -> bool {
    reasoning_written(m, duration, b) && typed_out(b, rest, c)
}

pub open spec fn typed_then_reasoning(m: TurnModel, rest: Seq<char>, duration: Seq<char>, a: TurnModel, b: TurnModel) -> bool {
    typed_out(m, rest, a) && reasoning_written(a, duration, b)
}

/// A tool call started: its part is added and a pending row made for it.
pub open spec fn tool_started(m0: TurnModel, o: Option<(String, String, Option<JsonValue>)>, edl: Option<usize>, m1: TurnModel) -> bool {
    match o {
        None => m1 == m0,
        Some((id, name, meta)) => {
            let mid = after_tool_part(m0, id@, edl);
            &&& upserted(
                mid.rows,
                id@,
                name@,
                ToolRowState::Pending,
                preparing_desc(),
                Seq::empty(),
                meta,
                edl,
                m1.rows,
            )
            &&& m1 == TurnModel { rows: m1.rows, ..mid }
        },
    }
}

/// Reply text streamed in: the reasoning is written out first.
pub open spec fn text_streamed(m0: TurnModel, o: Option<String>, edl: Option<usize>, duration: Seq<char>, m1: TurnModel) -> bool {
    exists|a: TurnModel|
        #[trigger] reasoning_written(m0, duration, a) && m1 == match o {
            Some(d) => after_part(a, PartView::Text(d@), edl),
            None => a,
        }
}

/// A tool started to run: its part is added and its row runs (see
/// [`executing_desc`]).
pub open spec fn tool_running(m0: TurnModel, rep: ToolReport, edl: Option<usize>, m1: TurnModel) -> bool {
    let mid = after_tool_part(m0, rep.call_id@, edl);
    &&& upserted(
        mid.rows,
        rep.call_id@,
        rep.name@,
        ToolRowState::Running,
        executing_desc(m0.rows, rep),
        arg_text(rep.arguments),
        rep.metadata,
        edl,
        m1.rows,
    )
    &&& m1 == TurnModel { rows: m1.rows, ..mid }
}

/// The question a running `question` call asks.
pub open spec fn asked(rep: ToolReport) -> Option<(Seq<char>, Seq<Seq<char>>)> {
    if rep.name@ == "question"@ {
        Some((question_text(rep.arguments), question_options(rep.arguments)))
    } else {
        None
    }
}

/// A tool finished (see [`executed_rows`] and [`executed_plan`]).
pub open spec fn tool_finished(m0: TurnModel, rep: ToolReport, edl: Option<usize>, m1: TurnModel) -> bool {
    exists|r1: ToolTableView, r2: ToolTableView|
        #[trigger] executed_rows(m0.rows, rep, edl, r1, r2) && m1 == after_tool_part(
            TurnModel { rows: r2, plan: executed_plan(m0.plan, rep), ..m0 },
            reported_id(m0.rows, rep),
            edl,
        )
}

/// The generation ended: the typed-out text and then the reasoning are
/// written out, and unfinished calls end (see [`unfinished_ended`]).
pub open spec fn generation_ended(m0: TurnModel, rest: Seq<char>, duration: Seq<char>, m1: TurnModel) -> bool {
    exists|a: TurnModel, b: TurnModel|
        #[trigger] typed_then_reasoning(m0, rest, duration, a, b) && unfinished_ended(b.rows, m1.rows) && m1
            == TurnModel { rows: m1.rows, ..b }
}

/// The runtime reported an error: the reasoning and then the typed-out text
/// are written out, and unfinished calls fail.
pub open spec fn error_taken(m0: TurnModel, duration: Seq<char>, rest: Seq<char>, m1: TurnModel) -> bool {
    exists|a: TurnModel, b: TurnModel|
        #[trigger] reasoning_then_typed(m0, duration, rest, a, b) && unfinished_failed(b.rows, m1.rows) && m1
            == TurnModel { rows: m1.rows, ..b }
}

/// The assistant's full message `t`: a reply part unless one holds it
/// already; then, unless the transcript holds it, the reasoning and the
/// typed-out text are written out and the message added (scrolling to the
/// bottom) when the transcript still lacks it.
pub open spec fn message_taken(
    m0: TurnModel,
    t: Seq<char>,
    edl: Option<usize>,
    duration: Seq<char>,
    rest: Seq<char>,
    m1: TurnModel,
    e: ViewEffect,
) -> bool {
    let a = with_message_part(m0, t, edl);
    if seq_contains(a.transcript, t) {
        m1 == a && quiet(e)
    } else {
        exists|b: TurnModel, c: TurnModel|
            #[trigger] reasoning_then_typed(a, duration, rest, b, c) && message_added(c, t, m1) && effect_is(
                e,
                false,
                false,
                true,
                None,
                None,
                None,
                !seq_contains(c.transcript, t),
            )
    }
}

/// A call settled (see [`settled_rows`]); its part is added.
pub open spec fn call_settled(m0: TurnModel, st: Settlement, edl: Option<usize>, m1: TurnModel) -> bool {
    exists|r1: ToolTableView, r2: ToolTableView|
        #[trigger] settled_rows(m0.rows, st, edl, r1, r2) && m1 == after_tool_part(
            TurnModel { rows: r2, ..m0 },
            st.call_id@,
            edl,
        )
}

/// What step `step` does to the view `m0`, giving `m1` and the effect `e`;
/// `duration` is how long the model thought, written out, and `rest` the
/// text left to type out when the step writes it out (see
/// [`flushes_typing`]). The row an event touches has more to show as `edl`
/// (the lines of its edit's diff) says.
pub open spec fn view_step(
    m0: TurnModel,
    step: RuntimeStep,
    edl: Option<usize>,
    duration: Seq<char>,
    rest: Seq<char>,
    m1: TurnModel,
    e: ViewEffect,
) -> bool {
    match step {
        RuntimeStep::Ignored | RuntimeStep::Noted => m1 == m0 && quiet(e),
        RuntimeStep::GenerationStarted => m1 == TurnModel {
            base: Some(utf8_len(m0.transcript) as usize),
            reasoning: Seq::empty(),
            ..m0
        } && quiet(e),
        RuntimeStep::ReasoningDelta(d) => m1 == TurnModel {
            reasoning: m0.reasoning + d@,
            ..after_part(m0, PartView::Reasoning(d@), edl)
        } && effect_is(e, true, false, false, None, None, None, false),
        RuntimeStep::ToolCallStarted(o) => effect_is(e, false, true, false, None, None, None, false)
            && tool_started(m0, o, edl, m1),
        RuntimeStep::ToolCallDelta(o) => quiet(e) && match o {
            None => m1 == m0,
            Some((id, d)) => args_appended(m0.rows, id@, d@, edl, m1.rows) && m1 == TurnModel {
                rows: m1.rows,
                ..m0
            },
        },
        RuntimeStep::ToolCallEnded(o) => quiet(e) && match o {
            None => m1 == m0,
            Some((id, meta)) => args_ended(m0.rows, id@, meta, edl, m1.rows) && m1 == TurnModel {
                rows: m1.rows,
                ..m0
            },
        },
        RuntimeStep::TextDelta(o) => effect_is(e, false, true, true, opt_text(o), None, None, false)
            && text_streamed(m0, o, edl, duration, m1),
        RuntimeStep::ToolExecuting(o) => match o {
            None => m1 == m0 && effect_is(e, false, true, false, None, None, None, false),
            Some(rep) => tool_running(m0, rep, edl, m1) && effect_is(
                e,
                false,
                true,
                false,
                None,
                asked(rep),
                None,
                false,
            ),
        },
        RuntimeStep::ToolExecuted(o) => quiet(e) && match o {
            None => m1 == m0,
            Some(rep) => tool_finished(m0, rep, edl, m1),
        },
        RuntimeStep::GenerationFinished(st) => effect_is(e, false, false, true, None, None, st, false)
            && generation_ended(m0, rest, duration, m1),
        RuntimeStep::RuntimeError => effect_is(e, false, false, true, None, None, None, false) && error_taken(
            m0,
            duration,
            rest,
            m1,
        ),
        RuntimeStep::AssistantMessage(o) => match o {
            None => m1 == m0 && quiet(e),
            Some(t) => message_taken(m0, t@, edl, duration, rest, m1, e),
        },
        RuntimeStep::ToolCallSettled(o) => quiet(e) && match o {
            None => m1 == m0,
            Some(st) => call_settled(m0, st, edl, m1),
        },
    }
}

fn no_effect() -> (e: ViewEffect)
    ensures
        quiet(e),
{
    ViewEffect {
        start_reasoning_clock: false,
        record_reasoning_time: false,
        reasoning_flushed: false,
        feed_typewriter: None,
        question: None,
        settle: None,
        scroll_to_bottom: false,
    }
}

impl TurnView {
    /// An empty view.
    pub fn new() -> (v: Self)
        ensures
            v.tool_rows.wf(),
            v@.rows.rows.len() == 0,
            v@.parts.len() == 0,
            v@.base is None,
            v@.transcript.len() == 0,
            v@.reasoning.len() == 0,
            v@.plan.len() == 0,
    {
        let v = TurnView {
            tool_rows: ToolRowTable::new(),
            stream_parts: Vec::new(),
            stream_base_len: None,
            transcript: String::new(),
            reasoning_buffer: String::new(),
            current_plan: Vec::new(),
        };
        assert(v@.parts =~= Seq::<PartView>::empty());
        assert(v@.plan =~= Seq::<(Seq<char>, Seq<char>)>::empty());
        v
    }

    /// Adds `text` to the transcript and keeps it within its size (see
    /// [`text_added`]).
    pub fn add_text(&mut self, text: &str)
        ensures
            text_added(old(self)@, text@, final(self)@),
            final(self).tool_rows == old(self).tool_rows,
    {
        string_push_str(&mut self.transcript, text);
        truncate_transcript(&mut self.transcript, &mut self.stream_base_len);
    }

    fn type_out(&mut self, rest: &str)
        ensures
            typed_out(old(self)@, rest@, final(self)@),
            final(self).tool_rows == old(self).tool_rows,
    {
        if !rest.is_empty() {
            self.add_text(rest);
        }
    }

    /// Writes the reasoning out as a note of how long the model thought, or
    /// drops it when blank (see [`reasoning_written`]).
    pub fn write_reasoning(&mut self, duration: &str)
        ensures
            reasoning_written(old(self)@, duration@, final(self)@),
            final(self).tool_rows == old(self).tool_rows,
    {
        let t = trimmed(self.reasoning_buffer.as_str());
        if !t.as_str().is_empty() {
            let note = reasoning_note(self.transcript.as_str(), duration);
            self.add_text(note.as_str());
        }
        self.reasoning_buffer = String::new();
    }

    fn push_part(&mut self, part: StreamPart, edl: Option<usize>)
        requires
            old(self).tool_rows.wf(),
        ensures
            final(self).tool_rows.wf(),
            final(self)@ == after_part(old(self)@, part@, edl),
    {
        push_stream_part(
            &mut self.stream_parts,
            &mut self.stream_base_len,
            self.transcript.as_str(),
            &mut self.tool_rows,
            part,
            edl,
        );
    }

    fn push_tool(&mut self, id: String, edl: Option<usize>)
        requires
            old(self).tool_rows.wf(),
        ensures
            final(self).tool_rows.wf(),
            final(self)@ == after_tool_part(old(self)@, id@, edl),
    {
        push_tool_part(
            &mut self.stream_parts,
            &mut self.stream_base_len,
            self.transcript.as_str(),
            &mut self.tool_rows,
            id,
            edl,
        );
    }

    /// Whether applying `step` writes out the text left to type out (see
    /// [`flushes_typing`]).
    pub fn step_flushes_typing(&self, step: &RuntimeStep) -> (b: bool)
        ensures
            b == flushes_typing(self@, *step),
    {
        match step {
            RuntimeStep::GenerationFinished(_) => true,
            RuntimeStep::RuntimeError => true,
            RuntimeStep::AssistantMessage(Some(t)) => !str_contains(self.transcript.as_str(), t.as_str()),
            _ => false,
        }
    }
}

/// `m` once prompt `p` is sent: the transcript shows it (see
/// [`with_prompt`]) and is kept within its size, a user part is added, and
/// the streamed reply starts at the transcript's end.
pub open spec fn prompt_added(m: TurnModel, p: Seq<char>, n: TurnModel) -> bool {
    exists|a: TurnModel|
        #[trigger] text_added(m, with_prompt(m.transcript, p).skip(m.transcript.len() as int), a) && n
            == TurnModel {
            base: Some(utf8_len(a.transcript) as usize),
            ..after_part(a, PartView::User(p), None)
        }
}

/// `m` once the turn is cut short: the typed-out text and then the reasoning
/// are written out, everything is cleared when `clear` says so, unfinished
/// calls fail, and no reply is streaming.
pub open spec fn turn_reset(m: TurnModel, clear: bool, rest: Seq<char>, duration: Seq<char>, n: TurnModel) -> bool {
    exists|a: TurnModel, b: TurnModel|
        #[trigger] typed_then_reasoning(m, rest, duration, a, b) && if clear {
            &&& n.rows.rows.len() == 0
            &&& n.rows.active is None
            &&& n == TurnModel {
                rows: n.rows,
                parts: Seq::empty(),
                base: None,
                transcript: Seq::empty(),
                plan: Seq::empty(),
                ..b
            }
        } else {
            unfinished_failed(b.rows, n.rows) && n == TurnModel { rows: n.rows, base: None, ..b }
        }
}

impl TurnView {
    /// Sends prompt `prompt` (see [`prompt_added`]).
    pub fn add_prompt(&mut self, prompt: &str)
        requires
            old(self).tool_rows.wf(),
        ensures
            final(self).tool_rows.wf(),
            prompt_added(old(self)@, prompt@, final(self)@),
    {
        let ghost m0 = self@;
        let ghost t0 = self.transcript@;
        append_user_prompt(&mut self.transcript, prompt);
        assert(with_prompt(t0, prompt@) =~= t0 + with_prompt(t0, prompt@).skip(t0.len() as int));
        truncate_transcript(&mut self.transcript, &mut self.stream_base_len);
        let ghost a = self@;
        assert(text_added(m0, with_prompt(t0, prompt@).skip(t0.len() as int), a));
        self.push_part(StreamPart::User(prompt.to_owned()), None);
        self.stream_base_len = Some(self.transcript.as_str().as_bytes().len());
    }

    /// Cuts the turn short (see [`turn_reset`]), given the text left to type
    /// out and how long the model thought, written out.
    pub fn reset_turn(&mut self, clear: bool, rest: &str, duration: &str)
        requires
            old(self).tool_rows.wf(),
        ensures
            final(self).tool_rows.wf(),
            turn_reset(old(self)@, clear, rest@, duration@, final(self)@),
    {
        let ghost m0 = self@;
        self.type_out(rest);
        let ghost a = self@;
        self.write_reasoning(duration);
        let ghost b = self@;
        if clear {
            self.transcript = String::new();
            self.current_plan = Vec::new();
            self.stream_parts = Vec::new();
            self.tool_rows.clear();
            assert(self@.parts =~= Seq::<PartView>::empty());
            assert(self@.plan =~= Seq::<(Seq<char>, Seq<char>)>::empty());
        } else {
            self.tool_rows.fail_unfinished_rows();
        }
        self.stream_base_len = None;
        assert(typed_then_reasoning(m0, rest@, duration@, a, b));
    }
}

fn holds_text_part(parts: &Vec<StreamPart>, t: &str) -> (b: bool)
    ensures
        b == text_part_holds(parts_view(parts@), t@),
{
    let ghost s = parts_view(parts@);
    let mut i: usize = 0;
    while i < parts.len()
        invariant
            i <= parts@.len(),
            s == parts_view(parts@),
            forall|j: int| 0 <= j < i ==> !(#[trigger] s[j] matches PartView::Text(x) && seq_contains(x, t@)),
        decreases parts@.len() - i,
    {
        if let StreamPart::Text(x) = &parts[i] {
            if str_contains(x.as_str(), t) {
                assert(s[i as int] == PartView::Text(x@));
                return true;
            }
        }
        assert(s[i as int] == parts@[i as int]@);
        i = i + 1;
    }
    false
}

fn arg_string(o: &Option<JsonValue>) -> (r: String)
    ensures
        r@ == arg_text(*o),
{
    match o {
        Some(a) => json_text(a),
        None => String::new(),
    }
}

fn apply_tool_started(view: &mut TurnView, o: Option<(String, String, Option<JsonValue>)>, edl: Option<usize>)
    requires
        old(view).tool_rows.wf(),
    ensures
        final(view).tool_rows.wf(),
        tool_started(old(view)@, o, edl, final(view)@),
{
    if let Some((id, name, meta)) = o {
        view.push_tool(id.clone(), edl);
        view.tool_rows.upsert_tool_row(
            ToolRowUpdate {
                call_id: id.as_str(),
                name: name.as_str(),
                state: ToolRowState::Pending,
                desc: "preparing arguments...".to_owned(),
                arguments: String::new(),
                metadata: meta,
            },
            edl,
        );
    }
}

fn apply_text(view: &mut TurnView, o: Option<String>, edl: Option<usize>, duration: &str) -> (e: ViewEffect)
    requires
        old(view).tool_rows.wf(),
    ensures
        final(view).tool_rows.wf(),
        effect_is(e, false, true, true, opt_text(o), None, None, false),
        text_streamed(old(view)@, o, edl, duration@, final(view)@),
{
    view.write_reasoning(duration);
    let ghost a = view@;
    let mut e = no_effect();
    e.record_reasoning_time = true;
    e.reasoning_flushed = true;
    if let Some(d) = o {
        view.push_part(StreamPart::Text(d.clone()), edl);
        e.feed_typewriter = Some(d);
    }
    assert(reasoning_written(old(view)@, duration@, a));
    e
}

fn apply_tool_running(view: &mut TurnView, rep: ToolReport, edl: Option<usize>) -> (e: ViewEffect)
    requires
        old(view).tool_rows.wf(),
    ensures
        final(view).tool_rows.wf(),
        tool_running(old(view)@, rep, edl, final(view)@),
        effect_is(e, false, true, false, None, asked(rep), None, false),
{
    let ghost m0 = view@;
    let mut e = no_effect();
    e.record_reasoning_time = true;
    let (_, _, target) = tool_target_and_verbs(rep.name.as_str(), rep.arguments.as_ref());
    let mut desc = target;
    if desc.as_str().is_empty() {
        if let Some(prev) = view.tool_rows.active_tool() {
            if str_eq(prev.name.as_str(), rep.name.as_str()) && !prev.desc.as_str().is_empty() {
                desc = prev.desc.clone();
            }
        }
    }
    if desc.as_str().is_empty() {
        desc = "preparing arguments...".to_owned();
    }
    assert(desc@ == executing_desc(m0.rows, rep));
    view.push_tool(rep.call_id.clone(), edl);
    let arguments = arg_string(&rep.arguments);
    if str_eq(rep.name.as_str(), "question") {
        let q = question_of(rep.arguments.as_ref());
        e.question = Some(q);
    }
    view.tool_rows.upsert_tool_row(
        ToolRowUpdate {
            call_id: rep.call_id.as_str(),
            name: rep.name.as_str(),
            state: ToolRowState::Running,
            desc,
            arguments,
            metadata: rep.metadata,
        },
        edl,
    );
    e
}

fn apply_tool_finished(view: &mut TurnView, rep: ToolReport, edl: Option<usize>)
    requires
        old(view).tool_rows.wf(),
    ensures
        final(view).tool_rows.wf(),
        tool_finished(old(view)@, rep, edl, final(view)@),
{
    let ghost m0 = view@;
    let (_, _, target) = tool_target_and_verbs(rep.name.as_str(), rep.arguments.as_ref());
    let existing = view.tool_rows.reported_call(rep.sent_id.as_str(), rep.name.as_str());
    let had_row = existing.is_some();
    let part_id = match existing {
        Some(id) => id,
        None => rep.call_id.clone(),
    };
    assert(part_id@ == reported_id(m0.rows, rep));
    if !had_row {
        let arguments = arg_string(&rep.arguments);
        view.tool_rows.upsert_tool_row(
            ToolRowUpdate {
                call_id: part_id.as_str(),
                name: rep.name.as_str(),
                state: ToolRowState::Running,
                desc: target,
                arguments,
                metadata: rep.metadata,
            },
            edl,
        );
    } else {
        let arguments = match &rep.arguments {
            Some(a) => Some(json_text(a)),
            None => None,
        };
        view.tool_rows.revise_row(part_id.as_str(), rep.name.as_str(), target.as_str(), arguments, edl);
    }
    let ghost r1 = view.tool_rows@;
    if str_eq(rep.name.as_str(), "update_plan") && rep.success {
        view.current_plan = parse_plan_items(rep.arguments.as_ref());
    }
    let _ = view.tool_rows.complete_tool_row(part_id.as_str(), rep.name.as_str(), rep.success, rep.output.as_str(), edl);
    let ghost r2 = view.tool_rows@;
    assert(executed_rows(m0.rows, rep, edl, r1, r2));
    view.push_tool(part_id, edl);
    view.tool_rows.refresh_active_tool();
}

fn apply_generation_end(view: &mut TurnView, duration: &str, rest: &str)
    requires
        old(view).tool_rows.wf(),
    ensures
        final(view).tool_rows.wf(),
        generation_ended(old(view)@, rest@, duration@, final(view)@),
{
    view.type_out(rest);
    let ghost a = view@;
    view.write_reasoning(duration);
    let ghost b = view@;
    view.tool_rows.end_unfinished_rows();
    view.tool_rows.refresh_active_tool();
    assert(typed_then_reasoning(old(view)@, rest@, duration@, a, b));
}

fn apply_error(view: &mut TurnView, duration: &str, rest: &str)
    requires
        old(view).tool_rows.wf(),
    ensures
        final(view).tool_rows.wf(),
        error_taken(old(view)@, duration@, rest@, final(view)@),
{
    view.write_reasoning(duration);
    let ghost a = view@;
    view.type_out(rest);
    let ghost b = view@;
    view.tool_rows.fail_unfinished_rows();
    view.tool_rows.refresh_active_tool();
    assert(reasoning_then_typed(old(view)@, duration@, rest@, a, b));
}

fn apply_message(view: &mut TurnView, t: String, edl: Option<usize>, duration: &str, rest: &str) -> (e: ViewEffect)
    requires
        old(view).tool_rows.wf(),
    ensures
        final(view).tool_rows.wf(),
        message_taken(old(view)@, t@, edl, duration@, rest@, final(view)@, e),
{
    let ghost m0 = view@;
    if !holds_text_part(&view.stream_parts, t.as_str()) {
        view.push_part(StreamPart::Text(t.clone()), edl);
    }
    let ghost a = view@;
    assert(a == with_message_part(m0, t@, edl));
    if str_contains(view.transcript.as_str(), t.as_str()) {
        return no_effect();
    }
    view.write_reasoning(duration);
    let ghost b = view@;
    view.type_out(rest);
    let ghost c = view@;
    assert(reasoning_then_typed(a, duration@, rest@, b, c));
    let mut e = no_effect();
    e.reasoning_flushed = true;
    if !str_contains(view.transcript.as_str(), t.as_str()) {
        break_paragraph(&mut view.transcript);
        string_push_str(&mut view.transcript, t.as_str());
        string_push_str(&mut view.transcript, "\n\n");
        truncate_transcript(&mut view.transcript, &mut view.stream_base_len);
        e.scroll_to_bottom = true;
    }
    e
}

fn apply_settled(view: &mut TurnView, st: Settlement, edl: Option<usize>)
    requires
        old(view).tool_rows.wf(),
    ensures
        final(view).tool_rows.wf(),
        call_settled(old(view)@, st, edl, final(view)@),
{
    let ghost m0 = view@;
    let found = view.tool_rows.complete_tool_row(
        st.call_id.as_str(),
        st.tool_name.as_str(),
        st.success,
        st.output.as_str(),
        edl,
    );
    let ghost r1 = view.tool_rows@;
    if !found {
        let arguments = arg_string(&st.arguments);
        let (_, _, desc) = tool_target_and_verbs(st.tool_name.as_str(), st.arguments.as_ref());
        view.tool_rows.upsert_tool_row(
            ToolRowUpdate {
                call_id: st.call_id.as_str(),
                name: st.tool_name.as_str(),
                state: if st.success {
                    ToolRowState::Completed
                } else {
                    ToolRowState::Failed
                },
                desc,
                arguments,
                metadata: None,
            },
            edl,
        );
        let ghost r1b = view.tool_rows@;
        let _ = view.tool_rows.complete_tool_row(
            st.call_id.as_str(),
            st.tool_name.as_str(),
            st.success,
            st.output.as_str(),
            edl,
        );
        assert(settled_rows(m0.rows, st, edl, r1b, view.tool_rows@));
    } else {
        assert(settled_rows(m0.rows, st, edl, r1, view.tool_rows@));
    }
    view.push_tool(st.call_id.clone(), edl);
    view.tool_rows.refresh_active_tool();
}

/// Applies a runtime step to the view (see [`view_step`]).
pub fn apply_runtime_step(
    view: &mut TurnView,
    step: RuntimeStep,
    edit_diff_lines: Option<usize>,
    reasoning_duration: &str,
    typing_rest: &str,
) -> (effect: ViewEffect)
    requires
        old(view).tool_rows.wf(),
    ensures
        view_step(old(view)@, step, edit_diff_lines, reasoning_duration@, typing_rest@, final(view)@, effect),
        final(view).tool_rows.wf(),
{
    let edl = edit_diff_lines;
    match step {
        RuntimeStep::Ignored | RuntimeStep::Noted => no_effect(),
        RuntimeStep::GenerationStarted => {
            view.stream_base_len = Some(view.transcript.as_str().as_bytes().len());
            view.reasoning_buffer = String::new();
            no_effect()
        },
        RuntimeStep::ReasoningDelta(d) => {
            view.push_part(StreamPart::Reasoning(d.clone()), edl);
            string_push_str(&mut view.reasoning_buffer, d.as_str());
            let mut e = no_effect();
            e.start_reasoning_clock = true;
            e
        },
        RuntimeStep::ToolCallStarted(o) => {
            apply_tool_started(view, o, edl);
            let mut e = no_effect();
            e.record_reasoning_time = true;
            e
        },
        RuntimeStep::ToolCallDelta(o) => {
            if let Some((id, d)) = o {
                view.tool_rows.append_arguments(id.as_str(), d.as_str(), edl);
            }
            no_effect()
        },
        RuntimeStep::ToolCallEnded(o) => {
            if let Some((id, meta)) = o {
                view.tool_rows.end_arguments(id.as_str(), meta, edl);
            }
            no_effect()
        },
        RuntimeStep::TextDelta(o) => apply_text(view, o, edl, reasoning_duration),
        RuntimeStep::ToolExecuting(o) => match o {
            None => {
                let mut e = no_effect();
                e.record_reasoning_time = true;
                e
            },
            Some(rep) => apply_tool_running(view, rep, edl),
        },
        RuntimeStep::ToolExecuted(o) => {
            if let Some(rep) = o {
                apply_tool_finished(view, rep, edl);
            }
            no_effect()
        },
        RuntimeStep::GenerationFinished(st) => {
            apply_generation_end(view, reasoning_duration, typing_rest);
            let mut e = no_effect();
            e.reasoning_flushed = true;
            e.settle = st;
            e
        },
        RuntimeStep::RuntimeError => {
            apply_error(view, reasoning_duration, typing_rest);
            let mut e = no_effect();
            e.reasoning_flushed = true;
            e
        },
        RuntimeStep::AssistantMessage(o) => match o {
            None => no_effect(),
            Some(t) => apply_message(view, t, edl, reasoning_duration, typing_rest),
        },
        RuntimeStep::ToolCallSettled(o) => {
            if let Some(st) = o {
                apply_settled(view, st, edl);
            }
            no_effect()
        },
    }
}

/// Some call of `t` has not finished.
pub open spec fn call_open(t: ToolTableView) -> bool {
    exists|i: int| 0 <= i < t.rows.len() && is_open(#[trigger] t.rows[i].state)
}

/// Whether the model is reasoning: reasoning streams and no call is in
/// progress.
pub fn is_reasoning(conversation: &ConversationView, rows: &ToolRowTable) -> (b: bool)
    ensures
        b == (conversation.reasoning_active && rows@.active is None),
{
    conversation.reasoning_active && rows.active_tool().is_none()
}

/// Whether reply text shows or may resume: text waits to be typed out
/// (`typing`), or text streams while the turn is active, the model is not
/// reasoning and no call is unfinished.
pub fn is_typing(conversation: &ConversationView, rows: &ToolRowTable, typing: bool) -> (b: bool)
    ensures
        b == (typing || (conversation.text_stream_active && conversation.status == ConversationStatus::Active
            && !(conversation.reasoning_active && rows@.active is None) && !call_open(rows@))),
{
    typing || (conversation.text_stream_active && conversation.status == ConversationStatus::Active
        && !is_reasoning(conversation, rows) && !rows.has_unfinished_rows())
}

/// Whether anything of the turn is live: the turn is active, text waits to
/// be typed out (`typing`) or a status waits for it (`status_pending`), the
/// model is reasoning, or a call is unfinished.
pub fn is_streaming_active(
    conversation: &ConversationView,
    rows: &ToolRowTable,
    typing: bool,
    status_pending: bool,
) -> (b: bool)
    ensures
        b == (conversation.status == ConversationStatus::Active || typing || status_pending
            || (conversation.reasoning_active && rows@.active is None) || call_open(rows@)),
{
    conversation.status == ConversationStatus::Active || typing || status_pending || is_reasoning(
        conversation,
        rows,
    ) || rows.has_unfinished_rows()
}

/// A copy of the plan `p`.
fn copy_plan(p: &Vec<(String, String)>) -> (r: Vec<(String, String)>)
    ensures
        pair_views(r@) == pair_views(p@),
{
    let mut r: Vec<(String, String)> = Vec::new();
    let mut i: usize = 0;
    while i < p.len()
        invariant
            i <= p@.len(),
            r@.len() == i,
            forall|k: int| 0 <= k < i ==> (#[trigger] r@[k]).0@ == p@[k].0@ && r@[k].1@ == p@[k].1@,
        decreases p@.len() - i,
    {
        let (a, b) = &p[i];
        r.push((a.clone(), b.clone()));
        i = i + 1;
    }
    assert(pair_views(r@) =~= pair_views(p@));
    r
}

/// `s` is the view of a session switched away from, made from the turn `m`,
/// the conversation `c`, the prompt `draft`, the scroll `scroll` and the
/// expanded rows `expanded` over the view `before` it replaces; `n` is what
/// the turn keeps. The reasoning and then the text left to type out are
/// written out first; the transcript, the parts and the rows move into the
/// session view, the plan and where the reply starts are copied, and its
/// loading flag stays.
pub open spec fn session_stashed(
    m: TurnModel,
    c: ConversationModel,
    draft: Seq<char>,
    scroll: u16,
    expanded: Seq<String>,
    duration: Seq<char>,
    rest: Seq<char>,
    before: ClientSessionState,
    s: ClientSessionState,
    n: TurnModel,
) -> bool {
    exists|a: TurnModel, b: TurnModel|
        #[trigger] reasoning_then_typed(m, duration, rest, a, b) && {
            &&& s.transcript@ == b.transcript
            &&& s.input_draft@ == draft
            &&& s.scroll == scroll
            &&& s.loaded_until_seq == c.loaded_until_seq
            &&& s.status == c.status
            &&& s.active_generation_id == c.active_generation_id
            &&& s.text_stream_active == c.text_stream_active
            &&& s.loading == before.loading
            &&& pair_views(s.current_plan@) == b.plan
            &&& s.tool_rows@ == b.rows.rows
            &&& parts_view(s.stream_parts@) == b.parts
            &&& s.stream_base_len == b.base
            &&& s.expanded_tool_rows@ == expanded
            &&& n.rows.rows.len() == 0
            &&& n.rows.active is None
            &&& n == TurnModel { rows: n.rows, parts: Seq::empty(), transcript: Seq::empty(), ..b }
        }
}

/// `n`, `c1`, `e1` and `r` are the turn, the conversation, the editor and
/// the scroll and expanded rows after the session whose kept view is `s`
/// is shown again over the turn `m`, the conversation `c0` and the editor
/// `e0`: the transcript, parts, rows, plan and where the reply starts come
/// from `s`, the reasoning so far stays, the draft comes back with the
/// cursor at its end, and the conversation takes the session's progress.
pub open spec fn session_restored(
    m: TurnModel,
    c0: ConversationModel,
    e0: PromptEditor,
    s: ClientSessionState,
    n: TurnModel,
    c1: ConversationModel,
    e1: PromptEditor,
    r: (u16, Vec<String>),
) -> bool {
    &&& n.transcript == s.transcript@
    &&& n.parts == parts_view(s.stream_parts@)
    &&& n.base == s.stream_base_len
    &&& n.rows.rows == s.tool_rows@
    &&& n.plan == pair_views(s.current_plan@)
    &&& n.reasoning == m.reasoning
    &&& e1.prompt == s.input_draft
    &&& e1.cursor_position == s.input_draft@.len()
    &&& e1.selected_suggestion == 0
    &&& e1.prompt_history == e0.prompt_history
    &&& e1.history_index == e0.history_index
    &&& e1.draft_prompt == e0.draft_prompt
    &&& c1 == (ConversationModel {
        loaded_until_seq: s.loaded_until_seq,
        status: s.status,
        active_generation_id: s.active_generation_id,
        text_stream_active: s.text_stream_active,
        diagnostic: Seq::empty(),
        ..c0
    })
    &&& r.0 == s.scroll
    &&& r.1 == s.expanded_tool_rows
}

impl TurnView {
    /// Keeps the turn in `state`, the view of the session switched away from
    /// (see [`session_stashed`]), with the prompt taken out of `editor` as
    /// its draft, `scroll` and the ids of the expanded rows `expanded`.
    /// `duration` is how long the model thought and `rest` the text left to
    /// type out, both written out first.
    pub fn stash_session(
        &mut self,
        conversation: &ConversationView,
        editor: &mut PromptEditor,
        scroll: u16,
        expanded: Vec<String>,
        duration: &str,
        rest: &str,
        state: &mut ClientSessionState,
    )
        requires
            old(self).tool_rows.wf(),
        ensures
            final(self).tool_rows.wf(),
            session_stashed(
                old(self)@,
                conversation@,
                old(editor).prompt@,
                scroll,
                expanded@,
                duration@,
                rest@,
                *old(state),
                *final(state),
                final(self)@,
            ),
            *final(editor) == (PromptEditor { prompt: final(editor).prompt, ..*old(editor) }),
            final(editor).prompt@.len() == 0,
    {
        let ghost m = self@;
        self.write_reasoning(duration);
        let ghost a = self@;
        self.type_out(rest);
        let ghost b = self@;
        assert(reasoning_then_typed(m, duration@, rest@, a, b));
        let mut transcript = String::new();
        std::mem::swap(&mut transcript, &mut self.transcript);
        let mut parts: Vec<StreamPart> = Vec::new();
        std::mem::swap(&mut parts, &mut self.stream_parts);
        state.transcript = transcript;
        state.input_draft = editor.take_draft();
        state.scroll = scroll;
        state.loaded_until_seq = conversation.loaded_until_seq;
        state.status = conversation.status;
        state.current_plan = copy_plan(&self.current_plan);
        state.text_stream_active = conversation.text_stream_active;
        state.active_generation_id = conversation.active_generation_id;
        state.tool_rows = self.tool_rows.take_rows();
        state.stream_parts = parts;
        state.stream_base_len = self.stream_base_len;
        state.expanded_tool_rows = expanded;
        assert(parts_view(Seq::<StreamPart>::empty()) =~= Seq::<PartView>::empty());
    }

    /// Shows the session whose view is `state` (the view it kept when it was
    /// switched away from): the transcript, the parts and the rows move out
    /// of it into the turn, the plan is copied and where the reply starts
    /// taken; its draft moves into `editor` with the cursor at its end; the
    /// conversation takes its progress and drops its diagnostic. Gives the
    /// scroll and the ids of the expanded rows, moved out too.
    pub fn restore_session(
        &mut self,
        conversation: &mut ConversationView,
        editor: &mut PromptEditor,
        state: &mut ClientSessionState,
    ) -> (r: (u16, Vec<String>))
        requires
            old(state).tool_rows@.len() <= MAX_TOOL_ROWS,
        ensures
            final(self).tool_rows.wf(),
            session_restored(
                old(self)@,
                old(conversation)@,
                *old(editor),
                *old(state),
                final(self)@,
                final(conversation)@,
                *final(editor),
                r,
            ),
            final(state).transcript@.len() == 0,
            final(state).input_draft@.len() == 0,
            final(state).stream_parts@.len() == 0,
            final(state).tool_rows@.len() == 0,
            final(state).expanded_tool_rows@.len() == 0,
            final(state).scroll == old(state).scroll,
            final(state).loaded_until_seq == old(state).loaded_until_seq,
            final(state).status == old(state).status,
            final(state).active_generation_id == old(state).active_generation_id,
            final(state).text_stream_active == old(state).text_stream_active,
            final(state).loading == old(state).loading,
            final(state).current_plan == old(state).current_plan,
            final(state).stream_base_len == old(state).stream_base_len,
    {
        let mut transcript = String::new();
        std::mem::swap(&mut transcript, &mut state.transcript);
        self.transcript = transcript;
        let mut draft = String::new();
        std::mem::swap(&mut draft, &mut state.input_draft);
        editor.restore_draft(draft);
        conversation.loaded_until_seq = state.loaded_until_seq;
        conversation.status = state.status;
        self.current_plan = copy_plan(&state.current_plan);
        conversation.text_stream_active = state.text_stream_active;
        conversation.active_generation_id = state.active_generation_id;
        let mut parts: Vec<StreamPart> = Vec::new();
        std::mem::swap(&mut parts, &mut state.stream_parts);
        self.stream_parts = parts;
        self.stream_base_len = state.stream_base_len;
        let mut expanded: Vec<String> = Vec::new();
        std::mem::swap(&mut expanded, &mut state.expanded_tool_rows);
        let mut rows: Vec<ToolRow> = Vec::new();
        std::mem::swap(&mut rows, &mut state.tool_rows);
        self.tool_rows = ToolRowTable::with_rows(rows);
        conversation.diagnostic = String::new();
        (state.scroll, expanded)
    }
}

} // verus!
