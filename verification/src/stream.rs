//! The parts of a reply as they stream in: the user's prompt, text, reasoning
//! and tool calls, merged as they arrive and kept within a bound.
use vstd::prelude::*;

use crate::search::str_eq;
use crate::strings::string_push_str;
use crate::text::{bounded, bounded_text};
use crate::tool_table::{refreshed, ToolRowTable};
use crate::transcript::MAX_TRANSCRIPT_BYTES;
use crate::lines::{lines, split_lines, string_views};
use crate::transcript_lines::{format_transcript_lines, line_views, transcript_lines, LineView, TranscriptLine};
use crate::utf8::utf8_len;

verus! {

broadcast use vstd::string::group_string_axioms;

/// One text streamed into the transcript, by kind.
#[derive(Debug, Clone, PartialEq, Eq)]
pub enum StreamPart {
    User(String),
    Text(String),
    Reasoning(String),
    Tool(String),
}

/// A [`StreamPart`] as a mathematical value.
pub enum PartView {
    User(Seq<char>),
    Text(Seq<char>),
    Reasoning(Seq<char>),
    Tool(Seq<char>),
}

impl View for StreamPart {
    type V = PartView;

    open spec fn view(&self) -> PartView {
        match self {
            StreamPart::User(t) => PartView::User(t@),
            StreamPart::Text(t) => PartView::Text(t@),
            StreamPart::Reasoning(t) => PartView::Reasoning(t@),
            StreamPart::Tool(t) => PartView::Tool(t@),
        }
    }
}

/// Most parts kept; the oldest go first.
pub const MAX_STREAM_PARTS: usize = 1024;

/// The parts as mathematical values.
pub open spec fn parts_view(s: Seq<StreamPart>) -> Seq<PartView> {
    s.map_values(|p: StreamPart| p@)
}

/// The text a part carries.
pub open spec fn part_text(p: PartView) -> Seq<char> {
    match p {
        PartView::User(t) => t,
        PartView::Text(t) => t,
        PartView::Reasoning(t) => t,
        PartView::Tool(t) => t,
    }
}

/// The last user part among the first `n`, or 0 when there is none.
pub open spec fn last_user_index(s: Seq<PartView>, n: int) -> int
    decreases n,
{
    if n <= 0 || n > s.len() {
        0
    } else if s[n - 1] is User {
        n - 1
    } else {
        last_user_index(s, n - 1)
    }
}

/// The first reasoning part from position `i` on.
pub open spec fn first_reasoning_from(s: Seq<PartView>, i: int) -> Option<int>
    decreases s.len() - i,
{
    if i < 0 || i >= s.len() {
        None
    } else if s[i] is Reasoning {
        Some(i)
    } else {
        first_reasoning_from(s, i + 1)
    }
}

/// Whether a tool part with call id `id` is among the parts.
pub open spec fn has_tool(s: Seq<PartView>, id: Seq<char>) -> bool {
    exists|i: int| 0 <= i < s.len() && s[i] == PartView::Tool(id)
}

/// Text streamed onto a part's text, kept within [`MAX_TRANSCRIPT_BYTES`].
pub open spec fn merged(existing: Seq<char>, delta: Seq<char>) -> Seq<char> {
    bounded_text(existing + delta, MAX_TRANSCRIPT_BYTES as int)
}

/// The parts once `p` has arrived: a user part is added; reasoning goes onto
/// the first reasoning part since the last user part, else is added; text
/// goes onto the last part when that is text, else is added; a tool part is
/// added unless one with its call id is there.
pub open spec fn appended_parts(s: Seq<PartView>, p: PartView) -> Seq<PartView> {
    match p {
        PartView::User(_) => s.push(p),
        PartView::Reasoning(d) => match first_reasoning_from(s, last_user_index(s, s.len() as int)) {
            Some(i) => s.update(i, PartView::Reasoning(merged(part_text(s[i]), d))),
            None => s.push(p),
        },
        PartView::Text(d) => if s.len() > 0 && s.last() is Text {
            s.update(s.len() - 1, PartView::Text(merged(part_text(s.last()), d)))
        } else {
            s.push(p)
        },
        PartView::Tool(id) => if has_tool(s, id) {
            s
        } else {
            s.push(p)
        },
    }
}

/// The last [`MAX_STREAM_PARTS`] parts.
pub open spec fn capped_parts(s: Seq<PartView>) -> Seq<PartView> {
    if s.len() > MAX_STREAM_PARTS {
        s.skip(s.len() - MAX_STREAM_PARTS)
    } else {
        s
    }
}

/// Where the streamed reply starts: as recorded, else the transcript's end.
pub open spec fn base_after(base: Option<usize>, transcript: Seq<char>) -> Option<usize> {
    match base {
        Some(b) => Some(b),
        None => Some(utf8_len(transcript) as usize),
    }
}

/// Records the transcript's length in bytes as where the streamed reply
/// starts, unless a start is recorded already.
pub fn ensure_stream_parts(stream_base_len: &mut Option<usize>, transcript: &str)
    ensures
        *final(stream_base_len) == base_after(*old(stream_base_len), transcript@),
{
    if stream_base_len.is_none() {
        *stream_base_len = Some(transcript.as_bytes().len());
    }
}

fn last_user_position(parts: &Vec<StreamPart>) -> (r: usize)
    ensures
        r == last_user_index(parts_view(parts@), parts@.len() as int),
{
    let ghost s = parts_view(parts@);
    let mut n: usize = parts.len();
    while n > 0
        invariant
            n <= parts@.len(),
            s == parts_view(parts@),
            last_user_index(s, parts@.len() as int) == last_user_index(s, n as int),
        decreases n,
    {
        if let StreamPart::User(_) = &parts[n - 1] {
            return n - 1;
        }
        n = n - 1;
    }
    0
}

fn first_reasoning_position(parts: &Vec<StreamPart>, from: usize) -> (r: Option<usize>)
    ensures
        match r {
            Some(i) => first_reasoning_from(parts_view(parts@), from as int) == Some(i as int)
                && i < parts@.len() && parts@[i as int]@ is Reasoning,
            None => first_reasoning_from(parts_view(parts@), from as int) is None,
        },
{
    let ghost s = parts_view(parts@);
    let mut i: usize = from;
    if i > parts.len() {
        return None;
    }
    while i < parts.len()
        invariant
            from <= i <= parts@.len(),
            s == parts_view(parts@),
            first_reasoning_from(s, from as int) == first_reasoning_from(s, i as int),
        decreases parts@.len() - i,
    {
        if let StreamPart::Reasoning(_) = &parts[i] {
            return Some(i);
        }
        i = i + 1;
    }
    None
}

pub(crate) fn has_tool_part(parts: &Vec<StreamPart>, call_id: &str) -> (b: bool)
    ensures
        b == has_tool(parts_view(parts@), call_id@),
{
    let ghost s = parts_view(parts@);
    let mut i: usize = 0;
    while i < parts.len()
        invariant
            i <= parts@.len(),
            s == parts_view(parts@),
            forall|j: int| 0 <= j < i ==> s[j] != PartView::Tool(call_id@),
        decreases parts@.len() - i,
    {
        if let StreamPart::Tool(id) = &parts[i] {
            if str_eq(id.as_str(), call_id) {
                assert(s[i as int] == PartView::Tool(call_id@));
                return true;
            }
        }
        i = i + 1;
    }
    false
}

/// The text `delta` streamed onto the text of the part at `i`, which keeps
/// its kind.
fn merge_into(parts: &mut Vec<StreamPart>, i: usize, delta: &str)
    requires
        i < old(parts)@.len(),
    ensures
        final(parts)@.len() == old(parts)@.len(),
        parts_view(final(parts)@) == parts_view(old(parts)@).update(
            i as int,
            match old(parts)@[i as int]@ {
                PartView::User(t) => PartView::User(merged(t, delta@)),
                PartView::Text(t) => PartView::Text(merged(t, delta@)),
                PartView::Reasoning(t) => PartView::Reasoning(merged(t, delta@)),
                PartView::Tool(t) => PartView::Tool(merged(t, delta@)),
            },
        ),
{
    let mut taken = StreamPart::Text(String::new());
    parts.set_and_swap(i, &mut taken);
    let merged_part = match taken {
        StreamPart::User(mut t) => {
            string_push_str(&mut t, delta);
            StreamPart::User(bounded(t, MAX_TRANSCRIPT_BYTES))
        },
        StreamPart::Text(mut t) => {
            string_push_str(&mut t, delta);
            StreamPart::Text(bounded(t, MAX_TRANSCRIPT_BYTES))
        },
        StreamPart::Reasoning(mut t) => {
            string_push_str(&mut t, delta);
            StreamPart::Reasoning(bounded(t, MAX_TRANSCRIPT_BYTES))
        },
        StreamPart::Tool(mut t) => {
            string_push_str(&mut t, delta);
            StreamPart::Tool(bounded(t, MAX_TRANSCRIPT_BYTES))
        },
    };
    parts.set(i, merged_part);
    assert(parts_view(parts@) =~= parts_view(old(parts)@).update(i as int, merged_part@));
}

/// Adds a tool part for `call_id` unless one is there, and recomputes the
/// flag of having more to show of that call's row (`edit_diff_lines` as for
/// [`ToolRowTable::upsert_tool_row`]). The streamed reply's start is
/// recorded as by [`ensure_stream_parts`].
pub fn push_tool_part(
    parts: &mut Vec<StreamPart>,
    stream_base_len: &mut Option<usize>,
    transcript: &str,
    tool_rows: &mut ToolRowTable,
    call_id: String,
    edit_diff_lines: Option<usize>,
)
    requires
        old(tool_rows).wf(),
    ensures
        *final(stream_base_len) == base_after(*old(stream_base_len), transcript@),
        parts_view(final(parts)@) == if has_tool(parts_view(old(parts)@), call_id@) {
            parts_view(old(parts)@)
        } else {
            parts_view(old(parts)@).push(PartView::Tool(call_id@))
        },
        final(tool_rows).wf(),
        final(tool_rows)@ == refreshed(old(tool_rows)@, call_id@, edit_diff_lines),
{
    ensure_stream_parts(stream_base_len, transcript);
    if !has_tool_part(parts, call_id.as_str()) {
        tool_rows.refresh_expandable(call_id.as_str(), edit_diff_lines);
        let ghost before = parts@;
        parts.push(StreamPart::Tool(call_id));
        assert(parts_view(parts@) =~= parts_view(before).push(PartView::Tool(call_id@)));
    } else {
        tool_rows.refresh_expandable(call_id.as_str(), edit_diff_lines);
    }
}

/// Takes in one streamed part (see [`appended_parts`]) and keeps the last
/// [`MAX_STREAM_PARTS`]. A tool part also recomputes the flag of having
/// more to show of that call's row (`edit_diff_lines` as for
/// [`ToolRowTable::upsert_tool_row`]); other parts leave the rows alone.
/// The streamed reply's start is recorded as by [`ensure_stream_parts`].
pub fn push_stream_part(
    parts: &mut Vec<StreamPart>,
    stream_base_len: &mut Option<usize>,
    transcript: &str,
    tool_rows: &mut ToolRowTable,
    part: StreamPart,
    edit_diff_lines: Option<usize>,
)
    requires
        old(tool_rows).wf(),
    ensures
        *final(stream_base_len) == base_after(*old(stream_base_len), transcript@),
        parts_view(final(parts)@) == capped_parts(appended_parts(parts_view(old(parts)@), part@)),
        final(tool_rows).wf(),
        final(tool_rows)@ == match part@ {
            PartView::Tool(id) => refreshed(old(tool_rows)@, id, edit_diff_lines),
            _ => old(tool_rows)@,
        },
{
    ensure_stream_parts(stream_base_len, transcript);
    let ghost s = parts_view(parts@);
    let ghost p = part@;
    match part {
        StreamPart::User(prompt) => {
            parts.push(StreamPart::User(prompt));
            assert(parts_view(parts@) =~= s.push(p));
        },
        StreamPart::Reasoning(delta) => {
            let from = last_user_position(parts);
            match first_reasoning_position(parts, from) {
                Some(i) => {
                    merge_into(parts, i, delta.as_str());
                },
                None => {
                    parts.push(StreamPart::Reasoning(delta));
                    assert(parts_view(parts@) =~= s.push(p));
                },
            }
        },
        StreamPart::Text(delta) => {
            let n = parts.len();
            let last_is_text = n > 0 && match &parts[n - 1] {
                StreamPart::Text(_) => true,
                _ => false,
            };
            if last_is_text {
                merge_into(parts, n - 1, delta.as_str());
            } else {
                parts.push(StreamPart::Text(delta));
                assert(parts_view(parts@) =~= s.push(p));
            }
        },
        StreamPart::Tool(call_id) => {
            if !has_tool_part(parts, call_id.as_str()) {
                tool_rows.refresh_expandable(call_id.as_str(), edit_diff_lines);
                parts.push(StreamPart::Tool(call_id));
                assert(parts_view(parts@) =~= s.push(p));
            } else {
                tool_rows.refresh_expandable(call_id.as_str(), edit_diff_lines);
            }
        },
    }
    let ghost appended = parts_view(parts@);
    assert(appended == appended_parts(s, p));
    if parts.len() > MAX_STREAM_PARTS {
        let excess = parts.len() - MAX_STREAM_PARTS;
        let tail = parts.split_off(excess);
        *parts = tail;
        assert(parts_view(parts@) =~= appended.skip(excess as int));
    }
}

// ---------------------------------------------------------------------------
// How the parts read on screen
// ---------------------------------------------------------------------------

/// A line of the streamed parts as shown.
#[derive(Debug, Clone, PartialEq, Eq)]
pub enum PartLine {
    /// A line of a user prompt, on a card; the first one carries the prompt
    /// marker.
    Prompt { first: bool, text: String },
    /// An empty line.
    Blank,
    /// The model is thinking right now.
    Thinking,
    /// How long the model thought; `expanded` when its reasoning follows.
    Thought { expanded: bool },
    /// A line of the model's reasoning.
    ReasoningLine(String),
    /// A line of the reply, as the transcript shows it.
    Reply(TranscriptLine),
    /// The card or row of the tool call with this id.
    Tool(String),
}

/// A [`PartLine`] as a mathematical value.
pub enum PartLineView {
    Prompt(bool, Seq<char>),
    Blank,
    Thinking,
    Thought(bool),
    ReasoningLine(Seq<char>),
    Reply(LineView),
    Tool(Seq<char>),
}

impl View for PartLine {
    type V = PartLineView;

    open spec fn view(&self) -> PartLineView {
        match self {
            PartLine::Prompt { first, text } => PartLineView::Prompt(*first, text@),
            PartLine::Blank => PartLineView::Blank,
            PartLine::Thinking => PartLineView::Thinking,
            PartLine::Thought { expanded } => PartLineView::Thought(*expanded),
            PartLine::ReasoningLine(t) => PartLineView::ReasoningLine(t@),
            PartLine::Reply(l) => PartLineView::Reply(l@),
            PartLine::Tool(id) => PartLineView::Tool(id@),
        }
    }
}

/// The lines as mathematical values.
pub open spec fn part_line_views(v: Seq<PartLine>) -> Seq<PartLineView> {
    v.map_values(|l: PartLine| l@)
}

/// How one part shows: a prompt as its lines on a card (one empty card line
/// for an empty prompt) and an empty line; text as the transcript shows it;
/// reasoning as a thinking line while the model thinks, else as the time it
/// took, followed by its lines when `expanded`, and an empty line; a tool
/// call as its card or row.
pub open spec fn part_lines(p: PartView, thinking: bool, expanded: bool) -> Seq<PartLineView> {
    match p {
        PartView::User(t) => {
            let ls = lines(t);
            (if ls.len() == 0 {
                seq![PartLineView::Prompt(true, Seq::empty())]
            } else {
                Seq::new(ls.len(), |i: int| PartLineView::Prompt(i == 0, ls[i]))
            }) + seq![PartLineView::Blank]
        },
        PartView::Text(t) => transcript_lines(t).map_values(|l: LineView| PartLineView::Reply(l)),
        PartView::Reasoning(t) => if thinking {
            seq![PartLineView::Thinking]
        } else if expanded {
            seq![PartLineView::Thought(true)] + lines(t).map_values(
                |l: Seq<char>| PartLineView::ReasoningLine(l),
            ) + seq![PartLineView::Blank]
        } else {
            seq![PartLineView::Thought(false), PartLineView::Blank]
        },
        PartView::Tool(id) => seq![PartLineView::Tool(id)],
    }
}

/// How the first `n` parts show, one after the other.
pub open spec fn parts_lines(s: Seq<PartView>, thinking: bool, expanded: bool, n: int) -> Seq<PartLineView>
    decreases n,
{
    if n <= 0 || n > s.len() {
        Seq::empty()
    } else {
        parts_lines(s, thinking, expanded, n - 1) + part_lines(s[n - 1], thinking, expanded)
    }
}

fn push_part_lines(out: &mut Vec<PartLine>, part: &StreamPart, thinking: bool, expanded: bool)
    ensures
        part_line_views(final(out)@) == part_line_views(old(out)@) + part_lines(part@, thinking, expanded),
{
    let ghost before = part_line_views(out@);
    match part {
        StreamPart::User(prompt) => {
            let ls = split_lines(prompt.as_str());
            let ghost lv = string_views(ls@);
            if ls.len() == 0 {
                out.push(PartLine::Prompt { first: true, text: String::new() });
            } else {
                let mut i: usize = 0;
                while i < ls.len()
                    invariant
                        i <= ls@.len(),
                        lv == string_views(ls@),
                        part_line_views(out@) == before + Seq::new(
                            i as nat,
                            |k: int| PartLineView::Prompt(k == 0, lv[k]),
                        ),
                    decreases ls@.len() - i,
                {
                    let ghost prev = part_line_views(out@);
                    let line = PartLine::Prompt { first: i == 0, text: ls[i].clone() };
                    assert(lv[i as int] == ls@[i as int]@);
                    assert(line@ == PartLineView::Prompt(i == 0, lv[i as int]));
                    out.push(line);
                    assert(part_line_views(out@) =~= prev.push(PartLineView::Prompt(i == 0, lv[i as int])));
                    assert(part_line_views(out@) =~= before + Seq::new(
                        (i + 1) as nat,
                        |k: int| PartLineView::Prompt(k == 0, lv[k]),
                    ));
                    i = i + 1;
                }
            }
            let ghost mid = part_line_views(out@);
            out.push(PartLine::Blank);
            proof {
                assert(part_line_views(out@) =~= mid.push(PartLineView::Blank));
                if ls@.len() == 0 {
                    assert(mid =~= before + seq![PartLineView::Prompt(true, Seq::empty())]);
                }
                assert(part_line_views(out@) =~= before + part_lines(part@, thinking, expanded));
            }
        },
        StreamPart::Text(text) => {
            let shown = format_transcript_lines(text.as_str());
            let mut i: usize = 0;
            while i < shown.len()
                invariant
                    i <= shown@.len(),
                    part_line_views(out@) == before + line_views(shown@).take(i as int).map_values(
                        |l: LineView| PartLineView::Reply(l),
                    ),
                decreases shown@.len() - i,
            {
                let ghost prev = part_line_views(out@);
                out.push(PartLine::Reply(shown[i].copied()));
                proof {
                    let lv = line_views(shown@);
                    assert(lv[i as int] == shown@[i as int]@);
                    assert(part_line_views(out@) =~= prev.push(PartLineView::Reply(lv[i as int])));
                    assert(lv.take(i as int + 1) =~= lv.take(i as int).push(lv[i as int]));
                    assert(lv.take(i as int + 1).map_values(|l: LineView| PartLineView::Reply(l)) =~= lv.take(
                        i as int,
                    ).map_values(|l: LineView| PartLineView::Reply(l)).push(PartLineView::Reply(lv[i as int])));
                }
                i = i + 1;
            }
            assert(line_views(shown@).take(shown@.len() as int) =~= line_views(shown@));
        },
        StreamPart::Reasoning(text) => {
            if thinking {
                out.push(PartLine::Thinking);
                assert(part_line_views(out@) =~= before + part_lines(part@, thinking, expanded));
            } else if expanded {
                out.push(PartLine::Thought { expanded: true });
                let ls = split_lines(text.as_str());
                let ghost lv = string_views(ls@);
                let ghost head = part_line_views(out@);
                let mut i: usize = 0;
                while i < ls.len()
                    invariant
                        i <= ls@.len(),
                        lv == string_views(ls@),
                        part_line_views(out@) == head + lv.take(i as int).map_values(
                            |l: Seq<char>| PartLineView::ReasoningLine(l),
                        ),
                    decreases ls@.len() - i,
                {
                    let ghost prev = part_line_views(out@);
                    out.push(PartLine::ReasoningLine(ls[i].clone()));
                    proof {
                        assert(lv.take(i as int + 1) =~= lv.take(i as int).push(lv[i as int]));
                        assert(lv[i as int] == ls@[i as int]@);
                        assert(part_line_views(out@) =~= prev.push(PartLineView::ReasoningLine(lv[i as int])));
                        assert(lv.take(i as int + 1).map_values(|l: Seq<char>| PartLineView::ReasoningLine(l))
                            =~= lv.take(i as int).map_values(|l: Seq<char>| PartLineView::ReasoningLine(l)).push(
                            PartLineView::ReasoningLine(lv[i as int]),
                        ));
                    }
                    i = i + 1;
                }
                let ghost mid = part_line_views(out@);
                out.push(PartLine::Blank);
                proof {
                    assert(lv.take(ls@.len() as int) =~= lv);
                    assert(head =~= before + seq![PartLineView::Thought(true)]);
                    assert(part_line_views(out@) =~= mid.push(PartLineView::Blank));
                    assert(part_line_views(out@) =~= before + part_lines(part@, thinking, expanded));
                }
            } else {
                out.push(PartLine::Thought { expanded: false });
                out.push(PartLine::Blank);
                assert(part_line_views(out@) =~= before + part_lines(part@, thinking, expanded));
            }
        },
        StreamPart::Tool(id) => {
            out.push(PartLine::Tool(id.clone()));
            assert(part_line_views(out@) =~= before + part_lines(part@, thinking, expanded));
        },
    }
}

/// How the streamed parts show, one after the other (see [`part_lines`]);
/// `thinking` tells whether the model is thinking right now and `expanded`
/// whether the user expanded its reasoning.
pub fn stream_part_lines(parts: &[StreamPart], thinking: bool, expanded: bool) -> (out: Vec<PartLine>)
    ensures
        part_line_views(out@) == parts_lines(parts_view(parts@), thinking, expanded, parts@.len() as int),
{
    let mut out: Vec<PartLine> = Vec::new();
    let mut i: usize = 0;
    assert(part_line_views(out@) =~= Seq::<PartLineView>::empty());
    while i < parts.len()
        invariant
            i <= parts@.len(),
            part_line_views(out@) == parts_lines(parts_view(parts@), thinking, expanded, i as int),
        decreases parts@.len() - i,
    {
        push_part_lines(&mut out, &parts[i], thinking, expanded);
        i = i + 1;
    }
    out
}

} // verus!
