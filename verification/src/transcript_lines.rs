//! How the transcript reads as lines on screen: which lines are code, user
//! prompts, thoughts, headings, bullets or text, and which parts of a line
//! are inline code or link labels. Colours and padding are left to whoever
//! draws the lines.
use vstd::prelude::*;

use crate::lines::{lines, split_lines, string_views, sub_vec, trim_bounds, without_prefix};
use crate::search::{str_eq, str_starts_with};
use crate::strings::{string_from_chars, string_push_str};
use crate::text::{chars_of, fence_marker, is_fence_line, starts_with, trim, trim_start};

verus! {

broadcast use vstd::string::group_string_axioms;

// ---------------------------------------------------------------------------
// Inline code and links
// ---------------------------------------------------------------------------

/// How a piece of a line is shown.
#[derive(Debug, Clone, Copy, PartialEq, Eq)]
pub enum SegmentKind {
    /// Ordinary text.
    Plain,
    /// Text that stood between backticks.
    Code,
    /// The label of a `[label](url)` link.
    Link,
}

/// A piece of a line.
#[derive(Debug, Clone, PartialEq, Eq)]
pub struct Segment {
    pub kind: SegmentKind,
    pub text: String,
}

/// A [`Segment`] as a mathematical value.
pub struct SegmentView {
    pub kind: SegmentKind,
    pub text: Seq<char>,
}

impl View for Segment {
    type V = SegmentView;

    open spec fn view(&self) -> SegmentView {
        SegmentView { kind: self.kind, text: self.text@ }
    }
}

/// The segments as mathematical values.
pub open spec fn segment_views(v: Seq<Segment>) -> Seq<SegmentView> {
    v.map_values(|s: Segment| s@)
}

pub open spec fn seg(kind: SegmentKind, text: Seq<char>) -> SegmentView {
    SegmentView { kind, text }
}

/// The first position from `i` on that holds `c`.
pub open spec fn find_char_from(t: Seq<char>, c: char, i: int) -> Option<int>
    decreases t.len() - i,
{
    if i < 0 || i >= t.len() {
        None
    } else if t[i] == c {
        Some(i)
    } else {
        find_char_from(t, c, i + 1)
    }
}

/// The first position from `i` on where `"]("` starts.
pub open spec fn find_label_end_from(t: Seq<char>, i: int) -> Option<int>
    decreases t.len() - i,
{
    if i < 0 || i + 1 >= t.len() {
        None
    } else if t[i] == ']' && t[i + 1] == '(' {
        Some(i)
    } else {
        find_label_end_from(t, i + 1)
    }
}

/// Where the first `'['` opens a link: its position, where its label ends
/// (at `"]("`) and where its url ends (at `')'`).
pub open spec fn link_at(t: Seq<char>) -> Option<(int, int, int)> {
    match find_char_from(t, '[', 0) {
        Some(open) => match find_label_end_from(t, open + 1) {
            Some(label_end) => match find_char_from(t, ')', label_end + 2) {
                Some(url_end) => Some((open, label_end, url_end)),
                None => None,
            },
            None => None,
        },
        None => None,
    }
}

/// `r` as one plain segment, or nothing when it is empty.
pub open spec fn rest_segment(r: Seq<char>) -> Seq<SegmentView> {
    if r.len() > 0 {
        seq![seg(SegmentKind::Plain, r)]
    } else {
        Seq::empty()
    }
}

/// The segments of `r` cut at pairs of backticks: the text before each pair
/// (when there is any) is plain and the text between the backticks is code;
/// what follows the last pair is plain.
pub open spec fn code_pairs(r: Seq<char>) -> Seq<SegmentView>
    decreases r.len(),
{
    match find_char_from(r, '`', 0) {
        Some(s) => match find_char_from(r, '`', s + 1) {
            Some(e) => if 0 <= s < e < r.len() {
                (if s > 0 {
                    seq![seg(SegmentKind::Plain, r.take(s))]
                } else {
                    Seq::empty()
                }) + seq![seg(SegmentKind::Code, r.subrange(s + 1, e))] + code_pairs(r.skip(e + 1))
            } else {
                rest_segment(r)
            },
            None => rest_segment(r),
        },
        None => rest_segment(r),
    }
}

/// The segments of text with no link: the whole text as plain when it has
/// no backtick; otherwise [`code_pairs`], or one empty plain segment when
/// that yields nothing.
pub open spec fn code_segments(t: Seq<char>) -> Seq<SegmentView> {
    if !t.contains('`') {
        seq![seg(SegmentKind::Plain, t)]
    } else if code_pairs(t).len() == 0 {
        seq![seg(SegmentKind::Plain, Seq::empty())]
    } else {
        code_pairs(t)
    }
}

/// The segments of a line: the label of the link opened by its first `'['`
/// (see [`link_at`]) between the segments of the text before and after the
/// link; with no such link, [`code_segments`].
pub open spec fn inline_segments(t: Seq<char>) -> Seq<SegmentView>
    decreases t.len(),
{
    match link_at(t) {
        Some((open, label_end, url_end)) => if 0 <= open < label_end && label_end + 2 <= url_end
            < t.len() {
            inline_segments(t.take(open)) + seq![
                seg(SegmentKind::Link, t.subrange(open + 1, label_end)),
            ] + inline_segments(t.skip(url_end + 1))
        } else {
            code_segments(t)
        },
        None => code_segments(t),
    }
}

proof fn lemma_find_char_from(t: Seq<char>, c: char, i: int)
    ensures
        find_char_from(t, c, i) matches Some(k) ==> 0 <= i <= k < t.len() && t[k] == c,
        find_char_from(t, c, i) is None ==> forall|k: int| 0 <= i <= k < t.len() ==> t[k] != c,
        find_char_from(t, c, i) is None && i == 0 ==> !t.contains(c),
    decreases t.len() - i,
{
    if 0 <= i < t.len() && t[i] != c {
        lemma_find_char_from(t, c, i + 1);
    }
    if find_char_from(t, c, i) is None && i == 0 {
        assert forall|k: int| 0 <= k < t.len() implies t[k] != c by {}
    }
}

proof fn lemma_find_label_end_from(t: Seq<char>, i: int)
    ensures
        find_label_end_from(t, i) matches Some(k) ==> 0 <= i <= k && k + 1 < t.len(),
    decreases t.len() - i,
{
    if 0 <= i && i + 1 < t.len() && !(t[i] == ']' && t[i + 1] == '(') {
        lemma_find_label_end_from(t, i + 1);
    }
}

/// The first position from `i` on in `t` that holds `c`.
fn find_char(t: &Vec<char>, c: char, from: usize) -> (r: Option<usize>)
    ensures
        match r {
            Some(k) => find_char_from(t@, c, from as int) == Some(k as int) && k < t.len(),
            None => find_char_from(t@, c, from as int) is None,
        },
{
    let mut i = from;
    while i < t.len()
        invariant
            from <= i,
            find_char_from(t@, c, from as int) == find_char_from(t@, c, i as int),
        decreases t@.len() - i,
    {
        if t[i] == c {
            return Some(i);
        }
        i = i + 1;
    }
    None
}

/// The first position from `i` on in `t` where `"]("` starts.
fn find_label_end(t: &Vec<char>, from: usize) -> (r: Option<usize>)
    ensures
        match r {
            Some(k) => find_label_end_from(t@, from as int) == Some(k as int) && k + 1 < t.len(),
            None => find_label_end_from(t@, from as int) is None,
        },
{
    let mut i = from;
    while i < t.len() && i + 1 < t.len()
        invariant
            from <= i,
            find_label_end_from(t@, from as int) == find_label_end_from(t@, i as int),
        decreases t@.len() - i,
    {
        if t[i] == ']' && t[i + 1] == '(' {
            return Some(i);
        }
        i = i + 1;
    }
    None
}

fn plain(kind: SegmentKind, text: &Vec<char>) -> (s: Segment)
    ensures
        s@ == seg(kind, text@),
{
    Segment { kind, text: string_from_chars(text) }
}

fn code_pairs_of(r: &Vec<char>) -> (out: Vec<Segment>)
    ensures
        segment_views(out@) == code_pairs(r@),
    decreases r@.len(),
{
    let mut out: Vec<Segment> = Vec::new();
    let found = match find_char(r, '`', 0) {
        Some(s) => match find_char(r, '`', s + 1) {
            Some(e) => Some((s, e)),
            None => None,
        },
        None => None,
    };
    proof {
        lemma_find_char_from(r@, '`', 0);
        if let Some(s) = find_char_from(r@, '`', 0) {
            lemma_find_char_from(r@, '`', s + 1);
        }
    }
    match found {
        Some((s, e)) => {
            if s > 0 {
                let before = sub_vec(r, 0, s);
                out.push(plain(SegmentKind::Plain, &before));
            }
            let code = sub_vec(r, s + 1, e);
            out.push(plain(SegmentKind::Code, &code));
            let after = sub_vec(r, e + 1, r.len());
            let rest = code_pairs_of(&after);
            let ghost head = segment_views(out@);
            proof {
                assert(r@.take(s as int) =~= r@.subrange(0, s as int));
                assert(r@.skip(e + 1) =~= r@.subrange(e + 1, r@.len() as int));
            }
            let mut rest = rest;
            out.append(&mut rest);
            proof {
                assert(segment_views(out@) =~= head + code_pairs(r@.skip(e + 1)));
                assert(head =~= (if s > 0 {
                    seq![seg(SegmentKind::Plain, r@.take(s as int))]
                } else {
                    Seq::empty()
                }) + seq![seg(SegmentKind::Code, r@.subrange(s + 1, e as int))]);
            }
        },
        None => {
            if r.len() > 0 {
                out.push(plain(SegmentKind::Plain, r));
            }
            assert(segment_views(out@) =~= rest_segment(r@));
        },
    }
    out
}

fn code_segments_of(t: &Vec<char>) -> (out: Vec<Segment>)
    ensures
        segment_views(out@) == code_segments(t@),
{
    let has_tick = find_char(t, '`', 0).is_some();
    proof {
        lemma_find_char_from(t@, '`', 0);
        if let Some(k) = find_char_from(t@, '`', 0) {
            assert(t@[k] == '`');
        }
    }
    if !has_tick {
        let mut out = Vec::new();
        out.push(plain(SegmentKind::Plain, t));
        assert(segment_views(out@) =~= seq![seg(SegmentKind::Plain, t@)]);
        return out;
    }
    let mut out = code_pairs_of(t);
    if out.len() == 0 {
        out.push(Segment { kind: SegmentKind::Plain, text: String::new() });
        assert(segment_views(out@) =~= seq![seg(SegmentKind::Plain, Seq::empty())]);
    }
    out
}

fn inline_segments_of(t: &Vec<char>) -> (out: Vec<Segment>)
    ensures
        segment_views(out@) == inline_segments(t@),
    decreases t@.len(),
{
    proof {
        lemma_find_char_from(t@, '[', 0);
        if let Some(open) = find_char_from(t@, '[', 0) {
            lemma_find_label_end_from(t@, open + 1);
            if let Some(l) = find_label_end_from(t@, open + 1) {
                lemma_find_char_from(t@, ')', l + 2);
            }
        }
    }
    let link = match find_char(t, '[', 0) {
        Some(open) => match find_label_end(t, open + 1) {
            Some(label_end) => match find_char(t, ')', label_end + 2) {
                Some(url_end) => Some((open, label_end, url_end)),
                None => None,
            },
            None => None,
        },
        None => None,
    };
    match link {
        Some((open, label_end, url_end)) => {
            let before = sub_vec(t, 0, open);
            let label = sub_vec(t, open + 1, label_end);
            let after = sub_vec(t, url_end + 1, t.len());
            proof {
                assert(t@.take(open as int) =~= t@.subrange(0, open as int));
                assert(t@.skip(url_end + 1) =~= t@.subrange(url_end + 1, t@.len() as int));
            }
            let mut out = inline_segments_of(&before);
            let ghost head = segment_views(out@);
            out.push(plain(SegmentKind::Link, &label));
            let mut tail = inline_segments_of(&after);
            let ghost mid = segment_views(out@);
            out.append(&mut tail);
            proof {
                assert(mid =~= head.push(seg(SegmentKind::Link, label@)));
                assert(segment_views(out@) =~= mid + inline_segments(after@));
                assert(segment_views(out@) =~= head + seq![seg(SegmentKind::Link, label@)]
                    + inline_segments(after@));
            }
            out
        },
        None => code_segments_of(t),
    }
}

/// The segments of one line of text (see [`inline_segments`]).
pub fn format_inline_code(text: &str) -> (out: Vec<Segment>)
    ensures
        segment_views(out@) == inline_segments(text@),
{
    let chars = chars_of(text);
    inline_segments_of(&chars)
}

// ---------------------------------------------------------------------------
// Lines of the transcript
// ---------------------------------------------------------------------------

/// The line that stands where earlier transcript was compacted away.
pub const COMPACTION_MARKER: &'static str = "[earlier transcript compacted]";

/// How a line of the transcript is shown.
#[derive(Debug, Clone, PartialEq, Eq)]
pub enum TranscriptLine {
    /// The compaction marker, dimmed.
    Marker(String),
    /// An empty line.
    Blank,
    /// The language named where a code block opens, on a card.
    CodeHeader(String),
    /// A line inside a code block, on a card.
    Code(String),
    /// A user prompt (without its `"> "`), on a card.
    Prompt(String),
    /// A note of how long the model thought.
    Thought(String),
    /// A line of reasoning (without its bubble).
    Reasoning(String),
    /// A heading of level 1 to 3, the whole line.
    Heading(u8, String),
    /// A bullet: its indentation and the segments of its text.
    Bullet(String, Vec<Segment>),
    /// Ordinary text.
    Text(Vec<Segment>),
}

/// A [`TranscriptLine`] as a mathematical value.
pub enum LineView {
    Marker(Seq<char>),
    Blank,
    CodeHeader(Seq<char>),
    Code(Seq<char>),
    Prompt(Seq<char>),
    Thought(Seq<char>),
    Reasoning(Seq<char>),
    Heading(u8, Seq<char>),
    Bullet(Seq<char>, Seq<SegmentView>),
    Text(Seq<SegmentView>),
}

impl View for TranscriptLine {
    type V = LineView;

    open spec fn view(&self) -> LineView {
        match self {
            TranscriptLine::Marker(t) => LineView::Marker(t@),
            TranscriptLine::Blank => LineView::Blank,
            TranscriptLine::CodeHeader(t) => LineView::CodeHeader(t@),
            TranscriptLine::Code(t) => LineView::Code(t@),
            TranscriptLine::Prompt(t) => LineView::Prompt(t@),
            TranscriptLine::Thought(t) => LineView::Thought(t@),
            TranscriptLine::Reasoning(t) => LineView::Reasoning(t@),
            TranscriptLine::Heading(l, t) => LineView::Heading(*l, t@),
            TranscriptLine::Bullet(i, segs) => LineView::Bullet(i@, segment_views(segs@)),
            TranscriptLine::Text(segs) => LineView::Text(segment_views(segs@)),
        }
    }
}

fn copy_segments(v: &Vec<Segment>) -> (r: Vec<Segment>)
    ensures
        segment_views(r@) == segment_views(v@),
{
    let mut r: Vec<Segment> = Vec::new();
    let mut i: usize = 0;
    while i < v.len()
        invariant
            i <= v@.len(),
            segment_views(r@) == segment_views(v@).take(i as int),
        decreases v@.len() - i,
    {
        let s = Segment { kind: v[i].kind, text: v[i].text.clone() };
        let ghost before = segment_views(r@);
        r.push(s);
        assert(segment_views(r@) =~= before.push(s@));
        assert(segment_views(v@).take(i as int + 1) =~= segment_views(v@).take(i as int).push(v@[i as int]@));
        i = i + 1;
    }
    assert(segment_views(v@).take(v@.len() as int) =~= segment_views(v@));
    r
}

impl TranscriptLine {
    /// A line equal to this one.
    pub fn copied(&self) -> (r: TranscriptLine)
        ensures
            r@ == self@,
    {
        match self {
            TranscriptLine::Marker(t) => TranscriptLine::Marker(t.clone()),
            TranscriptLine::Blank => TranscriptLine::Blank,
            TranscriptLine::CodeHeader(t) => TranscriptLine::CodeHeader(t.clone()),
            TranscriptLine::Code(t) => TranscriptLine::Code(t.clone()),
            TranscriptLine::Prompt(t) => TranscriptLine::Prompt(t.clone()),
            TranscriptLine::Thought(t) => TranscriptLine::Thought(t.clone()),
            TranscriptLine::Reasoning(t) => TranscriptLine::Reasoning(t.clone()),
            TranscriptLine::Heading(l, t) => TranscriptLine::Heading(*l, t.clone()),
            TranscriptLine::Bullet(i, segs) => TranscriptLine::Bullet(i.clone(), copy_segments(segs)),
            TranscriptLine::Text(segs) => TranscriptLine::Text(copy_segments(segs)),
        }
    }
}

/// The lines as mathematical values.
pub open spec fn line_views(v: Seq<TranscriptLine>) -> Seq<LineView> {
    v.map_values(|l: TranscriptLine| l@)
}

/// Where the reading of the transcript stands between two lines.
pub struct LineState {
    /// Inside a code block.
    pub in_code: bool,
    /// The compaction marker has been read.
    pub marker_seen: bool,
    /// The open code block may be a fence left over from compaction, which a
    /// user prompt closes.
    pub orphan: bool,
}

/// Whether a line shows nothing: an empty line, empty reasoning, or text of
/// one empty segment.
pub open spec fn renders_empty(l: LineView) -> bool {
    match l {
        LineView::Blank => true,
        LineView::Reasoning(t) => t.len() == 0,
        LineView::Text(segs) => segs.len() == 1 && segs[0].text.len() == 0,
        _ => false,
    }
}

/// `s` without its leading backticks.
pub open spec fn drop_ticks(s: Seq<char>) -> Seq<char>
    decreases s.len(),
{
    if s.len() > 0 && s[0] == '`' {
        drop_ticks(s.drop_first())
    } else {
        s
    }
}

/// The language named on a fence line.
pub open spec fn fence_lang(line: Seq<char>) -> Seq<char> {
    trim(drop_ticks(trim_start(line)))
}

/// A user prompt may close a leftover fence when it starts the transcript or
/// follows an empty line, a fence line or the compaction marker.
pub open spec fn closes_orphan(ls: Seq<Seq<char>>, i: int) -> bool {
    i == 0 || trim(ls[i - 1]).len() == 0 || is_fence_line(ls[i - 1]) || ls[i - 1]
        == COMPACTION_MARKER@
}

/// `p` followed by what comes after `p` in `s`.
pub open spec fn reprefixed(p: Seq<char>, s: Seq<char>, q: Seq<char>) -> Seq<char> {
    p + s.skip(q.len() as int)
}

/// The text of a note of how long the model thought: a line that starts,
/// itself or after its indentation, with `"+ Thought for "`, `"- Thought for "`,
/// `"Thought for "` or `"💭 Thought for "` (the bubble dropped).
pub open spec fn thought_text(line: Seq<char>) -> Option<Seq<char>> {
    let ts = trim_start(line);
    let plus = "+ Thought for "@;
    let minus = "- Thought for "@;
    let plain = "Thought for "@;
    let bubble = "💭 Thought for "@;
    if starts_with(line, plus) {
        Some(reprefixed(plus, line, plus))
    } else if starts_with(ts, plus) {
        Some(reprefixed(plus, ts, plus))
    } else if starts_with(line, minus) {
        Some(reprefixed(minus, line, minus))
    } else if starts_with(ts, minus) {
        Some(reprefixed(minus, ts, minus))
    } else if starts_with(line, plain) {
        Some(reprefixed(plain, line, plain))
    } else if starts_with(line, bubble) {
        Some(reprefixed(plain, line, bubble))
    } else if starts_with(ts, plain) {
        Some(reprefixed(plain, ts, plain))
    } else if starts_with(ts, bubble) {
        Some(reprefixed(plain, ts, bubble))
    } else {
        None
    }
}

/// How a line of text outside code blocks that is neither empty nor a prompt
/// is shown: a thought, reasoning, a heading, a bullet (`"- "` or `"* "`, or
/// an indented `"* "`), or text.
pub open spec fn content_line(line: Seq<char>) -> LineView {
    let ts = trim_start(line);
    match thought_text(line) {
        Some(t) => LineView::Thought(t),
        None => if starts_with(line, "💭 "@) {
            LineView::Reasoning(line.skip("💭 "@.len() as int))
        } else if starts_with(line, "### "@) {
            LineView::Heading(3, line)
        } else if starts_with(line, "## "@) {
            LineView::Heading(2, line)
        } else if starts_with(line, "# "@) {
            LineView::Heading(1, line)
        } else if starts_with(line, "- "@) {
            LineView::Bullet(Seq::empty(), inline_segments(line.skip("- "@.len() as int)))
        } else if starts_with(line, "* "@) {
            LineView::Bullet(Seq::empty(), inline_segments(line.skip("* "@.len() as int)))
        } else if line.len() > 0 && (line[0] == ' ' || line[0] == '\t') && starts_with(ts, "* "@) {
            LineView::Bullet(
                line.take(line.len() - ts.len()),
                inline_segments(ts.skip("* "@.len() as int)),
            )
        } else {
            LineView::Text(inline_segments(line))
        },
    }
}

/// The lines shown for the lines `ls[i..]`, after `out` was shown for the
/// earlier ones and reading stands at `st`. The compaction marker shows
/// dimmed and ends any code block. A fence line opens a code block (showing
/// its language, if it names one) or closes one (showing an empty line). A
/// line inside a code block shows as code. An empty line shows as one empty
/// line, and not at the start nor after a line that shows nothing. A prompt
/// shows followed by an empty line. Other lines are [`content_line`]s.
pub open spec fn classify_from(ls: Seq<Seq<char>>, i: int, st: LineState, out: Seq<LineView>) -> Seq<LineView>
    decreases ls.len() - i,
{
    if i < 0 || i >= ls.len() {
        out
    } else {
        let line = ls[i];
        if line == COMPACTION_MARKER@ {
            classify_from(
                ls,
                i + 1,
                LineState { in_code: false, marker_seen: true, orphan: false },
                out.push(LineView::Marker(line)),
            )
        } else if is_fence_line(line) {
            if st.in_code {
                classify_from(
                    ls,
                    i + 1,
                    LineState { in_code: false, orphan: false, ..st },
                    out.push(LineView::Blank),
                )
            } else {
                let lang = fence_lang(line);
                let orphan = st.marker_seen && lang.len() == 0 && i > 0 && trim(ls[i - 1]).len() > 0;
                classify_from(
                    ls,
                    i + 1,
                    LineState { in_code: true, orphan, ..st },
                    if lang.len() > 0 {
                        out.push(LineView::CodeHeader(lang))
                    } else {
                        out
                    },
                )
            }
        } else {
            let st2 = if st.orphan && starts_with(line, "> "@) && closes_orphan(ls, i) {
                LineState { in_code: false, orphan: false, ..st }
            } else {
                st
            };
            if st2.in_code {
                classify_from(ls, i + 1, st2, out.push(LineView::Code(line)))
            } else if trim(line).len() == 0 {
                classify_from(
                    ls,
                    i + 1,
                    st2,
                    if out.len() > 0 && !renders_empty(out.last()) {
                        out.push(LineView::Blank)
                    } else {
                        out
                    },
                )
            } else if starts_with(line, "> "@) {
                classify_from(
                    ls,
                    i + 1,
                    st2,
                    out.push(LineView::Prompt(line.skip("> "@.len() as int))).push(LineView::Blank),
                )
            } else {
                classify_from(ls, i + 1, st2, out.push(content_line(line)))
            }
        }
    }
}

/// The lines shown for a transcript.
pub open spec fn transcript_lines(t: Seq<char>) -> Seq<LineView> {
    classify_from(
        lines(t),
        0,
        LineState { in_code: false, marker_seen: false, orphan: false },
        Seq::empty(),
    )
}

/// What follows `p` in `s`, when `s` starts with `p`.
fn after_prefix(s: &str, p: &str) -> (r: Option<String>)
    ensures
        match r {
            Some(t) => starts_with(s@, p@) && t@ == s@.skip(p@.len() as int),
            None => !starts_with(s@, p@),
        },
{
    if str_starts_with(s, p) {
        Some(without_prefix(s, p))
    } else {
        None
    }
}

/// `p` followed by `rest`.
fn joined(p: &str, rest: String) -> (r: String)
    ensures
        r@ == p@ + rest@,
{
    let mut r = p.to_owned();
    string_push_str(&mut r, rest.as_str());
    r
}

/// The text of a note of how long the model thought (see [`thought_text`]);
/// `ts` is `line` without its leading whitespace.
fn thought_of(line: &str, ts: &str) -> (r: Option<String>)
    requires
        ts@ == trim_start(line@),
    ensures
        match r {
            Some(t) => thought_text(line@) == Some(t@),
            None => thought_text(line@) is None,
        },
{
    let plus = "+ Thought for ";
    let minus = "- Thought for ";
    let plain = "Thought for ";
    let bubble = "💭 Thought for ";
    if let Some(rest) = after_prefix(line, plus) {
        return Some(joined(plus, rest));
    }
    if let Some(rest) = after_prefix(ts, plus) {
        return Some(joined(plus, rest));
    }
    if let Some(rest) = after_prefix(line, minus) {
        return Some(joined(minus, rest));
    }
    if let Some(rest) = after_prefix(ts, minus) {
        return Some(joined(minus, rest));
    }
    if let Some(rest) = after_prefix(line, plain) {
        return Some(joined(plain, rest));
    }
    if let Some(rest) = after_prefix(line, bubble) {
        return Some(joined(plain, rest));
    }
    if let Some(rest) = after_prefix(ts, plain) {
        return Some(joined(plain, rest));
    }
    if let Some(rest) = after_prefix(ts, bubble) {
        return Some(joined(plain, rest));
    }
    None
}

/// How a line of text is shown (see [`content_line`]); `v` holds its
/// characters and `v[a..]` is the line without its leading whitespace.
fn content_line_of(line: &str, v: &Vec<char>, a: usize, ts: &str) -> (r: TranscriptLine)
    requires
        v@ == line@,
        a <= v@.len(),
        ts@ == trim_start(line@),
        ts@ == v@.subrange(a as int, v@.len() as int),
    ensures
        r@ == content_line(line@),
{
    if let Some(t) = thought_of(line, ts) {
        return TranscriptLine::Thought(t);
    }
    if let Some(rest) = after_prefix(line, "💭 ") {
        return TranscriptLine::Reasoning(rest);
    }
    if str_starts_with(line, "### ") {
        return TranscriptLine::Heading(3, line.to_owned());
    }
    if str_starts_with(line, "## ") {
        return TranscriptLine::Heading(2, line.to_owned());
    }
    if str_starts_with(line, "# ") {
        return TranscriptLine::Heading(1, line.to_owned());
    }
    if let Some(rest) = after_prefix(line, "- ") {
        return TranscriptLine::Bullet(String::new(), format_inline_code(rest.as_str()));
    }
    if let Some(rest) = after_prefix(line, "* ") {
        return TranscriptLine::Bullet(String::new(), format_inline_code(rest.as_str()));
    }
    if v.len() > 0 && (v[0] == ' ' || v[0] == '\t') {
        if let Some(rest) = after_prefix(ts, "* ") {
            let indent = sub_vec(v, 0, a);
            proof {
                assert(indent@ =~= line@.take(line@.len() - ts@.len()));
            }
            return TranscriptLine::Bullet(string_from_chars(&indent), format_inline_code(rest.as_str()));
        }
    }
    TranscriptLine::Text(format_inline_code(line))
}

/// The language named on a fence line; `ts` holds the line without its
/// leading whitespace.
fn fence_lang_of(ts: &Vec<char>, line: &str) -> (r: String)
    requires
        ts@ == trim_start(line@),
    ensures
        r@ == fence_lang(line@),
{
    let mut j: usize = 0;
    assert(ts@.subrange(0, ts@.len() as int) =~= ts@);
    while j < ts.len() && ts[j] == '`'
        invariant
            j <= ts@.len(),
            drop_ticks(ts@.subrange(j as int, ts@.len() as int)) == drop_ticks(ts@),
        decreases ts@.len() - j,
    {
        assert(ts@.subrange(j as int, ts@.len() as int).drop_first() =~= ts@.subrange(
            j as int + 1,
            ts@.len() as int,
        ));
        j = j + 1;
    }
    assert(ts@.subrange(0, ts@.len() as int) =~= ts@);
    let (c, d) = trim_bounds(ts, j, ts.len());
    let lang = sub_vec(ts, c, d);
    string_from_chars(&lang)
}

/// How each line of the transcript is shown (see [`transcript_lines`]).
pub fn format_transcript_lines(transcript: &str) -> (out: Vec<TranscriptLine>)
    ensures
        line_views(out@) == transcript_lines(transcript@),
{
    let ls = split_lines(transcript);
    let ghost lv = string_views(ls@);
    let mut out: Vec<TranscriptLine> = Vec::new();
    let mut in_code = false;
    let mut marker_seen = false;
    let mut orphan = false;
    let mut prev_blank = false;
    let mut prev_fence = false;
    let mut prev_marker = false;
    let mut i: usize = 0;
    proof {
        reveal_strlit("```");
        assert("```"@ =~= fence_marker());
        assert(line_views(out@) =~= Seq::<LineView>::empty());
    }
    while i < ls.len()
        invariant
            i <= ls@.len(),
            lv == string_views(ls@),
            lv == lines(transcript@),
            "```"@ == fence_marker(),
            classify_from(lv, 0, LineState { in_code: false, marker_seen: false, orphan: false }, Seq::empty())
                == classify_from(
                lv,
                i as int,
                LineState { in_code, marker_seen, orphan },
                line_views(out@),
            ),
            i > 0 ==> prev_blank == (trim(lv[i - 1]).len() == 0),
            i > 0 ==> prev_fence == is_fence_line(lv[i - 1]),
            i > 0 ==> prev_marker == (lv[i - 1] == COMPACTION_MARKER@),
        decreases ls@.len() - i,
    {
        let line: &str = ls[i].as_str();
        let ghost before = line_views(out@);
        let v = chars_of(line);
        let (a, b) = trim_bounds(&v, 0, v.len());
        assert(v@.subrange(0, v@.len() as int) =~= v@);
        let ts_v = sub_vec(&v, a, v.len());
        let ts = string_from_chars(&ts_v);
        let is_marker = str_eq(line, COMPACTION_MARKER);
        let is_fence = str_starts_with(ts.as_str(), "```");
        let is_blank = a == b;
        assert(is_blank == (trim(line@).len() == 0));
        if is_marker {
            marker_seen = true;
            orphan = false;
            in_code = false;
            out.push(TranscriptLine::Marker(line.to_owned()));
            assert(line_views(out@) =~= before.push(LineView::Marker(line@)));
        } else if is_fence {
            if in_code {
                in_code = false;
                orphan = false;
                out.push(TranscriptLine::Blank);
                assert(line_views(out@) =~= before.push(LineView::Blank));
            } else {
                in_code = true;
                let lang = fence_lang_of(&ts_v, line);
                orphan = marker_seen && lang.as_str().is_empty() && i > 0 && !prev_blank;
                if !lang.as_str().is_empty() {
                    out.push(TranscriptLine::CodeHeader(lang));
                    assert(line_views(out@) =~= before.push(LineView::CodeHeader(fence_lang(line@))));
                }
            }
        } else {
            if orphan && str_starts_with(line, "> ") && (i == 0 || prev_blank || prev_fence
                || prev_marker) {
                in_code = false;
                orphan = false;
            }
            if in_code {
                out.push(TranscriptLine::Code(line.to_owned()));
                assert(line_views(out@) =~= before.push(LineView::Code(line@)));
            } else if is_blank {
                let n = out.len();
                let last_empty = n > 0 && match &out[n - 1] {
                    TranscriptLine::Blank => true,
                    TranscriptLine::Reasoning(t) => t.as_str().is_empty(),
                    TranscriptLine::Text(segs) => segs.len() == 1 && segs[0].text.as_str().is_empty(),
                    _ => false,
                };
                if n > 0 {
                    assert(out@[n - 1]@ == before.last());
                }
                if n > 0 && !last_empty {
                    out.push(TranscriptLine::Blank);
                    assert(line_views(out@) =~= before.push(LineView::Blank));
                }
            } else if let Some(prompt) = after_prefix(line, "> ") {
                out.push(TranscriptLine::Prompt(prompt));
                out.push(TranscriptLine::Blank);
                assert(line_views(out@) =~= before.push(
                    LineView::Prompt(line@.skip("> "@.len() as int)),
                ).push(LineView::Blank));
            } else {
                let shown = content_line_of(line, &v, a, ts.as_str());
                out.push(shown);
                assert(line_views(out@) =~= before.push(content_line(line@)));
            }
        }
        prev_blank = is_blank;
        prev_fence = is_fence;
        prev_marker = is_marker;
        i = i + 1;
    }
    out
}

// ---------------------------------------------------------------------------
// Sizes on screen
// ---------------------------------------------------------------------------

/// The width of the cards that code and prompts are drawn on: two cells less
/// than the area, when its width is known, else the widest line of the
/// transcript; at least 20.
pub open spec fn card_width_for(width: Option<u16>, transcript_width: nat) -> nat {
    let w: nat = match width {
        Some(w) => if w >= 2 {
            (w - 2) as nat
        } else {
            0
        },
        None => transcript_width,
    };
    if w >= 20 {
        w
    } else {
        20
    }
}

/// The width of the cards (see [`card_width_for`]).
pub fn card_width(width: Option<u16>, transcript_width: usize) -> (r: usize)
    ensures
        r == card_width_for(width, transcript_width as nat),
{
    let w: usize = match width {
        Some(w) => (w as usize).saturating_sub(2),
        None => transcript_width,
    };
    if w >= 20 {
        w
    } else {
        20
    }
}

/// `a + b`, or the largest `usize` when that does not fit.
pub open spec fn sat_add(a: nat, b: nat) -> nat {
    if a + b > usize::MAX {
        usize::MAX as nat
    } else {
        a + b
    }
}

/// The screen rows a line `w` cells wide takes in an area `width` cells
/// wide: one for an empty line, else the cells divided by the width, rounded
/// up (the cells counted up to the largest `usize`).
pub open spec fn rows_for(w: nat, width: nat) -> nat
    recommends
        width > 0,
{
    if w == 0 {
        1
    } else {
        sat_add(w, (width - 1) as nat) / width
    }
}

/// The screen rows the first `n` lines of widths `ws` take, summed up to the
/// largest `usize`.
pub open spec fn wrapped_rows(ws: Seq<usize>, width: nat, n: int) -> nat
    decreases n,
{
    if n <= 0 || n > ws.len() {
        0
    } else {
        sat_add(wrapped_rows(ws, width, n - 1), rows_for(ws[n - 1] as nat, width))
    }
}

/// The screen rows that lines of widths `widths` take once wrapped to
/// `width` cells; with no width, one row a line.
pub fn visual_line_count(widths: &[usize], width: u16) -> (r: usize)
    ensures
        width == 0 ==> r == widths@.len(),
        width > 0 ==> r == wrapped_rows(widths@, width as nat, widths@.len() as int),
{
    if width == 0 {
        return widths.len();
    }
    let mut count: usize = 0;
    let mut i: usize = 0;
    while i < widths.len()
        invariant
            width > 0,
            i <= widths@.len(),
            count == wrapped_rows(widths@, width as nat, i as int),
        decreases widths@.len() - i,
    {
        let w = widths[i];
        let rows = if w == 0 {
            1
        } else {
            w.saturating_add(width as usize - 1) / width as usize
        };
        count = count.saturating_add(rows);
        i = i + 1;
    }
    count
}

/// Whether a line of the reply is indented under the prompt: not when it is
/// empty, starts a prompt card (`"▌"`), is drawn on a background, or is
/// indented already (its first piece starts with three spaces).
pub open spec fn indents_reply_line(first: Option<Seq<char>>, has_background: bool) -> bool {
    match first {
        None => false,
        Some(f) => !(f == "▌"@ || f == "▌ "@) && !has_background && !starts_with(f, "   "@),
    }
}

/// Whether a line of the reply gets indented (see [`indents_reply_line`]);
/// `first` is the text of its first piece, if it has any.
pub fn needs_reply_indent(first: Option<&str>, has_background: bool) -> (b: bool)
    ensures
        b == indents_reply_line(
            match first {
                Some(f) => Some(f@),
                None => None,
            },
            has_background,
        ),
{
    match first {
        None => false,
        Some(f) => !(str_eq(f, "▌") || str_eq(f, "▌ ")) && !has_background && !str_starts_with(
            f,
            "   ",
        ),
    }
}


/// Whether the typing cursor goes on a line of its own after the last line
/// drawn (given as the texts of its pieces): when nothing is drawn, when the
/// last line is blank, or when it is a prompt or card line (starting `▌`,
/// `▌ ` or `┃ `); otherwise it follows the last line's text.
pub open spec fn cursor_on_own_line(last: Option<Seq<Seq<char>>>) -> bool {
    match last {
        None => true,
        Some(pieces) => pieces.len() == 0 || (forall|i: int| 0 <= i < pieces.len() ==> #[trigger] trim(pieces[i]).len()
            == 0) || pieces[0] == "▌"@ || pieces[0] == "▌ "@ || pieces[0] == "┃ "@,
    }
}

/// Whether the typing cursor goes on a line of its own (see
/// [`cursor_on_own_line`]).
pub fn typing_cursor_on_own_line(last: Option<&[String]>) -> (r: bool)
    ensures
        r == cursor_on_own_line(
            match last {
                Some(p) => Some(p@.map_values(|s: String| s@)),
                None => None,
            },
        ),
{
    match last {
        None => true,
        Some(pieces) => {
            let ghost v = pieces@.map_values(|s: String| s@);
            if pieces.len() == 0 {
                return true;
            }
            let mut blank = true;
            let mut i: usize = 0;
            while i < pieces.len()
                invariant
                    i <= pieces@.len(),
                    v == pieces@.map_values(|s: String| s@),
                    blank == forall|j: int| 0 <= j < i ==> #[trigger] trim(v[j]).len() == 0,
                decreases pieces@.len() - i,
            {
                let t = trim_str_len(pieces[i].as_str());
                assert(v[i as int] == pieces@[i as int]@);
                assert(t == trim(v[i as int]).len());
                if t != 0 {
                    blank = false;
                }
                i = i + 1;
            }
            let first = pieces[0].as_str();
            blank || str_eq(first, "▌") || str_eq(first, "▌ ") || str_eq(first, "┃ ")
        },
    }
}

/// The number of characters of `s` once trimmed.
fn trim_str_len(s: &str) -> (n: usize)
    ensures
        n == trim(s@).len(),
{
    let v = chars_of(s);
    let (a, b) = trim_bounds(&v, 0, v.len());
    proof {
        assert(v@.subrange(0, v@.len() as int) =~= v@);
    }
    b - a
}

} // verus!
