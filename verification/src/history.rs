//! A session's view rebuilt from its stored messages: user and assistant
//! messages go back into the transcript and the reply parts, tool messages
//! become completed tool rows.
use vstd::prelude::*;

use crate::lines::trimmed;
use crate::numfmt::{i64_to_decimal, signed_decimal};
use crate::search::{str_eq, str_starts_with};
use crate::stream::{has_tool, has_tool_part, parts_view, PartView, StreamPart};
use crate::strings::{string_push, string_push_str};
use crate::text::{chars_of, starts_with, trim};

verus! {

broadcast use vstd::string::group_string_axioms;

/// A message as the session store keeps it.
#[derive(Debug, Clone, PartialEq, Eq)]
pub struct StoredMessage {
    pub id: i64,
    pub role: String,
    pub content: String,
}

/// A completed tool row to restore from a tool message.
#[derive(Debug, Clone, PartialEq, Eq)]
pub struct RestoredToolRow {
    /// `msg-<id>`.
    pub call_id: String,
    /// `update_plan` for a plan update, else `tool`.
    pub tool_name: String,
    pub output: String,
}

/// `t` set off for a new paragraph: an unfinished line is ended and an
/// empty line added, unless `t` is empty or already ends with one.
pub open spec fn paragraph_break(t: Seq<char>) -> Seq<char> {
    if t.len() == 0 || (t.len() >= 2 && t[t.len() - 2] == '\n' && t.last() == '\n') {
        t
    } else if t.last() == '\n' {
        t.push('\n')
    } else {
        t + "\n\n"@
    }
}

/// The call id a tool message is restored under.
pub open spec fn restored_call_id(id: i64) -> Seq<char> {
    "msg-"@ + signed_decimal(id as int)
}

/// What restoring message `m` does: a user message is added as `> text`
/// and an assistant message as its text, each a paragraph of its own and a
/// reply part; a tool message with text gives a tool row (and its part, once);
/// the text is trimmed; anything else changes nothing.
pub open spec fn restore_ok(
    m: StoredMessage,
    t0: Seq<char>,
    p0: Seq<PartView>,
    t1: Seq<char>,
    p1: Seq<PartView>,
    r: Option<RestoredToolRow>,
) -> bool {
    let c = trim(m.content@);
    if m.role@ == "user"@ {
        t1 == paragraph_break(t0) + "> "@ + c + "\n\n"@ && p1 == p0.push(PartView::User(c)) && r is None
    } else if m.role@ == "assistant"@ {
        t1 == paragraph_break(t0) + c + "\n\n"@ && p1 == p0.push(PartView::Text(c)) && r is None
    } else if m.role@ == "tool"@ && c.len() > 0 {
        let id = restored_call_id(m.id);
        &&& t1 == t0
        &&& r matches Some(row) && row.call_id@ == id && row.output@ == c && row.tool_name@ == if starts_with(
            c,
            "Plan updated:"@,
        ) {
            "update_plan"@
        } else {
            "tool"@
        }
        &&& p1 == if has_tool(p0, id) {
            p0
        } else {
            p0.push(PartView::Tool(id))
        }
    } else {
        t1 == t0 && p1 == p0 && r is None
    }
}

/// Ends the transcript's paragraph (see [`paragraph_break`]).
pub(crate) fn break_paragraph(transcript: &mut String)
    ensures
        final(transcript)@ == paragraph_break(old(transcript)@),
{
    let v = chars_of(transcript.as_str());
    let n = v.len();
    if n == 0 {
        return;
    }
    if n >= 2 && v[n - 2] == '\n' && v[n - 1] == '\n' {
        return;
    }
    if v[n - 1] == '\n' {
        string_push(transcript, '\n');
    } else {
        string_push_str(transcript, "\n\n");
    }
}

/// Restores one stored message (see [`restore_ok`]).
pub fn restore_message(transcript: &mut String, parts: &mut Vec<StreamPart>, msg: &StoredMessage) -> (r: Option<
    RestoredToolRow,
>)
    ensures
        restore_ok(*msg, old(transcript)@, parts_view(old(parts)@), final(transcript)@, parts_view(final(parts)@), r),
{
    let c = trimmed(msg.content.as_str());
    let ghost p0 = parts@;
    if str_eq(msg.role.as_str(), "user") {
        break_paragraph(transcript);
        string_push_str(transcript, "> ");
        string_push_str(transcript, c.as_str());
        string_push_str(transcript, "\n\n");
        parts.push(StreamPart::User(c));
        proof {
            assert(parts_view(parts@) =~= parts_view(p0).push(PartView::User(trim(msg.content@))));
        }
        None
    } else if str_eq(msg.role.as_str(), "assistant") {
        break_paragraph(transcript);
        string_push_str(transcript, c.as_str());
        string_push_str(transcript, "\n\n");
        parts.push(StreamPart::Text(c));
        proof {
            assert(parts_view(parts@) =~= parts_view(p0).push(PartView::Text(trim(msg.content@))));
        }
        None
    } else if str_eq(msg.role.as_str(), "tool") && !c.as_str().is_empty() {
        let mut call_id = "msg-".to_owned();
        let digits = i64_to_decimal(msg.id);
        string_push_str(&mut call_id, digits.as_str());
        let tool_name = if str_starts_with(c.as_str(), "Plan updated:") {
            "update_plan".to_owned()
        } else {
            "tool".to_owned()
        };
        if !has_tool_part(parts, call_id.as_str()) {
            parts.push(StreamPart::Tool(call_id.clone()));
            proof {
                assert(parts_view(parts@) =~= parts_view(p0).push(PartView::Tool(call_id@)));
            }
        }
        Some(RestoredToolRow { call_id, tool_name, output: c })
    } else {
        None
    }
}

} // verus!
