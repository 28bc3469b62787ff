//! What the interface makes of one event from the runtime: whether it
//! belongs to the session and generation on screen, what it changes in the
//! state of the conversation, and what its payload asks the view to do.
use vstd::prelude::*;

use crate::commands::{finish_reason_of, parse_finish_reason, ConversationMode, ConversationStatus, FinishReason};
use crate::tool_rows::MAX_IDENTITY_BYTES;
use crate::json::{get, get2, json_get, json_get2, json_str, opt_as_str, opt_deref, opt_str, opt_view, parse_json, parsed_json, take_member, JsonValue};
use crate::lines::trimmed;
use crate::numfmt::{i64_to_decimal, signed_decimal};
use crate::search::str_eq;
use crate::strings::string_push_str;
use crate::text::{bounded, bounded_text, trim};
use std::collections::HashSet;

verus! {

broadcast use {vstd::string::group_string_axioms, vstd::std_specs::hash::group_hash_axioms};

/// Most bytes of an error message kept as the diagnostic.
pub const MAX_DIAGNOSTIC_BYTES: usize = 4096;

/// One event from the runtime, as plain values.
#[derive(Debug, Clone, PartialEq, Eq)]
pub struct RuntimeEventView {
    pub session_id: i64,
    /// Its place in the session's event log; 0 for events outside the log.
    pub seq: i64,
    pub generation_id: Option<i64>,
    pub kind: String,
    pub payload_json: String,
}

/// The state of the conversation that runtime events act on.
#[derive(Debug)]
pub struct ConversationView {
    pub active_session_id: Option<i64>,
    /// The last event of the log already taken in.
    pub loaded_until_seq: i64,
    pub status: ConversationStatus,
    pub active_generation_id: Option<i64>,
    /// Generations that were cancelled: their events are dropped.
    pub ignored_generation_ids: HashSet<i64>,
    pub pending_finish_reason: Option<FinishReason>,
    pub text_stream_active: bool,
    pub reasoning_active: bool,
    pub diagnostic: String,
}

/// A [`ConversationView`] as a mathematical value.
pub struct ConversationModel {
    pub active_session_id: Option<i64>,
    pub loaded_until_seq: i64,
    pub status: ConversationStatus,
    pub active_generation_id: Option<i64>,
    pub ignored_generation_ids: Set<i64>,
    pub pending_finish_reason: Option<FinishReason>,
    pub text_stream_active: bool,
    pub reasoning_active: bool,
    pub diagnostic: Seq<char>,
}

impl View for ConversationView {
    type V = ConversationModel;

    open spec fn view(&self) -> ConversationModel {
        ConversationModel {
            active_session_id: self.active_session_id,
            loaded_until_seq: self.loaded_until_seq,
            status: self.status,
            active_generation_id: self.active_generation_id,
            ignored_generation_ids: self.ignored_generation_ids@,
            pending_finish_reason: self.pending_finish_reason,
            text_stream_active: self.text_stream_active,
            reasoning_active: self.reasoning_active,
            diagnostic: self.diagnostic@,
        }
    }
}

/// A tool call as a `tool_executing` or `tool_executed` event reports it.
#[derive(Debug, PartialEq, Eq)]
pub struct ToolReport {
    /// The call id: the payload's `id`, else one made from the tool's name
    /// and the event's place in the log.
    pub call_id: String,
    /// The payload's `id` as sent (empty when there is none).
    pub sent_id: String,
    /// The tool's name (`"tool"` when there is none).
    pub name: String,
    pub arguments: Option<JsonValue>,
    pub metadata: Option<JsonValue>,
    /// Whether the call succeeded: `success` is `true` and an `output` is
    /// there.
    pub success: bool,
    /// The text output (empty when there is none).
    pub output: String,
}

/// A tool call as a `tool_call_settled` event reports it.
#[derive(Debug, PartialEq, Eq)]
pub struct Settlement {
    pub call_id: String,
    pub tool_name: String,
    /// The status is `"completed"`.
    pub success: bool,
    /// The `result`, else the `error`, else nothing.
    pub output: String,
    pub arguments: Option<JsonValue>,
}

/// What the view does with an event once the conversation state took it in.
#[derive(Debug, PartialEq, Eq)]
pub enum RuntimeStep {
    /// The event is not for the session or generation on screen, or was
    /// seen already.
    Ignored,
    /// A generation started: the streamed reply starts at the transcript's
    /// end and the reasoning so far is dropped.
    GenerationStarted,
    /// The state took the event in; the view has nothing more to do.
    Noted,
    /// Reasoning text streamed in.
    ReasoningDelta(String),
    /// A tool call started (when the payload could be read): its id, name
    /// and metadata. The reasoning time is recorded either way.
    ToolCallStarted(Option<(String, String, Option<JsonValue>)>),
    /// More argument text of a call (when the payload could be read): its id
    /// and the text.
    ToolCallDelta(Option<(String, String)>),
    /// The arguments of a call are complete (when the payload names the
    /// call): its id and metadata.
    ToolCallEnded(Option<(String, Option<JsonValue>)>),
    /// Reply text streamed in (when the payload had any); the reasoning is
    /// closed either way.
    TextDelta(Option<String>),
    /// A tool started to run (when the payload could be read).
    ToolExecuting(Option<ToolReport>),
    /// A tool finished (when the payload could be read).
    ToolExecuted(Option<ToolReport>),
    /// The generation ended; the status it ends in, when the payload gives
    /// one. Unfinished calls fail.
    GenerationFinished(Option<ConversationStatus>),
    /// The runtime reported an error; unfinished calls fail.
    RuntimeError,
    /// The assistant's full message, trimmed, when it is not empty.
    AssistantMessage(Option<String>),
    /// A tool call settled (when the payload could be read).
    ToolCallSettled(Option<Settlement>),
}

// ---------------------------------------------------------------------------
// The specification
// ---------------------------------------------------------------------------

/// The text of member `key` of the payload, when it is a string.
pub open spec fn payload_str(p: Option<JsonValue>, key: Seq<char>) -> Option<Seq<char>> {
    match p {
        Some(v) => opt_str(json_get(v, key)),
        None => None,
    }
}

/// `o`, or `d` when it is `None`.
pub open spec fn or_text(o: Option<Seq<char>>, d: Seq<char>) -> Seq<char> {
    match o {
        Some(t) => t,
        None => d,
    }
}

/// The event belongs to the session on screen (any session when none is).
pub open spec fn for_session(s: ConversationModel, e: RuntimeEventView) -> bool {
    match s.active_session_id {
        Some(id) => e.session_id == id,
        None => true,
    }
}

/// The event was taken in already: it has a place in the log no later than
/// the last one taken in.
pub open spec fn seen_already(s: ConversationModel, e: RuntimeEventView) -> bool {
    e.seq > 0 && e.seq <= s.loaded_until_seq
}

/// The state once the event's place in the log is recorded.
pub open spec fn after_seq(s: ConversationModel, e: RuntimeEventView) -> ConversationModel {
    if e.seq > 0 {
        ConversationModel { loaded_until_seq: e.seq, ..s }
    } else {
        s
    }
}

/// The event belongs to a cancelled generation.
pub open spec fn from_ignored(s: ConversationModel, e: RuntimeEventView) -> bool {
    match e.generation_id {
        Some(g) => s.ignored_generation_ids.contains(g),
        None => false,
    }
}

/// Whether a generation start is dropped: the conversation is not waiting
/// for one, the generation was cancelled, or another one is running.
pub open spec fn start_dropped(s: ConversationModel, e: RuntimeEventView) -> bool {
    match e.generation_id {
        None => true,
        Some(g) => s.status != ConversationStatus::Active || s.ignored_generation_ids.contains(g)
            || s.active_generation_id is Some,
    }
}

/// Whether any other event is dropped: it belongs to a cancelled generation
/// (unless it is that generation's end as cancelled), or, not being about
/// prompts of the session, it belongs to another generation than the one
/// running.
pub open spec fn event_dropped(s: ConversationModel, e: RuntimeEventView, p: Option<JsonValue>) -> bool {
    let ignored = from_ignored(s, e);
    let cancel_end = ignored && e.kind@ == "generation_finished"@ && payload_str(p, "status"@)
        == Some("cancelled"@);
    let session_event = e.kind@ == "prompt_admitted"@ || e.kind@ == "prompt_promoted"@;
    (ignored && !cancel_end) || (!session_event && match s.active_generation_id {
        Some(a) => e.generation_id != Some(a),
        None => false,
    })
}

/// A call id made from a prefix, a tool's name and the event's place.
pub open spec fn made_id(prefix: Seq<char>, name: Seq<char>, seq: i64) -> Seq<char> {
    prefix + name + ":"@ + signed_decimal(seq as int)
}

/// The tool name of a payload (`"tool"` when there is none).
pub open spec fn payload_name(p: Option<JsonValue>) -> Seq<char> {
    or_text(payload_str(p, "name"@), "tool"@)
}

/// The member `key` of a payload.
pub open spec fn payload_get(p: Option<JsonValue>, key: Seq<char>) -> Option<JsonValue> {
    match p {
        Some(v) => json_get(v, key),
        None => None,
    }
}

/// A payload's `success` is `true`.
pub open spec fn payload_true(p: Option<JsonValue>, key: Seq<char>) -> bool {
    payload_get(p, key) == Some(JsonValue::Bool(true))
}

/// What a `tool_executing` or `tool_executed` payload reports.
pub open spec fn tool_report(r: ToolReport, p: Option<JsonValue>, e: RuntimeEventView) -> bool {
    let name = payload_name(p);
    &&& r.name@ == name
    &&& r.sent_id@ == or_text(payload_str(p, "id"@), Seq::empty())
    &&& r.call_id@ == or_text(payload_str(p, "id"@), made_id("inline:"@, name, e.seq))
    &&& r.arguments == payload_get(p, "arguments"@)
    &&& r.metadata == payload_get(p, "metadata"@)
    &&& r.success == (payload_true(p, "success"@) && payload_get(p, "output"@) is Some)
    &&& r.output@ == or_text(payload_str(p, "output"@), Seq::empty())
}

/// What a `tool_call_settled` payload reports.
pub open spec fn settlement(r: Settlement, p: Option<JsonValue>) -> bool {
    &&& r.call_id@ == or_text(payload_str(p, "call_id"@), Seq::empty())
    &&& r.tool_name@ == or_text(payload_str(p, "tool_name"@), "tool"@)
    &&& r.success == (or_text(payload_str(p, "status"@), Seq::empty()) == "completed"@)
    &&& r.output@ == match payload_str(p, "result"@) {
        Some(t) => t,
        None => or_text(payload_str(p, "error"@), Seq::empty()),
    }
    &&& r.arguments == payload_get(p, "arguments"@)
}

/// The status a finished generation ends in: cancelled, failed, or finished
/// for the reason given (else the reason noted before, else `Stop`).
pub open spec fn finished_status(status: Seq<char>, reason: Option<FinishReason>) -> ConversationStatus {
    if status == "cancelled"@ {
        ConversationStatus::Cancelled
    } else if status == "failed"@ {
        ConversationStatus::Error
    } else {
        ConversationStatus::Finished(
            match reason {
                Some(r) => r,
                None => FinishReason::Stop,
            },
        )
    }
}

/// The finish reason a payload gives, when it names one that is known.
pub open spec fn payload_reason(p: Option<JsonValue>, key: Seq<char>) -> Option<FinishReason> {
    match payload_str(p, key) {
        Some(r) => finish_reason_of(r),
        None => None,
    }
}

/// What an admitted event of each kind does, from state `s` (its place in
/// the log already recorded) with payload `p`: the new state `t` and what
/// the view does `r`.
pub open spec fn kind_step(
    s: ConversationModel,
    e: RuntimeEventView,
    p: Option<JsonValue>,
    t: ConversationModel,
    r: RuntimeStep,
) -> bool {
    let k = e.kind@;
    if k == "generation_started"@ {
        t == ConversationModel { active_generation_id: e.generation_id, ..s } && r
            == RuntimeStep::GenerationStarted
    } else if k == "finish"@ {
        &&& t == match payload_str(p, "reason"@) {
            Some(reason) => ConversationModel {
                pending_finish_reason: finish_reason_of(reason),
                ..s
            },
            None => s,
        }
        &&& r == RuntimeStep::Noted
    } else if k == "reasoning_delta"@ {
        match payload_str(p, "delta"@) {
            Some(d) => t == ConversationModel { reasoning_active: true, ..s } && (r matches RuntimeStep::ReasoningDelta(x) && x@ == d),
            None => t == s && r == RuntimeStep::Noted,
        }
    } else if k == "tool_call_start"@ {
        &&& t == ConversationModel { text_stream_active: false, reasoning_active: false, ..s }
        &&& r matches RuntimeStep::ToolCallStarted(o) && match p {
            Some(v) => o matches Some((id, name, meta)) && name@ == payload_name(p) && id@
                == or_text(payload_str(p, "id"@), made_id(Seq::empty(), payload_name(p), e.seq))
                && meta == json_get(v, "metadata"@),
            None => o is None,
        }
    } else if k == "tool_call_delta"@ {
        &&& t == s
        &&& r matches RuntimeStep::ToolCallDelta(o) && match p {
            Some(_) => o matches Some((id, d)) && id@ == or_text(payload_str(p, "id"@), Seq::empty())
                && d@ == or_text(payload_str(p, "arguments"@), Seq::empty()),
            None => o is None,
        }
    } else if k == "tool_call_end"@ {
        &&& t == s
        &&& r matches RuntimeStep::ToolCallEnded(o) && match payload_str(p, "id"@) {
            Some(id) => o matches Some((i, meta)) && i@ == id && meta == payload_get(p, "metadata"@),
            None => o is None,
        }
    } else if k == "text_delta"@ {
        match payload_str(p, "delta"@) {
            Some(d) => t == ConversationModel {
                reasoning_active: false,
                text_stream_active: true,
                ..s
            } && (r matches RuntimeStep::TextDelta(Some(x)) && x@ == d),
            None => t == ConversationModel { reasoning_active: false, ..s } && r
                == RuntimeStep::TextDelta(None),
        }
    } else if k == "tool_executing"@ {
        &&& t == ConversationModel { text_stream_active: false, reasoning_active: false, ..s }
        &&& r matches RuntimeStep::ToolExecuting(o) && match p {
            Some(_) => o matches Some(rep) && tool_report(rep, p, e),
            None => o is None,
        }
    } else if k == "tool_executed"@ {
        &&& t == s
        &&& r matches RuntimeStep::ToolExecuted(o) && match p {
            Some(_) => o matches Some(rep) && tool_report(rep, p, e),
            None => o is None,
        }
    } else if k == "generation_finished"@ {
        let ended = ConversationModel { active_generation_id: None, ..s };
        match payload_str(p, "status"@) {
            Some(st) => {
                let given = payload_reason(p, "finish_reason"@);
                let reason = match given {
                    Some(x) => Some(x),
                    None => s.pending_finish_reason,
                };
                &&& t == ConversationModel {
                    text_stream_active: false,
                    pending_finish_reason: if given is Some {
                        s.pending_finish_reason
                    } else {
                        None
                    },
                    ..ended
                }
                &&& r == RuntimeStep::GenerationFinished(Some(finished_status(st, reason)))
            },
            None => t == ended && r == RuntimeStep::GenerationFinished(None),
        }
    } else if k == "error"@ {
        let quiet = ConversationModel { text_stream_active: false, ..s };
        &&& t == match payload_str(p, "message"@) {
            Some(m) => ConversationModel {
                diagnostic: bounded_text(m, MAX_DIAGNOSTIC_BYTES as int),
                status: ConversationStatus::Error,
                ..quiet
            },
            None => quiet,
        }
        &&& r == RuntimeStep::RuntimeError
    } else if k == "assistant_message"@ {
        &&& t == s
        &&& r matches RuntimeStep::AssistantMessage(o) && match payload_str(p, "content"@) {
            Some(c) if trim(c).len() > 0 => o matches Some(x) && x@ == trim(c),
            _ => o is None,
        }
    } else if k == "tool_call_settled"@ {
        &&& t == s
        &&& r matches RuntimeStep::ToolCallSettled(o) && match p {
            Some(_) => o matches Some(st) && settlement(st, p),
            None => o is None,
        }
    } else {
        t == s && r == RuntimeStep::Noted
    }
}

/// What an event does, with its payload read as `p`: an event of another
/// session, or seen already, is dropped with nothing changed; otherwise its
/// place in the log is recorded, and then it is dropped (see
/// [`start_dropped`] and [`event_dropped`]) or does what its kind does (see
/// [`kind_step`]).
pub open spec fn runtime_step(
    s: ConversationModel,
    e: RuntimeEventView,
    p: Option<JsonValue>,
    t: ConversationModel,
    r: RuntimeStep,
) -> bool {
    if !for_session(s, e) || seen_already(s, e) {
        t == s && r == RuntimeStep::Ignored
    } else {
        let s1 = after_seq(s, e);
        let dropped = if e.kind@ == "generation_started"@ {
            start_dropped(s1, e)
        } else {
            event_dropped(s1, e, p)
        };
        if dropped {
            t == s1 && r == RuntimeStep::Ignored
        } else {
            kind_step(s1, e, p, t, r)
        }
    }
}

// ---------------------------------------------------------------------------
// The step
// ---------------------------------------------------------------------------

/// The text of member `key` of the payload, when it is a string.
fn payload_text<'a>(p: &'a Option<JsonValue>, key: &str) -> (r: Option<&'a str>)
    ensures
        opt_view(r) == payload_str(*p, key@),
{
    match p {
        Some(v) => opt_as_str(get(v, key)),
        None => None,
    }
}

/// `o` as an owned text, or `d` when it is `None`.
fn text_or_default(o: Option<&str>, d: &str) -> (r: String)
    ensures
        r@ == or_text(opt_view(o), d@),
{
    match o {
        Some(t) => t.to_owned(),
        None => d.to_owned(),
    }
}

/// `prefix`, `name`, `":"` and the digits of `seq`.
fn make_id(prefix: &str, name: &str, seq: i64) -> (r: String)
    ensures
        r@ == made_id(prefix@, name@, seq),
{
    let mut s = prefix.to_owned();
    string_push_str(&mut s, name);
    string_push_str(&mut s, ":");
    let digits = i64_to_decimal(seq);
    string_push_str(&mut s, digits.as_str());
    s
}

/// Whether `ids` holds `g`.
fn holds(ids: &HashSet<i64>, g: i64) -> (b: bool)
    ensures
        b == ids@.contains(g),
{
    ids.contains(&g)
}

/// The member `key` of the payload, taken out of it.
fn take_payload(p: &mut Option<JsonValue>, key: &str) -> (r: Option<JsonValue>)
    ensures
        r == payload_get(*old(p), key@),
        forall|k: Seq<char>| k != key@ ==> #[trigger] payload_get(*final(p), k) == payload_get(*old(p), k),
        (*final(p) is Some) == (*old(p) is Some),
{
    match p {
        Some(v) => take_member(v, key),
        None => None,
    }
}

/// What a `tool_executing` or `tool_executed` payload reports (see
/// [`tool_report`]).
fn read_tool_report(payload: Option<JsonValue>, event: &RuntimeEventView) -> (r: Option<ToolReport>)
    ensures
        match payload {
            Some(_) => r matches Some(rep) && tool_report(rep, payload, *event),
            None => r is None,
        },
{
    if payload.is_none() {
        return None;
    }
    proof {
        reveal_strlit("");
        assert(""@ =~= Seq::<char>::empty());
    }
    let name = text_or_default(payload_text(&payload, "name"), "tool");
    let sent = payload_text(&payload, "id");
    let sent_id = text_or_default(sent, "");
    let call_id = match sent {
        Some(id) => id.to_owned(),
        None => make_id("inline:", name.as_str(), event.seq),
    };
    let success = match &payload {
        Some(v) => match get(v, "success") {
            Some(JsonValue::Bool(b)) => *b && get(v, "output").is_some(),
            _ => false,
        },
        None => false,
    };
    let output = text_or_default(payload_text(&payload, "output"), "");
    let ghost orig = payload;
    let mut rest = payload;
    let arguments = take_payload(&mut rest, "arguments");
    proof {
        reveal_strlit("arguments");
        reveal_strlit("metadata");
        assert("metadata"@ != "arguments"@) by {
            assert("metadata"@[0] != "arguments"@[0]);
        }
    }
    let metadata = take_payload(&mut rest, "metadata");
    Some(ToolReport { call_id, sent_id, name, arguments, metadata, success, output })
}

/// What a `tool_call_settled` payload reports (see [`settlement`]).
fn read_settlement(payload: Option<JsonValue>) -> (r: Option<Settlement>)
    ensures
        match payload {
            Some(_) => r matches Some(st) && settlement(st, payload),
            None => r is None,
        },
{
    if payload.is_none() {
        return None;
    }
    proof {
        reveal_strlit("");
        assert(""@ =~= Seq::<char>::empty());
    }
    let call_id = text_or_default(payload_text(&payload, "call_id"), "");
    let tool_name = text_or_default(payload_text(&payload, "tool_name"), "tool");
    let status = text_or_default(payload_text(&payload, "status"), "");
    let success = str_eq(status.as_str(), "completed");
    let output = match payload_text(&payload, "result") {
        Some(t) => t.to_owned(),
        None => text_or_default(payload_text(&payload, "error"), ""),
    };
    let mut rest = payload;
    let arguments = take_payload(&mut rest, "arguments");
    Some(Settlement { call_id, tool_name, success, output, arguments })
}

/// What an admitted event of each kind does (see [`kind_step`]).
fn apply_kind(state: &mut ConversationView, event: &RuntimeEventView, payload: Option<JsonValue>) -> (r: RuntimeStep)
    ensures
        kind_step(old(state)@, *event, payload, final(state)@, r),
{
    let kind = event.kind.as_str();
    if str_eq(kind, "generation_started") {
        state.active_generation_id = event.generation_id;
        return RuntimeStep::GenerationStarted;
    }
    if str_eq(kind, "finish") {
        if let Some(reason) = payload_text(&payload, "reason") {
            state.pending_finish_reason = parse_finish_reason(reason);
        }
        return RuntimeStep::Noted;
    }
    if str_eq(kind, "reasoning_delta") {
        return match payload_text(&payload, "delta") {
            Some(d) => {
                state.reasoning_active = true;
                RuntimeStep::ReasoningDelta(d.to_owned())
            },
            None => RuntimeStep::Noted,
        };
    }
    if str_eq(kind, "tool_call_start") {
        state.text_stream_active = false;
        state.reasoning_active = false;
        if payload.is_none() {
            return RuntimeStep::ToolCallStarted(None);
        }
        let name = text_or_default(payload_text(&payload, "name"), "tool");
        let call_id = match payload_text(&payload, "id") {
            Some(id) => id.to_owned(),
            None => make_id("", name.as_str(), event.seq),
        };
        proof {
            reveal_strlit("");
            assert(""@ =~= Seq::<char>::empty());
        }
        let mut rest = payload;
        let metadata = take_payload(&mut rest, "metadata");
        return RuntimeStep::ToolCallStarted(Some((call_id, name, metadata)));
    }
    if str_eq(kind, "tool_call_delta") {
        if payload.is_none() {
            return RuntimeStep::ToolCallDelta(None);
        }
        let id = text_or_default(payload_text(&payload, "id"), "");
        let delta = text_or_default(payload_text(&payload, "arguments"), "");
        proof {
            reveal_strlit("");
            assert(""@ =~= Seq::<char>::empty());
        }
        return RuntimeStep::ToolCallDelta(Some((id, delta)));
    }
    if str_eq(kind, "tool_call_end") {
        let id = match payload_text(&payload, "id") {
            Some(id) => id.to_owned(),
            None => {
                return RuntimeStep::ToolCallEnded(None);
            },
        };
        let mut rest = payload;
        let metadata = take_payload(&mut rest, "metadata");
        return RuntimeStep::ToolCallEnded(Some((id, metadata)));
    }
    if str_eq(kind, "text_delta") {
        state.reasoning_active = false;
        return match payload_text(&payload, "delta") {
            Some(d) => {
                state.text_stream_active = true;
                RuntimeStep::TextDelta(Some(d.to_owned()))
            },
            None => RuntimeStep::TextDelta(None),
        };
    }
    if str_eq(kind, "tool_executing") {
        state.text_stream_active = false;
        state.reasoning_active = false;
        proof {
            reveal_strlit("");
            assert(""@ =~= Seq::<char>::empty());
        }
        return RuntimeStep::ToolExecuting(read_tool_report(payload, event));
    }
    if str_eq(kind, "tool_executed") {
        proof {
            reveal_strlit("");
            assert(""@ =~= Seq::<char>::empty());
        }
        return RuntimeStep::ToolExecuted(read_tool_report(payload, event));
    }
    if str_eq(kind, "generation_finished") {
        state.active_generation_id = None;
        return match payload_text(&payload, "status") {
            Some(st) => {
                state.text_stream_active = false;
                let given = match payload_text(&payload, "finish_reason") {
                    Some(fr) => parse_finish_reason(fr),
                    None => None,
                };
                let reason = match given {
                    Some(x) => Some(x),
                    None => {
                        let pending = state.pending_finish_reason;
                        state.pending_finish_reason = None;
                        pending
                    },
                };
                let target = if str_eq(st, "cancelled") {
                    ConversationStatus::Cancelled
                } else if str_eq(st, "failed") {
                    ConversationStatus::Error
                } else {
                    ConversationStatus::Finished(
                        match reason {
                            Some(r) => r,
                            None => FinishReason::Stop,
                        },
                    )
                };
                RuntimeStep::GenerationFinished(Some(target))
            },
            None => RuntimeStep::GenerationFinished(None),
        };
    }
    if str_eq(kind, "error") {
        state.text_stream_active = false;
        if let Some(m) = payload_text(&payload, "message") {
            state.diagnostic = bounded(m.to_owned(), MAX_DIAGNOSTIC_BYTES);
            state.status = ConversationStatus::Error;
        }
        return RuntimeStep::RuntimeError;
    }
    if str_eq(kind, "assistant_message") {
        return match payload_text(&payload, "content") {
            Some(c) => {
                let t = trimmed(c);
                if t.as_str().is_empty() {
                    RuntimeStep::AssistantMessage(None)
                } else {
                    RuntimeStep::AssistantMessage(Some(t))
                }
            },
            None => RuntimeStep::AssistantMessage(None),
        };
    }
    if str_eq(kind, "tool_call_settled") {
        proof {
            reveal_strlit("");
            assert(""@ =~= Seq::<char>::empty());
        }
        return RuntimeStep::ToolCallSettled(read_settlement(payload));
    }
    RuntimeStep::Noted
}

/// What an event does to the conversation, with its payload already read
/// (see [`runtime_step`]).
pub fn apply_runtime_payload(
    state: &mut ConversationView,
    event: &RuntimeEventView,
    payload: Option<JsonValue>,
) -> (r: RuntimeStep)
    ensures
        runtime_step(old(state)@, *event, payload, final(state)@, r),
{
    if let Some(id) = state.active_session_id {
        if event.session_id != id {
            return RuntimeStep::Ignored;
        }
    }
    if event.seq > 0 {
        if event.seq <= state.loaded_until_seq {
            return RuntimeStep::Ignored;
        }
        state.loaded_until_seq = event.seq;
    }
    let kind = event.kind.as_str();
    let dropped = if str_eq(kind, "generation_started") {
        match event.generation_id {
            None => true,
            Some(g) => state.status != ConversationStatus::Active || holds(
                &state.ignored_generation_ids,
                g,
            ) || state.active_generation_id.is_some(),
        }
    } else {
        let ignored = match event.generation_id {
            Some(g) => holds(&state.ignored_generation_ids, g),
            None => false,
        };
        let cancel_end = ignored && str_eq(kind, "generation_finished") && match payload_text(
            &payload,
            "status",
        ) {
            Some(st) => str_eq(st, "cancelled"),
            None => false,
        };
        let session_event = str_eq(kind, "prompt_admitted") || str_eq(kind, "prompt_promoted");
        (ignored && !cancel_end) || (!session_event && match state.active_generation_id {
            Some(a) => event.generation_id != Some(a),
            None => false,
        })
    };
    if dropped {
        return RuntimeStep::Ignored;
    }
    apply_kind(state, event, payload)
}

/// What an event from the runtime does to the conversation: its payload is
/// read as JSON (see [`parsed_json`]) and the event taken in (see
/// [`runtime_step`]).
pub fn runtime_event_step(state: &mut ConversationView, event: &RuntimeEventView) -> (r: RuntimeStep)
    ensures
        runtime_step(old(state)@, *event, parsed_json(event.payload_json@), final(state)@, r),
{
    let payload = parse_json(event.payload_json.as_str());
    apply_runtime_payload(state, event, payload)
}

// ---------------------------------------------------------------------------
// Replaying the log of a session
// ---------------------------------------------------------------------------

/// A tool call opened by a replayed event: its id, name, arguments, and
/// whether it is running yet (else it waits).
#[derive(Debug, PartialEq, Eq)]
pub struct OpenedCall {
    pub call_id: String,
    pub tool_name: String,
    pub arguments: Option<JsonValue>,
    pub running: bool,
}

/// A tool call completed by a replayed `tool_executed` event.
#[derive(Debug, PartialEq, Eq)]
pub struct ReplayedResult {
    pub call_id: String,
    pub tool_name: String,
    /// `success` is `true`.
    pub success: bool,
    pub output: String,
    pub arguments: Option<JsonValue>,
}

/// What the view does with an event replayed from a session's log once the
/// conversation state took it in.
#[derive(Debug, PartialEq, Eq)]
pub enum ReplayStep {
    /// The state took the event in; the view has nothing more to do.
    Noted,
    /// The assistant's full message, trimmed, when it is not empty.
    AssistantMessage(Option<String>),
    /// A user's prompt, trimmed, when it is not empty.
    UserMessage(Option<String>),
    /// A tool call was created or started (when the payload could be read).
    CallOpened(Option<OpenedCall>),
    /// A tool call settled (when the payload could be read).
    CallSettled(Option<Settlement>),
    /// A tool finished (when the payload could be read).
    CallExecuted(Option<ReplayedResult>),
    /// The generation ended: unfinished calls fail.
    GenerationFinished,
}

/// The trimmed text of member `key` (or `alt`) of a payload, when it is a
/// string that is not blank.
pub open spec fn trimmed_member(t: Option<Seq<char>>) -> Option<Seq<char>> {
    match t {
        Some(c) => if trim(c).len() > 0 {
            Some(trim(c))
        } else {
            None
        },
        None => None,
    }
}

/// What a replayed event of each kind does, from state `s` with payload
/// `p`: the new state `t` and what the view does `r`. A finished generation
/// and an error set the status directly, as nothing is typed out on replay.
pub open spec fn replay_step(
    s: ConversationModel,
    e: RuntimeEventView,
    p: Option<JsonValue>,
    t: ConversationModel,
    r: ReplayStep,
) -> bool {
    let k = e.kind@;
    if k == "assistant_message"@ {
        t == s && (r matches ReplayStep::AssistantMessage(o) && match trimmed_member(payload_str(p, "content"@)) {
            Some(c) => o matches Some(x) && x@ == c,
            None => o is None,
        })
    } else if k == "user_message"@ || k == "prompt_promoted"@ || k == "prompt_admitted"@ {
        let text = match p {
            Some(v) => opt_str(json_get2(v, "content"@, "prompt"@)),
            None => None,
        };
        t == s && (r matches ReplayStep::UserMessage(o) && match trimmed_member(text) {
            Some(c) => o matches Some(x) && x@ == c,
            None => o is None,
        })
    } else if k == "tool_call_created"@ || k == "tool_call_started"@ {
        t == s && (r matches ReplayStep::CallOpened(o) && match p {
            Some(_) => o matches Some(c) && c.call_id@ == or_text(payload_str(p, "call_id"@), Seq::empty())
                && c.tool_name@ == or_text(payload_str(p, "tool_name"@), "tool"@) && c.arguments
                == payload_get(p, "arguments"@) && c.running == (k == "tool_call_started"@),
            None => o is None,
        })
    } else if k == "tool_call_settled"@ {
        t == s && (r matches ReplayStep::CallSettled(o) && match p {
            Some(_) => o matches Some(st) && settlement(st, p),
            None => o is None,
        })
    } else if k == "tool_executed"@ {
        t == s && (r matches ReplayStep::CallExecuted(o) && match p {
            Some(_) => o matches Some(c) && c.call_id@ == or_text(payload_str(p, "id"@), Seq::empty())
                && c.tool_name@ == payload_name(p) && c.success == payload_true(p, "success"@)
                && c.output@ == or_text(payload_str(p, "output"@), Seq::empty()) && c.arguments
                == payload_get(p, "arguments"@),
            None => o is None,
        })
    } else if k == "generation_finished"@ {
        let ended = ConversationModel { active_generation_id: None, ..s };
        &&& r == ReplayStep::GenerationFinished
        &&& match payload_str(p, "status"@) {
            Some(st) => {
                let given = payload_reason(p, "finish_reason"@);
                let reason = match given {
                    Some(x) => Some(x),
                    None => s.pending_finish_reason,
                };
                t == ConversationModel {
                    text_stream_active: false,
                    pending_finish_reason: if given is Some {
                        s.pending_finish_reason
                    } else {
                        None
                    },
                    status: finished_status(st, reason),
                    ..ended
                }
            },
            None => t == ended,
        }
    } else if k == "error"@ {
        &&& r == ReplayStep::Noted
        &&& t == match payload_str(p, "message"@) {
            Some(m) => ConversationModel {
                diagnostic: bounded_text(m, MAX_DIAGNOSTIC_BYTES as int),
                status: ConversationStatus::Error,
                ..s
            },
            None => s,
        }
    } else {
        t == s && r == ReplayStep::Noted
    }
}

/// The trimmed text, when it is not blank (see [`trimmed_member`]).
fn trimmed_text(t: Option<&str>) -> (r: Option<String>)
    ensures
        match trimmed_member(opt_view(t)) {
            Some(c) => r matches Some(x) && x@ == c,
            None => r is None,
        },
{
    match t {
        Some(c) => {
            let x = trimmed(c);
            if x.as_str().is_empty() {
                None
            } else {
                Some(x)
            }
        },
        None => None,
    }
}

/// The status a generation ends in (see [`finished_status`]); the noted
/// reason is used, and cleared, when the payload gives none.
fn finish_status(state: &mut ConversationView, payload: &Option<JsonValue>, st: &str) -> (r: ConversationStatus)
    ensures
        ({
            let given = payload_reason(*payload, "finish_reason"@);
            let reason = match given {
                Some(x) => Some(x),
                None => old(state)@.pending_finish_reason,
            };
            &&& r == finished_status(st@, reason)
            &&& final(state)@ == ConversationModel {
                pending_finish_reason: if given is Some {
                    old(state)@.pending_finish_reason
                } else {
                    None
                },
                ..old(state)@
            }
        }),
{
    let given = match payload_text(payload, "finish_reason") {
        Some(fr) => parse_finish_reason(fr),
        None => None,
    };
    let reason = match given {
        Some(x) => Some(x),
        None => {
            let pending = state.pending_finish_reason;
            state.pending_finish_reason = None;
            pending
        },
    };
    if str_eq(st, "cancelled") {
        ConversationStatus::Cancelled
    } else if str_eq(st, "failed") {
        ConversationStatus::Error
    } else {
        ConversationStatus::Finished(
            match reason {
                Some(r) => r,
                None => FinishReason::Stop,
            },
        )
    }
}

/// What an event replayed from the log does, with its payload already
/// read (see [`replay_step`]).
pub fn apply_replayed_payload(
    state: &mut ConversationView,
    event: &RuntimeEventView,
    payload: Option<JsonValue>,
) -> (r: ReplayStep)
    ensures
        replay_step(old(state)@, *event, payload, final(state)@, r),
{
    proof {
        reveal_strlit("");
        assert(""@ =~= Seq::<char>::empty());
    }
    let kind = event.kind.as_str();
    if str_eq(kind, "assistant_message") {
        return ReplayStep::AssistantMessage(trimmed_text(payload_text(&payload, "content")));
    }
    if str_eq(kind, "user_message") || str_eq(kind, "prompt_promoted") || str_eq(kind, "prompt_admitted") {
        let text = match &payload {
            Some(v) => opt_as_str(get2(v, "content", "prompt")),
            None => None,
        };
        return ReplayStep::UserMessage(trimmed_text(text));
    }
    let created = str_eq(kind, "tool_call_created");
    let started = str_eq(kind, "tool_call_started");
    if created || started {
        if payload.is_none() {
            return ReplayStep::CallOpened(None);
        }
        let call_id = text_or_default(payload_text(&payload, "call_id"), "");
        let tool_name = text_or_default(payload_text(&payload, "tool_name"), "tool");
        let mut rest = payload;
        let arguments = take_payload(&mut rest, "arguments");
        return ReplayStep::CallOpened(Some(OpenedCall { call_id, tool_name, arguments, running: started }));
    }
    if str_eq(kind, "tool_call_settled") {
        return ReplayStep::CallSettled(read_settlement(payload));
    }
    if str_eq(kind, "tool_executed") {
        if payload.is_none() {
            return ReplayStep::CallExecuted(None);
        }
        let call_id = text_or_default(payload_text(&payload, "id"), "");
        let tool_name = text_or_default(payload_text(&payload, "name"), "tool");
        let success = match &payload {
            Some(v) => match get(v, "success") {
                Some(JsonValue::Bool(b)) => *b,
                _ => false,
            },
            None => false,
        };
        let output = text_or_default(payload_text(&payload, "output"), "");
        let mut rest = payload;
        let arguments = take_payload(&mut rest, "arguments");
        return ReplayStep::CallExecuted(Some(ReplayedResult { call_id, tool_name, success, output, arguments }));
    }
    if str_eq(kind, "generation_finished") {
        state.active_generation_id = None;
        if let Some(st) = payload_text(&payload, "status") {
            state.text_stream_active = false;
            let target = finish_status(state, &payload, st);
            state.status = target;
        }
        return ReplayStep::GenerationFinished;
    }
    if str_eq(kind, "error") {
        if let Some(m) = payload_text(&payload, "message") {
            state.diagnostic = bounded(m.to_owned(), MAX_DIAGNOSTIC_BYTES);
            state.status = ConversationStatus::Error;
        }
        return ReplayStep::Noted;
    }
    ReplayStep::Noted
}

/// What an event replayed from a session's log does: its payload is read as
/// JSON (see [`parsed_json`]) and the event taken in (see [`replay_step`]).
pub fn replay_event_step(state: &mut ConversationView, event: &RuntimeEventView) -> (r: ReplayStep)
    ensures
        replay_step(old(state)@, *event, parsed_json(event.payload_json@), final(state)@, r),
{
    let payload = parse_json(event.payload_json.as_str());
    apply_replayed_payload(state, event, payload)
}

impl ConversationView {
    /// A conversation on screen for `active_session_id`, idle, with nothing
    /// taken in from the log yet.
    pub fn new(active_session_id: Option<i64>) -> (r: Self)
        ensures
            r@ == (ConversationModel {
                active_session_id,
                loaded_until_seq: 0,
                status: ConversationStatus::Idle,
                active_generation_id: None,
                ignored_generation_ids: Set::empty(),
                pending_finish_reason: None,
                text_stream_active: false,
                reasoning_active: false,
                diagnostic: Seq::empty(),
            }),
    {
        ConversationView {
            active_session_id,
            loaded_until_seq: 0,
            status: ConversationStatus::Idle,
            active_generation_id: None,
            ignored_generation_ids: HashSet::new(),
            pending_finish_reason: None,
            text_stream_active: false,
            reasoning_active: false,
            diagnostic: String::new(),
        }
    }

    /// Cancels the turn: the running generation (if any) joins those whose
    /// events are dropped, no generation runs, nothing streams and the
    /// status is cancelled.
    pub fn cancel_generation(&mut self)
        ensures
            final(self)@ == (ConversationModel {
                active_generation_id: None,
                ignored_generation_ids: match old(self)@.active_generation_id {
                    Some(g) => old(self)@.ignored_generation_ids.insert(g),
                    None => old(self)@.ignored_generation_ids,
                },
                text_stream_active: false,
                reasoning_active: false,
                status: ConversationStatus::Cancelled,
                ..old(self)@
            }),
    {
        if let Some(g) = self.active_generation_id {
            self.ignored_generation_ids.insert(g);
        }
        self.active_generation_id = None;
        self.text_stream_active = false;
        self.reasoning_active = false;
        self.status = ConversationStatus::Cancelled;
    }

    /// Clears the screen: as a cancellation, but the conversation goes back
    /// to idle and says `screen cleared`.
    pub fn clear_screen(&mut self)
        ensures
            final(self)@ == (ConversationModel {
                active_generation_id: None,
                ignored_generation_ids: match old(self)@.active_generation_id {
                    Some(g) => old(self)@.ignored_generation_ids.insert(g),
                    None => old(self)@.ignored_generation_ids,
                },
                text_stream_active: false,
                reasoning_active: false,
                status: ConversationStatus::Idle,
                diagnostic: "screen cleared"@,
                ..old(self)@
            }),
    {
        self.cancel_generation();
        self.status = ConversationStatus::Idle;
        self.diagnostic = "screen cleared".to_owned();
    }
}


// ---------------------------------------------------------------------------
// Turn events
// ---------------------------------------------------------------------------

/// An event of the conversation turn, as the interface receives it.
#[derive(Debug, Clone, PartialEq, Eq)]
pub enum TurnEvent {
    PromptSubmitted { provider: String, model: String },
    TextDelta(String),
    Finished(FinishReason),
    Error(String),
    Cancelled,
    MutationRequested(String),
    Usage,
    /// Metrics of the turn, with the finish reason they report.
    Metrics(Option<FinishReason>),
}

/// What the interface does once the turn's state has taken an event.
#[derive(Debug, Clone, Copy, PartialEq, Eq, Structural)]
pub enum TurnEffect {
    /// Nothing more.
    Nothing,
    /// Clear the last metrics and start streaming the reply.
    StartStream,
    /// Stream the event's text into the reply.
    StreamText,
    /// Flush the reply, store it with the session, and report success.
    Finish,
    /// Flush the reply and report the diagnostic as a failure.
    Fail,
    /// Report the cancellation.
    ReportCancelled,
    /// Keep the metrics, their provider and model bounded to
    /// [`MAX_IDENTITY_BYTES`].
    KeepMetrics,
}

/// The turn as the interface tracks it.
#[derive(Debug, Clone, PartialEq, Eq)]
pub struct TurnState {
    pub status: ConversationStatus,
    pub mode: ConversationMode,
    pub provider: String,
    pub model: String,
    pub diagnostic: String,
}

/// Finish reasons whose metrics are kept.
pub open spec fn keeps_metrics(r: FinishReason) -> bool {
    r == FinishReason::Stop || r == FinishReason::Length || r == FinishReason::ToolCall
}

/// The turn after event `e`, and what follows: nothing once cancelled;
/// otherwise a submitted prompt starts an active turn with its (bounded)
/// provider and model; text streams, a finish or an error end the turn only
/// while it is active; a cancellation always lands; a mutation asked for in
/// the plan mode is rejected; metrics are kept when they report the reason
/// the turn finished with.
pub open spec fn turn_step(old: TurnState, e: TurnEvent, new: TurnState, effect: TurnEffect) -> bool {
    let same = new == old;
    if old.status == ConversationStatus::Cancelled {
        same && effect == TurnEffect::Nothing
    } else {
        match e {
            TurnEvent::PromptSubmitted { provider, model } => {
                &&& new.status == ConversationStatus::Active
                &&& new.mode == old.mode
                &&& new.provider@ == bounded_text(provider@, MAX_IDENTITY_BYTES as int)
                &&& new.model@ == bounded_text(model@, MAX_IDENTITY_BYTES as int)
                &&& new.diagnostic@.len() == 0
                &&& effect == TurnEffect::StartStream
            },
            TurnEvent::TextDelta(_) => same && effect == if old.status == ConversationStatus::Active {
                TurnEffect::StreamText
            } else {
                TurnEffect::Nothing
            },
            TurnEvent::Finished(r) => if old.status == ConversationStatus::Active {
                new == (TurnState { status: ConversationStatus::Finished(r), ..old }) && effect
                    == TurnEffect::Finish
            } else {
                same && effect == TurnEffect::Nothing
            },
            TurnEvent::Error(m) => if old.status == ConversationStatus::Active {
                &&& new.status == ConversationStatus::Error
                &&& new.mode == old.mode
                &&& new.provider == old.provider
                &&& new.model == old.model
                &&& new.diagnostic@ == bounded_text(m@, MAX_DIAGNOSTIC_BYTES as int)
                &&& effect == TurnEffect::Fail
            } else {
                same && effect == TurnEffect::Nothing
            },
            TurnEvent::Cancelled => new == (TurnState { status: ConversationStatus::Cancelled, ..old })
                && effect == TurnEffect::ReportCancelled,
            TurnEvent::MutationRequested(op) => if old.mode == ConversationMode::Plan {
                &&& new.status == ConversationStatus::Rejected
                &&& new.mode == old.mode
                &&& new.provider == old.provider
                &&& new.model == old.model
                &&& new.diagnostic@ == bounded_text(
                    "PLAN mode rejects mutation: "@ + op@,
                    MAX_DIAGNOSTIC_BYTES as int,
                )
                &&& effect == TurnEffect::Nothing
            } else {
                same && effect == TurnEffect::Nothing
            },
            TurnEvent::Usage => same && effect == TurnEffect::Nothing,
            TurnEvent::Metrics(reported) => same && effect == match old.status {
                ConversationStatus::Finished(r) => if keeps_metrics(r) && reported == Some(r) {
                    TurnEffect::KeepMetrics
                } else {
                    TurnEffect::Nothing
                },
                _ => TurnEffect::Nothing,
            },
        }
    }
}

impl TurnState {
    /// Takes a turn event (see [`turn_step`]).
    pub fn apply_turn_event(&mut self, e: &TurnEvent) -> (effect: TurnEffect)
        ensures
            turn_step(*old(self), *e, *final(self), effect),
    {
        if self.status == ConversationStatus::Cancelled {
            return TurnEffect::Nothing;
        }
        let active = self.status == ConversationStatus::Active;
        match e {
            TurnEvent::PromptSubmitted { provider, model } => {
                self.provider = bounded(provider.clone(), MAX_IDENTITY_BYTES);
                self.model = bounded(model.clone(), MAX_IDENTITY_BYTES);
                self.status = ConversationStatus::Active;
                self.diagnostic = String::new();
                TurnEffect::StartStream
            },
            TurnEvent::TextDelta(_) => if active {
                TurnEffect::StreamText
            } else {
                TurnEffect::Nothing
            },
            TurnEvent::Finished(r) => if active {
                self.status = ConversationStatus::Finished(*r);
                TurnEffect::Finish
            } else {
                TurnEffect::Nothing
            },
            TurnEvent::Error(m) => if active {
                self.status = ConversationStatus::Error;
                self.diagnostic = bounded(m.clone(), MAX_DIAGNOSTIC_BYTES);
                TurnEffect::Fail
            } else {
                TurnEffect::Nothing
            },
            TurnEvent::Cancelled => {
                self.status = ConversationStatus::Cancelled;
                TurnEffect::ReportCancelled
            },
            TurnEvent::MutationRequested(op) => if self.mode == ConversationMode::Plan {
                let mut text = "PLAN mode rejects mutation: ".to_owned();
                string_push_str(&mut text, op.as_str());
                self.status = ConversationStatus::Rejected;
                self.diagnostic = bounded(text, MAX_DIAGNOSTIC_BYTES);
                TurnEffect::Nothing
            } else {
                TurnEffect::Nothing
            },
            TurnEvent::Usage => TurnEffect::Nothing,
            TurnEvent::Metrics(reported) => match self.status {
                ConversationStatus::Finished(r) => {
                    let kept = r == FinishReason::Stop || r == FinishReason::Length || r
                        == FinishReason::ToolCall;
                    let matches = match reported {
                        Some(x) => *x == r,
                        None => false,
                    };
                    if kept && matches {
                        TurnEffect::KeepMetrics
                    } else {
                        TurnEffect::Nothing
                    }
                },
                _ => TurnEffect::Nothing,
            },
        }
    }
}

} // verus!
