//! The views of the sessions not on screen. Switching sessions stashes the
//! shown session's view under its id and takes the other one's back, so
//! neither side loses its draft, transcript or scroll position.
use vstd::prelude::*;

use crate::commands::ConversationStatus;
use crate::stream::StreamPart;
use crate::tool_rows::ToolRow;
use std::collections::HashMap;

verus! {

broadcast use vstd::std_specs::hash::group_hash_axioms;

/// The stashed views, by session id.
pub struct SessionStash<T> {
    entries: HashMap<i64, T>,
}

/// `new` and `r` are the stash and the view shown after session `to` took
/// the place of session `from`, whose view was `shown`: `from`'s view is
/// stashed and `to`'s comes out (none when it was never stashed).
pub open spec fn switched<T>(old: SessionStash<T>, from: i64, shown: T, to: i64, new: SessionStash<T>, r: Option<T>) -> bool {
    &&& r == if to == from {
        Some(shown)
    } else {
        old.get(to)
    }
    &&& forall|k: i64| #[trigger] new.get(k) == if k == to {
        None
    } else if k == from {
        Some(shown)
    } else {
        old.get(k)
    }
}

impl<T> SessionStash<T> {
    /// What is stashed under each session id.
    pub closed spec fn get(&self, k: i64) -> Option<T> {
        if self.entries@.contains_key(k) {
            Some(self.entries@[k])
        } else {
            None
        }
    }

    /// An empty stash.
    pub fn new() -> (s: Self)
        ensures
            forall|k: i64| s.get(k) is None,
    {
        SessionStash { entries: HashMap::new() }
    }

    /// Takes the view stashed for session `id` out of the stash.
    pub fn take(&mut self, id: i64) -> (r: Option<T>)
        ensures
            r == old(self).get(id),
            forall|k: i64| #[trigger] final(self).get(k) == if k == id {
                None
            } else {
                old(self).get(k)
            },
    {
        self.entries.remove(&id)
    }

    /// Stashes `view` as session `id`'s, over what was stashed for it.
    pub fn stash(&mut self, id: i64, view: T)
        ensures
            forall|k: i64| #[trigger] final(self).get(k) == if k == id {
                Some(view)
            } else {
                old(self).get(k)
            },
    {
        self.entries.insert(id, view);
    }

    /// Shows session `to` in place of session `from` (see [`switched`]).
    pub fn switch(&mut self, from: i64, shown: T, to: i64) -> (r: Option<T>)
        ensures
            switched(*old(self), from, shown, to, *final(self), r),
    {
        self.stash(from, shown);
        self.take(to)
    }
}


/// The view of one session: what switching away keeps and switching back
/// shows again.
#[derive(Debug)]
pub struct ClientSessionState {
    pub transcript: String,
    pub input_draft: String,
    pub scroll: u16,
    pub loaded_until_seq: i64,
    pub status: ConversationStatus,
    pub active_generation_id: Option<i64>,
    pub text_stream_active: bool,
    pub loading: bool,
    pub current_plan: Vec<(String, String)>,
    pub tool_rows: Vec<ToolRow>,
    pub stream_parts: Vec<StreamPart>,
    pub stream_base_len: Option<usize>,
    /// The call ids of the expanded tool rows.
    pub expanded_tool_rows: Vec<String>,
}

impl ClientSessionState {
    /// The view of a session never shown: empty, idle, with nothing loaded
    /// (the last loaded event before the first).
    pub fn new() -> (s: Self)
        ensures
            s.transcript@.len() == 0,
            s.input_draft@.len() == 0,
            s.scroll == 0,
            s.loaded_until_seq == -1,
            s.status == ConversationStatus::Idle,
            s.active_generation_id is None,
            !s.text_stream_active,
            !s.loading,
            s.current_plan@.len() == 0,
            s.tool_rows@.len() == 0,
            s.stream_parts@.len() == 0,
            s.stream_base_len is None,
            s.expanded_tool_rows@.len() == 0,
    {
        ClientSessionState {
            transcript: String::new(),
            input_draft: String::new(),
            scroll: 0,
            loaded_until_seq: -1,
            status: ConversationStatus::Idle,
            active_generation_id: None,
            text_stream_active: false,
            loading: false,
            current_plan: Vec::new(),
            tool_rows: Vec::new(),
            stream_parts: Vec::new(),
            stream_base_len: None,
            expanded_tool_rows: Vec::new(),
        }
    }
}

} // verus!
