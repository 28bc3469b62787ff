//! Keeping the transcript within its size: when it grows too long, its start
//! is cut at a user turn and replaced by a marker.
use vstd::prelude::*;
use vstd::string::StringSliceAdditionalSpecFns;
use vstd::utf8::*;

use crate::strings::{string_push, string_push_str};
use crate::text::{
    chars_of, ceil_boundary, ceil_char_boundary, find_user_turn_boundary, lemma_ceil_boundary,
    lemma_user_turn_boundary_after_cutoff, user_turn_boundary,
};
use crate::utf8::{lemma_encode_utf8_concat, lemma_utf8_len_bound, utf8_len};

verus! {

broadcast use {vstd::utf8::group_utf8_lib, vstd::string::group_string_axioms};

/// Most bytes the transcript keeps once it has been cut.
pub const MAX_TRANSCRIPT_BYTES: usize = 262144;

/// How far past [`MAX_TRANSCRIPT_BYTES`] the transcript may grow before it is
/// cut.
pub const TRANSCRIPT_SLACK_BYTES: usize = 16384;

/// What replaces the part of the transcript that was cut.
pub const TRUNCATION_MARKER: &'static str = "[earlier transcript truncated]\n";

/// Bytes of [`TRUNCATION_MARKER`].
pub open spec fn marker_bytes() -> nat {
    utf8_len(TRUNCATION_MARKER@)
}

/// Where the kept part of a transcript that is too long starts, in bytes: at
/// the first user turn from the point that leaves room for the marker, or at
/// the first character boundary from that point when there is no such turn.
pub open spec fn cut_start(t: Seq<char>) -> int {
    let len = utf8_len(t) as int;
    let retained = if MAX_TRANSCRIPT_BYTES > marker_bytes() {
        MAX_TRANSCRIPT_BYTES - marker_bytes()
    } else {
        0
    };
    let cut = if len > retained {
        len - retained
    } else {
        0
    };
    match user_turn_boundary(t, cut) {
        Some(b) => b,
        None => ceil_boundary(encode_utf8(t), cut),
    }
}

/// The last bytes of `s` from `start` on, which must be a character boundary.
fn byte_suffix(s: &str, start: usize) -> (p: &str)
    requires
        start <= encode_utf8(s@).len(),
        is_char_boundary(encode_utf8(s@), start as int),
    ensures
        encode_utf8(p@) == encode_utf8(s@).skip(start as int),
{
    let (_head, tail) = s.split_at(start);
    proof {
        let bytes = encode_utf8(s@);
        assert(bytes.skip(start as int) =~= bytes.subrange(start as int, bytes.len() as int));
    }
    tail
}

/// Cuts a transcript that has grown past [`MAX_TRANSCRIPT_BYTES`] by more than
/// [`TRANSCRIPT_SLACK_BYTES`]: everything before [`cut_start`] is replaced by
/// [`TRUNCATION_MARKER`], and a recorded stream start moves back by the bytes
/// removed. A shorter transcript is left alone.
pub fn truncate_transcript(transcript: &mut String, stream_base_len: &mut Option<usize>)
    ensures
        utf8_len(old(transcript)@) <= MAX_TRANSCRIPT_BYTES + TRANSCRIPT_SLACK_BYTES ==> {
            &&& final(transcript)@ == old(transcript)@
            &&& *final(stream_base_len) == *old(stream_base_len)
        },
        utf8_len(old(transcript)@) > MAX_TRANSCRIPT_BYTES + TRANSCRIPT_SLACK_BYTES ==> {
            let start = cut_start(old(transcript)@);
            let removed = utf8_len(old(transcript)@) - utf8_len(final(transcript)@);
            &&& encode_utf8(final(transcript)@) == encode_utf8(TRUNCATION_MARKER@) + encode_utf8(
                old(transcript)@,
            ).skip(start)
            &&& *final(stream_base_len) == match *old(stream_base_len) {
                Some(b) => Some(
                    if b >= removed {
                        (b - removed) as usize
                    } else {
                        0usize
                    },
                ),
                None => None,
            }
            &&& utf8_len(final(transcript)@) <= MAX_TRANSCRIPT_BYTES
        },
{
    let len = transcript.as_str().as_bytes().len();
    if len <= MAX_TRANSCRIPT_BYTES + TRANSCRIPT_SLACK_BYTES {
        return;
    }
    proof {
        reveal_strlit("[earlier transcript truncated]\n");
        lemma_utf8_len_bound(TRUNCATION_MARKER@);
    }
    let marker_len = TRUNCATION_MARKER.as_bytes().len();
    let retained = MAX_TRANSCRIPT_BYTES.saturating_sub(marker_len);
    let cut = if len > retained {
        len - retained
    } else {
        0
    };
    let start = match find_user_turn_boundary(transcript.as_str(), cut) {
        Some(b) => b,
        None => ceil_char_boundary(transcript.as_str(), cut),
    };
    let ghost t = transcript@;
    proof {
        lemma_user_turn_boundary_after_cutoff(t, cut as int);
        lemma_ceil_boundary(encode_utf8(t), cut as int);
    }
    let suffix = byte_suffix(transcript.as_str(), start);
    let ghost sv = suffix@;
    let mut kept = TRUNCATION_MARKER.to_owned();
    string_push_str(&mut kept, suffix);
    proof {
        lemma_encode_utf8_concat(TRUNCATION_MARKER@, sv);
        assert(kept@ == TRUNCATION_MARKER@ + sv);
        assert(start as int >= cut as int);
        assert(utf8_len(kept@) == marker_len + (len - start));
        assert(utf8_len(kept@) <= MAX_TRANSCRIPT_BYTES);
    }
    let new_len = kept.as_str().as_bytes().len();
    let removed = len - new_len;
    *transcript = kept;
    if let Some(base) = *stream_base_len {
        *stream_base_len = Some(base.saturating_sub(removed));
    }
}

/// Bytes of transcript that compacting keeps, from a user turn on.
pub const COMPACT_KEEP_BYTES: usize = 1024;

/// What stands before the kept part of a compacted transcript.
pub const COMPACTED_HEADER: &'static str = "[earlier transcript compacted]\n";

/// Where the kept part of a transcript being compacted starts, in bytes: at
/// the first user turn from [`COMPACT_KEEP_BYTES`] before its end, or at the
/// first character boundary from there when there is no such turn.
pub open spec fn compact_start(t: Seq<char>) -> int {
    let cut = utf8_len(t) - COMPACT_KEEP_BYTES;
    match user_turn_boundary(t, cut) {
        Some(b) => b,
        None => ceil_boundary(encode_utf8(t), cut),
    }
}

/// Compacts a transcript longer than [`COMPACT_KEEP_BYTES`]: everything
/// before [`compact_start`] is replaced by [`COMPACTED_HEADER`]. Returns
/// whether it did; a shorter transcript is left alone.
pub fn compact_transcript(transcript: &mut String) -> (compacted: bool)
    ensures
        compacted == (utf8_len(old(transcript)@) > COMPACT_KEEP_BYTES),
        !compacted ==> final(transcript)@ == old(transcript)@,
        compacted ==> encode_utf8(final(transcript)@) == encode_utf8(COMPACTED_HEADER@) + encode_utf8(
            old(transcript)@,
        ).skip(compact_start(old(transcript)@)),
        compacted ==> utf8_len(final(transcript)@) <= utf8_len(COMPACTED_HEADER@) + COMPACT_KEEP_BYTES,
{
    let len = transcript.as_str().as_bytes().len();
    if len <= COMPACT_KEEP_BYTES {
        return false;
    }
    let cut = len - COMPACT_KEEP_BYTES;
    let start = match find_user_turn_boundary(transcript.as_str(), cut) {
        Some(b) => b,
        None => ceil_char_boundary(transcript.as_str(), cut),
    };
    let ghost t = transcript@;
    proof {
        lemma_user_turn_boundary_after_cutoff(t, cut as int);
        lemma_ceil_boundary(encode_utf8(t), cut as int);
    }
    let suffix = byte_suffix(transcript.as_str(), start);
    let ghost sv = suffix@;
    let mut kept = COMPACTED_HEADER.to_owned();
    string_push_str(&mut kept, suffix);
    proof {
        lemma_encode_utf8_concat(COMPACTED_HEADER@, sv);
        assert(start as int >= cut as int);
    }
    *transcript = kept;
    true
}

/// The transcript with a user prompt added: as `"> prompt"` followed by an
/// empty line, set off from earlier text by an empty line.
pub open spec fn with_prompt(t: Seq<char>, prompt: Seq<char>) -> Seq<char> {
    if t.len() == 0 {
        "> "@ + prompt + "\n\n"@
    } else {
        t + "\n\n> "@ + prompt + "\n\n"@
    }
}

/// Adds a user prompt to the transcript (see [`with_prompt`]).
pub fn append_user_prompt(transcript: &mut String, prompt: &str)
    ensures
        final(transcript)@ == with_prompt(old(transcript)@, prompt@),
{
    if transcript.as_str().is_empty() {
        string_push_str(transcript, "> ");
    } else {
        string_push_str(transcript, "\n\n> ");
    }
    string_push_str(transcript, prompt);
    string_push_str(transcript, "\n\n");
}

/// The note added to the transcript once the model has thought: `"Thought
/// for "` and the duration, on a paragraph of its own (a line break ends an
/// unfinished line and an empty line sets it off from earlier text).
pub open spec fn thought_note(t: Seq<char>, duration: Seq<char>) -> Seq<char> {
    let nl: Seq<char> = seq!['\n'];
    (if t.len() > 0 && !(t.last() == '\n') {
        nl
    } else {
        Seq::empty()
    }) + (if t.len() > 0 && !(t.len() >= 2 && t[t.len() - 2] == '\n' && t.last() == '\n') {
        nl
    } else {
        Seq::empty()
    }) + "Thought for "@ + duration + "\n\n"@
}

/// The note of how long the model thought (see [`thought_note`]), for a
/// transcript `transcript` and a duration already written out.
pub fn reasoning_note(transcript: &str, duration: &str) -> (r: String)
    ensures
        r@ == thought_note(transcript@, duration@),
{
    let v = chars_of(transcript);
    let n = v.len();
    let ends_nl = n > 0 && v[n - 1] == '\n';
    let ends_blank = n >= 2 && v[n - 2] == '\n' && v[n - 1] == '\n';
    let mut note = String::new();
    if n > 0 && !ends_nl {
        string_push(&mut note, '\n');
    }
    if n > 0 && !ends_blank {
        string_push(&mut note, '\n');
    }
    let ghost head = note@;
    string_push_str(&mut note, "Thought for ");
    string_push_str(&mut note, duration);
    string_push_str(&mut note, "\n\n");
    proof {
        assert(head =~= (if transcript@.len() > 0 && !(transcript@.last() == '\n') {
            seq!['\n']
        } else {
            Seq::empty()
        }) + (if transcript@.len() > 0 && !(transcript@.len() >= 2 && transcript@[transcript@.len() - 2] == '\n'
            && transcript@.last() == '\n') {
            seq!['\n']
        } else {
            Seq::empty()
        }));
    }
    note
}

} // verus!
