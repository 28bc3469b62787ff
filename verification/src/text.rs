//! Byte- and character-level text helpers: character-boundary rounding,
//! byte-bounded truncation, ANSI escape stripping, and locating the start of
//! a user turn (`"> "` line outside code fences) in a transcript.
use vstd::prelude::*;
use vstd::string::StringSliceAdditionalSpecFns;
use vstd::utf8::*;

use crate::strings::{string_push, string_truncate};
use crate::utf8::{
    char_byte_offsets, char_utf8_len, lemma_char_boundary_iff_prefix,
    lemma_prefix_is_char_boundary, lemma_utf8_len_take_monotone, lemma_utf8_len_take_step,
    utf8_len,
};

verus! {

broadcast use {vstd::utf8::group_utf8_lib, vstd::string::group_string_axioms};

// ---------------------------------------------------------------------------
// Character boundaries
// ---------------------------------------------------------------------------

/// The greatest character boundary of `bytes` that is at most `i` (clamped to
/// the length of `bytes`).
pub open spec fn floor_boundary(bytes: Seq<u8>, i: int) -> int
    decreases i,
{
    if i <= 0 {
        0
    } else if i > bytes.len() {
        floor_boundary(bytes, bytes.len() as int)
    } else if is_char_boundary(bytes, i) {
        i
    } else {
        floor_boundary(bytes, i - 1)
    }
}

/// The least character boundary of `bytes` that is at least `i`, or the length
/// of `bytes` when `i` is past it.
pub open spec fn ceil_boundary(bytes: Seq<u8>, i: int) -> int
    decreases bytes.len() - i,
{
    if i >= bytes.len() {
        bytes.len() as int
    } else if i >= 0 && is_char_boundary(bytes, i) {
        i
    } else {
        ceil_boundary(bytes, i + 1)
    }
}

/// What `floor_boundary` returns: a boundary, below `i`, with no boundary
/// strictly between it and `min(i, len)`.
pub proof fn lemma_floor_boundary(bytes: Seq<u8>, i: int)
    requires
        valid_utf8(bytes),
    ensures
        0 <= floor_boundary(bytes, i) <= bytes.len(),
        i >= 0 ==> floor_boundary(bytes, i) <= i,
        is_char_boundary(bytes, floor_boundary(bytes, i)),
        forall|j: int|
            floor_boundary(bytes, i) < j <= i && j <= bytes.len() ==> !is_char_boundary(bytes, j),
    decreases i,
{
    if i <= 0 {
    } else if i > bytes.len() {
        lemma_floor_boundary(bytes, bytes.len() as int);
    } else if is_char_boundary(bytes, i) {
    } else {
        lemma_floor_boundary(bytes, i - 1);
    }
}

/// What `ceil_boundary` returns: a boundary at or above `i` with no boundary
/// in between.
pub proof fn lemma_ceil_boundary(bytes: Seq<u8>, i: int)
    requires
        valid_utf8(bytes),
        i >= 0,
    ensures
        i <= bytes.len() ==> i <= ceil_boundary(bytes, i) <= bytes.len(),
        i > bytes.len() ==> ceil_boundary(bytes, i) == bytes.len(),
        is_char_boundary(bytes, ceil_boundary(bytes, i)),
        forall|j: int| i <= j < ceil_boundary(bytes, i) ==> !is_char_boundary(bytes, j),
    decreases bytes.len() - i,
{
    if i >= bytes.len() {
    } else if is_char_boundary(bytes, i) {
    } else {
        lemma_ceil_boundary(bytes, i + 1);
    }
}

/// Rounds `index` down to the nearest character boundary of `value` (an index
/// past the end rounds down to the length).
pub fn floor_char_boundary(value: &str, index: usize) -> (r: usize)
    ensures
        r == floor_boundary(encode_utf8(value@), index as int),
        r <= index,
        r <= encode_utf8(value@).len(),
        is_char_boundary(encode_utf8(value@), r as int),
        forall|j: int|
            r < j <= index && j <= encode_utf8(value@).len() ==> !is_char_boundary(
                encode_utf8(value@),
                j,
            ),
{
    let len = value.as_bytes().len();
    let ghost bytes = encode_utf8(value@);
    proof {
        lemma_floor_boundary(bytes, index as int);
    }
    let mut i = if index < len {
        index
    } else {
        len
    };
    assert(floor_boundary(bytes, i as int) == floor_boundary(bytes, index as int));
    while !value.is_char_boundary(i)
        invariant
            i <= len,
            len == bytes.len(),
            bytes == encode_utf8(value@),
            valid_utf8(bytes),
            floor_boundary(bytes, i as int) == floor_boundary(bytes, index as int),
        decreases i,
    {
        assert(i > 0);
        i = i - 1;
    }
    i
}

/// Rounds `index` up to the nearest character boundary of `value` (an index at
/// or past the end gives the length).
pub fn ceil_char_boundary(value: &str, index: usize) -> (r: usize)
    ensures
        r == ceil_boundary(encode_utf8(value@), index as int),
        index >= encode_utf8(value@).len() ==> r == encode_utf8(value@).len(),
        index < encode_utf8(value@).len() ==> index <= r <= encode_utf8(value@).len(),
        is_char_boundary(encode_utf8(value@), r as int),
        forall|j: int| index <= j < r ==> !is_char_boundary(encode_utf8(value@), j),
{
    let len = value.as_bytes().len();
    let ghost bytes = encode_utf8(value@);
    proof {
        lemma_ceil_boundary(bytes, index as int);
    }
    if index >= len {
        return len;
    }
    let mut i = index;
    while !value.is_char_boundary(i)
        invariant
            index <= i <= len,
            len == bytes.len(),
            bytes == encode_utf8(value@),
            valid_utf8(bytes),
            ceil_boundary(bytes, i as int) == ceil_boundary(bytes, index as int),
        decreases len - i,
    {
        i = i + 1;
    }
    i
}

/// The longest prefix of `s` that takes at most `limit` bytes in UTF-8.
pub open spec fn bounded_text(s: Seq<char>, limit: int) -> Seq<char> {
    s.take(char_index_at_byte(s, floor_boundary(encode_utf8(s), limit)))
}

/// Truncates `value` to at most `limit` bytes, cutting at the last character
/// boundary that fits.
pub fn bounded(value: String, limit: usize) -> (r: String)
    ensures
        encode_utf8(r@) == encode_utf8(value@).take(
            floor_boundary(encode_utf8(value@), limit as int),
        ),
        r@ == value@.take(r@.len() as int),
        utf8_len(r@) <= limit,
        r@ == bounded_text(value@, limit as int),
{
    let mut value = value;
    let ghost orig = value@;
    let end = floor_char_boundary(value.as_str(), limit);
    string_truncate(&mut value, end);
    proof {
        let bytes = encode_utf8(orig);
        decode_utf8_split(bytes, end as int);
        assert(bytes.take(end as int) =~= bytes.subrange(0, end as int));
        assert(decode_utf8(encode_utf8(value@)) == value@);
        assert(orig == decode_utf8(bytes));
        assert(orig =~= value@ + decode_utf8(bytes.subrange(end as int, bytes.len() as int)));
        assert(orig.take(value@.len() as int) =~= value@);
        let k = value@.len() as int;
        let fb = floor_boundary(bytes, limit as int);
        lemma_floor_boundary(bytes, limit as int);
        assert(utf8_len(orig.take(k)) == fb);
        let i = char_index_at_byte(orig, fb);
        assert(0 <= i <= orig.len() && utf8_len(orig.take(i)) == fb);
        if i < k {
            lemma_utf8_len_take_monotone(orig, i, k);
        } else if i > k {
            lemma_utf8_len_take_monotone(orig, k, i);
        }
    }
    value
}

// ---------------------------------------------------------------------------
// ANSI escapes
// ---------------------------------------------------------------------------

/// ASCII letter test (`char::is_ascii_alphabetic`).
pub open spec fn is_ascii_alpha(c: char) -> bool {
    ('a' <= c && c <= 'z') || ('A' <= c && c <= 'Z')
}

pub fn is_ascii_alphabetic(c: char) -> (b: bool)
    ensures
        b == is_ascii_alpha(c),
{
    ('a' <= c && c <= 'z') || ('A' <= c && c <= 'Z')
}

/// The characters of `s` kept when escape sequences are dropped: an ESC starts
/// a sequence, which ends after the next ASCII letter.
pub open spec fn strip_ansi(s: Seq<char>, in_escape: bool) -> Seq<char>
    decreases s.len(),
{
    if s.len() == 0 {
        Seq::empty()
    } else if s[0] == '\x1b' {
        strip_ansi(s.drop_first(), true)
    } else if in_escape {
        strip_ansi(s.drop_first(), !is_ascii_alpha(s[0]))
    } else {
        seq![s[0]] + strip_ansi(s.drop_first(), false)
    }
}

/// Removes ANSI escape sequences (ESC up to and including the next ASCII
/// letter) from `s`.
pub fn strip_ansi_codes(s: &str) -> (out: String)
    ensures
        out@ == strip_ansi(s@, false),
{
    let chars = chars_of(s);
    let mut out = String::new();
    let mut in_csi = false;
    let mut i: usize = 0;
    assert(chars@.skip(0) =~= chars@);
    assert(out@ + strip_ansi(chars@, false) =~= strip_ansi(chars@, false));
    while i < chars.len()
        invariant
            i <= chars@.len(),
            chars@ == s@,
            out@ + strip_ansi(chars@.skip(i as int), in_csi) == strip_ansi(chars@, false),
        decreases chars@.len() - i,
    {
        let ch = chars[i];
        proof {
            let rest = chars@.skip(i as int);
            assert(rest[0] == ch);
            assert(rest.drop_first() =~= chars@.skip(i as int + 1));
        }
        if ch == '\x1b' {
            in_csi = true;
        } else if in_csi {
            if is_ascii_alphabetic(ch) {
                in_csi = false;
            }
        } else {
            let ghost before = out@;
            string_push(&mut out, ch);
            assert(before + (seq![ch] + strip_ansi(chars@.skip(i as int + 1), false))
                =~= out@ + strip_ansi(chars@.skip(i as int + 1), false));
        }
        i = i + 1;
    }
    assert(chars@.skip(chars@.len() as int) =~= Seq::<char>::empty());
    assert(out@ + Seq::<char>::empty() =~= out@);
    out
}

/// The characters of `s`, in order.
pub fn chars_of(s: &str) -> (v: Vec<char>)
    ensures
        v@ == s@,
{
    let mut v: Vec<char> = Vec::new();
    for c in it: s.chars()
        invariant
            v@ == it.seq().take(it.index() as int),
    {
        v.push(c);
    }
    v
}

// ---------------------------------------------------------------------------
// Lines, whitespace and user turns
// ---------------------------------------------------------------------------

/// `char::is_whitespace`: the Unicode `White_Space` property.
pub open spec fn is_unicode_whitespace(c: char) -> bool {
    let u = c as u32;
    ||| 0x09 <= u <= 0x0D
    ||| u == 0x20
    ||| u == 0x85
    ||| u == 0xA0
    ||| u == 0x1680
    ||| 0x2000 <= u <= 0x200A
    ||| u == 0x2028
    ||| u == 0x2029
    ||| u == 0x202F
    ||| u == 0x205F
    ||| u == 0x3000
}

pub fn is_whitespace(c: char) -> (b: bool)
    ensures
        b == is_unicode_whitespace(c),
{
    let u = c as u32;
    (0x09 <= u && u <= 0x0D) || u == 0x20 || u == 0x85 || u == 0xA0 || u == 0x1680 || (0x2000
        <= u && u <= 0x200A) || u == 0x2028 || u == 0x2029 || u == 0x202F || u == 0x205F || u
        == 0x3000
}

/// `str::trim_start`: drops the leading whitespace.
pub open spec fn trim_start(s: Seq<char>) -> Seq<char>
    decreases s.len(),
{
    if s.len() > 0 && is_unicode_whitespace(s[0]) {
        trim_start(s.drop_first())
    } else {
        s
    }
}

/// `str::trim_end`: drops the trailing whitespace.
pub open spec fn trim_end(s: Seq<char>) -> Seq<char>
    decreases s.len(),
{
    if s.len() > 0 && is_unicode_whitespace(s.last()) {
        trim_end(s.drop_last())
    } else {
        s
    }
}

/// `str::trim`: drops whitespace at both ends.
pub open spec fn trim(s: Seq<char>) -> Seq<char> {
    trim_end(trim_start(s))
}

/// `s` starts with `p`.
pub open spec fn starts_with(s: Seq<char>, p: Seq<char>) -> bool {
    p.len() <= s.len() && s.take(p.len() as int) == p
}

/// The three backticks that open or close a code fence.
pub open spec fn fence_marker() -> Seq<char> {
    seq!['`', '`', '`']
}

/// A line opens or closes a code fence when, after its leading whitespace, it
/// starts with three backticks.
pub open spec fn is_fence_line(line: Seq<char>) -> bool {
    starts_with(trim_start(line), fence_marker())
}

/// Index just past the line of `s` that contains position `pos` (past its
/// `'\n'`, or the end of `s`), as `str::split_inclusive('\n')` cuts lines.
pub open spec fn line_end(s: Seq<char>, pos: int) -> int
    decreases s.len() - pos,
{
    if pos >= s.len() {
        s.len() as int
    } else if s[pos] == '\n' {
        pos + 1
    } else {
        line_end(s, pos + 1)
    }
}

/// Whether the scan is inside a code fence after the lines of `t` from `pos`
/// on, having been in one (`in_code`) at `pos`.
pub open spec fn fence_state_after(t: Seq<char>, pos: int, in_code: bool) -> bool
    decreases t.len() - pos,
{
    if pos < 0 || pos >= t.len() {
        in_code
    } else {
        let e = line_end(t, pos);
        if e <= pos || e > t.len() {
            in_code
        } else {
            fence_state_after(t, e, in_code != is_fence_line(t.subrange(pos, e)))
        }
    }
}

/// The first line of `s`, from `pos` on, that begins a user turn: it starts at
/// the beginning of a line of `s`, lies outside a code fence, and starts with
/// `"> "`. Fences are tracked line by line from `pos`, starting in `in_code`.
pub open spec fn scan_user_turn(s: Seq<char>, pos: int, in_code: bool) -> Option<int>
    decreases s.len() - pos,
{
    if pos < 0 || pos >= s.len() {
        None
    } else {
        let e = line_end(s, pos);
        if e <= pos || e > s.len() {
            None
        } else {
            let line = s.subrange(pos, e);
            let at_line_start = pos == 0 || s[pos - 1] == '\n';
            if at_line_start && !in_code && starts_with(line, seq!['>', ' ']) {
                Some(pos)
            } else {
                scan_user_turn(s, e, in_code != is_fence_line(line))
            }
        }
    }
}

/// The character position whose prefix of `s` takes `b` bytes.
pub open spec fn char_index_at_byte(s: Seq<char>, b: int) -> int {
    choose|i: int| 0 <= i <= s.len() && utf8_len(s.take(i)) == b
}

/// Where the first user turn at or after byte `cutoff` of `s` begins, in bytes.
/// `cutoff` is first rounded down to a character boundary; the fence state at
/// that point comes from the lines before it (the last of which may be cut).
pub open spec fn user_turn_boundary(s: Seq<char>, cutoff: int) -> Option<int> {
    let c = floor_boundary(encode_utf8(s), cutoff);
    let k = char_index_at_byte(s, c);
    let in_code = fence_state_after(s.take(k), 0, false);
    match scan_user_turn(s, k, in_code) {
        Some(i) => Some(utf8_len(s.take(i)) as int),
        None => None,
    }
}

/// `line_end` stays past `pos` and within the sequence.
pub proof fn lemma_line_end_bounds(s: Seq<char>, pos: int)
    requires
        0 <= pos < s.len(),
    ensures
        pos < line_end(s, pos) <= s.len(),
    decreases s.len() - pos,
{
    if s[pos] != '\n' {
        if pos + 1 < s.len() {
            lemma_line_end_bounds(s, pos + 1);
        } else {
            assert(line_end(s, pos + 1) == s.len());
        }
    }
}

/// A user turn found by the scan lies at or after where the scan started,
/// and starts with `'>'`.
pub proof fn lemma_scan_user_turn_found(s: Seq<char>, pos: int, in_code: bool)
    ensures
        scan_user_turn(s, pos, in_code) matches Some(i) ==> pos <= i < s.len() && s[i] == '>',
    decreases s.len() - pos,
{
    if 0 <= pos < s.len() {
        let e = line_end(s, pos);
        lemma_line_end_bounds(s, pos);
        let line = s.subrange(pos, e);
        if starts_with(line, seq!['>', ' ']) {
            assert(line.take(2)[0] == line[0]);
        }
        lemma_scan_user_turn_found(s, e, in_code != is_fence_line(line));
    }
}

/// The user turn found at or after byte `cutoff` starts at or after it.
pub proof fn lemma_user_turn_boundary_after_cutoff(s: Seq<char>, cutoff: int)
    requires
        cutoff >= 0,
    ensures
        user_turn_boundary(s, cutoff) matches Some(b) ==> cutoff <= b <= utf8_len(s),
{
    let bytes = encode_utf8(s);
    let c = floor_boundary(bytes, cutoff);
    lemma_floor_boundary(bytes, cutoff);
    lemma_char_boundary_iff_prefix(s, c);
    let k = char_index_at_byte(s, c);
    assert(0 <= k <= s.len() && utf8_len(s.take(k)) == c);
    let in_code = fence_state_after(s.take(k), 0, false);
    lemma_scan_user_turn_found(s, k, in_code);
    if let Some(i) = scan_user_turn(s, k, in_code) {
        let b = utf8_len(s.take(i));
        lemma_utf8_len_take_monotone(s, k, i);
        lemma_utf8_len_take_monotone(s, i, s.len() as int);
        assert(s.take(s.len() as int) =~= s);
        if c < cutoff {
            // no boundary lies in (c, cutoff], yet one lies just past the
            // character at position k
            lemma_utf8_len_take_step(s, k);
            assert(char_utf8_len(s[k]) >= 1);
            lemma_prefix_is_char_boundary(s, k + 1);
            lemma_utf8_len_take_monotone(s, k + 1, i);
            if i == k {
                assert(s[k] == '>');
                assert(char_utf8_len('>') == 1);
                assert(utf8_len(s.take(k + 1)) == c + 1);
                assert(!is_char_boundary(bytes, c + 1));
            } else {
                lemma_prefix_is_char_boundary(s, i);
                assert(b > c);
                assert(b > cutoff);
            }
        }
    }
}

/// End of the line at `pos`, looking only at `chars[..limit]`.
pub fn line_end_within(chars: &Vec<char>, pos: usize, limit: usize) -> (e: usize)
    requires
        pos < limit <= chars@.len(),
    ensures
        e == line_end(chars@.take(limit as int), pos as int),
        pos < e <= limit,
{
    let ghost t = chars@.take(limit as int);
    let mut j = pos;
    proof {
        lemma_line_end_bounds(t, pos as int);
    }
    while j < limit && chars[j] != '\n'
        invariant
            pos <= j <= limit,
            limit <= chars@.len(),
            t == chars@.take(limit as int),
            line_end(t, j as int) == line_end(t, pos as int),
        decreases limit - j,
    {
        j = j + 1;
    }
    if j < limit {
        j + 1
    } else {
        j
    }
}

/// Whether `chars[start..end]` is a code-fence line.
pub fn is_fence_range(chars: &Vec<char>, start: usize, end: usize) -> (b: bool)
    requires
        start <= end <= chars@.len(),
    ensures
        b == is_fence_line(chars@.subrange(start as int, end as int)),
{
    let mut j = start;
    while j < end && is_whitespace(chars[j])
        invariant
            start <= j <= end,
            end <= chars@.len(),
            trim_start(chars@.subrange(j as int, end as int)) == trim_start(
                chars@.subrange(start as int, end as int),
            ),
        decreases end - j,
    {
        assert(chars@.subrange(j as int, end as int).drop_first() =~= chars@.subrange(
            j as int + 1,
            end as int,
        ));
        j = j + 1;
    }
    let ghost rest = chars@.subrange(j as int, end as int);
    assert(trim_start(rest) == rest);
    if end - j >= 3 && chars[j] == '`' && chars[j + 1] == '`' && chars[j + 2] == '`' {
        assert(rest.take(3) =~= fence_marker());
        true
    } else {
        assert(!(rest.len() >= 3 && rest.take(3) == fence_marker()) || (rest[0] == '`'
            && rest[1] == '`' && rest[2] == '`')) by {
            if rest.len() >= 3 && rest.take(3) == fence_marker() {
                assert(rest.take(3)[0] == rest[0]);
                assert(rest.take(3)[1] == rest[1]);
                assert(rest.take(3)[2] == rest[2]);
            }
        }
        false
    }
}

/// Byte offset of the first line at or after byte `cutoff` that begins a user
/// turn (a line starting with `"> "` outside code fences), if any.
pub fn find_user_turn_boundary(value: &str, cutoff: usize) -> (r: Option<usize>)
    ensures
        r == (match user_turn_boundary(value@, cutoff as int) {
            Some(i) => Some(i as usize),
            None => None::<usize>,
        }),
        r matches Some(i) ==> is_char_boundary(encode_utf8(value@), i as int),
{
    let c = floor_char_boundary(value, cutoff);
    let chars = chars_of(value);
    let nbytes = value.as_bytes().len();
    let ghost s = value@;
    let offs = char_byte_offsets(&chars);
    let n = chars.len();
    proof {
        assert(s.take(s.len() as int) =~= s);
        lemma_char_boundary_iff_prefix(s, c as int);
    }
    // the character position of the cutoff
    let mut k: usize = 0;
    while offs[k] < c
        invariant
            k <= n,
            n == s.len(),
            offs@.len() == n + 1,
            chars@ == s,
            forall|i: int| 0 <= i <= n ==> #[trigger] offs@[i] == utf8_len(s.take(i)),
            forall|i: int| 0 <= i < k ==> utf8_len(s.take(i)) < c,
            exists|i: int| 0 <= i <= s.len() && #[trigger] utf8_len(s.take(i)) == c,
        decreases n - k,
    {
        proof {
            if k == n {
                let i = choose|i: int| 0 <= i <= s.len() && #[trigger] utf8_len(s.take(i)) == c;
                lemma_utf8_len_take_monotone(s, i, n as int);
                assert(false);
            }
        }
        k = k + 1;
    }
    proof {
        let i = choose|i: int| 0 <= i <= s.len() && #[trigger] utf8_len(s.take(i)) == c;
        if i < k {
            assert(utf8_len(s.take(i)) < c);
        } else if i > k {
            lemma_utf8_len_take_monotone(s, k as int, i);
        }
        assert(i == k);
        // k is the unique character position at byte c
        assert forall|j: int|
            0 <= j <= s.len() && #[trigger] utf8_len(s.take(j)) == c implies j == k by {
            if j < k {
                lemma_utf8_len_take_monotone(s, j, k as int);
            } else if j > k {
                lemma_utf8_len_take_monotone(s, k as int, j);
            }
        }
        assert(char_index_at_byte(s, c as int) == k);
    }
    // fence state from the lines before the cutoff
    let ghost t = s.take(k as int);
    let mut in_code = false;
    let mut pos: usize = 0;
    while pos < k
        invariant
            pos <= k <= n,
            n == s.len(),
            chars@ == s,
            t == s.take(k as int),
            fence_state_after(t, pos as int, in_code) == fence_state_after(t, 0, false),
        decreases k - pos,
    {
        let e = line_end_within(&chars, pos, k);
        let fence = is_fence_range(&chars, pos, e);
        assert(t.subrange(pos as int, e as int) =~= chars@.subrange(pos as int, e as int));
        in_code = in_code != fence;
        pos = e;
    }
    // scan the lines from the cutoff on
    let ghost start_state = in_code;
    assert(fence_state_after(t, 0, false) == start_state);
    pos = k;
    while pos < n
        invariant
            k <= pos <= n,
            n == s.len(),
            chars@ == s,
            offs@.len() == n + 1,
            forall|i: int| 0 <= i <= n ==> #[trigger] offs@[i] == utf8_len(s.take(i)),
            scan_user_turn(s, pos as int, in_code) == scan_user_turn(s, k as int, start_state),
            s == value@,
            char_index_at_byte(s, c as int) == k,
            floor_boundary(encode_utf8(s), cutoff as int) == c,
            fence_state_after(s.take(k as int), 0, false) == start_state,
        decreases n - pos,
    {
        let e = line_end_within(&chars, pos, n);
        assert(s.take(n as int) =~= s);
        let ghost line = s.subrange(pos as int, e as int);
        let at_line_start = pos == 0 || chars[pos - 1] == '\n';
        let quoted = e - pos >= 2 && chars[pos] == '>' && chars[pos + 1] == ' ';
        proof {
            if starts_with(line, seq!['>', ' ']) {
                assert(line.take(2)[0] == line[0]);
                assert(line.take(2)[1] == line[1]);
            }
            if quoted {
                assert(line.take(2) =~= seq!['>', ' ']);
            }
        }
        if at_line_start && !in_code && quoted {
            proof {
                lemma_prefix_is_char_boundary(s, pos as int);
                assert(scan_user_turn(s, pos as int, in_code) == Some(pos as int));
                lemma_utf8_len_take_monotone(s, pos as int, n as int);
                assert(offs@[pos as int] == utf8_len(s.take(pos as int)));
                assert(is_char_boundary(encode_utf8(s), offs@[pos as int] as int));
                assert(scan_user_turn(s, k as int, start_state) == Some(pos as int));
                assert(char_index_at_byte(s, c as int) == k);
                assert(floor_boundary(encode_utf8(s), cutoff as int) == c);
                assert(user_turn_boundary(s, cutoff as int) == Some(offs@[pos as int] as int));
            }
            return Some(offs[pos]);
        }
        let fence = is_fence_range(&chars, pos, e);
        in_code = in_code != fence;
        pos = e;
    }
    None
}

} // verus!
