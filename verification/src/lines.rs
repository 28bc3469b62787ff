//! Lines of text as `str::lines` yields them, and trimming.
use vstd::prelude::*;

use crate::search::{seq_contains, str_starts_with};
use crate::strings::string_from_chars;
use crate::text::{
    chars_of, is_unicode_whitespace, is_whitespace, line_end, line_end_within, starts_with, trim,
    trim_end, trim_start,
};

verus! {

/// A line without its line ending: the final `'\n'`, and a `'\r'` before it.
pub open spec fn strip_line_ending(piece: Seq<char>) -> Seq<char> {
    if piece.len() > 0 && piece.last() == '\n' {
        let p = piece.drop_last();
        if p.len() > 0 && p.last() == '\r' {
            p.drop_last()
        } else {
            p
        }
    } else {
        piece
    }
}

/// The lines of `s` from position `pos` on.
pub open spec fn lines_from(s: Seq<char>, pos: int) -> Seq<Seq<char>>
    decreases s.len() - pos,
{
    if pos < 0 || pos >= s.len() {
        Seq::empty()
    } else {
        let e = line_end(s, pos);
        if e <= pos || e > s.len() {
            Seq::empty()
        } else {
            seq![strip_line_ending(s.subrange(pos, e))] + lines_from(s, e)
        }
    }
}

/// `str::lines`: the text cut after each `'\n'`, with line endings removed;
/// a final line ending does not start another line, and empty text has none.
pub open spec fn lines(s: Seq<char>) -> Seq<Seq<char>> {
    lines_from(s, 0)
}

/// A search-result line: after its indentation it starts with an ASCII digit
/// and it contains `". "`.
pub open spec fn is_numbered_result_line(line: Seq<char>) -> bool {
    let t = trim_start(line);
    &&& t.len() > 0
    &&& '0' <= t[0] && t[0] <= '9'
    &&& seq_contains(t, seq!['.', ' '])
}

/// Number of lines of `ls` that are search-result lines.
pub open spec fn count_numbered_result_lines(ls: Seq<Seq<char>>) -> nat
    decreases ls.len(),
{
    if ls.len() == 0 {
        0
    } else {
        (if is_numbered_result_line(ls[0]) {
            1nat
        } else {
            0nat
        }) + count_numbered_result_lines(ls.drop_first())
    }
}

/// The characters of `v[lo..hi]`.
pub fn sub_vec(v: &Vec<char>, lo: usize, hi: usize) -> (r: Vec<char>)
    requires
        lo <= hi <= v@.len(),
    ensures
        r@ == v@.subrange(lo as int, hi as int),
{
    let mut r: Vec<char> = Vec::new();
    let mut i = lo;
    while i < hi
        invariant
            lo <= i <= hi,
            hi <= v@.len(),
            r@ == v@.subrange(lo as int, i as int),
        decreases hi - i,
    {
        r.push(v[i]);
        i = i + 1;
        assert(r@ =~= v@.subrange(lo as int, i as int));
    }
    r
}

/// Where the trimmed text of `v[lo..hi]` starts and ends.
pub fn trim_bounds(v: &Vec<char>, lo: usize, hi: usize) -> (r: (usize, usize))
    requires
        lo <= hi <= v@.len(),
    ensures
        lo <= r.0 <= r.1 <= hi,
        v@.subrange(r.0 as int, r.1 as int) == trim(v@.subrange(lo as int, hi as int)),
        v@.subrange(r.0 as int, hi as int) == trim_start(v@.subrange(lo as int, hi as int)),
{
    let mut a = lo;
    while a < hi && is_whitespace(v[a])
        invariant
            lo <= a <= hi,
            hi <= v@.len(),
            trim_start(v@.subrange(a as int, hi as int)) == trim_start(
                v@.subrange(lo as int, hi as int),
            ),
        decreases hi - a,
    {
        assert(v@.subrange(a as int, hi as int).drop_first() =~= v@.subrange(
            a as int + 1,
            hi as int,
        ));
        a = a + 1;
    }
    let ghost ts = v@.subrange(a as int, hi as int);
    assert(trim_start(ts) == ts);
    let mut b = hi;
    while b > a && is_whitespace(v[b - 1])
        invariant
            a <= b <= hi,
            hi <= v@.len(),
            ts == v@.subrange(a as int, hi as int),
            trim_end(v@.subrange(a as int, b as int)) == trim_end(ts),
        decreases b - a,
    {
        assert(v@.subrange(a as int, b as int).drop_last() =~= v@.subrange(
            a as int,
            b as int - 1,
        ));
        b = b - 1;
    }
    assert(trim_end(v@.subrange(a as int, b as int)) == v@.subrange(a as int, b as int));
    (a, b)
}

/// `str::trim`: the text without whitespace at either end.
pub fn trimmed(s: &str) -> (r: String)
    ensures
        r@ == trim(s@),
{
    let v = chars_of(s);
    let (a, b) = trim_bounds(&v, 0, v.len());
    assert(v@.subrange(0, v@.len() as int) =~= v@);
    let t = sub_vec(&v, a, b);
    string_from_chars(&t)
}

/// End of the line content that starts at `pos` and whose piece ends at `e`.
pub fn content_end_of(v: &Vec<char>, pos: usize, e: usize) -> (c: usize)
    requires
        pos < e <= v@.len(),
    ensures
        pos <= c <= e,
        v@.subrange(pos as int, c as int) == strip_line_ending(v@.subrange(pos as int, e as int)),
{
    let ghost piece = v@.subrange(pos as int, e as int);
    if v[e - 1] == '\n' {
        assert(piece.drop_last() =~= v@.subrange(pos as int, e - 1));
        if e - 1 > pos && v[e - 2] == '\r' {
            assert(piece.drop_last().drop_last() =~= v@.subrange(pos as int, e - 2));
            e - 2
        } else {
            e - 1
        }
    } else {
        e
    }
}

/// `s.lines().count()`.
pub fn line_count(s: &str) -> (n: usize)
    ensures
        n == lines(s@).len(),
{
    let v = chars_of(s);
    let len = v.len();
    let mut pos: usize = 0;
    let mut count: usize = 0;
    assert(v@.take(len as int) =~= v@);
    while pos < len
        invariant
            pos <= len,
            len == v@.len(),
            v@ == s@,
            v@.take(len as int) == v@,
            count <= pos,
            count + lines_from(v@, pos as int).len() == lines(v@).len(),
        decreases len - pos,
    {
        let e = line_end_within(&v, pos, len);
        count = count + 1;
        pos = e;
    }
    count
}

/// Number of search-result lines of `s` (see [`is_numbered_result_line`]).
pub fn numbered_result_line_count(s: &str) -> (n: usize)
    ensures
        n == count_numbered_result_lines(lines(s@)),
{
    let v = chars_of(s);
    let len = v.len();
    let mut pos: usize = 0;
    let mut count: usize = 0;
    assert(v@.take(len as int) =~= v@);
    let dot_space = vec!['.', ' '];
    while pos < len
        invariant
            pos <= len,
            len == v@.len(),
            v@ == s@,
            v@.take(len as int) == v@,
            dot_space@ == seq!['.', ' '],
            count <= pos,
            count + count_numbered_result_lines(lines_from(v@, pos as int))
                == count_numbered_result_lines(lines(v@)),
        decreases len - pos,
    {
        let e = line_end_within(&v, pos, len);
        let c = content_end_of(&v, pos, e);
        let ghost line = v@.subrange(pos as int, c as int);
        let (a, _b) = trim_bounds(&v, pos, c);
        let ghost t = v@.subrange(a as int, c as int);
        assert(t == trim_start(line));
        let mut hit = false;
        if a < c && '0' <= v[a] && v[a] <= '9' {
            let rest = sub_vec(&v, a, c);
            hit = crate::search::chars_contain(&rest, &dot_space);
        }
        assert(hit == is_numbered_result_line(line));
        let ghost ls = lines_from(v@, pos as int);
        assert(ls[0] == line);
        assert(ls.drop_first() =~= lines_from(v@, e as int));
        if hit {
            count = count + 1;
        }
        pos = e;
    }
    count
}

/// The text of each string.
pub open spec fn string_views(v: Seq<String>) -> Seq<Seq<char>> {
    v.map_values(|l: String| l@)
}

/// `s.lines()`, collected.
pub fn split_lines(s: &str) -> (r: Vec<String>)
    ensures
        string_views(r@) == lines(s@),
{
    let v = chars_of(s);
    let len = v.len();
    let mut pos: usize = 0;
    let mut out: Vec<String> = Vec::new();
    assert(v@.take(len as int) =~= v@);
    while pos < len
        invariant
            pos <= len,
            len == v@.len(),
            v@ == s@,
            v@.take(len as int) == v@,
            string_views(out@) + lines_from(v@, pos as int) == lines(v@),
        decreases len - pos,
    {
        let e = line_end_within(&v, pos, len);
        let c = content_end_of(&v, pos, e);
        let piece = sub_vec(&v, pos, c);
        let line = string_from_chars(&piece);
        let ghost ls = lines_from(v@, pos as int);
        assert(ls[0] == line@);
        assert(ls.drop_first() =~= lines_from(v@, e as int));
        proof {
            let old_views = string_views(out@);
            assert(string_views(out@.push(line)) =~= old_views.push(line@));
            assert(old_views.push(line@) + ls.drop_first() =~= old_views + ls);
        }
        out.push(line);
        pos = e;
    }
    assert(lines_from(v@, pos as int) =~= Seq::<Seq<char>>::empty());
    assert(string_views(out@) + Seq::<Seq<char>>::empty() =~= string_views(out@));
    out
}

/// `s.strip_prefix(p).unwrap_or(s)`: `s` without a leading `p`.
pub open spec fn strip_prefix(s: Seq<char>, p: Seq<char>) -> Seq<char> {
    if starts_with(s, p) {
        s.skip(p.len() as int)
    } else {
        s
    }
}

/// `s` without a leading `p` (see [`strip_prefix`]).
pub fn without_prefix(s: &str, p: &str) -> (r: String)
    ensures
        r@ == strip_prefix(s@, p@),
{
    if str_starts_with(s, p) {
        let v = chars_of(s);
        let w = chars_of(p);
        let rest = sub_vec(&v, w.len(), v.len());
        assert(rest@ =~= s@.skip(p@.len() as int));
        string_from_chars(&rest)
    } else {
        s.to_owned()
    }
}

} // verus!
