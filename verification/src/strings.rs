//! Contracts for the few `String`/`str` operations of std that the library
//! uses and that vstd does not specify.
use vstd::prelude::*;
use vstd::utf8::*;

verus! {

/// `String::push`: appends one character at the end of the string.
#[verifier::external_body]
pub(crate) fn string_push(s: &mut String, c: char)
    ensures
        final(s)@ == old(s)@.push(c),
{
    s.push(c);
}

/// `String::push_str`: appends the characters of `t` at the end of the string.
#[verifier::external_body]
pub(crate) fn string_push_str(s: &mut String, t: &str)
    ensures
        final(s)@ == old(s)@ + t@,
{
    s.push_str(t);
}

/// `String::pop`: removes the last character and returns it, or returns `None`
/// and leaves the string alone when it is empty.
#[verifier::external_body]
pub(crate) fn string_pop(s: &mut String) -> (r: Option<char>)
    ensures
        old(s)@.len() == 0 ==> r is None && final(s)@ == old(s)@,
        old(s)@.len() > 0 ==> r == Some(old(s)@.last()) && final(s)@ == old(s)@.drop_last(),
{
    s.pop()
}

/// `String::truncate`: keeps the first `new_len` bytes. std documents a panic
/// when `new_len` is not a character boundary, which `requires` rules out.
#[verifier::external_body]
pub(crate) fn string_truncate(s: &mut String, new_len: usize)
    requires
        new_len <= encode_utf8(old(s)@).len(),
        is_char_boundary(encode_utf8(old(s)@), new_len as int),
    ensures
        encode_utf8(final(s)@) == encode_utf8(old(s)@).take(new_len as int),
{
    s.truncate(new_len);
}

/// `String::clear`: empties the string.
#[verifier::external_body]
pub(crate) fn string_clear(s: &mut String)
    ensures
        final(s)@ == Seq::<char>::empty(),
{
    s.clear();
}

/// What `str::to_lowercase` returns for the characters of its argument (the
/// full Unicode lowercase mapping, which may change the number of characters).
pub uninterp spec fn lowercase(s: Seq<char>) -> Seq<char>;

/// `str::to_lowercase`; its result is named by [`lowercase`].
#[verifier::external_body]
pub(crate) fn to_lowercase(s: &str) -> (r: String)
    ensures
        r@ == lowercase(s@),
{
    s.to_lowercase()
}

/// A `String` holding exactly the characters of `v`.
pub fn string_from_chars(v: &Vec<char>) -> (s: String)
    ensures
        s@ == v@,
{
    let mut s = String::new();
    let mut i: usize = 0;
    while i < v.len()
        invariant
            i <= v@.len(),
            s@ == v@.take(i as int),
        decreases v@.len() - i,
    {
        assert(v@.take(i as int + 1) =~= v@.take(i as int).push(v@[i as int]));
        string_push(&mut s, v[i]);
        i = i + 1;
    }
    assert(v@.take(v@.len() as int) =~= v@);
    s
}

} // verus!
