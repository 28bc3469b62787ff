//! Facts about the UTF-8 encoding of character sequences: how byte offsets
//! line up with character positions, and which byte offsets are character
//! boundaries.
use vstd::prelude::*;
use vstd::utf8::*;

verus! {

broadcast use vstd::utf8::group_utf8_lib;

/// Number of bytes in the UTF-8 encoding of `s`.
pub open spec fn utf8_len(s: Seq<char>) -> nat {
    encode_utf8(s).len()
}

/// Number of bytes in the UTF-8 encoding of the single character `c`.
pub open spec fn char_utf8_len(c: char) -> nat {
    encode_scalar(c as u32).len()
}

/// Encoding distributes over concatenation.
pub proof fn lemma_encode_utf8_concat(a: Seq<char>, b: Seq<char>)
    ensures
        encode_utf8(a + b) == encode_utf8(a) + encode_utf8(b),
    decreases a.len(),
{
    if a.len() == 0 {
        assert(a + b =~= b);
        assert(encode_utf8(a) =~= Seq::<u8>::empty());
        assert(encode_utf8(a) + encode_utf8(b) =~= encode_utf8(b));
    } else {
        assert((a + b).drop_first() =~= a.drop_first() + b);
        assert((a + b)[0] == a[0]);
        lemma_encode_utf8_concat(a.drop_first(), b);
        assert(encode_utf8(a + b) =~= encode_scalar(a[0] as u32) + encode_utf8(a.drop_first() + b));
        assert(encode_utf8(a) + encode_utf8(b) =~= encode_scalar(a[0] as u32) + (encode_utf8(
            a.drop_first(),
        ) + encode_utf8(b)));
    }
}

/// The encoding of a one-character sequence is the encoding of that character.
pub proof fn lemma_encode_utf8_single(c: char)
    ensures
        encode_utf8(seq![c]) == encode_scalar(c as u32),
{
    let s = seq![c];
    assert(s.drop_first() =~= Seq::<char>::empty());
    assert(s[0] == c);
    assert(encode_utf8(s.drop_first()) =~= Seq::<u8>::empty());
    assert(encode_utf8(s) == encode_scalar(s[0] as u32) + encode_utf8(s.drop_first()));
    assert(encode_scalar(c as u32) + Seq::<u8>::empty() =~= encode_scalar(c as u32));
}

/// Appending one character adds that character's encoding length.
pub proof fn lemma_utf8_len_take_step(s: Seq<char>, i: int)
    requires
        0 <= i < s.len(),
    ensures
        utf8_len(s.take(i + 1)) == utf8_len(s.take(i)) + char_utf8_len(s[i]),
        encode_utf8(s.take(i + 1)) == encode_utf8(s.take(i)) + encode_scalar(s[i] as u32),
{
    assert(s.take(i + 1) =~= s.take(i) + seq![s[i]]);
    lemma_encode_utf8_concat(s.take(i), seq![s[i]]);
    lemma_encode_utf8_single(s[i]);
}

/// The encoding of a prefix of characters is a prefix of the encoding.
pub proof fn lemma_encode_take(s: Seq<char>, i: int)
    requires
        0 <= i <= s.len(),
    ensures
        encode_utf8(s.take(i)) == encode_utf8(s).take(utf8_len(s.take(i)) as int),
        encode_utf8(s.skip(i)) == encode_utf8(s).skip(utf8_len(s.take(i)) as int),
        utf8_len(s.take(i)) <= utf8_len(s),
{
    assert(s =~= s.take(i) + s.skip(i));
    lemma_encode_utf8_concat(s.take(i), s.skip(i));
    assert(encode_utf8(s.take(i)) =~= encode_utf8(s).take(utf8_len(s.take(i)) as int));
    assert(encode_utf8(s.skip(i)) =~= encode_utf8(s).skip(utf8_len(s.take(i)) as int));
}

/// Byte offsets of character prefixes grow with the prefix.
pub proof fn lemma_utf8_len_take_monotone(s: Seq<char>, i: int, j: int)
    requires
        0 <= i <= j <= s.len(),
    ensures
        utf8_len(s.take(i)) <= utf8_len(s.take(j)),
        i < j ==> utf8_len(s.take(i)) < utf8_len(s.take(j)),
    decreases j - i,
{
    if i < j {
        lemma_utf8_len_take_step(s, j - 1);
        lemma_utf8_len_take_monotone(s, i, j - 1);
    }
}

/// A byte offset into the encoding of `s` is a character boundary exactly when
/// it is the encoded length of some prefix of `s`.
pub proof fn lemma_char_boundary_iff_prefix(s: Seq<char>, b: int)
    ensures
        is_char_boundary(encode_utf8(s), b) <==> exists|i: int|
            0 <= i <= s.len() && #[trigger] utf8_len(s.take(i)) == b,
    decreases s.len(),
{
    let bytes = encode_utf8(s);
    if b == 0 {
        assert(s.take(0) =~= Seq::<char>::empty());
        assert(utf8_len(s.take(0)) == 0);
    } else if b < 0 || bytes.len() < b {
        if exists|i: int| 0 <= i <= s.len() && #[trigger] utf8_len(s.take(i)) == b {
            let i = choose|i: int| 0 <= i <= s.len() && #[trigger] utf8_len(s.take(i)) == b;
            lemma_encode_take(s, i);
        }
    } else {
        // here s is non-empty, since bytes.len() >= b > 0
        assert(s.len() > 0);
        encode_utf8_first_scalar(s);
        let w = char_utf8_len(s[0]) as int;
        let rest = s.drop_first();
        assert(pop_first_scalar(bytes) =~= encode_utf8(rest));
        lemma_char_boundary_iff_prefix(rest, b - w);
        if is_char_boundary(bytes, b) {
            let j = choose|j: int| 0 <= j <= rest.len() && #[trigger] utf8_len(rest.take(j)) == b - w;
            assert(s.take(j + 1) =~= seq![s[0]] + rest.take(j));
            lemma_encode_utf8_concat(seq![s[0]], rest.take(j));
            lemma_encode_utf8_single(s[0]);
            assert(utf8_len(s.take(j + 1)) == b);
        } else {
            if exists|i: int| 0 <= i <= s.len() && #[trigger] utf8_len(s.take(i)) == b {
                let i = choose|i: int| 0 <= i <= s.len() && #[trigger] utf8_len(s.take(i)) == b;
                if i == 0 {
                    assert(s.take(0) =~= Seq::<char>::empty());
                } else {
                    assert(s.take(i) =~= seq![s[0]] + rest.take(i - 1));
                    lemma_encode_utf8_concat(seq![s[0]], rest.take(i - 1));
                    lemma_encode_utf8_single(s[0]);
                    assert(utf8_len(rest.take(i - 1)) == b - w);
                }
            }
        }
    }
}

/// Every prefix of `s` ends on a character boundary of its encoding.
pub proof fn lemma_prefix_is_char_boundary(s: Seq<char>, i: int)
    requires
        0 <= i <= s.len(),
    ensures
        is_char_boundary(encode_utf8(s), utf8_len(s.take(i)) as int),
{
    lemma_char_boundary_iff_prefix(s, utf8_len(s.take(i)) as int);
}

/// A character takes one to four bytes.
pub proof fn lemma_char_utf8_len_bound(c: char)
    ensures
        1 <= char_utf8_len(c) <= 4,
{
    char_is_scalar(c);
}

/// Text takes at least one and at most four bytes per character.
pub proof fn lemma_utf8_len_bound(s: Seq<char>)
    ensures
        s.len() <= utf8_len(s) <= 4 * s.len(),
    decreases s.len(),
{
    if s.len() > 0 {
        let k = s.len() - 1;
        lemma_utf8_len_bound(s.take(k));
        lemma_utf8_len_take_step(s, k);
        lemma_char_utf8_len_bound(s[k]);
        assert(s.take(k + 1) =~= s);
        assert(s.take(k).len() == k);
    }
}

/// Number of bytes of the UTF-8 encoding of `c`.
pub fn len_utf8(c: char) -> (n: usize)
    ensures
        n == char_utf8_len(c),
        1 <= n <= 4,
{
    let u = c as u32;
    proof {
        char_is_scalar(c);
    }
    if u < 0x80 {
        1
    } else if u < 0x800 {
        2
    } else if u < 0x10000 {
        3
    } else {
        4
    }
}

/// Byte offset of every character position of `s`: entry `i` is the number of
/// bytes taken by the first `i` characters, and the last entry is the length.
pub fn char_byte_offsets(s: &Vec<char>) -> (offs: Vec<usize>)
    requires
        utf8_len(s@) <= usize::MAX,
    ensures
        offs@.len() == s@.len() + 1,
        forall|i: int| 0 <= i <= s@.len() ==> #[trigger] offs@[i] == utf8_len(s@.take(i)),
{
    let mut offs: Vec<usize> = Vec::new();
    let mut total: usize = 0;
    offs.push(0);
    assert(s@.take(0) =~= Seq::<char>::empty());
    let mut i: usize = 0;
    while i < s.len()
        invariant
            i <= s@.len(),
            utf8_len(s@) <= usize::MAX,
            offs@.len() == i + 1,
            total == utf8_len(s@.take(i as int)),
            forall|j: int| 0 <= j <= i ==> #[trigger] offs@[j] == utf8_len(s@.take(j)),
        decreases s@.len() - i,
    {
        proof {
            lemma_utf8_len_take_step(s@, i as int);
            lemma_utf8_len_take_monotone(s@, i as int + 1, s@.len() as int);
            assert(s@.take(s@.len() as int) =~= s@);
        }
        let w = len_utf8(s[i]);
        total = total + w;
        offs.push(total);
        i = i + 1;
    }
    offs
}

} // verus!
