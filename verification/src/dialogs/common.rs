//! What the list dialogs share: filtering a list by a predicate, the first
//! entry that matches, and cyclic movement of a selection.
use vstd::prelude::*;

verus! {

#[verifier::external_type_specification]
#[verifier::external_body]
pub struct ExPathBuf(std::path::PathBuf);

/// `PathBuf::clone`; nothing is stated of the copy.
pub assume_specification[ <std::path::PathBuf as Clone>::clone ](p: &std::path::PathBuf) -> std::path::PathBuf;

/// The entries of `s` that satisfy `p`, in order.
pub open spec fn filter_by<T>(s: Seq<T>, p: spec_fn(T) -> bool) -> Seq<T>
    decreases s.len(),
{
    if s.len() == 0 {
        Seq::empty()
    } else {
        let r = filter_by(s.drop_last(), p);
        if p(s.last()) {
            r.push(s.last())
        } else {
            r
        }
    }
}

/// Extending the input by one entry extends the filtered list by that entry
/// exactly when it matches.
pub proof fn lemma_filter_by_step<T>(s: Seq<T>, p: spec_fn(T) -> bool, i: int)
    requires
        0 <= i < s.len(),
    ensures
        filter_by(s.take(i + 1), p) == if p(s[i]) {
            filter_by(s.take(i), p).push(s[i])
        } else {
            filter_by(s.take(i), p)
        },
{
    assert(s.take(i + 1).drop_last() =~= s.take(i));
    assert(s.take(i + 1).last() == s[i]);
}

/// The filtered list is no longer than the input.
pub proof fn lemma_filter_by_len<T>(s: Seq<T>, p: spec_fn(T) -> bool)
    ensures
        filter_by(s, p).len() <= s.len(),
    decreases s.len(),
{
    if s.len() > 0 {
        lemma_filter_by_len(s.drop_last(), p);
    }
}

/// Every entry of the filtered list satisfies the predicate.
pub proof fn lemma_filter_by_matches<T>(s: Seq<T>, p: spec_fn(T) -> bool)
    ensures
        forall|i: int| 0 <= i < filter_by(s, p).len() ==> p(#[trigger] filter_by(s, p)[i]),
    decreases s.len(),
{
    if s.len() > 0 {
        lemma_filter_by_matches(s.drop_last(), p);
        let r = filter_by(s.drop_last(), p);
        assert forall|i: int| 0 <= i < filter_by(s, p).len() implies p(
            #[trigger] filter_by(s, p)[i],
        ) by {
            if i < r.len() {
                assert(filter_by(s, p)[i] == r[i]);
            }
        }
    }
}

/// The values behind a sequence of references.
pub open spec fn deref_seq<T>(s: Seq<&T>) -> Seq<T> {
    Seq::new(s.len(), |i: int| *s[i])
}

/// Index of the first entry of `s` that satisfies `p`, or 0 when none does.
pub open spec fn first_index_or_zero<T>(s: Seq<T>, p: spec_fn(T) -> bool) -> int {
    if exists|i: int| 0 <= i < s.len() && p(s[i]) {
        choose|i: int| 0 <= i < s.len() && p(s[i]) && forall|j: int| 0 <= j < i ==> !p(s[j])
    } else {
        0
    }
}

pub proof fn lemma_first_index_found<T>(s: Seq<T>, p: spec_fn(T) -> bool, k: int)
    requires
        0 <= k < s.len(),
        p(s[k]),
        forall|j: int| 0 <= j < k ==> !p(s[j]),
    ensures
        first_index_or_zero(s, p) == k,
{
    let i = choose|i: int| 0 <= i < s.len() && p(s[i]) && forall|j: int| 0 <= j < i ==> !p(s[j]);
    if i < k {
        assert(!p(s[i]));
    }
    if k < i {
        assert(!p(s[k]));
    }
}

pub proof fn lemma_first_index_absent<T>(s: Seq<T>, p: spec_fn(T) -> bool)
    requires
        forall|j: int| 0 <= j < s.len() ==> !p(s[j]),
    ensures
        first_index_or_zero(s, p) == 0,
{
}

/// The selection after moving down one entry in a list of `count` entries,
/// wrapping from the last entry to the first; unchanged for an empty list.
pub open spec fn cycle_next(selected: nat, count: nat) -> nat {
    if count > 0 {
        (selected + 1) % count
    } else {
        selected
    }
}

/// The selection after moving up one entry, wrapping from the first entry
/// (or from anywhere past the end) to the last; unchanged for an empty list.
pub open spec fn cycle_prev(selected: nat, count: nat) -> nat {
    if count > 0 {
        if selected == 0 || selected >= count {
            (count - 1) as nat
        } else {
            (selected - 1) as nat
        }
    } else {
        selected
    }
}

/// The selection after moving up one entry, wrapping from the first entry to
/// the last; unchanged for an empty list.
pub open spec fn step_back(selected: nat, count: nat) -> nat {
    if count > 0 {
        if selected == 0 {
            (count - 1) as nat
        } else {
            (selected - 1) as nat
        }
    } else {
        selected
    }
}

/// Like [`cycle_next`], but an empty list resets the selection to 0.
pub open spec fn cycle_next_or_reset(selected: nat, count: nat) -> nat {
    if count > 0 {
        (selected + 1) % count
    } else {
        0
    }
}

/// Like [`cycle_prev`], but an empty list resets the selection to 0.
pub open spec fn cycle_prev_or_reset(selected: nat, count: nat) -> nat {
    if count > 0 {
        cycle_prev(selected, count)
    } else {
        0
    }
}

/// `(selected + 1) % count`, for every `selected` (no overflow).
pub fn next_index(selected: usize, count: usize) -> (r: usize)
    requires
        count > 0,
    ensures
        r == (selected + 1) % (count as int),
        r < count,
{
    let m = selected % count;
    proof {
        vstd::arithmetic::div_mod::lemma_add_mod_noop(selected as int, 1, count as int);
        if count == 1 {
            assert(1int % 1 == 0);
            assert(0int % 1 == 0);
        } else {
            vstd::arithmetic::div_mod::lemma_small_mod(1, count as nat);
        }
        // now ((m + 1 % count) % count) == (selected + 1) % count
        if m + 1 < count {
            vstd::arithmetic::div_mod::lemma_small_mod((m + 1) as nat, count as nat);
        } else {
            assert(m + 1 == count);
            vstd::arithmetic::div_mod::lemma_mod_self_0(count as int);
        }
    }
    if m + 1 == count {
        0
    } else {
        m + 1
    }
}

} // verus!
