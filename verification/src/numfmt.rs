//! Decimal rendering of integers, as `format!("{}", n)` writes them.
use vstd::prelude::*;

use crate::strings::string_push;

verus! {

/// The ASCII digit for `d` (below ten).
pub open spec fn digit_char(d: nat) -> char {
    ((('0' as u32) + d) as u32) as char
}

/// The decimal digits of `n`, most significant first, without leading zeros
/// (`"0"` for zero).
pub open spec fn decimal(n: nat) -> Seq<char>
    decreases n,
{
    if n < 10 {
        seq![digit_char(n)]
    } else {
        decimal(n / 10).push(digit_char(n % 10))
    }
}

/// `format!("{}", n)` for a signed integer: a minus sign before the digits of
/// the magnitude when negative.
pub open spec fn signed_decimal(n: int) -> Seq<char> {
    if n < 0 {
        seq!['-'] + decimal((-n) as nat)
    } else {
        decimal(n as nat)
    }
}

fn digit(d: u64) -> (c: char)
    requires
        d < 10,
    ensures
        c == digit_char(d as nat),
{
    let digits = ['0', '1', '2', '3', '4', '5', '6', '7', '8', '9'];
    let c = digits[d as usize];
    assert(c == digit_char(d as nat)) by {
        assert(digits@[d as int] == c);
    }
    c
}

/// Appends the decimal digits of `n` to `s`.
pub fn push_decimal(s: &mut String, n: u64)
    ensures
        final(s)@ == old(s)@ + decimal(n as nat),
    decreases n,
{
    if n >= 10 {
        push_decimal(s, n / 10);
    }
    let ghost before = s@;
    string_push(s, digit(n % 10));
    proof {
        if n >= 10 {
            assert(s@ =~= old(s)@ + decimal(n as nat));
        } else {
            assert(s@ =~= old(s)@ + decimal(n as nat));
        }
    }
}

/// The decimal digits of `n`.
pub fn u64_to_decimal(n: u64) -> (s: String)
    ensures
        s@ == decimal(n as nat),
{
    let mut s = String::new();
    push_decimal(&mut s, n);
    assert(Seq::<char>::empty() + decimal(n as nat) =~= decimal(n as nat));
    s
}

/// The decimal form of `n`, with a leading minus sign when negative.
pub fn i64_to_decimal(n: i64) -> (s: String)
    ensures
        s@ == signed_decimal(n as int),
{
    let mut s = String::new();
    if n < 0 {
        string_push(&mut s, '-');
        let magnitude: u64 = if n == i64::MIN {
            9223372036854775808u64
        } else {
            (-n) as u64
        };
        push_decimal(&mut s, magnitude);
        assert(s@ =~= seq!['-'] + decimal((-n) as nat));
    } else {
        push_decimal(&mut s, n as u64);
        assert(s@ =~= decimal(n as nat));
    }
    s
}

/// How a model's context window is shown: empty for zero, whole millions as
/// `"<n>M"`, whole thousands as `"<n>k"`, smaller sizes as digits.
pub open spec fn context_window_label(ctx: nat) -> Seq<char> {
    if ctx == 0 {
        Seq::empty()
    } else if ctx >= 1_000_000 {
        decimal(ctx / 1_000_000).push('M')
    } else if ctx >= 1_000 {
        decimal(ctx / 1_000).push('k')
    } else {
        decimal(ctx)
    }
}

/// Short label for a context window size (see [`context_window_label`]).
pub fn format_context_window(ctx: u64) -> (s: String)
    ensures
        s@ == context_window_label(ctx as nat),
{
    if ctx == 0 {
        String::new()
    } else if ctx >= 1_000_000 {
        let mut s = u64_to_decimal(ctx / 1_000_000);
        string_push(&mut s, 'M');
        s
    } else if ctx >= 1_000 {
        let mut s = u64_to_decimal(ctx / 1_000);
        string_push(&mut s, 'k');
        s
    } else {
        u64_to_decimal(ctx)
    }
}

} // verus!
