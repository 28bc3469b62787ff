//! JSON values as tool arguments and tool metadata carry them, and the few
//! lookups the tool views make in them.
use vstd::prelude::*;

use crate::search::str_eq;

verus! {

/// `serde_json::Value`, declared so that its parser can be called; the
/// library reads values through [`JsonValue`].
#[verifier::external_type_specification]
#[verifier::external_body]
pub struct ExSerdeJsonValue(serde_json::Value);

/// A JSON value. A number is kept as the text that serde_json prints for it;
/// the members of an object come in the order serde_json's map yields them
/// (sorted by key).
#[derive(Debug, PartialEq, Eq)]
pub enum JsonValue {
    Null,
    Bool(bool),
    Number(String),
    String(String),
    Array(Vec<JsonValue>),
    Object(Vec<(String, JsonValue)>),
}

/// The value of the first member of `members` named `key`.
pub open spec fn member(members: Seq<(String, JsonValue)>, key: Seq<char>) -> Option<JsonValue>
    decreases members.len(),
{
    if members.len() == 0 {
        None
    } else if members[0].0@ == key {
        Some(members[0].1)
    } else {
        member(members.drop_first(), key)
    }
}

/// `Value::get` with a string key: the member `key` of an object; nothing for
/// any other value.
pub open spec fn json_get(v: JsonValue, key: Seq<char>) -> Option<JsonValue> {
    match v {
        JsonValue::Object(members) => member(members@, key),
        _ => None,
    }
}

/// The member `k1` of `v`, or when there is none the member `k2`.
pub open spec fn json_get2(v: JsonValue, k1: Seq<char>, k2: Seq<char>) -> Option<JsonValue> {
    match json_get(v, k1) {
        Some(x) => Some(x),
        None => json_get(v, k2),
    }
}

/// `Value::as_str`: the text of a string value.
pub open spec fn json_str(v: JsonValue) -> Option<Seq<char>> {
    match v {
        JsonValue::String(s) => Some(s@),
        _ => None,
    }
}

/// The text of an optional value that is a string.
pub open spec fn opt_str(v: Option<JsonValue>) -> Option<Seq<char>> {
    match v {
        Some(x) => json_str(x),
        None => None,
    }
}

/// The value behind an optional reference.
pub open spec fn opt_deref(o: Option<&JsonValue>) -> Option<JsonValue> {
    match o {
        Some(x) => Some(*x),
        None => None,
    }
}

/// The text of an optional string slice.
pub open spec fn opt_view(o: Option<&str>) -> Option<Seq<char>> {
    match o {
        Some(s) => Some(s@),
        None => None,
    }
}

/// The numeric value of a run of decimal digits.
pub open spec fn digits_value(s: Seq<char>) -> nat
    decreases s.len(),
{
    if s.len() == 0 {
        0
    } else {
        digits_value(s.drop_last()) * 10 + ((s.last() as u32 - '0' as u32) as nat)
    }
}

/// Every character of `s` is an ASCII digit.
pub open spec fn all_digits(s: Seq<char>) -> bool {
    forall|i: int| 0 <= i < s.len() ==> '0' <= #[trigger] s[i] <= '9'
}

/// `Value::as_u64`: a number that is a non-negative integer within `u64`. A
/// number that serde_json holds as a `u64` prints as plain decimal digits; a
/// negative one prints with a sign and a fractional one with a point or an
/// exponent.
pub open spec fn json_u64(v: JsonValue) -> Option<u64> {
    match v {
        JsonValue::Number(t) => if t@.len() > 0 && all_digits(t@) && digits_value(t@)
            <= u64::MAX {
            Some(digits_value(t@) as u64)
        } else {
            None
        },
        _ => None,
    }
}

/// A longer run of digits is worth at least as much as its prefix.
pub proof fn lemma_digits_value_prefix(s: Seq<char>, i: int)
    requires
        0 <= i <= s.len(),
        all_digits(s),
    ensures
        digits_value(s.take(i)) <= digits_value(s),
    decreases s.len() - i,
{
    if i < s.len() {
        lemma_digits_value_prefix(s, i + 1);
        assert(s.take(i + 1).drop_last() =~= s.take(i));
        assert(s.take(i + 1).last() == s[i]);
    } else {
        assert(s.take(i) =~= s);
    }
}

/// `Value::get` with a string key.
pub fn get<'a>(v: &'a JsonValue, key: &str) -> (r: Option<&'a JsonValue>)
    ensures
        opt_deref(r) == json_get(*v, key@),
{
    match v {
        JsonValue::Object(members) => {
            let mut i: usize = 0;
            assert(members@.skip(0) =~= members@);
            while i < members.len()
                invariant
                    i <= members@.len(),
                    json_get(*v, key@) == member(members@, key@),
                    member(members@, key@) == member(members@.skip(i as int), key@),
                decreases members@.len() - i,
            {
                assert(members@.skip(i as int)[0] == members@[i as int]);
                if str_eq(members[i].0.as_str(), key) {
                    assert(members@.skip(i as int).len() > 0);
                    assert(member(members@.skip(i as int), key@) == Some(members@[i as int].1));
                    return Some(&members[i].1);
                }
                assert(members@.skip(i as int).drop_first() =~= members@.skip(i as int + 1));
                i = i + 1;
            }
            assert(members@.skip(i as int).len() == 0);
            None
        },
        _ => None,
    }
}

/// Removing a member whose name is not `key` leaves the member `key` found.
proof fn lemma_member_remove_other(members: Seq<(String, JsonValue)>, i: int, key: Seq<char>)
    requires
        0 <= i < members.len(),
        members[i].0@ != key,
    ensures
        member(members.remove(i), key) == member(members, key),
    decreases members.len(),
{
    if i > 0 && members[0].0@ != key {
        assert(members.remove(i).drop_first() =~= members.drop_first().remove(i - 1));
        lemma_member_remove_other(members.drop_first(), i - 1, key);
    } else if i == 0 {
        assert(members.remove(0) =~= members.drop_first());
    }
}

/// The first member of `members` named `key` is at `i`.
proof fn lemma_member_at(members: Seq<(String, JsonValue)>, i: int, key: Seq<char>)
    requires
        0 <= i < members.len(),
        members[i].0@ == key,
        forall|j: int| 0 <= j < i ==> members[j].0@ != key,
    ensures
        member(members, key) == Some(members[i].1),
    decreases members.len(),
{
    if i > 0 {
        lemma_member_at(members.drop_first(), i - 1, key);
    }
}

/// Takes the member `key` out of `v` (see [`json_get`]); the members of
/// other names stay to be found as before.
/// Where the first member named `key` is.
fn member_index(members: &Vec<(String, JsonValue)>, key: &str) -> (r: Option<usize>)
    ensures
        match r {
            Some(i) => i < members@.len() && members@[i as int].0@ == key@ && forall|j: int|
                0 <= j < i ==> #[trigger] members@[j].0@ != key@,
            None => forall|j: int| 0 <= j < members@.len() ==> #[trigger] members@[j].0@ != key@,
        },
{
    let mut i: usize = 0;
    while i < members.len()
        invariant
            i <= members@.len(),
            forall|j: int| 0 <= j < i ==> #[trigger] members@[j].0@ != key@,
        decreases members@.len() - i,
    {
        if str_eq(members[i].0.as_str(), key) {
            return Some(i);
        }
        i = i + 1;
    }
    None
}

pub fn take_member(v: &mut JsonValue, key: &str) -> (r: Option<JsonValue>)
    ensures
        r == json_get(*old(v), key@),
        forall|k: Seq<char>| k != key@ ==> #[trigger] json_get(*final(v), k) == json_get(*old(v), k),
{
    let mut owned = JsonValue::Null;
    std::mem::swap(&mut owned, v);
    let ghost orig = owned;
    match owned {
        JsonValue::Object(mut members) => {
            let ghost before = members@;
            let found = member_index(&members, key);
            match found {
                Some(i) => {
                    proof {
                        lemma_member_at(before, i as int, key@);
                        assert forall|k: Seq<char>| k != key@ implies #[trigger] member(
                            before.remove(i as int),
                            k,
                        ) == member(before, k) by {
                            lemma_member_remove_other(before, i as int, k);
                        }
                    }
                    let (_, value) = members.remove(i);
                    *v = JsonValue::Object(members);
                    Some(value)
                },
                None => {
                    proof {
                        lemma_member_absent(before, key@);
                    }
                    *v = JsonValue::Object(members);
                    None
                },
            }
        },
        other => {
            *v = other;
            None
        },
    }
}

proof fn lemma_member_absent(members: Seq<(String, JsonValue)>, key: Seq<char>)
    requires
        forall|j: int| 0 <= j < members.len() ==> members[j].0@ != key,
    ensures
        member(members, key) is None,
    decreases members.len(),
{
    if members.len() > 0 {
        assert(members[0].0@ != key);
        lemma_member_absent(members.drop_first(), key);
    }
}

/// The member `k1` of `v`, or when there is none the member `k2`.
pub fn get2<'a>(v: &'a JsonValue, k1: &str, k2: &str) -> (r: Option<&'a JsonValue>)
    ensures
        opt_deref(r) == json_get2(*v, k1@, k2@),
{
    match get(v, k1) {
        Some(x) => Some(x),
        None => get(v, k2),
    }
}

/// `Value::as_str`.
pub fn as_str(v: &JsonValue) -> (r: Option<&str>)
    ensures
        opt_view(r) == json_str(*v),
{
    match v {
        JsonValue::String(s) => Some(s.as_str()),
        _ => None,
    }
}

/// The text of an optional value that is a string.
pub fn opt_as_str(v: Option<&JsonValue>) -> (r: Option<&str>)
    ensures
        opt_view(r) == opt_str(opt_deref(v)),
{
    match v {
        Some(x) => as_str(x),
        None => None,
    }
}

/// `Value::as_array`.
pub fn as_array(v: &JsonValue) -> (r: Option<&Vec<JsonValue>>)
    ensures
        match *v {
            JsonValue::Array(items) => r == Some(&items),
            _ => r is None,
        },
{
    match v {
        JsonValue::Array(items) => Some(items),
        _ => None,
    }
}

/// `Value::as_u64`.
pub fn as_u64(v: &JsonValue) -> (r: Option<u64>)
    ensures
        r == json_u64(*v),
{
    match v {
        JsonValue::Number(t) => {
            let mut digits: Vec<char> = Vec::new();
            for c in it: t.as_str().chars()
                invariant
                    digits@ == it.seq().take(it.index() as int),
            {
                digits.push(c);
            }
            assert(digits@ == t@);
            if digits.len() == 0 {
                return None;
            }
            let mut value: u64 = 0;
            let mut i: usize = 0;
            while i < digits.len()
                invariant
                    i <= digits@.len(),
                    *v == JsonValue::Number(*t),
                    digits@ == t@,
                    all_digits(digits@.take(i as int)),
                    value == digits_value(digits@.take(i as int)),
                decreases digits@.len() - i,
            {
                let c = digits[i];
                assert(digits@.take(i as int + 1).drop_last() =~= digits@.take(i as int));
                if c < '0' || c > '9' {
                    assert(digits@[i as int] == c);
                    assert(!all_digits(digits@));
                    return None;
                }
                let d = (c as u32 - '0' as u32) as u64;
                if value > (u64::MAX - d) / 10 {
                    proof {
                        assert(digits@.take(i as int + 1).last() == c);
                        assert(all_digits(digits@.take(i as int + 1)));
                        assert(value * 10 + d > u64::MAX) by (nonlinear_arith)
                            requires
                                value > (u64::MAX - d) / 10,
                                d <= 9,
                        ;
                        assert(digits_value(digits@.take(i as int + 1)) > u64::MAX);
                        if all_digits(digits@) {
                            lemma_digits_value_prefix(digits@, i as int + 1);
                        }
                    }
                    return None;
                }
                value = value * 10 + d;
                i = i + 1;
            }
            assert(digits@.take(i as int) =~= digits@);
            Some(value)
        },
        _ => None,
    }
}

/// What `serde_json::from_str::<serde_json::Value>` makes of a text: the value
/// it parses, or `None` where it returns an error.
pub uninterp spec fn parsed_json(text: Seq<char>) -> Option<JsonValue>;

/// `serde_json::from_str` into a `serde_json::Value`, read back as a
/// [`JsonValue`]; its result is named by [`parsed_json`].
#[verifier::external_body]
pub(crate) fn parse_json(text: &str) -> (r: Option<JsonValue>)
    ensures
        r == parsed_json(text@),
{
    serde_json::from_str::<serde_json::Value>(text).ok().map(JsonValue::from_serde)
}

/// What `serde_json::Value`'s `to_string` prints for a value (compact JSON).
pub uninterp spec fn json_text_of(v: JsonValue) -> Seq<char>;

/// A value printed as compact JSON by serde_json; its result is named by
/// [`json_text_of`].
#[verifier::external_body]
pub(crate) fn json_text(v: &JsonValue) -> (r: String)
    ensures
        r@ == json_text_of(*v),
{
    v.to_serde().to_string()
}

/// Reads a text as JSON (see [`parsed_json`]); `None` where it is not JSON.
pub fn read_json(text: &str) -> (r: Option<JsonValue>)
    ensures
        r == parsed_json(text@),
{
    parse_json(text)
}

/// A value printed as compact JSON (see [`json_text_of`]).
pub fn write_json(v: &JsonValue) -> (r: String)
    ensures
        r@ == json_text_of(*v),
{
    json_text(v)
}

impl JsonValue {
    /// Reads a `serde_json::Value` variant by variant; a number keeps the text
    /// serde_json prints for it.
    #[verifier::external_body]
    fn from_serde(v: serde_json::Value) -> JsonValue {
        match v {
            serde_json::Value::Null => JsonValue::Null,
            serde_json::Value::Bool(b) => JsonValue::Bool(b),
            serde_json::Value::Number(n) => JsonValue::Number(n.to_string()),
            serde_json::Value::String(s) => JsonValue::String(s),
            serde_json::Value::Array(a) => JsonValue::Array(
                a.into_iter().map(JsonValue::from_serde).collect(),
            ),
            serde_json::Value::Object(m) => JsonValue::Object(
                m.into_iter().map(|(k, x)| (k, JsonValue::from_serde(x))).collect(),
            ),
        }
    }

    /// Writes the value back as a `serde_json::Value` variant by variant; a
    /// number is read back from its text (as `null` where that is not a
    /// number serde_json reads).
    #[verifier::external_body]
    fn to_serde(&self) -> serde_json::Value {
        match self {
            JsonValue::Null => serde_json::Value::Null,
            JsonValue::Bool(b) => serde_json::Value::Bool(*b),
            JsonValue::Number(n) => n.parse().map(serde_json::Value::Number).unwrap_or(serde_json::Value::Null),
            JsonValue::String(s) => serde_json::Value::String(s.clone()),
            JsonValue::Array(a) => serde_json::Value::Array(a.iter().map(JsonValue::to_serde).collect()),
            JsonValue::Object(m) => serde_json::Value::Object(
                m.iter().map(|(k, x)| (k.clone(), x.to_serde())).collect(),
            ),
        }
    }
}

} // verus!
