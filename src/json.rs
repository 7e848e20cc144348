use vstd::prelude::*;

verus! {

/// The JSON string literal that `serde_json` writes for `s`.
pub uninterp spec fn json_string(s: Seq<char>) -> Seq<char>;

/// Relies on `serde_json::to_string` on a `str`: the quoted, escaped JSON
/// string literal of the text.
#[verifier::external_body]
pub(crate) fn json_string_text(s: &str) -> (r: String)
    ensures
        r@ == json_string(s@),
{
    match serde_json::to_string(s) {
        Ok(t) => t,
        Err(_) => String::new(),
    }
}

/// Why a text is not JSON, as `serde_json` words it; `None` when it parses.
pub uninterp spec fn json_syntax_error(text: Seq<char>) -> Option<Seq<char>>;

/// The string held under `key` by the JSON object in `text`; `None` when
/// the member is absent or not a string.
pub uninterp spec fn json_text_member(text: Seq<char>, key: Seq<char>) -> Option<Seq<char>>;

/// The integer held under `key` by the JSON object in `text`; `None` when
/// the member is absent or not an integer that fits `i64`.
pub uninterp spec fn json_int_member(text: Seq<char>, key: Seq<char>) -> Option<i64>;

/// The boolean held under `key` by the JSON object in `text`; `None` when
/// the member is absent or not a boolean.
pub uninterp spec fn json_bool_member(text: Seq<char>, key: Seq<char>) -> Option<bool>;

/// The string member `key` of the payload, or `fallback`.
pub open spec fn member_or(payload: Seq<char>, key: Seq<char>, fallback: Seq<char>) -> Seq<char> {
    match json_text_member(payload, key) {
        Some(t) => t,
        None => fallback,
    }
}

/// The integer member `key` of the payload, or `fallback`.
pub open spec fn int_member_or(payload: Seq<char>, key: Seq<char>, fallback: i64) -> i64 {
    match json_int_member(payload, key) {
        Some(n) => n,
        None => fallback,
    }
}

/// The boolean member `key` of the payload, or `false`.
pub open spec fn flag_member(payload: Seq<char>, key: Seq<char>) -> bool {
    match json_bool_member(payload, key) {
        Some(b) => b,
        None => false,
    }
}

/// An ASCII decimal digit.
pub open spec fn is_digit(c: char) -> bool {
    48 <= (c as u32) <= 57
}

/// The number that a run of decimal digits spells.
pub open spec fn digits_value(s: Seq<char>) -> int
    decreases s.len(),
{
    if s.len() == 0 {
        0
    } else {
        digits_value(s.drop_last()) * 10 + ((s.last() as u32) - 48)
    }
}

/// The digits after an optional leading `+` or `-`.
pub open spec fn unsigned_part(s: Seq<char>) -> Seq<char> {
    if s.len() > 0 && (s[0] == '-' || s[0] == '+') {
        s.drop_first()
    } else {
        s
    }
}

/// The `i64` that a text spells in decimal: an optional `+` or `-`, then
/// one or more ASCII digits, the value within range; `None` otherwise.
pub open spec fn decimal_value(s: Seq<char>) -> Option<i64> {
    let body = unsigned_part(s);
    let v = if s.len() > 0 && s[0] == '-' { -digits_value(body) } else { digits_value(body) };
    if body.len() > 0 && (forall|k: int| 0 <= k < body.len() ==> is_digit(#[trigger] body[k]))
        && i64::MIN <= v <= i64::MAX {
        Some(v as i64)
    } else {
        None
    }
}

/// Extending a run of digits never lowers the number it spells.
pub proof fn lemma_digits_grow(s: Seq<char>, k: int)
    requires
        0 <= k <= s.len(),
        forall|j: int| 0 <= j < s.len() ==> is_digit(#[trigger] s[j]),
    ensures
        0 <= digits_value(s.subrange(0, k)) <= digits_value(s),
    decreases s.len() - k,
{
    if k < s.len() {
        lemma_digits_grow(s, k + 1);
        let t = s.subrange(0, k + 1);
        assert(t.drop_last() =~= s.subrange(0, k));
        assert(is_digit(s[k]));
    } else {
        assert(s.subrange(0, k) =~= s);
        lemma_digits_nonnegative(s);
    }
}

proof fn lemma_digits_nonnegative(s: Seq<char>)
    requires
        forall|j: int| 0 <= j < s.len() ==> is_digit(#[trigger] s[j]),
    ensures
        digits_value(s) >= 0,
    decreases s.len(),
{
    if s.len() > 0 {
        lemma_digits_nonnegative(s.drop_last());
        assert(is_digit(s[s.len() - 1]));
    }
}

/// Relies on `serde_json::from_str::<Value>` and the `Display` of its error:
/// `None` for a text that parses, the error's message otherwise.
#[verifier::external_body]
pub(crate) fn json_syntax_check(text: &str) -> (r: Option<String>)
    ensures
        json_syntax_error(text@) == match r {
            Some(m) => Some(m@),
            None => None::<Seq<char>>,
        },
{
    match serde_json::from_str::<serde_json::Value>(text) {
        Ok(_) => None,
        Err(e) => Some(e.to_string()),
    }
}

/// Relies on `serde_json::from_str::<Value>`, indexing by `key` and
/// `Value::as_str`: the string member `key` of the object in `text`.
#[verifier::external_body]
pub(crate) fn json_text_field(text: &str, key: &str) -> (r: Option<String>)
    ensures
        json_text_member(text@, key@) == match r {
            Some(m) => Some(m@),
            None => None::<Seq<char>>,
        },
{
    match serde_json::from_str::<serde_json::Value>(text) {
        Ok(v) => match v[key].as_str() {
            Some(m) => Some(m.to_string()),
            None => None,
        },
        Err(_) => None,
    }
}

/// Relies on `serde_json::from_str::<Value>`, indexing by `key` and
/// `Value::as_i64`: the integer member `key` of the object in `text`.
#[verifier::external_body]
pub(crate) fn json_int_field(text: &str, key: &str) -> (r: Option<i64>)
    ensures
        json_int_member(text@, key@) == r,
{
    match serde_json::from_str::<serde_json::Value>(text) {
        Ok(v) => v[key].as_i64(),
        Err(_) => None,
    }
}

/// Relies on `serde_json::from_str::<Value>`, indexing by `key` and
/// `Value::as_bool`: the boolean member `key` of the object in `text`.
#[verifier::external_body]
pub(crate) fn json_bool_field(text: &str, key: &str) -> (r: Option<bool>)
    ensures
        json_bool_member(text@, key@) == r,
{
    match serde_json::from_str::<serde_json::Value>(text) {
        Ok(v) => v[key].as_bool(),
        Err(_) => None,
    }
}

/// The string member `key` of the payload, or `fallback`.
pub fn text_member_or(payload: &str, key: &str, fallback: &str) -> (r: String)
    ensures
        r@ == member_or(payload@, key@, fallback@),
{
    match json_text_field(payload, key) {
        Some(t) => t,
        None => fallback.to_owned(),
    }
}

/// The integer member `key` of the payload, or `fallback`.
pub fn int_member_or_else(payload: &str, key: &str, fallback: i64) -> (r: i64)
    ensures
        r == int_member_or(payload@, key@, fallback),
{
    match json_int_field(payload, key) {
        Some(n) => n,
        None => fallback,
    }
}

/// The `i64` that a decimal text spells, as `str::parse::<i64>` reads it.
pub fn parse_decimal(text: &str) -> (r: Option<i64>)
    ensures
        r == decimal_value(text@),
{
    let n = text.unicode_len();
    if n == 0 {
        return None;
    }
    let first = text.get_char(0);
    let negative = first == '-';
    let start: usize = if first == '-' || first == '+' { 1 } else { 0 };
    let ghost body = unsigned_part(text@);
    assert(body =~= text@.subrange(start as int, n as int));
    if start == n {
        return None;
    }
    let mut magnitude: u64 = 0;
    let mut i: usize = start;
    while i < n
        invariant
            n == text@.len(),
            start <= i <= n,
            body == text@.subrange(start as int, n as int),
            body == unsigned_part(text@),
            negative == (text@.len() > 0 && text@[0] == '-'),
            forall|k: int| 0 <= k < i - start ==> is_digit(#[trigger] body[k]),
            magnitude as int == digits_value(body.subrange(0, i - start)),
            magnitude <= 9223372036854775808u64,
        decreases n - i,
    {
        let c = text.get_char(i);
        let code = c as u32;
        assert(body[i - start] == c);
        if code < 48 || code > 57 {
            assert(!is_digit(body[i - start]));
            return None;
        }
        let d = (code - 48) as u64;
        proof {
            let t = body.subrange(0, i - start + 1);
            assert(t.drop_last() =~= body.subrange(0, i - start));
            assert(t.last() == c);
        }
        if magnitude > 922337203685477580u64 || (magnitude == 922337203685477580u64 && d > 8) {
            proof {
                let k = (i - start + 1) as int;
                let m = magnitude as int;
                let dd = d as int;
                assert(m * 10 + dd > 9223372036854775808) by (nonlinear_arith)
                    requires
                        m > 922337203685477580 || (m == 922337203685477580 && dd > 8),
                        dd >= 0,
                ;
                assert(digits_value(body.subrange(0, k)) == m * 10 + dd);
                if forall|j: int| 0 <= j < body.len() ==> is_digit(#[trigger] body[j]) {
                    lemma_digits_grow(body, k);
                }
            }
            return None;
        }
        magnitude = magnitude * 10 + d;
        i = i + 1;
    }
    assert(body.subrange(0, n - start) =~= body);
    if negative {
        if magnitude == 9223372036854775808u64 {
            Some(i64::MIN)
        } else {
            Some(0i64 - magnitude as i64)
        }
    } else if magnitude > 9223372036854775807u64 {
        None
    } else {
        Some(magnitude as i64)
    }
}

} // verus!
