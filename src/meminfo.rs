use vstd::prelude::*;
use crate::json::{digits_value, is_digit, lemma_digits_grow};
use crate::text::same_text;

verus! {

/// Unicode `White_Space`, the set that `char::is_whitespace` tests.
pub open spec fn whitespace(c: char) -> bool {
    let n = c as u32;
    (9 <= n <= 13) || n == 32 || n == 0x85 || n == 0xA0 || n == 0x1680 || (0x2000 <= n <= 0x200A)
        || n == 0x2028 || n == 0x2029 || n == 0x202F || n == 0x205F || n == 0x3000
}

fn is_space(c: char) -> (r: bool)
    ensures
        r == whitespace(c),
{
    let n = c as u32;
    (9 <= n && n <= 13) || n == 32 || n == 0x85 || n == 0xA0 || n == 0x1680 || (0x2000 <= n && n <= 0x200A)
        || n == 0x2028 || n == 0x2029 || n == 0x202F || n == 0x205F || n == 0x3000
}

/// The first position at or after `a` whose character is (`space`) or is
/// not (`!space`) whitespace; the length when there is none.
pub open spec fn scan(s: Seq<char>, a: int, space: bool) -> int
    decreases s.len() - a,
{
    if a >= s.len() {
        s.len() as int
    } else if whitespace(s[a]) == space {
        a
    } else {
        scan(s, a + 1, space)
    }
}

/// The end of `s.subrange(0, b)` with its trailing whitespace dropped.
pub open spec fn trimmed_end(s: Seq<char>, b: int) -> int
    decreases b,
{
    if b <= 0 {
        0
    } else if !whitespace(s[b - 1]) {
        b
    } else {
        trimmed_end(s, b - 1)
    }
}

/// `s` without leading and trailing whitespace.
pub open spec fn trimmed(s: Seq<char>) -> Seq<char> {
    let a = scan(s, 0, false);
    let e = trimmed_end(s, s.len() as int);
    if a >= e {
        Seq::empty()
    } else {
        s.subrange(a, e)
    }
}

/// The first whitespace-separated word of `s`, if any.
pub open spec fn first_word(s: Seq<char>) -> Option<Seq<char>> {
    let a = scan(s, 0, false);
    if a >= s.len() {
        None
    } else {
        Some(s.subrange(a, scan(s, a, true)))
    }
}

/// `t` without a leading `+`.
pub open spec fn plus_stripped(t: Seq<char>) -> Seq<char> {
    if t.len() > 0 && t[0] == '+' {
        t.drop_first()
    } else {
        t
    }
}

/// The `u64` a text spells as `str::parse::<u64>` reads it: an optional
/// `+`, then one or more ASCII digits, the value within range.
pub open spec fn unsigned_value(t: Seq<char>) -> Option<u64> {
    let body = plus_stripped(t);
    if body.len() > 0 && (forall|k: int| 0 <= k < body.len() ==> is_digit(#[trigger] body[k]))
        && digits_value(body) <= u64::MAX {
        Some(digits_value(body) as u64)
    } else {
        None
    }
}

fn scan_exec(s: &str, n: usize, a: usize, space: bool) -> (r: usize)
    requires
        n == s@.len(),
        a <= n,
    ensures
        r == scan(s@, a as int, space),
        a <= r <= n,
    decreases n - a,
{
    if a == n {
        n
    } else if is_space(s.get_char(a)) == space {
        a
    } else {
        scan_exec(s, n, a + 1, space)
    }
}

fn trimmed_end_exec(s: &str, b: usize) -> (r: usize)
    requires
        b <= s@.len(),
    ensures
        r == trimmed_end(s@, b as int),
        r <= b,
    decreases b,
{
    if b == 0 {
        0
    } else if !is_space(s.get_char(b - 1)) {
        b
    } else {
        trimmed_end_exec(s, b - 1)
    }
}

/// The `u64` a text spells, as `str::parse::<u64>` reads it.
pub fn parse_unsigned(text: &str) -> (r: Option<u64>)
    ensures
        r == unsigned_value(text@),
{
    let n = text.unicode_len();
    if n == 0 {
        return None;
    }
    let start: usize = if text.get_char(0) == '+' { 1 } else { 0 };
    let ghost body = plus_stripped(text@);
    assert(body =~= text@.subrange(start as int, n as int));
    if start == n {
        return None;
    }
    let mut value: u64 = 0;
    let mut i: usize = start;
    while i < n
        invariant
            n == text@.len(),
            start <= i <= n,
            body == text@.subrange(start as int, n as int),
            body == plus_stripped(text@),
            forall|k: int| 0 <= k < i - start ==> is_digit(#[trigger] body[k]),
            value as int == digits_value(body.subrange(0, i - start)),
        decreases n - i,
    {
        let c = text.get_char(i);
        let code = c as u32;
        assert(body[i - start] == c);
        if code < 48 || code > 57 {
            assert(!is_digit(body[i - start]));
            return None;
        }
        let d = (code - 48) as u64;
        proof {
            let t = body.subrange(0, i - start + 1);
            assert(t.drop_last() =~= body.subrange(0, i - start));
            assert(t.last() == c);
        }
        if value > 1844674407370955161u64 || (value == 1844674407370955161u64 && d > 5) {
            proof {
                let k = (i - start + 1) as int;
                let m = value as int;
                let dd = d as int;
                assert(m * 10 + dd > 18446744073709551615) by (nonlinear_arith)
                    requires
                        m > 1844674407370955161 || (m == 1844674407370955161 && dd > 5),
                        dd >= 0,
                ;
                assert(digits_value(body.subrange(0, k)) == m * 10 + dd);
                if forall|j: int| 0 <= j < body.len() ==> is_digit(#[trigger] body[j]) {
                    lemma_digits_grow(body, k);
                }
            }
            return None;
        }
        value = value * 10 + d;
        i = i + 1;
    }
    assert(body.subrange(0, n - start) =~= body);
    Some(value)
}

/// The first position at or after `a` holding `:`; the length when none.
pub open spec fn colon_from(s: Seq<char>, a: int) -> int
    decreases s.len() - a,
{
    if a >= s.len() {
        s.len() as int
    } else if s[a] == ':' {
        a
    } else {
        colon_from(s, a + 1)
    }
}

/// A line that splits at `:` into exactly two parts, read as its trimmed
/// key and the number that starts its value.
pub open spec fn line_entry(line: Seq<char>) -> Option<(Seq<char>, u64)> {
    let p = colon_from(line, 0);
    if p < line.len() && colon_from(line, p + 1) == line.len() {
        match first_word(line.subrange(p + 1, line.len() as int)) {
            Some(w) => match unsigned_value(w) {
                Some(v) => Some((trimmed(line.subrange(0, p)), v)),
                None => None,
            },
            None => None,
        }
    } else {
        None
    }
}

/// The pieces of `s` between newlines, as `str::split('\n')` yields them.
pub open spec fn pieces(s: Seq<char>) -> Seq<Seq<char>>
    decreases s.len(),
{
    if s.len() == 0 {
        seq![Seq::<char>::empty()]
    } else {
        let p = pieces(s.drop_last());
        if s.last() == '\n' {
            p.push(Seq::empty())
        } else {
            p.update(p.len() - 1, p.last().push(s.last()))
        }
    }
}

/// Total and free memory in MiB, as far as the report gives them.
#[derive(Clone, Copy, Debug, PartialEq, Eq, Structural)]
pub struct MemoryFigures {
    pub total_mb: Option<u64>,
    pub free_mb: Option<u64>,
}

/// The figures read from the lines in order: the last `MemTotal` and
/// `MemFree` entries, their kB values divided by 1024.
pub open spec fn figures_from(lines: Seq<Seq<char>>) -> MemoryFigures
    decreases lines.len(),
{
    if lines.len() == 0 {
        MemoryFigures { total_mb: None, free_mb: None }
    } else {
        let f = figures_from(lines.drop_last());
        match line_entry(lines.last()) {
            Some((k, v)) => if k == "MemTotal"@ {
                MemoryFigures { total_mb: Some((v / 1024) as u64), ..f }
            } else if k == "MemFree"@ {
                MemoryFigures { free_mb: Some((v / 1024) as u64), ..f }
            } else {
                f
            },
            None => f,
        }
    }
}

fn colon_exec(s: &str, n: usize, a: usize) -> (r: usize)
    requires
        n == s@.len(),
        a <= n,
    ensures
        r == colon_from(s@, a as int),
        a <= r <= n,
    decreases n - a,
{
    if a == n {
        n
    } else if s.get_char(a) == ':' {
        a
    } else {
        colon_exec(s, n, a + 1)
    }
}

fn line_entry_exec(line: &str) -> (r: Option<(String, u64)>)
    ensures
        match line_entry(line@) {
            Some((k, v)) => r matches Some((key, value)) && key@ == k && value == v,
            None => r is None,
        },
{
    let n = line.unicode_len();
    let p = colon_exec(line, n, 0);
    if p == n || colon_exec(line, n, p + 1) != n {
        return None;
    }
    let rest = line.substring_char(p + 1, n);
    let rn = rest.unicode_len();
    let a = scan_exec(rest, rn, 0, false);
    if a >= rn {
        return None;
    }
    let e = scan_exec(rest, rn, a, true);
    let word = rest.substring_char(a, e);
    let value = match parse_unsigned(word) {
        Some(v) => v,
        None => {
            return None;
        },
    };
    let key_part = line.substring_char(0, p);
    let kn = key_part.unicode_len();
    let ka = scan_exec(key_part, kn, 0, false);
    let ke = trimmed_end_exec(key_part, kn);
    let key = if ka >= ke {
        String::new()
    } else {
        key_part.substring_char(ka, ke).to_owned()
    };
    assert(key@ == trimmed(line@.subrange(0, p as int)));
    Some((key, value))
}

/// Reads total and free memory from a `/proc/meminfo` report.
pub fn memory_figures(content: &str) -> (r: MemoryFigures)
    ensures
        r == figures_from(pieces(content@)),
{
    let n = content.unicode_len();
    let mut figures = MemoryFigures { total_mb: None, free_mb: None };
    let ghost mut done: Seq<Seq<char>> = Seq::empty();
    let mut start: usize = 0;
    let mut i: usize = 0;
    proof {
        assert(content@.subrange(0, 0) =~= Seq::<char>::empty());
        assert(done.push(Seq::<char>::empty()) =~= seq![Seq::<char>::empty()]);
    }
    while i < n
        invariant
            n == content@.len(),
            start <= i <= n,
            pieces(content@.subrange(0, i as int)) == done.push(content@.subrange(start as int, i as int)),
            figures == figures_from(done),
        decreases n - i,
    {
        proof {
            let t = content@.subrange(0, i + 1);
            assert(t.drop_last() =~= content@.subrange(0, i as int));
            assert(t.last() == content@[i as int]);
        }
        if content.get_char(i) == '\n' {
            let line = content.substring_char(start, i);
            figures = next_figures(figures, line);
            proof {
                let ls = done.push(line@);
                assert(ls.drop_last() =~= done);
                done = ls;
                assert(content@.subrange((i + 1) as int, (i + 1) as int) =~= Seq::<char>::empty());
            }
            start = i + 1;
        } else {
            proof {
                assert(content@.subrange(start as int, i + 1) =~= content@.subrange(start as int, i as int).push(content@[i as int]));
                let p = done.push(content@.subrange(start as int, i as int));
                assert(p.update(p.len() - 1, p.last().push(content@[i as int])) =~= done.push(content@.subrange(start as int, i + 1)));
            }
        }
        i = i + 1;
    }
    let line = content.substring_char(start, n);
    figures = next_figures(figures, line);
    proof {
        assert(content@.subrange(0, n as int) =~= content@);
        assert(done.push(line@).drop_last() =~= done);
    }
    figures
}

/// The figures after one more line.
fn next_figures(f: MemoryFigures, line: &str) -> (r: MemoryFigures)
    ensures
        r == match line_entry(line@) {
            Some((k, v)) => if k == "MemTotal"@ {
                MemoryFigures { total_mb: Some((v / 1024) as u64), ..f }
            } else if k == "MemFree"@ {
                MemoryFigures { free_mb: Some((v / 1024) as u64), ..f }
            } else {
                f
            },
            None => f,
        },
{
    match line_entry_exec(line) {
        Some((key, value)) => {
            if same_text(key.as_str(), "MemTotal") {
                MemoryFigures { total_mb: Some(value / 1024), ..f }
            } else if same_text(key.as_str(), "MemFree") {
                MemoryFigures { free_mb: Some(value / 1024), ..f }
            } else {
                f
            }
        },
        None => f,
    }
}

} // verus!
