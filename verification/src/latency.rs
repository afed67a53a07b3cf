//! The opt-in DXGI queue limit: which flag values request a limit.

use vstd::prelude::*;
use vstd::string::*;

verus! {

/// The largest queue limit that the experiment accepts.
pub const MAX_QUEUE_LIMIT: u32 = 16;

/// Unicode `White_Space`, the characters that `str::trim` removes.
pub open spec fn is_whitespace(c: char) -> bool {
    let n = c as u32;
    ||| 0x9 <= n <= 0xd
    ||| n == 0x20
    ||| n == 0x85
    ||| n == 0xa0
    ||| n == 0x1680
    ||| 0x2000 <= n <= 0x200a
    ||| n == 0x2028
    ||| n == 0x2029
    ||| n == 0x202f
    ||| n == 0x205f
    ||| n == 0x3000
}

pub open spec fn trim_start(s: Seq<char>) -> Seq<char>
    decreases s.len(),
{
    if s.len() > 0 && is_whitespace(s[0]) {
        trim_start(s.drop_first())
    } else {
        s
    }
}

pub open spec fn trim_end(s: Seq<char>) -> Seq<char>
    decreases s.len(),
{
    if s.len() > 0 && is_whitespace(s.last()) {
        trim_end(s.drop_last())
    } else {
        s
    }
}

/// `s` without leading and trailing whitespace.
pub open spec fn trim(s: Seq<char>) -> Seq<char> {
    trim_end(trim_start(s))
}

pub open spec fn is_digit(c: char) -> bool {
    '0' <= c && c <= '9'
}

pub open spec fn digit_value(c: char) -> nat {
    (c as u32 - '0' as u32) as nat
}

/// The number that a string of decimal digits spells.
pub open spec fn decimal_value(s: Seq<char>) -> nat
    decreases s.len(),
{
    if s.len() == 0 {
        0
    } else {
        decimal_value(s.drop_last()) * 10 + digit_value(s.last())
    }
}

pub open spec fn all_digits(s: Seq<char>) -> bool {
    forall|k: int| 0 <= k < s.len() ==> is_digit(#[trigger] s[k])
}

/// An unsigned decimal as `u32::from_str` reads it: an optional `+`, then
/// one or more ASCII digits whose value fits in a `u32`.
pub open spec fn parse_u32(s: Seq<char>) -> Option<u32> {
    if s.len() > 0 && s[0] == '+' {
        parsed_digits(s.drop_first())
    } else {
        parsed_digits(s)
    }
}

pub open spec fn parsed_digits(digits: Seq<char>) -> Option<u32> {
    if digits.len() > 0 && all_digits(digits) && decimal_value(digits) <= u32::MAX {
        Some(decimal_value(digits) as u32)
    } else {
        None
    }
}

/// The queue limit that a flag value requests: a decimal from 1 through 16,
/// surrounding whitespace ignored; anything else requests nothing.
pub open spec fn requested_limit(s: Seq<char>) -> Option<u32> {
    let n = parse_u32(trim(s));
    if n is Some && 1 <= n->0 <= MAX_QUEUE_LIMIT {
        n
    } else {
        None
    }
}

proof fn lemma_trim_start(s: Seq<char>, i: int)
    requires
        0 <= i <= s.len(),
        forall|k: int| 0 <= k < i ==> is_whitespace(#[trigger] s[k]),
        i == s.len() || !is_whitespace(s[i]),
    ensures
        trim_start(s) == s.subrange(i, s.len() as int),
    decreases i,
{
    if i == 0 {
        assert(s.subrange(0, s.len() as int) =~= s);
    } else {
        let t = s.drop_first();
        assert forall|k: int| 0 <= k < i - 1 implies is_whitespace(#[trigger] t[k]) by {
            assert(t[k] == s[k + 1]);
        }
        lemma_trim_start(t, i - 1);
        assert(t.subrange(i - 1, t.len() as int) =~= s.subrange(i, s.len() as int));
    }
}

proof fn lemma_trim_end(s: Seq<char>, j: int)
    requires
        0 <= j <= s.len(),
        forall|k: int| j <= k < s.len() ==> is_whitespace(#[trigger] s[k]),
        j == 0 || !is_whitespace(s[j - 1]),
    ensures
        trim_end(s) == s.subrange(0, j),
    decreases s.len() - j,
{
    if j == s.len() {
        assert(s.subrange(0, j) =~= s);
    } else {
        let t = s.drop_last();
        assert forall|k: int| j <= k < t.len() implies is_whitespace(#[trigger] t[k]) by {
            assert(t[k] == s[k]);
        }
        lemma_trim_end(t, j);
        assert(t.subrange(0, j) =~= s.subrange(0, j));
    }
}

/// A flag value is read exactly as written: a request is never clamped
/// into range, and a number outside 1 through 16 requests nothing.
pub proof fn lemma_limit_is_never_adjusted(s: Seq<char>)
    ensures
        requested_limit(s) is Some ==> parse_u32(trim(s)) == requested_limit(s),
        requested_limit(s) matches Some(n) ==> 1 <= n <= MAX_QUEUE_LIMIT,
        parse_u32(trim(s)) matches Some(n) ==> (1 <= n <= MAX_QUEUE_LIMIT <==> requested_limit(s)
            == Some(n)),
{
}

/// Whitespace around a value does not change what it requests.
pub proof fn lemma_surrounding_whitespace_ignored(p: Seq<char>, v: Seq<char>, q: Seq<char>)
    requires
        forall|k: int| 0 <= k < p.len() ==> is_whitespace(#[trigger] p[k]),
        forall|k: int| 0 <= k < q.len() ==> is_whitespace(#[trigger] q[k]),
        v.len() > 0,
        !is_whitespace(v[0]),
        !is_whitespace(v.last()),
    ensures
        trim(p + v + q) == v,
        requested_limit(p + v + q) == requested_limit(v),
{
    let full = p + v + q;
    assert forall|k: int| 0 <= k < p.len() implies is_whitespace(#[trigger] full[k]) by {
        assert(full[k] == p[k]);
    }
    assert(full[p.len() as int] == v[0]);
    lemma_trim_start(full, p.len() as int);
    let rest = full.subrange(p.len() as int, full.len() as int);
    assert(rest =~= v + q);
    assert forall|k: int| v.len() <= k < rest.len() implies is_whitespace(#[trigger] rest[k]) by {
        assert(rest[k] == q[k - v.len()]);
    }
    assert(rest[v.len() - 1] == v.last());
    lemma_trim_end(rest, v.len() as int);
    assert(rest.subrange(0, v.len() as int) =~= v);
    lemma_trim_start(v, 0);
    assert(v.subrange(0, v.len() as int) =~= v);
    assert forall|k: int| v.len() <= k < v.len() implies is_whitespace(#[trigger] v[k]) by {}
    lemma_trim_end(v, v.len() as int);
}

/// The queue limit that the value of the queue-limit flag requests, if it
/// is a valid one.
pub fn parse(value: &str) -> (limit: Option<u32>)
    ensures
        limit == requested_limit(value@),
{
    let n = value.unicode_len();
    let ghost s = value@;
    // Leading whitespace.
    let mut i: usize = 0;
    while i < n && is_whitespace_char(value.get_char(i))
        invariant
            n == s.len(),
            s == value@,
            0 <= i <= n,
            forall|k: int| 0 <= k < i ==> is_whitespace(#[trigger] s[k]),
        decreases n - i,
    {
        i = i + 1;
    }
    proof {
        lemma_trim_start(s, i as int);
    }
    // Trailing whitespace.
    let mut j: usize = n;
    while j > i && is_whitespace_char(value.get_char(j - 1))
        invariant
            n == s.len(),
            s == value@,
            i <= j <= n,
            forall|k: int| j <= k < n ==> is_whitespace(#[trigger] s[k]),
        decreases j,
    {
        j = j - 1;
    }
    let ghost t = s.subrange(i as int, n as int);
    let ghost trimmed = s.subrange(i as int, j as int);
    proof {
        assert forall|k: int| j - i <= k < t.len() implies is_whitespace(#[trigger] t[k]) by {
            assert(t[k] == s[k + i]);
        }
        if j > i {
            assert(t[j - i - 1] == s[j - 1]);
        }
        lemma_trim_end(t, j - i);
        assert(t.subrange(0, j - i) =~= trimmed);
        assert(trim(s) == trimmed);
    }
    // An optional plus sign, then the digits.
    let mut start: usize = i;
    if start < j && value.get_char(start) == '+' {
        start = start + 1;
    }
    let ghost digits = s.subrange(start as int, j as int);
    proof {
        if i < j && s[i as int] == '+' {
            assert(trimmed.drop_first() =~= digits);
        } else {
            assert(trimmed =~= digits);
        }
        assert(parse_u32(trim(s)) == parsed_digits(digits));
    }
    if start == j {
        return None;
    }
    let mut acc: u64 = 0;
    let mut overflow = false;
    let mut k: usize = start;
    while k < j
        invariant
            n == s.len(),
            s == value@,
            start <= k <= j <= n,
            digits == s.subrange(start as int, j as int),
            parse_u32(trim(s)) == parsed_digits(digits),
            forall|m: int| start <= m < k ==> is_digit(#[trigger] s[m]),
            overflow <==> decimal_value(s.subrange(start as int, k as int)) > u32::MAX,
            !overflow ==> acc == decimal_value(s.subrange(start as int, k as int)),
        decreases j - k,
    {
        let c = value.get_char(k);
        if !('0' <= c && c <= '9') {
            proof {
                assert(digits[k - start] == c);
                assert(!is_digit(digits[k - start]));
            }
            return None;
        }
        let ghost prefix = s.subrange(start as int, k + 1);
        proof {
            assert(prefix.drop_last() =~= s.subrange(start as int, k as int));
            assert(prefix.last() == c);
        }
        if !overflow {
            let d = (c as u32 - '0' as u32) as u64;
            acc = acc * 10 + d;
            if acc > 0xffff_ffff {
                overflow = true;
            }
        }
        k = k + 1;
    }
    proof {
        assert(s.subrange(start as int, j as int) =~= digits);
        assert forall|m: int| 0 <= m < digits.len() implies is_digit(#[trigger] digits[m]) by {
            assert(digits[m] == s[m + start]);
        }
    }
    if overflow {
        return None;
    }
    let parsed = acc as u32;
    if 1 <= parsed && parsed <= MAX_QUEUE_LIMIT {
        Some(parsed)
    } else {
        None
    }
}

/// Whether `c` is Unicode whitespace.
fn is_whitespace_char(c: char) -> (r: bool)
    ensures
        r == is_whitespace(c),
{
    let n = c as u32;
    (0x9 <= n && n <= 0xd) || n == 0x20 || n == 0x85 || n == 0xa0 || n == 0x1680 || (0x2000 <= n
        && n <= 0x200a) || n == 0x2028 || n == 0x2029 || n == 0x202f || n == 0x205f || n == 0x3000
}

} // verus!
