//! The time range of the statistics command.
use vstd::prelude::*;
use crate::memory::{lower_ascii_agrees, lowercase, to_lower};
use crate::text::{chars_of, text_from_chars, trim, trim_chars};

verus! {

/// Whether `c` is an ASCII digit.
pub open spec fn is_digit(c: char) -> bool {
    '0' <= c && c <= '9'
}

/// The value of a run of ASCII digits.
pub open spec fn digits_value(s: Seq<char>) -> nat
    decreases s.len(),
{
    if s.len() == 0 {
        0
    } else {
        digits_value(s.drop_last()) * 10 + ((s.last() as u32) - ('0' as u32)) as nat
    }
}

/// The digits part of a number text: the text without one leading `+`.
pub open spec fn unsigned_digits(s: Seq<char>) -> Seq<char> {
    if s.len() > 0 && s[0] == '+' {
        s.drop_first()
    } else {
        s
    }
}

/// Whether every character is an ASCII digit.
pub open spec fn all_digits(d: Seq<char>) -> bool {
    forall|i: int| 0 <= i < d.len() ==> is_digit(#[trigger] d[i])
}

/// The `u64` a text reads as (what `str::parse::<u64>` accepts): an optional
/// `+`, then one or more ASCII digits, whose value fits.
pub open spec fn parse_u64(s: Seq<char>) -> Option<u64> {
    let d = unsigned_digits(s);
    if d.len() > 0 && all_digits(d) && digits_value(d) <= u64::MAX {
        Some(digits_value(d) as u64)
    } else {
        None
    }
}

/// `s` without all the copies of `c` it ends with.
pub open spec fn strip_end_char(s: Seq<char>, c: char) -> Seq<char>
    decreases s.len(),
{
    if s.len() > 0 && s.last() == c {
        strip_end_char(s.drop_last(), c)
    } else {
        s
    }
}

/// Whether `s` ends with `min`.
pub open spec fn ends_with_min_spec(s: Seq<char>) -> bool {
    &&& s.len() >= 3
    &&& s[s.len() - 3] == 'm'
    &&& s[s.len() - 2] == 'i'
    &&& s[s.len() - 1] == 'n'
}

/// `s` without all the copies of `min` it ends with.
pub open spec fn strip_end_min(s: Seq<char>) -> Seq<char>
    decreases s.len(),
{
    if ends_with_min_spec(s) {
        strip_end_min(s.take(s.len() - 3))
    } else {
        s
    }
}

/// The number a range text gives, or `default` when it gives none.
pub open spec fn amount(s: Seq<char>, default: u64) -> u64 {
    match parse_u64(s) {
        Some(n) => n,
        None => default,
    }
}

/// The seconds a range text stands for, once trimmed and lower-cased: a
/// number of hours (`h`, 24 when unreadable), days (`d`, 7 when unreadable)
/// or minutes (`min` or `m`, 60 when unreadable), the count read as a signed
/// number; a day for any other text.
pub open spec fn range_secs(t: Seq<char>) -> int {
    if t.len() > 0 && t.last() == 'h' {
        (amount(strip_end_char(t, 'h'), 24) as i64) * 3600
    } else if t.len() > 0 && t.last() == 'd' {
        (amount(strip_end_char(t, 'd'), 7) as i64) * 86400
    } else if ends_with_min_spec(t) || (t.len() > 0 && t.last() == 'm') {
        (amount(strip_end_char(strip_end_min(t), 'm'), 60) as i64) * 60
    } else {
        86400
    }
}

/// The normalised text of a range argument.
pub open spec fn range_text(s: Seq<char>) -> Seq<char> {
    lowercase(trim(s))
}

fn strip_char_exec(s: &Vec<char>, c: char) -> (r: Vec<char>)
    ensures
        r@ == strip_end_char(s@, c),
{
    let mut n: usize = s.len();
    assert(s@.take(n as int) =~= s@);
    while n > 0 && s[n - 1] == c
        invariant
            n <= s.len(),
            strip_end_char(s@, c) == strip_end_char(s@.take(n as int), c),
        decreases n,
    {
        proof {
            assert(s@.take(n as int).drop_last() =~= s@.take(n - 1));
        }
        n = n - 1;
    }
    let mut r: Vec<char> = Vec::new();
    let mut i: usize = 0;
    while i < n
        invariant
            i <= n <= s.len(),
            r@ == s@.take(i as int),
        decreases n - i,
    {
        r.push(s[i]);
        proof {
            assert(r@ =~= s@.take(i + 1));
        }
        i = i + 1;
    }
    r
}

fn ends_with_min(s: &Vec<char>, n: usize) -> (b: bool)
    requires
        n <= s.len(),
    ensures
        b == ends_with_min_spec(s@.take(n as int)),
{
    n >= 3 && s[n - 3] == 'm' && s[n - 2] == 'i' && s[n - 1] == 'n'
}

fn strip_min_exec(s: &Vec<char>) -> (r: Vec<char>)
    ensures
        r@ == strip_end_min(s@),
{
    let mut n: usize = s.len();
    assert(s@.take(n as int) =~= s@);
    while ends_with_min(s, n)
        invariant
            n <= s.len(),
            strip_end_min(s@) == strip_end_min(s@.take(n as int)),
        decreases n,
    {
        proof {
            assert(s@.take(n as int).take(n - 3) =~= s@.take(n - 3));
        }
        n = n - 3;
    }
    let mut r: Vec<char> = Vec::new();
    let mut i: usize = 0;
    while i < n
        invariant
            i <= n <= s.len(),
            r@ == s@.take(i as int),
        decreases n - i,
    {
        r.push(s[i]);
        proof {
            assert(r@ =~= s@.take(i + 1));
        }
        i = i + 1;
    }
    r
}

/// Reads `s` as a `u64` the way `str::parse` does.
pub fn parse_u64_chars(s: &Vec<char>) -> (r: Option<u64>)
    ensures
        r == parse_u64(s@),
{
    let start: usize = if s.len() > 0 && s[0] == '+' { 1 } else { 0 };
    let mut d: Vec<char> = Vec::new();
    let mut k: usize = start;
    while k < s.len()
        invariant
            start <= k <= s.len(),
            start <= 1,
            d@ == s@.subrange(start as int, k as int),
        decreases s.len() - k,
    {
        d.push(s[k]);
        proof {
            assert(d@ =~= s@.subrange(start as int, k + 1));
        }
        k = k + 1;
    }
    assert(d@ =~= unsigned_digits(s@));
    if d.len() == 0 {
        return None;
    }
    let mut value: u64 = 0;
    let mut i: usize = 0;
    assert(d@.take(0) =~= Seq::<char>::empty());
    while i < d.len()
        invariant
            i <= d.len(),
            d@ == unsigned_digits(s@),
            d.len() > 0,
            forall|j: int| 0 <= j < i ==> is_digit(#[trigger] d@[j]),
            value == digits_value(d@.take(i as int)),
        decreases d.len() - i,
    {
        let c = d[i];
        if !('0' <= c && c <= '9') {
            proof {
                assert(!is_digit(d@[i as int]));
            }
            return None;
        }
        let digit: u64 = ((c as u32) - ('0' as u32)) as u64;
        proof {
            assert(d@.take(i + 1).drop_last() =~= d@.take(i as int));
            assert(digits_value(d@.take(i + 1)) == value * 10 + digit);
        }
        if value > (u64::MAX - digit) / 10 {
            proof {
                assert(value * 10 + digit > u64::MAX) by (nonlinear_arith)
                    requires
                        value > (u64::MAX - digit) / 10,
                        digit <= 9,
                ;
                lemma_digits_grow(d@, (i + 1) as nat);
            }
            return None;
        }
        proof {
            assert(value * 10 + digit <= u64::MAX) by (nonlinear_arith)
                requires
                    value <= (u64::MAX - digit) / 10,
                    digit <= 9,
            ;
        }
        value = value * 10 + digit;
        i = i + 1;
    }
    proof {
        assert(d@.take(d.len() as int) =~= d@);
    }
    Some(value)
}

/// The value of the first `k` digits is at most that of all of them.
proof fn lemma_digits_grow(d: Seq<char>, k: nat)
    requires
        k <= d.len(),
    ensures
        digits_value(d.take(k as int)) <= digits_value(d),
    decreases d.len() - k,
{
    if k < d.len() {
        lemma_digits_grow(d, k + 1);
        assert(d.take((k + 1) as int).drop_last() =~= d.take(k as int));
        assert(digits_value(d.take(k as int)) <= digits_value(d.take(k as int)) * 10) by (nonlinear_arith);
    } else {
        assert(d.take(k as int) =~= d);
    }
}

/// The count a range text gives (read as a signed number) and the seconds
/// of its unit: their product is the range.
pub open spec fn range_parts_of(t: Seq<char>) -> (i64, int) {
    if t.len() > 0 && t.last() == 'h' {
        (amount(strip_end_char(t, 'h'), 24) as i64, 3600)
    } else if t.len() > 0 && t.last() == 'd' {
        (amount(strip_end_char(t, 'd'), 7) as i64, 86400)
    } else if ends_with_min_spec(t) || (t.len() > 0 && t.last() == 'm') {
        (amount(strip_end_char(strip_end_min(t), 'm'), 60) as i64, 60)
    } else {
        (24, 3600)
    }
}

/// Whether the time library can hold a span of `secs` seconds.
pub open spec fn span_holds(secs: int) -> bool {
    -(i64::MAX / 1000) <= secs <= i64::MAX / 1000
}

fn range_parts(s: &str) -> (r: (i64, i64))
    ensures
        r.0 == range_parts_of(range_text(s@)).0,
        r.1 == range_parts_of(range_text(s@)).1,
        r.0 * r.1 == range_secs(range_text(s@)),
        lower_ascii_agrees(trim(s@)),
{
    let trimmed = trim_chars(&chars_of(s));
    let lowered = to_lower(text_from_chars(&trimmed).as_str());
    let t = chars_of(lowered.as_str());
    assert(t@ == range_text(s@));
    let n = t.len();
    if n > 0 && t[n - 1] == 'h' {
        let hours: u64 = match parse_u64_chars(&strip_char_exec(&t, 'h')) {
            Some(v) => v,
            None => 24,
        };
        (hours as i64, 3600)
    } else if n > 0 && t[n - 1] == 'd' {
        let days: u64 = match parse_u64_chars(&strip_char_exec(&t, 'd')) {
            Some(v) => v,
            None => 7,
        };
        (days as i64, 86400)
    } else if ends_with_min(&t, n) || (n > 0 && t[n - 1] == 'm') {
        proof {
            assert(t@.take(n as int) =~= t@);
        }
        let minutes: u64 = match parse_u64_chars(&strip_char_exec(&strip_min_exec(&t), 'm')) {
            Some(v) => v,
            None => 60,
        };
        (minutes as i64, 60)
    } else {
        proof {
            assert(t@.take(n as int) =~= t@);
        }
        (24, 3600)
    }
}

/// Whether the range a statistics range argument stands for can be held
/// by the time library (the command gives up on any other).
pub fn duration_fits(s: &str) -> (b: bool)
    ensures
        b == span_holds(range_secs(range_text(s@))),
        lower_ascii_agrees(trim(s@)),
{
    let (count, unit) = range_parts(s);
    let secs: i128 = (count as i128) * (unit as i128);
    -(i64::MAX as i128 / 1000) <= secs && secs <= i64::MAX as i128 / 1000
}

/// The time range a statistics range argument (`24h`, `7d`, `30min`, ...)
/// stands for, in seconds. Ranges the time library cannot hold are left
/// out.
pub fn parse_duration(s: &str) -> (secs: i64)
    requires
        span_holds(range_secs(range_text(s@))),
    ensures
        secs == range_secs(range_text(s@)),
        lower_ascii_agrees(trim(s@)),
{
    let (count, unit) = range_parts(s);
    count * unit
}

/// The time range a statistics range argument stands for, in seconds;
/// `None` for a range the time library cannot hold.
pub fn checked_duration(s: &str) -> (r: Option<i64>)
    ensures
        span_holds(range_secs(range_text(s@))) ==> r == Some(range_secs(range_text(s@)) as i64),
        !span_holds(range_secs(range_text(s@))) ==> r is None,
        lower_ascii_agrees(trim(s@)),
{
    if duration_fits(s) {
        Some(parse_duration(s))
    } else {
        None
    }
}

} // verus!
