//! Fresh identifiers and the current time, as plain numbers, and the
//! hyphenated text of an identifier.
use vstd::prelude::*;
use crate::text::text_from_chars;

verus! {

/// Whether a 128-bit UUID value reads as version 4, variant `10`.
pub open spec fn is_v4(id: u128) -> bool {
    id & 0xF000C000000000000000u128 == 0x40008000000000000000u128
}

/// A fresh random (version 4) UUID, as its 128-bit value.
/// `Uuid::new_v4` masks random bits so that the version nibble reads 4
/// and the variant bits read `10`; nothing else is claimed of the value.
#[verifier::external_body]
pub(crate) fn fresh_id() -> (id: u128)
    ensures
        is_v4(id),
{
    uuid::Uuid::new_v4().as_u128()
}

/// Whether `ms` milliseconds from the Unix epoch lie within the dates chrono
/// can hold: its documented years -262144 to 262143 all lie less than
/// 10^16 milliseconds from the epoch on either side.
pub open spec fn clock_in_range(ms: i64) -> bool {
    -10_000_000_000_000_000i64 < ms < 10_000_000_000_000_000i64
}

/// The current time as milliseconds since the Unix epoch, read with
/// `chrono::Utc::now().timestamp_millis()`. Claims only that the reading is
/// a date chrono can hold (see `clock_in_range`); which date is not said.
#[verifier::external_body]
pub(crate) fn now_millis() -> (ms: i64)
    ensures
        clock_in_range(ms),
{
    chrono::Utc::now().timestamp_millis()
}

/// The 128-bit value of the UUID a text spells, as `Uuid::parse_str` reads
/// it; `None` when it spells none.
pub uninterp spec fn uuid_value(text: Seq<char>) -> Option<u128>;

/// Reads a UUID with `uuid::Uuid::parse_str`, giving its 128-bit value or
/// the parser's message. Claims that whether and what it reads is a
/// function of the text alone; which spellings are accepted is the uuid
/// crate's grammar and is not restated.
#[verifier::external_body]
fn parse_uuid(text: &str) -> (r: Result<u128, String>)
    ensures
        match uuid_value(text@) {
            Some(n) => r == Ok::<u128, String>(n),
            None => r is Err,
        },
{
    match uuid::Uuid::parse_str(text) {
        Ok(u) => Ok(u.as_u128()),
        Err(e) => Err(e.to_string()),
    }
}

/// The run a run id names: its UUID's value, or the message for an id that
/// is no UUID.
pub fn parse_run_id(run_id: &str) -> (r: Result<u128, String>)
    ensures
        match uuid_value(run_id@) {
            Some(n) => r == Ok::<u128, String>(n),
            None => r matches Err(m) && exists|detail: Seq<char>| m@ == "Invalid run ID '"@ + run_id@ + "': "@ + detail,
        },
{
    match parse_uuid(run_id) {
        Ok(n) => Ok(n),
        Err(detail) => Err(crate::error::cat4("Invalid run ID '", run_id, "': ", detail.as_str())),
    }
}

/// The lowercase hexadecimal digit for `d`, for `d < 16`.
pub open spec fn hex_char(d: nat) -> char {
    if d == 0 { '0' }
    else if d == 1 { '1' }
    else if d == 2 { '2' }
    else if d == 3 { '3' }
    else if d == 4 { '4' }
    else if d == 5 { '5' }
    else if d == 6 { '6' }
    else if d == 7 { '7' }
    else if d == 8 { '8' }
    else if d == 9 { '9' }
    else if d == 10 { 'a' }
    else if d == 11 { 'b' }
    else if d == 12 { 'c' }
    else if d == 13 { 'd' }
    else if d == 14 { 'e' }
    else { 'f' }
}

/// The last `count` hexadecimal digits of `n`, most significant first,
/// padded with zeros.
pub open spec fn hex_digits(n: nat, count: nat) -> Seq<char>
    decreases count,
{
    if count == 0 {
        Seq::empty()
    } else {
        hex_digits(n / 16, (count - 1) as nat).push(hex_char(n % 16))
    }
}

/// The hyphenated text of a UUID: its 32 hexadecimal digits in groups of
/// 8, 4, 4, 4 and 12, joined by hyphens.
pub open spec fn uuid_text_of(id: u128) -> Seq<char> {
    let h = hex_digits(id as nat, 32);
    h.subrange(0, 8) + seq!['-'] + h.subrange(8, 12) + seq!['-'] + h.subrange(12, 16) + seq!['-']
        + h.subrange(16, 20) + seq!['-'] + h.subrange(20, 32)
}

proof fn lemma_hex_digits_len(n: nat, count: nat)
    ensures
        hex_digits(n, count).len() == count,
    decreases count,
{
    if count > 0 {
        lemma_hex_digits_len(n / 16, (count - 1) as nat);
    }
}

fn hex_of(d: u128) -> (c: char)
    requires
        d < 16,
    ensures
        c == hex_char(d as nat),
{
    if d == 0 { '0' }
    else if d == 1 { '1' }
    else if d == 2 { '2' }
    else if d == 3 { '3' }
    else if d == 4 { '4' }
    else if d == 5 { '5' }
    else if d == 6 { '6' }
    else if d == 7 { '7' }
    else if d == 8 { '8' }
    else if d == 9 { '9' }
    else if d == 10 { 'a' }
    else if d == 11 { 'b' }
    else if d == 12 { 'c' }
    else if d == 13 { 'd' }
    else if d == 14 { 'e' }
    else { 'f' }
}

fn hex_chars(n: u128, count: usize) -> (v: Vec<char>)
    ensures
        v@ == hex_digits(n as nat, count as nat),
    decreases count,
{
    if count == 0 {
        Vec::new()
    } else {
        let mut v = hex_chars(n / 16, count - 1);
        v.push(hex_of(n % 16));
        v
    }
}

fn push_range(out: &mut Vec<char>, v: &Vec<char>, from: usize, to: usize)
    requires
        from <= to <= v.len(),
    ensures
        final(out)@ == old(out)@ + v@.subrange(from as int, to as int),
{
    let ghost start = out@;
    let mut i: usize = from;
    while i < to
        invariant
            from <= i <= to <= v.len(),
            out@ == start + v@.subrange(from as int, i as int),
        decreases to - i,
    {
        out.push(v[i]);
        proof {
            assert(out@ =~= start + v@.subrange(from as int, i + 1));
        }
        i = i + 1;
    }
}

/// The hyphenated text of a UUID given by its 128-bit value (what
/// `Uuid::to_string` shows).
pub fn uuid_text(id: u128) -> (s: String)
    ensures
        s@ == uuid_text_of(id),
{
    let h = hex_chars(id, 32);
    proof {
        lemma_hex_digits_len(id as nat, 32);
    }
    let mut out: Vec<char> = Vec::new();
    push_range(&mut out, &h, 0, 8);
    out.push('-');
    push_range(&mut out, &h, 8, 12);
    out.push('-');
    push_range(&mut out, &h, 12, 16);
    out.push('-');
    push_range(&mut out, &h, 16, 20);
    out.push('-');
    push_range(&mut out, &h, 20, 32);
    proof {
        assert(out@ =~= uuid_text_of(id));
    }
    text_from_chars(&out)
}

} // verus!
