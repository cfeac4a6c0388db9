//! Text helpers: decimal rendering, whitespace-separated word counting,
//! string comparison and the conversions between `str` and characters.
use vstd::prelude::*;
use vstd::string::StringExecFns;

verus! {

/// The ASCII digit character for `d`, for `d < 10`.
pub open spec fn digit_char(d: nat) -> char {
    if d == 0 { '0' }
    else if d == 1 { '1' }
    else if d == 2 { '2' }
    else if d == 3 { '3' }
    else if d == 4 { '4' }
    else if d == 5 { '5' }
    else if d == 6 { '6' }
    else if d == 7 { '7' }
    else if d == 8 { '8' }
    else { '9' }
}

/// The decimal rendering of a natural number, without sign or leading zeros.
pub open spec fn decimal(n: nat) -> Seq<char>
    decreases n,
{
    if n < 10 {
        seq![digit_char(n)]
    } else {
        decimal(n / 10).push(digit_char(n % 10))
    }
}

/// The decimal rendering of an integer, with a leading '-' when negative.
pub open spec fn signed_decimal(n: int) -> Seq<char> {
    if n < 0 {
        seq!['-'] + decimal((-n) as nat)
    } else {
        decimal(n as nat)
    }
}

/// Whether `c` is white space in the sense of Unicode's `White_Space`
/// property (the test that `char::is_whitespace` performs).
pub open spec fn is_white_space(c: char) -> bool {
    let u = c as u32;
    ||| (0x09 <= u && u <= 0x0D)
    ||| u == 0x20
    ||| u == 0x85
    ||| u == 0xA0
    ||| u == 0x1680
    ||| (0x2000 <= u && u <= 0x200A)
    ||| u == 0x2028
    ||| u == 0x2029
    ||| u == 0x202F
    ||| u == 0x205F
    ||| u == 0x3000
}

/// Whether a word begins at position `i` of `s`: a non-space character that
/// is first or follows a space.
pub open spec fn word_starts_at(s: Seq<char>, i: int) -> bool {
    &&& !is_white_space(s[i])
    &&& (i == 0 || is_white_space(s[i - 1]))
}

/// The number of maximal runs of non-space characters in `s`
/// (what `split_whitespace().count()` counts).
pub open spec fn word_count(s: Seq<char>) -> nat
    decreases s.len(),
{
    if s.len() == 0 {
        0
    } else {
        word_count(s.drop_last()) + if word_starts_at(s, s.len() - 1) { 1nat } else { 0nat }
    }
}

/// The characters of each string.
pub open spec fn texts(v: Seq<String>) -> Seq<Seq<char>> {
    v.map_values(|s: String| s@)
}

/// The parts in order, with `sep` between consecutive ones.
pub open spec fn join(parts: Seq<Seq<char>>, sep: Seq<char>) -> Seq<char>
    decreases parts.len(),
{
    if parts.len() == 0 {
        Seq::empty()
    } else if parts.len() == 1 {
        parts[0]
    } else {
        join(parts.drop_last(), sep) + sep + parts.last()
    }
}

/// Whether `needle` occurs in `hay` as a contiguous piece.
pub open spec fn contains_text(hay: Seq<char>, needle: Seq<char>) -> bool {
    exists|i: int| 0 <= i && i + needle.len() <= hay.len() && #[trigger] hay.subrange(i, i + needle.len()) == needle
}

/// The characters of a string slice, in order.
#[verifier::external_body]
pub(crate) fn chars_of(s: &str) -> (v: Vec<char>)
    ensures
        v@ == s@,
{
    s.chars().collect()
}

/// A string made of the given characters, in order.
#[verifier::external_body]
pub(crate) fn text_from_chars(v: &Vec<char>) -> (s: String)
    ensures
        s@ == v@,
{
    v.iter().collect()
}

/// Whether the two slices hold the same characters.
pub fn str_eq(a: &str, b: &str) -> (r: bool)
    ensures
        r == (a@ == b@),
{
    let x = String::from_str(a);
    let y = String::from_str(b);
    x == y
}

/// Whether the two strings hold the same characters.
pub fn string_eq(a: &String, b: &String) -> (r: bool)
    ensures
        r == (a@ == b@),
{
    a.eq(b)
}

/// Whether `c` is white space (see `is_white_space`).
pub fn char_is_white_space(c: char) -> (r: bool)
    ensures
        r == is_white_space(c),
{
    let u = c as u32;
    (0x09 <= u && u <= 0x0D) || u == 0x20 || u == 0x85 || u == 0xA0 || u == 0x1680 || (0x2000
        <= u && u <= 0x200A) || u == 0x2028 || u == 0x2029 || u == 0x202F || u == 0x205F || u
        == 0x3000
}

proof fn lemma_word_count_step(s: Seq<char>, i: int)
    requires
        0 <= i < s.len(),
    ensures
        word_count(s.take(i + 1)) == word_count(s.take(i)) + if word_starts_at(s, i) { 1nat } else { 0nat },
{
    let t = s.take(i + 1);
    assert(t.drop_last() =~= s.take(i));
    assert(t[i] == s[i]);
    if i > 0 {
        assert(t[i - 1] == s[i - 1]);
    }
}

proof fn lemma_word_count_after_space(x: Seq<char>, b: Seq<char>)
    requires
        x.len() == 0 || is_white_space(x.last()),
    ensures
        word_count(x + b) == word_count(x) + word_count(b),
    decreases b.len(),
{
    if b.len() == 0 {
        assert(x + b =~= x);
    } else {
        let c = x + b;
        lemma_word_count_after_space(x, b.drop_last());
        assert(c.drop_last() =~= x + b.drop_last());
        let n = c.len() - 1;
        assert(c[n] == b[b.len() - 1]);
        if b.len() > 1 {
            assert(c[n - 1] == b[b.len() - 2]);
        } else if x.len() > 0 {
            assert(c[n - 1] == x.last());
        }
    }
}

/// Word counts add over two texts joined by a space, and the empty text
/// has none.
pub proof fn lemma_word_count_join(a: Seq<char>, b: Seq<char>)
    ensures
        word_count(a + seq![' '] + b) == word_count(a) + word_count(b),
        word_count(Seq::<char>::empty()) == 0,
{
    let a1 = a + seq![' '];
    assert(a1.drop_last() =~= a);
    assert(a1.last() == ' ');
    assert(is_white_space(' ')) by {
        assert((' ' as u32) == 0x20);
    }
    lemma_word_count_after_space(a1, b);
}

/// The number of whitespace-separated words in `s`.
pub fn count_words(s: &str) -> (n: usize)
    ensures
        n == word_count(s@),
{
    let cs = chars_of(s);
    let mut n: usize = 0;
    let mut prev_space = true;
    let mut i: usize = 0;
    while i < cs.len()
        invariant
            0 <= i <= cs.len(),
            cs@ == s@,
            n == word_count(cs@.take(i as int)),
            n <= i,
            prev_space == (i == 0 || is_white_space(cs@[i - 1])),
        decreases cs.len() - i,
    {
        proof {
            lemma_word_count_step(cs@, i as int);
        }
        let sp = char_is_white_space(cs[i]);
        if !sp && prev_space {
            n = n + 1;
        }
        prev_space = sp;
        i = i + 1;
    }
    assert(cs@.take(cs.len() as int) =~= cs@);
    n
}

/// The decimal digits of `n`, most significant first.
pub fn decimal_chars(n: u64) -> (v: Vec<char>)
    ensures
        v@ == decimal(n as nat),
    decreases n,
{
    if n < 10 {
        let mut v: Vec<char> = Vec::new();
        v.push(digit_of(n));
        v
    } else {
        let mut v = decimal_chars(n / 10);
        v.push(digit_of(n % 10));
        v
    }
}

fn digit_of(d: u64) -> (c: char)
    requires
        d < 10,
    ensures
        c == digit_char(d as nat),
{
    if d == 0 { '0' }
    else if d == 1 { '1' }
    else if d == 2 { '2' }
    else if d == 3 { '3' }
    else if d == 4 { '4' }
    else if d == 5 { '5' }
    else if d == 6 { '6' }
    else if d == 7 { '7' }
    else if d == 8 { '8' }
    else { '9' }
}

/// The decimal rendering of `n`.
pub fn decimal_text(n: u64) -> (s: String)
    ensures
        s@ == decimal(n as nat),
{
    let v = decimal_chars(n);
    text_from_chars(&v)
}

/// The decimal rendering of a signed `n`.
pub fn signed_decimal_text(n: i64) -> (s: String)
    ensures
        s@ == signed_decimal(n as int),
{
    if n < 0 {
        let m: u64 = if n == i64::MIN { 9223372036854775808u64 } else { (-n) as u64 };
        let mut s = String::from_str("-");
        let d = decimal_text(m);
        s.append(d.as_str());
        proof {
            reveal_strlit("-");
        }
        s
    } else {
        decimal_text(n as u64)
    }
}

/// `s` without its leading white space.
pub open spec fn trim_start(s: Seq<char>) -> Seq<char>
    decreases s.len(),
{
    if s.len() > 0 && is_white_space(s[0]) {
        trim_start(s.drop_first())
    } else {
        s
    }
}

/// `s` without its trailing white space.
pub open spec fn trim_end(s: Seq<char>) -> Seq<char>
    decreases s.len(),
{
    if s.len() > 0 && is_white_space(s.last()) {
        trim_end(s.drop_last())
    } else {
        s
    }
}

/// `s` without leading and trailing white space (what `str::trim` gives).
pub open spec fn trim(s: Seq<char>) -> Seq<char> {
    trim_end(trim_start(s))
}

/// The part of `s` before the first `c`, or all of `s` when there is no `c`.
pub open spec fn before_char(s: Seq<char>, c: char) -> Seq<char>
    decreases s.len(),
{
    if s.len() == 0 {
        s
    } else if s[0] == c {
        Seq::empty()
    } else {
        seq![s[0]] + before_char(s.drop_first(), c)
    }
}

/// The text `{:?}` renders for a string: quoted, with escapes.
pub uninterp spec fn string_debug(s: Seq<char>) -> Seq<char>;

/// Renders `s` with `{:?}`. Claims only that the text is a function of the
/// characters of `s`; the quoting and escaping rules are std's.
#[verifier::external_body]
pub(crate) fn string_debug_text(s: &str) -> (r: String)
    ensures
        r@ == string_debug(s@),
{
    format!("{:?}", s)
}

proof fn lemma_trim_start_skip(s: Seq<char>, i: int)
    requires
        0 <= i < s.len(),
        is_white_space(s[i]),
    ensures
        trim_start(s.skip(i)) == trim_start(s.skip(i + 1)),
{
    assert(s.skip(i).drop_first() =~= s.skip(i + 1));
}

proof fn lemma_trim_end_take(s: Seq<char>, j: int)
    requires
        0 < j <= s.len(),
        is_white_space(s[j - 1]),
    ensures
        trim_end(s.take(j)) == trim_end(s.take(j - 1)),
{
    assert(s.take(j).drop_last() =~= s.take(j - 1));
}

/// `s` without leading and trailing white space.
pub fn trim_chars(s: &Vec<char>) -> (r: Vec<char>)
    ensures
        r@ == trim(s@),
{
    let n = s.len();
    let mut i: usize = 0;
    assert(s@.skip(0) =~= s@);
    while i < n && char_is_white_space(s[i])
        invariant
            0 <= i <= n,
            n == s@.len(),
            trim_start(s@) == trim_start(s@.skip(i as int)),
        decreases n - i,
    {
        proof {
            lemma_trim_start_skip(s@, i as int);
        }
        i = i + 1;
    }
    let ghost t = s@.skip(i as int);
    assert(trim_start(t) == t);
    let mut j: usize = n;
    assert(t.take(t.len() as int) =~= t);
    while j > i && char_is_white_space(s[j - 1])
        invariant
            i <= j <= n,
            n == s@.len(),
            t == s@.skip(i as int),
            trim_end(t) == trim_end(t.take(j - i)),
        decreases j - i,
    {
        proof {
            assert(t[j - i - 1] == s@[j - 1]);
            lemma_trim_end_take(t, (j - i) as int);
        }
        j = j - 1;
    }
    let ghost u = t.take(j - i);
    assert(trim_end(u) == u);
    let mut r: Vec<char> = Vec::new();
    let mut k: usize = i;
    while k < j
        invariant
            i <= k <= j <= n,
            n == s@.len(),
            r@ == s@.subrange(i as int, k as int),
        decreases j - k,
    {
        r.push(s[k]);
        assert(r@ =~= s@.subrange(i as int, k + 1));
        k = k + 1;
    }
    assert(r@ =~= u);
    r
}

proof fn lemma_before_char_prefix(s: Seq<char>, c: char, i: int)
    requires
        0 <= i <= s.len(),
        forall|k: int| 0 <= k < i ==> s[k] != c,
    ensures
        before_char(s, c) == s.take(i) + before_char(s.skip(i), c),
    decreases i,
{
    if i > 0 {
        lemma_before_char_prefix(s.drop_first(), c, i - 1);
        assert(s.drop_first().take(i - 1) =~= s.take(i).drop_first());
        assert(s.drop_first().skip(i - 1) =~= s.skip(i));
        assert(seq![s[0]] + s.take(i).drop_first() =~= s.take(i));
    } else {
        assert(s.skip(0) =~= s);
        assert(s.take(0) + before_char(s, c) =~= before_char(s, c));
    }
}

/// The part of `s` before the first `c`, or all of `s`.
pub fn chars_before(s: &Vec<char>, c: char) -> (r: Vec<char>)
    ensures
        r@ == before_char(s@, c),
{
    let mut r: Vec<char> = Vec::new();
    let mut i: usize = 0;
    while i < s.len() && s[i] != c
        invariant
            0 <= i <= s.len(),
            r@ == s@.take(i as int),
            forall|k: int| 0 <= k < i ==> s@[k] != c,
        decreases s.len() - i,
    {
        r.push(s[i]);
        assert(r@ =~= s@.take(i + 1));
        i = i + 1;
    }
    proof {
        lemma_before_char_prefix(s@, c, i as int);
        if i < s.len() {
            assert(s@.skip(i as int)[0] == c);
        } else {
            assert(s@.skip(i as int).len() == 0);
        }
        assert(s@.take(i as int) + before_char(s@.skip(i as int), c) =~= s@.take(i as int));
    }
    r
}

/// The parts joined with `sep` between consecutive ones.
pub fn join_texts(v: &Vec<String>, sep: &str) -> (s: String)
    ensures
        s@ == join(texts(v@), sep@),
{
    let mut s = String::new();
    let mut i: usize = 0;
    while i < v.len()
        invariant
            0 <= i <= v.len(),
            s@ == join(texts(v@).take(i as int), sep@),
        decreases v.len() - i,
    {
        let ghost t = texts(v@).take(i + 1);
        assert(t.drop_last() =~= texts(v@).take(i as int));
        if i > 0 {
            s.append(sep);
        } else {
            assert(join(texts(v@).take(0), sep@) =~= Seq::<char>::empty());
        }
        s.append(v[i].as_str());
        i = i + 1;
    }
    assert(texts(v@).take(v.len() as int) =~= texts(v@));
    s
}

/// The decimal rendering of a 128-bit `n`.
pub fn wide_decimal_text(n: u128) -> (s: String)
    ensures
        s@ == decimal(n as nat),
{
    let v = wide_decimal_chars(n);
    text_from_chars(&v)
}

fn wide_decimal_chars(n: u128) -> (v: Vec<char>)
    ensures
        v@ == decimal(n as nat),
    decreases n,
{
    if n < 10 {
        let mut v: Vec<char> = Vec::new();
        v.push(digit_of((n % 10) as u64));
        v
    } else {
        let mut v = wide_decimal_chars(n / 10);
        v.push(digit_of((n % 10) as u64));
        v
    }
}

/// Whether `needle` occurs in `hay`.
pub fn has_text(hay: &Vec<char>, needle: &Vec<char>) -> (r: bool)
    ensures
        r == contains_text(hay@, needle@),
{
    let n = needle.len();
    if n > hay.len() {
        return false;
    }
    let mut i: usize = 0;
    while i <= hay.len() - n
        invariant
            n == needle.len(),
            n <= hay.len(),
            i <= hay.len() - n + 1,
            forall|j: int| 0 <= j < i ==> #[trigger] hay@.subrange(j, j + n) != needle@,
        ensures
            i == hay.len() - n + 1,
            forall|j: int| 0 <= j < i ==> #[trigger] hay@.subrange(j, j + n) != needle@,
        decreases hay.len() - i,
    {
        let mut k: usize = 0;
        while k < n && hay[i + k] == needle[k]
            invariant
                k <= n,
                n == needle.len(),
                i + n <= hay.len(),
                forall|m: int| 0 <= m < k ==> hay@[i + m] == needle@[m],
            decreases n - k,
        {
            k = k + 1;
        }
        if k == n {
            assert(hay@.subrange(i as int, i + n) =~= needle@);
            return true;
        }
        assert(hay@.subrange(i as int, i + n)[k as int] != needle@[k as int]);
        if i == hay.len() - n {
            i = i + 1;
            break;
        }
        i = i + 1;
    }
    assert forall|j: int| 0 <= j && j + needle@.len() <= hay@.len() implies #[trigger] hay@.subrange(
        j,
        j + needle@.len(),
    ) != needle@ by {
        assert(j < i);
    }
    false
}

} // verus!
