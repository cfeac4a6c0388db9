//! Detecting recurring errors, failing tools and strategy effectiveness in
//! the errors of a recent time window.
use vstd::prelude::*;
use vstd::string::StringExecFns;
use crate::error::cat5;
use crate::growth::types::{
    dec, pattern_views, percent_of, DetectedPattern, DetectedPatternView, PatternType, Ratio,
};
use crate::seqs::{keep, lemma_keep_len, lemma_keep_step};
use crate::stamp::now_millis;
use crate::text::{decimal_text, string_eq, texts, wide_decimal_text};

verus! {

/// One past error: its kind, the tool and heal strategy involved (if any),
/// whether it was resolved, and when it happened (milliseconds since the
/// epoch).
#[derive(Debug)]
pub struct ErrorRecord {
    pub error_type: String,
    pub tool_name: Option<String>,
    pub strategy_used: Option<String>,
    pub resolved: bool,
    pub timestamp_ms: i64,
}

/// An error record, with each string by its characters.
pub struct ErrorRecordView {
    pub error_type: Seq<char>,
    pub tool_name: Option<Seq<char>>,
    pub strategy_used: Option<Seq<char>>,
    pub resolved: bool,
    pub timestamp_ms: i64,
}

/// The characters of an optional string.
pub open spec fn opt_text(o: Option<String>) -> Option<Seq<char>> {
    match o {
        Some(s) => Some(s@),
        None => None,
    }
}

impl View for ErrorRecord {
    type V = ErrorRecordView;

    open spec fn view(&self) -> ErrorRecordView {
        ErrorRecordView {
            error_type: self.error_type@,
            tool_name: opt_text(self.tool_name),
            strategy_used: opt_text(self.strategy_used),
            resolved: self.resolved,
            timestamp_ms: self.timestamp_ms,
        }
    }
}

fn clone_opt(o: &Option<String>) -> (r: Option<String>)
    ensures
        opt_text(r) == opt_text(*o),
{
    match o {
        Some(s) => Some(s.clone()),
        None => None,
    }
}

impl ErrorRecord {
    /// A copy of the record.
    pub fn duplicate(&self) -> (r: ErrorRecord)
        ensures
            r@ == self@,
    {
        ErrorRecord {
            error_type: self.error_type.clone(),
            tool_name: clone_opt(&self.tool_name),
            strategy_used: clone_opt(&self.strategy_used),
            resolved: self.resolved,
            timestamp_ms: self.timestamp_ms,
        }
    }
}

/// The views of a sequence of records.
pub open spec fn record_views(s: Seq<ErrorRecord>) -> Seq<ErrorRecordView> {
    s.map_values(|r: ErrorRecord| r@)
}

/// By which field records are grouped.
#[derive(Clone, Copy, Debug, PartialEq, Eq, Structural)]
pub enum RecordKey {
    ErrorType,
    Tool,
    Strategy,
}

/// The field a record is grouped by, if it has one.
pub open spec fn key_of(k: RecordKey, r: ErrorRecordView) -> Option<Seq<char>> {
    match k {
        RecordKey::ErrorType => Some(r.error_type),
        RecordKey::Tool => r.tool_name,
        RecordKey::Strategy => r.strategy_used,
    }
}

/// The distinct values of the grouping field, in order of first occurrence.
pub open spec fn distinct_keys(recs: Seq<ErrorRecordView>, k: RecordKey) -> Seq<Seq<char>>
    decreases recs.len(),
{
    if recs.len() == 0 {
        Seq::empty()
    } else {
        let r = distinct_keys(recs.drop_last(), k);
        match key_of(k, recs.last()) {
            Some(x) => if r.contains(x) {
                r
            } else {
                r.push(x)
            },
            None => r,
        }
    }
}

/// Selects the records whose grouping field is `x`.
pub open spec fn in_group(k: RecordKey, x: Seq<char>) -> spec_fn(ErrorRecordView) -> bool {
    |r: ErrorRecordView| key_of(k, r) == Some(x)
}

/// The records whose grouping field is `x`, in order.
pub open spec fn group(recs: Seq<ErrorRecordView>, k: RecordKey, x: Seq<char>) -> Seq<ErrorRecordView> {
    keep(recs, in_group(k, x))
}

/// Selects resolved records.
pub open spec fn is_resolved() -> spec_fn(ErrorRecordView) -> bool {
    |r: ErrorRecordView| r.resolved
}

/// Selects records that name a tool.
pub open spec fn has_tool() -> spec_fn(ErrorRecordView) -> bool {
    |r: ErrorRecordView| r.tool_name is Some
}

/// Selects records at or after `cutoff`.
pub open spec fn since(cutoff: int) -> spec_fn(ErrorRecordView) -> bool {
    |r: ErrorRecordView| r.timestamp_ms >= cutoff
}

/// The tools the records name, in order.
pub open spec fn tools_named(g: Seq<ErrorRecordView>) -> Seq<Seq<char>> {
    keep(g, has_tool()).map_values(|r: ErrorRecordView| r.tool_name->0)
}

/// The error kinds of the records, in order.
pub open spec fn error_types_of(g: Seq<ErrorRecordView>) -> Seq<Seq<char>> {
    g.map_values(|r: ErrorRecordView| r.error_type)
}

/// The pattern reported for a group of records with grouping field `x`.
pub open spec fn pattern_for(k: RecordKey, recs: Seq<ErrorRecordView>, x: Seq<char>, hours: u64) -> DetectedPatternView {
    let g = group(recs, k, x);
    let n = g.len();
    let res = keep(g, is_resolved()).len();
    match k {
        RecordKey::ErrorType => DetectedPatternView {
            pattern_type: PatternType::RecurringError,
            description: "Error '"@ + x + "' occurred "@ + dec(n) + " times in the last "@ + dec(
                hours as nat,
            ) + "h"@,
            occurrences: n as usize,
            error_types: seq![x],
            tool_names: tools_named(g),
            time_range_hours: hours,
            confidence: Ratio { num: res as usize, den: n as usize },
        },
        RecordKey::Tool => DetectedPatternView {
            pattern_type: PatternType::ToolFailure,
            description: "Tool '"@ + x + "' failed "@ + dec(n) + " times in the last "@ + dec(
                hours as nat,
            ) + "h"@,
            occurrences: n as usize,
            error_types: error_types_of(g),
            tool_names: seq![x],
            time_range_hours: hours,
            confidence: Ratio { num: 4, den: 5 },
        },
        RecordKey::Strategy => DetectedPatternView {
            pattern_type: PatternType::StrategyEffectiveness,
            description: "Strategy '"@ + x + "' resolved "@ + dec(res) + "/"@ + dec(n)
                + " errors ("@ + dec(percent_of(Ratio { num: res as usize, den: n as usize }))
                + "%)"@,
            occurrences: n as usize,
            error_types: Seq::empty(),
            tool_names: Seq::empty(),
            time_range_hours: hours,
            confidence: Ratio { num: res as usize, den: n as usize },
        },
    }
}

/// The patterns for the groups named in `keys` (in that order) that hold at
/// least `min` records.
pub open spec fn patterns_for(
    k: RecordKey,
    recs: Seq<ErrorRecordView>,
    keys: Seq<Seq<char>>,
    min: usize,
    hours: u64,
) -> Seq<DetectedPatternView>
    decreases keys.len(),
{
    if keys.len() == 0 {
        Seq::empty()
    } else {
        let rest = patterns_for(k, recs, keys.drop_last(), min, hours);
        if group(recs, k, keys.last()).len() >= min {
            rest.push(pattern_for(k, recs, keys.last(), hours))
        } else {
            rest
        }
    }
}

/// The patterns of one kind found in `recs`.
pub open spec fn patterns_of_kind(k: RecordKey, recs: Seq<ErrorRecordView>, min: usize, hours: u64) -> Seq<DetectedPatternView> {
    patterns_for(k, recs, distinct_keys(recs, k), min, hours)
}

/// All patterns found in the records at or after `cutoff`: recurring error
/// kinds, then failing tools, then heal strategies, each kind in the order
/// in which its groups first occur.
pub open spec fn detected(records: Seq<ErrorRecordView>, cutoff: int, min: usize, hours: u64) -> Seq<DetectedPatternView> {
    let recent = keep(records, since(cutoff));
    patterns_of_kind(RecordKey::ErrorType, recent, min, hours) + patterns_of_kind(
        RecordKey::Tool,
        recent,
        min,
        hours,
    ) + patterns_of_kind(RecordKey::Strategy, recent, min, hours)
}

proof fn lemma_keep_keep<A>(s: Seq<A>, p: spec_fn(A) -> bool, q: spec_fn(A) -> bool, r: spec_fn(A) -> bool)
    requires
        forall|a: A| #[trigger] r(a) == (p(a) && q(a)),
    ensures
        keep(keep(s, p), q) == keep(s, r),
    decreases s.len(),
{
    if s.len() > 0 {
        let t = s.drop_last();
        let x = s.last();
        lemma_keep_keep(t, p, q, r);
        assert(r(x) == (p(x) && q(x)));
        if p(x) {
            let kp = keep(t, p).push(x);
            assert(kp.drop_last() =~= keep(t, p));
            assert(kp.last() == x);
        }
    }
}

proof fn lemma_keep_hit<A>(s: Seq<A>, p: spec_fn(A) -> bool, i: int)
    requires
        0 <= i < s.len(),
        p(s[i]),
    ensures
        keep(s, p).len() > 0,
    decreases s.len(),
{
    if i < s.len() - 1 {
        assert(s.drop_last()[i] == s[i]);
        lemma_keep_hit(s.drop_last(), p, i);
    }
}

proof fn lemma_patterns_for_elem(
    k: RecordKey,
    recs: Seq<ErrorRecordView>,
    keys: Seq<Seq<char>>,
    min: usize,
    hours: u64,
)
    ensures
        forall|j: int| 0 <= j < patterns_for(k, recs, keys, min, hours).len() ==> exists|x: Seq<char>|
            #[trigger] patterns_for(k, recs, keys, min, hours)[j] == pattern_for(k, recs, x, hours),
    decreases keys.len(),
{
    if keys.len() > 0 {
        lemma_patterns_for_elem(k, recs, keys.drop_last(), min, hours);
        let rest = patterns_for(k, recs, keys.drop_last(), min, hours);
        let all = patterns_for(k, recs, keys, min, hours);
        assert forall|j: int| 0 <= j < all.len() implies exists|x: Seq<char>|
            #[trigger] all[j] == pattern_for(k, recs, x, hours) by {
            if j < rest.len() {
                assert(all[j] == rest[j]);
            } else {
                assert(all[j] == pattern_for(k, recs, keys.last(), hours));
            }
        }
    }
}

/// The key kind whose patterns have this type.
pub open spec fn kind_of_type(t: PatternType) -> RecordKey {
    match t {
        PatternType::RecurringError => RecordKey::ErrorType,
        PatternType::ToolFailure => RecordKey::Tool,
        _ => RecordKey::Strategy,
    }
}

proof fn lemma_detected_source(records: Seq<ErrorRecordView>, cutoff: int, min: usize, hours: u64, j: int) -> (x: Seq<char>)
    requires
        0 <= j < detected(records, cutoff, min, hours).len(),
    ensures
        detected(records, cutoff, min, hours)[j] == pattern_for(
            kind_of_type(detected(records, cutoff, min, hours)[j].pattern_type),
            keep(records, since(cutoff)),
            x,
            hours,
        ),
{
    let d = detected(records, cutoff, min, hours);
    let recent = keep(records, since(cutoff));
    let a = patterns_of_kind(RecordKey::ErrorType, recent, min, hours);
    let b = patterns_of_kind(RecordKey::Tool, recent, min, hours);
    let c = patterns_of_kind(RecordKey::Strategy, recent, min, hours);
    lemma_patterns_for_elem(RecordKey::ErrorType, recent, distinct_keys(recent, RecordKey::ErrorType), min, hours);
    lemma_patterns_for_elem(RecordKey::Tool, recent, distinct_keys(recent, RecordKey::Tool), min, hours);
    lemma_patterns_for_elem(RecordKey::Strategy, recent, distinct_keys(recent, RecordKey::Strategy), min, hours);
    if j < a.len() {
        assert(d[j] == a[j]);
        choose|x: Seq<char>| a[j] == pattern_for(RecordKey::ErrorType, recent, x, hours)
    } else if j < a.len() + b.len() {
        assert(d[j] == b[j - a.len()]);
        choose|x: Seq<char>| b[j - a.len()] == pattern_for(RecordKey::Tool, recent, x, hours)
    } else {
        assert(d[j] == c[j - a.len() - b.len()]);
        choose|x: Seq<char>| c[j - a.len() - b.len()] == pattern_for(RecordKey::Strategy, recent, x, hours)
    }
}

/// A recurring-error pattern reports one error kind; it counts every
/// record of the window with that kind, and lists, in order, the tool of
/// each such record that names one, so the list is non-empty whenever
/// some such record names a tool.
pub proof fn lemma_recurring_error_pattern(records: Seq<ErrorRecordView>, cutoff: int, min: usize, hours: u64, j: int)
    requires
        records.len() <= usize::MAX,
        0 <= j < detected(records, cutoff, min, hours).len(),
        detected(records, cutoff, min, hours)[j].pattern_type == PatternType::RecurringError,
    ensures
        ({
            let p = detected(records, cutoff, min, hours)[j];
            &&& p.error_types.len() == 1
            &&& p.occurrences == keep(
                records,
                |r: ErrorRecordView| r.timestamp_ms >= cutoff && r.error_type == p.error_types[0],
            ).len()
            &&& p.tool_names == keep(
                records,
                |r: ErrorRecordView|
                    r.timestamp_ms >= cutoff && r.error_type == p.error_types[0] && r.tool_name is Some,
            ).map_values(|r: ErrorRecordView| r.tool_name->0)
            &&& (exists|i: int|
                0 <= i < records.len() && (#[trigger] records[i]).timestamp_ms >= cutoff
                    && records[i].error_type == p.error_types[0] && records[i].tool_name is Some)
                ==> p.tool_names.len() > 0
        }),
{
    let x = lemma_detected_source(records, cutoff, min, hours, j);
    let recent = keep(records, since(cutoff));
    let p = detected(records, cutoff, min, hours)[j];
    assert(p == pattern_for(RecordKey::ErrorType, recent, x, hours));
    assert(p.error_types[0] == x);
    let sel1 = |r: ErrorRecordView| r.timestamp_ms >= cutoff && r.error_type == p.error_types[0];
    let sel2 = |r: ErrorRecordView|
        r.timestamp_ms >= cutoff && r.error_type == p.error_types[0] && r.tool_name is Some;
    lemma_keep_keep(records, since(cutoff), in_group(RecordKey::ErrorType, x), sel1);
    lemma_keep_keep(records, sel1, has_tool(), sel2);
    let g = group(recent, RecordKey::ErrorType, x);
    assert(g == keep(records, sel1));
    assert(keep(g, has_tool()) == keep(records, sel2));
    lemma_keep_len(records, sel1);
    assert(p.occurrences == g.len());
    assert(p.tool_names == keep(records, sel2).map_values(|r: ErrorRecordView| r.tool_name->0));
    if exists|i: int|
        0 <= i < records.len() && (#[trigger] records[i]).timestamp_ms >= cutoff
            && records[i].error_type == p.error_types[0] && records[i].tool_name is Some {
        let i = choose|i: int|
            0 <= i < records.len() && (#[trigger] records[i]).timestamp_ms >= cutoff
                && records[i].error_type == p.error_types[0] && records[i].tool_name is Some;
        lemma_keep_hit(records, sel2, i);
    }
}

/// A failing-tool pattern names one tool; it counts every record of the
/// window that names that tool, lists their error kinds in order, and has
/// confidence 4/5.
pub proof fn lemma_tool_failure_pattern(records: Seq<ErrorRecordView>, cutoff: int, min: usize, hours: u64, j: int)
    requires
        records.len() <= usize::MAX,
        0 <= j < detected(records, cutoff, min, hours).len(),
        detected(records, cutoff, min, hours)[j].pattern_type == PatternType::ToolFailure,
    ensures
        ({
            let p = detected(records, cutoff, min, hours)[j];
            &&& p.tool_names.len() == 1
            &&& p.occurrences == keep(
                records,
                |r: ErrorRecordView| r.timestamp_ms >= cutoff && r.tool_name == Some(p.tool_names[0]),
            ).len()
            &&& p.error_types == keep(
                records,
                |r: ErrorRecordView| r.timestamp_ms >= cutoff && r.tool_name == Some(p.tool_names[0]),
            ).map_values(|r: ErrorRecordView| r.error_type)
            &&& p.confidence == Ratio { num: 4, den: 5 }
        }),
{
    let x = lemma_detected_source(records, cutoff, min, hours, j);
    let recent = keep(records, since(cutoff));
    let p = detected(records, cutoff, min, hours)[j];
    assert(p == pattern_for(RecordKey::Tool, recent, x, hours));
    assert(p.tool_names[0] == x);
    let sel = |r: ErrorRecordView| r.timestamp_ms >= cutoff && r.tool_name == Some(p.tool_names[0]);
    lemma_keep_keep(records, since(cutoff), in_group(RecordKey::Tool, x), sel);
    let g = group(recent, RecordKey::Tool, x);
    assert(g == keep(records, sel));
    lemma_keep_len(records, sel);
    assert(p.occurrences == g.len());
}

/// The records of the window starting at `cutoff` that used strategy `s`.
pub open spec fn strategy_uses(records: Seq<ErrorRecordView>, cutoff: int, s: Seq<char>) -> Seq<ErrorRecordView> {
    keep(records, |r: ErrorRecordView| r.timestamp_ms >= cutoff && r.strategy_used == Some(s))
}

/// A strategy pattern reports, for some heal strategy, how many records of
/// the window used it and, as its confidence, how many of those were
/// resolved out of how many there were.
pub proof fn lemma_strategy_pattern(records: Seq<ErrorRecordView>, cutoff: int, min: usize, hours: u64, j: int)
    requires
        records.len() <= usize::MAX,
        0 <= j < detected(records, cutoff, min, hours).len(),
        detected(records, cutoff, min, hours)[j].pattern_type == PatternType::StrategyEffectiveness,
    ensures
        exists|s: Seq<char>| {
            let p = detected(records, cutoff, min, hours)[j];
            let used = #[trigger] strategy_uses(records, cutoff, s);
            &&& p.occurrences == used.len()
            &&& p.confidence.den == used.len()
            &&& p.confidence.num == keep(
                records,
                |r: ErrorRecordView| r.timestamp_ms >= cutoff && r.strategy_used == Some(s) && r.resolved,
            ).len()
        },
{
    let x = lemma_detected_source(records, cutoff, min, hours, j);
    let recent = keep(records, since(cutoff));
    let p = detected(records, cutoff, min, hours)[j];
    assert(p == pattern_for(RecordKey::Strategy, recent, x, hours));
    let sel1 = |r: ErrorRecordView| r.timestamp_ms >= cutoff && r.strategy_used == Some(x);
    let sel2 = |r: ErrorRecordView| r.timestamp_ms >= cutoff && r.strategy_used == Some(x) && r.resolved;
    lemma_keep_keep(records, since(cutoff), in_group(RecordKey::Strategy, x), sel1);
    lemma_keep_keep(records, sel1, is_resolved(), sel2);
    let g = group(recent, RecordKey::Strategy, x);
    assert(g == keep(records, sel1));
    lemma_keep_len(records, sel1);
    lemma_keep_len(g, is_resolved());
    assert(keep(g, is_resolved()) == keep(records, sel2));
    assert(p.occurrences == g.len());
    assert(p.confidence.num == keep(records, sel2).len());
    assert(strategy_uses(records, cutoff, x) == g);
}

proof fn lemma_group_in_keys(recs: Seq<ErrorRecordView>, k: RecordKey, x: Seq<char>)
    requires
        group(recs, k, x).len() > 0,
    ensures
        distinct_keys(recs, k).contains(x),
    decreases recs.len(),
{
    let t = recs.drop_last();
    let l = recs.last();
    let r = distinct_keys(t, k);
    if key_of(k, l) == Some(x) {
        if !r.contains(x) {
            assert(distinct_keys(recs, k) == r.push(x));
            assert(r.push(x)[r.len() as int] == x);
        } else {
            let i = choose|i: int| 0 <= i < r.len() && r[i] == x;
            assert(distinct_keys(recs, k)[i] == x);
        }
    } else {
        lemma_group_in_keys(t, k, x);
        let i = choose|i: int| 0 <= i < r.len() && r[i] == x;
        match key_of(k, l) {
            Some(y) => if !r.contains(y) {
                assert(distinct_keys(recs, k)[i] == x);
            } else {
            },
            None => {},
        }
    }
}

proof fn lemma_patterns_for_has(
    k: RecordKey,
    recs: Seq<ErrorRecordView>,
    keys: Seq<Seq<char>>,
    min: usize,
    hours: u64,
    x: Seq<char>,
)
    requires
        keys.contains(x),
        group(recs, k, x).len() >= min,
    ensures
        exists|i: int| 0 <= i < patterns_for(k, recs, keys, min, hours).len()
            && #[trigger] patterns_for(k, recs, keys, min, hours)[i] == pattern_for(k, recs, x, hours),
    decreases keys.len(),
{
    let rest = patterns_for(k, recs, keys.drop_last(), min, hours);
    let all = patterns_for(k, recs, keys, min, hours);
    if keys.last() == x {
        assert(all[rest.len() as int] == pattern_for(k, recs, x, hours));
    } else {
        let q = choose|q: int| 0 <= q < keys.len() && keys[q] == x;
        assert(keys.drop_last()[q] == x);
        lemma_patterns_for_has(k, recs, keys.drop_last(), min, hours, x);
        let i = choose|i: int| 0 <= i < rest.len() && #[trigger] rest[i] == pattern_for(k, recs, x, hours);
        assert(all[i] == rest[i]);
    }
}

/// Every error kind with at least `min` (and at least one) records in the
/// window is reported as a recurring-error pattern for that kind.
pub proof fn lemma_recurring_error_reported(records: Seq<ErrorRecordView>, cutoff: int, min: usize, hours: u64, x: Seq<char>)
    requires
        keep(records, |r: ErrorRecordView| r.timestamp_ms >= cutoff && r.error_type == x).len() >= min,
        keep(records, |r: ErrorRecordView| r.timestamp_ms >= cutoff && r.error_type == x).len() >= 1,
    ensures
        exists|j: int| 0 <= j < detected(records, cutoff, min, hours).len() && {
            let p = #[trigger] detected(records, cutoff, min, hours)[j];
            &&& p.pattern_type == PatternType::RecurringError
            &&& p.error_types == seq![x]
        },
{
    let recent = keep(records, since(cutoff));
    let sel = |r: ErrorRecordView| r.timestamp_ms >= cutoff && r.error_type == x;
    lemma_keep_keep(records, since(cutoff), in_group(RecordKey::ErrorType, x), sel);
    lemma_group_in_keys(recent, RecordKey::ErrorType, x);
    lemma_patterns_for_has(RecordKey::ErrorType, recent, distinct_keys(recent, RecordKey::ErrorType), min, hours, x);
    let a = patterns_of_kind(RecordKey::ErrorType, recent, min, hours);
    let i = choose|i: int| 0 <= i < a.len() && #[trigger] a[i] == pattern_for(RecordKey::ErrorType, recent, x, hours);
    assert(detected(records, cutoff, min, hours)[i] == a[i]);
}

/// Every tool named by at least `min` (and at least one) records in the
/// window is reported as a failing-tool pattern for that tool.
pub proof fn lemma_tool_failure_reported(records: Seq<ErrorRecordView>, cutoff: int, min: usize, hours: u64, x: Seq<char>)
    requires
        keep(records, |r: ErrorRecordView| r.timestamp_ms >= cutoff && r.tool_name == Some(x)).len() >= min,
        keep(records, |r: ErrorRecordView| r.timestamp_ms >= cutoff && r.tool_name == Some(x)).len() >= 1,
    ensures
        exists|j: int| 0 <= j < detected(records, cutoff, min, hours).len() && {
            let p = #[trigger] detected(records, cutoff, min, hours)[j];
            &&& p.pattern_type == PatternType::ToolFailure
            &&& p.tool_names == seq![x]
        },
{
    let recent = keep(records, since(cutoff));
    let sel = |r: ErrorRecordView| r.timestamp_ms >= cutoff && r.tool_name == Some(x);
    lemma_keep_keep(records, since(cutoff), in_group(RecordKey::Tool, x), sel);
    lemma_group_in_keys(recent, RecordKey::Tool, x);
    lemma_patterns_for_has(RecordKey::Tool, recent, distinct_keys(recent, RecordKey::Tool), min, hours, x);
    let a = patterns_of_kind(RecordKey::ErrorType, recent, min, hours);
    let b = patterns_of_kind(RecordKey::Tool, recent, min, hours);
    let i = choose|i: int| 0 <= i < b.len() && #[trigger] b[i] == pattern_for(RecordKey::Tool, recent, x, hours);
    assert(detected(records, cutoff, min, hours)[a.len() + i] == b[i]);
}

/// Milliseconds in an hour.
pub open spec fn hour_ms() -> int {
    3_600_000
}

/// The largest look-back, in hours, whose span in milliseconds fits in 64
/// signed bits.
pub open spec fn max_lookback_hours() -> u64 {
    2_562_047_788_015
}

/// The start of the look-back window of `hours` ending at `now`, or the
/// earliest representable time when the window reaches before it.
pub open spec fn window_start(now: i64, hours: u64) -> int {
    if now - hours * hour_ms() >= i64::MIN {
        now - hours * hour_ms()
    } else {
        i64::MIN as int
    }
}

/// Every distinct key names a group of at least one record.
pub proof fn lemma_distinct_keys_nonempty(recs: Seq<ErrorRecordView>, k: RecordKey)
    ensures
        forall|j: int| 0 <= j < distinct_keys(recs, k).len() ==> group(recs, k, #[trigger] distinct_keys(recs, k)[j]).len() >= 1,
    decreases recs.len(),
{
    if recs.len() > 0 {
        let t = recs.drop_last();
        lemma_distinct_keys_nonempty(t, k);
        let d = distinct_keys(recs, k);
        let r = distinct_keys(t, k);
        assert forall|j: int| 0 <= j < d.len() implies group(recs, k, #[trigger] d[j]).len() >= 1 by {
            let x = d[j];
            assert(recs.drop_last() =~= t);
            lemma_keep_len(t, in_group(k, x));
            if j < r.len() {
                assert(d[j] == r[j]);
                assert(group(t, k, x).len() >= 1);
            }
        }
    }
}

proof fn lemma_patterns_for_props(
    k: RecordKey,
    recs: Seq<ErrorRecordView>,
    keys: Seq<Seq<char>>,
    min: usize,
    hours: u64,
)
    requires
        forall|q: int| 0 <= q < keys.len() ==> group(recs, k, #[trigger] keys[q]).len() >= 1,
        recs.len() <= usize::MAX,
    ensures
        forall|j: int| 0 <= j < patterns_for(k, recs, keys, min, hours).len() ==> {
            let p = #[trigger] patterns_for(k, recs, keys, min, hours)[j];
            &&& p.occurrences >= min
            &&& p.occurrences >= 1
            &&& p.confidence.den > 0
            &&& p.time_range_hours == hours
        },
    decreases keys.len(),
{
    if keys.len() > 0 {
        let t = keys.drop_last();
        assert forall|q: int| 0 <= q < t.len() implies group(recs, k, #[trigger] t[q]).len() >= 1 by {
            assert(t[q] == keys[q]);
        }
        lemma_patterns_for_props(k, recs, t, min, hours);
        lemma_keep_len(recs, in_group(k, keys.last()));
        assert(group(recs, k, keys[keys.len() - 1]).len() >= 1);
    }
}

/// Every pattern that detection reports covers at least `min` records
/// (and at least one), has a confidence with a non-zero denominator, and
/// reports the detector's window.
pub proof fn lemma_detected_meets_threshold(records: Seq<ErrorRecordView>, cutoff: int, min: usize, hours: u64)
    requires
        records.len() <= usize::MAX,
    ensures
        forall|j: int| 0 <= j < detected(records, cutoff, min, hours).len() ==> {
            let p = #[trigger] detected(records, cutoff, min, hours)[j];
            &&& p.occurrences >= min
            &&& p.occurrences >= 1
            &&& p.confidence.den > 0
            &&& p.time_range_hours == hours
        },
{
    let recent = keep(records, since(cutoff));
    lemma_keep_len(records, since(cutoff));
    lemma_distinct_keys_nonempty(recent, RecordKey::ErrorType);
    lemma_distinct_keys_nonempty(recent, RecordKey::Tool);
    lemma_distinct_keys_nonempty(recent, RecordKey::Strategy);
    lemma_patterns_for_props(RecordKey::ErrorType, recent, distinct_keys(recent, RecordKey::ErrorType), min, hours);
    lemma_patterns_for_props(RecordKey::Tool, recent, distinct_keys(recent, RecordKey::Tool), min, hours);
    lemma_patterns_for_props(RecordKey::Strategy, recent, distinct_keys(recent, RecordKey::Strategy), min, hours);
    let a = patterns_of_kind(RecordKey::ErrorType, recent, min, hours);
    let b = patterns_of_kind(RecordKey::Tool, recent, min, hours);
    let c = patterns_of_kind(RecordKey::Strategy, recent, min, hours);
    assert forall|j: int| 0 <= j < detected(records, cutoff, min, hours).len() implies {
        let p = #[trigger] detected(records, cutoff, min, hours)[j];
        &&& p.occurrences >= min
        &&& p.occurrences >= 1
        &&& p.confidence.den > 0
        &&& p.time_range_hours == hours
    } by {
        if j < a.len() {
            assert(detected(records, cutoff, min, hours)[j] == a[j]);
        } else if j < a.len() + b.len() {
            assert(detected(records, cutoff, min, hours)[j] == b[j - a.len()]);
        } else {
            assert(detected(records, cutoff, min, hours)[j] == c[j - a.len() - b.len()]);
        }
    }
}

/// Detects patterns in error records.
#[derive(Clone, Copy, Debug)]
pub struct PatternDetector {
    pub min_occurrences: usize,
    pub lookback_hours: u64,
}

fn key_field(r: &ErrorRecord, k: RecordKey) -> (o: Option<&String>)
    ensures
        match o {
            Some(s) => key_of(k, r@) == Some(s@),
            None => key_of(k, r@) is None,
        },
{
    match k {
        RecordKey::ErrorType => Some(&r.error_type),
        RecordKey::Tool => match &r.tool_name {
            Some(t) => Some(t),
            None => None,
        },
        RecordKey::Strategy => match &r.strategy_used {
            Some(t) => Some(t),
            None => None,
        },
    }
}

fn contains_text(v: &Vec<String>, x: &String) -> (r: bool)
    ensures
        r == texts(v@).contains(x@),
{
    let mut i: usize = 0;
    while i < v.len()
        invariant
            0 <= i <= v.len(),
            forall|j: int| 0 <= j < i ==> texts(v@)[j] != x@,
        decreases v.len() - i,
    {
        if string_eq(&v[i], x) {
            assert(texts(v@)[i as int] == x@);
            return true;
        }
        i = i + 1;
    }
    false
}

proof fn lemma_distinct_keys_step(recs: Seq<ErrorRecordView>, k: RecordKey, i: int)
    requires
        0 <= i < recs.len(),
    ensures
        distinct_keys(recs.take(i + 1), k) == match key_of(k, recs[i]) {
            Some(x) => if distinct_keys(recs.take(i), k).contains(x) {
                distinct_keys(recs.take(i), k)
            } else {
                distinct_keys(recs.take(i), k).push(x)
            },
            None => distinct_keys(recs.take(i), k),
        },
{
    assert(recs.take(i + 1).drop_last() =~= recs.take(i));
    assert(recs.take(i + 1).last() == recs[i]);
}

fn distinct(recs: &Vec<ErrorRecord>, k: RecordKey) -> (v: Vec<String>)
    ensures
        texts(v@) == distinct_keys(record_views(recs@), k),
{
    let mut v: Vec<String> = Vec::new();
    let mut i: usize = 0;
    while i < recs.len()
        invariant
            0 <= i <= recs.len(),
            texts(v@) == distinct_keys(record_views(recs@).take(i as int), k),
        decreases recs.len() - i,
    {
        proof {
            lemma_distinct_keys_step(record_views(recs@), k, i as int);
        }
        match key_field(&recs[i], k) {
            Some(x) => {
                if !contains_text(&v, x) {
                    v.push(x.clone());
                    assert(texts(v@) =~= distinct_keys(record_views(recs@).take(i as int), k).push(x@));
                }
            },
            None => {},
        }
        i = i + 1;
    }
    assert(record_views(recs@).take(recs.len() as int) =~= record_views(recs@));
    v
}

/// The counts and lists that a pattern reports about one group.
struct GroupStats {
    count: usize,
    resolved: usize,
    tools: Vec<String>,
    errors: Vec<String>,
}

proof fn lemma_keep_push<A>(t: Seq<A>, a: A, p: spec_fn(A) -> bool)
    ensures
        keep(t.push(a), p) == if p(a) { keep(t, p).push(a) } else { keep(t, p) },
{
    assert(t.push(a).drop_last() =~= t);
}

fn group_stats(recs: &Vec<ErrorRecord>, k: RecordKey, x: &String) -> (st: GroupStats)
    ensures
        st.count == group(record_views(recs@), k, x@).len(),
        st.resolved <= st.count,
        st.resolved == keep(group(record_views(recs@), k, x@), is_resolved()).len(),
        texts(st.tools@) == tools_named(group(record_views(recs@), k, x@)),
        texts(st.errors@) == error_types_of(group(record_views(recs@), k, x@)),
{
    let ghost rv = record_views(recs@);
    let mut count: usize = 0;
    let mut resolved: usize = 0;
    let mut tools: Vec<String> = Vec::new();
    let mut errors: Vec<String> = Vec::new();
    let mut i: usize = 0;
    while i < recs.len()
        invariant
            0 <= i <= recs.len(),
            rv == record_views(recs@),
            count == group(rv.take(i as int), k, x@).len(),
            resolved == keep(group(rv.take(i as int), k, x@), is_resolved()).len(),
            texts(tools@) == tools_named(group(rv.take(i as int), k, x@)),
            texts(errors@) == error_types_of(group(rv.take(i as int), k, x@)),
            count <= i,
            resolved <= count,
        decreases recs.len() - i,
    {
        let ghost g0 = group(rv.take(i as int), k, x@);
        proof {
            lemma_keep_step(rv, in_group(k, x@), i as int);
            lemma_keep_len(g0, is_resolved());
        }
        let r = &recs[i];
        let same = match key_field(r, k) {
            Some(y) => string_eq(y, x),
            None => false,
        };
        assert(same == in_group(k, x@)(rv[i as int]));
        if same {
            proof {
                lemma_keep_push(g0, rv[i as int], is_resolved());
                lemma_keep_push(g0, rv[i as int], has_tool());
                assert(g0.push(rv[i as int]).map_values(|r: ErrorRecordView| r.error_type) =~= g0.map_values(
                    |r: ErrorRecordView| r.error_type,
                ).push(rv[i as int].error_type));
                assert(keep(g0, has_tool()).push(rv[i as int]).map_values(
                    |r: ErrorRecordView| r.tool_name->0,
                ) =~= keep(g0, has_tool()).map_values(|r: ErrorRecordView| r.tool_name->0).push(
                    rv[i as int].tool_name->0,
                ));
            }
            count = count + 1;
            if r.resolved {
                resolved = resolved + 1;
            }
            match &r.tool_name {
                Some(t) => {
                    tools.push(t.clone());
                    assert(texts(tools@) =~= tools_named(group(rv.take(i + 1), k, x@)));
                },
                None => {},
            }
            errors.push(r.error_type.clone());
            assert(texts(errors@) =~= error_types_of(group(rv.take(i + 1), k, x@)));
        }
        i = i + 1;
    }
    assert(rv.take(recs.len() as int) =~= rv);
    GroupStats { count, resolved, tools, errors }
}

fn recent_records(records: &[ErrorRecord], cutoff: i64) -> (v: Vec<ErrorRecord>)
    ensures
        record_views(v@) == keep(record_views(records@), since(cutoff as int)),
{
    let ghost rv = record_views(records@);
    let mut v: Vec<ErrorRecord> = Vec::new();
    let mut i: usize = 0;
    while i < records.len()
        invariant
            0 <= i <= records.len(),
            rv == record_views(records@),
            record_views(v@) == keep(rv.take(i as int), since(cutoff as int)),
        decreases records.len() - i,
    {
        proof {
            lemma_keep_step(rv, since(cutoff as int), i as int);
        }
        if records[i].timestamp_ms >= cutoff {
            let c = records[i].duplicate();
            v.push(c);
            assert(record_views(v@) =~= keep(rv.take(i as int), since(cutoff as int)).push(rv[i as int]));
        }
        i = i + 1;
    }
    assert(rv.take(records.len() as int) =~= rv);
    v
}

proof fn lemma_patterns_for_step(
    k: RecordKey,
    recs: Seq<ErrorRecordView>,
    keys: Seq<Seq<char>>,
    min: usize,
    hours: u64,
    j: int,
)
    requires
        0 <= j < keys.len(),
    ensures
        patterns_for(k, recs, keys.take(j + 1), min, hours) == if group(recs, k, keys[j]).len() >= min {
            patterns_for(k, recs, keys.take(j), min, hours).push(pattern_for(k, recs, keys[j], hours))
        } else {
            patterns_for(k, recs, keys.take(j), min, hours)
        },
{
    assert(keys.take(j + 1).drop_last() =~= keys.take(j));
    assert(keys.take(j + 1).last() == keys[j]);
}

impl PatternDetector {
    /// Three occurrences within the last day.
    pub fn default() -> (d: PatternDetector)
        ensures
            d.min_occurrences == 3,
            d.lookback_hours == 24,
    {
        PatternDetector { min_occurrences: 3, lookback_hours: 24 }
    }

    /// A detector with the given threshold and window.
    pub fn new(min_occurrences: usize, lookback_hours: u64) -> (d: PatternDetector)
        ensures
            d.min_occurrences == min_occurrences,
            d.lookback_hours == lookback_hours,
    {
        PatternDetector { min_occurrences, lookback_hours }
    }

    fn build(&self, k: RecordKey, recs: &Vec<ErrorRecord>, x: &String) -> (p: DetectedPattern)
        requires
            group(record_views(recs@), k, x@).len() >= 1,
        ensures
            p@ == pattern_for(k, record_views(recs@), x@, self.lookback_hours),
    {
        let st = group_stats(recs, k, x);
        let n = decimal_text(st.count as u64);
        let h = decimal_text(self.lookback_hours);
        match k {
            RecordKey::ErrorType => {
                let description = cat5("Error '", x.as_str(), "' occurred ", n.as_str(), " times in the last ").concat(
                    h.as_str(),
                ).concat("h");
                let mut error_types: Vec<String> = Vec::new();
                error_types.push(x.clone());
                assert(texts(error_types@) =~= seq![x@]);
                DetectedPattern {
                    pattern_type: PatternType::RecurringError,
                    description,
                    occurrences: st.count,
                    error_types,
                    tool_names: st.tools,
                    time_range_hours: self.lookback_hours,
                    confidence: Ratio { num: st.resolved, den: st.count },
                }
            },
            RecordKey::Tool => {
                let description = cat5("Tool '", x.as_str(), "' failed ", n.as_str(), " times in the last ").concat(
                    h.as_str(),
                ).concat("h");
                let mut tool_names: Vec<String> = Vec::new();
                tool_names.push(x.clone());
                assert(texts(tool_names@) =~= seq![x@]);
                DetectedPattern {
                    pattern_type: PatternType::ToolFailure,
                    description,
                    occurrences: st.count,
                    error_types: st.errors,
                    tool_names,
                    time_range_hours: self.lookback_hours,
                    confidence: Ratio { num: 4, den: 5 },
                }
            },
            RecordKey::Strategy => {
                let ratio = Ratio { num: st.resolved, den: st.count };
                let pct = wide_decimal_text(ratio.percent());
                let r = decimal_text(st.resolved as u64);
                let description = cat5("Strategy '", x.as_str(), "' resolved ", r.as_str(), "/").concat(
                    n.as_str(),
                ).concat(" errors (").concat(pct.as_str()).concat("%)");
                let error_types: Vec<String> = Vec::new();
                let tool_names: Vec<String> = Vec::new();
                assert(texts(error_types@) =~= Seq::<Seq<char>>::empty());
                assert(texts(tool_names@) =~= Seq::<Seq<char>>::empty());
                DetectedPattern {
                    pattern_type: PatternType::StrategyEffectiveness,
                    description,
                    occurrences: st.count,
                    error_types,
                    tool_names,
                    time_range_hours: self.lookback_hours,
                    confidence: ratio,
                }
            },
        }
    }

    fn patterns_of(&self, k: RecordKey, recs: &Vec<ErrorRecord>) -> (v: Vec<DetectedPattern>)
        ensures
            pattern_views(v@) == patterns_of_kind(k, record_views(recs@), self.min_occurrences, self.lookback_hours),
    {
        let keys = distinct(recs, k);
        let ghost rv = record_views(recs@);
        proof {
            lemma_distinct_keys_nonempty(rv, k);
        }
        let mut v: Vec<DetectedPattern> = Vec::new();
        let mut j: usize = 0;
        while j < keys.len()
            invariant
                0 <= j <= keys.len(),
                rv == record_views(recs@),
                texts(keys@) == distinct_keys(rv, k),
                forall|q: int| 0 <= q < distinct_keys(rv, k).len() ==> group(rv, k, #[trigger] distinct_keys(rv, k)[q]).len() >= 1,
                pattern_views(v@) == patterns_for(k, rv, texts(keys@).take(j as int), self.min_occurrences, self.lookback_hours),
            decreases keys.len() - j,
        {
            proof {
                lemma_patterns_for_step(k, rv, texts(keys@), self.min_occurrences, self.lookback_hours, j as int);
                assert(texts(keys@)[j as int] == keys@[j as int]@);
            }
            let st = group_stats(recs, k, &keys[j]);
            if st.count >= self.min_occurrences {
                let p = self.build(k, recs, &keys[j]);
                v.push(p);
                assert(pattern_views(v@) =~= patterns_for(k, rv, texts(keys@).take(j as int), self.min_occurrences, self.lookback_hours).push(
                    pattern_for(k, rv, keys@[j as int]@, self.lookback_hours),
                ));
            }
            j = j + 1;
        }
        assert(texts(keys@).take(keys.len() as int) =~= texts(keys@));
        v
    }

    /// The patterns among the records at or after `now_ms` minus the look-back
    /// window: error kinds, tools and strategies that occur at least
    /// `min_occurrences` times.
    pub fn detect_at(&self, records: &[ErrorRecord], now_ms: i64) -> (v: Vec<DetectedPattern>)
        requires
            self.lookback_hours <= max_lookback_hours(),
            now_ms - self.lookback_hours * hour_ms() >= i64::MIN,
        ensures
            pattern_views(v@) == detected(
                record_views(records@),
                now_ms - self.lookback_hours * hour_ms(),
                self.min_occurrences,
                self.lookback_hours,
            ),
    {
        let span: i64 = (self.lookback_hours as i64) * 3_600_000;
        self.detect_with_cutoff(records, now_ms - span)
    }

    /// The patterns among the records of the look-back window ending now
    /// (the time is read from the clock). When the window would reach before
    /// the earliest representable time, every record counts as recent.
    pub fn detect(&self, records: &[ErrorRecord]) -> (v: Vec<DetectedPattern>)
        requires
            self.lookback_hours <= max_lookback_hours(),
        ensures
            exists|now: i64|
                pattern_views(v@) == detected(
                    record_views(records@),
                    #[trigger] window_start(now, self.lookback_hours),
                    self.min_occurrences,
                    self.lookback_hours,
                ),
    {
        let now = now_millis();
        let span: i64 = (self.lookback_hours as i64) * 3_600_000;
        let v = if now >= i64::MIN + span {
            self.detect_with_cutoff(records, now - span)
        } else {
            self.detect_with_cutoff(records, i64::MIN)
        };
        assert(pattern_views(v@) == detected(
            record_views(records@),
            window_start(now, self.lookback_hours),
            self.min_occurrences,
            self.lookback_hours,
        ));
        v
    }

    fn detect_with_cutoff(&self, records: &[ErrorRecord], cutoff: i64) -> (v: Vec<DetectedPattern>)
        ensures
            pattern_views(v@) == detected(
                record_views(records@),
                cutoff as int,
                self.min_occurrences,
                self.lookback_hours,
            ),
    {
        let recent = recent_records(records, cutoff);
        let mut a = self.patterns_of(RecordKey::ErrorType, &recent);
        let mut b = self.patterns_of(RecordKey::Tool, &recent);
        let mut c = self.patterns_of(RecordKey::Strategy, &recent);
        let ghost va = pattern_views(a@);
        let ghost vb = pattern_views(b@);
        let ghost vc = pattern_views(c@);
        a.append(&mut b);
        assert(pattern_views(a@) =~= va + vb);
        a.append(&mut c);
        assert(pattern_views(a@) =~= va + vb + vc);
        a
    }
}

} // verus!
