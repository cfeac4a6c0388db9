//! The data of the growth cycle: patterns, proposals and reports.
use vstd::prelude::*;
use crate::stamp::{clock_in_range, is_v4};
use crate::text::{decimal, texts};

verus! {

/// How risky it is to apply a proposal without review.
#[derive(Clone, Copy, Debug, PartialEq, Eq, Structural)]
pub enum ProposalRisk {
    Low,
    Medium,
    High,
}

/// What a proposal changes.
#[derive(Clone, Copy, Debug, PartialEq, Eq, Structural)]
pub enum ProposalType {
    PromptUpdate,
    PreCheck,
    StrategyReorder,
    ToolSwap,
    ScopeAdjustment,
}

/// What a detected pattern is about.
#[derive(Clone, Copy, Debug, PartialEq, Eq, Structural)]
pub enum PatternType {
    RecurringError,
    ToolFailure,
    TaskTypeSuccess,
    StrategyEffectiveness,
    TimeDegradation,
}

/// A confidence as the exact fraction `num / den`.
#[derive(Clone, Copy, Debug, PartialEq, Eq, Structural)]
pub struct Ratio {
    pub num: usize,
    pub den: usize,
}

/// `100 * num / den` rounded to the nearest whole number, ties to even
/// (how `{:.0}` rounds).
pub open spec fn percent_of(r: Ratio) -> nat {
    let q = (100 * r.num) / (r.den as int);
    let rem = (100 * r.num) % (r.den as int);
    if 2 * rem > r.den {
        (q + 1) as nat
    } else if 2 * rem < r.den {
        q as nat
    } else if q % 2 == 0 {
        q as nat
    } else {
        (q + 1) as nat
    }
}

impl Ratio {
    /// Whether the fraction exceeds `a / b`.
    pub open spec fn exceeds(self, a: nat, b: nat) -> bool {
        self.num * b > a * self.den
    }

    /// Whether the fraction exceeds `a / b`.
    pub fn above(&self, a: u64, b: u64) -> (r: bool)
        requires
            self.num * b <= u128::MAX,
            a * self.den <= u128::MAX,
        ensures
            r == self.exceeds(a as nat, b as nat),
    {
        (self.num as u128) * (b as u128) > (a as u128) * (self.den as u128)
    }

    /// `100 * num / den` rounded half to even.
    pub fn percent(&self) -> (p: u128)
        requires
            self.den > 0,
        ensures
            p == percent_of(*self),
    {
        let t: u128 = 100u128 * (self.num as u128);
        let d: u128 = self.den as u128;
        let q = t / d;
        let rem = t % d;
        assert(q <= t) by (nonlinear_arith)
            requires
                q == t / d,
                d >= 1,
                t >= 0,
        ;
        if 2 * rem > d {
            q + 1
        } else if 2 * rem < d {
            q
        } else if q % 2 == 0 {
            q
        } else {
            q + 1
        }
    }
}

/// A pattern seen in recent errors. Its confidence is a fraction.
#[derive(Debug)]
pub struct DetectedPattern {
    pub pattern_type: PatternType,
    pub description: String,
    pub occurrences: usize,
    pub error_types: Vec<String>,
    pub tool_names: Vec<String>,
    pub time_range_hours: u64,
    pub confidence: Ratio,
}

/// A detected pattern, with each string by its characters.
pub struct DetectedPatternView {
    pub pattern_type: PatternType,
    pub description: Seq<char>,
    pub occurrences: usize,
    pub error_types: Seq<Seq<char>>,
    pub tool_names: Seq<Seq<char>>,
    pub time_range_hours: u64,
    pub confidence: Ratio,
}

impl View for DetectedPattern {
    type V = DetectedPatternView;

    open spec fn view(&self) -> DetectedPatternView {
        DetectedPatternView {
            pattern_type: self.pattern_type,
            description: self.description@,
            occurrences: self.occurrences,
            error_types: texts(self.error_types@),
            tool_names: texts(self.tool_names@),
            time_range_hours: self.time_range_hours,
            confidence: self.confidence,
        }
    }
}

/// The views of a sequence of patterns.
pub open spec fn pattern_views(s: Seq<DetectedPattern>) -> Seq<DetectedPatternView> {
    s.map_values(|p: DetectedPattern| p@)
}

/// A proposed improvement. Its confidence is a fraction; its identifier is
/// a UUID's value and its time is in milliseconds since the epoch.
#[derive(Debug)]
pub struct ImprovementProposal {
    pub id: u128,
    pub proposal_type: ProposalType,
    pub risk_level: ProposalRisk,
    pub target: String,
    pub content: String,
    pub confidence: Ratio,
    pub evidence: Vec<String>,
    pub created_at_ms: i64,
}

/// A proposal without its identifier and time, each string by its characters.
pub struct ProposalView {
    pub proposal_type: ProposalType,
    pub risk_level: ProposalRisk,
    pub target: Seq<char>,
    pub content: Seq<char>,
    pub confidence: Ratio,
    pub evidence: Seq<Seq<char>>,
}

impl View for ImprovementProposal {
    type V = ProposalView;

    open spec fn view(&self) -> ProposalView {
        ProposalView {
            proposal_type: self.proposal_type,
            risk_level: self.risk_level,
            target: self.target@,
            content: self.content@,
            confidence: self.confidence,
            evidence: texts(self.evidence@),
        }
    }
}

/// Whether a proposal carries a fresh version-4 identifier and a time
/// chrono can hold.
pub open spec fn stamped(p: ImprovementProposal) -> bool {
    is_v4(p.id) && clock_in_range(p.created_at_ms)
}

/// Whether every proposal is stamped.
pub open spec fn all_stamped(s: Seq<ImprovementProposal>) -> bool {
    forall|i: int| 0 <= i < s.len() ==> #[trigger] stamped(s[i])
}

/// The views of a sequence of proposals.
pub open spec fn proposal_views(s: Seq<ImprovementProposal>) -> Seq<ProposalView> {
    s.map_values(|p: ImprovementProposal| p@)
}

/// The outcome of one growth cycle. Times are milliseconds since the epoch.
#[derive(Debug)]
pub struct GrowthReport {
    pub id: u128,
    pub agent_id: String,
    pub cycle_start_ms: i64,
    pub cycle_end_ms: i64,
    pub errors_analyzed: usize,
    pub patterns_detected: usize,
    pub proposals_generated: usize,
    pub low_risk_applied: usize,
    pub high_risk_flagged: usize,
    pub patterns: Vec<DetectedPattern>,
    pub proposals: Vec<ImprovementProposal>,
}

/// Decimal text, used in descriptions.
pub open spec fn dec(n: nat) -> Seq<char> {
    decimal(n)
}

} // verus!
