//! Turning detected patterns into improvement proposals.
use vstd::prelude::*;
use vstd::string::StringExecFns;
use crate::error::{cat2, cat3};
use crate::growth::types::{
    all_stamped, dec, percent_of, proposal_views, stamped, DetectedPattern, DetectedPatternView, ImprovementProposal,
    PatternType, ProposalRisk, ProposalType, ProposalView, Ratio,
};
use crate::stamp::{fresh_id, now_millis};
use crate::text::{decimal_text, join, join_texts, texts, wide_decimal_text};

verus! {

/// The proposals made for one pattern.
pub open spec fn proposals_for(p: DetectedPatternView) -> Seq<ProposalView> {
    match p.pattern_type {
        PatternType::RecurringError => if p.error_types.len() == 0 {
            Seq::empty()
        } else {
            let e = p.error_types[0];
            let first = ProposalView {
                proposal_type: ProposalType::PreCheck,
                risk_level: if p.confidence.exceeds(4, 5) {
                    ProposalRisk::Low
                } else {
                    ProposalRisk::Medium
                },
                target: e,
                content: "Add pre-check to prevent '"@ + e
                    + "' errors: validate inputs before execution"@,
                confidence: p.confidence,
                evidence: p.error_types,
            };
            if p.tool_names.len() == 0 {
                seq![first]
            } else {
                let tools = join(p.tool_names, ", "@);
                seq![
                    first,
                    ProposalView {
                        proposal_type: ProposalType::ToolSwap,
                        risk_level: ProposalRisk::Low,
                        target: tools,
                        content: "Consider alternative tools for tasks currently using: "@ + tools,
                        confidence: Ratio { num: 7, den: 10 },
                        evidence: p.tool_names,
                    },
                ]
            }
        },
        PatternType::ToolFailure => if p.tool_names.len() == 0 {
            Seq::empty()
        } else {
            let t = p.tool_names[0];
            seq![
                ProposalView {
                    proposal_type: ProposalType::ToolSwap,
                    risk_level: ProposalRisk::Medium,
                    target: t,
                    content: "Tool '"@ + t + "' has failed "@ + dec(p.occurrences as nat)
                        + " times. Consider adding fallback tool or updating configuration."@,
                    confidence: Ratio { num: 3, den: 4 },
                    evidence: p.error_types,
                },
            ]
        },
        PatternType::StrategyEffectiveness => {
            let good = p.confidence.exceeds(7, 10);
            seq![
                ProposalView {
                    proposal_type: ProposalType::StrategyReorder,
                    risk_level: if good {
                        ProposalRisk::Low
                    } else {
                        ProposalRisk::High
                    },
                    target: "heal_strategy_order"@,
                    content: "Strategy effectiveness: "@ + dec(percent_of(p.confidence))
                        + "% success rate. "@ + if good {
                        "Consider promoting this strategy in the ordering."@
                    } else {
                        "This strategy may need review or replacement."@
                    },
                    confidence: p.confidence,
                    evidence: seq![p.description],
                },
            ]
        },
        _ => Seq::empty(),
    }
}

/// A failing tool gets exactly one proposal when the pattern names it: a
/// tool swap for that tool, of medium risk (so never applied without
/// review), with confidence 3/4 and the pattern's error kinds as evidence.
pub proof fn lemma_tool_failure_proposal(p: DetectedPatternView)
    requires
        p.pattern_type == PatternType::ToolFailure,
    ensures
        proposals_for(p).len() == if p.tool_names.len() > 0 { 1int } else { 0int },
        forall|i: int| 0 <= i < proposals_for(p).len() ==> {
            let q = #[trigger] proposals_for(p)[i];
            &&& q.proposal_type == ProposalType::ToolSwap
            &&& q.risk_level == ProposalRisk::Medium
            &&& q.target == p.tool_names[0]
            &&& q.confidence == Ratio { num: 3, den: 4 }
            &&& q.evidence == p.error_types
        },
{
}

/// A recurring error kind gets a pre-check for that kind, of low risk
/// exactly when more than four in five of its records were resolved (else
/// medium), and, when tools were involved, a low-risk tool swap for those
/// tools with confidence 7/10.
pub proof fn lemma_recurring_error_proposals(p: DetectedPatternView)
    requires
        p.pattern_type == PatternType::RecurringError,
        p.error_types.len() > 0,
    ensures
        proposals_for(p).len() == if p.tool_names.len() > 0 { 2int } else { 1int },
        proposals_for(p)[0].proposal_type == ProposalType::PreCheck,
        proposals_for(p)[0].target == p.error_types[0],
        proposals_for(p)[0].confidence == p.confidence,
        proposals_for(p)[0].risk_level == if p.confidence.num * 5 > 4 * p.confidence.den {
            ProposalRisk::Low
        } else {
            ProposalRisk::Medium
        },
        p.tool_names.len() > 0 ==> {
            &&& proposals_for(p)[1].proposal_type == ProposalType::ToolSwap
            &&& proposals_for(p)[1].risk_level == ProposalRisk::Low
            &&& proposals_for(p)[1].evidence == p.tool_names
            &&& proposals_for(p)[1].confidence == Ratio { num: 7, den: 10 }
        },
{
}

/// A heal strategy's effectiveness gets one proposal to reorder the
/// strategies, of low risk exactly when more than seven in ten of its
/// errors were resolved, else high risk.
pub proof fn lemma_strategy_proposal(p: DetectedPatternView)
    requires
        p.pattern_type == PatternType::StrategyEffectiveness,
    ensures
        proposals_for(p).len() == 1,
        proposals_for(p)[0].proposal_type == ProposalType::StrategyReorder,
        proposals_for(p)[0].target == "heal_strategy_order"@,
        proposals_for(p)[0].confidence == p.confidence,
        proposals_for(p)[0].risk_level == if p.confidence.num * 10 > 7 * p.confidence.den {
            ProposalRisk::Low
        } else {
            ProposalRisk::High
        },
{
}

/// Patterns of other kinds get no proposal.
pub proof fn lemma_other_patterns_no_proposal(p: DetectedPatternView)
    requires
        p.pattern_type == PatternType::TaskTypeSuccess || p.pattern_type == PatternType::TimeDegradation,
    ensures
        proposals_for(p).len() == 0,
{
}

/// The proposals for a sequence of patterns, in order.
pub open spec fn all_proposals(ps: Seq<DetectedPatternView>) -> Seq<ProposalView>
    decreases ps.len(),
{
    if ps.len() == 0 {
        Seq::empty()
    } else {
        all_proposals(ps.drop_last()) + proposals_for(ps.last())
    }
}

/// Whether every pattern's confidence has a non-zero denominator.
pub open spec fn confidences_wf(ps: Seq<DetectedPattern>) -> bool {
    forall|j: int| 0 <= j < ps.len() ==> (#[trigger] ps[j]).confidence.den > 0
}

/// Turns patterns into proposals.
#[derive(Clone, Copy, Debug)]
pub struct ProposalGenerator {
    pub auto_apply_threshold: ProposalRisk,
}

fn copy_texts(v: &Vec<String>) -> (r: Vec<String>)
    ensures
        texts(r@) == texts(v@),
{
    let r = v.clone();
    assert(texts(r@) =~= texts(v@));
    r
}

impl ProposalGenerator {
    /// Only low-risk proposals apply on their own.
    pub fn default() -> (g: ProposalGenerator)
        ensures
            g.auto_apply_threshold == ProposalRisk::Low,
    {
        ProposalGenerator { auto_apply_threshold: ProposalRisk::Low }
    }

    fn proposal(
        proposal_type: ProposalType,
        risk_level: ProposalRisk,
        target: String,
        content: String,
        confidence: Ratio,
        evidence: Vec<String>,
    ) -> (p: ImprovementProposal)
        ensures
            p@ == (ProposalView {
                proposal_type,
                risk_level,
                target: target@,
                content: content@,
                confidence,
                evidence: texts(evidence@),
            }),
            stamped(p),
    {
        ImprovementProposal {
            id: fresh_id(),
            proposal_type,
            risk_level,
            target,
            content,
            confidence,
            evidence,
            created_at_ms: now_millis(),
        }
    }

    fn for_recurring_error(&self, pattern: &DetectedPattern) -> (v: Vec<ImprovementProposal>)
        requires
            pattern.pattern_type == PatternType::RecurringError,
        ensures
            proposal_views(v@) == proposals_for(pattern@),
            all_stamped(v@),
    {
        let mut v: Vec<ImprovementProposal> = Vec::new();
        if pattern.error_types.len() == 0 {
            assert(proposal_views(v@) =~= Seq::<ProposalView>::empty());
            return v;
        }
        let e = &pattern.error_types[0];
        let risk = if pattern.confidence.above(4, 5) {
            ProposalRisk::Low
        } else {
            ProposalRisk::Medium
        };
        let first = Self::proposal(
            ProposalType::PreCheck,
            risk,
            e.clone(),
            cat3(
                "Add pre-check to prevent '",
                e.as_str(),
                "' errors: validate inputs before execution",
            ),
            pattern.confidence,
            copy_texts(&pattern.error_types),
        );
        v.push(first);
        if pattern.tool_names.len() > 0 {
            let tools = join_texts(&pattern.tool_names, ", ");
            let content = cat2(
                "Consider alternative tools for tasks currently using: ",
                tools.as_str(),
            );
            let second = Self::proposal(
                ProposalType::ToolSwap,
                ProposalRisk::Low,
                tools,
                content,
                Ratio { num: 7, den: 10 },
                copy_texts(&pattern.tool_names),
            );
            v.push(second);
        }
        assert(proposal_views(v@) =~= proposals_for(pattern@));
        v
    }

    fn for_tool_failure(&self, pattern: &DetectedPattern) -> (v: Vec<ImprovementProposal>)
        requires
            pattern.pattern_type == PatternType::ToolFailure,
        ensures
            proposal_views(v@) == proposals_for(pattern@),
            all_stamped(v@),
    {
        let mut v: Vec<ImprovementProposal> = Vec::new();
        if pattern.tool_names.len() == 0 {
            assert(proposal_views(v@) =~= Seq::<ProposalView>::empty());
            return v;
        }
        let t = &pattern.tool_names[0];
        let n = decimal_text(pattern.occurrences as u64);
        let content = cat3("Tool '", t.as_str(), "' has failed ").concat(n.as_str()).concat(
            " times. Consider adding fallback tool or updating configuration.",
        );
        let p = Self::proposal(
            ProposalType::ToolSwap,
            ProposalRisk::Medium,
            t.clone(),
            content,
            Ratio { num: 3, den: 4 },
            copy_texts(&pattern.error_types),
        );
        v.push(p);
        assert(proposal_views(v@) =~= proposals_for(pattern@));
        v
    }

    fn for_strategy(&self, pattern: &DetectedPattern) -> (v: Vec<ImprovementProposal>)
        requires
            pattern.pattern_type == PatternType::StrategyEffectiveness,
            pattern.confidence.den > 0,
        ensures
            proposal_views(v@) == proposals_for(pattern@),
            all_stamped(v@),
    {
        let good = pattern.confidence.above(7, 10);
        let pct = wide_decimal_text(pattern.confidence.percent());
        let advice = if good {
            "Consider promoting this strategy in the ordering."
        } else {
            "This strategy may need review or replacement."
        };
        let content = cat3("Strategy effectiveness: ", pct.as_str(), "% success rate. ").concat(
            advice,
        );
        let mut evidence: Vec<String> = Vec::new();
        evidence.push(pattern.description.clone());
        assert(texts(evidence@) =~= seq![pattern.description@]);
        let p = Self::proposal(
            ProposalType::StrategyReorder,
            if good {
                ProposalRisk::Low
            } else {
                ProposalRisk::High
            },
            String::from_str("heal_strategy_order"),
            content,
            pattern.confidence,
            evidence,
        );
        let mut v: Vec<ImprovementProposal> = Vec::new();
        v.push(p);
        assert(proposal_views(v@) =~= proposals_for(pattern@));
        v
    }

    /// The proposals for each pattern, in order: for a recurring error a
    /// pre-check (and a tool swap when tools were involved), for a failing
    /// tool a tool swap, for a strategy's effectiveness a reordering; none
    /// for other patterns.
    pub fn generate(&self, patterns: &[DetectedPattern]) -> (v: Vec<ImprovementProposal>)
        requires
            confidences_wf(patterns@),
        ensures
            proposal_views(v@) == all_proposals(patterns@.map_values(|p: DetectedPattern| p@)),
            all_stamped(v@),
    {
        let ghost pv = patterns@.map_values(|p: DetectedPattern| p@);
        let mut v: Vec<ImprovementProposal> = Vec::new();
        let mut i: usize = 0;
        while i < patterns.len()
            invariant
                0 <= i <= patterns.len(),
                pv == patterns@.map_values(|p: DetectedPattern| p@),
                confidences_wf(patterns@),
                proposal_views(v@) == all_proposals(pv.take(i as int)),
                all_stamped(v@),
            decreases patterns.len() - i,
        {
            let pattern = &patterns[i];
            let mut more = match pattern.pattern_type {
                PatternType::RecurringError => self.for_recurring_error(pattern),
                PatternType::ToolFailure => self.for_tool_failure(pattern),
                PatternType::StrategyEffectiveness => self.for_strategy(pattern),
                _ => {
                    let e: Vec<ImprovementProposal> = Vec::new();
                    assert(proposal_views(e@) =~= proposals_for(pattern@));
                    e
                },
            };
            let ghost before = proposal_views(v@);
            let ghost added = proposal_views(more@);
            let ghost old_v = v@;
            let ghost old_more = more@;
            v.append(&mut more);
            proof {
                assert(v@ =~= old_v + old_more);
                assert forall|j: int| 0 <= j < v@.len() implies #[trigger] stamped(v@[j]) by {
                    if j < old_v.len() {
                        assert(v@[j] == old_v[j]);
                    } else {
                        assert(v@[j] == old_more[j - old_v.len()]);
                    }
                }
                assert(pv.take(i + 1).drop_last() =~= pv.take(i as int));
                assert(pv.take(i + 1).last() == pattern@);
                assert(proposal_views(v@) =~= before + added);
            }
            i = i + 1;
        }
        assert(pv.take(patterns.len() as int) =~= pv);
        v
    }
}

} // verus!
