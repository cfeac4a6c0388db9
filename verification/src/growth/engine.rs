//! One growth cycle: detect patterns, propose improvements, apply the
//! low-risk ones and flag the rest for review.
use vstd::prelude::*;
use vstd::string::StringExecFns;
use crate::growth::pattern::{
    detected, lemma_detected_meets_threshold, max_lookback_hours, record_views, window_start,
    ErrorRecord, PatternDetector,
};
use crate::growth::proposal::{all_proposals, ProposalGenerator};
use crate::growth::types::{
    all_stamped, pattern_views, proposal_views, GrowthReport, ImprovementProposal, ProposalRisk, ProposalView,
};
use crate::seqs::{keep, lemma_keep_step};
use crate::stamp::{clock_in_range, fresh_id, is_v4, now_millis};

verus! {

/// Selects low-risk proposals.
pub open spec fn low_risk() -> spec_fn(ProposalView) -> bool {
    |p: ProposalView| p.risk_level == ProposalRisk::Low
}

/// The number of low-risk proposals, which a cycle applies.
pub open spec fn applied_count(ps: Seq<ProposalView>) -> nat {
    keep(ps, low_risk()).len()
}

/// Runs growth cycles with a pattern detector and a proposal generator.
#[derive(Clone, Copy, Debug)]
pub struct GrowthEngine {
    pub detector: PatternDetector,
    pub proposal_gen: ProposalGenerator,
}

impl GrowthEngine {
    /// The default detector and generator.
    pub fn default() -> (g: GrowthEngine)
        ensures
            g.detector.min_occurrences == 3,
            g.detector.lookback_hours == 24,
            g.proposal_gen.auto_apply_threshold == ProposalRisk::Low,
    {
        GrowthEngine { detector: PatternDetector::default(), proposal_gen: ProposalGenerator::default() }
    }

    /// An engine whose detector has the given threshold and window.
    pub fn new(min_occurrences: usize, lookback_hours: u64) -> (g: GrowthEngine)
        ensures
            g.detector.min_occurrences == min_occurrences,
            g.detector.lookback_hours == lookback_hours,
            g.proposal_gen.auto_apply_threshold == ProposalRisk::Low,
    {
        GrowthEngine {
            detector: PatternDetector::new(min_occurrences, lookback_hours),
            proposal_gen: ProposalGenerator::default(),
        }
    }

    fn count_low(ps: &Vec<ImprovementProposal>) -> (n: usize)
        ensures
            n == applied_count(proposal_views(ps@)),
            n <= ps@.len(),
    {
        let ghost pv = proposal_views(ps@);
        let mut n: usize = 0;
        let mut i: usize = 0;
        while i < ps.len()
            invariant
                0 <= i <= ps.len(),
                pv == proposal_views(ps@),
                n == keep(pv.take(i as int), low_risk()).len(),
                n <= i,
            decreases ps.len() - i,
        {
            proof {
                lemma_keep_step(pv, low_risk(), i as int);
            }
            match ps[i].risk_level {
                ProposalRisk::Low => {
                    n = n + 1;
                },
                _ => {},
            }
            i = i + 1;
        }
        assert(pv.take(ps.len() as int) =~= pv);
        n
    }

    /// One growth cycle over `records` for agent `agent_id`: the patterns
    /// of the window ending now, the proposals for them, how many were
    /// applied (the low-risk ones) and how many were flagged (the rest).
    pub fn run_cycle(&self, agent_id: &str, records: &[ErrorRecord]) -> (r: GrowthReport)
        requires
            self.detector.lookback_hours <= max_lookback_hours(),
        ensures
            r.agent_id@ == agent_id@,
            r.errors_analyzed == records@.len(),
            exists|now: i64|
                pattern_views(r.patterns@) == detected(
                    record_views(records@),
                    #[trigger] window_start(now, self.detector.lookback_hours),
                    self.detector.min_occurrences,
                    self.detector.lookback_hours,
                ),
            proposal_views(r.proposals@) == all_proposals(pattern_views(r.patterns@)),
            r.patterns_detected == r.patterns@.len(),
            r.proposals_generated == r.proposals@.len(),
            r.low_risk_applied == applied_count(proposal_views(r.proposals@)),
            r.high_risk_flagged == r.proposals@.len() - applied_count(proposal_views(r.proposals@)),
            all_stamped(r.proposals@),
            is_v4(r.id),
            clock_in_range(r.cycle_start_ms),
            clock_in_range(r.cycle_end_ms),
    {
        let cycle_start_ms = now_millis();
        let patterns = self.detector.detect(records);
        let n_records = records.len();
        proof {
            assert(record_views(records@).len() == n_records);
            let now = choose|now: i64|
                pattern_views(patterns@) == detected(
                    record_views(records@),
                    #[trigger] window_start(now, self.detector.lookback_hours),
                    self.detector.min_occurrences,
                    self.detector.lookback_hours,
                );
            lemma_detected_meets_threshold(
                record_views(records@),
                window_start(now, self.detector.lookback_hours),
                self.detector.min_occurrences,
                self.detector.lookback_hours,
            );
            assert forall|j: int| 0 <= j < patterns@.len() implies (#[trigger] patterns@[j]).confidence.den > 0 by {
                assert(pattern_views(patterns@)[j] == patterns@[j]@);
            }
        }
        assert(patterns@.map_values(|p: crate::growth::types::DetectedPattern| p@) =~= pattern_views(patterns@));
        let proposals = self.proposal_gen.generate(patterns.as_slice());
        let applied = Self::count_low(&proposals);
        let flagged = proposals.len() - applied;
        GrowthReport {
            id: fresh_id(),
            agent_id: String::from_str(agent_id),
            cycle_start_ms,
            cycle_end_ms: now_millis(),
            errors_analyzed: records.len(),
            patterns_detected: patterns.len(),
            proposals_generated: proposals.len(),
            low_risk_applied: applied,
            high_risk_flagged: flagged,
            patterns,
            proposals,
        }
    }
}

} // verus!
