//! Loop agents: an agent that runs its goal again and again until a judged
//! output meets the rubric's threshold or the iterations run out.
use vstd::prelude::*;
use crate::config::{AgentConfig, QualitySection};
use crate::message::{QualityCriterion, QualityRubric, DEFAULT_MAX_ITERATIONS, DEFAULT_THRESHOLD_BITS};

verus! {

/// What one iteration came to.
#[derive(Clone, Copy, Debug, PartialEq, Eq, Structural)]
pub enum IterationOutcome {
    /// The run ended with a result; `meets_threshold` is whether its judged
    /// score meets the threshold, `None` where the rubric judges nothing.
    Completed { meets_threshold: Option<bool> },
    /// The run failed with an error.
    Errored,
}

/// What the loop does next.
#[derive(Clone, Copy, Debug, PartialEq, Eq, Structural)]
pub enum LoopAction {
    /// Stop with this iteration's result; `success` is what the run's trace
    /// reports.
    Accept { success: bool },
    /// Run the goal once more.
    Continue,
    /// Stop with this iteration's error.
    GiveUp,
}

/// The loop's decision after iteration `iteration` (counted from 1) of at
/// most `max_iterations`: an unjudged result is accepted as a success; a
/// judged one is accepted when it meets the threshold or the iterations are
/// used up; an error ends the loop only when they are used up.
pub open spec fn loop_step(max_iterations: usize, iteration: usize, outcome: IterationOutcome) -> LoopAction {
    match outcome {
        IterationOutcome::Completed { meets_threshold: None } => LoopAction::Accept { success: true },
        IterationOutcome::Completed { meets_threshold: Some(m) } => if m || iteration >= max_iterations {
            LoopAction::Accept { success: m }
        } else {
            LoopAction::Continue
        },
        IterationOutcome::Errored => if iteration >= max_iterations {
            LoopAction::GiveUp
        } else {
            LoopAction::Continue
        },
    }
}

/// The loop never goes past its iterations: once `iteration` reaches
/// `max_iterations`, whatever the iteration came to, the loop stops. Since
/// iterations are counted from 1, a loop runs at most
/// `max(1, max_iterations)` times.
pub proof fn lemma_loop_stops(max_iterations: usize, iteration: usize, outcome: IterationOutcome)
    requires
        iteration >= max_iterations,
    ensures
        loop_step(max_iterations, iteration, outcome) != LoopAction::Continue,
{
}

/// A result that meets the threshold is always accepted as a success, at
/// any iteration.
pub proof fn lemma_threshold_met_accepts(max_iterations: usize, iteration: usize)
    ensures
        loop_step(max_iterations, iteration, IterationOutcome::Completed { meets_threshold: Some(true) })
            == (LoopAction::Accept { success: true }),
{
}

/// Whether a rubric criterion is the configured one.
pub open spec fn same_criterion(r: QualityCriterion, c: crate::config::QualityCriterion) -> bool {
    &&& r.name@ == c.name@
    &&& r.weight_bits == c.weight_bits
    &&& r.description@ == c.description@
}

/// Whether `r` is the rubric the quality section `q` describes: its
/// criteria, threshold and iterations, with 0.85 and 20 where the section
/// (or a value in it) is missing.
pub open spec fn rubric_from(r: QualityRubric, q: Option<QualitySection>) -> bool {
    match q {
        None => {
            &&& r.criteria.len() == 0
            &&& r.threshold_bits == DEFAULT_THRESHOLD_BITS
            &&& r.max_iterations == DEFAULT_MAX_ITERATIONS
        },
        Some(s) => {
            &&& r.threshold_bits == (match s.threshold_bits {
                Some(t) => t,
                None => DEFAULT_THRESHOLD_BITS,
            })
            &&& r.max_iterations == (match s.max_iterations {
                Some(m) => m,
                None => DEFAULT_MAX_ITERATIONS,
            })
            &&& match s.criteria {
                None => r.criteria.len() == 0,
                Some(cs) => {
                    &&& r.criteria.len() == cs.len()
                    &&& forall|i: int|
                        0 <= i < cs.len() ==> same_criterion(#[trigger] r.criteria[i], cs[i])
                },
            }
        },
    }
}

/// The rubric a quality section describes.
pub fn rubric_of(q: &Option<QualitySection>) -> (r: QualityRubric)
    ensures
        rubric_from(r, *q),
{
    match q {
        None => QualityRubric {
            criteria: Vec::new(),
            threshold_bits: DEFAULT_THRESHOLD_BITS,
            max_iterations: DEFAULT_MAX_ITERATIONS,
        },
        Some(s) => {
            let mut criteria: Vec<QualityCriterion> = Vec::new();
            match &s.criteria {
                None => {},
                Some(cs) => {
                    let mut i: usize = 0;
                    while i < cs.len()
                        invariant
                            i <= cs.len(),
                            criteria.len() == i,
                            forall|j: int| 0 <= j < i ==> same_criterion(#[trigger] criteria[j], cs[j]),
                        decreases cs.len() - i,
                    {
                        let c = &cs[i];
                        criteria.push(QualityCriterion {
                            name: c.name.clone(),
                            weight_bits: c.weight_bits,
                            description: c.description.clone(),
                        });
                        i = i + 1;
                    }
                },
            }
            let threshold_bits = match s.threshold_bits {
                Some(t) => t,
                None => DEFAULT_THRESHOLD_BITS,
            };
            let max_iterations = match s.max_iterations {
                Some(m) => m,
                None => DEFAULT_MAX_ITERATIONS,
            };
            QualityRubric { criteria, threshold_bits, max_iterations }
        },
    }
}

/// An agent that runs its goal until its output is judged good enough.
pub struct LoopAgent {
    config: AgentConfig,
    rubric: QualityRubric,
}

impl LoopAgent {
    /// The agent's configuration.
    pub closed spec fn config_spec(self) -> AgentConfig {
        self.config
    }

    /// The agent's rubric.
    pub closed spec fn rubric_spec(self) -> QualityRubric {
        self.rubric
    }

    /// An agent with this configuration and rubric.
    pub fn new(config: AgentConfig, rubric: QualityRubric) -> (a: LoopAgent)
        ensures
            a.config_spec() == config,
            a.rubric_spec() == rubric,
    {
        LoopAgent { config, rubric }
    }

    /// An agent whose rubric is the one its configuration's quality section
    /// describes.
    pub fn from_config(config: AgentConfig) -> (a: LoopAgent)
        ensures
            a.config_spec() == config,
            rubric_from(a.rubric_spec(), config.quality),
    {
        let rubric = rubric_of(&config.quality);
        LoopAgent::new(config, rubric)
    }

    /// The agent's configuration.
    pub fn config(&self) -> (c: &AgentConfig)
        ensures
            *c == self.config_spec(),
    {
        &self.config
    }

    /// The agent's rubric.
    pub fn rubric(&self) -> (r: &QualityRubric)
        ensures
            *r == self.rubric_spec(),
    {
        &self.rubric
    }

    /// Whether results are judged: only where the rubric has criteria.
    pub fn needs_scoring(&self) -> (b: bool)
        ensures
            b == (self.rubric_spec().criteria.len() > 0),
    {
        self.rubric.criteria.len() > 0
    }

    /// What the loop does after iteration `iteration` came to `outcome`.
    pub fn after_iteration(&self, iteration: usize, outcome: IterationOutcome) -> (a: LoopAction)
        ensures
            a == loop_step(self.rubric_spec().max_iterations, iteration, outcome),
    {
        match outcome {
            IterationOutcome::Completed { meets_threshold: None } => LoopAction::Accept { success: true },
            IterationOutcome::Completed { meets_threshold: Some(m) } => {
                if m || iteration >= self.rubric.max_iterations {
                    LoopAction::Accept { success: m }
                } else {
                    LoopAction::Continue
                }
            },
            IterationOutcome::Errored => {
                if iteration >= self.rubric.max_iterations {
                    LoopAction::GiveUp
                } else {
                    LoopAction::Continue
                }
            },
        }
    }
}

} // verus!
