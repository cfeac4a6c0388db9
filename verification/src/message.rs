//! What agents report back, and the quality rubric of loop agents.
use vstd::prelude::*;
use crate::error::{AgentError, agent_error_text, agent_error_wf};

verus! {

/// How a task ended.
#[derive(Debug)]
pub enum TaskResult {
    Success { output: String },
    Partial { output: String, reason: String },
    Failed { error: AgentError },
}

impl Clone for TaskResult {
    fn clone(&self) -> (r: Self)
        ensures
            r == *self,
    {
        match self {
            TaskResult::Success { output } => TaskResult::Success { output: output.clone() },
            TaskResult::Partial { output, reason } => TaskResult::Partial {
                output: output.clone(),
                reason: reason.clone(),
            },
            TaskResult::Failed { error } => TaskResult::Failed { error: error.clone() },
        }
    }
}

impl TaskResult {
    /// The output the result carries, if any.
    pub open spec fn output_spec(self) -> Option<Seq<char>> {
        match self {
            TaskResult::Success { output } => Some(output@),
            TaskResult::Partial { output, .. } => Some(output@),
            TaskResult::Failed { .. } => None,
        }
    }

    /// The output of a successful or partial result.
    pub fn output(&self) -> (r: Option<&str>)
        ensures
            match self.output_spec() {
                Some(o) => r matches Some(x) && x@ == o,
                None => r is None,
            },
    {
        match self {
            TaskResult::Success { output } => Some(output.as_str()),
            TaskResult::Partial { output, .. } => Some(output.as_str()),
            TaskResult::Failed { .. } => None,
        }
    }

    /// Whether the error of a failed result can be rendered.
    pub open spec fn wf(self) -> bool {
        self matches TaskResult::Failed { error } ==> agent_error_wf(error@)
    }

    /// The line that stands for this result among the results of several
    /// sub-tasks.
    pub open spec fn summary_line(self) -> Seq<char> {
        match self {
            TaskResult::Success { output } => output@,
            TaskResult::Partial { output, reason } => "[partial: "@ + reason@ + "] "@ + output@,
            TaskResult::Failed { error } => "[failed: "@ + agent_error_text(error@) + "]"@,
        }
    }
}

/// The bit pattern of the `f32` 0.85, the default quality threshold.
pub const DEFAULT_THRESHOLD_BITS: u32 = 0x3F59_999A;

/// The default number of iterations of a loop agent.
pub const DEFAULT_MAX_ITERATIONS: usize = 20;

/// One criterion of a quality rubric; its weight is an `f32`'s bit pattern.
#[derive(Clone, Debug)]
pub struct QualityCriterion {
    pub name: String,
    pub weight_bits: u32,
    pub description: String,
}

/// How a loop agent's output is judged; the threshold is an `f32`'s bit
/// pattern.
#[derive(Clone, Debug)]
pub struct QualityRubric {
    pub criteria: Vec<QualityCriterion>,
    pub threshold_bits: u32,
    pub max_iterations: usize,
}

/// One criterion's score; weight and score are `f32` bit patterns.
#[derive(Clone, Debug)]
pub struct CriterionScore {
    pub name: String,
    pub weight_bits: u32,
    pub score_bits: u32,
    pub feedback: String,
}

/// A judged output; the overall score is an `f32`'s bit pattern.
#[derive(Clone, Debug)]
pub struct QualityScore {
    pub overall_bits: u32,
    pub criteria_scores: Vec<CriterionScore>,
    pub meets_threshold: bool,
    pub iteration: usize,
}

} // verus!
