//! The orchestrator: it has a goal broken into sub-tasks, tracks each
//! sub-task's status and result, and combines the results.
use vstd::prelude::*;
use vstd::string::StringExecFns;
use crate::config::AgentConfig;
use crate::error::{cat2, cat3, cat4, AgentError, agent_error_wf};
use crate::llm::{CompletionRequest, Message, MessageContent, Role};
use crate::message::TaskResult;
use crate::stamp::fresh_id;
use crate::text::{join, texts};

verus! {

/// Where a sub-task stands.
#[derive(Clone, Copy, Debug, PartialEq, Eq, Structural)]
pub enum SubTaskStatus {
    Pending,
    Assigned,
    Completed,
    Failed,
}

/// One part of a decomposed goal.
#[derive(Debug)]
pub struct SubTask {
    pub task_id: u128,
    pub goal: String,
    pub context: Option<String>,
    pub status: SubTaskStatus,
}

/// What the JSON text `text` holds when it is an array of strings; `None`
/// when it is not.
pub uninterp spec fn json_string_list(text: Seq<char>) -> Option<Seq<Seq<char>>>;

/// Reads `text` as a JSON array of strings with `serde_json::from_str`.
/// Claims that the result is a function of the text alone; which texts parse
/// is serde_json's grammar and is not restated.
#[verifier::external_body]
fn parse_string_list(text: &str) -> (r: Option<Vec<String>>)
    ensures
        match json_string_list(text@) {
            None => r is None,
            Some(v) => r matches Some(x) && texts(x@) == v,
        },
{
    serde_json::from_str::<Vec<String>>(text).ok()
}

/// The prompt that asks the model to break `goal` into sub-tasks.
pub open spec fn decomposition_prompt(goal: Seq<char>) -> Seq<char> {
    "You are a task decomposer. Break the following goal into 2-5 independent sub-tasks. Return ONLY a JSON array of strings, each being a sub-task description. Goal: "@
        + goal
}

/// The sub-goals the model's reply names: the strings of the JSON array it
/// is, or the goal itself when the reply is no such array.
pub open spec fn sub_goals_of(reply: Seq<char>, goal: Seq<char>) -> Seq<Seq<char>> {
    match json_string_list(reply) {
        Some(v) => v,
        None => seq![goal],
    }
}

/// The task a sub-task id names among `tasks`: the first with that id.
pub open spec fn find_task(tasks: Seq<SubTask>, id: u128) -> Option<SubTask>
    decreases tasks.len(),
{
    if tasks.len() == 0 {
        None
    } else if tasks[0].task_id == id {
        Some(tasks[0])
    } else {
        find_task(tasks.drop_first(), id)
    }
}

/// The result recorded for a sub-task id: the first with that id.
pub open spec fn find_result(results: Seq<(u128, TaskResult)>, id: u128) -> Option<TaskResult>
    decreases results.len(),
{
    if results.len() == 0 {
        None
    } else if results[0].0 == id {
        Some(results[0].1)
    } else {
        find_result(results.drop_first(), id)
    }
}

/// Whether no result is a failure (partial results count as done).
pub open spec fn no_failures(results: Seq<(u128, TaskResult)>) -> bool {
    forall|i: int| 0 <= i < results.len() ==> !((#[trigger] results[i]).1 is Failed)
}

/// The lines that stand for the results, in the order they came in.
pub open spec fn summary_lines(results: Seq<(u128, TaskResult)>) -> Seq<Seq<char>> {
    results.map_values(|p: (u128, TaskResult)| p.1.summary_line())
}

/// The result of a sub-task's run: its own result, or a failure carrying
/// the error the run stopped with.
pub fn task_outcome(result: Result<TaskResult, AgentError>) -> (r: TaskResult)
    ensures
        match result {
            Ok(t) => r == t,
            Err(e) => r == (TaskResult::Failed { error: e }),
        },
{
    match result {
        Ok(t) => t,
        Err(e) => TaskResult::Failed { error: e },
    }
}

proof fn lemma_find_task_pos(tasks: Seq<SubTask>, id: u128)
    ensures
        find_task(tasks, id) is Some <==> exists|i: int| 0 <= i < tasks.len() && (#[trigger] tasks[i]).task_id == id,
        find_task(tasks, id) matches Some(t) ==> exists|i: int|
            0 <= i < tasks.len() && (#[trigger] tasks[i]) == t && t.task_id == id,
    decreases tasks.len(),
{
    if tasks.len() > 0 {
        lemma_find_task_pos(tasks.drop_first(), id);
        if tasks[0].task_id != id {
            if exists|i: int| 0 <= i < tasks.len() && (#[trigger] tasks[i]).task_id == id {
                let i = choose|i: int| 0 <= i < tasks.len() && (#[trigger] tasks[i]).task_id == id;
                assert(tasks.drop_first()[i - 1] == tasks[i]);
            }
            if find_task(tasks, id) is Some {
                let t = find_task(tasks, id)->0;
                let j = choose|j: int| 0 <= j < tasks.drop_first().len() && (#[trigger] tasks.drop_first()[j]) == t && t.task_id == id;
                assert(tasks[j + 1] == t);
            }
        }
    }
}

proof fn lemma_find_task_update(tasks: Seq<SubTask>, k: int, t: SubTask, id: u128)
    requires
        0 <= k < tasks.len(),
        tasks[k].task_id == t.task_id,
        forall|i: int, j: int| 0 <= i < j < tasks.len() ==> tasks[i].task_id != tasks[j].task_id,
    ensures
        find_task(tasks.update(k, t), id) == if id == t.task_id { Some(t) } else { find_task(tasks, id) },
    decreases tasks.len(),
{
    if k == 0 {
        assert(tasks.update(k, t).drop_first() =~= tasks.drop_first());
    } else {
        assert(tasks.update(k, t).drop_first() =~= tasks.drop_first().update(k - 1, t));
        assert(tasks[0].task_id != tasks[k].task_id);
        lemma_find_task_update(tasks.drop_first(), k - 1, t, id);
    }
}

proof fn lemma_find_task_push(tasks: Seq<SubTask>, t: SubTask, id: u128)
    requires
        find_task(tasks, t.task_id) is None,
    ensures
        find_task(tasks.push(t), id) == if id == t.task_id { Some(t) } else { find_task(tasks, id) },
    decreases tasks.len(),
{
    if tasks.len() == 0 {
        assert(tasks.push(t).drop_first() =~= Seq::<SubTask>::empty());
    } else {
        assert(tasks.push(t).drop_first() =~= tasks.drop_first().push(t));
        lemma_find_task_push(tasks.drop_first(), t, id);
    }
}

proof fn lemma_find_result_update(results: Seq<(u128, TaskResult)>, k: int, v: TaskResult, id: u128)
    requires
        0 <= k < results.len(),
        forall|i: int, j: int| 0 <= i < j < results.len() ==> results[i].0 != results[j].0,
    ensures
        find_result(results.update(k, (results[k].0, v)), id) == if id == results[k].0 {
            Some(v)
        } else {
            find_result(results, id)
        },
    decreases results.len(),
{
    if k == 0 {
        assert(results.update(k, (results[k].0, v)).drop_first() =~= results.drop_first());
    } else {
        assert(results.update(k, (results[k].0, v)).drop_first() =~= results.drop_first().update(
            k - 1,
            (results[k].0, v),
        ));
        assert(results[0].0 != results[k].0);
        lemma_find_result_update(results.drop_first(), k - 1, v, id);
    }
}

proof fn lemma_find_result_push(results: Seq<(u128, TaskResult)>, id0: u128, v: TaskResult, id: u128)
    requires
        forall|i: int| 0 <= i < results.len() ==> (#[trigger] results[i]).0 != id0,
    ensures
        find_result(results.push((id0, v)), id) == if id == id0 { Some(v) } else { find_result(results, id) },
    decreases results.len(),
{
    if results.len() == 0 {
        assert(results.push((id0, v)).drop_first() =~= Seq::<(u128, TaskResult)>::empty());
    } else {
        assert(results.push((id0, v)).drop_first() =~= results.drop_first().push((id0, v)));
        assert forall|i: int| 0 <= i < results.drop_first().len() implies (
        #[trigger] results.drop_first()[i]).0 != id0 by {
            assert(results.drop_first()[i] == results[i + 1]);
        }
        lemma_find_result_push(results.drop_first(), id0, v, id);
    }
}

/// The orchestrator of one goal's sub-tasks.
pub struct OrchestratorActor {
    config: AgentConfig,
    sub_tasks: Vec<SubTask>,
    results: Vec<(u128, TaskResult)>,
}

impl OrchestratorActor {
    /// The configuration sub-tasks run with.
    pub closed spec fn config_spec(self) -> AgentConfig {
        self.config
    }

    /// The sub-tasks, in the order they were registered.
    pub closed spec fn tasks(self) -> Seq<SubTask> {
        self.sub_tasks@
    }

    /// The sub-tasks' results, in the order they came in.
    pub closed spec fn results_spec(self) -> Seq<(u128, TaskResult)> {
        self.results@
    }

    /// No id is held twice, and every failed result can be rendered.
    pub closed spec fn wf(self) -> bool {
        &&& forall|i: int, j: int|
            0 <= i < j < self.sub_tasks@.len() ==> self.sub_tasks@[i].task_id != self.sub_tasks@[j].task_id
        &&& forall|i: int, j: int|
            0 <= i < j < self.results@.len() ==> self.results@[i].0 != self.results@[j].0
        &&& forall|i: int| 0 <= i < self.results@.len() ==> (#[trigger] self.results@[i]).1.wf()
    }

    /// An orchestrator with no sub-task yet.
    pub fn new(config: AgentConfig) -> (o: OrchestratorActor)
        ensures
            o.wf(),
            o.config_spec() == config,
            o.tasks().len() == 0,
            o.results_spec().len() == 0,
    {
        OrchestratorActor { config, sub_tasks: Vec::new(), results: Vec::new() }
    }

    /// The configuration sub-tasks run with.
    pub fn config(&self) -> (c: &AgentConfig)
        ensures
            *c == self.config_spec(),
    {
        &self.config
    }

    /// The request that asks the model to break `goal` into sub-tasks.
    pub fn decomposition_request(goal: &str) -> (q: CompletionRequest)
        ensures
            q.messages.len() == 1,
            q.messages[0].role == Role::User,
            q.messages[0].text() == decomposition_prompt(goal@),
            q.system_prompt matches Some(p) && p@ == "You are a task planner. Return ONLY valid JSON arrays."@,
            q.temperature_bits == Some(0x3E99_999Au32),
            q.max_tokens == Some(1024usize),
            q.stop_sequences is None,
            q.tools is None,
    {
        let prompt = cat2(
            "You are a task decomposer. Break the following goal into 2-5 independent sub-tasks. Return ONLY a JSON array of strings, each being a sub-task description. Goal: ",
            goal,
        );
        let mut messages: Vec<Message> = Vec::new();
        messages.push(Message { role: Role::User, content: MessageContent::Text(prompt) });
        CompletionRequest {
            messages,
            system_prompt: Some(String::from_str("You are a task planner. Return ONLY valid JSON arrays.")),
            temperature_bits: Some(0x3E99_999A),
            max_tokens: Some(1024),
            stop_sequences: None,
            tools: None,
        }
    }

    /// The sub-goals named by the model's reply to a decomposition request.
    pub fn sub_goals_from_reply(reply: &str, goal: &str) -> (v: Vec<String>)
        ensures
            texts(v@) == sub_goals_of(reply@, goal@),
    {
        match parse_string_list(reply) {
            Some(v) => v,
            None => {
                let mut v: Vec<String> = Vec::new();
                v.push(String::from_str(goal));
                assert(texts(v@) =~= seq![goal@]);
                v
            },
        }
    }

    fn index_of_task(&self, id: u128) -> (r: Option<usize>)
        ensures
            match r {
                Some(k) => k < self.sub_tasks@.len() && self.sub_tasks@[k as int].task_id == id,
                None => forall|i: int| 0 <= i < self.sub_tasks@.len() ==> (#[trigger] self.sub_tasks@[i]).task_id != id,
            },
    {
        let mut i: usize = 0;
        while i < self.sub_tasks.len()
            invariant
                i <= self.sub_tasks@.len(),
                forall|j: int| 0 <= j < i ==> (#[trigger] self.sub_tasks@[j]).task_id != id,
            decreases self.sub_tasks.len() - i,
        {
            if self.sub_tasks[i].task_id == id {
                return Some(i);
            }
            i = i + 1;
        }
        None
    }

    fn index_of_result(&self, id: u128) -> (r: Option<usize>)
        ensures
            match r {
                Some(k) => k < self.results@.len() && self.results@[k as int].0 == id,
                None => forall|i: int| 0 <= i < self.results@.len() ==> (#[trigger] self.results@[i]).0 != id,
            },
    {
        let mut i: usize = 0;
        while i < self.results.len()
            invariant
                i <= self.results@.len(),
                forall|j: int| 0 <= j < i ==> (#[trigger] self.results@[j]).0 != id,
            decreases self.results.len() - i,
        {
            if self.results[i].0 == id {
                return Some(i);
            }
            i = i + 1;
        }
        None
    }

    /// Registers a sub-task under its id; one already held under that id is
    /// replaced.
    pub fn insert_task(&mut self, task: SubTask)
        requires
            old(self).wf(),
        ensures
            final(self).wf(),
            final(self).config_spec() == old(self).config_spec(),
            final(self).results_spec() == old(self).results_spec(),
            forall|id: u128|
                #[trigger] find_task(final(self).tasks(), id) == if id == task.task_id {
                    Some(task)
                } else {
                    find_task(old(self).tasks(), id)
                },
    {
        let ghost t = task;
        let ghost before = self.sub_tasks@;
        match self.index_of_task(task.task_id) {
            Some(k) => {
                self.sub_tasks.set(k, task);
                assert forall|id: u128|
                    #[trigger] find_task(self.sub_tasks@, id) == if id == t.task_id {
                        Some(t)
                    } else {
                        find_task(before, id)
                    } by {
                    lemma_find_task_update(before, k as int, t, id);
                }
            },
            None => {
                proof {
                    lemma_find_task_pos(before, t.task_id);
                }
                self.sub_tasks.push(task);
                assert forall|id: u128|
                    #[trigger] find_task(self.sub_tasks@, id) == if id == t.task_id {
                        Some(t)
                    } else {
                        find_task(before, id)
                    } by {
                    lemma_find_task_push(before, t, id);
                }
            },
        }
    }

    /// Registers the sub-goals as pending sub-tasks, each under a fresh id,
    /// and gives back the ids with their goals, in order.
    pub fn register_sub_goals(&mut self, sub_goals: &Vec<String>) -> (r: Vec<(u128, String)>)
        requires
            old(self).wf(),
        ensures
            final(self).wf(),
            final(self).config_spec() == old(self).config_spec(),
            final(self).results_spec() == old(self).results_spec(),
            r.len() == sub_goals.len(),
            forall|i: int| 0 <= i < r.len() ==> (#[trigger] r[i]).1@ == sub_goals[i]@,
            forall|i: int|
                0 <= i < r.len() ==> (find_task(final(self).tasks(), (#[trigger] r[i]).0) matches Some(t)
                    && t.status == SubTaskStatus::Pending && t.context is None && exists|j: int|
                    i <= j < r.len() && r[j].0 == r[i].0 && t.goal@ == sub_goals[j]@),
            forall|id: u128|
                (forall|i: int| 0 <= i < r.len() ==> (#[trigger] r[i]).0 != id) ==> #[trigger] find_task(
                    final(self).tasks(),
                    id,
                ) == find_task(old(self).tasks(), id),
    {
        let ghost start = self.sub_tasks@;
        let mut out: Vec<(u128, String)> = Vec::new();
        let mut i: usize = 0;
        while i < sub_goals.len()
            invariant
                i <= sub_goals.len(),
                self.wf(),
                self.config == old(self).config,
                self.results@ == old(self).results@,
                start == old(self).sub_tasks@,
                out.len() == i,
                forall|k: int| 0 <= k < i ==> (#[trigger] out[k]).1@ == sub_goals[k]@,
                forall|k: int|
                    0 <= k < i ==> (find_task(self.sub_tasks@, (#[trigger] out[k]).0) matches Some(t)
                        && t.status == SubTaskStatus::Pending && t.context is None && exists|j: int|
                        k <= j < i && out[j].0 == out[k].0 && t.goal@ == sub_goals[j]@),
                forall|id: u128|
                    (forall|k: int| 0 <= k < i ==> (#[trigger] out[k]).0 != id) ==> #[trigger] find_task(
                        self.sub_tasks@,
                        id,
                    ) == find_task(start, id),
            decreases sub_goals.len() - i,
        {
            let id = fresh_id();
            let ghost before = self.sub_tasks@;
            let ghost prev = out@;
            let task = SubTask {
                task_id: id,
                goal: sub_goals[i].clone(),
                context: None,
                status: SubTaskStatus::Pending,
            };
            let ghost t = task;
            self.insert_task(task);
            out.push((id, sub_goals[i].clone()));
            assert forall|k: int|
                0 <= k < i + 1 implies (find_task(self.sub_tasks@, (#[trigger] out[k]).0) matches Some(tk)
                && tk.status == SubTaskStatus::Pending && tk.context is None && exists|j: int|
                k <= j < i + 1 && out[j].0 == out[k].0 && tk.goal@ == sub_goals[j]@) by {
                if k == i {
                    assert(out[k].0 == id);
                    assert(find_task(self.sub_tasks@, id) == Some(t));
                    assert(out[i as int].0 == out[k].0);
                } else {
                    assert(out[k] == prev[k]);
                    if out[k].0 == id {
                        assert(find_task(self.sub_tasks@, id) == Some(t));
                        assert(out[i as int].0 == out[k].0);
                    } else {
                        assert(find_task(self.sub_tasks@, out[k].0) == find_task(before, out[k].0));
                        let tk = find_task(before, out[k].0)->0;
                        let j = choose|j: int|
                            k <= j < i && prev[j].0 == prev[k].0 && tk.goal@ == sub_goals[j]@;
                        assert(out[j] == prev[j]);
                    }
                }
            }
            assert forall|x: u128|
                (forall|k: int| 0 <= k < i + 1 ==> (#[trigger] out[k]).0 != x) implies #[trigger] find_task(
                self.sub_tasks@,
                x,
            ) == find_task(start, x) by {
                assert(out[i as int].0 == id);
                assert forall|k: int| 0 <= k < i implies (#[trigger] prev[k]).0 != x by {
                    assert(out[k] == prev[k]);
                }
            }
            i = i + 1;
        }
        out
    }

    /// Records the outcome of sub-task `task_id`'s run: the sub-task (if held)
    /// is completed when the run returned a result and failed when it
    /// stopped with an error, and the result (an error as a failure) is held
    /// under its id, replacing an earlier one.
    pub fn record_result(&mut self, task_id: u128, result: Result<TaskResult, AgentError>)
        requires
            old(self).wf(),
            match result {
                Ok(t) => t.wf(),
                Err(e) => agent_error_wf(e@),
            },
        ensures
            final(self).wf(),
            final(self).config_spec() == old(self).config_spec(),
            forall|id: u128|
                #[trigger] find_result(final(self).results_spec(), id) == if id == task_id {
                    Some(
                        match result {
                            Ok(t) => t,
                            Err(e) => TaskResult::Failed { error: e },
                        },
                    )
                } else {
                    find_result(old(self).results_spec(), id)
                },
            forall|id: u128|
                id != task_id ==> #[trigger] find_task(final(self).tasks(), id) == find_task(
                    old(self).tasks(),
                    id,
                ),
            match find_task(old(self).tasks(), task_id) {
                None => find_task(final(self).tasks(), task_id) is None,
                Some(t) => find_task(final(self).tasks(), task_id) matches Some(u) && u.task_id == t.task_id
                    && u.goal == t.goal && u.context == t.context && u.status == (if result is Ok {
                    SubTaskStatus::Completed
                } else {
                    SubTaskStatus::Failed
                }),
            },
    {
        let ok = result.is_ok();
        let ghost tasks0 = self.sub_tasks@;
        match self.index_of_task(task_id) {
            Some(k) => {
                let status = if ok {
                    SubTaskStatus::Completed
                } else {
                    SubTaskStatus::Failed
                };
                let ghost oldt = self.sub_tasks@[k as int];
                proof {
                    lemma_find_task_pos(tasks0, task_id);
                    lemma_find_task_update(tasks0, k as int, oldt, task_id);
                }
                let goal = self.sub_tasks[k].goal.clone();
                let context = match &self.sub_tasks[k].context {
                    Some(c) => Some(c.clone()),
                    None => None,
                };
                let updated = SubTask { task_id, goal, context, status };
                let ghost u = updated;
                self.sub_tasks.set(k, updated);
                assert forall|id: u128|
                    #[trigger] find_task(self.sub_tasks@, id) == if id == task_id {
                        Some(u)
                    } else {
                        find_task(tasks0, id)
                    } by {
                    lemma_find_task_update(tasks0, k as int, u, id);
                }
                assert(tasks0.update(k as int, oldt) =~= tasks0);
            },
            None => {
                proof {
                    lemma_find_task_pos(tasks0, task_id);
                }
            },
        }
        let outcome = task_outcome(result);
        let ghost v = outcome;
        let ghost results0 = self.results@;
        match self.index_of_result(task_id) {
            Some(k) => {
                self.results.set(k, (task_id, outcome));
                assert forall|id: u128|
                    #[trigger] find_result(self.results@, id) == if id == task_id {
                        Some(v)
                    } else {
                        find_result(results0, id)
                    } by {
                    lemma_find_result_update(results0, k as int, v, id);
                }
            },
            None => {
                self.results.push((task_id, outcome));
                assert forall|id: u128|
                    #[trigger] find_result(self.results@, id) == if id == task_id {
                        Some(v)
                    } else {
                        find_result(results0, id)
                    } by {
                    lemma_find_result_push(results0, task_id, v, id);
                }
            },
        }
    }

    /// The combined result of the sub-tasks: a failure when no result came
    /// in; otherwise the line of each result (a partial one with its reason,
    /// a failed one with its error) joined with blank lines, as a success
    /// when no sub-task failed and as a partial result when one did.
    pub fn aggregate_results(&self) -> (r: TaskResult)
        requires
            self.wf(),
        ensures
            self.results_spec().len() == 0 ==> (r matches TaskResult::Failed {
                error: AgentError::OrchestratorFailed { reason },
            } && reason@ == "No results collected"@),
            self.results_spec().len() > 0 && no_failures(self.results_spec()) ==> (r matches TaskResult::Success {
                output,
            } && output@ == join(summary_lines(self.results_spec()), "\n\n"@)),
            self.results_spec().len() > 0 && !no_failures(self.results_spec()) ==> (r matches TaskResult::Partial {
                output,
                reason,
            } && output@ == join(summary_lines(self.results_spec()), "\n\n"@) && reason@
                == "Some sub-tasks failed or returned partial results"@),
    {
        if self.results.len() == 0 {
            return TaskResult::Failed {
                error: AgentError::OrchestratorFailed { reason: String::from_str("No results collected") },
            };
        }
        let mut outputs: Vec<String> = Vec::new();
        let mut all_ok = true;
        let mut any_partial = false;
        let mut i: usize = 0;
        while i < self.results.len()
            invariant
                i <= self.results@.len(),
                self.wf(),
                outputs@.len() == i,
                texts(outputs@) == summary_lines(self.results@).take(i as int),
                all_ok == no_failures(self.results@.take(i as int)),
            decreases self.results.len() - i,
        {
            let line = match &self.results[i].1 {
                TaskResult::Success { output } => output.clone(),
                TaskResult::Partial { output, reason } => {
                    any_partial = true;
                    cat4("[partial: ", reason.as_str(), "] ", output.as_str())
                },
                TaskResult::Failed { error } => {
                    all_ok = false;
                    proof {
                        assert(self.results@[i as int].1.wf());
                    }
                    let text = error.to_string();
                    cat3("[failed: ", text.as_str(), "]")
                },
            };
            outputs.push(line);
            proof {
                assert(texts(outputs@) =~= summary_lines(self.results@).take(i + 1));
                let a = self.results@.take(i as int);
                let b = self.results@.take(i + 1);
                assert forall|j: int| 0 <= j < i implies b[j] == a[j] by {}
                assert(b[i as int] == self.results@[i as int]);
                if no_failures(b) {
                    assert forall|j: int| 0 <= j < i implies !((#[trigger] a[j]).1 is Failed) by {
                        assert(b[j] == a[j]);
                    }
                }
                if no_failures(a) && !(self.results@[i as int].1 is Failed) {
                    assert forall|j: int| 0 <= j < i + 1 implies !((#[trigger] b[j]).1 is Failed) by {
                        if j < i {
                            assert(b[j] == a[j]);
                        }
                    }
                }
            }
            i = i + 1;
        }
        proof {
            assert(summary_lines(self.results@).take(self.results@.len() as int) =~= summary_lines(self.results@));
            assert(self.results@.take(self.results@.len() as int) =~= self.results@);
        }
        let combined = crate::text::join_texts(&outputs, "\n\n");
        if all_ok {
            TaskResult::Success { output: combined }
        } else if any_partial || outputs.len() > 0 {
            TaskResult::Partial {
                output: combined,
                reason: String::from_str("Some sub-tasks failed or returned partial results"),
            }
        } else {
            TaskResult::Failed {
                error: AgentError::OrchestratorFailed { reason: String::from_str("All sub-tasks failed") },
            }
        }
    }
}

} // verus!
