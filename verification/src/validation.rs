//! Checklist validation and the aggregation of results across agents.

use crate::spec::{ChecklistItem, TaskSpec};
use vstd::prelude::*;
use vstd::string::*;

verus! {

/// A share, as a count out of a total. The total is never zero.
#[derive(Debug, Clone, Copy, PartialEq, Eq, Structural)]
pub struct Ratio {
    pub numerator: usize,
    pub denominator: usize,
}

/// The share of `part` in `whole`; an empty whole counts as one out of one.
pub open spec fn share(part: nat, whole: nat) -> (nat, nat) {
    if whole == 0 {
        (1, 1)
    } else {
        (part, whole)
    }
}

fn ratio_of(part: usize, whole: usize) -> (r: Ratio)
    ensures
        (r.numerator as nat, r.denominator as nat) == share(part as nat, whole as nat),
        r.denominator > 0,
{
    if whole == 0 {
        Ratio { numerator: 1, denominator: 1 }
    } else {
        Ratio { numerator: part, denominator: whole }
    }
}

/// Number of completed items.
pub open spec fn completed_count(items: Seq<ChecklistItem>) -> nat
    decreases items.len(),
{
    if items.len() == 0 {
        0
    } else {
        completed_count(items.drop_last()) + (if items.last().completed {
            1nat
        } else {
            0nat
        })
    }
}

/// The descriptions of the items that are not completed, in order.
pub open spec fn incomplete_descriptions(items: Seq<ChecklistItem>) -> Seq<Seq<char>>
    decreases items.len(),
{
    if items.len() == 0 {
        Seq::<Seq<char>>::empty()
    } else if items.last().completed {
        incomplete_descriptions(items.drop_last())
    } else {
        incomplete_descriptions(items.drop_last()).push(items.last().description@)
    }
}

/// No more items are completed than there are, and all of them are
/// completed exactly when each one is. An empty checklist is completed.
pub proof fn lemma_all_completed(items: Seq<ChecklistItem>)
    ensures
        completed_count(items) <= items.len(),
        completed_count(items) == items.len() <==> forall|i: int|
            0 <= i < items.len() ==> (#[trigger] items[i]).completed,
        completed_count(items) + incomplete_descriptions(items).len() == items.len(),
    decreases items.len(),
{
    if items.len() > 0 {
        let front = items.drop_last();
        lemma_all_completed(front);
        if completed_count(items) == items.len() {
            assert forall|i: int| 0 <= i < items.len() implies (#[trigger] items[i]).completed by {
                if i < front.len() {
                    assert(front[i].completed);
                }
            }
        }
        if forall|i: int| 0 <= i < items.len() ==> (#[trigger] items[i]).completed {
            assert forall|i: int| 0 <= i < front.len() implies (#[trigger] front[i]).completed by {
                assert(items[i].completed);
            }
            assert(items.last() == items[items.len() - 1]);
        }
    }
}

/// Result of validating a task against its checklist.
#[derive(Debug, Clone)]
pub struct ValidationResult {
    pub all_completed: bool,
    pub completed_count: usize,
    pub total_count: usize,
    pub incomplete_items: Vec<String>,
}

impl ValidationResult {
    /// The share of completed items; an empty checklist counts as one out
    /// of one.
    pub fn success_rate(&self) -> (r: Ratio)
        ensures
            (r.numerator as nat, r.denominator as nat) == share(
                self.completed_count as nat,
                self.total_count as nat,
            ),
            r.denominator > 0,
    {
        ratio_of(self.completed_count, self.total_count)
    }
}

/// Validates the completion of a task against its checklist. The task is
/// successful if and only if every item of the checklist is completed.
pub fn validate_checklist(spec: &TaskSpec) -> (result: ValidationResult)
    ensures
        result.total_count == spec.checklist@.len(),
        result.completed_count == completed_count(spec.checklist@),
        result.all_completed == (forall|i: int|
            0 <= i < spec.checklist@.len() ==> (#[trigger] spec.checklist@[i]).completed),
        crate::events::texts(result.incomplete_items@) == incomplete_descriptions(spec.checklist@),
{
    let total_count = spec.checklist.len();
    let mut done: usize = 0;
    let mut incomplete_items: Vec<String> = Vec::new();
    let mut i: usize = 0;
    assert(spec.checklist@.take(0) =~= Seq::<ChecklistItem>::empty());
    assert(crate::events::texts(incomplete_items@) =~= Seq::<Seq<char>>::empty());
    while i < total_count
        invariant
            total_count == spec.checklist@.len(),
            i <= total_count,
            done == completed_count(spec.checklist@.take(i as int)),
            done <= i,
            crate::events::texts(incomplete_items@) == incomplete_descriptions(
                spec.checklist@.take(i as int),
            ),
        decreases total_count - i,
    {
        let item = &spec.checklist[i];
        proof {
            let next = spec.checklist@.take(i + 1);
            assert(next.drop_last() =~= spec.checklist@.take(i as int));
            assert(next.last() == *item);
        }
        if item.completed {
            done = done + 1;
        } else {
            let ghost before = crate::events::texts(incomplete_items@);
            incomplete_items.push(item.description.clone());
            assert(crate::events::texts(incomplete_items@) =~= before.push(item.description@));
        }
        i = i + 1;
    }
    proof {
        assert(spec.checklist@.take(i as int) =~= spec.checklist@);
        lemma_all_completed(spec.checklist@);
    }
    ValidationResult {
        all_completed: done == total_count,
        completed_count: done,
        total_count,
        incomplete_items,
    }
}

/// What an agent produced, for reporting.
#[derive(Debug, Clone)]
pub struct AgentOutputRecord {
    pub agent_id: String,
    pub purpose: String,
    pub truncated_output: String,
    pub success: bool,
}

impl AgentOutputRecord {
    pub fn new(agent_id: String, purpose: String, truncated_output: String, success: bool) -> (record:
        AgentOutputRecord)
        ensures
            record.agent_id == agent_id,
            record.purpose == purpose,
            record.truncated_output == truncated_output,
            record.success == success,
    {
        AgentOutputRecord { agent_id, purpose, truncated_output, success }
    }
}

/// Counts over all the results that an aggregator holds.
#[derive(Debug, Clone)]
pub struct AggregateSummary {
    pub total_agents: usize,
    pub successful_agents: usize,
    pub total_items: usize,
    pub completed_items: usize,
}

impl AggregateSummary {
    /// The share of completed items over all agents.
    pub fn overall_success_rate(&self) -> (r: Ratio)
        ensures
            (r.numerator as nat, r.denominator as nat) == share(
                self.completed_items as nat,
                self.total_items as nat,
            ),
            r.denominator > 0,
    {
        ratio_of(self.completed_items, self.total_items)
    }

    /// The share of agents that completed every item.
    pub fn agent_success_rate(&self) -> (r: Ratio)
        ensures
            (r.numerator as nat, r.denominator as nat) == share(
                self.successful_agents as nat,
                self.total_agents as nat,
            ),
            r.denominator > 0,
    {
        ratio_of(self.successful_agents, self.total_agents)
    }
}

/// Number of results whose checklist is completed.
pub open spec fn successful_agents(results: Seq<(String, ValidationResult)>) -> nat
    decreases results.len(),
{
    if results.len() == 0 {
        0
    } else {
        successful_agents(results.drop_last()) + (if results.last().1.all_completed {
            1nat
        } else {
            0nat
        })
    }
}

/// Number of checklist items over all results.
pub open spec fn total_items(results: Seq<(String, ValidationResult)>) -> nat
    decreases results.len(),
{
    if results.len() == 0 {
        0
    } else {
        total_items(results.drop_last()) + results.last().1.total_count as nat
    }
}

/// Number of completed checklist items over all results.
pub open spec fn completed_items(results: Seq<(String, ValidationResult)>) -> nat
    decreases results.len(),
{
    if results.len() == 0 {
        0
    } else {
        completed_items(results.drop_last()) + results.last().1.completed_count as nat
    }
}

/// The counts over a part of the results do not exceed those over all.
proof fn lemma_counts_grow(results: Seq<(String, ValidationResult)>, k: int)
    requires
        0 <= k <= results.len(),
    ensures
        total_items(results.take(k)) <= total_items(results),
        completed_items(results.take(k)) <= completed_items(results),
        successful_agents(results.take(k)) <= k,
    decreases results.len() - k,
{
    if k == results.len() {
        assert(results.take(k) =~= results);
        lemma_successful_bound(results);
    } else {
        lemma_counts_grow(results, k + 1);
        assert(results.take(k + 1).drop_last() =~= results.take(k));
        lemma_successful_bound(results.take(k));
    }
}

/// No more agents are successful than there are results.
proof fn lemma_successful_bound(results: Seq<(String, ValidationResult)>)
    ensures
        successful_agents(results) <= results.len(),
    decreases results.len(),
{
    if results.len() > 0 {
        lemma_successful_bound(results.drop_last());
    }
}

/// Collects the results of many agents, in the order in which they came.
pub struct ResultAggregator {
    results: Vec<(String, ValidationResult)>,
    outputs: Vec<AgentOutputRecord>,
}

impl ResultAggregator {
    /// The results collected, each with the agent it belongs to.
    pub closed spec fn results(&self) -> Seq<(String, ValidationResult)> {
        self.results@
    }

    /// The output records collected.
    pub closed spec fn records(&self) -> Seq<AgentOutputRecord> {
        self.outputs@
    }

    pub fn new() -> (a: ResultAggregator)
        ensures
            a.results() == Seq::<(String, ValidationResult)>::empty(),
            a.records() == Seq::<AgentOutputRecord>::empty(),
    {
        ResultAggregator { results: Vec::new(), outputs: Vec::new() }
    }

    /// Adds the result of an agent after those already held.
    pub fn add_result(&mut self, agent_id: String, result: ValidationResult)
        ensures
            final(self).results() == old(self).results().push((agent_id, result)),
            final(self).records() == old(self).records(),
    {
        self.results.push((agent_id, result));
    }

    /// Adds an output record after those already held.
    pub fn add_output(&mut self, record: AgentOutputRecord)
        ensures
            final(self).records() == old(self).records().push(record),
            final(self).results() == old(self).results(),
    {
        self.outputs.push(record);
    }

    /// The output records, in the order in which they were added.
    pub fn outputs(&self) -> (records: &Vec<AgentOutputRecord>)
        ensures
            records@ == self.records(),
    {
        &self.outputs
    }

    /// The counts over all results held, unless a sum of item counts does
    /// not fit the machine word.
    pub fn try_summary(&self) -> (r: Option<AggregateSummary>)
        ensures
            match r {
                Some(s) => {
                    &&& total_items(self.results()) <= usize::MAX
                    &&& completed_items(self.results()) <= usize::MAX
                    &&& s.total_agents == self.results().len()
                    &&& s.successful_agents == successful_agents(self.results())
                    &&& s.total_items == total_items(self.results())
                    &&& s.completed_items == completed_items(self.results())
                },
                None => total_items(self.results()) > usize::MAX || completed_items(
                    self.results(),
                ) > usize::MAX,
            },
    {
        let n = self.results.len();
        let mut total: usize = 0;
        let mut completed: usize = 0;
        let mut i: usize = 0;
        assert(self.results@.take(0) =~= Seq::<(String, ValidationResult)>::empty());
        while i < n
            invariant
                n == self.results@.len(),
                i <= n,
                total == total_items(self.results@.take(i as int)),
                completed == completed_items(self.results@.take(i as int)),
            decreases n - i,
        {
            let result = &self.results[i].1;
            proof {
                let next = self.results@.take(i + 1);
                assert(next.drop_last() =~= self.results@.take(i as int));
                assert(next.last() == self.results@[i as int]);
                lemma_counts_grow(self.results@, i + 1);
            }
            if result.total_count > usize::MAX - total || result.completed_count > usize::MAX
                - completed {
                return None;
            }
            total = total + result.total_count;
            completed = completed + result.completed_count;
            i = i + 1;
        }
        assert(self.results@.take(i as int) =~= self.results@);
        Some(self.summary())
    }

    /// The counts over all results held. The sums of the item counts must
    /// fit the machine word.
    pub fn summary(&self) -> (s: AggregateSummary)
        requires
            total_items(self.results()) <= usize::MAX,
            completed_items(self.results()) <= usize::MAX,
        ensures
            s.total_agents == self.results().len(),
            s.successful_agents == successful_agents(self.results()),
            s.total_items == total_items(self.results()),
            s.completed_items == completed_items(self.results()),
    {
        let n = self.results.len();
        let mut successful: usize = 0;
        let mut total: usize = 0;
        let mut completed: usize = 0;
        let mut i: usize = 0;
        assert(self.results@.take(0) =~= Seq::<(String, ValidationResult)>::empty());
        while i < n
            invariant
                n == self.results@.len(),
                i <= n,
                successful == successful_agents(self.results@.take(i as int)),
                total == total_items(self.results@.take(i as int)),
                completed == completed_items(self.results@.take(i as int)),
                total_items(self.results@) <= usize::MAX,
                completed_items(self.results@) <= usize::MAX,
            decreases n - i,
        {
            let result = &self.results[i].1;
            proof {
                let next = self.results@.take(i + 1);
                assert(next.drop_last() =~= self.results@.take(i as int));
                assert(next.last() == self.results@[i as int]);
                lemma_counts_grow(self.results@, i + 1);
            }
            if result.all_completed {
                successful = successful + 1;
            }
            total = total + result.total_count;
            completed = completed + result.completed_count;
            i = i + 1;
        }
        assert(self.results@.take(i as int) =~= self.results@);
        AggregateSummary {
            total_agents: n,
            successful_agents: successful,
            total_items: total,
            completed_items: completed,
        }
    }
}

impl Default for ResultAggregator {
    fn default() -> (a: ResultAggregator)
        ensures
            a.results() == Seq::<(String, ValidationResult)>::empty(),
            a.records() == Seq::<AgentOutputRecord>::empty(),
    {
        ResultAggregator::new()
    }
}

} // verus!
