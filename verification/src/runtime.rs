//! Bookkeeping of the orchestrator runtime: context usage, the status of
//! each child and the record of what it produced.

use crate::bridge::ConversationId;
use crate::child_config::ParentConfig;
use crate::events::{option_text, Event, EventEmitter, EventMsgView, EventView, TaggedEvent};
use crate::profiles::ProfileSelector;
use crate::spec::TaskSpec;
use crate::text::{decimal, u64_to_decimal};
use crate::validation::{
    completed_count, validate_checklist, AggregateSummary, ResultAggregator, ValidationResult,
};
use std::time::Duration;
use std::time::Instant;
use vstd::prelude::*;
use vstd::string::*;

verus! {

/// A point in time of std's monotonic clock. Nothing is known of its value.
#[verifier::external_type_specification]
#[verifier::external_body]
pub struct ExInstant(Instant);

/// A copy of a point in time is that point in time.
pub assume_specification[ <Instant as Clone>::clone ](t: &Instant) -> (r: Instant)
    ensures
        r == *t,
;

/// A copy of a length of time is that length of time.
pub assume_specification[ <Duration as Clone>::clone ](d: &Duration) -> (r: Duration)
    ensures
        r == *d,
;

/// Reads the monotonic clock with `Instant::now`. Nothing is claimed of the
/// time read.
#[verifier::external_body]
pub(crate) fn clock_now() -> (now: Instant) {
    Instant::now()
}

/// The time from `earlier` to `later` by `Instant::duration_since`, which
/// gives zero where `later` lies before `earlier`. Nothing is claimed of
/// the length.
#[verifier::external_body]
pub(crate) fn time_between(later: &Instant, earlier: &Instant) -> (d: Duration) {
    later.duration_since(*earlier)
}

/// The time passed since `earlier` by `Instant::elapsed`. Nothing is
/// claimed of the length.
#[verifier::external_body]
pub(crate) fn time_since(earlier: &Instant) -> (d: Duration) {
    earlier.elapsed()
}

/// Share of the context window that is used, in percent, rounded down and
/// capped at 100. An empty window counts as used up.
pub open spec fn percent_used(tokens_used: nat, window: nat) -> nat {
    if window == 0 {
        100
    } else if (tokens_used * 100) / window >= 100 {
        100
    } else {
        (tokens_used * 100) / window
    }
}

/// The words that show the context usage.
pub open spec fn context_text(tokens_used: nat, window: Option<nat>) -> Seq<char> {
    match window {
        Some(w) => "subagent context = "@ + decimal(tokens_used) + "/"@ + decimal(w) + " ("@
            + decimal(percent_used(tokens_used, w)) + "%)"@,
        None => "subagent context = "@ + decimal(tokens_used),
    }
}

/// The context usage of a child agent.
#[derive(Clone, Debug)]
pub struct ContextUsage {
    pub tokens_used: u64,
    pub context_window: Option<u64>,
    pub last_update: Instant,
}

impl ContextUsage {
    /// No tokens used, the window unknown, updated now.
    pub fn new() -> (u: ContextUsage)
        ensures
            u.tokens_used == 0,
            u.context_window is None,
    {
        ContextUsage { tokens_used: 0, context_window: None, last_update: clock_now() }
    }

    /// The share of the window that is used, in percent, if the window is
    /// known.
    pub fn usage_percentage(&self) -> (r: Option<u8>)
        ensures
            match self.context_window {
                Some(window) => r == Some(
                    percent_used(self.tokens_used as nat, window as nat) as u8,
                ) && percent_used(self.tokens_used as nat, window as nat) <= 100,
                None => r is None,
            },
    {
        match self.context_window {
            Some(window) => {
                if window == 0 {
                    Some(100)
                } else {
                    let scaled: u128 = self.tokens_used as u128 * 100;
                    let pct: u128 = scaled / (window as u128);
                    if pct >= 100 {
                        Some(100)
                    } else {
                        Some(pct as u8)
                    }
                }
            },
            None => None,
        }
    }

    /// The words that show the usage.
    pub fn context_display(&self) -> (r: String)
        ensures
            r@ == context_text(
                self.tokens_used as nat,
                match self.context_window {
                    Some(w) => Some(w as nat),
                    None => None,
                },
            ),
    {
        let used = u64_to_decimal(self.tokens_used);
        match self.usage_percentage() {
            Some(pct) => {
                let window = match self.context_window {
                    Some(w) => w,
                    None => 0,
                };
                let window_text = u64_to_decimal(window);
                let pct_text = u64_to_decimal(pct as u64);
                String::from_str("subagent context = ").concat(used.as_str()).concat("/").concat(
                    window_text.as_str(),
                ).concat(" (").concat(pct_text.as_str()).concat("%)")
            },
            None => String::from_str("subagent context = ").concat(used.as_str()),
        }
    }
}

impl Default for ContextUsage {
    fn default() -> (u: ContextUsage)
        ensures
            u.tokens_used == 0,
            u.context_window is None,
    {
        ContextUsage::new()
    }
}

/// Status of a child agent.
#[derive(Clone, Debug, PartialEq)]
pub enum SubagentStatus {
    Pending,
    Running,
    Completed,
    Failed(String),
    Timeout,
}

/// What the runtime keeps of a child agent: its task, its status and what
/// it has produced.
#[derive(Clone, Debug)]
pub struct SubagentContext {
    pub agent_id: String,
    pub conversation_id: ConversationId,
    pub task: TaskSpec,
    pub status: SubagentStatus,
    pub context_usage: ContextUsage,
    pub output_buffer: String,
    pub start_time: Instant,
    pub completion_time: Option<Instant>,
}

impl SubagentContext {
    /// The context of a child that is pending, started now, with nothing
    /// produced yet.
    pub fn new(agent_id: String, conversation_id: ConversationId, task: TaskSpec) -> (c:
        SubagentContext)
        ensures
            c.agent_id == agent_id,
            c.conversation_id == conversation_id,
            c.task == task,
            c.status == SubagentStatus::Pending,
            c.context_usage.tokens_used == 0,
            c.context_usage.context_window is None,
            c.output_buffer@ == Seq::<char>::empty(),
            c.completion_time is None,
    {
        SubagentContext {
            agent_id,
            conversation_id,
            task,
            status: SubagentStatus::Pending,
            context_usage: ContextUsage::new(),
            output_buffer: String::new(),
            start_time: clock_now(),
            completion_time: None,
        }
    }

    /// How long the child ran: until it completed, or until now if it has
    /// not.
    pub fn duration(&self) -> Duration {
        match &self.completion_time {
            Some(end) => time_between(end, &self.start_time),
            None => time_since(&self.start_time),
        }
    }
}

/// What a completed child produced.
#[derive(Clone, Debug)]
pub struct AgentOutput {
    pub agent_id: String,
    pub task_spec: TaskSpec,
    pub truncated_output: String,
    pub completion_time: Duration,
    pub context_usage: ContextUsage,
}

/// Abstract value of a [`SubagentStatus`].
pub enum StatusView {
    Pending,
    Running,
    Completed,
    Failed(Seq<char>),
    Timeout,
}

impl View for SubagentStatus {
    type V = StatusView;

    open spec fn view(&self) -> StatusView {
        match self {
            SubagentStatus::Pending => StatusView::Pending,
            SubagentStatus::Running => StatusView::Running,
            SubagentStatus::Completed => StatusView::Completed,
            SubagentStatus::Failed(reason) => StatusView::Failed(reason@),
            SubagentStatus::Timeout => StatusView::Timeout,
        }
    }
}

/// What the contracts of the runtime say of a [`SubagentContext`]: all of
/// it but its task and its times.
pub struct ContextView {
    pub agent_id: Seq<char>,
    pub conversation_id: u128,
    pub status: StatusView,
    pub tokens_used: nat,
    pub context_window: Option<nat>,
    pub output_buffer: Seq<char>,
    pub completed: bool,
}

impl View for SubagentContext {
    type V = ContextView;

    open spec fn view(&self) -> ContextView {
        ContextView {
            agent_id: self.agent_id@,
            conversation_id: self.conversation_id@,
            status: self.status@,
            tokens_used: self.context_usage.tokens_used as nat,
            context_window: match self.context_usage.context_window {
                Some(w) => Some(w as nat),
                None => None,
            },
            output_buffer: self.output_buffer@,
            completed: self.completion_time is Some,
        }
    }
}

/// The views of a list of contexts.
pub open spec fn context_views(contexts: Seq<SubagentContext>) -> Seq<ContextView> {
    Seq::new(contexts.len(), |i: int| contexts[i]@)
}

/// A child agent that the runtime has spawned and not yet completed.
#[derive(Clone, Debug)]
pub struct ChildAgent {
    pub agent_id: String,
    pub conversation_id: ConversationId,
    pub task: TaskSpec,
}

/// A child agent as the spawner hands it over: the agent and the
/// conversation that was created for it.
#[derive(Clone, Debug)]
pub struct SpawnedAgent {
    pub agent_id: String,
    pub conversation_id: ConversationId,
}

/// Names the agent that spawns the children of a runtime.
pub struct AgentSpawner {
    parent_agent_id: String,
}

impl AgentSpawner {
    pub fn new(parent_agent_id: String) -> (s: AgentSpawner)
        ensures
            s.parent_id() == parent_agent_id@,
    {
        AgentSpawner { parent_agent_id }
    }

    /// The agent that the children name as their parent.
    pub closed spec fn parent_id(&self) -> Seq<char> {
        self.parent_agent_id@
    }

    pub fn parent_agent_id(&self) -> (r: &str)
        ensures
            r@ == self.parent_id(),
    {
        self.parent_agent_id.as_str()
    }

    /// The child that a conversation was created for: it is known by the
    /// identifier of its task.
    pub fn spawn_child(&self, task: &TaskSpec, conversation_id: ConversationId) -> (spawned:
        SpawnedAgent)
        ensures
            spawned.agent_id@ == task.id@,
            spawned.conversation_id == conversation_id,
    {
        SpawnedAgent { agent_id: task.id.clone(), conversation_id }
    }
}

/// Index of the first of `ids` that equals `id`, or the number of `ids` if
/// none does.
pub open spec fn position(ids: Seq<Seq<char>>, id: Seq<char>) -> int
    decreases ids.len(),
{
    if ids.len() == 0 {
        0
    } else if ids[0] == id {
        0
    } else {
        1 + position(ids.skip(1), id)
    }
}

/// The first position of `id` is where it is first found.
pub proof fn lemma_position(ids: Seq<Seq<char>>, id: Seq<char>, k: int)
    requires
        0 <= k <= ids.len(),
        forall|j: int| 0 <= j < k ==> ids[j] != id,
        k == ids.len() || ids[k] == id,
    ensures
        position(ids, id) == k,
    decreases ids.len(),
{
    if ids.len() > 0 && k > 0 {
        lemma_position(ids.skip(1), id, k - 1);
    }
}

/// Where `id` is first found lies within the list; it is `id` that stands
/// there, and `id` stands at no place before it.
pub proof fn lemma_position_bounds(ids: Seq<Seq<char>>, id: Seq<char>)
    ensures
        0 <= position(ids, id) <= ids.len(),
        position(ids, id) < ids.len() ==> ids[position(ids, id)] == id,
        forall|j: int| 0 <= j < position(ids, id) ==> ids[j] != id,
    decreases ids.len(),
{
    if ids.len() > 0 && ids[0] != id {
        let rest = ids.skip(1);
        lemma_position_bounds(rest, id);
        assert(position(ids, id) < ids.len() ==> rest[position(rest, id)] == ids[position(
            ids,
            id,
        )]);
        assert forall|j: int| 0 <= j < position(ids, id) implies ids[j] != id by {
            if j > 0 {
                assert(rest[j - 1] == ids[j]);
            }
        }
    }
}

/// Whether no agent occurs twice in `ids`.
pub open spec fn distinct_agents(ids: Seq<Seq<char>>) -> bool {
    forall|i: int, j: int| 0 <= i < j < ids.len() ==> ids[i] != ids[j]
}

/// Where no agent occurs twice, an agent that is taken out is gone: it is
/// found no more, and still no agent occurs twice.
pub proof fn lemma_removed_agent_is_gone(ids: Seq<Seq<char>>, id: Seq<char>)
    requires
        distinct_agents(ids),
        position(ids, id) < ids.len(),
    ensures
        0 <= position(ids, id),
        distinct_agents(ids.remove(position(ids, id))),
        position(ids.remove(position(ids, id)), id) == ids.len() - 1,
{
    lemma_position_bounds(ids, id);
    let at = position(ids, id);
    let rest = ids.remove(at);
    assert forall|j: int| 0 <= j < rest.len() implies rest[j] != id by {
        if j < at {
            assert(rest[j] == ids[j]);
        } else {
            assert(rest[j] == ids[j + 1]);
        }
    }
    lemma_position(rest, id, rest.len() as int);
    assert forall|i: int, j: int| 0 <= i < j < rest.len() implies rest[i] != rest[j] by {
        let a = if i < at {
            i
        } else {
            i + 1
        };
        let b = if j < at {
            j
        } else {
            j + 1
        };
        assert(rest[i] == ids[a] && rest[j] == ids[b]);
    }
}

/// Puts `value` into `slot` and hands out what was there.
fn exchange<T>(slot: &mut T, value: T) -> (before: T)
    ensures
        before == *old(slot),
        *final(slot) == value,
    no_unwind
{
    let mut value = value;
    std::mem::swap(slot, &mut value);
    value
}

/// The agent identifiers of a list of children.
pub open spec fn child_ids(children: Seq<ChildAgent>) -> Seq<Seq<char>> {
    Seq::new(children.len(), |i: int| children[i].agent_id@)
}

/// The agent identifiers of a list of contexts.
pub open spec fn context_ids(contexts: Seq<SubagentContext>) -> Seq<Seq<char>> {
    Seq::new(contexts.len(), |i: int| contexts[i].agent_id@)
}

/// The agent and the output of each context whose status is completed, in
/// order.
pub open spec fn completed_outputs(contexts: Seq<SubagentContext>) -> Seq<(Seq<char>, Seq<char>)>
    decreases contexts.len(),
{
    if contexts.len() == 0 {
        Seq::<(Seq<char>, Seq<char>)>::empty()
    } else if contexts.last().status@ is Completed {
        completed_outputs(contexts.drop_last()).push(
            (contexts.last().agent_id@, contexts.last().output_buffer@),
        )
    } else {
        completed_outputs(contexts.drop_last())
    }
}

/// The agent and the output text of each of `outputs`.
pub open spec fn output_texts(outputs: Seq<AgentOutput>) -> Seq<(Seq<char>, Seq<char>)> {
    Seq::new(outputs.len(), |i: int| (outputs[i].agent_id@, outputs[i].truncated_output@))
}

/// The words that report a completed checklist.
pub open spec fn completion_text(completed: nat, total: nat) -> Seq<char> {
    "Completed "@ + decimal(completed) + "/"@ + decimal(total) + " checklist items"@
}

/// The words that refuse lists of tasks and configurations of different
/// lengths.
pub open spec fn count_mismatch_text(tasks: nat, configs: nat) -> Seq<char> {
    "Task count ("@ + decimal(tasks) + ") does not match config count ("@ + decimal(configs)
        + ")"@
}

/// Coordinates the child agents of one parent conversation: the tasks that
/// wait, the children that run, and what is kept of each child.
pub struct Orchestrator {
    parent_conversation_id: ConversationId,
    spawner: AgentSpawner,
    profile_selector: ProfileSelector,
    children: Vec<ChildAgent>,
    subagent_contexts: Vec<SubagentContext>,
    event_emitter: EventEmitter,
    task_queue: Vec<TaskSpec>,
    result_aggregator: ResultAggregator,
}

fn copy_status(status: &SubagentStatus) -> (r: SubagentStatus)
    ensures
        r@ == status@,
{
    match status {
        SubagentStatus::Pending => SubagentStatus::Pending,
        SubagentStatus::Running => SubagentStatus::Running,
        SubagentStatus::Completed => SubagentStatus::Completed,
        SubagentStatus::Failed(reason) => SubagentStatus::Failed(reason.clone()),
        SubagentStatus::Timeout => SubagentStatus::Timeout,
    }
}

fn copy_usage(usage: &ContextUsage) -> (r: ContextUsage)
    ensures
        r == *usage,
{
    ContextUsage {
        tokens_used: usage.tokens_used,
        context_window: usage.context_window,
        last_update: usage.last_update,
    }
}

fn copy_context(context: &SubagentContext) -> (r: SubagentContext)
    ensures
        r@ == context@,
        r.context_usage == context.context_usage,
        r.start_time == context.start_time,
        r.completion_time == context.completion_time,
{
    SubagentContext {
        agent_id: context.agent_id.clone(),
        conversation_id: context.conversation_id,
        task: context.task.clone(),
        status: copy_status(&context.status),
        context_usage: copy_usage(&context.context_usage),
        output_buffer: context.output_buffer.clone(),
        start_time: context.start_time,
        completion_time: context.completion_time,
    }
}

impl Orchestrator {
    #[verifier::type_invariant]
    spec fn inv(self) -> bool {
        distinct_agents(child_ids(self.children@)) && distinct_agents(
            context_ids(self.subagent_contexts@),
        )
    }

    /// No agent occurs twice among the children that run, nor among the
    /// children that are tracked. Every runtime is so, always.
    pub open spec fn agents_distinct(&self) -> bool {
        distinct_agents(child_ids(self.children())) && distinct_agents(
            context_ids(self.contexts()),
        )
    }

    /// Whether the rest of the runtime is as it was: all but the children
    /// that run and the children that are tracked.
    spec fn rest_unchanged(&self, before: &Orchestrator) -> bool {
        &&& self.parent_conversation_id == before.parent_conversation_id
        &&& self.spawner == before.spawner
        &&& self.profile_selector == before.profile_selector
        &&& self.event_emitter == before.event_emitter
        &&& self.task_queue == before.task_queue
        &&& self.result_aggregator == before.result_aggregator
    }

    /// Files `child` at `at`: in place of the child there, which is of the
    /// same agent, or after all others if `at` is past them.
    fn store_child(&mut self, at: usize, child: ChildAgent)
        requires
            at == position(child_ids(old(self).children@), child.agent_id@),
        ensures
            final(self).children@ == (if at < old(self).children@.len() {
                old(self).children@.update(at as int, child)
            } else {
                old(self).children@.push(child)
            }),
            child_ids(final(self).children@) == (if at < old(self).children@.len() {
                child_ids(old(self).children@)
            } else {
                child_ids(old(self).children@).push(child.agent_id@)
            }),
            final(self).subagent_contexts == old(self).subagent_contexts,
            final(self).rest_unchanged(old(self)),
    {
        proof {
            use_type_invariant(&*self);
            lemma_position_bounds(child_ids(self.children@), child.agent_id@);
        }
        let ghost before = self.children@;
        let mut children = exchange(&mut self.children, Vec::new());
        if at < children.len() {
            children.set(at, child);
            assert(child_ids(children@) =~= child_ids(before));
        } else {
            children.push(child);
            assert(child_ids(children@) =~= child_ids(before).push(child.agent_id@));
        }
        exchange(&mut self.children, children);
    }

    /// Takes the child at `at` out of those that run.
    fn drop_child(&mut self, at: usize)
        requires
            at < old(self).children@.len(),
            at == position(child_ids(old(self).children@), old(self).children@[at as int].agent_id@),
        ensures
            final(self).children@ == old(self).children@.remove(at as int),
            position(
                child_ids(final(self).children@),
                old(self).children@[at as int].agent_id@,
            ) == final(self).children@.len(),
            final(self).subagent_contexts == old(self).subagent_contexts,
            final(self).rest_unchanged(old(self)),
    {
        proof {
            use_type_invariant(&*self);
        }
        let ghost before = self.children@;
        let mut children = exchange(&mut self.children, Vec::new());
        children.remove(at);
        proof {
            lemma_removed_agent_is_gone(child_ids(before), before[at as int].agent_id@);
            assert(child_ids(children@) =~= child_ids(before).remove(at as int));
        }
        exchange(&mut self.children, children);
    }

    /// Keeps `context` at `at`: in place of the context there, which is of
    /// the same agent, or after all others if `at` is past them.
    fn store_context(&mut self, at: usize, context: SubagentContext)
        requires
            at == position(context_ids(old(self).subagent_contexts@), context.agent_id@),
        ensures
            final(self).subagent_contexts@ == (if at < old(self).subagent_contexts@.len() {
                old(self).subagent_contexts@.update(at as int, context)
            } else {
                old(self).subagent_contexts@.push(context)
            }),
            final(self).children == old(self).children,
            final(self).rest_unchanged(old(self)),
    {
        proof {
            use_type_invariant(&*self);
            lemma_position_bounds(context_ids(self.subagent_contexts@), context.agent_id@);
        }
        let ghost before = self.subagent_contexts@;
        let mut contexts = exchange(&mut self.subagent_contexts, Vec::new());
        if at < contexts.len() {
            contexts.set(at, context);
            assert(context_ids(contexts@) =~= context_ids(before));
        } else {
            contexts.push(context);
            assert(context_ids(contexts@) =~= context_ids(before).push(context.agent_id@));
        }
        exchange(&mut self.subagent_contexts, contexts);
    }

    /// The children that run, in the order in which they were spawned.
    pub closed spec fn children(&self) -> Seq<ChildAgent> {
        self.children@
    }

    /// What is kept of each child that is tracked.
    pub closed spec fn contexts(&self) -> Seq<SubagentContext> {
        self.subagent_contexts@
    }

    /// The tasks that wait.
    pub closed spec fn queue(&self) -> Seq<TaskSpec> {
        self.task_queue@
    }

    /// The results of the children that have completed.
    pub closed spec fn results(&self) -> Seq<(String, ValidationResult)> {
        self.result_aggregator.results()
    }

    /// The profiles that the children can run under.
    pub closed spec fn profiles(&self) -> Seq<Seq<char>> {
        self.profile_selector@
    }

    /// The submission of the parent that the events answer.
    pub closed spec fn submit_id(&self) -> Seq<char> {
        self.event_emitter@
    }

    /// The conversation of the parent.
    pub closed spec fn parent(&self) -> u128 {
        self.parent_conversation_id@
    }

    /// The agent that the children name as their parent.
    pub closed spec fn parent_agent(&self) -> Seq<char> {
        self.spawner.parent_id()
    }

    /// A runtime without tasks or children.
    pub fn new(parent_conversation_id: ConversationId, config: &ParentConfig, parent_submit_id: String) -> (o:
        Orchestrator)
        ensures
            o.parent() == parent_conversation_id@,
            o.parent_agent() == "orchestrator-main"@,
            o.profiles() == crate::events::texts(config.active_agent_profiles@),
            o.submit_id() == parent_submit_id@,
            o.children().len() == 0,
            o.contexts().len() == 0,
            o.queue().len() == 0,
            o.results().len() == 0,
            o.agents_distinct(),
    {
        Orchestrator {
            parent_conversation_id,
            spawner: AgentSpawner::new(String::from_str("orchestrator-main")),
            profile_selector: ProfileSelector::new(config),
            children: Vec::new(),
            subagent_contexts: Vec::new(),
            event_emitter: EventEmitter::new(parent_submit_id),
            task_queue: Vec::new(),
            result_aggregator: ResultAggregator::new(),
        }
    }

    /// Puts a task at the end of the queue. A task without a profile gets
    /// the first available one, if there is any.
    pub fn enqueue_task(&mut self, task: TaskSpec)
        ensures
            final(self).queue().len() == old(self).queue().len() + 1,
            final(self).queue().drop_last() == old(self).queue(),
            final(self).queue().last().id == task.id,
            final(self).queue().last().purpose == task.purpose,
            final(self).queue().last().prompt == task.prompt,
            final(self).queue().last().checklist == task.checklist,
            option_text(final(self).queue().last().profile) == (if task.profile is Some {
                option_text(task.profile)
            } else {
                crate::profiles::profile_choice(old(self).profiles(), None)
            }),
            final(self).children() == old(self).children(),
            final(self).contexts() == old(self).contexts(),
            final(self).results() == old(self).results(),
            final(self).profiles() == old(self).profiles(),
            final(self).submit_id() == old(self).submit_id(),
            final(self).parent() == old(self).parent(),
            final(self).agents_distinct(),
    {
        let mut task = task;
        if task.profile.is_none() {
            task.profile = self.profile_selector.select_profile(None);
        }
        proof {
            use_type_invariant(&*self);
        }
        let ghost before = self.task_queue@;
        let mut queue = exchange(&mut self.task_queue, Vec::new());
        queue.push(task);
        assert(queue@.drop_last() =~= before);
        exchange(&mut self.task_queue, queue);
    }

    /// The tasks that wait, in the order in which they were queued.
    pub fn queued_tasks(&self) -> (tasks: &Vec<TaskSpec>)
        ensures
            tasks@ == self.queue(),
    {
        &self.task_queue
    }

    /// The event that announces the child of `task`.
    pub fn announce_child(&self, task: &TaskSpec) -> (event: Event)
        ensures
            event@ == (EventView {
                id: self.submit_id(),
                msg: EventMsgView::AgentSpawned {
                    agent_id: task.id@,
                    parent_id: Some(self.parent_agent()),
                    profile: option_text(task.profile),
                    purpose: task.purpose@,
                },
            }),
    {
        let profile = match &task.profile {
            Some(p) => Some(p.clone()),
            None => None,
        };
        self.event_emitter.agent_spawned(
            task.id.clone(),
            Some(String::from_str(self.spawner.parent_agent_id())),
            profile,
            task.purpose.clone(),
        )
    }

    /// Files the child that was spawned for `task`, in place of a child of
    /// the same agent if there is one, else after the others. Returns the
    /// agent and the prompt to submit to it.
    pub fn spawn_child(&mut self, task: TaskSpec, conversation_id: ConversationId) -> (r: (
        String,
        String,
    ))
        ensures
            r.0@ == task.id@,
            r.1@ == task.prompt@,
            ({
                let at = position(child_ids(old(self).children()), task.id@);
                &&& final(self).children().len() == (if at < old(self).children().len() {
                    old(self).children().len()
                } else {
                    old(self).children().len() + 1
                })
                &&& child_ids(final(self).children()) == (if at < old(self).children().len() {
                    child_ids(old(self).children())
                } else {
                    child_ids(old(self).children()).push(task.id@)
                })
                &&& final(self).children()[at].conversation_id == conversation_id
                &&& final(self).children()[at].task == task
                &&& forall|i: int|
                    0 <= i < old(self).children().len() && i != at ==> final(self).children()[i]
                        == old(self).children()[i]
            }),
            final(self).contexts() == old(self).contexts(),
            final(self).queue() == old(self).queue(),
            final(self).results() == old(self).results(),
            final(self).profiles() == old(self).profiles(),
            final(self).submit_id() == old(self).submit_id(),
            final(self).parent() == old(self).parent(),
            final(self).agents_distinct(),
    {
        let spawned = self.spawner.spawn_child(&task, conversation_id);
        let agent_id = task.id.clone();
        let prompt = task.prompt.clone();
        let at = self.find_child(agent_id.as_str());
        let child = ChildAgent {
            agent_id: spawned.agent_id,
            conversation_id: spawned.conversation_id,
            task,
        };
        self.store_child(at, child);
        proof {
            use_type_invariant(&*self);
        }
        (agent_id, prompt)
    }

    /// Tags an event of a child with the agent it came from.
    pub fn process_child_event(&self, agent_id: &str, event: Event) -> (r: Option<TaggedEvent>)
        ensures
            r is Some,
            r->0.agent_id@ == agent_id@,
            r->0.event == event,
    {
        Some(TaggedEvent::tag(String::from_str(agent_id), event))
    }

    fn find_child(&self, agent_id: &str) -> (at: usize)
        ensures
            at == position(child_ids(self.children@), agent_id@),
            at <= self.children@.len(),
            at < self.children@.len() ==> self.children@[at as int].agent_id@ == agent_id@,
    {
        let wanted = String::from_str(agent_id);
        let mut i: usize = 0;
        while i < self.children.len()
            invariant
                i <= self.children@.len(),
                wanted@ == agent_id@,
                forall|j: int| 0 <= j < i ==> child_ids(self.children@)[j] != agent_id@,
            decreases self.children@.len() - i,
        {
            if self.children[i].agent_id == wanted {
                proof {
                    lemma_position(child_ids(self.children@), agent_id@, i as int);
                }
                return i;
            }
            i += 1;
        }
        proof {
            lemma_position(child_ids(self.children@), agent_id@, i as int);
        }
        i
    }

    fn find_context(&self, agent_id: &str) -> (at: usize)
        ensures
            at == position(context_ids(self.subagent_contexts@), agent_id@),
            at <= self.subagent_contexts@.len(),
            at < self.subagent_contexts@.len() ==> self.subagent_contexts@[at as int].agent_id@
                == agent_id@,
    {
        let wanted = String::from_str(agent_id);
        let mut i: usize = 0;
        while i < self.subagent_contexts.len()
            invariant
                i <= self.subagent_contexts@.len(),
                wanted@ == agent_id@,
                forall|j: int|
                    0 <= j < i ==> context_ids(self.subagent_contexts@)[j] != agent_id@,
            decreases self.subagent_contexts@.len() - i,
        {
            if self.subagent_contexts[i].agent_id == wanted {
                proof {
                    lemma_position(context_ids(self.subagent_contexts@), agent_id@, i as int);
                }
                return i;
            }
            i += 1;
        }
        proof {
            lemma_position(context_ids(self.subagent_contexts@), agent_id@, i as int);
        }
        i
    }

    /// Completes a child: validates its checklist, adds the result to those
    /// held, and takes the child out of those that run. Returns the event
    /// that reports the completion, or nothing if no such child runs.
    /// Afterwards no child of that agent runs, so completing it once more
    /// changes nothing.
    pub fn complete_child(&mut self, agent_id: &str) -> (r: Option<Event>)
        ensures
            position(child_ids(final(self).children()), agent_id@) == final(self).children().len(),
            ({
                let before = old(self).children();
                let at = position(child_ids(before), agent_id@);
                if at < before.len() {
                    &&& r is Some
                    &&& r->0@ == (EventView {
                        id: old(self).submit_id(),
                        msg: EventMsgView::AgentCompleted {
                            agent_id: agent_id@,
                            success: completed_count(before[at].task.checklist@)
                                == before[at].task.checklist@.len(),
                            summary: completion_text(
                                completed_count(before[at].task.checklist@),
                                before[at].task.checklist@.len(),
                            ),
                        },
                    })
                    &&& final(self).children() == before.remove(at)
                    &&& final(self).results().len() == old(self).results().len() + 1
                    &&& final(self).results().drop_last() == old(self).results()
                    &&& final(self).results().last().0@ == agent_id@
                    &&& final(self).results().last().1.total_count
                        == before[at].task.checklist@.len()
                    &&& final(self).results().last().1.completed_count == completed_count(
                        before[at].task.checklist@,
                    )
                    &&& final(self).results().last().1.all_completed == (completed_count(
                        before[at].task.checklist@,
                    ) == before[at].task.checklist@.len())
                    &&& crate::events::texts(final(self).results().last().1.incomplete_items@)
                        == crate::validation::incomplete_descriptions(
                        before[at].task.checklist@,
                    )
                } else {
                    &&& r is None
                    &&& final(self).children() == before
                    &&& final(self).results() == old(self).results()
                }
            }),
            final(self).contexts() == old(self).contexts(),
            final(self).queue() == old(self).queue(),
            final(self).profiles() == old(self).profiles(),
            final(self).submit_id() == old(self).submit_id(),
            final(self).parent() == old(self).parent(),
            final(self).agents_distinct(),
    {
        proof {
            use_type_invariant(&*self);
        }
        let at = self.find_child(agent_id);
        if at >= self.children.len() {
            return None;
        }
        let validation = validate_checklist(&self.children[at].task);
        proof {
            crate::validation::lemma_all_completed(self.children@[at as int].task.checklist@);
        }
        let all_completed = validation.all_completed;
        let summary = String::from_str("Completed ").concat(
            u64_to_decimal(validation.completed_count as u64).as_str(),
        ).concat("/").concat(u64_to_decimal(validation.total_count as u64).as_str()).concat(
            " checklist items",
        );
        let ghost results_before = self.result_aggregator.results();
        let mut aggregator = exchange(&mut self.result_aggregator, ResultAggregator::new());
        aggregator.add_result(String::from_str(agent_id), validation);
        assert(aggregator.results().drop_last() =~= results_before);
        exchange(&mut self.result_aggregator, aggregator);
        let event = self.event_emitter.agent_completed(
            String::from_str(agent_id),
            all_completed,
            summary,
        );
        self.drop_child(at);
        proof {
            use_type_invariant(&*self);
        }
        Some(event)
    }

    /// Number of children that run.
    pub fn active_child_count(&self) -> (n: usize)
        ensures
            n == self.children().len(),
    {
        self.children.len()
    }

    /// The conversation of the parent.
    pub fn parent_conversation_id(&self) -> (id: ConversationId)
        ensures
            id@ == self.parent(),
    {
        self.parent_conversation_id
    }

    /// The counts over the results of the children that have completed,
    /// unless a sum of item counts does not fit the machine word.
    pub fn try_get_summary(&self) -> (r: Option<AggregateSummary>)
        ensures
            match r {
                Some(s) => {
                    &&& s.total_agents == self.results().len()
                    &&& s.successful_agents == crate::validation::successful_agents(
                        self.results(),
                    )
                    &&& s.total_items == crate::validation::total_items(self.results())
                    &&& s.completed_items == crate::validation::completed_items(self.results())
                },
                None => crate::validation::total_items(self.results()) > usize::MAX
                    || crate::validation::completed_items(self.results()) > usize::MAX,
            },
    {
        self.result_aggregator.try_summary()
    }

    /// The counts over the results of the children that have completed.
    /// The sums of the item counts must fit the machine word.
    pub fn get_summary(&self) -> (s: AggregateSummary)
        requires
            crate::validation::total_items(self.results()) <= usize::MAX,
            crate::validation::completed_items(self.results()) <= usize::MAX,
        ensures
            s.total_agents == self.results().len(),
            s.successful_agents == crate::validation::successful_agents(self.results()),
            s.total_items == crate::validation::total_items(self.results()),
            s.completed_items == crate::validation::completed_items(self.results()),
    {
        self.result_aggregator.summary()
    }

    /// Starts to track the child of `agent_id`, if it runs: keeps a context
    /// for it that is pending, in place of a context of the same agent if
    /// there is one, else after the others.
    pub fn track_child(&mut self, agent_id: &str) -> (kept: bool)
        ensures
            ({
                let child_at = position(child_ids(old(self).children()), agent_id@);
                let at = position(context_ids(old(self).contexts()), agent_id@);
                if child_at < old(self).children().len() {
                    &&& kept
                    &&& final(self).contexts().len() == (if at < old(self).contexts().len() {
                        old(self).contexts().len()
                    } else {
                        old(self).contexts().len() + 1
                    })
                    &&& final(self).contexts()[at]@ == (ContextView {
                        agent_id: agent_id@,
                        conversation_id: old(self).children()[child_at].conversation_id@,
                        status: StatusView::Pending,
                        tokens_used: 0,
                        context_window: None,
                        output_buffer: Seq::<char>::empty(),
                        completed: false,
                    })
                    &&& forall|i: int|
                        0 <= i < old(self).contexts().len() && i != at ==> final(self).contexts()[i] == old(self).contexts()[i]
                } else {
                    &&& !kept
                    &&& final(self).contexts() == old(self).contexts()
                }
            }),
            final(self).children() == old(self).children(),
            final(self).queue() == old(self).queue(),
            final(self).results() == old(self).results(),
            final(self).profiles() == old(self).profiles(),
            final(self).submit_id() == old(self).submit_id(),
            final(self).parent() == old(self).parent(),
            final(self).agents_distinct(),
    {
        proof {
            use_type_invariant(&*self);
        }
        let child_at = self.find_child(agent_id);
        if child_at >= self.children.len() {
            return false;
        }
        let child = &self.children[child_at];
        let context = SubagentContext::new(
            child.agent_id.clone(),
            child.conversation_id,
            child.task.clone(),
        );
        let at = self.find_context(agent_id);
        self.store_context(at, context);
        proof {
            use_type_invariant(&*self);
        }
        true
    }

    /// Records the context usage of a child that is tracked; does nothing
    /// for any other agent.
    pub fn update_context_usage(
        &mut self,
        agent_id: &str,
        tokens_used: u64,
        context_window: Option<u64>,
    )
        ensures
            ({
                let before = old(self).contexts();
                let at = position(context_ids(before), agent_id@);
                if at < before.len() {
                    &&& final(self).contexts().len() == before.len()
                    &&& final(self).contexts()[at]@ == (ContextView {
                        tokens_used: tokens_used as nat,
                        context_window: match context_window {
                            Some(w) => Some(w as nat),
                            None => None,
                        },
                        ..before[at]@
                    })
                    &&& forall|i: int|
                        0 <= i < before.len() && i != at ==> final(self).contexts()[i]
                            == before[i]
                } else {
                    final(self).contexts() == before
                }
            }),
            final(self).children() == old(self).children(),
            final(self).queue() == old(self).queue(),
            final(self).results() == old(self).results(),
            final(self).profiles() == old(self).profiles(),
            final(self).submit_id() == old(self).submit_id(),
            final(self).parent() == old(self).parent(),
            final(self).agents_distinct(),
    {
        let at = self.find_context(agent_id);
        if at < self.subagent_contexts.len() {
            let mut context = copy_context(&self.subagent_contexts[at]);
            context.context_usage.tokens_used = tokens_used;
            context.context_usage.context_window = context_window;
            context.context_usage.last_update = clock_now();
            self.store_context(at, context);
        }
        proof {
            use_type_invariant(&*self);
        }
    }

    /// A copy of what is kept of a child, if it is tracked.
    pub fn get_subagent_context(&self, agent_id: &str) -> (r: Option<SubagentContext>)
        ensures
            ({
                let at = position(context_ids(self.contexts()), agent_id@);
                if at < self.contexts().len() {
                    r is Some && r->0@ == self.contexts()[at]@
                } else {
                    r is None
                }
            }),
    {
        let at = self.find_context(agent_id);
        if at < self.subagent_contexts.len() {
            Some(copy_context(&self.subagent_contexts[at]))
        } else {
            None
        }
    }

    /// Copies of what is kept of all children that are tracked, in the order
    /// in which they were first tracked.
    pub fn list_subagent_contexts(&self) -> (list: Vec<SubagentContext>)
        ensures
            context_views(list@) == context_views(self.contexts()),
    {
        let mut list: Vec<SubagentContext> = Vec::new();
        let mut i: usize = 0;
        while i < self.subagent_contexts.len()
            invariant
                i <= self.subagent_contexts@.len(),
                list@.len() == i,
                forall|j: int| 0 <= j < i ==> list@[j]@ == self.subagent_contexts@[j]@,
            decreases self.subagent_contexts@.len() - i,
        {
            list.push(copy_context(&self.subagent_contexts[i]));
            i += 1;
        }
        assert(context_views(list@) =~= context_views(self.subagent_contexts@));
        list
    }

    /// Whether as many configurations as tasks were given for a parallel
    /// run; if not, the words that refuse the run.
    pub fn check_parallel(task_count: usize, config_count: usize) -> (r: Result<(), String>)
        ensures
            match r {
                Ok(_) => task_count == config_count,
                Err(message) => task_count != config_count && message@ == count_mismatch_text(
                    task_count as nat,
                    config_count as nat,
                ),
            },
    {
        if task_count != config_count {
            Err(
                String::from_str("Task count (").concat(
                    u64_to_decimal(task_count as u64).as_str(),
                ).concat(") does not match config count (").concat(
                    u64_to_decimal(config_count as u64).as_str(),
                ).concat(")"),
            )
        } else {
            Ok(())
        }
    }

    /// Whether all children have completed, so that waiting for them ends.
    pub fn all_children_done(&self) -> (done: bool)
        ensures
            done == (self.children().len() == 0),
    {
        self.active_child_count() == 0
    }

    /// What the children that completed have produced, in the order in
    /// which they were first tracked: for each its agent, its task, its
    /// output, the time it ran and its context usage.
    pub fn collect_outputs(&self) -> (outputs: Vec<AgentOutput>)
        ensures
            output_texts(outputs@) == completed_outputs(self.contexts()),
    {
        let mut outputs: Vec<AgentOutput> = Vec::new();
        let mut i: usize = 0;
        assert(self.subagent_contexts@.take(0) =~= Seq::<SubagentContext>::empty());
        assert(output_texts(outputs@) =~= Seq::<(Seq<char>, Seq<char>)>::empty());
        while i < self.subagent_contexts.len()
            invariant
                i <= self.subagent_contexts@.len(),
                output_texts(outputs@) == completed_outputs(
                    self.subagent_contexts@.take(i as int),
                ),
            decreases self.subagent_contexts@.len() - i,
        {
            let context = &self.subagent_contexts[i];
            proof {
                let next = self.subagent_contexts@.take(i + 1);
                assert(next.drop_last() =~= self.subagent_contexts@.take(i as int));
                assert(next.last() == *context);
            }
            match &context.status {
                SubagentStatus::Completed => {
                    let ghost before = output_texts(outputs@);
                    outputs.push(
                        AgentOutput {
                            agent_id: context.agent_id.clone(),
                            task_spec: context.task.clone(),
                            truncated_output: context.output_buffer.clone(),
                            completion_time: context.duration(),
                            context_usage: copy_usage(&context.context_usage),
                        },
                    );
                    assert(output_texts(outputs@) =~= before.push(
                        (context.agent_id@, context.output_buffer@),
                    ));
                },
                _ => {},
            }
            i += 1;
        }
        assert(self.subagent_contexts@.take(i as int) =~= self.subagent_contexts@);
        outputs
    }

    /// Appends `content` to the output of a child that is tracked; does
    /// nothing for any other agent.
    pub fn append_subagent_output(&mut self, agent_id: &str, content: &str)
        ensures
            ({
                let before = old(self).contexts();
                let at = position(context_ids(before), agent_id@);
                if at < before.len() {
                    &&& final(self).contexts().len() == before.len()
                    &&& final(self).contexts()[at]@ == (ContextView {
                        output_buffer: before[at]@.output_buffer + content@,
                        ..before[at]@
                    })
                    &&& forall|i: int|
                        0 <= i < before.len() && i != at ==> final(self).contexts()[i]
                            == before[i]
                } else {
                    final(self).contexts() == before
                }
            }),
            final(self).children() == old(self).children(),
            final(self).queue() == old(self).queue(),
            final(self).results() == old(self).results(),
            final(self).profiles() == old(self).profiles(),
            final(self).submit_id() == old(self).submit_id(),
            final(self).parent() == old(self).parent(),
            final(self).agents_distinct(),
    {
        let at = self.find_context(agent_id);
        if at < self.subagent_contexts.len() {
            let mut context = copy_context(&self.subagent_contexts[at]);
            context.output_buffer.append(content);
            self.store_context(at, context);
        }
        proof {
            use_type_invariant(&*self);
        }
    }

    /// Marks a child that is tracked as completed, or as failed, at the
    /// present time; does nothing for any other agent.
    pub fn mark_subagent_completed(&mut self, agent_id: &str, success: bool)
        ensures
            ({
                let before = old(self).contexts();
                let at = position(context_ids(before), agent_id@);
                if at < before.len() {
                    &&& final(self).contexts().len() == before.len()
                    &&& final(self).contexts()[at]@ == (ContextView {
                        status: if success {
                            StatusView::Completed
                        } else {
                            StatusView::Failed("Agent failed"@)
                        },
                        completed: true,
                        ..before[at]@
                    })
                    &&& forall|i: int|
                        0 <= i < before.len() && i != at ==> final(self).contexts()[i]
                            == before[i]
                } else {
                    final(self).contexts() == before
                }
            }),
            final(self).children() == old(self).children(),
            final(self).queue() == old(self).queue(),
            final(self).results() == old(self).results(),
            final(self).profiles() == old(self).profiles(),
            final(self).submit_id() == old(self).submit_id(),
            final(self).parent() == old(self).parent(),
            final(self).agents_distinct(),
    {
        let at = self.find_context(agent_id);
        if at < self.subagent_contexts.len() {
            let mut context = copy_context(&self.subagent_contexts[at]);
            context.status = if success {
                SubagentStatus::Completed
            } else {
                SubagentStatus::Failed(String::from_str("Agent failed"))
            };
            context.completion_time = Some(clock_now());
            self.store_context(at, context);
        }
        proof {
            use_type_invariant(&*self);
        }
    }
}

} // verus!
