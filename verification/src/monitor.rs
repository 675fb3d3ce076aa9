//! Event monitor: follows the events of one child agent, passes each on to
//! the parent, derives progress messages and the collected output, and
//! resolves the outcome when the child ends.
//!
//! The monitor is a state machine. Its owner feeds it each event of the
//! child, the result of each injection it asked for, and the end of the
//! stream, and carries out the actions it answers with, in order.

use crate::bridge::ConversationId;
use crate::budget::{BudgetState, OutputBudget, OUTPUT_TOKEN_CAP};
use crate::events::{option_text, Event, EventMsg, EventMsgView, EventView};
use crate::registry::{final_recorded, BridgeRegistry, RegistryView};
use crate::summary::{
    abort_notice, abort_summary, build_abort_notice, build_abort_summary, build_error_notice,
    build_error_summary, build_success_notice, build_success_summary, context_left_progress,
    context_left_text, debug_list, debug_list_text, error_notice, error_summary,
    exec_begin_progress, exec_begin_text, exec_end_progress, exec_end_text, fallback_body,
    success_notice, success_summary, tool_begin_progress, tool_begin_text, tool_end_progress,
    tool_end_text,
};
use crate::throttle::{ProgressThrottle, ThrottleState};
use vstd::prelude::*;
use vstd::string::*;

verus! {

/// How a child ended, as handed to the tool call that spawned it.
#[derive(Debug)]
pub struct SubagentOutcome {
    pub success: bool,
    pub markdown: String,
    pub injected_into_turn: bool,
}

/// Abstract value of a [`SubagentOutcome`].
pub struct OutcomeView {
    pub success: bool,
    pub markdown: Seq<char>,
    pub injected_into_turn: bool,
}

impl View for SubagentOutcome {
    type V = OutcomeView;

    open spec fn view(&self) -> OutcomeView {
        OutcomeView {
            success: self.success,
            markdown: self.markdown@,
            injected_into_turn: self.injected_into_turn,
        }
    }
}

/// What the owner of a monitor has to do next.
#[derive(Debug)]
pub enum MonitorAction {
    /// Send the event to the parent's sink.
    SendEvent(Event),
    /// Take the child out of the parent's index of active children.
    UnregisterChild { agent_id: String },
    /// Add the text to the input of the parent's next turn, and report to
    /// the monitor whether that worked.
    InjectInput { text: String },
    /// Deliver the outcome to the waiting tool call.
    SendOutcome(SubagentOutcome),
}

/// Abstract value of a [`MonitorAction`].
pub enum ActionView {
    SendEvent(EventView),
    UnregisterChild { agent_id: Seq<char> },
    InjectInput { text: Seq<char> },
    SendOutcome(OutcomeView),
}

impl View for MonitorAction {
    type V = ActionView;

    open spec fn view(&self) -> ActionView {
        match self {
            MonitorAction::SendEvent(event) => ActionView::SendEvent(event@),
            MonitorAction::UnregisterChild { agent_id } => ActionView::UnregisterChild {
                agent_id: agent_id@,
            },
            MonitorAction::InjectInput { text } => ActionView::InjectInput { text: text@ },
            MonitorAction::SendOutcome(outcome) => ActionView::SendOutcome(outcome@),
        }
    }
}

/// The abstract values of a list of actions.
pub open spec fn action_views(actions: Seq<MonitorAction>) -> Seq<ActionView> {
    Seq::new(actions.len(), |i: int| actions[i]@)
}

/// Where a monitor stands.
pub enum MonitorPhase {
    /// Following the events of the child.
    Running,
    /// The child has ended; the summary is being injected into the parent's
    /// next turn and the outcome waits for the result.
    AwaitingInjection { success: bool, markdown: String, notice: String },
    /// Nothing more will be done.
    Finished,
}

/// Abstract value of a [`MonitorPhase`].
pub enum PhaseView {
    Running,
    AwaitingInjection { success: bool, markdown: Seq<char>, notice: Seq<char> },
    Finished,
}

impl View for MonitorPhase {
    type V = PhaseView;

    open spec fn view(&self) -> PhaseView {
        match self {
            MonitorPhase::Running => PhaseView::Running,
            MonitorPhase::AwaitingInjection { success, markdown, notice } => {
                PhaseView::AwaitingInjection {
                    success: *success,
                    markdown: markdown@,
                    notice: notice@,
                }
            },
            MonitorPhase::Finished => PhaseView::Finished,
        }
    }
}

/// Abstract state of an event monitor.
pub struct MonitorView {
    pub agent_id: Seq<char>,
    pub parent_sub_id: Seq<char>,
    pub conversation_id: u128,
    pub budget: BudgetState,
    pub accumulated_output: Seq<char>,
    pub throttle: ThrottleState,
    pub last_message: Option<Seq<char>>,
    pub phase: PhaseView,
}

/// A monitor, the registry it works on, and the actions it asked for.
pub struct MonitorStep {
    pub monitor: MonitorView,
    pub registry: RegistryView,
    pub actions: Seq<ActionView>,
}

/// Whether an event ends the child.
pub open spec fn is_terminal(msg: EventMsgView) -> bool {
    msg is TaskComplete || msg is Error || msg is TurnAborted
}

/// The progress line that an event gives rise to by itself, if any.
pub open spec fn status_line(msg: EventMsgView) -> Option<Seq<char>> {
    match msg {
        EventMsgView::TaskStarted => Some("started"@),
        EventMsgView::ExecCommandBegin { command, cwd } => Some(
            exec_begin_text(debug_list_text(command), cwd),
        ),
        EventMsgView::ExecCommandEnd { exit_code } => Some(exec_end_text(exit_code)),
        EventMsgView::McpToolCallBegin { server, tool } => Some(tool_begin_text(server, tool)),
        EventMsgView::McpToolCallEnd { server, tool, success } => Some(
            tool_end_text(server, tool, success),
        ),
        EventMsgView::TokenCount { tokens_in_context, model_context_window } => {
            match model_context_window {
                Some(window) => Some(context_left_text(tokens_in_context, window)),
                None => None,
            }
        },
        _ => None,
    }
}

impl MonitorView {
    /// The monitor of a child that has produced nothing yet.
    pub open spec fn fresh(
        agent_id: Seq<char>,
        parent_sub_id: Seq<char>,
        conversation_id: u128,
        now_ms: nat,
    ) -> MonitorView {
        MonitorView {
            agent_id,
            parent_sub_id,
            conversation_id,
            budget: BudgetState::fresh(OUTPUT_TOKEN_CAP as nat),
            accumulated_output: Seq::<char>::empty(),
            throttle: ThrottleState::fresh(now_ms),
            last_message: None,
            phase: PhaseView::Running,
        }
    }

    /// The action that sends `msg` to the parent under its submission.
    pub open spec fn send(self, msg: EventMsgView) -> ActionView {
        ActionView::SendEvent(EventView { id: self.parent_sub_id, msg })
    }

    /// The action that passes an event of the child on to the parent.
    pub open spec fn forward(self, event: EventView) -> ActionView {
        self.send(EventMsgView::AgentEvent { agent_id: self.agent_id, event: Box::new(event) })
    }

    /// The action that reports a progress message to the parent.
    pub open spec fn progress(self, message: Seq<char>) -> ActionView {
        self.send(EventMsgView::AgentProgress { agent_id: self.agent_id, message })
    }

    /// The final markdown that the child left on its bridge, if any.
    pub open spec fn bridge_final(self, registry: RegistryView) -> Option<Seq<char>> {
        if registry.contains_key(self.conversation_id) {
            registry[self.conversation_id].final_markdown
        } else {
            None
        }
    }

    /// Body of the summary of a completed child: the final markdown on its
    /// bridge if there is one, else the fallback.
    pub open spec fn completion_body(
        self,
        completion_message: Option<Seq<char>>,
        registry: RegistryView,
    ) -> Seq<char> {
        match self.bridge_final(registry) {
            Some(markdown) => markdown,
            None => fallback_body(self.accumulated_output, completion_message, self.last_message),
        }
    }

    /// Whether the heading of the summary notes the truncation: the budget
    /// was exhausted and the bridge carried no final markdown.
    pub open spec fn notes_truncation(self, registry: RegistryView) -> bool {
        self.budget.truncated && self.bridge_final(registry) is None
    }

    /// Whether a terminal event counts as success.
    pub open spec fn terminal_success(msg: EventMsgView) -> bool {
        msg is TaskComplete
    }

    /// The body of the summary that resolves a terminal event: of a
    /// completed child its final markdown or the fallback, of a failed
    /// child the message of the error, of an aborted child the words that
    /// say why.
    pub open spec fn terminal_body(self, msg: EventMsgView, registry: RegistryView) -> Seq<char> {
        match msg {
            EventMsgView::TaskComplete { last_agent_message } => self.completion_body(
                last_agent_message,
                registry,
            ),
            EventMsgView::Error { message } => message,
            EventMsgView::TurnAborted { reason } => crate::summary::abort_body(reason),
            _ => Seq::<char>::empty(),
        }
    }

    /// The summary that resolves a terminal event.
    pub open spec fn terminal_summary(self, msg: EventMsgView, registry: RegistryView) -> Seq<
        char,
    > {
        match msg {
            EventMsgView::TaskComplete { last_agent_message } => success_summary(
                self.agent_id,
                self.notes_truncation(registry),
                self.completion_body(last_agent_message, registry),
            ),
            EventMsgView::Error { message } => error_summary(self.agent_id, message),
            EventMsgView::TurnAborted { reason } => abort_summary(self.agent_id, reason),
            _ => Seq::<char>::empty(),
        }
    }

    /// The notice sent to the parent if the summary of a terminal event
    /// cannot be injected.
    pub open spec fn terminal_notice(self, msg: EventMsgView, registry: RegistryView) -> Seq<
        char,
    > {
        match msg {
            EventMsgView::TaskComplete { last_agent_message } => success_notice(
                self.agent_id,
                self.completion_body(last_agent_message, registry),
            ),
            EventMsgView::Error { message } => error_notice(self.agent_id, message),
            EventMsgView::TurnAborted { reason } => abort_notice(self.agent_id, reason),
            _ => Seq::<char>::empty(),
        }
    }

    /// The registry after a terminal event: a completed child whose bridge
    /// carried no final markdown gets the body of its summary recorded there.
    pub open spec fn terminal_registry(self, msg: EventMsgView, registry: RegistryView)
        -> RegistryView {
        match msg {
            EventMsgView::TaskComplete { last_agent_message } => {
                if self.bridge_final(registry) is None {
                    final_recorded(
                        registry,
                        self.conversation_id,
                        self.completion_body(last_agent_message, registry),
                    )
                } else {
                    registry
                }
            },
            _ => registry,
        }
    }

    /// What a running monitor does about an event, besides passing it on.
    pub open spec fn react(self, msg: EventMsgView, now_ms: nat, registry: RegistryView)
        -> MonitorStep {
        if is_terminal(msg) {
            let summary = self.terminal_summary(msg, registry);
            MonitorStep {
                monitor: MonitorView {
                    phase: PhaseView::AwaitingInjection {
                        success: Self::terminal_success(msg),
                        markdown: summary,
                        notice: self.terminal_notice(msg, registry),
                    },
                    ..self
                },
                registry: self.terminal_registry(msg, registry),
                actions: seq![
                    self.send(
                        EventMsgView::AgentCompleted {
                            agent_id: self.agent_id,
                            success: Self::terminal_success(msg),
                            summary,
                        },
                    ),
                    ActionView::UnregisterChild { agent_id: self.agent_id },
                    ActionView::InjectInput { text: summary },
                ],
            }
        } else {
            match msg {
                EventMsgView::AgentMessageDelta { delta } => MonitorStep {
                    monitor: MonitorView {
                        budget: self.budget.accept(delta),
                        accumulated_output: self.accumulated_output + self.budget.accepted_text(
                            delta,
                        ),
                        throttle: self.throttle.offer(delta, now_ms),
                        ..self
                    },
                    registry,
                    actions: match self.throttle.released(delta, now_ms) {
                        Some(text) => seq![self.progress(text)],
                        None => Seq::<ActionView>::empty(),
                    },
                },
                EventMsgView::AgentMessage { message } => MonitorStep {
                    monitor: MonitorView {
                        budget: self.budget.accept(message + "\n"@),
                        accumulated_output: self.accumulated_output + self.budget.accepted_text(
                            message + "\n"@,
                        ),
                        last_message: Some(message),
                        ..self
                    },
                    registry,
                    actions: seq![self.progress(message)],
                },
                _ => MonitorStep {
                    monitor: self,
                    registry,
                    actions: match status_line(msg) {
                        Some(text) => seq![self.progress(text)],
                        None => Seq::<ActionView>::empty(),
                    },
                },
            }
        }
    }

    /// What a monitor does about an event of the child: nothing unless it is
    /// running; else it passes the event on and then reacts to it.
    pub open spec fn on_event(self, event: EventView, now_ms: nat, registry: RegistryView)
        -> MonitorStep {
        if self.phase is Running {
            let reaction = self.react(event.msg, now_ms, registry);
            MonitorStep {
                monitor: reaction.monitor,
                registry: reaction.registry,
                actions: seq![self.forward(event)] + reaction.actions,
            }
        } else {
            MonitorStep { monitor: self, registry, actions: Seq::<ActionView>::empty() }
        }
    }

    /// What a monitor does when told whether the injection worked: nothing
    /// unless it waits for that; else it sends the notice if the injection
    /// failed, delivers the outcome, removes the bridge and finishes.
    pub open spec fn on_injection_result(self, injected: bool, registry: RegistryView)
        -> MonitorStep {
        match self.phase {
            PhaseView::AwaitingInjection { success, markdown, notice } => MonitorStep {
                monitor: MonitorView { phase: PhaseView::Finished, ..self },
                registry: registry.remove(self.conversation_id),
                actions: (if injected {
                    Seq::<ActionView>::empty()
                } else {
                    seq![self.send(EventMsgView::BackgroundEvent { message: notice })]
                }) + seq![
                    ActionView::SendOutcome(
                        OutcomeView { success, markdown, injected_into_turn: injected },
                    ),
                ],
            },
            _ => MonitorStep { monitor: self, registry, actions: Seq::<ActionView>::empty() },
        }
    }

    /// What a monitor does when the stream of the child ends: it removes the
    /// bridge and finishes, and asks for nothing.
    pub open spec fn on_stream_closed(self, registry: RegistryView) -> MonitorStep {
        MonitorStep {
            monitor: MonitorView { phase: PhaseView::Finished, ..self },
            registry: registry.remove(self.conversation_id),
            actions: Seq::<ActionView>::empty(),
        }
    }
}

/// What can be fed to a monitor.
pub enum MonitorInput {
    /// An event of the child, taken at `now_ms`.
    Event { event: EventView, now_ms: nat },
    /// The result of the injection that the monitor asked for.
    InjectionResult { injected: bool },
    /// The end of the stream of the child.
    StreamClosed,
}

/// What a monitor does about one input.
pub open spec fn step(monitor: MonitorView, registry: RegistryView, input: MonitorInput)
    -> MonitorStep {
    match input {
        MonitorInput::Event { event, now_ms } => monitor.on_event(event, now_ms, registry),
        MonitorInput::InjectionResult { injected } => monitor.on_injection_result(
            injected,
            registry,
        ),
        MonitorInput::StreamClosed => monitor.on_stream_closed(registry),
    }
}

/// The monitor and registry after `inputs` were fed in order, with all the
/// actions asked for on the way.
pub open spec fn run(monitor: MonitorView, registry: RegistryView, inputs: Seq<MonitorInput>)
    -> MonitorStep
    decreases inputs.len(),
{
    if inputs.len() == 0 {
        MonitorStep { monitor, registry, actions: Seq::<ActionView>::empty() }
    } else {
        let before = run(monitor, registry, inputs.drop_last());
        let last = step(before.monitor, before.registry, inputs.last());
        MonitorStep {
            monitor: last.monitor,
            registry: last.registry,
            actions: before.actions + last.actions,
        }
    }
}

/// Number of outcomes delivered by `actions`.
pub open spec fn outcome_count(actions: Seq<ActionView>) -> nat
    decreases actions.len(),
{
    if actions.len() == 0 {
        0
    } else {
        outcome_count(actions.drop_last()) + (if actions.last() is SendOutcome {
            1nat
        } else {
            0nat
        })
    }
}

/// The events of the child that `actions` pass on to the parent, in order.
pub open spec fn forwarded_events(actions: Seq<ActionView>) -> Seq<EventView>
    decreases actions.len(),
{
    if actions.len() == 0 {
        Seq::<EventView>::empty()
    } else {
        forwarded_events(actions.drop_last()) + (match actions.last() {
            ActionView::SendEvent(
                EventView { id, msg: EventMsgView::AgentEvent { agent_id, event } },
            ) => seq![*event],
            _ => Seq::<EventView>::empty(),
        })
    }
}

/// The events among `inputs` that reached the monitor while it was running,
/// in the order in which they came.
pub open spec fn followed_events(
    monitor: MonitorView,
    registry: RegistryView,
    inputs: Seq<MonitorInput>,
) -> Seq<EventView>
    decreases inputs.len(),
{
    if inputs.len() == 0 {
        Seq::<EventView>::empty()
    } else {
        let before = run(monitor, registry, inputs.drop_last());
        followed_events(monitor, registry, inputs.drop_last()) + (match inputs.last() {
            MonitorInput::Event { event, now_ms } => if before.monitor.phase is Running {
                seq![event]
            } else {
                Seq::<EventView>::empty()
            },
            _ => Seq::<EventView>::empty(),
        })
    }
}

/// Outcomes counted over two lists of actions add up.
pub proof fn lemma_outcome_count_add(first: Seq<ActionView>, second: Seq<ActionView>)
    ensures
        outcome_count(first + second) == outcome_count(first) + outcome_count(second),
    decreases second.len(),
{
    if second.len() == 0 {
        assert(first + second =~= first);
    } else {
        assert((first + second).drop_last() =~= first + second.drop_last());
        lemma_outcome_count_add(first, second.drop_last());
    }
}

/// Events passed on by two lists of actions follow each other.
pub proof fn lemma_forwarded_events_add(first: Seq<ActionView>, second: Seq<ActionView>)
    ensures
        forwarded_events(first + second) == forwarded_events(first) + forwarded_events(second),
    decreases second.len(),
{
    if second.len() == 0 {
        assert(first + second =~= first);
        assert(forwarded_events(first) + Seq::<EventView>::empty() =~= forwarded_events(first));
    } else {
        assert((first + second).drop_last() =~= first + second.drop_last());
        lemma_forwarded_events_add(first, second.drop_last());
        let tail = match second.last() {
            ActionView::SendEvent(
                EventView { id, msg: EventMsgView::AgentEvent { agent_id, event } },
            ) => seq![*event],
            _ => Seq::<EventView>::empty(),
        };
        assert(forwarded_events(first) + (forwarded_events(second.drop_last()) + tail)
            =~= (forwarded_events(first) + forwarded_events(second.drop_last())) + tail);
    }
}

/// A list of up to four actions that neither deliver an outcome nor pass an
/// event on counts for nothing in both respects.
proof fn lemma_plain_actions(actions: Seq<ActionView>)
    requires
        actions.len() <= 4,
        forall|i: int|
            0 <= i < actions.len() ==> !((#[trigger] actions[i]) is SendOutcome) && !(actions[i]
                matches ActionView::SendEvent(e) && e.msg is AgentEvent),
    ensures
        outcome_count(actions) == 0,
        forwarded_events(actions) == Seq::<EventView>::empty(),
    decreases actions.len(),
{
    if actions.len() > 0 {
        lemma_plain_actions(actions.drop_last());
        assert(forwarded_events(actions) =~= Seq::<EventView>::empty());
    }
}

/// What a single action counts for.
proof fn lemma_one_action(action: ActionView)
    ensures
        outcome_count(seq![action]) == (if action is SendOutcome {
            1nat
        } else {
            0nat
        }),
        forwarded_events(seq![action]) == (match action {
            ActionView::SendEvent(
                EventView { id, msg: EventMsgView::AgentEvent { agent_id, event } },
            ) => seq![*event],
            _ => Seq::<EventView>::empty(),
        }),
{
    let one = seq![action];
    assert(one.drop_last() =~= Seq::<ActionView>::empty());
    assert(one.last() == action);
    assert(outcome_count(one.drop_last()) == 0);
    assert(forwarded_events(one.drop_last()) =~= Seq::<EventView>::empty());
    let tail = match action {
        ActionView::SendEvent(
            EventView { id, msg: EventMsgView::AgentEvent { agent_id, event } },
        ) => seq![*event],
        _ => Seq::<EventView>::empty(),
    };
    assert(Seq::<EventView>::empty() + tail =~= tail);
}

/// What one input makes of the outcomes delivered, the events passed on and
/// the bridge of the child. No event of the child removes its bridge: only
/// the result of the injection and the end of the stream do.
pub proof fn lemma_step(monitor: MonitorView, registry: RegistryView, input: MonitorInput)
    ensures
        ({
            let after = step(monitor, registry, input);
            &&& after.monitor.agent_id == monitor.agent_id
            &&& after.monitor.parent_sub_id == monitor.parent_sub_id
            &&& after.monitor.conversation_id == monitor.conversation_id
            &&& outcome_count(after.actions) == (if monitor.phase is AwaitingInjection
                && input is InjectionResult {
                1nat
            } else {
                0nat
            })
            &&& outcome_count(after.actions) == 1 ==> after.monitor.phase is Finished
            &&& monitor.phase is Finished ==> after.monitor.phase is Finished
            &&& forwarded_events(after.actions) == (match input {
                MonitorInput::Event { event, now_ms } => if monitor.phase is Running {
                    seq![event]
                } else {
                    Seq::<EventView>::empty()
                },
                _ => Seq::<EventView>::empty(),
            })
            &&& after.monitor.phase is Finished && !(monitor.phase is Finished)
                ==> !after.registry.contains_key(monitor.conversation_id)
            &&& !registry.contains_key(monitor.conversation_id) ==> !after.registry.contains_key(
                monitor.conversation_id,
            )
            &&& input is Event ==> after.registry.contains_key(monitor.conversation_id)
                == registry.contains_key(monitor.conversation_id)
        }),
{
    let after = step(monitor, registry, input);
    match input {
        MonitorInput::Event { event, now_ms } => {
            if monitor.phase is Running {
                let reaction = monitor.react(event.msg, now_ms, registry);
                assert(reaction.actions.len() <= 3);
                lemma_plain_actions(reaction.actions);
                let first = seq![monitor.forward(event)];
                lemma_outcome_count_add(first, reaction.actions);
                lemma_forwarded_events_add(first, reaction.actions);
                lemma_one_action(monitor.forward(event));
                assert(seq![event] + Seq::<EventView>::empty() =~= seq![event]);
            } else {
                lemma_plain_actions(after.actions);
            }
        },
        MonitorInput::InjectionResult { injected } => {
            match monitor.phase {
                PhaseView::AwaitingInjection { success, markdown, notice } => {
                    let lead = if injected {
                        Seq::<ActionView>::empty()
                    } else {
                        seq![monitor.send(EventMsgView::BackgroundEvent { message: notice })]
                    };
                    let outcome = seq![
                        ActionView::SendOutcome(
                            OutcomeView { success, markdown, injected_into_turn: injected },
                        ),
                    ];
                    lemma_plain_actions(lead);
                    lemma_outcome_count_add(lead, outcome);
                    lemma_forwarded_events_add(lead, outcome);
                    lemma_one_action(outcome[0]);
                    assert(Seq::<EventView>::empty() + Seq::<EventView>::empty()
                        =~= Seq::<EventView>::empty());
                },
                _ => {
                    lemma_plain_actions(after.actions);
                },
            }
        },
        MonitorInput::StreamClosed => {
            lemma_plain_actions(after.actions);
        },
    }
}

/// Whatever is fed to a monitor that starts out running, it delivers at most
/// one outcome, and none before it has finished; and once it has finished,
/// with or without an outcome, the bridge of the child is gone from the
/// registry.
pub proof fn lemma_single_outcome(
    monitor: MonitorView,
    registry: RegistryView,
    inputs: Seq<MonitorInput>,
)
    requires
        monitor.phase is Running,
    ensures
        outcome_count(run(monitor, registry, inputs).actions) <= 1,
        outcome_count(run(monitor, registry, inputs).actions) == 1 ==> run(
            monitor,
            registry,
            inputs,
        ).monitor.phase is Finished,
        run(monitor, registry, inputs).monitor.phase is Finished ==> !run(
            monitor,
            registry,
            inputs,
        ).registry.contains_key(monitor.conversation_id),
        run(monitor, registry, inputs).monitor.conversation_id == monitor.conversation_id,
    decreases inputs.len(),
{
    if inputs.len() > 0 {
        let before = run(monitor, registry, inputs.drop_last());
        lemma_single_outcome(monitor, registry, inputs.drop_last());
        lemma_step(before.monitor, before.registry, inputs.last());
        lemma_outcome_count_add(
            before.actions,
            step(before.monitor, before.registry, inputs.last()).actions,
        );
    }
}

/// The events that a monitor passes on to the parent are the events that
/// reached it while it was running, each once and in the order in which
/// they came.
pub proof fn lemma_forwarding_keeps_order(
    monitor: MonitorView,
    registry: RegistryView,
    inputs: Seq<MonitorInput>,
)
    ensures
        forwarded_events(run(monitor, registry, inputs).actions) == followed_events(
            monitor,
            registry,
            inputs,
        ),
    decreases inputs.len(),
{
    if inputs.len() > 0 {
        let before = run(monitor, registry, inputs.drop_last());
        lemma_forwarding_keeps_order(monitor, registry, inputs.drop_last());
        lemma_step(before.monitor, before.registry, inputs.last());
        lemma_forwarded_events_add(
            before.actions,
            step(before.monitor, before.registry, inputs.last()).actions,
        );
    }
}

/// Number of progress messages sent by `actions`.
pub open spec fn progress_count(actions: Seq<ActionView>) -> nat
    decreases actions.len(),
{
    if actions.len() == 0 {
        0
    } else {
        progress_count(actions.drop_last()) + (match actions.last() {
            ActionView::SendEvent(
                EventView { id, msg: EventMsgView::AgentProgress { agent_id, message } },
            ) => 1nat,
            _ => 0nat,
        })
    }
}

/// What a list grown by one action counts for.
proof fn lemma_progress_push(actions: Seq<ActionView>, action: ActionView)
    ensures
        progress_count(actions.push(action)) == progress_count(actions) + (match action {
            ActionView::SendEvent(
                EventView { id, msg: EventMsgView::AgentProgress { agent_id, message } },
            ) => 1nat,
            _ => 0nat,
        }),
{
    assert(actions.push(action).drop_last() =~= actions);
}

/// A monitor sends at most one progress message for an event, and none for
/// an event that ends the child.
pub proof fn lemma_one_progress_per_event(
    monitor: MonitorView,
    event: EventView,
    now_ms: nat,
    registry: RegistryView,
)
    ensures
        progress_count(monitor.on_event(event, now_ms, registry).actions) <= 1,
        is_terminal(event.msg) ==> progress_count(
            monitor.on_event(event, now_ms, registry).actions,
        ) == 0,
{
    let actions = monitor.on_event(event, now_ms, registry).actions;
    let none = Seq::<ActionView>::empty();
    if monitor.phase is Running {
        let reaction = monitor.react(event.msg, now_ms, registry).actions;
        let first = none.push(monitor.forward(event));
        lemma_progress_push(none, monitor.forward(event));
        if reaction.len() == 0 {
            assert(actions =~= first);
        } else if reaction.len() == 1 {
            lemma_progress_push(first, reaction[0]);
            assert(actions =~= first.push(reaction[0]));
        } else {
            lemma_progress_push(first, reaction[0]);
            lemma_progress_push(first.push(reaction[0]), reaction[1]);
            lemma_progress_push(first.push(reaction[0]).push(reaction[1]), reaction[2]);
            assert(actions =~= first.push(reaction[0]).push(reaction[1]).push(reaction[2]));
        }
    }
}

/// The texts among `inputs` that a monitor offers to its budget, in order:
/// each delta, and each whole message with a line feed after it, that
/// reached the monitor while it was running.
pub open spec fn offered_texts(
    monitor: MonitorView,
    registry: RegistryView,
    inputs: Seq<MonitorInput>,
) -> Seq<Seq<char>>
    decreases inputs.len(),
{
    if inputs.len() == 0 {
        Seq::<Seq<char>>::empty()
    } else {
        let before = run(monitor, registry, inputs.drop_last());
        let earlier = offered_texts(monitor, registry, inputs.drop_last());
        match inputs.last() {
            MonitorInput::Event { event, now_ms } => if before.monitor.phase is Running {
                match event.msg {
                    EventMsgView::AgentMessageDelta { delta } => earlier.push(delta),
                    EventMsgView::AgentMessage { message } => earlier.push(message + "\n"@),
                    _ => earlier,
                }
            } else {
                earlier
            },
            _ => earlier,
        }
    }
}

/// The output that a monitor has collected is what its budget let through
/// of the texts offered to it, and the budget stands where those texts
/// have brought it. So the collected output of a monitor that started
/// fresh holds the truncation marker as the laws of the budget say.
pub proof fn lemma_collected_output(
    monitor: MonitorView,
    registry: RegistryView,
    inputs: Seq<MonitorInput>,
)
    ensures
        run(monitor, registry, inputs).monitor.budget == monitor.budget.accept_all(
            offered_texts(monitor, registry, inputs),
        ),
        run(monitor, registry, inputs).monitor.accumulated_output == monitor.accumulated_output
            + monitor.budget.assembled(offered_texts(monitor, registry, inputs)),
    decreases inputs.len(),
{
    if inputs.len() == 0 {
        assert(monitor.accumulated_output + Seq::<char>::empty() =~= monitor.accumulated_output);
    } else {
        let front = inputs.drop_last();
        let before = run(monitor, registry, front);
        let earlier = offered_texts(monitor, registry, front);
        lemma_collected_output(monitor, registry, front);
        let after = step(before.monitor, before.registry, inputs.last());
        let offered = offered_texts(monitor, registry, inputs);
        if offered != earlier {
            let text = offered.last();
            assert(offered.drop_last() =~= earlier);
            assert(after.monitor.budget == before.monitor.budget.accept(text));
            assert(after.monitor.accumulated_output == before.monitor.accumulated_output
                + before.monitor.budget.accepted_text(text));
            assert(monitor.accumulated_output + (monitor.budget.assembled(earlier)
                + before.monitor.budget.accepted_text(text)) =~= (monitor.accumulated_output
                + monitor.budget.assembled(earlier)) + before.monitor.budget.accepted_text(text));
        }
    }
}

/// However a child ends, its summary closes with the body, and the notice
/// that is sent when the summary cannot be injected closes with that same
/// body.
pub proof fn lemma_notice_carries_body(
    monitor: MonitorView,
    registry: RegistryView,
    msg: EventMsgView,
)
    requires
        is_terminal(msg),
    ensures
        crate::summary::ends_with(
            monitor.terminal_summary(msg, registry),
            monitor.terminal_body(msg, registry),
        ),
        crate::summary::ends_with(
            monitor.terminal_notice(msg, registry),
            monitor.terminal_body(msg, registry),
        ),
{
    let body = monitor.terminal_body(msg, registry);
    let summary = monitor.terminal_summary(msg, registry);
    let notice = monitor.terminal_notice(msg, registry);
    assert(summary.skip(summary.len() - body.len()) =~= body);
    assert(notice.skip(notice.len() - body.len()) =~= body);
}

/// The summary that a running monitor reports for a completed child has a
/// heading that ends with the truncation note exactly when the budget was
/// exhausted and the bridge carried no final markdown at that time.
pub proof fn lemma_heading_policy(
    monitor: MonitorView,
    registry: RegistryView,
    completion_message: Option<Seq<char>>,
)
    ensures
        monitor.terminal_summary(
            EventMsgView::TaskComplete { last_agent_message: completion_message },
            registry,
        ) == crate::summary::success_heading(monitor.agent_id, monitor.notes_truncation(registry))
            + "\n\n"@ + monitor.completion_body(completion_message, registry),
        crate::summary::ends_with(
            crate::summary::success_heading(monitor.agent_id, monitor.notes_truncation(registry)),
            crate::summary::truncation_note(),
        ) <==> (monitor.budget.truncated && monitor.bridge_final(registry) is None),
{
    crate::summary::lemma_heading_notes_truncation(
        monitor.agent_id,
        monitor.notes_truncation(registry),
    );
}

/// The views of a list grown by one action.
proof fn lemma_action_views_push(actions: Seq<MonitorAction>, action: MonitorAction)
    ensures
        action_views(actions.push(action)) == action_views(actions).push(action@),
{
    assert(action_views(actions.push(action)) =~= action_views(actions).push(action@));
}

/// The views of two lists joined.
proof fn lemma_action_views_add(first: Seq<MonitorAction>, second: Seq<MonitorAction>)
    ensures
        action_views(first + second) == action_views(first) + action_views(second),
{
    assert(action_views(first + second) =~= action_views(first) + action_views(second));
}

fn no_actions() -> (actions: Vec<MonitorAction>)
    ensures
        action_views(actions@) == Seq::<ActionView>::empty(),
{
    let actions: Vec<MonitorAction> = Vec::new();
    assert(action_views(actions@) =~= Seq::<ActionView>::empty());
    actions
}

fn one_action(action: MonitorAction) -> (actions: Vec<MonitorAction>)
    ensures
        action_views(actions@) == seq![action@],
{
    let mut actions: Vec<MonitorAction> = Vec::new();
    actions.push(action);
    assert(action_views(actions@) =~= seq![action@]);
    actions
}

/// Follows the events of one child agent.
pub struct EventMonitor {
    agent_id: String,
    parent_sub_id: String,
    conversation_id: ConversationId,
    budget: OutputBudget,
    accumulated_output: String,
    throttle: ProgressThrottle,
    last_message: Option<String>,
    phase: MonitorPhase,
}

impl View for EventMonitor {
    type V = MonitorView;

    closed spec fn view(&self) -> MonitorView {
        MonitorView {
            agent_id: self.agent_id@,
            parent_sub_id: self.parent_sub_id@,
            conversation_id: self.conversation_id@,
            budget: self.budget@,
            accumulated_output: self.accumulated_output@,
            throttle: self.throttle@,
            last_message: option_text(self.last_message),
            phase: self.phase@,
        }
    }
}

impl EventMonitor {
    /// The monitor of a child that has produced nothing yet, started at
    /// `now_ms`.
    pub fn new(
        agent_id: String,
        parent_sub_id: String,
        conversation_id: ConversationId,
        now_ms: u64,
    ) -> (m: EventMonitor)
        ensures
            m@ == MonitorView::fresh(agent_id@, parent_sub_id@, conversation_id@, now_ms as nat),
    {
        EventMonitor {
            agent_id,
            parent_sub_id,
            conversation_id,
            budget: OutputBudget::new(OUTPUT_TOKEN_CAP),
            accumulated_output: String::new(),
            throttle: ProgressThrottle::new(now_ms),
            last_message: None,
            phase: MonitorPhase::Running,
        }
    }

    /// The agent identifier of the child.
    pub fn agent_id(&self) -> (r: &String)
        ensures
            r@ == self@.agent_id,
    {
        &self.agent_id
    }

    /// The conversation of the child.
    pub fn conversation_id(&self) -> (r: ConversationId)
        ensures
            r@ == self@.conversation_id,
    {
        self.conversation_id
    }

    /// The output collected so far.
    pub fn accumulated_output(&self) -> (r: &String)
        ensures
            r@ == self@.accumulated_output,
    {
        &self.accumulated_output
    }

    /// Whether the collected output was cut short.
    pub fn is_truncated(&self) -> (r: bool)
        ensures
            r == self@.budget.truncated,
    {
        self.budget.is_truncated()
    }

    /// Whether the monitor still follows the events of the child.
    pub fn is_running(&self) -> (r: bool)
        ensures
            r == (self@.phase is Running),
    {
        match &self.phase {
            MonitorPhase::Running => true,
            _ => false,
        }
    }

    /// Whether the monitor waits for the result of an injection.
    pub fn is_awaiting_injection(&self) -> (r: bool)
        ensures
            r == (self@.phase is AwaitingInjection),
    {
        match &self.phase {
            MonitorPhase::AwaitingInjection { .. } => true,
            _ => false,
        }
    }

    /// Whether the monitor has finished.
    pub fn is_finished(&self) -> (r: bool)
        ensures
            r == (self@.phase is Finished),
    {
        match &self.phase {
            MonitorPhase::Finished => true,
            _ => false,
        }
    }

    fn send(&self, msg: EventMsg) -> (action: MonitorAction)
        ensures
            action@ == self@.send(msg@),
    {
        MonitorAction::SendEvent(Event { id: self.parent_sub_id.clone(), msg })
    }

    fn progress(&self, message: String) -> (action: MonitorAction)
        ensures
            action@ == self@.progress(message@),
    {
        self.send(EventMsg::AgentProgress { agent_id: self.agent_id.clone(), message })
    }

    fn progress_only(&self, message: String) -> (actions: Vec<MonitorAction>)
        ensures
            action_views(actions@) == seq![self@.progress(message@)],
    {
        one_action(self.progress(message))
    }

    /// Body of the summary of a completed child whose bridge carries no
    /// final markdown.
    fn fallback(&self, completion_message: &Option<String>) -> (body: String)
        ensures
            body@ == fallback_body(
                self@.accumulated_output,
                option_text(*completion_message),
                self@.last_message,
            ),
    {
        if !self.accumulated_output.as_str().is_empty() {
            self.accumulated_output.clone()
        } else {
            match completion_message {
                Some(m) => m.clone(),
                None => match &self.last_message {
                    Some(m) => m.clone(),
                    None => String::from_str("Child agent completed without returning a message."),
                },
            }
        }
    }

    /// Reports the end of the child to the parent and asks for the summary
    /// to be injected.
    fn resolve(&mut self, success: bool, summary: String, notice: String) -> (actions: Vec<
        MonitorAction,
    >)
        ensures
            final(self)@ == (MonitorView {
                phase: PhaseView::AwaitingInjection {
                    success,
                    markdown: summary@,
                    notice: notice@,
                },
                ..old(self)@
            }),
            action_views(actions@) == seq![
                old(self)@.send(
                    EventMsgView::AgentCompleted {
                        agent_id: old(self)@.agent_id,
                        success,
                        summary: summary@,
                    },
                ),
                ActionView::UnregisterChild { agent_id: old(self)@.agent_id },
                ActionView::InjectInput { text: summary@ },
            ],
    {
        let completed = self.send(
            EventMsg::AgentCompleted {
                agent_id: self.agent_id.clone(),
                success,
                summary: summary.clone(),
            },
        );
        let unregister = MonitorAction::UnregisterChild { agent_id: self.agent_id.clone() };
        let inject = MonitorAction::InjectInput { text: summary.clone() };
        let mut actions: Vec<MonitorAction> = Vec::new();
        actions.push(completed);
        actions.push(unregister);
        actions.push(inject);
        assert(action_views(actions@) =~= seq![completed@, unregister@, inject@]);
        self.phase = MonitorPhase::AwaitingInjection { success, markdown: summary, notice };
        actions
    }

    /// Resolves the completion of the child.
    fn complete(&mut self, completion_message: &Option<String>, registry: &mut BridgeRegistry) -> (
        actions: Vec<MonitorAction>)
        ensures
            (MonitorStep {
                monitor: final(self)@,
                registry: final(registry)@,
                actions: action_views(actions@),
            }) == old(self)@.react(
                EventMsgView::TaskComplete { last_agent_message: option_text(*completion_message) },
                0,
                old(registry)@,
            ),
    {
        let bridge_final = match registry.get(&self.conversation_id) {
            Some(bridge) => bridge.final_markdown(),
            None => None,
        };
        let note = self.budget.is_truncated() && bridge_final.is_none();
        let body = match bridge_final {
            Some(markdown) => markdown,
            None => {
                let body = self.fallback(completion_message);
                registry.set_final_markdown(&self.conversation_id, body.clone());
                body
            },
        };
        let summary = build_success_summary(self.agent_id.as_str(), note, body.as_str());
        let notice = build_success_notice(self.agent_id.as_str(), body.as_str());
        self.resolve(true, summary, notice)
    }

    /// What a running monitor does about an event, besides passing it on.
    fn react(&mut self, msg: &EventMsg, now_ms: u64, registry: &mut BridgeRegistry) -> (actions:
        Vec<MonitorAction>)
        ensures
            (MonitorStep {
                monitor: final(self)@,
                registry: final(registry)@,
                actions: action_views(actions@),
            }) == old(self)@.react(msg@, now_ms as nat, old(registry)@),
    {
        match msg {
            EventMsg::TaskStarted => self.progress_only(String::from_str("started")),
            EventMsg::AgentMessageDelta { delta } => {
                let accepted = self.budget.accept(delta.as_str());
                self.accumulated_output.append(accepted.as_str());
                match self.throttle.offer(delta.as_str(), now_ms) {
                    Some(text) => self.progress_only(text),
                    None => no_actions(),
                }
            },
            EventMsg::AgentMessage { message } => {
                let line = String::from_str(message.as_str()).concat("\n");
                let accepted = self.budget.accept(line.as_str());
                self.accumulated_output.append(accepted.as_str());
                self.last_message = Some(message.clone());
                let text = self.throttle.offer_final(message.as_str());
                self.progress_only(text)
            },
            EventMsg::ExecCommandBegin { command, cwd } => {
                let words = debug_list(command);
                self.progress_only(exec_begin_progress(words.as_str(), cwd.as_str()))
            },
            EventMsg::ExecCommandEnd { exit_code } => self.progress_only(
                exec_end_progress(*exit_code),
            ),
            EventMsg::McpToolCallBegin { server, tool } => self.progress_only(
                tool_begin_progress(server.as_str(), tool.as_str()),
            ),
            EventMsg::McpToolCallEnd { server, tool, success } => self.progress_only(
                tool_end_progress(server.as_str(), tool.as_str(), *success),
            ),
            EventMsg::TokenCount { tokens_in_context, model_context_window } => {
                match model_context_window {
                    Some(window) => self.progress_only(
                        context_left_progress(*tokens_in_context, *window),
                    ),
                    None => no_actions(),
                }
            },
            EventMsg::TaskComplete { last_agent_message } => self.complete(
                last_agent_message,
                registry,
            ),
            EventMsg::Error { message } => {
                let summary = build_error_summary(self.agent_id.as_str(), message.as_str());
                let notice = build_error_notice(self.agent_id.as_str(), message.as_str());
                self.resolve(false, summary, notice)
            },
            EventMsg::TurnAborted { reason } => {
                let summary = build_abort_summary(self.agent_id.as_str(), *reason);
                let notice = build_abort_notice(self.agent_id.as_str(), *reason);
                self.resolve(false, summary, notice)
            },
            _ => no_actions(),
        }
    }

    /// Takes an event of the child at time `now_ms`. A running monitor
    /// passes the event on to the parent and reacts to it; a monitor that
    /// is no longer running does nothing.
    pub fn on_event(&mut self, event: Event, now_ms: u64, registry: &mut BridgeRegistry) -> (actions:
        Vec<MonitorAction>)
        ensures
            (MonitorStep {
                monitor: final(self)@,
                registry: final(registry)@,
                actions: action_views(actions@),
            }) == old(self)@.on_event(event@, now_ms as nat, old(registry)@),
    {
        if !self.is_running() {
            return no_actions();
        }
        let ghost before = self@;
        let mut reactions = self.react(&event.msg, now_ms, registry);
        let forward = MonitorAction::SendEvent(
            Event {
                id: self.parent_sub_id.clone(),
                msg: EventMsg::AgentEvent {
                    agent_id: self.agent_id.clone(),
                    event: Box::new(event),
                },
            },
        );
        assert(forward@ == before.forward(event@));
        let mut actions = one_action(forward);
        proof {
            lemma_action_views_add(actions@, reactions@);
        }
        actions.append(&mut reactions);
        actions
    }

    /// Takes the result of the injection that the monitor asked for.
    pub fn on_injection_result(&mut self, injected: bool, registry: &mut BridgeRegistry) -> (actions:
        Vec<MonitorAction>)
        ensures
            (MonitorStep {
                monitor: final(self)@,
                registry: final(registry)@,
                actions: action_views(actions@),
            }) == old(self)@.on_injection_result(injected, old(registry)@),
    {
        let (success, markdown, notice) = match &self.phase {
            MonitorPhase::AwaitingInjection { success, markdown, notice } => (
                *success,
                markdown.clone(),
                notice.clone(),
            ),
            _ => {
                return no_actions();
            },
        };
        let mut actions = if injected {
            no_actions()
        } else {
            one_action(self.send(EventMsg::BackgroundEvent { message: notice }))
        };
        let outcome = MonitorAction::SendOutcome(
            SubagentOutcome { success, markdown, injected_into_turn: injected },
        );
        proof {
            lemma_action_views_push(actions@, outcome);
        }
        actions.push(outcome);
        registry.remove(&self.conversation_id);
        self.phase = MonitorPhase::Finished;
        assert(action_views(actions@) =~= old(self)@.on_injection_result(
            injected,
            old(registry)@,
        ).actions);
        actions
    }

    /// Takes the end of the stream of the child: removes the bridge and
    /// finishes.
    pub fn on_stream_closed(&mut self, registry: &mut BridgeRegistry)
        ensures
            (MonitorStep {
                monitor: final(self)@,
                registry: final(registry)@,
                actions: Seq::<ActionView>::empty(),
            }) == old(self)@.on_stream_closed(old(registry)@),
    {
        registry.remove(&self.conversation_id);
        self.phase = MonitorPhase::Finished;
    }
}

} // verus!
