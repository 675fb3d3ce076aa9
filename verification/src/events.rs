//! Events that flow between a child agent, its monitor and the parent.

use vstd::prelude::*;
use vstd::string::*;

verus! {

/// The view of an optional text.
pub open spec fn option_text(o: Option<String>) -> Option<Seq<char>> {
    match o {
        Some(s) => Some(s@),
        None => None,
    }
}

/// The views of a list of texts.
pub open spec fn texts(v: Seq<String>) -> Seq<Seq<char>> {
    Seq::new(v.len(), |i: int| v[i]@)
}

/// A copy of an optional text.
pub fn clone_option_text(o: &Option<String>) -> (r: Option<String>)
    ensures
        option_text(r) == option_text(*o),
{
    match o {
        Some(s) => Some(s.clone()),
        None => None,
    }
}

/// Why a turn ended before it was complete.
#[derive(Clone, Copy, Debug, PartialEq, Eq, Structural)]
pub enum TurnAbortReason {
    Interrupted,
    Replaced,
    ReviewEnded,
}

/// An event with the identifier of the submission it answers.
#[derive(Debug)]
pub struct Event {
    pub id: String,
    pub msg: EventMsg,
}

/// What an event says.
#[derive(Debug)]
pub enum EventMsg {
    TaskStarted,
    AgentMessageDelta { delta: String },
    AgentMessage { message: String },
    AgentReasoningDelta { delta: String },
    AgentReasoning { text: String },
    AgentReasoningRawContentDelta { delta: String },
    AgentReasoningRawContent { text: String },
    AgentReasoningSectionBreak,
    ExecCommandBegin { command: Vec<String>, cwd: String },
    ExecCommandEnd { exit_code: i32 },
    McpToolCallBegin { server: String, tool: String },
    McpToolCallEnd { server: String, tool: String, success: bool },
    ViewImageToolCall,
    WebSearchBegin,
    WebSearchEnd { query: String },
    StreamError { message: String },
    TokenCount { tokens_in_context: u64, model_context_window: Option<u64> },
    TaskComplete { last_agent_message: Option<String> },
    Error { message: String },
    TurnAborted { reason: TurnAbortReason },
    BackgroundEvent { message: String },
    /// An event of a child agent, passed on to the parent.
    AgentEvent { agent_id: String, event: Box<Event> },
    AgentSpawned {
        agent_id: String,
        parent_id: Option<String>,
        profile: Option<String>,
        purpose: String,
    },
    AgentProgress { agent_id: String, message: String },
    AgentCompleted { agent_id: String, success: bool, summary: String },
    /// Any other kind of event; the orchestration core only passes it on.
    Other,
}

/// Abstract value of an [`Event`].
pub struct EventView {
    pub id: Seq<char>,
    pub msg: EventMsgView,
}

/// Abstract value of an [`EventMsg`].
pub enum EventMsgView {
    TaskStarted,
    AgentMessageDelta { delta: Seq<char> },
    AgentMessage { message: Seq<char> },
    AgentReasoningDelta { delta: Seq<char> },
    AgentReasoning { text: Seq<char> },
    AgentReasoningRawContentDelta { delta: Seq<char> },
    AgentReasoningRawContent { text: Seq<char> },
    AgentReasoningSectionBreak,
    ExecCommandBegin { command: Seq<Seq<char>>, cwd: Seq<char> },
    ExecCommandEnd { exit_code: int },
    McpToolCallBegin { server: Seq<char>, tool: Seq<char> },
    McpToolCallEnd { server: Seq<char>, tool: Seq<char>, success: bool },
    ViewImageToolCall,
    WebSearchBegin,
    WebSearchEnd { query: Seq<char> },
    StreamError { message: Seq<char> },
    TokenCount { tokens_in_context: nat, model_context_window: Option<nat> },
    TaskComplete { last_agent_message: Option<Seq<char>> },
    Error { message: Seq<char> },
    TurnAborted { reason: TurnAbortReason },
    BackgroundEvent { message: Seq<char> },
    AgentEvent { agent_id: Seq<char>, event: Box<EventView> },
    AgentSpawned {
        agent_id: Seq<char>,
        parent_id: Option<Seq<char>>,
        profile: Option<Seq<char>>,
        purpose: Seq<char>,
    },
    AgentProgress { agent_id: Seq<char>, message: Seq<char> },
    AgentCompleted { agent_id: Seq<char>, success: bool, summary: Seq<char> },
    Other,
}

/// The abstract value of an event.
pub open spec fn event_view(e: Event) -> EventView
    decreases e,
{
    EventView { id: e.id@, msg: msg_view(e.msg) }
}

/// The abstract value of what an event says.
pub open spec fn msg_view(m: EventMsg) -> EventMsgView
    decreases m,
{
    match m {
        EventMsg::TaskStarted => EventMsgView::TaskStarted,
        EventMsg::AgentMessageDelta { delta } => EventMsgView::AgentMessageDelta { delta: delta@ },
        EventMsg::AgentMessage { message } => EventMsgView::AgentMessage { message: message@ },
        EventMsg::AgentReasoningDelta { delta } => EventMsgView::AgentReasoningDelta {
            delta: delta@,
        },
        EventMsg::AgentReasoning { text } => EventMsgView::AgentReasoning { text: text@ },
        EventMsg::AgentReasoningRawContentDelta { delta } => {
            EventMsgView::AgentReasoningRawContentDelta { delta: delta@ }
        },
        EventMsg::AgentReasoningRawContent { text } => EventMsgView::AgentReasoningRawContent {
            text: text@,
        },
        EventMsg::AgentReasoningSectionBreak => EventMsgView::AgentReasoningSectionBreak,
        EventMsg::ExecCommandBegin { command, cwd } => EventMsgView::ExecCommandBegin {
            command: texts(command@),
            cwd: cwd@,
        },
        EventMsg::ExecCommandEnd { exit_code } => EventMsgView::ExecCommandEnd {
            exit_code: exit_code as int,
        },
        EventMsg::McpToolCallBegin { server, tool } => EventMsgView::McpToolCallBegin {
            server: server@,
            tool: tool@,
        },
        EventMsg::McpToolCallEnd { server, tool, success } => EventMsgView::McpToolCallEnd {
            server: server@,
            tool: tool@,
            success,
        },
        EventMsg::ViewImageToolCall => EventMsgView::ViewImageToolCall,
        EventMsg::WebSearchBegin => EventMsgView::WebSearchBegin,
        EventMsg::WebSearchEnd { query } => EventMsgView::WebSearchEnd { query: query@ },
        EventMsg::StreamError { message } => EventMsgView::StreamError { message: message@ },
        EventMsg::TokenCount { tokens_in_context, model_context_window } => {
            EventMsgView::TokenCount {
                tokens_in_context: tokens_in_context as nat,
                model_context_window: match model_context_window {
                    Some(w) => Some(w as nat),
                    None => None,
                },
            }
        },
        EventMsg::TaskComplete { last_agent_message } => EventMsgView::TaskComplete {
            last_agent_message: option_text(last_agent_message),
        },
        EventMsg::Error { message } => EventMsgView::Error { message: message@ },
        EventMsg::TurnAborted { reason } => EventMsgView::TurnAborted { reason },
        EventMsg::BackgroundEvent { message } => EventMsgView::BackgroundEvent {
            message: message@,
        },
        EventMsg::AgentEvent { agent_id, event } => EventMsgView::AgentEvent {
            agent_id: agent_id@,
            event: Box::new(event_view(*event)),
        },
        EventMsg::AgentSpawned { agent_id, parent_id, profile, purpose } => {
            EventMsgView::AgentSpawned {
                agent_id: agent_id@,
                parent_id: option_text(parent_id),
                profile: option_text(profile),
                purpose: purpose@,
            }
        },
        EventMsg::AgentProgress { agent_id, message } => EventMsgView::AgentProgress {
            agent_id: agent_id@,
            message: message@,
        },
        EventMsg::AgentCompleted { agent_id, success, summary } => EventMsgView::AgentCompleted {
            agent_id: agent_id@,
            success,
            summary: summary@,
        },
        EventMsg::Other => EventMsgView::Other,
    }
}

impl View for Event {
    type V = EventView;

    open spec fn view(&self) -> EventView {
        event_view(*self)
    }
}

impl View for EventMsg {
    type V = EventMsgView;

    open spec fn view(&self) -> EventMsgView {
        msg_view(*self)
    }
}

/// An event together with the agent it came from.
pub struct TaggedEvent {
    pub agent_id: String,
    pub event: Event,
}

impl TaggedEvent {
    pub fn new(agent_id: String, event: Event) -> (t: TaggedEvent)
        ensures
            t.agent_id == agent_id,
            t.event == event,
    {
        TaggedEvent { agent_id, event }
    }

    /// Tags an existing event with the agent it came from.
    pub fn tag(agent_id: String, event: Event) -> (t: TaggedEvent)
        ensures
            t.agent_id == agent_id,
            t.event == event,
    {
        TaggedEvent::new(agent_id, event)
    }
}

/// Builds the events by which the orchestrator reports on its agents, each
/// under the identifier of the parent's submission.
pub struct EventEmitter {
    parent_submit_id: String,
}

impl View for EventEmitter {
    type V = Seq<char>;

    closed spec fn view(&self) -> Seq<char> {
        self.parent_submit_id@
    }
}

impl EventEmitter {
    pub fn new(parent_submit_id: String) -> (e: EventEmitter)
        ensures
            e@ == parent_submit_id@,
    {
        EventEmitter { parent_submit_id }
    }

    pub fn agent_spawned(
        &self,
        agent_id: String,
        parent_id: Option<String>,
        profile: Option<String>,
        purpose: String,
    ) -> (event: Event)
        ensures
            event@ == (EventView {
                id: self@,
                msg: EventMsgView::AgentSpawned {
                    agent_id: agent_id@,
                    parent_id: option_text(parent_id),
                    profile: option_text(profile),
                    purpose: purpose@,
                },
            }),
    {
        Event {
            id: self.parent_submit_id.clone(),
            msg: EventMsg::AgentSpawned { agent_id, parent_id, profile, purpose },
        }
    }

    pub fn agent_progress(&self, agent_id: String, message: String) -> (event: Event)
        ensures
            event@ == (EventView {
                id: self@,
                msg: EventMsgView::AgentProgress { agent_id: agent_id@, message: message@ },
            }),
    {
        Event {
            id: self.parent_submit_id.clone(),
            msg: EventMsg::AgentProgress { agent_id, message },
        }
    }

    pub fn agent_completed(&self, agent_id: String, success: bool, summary: String) -> (event:
        Event)
        ensures
            event@ == (EventView {
                id: self@,
                msg: EventMsgView::AgentCompleted {
                    agent_id: agent_id@,
                    success,
                    summary: summary@,
                },
            }),
    {
        Event {
            id: self.parent_submit_id.clone(),
            msg: EventMsg::AgentCompleted { agent_id, success, summary },
        }
    }
}

} // verus!
