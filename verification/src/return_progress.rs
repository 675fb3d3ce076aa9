//! The `return_progress` tool: a child reports progress, or its final
//! result, to its parent through the bridge of its conversation.

use crate::bridge::ConversationId;
use crate::events::{option_text, Event, EventMsg, EventMsgView, EventView};
use crate::json::{json_bool, json_bool_text};
use crate::registry::{final_recorded, progress_recorded, BridgeRegistry, RegistryView};
use crate::tools::{ToolKind, ToolOutput, ToolOutputView, ToolPayload};
use vstd::prelude::*;
use vstd::string::*;

verus! {

/// Handler of the `return_progress` tool.
pub struct ReturnProgressHandler;

/// Arguments of a `return_progress` call.
#[derive(Debug)]
pub struct ReturnProgressArgs {
    pub task_id: Option<String>,
    pub progress: String,
    pub is_final: bool,
}

/// Why a `return_progress` call was refused.
#[derive(Debug)]
pub enum ReturnProgressError {
    /// The call carried no function arguments.
    BadInvocation,
    /// The arguments could not be read.
    BadArguments { reason: String },
    /// The calling conversation has no bridge.
    NotASubagent,
    /// The task named is not the one of the calling agent.
    WrongAgent { task_id: String, agent_id: String },
    /// The parent has vanished.
    ParentGone,
}

/// Abstract value of a [`ReturnProgressError`].
pub enum ReturnProgressErrorView {
    BadInvocation,
    BadArguments { reason: Seq<char> },
    NotASubagent,
    WrongAgent { task_id: Seq<char>, agent_id: Seq<char> },
    ParentGone,
}

impl View for ReturnProgressError {
    type V = ReturnProgressErrorView;

    open spec fn view(&self) -> ReturnProgressErrorView {
        match self {
            ReturnProgressError::BadInvocation => ReturnProgressErrorView::BadInvocation,
            ReturnProgressError::BadArguments { reason } => ReturnProgressErrorView::BadArguments {
                reason: reason@,
            },
            ReturnProgressError::NotASubagent => ReturnProgressErrorView::NotASubagent,
            ReturnProgressError::WrongAgent { task_id, agent_id } => {
                ReturnProgressErrorView::WrongAgent { task_id: task_id@, agent_id: agent_id@ }
            },
            ReturnProgressError::ParentGone => ReturnProgressErrorView::ParentGone,
        }
    }
}

/// What an accepted `return_progress` call leads to: the event to send to
/// the parent and the result to hand back to the child.
#[derive(Debug)]
pub struct ProgressReport {
    pub event: Event,
    pub output: ToolOutput,
}

/// The message by which a refusal is told to the model.
pub open spec fn refusal_text(error: ReturnProgressErrorView) -> Seq<char> {
    match error {
        ReturnProgressErrorView::BadInvocation => "return_progress requires function arguments"@,
        ReturnProgressErrorView::BadArguments { reason } => {
            "Failed to parse return_progress arguments: "@ + reason
        },
        ReturnProgressErrorView::NotASubagent => {
            "return_progress can only be used by active subagents"@
        },
        ReturnProgressErrorView::WrongAgent { task_id, agent_id } => {
            "return_progress task_id `"@ + task_id + "` does not match active agent `"@ + agent_id
                + "`"@
        },
        ReturnProgressErrorView::ParentGone => {
            "The parent agent is no longer active for this subagent"@
        },
    }
}

/// Why a call with arguments read is refused, if it is: the conversation
/// has no bridge; else the task named is not the one of the bridge; else the
/// parent has vanished.
pub open spec fn refusal(
    registry: RegistryView,
    conversation_id: u128,
    task_id: Option<Seq<char>>,
    parent_alive: bool,
) -> Option<ReturnProgressErrorView> {
    if !registry.contains_key(conversation_id) {
        Some(ReturnProgressErrorView::NotASubagent)
    } else if task_id is Some && task_id->0 != registry[conversation_id].agent_id {
        Some(
            ReturnProgressErrorView::WrongAgent {
                task_id: task_id->0,
                agent_id: registry[conversation_id].agent_id,
            },
        )
    } else if !parent_alive {
        Some(ReturnProgressErrorView::ParentGone)
    } else {
        None
    }
}

/// The registry after an accepted call: the progress is recorded as the
/// latest, and as the final markdown too if the call says it is final.
pub open spec fn reported(
    registry: RegistryView,
    conversation_id: u128,
    progress: Seq<char>,
    is_final: bool,
) -> RegistryView {
    let recorded = progress_recorded(registry, conversation_id, progress);
    if is_final {
        final_recorded(recorded, conversation_id, progress)
    } else {
        recorded
    }
}

/// The result handed back to the child for an accepted call.
pub open spec fn accepted_output(is_final: bool) -> ToolOutputView {
    ToolOutputView {
        content: "{\"is_final\":"@ + json_bool(is_final) + ",\"status\":\"ok\"}"@,
        success: Some(true),
    }
}

/// The event sent to the parent for an accepted call.
pub open spec fn progress_event(registry: RegistryView, conversation_id: u128, progress: Seq<char>)
    -> EventView {
    EventView {
        id: registry[conversation_id].parent_sub_id,
        msg: EventMsgView::AgentProgress {
            agent_id: registry[conversation_id].agent_id,
            message: progress,
        },
    }
}

impl ReturnProgressError {
    /// The message by which the refusal is told to the model.
    pub fn message(&self) -> (r: String)
        ensures
            r@ == refusal_text(self@),
    {
        match self {
            ReturnProgressError::BadInvocation => String::from_str(
                "return_progress requires function arguments",
            ),
            ReturnProgressError::BadArguments { reason } => String::from_str(
                "Failed to parse return_progress arguments: ",
            ).concat(reason.as_str()),
            ReturnProgressError::NotASubagent => String::from_str(
                "return_progress can only be used by active subagents",
            ),
            ReturnProgressError::WrongAgent { task_id, agent_id } => String::from_str(
                "return_progress task_id `",
            ).concat(task_id.as_str()).concat("` does not match active agent `").concat(
                agent_id.as_str(),
            ).concat("`"),
            ReturnProgressError::ParentGone => String::from_str(
                "The parent agent is no longer active for this subagent",
            ),
        }
    }
}

impl ReturnProgressHandler {
    pub fn kind(&self) -> (k: ToolKind)
        ensures
            k == ToolKind::Function,
    {
        ToolKind::Function
    }

    /// The arguments of a call as JSON text. Any call but a function call
    /// is refused.
    pub fn arguments(payload: ToolPayload) -> (r: Result<String, ReturnProgressError>)
        ensures
            match payload {
                ToolPayload::Function { arguments } => r is Ok && r->Ok_0@ == arguments@,
                ToolPayload::Other => r is Err && r->Err_0@
                    == ReturnProgressErrorView::BadInvocation,
            },
    {
        match payload {
            ToolPayload::Function { arguments } => Ok(arguments),
            ToolPayload::Other => Err(ReturnProgressError::BadInvocation),
        }
    }

    /// Serves a call of the child in conversation `conversation_id`, given
    /// its arguments as read from the JSON text, or the reason why they
    /// could not be read, and whether the parent of the bridge was found
    /// alive. An accepted call records the progress on the bridge; a
    /// refused one changes nothing.
    pub fn handle(
        registry: &mut BridgeRegistry,
        conversation_id: &ConversationId,
        parsed: Result<ReturnProgressArgs, String>,
        parent_alive: bool,
    ) -> (r: Result<ProgressReport, ReturnProgressError>)
        ensures
            match parsed {
                Err(reason) => {
                    &&& r is Err
                    &&& r->Err_0@ == ReturnProgressErrorView::BadArguments { reason: reason@ }
                    &&& final(registry)@ == old(registry)@
                },
                Ok(args) => match refusal(
                    old(registry)@,
                    conversation_id@,
                    option_text(args.task_id),
                    parent_alive,
                ) {
                    Some(error) => {
                        &&& r is Err
                        &&& r->Err_0@ == error
                        &&& final(registry)@ == old(registry)@
                    },
                    None => {
                        &&& r is Ok
                        &&& r->Ok_0.event@ == progress_event(
                            old(registry)@,
                            conversation_id@,
                            args.progress@,
                        )
                        &&& r->Ok_0.output@ == accepted_output(args.is_final)
                        &&& final(registry)@ == reported(
                            old(registry)@,
                            conversation_id@,
                            args.progress@,
                            args.is_final,
                        )
                    },
                },
            },
    {
        let args = match parsed {
            Ok(args) => args,
            Err(reason) => {
                return Err(ReturnProgressError::BadArguments { reason });
            },
        };
        let (agent_id, parent_sub_id) = match registry.get(conversation_id) {
            Some(bridge) => (bridge.agent_id().clone(), bridge.parent_sub_id().clone()),
            None => {
                return Err(ReturnProgressError::NotASubagent);
            },
        };
        match &args.task_id {
            Some(task_id) => {
                if !(*task_id == agent_id) {
                    return Err(
                        ReturnProgressError::WrongAgent { task_id: task_id.clone(), agent_id },
                    );
                }
            },
            None => {},
        }
        if !parent_alive {
            return Err(ReturnProgressError::ParentGone);
        }
        registry.set_last_progress(conversation_id, args.progress.clone());
        if args.is_final {
            registry.set_final_markdown(conversation_id, args.progress.clone());
        }
        let event = Event {
            id: parent_sub_id,
            msg: EventMsg::AgentProgress { agent_id, message: args.progress },
        };
        let content = String::from_str("{\"is_final\":").concat(
            json_bool_text(args.is_final),
        ).concat(",\"status\":\"ok\"}");
        Ok(ProgressReport { event, output: ToolOutput { content, success: Some(true) } })
    }
}

} // verus!
