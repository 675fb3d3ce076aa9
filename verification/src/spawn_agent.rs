//! The `spawn_agent` tool: creates a child agent, links it to its parent by
//! a bridge, and hands the outcome of the child back as the result of the
//! call.
//!
//! The handler decides; its caller does the work in between. The steps come
//! in this order: read the arguments, plan the configuration of the child,
//! create the child conversation, register its bridge, send the event that
//! announces the child, submit the prompt, file the child with the parent,
//! start the monitor, wait for the outcome, and word the result.

use crate::bridge::{BridgeView, ChildAgentBridge, ConversationId};
use crate::child_config::{
    child_config_plan, plan_child_config, select_child_profile, selected_profile,
    ChildConfigPlan, ParentConfig,
};
use crate::events::{
    clone_option_text, option_text, texts, Event, EventMsg, EventMsgView, EventView,
};
use crate::json::{json_bool, json_bool_text, json_quote, json_string};
use crate::monitor::{EventMonitor, MonitorView, OutcomeView, SubagentOutcome};
use crate::registry::{registered, BridgeRegistry, RegistryView};
use crate::summary::{build_no_result_text, no_result_text};
use crate::tools::{ToolKind, ToolOutput, ToolOutputView, ToolPayload};
use vstd::prelude::*;
use vstd::string::*;

verus! {

/// Handler of the `spawn_agent` tool.
pub struct SpawnAgentHandler;

/// Arguments of a `spawn_agent` call.
#[derive(Debug)]
pub struct SpawnAgentArgs {
    /// Becomes the agent identifier of the child.
    pub task_id: String,
    pub purpose: String,
    pub prompt: String,
    /// Accepted and passed over.
    pub checklist: Vec<String>,
    pub profile: Option<String>,
}

/// The step at which the configuration of a child failed.
#[derive(Clone, Copy, Debug, PartialEq, Eq, Structural)]
pub enum ConfigStage {
    /// Reading the configuration file.
    Load,
    /// Building the configuration under the profile.
    Build,
}

/// Why a `spawn_agent` call failed before its child ran.
#[derive(Debug)]
pub enum SpawnError {
    /// The call carried no function arguments.
    BadInvocation,
    /// The arguments could not be read.
    BadArguments { reason: String },
    /// The configuration of the child could not be loaded or built.
    BadChildConfig { stage: ConfigStage, reason: String },
    /// The child conversation could not be created.
    ConversationCreateFailed { reason: String },
    /// The child conversation already has a bridge.
    RegistryInsertFailed { conversation_id: ConversationId },
    /// The prompt could not be submitted to the child.
    PromptSubmitFailed { reason: String },
}

/// Abstract value of a [`SpawnError`].
pub enum SpawnErrorView {
    BadInvocation,
    BadArguments { reason: Seq<char> },
    BadChildConfig { stage: ConfigStage, reason: Seq<char> },
    ConversationCreateFailed { reason: Seq<char> },
    RegistryInsertFailed { conversation_id: u128 },
    PromptSubmitFailed { reason: Seq<char> },
}

impl View for SpawnError {
    type V = SpawnErrorView;

    open spec fn view(&self) -> SpawnErrorView {
        match self {
            SpawnError::BadInvocation => SpawnErrorView::BadInvocation,
            SpawnError::BadArguments { reason } => SpawnErrorView::BadArguments { reason: reason@ },
            SpawnError::BadChildConfig { stage, reason } => SpawnErrorView::BadChildConfig {
                stage: *stage,
                reason: reason@,
            },
            SpawnError::ConversationCreateFailed { reason } => {
                SpawnErrorView::ConversationCreateFailed { reason: reason@ }
            },
            SpawnError::RegistryInsertFailed { conversation_id } => {
                SpawnErrorView::RegistryInsertFailed { conversation_id: conversation_id@ }
            },
            SpawnError::PromptSubmitFailed { reason } => SpawnErrorView::PromptSubmitFailed {
                reason: reason@,
            },
        }
    }
}

/// The message by which a failure is told to the model.
pub open spec fn failure_text(error: SpawnErrorView) -> Seq<char> {
    match error {
        SpawnErrorView::BadInvocation => "spawn_agent requires function arguments"@,
        SpawnErrorView::BadArguments { reason } => "Failed to parse spawn_agent arguments: "@
            + reason,
        SpawnErrorView::BadChildConfig { stage, reason } => match stage {
            ConfigStage::Load => "Failed to load config.toml for child agent: "@ + reason,
            ConfigStage::Build => "Failed to build child agent config for profile: "@ + reason,
        },
        SpawnErrorView::ConversationCreateFailed { reason } => "Failed to spawn child agent: "@
            + reason,
        SpawnErrorView::RegistryInsertFailed { conversation_id } => {
            "Failed to register child agent bridge: the conversation already has a bridge"@
        },
        SpawnErrorView::PromptSubmitFailed { reason } => {
            "Failed to submit prompt to child agent: "@ + reason
        },
    }
}

/// What was decided once the arguments were read: the arguments, the
/// profile that the child runs under, and how to build its configuration.
pub struct SpawnPlan {
    pub args: SpawnAgentArgs,
    pub selected_profile: Option<String>,
    pub config: ChildConfigPlan,
}

/// What came of building the configuration and creating the conversation
/// of the child.
#[derive(Debug)]
pub enum ChildCreation {
    ConfigFailed { stage: ConfigStage, reason: String },
    CreateFailed { reason: String },
    Created { conversation_id: ConversationId },
}

/// What names a child whose bridge is registered.
#[derive(Debug)]
pub struct ChildTicket {
    pub agent_id: String,
    pub parent_sub_id: String,
    pub conversation_id: ConversationId,
}

/// What the caller has to do for a child whose bridge is registered.
#[derive(Debug)]
pub enum SpawnAction {
    /// Send the event to the sink of the parent.
    SendEvent(Event),
    /// Submit the prompt to the child as the first input of the user.
    SubmitPrompt { prompt: String },
}

/// Abstract value of a [`SpawnAction`].
pub enum SpawnActionView {
    SendEvent(EventView),
    SubmitPrompt { prompt: Seq<char> },
}

impl View for SpawnAction {
    type V = SpawnActionView;

    open spec fn view(&self) -> SpawnActionView {
        match self {
            SpawnAction::SendEvent(event) => SpawnActionView::SendEvent(event@),
            SpawnAction::SubmitPrompt { prompt } => SpawnActionView::SubmitPrompt {
                prompt: prompt@,
            },
        }
    }
}

/// The abstract values of a list of actions.
pub open spec fn spawn_action_views(actions: Seq<SpawnAction>) -> Seq<SpawnActionView> {
    Seq::new(actions.len(), |i: int| actions[i]@)
}

/// A child whose bridge is registered, with what the caller has to do next,
/// in order: announce the child to the parent, then submit the prompt.
#[derive(Debug)]
pub struct SpawnedChild {
    pub ticket: ChildTicket,
    pub actions: Vec<SpawnAction>,
}

/// The agent that every spawned child names as its parent.
pub open spec fn orchestrator_id() -> Seq<char> {
    "orchestrator-main"@
}

/// The event that announces a child to its parent.
pub open spec fn spawned_event(
    parent_sub_id: Seq<char>,
    task_id: Seq<char>,
    profile: Option<Seq<char>>,
    purpose: Seq<char>,
) -> EventView {
    EventView {
        id: parent_sub_id,
        msg: EventMsgView::AgentSpawned {
            agent_id: task_id,
            parent_id: Some(orchestrator_id()),
            profile,
            purpose,
        },
    }
}

/// Why no child is registered, if none is: its configuration failed, its
/// conversation could not be created, or its conversation already has a
/// bridge.
pub open spec fn registration_failure(registry: RegistryView, creation: ChildCreation) -> Option<
    SpawnErrorView,
> {
    match creation {
        ChildCreation::ConfigFailed { stage, reason } => Some(
            SpawnErrorView::BadChildConfig { stage, reason: reason@ },
        ),
        ChildCreation::CreateFailed { reason } => Some(
            SpawnErrorView::ConversationCreateFailed { reason: reason@ },
        ),
        ChildCreation::Created { conversation_id } => if registry.contains_key(conversation_id@) {
            Some(SpawnErrorView::RegistryInsertFailed { conversation_id: conversation_id@ })
        } else {
            None
        },
    }
}

/// The JSON text that reports an outcome to the model.
pub open spec fn outcome_json(agent_id: Seq<char>, outcome: OutcomeView) -> Seq<char> {
    "{\"agent_id\":"@ + json_string(agent_id) + ",\"injected_into_turn\":"@ + json_bool(
        outcome.injected_into_turn,
    ) + ",\"markdown_summary\":"@ + json_string(outcome.markdown) + ",\"status\":"@ + (if outcome.success {
        "\"completed\""@
    } else {
        "\"failed\""@
    }) + "}"@
}

/// The result of the call: the outcome as JSON if one was delivered, else
/// the text that says that the child did not report a result.
pub open spec fn spawn_output(agent_id: Seq<char>, outcome: Option<OutcomeView>)
    -> ToolOutputView {
    match outcome {
        Some(o) => ToolOutputView { content: outcome_json(agent_id, o), success: Some(o.success) },
        None => ToolOutputView { content: no_result_text(agent_id), success: Some(false) },
    }
}

/// Once the bridge of a child is registered, and as long as nothing removes
/// it, a `return_progress` call from the conversation of the child finds the
/// bridge: it is never refused for want of one, whatever else it says.
pub proof fn lemma_register_before_submit(
    registry: RegistryView,
    bridge: BridgeView,
    task_id: Option<Seq<char>>,
    parent_alive: bool,
)
    requires
        !registry.contains_key(bridge.conversation_id),
    ensures
        crate::return_progress::refusal(
            registered(registry, bridge),
            bridge.conversation_id,
            task_id,
            parent_alive,
        ) != Some(crate::return_progress::ReturnProgressErrorView::NotASubagent),
        (task_id is None || task_id == Some(bridge.agent_id)) && parent_alive
            ==> crate::return_progress::refusal(
            registered(registry, bridge),
            bridge.conversation_id,
            task_id,
            parent_alive,
        ) is None,
{
}

impl SpawnError {
    /// The message by which the failure is told to the model.
    pub fn message(&self) -> (r: String)
        ensures
            r@ == failure_text(self@),
    {
        match self {
            SpawnError::BadInvocation => String::from_str(
                "spawn_agent requires function arguments",
            ),
            SpawnError::BadArguments { reason } => String::from_str(
                "Failed to parse spawn_agent arguments: ",
            ).concat(reason.as_str()),
            SpawnError::BadChildConfig { stage, reason } => match stage {
                ConfigStage::Load => String::from_str(
                    "Failed to load config.toml for child agent: ",
                ).concat(reason.as_str()),
                ConfigStage::Build => String::from_str(
                    "Failed to build child agent config for profile: ",
                ).concat(reason.as_str()),
            },
            SpawnError::ConversationCreateFailed { reason } => String::from_str(
                "Failed to spawn child agent: ",
            ).concat(reason.as_str()),
            SpawnError::RegistryInsertFailed { conversation_id } => String::from_str(
                "Failed to register child agent bridge: the conversation already has a bridge",
            ),
            SpawnError::PromptSubmitFailed { reason } => String::from_str(
                "Failed to submit prompt to child agent: ",
            ).concat(reason.as_str()),
        }
    }
}

impl SpawnAgentHandler {
    pub fn kind(&self) -> (k: ToolKind)
        ensures
            k == ToolKind::Function,
    {
        ToolKind::Function
    }

    /// The arguments of a call as JSON text. Any call but a function call
    /// is refused.
    pub fn arguments(payload: ToolPayload) -> (r: Result<String, SpawnError>)
        ensures
            match payload {
                ToolPayload::Function { arguments } => r is Ok && r->Ok_0@ == arguments@,
                ToolPayload::Other => r is Err && r->Err_0@ == SpawnErrorView::BadInvocation,
            },
    {
        match payload {
            ToolPayload::Function { arguments } => Ok(arguments),
            ToolPayload::Other => Err(SpawnError::BadInvocation),
        }
    }

    /// Plans the child, given the arguments as read from the JSON text, or
    /// the reason why they could not be read, the configuration of the
    /// parent and the profiles that are installed.
    pub fn plan(
        parsed: Result<SpawnAgentArgs, String>,
        parent: &ParentConfig,
        installed: &Vec<String>,
    ) -> (r: Result<SpawnPlan, SpawnError>)
        ensures
            match parsed {
                Err(reason) => r is Err && r->Err_0@ == (SpawnErrorView::BadArguments {
                    reason: reason@,
                }),
                Ok(args) => {
                    &&& r is Ok
                    &&& r->Ok_0.args == args
                    &&& option_text(r->Ok_0.selected_profile) == selected_profile(
                        option_text(args.profile),
                        texts(parent.active_agent_profiles@),
                        texts(installed@),
                    )
                    &&& r->Ok_0.config@ == child_config_plan(
                        parent.codex_home@,
                        parent.cwd@,
                        option_text(parent.codex_linux_sandbox_exe),
                        option_text(r->Ok_0.selected_profile),
                    )
                },
            },
    {
        match parsed {
            Err(reason) => Err(SpawnError::BadArguments { reason }),
            Ok(args) => {
                let selected = select_child_profile(
                    &args.profile,
                    &parent.active_agent_profiles,
                    installed,
                );
                let config = plan_child_config(parent, &selected);
                Ok(SpawnPlan { args, selected_profile: selected, config })
            },
        }
    }

    /// Registers the bridge of the child, given what came of building its
    /// configuration and creating its conversation. On success the bridge
    /// is in the registry, and the result says what to do next: announce
    /// the child to the parent, then submit the prompt. On failure the
    /// registry is unchanged.
    pub fn register_child(
        plan: SpawnPlan,
        creation: ChildCreation,
        parent_session: u64,
        parent_sub_id: String,
        registry: &mut BridgeRegistry,
    ) -> (r: Result<SpawnedChild, SpawnError>)
        ensures
            match registration_failure(old(registry)@, creation) {
                Some(error) => {
                    &&& r is Err
                    &&& r->Err_0@ == error
                    &&& final(registry)@ == old(registry)@
                },
                None => {
                    &&& r is Ok
                    &&& creation is Created
                    &&& final(registry)@ == old(registry)@.insert(
                        creation->conversation_id@,
                        BridgeView::fresh(
                            parent_session as nat,
                            plan.args.task_id@,
                            parent_sub_id@,
                            creation->conversation_id@,
                        ),
                    )
                    &&& r->Ok_0.ticket.agent_id@ == plan.args.task_id@
                    &&& r->Ok_0.ticket.parent_sub_id@ == parent_sub_id@
                    &&& r->Ok_0.ticket.conversation_id == creation->conversation_id
                    &&& spawn_action_views(r->Ok_0.actions@) == seq![
                        SpawnActionView::SendEvent(
                            spawned_event(
                                parent_sub_id@,
                                plan.args.task_id@,
                                option_text(plan.selected_profile),
                                plan.args.purpose@,
                            ),
                        ),
                        SpawnActionView::SubmitPrompt { prompt: plan.args.prompt@ },
                    ]
                },
            },
    {
        let conversation_id = match creation {
            ChildCreation::ConfigFailed { stage, reason } => {
                return Err(SpawnError::BadChildConfig { stage, reason });
            },
            ChildCreation::CreateFailed { reason } => {
                return Err(SpawnError::ConversationCreateFailed { reason });
            },
            ChildCreation::Created { conversation_id } => conversation_id,
        };
        let bridge = ChildAgentBridge::new(
            parent_session,
            plan.args.task_id.clone(),
            parent_sub_id.clone(),
            conversation_id,
        );
        match registry.register(bridge) {
            Err(_) => Err(SpawnError::RegistryInsertFailed { conversation_id }),
            Ok(_) => {
                let spawned = Event {
                    id: parent_sub_id.clone(),
                    msg: EventMsg::AgentSpawned {
                        agent_id: plan.args.task_id.clone(),
                        parent_id: Some(String::from_str("orchestrator-main")),
                        profile: clone_option_text(&plan.selected_profile),
                        purpose: plan.args.purpose,
                    },
                };
                let announce = SpawnAction::SendEvent(spawned);
                let submit = SpawnAction::SubmitPrompt { prompt: plan.args.prompt };
                let mut actions: Vec<SpawnAction> = Vec::new();
                actions.push(announce);
                actions.push(submit);
                assert(spawn_action_views(actions@) =~= seq![announce@, submit@]);
                Ok(
                    SpawnedChild {
                        ticket: ChildTicket {
                            agent_id: plan.args.task_id,
                            parent_sub_id,
                            conversation_id,
                        },
                        actions,
                    },
                )
            },
        }
    }

    /// Starts the monitor of the child at `now_ms`, given whether its
    /// prompt was submitted. If it was not, the bridge is removed again and
    /// the call fails.
    pub fn start_monitor(
        child: ChildTicket,
        submitted: Result<(), String>,
        now_ms: u64,
        registry: &mut BridgeRegistry,
    ) -> (r: Result<EventMonitor, SpawnError>)
        ensures
            match submitted {
                Ok(_) => {
                    &&& r is Ok
                    &&& r->Ok_0@ == MonitorView::fresh(
                        child.agent_id@,
                        child.parent_sub_id@,
                        child.conversation_id@,
                        now_ms as nat,
                    )
                    &&& final(registry)@ == old(registry)@
                },
                Err(reason) => {
                    &&& r is Err
                    &&& r->Err_0@ == (SpawnErrorView::PromptSubmitFailed { reason: reason@ })
                    &&& final(registry)@ == old(registry)@.remove(child.conversation_id@)
                },
            },
    {
        match submitted {
            Ok(_) => Ok(
                EventMonitor::new(
                    child.agent_id,
                    child.parent_sub_id,
                    child.conversation_id,
                    now_ms,
                ),
            ),
            Err(reason) => {
                registry.remove(&child.conversation_id);
                Err(SpawnError::PromptSubmitFailed { reason })
            },
        }
    }

    /// The result of the call, given the outcome that the monitor delivered,
    /// or none if the monitor ended without one.
    pub fn tool_output(agent_id: &str, outcome: Option<SubagentOutcome>) -> (output: ToolOutput)
        ensures
            output@ == spawn_output(
                agent_id@,
                match outcome {
                    Some(o) => Some(o@),
                    None => None,
                },
            ),
    {
        match outcome {
            Some(o) => {
                let id = json_quote(agent_id);
                let markdown = json_quote(o.markdown.as_str());
                let status = if o.success {
                    "\"completed\""
                } else {
                    "\"failed\""
                };
                let content = String::from_str("{\"agent_id\":").concat(id.as_str()).concat(
                    ",\"injected_into_turn\":",
                ).concat(json_bool_text(o.injected_into_turn)).concat(
                    ",\"markdown_summary\":",
                ).concat(markdown.as_str()).concat(",\"status\":").concat(status).concat("}");
                ToolOutput { content, success: Some(o.success) }
            },
            None => ToolOutput { content: build_no_result_text(agent_id), success: Some(false) },
        }
    }
}

} // verus!
