//! Tests of the event monitor, the spawn tool and the reverse call, alone
//! and together.

use codex_orchestrator::bridge::ConversationId;
use codex_orchestrator::child_config::ChildConfigPlan;
use codex_orchestrator::child_config::ParentConfig;
use codex_orchestrator::child_config::ReasoningEffort;
use codex_orchestrator::events::Event;
use codex_orchestrator::events::EventMsg;
use codex_orchestrator::events::TurnAbortReason;
use codex_orchestrator::monitor::EventMonitor;
use codex_orchestrator::monitor::MonitorAction;
use codex_orchestrator::monitor::SubagentOutcome;
use codex_orchestrator::registry::BridgeRegistry;
use codex_orchestrator::return_progress::ReturnProgressArgs;
use codex_orchestrator::return_progress::ReturnProgressError;
use codex_orchestrator::return_progress::ReturnProgressHandler;
use codex_orchestrator::spawn_agent::ChildCreation;
use codex_orchestrator::spawn_agent::ConfigStage;
use codex_orchestrator::spawn_agent::SpawnAction;
use codex_orchestrator::spawn_agent::SpawnAgentArgs;
use codex_orchestrator::spawn_agent::SpawnAgentHandler;
use codex_orchestrator::spawn_agent::SpawnError;
use codex_orchestrator::tools::ToolKind;
use codex_orchestrator::tools::ToolPayload;

const CHILD: u128 = 0xc0ffee;

fn parent_config(profiles: &[&str]) -> ParentConfig {
    ParentConfig {
        active_agent_profiles: profiles.iter().map(|p| p.to_string()).collect(),
        codex_home: "/home/.codex".to_string(),
        cwd: "/work".to_string(),
        codex_linux_sandbox_exe: Some("/bin/sandbox".to_string()),
    }
}

fn args(task_id: &str, profile: Option<&str>) -> SpawnAgentArgs {
    SpawnAgentArgs {
        task_id: task_id.to_string(),
        purpose: "test child".to_string(),
        prompt: "run and finish".to_string(),
        checklist: vec![],
        profile: profile.map(|p| p.to_string()),
    }
}

/// Spawns a child `X` under submission `sub-7` and returns its monitor.
fn spawn(registry: &mut BridgeRegistry) -> EventMonitor {
    let plan = SpawnAgentHandler::plan(Ok(args("X", None)), &parent_config(&[]), &vec![]).unwrap();
    let child = SpawnAgentHandler::register_child(
        plan,
        ChildCreation::Created { conversation_id: ConversationId::from_u128(CHILD) },
        1,
        "sub-7".to_string(),
        registry,
    )
    .unwrap();
    SpawnAgentHandler::start_monitor(child.ticket, Ok(()), 0, registry).unwrap()
}

fn event(msg: EventMsg) -> Event {
    Event { id: "child-turn".to_string(), msg }
}

fn progress_of(action: &MonitorAction) -> Option<(String, String, String)> {
    match action {
        MonitorAction::SendEvent(Event {
            id,
            msg: EventMsg::AgentProgress { agent_id, message },
        }) => Some((id.clone(), agent_id.clone(), message.clone())),
        _ => None,
    }
}

fn completed_of(action: &MonitorAction) -> Option<(String, bool, String)> {
    match action {
        MonitorAction::SendEvent(Event {
            id: _,
            msg: EventMsg::AgentCompleted { agent_id, success, summary },
        }) => Some((agent_id.clone(), *success, summary.clone())),
        _ => None,
    }
}

fn is_forward_of(action: &MonitorAction, inner_id: &str) -> bool {
    match action {
        MonitorAction::SendEvent(Event { id, msg: EventMsg::AgentEvent { agent_id, event } }) => {
            id == "sub-7" && agent_id == "X" && event.id == inner_id
        }
        _ => false,
    }
}

fn outcome_of(action: &MonitorAction) -> Option<&SubagentOutcome> {
    match action {
        MonitorAction::SendOutcome(outcome) => Some(outcome),
        _ => None,
    }
}

/// The single progress message that an event of a running child gives.
fn progress_for(msg: EventMsg) -> Option<String> {
    let mut registry = BridgeRegistry::new();
    let mut monitor = spawn(&mut registry);
    let actions = monitor.on_event(event(msg), 10, &mut registry);
    assert!(is_forward_of(&actions[0], "child-turn"));
    assert!(actions.len() <= 2);
    actions.get(1).map(|a| progress_of(a).unwrap().2)
}

#[test]
fn handlers_serve_function_calls() {
    assert_eq!(SpawnAgentHandler.kind(), ToolKind::Function);
    assert_eq!(ReturnProgressHandler.kind(), ToolKind::Function);
    let arguments =
        SpawnAgentHandler::arguments(ToolPayload::Function { arguments: "{}".to_string() });
    assert_eq!(arguments.unwrap(), "{}");
    match SpawnAgentHandler::arguments(ToolPayload::Other) {
        Err(e @ SpawnError::BadInvocation) => {
            assert_eq!(e.message(), "spawn_agent requires function arguments")
        }
        other => panic!("unexpected {:?}", other),
    }
    match ReturnProgressHandler::arguments(ToolPayload::Other) {
        Err(e @ ReturnProgressError::BadInvocation) => {
            assert_eq!(e.message(), "return_progress requires function arguments")
        }
        other => panic!("unexpected {:?}", other),
    }
    let arguments =
        ReturnProgressHandler::arguments(ToolPayload::Function { arguments: "{\"a\":1}".to_string() });
    assert_eq!(arguments.unwrap(), "{\"a\":1}");
}

#[test]
fn spawn_plan_reports_unreadable_arguments() {
    let r = SpawnAgentHandler::plan(Err("missing field `prompt`".to_string()), &parent_config(&[]), &vec![]);
    match r {
        Err(e @ SpawnError::BadArguments { .. }) => assert_eq!(
            e.message(),
            "Failed to parse spawn_agent arguments: missing field `prompt`"
        ),
        _ => panic!("arguments were accepted"),
    }
}

#[test]
fn spawn_plan_loads_an_installed_profile() {
    let installed = vec!["agent-a".to_string(), "agent-b".to_string()];
    let plan =
        SpawnAgentHandler::plan(Ok(args("t", Some("agent-b"))), &parent_config(&["agent-a"]), &installed)
            .unwrap();
    assert_eq!(plan.selected_profile, Some("agent-b".to_string()));
    assert_eq!(plan.args.task_id, "t");
    match plan.config {
        ChildConfigPlan::LoadProfile { codex_home, overrides } => {
            assert_eq!(codex_home, "/home/.codex");
            assert_eq!(overrides.cwd, Some("/work".to_string()));
            assert_eq!(overrides.config_profile, Some("agent-b".to_string()));
            assert_eq!(overrides.codex_linux_sandbox_exe, Some("/bin/sandbox".to_string()));
            assert_eq!(overrides.model_reasoning_effort, Some(ReasoningEffort::Low));
        }
        ChildConfigPlan::InheritParent { .. } => panic!("the profile was not loaded"),
    }
}

#[test]
fn spawn_plan_picks_the_first_profile_of_the_parent() {
    let plan =
        SpawnAgentHandler::plan(Ok(args("t", None)), &parent_config(&["agent-a", "agent-b"]), &vec![])
            .unwrap();
    assert_eq!(plan.selected_profile, Some("agent-a".to_string()));
    match plan.config {
        ChildConfigPlan::LoadProfile { overrides, .. } => {
            assert_eq!(overrides.config_profile, Some("agent-a".to_string()))
        }
        ChildConfigPlan::InheritParent { .. } => panic!("the profile was not loaded"),
    }
}

#[test]
fn spawn_plan_inherits_the_parent_otherwise() {
    for (profile, parent, installed) in [
        (None, vec![], vec!["x"]),
        (Some("missing"), vec!["agent-a"], vec!["agent-a"]),
        (Some("missing"), vec![], vec![]),
    ] {
        let installed: Vec<String> = installed.iter().map(|p| p.to_string()).collect();
        let plan =
            SpawnAgentHandler::plan(Ok(args("t", profile)), &parent_config(&parent), &installed)
                .unwrap();
        assert_eq!(plan.selected_profile, None);
        match plan.config {
            ChildConfigPlan::InheritParent { model_reasoning_effort } => {
                assert_eq!(model_reasoning_effort, ReasoningEffort::Low)
            }
            ChildConfigPlan::LoadProfile { .. } => panic!("a profile was loaded"),
        }
    }
}

#[test]
fn spawn_registers_the_bridge_before_the_prompt_is_submitted() {
    let mut registry = BridgeRegistry::new();
    let plan =
        SpawnAgentHandler::plan(Ok(args("child-1", Some("agent-a"))), &parent_config(&[]), &vec!["agent-a".to_string()])
            .unwrap();
    let id = ConversationId::from_u128(CHILD);
    let child = SpawnAgentHandler::register_child(
        plan,
        ChildCreation::Created { conversation_id: id },
        3,
        "sub-7".to_string(),
        &mut registry,
    )
    .unwrap();
    // the bridge is there while the prompt is still to be submitted
    let bridge = registry.get(&id).unwrap();
    assert_eq!(bridge.agent_id(), "child-1");
    assert_eq!(bridge.parent_sub_id(), "sub-7");
    assert_eq!(bridge.parent_handle(), 3);
    assert_eq!(bridge.final_markdown(), None);
    assert_eq!(child.actions.len(), 2);
    assert_eq!(child.ticket.agent_id, "child-1");
    assert_eq!(child.ticket.parent_sub_id, "sub-7");
    assert_eq!(child.ticket.conversation_id, id);
    // first the child is announced, then the prompt is submitted
    match &child.actions[0] {
        SpawnAction::SendEvent(Event {
            id,
            msg: EventMsg::AgentSpawned { agent_id, parent_id, profile, purpose },
        }) => {
            assert_eq!(id, "sub-7");
            assert_eq!(agent_id, "child-1");
            assert_eq!(parent_id.as_deref(), Some("orchestrator-main"));
            assert_eq!(profile.as_deref(), Some("agent-a"));
            assert_eq!(purpose, "test child");
        }
        other => panic!("unexpected {:?}", other),
    }
    match &child.actions[1] {
        SpawnAction::SubmitPrompt { prompt } => assert_eq!(prompt, "run and finish"),
        other => panic!("unexpected {:?}", other),
    }
    // a reverse call during the first response of the child finds the bridge
    let report = ReturnProgressHandler::handle(
        &mut registry,
        &id,
        Ok(ReturnProgressArgs { task_id: None, progress: "early".to_string(), is_final: false }),
        true,
    );
    assert!(report.is_ok());
    let monitor = SpawnAgentHandler::start_monitor(child.ticket, Ok(()), 5, &mut registry).unwrap();
    assert!(monitor.is_running());
    assert_eq!(monitor.agent_id(), "child-1");
    assert_eq!(monitor.conversation_id(), id);
    assert!(registry.contains(&id));
}

#[test]
fn spawn_failures_leave_no_bridge() {
    let id = ConversationId::from_u128(CHILD);
    let cases = [
        (
            ChildCreation::ConfigFailed { stage: ConfigStage::Load, reason: "no file".to_string() },
            "Failed to load config.toml for child agent: no file",
        ),
        (
            ChildCreation::ConfigFailed { stage: ConfigStage::Build, reason: "no profile".to_string() },
            "Failed to build child agent config for profile: no profile",
        ),
        (
            ChildCreation::CreateFailed { reason: "backend down".to_string() },
            "Failed to spawn child agent: backend down",
        ),
    ];
    for (creation, message) in cases {
        let mut registry = BridgeRegistry::new();
        let plan = SpawnAgentHandler::plan(Ok(args("X", None)), &parent_config(&[]), &vec![]).unwrap();
        let r = SpawnAgentHandler::register_child(plan, creation, 1, "sub".to_string(), &mut registry);
        assert_eq!(r.err().unwrap().message(), message);
        assert_eq!(registry.len(), 0);
    }
    // a conversation that already has a bridge
    let mut registry = BridgeRegistry::new();
    let _first = spawn(&mut registry);
    let plan = SpawnAgentHandler::plan(Ok(args("Y", None)), &parent_config(&[]), &vec![]).unwrap();
    let r = SpawnAgentHandler::register_child(
        plan,
        ChildCreation::Created { conversation_id: id },
        1,
        "sub".to_string(),
        &mut registry,
    );
    match r {
        Err(e @ SpawnError::RegistryInsertFailed { .. }) => {
            assert_eq!(
                e.message(),
                "Failed to register child agent bridge: the conversation already has a bridge"
            );
            match e {
                SpawnError::RegistryInsertFailed { conversation_id } => assert_eq!(conversation_id, id),
                _ => unreachable!(),
            }
        }
        _ => panic!("a second bridge was registered"),
    }
    assert_eq!(registry.get(&id).unwrap().agent_id(), "X");
}

#[test]
fn spawn_removes_the_bridge_when_the_prompt_is_not_submitted() {
    let mut registry = BridgeRegistry::new();
    let plan = SpawnAgentHandler::plan(Ok(args("X", None)), &parent_config(&[]), &vec![]).unwrap();
    let id = ConversationId::from_u128(CHILD);
    let child = SpawnAgentHandler::register_child(
        plan,
        ChildCreation::Created { conversation_id: id },
        1,
        "sub".to_string(),
        &mut registry,
    )
    .unwrap();
    assert!(registry.contains(&id));
    let r = SpawnAgentHandler::start_monitor(child.ticket, Err("closed".to_string()), 0, &mut registry);
    match r {
        Err(e) => assert_eq!(e.message(), "Failed to submit prompt to child agent: closed"),
        Ok(_) => panic!("a monitor was started"),
    }
    assert!(!registry.contains(&id));
}

#[test]
fn tool_output_reports_the_outcome_as_json() {
    let summary = "### Subagent `X` ✅\n\nline \"one\"\\\ttab\u{1}\u{1f}\u{7f}é";
    let outcome =
        SubagentOutcome { success: true, markdown: summary.to_string(), injected_into_turn: true };
    let output = SpawnAgentHandler::tool_output("X\"1", Some(outcome));
    assert_eq!(output.success, Some(true));
    let mut object = serde_json::Map::new();
    object.insert("agent_id".to_string(), serde_json::Value::String("X\"1".to_string()));
    object.insert("status".to_string(), serde_json::Value::String("completed".to_string()));
    object.insert("markdown_summary".to_string(), serde_json::Value::String(summary.to_string()));
    object.insert("injected_into_turn".to_string(), serde_json::Value::Bool(true));
    let expected = serde_json::Value::Object(object);
    assert_eq!(output.content, expected.to_string());
    let parsed: serde_json::Value = serde_json::from_str(&output.content).unwrap();
    assert_eq!(parsed, expected);
    assert!(output.content.contains("\\u0001\\u001f\u{7f}é"));

    let failed = SubagentOutcome { success: false, markdown: "m".to_string(), injected_into_turn: false };
    let output = SpawnAgentHandler::tool_output("X", Some(failed));
    assert_eq!(output.success, Some(false));
    assert_eq!(
        output.content,
        "{\"agent_id\":\"X\",\"injected_into_turn\":false,\"markdown_summary\":\"m\",\"status\":\"failed\"}"
    );
}

#[test]
fn stream_dies_silently() {
    let mut registry = BridgeRegistry::new();
    let mut monitor = spawn(&mut registry);
    let id = ConversationId::from_u128(CHILD);
    assert!(registry.contains(&id));
    monitor.on_stream_closed(&mut registry);
    assert!(monitor.is_finished());
    assert!(!registry.contains(&id));
    // nothing more comes out of a finished monitor
    assert!(monitor.on_event(event(EventMsg::TaskStarted), 1, &mut registry).is_empty());
    assert!(monitor.on_injection_result(true, &mut registry).is_empty());
    let output = SpawnAgentHandler::tool_output("X", None);
    assert_eq!(output.success, Some(false));
    assert!(output.content.starts_with("## Subagent `X` did not report a result"));
    assert_eq!(
        output.content,
        "## Subagent `X` did not report a result\n\nThe child agent terminated without a final outcome."
    );
}

#[test]
fn stream_closing_after_events_removes_the_bridge() {
    let mut registry = BridgeRegistry::new();
    let mut monitor = spawn(&mut registry);
    monitor.on_event(event(EventMsg::TaskStarted), 1, &mut registry);
    monitor.on_event(event(EventMsg::AgentMessageDelta { delta: "partial".to_string() }), 2, &mut registry);
    monitor.on_stream_closed(&mut registry);
    assert!(monitor.is_finished());
    assert_eq!(registry.len(), 0);
}

#[test]
fn return_progress_round_trip() {
    let mut registry = BridgeRegistry::new();
    let mut monitor = spawn(&mut registry);
    let id = ConversationId::from_u128(CHILD);

    let first = ReturnProgressHandler::handle(
        &mut registry,
        &id,
        Ok(ReturnProgressArgs { task_id: Some("X".to_string()), progress: "step 1".to_string(), is_final: false }),
        true,
    )
    .unwrap();
    assert_eq!(first.event.id, "sub-7");
    match &first.event.msg {
        EventMsg::AgentProgress { agent_id, message } => {
            assert_eq!(agent_id, "X");
            assert_eq!(message, "step 1");
        }
        other => panic!("unexpected {:?}", other),
    }
    assert_eq!(first.output.content, "{\"is_final\":false,\"status\":\"ok\"}");
    assert_eq!(first.output.success, Some(true));
    assert_eq!(registry.get(&id).unwrap().last_progress(), Some("step 1".to_string()));
    assert_eq!(registry.get(&id).unwrap().final_markdown(), None);

    let second = ReturnProgressHandler::handle(
        &mut registry,
        &id,
        Ok(ReturnProgressArgs { task_id: None, progress: "done".to_string(), is_final: true }),
        true,
    )
    .unwrap();
    match &second.event.msg {
        EventMsg::AgentProgress { message, .. } => assert_eq!(message, "done"),
        other => panic!("unexpected {:?}", other),
    }
    let mut expected = serde_json::Map::new();
    expected.insert("status".to_string(), serde_json::Value::String("ok".to_string()));
    expected.insert("is_final".to_string(), serde_json::Value::Bool(true));
    assert_eq!(second.output.content, serde_json::Value::Object(expected).to_string());

    monitor.on_event(event(EventMsg::AgentMessage { message: String::new() }), 1, &mut registry);
    let actions = monitor.on_event(
        event(EventMsg::TaskComplete { last_agent_message: Some("other".to_string()) }),
        2,
        &mut registry,
    );
    assert_eq!(actions.len(), 4);
    assert!(is_forward_of(&actions[0], "child-turn"));
    let (agent, success, summary) = completed_of(&actions[1]).unwrap();
    assert_eq!(agent, "X");
    assert!(success);
    assert_eq!(summary, "### Subagent `X` ✅\n\ndone");
    assert!(matches!(&actions[2], MonitorAction::UnregisterChild { agent_id } if agent_id == "X"));
    assert!(matches!(&actions[3], MonitorAction::InjectInput { text } if *text == summary));
    assert!(monitor.is_awaiting_injection());
    assert!(registry.contains(&id));

    let actions = monitor.on_injection_result(true, &mut registry);
    assert_eq!(actions.len(), 1);
    let outcome = outcome_of(&actions[0]).unwrap();
    assert!(outcome.success);
    assert_eq!(outcome.markdown, summary);
    assert!(outcome.injected_into_turn);
    assert!(monitor.is_finished());
    assert!(!registry.contains(&id));
}

#[test]
fn return_progress_refusals() {
    let mut registry = BridgeRegistry::new();
    let _monitor = spawn(&mut registry);
    let id = ConversationId::from_u128(CHILD);
    let call = |task: Option<&str>| ReturnProgressArgs {
        task_id: task.map(|t| t.to_string()),
        progress: "p".to_string(),
        is_final: true,
    };

    let r = ReturnProgressHandler::handle(&mut registry, &id, Err("expected value".to_string()), true);
    match r {
        Err(e @ ReturnProgressError::BadArguments { .. }) => {
            assert_eq!(e.message(), "Failed to parse return_progress arguments: expected value")
        }
        other => panic!("unexpected {:?}", other),
    }

    let stranger = ConversationId::from_u128(1);
    let r = ReturnProgressHandler::handle(&mut registry, &stranger, Ok(call(None)), true);
    match r {
        Err(e @ ReturnProgressError::NotASubagent) => {
            assert_eq!(e.message(), "return_progress can only be used by active subagents")
        }
        other => panic!("unexpected {:?}", other),
    }

    // the wrong task is reported before the vanished parent
    let r = ReturnProgressHandler::handle(&mut registry, &id, Ok(call(Some("Y"))), false);
    match r {
        Err(e @ ReturnProgressError::WrongAgent { .. }) => assert_eq!(
            e.message(),
            "return_progress task_id `Y` does not match active agent `X`"
        ),
        other => panic!("unexpected {:?}", other),
    }

    let r = ReturnProgressHandler::handle(&mut registry, &id, Ok(call(Some("X"))), false);
    match r {
        Err(e @ ReturnProgressError::ParentGone) => {
            assert_eq!(e.message(), "The parent agent is no longer active for this subagent")
        }
        other => panic!("unexpected {:?}", other),
    }

    // no refusal has written to the bridge
    let bridge = registry.get(&id).unwrap();
    assert_eq!(bridge.last_progress(), None);
    assert_eq!(bridge.final_markdown(), None);
}

#[test]
fn return_progress_accepts_empty_progress() {
    let mut registry = BridgeRegistry::new();
    let _monitor = spawn(&mut registry);
    let id = ConversationId::from_u128(CHILD);
    let report = ReturnProgressHandler::handle(
        &mut registry,
        &id,
        Ok(ReturnProgressArgs { task_id: None, progress: String::new(), is_final: true }),
        true,
    )
    .unwrap();
    match &report.event.msg {
        EventMsg::AgentProgress { agent_id, message } => {
            assert_eq!(agent_id, "X");
            assert_eq!(message, "");
        }
        other => panic!("unexpected {:?}", other),
    }
    let bridge = registry.get(&id).unwrap();
    assert_eq!(bridge.last_progress(), Some(String::new()));
    assert_eq!(bridge.final_markdown(), Some(String::new()));
}

#[test]
fn abort_propagation() {
    let mut registry = BridgeRegistry::new();
    let mut monitor = spawn(&mut registry);
    let id = ConversationId::from_u128(CHILD);
    monitor.on_event(event(EventMsg::TaskStarted), 1, &mut registry);
    let actions = monitor.on_event(
        event(EventMsg::TurnAborted { reason: TurnAbortReason::Interrupted }),
        2,
        &mut registry,
    );
    let (_, success, summary) = completed_of(&actions[1]).unwrap();
    assert!(!success);
    assert!(summary.starts_with("### Subagent `X` ⚠️"));
    assert!(summary.contains("interrupted by user"));
    assert_eq!(summary, "### Subagent `X` ⚠️\n\nThe subagent was interrupted by user.");
    let actions = monitor.on_injection_result(true, &mut registry);
    let outcome = outcome_of(&actions[0]).unwrap();
    assert!(!outcome.success);
    assert_eq!(outcome.markdown, summary);
    assert!(!registry.contains(&id));
}

#[test]
fn abort_reasons_are_worded() {
    for (reason, words) in [
        (TurnAbortReason::Interrupted, "interrupted by user"),
        (TurnAbortReason::Replaced, "replaced by another task"),
        (TurnAbortReason::ReviewEnded, "review ended"),
    ] {
        let mut registry = BridgeRegistry::new();
        let mut monitor = spawn(&mut registry);
        let actions = monitor.on_event(event(EventMsg::TurnAborted { reason }), 2, &mut registry);
        let (_, _, summary) = completed_of(&actions[1]).unwrap();
        assert_eq!(summary, format!("### Subagent `X` ⚠️\n\nThe subagent was {}.", words));
        let actions = monitor.on_injection_result(false, &mut registry);
        match &actions[0] {
            MonitorAction::SendEvent(Event { id, msg: EventMsg::BackgroundEvent { message } }) => {
                assert_eq!(id, "sub-7");
                assert_eq!(
                    *message,
                    format!("Subagent X aborted: The subagent was {}.", words)
                );
            }
            other => panic!("unexpected {:?}", other),
        }
    }
}

#[test]
fn error_ends_the_child_as_failed() {
    let mut registry = BridgeRegistry::new();
    let mut monitor = spawn(&mut registry);
    let actions =
        monitor.on_event(event(EventMsg::Error { message: "boom".to_string() }), 2, &mut registry);
    assert_eq!(actions.len(), 4);
    let (_, success, summary) = completed_of(&actions[1]).unwrap();
    assert!(!success);
    assert_eq!(summary, "### Subagent `X` ❌\n\nboom");
    let actions = monitor.on_injection_result(false, &mut registry);
    assert_eq!(actions.len(), 2);
    match &actions[0] {
        MonitorAction::SendEvent(Event { msg: EventMsg::BackgroundEvent { message }, .. }) => {
            assert_eq!(message, "Subagent X failed: boom")
        }
        other => panic!("unexpected {:?}", other),
    }
    let outcome = outcome_of(&actions[1]).unwrap();
    assert!(!outcome.success);
    assert!(!outcome.injected_into_turn);
    assert_eq!(outcome.markdown, summary);
}

#[test]
fn injection_failure_fallback() {
    let mut registry = BridgeRegistry::new();
    let mut monitor = spawn(&mut registry);
    let id = ConversationId::from_u128(CHILD);
    monitor.on_event(event(EventMsg::AgentMessage { message: "all done".to_string() }), 1, &mut registry);
    let actions =
        monitor.on_event(event(EventMsg::TaskComplete { last_agent_message: None }), 2, &mut registry);
    let (_, success, summary) = completed_of(&actions[1]).unwrap();
    assert!(success);
    assert_eq!(summary, "### Subagent `X` ✅\n\nall done\n");
    let actions = monitor.on_injection_result(false, &mut registry);
    assert_eq!(actions.len(), 2);
    match &actions[0] {
        MonitorAction::SendEvent(Event { id, msg: EventMsg::BackgroundEvent { message } }) => {
            assert_eq!(id, "sub-7");
            assert_eq!(
                message,
                "Subagent X completed but results could not be injected. Results: all done\n"
            );
        }
        other => panic!("unexpected {:?}", other),
    }
    let outcome = outcome_of(&actions[1]).unwrap();
    assert!(outcome.success);
    assert!(!outcome.injected_into_turn);
    assert_eq!(outcome.markdown, summary);
    assert!(!registry.contains(&id));
    // one outcome only
    assert!(monitor.on_injection_result(true, &mut registry).is_empty());
}

#[test]
fn completion_body_falls_back_in_order() {
    // the accumulated output comes first
    let mut registry = BridgeRegistry::new();
    let mut monitor = spawn(&mut registry);
    monitor.on_event(event(EventMsg::AgentMessageDelta { delta: "streamed".to_string() }), 1, &mut registry);
    let actions = monitor.on_event(
        event(EventMsg::TaskComplete { last_agent_message: Some("last".to_string()) }),
        2,
        &mut registry,
    );
    assert_eq!(completed_of(&actions[1]).unwrap().2, "### Subagent `X` ✅\n\nstreamed");
    // the body is left on the bridge
    let id = ConversationId::from_u128(CHILD);
    assert_eq!(registry.get(&id).unwrap().final_markdown(), Some("streamed".to_string()));

    // then the last message of the completion
    let mut registry = BridgeRegistry::new();
    let mut monitor = spawn(&mut registry);
    let actions = monitor.on_event(
        event(EventMsg::TaskComplete { last_agent_message: Some("last".to_string()) }),
        2,
        &mut registry,
    );
    assert_eq!(completed_of(&actions[1]).unwrap().2, "### Subagent `X` ✅\n\nlast");

    // then the fixed text
    let mut registry = BridgeRegistry::new();
    let mut monitor = spawn(&mut registry);
    let actions =
        monitor.on_event(event(EventMsg::TaskComplete { last_agent_message: None }), 2, &mut registry);
    assert_eq!(
        completed_of(&actions[1]).unwrap().2,
        "### Subagent `X` ✅\n\nChild agent completed without returning a message."
    );
}

#[test]
fn heading_notes_truncation_only_without_final_markdown() {
    let big = "y".repeat(40_000);

    let mut registry = BridgeRegistry::new();
    let mut monitor = spawn(&mut registry);
    monitor.on_event(event(EventMsg::AgentMessageDelta { delta: big.clone() }), 1, &mut registry);
    assert!(monitor.is_truncated());
    assert_eq!(
        monitor.accumulated_output().as_str(),
        format!("{}\n\n[Output truncated at 5k token limit]", "y".repeat(20_000))
    );
    let actions =
        monitor.on_event(event(EventMsg::TaskComplete { last_agent_message: None }), 2, &mut registry);
    let summary = completed_of(&actions[1]).unwrap().2;
    assert!(summary.starts_with("### Subagent `X` ✅ (output truncated to 5k tokens)\n\nyyyy"));
    assert_eq!(summary.matches("[Output truncated at 5k token limit]").count(), 1);

    let mut registry = BridgeRegistry::new();
    let mut monitor = spawn(&mut registry);
    let id = ConversationId::from_u128(CHILD);
    monitor.on_event(event(EventMsg::AgentMessageDelta { delta: big }), 1, &mut registry);
    registry.set_final_markdown(&id, "short answer".to_string());
    let actions =
        monitor.on_event(event(EventMsg::TaskComplete { last_agent_message: None }), 2, &mut registry);
    assert_eq!(completed_of(&actions[1]).unwrap().2, "### Subagent `X` ✅\n\nshort answer");

    let mut registry = BridgeRegistry::new();
    let mut monitor = spawn(&mut registry);
    monitor.on_event(event(EventMsg::AgentMessageDelta { delta: "small".to_string() }), 1, &mut registry);
    let actions =
        monitor.on_event(event(EventMsg::TaskComplete { last_agent_message: None }), 2, &mut registry);
    assert_eq!(completed_of(&actions[1]).unwrap().2, "### Subagent `X` ✅\n\nsmall");
}

#[test]
fn progress_lines_of_single_events() {
    assert_eq!(progress_for(EventMsg::TaskStarted), Some("started".to_string()));
    assert_eq!(
        progress_for(EventMsg::ExecCommandBegin {
            command: vec!["bash".to_string(), "-lc".to_string(), "echo \"hi\"\n".to_string()],
            cwd: "/tmp/work".to_string(),
        }),
        Some("exec: [\"bash\", \"-lc\", \"echo \\\"hi\\\"\\n\"] in /tmp/work".to_string())
    );
    assert_eq!(
        progress_for(EventMsg::ExecCommandBegin { command: vec![], cwd: String::new() }),
        Some("exec: [] in ".to_string())
    );
    assert_eq!(progress_for(EventMsg::ExecCommandEnd { exit_code: 0 }), Some("exec: exit 0".to_string()));
    assert_eq!(
        progress_for(EventMsg::ExecCommandEnd { exit_code: -127 }),
        Some("exec: exit -127".to_string())
    );
    assert_eq!(
        progress_for(EventMsg::ExecCommandEnd { exit_code: i32::MIN }),
        Some(format!("exec: exit {}", i32::MIN))
    );
    assert_eq!(
        progress_for(EventMsg::McpToolCallBegin { server: "files".to_string(), tool: "read".to_string() }),
        Some("tool: files.read".to_string())
    );
    assert_eq!(
        progress_for(EventMsg::McpToolCallEnd {
            server: "files".to_string(),
            tool: "read".to_string(),
            success: true
        }),
        Some("tool: files.read ok".to_string())
    );
    assert_eq!(
        progress_for(EventMsg::McpToolCallEnd {
            server: "files".to_string(),
            tool: "read".to_string(),
            success: false
        }),
        Some("tool: files.read failed".to_string())
    );
    assert_eq!(progress_for(EventMsg::Other), None);
    assert_eq!(progress_for(EventMsg::BackgroundEvent { message: "note".to_string() }), None);
}

#[test]
fn progress_lines_of_token_counts() {
    let line = |used: u64, window: Option<u64>| {
        progress_for(EventMsg::TokenCount { tokens_in_context: used, model_context_window: window })
    };
    assert_eq!(line(5_000, None), None);
    assert_eq!(line(5_000, Some(10_000)), Some("context left: 50%".to_string()));
    assert_eq!(line(0, Some(10_000)), Some("context left: 100%".to_string()));
    assert_eq!(line(10_000, Some(10_000)), Some("context left: 0%".to_string()));
    assert_eq!(line(20_000, Some(10_000)), Some("context left: 0%".to_string()));
    // 1 of 3 left is 33.3, 2 of 3 left is 66.7, 1 of 8 left is 12.5
    assert_eq!(line(2, Some(3)), Some("context left: 33%".to_string()));
    assert_eq!(line(1, Some(3)), Some("context left: 67%".to_string()));
    assert_eq!(line(7, Some(8)), Some("context left: 13%".to_string()));
    assert_eq!(line(1, Some(0)), Some("context left: 0%".to_string()));
    assert_eq!(line(0, Some(u64::MAX)), Some("context left: 100%".to_string()));
}

#[test]
fn deltas_are_throttled_and_whole_messages_are_not() {
    let mut registry = BridgeRegistry::new();
    let mut monitor = spawn(&mut registry);
    let delta = |text: &str| event(EventMsg::AgentMessageDelta { delta: text.to_string() });
    assert_eq!(monitor.on_event(delta("Hel"), 100, &mut registry).len(), 1);
    assert_eq!(monitor.on_event(delta("lo"), 200, &mut registry).len(), 1);
    let actions = monitor.on_event(
        event(EventMsg::AgentMessage { message: "whole".to_string() }),
        300,
        &mut registry,
    );
    assert_eq!(progress_of(&actions[1]).unwrap(), ("sub-7".to_string(), "X".to_string(), "whole".to_string()));
    let actions = monitor.on_event(delta(" world\n"), 400, &mut registry);
    assert_eq!(progress_of(&actions[1]).unwrap().2, "Hello world\n");
    let actions = monitor.on_event(delta("late"), 1_300, &mut registry);
    assert_eq!(progress_of(&actions[1]).unwrap().2, "late");
    assert_eq!(monitor.accumulated_output().as_str(), "Hellowhole\n world\nlate");
}

#[test]
fn events_are_passed_on_in_order() {
    let mut registry = BridgeRegistry::new();
    let mut monitor = spawn(&mut registry);
    let mut forwarded = Vec::new();
    let msgs = vec![
        EventMsg::TaskStarted,
        EventMsg::Other,
        EventMsg::AgentMessageDelta { delta: "a".to_string() },
        EventMsg::TokenCount { tokens_in_context: 1, model_context_window: None },
        EventMsg::AgentEvent {
            agent_id: "grandchild".to_string(),
            event: Box::new(Event { id: "inner".to_string(), msg: EventMsg::TaskStarted }),
        },
        EventMsg::TaskComplete { last_agent_message: None },
        EventMsg::TaskStarted,
    ];
    for (i, msg) in msgs.into_iter().enumerate() {
        let actions =
            monitor.on_event(Event { id: format!("e{}", i), msg }, i as u64, &mut registry);
        for action in actions {
            if let MonitorAction::SendEvent(Event { id, msg: EventMsg::AgentEvent { agent_id, event } }) =
                action
            {
                assert_eq!(id, "sub-7");
                assert_eq!(agent_id, "X");
                forwarded.push(event.id.clone());
            }
        }
    }
    // everything up to the completion, each once, and nothing after it
    assert_eq!(forwarded, vec!["e0", "e1", "e2", "e3", "e4", "e5"]);
}
