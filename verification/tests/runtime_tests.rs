//! Tests of the orchestrator runtime.

use codex_orchestrator::bridge::ConversationId;
use codex_orchestrator::child_config::ParentConfig;
use codex_orchestrator::events::Event;
use codex_orchestrator::events::EventMsg;
use codex_orchestrator::runtime::AgentSpawner;
use codex_orchestrator::runtime::ContextUsage;
use codex_orchestrator::runtime::Orchestrator;
use codex_orchestrator::runtime::SubagentStatus;
use codex_orchestrator::spec::ChecklistItem;
use codex_orchestrator::spec::TaskSpec;

fn config(profiles: &[&str]) -> ParentConfig {
    ParentConfig {
        active_agent_profiles: profiles.iter().map(|p| p.to_string()).collect(),
        codex_home: "/home".to_string(),
        cwd: "/work".to_string(),
        codex_linux_sandbox_exe: None,
    }
}

fn task(id: &str, done: &[bool]) -> TaskSpec {
    let checklist = done
        .iter()
        .enumerate()
        .map(|(i, completed)| ChecklistItem { description: format!("Step {}", i + 1), completed: *completed })
        .collect();
    TaskSpec::with_id(id.to_string(), format!("purpose of {id}"), format!("prompt of {id}"), checklist)
}

fn orchestrator(profiles: &[&str]) -> Orchestrator {
    Orchestrator::new(ConversationId::from_u128(1), &config(profiles), "sub-1".to_string())
}

#[test]
fn runtime_starts_empty() {
    let o = orchestrator(&["agent-a"]);
    assert_eq!(o.active_child_count(), 0);
    assert!(o.all_children_done());
    assert_eq!(o.parent_conversation_id(), ConversationId::from_u128(1));
    assert!(o.list_subagent_contexts().is_empty());
    assert!(o.collect_outputs().is_empty());
    let summary = o.get_summary();
    assert_eq!(summary.total_agents, 0);
    assert_eq!(summary.total_items, 0);
}

#[test]
fn runtime_announces_a_child() {
    let o = orchestrator(&[]);
    let t = task("t1", &[]).with_profile("agent-b".to_string());
    let event = o.announce_child(&t);
    assert_eq!(event.id, "sub-1");
    match event.msg {
        EventMsg::AgentSpawned { agent_id, parent_id, profile, purpose } => {
            assert_eq!(agent_id, "t1");
            assert_eq!(parent_id.as_deref(), Some("orchestrator-main"));
            assert_eq!(profile.as_deref(), Some("agent-b"));
            assert_eq!(purpose, "purpose of t1");
        }
        other => panic!("unexpected {:?}", other),
    }
}

#[test]
fn runtime_spawns_and_completes_children() {
    let mut o = orchestrator(&[]);
    let (id, prompt) = o.spawn_child(task("t1", &[true, false]), ConversationId::from_u128(11));
    assert_eq!(id, "t1");
    assert_eq!(prompt, "prompt of t1");
    o.spawn_child(task("t2", &[true, true, true]), ConversationId::from_u128(12));
    assert_eq!(o.active_child_count(), 2);
    assert!(!o.all_children_done());
    // the same agent again takes the place of the first
    o.spawn_child(task("t1", &[true]), ConversationId::from_u128(13));
    assert_eq!(o.active_child_count(), 2);

    assert!(o.complete_child("nobody").is_none());
    assert_eq!(o.active_child_count(), 2);

    let event = o.complete_child("t2").unwrap();
    assert_eq!(event.id, "sub-1");
    match event.msg {
        EventMsg::AgentCompleted { agent_id, success, summary } => {
            assert_eq!(agent_id, "t2");
            assert!(success);
            assert_eq!(summary, "Completed 3/3 checklist items");
        }
        other => panic!("unexpected {:?}", other),
    }
    assert_eq!(o.active_child_count(), 1);
    assert!(o.complete_child("t2").is_none());

    let event = o.complete_child("t1").unwrap();
    match event.msg {
        EventMsg::AgentCompleted { success, summary, .. } => {
            assert!(success);
            assert_eq!(summary, "Completed 1/1 checklist items");
        }
        other => panic!("unexpected {:?}", other),
    }
    assert!(o.all_children_done());
    let summary = o.get_summary();
    assert_eq!(summary.total_agents, 2);
    assert_eq!(summary.successful_agents, 2);
    assert_eq!(summary.total_items, 4);
    assert_eq!(summary.completed_items, 4);
}

#[test]
fn runtime_reports_an_incomplete_checklist() {
    let mut o = orchestrator(&[]);
    o.spawn_child(task("t1", &[true, false, false]), ConversationId::from_u128(11));
    match o.complete_child("t1").unwrap().msg {
        EventMsg::AgentCompleted { success, summary, .. } => {
            assert!(!success);
            assert_eq!(summary, "Completed 1/3 checklist items");
        }
        other => panic!("unexpected {:?}", other),
    }
    let summary = o.get_summary();
    assert_eq!(summary.successful_agents, 0);
    assert_eq!(summary.completed_items, 1);
}

#[test]
fn runtime_tracks_children() {
    let mut o = orchestrator(&[]);
    o.spawn_child(task("t1", &[true]), ConversationId::from_u128(11));
    o.spawn_child(task("t2", &[true]), ConversationId::from_u128(12));
    assert!(!o.track_child("nobody"));
    assert!(o.get_subagent_context("t1").is_none());
    // updates of agents that are not tracked are dropped
    o.update_context_usage("t1", 5, Some(10));
    o.append_subagent_output("t1", "lost");
    o.mark_subagent_completed("t1", true);
    assert!(o.list_subagent_contexts().is_empty());

    assert!(o.track_child("t1"));
    assert!(o.track_child("t2"));
    let c = o.get_subagent_context("t1").unwrap();
    assert_eq!(c.agent_id, "t1");
    assert_eq!(c.conversation_id, ConversationId::from_u128(11));
    assert_eq!(c.status, SubagentStatus::Pending);
    assert_eq!(c.output_buffer, "");
    assert_eq!(c.completion_time, None);
    assert_eq!(c.task.id, "t1");

    o.update_context_usage("t1", 3_000, Some(10_000));
    o.append_subagent_output("t1", "Hello");
    o.append_subagent_output("t1", ", world");
    o.append_subagent_output("t2", "other");
    let c = o.get_subagent_context("t1").unwrap();
    assert_eq!(c.context_usage.tokens_used, 3_000);
    assert_eq!(c.context_usage.context_window, Some(10_000));
    assert_eq!(c.context_usage.context_display(), "subagent context = 3000/10000 (30%)");
    assert_eq!(c.output_buffer, "Hello, world");
    assert!(o.collect_outputs().is_empty());

    o.mark_subagent_completed("t1", true);
    o.mark_subagent_completed("t2", false);
    let contexts = o.list_subagent_contexts();
    assert_eq!(contexts.len(), 2);
    assert_eq!(contexts[0].agent_id, "t1");
    assert_eq!(contexts[0].status, SubagentStatus::Completed);
    assert!(contexts[0].completion_time.is_some());
    assert_eq!(contexts[1].agent_id, "t2");
    assert_eq!(contexts[1].status, SubagentStatus::Failed("Agent failed".to_string()));

    let outputs = o.collect_outputs();
    assert_eq!(outputs.len(), 1);
    assert_eq!(outputs[0].agent_id, "t1");
    assert_eq!(outputs[0].truncated_output, "Hello, world");
    assert_eq!(outputs[0].task_spec.id, "t1");
    assert_eq!(outputs[0].context_usage.tokens_used, 3_000);

    // tracking again starts over
    assert!(o.track_child("t1"));
    let c = o.get_subagent_context("t1").unwrap();
    assert_eq!(c.status, SubagentStatus::Pending);
    assert_eq!(c.output_buffer, "");
    assert_eq!(o.list_subagent_contexts().len(), 2);
}

#[test]
fn runtime_refuses_uneven_parallel_runs() {
    assert_eq!(Orchestrator::check_parallel(2, 2), Ok(()));
    assert_eq!(Orchestrator::check_parallel(0, 0), Ok(()));
    assert_eq!(
        Orchestrator::check_parallel(3, 12),
        Err("Task count (3) does not match config count (12)".to_string())
    );
}

#[test]
fn runtime_tags_events() {
    let o = orchestrator(&[]);
    let tagged = o
        .process_child_event("t1", Event { id: "e".to_string(), msg: EventMsg::TaskStarted })
        .unwrap();
    assert_eq!(tagged.agent_id, "t1");
    assert_eq!(tagged.event.id, "e");
    assert!(matches!(tagged.event.msg, EventMsg::TaskStarted));
}

#[test]
fn runtime_queues_tasks_with_a_profile() {
    let mut o = orchestrator(&["agent-a", "agent-b"]);
    o.enqueue_task(task("t1", &[]));
    o.enqueue_task(task("t2", &[]).with_profile("special".to_string()));
    let queued = o.queued_tasks();
    assert_eq!(queued.len(), 2);
    assert_eq!(queued[0].id, "t1");
    assert_eq!(queued[0].profile.as_deref(), Some("agent-a"));
    assert_eq!(queued[0].prompt, "prompt of t1");
    assert_eq!(queued[1].id, "t2");
    assert_eq!(queued[1].profile.as_deref(), Some("special"));
    let mut bare = orchestrator(&[]);
    bare.enqueue_task(task("t3", &[]));
    assert_eq!(bare.queued_tasks()[0].profile, None);
    assert_eq!(o.active_child_count(), 0);
}

#[test]
fn spawner_names_the_child_after_its_task() {
    let spawner = AgentSpawner::new("orchestrator-main".to_string());
    assert_eq!(spawner.parent_agent_id(), "orchestrator-main");
    let spawned = spawner.spawn_child(&task("t9", &[]), ConversationId::from_u128(9));
    assert_eq!(spawned.agent_id, "t9");
    assert_eq!(spawned.conversation_id, ConversationId::from_u128(9));
}

#[test]
fn context_usage_percentages_round_down() {
    let mut usage = ContextUsage::default();
    usage.tokens_used = 1;
    usage.context_window = Some(3);
    assert_eq!(usage.usage_percentage(), Some(33));
    usage.tokens_used = 2;
    assert_eq!(usage.usage_percentage(), Some(66));
    usage.tokens_used = u64::MAX;
    usage.context_window = Some(u64::MAX);
    assert_eq!(usage.usage_percentage(), Some(100));
    usage.context_window = Some(1);
    assert_eq!(usage.usage_percentage(), Some(100));
    assert_eq!(
        usage.context_display(),
        format!("subagent context = {}/1 (100%)", u64::MAX)
    );
    usage.tokens_used = 0;
    usage.context_window = Some(0);
    assert_eq!(usage.context_display(), "subagent context = 0/0 (100%)");
}
