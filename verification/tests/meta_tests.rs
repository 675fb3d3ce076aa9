//! Tests of the agent overview data, of trimming and of the chat texts.

use codex_orchestrator::agent_meta::AgentMeta;
use codex_orchestrator::agent_meta::MAX_LOG_LINES;
use codex_orchestrator::agent_view::AgentStatus;
use codex_orchestrator::agent_view::AgentView;
use codex_orchestrator::chat_text::create_initial_user_message;
use codex_orchestrator::chat_text::extract_first_bold;
use codex_orchestrator::chat_text::get_limits_duration;
use codex_orchestrator::child_config::ParentConfig;
use codex_orchestrator::child_config::ReasoningEffort;
use codex_orchestrator::config_profile::AskForApproval;
use codex_orchestrator::config_profile::ConfigProfile;
use codex_orchestrator::config_profile::Profile;
use codex_orchestrator::config_profile::ReasoningSummary;
use codex_orchestrator::config_profile::Verbosity;
use codex_orchestrator::events::Event;
use codex_orchestrator::events::EventEmitter;
use codex_orchestrator::events::EventMsg;
use codex_orchestrator::events::TaggedEvent;
use codex_orchestrator::plan_tool::PlanItemArg;
use codex_orchestrator::plan_tool::StepStatus;
use codex_orchestrator::plan_tool::UpdatePlanArgs;
use codex_orchestrator::profiles::ProfileSelector;
use codex_orchestrator::trim::from_chars;
use codex_orchestrator::trim::read_u8;
use codex_orchestrator::trim::to_chars;
use codex_orchestrator::trim::trim_bounds;

/// The update of the overview as the standard library spells it.
fn reference_progress(meta: &mut AgentMeta, message: &str) {
    let trimmed = message.trim();
    if let Some(rest) = trimmed.strip_prefix("context left: ") {
        let percent_str = rest.trim().trim_end_matches('%');
        if let Ok(percent) = percent_str.parse::<u8>() {
            meta.context_percent = Some(percent);
        }
    } else if !trimmed.is_empty() {
        for line in trimmed.lines() {
            let line = line.trim_end();
            if line.is_empty() {
                continue;
            }
            meta.transcript.push(line.to_string());
        }
        if meta.transcript.len() > 40 {
            let overflow = meta.transcript.len() - 40;
            meta.transcript.drain(0..overflow);
        }
    }
}

#[test]
fn meta_of_a_spawned_agent() {
    let meta = AgentMeta::spawned(Some("agent-a".to_string()), "explore".to_string());
    assert_eq!(meta.profile.as_deref(), Some("agent-a"));
    assert_eq!(meta.purpose, "explore");
    assert_eq!(meta.status, None);
    assert_eq!(meta.last_summary, None);
    assert!(meta.transcript.is_empty());
    assert_eq!(meta.context_percent, None);
    assert_eq!(MAX_LOG_LINES, 40);
}

#[test]
fn meta_reads_the_context_left() {
    let mut meta = AgentMeta::default();
    meta.on_progress("context left: 42%");
    assert_eq!(meta.context_percent, Some(42));
    meta.on_progress("  context left:   7%%  \n");
    assert_eq!(meta.context_percent, Some(7));
    meta.on_progress("context left: +5");
    assert_eq!(meta.context_percent, Some(5));
    meta.on_progress("context left: 0255%");
    assert_eq!(meta.context_percent, Some(255));
    for unreadable in [
        "context left: 256%",
        "context left: 99999999999999999999%",
        "context left: -1%",
        "context left: %",
        "context left: 4 2%",
        "context left: 42 percent",
        "context left: ++1",
    ] {
        meta.on_progress(unreadable);
        assert_eq!(meta.context_percent, Some(255), "after {:?}", unreadable);
    }
    assert!(meta.transcript.is_empty());
    // the opening words must be there to the letter, after trimming
    meta.on_progress("context left:42%");
    meta.on_progress("context left: ");
    assert_eq!(meta.transcript, vec!["context left:42%", "context left:"]);
    assert_eq!(meta.context_percent, Some(255));
}

#[test]
fn meta_keeps_the_last_lines_of_progress() {
    let mut meta = AgentMeta::default();
    meta.on_progress("  first line  \n\n  second line \r\n\t\nthird\n  ");
    assert_eq!(meta.transcript, vec!["first line", "  second line", "third"]);
    meta.on_progress("   \n\t ");
    meta.on_progress("");
    assert_eq!(meta.transcript.len(), 3);
    for i in 0..50 {
        meta.on_progress(&format!("line {i}"));
    }
    assert_eq!(meta.transcript.len(), 40);
    assert_eq!(meta.transcript[0], "line 10");
    assert_eq!(meta.transcript[39], "line 49");
    let many: Vec<String> = (0..100).map(|i| format!("m{i}")).collect();
    meta.on_progress(&many.join("\n"));
    assert_eq!(meta.transcript.len(), 40);
    assert_eq!(meta.transcript[0], "m60");
}

#[test]
fn meta_agrees_with_the_standard_library() {
    let messages = [
        "started",
        " exec: [\"ls\"] in /tmp ",
        "context left: 50%",
        "context left: 101%",
        "context left: 300%",
        "context left:\u{a0}12%",
        "context left: 9\u{2003}",
        "\u{3000}wide space\u{3000}",
        "a\r\nb\rc\n\nd \n",
        "\n\nleading",
        "tab\tinside\t",
        "é\u{85}\nü",
        "",
        " ",
        "context left: 1%\nsecond line",
        "x\ncontext left: 3%",
    ];
    let mut ours = AgentMeta::default();
    let mut theirs = AgentMeta::default();
    for round in 0..12 {
        for message in messages {
            let message = format!("{message}{}", if round % 2 == 0 { "" } else { " \n" });
            ours.on_progress(&message);
            reference_progress(&mut theirs, &message);
            assert_eq!(ours.transcript, theirs.transcript, "after {:?}", message);
            assert_eq!(ours.context_percent, theirs.context_percent, "after {:?}", message);
        }
    }
}

#[test]
fn meta_of_a_completed_agent() {
    let mut meta = AgentMeta::spawned(None, "p".to_string());
    meta.on_progress("working");
    meta.on_completed(false, "### failed".to_string());
    assert_eq!(meta.status, Some(false));
    assert_eq!(meta.last_summary.as_deref(), Some("### failed"));
    assert_eq!(meta.transcript, vec!["working"]);
    meta.on_completed(true, "ok".to_string());
    assert_eq!(meta.status, Some(true));
    assert_eq!(meta.last_summary.as_deref(), Some("ok"));
}

#[test]
fn trimming_agrees_with_the_standard_library() {
    for sample in ["", " ", "a", " a ", "\t\na b\r\n", "\u{a0}x\u{2009}", "  \u{200b} ", "é "] {
        let chars = to_chars(sample);
        assert_eq!(chars, sample.chars().collect::<Vec<char>>());
        let (a, b) = trim_bounds(&chars, 0, chars.len());
        assert_eq!(from_chars(&chars, a, b), sample.trim(), "trim of {:?}", sample);
    }
}

#[test]
fn small_numbers_agree_with_the_standard_library() {
    for sample in
        ["", "+", "-", "0", "7", "+7", "-7", "007", "255", "256", "0256", "1000", "12a", "a12", " 1", "1 ", "٣", "+0", "++0", "99999999999999999999999999"]
    {
        let chars = to_chars(sample);
        assert_eq!(read_u8(&chars, 0, chars.len()), sample.parse::<u8>().ok(), "number of {:?}", sample);
    }
}

/// The first bold passage as a scan over the bytes finds it.
fn reference_first_bold(s: &str) -> Option<String> {
    let bytes = s.as_bytes();
    let mut i = 0usize;
    while i + 1 < bytes.len() {
        if bytes[i] == b'*' && bytes[i + 1] == b'*' {
            let start = i + 2;
            let mut j = start;
            while j + 1 < bytes.len() {
                if bytes[j] == b'*' && bytes[j + 1] == b'*' {
                    let inner = &s[start..j];
                    let trimmed = inner.trim();
                    if !trimmed.is_empty() {
                        return Some(trimmed.to_string());
                    } else {
                        return None;
                    }
                }
                j += 1;
            }
            return None;
        }
        i += 1;
    }
    None
}

#[test]
fn first_bold_passage() {
    assert_eq!(extract_first_bold("**Planning** the work"), Some("Planning".to_string()));
    assert_eq!(extract_first_bold("x ** spaced out ** y **second**"), Some("spaced out".to_string()));
    assert_eq!(extract_first_bold("**open only"), None);
    assert_eq!(extract_first_bold("****"), None);
    assert_eq!(extract_first_bold("**  **next**"), None);
    assert_eq!(extract_first_bold("no bold"), None);
    for sample in [
        "", "*", "**", "***", "****", "*****", "******", "**a**", "***a***", "a**b**c**d**",
        "**é**", "é**ü**", "** \u{a0}x\u{a0} **", "*a*b**c*d**", "**a*", "**a* *", "**a\n**b",
    ] {
        assert_eq!(extract_first_bold(sample), reference_first_bold(sample), "bold of {:?}", sample);
    }
}

#[test]
fn names_of_rate_limit_windows() {
    for (minutes, name) in [
        (0u64, "1h"),
        (56, "1h"),
        (57, "1h"),
        (60, "1h"),
        (117, "2h"),
        (299, "5h"),
        (300, "5h"),
        (1_440, "24h"),
        (1_443, "24h"),
        (1_444, "weekly"),
        (10_080, "weekly"),
        (10_083, "weekly"),
        (10_084, "monthly"),
        (43_203, "monthly"),
        (43_204, "annual"),
        (u64::MAX, "annual"),
    ] {
        assert_eq!(get_limits_duration(minutes), name, "window of {minutes} minutes");
    }
}

#[test]
fn first_message_of_a_session() {
    assert!(create_initial_user_message(String::new(), vec![]).is_none());
    let message = create_initial_user_message("hi".to_string(), vec![]).unwrap();
    assert_eq!(message.text, "hi");
    assert!(message.image_paths.is_empty());
    let message = create_initial_user_message(String::new(), vec!["a.png".to_string()]).unwrap();
    assert_eq!(message.text, "");
    assert_eq!(message.image_paths, vec!["a.png"]);
}

#[test]
fn profile_selection() {
    let config = ParentConfig {
        active_agent_profiles: vec!["agent-a".to_string(), "agent-b".to_string()],
        codex_home: String::new(),
        cwd: String::new(),
        codex_linux_sandbox_exe: None,
    };
    let selector = ProfileSelector::new(&config);
    assert_eq!(selector.available_profiles(), ["agent-a".to_string(), "agent-b".to_string()]);
    assert_eq!(selector.select_profile(Some("agent-b")), Some("agent-b".to_string()));
    assert_eq!(selector.select_profile(Some("missing")), Some("agent-a".to_string()));
    assert_eq!(selector.select_profile(None), Some("agent-a".to_string()));
    let empty = ProfileSelector::new(&ParentConfig {
        active_agent_profiles: vec![],
        codex_home: String::new(),
        cwd: String::new(),
        codex_linux_sandbox_exe: None,
    });
    assert!(empty.available_profiles().is_empty());
    assert_eq!(empty.select_profile(Some("agent-a")), None);
    assert_eq!(empty.select_profile(None), None);
}

#[test]
fn profile_for_a_client() {
    let config_profile = ConfigProfile {
        model: Some("m".to_string()),
        model_provider: Some("p".to_string()),
        approval_policy: Some(AskForApproval::OnRequest),
        model_reasoning_effort: Some(ReasoningEffort::High),
        model_reasoning_summary: Some(ReasoningSummary::Concise),
        model_verbosity: Some(Verbosity::Medium),
        chatgpt_base_url: Some("https://example.test".to_string()),
        experimental_instructions_file: Some("/tmp/instructions.md".to_string()),
        model_context_window: Some(200_000),
        model_max_output_tokens: Some(8_192),
        model_auto_compact_token_limit: Some(-1),
    };
    let profile = Profile::from(config_profile);
    assert_eq!(profile.model.as_deref(), Some("m"));
    assert_eq!(profile.model_provider.as_deref(), Some("p"));
    assert_eq!(profile.approval_policy, Some(AskForApproval::OnRequest));
    assert_eq!(profile.model_reasoning_effort, Some(ReasoningEffort::High));
    assert_eq!(profile.model_reasoning_summary, Some(ReasoningSummary::Concise));
    assert_eq!(profile.model_verbosity, Some(Verbosity::Medium));
    assert_eq!(profile.chatgpt_base_url.as_deref(), Some("https://example.test"));
    assert_eq!(profile.model_context_window, Some(200_000));
    assert_eq!(profile.model_max_output_tokens, Some(8_192));
    assert_eq!(profile.model_auto_compact_token_limit, Some(-1));
    let empty = Profile::from(ConfigProfile::default());
    assert!(empty.model.is_none());
    assert!(empty.approval_policy.is_none());
}

#[test]
fn view_of_an_agent() {
    let mut view = AgentView::new(
        "a1".to_string(),
        "Agent one".to_string(),
        17u32,
        Some("agent-a".to_string()),
        Some("main".to_string()),
        "explore".to_string(),
    );
    assert_eq!(view.status, AgentStatus::Active);
    assert!(!view.is_orchestrator());
    view.set_status(AgentStatus::Failed);
    assert_eq!(view.status, AgentStatus::Failed);
    assert_eq!(view.id, "a1");
    assert_eq!(view.name, "Agent one");
    assert_eq!(view.chat_widget, 17);
    assert_eq!(view.purpose, "explore");
    let main = AgentView::new("m".to_string(), "Main".to_string(), (), None, None, String::new());
    assert!(main.is_orchestrator());
}

#[test]
fn emitter_builds_events_under_the_submission() {
    let emitter = EventEmitter::new("sub-3".to_string());
    let spawned = emitter.agent_spawned(
        "a".to_string(),
        Some("main".to_string()),
        None,
        "explore".to_string(),
    );
    assert_eq!(spawned.id, "sub-3");
    match spawned.msg {
        EventMsg::AgentSpawned { agent_id, parent_id, profile, purpose } => {
            assert_eq!(agent_id, "a");
            assert_eq!(parent_id.as_deref(), Some("main"));
            assert_eq!(profile, None);
            assert_eq!(purpose, "explore");
        }
        other => panic!("unexpected {:?}", other),
    }
    let progress = emitter.agent_progress("a".to_string(), "half way".to_string());
    assert_eq!(progress.id, "sub-3");
    assert!(matches!(progress.msg, EventMsg::AgentProgress { agent_id, message } if agent_id == "a" && message == "half way"));
    let completed = emitter.agent_completed("a".to_string(), true, "done".to_string());
    assert_eq!(completed.id, "sub-3");
    assert!(matches!(completed.msg, EventMsg::AgentCompleted { agent_id, success, summary } if agent_id == "a" && success && summary == "done"));
    let tagged = TaggedEvent::new("a".to_string(), Event { id: "e".to_string(), msg: EventMsg::Other });
    assert_eq!(tagged.agent_id, "a");
    assert_eq!(tagged.event.id, "e");
}

#[test]
fn plan_arguments_hold_their_steps() {
    let args = UpdatePlanArgs {
        explanation: None,
        plan: vec![
            PlanItemArg { step: "read".to_string(), status: StepStatus::Completed },
            PlanItemArg { step: "write".to_string(), status: StepStatus::InProgress },
            PlanItemArg { step: "test".to_string(), status: StepStatus::Pending },
        ],
        agent_id: Some("a".to_string()),
    };
    assert_eq!(args.plan.len(), 3);
    assert_eq!(args.plan[1].status, StepStatus::InProgress);
    assert_eq!(args.clone().agent_id.as_deref(), Some("a"));
}

#[test]
fn message_from_a_text_alone() {
    let message = codex_orchestrator::chat_text::UserMessage::from_text("hello".to_string());
    assert_eq!(message.text, "hello");
    assert!(message.image_paths.is_empty());
}
