//! Tests of conversation identifiers, bridges and the bridge registry.

use codex_orchestrator::bridge::ChildAgentBridge;
use codex_orchestrator::bridge::ConversationId;
use codex_orchestrator::registry::BridgeRegistry;
use codex_orchestrator::registry::RegistryError;
use codex_orchestrator::spec::TaskSpec;

fn bridge(id: u128, agent: &str) -> ChildAgentBridge {
    ChildAgentBridge::new(7, agent.to_string(), "sub-1".to_string(), ConversationId::from_u128(id))
}

#[test]
fn conversation_id_round_trip() {
    let id = ConversationId::from_u128(42);
    assert_eq!(id.as_u128(), 42);
    assert_eq!(id, ConversationId::from_u128(42));
    assert_ne!(id, ConversationId::from_u128(43));
}

#[test]
fn conversation_id_new_is_a_random_uuid() {
    let a = ConversationId::new();
    let b = ConversationId::new();
    assert_ne!(a, b);
    for id in [a, b] {
        let bits = id.as_u128();
        // version digit and variant digit
        assert_eq!((bits >> 76) & 0xf, 4);
        let variant = (bits >> 60) & 0xf;
        assert!((8..=11).contains(&variant));
    }
}

#[test]
fn task_identifier_is_a_hyphenated_uuid() {
    let task = TaskSpec::new("p".to_string(), "q".to_string(), vec![]);
    let id: Vec<char> = task.id.chars().collect();
    assert_eq!(id.len(), 36);
    for (i, c) in id.iter().enumerate() {
        if i == 8 || i == 13 || i == 18 || i == 23 {
            assert_eq!(*c, '-');
        } else {
            assert!(c.is_ascii_digit() || ('a'..='f').contains(c));
        }
    }
    assert_eq!(id[14], '4');
    assert!("89ab".contains(id[19]));
    assert!(task.profile.is_none());
    let other = TaskSpec::new("p".to_string(), "q".to_string(), vec![]);
    assert_ne!(task.id, other.id);
}

#[test]
fn bridge_starts_without_reports() {
    let b = bridge(1, "child-1");
    assert_eq!(b.agent_id(), "child-1");
    assert_eq!(b.parent_sub_id(), "sub-1");
    assert_eq!(b.conversation_id(), ConversationId::from_u128(1));
    assert_eq!(b.parent_handle(), 7);
    assert_eq!(b.last_progress(), None);
    assert_eq!(b.final_markdown(), None);
}

#[test]
fn bridge_parent_is_seen_only_while_alive() {
    let b = bridge(1, "child-1");
    assert_eq!(b.parent_session(true), Some(7));
    assert_eq!(b.parent_session(false), None);
}

#[test]
fn bridge_last_write_of_final_markdown_wins() {
    let mut b = bridge(1, "child-1");
    b.set_final_markdown("first".to_string());
    b.set_final_markdown("second".to_string());
    b.set_last_progress("working".to_string());
    b.set_final_markdown("third".to_string());
    assert_eq!(b.final_markdown(), Some("third".to_string()));
    assert_eq!(b.last_progress(), Some("working".to_string()));
}

#[test]
fn registry_register_and_get() {
    let mut registry = BridgeRegistry::new();
    assert_eq!(registry.len(), 0);
    assert!(registry.register(bridge(1, "a")).is_ok());
    assert!(registry.register(bridge(2, "b")).is_ok());
    assert_eq!(registry.len(), 2);
    let found = registry.get(&ConversationId::from_u128(2)).unwrap();
    assert_eq!(found.agent_id(), "b");
    assert_eq!(found.conversation_id(), ConversationId::from_u128(2));
    assert!(registry.get(&ConversationId::from_u128(3)).is_none());
    assert!(registry.contains(&ConversationId::from_u128(1)));
    assert!(!registry.contains(&ConversationId::from_u128(3)));
}

#[test]
fn registry_refuses_a_second_bridge_for_a_conversation() {
    let mut registry = BridgeRegistry::new();
    assert!(registry.register(bridge(1, "first")).is_ok());
    match registry.register(bridge(1, "second")) {
        Err(RegistryError::AlreadyRegistered { conversation_id }) => {
            assert_eq!(conversation_id, ConversationId::from_u128(1));
        }
        Ok(()) => panic!("a second bridge was registered"),
    }
    assert_eq!(registry.len(), 1);
    assert_eq!(registry.get(&ConversationId::from_u128(1)).unwrap().agent_id(), "first");
}

#[test]
fn registry_remove_is_idempotent() {
    let mut registry = BridgeRegistry::new();
    let id = ConversationId::from_u128(9);
    assert!(registry.register(bridge(9, "a")).is_ok());
    assert!(registry.register(bridge(10, "b")).is_ok());
    assert!(registry.remove(&id));
    assert!(registry.get(&id).is_none());
    assert!(!registry.remove(&id));
    assert!(registry.get(&id).is_none());
    assert_eq!(registry.len(), 1);
    // the conversation can be registered again after removal
    assert!(registry.register(bridge(9, "again")).is_ok());
    assert_eq!(registry.get(&id).unwrap().agent_id(), "again");
}

#[test]
fn registry_records_reports_on_the_bridge() {
    let mut registry = BridgeRegistry::new();
    let id = ConversationId::from_u128(5);
    assert!(!registry.set_last_progress(&id, "lost".to_string()));
    assert!(!registry.set_final_markdown(&id, "lost".to_string()));
    assert!(registry.register(bridge(5, "a")).is_ok());
    assert!(registry.set_last_progress(&id, "step".to_string()));
    assert!(registry.set_final_markdown(&id, "one".to_string()));
    assert!(registry.set_final_markdown(&id, "two".to_string()));
    let b = registry.get(&id).unwrap();
    assert_eq!(b.last_progress(), Some("step".to_string()));
    assert_eq!(b.final_markdown(), Some("two".to_string()));
    assert_eq!(b.agent_id(), "a");
    assert_eq!(registry.len(), 1);
}
