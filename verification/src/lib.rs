//! Runtime core for a parent agent that spawns, supervises and collects the
//! results of child agents.

pub mod agent_meta;
pub mod agent_view;
pub mod bridge;
pub mod budget;
pub mod chat_text;
pub mod child_config;
pub mod config_profile;
pub mod events;
pub mod json;
pub mod monitor;
pub mod plan_tool;
pub mod profiles;
pub mod registry;
pub mod return_progress;
pub mod runtime;
pub mod spawn_agent;
pub mod spec;
pub mod subagent_state;
pub mod summary;
pub mod text;
pub mod throttle;
pub mod token_counter;
pub mod tools;
pub mod trim;
pub mod truncation;
pub mod validation;
