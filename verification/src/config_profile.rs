//! Profiles: options that a user defines as a unit in the configuration
//! file.

use crate::child_config::ReasoningEffort;
use vstd::prelude::*;
use vstd::std_specs::convert::FromSpecImpl;
use vstd::string::*;

verus! {

/// When to ask the user for approval.
#[derive(Debug, Clone, Copy, PartialEq, Eq, Structural)]
pub enum AskForApproval {
    UnlessTrusted,
    OnFailure,
    OnRequest,
    Never,
}

/// How much of its reasoning a model sums up.
#[derive(Debug, Clone, Copy, PartialEq, Eq, Structural)]
pub enum ReasoningSummary {
    Auto,
    Concise,
    Detailed,
    /// No summary at all.
    Off,
}

/// How wordy a model is.
#[derive(Debug, Clone, Copy, PartialEq, Eq, Structural)]
pub enum Verbosity {
    Low,
    Medium,
    High,
}

/// A profile as the configuration file holds it.
#[derive(Debug, Clone, Default)]
pub struct ConfigProfile {
    pub model: Option<String>,
    /// The key that names the provider of the model.
    pub model_provider: Option<String>,
    pub approval_policy: Option<AskForApproval>,
    pub model_reasoning_effort: Option<ReasoningEffort>,
    pub model_reasoning_summary: Option<ReasoningSummary>,
    pub model_verbosity: Option<Verbosity>,
    pub chatgpt_base_url: Option<String>,
    pub experimental_instructions_file: Option<String>,
    /// Size of the context window of the model, in tokens.
    pub model_context_window: Option<u64>,
    /// Largest number of output tokens.
    pub model_max_output_tokens: Option<u64>,
    /// Token usage at which the history is compacted.
    pub model_auto_compact_token_limit: Option<i64>,
}

/// A profile as it is handed to a client.
#[derive(Debug, Clone, Default)]
pub struct Profile {
    pub model: Option<String>,
    pub model_provider: Option<String>,
    pub approval_policy: Option<AskForApproval>,
    pub model_reasoning_effort: Option<ReasoningEffort>,
    pub model_reasoning_summary: Option<ReasoningSummary>,
    pub model_verbosity: Option<Verbosity>,
    pub chatgpt_base_url: Option<String>,
    pub model_context_window: Option<u64>,
    pub model_max_output_tokens: Option<u64>,
    pub model_auto_compact_token_limit: Option<i64>,
}

impl From<ConfigProfile> for Profile {
    fn from(config_profile: ConfigProfile) -> (profile: Profile) {
        Profile {
            model: config_profile.model,
            model_provider: config_profile.model_provider,
            approval_policy: config_profile.approval_policy,
            model_reasoning_effort: config_profile.model_reasoning_effort,
            model_reasoning_summary: config_profile.model_reasoning_summary,
            model_verbosity: config_profile.model_verbosity,
            chatgpt_base_url: config_profile.chatgpt_base_url,
            model_context_window: config_profile.model_context_window,
            model_max_output_tokens: config_profile.model_max_output_tokens,
            model_auto_compact_token_limit: config_profile.model_auto_compact_token_limit,
        }
    }
}

impl FromSpecImpl<ConfigProfile> for Profile {
    open spec fn obeys_from_spec() -> bool {
        true
    }

    /// The profile for a client holds every option of the profile of the
    /// configuration file but the instructions file.
    open spec fn from_spec(config_profile: ConfigProfile) -> Profile {
        Profile {
            model: config_profile.model,
            model_provider: config_profile.model_provider,
            approval_policy: config_profile.approval_policy,
            model_reasoning_effort: config_profile.model_reasoning_effort,
            model_reasoning_summary: config_profile.model_reasoning_summary,
            model_verbosity: config_profile.model_verbosity,
            chatgpt_base_url: config_profile.chatgpt_base_url,
            model_context_window: config_profile.model_context_window,
            model_max_output_tokens: config_profile.model_max_output_tokens,
            model_auto_compact_token_limit: config_profile.model_auto_compact_token_limit,
        }
    }
}

} // verus!
