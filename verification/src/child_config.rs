//! Child configuration: how the configuration of a child conversation is
//! derived from that of its parent and from the profile asked for.

use crate::events::{clone_option_text, option_text, texts};
use vstd::prelude::*;
use vstd::string::*;

verus! {

/// How much reasoning a model is asked for.
#[derive(Clone, Copy, Debug, PartialEq, Eq, Structural)]
pub enum ReasoningEffort {
    Minimal,
    Low,
    Medium,
    High,
}

/// What the derivation reads of the configuration of the parent.
pub struct ParentConfig {
    /// The profiles that the parent declares for its children, in order.
    pub active_agent_profiles: Vec<String>,
    /// Where the configuration file lives.
    pub codex_home: String,
    pub cwd: String,
    pub codex_linux_sandbox_exe: Option<String>,
}

/// The settings forced on a configuration loaded afresh.
pub struct ConfigOverrides {
    pub cwd: Option<String>,
    pub config_profile: Option<String>,
    pub codex_linux_sandbox_exe: Option<String>,
    pub model_reasoning_effort: Option<ReasoningEffort>,
}

/// How to build the configuration of a child.
pub enum ChildConfigPlan {
    /// Load the configuration file under `codex_home` afresh and apply the
    /// overrides, among them the profile.
    LoadProfile { codex_home: String, overrides: ConfigOverrides },
    /// Copy the configuration of the parent and force the reasoning effort.
    InheritParent { model_reasoning_effort: ReasoningEffort },
}

/// Abstract value of a [`ChildConfigPlan`].
#[allow(inconsistent_fields)]
pub enum ChildConfigPlanView {
    LoadProfile {
        codex_home: Seq<char>,
        cwd: Option<Seq<char>>,
        config_profile: Option<Seq<char>>,
        codex_linux_sandbox_exe: Option<Seq<char>>,
        model_reasoning_effort: Option<ReasoningEffort>,
    },
    InheritParent { model_reasoning_effort: ReasoningEffort },
}

impl View for ChildConfigPlan {
    type V = ChildConfigPlanView;

    open spec fn view(&self) -> ChildConfigPlanView {
        match self {
            ChildConfigPlan::LoadProfile { codex_home, overrides } => {
                ChildConfigPlanView::LoadProfile {
                    codex_home: codex_home@,
                    cwd: option_text(overrides.cwd),
                    config_profile: option_text(overrides.config_profile),
                    codex_linux_sandbox_exe: option_text(overrides.codex_linux_sandbox_exe),
                    model_reasoning_effort: overrides.model_reasoning_effort,
                }
            },
            ChildConfigPlan::InheritParent { model_reasoning_effort } => {
                ChildConfigPlanView::InheritParent {
                    model_reasoning_effort: *model_reasoning_effort,
                }
            },
        }
    }
}

/// The profile that a child runs under: the one asked for if it is
/// installed; the first that the parent declares for its children if none
/// was asked for; none otherwise.
pub open spec fn selected_profile(
    requested: Option<Seq<char>>,
    parent_profiles: Seq<Seq<char>>,
    installed: Seq<Seq<char>>,
) -> Option<Seq<char>> {
    match requested {
        Some(profile) => if installed.contains(profile) {
            Some(profile)
        } else {
            None
        },
        None => if parent_profiles.len() > 0 {
            Some(parent_profiles[0])
        } else {
            None
        },
    }
}

/// The plan for a child: with a profile selected, a fresh load under that
/// profile that inherits the working directory and the sandbox executable
/// of the parent; without one, a copy of the parent. Either way the
/// reasoning effort is forced to low.
pub open spec fn child_config_plan(
    codex_home: Seq<char>,
    cwd: Seq<char>,
    sandbox_exe: Option<Seq<char>>,
    selected: Option<Seq<char>>,
) -> ChildConfigPlanView {
    match selected {
        Some(profile) => ChildConfigPlanView::LoadProfile {
            codex_home,
            cwd: Some(cwd),
            config_profile: Some(profile),
            codex_linux_sandbox_exe: sandbox_exe,
            model_reasoning_effort: Some(ReasoningEffort::Low),
        },
        None => ChildConfigPlanView::InheritParent {
            model_reasoning_effort: ReasoningEffort::Low,
        },
    }
}

/// Whether `list` holds `item`.
pub fn contains_text(list: &Vec<String>, item: &String) -> (r: bool)
    ensures
        r == texts(list@).contains(item@),
{
    let mut i: usize = 0;
    while i < list.len()
        invariant
            i <= list.len(),
            forall|j: int| 0 <= j < i ==> texts(list@)[j] != item@,
        decreases list.len() - i,
    {
        if list[i] == *item {
            assert(texts(list@)[i as int] == item@);
            return true;
        }
        i += 1;
    }
    false
}

/// The profile that a child runs under.
pub fn select_child_profile(
    requested: &Option<String>,
    parent_profiles: &Vec<String>,
    installed: &Vec<String>,
) -> (r: Option<String>)
    ensures
        option_text(r) == selected_profile(
            option_text(*requested),
            texts(parent_profiles@),
            texts(installed@),
        ),
{
    match requested {
        Some(profile) => {
            if contains_text(installed, profile) {
                Some(profile.clone())
            } else {
                None
            }
        },
        None => {
            if parent_profiles.len() > 0 {
                Some(parent_profiles[0].clone())
            } else {
                None
            }
        },
    }
}

/// The plan for the configuration of a child that runs under `selected`.
pub fn plan_child_config(parent: &ParentConfig, selected: &Option<String>) -> (plan:
    ChildConfigPlan)
    ensures
        plan@ == child_config_plan(
            parent.codex_home@,
            parent.cwd@,
            option_text(parent.codex_linux_sandbox_exe),
            option_text(*selected),
        ),
{
    match selected {
        Some(profile) => ChildConfigPlan::LoadProfile {
            codex_home: parent.codex_home.clone(),
            overrides: ConfigOverrides {
                cwd: Some(parent.cwd.clone()),
                config_profile: Some(profile.clone()),
                codex_linux_sandbox_exe: clone_option_text(&parent.codex_linux_sandbox_exe),
                model_reasoning_effort: Some(ReasoningEffort::Low),
            },
        },
        None => ChildConfigPlan::InheritParent { model_reasoning_effort: ReasoningEffort::Low },
    }
}

} // verus!
