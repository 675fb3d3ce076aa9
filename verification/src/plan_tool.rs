//! Arguments of the plan tool.

use vstd::prelude::*;
use vstd::string::*;

verus! {

/// How far a step of a plan has come.
#[derive(Debug, Clone, Copy, PartialEq, Eq, Structural)]
pub enum StepStatus {
    Pending,
    InProgress,
    Completed,
}

/// A step of a plan with its status.
#[derive(Debug, Clone)]
pub struct PlanItemArg {
    pub step: String,
    pub status: StepStatus,
}

/// A plan as handed to the plan tool.
#[derive(Debug, Clone)]
pub struct UpdatePlanArgs {
    pub explanation: Option<String>,
    pub plan: Vec<PlanItemArg>,
    /// The agent that the plan belongs to, where several agents run.
    pub agent_id: Option<String>,
}

} // verus!
