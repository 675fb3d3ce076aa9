//! What a front end keeps of each agent.

use vstd::prelude::*;
use vstd::string::*;

verus! {

/// Status of an agent.
#[derive(Debug, Clone, Copy, PartialEq, Eq, Structural)]
pub enum AgentStatus {
    /// The agent is working.
    Active,
    /// The agent waits for work.
    Idle,
    /// The agent has completed.
    Completed,
    /// The agent failed or was ended.
    Failed,
}

/// One agent as a front end shows it, with the widget `W` that holds its
/// conversation.
pub struct AgentView<W> {
    pub id: String,
    pub name: String,
    pub chat_widget: W,
    pub status: AgentStatus,
    pub profile: Option<String>,
    /// The parent of the agent; the orchestrator has none.
    pub parent_id: Option<String>,
    pub purpose: String,
}

impl<W> AgentView<W> {
    /// The view of an agent that is active.
    pub fn new(
        id: String,
        name: String,
        chat_widget: W,
        profile: Option<String>,
        parent_id: Option<String>,
        purpose: String,
    ) -> (view: AgentView<W>)
        ensures
            view.id == id,
            view.name == name,
            view.chat_widget == chat_widget,
            view.status == AgentStatus::Active,
            view.profile == profile,
            view.parent_id == parent_id,
            view.purpose == purpose,
    {
        AgentView { id, name, chat_widget, status: AgentStatus::Active, profile, parent_id, purpose }
    }

    /// Whether the agent is the orchestrator: the one without a parent.
    pub fn is_orchestrator(&self) -> (r: bool)
        ensures
            r == (self.parent_id is None),
    {
        self.parent_id.is_none()
    }

    /// Sets the status of the agent and leaves the rest as it is.
    pub fn set_status(&mut self, status: AgentStatus)
        ensures
            final(self).status == status,
            final(self).id == old(self).id,
            final(self).name == old(self).name,
            final(self).chat_widget == old(self).chat_widget,
            final(self).profile == old(self).profile,
            final(self).parent_id == old(self).parent_id,
            final(self).purpose == old(self).purpose,
    {
        self.status = status;
    }
}

} // verus!
