//! Task specification and checklist models.

use crate::bridge::{is_random_uuid, random_uuid, uuid_text};
use vstd::prelude::*;
use vstd::string::*;

verus! {

/// An item of the checklist of a task.
#[derive(Debug, Clone)]
pub struct ChecklistItem {
    /// What needs to be done.
    pub description: String,
    /// Whether it has been done.
    pub completed: bool,
}

/// A task for a child agent.
#[derive(Debug, Clone)]
pub struct TaskSpec {
    /// Unique identifier of the task.
    pub id: String,
    /// What the task is for, in words for people.
    pub purpose: String,
    /// The instructions for the child agent.
    pub prompt: String,
    /// The items that must be completed.
    pub checklist: Vec<ChecklistItem>,
    /// The profile to run the task under, if any is asked for.
    pub profile: Option<String>,
}

impl ChecklistItem {
    /// An item that is not completed yet.
    pub fn new(description: String) -> (item: ChecklistItem)
        ensures
            item.description == description,
            !item.completed,
    {
        ChecklistItem { description, completed: false }
    }
}

impl TaskSpec {
    /// A task with a fresh random identifier and no profile.
    pub fn new(purpose: String, prompt: String, checklist: Vec<ChecklistItem>) -> (task: TaskSpec)
        ensures
            exists|bits: u128| is_random_uuid(bits) && task.id@ == uuid_text(bits),
            task.id@.len() == 36,
            task.purpose == purpose,
            task.prompt == prompt,
            task.checklist == checklist,
            task.profile is None,
    {
        let drawn = random_uuid();
        TaskSpec::with_id(drawn.1, purpose, prompt, checklist)
    }

    /// A task with the given identifier and no profile.
    pub fn with_id(id: String, purpose: String, prompt: String, checklist: Vec<ChecklistItem>) -> (task:
        TaskSpec)
        ensures
            task.id == id,
            task.purpose == purpose,
            task.prompt == prompt,
            task.checklist == checklist,
            task.profile is None,
    {
        TaskSpec { id, purpose, prompt, checklist, profile: None }
    }

    /// The task, run under `profile`.
    pub fn with_profile(self, profile: String) -> (task: TaskSpec)
        ensures
            task.id == self.id,
            task.purpose == self.purpose,
            task.prompt == self.prompt,
            task.checklist == self.checklist,
            task.profile == Some(profile),
    {
        let mut task = self;
        task.profile = Some(profile);
        task
    }
}

} // verus!
