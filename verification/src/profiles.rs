//! Profile selection for child agents.

use crate::child_config::{contains_text, ParentConfig};
use crate::events::{option_text, texts};
use vstd::prelude::*;
use vstd::string::*;

verus! {

/// The profile for a task: the one asked for if it is available, else the
/// first available one, else none.
pub open spec fn profile_choice(available: Seq<Seq<char>>, requested: Option<Seq<char>>) -> Option<
    Seq<char>,
> {
    if requested is Some && available.contains(requested->0) {
        requested
    } else if available.len() > 0 {
        Some(available[0])
    } else {
        None
    }
}

/// A copy of a list of texts.
pub fn clone_texts(list: &Vec<String>) -> (copy: Vec<String>)
    ensures
        texts(copy@) == texts(list@),
{
    let mut copy: Vec<String> = Vec::new();
    let mut i: usize = 0;
    while i < list.len()
        invariant
            i <= list.len(),
            copy@.len() == i,
            forall|j: int| 0 <= j < i ==> copy@[j]@ == list@[j]@,
        decreases list.len() - i,
    {
        copy.push(list[i].clone());
        i += 1;
    }
    assert(texts(copy@) =~= texts(list@));
    copy
}

/// Selects the profile that a child agent runs under.
pub struct ProfileSelector {
    available_profiles: Vec<String>,
}

impl View for ProfileSelector {
    type V = Seq<Seq<char>>;

    closed spec fn view(&self) -> Seq<Seq<char>> {
        texts(self.available_profiles@)
    }
}

impl ProfileSelector {
    /// The selector over the profiles that `config` declares for children.
    pub fn new(config: &ParentConfig) -> (s: ProfileSelector)
        ensures
            s@ == texts(config.active_agent_profiles@),
    {
        ProfileSelector { available_profiles: clone_texts(&config.active_agent_profiles) }
    }

    /// Selects a profile for a task: the one asked for if it is available,
    /// else the first available one, else none.
    pub fn select_profile(&self, requested: Option<&str>) -> (r: Option<String>)
        ensures
            option_text(r) == profile_choice(
                self@,
                match requested {
                    Some(s) => Some(s@),
                    None => None,
                },
            ),
    {
        match requested {
            Some(req) => {
                let wanted = String::from_str(req);
                if contains_text(&self.available_profiles, &wanted) {
                    return Some(wanted);
                }
            },
            None => {},
        }
        if self.available_profiles.len() > 0 {
            Some(self.available_profiles[0].clone())
        } else {
            None
        }
    }

    /// All available profiles, in order.
    pub fn available_profiles(&self) -> (r: &[String])
        ensures
            texts(r@) == self@,
    {
        self.available_profiles.as_slice()
    }
}

} // verus!
