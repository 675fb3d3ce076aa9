//! Bridge registry: the mapping from the conversation of each live child to
//! its bridge.

use crate::bridge::{BridgeView, ChildAgentBridge, ConversationId};
use std::collections::HashMap;
use vstd::prelude::*;
use vstd::std_specs::hash::*;

verus! {

broadcast use vstd::std_specs::hash::group_hash_axioms;

/// Abstract value of a registry: the bridge of each registered conversation.
pub type RegistryView = Map<u128, BridgeView>;

/// Every bridge is filed under its own conversation, so no conversation has
/// more than one bridge.
pub open spec fn registry_wf(m: RegistryView) -> bool {
    forall|k: u128| m.contains_key(k) ==> (#[trigger] m[k]).conversation_id == k
}

/// The registry after an attempt to register `bridge`: unchanged where its
/// conversation is already present.
pub open spec fn registered(m: RegistryView, bridge: BridgeView) -> RegistryView {
    if m.contains_key(bridge.conversation_id) {
        m
    } else {
        m.insert(bridge.conversation_id, bridge)
    }
}

/// The registry after `message` was recorded as the latest progress of
/// conversation `id`: unchanged where `id` has no bridge.
pub open spec fn progress_recorded(m: RegistryView, id: u128, message: Seq<char>) -> RegistryView {
    if m.contains_key(id) {
        m.insert(id, m[id].with_last_progress(message))
    } else {
        m
    }
}

/// The registry after `markdown` was recorded as the final result of
/// conversation `id`: unchanged where `id` has no bridge.
pub open spec fn final_recorded(m: RegistryView, id: u128, markdown: Seq<char>) -> RegistryView {
    if m.contains_key(id) {
        m.insert(id, m[id].with_final_markdown(markdown))
    } else {
        m
    }
}

/// Two registered bridges of one conversation are one and the same entry.
pub proof fn lemma_one_bridge_per_conversation(m: RegistryView, k1: u128, k2: u128)
    requires
        registry_wf(m),
        m.contains_key(k1),
        m.contains_key(k2),
        m[k1].conversation_id == m[k2].conversation_id,
    ensures
        k1 == k2,
{
}

/// Registering, removing and recording all keep every bridge filed under its
/// own conversation.
pub proof fn lemma_operations_keep_wf(
    m: RegistryView,
    bridge: BridgeView,
    id: u128,
    text: Seq<char>,
)
    requires
        registry_wf(m),
    ensures
        registry_wf(registered(m, bridge)),
        registry_wf(m.remove(id)),
        registry_wf(progress_recorded(m, id, text)),
        registry_wf(final_recorded(m, id, text)),
{
}

/// After a successful registration the bridge is found under its
/// conversation; one removal then succeeds, no lookup succeeds after it, and
/// a second removal finds nothing and changes nothing.
pub proof fn lemma_register_then_remove(m: RegistryView, bridge: BridgeView)
    requires
        !m.contains_key(bridge.conversation_id),
    ensures
        registered(m, bridge).contains_key(bridge.conversation_id),
        registered(m, bridge)[bridge.conversation_id] == bridge,
        !registered(m, bridge).remove(bridge.conversation_id).contains_key(bridge.conversation_id),
        registered(m, bridge).remove(bridge.conversation_id) == m,
        registered(m, bridge).remove(bridge.conversation_id).remove(bridge.conversation_id)
            == registered(m, bridge).remove(bridge.conversation_id),
{
    let id = bridge.conversation_id;
    assert(registered(m, bridge).remove(id) =~= m);
    assert(m.remove(id) =~= m);
}

/// Removal is idempotent: after one removal the conversation is absent, and
/// removing it again changes nothing.
pub proof fn lemma_remove_idempotent(m: RegistryView, id: u128)
    ensures
        !m.remove(id).contains_key(id),
        m.remove(id).remove(id) == m.remove(id),
{
    assert(m.remove(id).remove(id) =~= m.remove(id));
}

/// Why a bridge was not registered.
#[derive(Debug)]
pub enum RegistryError {
    /// The conversation already has a bridge.
    AlreadyRegistered { conversation_id: ConversationId },
}

/// The abstract values of the bridges of a map.
spec fn views_of(m: Map<u128, ChildAgentBridge>) -> RegistryView {
    Map::new(|k: u128| m.contains_key(k), |k: u128| m[k]@)
}

/// The bridges of all live children, by conversation.
pub struct BridgeRegistry {
    bridges: HashMap<u128, ChildAgentBridge>,
}

impl View for BridgeRegistry {
    type V = RegistryView;

    closed spec fn view(&self) -> RegistryView {
        views_of(self.bridges@)
    }
}

impl BridgeRegistry {
    #[verifier::type_invariant]
    spec fn inv(self) -> bool {
        registry_wf(self@)
    }

    /// Takes the map out and leaves an empty one in its place.
    fn take_bridges(&mut self) -> (bridges: HashMap<u128, ChildAgentBridge>)
        ensures
            bridges == old(self).bridges,
            final(self).bridges@ == Map::<u128, ChildAgentBridge>::empty(),
    {
        let mut bridges: HashMap<u128, ChildAgentBridge> = HashMap::new();
        assert(registry_wf(views_of(bridges@)));
        std::mem::swap(&mut self.bridges, &mut bridges);
        bridges
    }

    /// Puts `bridges` in place of the map held.
    fn put_bridges(&mut self, bridges: HashMap<u128, ChildAgentBridge>)
        requires
            registry_wf(views_of(bridges@)),
        ensures
            final(self).bridges == bridges,
    {
        let mut bridges = bridges;
        std::mem::swap(&mut self.bridges, &mut bridges);
    }

    /// A registry without bridges.
    pub fn new() -> (r: BridgeRegistry)
        ensures
            r@ == Map::<u128, BridgeView>::empty(),
    {
        let r = BridgeRegistry { bridges: HashMap::new() };
        assert(r@ =~= Map::<u128, BridgeView>::empty());
        r
    }

    /// Files `bridge` under its conversation. Fails, and changes nothing,
    /// if that conversation already has a bridge.
    pub fn register(&mut self, bridge: ChildAgentBridge) -> (r: Result<(), RegistryError>)
        ensures
            final(self)@ == registered(old(self)@, bridge@),
            registry_wf(final(self)@),
            match r {
                Ok(_) => !old(self)@.contains_key(bridge@.conversation_id),
                Err(RegistryError::AlreadyRegistered { conversation_id }) => {
                    &&& old(self)@.contains_key(bridge@.conversation_id)
                    &&& conversation_id@ == bridge@.conversation_id
                },
            },
    {
        proof {
            use_type_invariant(&*self);
        }
        let id = bridge.conversation_id();
        let key = id.as_u128();
        if self.bridges.contains_key(&key) {
            Err(RegistryError::AlreadyRegistered { conversation_id: id })
        } else {
            let ghost before = self@;
            let mut bridges = self.take_bridges();
            bridges.insert(key, bridge);
            assert(views_of(bridges@) =~= before.insert(key, bridge@));
            self.put_bridges(bridges);
            Ok(())
        }
    }

    /// The bridge of conversation `id`, if it has one.
    pub fn get(&self, id: &ConversationId) -> (r: Option<&ChildAgentBridge>)
        ensures
            match r {
                Some(b) => self@.contains_key(id@) && b@ == self@[id@] && b@.conversation_id
                    == id@,
                None => !self@.contains_key(id@),
            },
    {
        proof {
            use_type_invariant(self);
        }
        let key = id.as_u128();
        self.bridges.get(&key)
    }

    /// The bridge of conversation `id`, if it has one, together with its
    /// parent as seen through the bridge, given whether the parent was
    /// found alive: a bridge whose parent has vanished comes with no parent.
    pub fn lookup(&self, id: &ConversationId, parent_alive: bool) -> (r: Option<
        (&ChildAgentBridge, Option<u64>),
    >)
        ensures
            match r {
                Some((bridge, parent)) => {
                    &&& self@.contains_key(id@)
                    &&& bridge@ == self@[id@]
                    &&& match parent {
                        Some(handle) => parent_alive && handle == self@[id@].parent_session,
                        None => !parent_alive,
                    }
                },
                None => !self@.contains_key(id@),
            },
    {
        match self.get(id) {
            Some(bridge) => Some((bridge, bridge.parent_session(parent_alive))),
            None => None,
        }
    }

    /// Whether conversation `id` has a bridge.
    pub fn contains(&self, id: &ConversationId) -> (r: bool)
        ensures
            r == self@.contains_key(id@),
    {
        let key = id.as_u128();
        self.bridges.contains_key(&key)
    }

    /// Number of bridges.
    pub fn len(&self) -> (n: usize)
        ensures
            n == self@.dom().len(),
    {
        assert(self@.dom() =~= self.bridges@.dom());
        self.bridges.len()
    }

    /// Removes the bridge of conversation `id` and says whether there was
    /// one. Removing an absent conversation changes nothing.
    pub fn remove(&mut self, id: &ConversationId) -> (removed: bool)
        ensures
            removed == old(self)@.contains_key(id@),
            final(self)@ == old(self)@.remove(id@),
            !final(self)@.contains_key(id@),
            registry_wf(final(self)@),
    {
        proof {
            use_type_invariant(&*self);
        }
        let key = id.as_u128();
        let ghost before = self@;
        let mut bridges = self.take_bridges();
        let taken = bridges.remove(&key);
        assert(views_of(bridges@) =~= before.remove(key));
        self.put_bridges(bridges);
        taken.is_some()
    }

    /// Records `message` as the latest progress of conversation `id` and
    /// says whether it has a bridge.
    pub fn set_last_progress(&mut self, id: &ConversationId, message: String) -> (found: bool)
        ensures
            found == old(self)@.contains_key(id@),
            final(self)@ == progress_recorded(old(self)@, id@, message@),
            registry_wf(final(self)@),
    {
        proof {
            use_type_invariant(&*self);
        }
        let key = id.as_u128();
        let ghost before = self@;
        let mut bridges = self.take_bridges();
        match bridges.remove(&key) {
            Some(mut bridge) => {
                bridge.set_last_progress(message);
                bridges.insert(key, bridge);
                assert(views_of(bridges@) =~= progress_recorded(before, key, message@));
                self.put_bridges(bridges);
                true
            },
            None => {
                assert(views_of(bridges@) =~= before);
                self.put_bridges(bridges);
                false
            },
        }
    }

    /// Records `markdown` as the final result of conversation `id` and says
    /// whether it has a bridge.
    pub fn set_final_markdown(&mut self, id: &ConversationId, markdown: String) -> (found: bool)
        ensures
            found == old(self)@.contains_key(id@),
            final(self)@ == final_recorded(old(self)@, id@, markdown@),
            registry_wf(final(self)@),
    {
        proof {
            use_type_invariant(&*self);
        }
        let key = id.as_u128();
        let ghost before = self@;
        let mut bridges = self.take_bridges();
        match bridges.remove(&key) {
            Some(mut bridge) => {
                bridge.set_final_markdown(markdown);
                bridges.insert(key, bridge);
                assert(views_of(bridges@) =~= final_recorded(before, key, markdown@));
                self.put_bridges(bridges);
                true
            },
            None => {
                assert(views_of(bridges@) =~= before);
                self.put_bridges(bridges);
                false
            },
        }
    }
}

} // verus!
