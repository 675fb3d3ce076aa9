//! Identifiers of conversations and the bridge that links one child
//! conversation to its parent.

use crate::events::{clone_option_text, option_text};
use crate::text::digit_char;
use vstd::prelude::*;
use vstd::string::*;

verus! {

/// Sixteen to the power `e`.
pub open spec fn pow16(e: nat) -> nat
    decreases e,
{
    if e == 0 {
        1
    } else {
        16 * pow16((e - 1) as nat)
    }
}

/// The lower-case hexadecimal digit for a value below sixteen.
pub open spec fn hex_digit(n: nat) -> char {
    if n < 10 {
        digit_char(n)
    } else if n == 10 {
        'a'
    } else if n == 11 {
        'b'
    } else if n == 12 {
        'c'
    } else if n == 13 {
        'd'
    } else if n == 14 {
        'e'
    } else {
        'f'
    }
}

/// The `k`-th of the 32 hexadecimal digits of `bits`, counted from the most
/// significant one.
pub open spec fn uuid_nibble(bits: u128, k: int) -> nat {
    ((bits as nat) / pow16((31 - k) as nat)) % 16
}

/// Number of hyphens that stand before position `i` of a hyphenated
/// identifier.
pub open spec fn hyphens_before(i: int) -> int {
    if i < 8 {
        0
    } else if i < 13 {
        1
    } else if i < 18 {
        2
    } else if i < 23 {
        3
    } else {
        4
    }
}

/// The hyphenated lower-case text of a 128-bit identifier: 32 hexadecimal
/// digits in groups of 8, 4, 4, 4 and 12.
pub open spec fn uuid_text(bits: u128) -> Seq<char> {
    Seq::new(
        36,
        |i: int|
            if i == 8 || i == 13 || i == 18 || i == 23 {
                '-'
            } else {
                hex_digit(uuid_nibble(bits, i - hyphens_before(i)))
            },
    )
}

/// Whether `bits` carry the version and variant of a random identifier:
/// version digit 4, and a variant digit between 8 and 11.
pub open spec fn is_random_uuid(bits: u128) -> bool {
    &&& uuid_nibble(bits, 12) == 4
    &&& 8 <= uuid_nibble(bits, 16) <= 11
}

/// Draws a random identifier with `uuid::Uuid::new_v4` and hands it out both
/// as the 128-bit value of `Uuid::as_u128` and as the text of its `Display`
/// form. The contract claims that the value carries version 4 and the
/// standard variant, and that the text is the hyphenated lower-case
/// rendering of that same value. Nothing is claimed of the random bits.
#[verifier::external_body]
pub(crate) fn random_uuid() -> (r: (u128, String))
    ensures
        is_random_uuid(r.0),
        r.1@ == uuid_text(r.0),
{
    let id = uuid::Uuid::new_v4();
    (id.as_u128(), id.to_string())
}

/// Identifier of a conversation.
#[derive(Clone, Copy, Debug, PartialEq, Eq, Hash, Structural)]
pub struct ConversationId {
    value: u128,
}

impl View for ConversationId {
    type V = u128;

    closed spec fn view(&self) -> u128 {
        self.value
    }
}

impl ConversationId {
    /// A fresh random identifier.
    pub fn new() -> (id: ConversationId)
        ensures
            is_random_uuid(id@),
    {
        let drawn = random_uuid();
        ConversationId { value: drawn.0 }
    }

    /// The identifier with the given 128-bit value.
    pub fn from_u128(value: u128) -> (id: ConversationId)
        ensures
            id@ == value,
    {
        ConversationId { value }
    }

    /// The 128-bit value of the identifier.
    pub fn as_u128(&self) -> (value: u128)
        ensures
            value == self@,
    {
        self.value
    }
}

/// What a child has reported through its bridge so far.
pub struct ChildAgentBridgeState {
    pub last_progress: Option<String>,
    pub final_markdown: Option<String>,
}

/// Abstract value of a [`ChildAgentBridge`].
pub struct BridgeView {
    pub parent_session: nat,
    pub agent_id: Seq<char>,
    pub parent_sub_id: Seq<char>,
    pub conversation_id: u128,
    pub last_progress: Option<Seq<char>>,
    pub final_markdown: Option<Seq<char>>,
}

impl BridgeView {
    /// The bridge of a child that has reported nothing yet.
    pub open spec fn fresh(
        parent_session: nat,
        agent_id: Seq<char>,
        parent_sub_id: Seq<char>,
        conversation_id: u128,
    ) -> BridgeView {
        BridgeView {
            parent_session,
            agent_id,
            parent_sub_id,
            conversation_id,
            last_progress: None,
            final_markdown: None,
        }
    }

    /// The bridge after `message` was recorded as the latest progress.
    pub open spec fn with_last_progress(self, message: Seq<char>) -> BridgeView {
        BridgeView { last_progress: Some(message), ..self }
    }

    /// The bridge after `markdown` was recorded as the final result.
    pub open spec fn with_final_markdown(self, markdown: Seq<char>) -> BridgeView {
        BridgeView { final_markdown: Some(markdown), ..self }
    }

    /// The bridge after each of `writes` was recorded as the final result,
    /// in order.
    pub open spec fn with_final_markdowns(self, writes: Seq<Seq<char>>) -> BridgeView
        decreases writes.len(),
    {
        if writes.len() == 0 {
            self
        } else {
            self.with_final_markdowns(writes.drop_last()).with_final_markdown(writes.last())
        }
    }

    /// The parent as seen through the bridge: its handle while the parent is
    /// alive, nothing once it has vanished.
    pub open spec fn resolve_parent(self, parent_alive: bool) -> Option<nat> {
        if parent_alive {
            Some(self.parent_session)
        } else {
            None
        }
    }
}

/// After any number of writes of the final result, at least one, a read
/// gives the last one written; nothing else of the bridge changes.
pub proof fn lemma_last_final_markdown_wins(b: BridgeView, writes: Seq<Seq<char>>)
    requires
        writes.len() > 0,
    ensures
        b.with_final_markdowns(writes).final_markdown == Some(writes.last()),
        b.with_final_markdowns(writes) == b.with_final_markdown(writes.last()),
    decreases writes.len(),
{
    let earlier = b.with_final_markdowns(writes.drop_last());
    assert(b.with_final_markdowns(writes) == earlier.with_final_markdown(writes.last()));
    if writes.len() > 1 {
        lemma_last_final_markdown_wins(b, writes.drop_last());
    } else {
        assert(earlier == b);
    }
}

/// State that joins one child conversation to the session of its parent.
/// The parent is held by a handle only: the bridge observes the parent and
/// does not keep it alive.
pub struct ChildAgentBridge {
    parent_session: u64,
    agent_id: String,
    parent_sub_id: String,
    conversation_id: ConversationId,
    state: ChildAgentBridgeState,
}

impl View for ChildAgentBridge {
    type V = BridgeView;

    closed spec fn view(&self) -> BridgeView {
        BridgeView {
            parent_session: self.parent_session as nat,
            agent_id: self.agent_id@,
            parent_sub_id: self.parent_sub_id@,
            conversation_id: self.conversation_id@,
            last_progress: option_text(self.state.last_progress),
            final_markdown: option_text(self.state.final_markdown),
        }
    }
}

impl ChildAgentBridge {
    /// The bridge of a child that has reported nothing yet.
    pub fn new(
        parent_session: u64,
        agent_id: String,
        parent_sub_id: String,
        conversation_id: ConversationId,
    ) -> (b: ChildAgentBridge)
        ensures
            b@ == BridgeView::fresh(
                parent_session as nat,
                agent_id@,
                parent_sub_id@,
                conversation_id@,
            ),
    {
        ChildAgentBridge {
            parent_session,
            agent_id,
            parent_sub_id,
            conversation_id,
            state: ChildAgentBridgeState { last_progress: None, final_markdown: None },
        }
    }

    /// The agent identifier of the child.
    pub fn agent_id(&self) -> (r: &String)
        ensures
            r@ == self@.agent_id,
    {
        &self.agent_id
    }

    /// The token under which events are sent back to the parent.
    pub fn parent_sub_id(&self) -> (r: &String)
        ensures
            r@ == self@.parent_sub_id,
    {
        &self.parent_sub_id
    }

    /// The conversation of the child.
    pub fn conversation_id(&self) -> (r: ConversationId)
        ensures
            r@ == self@.conversation_id,
    {
        self.conversation_id
    }

    /// The handle of the parent session, alive or not.
    pub fn parent_handle(&self) -> (h: u64)
        ensures
            h == self@.parent_session,
    {
        self.parent_session
    }

    /// The parent session, given whether it was found alive: its handle if
    /// so, nothing if the parent has vanished.
    pub fn parent_session(&self, parent_alive: bool) -> (p: Option<u64>)
        ensures
            match p {
                Some(h) => self@.resolve_parent(parent_alive) == Some(h as nat),
                None => self@.resolve_parent(parent_alive) is None,
            },
    {
        if parent_alive {
            Some(self.parent_session)
        } else {
            None
        }
    }

    pub fn set_last_progress(&mut self, message: String)
        ensures
            final(self)@ == old(self)@.with_last_progress(message@),
    {
        self.state.last_progress = Some(message);
    }

    pub fn set_final_markdown(&mut self, markdown: String)
        ensures
            final(self)@ == old(self)@.with_final_markdown(markdown@),
    {
        self.state.final_markdown = Some(markdown);
    }

    pub fn last_progress(&self) -> (r: Option<String>)
        ensures
            option_text(r) == self@.last_progress,
    {
        clone_option_text(&self.state.last_progress)
    }

    pub fn final_markdown(&self) -> (r: Option<String>)
        ensures
            option_text(r) == self@.final_markdown,
    {
        clone_option_text(&self.state.final_markdown)
    }
}

} // verus!
