//! Progress throttle: gathers streamed text and releases it as short progress
//! messages, at most one per offer.

use crate::text::{char_suffix, contains_newline, tail_chars};
use vstd::prelude::*;
use vstd::string::*;

verus! {

/// Least time in milliseconds between two releases that nothing forces.
pub const PROGRESS_INTERVAL_MS: u64 = 900;

/// Buffer size in characters above which a release is forced.
pub const HARD_FLUSH_SIZE: usize = 500;

/// Buffer size in characters above which only the tail of the buffer is
/// released, and the length of that tail.
pub const TAIL_WINDOW: usize = 400;

/// The text released for a buffer: the buffer itself, or its last
/// `TAIL_WINDOW` characters when it holds more than that.
pub open spec fn snippet(buffer: Seq<char>) -> Seq<char> {
    if buffer.len() > TAIL_WINDOW {
        char_suffix(buffer, TAIL_WINDOW as nat)
    } else {
        buffer
    }
}

/// Abstract state of a progress throttle.
pub struct ThrottleState {
    /// Text gathered since the last release.
    pub buffer: Seq<char>,
    /// Time of the last release, or of creation, in milliseconds.
    pub last_emit_ms: nat,
}

impl ThrottleState {
    /// The state of a throttle created at `now_ms`.
    pub open spec fn fresh(now_ms: nat) -> ThrottleState {
        ThrottleState { buffer: Seq::<char>::empty(), last_emit_ms: now_ms }
    }

    /// Time passed since the last release; zero if the clock went back.
    pub open spec fn elapsed(self, now_ms: nat) -> nat {
        if now_ms >= self.last_emit_ms {
            (now_ms - self.last_emit_ms) as nat
        } else {
            0
        }
    }

    /// Whether the buffer, once `delta` is appended, forces a release: it
    /// holds a line feed or more than `HARD_FLUSH_SIZE` characters.
    pub open spec fn forced(self, delta: Seq<char>) -> bool {
        (self.buffer + delta).contains('\n') || (self.buffer + delta).len() > HARD_FLUSH_SIZE
    }

    /// Whether offering `delta` at `now_ms` releases a message.
    pub open spec fn releases(self, delta: Seq<char>, now_ms: nat) -> bool {
        self.forced(delta) || self.elapsed(now_ms) >= PROGRESS_INTERVAL_MS
    }

    /// The message released when `delta` is offered at `now_ms`, if any.
    pub open spec fn released(self, delta: Seq<char>, now_ms: nat) -> Option<Seq<char>> {
        if self.releases(delta, now_ms) {
            Some(snippet(self.buffer + delta))
        } else {
            None
        }
    }

    /// The state after `delta` was offered at `now_ms`.
    pub open spec fn offer(self, delta: Seq<char>, now_ms: nat) -> ThrottleState {
        if self.releases(delta, now_ms) {
            ThrottleState { buffer: Seq::<char>::empty(), last_emit_ms: now_ms }
        } else {
            ThrottleState { buffer: self.buffer + delta, last_emit_ms: self.last_emit_ms }
        }
    }
}

/// A release that neither a line feed nor an over-sized buffer forced comes
/// no sooner than the interval after the release before it; a release
/// empties the buffer and restarts the clock, and an offer without a release
/// keeps the clock.
pub proof fn lemma_release_gap(s: ThrottleState, delta: Seq<char>, now_ms: nat)
    ensures
        s.released(delta, now_ms) is Some && !s.forced(delta) ==> now_ms >= s.last_emit_ms
            + PROGRESS_INTERVAL_MS,
        s.released(delta, now_ms) is Some ==> s.offer(delta, now_ms) == ThrottleState::fresh(
            now_ms,
        ),
        s.released(delta, now_ms) is None ==> s.offer(delta, now_ms).last_emit_ms
            == s.last_emit_ms,
{
}

/// The state after each of `offers`, a text with the time at which it was
/// offered, was offered in turn.
pub open spec fn after_offers(s: ThrottleState, offers: Seq<(Seq<char>, nat)>) -> ThrottleState
    decreases offers.len(),
{
    if offers.len() == 0 {
        s
    } else {
        after_offers(s, offers.drop_last()).offer(offers.last().0, offers.last().1)
    }
}

/// The time of the last release among `offers`, or the time on the clock of
/// `s` if none of them released anything.
pub open spec fn last_release(s: ThrottleState, offers: Seq<(Seq<char>, nat)>) -> nat
    decreases offers.len(),
{
    if offers.len() == 0 {
        s.last_emit_ms
    } else if after_offers(s, offers.drop_last()).releases(offers.last().0, offers.last().1) {
        offers.last().1
    } else {
        last_release(s, offers.drop_last())
    }
}

/// Over any run of offers the clock of the throttle shows the time of the
/// last release; so a release that nothing forced comes no sooner than the
/// interval after the release before it.
pub proof fn lemma_gap_between_releases(
    s: ThrottleState,
    offers: Seq<(Seq<char>, nat)>,
    delta: Seq<char>,
    now_ms: nat,
)
    ensures
        after_offers(s, offers).last_emit_ms == last_release(s, offers),
        after_offers(s, offers).released(delta, now_ms) is Some && !after_offers(
            s,
            offers,
        ).forced(delta) ==> now_ms >= last_release(s, offers) + PROGRESS_INTERVAL_MS,
    decreases offers.len(),
{
    if offers.len() > 0 {
        lemma_gap_between_releases(s, offers.drop_last(), offers.last().0, offers.last().1);
    }
}

/// Progress throttle of one child agent.
pub struct ProgressThrottle {
    buffer: String,
    last_emit_ms: u64,
}

impl View for ProgressThrottle {
    type V = ThrottleState;

    closed spec fn view(&self) -> ThrottleState {
        ThrottleState { buffer: self.buffer@, last_emit_ms: self.last_emit_ms as nat }
    }
}

impl ProgressThrottle {
    /// A throttle with an empty buffer whose clock starts at `now_ms`.
    pub fn new(now_ms: u64) -> (t: ProgressThrottle)
        ensures
            t@ == ThrottleState::fresh(now_ms as nat),
    {
        ProgressThrottle { buffer: String::new(), last_emit_ms: now_ms }
    }

    /// Appends `delta` to the buffer at time `now_ms` and returns the
    /// message to release, if one is due.
    pub fn offer(&mut self, delta: &str, now_ms: u64) -> (emit: Option<String>)
        ensures
            final(self)@ == old(self)@.offer(delta@, now_ms as nat),
            match emit {
                Some(text) => old(self)@.released(delta@, now_ms as nat) == Some(text@),
                None => old(self)@.released(delta@, now_ms as nat) is None,
            },
    {
        self.buffer.append(delta);
        let size = self.buffer.as_str().unicode_len();
        let elapsed: u64 = if now_ms >= self.last_emit_ms {
            now_ms - self.last_emit_ms
        } else {
            0
        };
        let due = contains_newline(self.buffer.as_str()) || size > HARD_FLUSH_SIZE || elapsed
            >= PROGRESS_INTERVAL_MS;
        if due {
            let text = if size > TAIL_WINDOW {
                tail_chars(self.buffer.as_str(), TAIL_WINDOW)
            } else {
                self.buffer.clone()
            };
            self.buffer = String::new();
            self.last_emit_ms = now_ms;
            Some(text)
        } else {
            None
        }
    }

    /// Returns `text` as the message for a whole-message event. It is always
    /// released, and neither the buffer nor the clock changes.
    pub fn offer_final(&mut self, text: &str) -> (emit: String)
        ensures
            emit@ == text@,
            final(self)@ == old(self)@,
    {
        String::from_str(text)
    }
}

} // verus!
