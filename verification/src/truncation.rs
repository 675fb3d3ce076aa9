//! Truncation of the output of a child agent to a token limit: the output
//! budget with a limit of the caller's choice. A truncator has the abstract
//! state of a budget, so what holds of every run of offers to a budget
//! holds of every run of calls to a truncator: the count never falls and
//! never passes the limit, and the marker is given once.

use crate::budget::{lemma_empty_delta_is_no_op, BudgetState};
use crate::text::{estimate_tokens, take_chars, token_estimate};
use vstd::prelude::*;
use vstd::string::*;

verus! {

/// Token limit for the output of a child agent.
pub const OUTPUT_TOKEN_LIMIT: usize = 5000;

/// Limits content to a number of estimated tokens. It lets content through
/// as an output budget does: whole while it fits, else the prefix that the
/// tokens left allow, closed once by the marker, and nothing after that.
#[derive(Debug)]
pub struct OutputTruncator {
    limit: usize,
    accumulated_tokens: usize,
    truncated: bool,
}

impl View for OutputTruncator {
    type V = BudgetState;

    closed spec fn view(&self) -> BudgetState {
        BudgetState {
            cap_tokens: self.limit as nat,
            used_tokens: self.accumulated_tokens as nat,
            truncated: self.truncated,
        }
    }
}

impl OutputTruncator {
    #[verifier::type_invariant]
    spec fn inv(self) -> bool {
        self@.wf()
    }

    pub fn new(limit: usize) -> (t: OutputTruncator)
        ensures
            t@ == BudgetState::fresh(limit as nat),
    {
        OutputTruncator { limit, accumulated_tokens: 0, truncated: false }
    }

    /// Estimates the tokens of a text at four bytes each, rounded up.
    pub fn estimate_tokens(text: &str) -> (n: usize)
        ensures
            n == token_estimate(text@),
    {
        estimate_tokens(text)
    }

    /// Hands `content` to the truncator. Returns the text to keep and
    /// whether the output is cut short by now: at this call or at an
    /// earlier one.
    pub fn truncate_if_needed(&mut self, content: &str) -> (r: (String, bool))
        ensures
            final(self)@ == old(self)@.accept(content@),
            r.0@ == old(self)@.accepted_text(content@),
            r.1 == final(self)@.truncated,
            final(self)@.wf(),
            old(self)@.used_tokens <= final(self)@.used_tokens <= final(self)@.cap_tokens,
            final(self)@.cap_tokens == old(self)@.cap_tokens,
            content@.len() == 0 ==> final(self)@ == old(self)@ && r.0@.len() == 0,
    {
        proof {
            use_type_invariant(&*self);
            if content@.len() == 0 {
                lemma_empty_delta_is_no_op(self@, content@);
            }
        }
        if self.truncated {
            return (String::new(), true);
        }
        let content_tokens = estimate_tokens(content);
        let remaining_tokens: usize = self.limit - self.accumulated_tokens;
        if content_tokens <= remaining_tokens {
            self.accumulated_tokens = self.accumulated_tokens + content_tokens;
            return (String::from_str(content), false);
        }
        let remaining_chars: usize = remaining_tokens * 4;
        let kept = take_chars(content, remaining_chars as u64);
        self.accumulated_tokens = self.limit;
        self.truncated = true;
        (kept.concat("\n\n[Output truncated at 5k token limit]"), true)
    }

    /// The tokens counted so far: never more than the limit, and the limit
    /// itself once the output is cut short.
    pub fn current_tokens(&self) -> (n: usize)
        ensures
            n == self@.used_tokens,
            n <= self@.cap_tokens,
            self@.truncated ==> n == self@.cap_tokens,
    {
        proof {
            use_type_invariant(self);
        }
        self.accumulated_tokens
    }

    /// Whether the limit has been reached, by an exact fit or by a cut.
    pub fn is_at_limit(&self) -> (r: bool)
        ensures
            r == (self@.used_tokens == self@.cap_tokens),
            self@.truncated ==> r,
    {
        proof {
            use_type_invariant(self);
        }
        self.accumulated_tokens >= self.limit
    }

    /// Whether the output has been cut short.
    pub fn is_truncated(&self) -> (r: bool)
        ensures
            r == self@.truncated,
    {
        self.truncated
    }
}

impl Default for OutputTruncator {
    fn default() -> (t: OutputTruncator)
        ensures
            t@ == BudgetState::fresh(OUTPUT_TOKEN_LIMIT as nat),
    {
        OutputTruncator::new(OUTPUT_TOKEN_LIMIT)
    }
}

} // verus!
