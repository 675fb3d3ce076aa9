//! Output budget: caps the text collected from one child agent at a fixed
//! number of estimated tokens and closes the text with a single marker.

use crate::text::{char_prefix, estimate_tokens, take_chars, token_estimate};
use vstd::prelude::*;
use vstd::string::*;

verus! {

/// Token cap applied to the output of one child agent.
pub const OUTPUT_TOKEN_CAP: u32 = 5000;

/// Text that closes an output cut short by the budget.
pub open spec fn truncation_marker() -> Seq<char> {
    "\n\n[Output truncated at 5k token limit]"@
}

/// Abstract state of an output budget.
pub struct BudgetState {
    pub cap_tokens: nat,
    pub used_tokens: nat,
    pub truncated: bool,
}

impl BudgetState {
    /// A budget never spends more than its cap, and a truncated budget has
    /// spent all of it.
    pub open spec fn wf(self) -> bool {
        &&& self.used_tokens <= self.cap_tokens
        &&& self.truncated ==> self.used_tokens == self.cap_tokens
    }

    /// The budget with nothing spent.
    pub open spec fn fresh(cap_tokens: nat) -> BudgetState {
        BudgetState { cap_tokens, used_tokens: 0, truncated: false }
    }

    /// Whether `delta` is let through whole.
    pub open spec fn fits(self, delta: Seq<char>) -> bool {
        !self.truncated && self.used_tokens + token_estimate(delta) <= self.cap_tokens
    }

    /// Number of characters of `delta` that the budget lets through.
    pub open spec fn accepted_chars(self, delta: Seq<char>) -> nat {
        if self.truncated {
            0
        } else if self.fits(delta) {
            delta.len()
        } else {
            char_prefix(delta, ((self.cap_tokens - self.used_tokens) * 4) as nat).len()
        }
    }

    /// The state after `delta` was offered.
    pub open spec fn accept(self, delta: Seq<char>) -> BudgetState {
        if self.truncated {
            self
        } else if self.fits(delta) {
            BudgetState { used_tokens: self.used_tokens + token_estimate(delta), ..self }
        } else {
            BudgetState { used_tokens: self.cap_tokens, truncated: true, ..self }
        }
    }

    /// The text to append to the running output when `delta` is offered:
    /// nothing once truncated, `delta` itself while it fits, else the
    /// prefix of `delta` that the remaining tokens allow at four characters
    /// each, followed by the marker.
    pub open spec fn accepted_text(self, delta: Seq<char>) -> Seq<char> {
        if self.truncated {
            Seq::<char>::empty()
        } else if self.fits(delta) {
            delta
        } else {
            char_prefix(delta, ((self.cap_tokens - self.used_tokens) * 4) as nat)
                + truncation_marker()
        }
    }

    /// The state after each of `deltas` was offered in turn.
    pub open spec fn accept_all(self, deltas: Seq<Seq<char>>) -> BudgetState
        decreases deltas.len(),
    {
        if deltas.len() == 0 {
            self
        } else {
            self.accept_all(deltas.drop_last()).accept(deltas.last())
        }
    }

    /// The output assembled by appending what each offer of `deltas` returned.
    pub open spec fn assembled(self, deltas: Seq<Seq<char>>) -> Seq<char>
        decreases deltas.len(),
    {
        if deltas.len() == 0 {
            Seq::<char>::empty()
        } else {
            self.assembled(deltas.drop_last()) + self.accept_all(deltas.drop_last()).accepted_text(
                deltas.last(),
            )
        }
    }
}

/// All of `deltas` joined in order.
pub open spec fn joined(deltas: Seq<Seq<char>>) -> Seq<char>
    decreases deltas.len(),
{
    if deltas.len() == 0 {
        Seq::<char>::empty()
    } else {
        joined(deltas.drop_last()) + deltas.last()
    }
}

/// Whether `pattern` occurs in `s` starting at index `i`.
pub open spec fn occurs_at(s: Seq<char>, pattern: Seq<char>, i: int) -> bool {
    &&& 0 <= i
    &&& i + pattern.len() <= s.len()
    &&& s.subrange(i, i + pattern.len()) == pattern
}

impl BudgetState {
    /// Number of characters of the joined `deltas` that reached the output.
    pub open spec fn passed_chars(self, deltas: Seq<Seq<char>>) -> nat
        decreases deltas.len(),
    {
        if deltas.len() == 0 {
            0
        } else {
            self.passed_chars(deltas.drop_last()) + self.accept_all(
                deltas.drop_last(),
            ).accepted_chars(deltas.last())
        }
    }
}

/// An empty text is estimated at no token.
pub proof fn lemma_empty_text_has_no_tokens(delta: Seq<char>)
    requires
        delta.len() == 0,
    ensures
        token_estimate(delta) == 0,
{
    reveal_with_fuel(vstd::utf8::encode_utf8, 2);
    assert(vstd::utf8::encode_utf8(delta).len() == 0);
}

/// An empty delta is a no-op: it changes nothing and nothing comes back
/// for it, whatever the state of the budget.
pub proof fn lemma_empty_delta_is_no_op(b: BudgetState, delta: Seq<char>)
    requires
        b.wf(),
        delta.len() == 0,
    ensures
        b.accept(delta) == b,
        b.accepted_text(delta) == Seq::<char>::empty(),
{
    lemma_empty_text_has_no_tokens(delta);
    assert(delta =~= Seq::<char>::empty());
}

/// One offer never lowers the tokens spent, never moves the cap, and keeps
/// the state valid; a truncated budget stays as it is and lets nothing more
/// through.
pub proof fn lemma_accept_step(b: BudgetState, delta: Seq<char>)
    requires
        b.wf(),
    ensures
        b.accept(delta).wf(),
        b.accept(delta).cap_tokens == b.cap_tokens,
        b.accept(delta).used_tokens >= b.used_tokens,
        b.truncated ==> b.accept(delta) == b && b.accepted_text(delta) == Seq::<char>::empty(),
        b.truncated ==> b.accept(delta).used_tokens == b.cap_tokens,
{
}

/// Over any run of offers the tokens spent never decrease, and once an offer
/// has truncated the output every later state is truncated with the whole
/// cap spent and the assembled output no longer grows.
pub proof fn lemma_budget_monotone(b: BudgetState, deltas: Seq<Seq<char>>, k: int)
    requires
        b.wf(),
        0 <= k <= deltas.len(),
    ensures
        b.accept_all(deltas).wf(),
        b.accept_all(deltas).cap_tokens == b.cap_tokens,
        b.accept_all(deltas.take(k)).used_tokens <= b.accept_all(deltas).used_tokens,
        b.accept_all(deltas.take(k)).truncated ==> {
            &&& b.accept_all(deltas).truncated
            &&& b.accept_all(deltas).used_tokens == b.cap_tokens
            &&& b.assembled(deltas) == b.assembled(deltas.take(k))
        },
    decreases deltas.len(),
{
    if k == deltas.len() {
        assert(deltas.take(k) =~= deltas);
        lemma_accept_all_wf(b, deltas);
    } else {
        let front = deltas.drop_last();
        assert(front.take(k) =~= deltas.take(k));
        lemma_budget_monotone(b, front, k);
        lemma_accept_step(b.accept_all(front), deltas.last());
        lemma_accept_all_wf(b, deltas.take(k));
    }
}

/// A run of offers keeps the state valid and the cap in place.
pub proof fn lemma_accept_all_wf(b: BudgetState, deltas: Seq<Seq<char>>)
    requires
        b.wf(),
    ensures
        b.accept_all(deltas).wf(),
        b.accept_all(deltas).cap_tokens == b.cap_tokens,
        b.accept_all(deltas).used_tokens >= b.used_tokens,
    decreases deltas.len(),
{
    if deltas.len() > 0 {
        lemma_accept_all_wf(b, deltas.drop_last());
        lemma_accept_step(b.accept_all(deltas.drop_last()), deltas.last());
    }
}

/// The assembled output is a prefix of the joined input, followed by the
/// marker exactly when the budget ended truncated; while it is not
/// truncated the whole input has passed.
pub proof fn lemma_assembled_shape(b: BudgetState, deltas: Seq<Seq<char>>)
    requires
        b.wf(),
        !b.truncated,
    ensures
        b.passed_chars(deltas) <= joined(deltas).len(),
        !b.accept_all(deltas).truncated ==> b.passed_chars(deltas) == joined(deltas).len(),
        b.assembled(deltas) == joined(deltas).take(b.passed_chars(deltas) as int) + (if b.accept_all(
            deltas,
        ).truncated {
            truncation_marker()
        } else {
            Seq::<char>::empty()
        }),
    decreases deltas.len(),
{
    if deltas.len() == 0 {
        assert(b.assembled(deltas) =~= joined(deltas).take(0) + Seq::<char>::empty());
    } else {
        let front = deltas.drop_last();
        let last = deltas.last();
        let before = b.accept_all(front);
        lemma_assembled_shape(b, front);
        lemma_accept_all_wf(b, front);
        let passed = b.passed_chars(front);
        if before.truncated {
            assert(joined(deltas).take(passed as int) =~= joined(front).take(passed as int));
        } else if before.fits(last) {
            assert(joined(front).take(passed as int) =~= joined(front));
            assert(joined(deltas).take(joined(deltas).len() as int) =~= joined(deltas));
            assert(b.assembled(deltas) =~= joined(deltas) + Seq::<char>::empty());
        } else {
            let room = ((before.cap_tokens - before.used_tokens) * 4) as nat;
            let kept = char_prefix(last, room);
            assert(kept =~= last.take(kept.len() as int));
            assert(joined(front).take(passed as int) =~= joined(front));
            assert(joined(deltas).take((passed + kept.len()) as int) =~= joined(front) + kept);
            assert(b.assembled(deltas) =~= joined(front) + kept + truncation_marker());
        }
    }
}

/// The closing bracket is the last character of the marker and occurs
/// nowhere else in it.
proof fn lemma_marker_chars()
    ensures
        truncation_marker().len() == 38,
        truncation_marker()[37] == ']',
        forall|j: int| 0 <= j < 37 ==> truncation_marker()[j] != ']',
{
    reveal_strlit("\n\n[Output truncated at 5k token limit]");
    let m = truncation_marker();
    assert(m =~= seq![
        '\n', '\n', '[', 'O', 'u', 't', 'p', 'u', 't', ' ', 't', 'r', 'u', 'n', 'c', 'a', 't', 'e',
        'd', ' ', 'a', 't', ' ', '5', 'k', ' ', 't', 'o', 'k', 'e', 'n', ' ', 'l', 'i', 'm', 'i',
        't', ']',
    ]);
}

/// Where the joined input holds no marker of its own, the assembled output
/// holds the marker exactly once, at its end, if the budget ended truncated,
/// and nowhere otherwise.
pub proof fn lemma_single_marker(b: BudgetState, deltas: Seq<Seq<char>>, i: int)
    requires
        b.wf(),
        !b.truncated,
        forall|j: int| !occurs_at(joined(deltas), truncation_marker(), j),
    ensures
        occurs_at(b.assembled(deltas), truncation_marker(), i) <==> (b.accept_all(deltas).truncated
            && i == b.assembled(deltas).len() - truncation_marker().len()),
{
    lemma_assembled_shape(b, deltas);
    lemma_marker_chars();
    let m = truncation_marker();
    let input = joined(deltas);
    let passed = b.passed_chars(deltas) as int;
    let kept = input.take(passed);
    let out = b.assembled(deltas);
    if occurs_at(out, m, i) {
        if i + m.len() <= passed {
            assert(input.subrange(i, i + m.len()) =~= out.subrange(i, i + m.len()));
            assert(occurs_at(input, m, i));
        } else {
            assert(b.accept_all(deltas).truncated);
            if i < passed {
                let j = i + m.len() - 1 - passed;
                assert(out.subrange(i, i + m.len())[m.len() - 1] == out[i + m.len() - 1]);
                assert(out[i + m.len() - 1] == m[j]);
                assert(false);
            }
        }
    }
    if b.accept_all(deltas).truncated && i == out.len() - m.len() {
        assert(out.subrange(i, i + m.len()) =~= m);
    }
}

/// Output budget of one child agent.
pub struct OutputBudget {
    cap_tokens: u32,
    used_tokens: u32,
    truncated: bool,
}

impl View for OutputBudget {
    type V = BudgetState;

    closed spec fn view(&self) -> BudgetState {
        BudgetState {
            cap_tokens: self.cap_tokens as nat,
            used_tokens: self.used_tokens as nat,
            truncated: self.truncated,
        }
    }
}

impl OutputBudget {
    #[verifier::type_invariant]
    spec fn inv(self) -> bool {
        self@.wf()
    }

    /// A budget of `cap_tokens` tokens with nothing spent.
    pub fn new(cap_tokens: u32) -> (b: OutputBudget)
        ensures
            b@ == BudgetState::fresh(cap_tokens as nat),
    {
        OutputBudget { cap_tokens, used_tokens: 0, truncated: false }
    }

    /// Tokens the budget allows in all.
    pub fn cap_tokens(&self) -> (n: u32)
        ensures
            n == self@.cap_tokens,
    {
        self.cap_tokens
    }

    /// Tokens spent so far.
    pub fn used_tokens(&self) -> (n: u32)
        ensures
            n == self@.used_tokens,
            n <= self@.cap_tokens,
    {
        proof {
            use_type_invariant(self);
        }
        self.used_tokens
    }

    /// Whether the output was cut short.
    pub fn is_truncated(&self) -> (t: bool)
        ensures
            t == self@.truncated,
            t ==> self@.used_tokens == self@.cap_tokens,
    {
        proof {
            use_type_invariant(self);
        }
        self.truncated
    }

    /// Offers `delta` and returns the text to append to the running output.
    pub fn accept(&mut self, delta: &str) -> (accepted: String)
        ensures
            final(self)@ == old(self)@.accept(delta@),
            accepted@ == old(self)@.accepted_text(delta@),
            final(self)@.wf(),
            final(self)@.used_tokens >= old(self)@.used_tokens,
            delta@.len() == 0 ==> final(self)@ == old(self)@ && accepted@.len() == 0,
    {
        proof {
            use_type_invariant(&*self);
            if delta@.len() == 0 {
                lemma_empty_delta_is_no_op(self@, delta@);
            }
        }
        if self.truncated {
            return String::new();
        }
        let tokens = estimate_tokens(delta);
        let remaining: u32 = self.cap_tokens - self.used_tokens;
        if tokens <= remaining as usize {
            self.used_tokens = self.used_tokens + tokens as u32;
            String::from_str(delta)
        } else {
            let remaining_chars: u64 = remaining as u64 * 4;
            let prefix = take_chars(delta, remaining_chars);
            self.used_tokens = self.cap_tokens;
            self.truncated = true;
            prefix.concat("\n\n[Output truncated at 5k token limit]")
        }
    }
}

impl Default for OutputBudget {
    fn default() -> (b: OutputBudget)
        ensures
            b@ == BudgetState::fresh(OUTPUT_TOKEN_CAP as nat),
    {
        OutputBudget::new(OUTPUT_TOKEN_CAP)
    }
}

} // verus!
