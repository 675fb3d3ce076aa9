//! Token counts of texts and messages.

use vstd::prelude::*;
use vstd::string::*;

verus! {

/// The number of tokens that the `cl100k_base` encoding gives to a text, or
/// none where the tokenizer cannot be built or gives up on the text.
pub uninterp spec fn cl100k_token_count(text: Seq<char>) -> Option<nat>;

/// Counts the tokens of `text` with `tiktoken_rs`: builds the `cl100k_base`
/// tokenizer and calls `CoreBPE::count` with no special token allowed, which
/// encodes the whole text as ordinary text. The count is a function of the
/// text alone; the contract gives it a name and claims nothing else of it.
/// Where the tokenizer cannot be built, or its pattern matcher reports an
/// error on the text, there is no count.
#[verifier::external_body]
pub(crate) fn cl100k_count(text: &str) -> (r: Option<usize>)
    ensures
        match r {
            Some(n) => cl100k_token_count(text@) == Some(n as nat),
            None => cl100k_token_count(text@) is None,
        },
{
    match tiktoken_rs::cl100k_base() {
        Ok(bpe) => bpe.count(text, &std::collections::HashSet::new()).ok(),
        Err(_) => None,
    }
}

/// Whether `c` is white space: a character with the Unicode property
/// `White_Space`.
pub open spec fn is_space(c: char) -> bool {
    let u = c as u32;
    ||| 0x09 <= u <= 0x0d
    ||| u == 0x20
    ||| u == 0x85
    ||| u == 0xa0
    ||| u == 0x1680
    ||| 0x2000 <= u <= 0x200a
    ||| u == 0x2028
    ||| u == 0x2029
    ||| u == 0x202f
    ||| u == 0x205f
    ||| u == 0x3000
}

/// Number of words of `s`: the runs of characters that are not white space.
pub open spec fn word_count(s: Seq<char>) -> nat
    decreases s.len(),
{
    if s.len() == 0 {
        0
    } else {
        word_count(s.drop_last()) + (if !is_space(s.last()) && (s.len() == 1 || is_space(
            s[s.len() - 2],
        )) {
            1nat
        } else {
            0nat
        })
    }
}

/// Token estimate for a text of `words` words where no tokenizer is at
/// hand: 1.3 tokens for a word, rounded up.
pub open spec fn word_estimate(words: nat) -> nat {
    (13 * words + 9) / 10
}

/// The token count of a text: that of the tokenizer where there is one,
/// else the estimate from its words.
pub open spec fn counted_tokens(text: Seq<char>) -> nat {
    match cl100k_token_count(text) {
        Some(n) => n,
        None => word_estimate(word_count(text)),
    }
}

/// The token count of a message: four tokens for its framing, and the
/// tokens of its role and of its content.
pub open spec fn message_tokens(role: Seq<char>, content: Seq<char>) -> nat {
    4 + counted_tokens(role) + counted_tokens(content)
}

/// Whether `c` is white space.
pub fn is_whitespace(c: char) -> (r: bool)
    ensures
        r == is_space(c),
{
    let u = c as u32;
    (0x09 <= u && u <= 0x0d) || u == 0x20 || u == 0x85 || u == 0xa0 || u == 0x1680 || (0x2000 <= u
        && u <= 0x200a) || u == 0x2028 || u == 0x2029 || u == 0x202f || u == 0x205f || u == 0x3000
}

/// Number of words of `s`.
pub fn count_words(s: &str) -> (n: usize)
    ensures
        n == word_count(s@),
{
    let mut n: usize = 0;
    let mut in_word = false;
    let length = s.unicode_len();
    assert(s@.take(0) =~= Seq::<char>::empty());
    for c in it: s.chars()
        invariant
            it.seq() == s@,
            s@.len() == length,
            n == word_count(s@.take(it.index() as int)),
            n <= it.index(),
            in_word == (it.index() > 0 && !is_space(s@[it.index() - 1])),
    {
        let ghost i = it.index() as int;
        proof {
            let next = s@.take(i + 1);
            assert(next.drop_last() =~= s@.take(i));
            assert(next.last() == c);
        }
        let space = is_whitespace(c);
        if !space && !in_word {
            n = n + 1;
        }
        in_word = !space;
    }
    assert(s@.take(s@.len() as int) =~= s@);
    n
}

/// The token count given what the tokenizer said and the number of words of
/// the text: the count of the tokenizer where there is one, else the
/// estimate from the words, capped at the largest machine word.
pub fn tokens_from(counted: Option<usize>, words: usize) -> (n: usize)
    ensures
        n == (match counted {
            Some(c) => c as nat,
            None => if word_estimate(words as nat) <= usize::MAX {
                word_estimate(words as nat)
            } else {
                usize::MAX as nat
            },
        }),
{
    match counted {
        Some(c) => c,
        None => {
            let estimate: u128 = (13 * (words as u128) + 9) / 10;
            if estimate <= usize::MAX as u128 {
                estimate as usize
            } else {
                usize::MAX
            }
        },
    }
}

/// The token count of `text`, if it fits the machine word. The model is
/// not looked at: one encoding serves all.
pub fn try_count_tokens(text: &str, model: &str) -> (r: Option<usize>)
    ensures
        match r {
            Some(n) => n == counted_tokens(text@),
            None => counted_tokens(text@) > usize::MAX,
        },
{
    let counted = cl100k_count(text);
    match counted {
        Some(n) => Some(n),
        None => {
            let words = count_words(text);
            let estimate: u128 = (13 * (words as u128) + 9) / 10;
            if estimate <= usize::MAX as u128 {
                Some(count_tokens(text, model))
            } else {
                None
            }
        },
    }
}

/// The token count of `text`. The model is not looked at: one encoding
/// serves all.
pub fn count_tokens(text: &str, model: &str) -> (n: usize)
    requires
        counted_tokens(text@) <= usize::MAX,
    ensures
        n == counted_tokens(text@),
{
    let counted = cl100k_count(text);
    let words = match counted {
        Some(_) => 0,
        None => count_words(text),
    };
    tokens_from(counted, words)
}

/// The token count of a message with its role, if it fits the machine word.
pub fn try_estimate_message_tokens(role: &str, content: &str, model: &str) -> (r: Option<usize>)
    ensures
        match r {
            Some(n) => n == message_tokens(role@, content@),
            None => message_tokens(role@, content@) > usize::MAX,
        },
{
    let role_tokens = match try_count_tokens(role, model) {
        Some(n) => n,
        None => {
            return None;
        },
    };
    let content_tokens = match try_count_tokens(content, model) {
        Some(n) => n,
        None => {
            return None;
        },
    };
    if role_tokens <= usize::MAX - 4 && content_tokens <= usize::MAX - 4 - role_tokens {
        Some(estimate_message_tokens(role, content, model))
    } else {
        None
    }
}

/// The token count of a message with its role: four tokens for its framing,
/// and the tokens of its role and of its content.
pub fn estimate_message_tokens(role: &str, content: &str, model: &str) -> (n: usize)
    requires
        message_tokens(role@, content@) <= usize::MAX,
    ensures
        n == message_tokens(role@, content@),
{
    let overhead: usize = 4;
    let role_tokens = count_tokens(role, model);
    let content_tokens = count_tokens(content, model);
    overhead + role_tokens + content_tokens
}

} // verus!
