//! Tests of the token counter.

use codex_orchestrator::token_counter::count_tokens;
use codex_orchestrator::token_counter::count_words;
use codex_orchestrator::token_counter::estimate_message_tokens;
use codex_orchestrator::token_counter::is_whitespace;
use codex_orchestrator::token_counter::tokens_from;
use codex_orchestrator::token_counter::try_count_tokens;
use codex_orchestrator::token_counter::try_estimate_message_tokens;

#[test]
fn test_count_tokens() {
    let text = "Hello, world! This is a test.";
    let count = count_tokens(text, "gpt-4");
    // Should be around 8-10 tokens
    assert!(count > 5 && count < 15, "Token count: {count}");
}

#[test]
fn test_estimate_message_tokens() {
    let tokens = estimate_message_tokens("user", "Hello!", "gpt-4");
    // Should include overhead + role + content
    assert!(tokens > 5, "Message tokens: {tokens}");
}

#[test]
fn token_counts_of_known_texts() {
    assert_eq!(count_tokens("", "gpt-4"), 0);
    assert_eq!(count_tokens("hello world", "gpt-4"), 2);
    assert_eq!(count_tokens("Hello, world! This is a test.", "any-model"), 9);
    assert_eq!(try_count_tokens("hello world", "gpt-4"), Some(2));
}

#[test]
fn message_tokens_add_up() {
    let role = count_tokens("user", "gpt-4");
    let content = count_tokens("Hello!", "gpt-4");
    assert_eq!(estimate_message_tokens("user", "Hello!", "gpt-4"), 4 + role + content);
    assert_eq!(try_estimate_message_tokens("user", "Hello!", "gpt-4"), Some(4 + role + content));
    assert_eq!(estimate_message_tokens("", "", "gpt-4"), 4);
}

#[test]
fn words_agree_with_the_standard_library() {
    let samples = [
        "",
        " ",
        "one",
        " one",
        "one ",
        "one two",
        "  one \t two\nthree\r\n",
        "a\u{a0}b\u{2003}c\u{3000}d\u{85}e\u{1680}f\u{2028}g\u{2029}h\u{202f}i\u{205f}j",
        "no\u{200b}break",
        "é ü",
    ];
    for sample in samples {
        assert_eq!(count_words(sample), sample.split_whitespace().count(), "words of {:?}", sample);
    }
    for code in 0u32..0x3100 {
        if let Some(c) = char::from_u32(code) {
            assert_eq!(is_whitespace(c), c.is_whitespace(), "U+{:04X}", code);
        }
    }
}

#[test]
fn estimate_without_a_tokenizer() {
    assert_eq!(tokens_from(Some(17), 3), 17);
    assert_eq!(tokens_from(None, 0), 0);
    assert_eq!(tokens_from(None, 1), 2);
    assert_eq!(tokens_from(None, 10), 13);
    assert_eq!(tokens_from(None, 11), 15);
    for words in 0usize..50_000 {
        let estimated = (words as f32 * 1.3).ceil() as usize;
        assert_eq!(tokens_from(None, words), estimated.max(words));
    }
}
