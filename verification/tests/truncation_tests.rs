//! Tests of the line-wise truncator on small inputs.

use codex_orchestrator::truncation::OutputTruncator;

#[test]
fn test_truncator_basic() {
    let mut truncator = OutputTruncator::new(100);
    let content = "Hello, world!";
    let (result, truncated) = truncator.truncate_if_needed(content);
    assert_eq!(result, content);
    assert!(!truncated);
}

#[test]
fn test_truncator_at_limit() {
    let mut truncator = OutputTruncator::new(10);
    let content = "a".repeat(50); // ~12 tokens
    let (result, truncated) = truncator.truncate_if_needed(&content);
    assert!(truncated);
    assert!(result.contains("[Output truncated at 5k token limit]"));
}

#[test]
fn test_truncator_multiple_calls() {
    let mut truncator = OutputTruncator::new(20);
    let content1 = "a".repeat(40); // ~10 tokens
    let (result1, truncated1) = truncator.truncate_if_needed(&content1);
    assert!(!truncated1);
    assert_eq!(result1, content1);

    let content2 = "b".repeat(40); // ~10 tokens
    let (result2, truncated2) = truncator.truncate_if_needed(&content2);
    assert!(!truncated2);
    assert_eq!(result2, content2);

    // Third call should be truncated
    let content3 = "c".repeat(40);
    let (_result3, truncated3) = truncator.truncate_if_needed(&content3);
    assert!(truncated3);
}

#[test]
fn truncator_keeps_the_prefix_that_fits() {
    let mut truncator = codex_orchestrator::truncation::OutputTruncator::new(10);
    let (result, truncated) = truncator.truncate_if_needed(&"a".repeat(100));
    assert!(truncated);
    assert_eq!(result, format!("{}\n\n[Output truncated at 5k token limit]", "a".repeat(40)));
    assert_eq!(truncator.current_tokens(), 10);
    assert!(truncator.is_at_limit());
    assert!(truncator.is_truncated());
}

#[test]
fn truncator_cuts_by_characters_whatever_the_lines() {
    let mut truncator = codex_orchestrator::truncation::OutputTruncator::new(1);
    let content = "a\r\nb\r\ncdefghijklmnop";
    let (result, truncated) = truncator.truncate_if_needed(content);
    assert!(truncated);
    assert_eq!(result, "a\r\nb\n\n[Output truncated at 5k token limit]");
    assert!(result.starts_with(&content[..4]));
}

#[test]
fn truncator_gives_one_marker_and_nothing_after_it() {
    let mut truncator = codex_orchestrator::truncation::OutputTruncator::new(5000);
    let mut out = String::new();
    let (first, truncated) = truncator.truncate_if_needed(&"a".repeat(40_000));
    assert!(truncated);
    out.push_str(&first);
    for later in ["more", "", &"b".repeat(100)] {
        let (text, truncated) = truncator.truncate_if_needed(later);
        assert_eq!(text, "");
        assert!(truncated);
        assert_eq!(truncator.current_tokens(), 5000);
        out.push_str(&text);
    }
    assert_eq!(out.len(), 20_000 + "\n\n[Output truncated at 5k token limit]".len());
    assert_eq!(out.matches("[Output truncated at 5k token limit]").count(), 1);
    assert!(out.ends_with("\n\n[Output truncated at 5k token limit]"));
}

#[test]
fn truncator_empty_content_is_a_no_op_in_every_state() {
    let mut truncator = codex_orchestrator::truncation::OutputTruncator::new(1);
    assert_eq!(truncator.truncate_if_needed(""), (String::new(), false));
    // an exact fit reaches the limit without a cut
    assert_eq!(truncator.truncate_if_needed("abcd"), ("abcd".to_string(), false));
    assert!(truncator.is_at_limit());
    assert!(!truncator.is_truncated());
    assert_eq!(truncator.truncate_if_needed(""), (String::new(), false));
    assert_eq!(truncator.current_tokens(), 1);
    // the next text is cut to nothing and closed by the marker
    assert_eq!(
        truncator.truncate_if_needed("e"),
        ("\n\n[Output truncated at 5k token limit]".to_string(), true)
    );
    assert_eq!(truncator.truncate_if_needed("").0, "");
    assert_eq!(truncator.current_tokens(), 1);
    assert!(truncator.is_at_limit());
}

#[test]
fn truncator_count_never_falls_and_never_passes_the_limit() {
    let mut truncator = codex_orchestrator::truncation::OutputTruncator::new(12);
    let mut last = 0;
    for content in ["abcd", "", "efghij", "k", &"l".repeat(100), "m", ""] {
        truncator.truncate_if_needed(content);
        assert!(truncator.current_tokens() >= last);
        assert!(truncator.current_tokens() <= 12);
        last = truncator.current_tokens();
    }
    assert_eq!(last, 12);
}

#[test]
fn truncator_estimate_is_bytes_over_four_rounded_up() {
    assert_eq!(codex_orchestrator::truncation::OutputTruncator::estimate_tokens(""), 0);
    assert_eq!(codex_orchestrator::truncation::OutputTruncator::estimate_tokens("abcde"), 2);
}
