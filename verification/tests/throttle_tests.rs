//! Tests of the progress throttle.

use codex_orchestrator::throttle::ProgressThrottle;
use codex_orchestrator::throttle::HARD_FLUSH_SIZE;
use codex_orchestrator::throttle::PROGRESS_INTERVAL_MS;
use codex_orchestrator::throttle::TAIL_WINDOW;

#[test]
fn throttle_constants() {
    assert_eq!(PROGRESS_INTERVAL_MS, 900);
    assert_eq!(HARD_FLUSH_SIZE, 500);
    assert_eq!(TAIL_WINDOW, 400);
}

#[test]
fn throttle_holds_back_short_text_within_the_interval() {
    let mut throttle = ProgressThrottle::new(1_000);
    assert_eq!(throttle.offer("abc", 1_000), None);
    assert_eq!(throttle.offer("def", 1_899), None);
}

#[test]
fn throttle_releases_after_the_interval() {
    let mut throttle = ProgressThrottle::new(1_000);
    assert_eq!(throttle.offer("abc", 1_500), None);
    assert_eq!(throttle.offer("def", 1_900), Some("abcdef".to_string()));
    // the clock restarts at the release and the buffer is empty
    assert_eq!(throttle.offer("ghi", 2_799), None);
    assert_eq!(throttle.offer("", 2_800), Some("ghi".to_string()));
}

#[test]
fn throttle_releases_on_a_line_feed() {
    let mut throttle = ProgressThrottle::new(0);
    assert_eq!(throttle.offer("first ", 1), None);
    assert_eq!(throttle.offer("line\n", 2), Some("first line\n".to_string()));
    assert_eq!(throttle.offer("next", 3), None);
}

#[test]
fn throttle_releases_the_tail_of_an_oversized_buffer() {
    let mut throttle = ProgressThrottle::new(0);
    let head = "a".repeat(200);
    let tail = "b".repeat(400);
    assert_eq!(throttle.offer(&head, 1), None);
    assert_eq!(throttle.offer(&tail, 2), Some(tail.clone()));
}

#[test]
fn throttle_five_hundred_characters_do_not_force_a_release() {
    let mut throttle = ProgressThrottle::new(0);
    assert_eq!(throttle.offer(&"a".repeat(500), 1), None);
    let emitted = throttle.offer("b", 2);
    assert_eq!(emitted, Some(format!("{}b", "a".repeat(399))));
}

#[test]
fn throttle_sizes_count_characters_not_bytes() {
    let mut throttle = ProgressThrottle::new(0);
    // 300 characters of two bytes: 600 bytes, but under the size limit
    let text = "é".repeat(300);
    assert_eq!(throttle.offer(&text, 1), None);
    // 500 characters in all: still nothing forces a release
    assert_eq!(throttle.offer(&"ü".repeat(200), 2), None);
    // the 501st character does, and the last 400 characters are released
    assert_eq!(
        throttle.offer("!", 3),
        Some(format!("{}{}!", "é".repeat(199), "ü".repeat(200)))
    );
    // a buffer of 450 characters released by the clock gives its last 400
    assert_eq!(throttle.offer(&"é".repeat(450), 4), None);
    assert_eq!(throttle.offer("", 903), Some("é".repeat(400)));
}

#[test]
fn throttle_interval_release_above_window_gives_tail() {
    let mut throttle = ProgressThrottle::new(0);
    assert_eq!(throttle.offer(&"a".repeat(450), 10), None);
    assert_eq!(throttle.offer("", 900), Some("a".repeat(400)));
}

#[test]
fn throttle_offer_final_leaves_the_buffer_alone() {
    let mut throttle = ProgressThrottle::new(0);
    assert_eq!(throttle.offer("pending", 1), None);
    assert_eq!(throttle.offer_final("whole message"), "whole message");
    assert_eq!(throttle.offer_final(""), "");
    assert_eq!(throttle.offer("", 500), None);
    assert_eq!(throttle.offer("!", 900), Some("pending!".to_string()));
}

#[test]
fn throttle_clock_going_back_counts_as_no_time() {
    let mut throttle = ProgressThrottle::new(5_000);
    assert_eq!(throttle.offer("a", 10), None);
    assert_eq!(throttle.offer("b", 5_900), Some("ab".to_string()));
}
