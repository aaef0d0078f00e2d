use chat_relay::accumulator::TokenAccumulator;
use chat_relay::flush::flush_poll;

#[test]
fn drain_concatenates_pushes_in_order() {
    let mut acc = TokenAccumulator::new();
    acc.push("Hel".to_string());
    acc.push("lo ".to_string());
    acc.push("world".to_string());
    let text = acc.drain();
    assert_eq!(text, "Hello world");
}

#[test]
fn drain_on_empty_buffer_returns_empty_text() {
    let mut acc = TokenAccumulator::new();
    let text = acc.drain();
    assert_eq!(text, "");
}

#[test]
fn drain_empties_the_buffer() {
    let mut acc = TokenAccumulator::new();
    acc.push("one".to_string());
    let first = acc.drain();
    let second = acc.drain();
    assert_eq!(first, "one");
    assert_eq!(second, "");
}

#[test]
fn fragments_pushed_after_a_drain_come_out_in_later_drains() {
    let mut acc = TokenAccumulator::new();
    acc.push("a".to_string());
    let first = acc.drain();
    acc.push("b".to_string());
    acc.push("c".to_string());
    let second = acc.drain();
    assert_eq!(format!("{}{}", first, second), "abc");
}

#[test]
fn mark_done_sets_the_completion_flag() {
    let mut acc = TokenAccumulator::new();
    assert!(!acc.is_done());
    acc.mark_done();
    assert!(acc.is_done());
}

#[test]
fn flush_poll_reports_the_flag_observed_before_the_drain() {
    let mut acc = TokenAccumulator::new();
    acc.push("abc".to_string());
    let early = flush_poll(&mut acc);
    assert!(!early.finished);
    assert_eq!(early.payload, Some("abc".to_string()));

    acc.push("tail".to_string());
    acc.mark_done();
    let late = flush_poll(&mut acc);
    assert!(late.finished);
    assert_eq!(late.payload, Some("tail".to_string()));
}

#[test]
fn text_forwarded_before_an_abort_is_a_prefix_of_the_pushes() {
    // When the consumer stops early — the connection died mid-stream — what
    // it forwarded so far is exactly a prefix of what was pushed.
    let mut acc = TokenAccumulator::new();
    acc.push("one ".to_string());
    acc.push("two ".to_string());
    let forwarded = acc.drain();
    acc.push("three".to_string());
    // The loop aborts here; "three" stays behind, nothing is reordered.
    assert!("one two three".starts_with(&forwarded));
    assert_eq!(forwarded, "one two ");
}

#[test]
fn flush_poll_returns_no_payload_for_an_empty_buffer() {
    let mut acc = TokenAccumulator::new();
    let poll = flush_poll(&mut acc);
    assert!(poll.payload.is_none());
    assert!(!poll.finished);
}
