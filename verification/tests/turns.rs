use chat_relay::accumulator::TokenAccumulator;
use chat_relay::chat::{ChatService, DeltaMerger, TurnError};
use chat_relay::conversation::ConversationLog;
use chat_relay::delta::ProviderDelta;
use chat_relay::flush::flush_poll;
use chat_relay::message::Role;

fn delta(id: u64, fragment: &str, finish: bool) -> ProviderDelta {
    ProviderDelta {
        id,
        fragment: Some(fragment.to_string()),
        finish,
    }
}

#[test]
fn successful_turn_appends_user_then_assistant() {
    let service = ChatService::new();
    let mut log = ConversationLog::new();
    let mut acc = TokenAccumulator::new();
    let deltas = vec![delta(1, "Cats", false), delta(1, " are wonderful.", true)];

    let result = service.chat("tell me about cats", &mut log, &mut acc, &deltas, false);

    assert!(result.is_ok());
    assert_eq!(log.len(), 2);
    assert_eq!(log.message_at(0).role, Role::User);
    assert_eq!(
        log.message_at(0).content,
        Some("tell me about cats".to_string())
    );
    assert_eq!(log.message_at(1).role, Role::Assistant);
    assert_eq!(
        log.message_at(1).content,
        Some("Cats are wonderful.".to_string())
    );
    assert!(acc.is_done());
}

#[test]
fn forwarded_drains_concatenate_to_the_full_reply_before_done_trips() {
    // The provider yields three fragments and a finish marker; the flush
    // loop's forwarded output, concatenated in order, is the full reply.
    let mut acc = TokenAccumulator::new();
    let mut merger = DeltaMerger::new();
    let mut forwarded = String::new();
    let mut observed_done_before_last_fragment = false;

    let deltas = vec![delta(9, "Hel", false), delta(9, "lo ", false), delta(9, "world", true)];
    for d in &deltas {
        merger.absorb(d, &mut acc).unwrap();
        let poll = flush_poll(&mut acc);
        if poll.finished {
            observed_done_before_last_fragment = true;
        }
        if let Some(text) = poll.payload {
            forwarded.push_str(&text);
        }
    }
    assert!(!observed_done_before_last_fragment);
    acc.mark_done();
    let last = flush_poll(&mut acc);
    assert!(last.finished);
    if let Some(text) = last.payload {
        forwarded.push_str(&text);
    }
    assert_eq!(forwarded, "Hello world");

    let message = merger.finish().unwrap();
    assert_eq!(message.role, Role::Assistant);
    assert_eq!(message.content, Some("Hello world".to_string()));
}

#[test]
fn stream_failure_still_marks_done_and_keeps_only_the_user_message() {
    // The provider's stream errors after one delta: the accumulator still
    // completes, and the log gains the user message but no assistant entry.
    let service = ChatService::new();
    let mut log = ConversationLog::new();
    let mut acc = TokenAccumulator::new();
    let deltas = vec![delta(4, "par", false)];

    let result = service.chat("question", &mut log, &mut acc, &deltas, true);

    assert_eq!(result, Err(TurnError::Stream));
    assert!(acc.is_done());
    assert_eq!(log.len(), 1);
    assert_eq!(log.message_at(0).role, Role::User);
}

#[test]
fn empty_stream_fails_the_turn_but_completes_the_accumulator() {
    let service = ChatService::new();
    let mut log = ConversationLog::new();
    let mut acc = TokenAccumulator::new();
    let deltas: Vec<ProviderDelta> = Vec::new();

    let result = service.chat("anyone there", &mut log, &mut acc, &deltas, false);

    assert_eq!(result, Err(TurnError::EmptyCompletion));
    assert!(acc.is_done());
    assert_eq!(log.len(), 1);
}

#[test]
fn incompatible_deltas_fail_the_merge() {
    let service = ChatService::new();
    let mut log = ConversationLog::new();
    let mut acc = TokenAccumulator::new();
    let deltas = vec![delta(1, "a", false), delta(2, "b", false)];

    let result = service.chat("query", &mut log, &mut acc, &deltas, false);

    assert_eq!(result, Err(TurnError::Merge));
    assert!(acc.is_done());
    assert_eq!(log.len(), 1);
    // The conflicting delta's fragment was pushed before the merge was
    // attempted, as the stream is consumed in arrival order.
    assert_eq!(acc.drain(), "ab");
}

#[test]
fn absorb_rejects_a_delta_of_another_stream_and_keeps_the_merger() {
    let mut acc = TokenAccumulator::new();
    let mut merger = DeltaMerger::new();
    merger.absorb(&delta(1, "first", false), &mut acc).unwrap();
    let conflict = merger.absorb(&delta(2, "second", false), &mut acc);
    assert_eq!(conflict, Err(TurnError::Merge));
    let message = merger.finish().unwrap();
    assert_eq!(message.content, Some("first".to_string()));
}

#[test]
fn deltas_without_fragments_contribute_no_text() {
    let service = ChatService::new();
    let mut log = ConversationLog::new();
    let mut acc = TokenAccumulator::new();
    let deltas = vec![
        delta(3, "only", false),
        ProviderDelta {
            id: 3,
            fragment: None,
            finish: true,
        },
    ];

    let result = service.chat("q", &mut log, &mut acc, &deltas, false);

    assert!(result.is_ok());
    assert_eq!(log.message_at(1).content, Some("only".to_string()));
    assert_eq!(acc.drain(), "only");
}

#[test]
fn empty_fragments_are_not_buffered_but_merge_fine() {
    let mut acc = TokenAccumulator::new();
    let mut merger = DeltaMerger::new();
    merger.absorb(&delta(5, "", false), &mut acc).unwrap();
    merger.absorb(&delta(5, "text", true), &mut acc).unwrap();
    assert_eq!(acc.drain(), "text");
    let message = merger.finish().unwrap();
    assert_eq!(message.content, Some("text".to_string()));
}

#[test]
fn finish_without_any_delta_reports_an_empty_completion() {
    let merger = DeltaMerger::new();
    assert!(matches!(merger.finish(), Err(TurnError::EmptyCompletion)));
}

#[test]
fn gen_sys_message_builds_a_system_message() {
    let m = ChatService::gen_sys_message("be kind");
    assert_eq!(m.role, Role::System);
    assert_eq!(m.content, Some("be kind".to_string()));
}

#[test]
fn gen_user_message_builds_a_user_message() {
    let m = ChatService::gen_user_message("hello");
    assert_eq!(m.role, Role::User);
    assert_eq!(m.content, Some("hello".to_string()));
}

#[test]
fn get_base_messages_opens_with_one_system_message() {
    let messages = ChatService::get_base_messages("you are helpful");
    assert_eq!(messages.len(), 1);
    assert_eq!(messages[0].role, Role::System);
    assert_eq!(messages[0].content, Some("you are helpful".to_string()));
}
