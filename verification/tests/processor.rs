use hybrid_crypto::processor::Message;
use hybrid_crypto::processor::MessageType;
use hybrid_crypto::processor::RustMessageProcessor;

fn message(id: &str, chat_id: &str, content: &str) -> Message {
    Message {
        id: id.to_string(),
        chat_id: chat_id.to_string(),
        sender_id: "tester".to_string(),
        content: content.to_string(),
        timestamp: 0,
        message_type: MessageType::Text,
    }
}

#[test]
fn queue_then_process_in_batches() {
    let mut processor = RustMessageProcessor::new(10, 2);
    processor.queue_message(message("1", "chat", "first")).unwrap();
    processor.queue_message(message("2", "chat", "second")).unwrap();
    processor.queue_message(message("3", "chat", "third")).unwrap();

    let batch = processor.process_batch("chat").unwrap();
    assert_eq!(batch.len(), 2);
    assert_eq!(batch[0].id, "1");
    assert_eq!(batch[0].content, "first");
    assert_eq!(batch[1].id, "2");
    assert!(!processor.is_queue_empty("chat").unwrap());

    let rest = processor.process_batch("chat").unwrap();
    assert_eq!(rest.len(), 1);
    assert_eq!(rest[0].id, "3");
    assert!(processor.is_queue_empty("chat").unwrap());
}

#[test]
fn chats_are_kept_apart() {
    let mut processor = RustMessageProcessor::new(10, 10);
    processor.queue_message(message("a1", "alpha", "to alpha")).unwrap();
    processor.queue_message(message("b1", "beta", "to beta")).unwrap();
    processor.queue_message(message("a2", "alpha", "to alpha again")).unwrap();

    let alpha = processor.process_batch("alpha").unwrap();
    assert_eq!(alpha.len(), 2);
    assert_eq!(alpha[0].id, "a1");
    assert_eq!(alpha[1].id, "a2");
    assert!(!processor.is_queue_empty("beta").unwrap());
}

#[test]
fn full_chat_rejects_messages() {
    let mut processor = RustMessageProcessor::new(1, 10);
    processor.queue_message(message("1", "chat", "fits")).unwrap();
    let outcome = processor.queue_message(message("2", "chat", "does not"));
    assert_eq!(outcome.unwrap_err(), "Queue is full");
}

#[test]
fn missing_chat_is_reported() {
    let mut processor = RustMessageProcessor::new(10, 10);
    let outcome = processor.process_batch("nowhere");
    assert_eq!(outcome.unwrap_err(), "Chat not found");
    assert!(processor.is_queue_empty("nowhere").unwrap());
}

#[test]
fn sanitize_rewrites_dangerous_fragments() {
    let processor = RustMessageProcessor::new(10, 10);
    assert_eq!(
        processor.sanitize_content("<script>x</script>"),
        "&lt;script>x&lt;/script&gt;"
    );
    assert_eq!(processor.sanitize_content("javascript:alert"), "alert");
    assert_eq!(processor.sanitize_content("DROP TABLE users"), " users");
    assert_eq!(processor.sanitize_content("SELECT * FROM t"), " FROM t");
    assert_eq!(processor.sanitize_content("plain text"), "plain text");
}

#[test]
fn processed_content_is_sanitized() {
    let mut processor = RustMessageProcessor::new(10, 10);
    processor
        .queue_message(message("1", "chat", "hi <script>alert(1)</script>"))
        .unwrap();
    let batch = processor.process_batch("chat").unwrap();
    assert_eq!(batch[0].content, "hi &lt;script>alert(1)&lt;/script&gt;");
}

#[test]
fn long_content_is_truncated() {
    let mut processor = RustMessageProcessor::new(10, 10);
    let long = "a".repeat(10_050);
    processor.queue_message(message("1", "chat", &long)).unwrap();
    let batch = processor.process_batch("chat").unwrap();
    assert_eq!(batch[0].content.len(), 10_000);
}

#[test]
fn metrics_count_operations() {
    let mut processor = RustMessageProcessor::new(10, 2);
    processor.queue_message(message("1", "chat", "x")).unwrap();
    processor.queue_message(message("2", "chat", "y")).unwrap();
    let peak_after_queueing = processor.get_metrics().peak_memory_usage;
    assert_eq!(peak_after_queueing, 2048);

    processor.process_batch("chat").unwrap();
    let metrics = processor.get_metrics();
    assert_eq!(metrics.messages_processed, 3);
    assert_eq!(metrics.errors_count, 0);
    assert_eq!(metrics.peak_memory_usage, 2048);
}

#[test]
fn empty_processor_reports_empty_queues() {
    let processor = RustMessageProcessor::new(5, 5);
    assert!(processor.is_queue_empty("any").unwrap());
    let metrics = processor.get_metrics();
    assert_eq!(metrics.messages_processed, 0);
    assert_eq!(metrics.average_processing_time, 0);
}
