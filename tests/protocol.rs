use sb_explorer::error::disposition_succeeded;
use sb_explorer::models::{BrokerProperties, ReceivedMessage, ServiceBusMessage};
use sb_explorer::protocol::{
    broker_property_pairs, classify_head_status, custom_header_value, dead_letter_path,
    dead_letter_property_pairs, entity_resend_pair, head_url, is_custom_header, normalize_path,
    send_path, send_url, strip_quotes, subscription_path, topic_purge_paths, topic_resend_pairs,
    HeadStatus,
};

#[test]
fn head_statuses() {
    assert_eq!(classify_head_status(201), HeadStatus::Delivered);
    assert_eq!(classify_head_status(200), HeadStatus::Delivered);
    assert_eq!(classify_head_status(204), HeadStatus::Empty);
    assert_eq!(classify_head_status(404), HeadStatus::Empty);
    assert_eq!(classify_head_status(401), HeadStatus::Failed);
    assert_eq!(classify_head_status(500), HeadStatus::Failed);
    assert!(disposition_succeeded(200));
    assert!(!disposition_succeeded(400));
}

#[test]
fn paths_and_urls() {
    assert_eq!(normalize_path("t/Subscriptions/s"), "t/subscriptions/s");
    assert_eq!(normalize_path("a/Subscriptions/b/Subscriptions/c"), "a/subscriptions/b/subscriptions/c");
    assert_eq!(dead_letter_path("q"), "q/$deadletterqueue");
    assert_eq!(subscription_path("t", "s"), "t/subscriptions/s");
    assert_eq!(send_path("t/Subscriptions/s"), "t");
    assert_eq!(send_path("t/subscriptions/s"), "t");
    assert_eq!(send_path("queue1"), "queue1");
    assert_eq!(
        head_url("https://ns.example", "t/Subscriptions/s/$deadletterqueue", 1),
        "https://ns.example/t/subscriptions/s/$deadletterqueue/messages/head?api-version=2017-04&timeout=1"
    );
    assert_eq!(send_url("https://ns.example", "q"), "https://ns.example/q/messages?api-version=2017-04");
    let subs = vec![String::from("a"), String::from("b")];
    assert_eq!(topic_purge_paths("t", &subs, false), vec!["t/subscriptions/a", "t/subscriptions/b"]);
    assert_eq!(
        topic_purge_paths("t", &subs, true),
        vec!["t/subscriptions/a/$deadletterqueue", "t/subscriptions/b/$deadletterqueue"]
    );
    let pairs = topic_resend_pairs("t", &subs);
    assert_eq!(pairs[1], (String::from("t/subscriptions/b/$deadletterqueue"), String::from("t")));
    assert_eq!(
        entity_resend_pair("t/Subscriptions/s"),
        (String::from("t/Subscriptions/s/$deadletterqueue"), String::from("t"))
    );
}

#[test]
fn outgoing_headers() {
    let mut m = ServiceBusMessage::default();
    m.message_id = Some(String::from("m1"));
    m.label = Some(String::from("L"));
    m.partition_key = Some(String::from("p"));
    m.time_to_live = Some(String::from("60"));
    let pairs = broker_property_pairs(&m);
    assert_eq!(
        pairs,
        vec![
            (String::from("MessageId"), String::from("m1")),
            (String::from("Label"), String::from("L")),
            (String::from("PartitionKey"), String::from("p")),
        ]
    );
    assert!(broker_property_pairs(&ServiceBusMessage::default()).is_empty());
    assert_eq!(custom_header_value("v"), "\"v\"");
    assert_eq!(
        dead_letter_property_pairs(None, None),
        vec![(String::from("DeadLetterReason"), String::from("Manual dead-letter"))]
    );
    assert_eq!(
        dead_letter_property_pairs(Some("bad"), Some("why")),
        vec![
            (String::from("DeadLetterReason"), String::from("bad")),
            (String::from("DeadLetterErrorDescription"), String::from("why")),
        ]
    );
}

#[test]
fn incoming_headers() {
    assert!(is_custom_header("tenant"));
    assert!(!is_custom_header("content-type"));
    assert!(!is_custom_header("brokerproperties"));
    assert!(!is_custom_header("location"));
    assert!(!is_custom_header("x-ms-request-id"));
    assert!(!is_custom_header("date"));
    assert_eq!(strip_quotes("\"abc\""), "abc");
    assert_eq!(strip_quotes("\"\"x\""), "x");
    assert_eq!(strip_quotes("plain"), "plain");
    assert_eq!(strip_quotes("\"\""), "");
}

#[test]
fn resend_copy_keeps_only_sender_fields() {
    let mut props = BrokerProperties::default();
    props.message_id = Some(String::from("id"));
    props.content_type = Some(String::from("text/plain"));
    props.sequence_number = Some(9);
    props.delivery_count = Some(4);
    props.dead_letter_reason = Some(String::from("r"));
    props.to = Some(String::from("dropped"));
    let m = ReceivedMessage {
        body: String::from("b"),
        broker_properties: props,
        custom_properties: vec![(String::from("k"), String::from("v"))],
        lock_token_uri: Some(String::from("lock")),
    };
    let s = m.to_sendable();
    assert_eq!(s.body, "b");
    assert_eq!(s.message_id.as_deref(), Some("id"));
    assert_eq!(s.content_type.as_deref(), Some("text/plain"));
    assert_eq!(s.to, None);
    assert_eq!(s.custom_properties, vec![(String::from("k"), String::from("v"))]);
    let unlocked = m.without_lock();
    assert_eq!(unlocked.lock_token_uri, None);
    assert_eq!(unlocked.broker_properties.sequence_number, Some(9));
}
