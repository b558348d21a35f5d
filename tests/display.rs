use sb_explorer::auth::redact_connection_string_for_preview;
use sb_explorer::display::{find_parent_topic, mask_secret_ascii_keep_suffix, truncate};
use sb_explorer::models::EntityType;
use sb_explorer::tree::FlatNode;

fn row(t: EntityType, path: &str) -> FlatNode {
    FlatNode {
        id: String::from(path),
        label: String::from(path),
        entity_type: t,
        path: String::from(path),
        depth: 0,
        expanded: false,
        has_children: false,
        message_count: None,
        dlq_count: None,
    }
}

#[test]
fn connection_preview_hides_the_key() {
    assert_eq!(
        redact_connection_string_for_preview("Endpoint=sb://a/;SharedAccessKeyName=root;SharedAccessKey=secret"),
        "Endpoint=sb://a/; SharedAccessKeyName=root; SharedAccessKey=***"
    );
    assert_eq!(
        redact_connection_string_for_preview("Endpoint=sb://a/;SharedAccessKey=secret"),
        "Endpoint=sb://a/; SharedAccessKey=***"
    );
    assert_eq!(redact_connection_string_for_preview("SharedAccessKey=secret"), "(redacted SAS connection)");
}

#[test]
fn masking_and_truncation() {
    assert_eq!(mask_secret_ascii_keep_suffix("abcdefgh", 4), "****efgh");
    assert_eq!(mask_secret_ascii_keep_suffix("abc", 4), "abc");
    assert_eq!(mask_secret_ascii_keep_suffix("", 4), "");
    assert_eq!(truncate("hello", 5), "hello");
    assert_eq!(truncate("hello world", 5), "hello\u{2026}");
}

#[test]
fn parent_topic_of_rows() {
    let rows = vec![
        row(EntityType::TopicFolder, ""),
        row(EntityType::Topic, "events"),
        row(EntityType::SubscriptionFolder, ""),
        row(EntityType::Subscription, "events/Subscriptions/all"),
        row(EntityType::Queue, "q"),
    ];
    assert_eq!(find_parent_topic(&rows, 3), Some(String::from("events")));
    assert_eq!(find_parent_topic(&rows, 2), Some(String::from("events")));
    assert_eq!(find_parent_topic(&rows, 4), None);
    assert_eq!(find_parent_topic(&rows, 9), None);
    assert_eq!(find_parent_topic(&[row(EntityType::SubscriptionFolder, "")].to_vec(), 0), None);
}
