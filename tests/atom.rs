use sb_explorer::atom::{
    extract_element, extract_element_value, extract_entries, extract_title, extract_value_any_ns,
    parse_count_details, parse_optional_bool, parse_optional_i32, parse_optional_i64,
    parse_queue_feed, parse_queue_feed_with_counts, parse_queue_runtime_info, parse_rule_feed,
    parse_single_subscription, parse_subscription_feed_with_counts, parse_topic_runtime_info,
    queue_description_xml, subscription_description_xml, topic_description_xml, wrap_atom_entry,
};
use sb_explorer::models::{QueueDescription, RuleFilter, SubscriptionDescription, TopicDescription};

const FEED: &str = r#"<feed><entry><title type="text">orders</title><content><QueueDescription><LockDuration>PT1M</LockDuration><MaxSizeInMegabytes>1024</MaxSizeInMegabytes><RequiresSession>true</RequiresSession><MaxDeliveryCount>10</MaxDeliveryCount><Status> Active </Status><CountDetails><d2p1:ActiveMessageCount>7</d2p1:ActiveMessageCount><d2p1:DeadLetterMessageCount>3</d2p1:DeadLetterMessageCount></CountDetails></QueueDescription></content></entry><entry><title type="text"> billing </title><content><QueueDescription><EnablePartitioning>false</EnablePartitioning><MaxSizeInMegabytes>huge</MaxSizeInMegabytes></QueueDescription></content></entry></feed>"#;

#[test]
fn entries_are_split_in_order() {
    let entries = extract_entries(FEED);
    assert_eq!(entries.len(), 2);
    assert!(entries[0].starts_with("<entry>"));
    assert!(entries[0].ends_with("</entry>"));
    assert!(entries[1].contains("billing"));
    assert!(extract_entries("<feed></feed>").is_empty());
    assert!(extract_entries("<entry>never closed").is_empty());
}

#[test]
fn element_extraction() {
    assert_eq!(extract_element("<a x=\"1\">in</a>", "a"), Some(String::from("in")));
    assert_eq!(extract_element("<a>in", "a"), None);
    assert_eq!(extract_element_value("<v>  12 </v>", "v"), Some(String::from("12")));
    assert_eq!(extract_element_value("<v>   </v>", "v"), None);
    assert_eq!(extract_element_value("<v x='1'>12</v>", "v"), None);
    assert_eq!(extract_title("<entry><title type=\"text\"> q1 </title></entry>"), "q1");
    assert_eq!(extract_title("<entry></entry>"), "");
}

#[test]
fn namespace_prefixes_are_ignored() {
    let xml = "<CountDetails><d3p1:ActiveMessageCount>42</d3p1:ActiveMessageCount></CountDetails>";
    assert_eq!(extract_value_any_ns(xml, "ActiveMessageCount"), Some(String::from("42")));
    assert_eq!(extract_value_any_ns("<X>5</X>", "X"), Some(String::from("5")));
    assert_eq!(extract_value_any_ns("<a>1</a>", "X"), None);
}

#[test]
fn optional_values_parse_or_vanish() {
    assert_eq!(parse_optional_i64("<n>-17</n>", "n"), Some(-17));
    assert_eq!(parse_optional_i64("<n>+5</n>", "n"), Some(5));
    assert_eq!(parse_optional_i64("<n>x</n>", "n"), None);
    assert_eq!(parse_optional_i64("<n>99999999999999999999</n>", "n"), None);
    assert_eq!(parse_optional_i32("<n>2147483647</n>", "n"), Some(2147483647));
    assert_eq!(parse_optional_i32("<n>2147483648</n>", "n"), None);
    assert_eq!(parse_optional_bool("<b>true</b>", "b"), Some(true));
    assert_eq!(parse_optional_bool("<b>false</b>", "b"), Some(false));
    assert_eq!(parse_optional_bool("<b>TRUE</b>", "b"), None);
}

#[test]
fn queue_feed_reads_each_queue() {
    let qs = parse_queue_feed(FEED).unwrap();
    assert_eq!(qs.len(), 2);
    assert_eq!(qs[0].name, "orders");
    assert_eq!(qs[0].lock_duration.as_deref(), Some("PT1M"));
    assert_eq!(qs[0].max_size_in_megabytes, Some(1024));
    assert_eq!(qs[0].requires_session, Some(true));
    assert_eq!(qs[0].max_delivery_count, Some(10));
    assert_eq!(qs[0].status.as_deref(), Some("Active"));
    assert_eq!(qs[1].name, "billing");
    assert_eq!(qs[1].enable_partitioning, Some(false));
    assert_eq!(qs[1].max_size_in_megabytes, None);
    let with = parse_queue_feed_with_counts(FEED).unwrap();
    assert_eq!((with[0].1, with[0].2), (7, 3));
    assert_eq!((with[1].1, with[1].2), (0, 0));
}

#[test]
fn runtime_info_counts() {
    let xml = "<QueueDescription><SizeInBytes>2048</SizeInBytes><MessageCount>9</MessageCount><CreatedAt>2024-01-01</CreatedAt><CountDetails><d2p1:ActiveMessageCount>5</d2p1:ActiveMessageCount><d2p1:DeadLetterMessageCount>4</d2p1:DeadLetterMessageCount><d2p1:ScheduledMessageCount>3</d2p1:ScheduledMessageCount><d2p1:TransferMessageCount>2</d2p1:TransferMessageCount><d2p1:TransferDeadLetterMessageCount>1</d2p1:TransferDeadLetterMessageCount></CountDetails></QueueDescription>";
    assert_eq!(parse_count_details(xml), (5, 4, 3, 2, 1));
    assert_eq!(parse_count_details("<x/>"), (0, 0, 0, 0, 0));
    let q = parse_queue_runtime_info("q", xml).unwrap();
    assert_eq!(q.name, "q");
    assert_eq!(q.size_in_bytes, 2048);
    assert_eq!(q.message_count, 9);
    assert_eq!(q.scheduled_message_count, 3);
    assert_eq!(q.created_at.as_deref(), Some("2024-01-01"));
    assert_eq!(q.updated_at, None);
    let t = parse_topic_runtime_info("t", "<SubscriptionCount>4</SubscriptionCount>").unwrap();
    assert_eq!(t.subscription_count, 4);
    assert_eq!(t.size_in_bytes, 0);
}

#[test]
fn subscriptions_and_rules() {
    let feed = r#"<feed><entry><title type="text">s1</title><content><SubscriptionDescription><MaxDeliveryCount>5</MaxDeliveryCount><CountDetails><d2p1:ActiveMessageCount>1</d2p1:ActiveMessageCount><d2p1:DeadLetterMessageCount>2</d2p1:DeadLetterMessageCount></CountDetails></SubscriptionDescription></content></entry></feed>"#;
    let subs = parse_subscription_feed_with_counts("t", feed).unwrap();
    assert_eq!(subs.len(), 1);
    assert_eq!(subs[0].0.name, "s1");
    assert_eq!(subs[0].0.topic_name, "t");
    assert_eq!(subs[0].0.max_delivery_count, Some(5));
    assert_eq!((subs[0].1, subs[0].2), (1, 2));
    let single = parse_single_subscription("t", "fallback", "<SubscriptionDescription/>").unwrap();
    assert_eq!(single.name, "fallback");
    let rules = parse_rule_feed(r#"<feed><entry><title>$Default</title><Filter><SqlExpression>1=1</SqlExpression></Filter></entry><entry><title>r2</title><Filter><SqlExpression>color = 'red'</SqlExpression></Filter><Action><SqlExpression>SET x = 1</SqlExpression></Action></entry><entry><title>r3</title></entry></feed>"#).unwrap();
    assert_eq!(rules.len(), 3);
    assert!(matches!(rules[0].filter, RuleFilter::TrueFilter));
    assert!(matches!(rules[1].filter, RuleFilter::SqlFilter { ref expression } if expression == "color = 'red'"));
    assert_eq!(rules[1].action.as_deref(), Some("SET x = 1"));
    assert!(matches!(rules[2].filter, RuleFilter::TrueFilter));
    assert_eq!(rules[2].action, None);
}

#[test]
fn description_bodies() {
    let mut q = QueueDescription::default();
    q.lock_duration = Some(String::from("PT30S"));
    q.max_size_in_megabytes = Some(-5);
    q.requires_session = Some(false);
    q.max_delivery_count = Some(7);
    q.user_metadata = Some(String::from("not sent"));
    let xml = queue_description_xml(&q);
    assert!(xml.starts_with("<QueueDescription xmlns=\"http://schemas.microsoft.com/netservices/2010/10/servicebus/connect\""));
    assert!(xml.ends_with("<LockDuration>PT30S</LockDuration><MaxSizeInMegabytes>-5</MaxSizeInMegabytes><RequiresSession>false</RequiresSession><MaxDeliveryCount>7</MaxDeliveryCount></QueueDescription>"));
    let mut t = TopicDescription::default();
    t.support_ordering = Some(true);
    assert!(topic_description_xml(&t).ends_with("><SupportOrdering>true</SupportOrdering></TopicDescription>"));
    let s = SubscriptionDescription::default();
    assert!(subscription_description_xml(&s).ends_with("instance\"></SubscriptionDescription>"));
    assert_eq!(
        wrap_atom_entry("<X/>"),
        "<entry xmlns=\"http://www.w3.org/2005/Atom\">\n  <content type=\"application/xml\">\n    <X/>\n  </content>\n</entry>"
    );
}
