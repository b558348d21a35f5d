use vstd::prelude::*;

use crate::text::lemma_find_bounds;
use crate::models::{QueueDescription, ServiceBusMessage, SubscriptionDescription, TopicDescription};
use crate::text::{
    bool_value, chars_of, find_from, find_spec, i32_value, i64_value, opt_view, parse_bool,
    parse_i32, parse_i64, slice, split_from, split_parts, text_of, trim, trim_spec,
};

verus! {

/// The value of form field `idx`, when the form has it and it is not empty.
pub open spec fn field_spec(fields: Seq<(String, String)>, idx: int) -> Option<Seq<char>> {
    if 0 <= idx < fields.len() && fields[idx].1@.len() > 0 {
        Some(fields[idx].1@)
    } else {
        None
    }
}

pub open spec fn field_i64(fields: Seq<(String, String)>, idx: int) -> Option<i64> {
    match field_spec(fields, idx) {
        Some(v) => i64_value(v),
        None => None,
    }
}

pub open spec fn field_i32(fields: Seq<(String, String)>, idx: int) -> Option<i32> {
    match field_spec(fields, idx) {
        Some(v) => i32_value(v),
        None => None,
    }
}

pub open spec fn field_bool(fields: Seq<(String, String)>, idx: int) -> Option<bool> {
    match field_spec(fields, idx) {
        Some(v) => bool_value(v),
        None => None,
    }
}

/// The value of a field, or the empty text.
pub open spec fn field_or_empty(fields: Seq<(String, String)>, idx: int) -> Seq<char> {
    match field_spec(fields, idx) {
        Some(v) => v,
        None => Seq::empty(),
    }
}

/// The value of form field `idx`, when present and not empty.
pub fn field_value(fields: &Vec<(String, String)>, idx: usize) -> (r: Option<String>)
    ensures
        opt_view(r) == field_spec(fields@, idx as int),
{
    if idx < fields.len() && fields[idx].1.as_str().unicode_len() > 0 {
        Some(fields[idx].1.clone())
    } else {
        None
    }
}

fn field_text(fields: &Vec<(String, String)>, idx: usize) -> (r: String)
    ensures
        r@ == field_or_empty(fields@, idx as int),
{
    match field_value(fields, idx) {
        Some(v) => v,
        None => String::new(),
    }
}

fn field_as_i64(fields: &Vec<(String, String)>, idx: usize) -> (r: Option<i64>)
    ensures
        r == field_i64(fields@, idx as int),
{
    match field_value(fields, idx) {
        Some(v) => parse_i64(v.as_str()),
        None => None,
    }
}

fn field_as_i32(fields: &Vec<(String, String)>, idx: usize) -> (r: Option<i32>)
    ensures
        r == field_i32(fields@, idx as int),
{
    match field_value(fields, idx) {
        Some(v) => parse_i32(v.as_str()),
        None => None,
    }
}

fn field_as_bool(fields: &Vec<(String, String)>, idx: usize) -> (r: Option<bool>)
    ensures
        r == field_bool(fields@, idx as int),
{
    match field_value(fields, idx) {
        Some(v) => parse_bool(v.as_str()),
        None => None,
    }
}

/// One `name=value` entry of a custom-property list: both trimmed, the
/// value after the first `=`; none without `=` or with an empty name.
pub open spec fn custom_pair(part: Seq<char>) -> Option<(Seq<char>, Seq<char>)> {
    match find_spec(part, seq!['='], 0) {
        Some(eq) => {
            let k = trim_spec(part.take(eq));
            if k.len() == 0 {
                None
            } else {
                Some((k, trim_spec(part.subrange(eq + 1, part.len() as int))))
            }
        },
        None => None,
    }
}

/// The custom properties written in the first `n` comma-separated parts.
pub open spec fn custom_pairs(parts: Seq<Seq<char>>, n: int) -> Seq<(Seq<char>, Seq<char>)>
    decreases n,
{
    if n <= 0 || n > parts.len() {
        Seq::empty()
    } else {
        custom_pairs(parts, n - 1) + match custom_pair(parts[n - 1]) {
            Some(p) => seq![p],
            None => Seq::empty(),
        }
    }
}

/// The custom properties written as `name=value, name=value, ...`.
pub open spec fn custom_properties_spec(text: Seq<char>) -> Seq<(Seq<char>, Seq<char>)> {
    let parts = split_from(text, ',', 0);
    custom_pairs(parts, parts.len() as int)
}

pub open spec fn pairs_view(v: Seq<(String, String)>) -> Seq<(Seq<char>, Seq<char>)> {
    v.map_values(|p: (String, String)| (p.0@, p.1@))
}

/// Reads custom properties written as `name=value, name=value, ...`.
pub fn parse_custom_properties(text: &str) -> (r: Vec<(String, String)>)
    ensures
        pairs_view(r@) == custom_properties_spec(text@),
{
    let s = chars_of(text);
    let parts = split_parts(&s, ',');
    let ghost pv = parts@.map_values(|p: Vec<char>| p@);
    let mut eqs: Vec<char> = Vec::new();
    eqs.push('=');
    assert(eqs@ =~= seq!['=']);
    let mut out: Vec<(String, String)> = Vec::new();
    let mut i: usize = 0;
    assert(pairs_view(out@) =~= Seq::<(Seq<char>, Seq<char>)>::empty());
    while i < parts.len()
        invariant
            i <= parts@.len(),
            pv == parts@.map_values(|p: Vec<char>| p@),
            pv == split_from(s@, ',', 0),
            s@ == text@,
            eqs@ == seq!['='],
            pairs_view(out@) == custom_pairs(pv, i as int),
        decreases parts@.len() - i,
    {
        let part = &parts[i];
        let plen = part.len();
        let ghost before = pairs_view(out@);
        assert(pv[i as int] == part@);
        match find_from(part, &eqs, 0) {
            Some(eq) => {
                proof {
                    lemma_find_bounds(part@, eqs@, 0);
                }
                let k = trim(&slice(part, 0, eq));
                if k.len() > 0 {
                    let v = trim(&slice(part, eq + 1, part.len()));
                    out.push((text_of(&k), text_of(&v)));
                    assert(pairs_view(out@) =~= before.push((k@, v@)));
                } else {
                    assert(before + Seq::<(Seq<char>, Seq<char>)>::empty() == before);
                }
            },
            None => {
                assert(before + Seq::<(Seq<char>, Seq<char>)>::empty() == before);
            },
        }
        i = i + 1;
    }
    out
}

/// The message a send form describes: body, content type, message id (or
/// `fresh_message_id` when none is given), correlation id, session id,
/// label, time to live and custom properties, in that field order.
pub fn build_message_from_form(fields: &Vec<(String, String)>, fresh_message_id: String) -> (r:
    ServiceBusMessage)
    ensures
        r.body@ == field_or_empty(fields@, 0),
        opt_view(r.content_type) == field_spec(fields@, 1),
        opt_view(r.message_id) == match field_spec(fields@, 2) {
            Some(v) => Some(v),
            None => Some(fresh_message_id@),
        },
        opt_view(r.correlation_id) == field_spec(fields@, 3),
        opt_view(r.session_id) == field_spec(fields@, 4),
        opt_view(r.label) == field_spec(fields@, 5),
        opt_view(r.time_to_live) == field_spec(fields@, 6),
        pairs_view(r.custom_properties@) == match field_spec(fields@, 7) {
            Some(t) => custom_properties_spec(t),
            None => Seq::empty(),
        },
        r.to is None && r.reply_to is None,
        r.scheduled_enqueue_time is None && r.partition_key is None,
{
    let custom = match field_value(fields, 7) {
        Some(t) => parse_custom_properties(t.as_str()),
        None => {
            let v: Vec<(String, String)> = Vec::new();
            assert(pairs_view(v@) =~= Seq::<(Seq<char>, Seq<char>)>::empty());
            v
        },
    };
    let message_id = match field_value(fields, 2) {
        Some(v) => v,
        None => fresh_message_id,
    };
    ServiceBusMessage {
        body: field_text(fields, 0),
        content_type: field_value(fields, 1),
        message_id: Some(message_id),
        correlation_id: field_value(fields, 3),
        session_id: field_value(fields, 4),
        label: field_value(fields, 5),
        to: None,
        reply_to: None,
        time_to_live: field_value(fields, 6),
        scheduled_enqueue_time: None,
        partition_key: None,
        custom_properties: custom,
    }
}

/// The queue a create-queue form describes: name, maximum size, lock
/// duration, default time to live, maximum delivery count, sessions,
/// partitioning and dead-lettering on expiry, in that field order.
pub fn build_queue_from_form(fields: &Vec<(String, String)>) -> (r: QueueDescription)
    ensures
        r.name@ == field_or_empty(fields@, 0),
        r.max_size_in_megabytes == field_i64(fields@, 1),
        opt_view(r.lock_duration) == field_spec(fields@, 2),
        opt_view(r.default_message_time_to_live) == field_spec(fields@, 3),
        r.max_delivery_count == field_i32(fields@, 4),
        r.requires_session == field_bool(fields@, 5),
        r.enable_partitioning == field_bool(fields@, 6),
        r.dead_lettering_on_message_expiration == field_bool(fields@, 7),
        r.requires_duplicate_detection is None && r.duplicate_detection_history_time_window is None,
        r.enable_batched_operations is None && r.status is None && r.forward_to is None,
        r.forward_dead_lettered_messages_to is None && r.auto_delete_on_idle is None,
        r.user_metadata is None,
{
    QueueDescription {
        name: field_text(fields, 0),
        lock_duration: field_value(fields, 2),
        max_size_in_megabytes: field_as_i64(fields, 1),
        requires_duplicate_detection: None,
        requires_session: field_as_bool(fields, 5),
        default_message_time_to_live: field_value(fields, 3),
        dead_lettering_on_message_expiration: field_as_bool(fields, 7),
        duplicate_detection_history_time_window: None,
        max_delivery_count: field_as_i32(fields, 4),
        enable_batched_operations: None,
        status: None,
        forward_to: None,
        forward_dead_lettered_messages_to: None,
        auto_delete_on_idle: None,
        enable_partitioning: field_as_bool(fields, 6),
        user_metadata: None,
    }
}

/// The topic a create-topic form describes: name, maximum size, default
/// time to live and partitioning, in that field order.
pub fn build_topic_from_form(fields: &Vec<(String, String)>) -> (r: TopicDescription)
    ensures
        r.name@ == field_or_empty(fields@, 0),
        r.max_size_in_megabytes == field_i64(fields@, 1),
        opt_view(r.default_message_time_to_live) == field_spec(fields@, 2),
        r.enable_partitioning == field_bool(fields@, 3),
        r.requires_duplicate_detection is None && r.duplicate_detection_history_time_window is None,
        r.enable_batched_operations is None && r.status is None && r.support_ordering is None,
        r.auto_delete_on_idle is None && r.user_metadata is None,
{
    TopicDescription {
        name: field_text(fields, 0),
        max_size_in_megabytes: field_as_i64(fields, 1),
        default_message_time_to_live: field_value(fields, 2),
        requires_duplicate_detection: None,
        duplicate_detection_history_time_window: None,
        enable_batched_operations: None,
        status: None,
        support_ordering: None,
        auto_delete_on_idle: None,
        enable_partitioning: field_as_bool(fields, 3),
        user_metadata: None,
    }
}

/// The subscription a create-subscription form describes: topic, name, lock
/// duration, default time to live, maximum delivery count, sessions and
/// dead-lettering on expiry, in that field order.
pub fn build_subscription_from_form(fields: &Vec<(String, String)>) -> (r: SubscriptionDescription)
    ensures
        r.topic_name@ == field_or_empty(fields@, 0),
        r.name@ == field_or_empty(fields@, 1),
        opt_view(r.lock_duration) == field_spec(fields@, 2),
        opt_view(r.default_message_time_to_live) == field_spec(fields@, 3),
        r.max_delivery_count == field_i32(fields@, 4),
        r.requires_session == field_bool(fields@, 5),
        r.dead_lettering_on_message_expiration == field_bool(fields@, 6),
        r.dead_lettering_on_filter_evaluation_exceptions is None,
        r.enable_batched_operations is None && r.status is None && r.forward_to is None,
        r.forward_dead_lettered_messages_to is None && r.auto_delete_on_idle is None,
        r.user_metadata is None,
{
    SubscriptionDescription {
        name: field_text(fields, 1),
        topic_name: field_text(fields, 0),
        lock_duration: field_value(fields, 2),
        requires_session: field_as_bool(fields, 5),
        default_message_time_to_live: field_value(fields, 3),
        dead_lettering_on_message_expiration: field_as_bool(fields, 6),
        dead_lettering_on_filter_evaluation_exceptions: None,
        max_delivery_count: field_as_i32(fields, 4),
        enable_batched_operations: None,
        status: None,
        forward_to: None,
        forward_dead_lettered_messages_to: None,
        auto_delete_on_idle: None,
        user_metadata: None,
    }
}

fn entry(label: &str, value: &str) -> (r: (String, String))
    ensures
        r.0@ == label@ && r.1@ == value@,
{
    (String::from_str(label), String::from_str(value))
}

/// The fields of a create-queue form with their starting values.
pub fn queue_form_fields() -> (r: Vec<(String, String)>)
    ensures
        pairs_view(r@) == seq![
            ("Queue Name"@, ""@),
            ("Max Size (MB)"@, "1024"@),
            ("Lock Duration"@, "PT30S"@),
            ("Default TTL"@, "P14D"@),
            ("Max Delivery Count"@, "10"@),
            ("Requires Session"@, "false"@),
            ("Enable Partitioning"@, "false"@),
            ("Dead-letter on Expiry"@, "false"@),
        ],
{
    let r = vec![
        entry("Queue Name", ""),
        entry("Max Size (MB)", "1024"),
        entry("Lock Duration", "PT30S"),
        entry("Default TTL", "P14D"),
        entry("Max Delivery Count", "10"),
        entry("Requires Session", "false"),
        entry("Enable Partitioning", "false"),
        entry("Dead-letter on Expiry", "false"),
    ];
    assert(pairs_view(r@) =~= seq![
        ("Queue Name"@, ""@),
        ("Max Size (MB)"@, "1024"@),
        ("Lock Duration"@, "PT30S"@),
        ("Default TTL"@, "P14D"@),
        ("Max Delivery Count"@, "10"@),
        ("Requires Session"@, "false"@),
        ("Enable Partitioning"@, "false"@),
        ("Dead-letter on Expiry"@, "false"@),
    ]);
    r
}

/// The fields of a create-topic form with their starting values.
pub fn topic_form_fields() -> (r: Vec<(String, String)>)
    ensures
        pairs_view(r@) == seq![
            ("Topic Name"@, ""@),
            ("Max Size (MB)"@, "1024"@),
            ("Default TTL"@, "P14D"@),
            ("Enable Partitioning"@, "false"@),
        ],
{
    let r = vec![
        entry("Topic Name", ""),
        entry("Max Size (MB)", "1024"),
        entry("Default TTL", "P14D"),
        entry("Enable Partitioning", "false"),
    ];
    assert(pairs_view(r@) =~= seq![
        ("Topic Name"@, ""@),
        ("Max Size (MB)"@, "1024"@),
        ("Default TTL"@, "P14D"@),
        ("Enable Partitioning"@, "false"@),
    ]);
    r
}

/// The fields of a create-subscription form for `topic_name` with their
/// starting values.
pub fn subscription_form_fields(topic_name: &str) -> (r: Vec<(String, String)>)
    ensures
        pairs_view(r@) == seq![
            ("Topic"@, topic_name@),
            ("Subscription Name"@, ""@),
            ("Lock Duration"@, "PT30S"@),
            ("Default TTL"@, "P14D"@),
            ("Max Delivery Count"@, "10"@),
            ("Requires Session"@, "false"@),
            ("Dead-letter on Expiry"@, "false"@),
        ],
{
    let r = vec![
        entry("Topic", topic_name),
        entry("Subscription Name", ""),
        entry("Lock Duration", "PT30S"),
        entry("Default TTL", "P14D"),
        entry("Max Delivery Count", "10"),
        entry("Requires Session", "false"),
        entry("Dead-letter on Expiry", "false"),
    ];
    assert(pairs_view(r@) =~= seq![
        ("Topic"@, topic_name@),
        ("Subscription Name"@, ""@),
        ("Lock Duration"@, "PT30S"@),
        ("Default TTL"@, "P14D"@),
        ("Max Delivery Count"@, "10"@),
        ("Requires Session"@, "false"@),
        ("Dead-letter on Expiry"@, "false"@),
    ]);
    r
}

} // verus!
