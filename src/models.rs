use vstd::prelude::*;

verus! {

/// Settings of a queue, as the management feed describes it.
#[derive(Debug, Clone, Default)]
pub struct QueueDescription {
    pub name: String,
    pub lock_duration: Option<String>,
    pub max_size_in_megabytes: Option<i64>,
    pub requires_duplicate_detection: Option<bool>,
    pub requires_session: Option<bool>,
    pub default_message_time_to_live: Option<String>,
    pub dead_lettering_on_message_expiration: Option<bool>,
    pub duplicate_detection_history_time_window: Option<String>,
    pub max_delivery_count: Option<i32>,
    pub enable_batched_operations: Option<bool>,
    pub status: Option<String>,
    pub forward_to: Option<String>,
    pub forward_dead_lettered_messages_to: Option<String>,
    pub auto_delete_on_idle: Option<String>,
    pub enable_partitioning: Option<bool>,
    pub user_metadata: Option<String>,
}

/// Message counts and timestamps of a queue.
#[derive(Debug, Clone, Default)]
pub struct QueueRuntimeInfo {
    pub name: String,
    pub active_message_count: i64,
    pub dead_letter_message_count: i64,
    pub scheduled_message_count: i64,
    pub transfer_message_count: i64,
    pub transfer_dead_letter_message_count: i64,
    pub size_in_bytes: i64,
    pub created_at: Option<String>,
    pub updated_at: Option<String>,
    pub accessed_at: Option<String>,
    pub message_count: i64,
}

/// Settings of a topic.
#[derive(Debug, Clone, Default)]
pub struct TopicDescription {
    pub name: String,
    pub max_size_in_megabytes: Option<i64>,
    pub default_message_time_to_live: Option<String>,
    pub requires_duplicate_detection: Option<bool>,
    pub duplicate_detection_history_time_window: Option<String>,
    pub enable_batched_operations: Option<bool>,
    pub status: Option<String>,
    pub support_ordering: Option<bool>,
    pub auto_delete_on_idle: Option<String>,
    pub enable_partitioning: Option<bool>,
    pub user_metadata: Option<String>,
}

/// Counts and timestamps of a topic.
#[derive(Debug, Clone, Default)]
pub struct TopicRuntimeInfo {
    pub name: String,
    pub subscription_count: i64,
    pub size_in_bytes: i64,
    pub created_at: Option<String>,
    pub updated_at: Option<String>,
    pub accessed_at: Option<String>,
    pub scheduled_message_count: i64,
}

/// Settings of one subscription of a topic.
#[derive(Debug, Clone, Default)]
pub struct SubscriptionDescription {
    pub name: String,
    pub topic_name: String,
    pub lock_duration: Option<String>,
    pub requires_session: Option<bool>,
    pub default_message_time_to_live: Option<String>,
    pub dead_lettering_on_message_expiration: Option<bool>,
    pub dead_lettering_on_filter_evaluation_exceptions: Option<bool>,
    pub max_delivery_count: Option<i32>,
    pub enable_batched_operations: Option<bool>,
    pub status: Option<String>,
    pub forward_to: Option<String>,
    pub forward_dead_lettered_messages_to: Option<String>,
    pub auto_delete_on_idle: Option<String>,
    pub user_metadata: Option<String>,
}

/// Message counts and timestamps of a subscription.
#[derive(Debug, Clone, Default)]
pub struct SubscriptionRuntimeInfo {
    pub name: String,
    pub topic_name: String,
    pub active_message_count: i64,
    pub dead_letter_message_count: i64,
    pub transfer_message_count: i64,
    pub transfer_dead_letter_message_count: i64,
    pub message_count: i64,
    pub created_at: Option<String>,
    pub updated_at: Option<String>,
    pub accessed_at: Option<String>,
}

/// A filter rule of a subscription.
#[derive(Debug, Clone, Default)]
pub struct RuleDescription {
    pub name: String,
    pub filter: RuleFilter,
    pub action: Option<String>,
}

/// Which messages a rule lets through.
#[derive(Debug, Clone, Default)]
pub enum RuleFilter {
    #[default]
    TrueFilter,
    SqlFilter { expression: String },
    CorrelationFilter {
        correlation_id: Option<String>,
        message_id: Option<String>,
        to: Option<String>,
        reply_to: Option<String>,
        label: Option<String>,
        session_id: Option<String>,
        content_type: Option<String>,
        properties: Vec<(String, String)>,
    },
}

/// A message to be sent: its body, the broker properties a sender may set,
/// and user-defined properties in order.
#[derive(Debug, Clone)]
pub struct ServiceBusMessage {
    pub body: String,
    pub content_type: Option<String>,
    pub message_id: Option<String>,
    pub correlation_id: Option<String>,
    pub session_id: Option<String>,
    pub label: Option<String>,
    pub to: Option<String>,
    pub reply_to: Option<String>,
    pub time_to_live: Option<String>,
    pub scheduled_enqueue_time: Option<String>,
    pub partition_key: Option<String>,
    pub custom_properties: Vec<(String, String)>,
}

/// The content type a message carries unless told otherwise.
pub open spec fn default_content_type() -> Seq<char> {
    seq!['a', 'p', 'p', 'l', 'i', 'c', 'a', 't', 'i', 'o', 'n', '/', 'j', 's', 'o', 'n']
}

impl Default for ServiceBusMessage {
    /// An empty JSON message with no properties.
    fn default() -> (r: ServiceBusMessage)
        ensures
            r.body@.len() == 0,
            r.content_type is Some && r.content_type->Some_0@ == default_content_type(),
            r.message_id is None,
            r.correlation_id is None,
            r.session_id is None,
            r.label is None,
            r.to is None,
            r.reply_to is None,
            r.time_to_live is None,
            r.scheduled_enqueue_time is None,
            r.partition_key is None,
            r.custom_properties@.len() == 0,
    {
        let ct = String::from_str("application/json");
        proof {
            reveal_strlit("application/json");
            assert(ct@ =~= default_content_type());
        }
        ServiceBusMessage {
            body: String::new(),
            content_type: Some(ct),
            message_id: None,
            correlation_id: None,
            session_id: None,
            label: None,
            to: None,
            reply_to: None,
            time_to_live: None,
            scheduled_enqueue_time: None,
            partition_key: None,
            custom_properties: Vec::new(),
        }
    }
}

/// Properties the broker attaches to a delivered message.
#[derive(Debug, Clone, Default)]
pub struct BrokerProperties {
    pub message_id: Option<String>,
    pub correlation_id: Option<String>,
    pub session_id: Option<String>,
    pub label: Option<String>,
    pub to: Option<String>,
    pub reply_to: Option<String>,
    pub content_type: Option<String>,
    pub sequence_number: Option<i64>,
    pub enqueued_sequence_number: Option<i64>,
    pub enqueued_time_utc: Option<String>,
    pub locked_until_utc: Option<String>,
    pub lock_token: Option<String>,
    /// Time to live, in the decimal text the broker sent.
    pub time_to_live: Option<String>,
    pub delivery_count: Option<i32>,
    pub dead_letter_source: Option<String>,
    pub dead_letter_reason: Option<String>,
    pub dead_letter_error_description: Option<String>,
    pub state: Option<String>,
    pub partition_key: Option<String>,
    pub scheduled_enqueue_time_utc: Option<String>,
    pub size: Option<i64>,
}

/// A message as received from the broker.
#[derive(Debug, Clone)]
pub struct ReceivedMessage {
    pub body: String,
    pub broker_properties: BrokerProperties,
    pub custom_properties: Vec<(String, String)>,
    /// The lock URI of a locked message, used to complete, abandon or
    /// dead-letter it.
    pub lock_token_uri: Option<String>,
}

/// A copy of an optional text.
pub fn copy_text(t: &Option<String>) -> (r: Option<String>)
    ensures
        r == *t,
{
    match t {
        Some(s) => Some(s.clone()),
        None => None,
    }
}

/// A copy of a list of name/value pairs.
pub fn copy_pairs(pairs: &Vec<(String, String)>) -> (r: Vec<(String, String)>)
    ensures
        r@ == pairs@,
{
    let mut out: Vec<(String, String)> = Vec::new();
    let mut i: usize = 0;
    while i < pairs.len()
        invariant
            i <= pairs@.len(),
            out@ == pairs@.take(i as int),
        decreases pairs@.len() - i,
    {
        let (k, v) = &pairs[i];
        out.push((k.clone(), v.clone()));
        assert(pairs@.take(i as int + 1) == pairs@.take(i as int).push(pairs@[i as int]));
        i = i + 1;
    }
    assert(pairs@.take(pairs@.len() as int) == pairs@);
    out
}

/// Whether `s` is the message to send when `m` is sent again: body, content
/// type, message id, correlation id, session id, label and custom
/// properties kept; everything the broker assigned (sequence number,
/// delivery count, enqueue time, lock, dead-letter details) dropped.
pub open spec fn sendable_of(m: ReceivedMessage, s: ServiceBusMessage) -> bool {
    &&& s.body == m.body
    &&& s.content_type == m.broker_properties.content_type
    &&& s.message_id == m.broker_properties.message_id
    &&& s.correlation_id == m.broker_properties.correlation_id
    &&& s.session_id == m.broker_properties.session_id
    &&& s.label == m.broker_properties.label
    &&& s.custom_properties@ == m.custom_properties@
    &&& s.to is None
    &&& s.reply_to is None
    &&& s.time_to_live is None
    &&& s.scheduled_enqueue_time is None
    &&& s.partition_key is None
}

impl ReceivedMessage {
    /// The message to send when this one is sent again.
    pub fn to_sendable(&self) -> (r: ServiceBusMessage)
        ensures
            sendable_of(*self, r),
    {
        ServiceBusMessage {
            body: self.body.clone(),
            content_type: copy_text(&self.broker_properties.content_type),
            message_id: copy_text(&self.broker_properties.message_id),
            correlation_id: copy_text(&self.broker_properties.correlation_id),
            session_id: copy_text(&self.broker_properties.session_id),
            label: copy_text(&self.broker_properties.label),
            to: None,
            reply_to: None,
            time_to_live: None,
            scheduled_enqueue_time: None,
            partition_key: None,
            custom_properties: copy_pairs(&self.custom_properties),
        }
    }

    /// The same message with its lock URI removed, once the lock is released.
    pub fn without_lock(self) -> (r: ReceivedMessage)
        ensures
            r.body == self.body,
            r.broker_properties == self.broker_properties,
            r.custom_properties == self.custom_properties,
            r.lock_token_uri is None,
    {
        ReceivedMessage { lock_token_uri: None, ..self }
    }
}

/// The kind of a node in the entity tree.
#[derive(Debug, Clone, Copy, PartialEq, Eq, Structural)]
pub enum EntityType {
    Namespace,
    QueueFolder,
    TopicFolder,
    Queue,
    Topic,
    Subscription,
    SubscriptionFolder,
    DeadLetterQueue,
}

} // verus!
