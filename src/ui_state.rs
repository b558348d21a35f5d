use vstd::prelude::*;

use crate::models::{
    QueueDescription, QueueRuntimeInfo, SubscriptionDescription, SubscriptionRuntimeInfo,
    TopicDescription, TopicRuntimeInfo,
};

verus! {

/// Which panel has the keyboard focus.
#[derive(Debug, Clone, Copy, PartialEq, Eq, Structural)]
pub enum FocusPanel {
    Tree,
    Detail,
    Messages,
}

/// The dialog shown over the main view, if any.
#[derive(Debug, Clone, PartialEq, Eq)]
pub enum ActiveModal {
    Nothing,
    ConnectionModeSelect,
    ConnectionInput,
    ConnectionList,
    AzureAdNamespaceInput,
    SendMessage,
    CreateQueue,
    CreateTopic,
    CreateSubscription,
    ConfirmDelete(String),
    ConfirmBulkResend { entity_path: String, count: u32, is_topic: bool },
    ConfirmBulkDelete { entity_path: String, count: u32, is_dlq: bool, is_topic: bool },
    PeekCountInput,
    EditResend,
    ClearOptions { entity_path: String, base_entity_path: String, is_topic: bool },
    Help,
}

/// The entity whose details are shown.
#[derive(Debug, Clone)]
pub enum DetailView {
    Nothing,
    Queue(QueueDescription, Option<QueueRuntimeInfo>),
    Topic(TopicDescription, Option<TopicRuntimeInfo>),
    Subscription(SubscriptionDescription, Option<SubscriptionRuntimeInfo>),
}

/// Which message list is shown: live messages or dead-lettered ones.
#[derive(Debug, Clone, Copy, PartialEq, Eq, Structural)]
pub enum MessageTab {
    Messages,
    DeadLetter,
}

} // verus!
