use sb_explorer::config::{default_auth_type, AppConfig, AppSettings, SavedConnection};
use sb_explorer::models::{EntityType, ServiceBusMessage};
use sb_explorer::sanitize::sanitize_for_terminal;
use sb_explorer::tree::TreeNode;

#[test]
fn sanitize_replaces_escapes_and_controls() {
    assert_eq!(sanitize_for_terminal("plain text", false), "plain text");
    assert_eq!(sanitize_for_terminal("a\x1b[31mred\x1b[0m", false), "a[CSI]red[CSI]");
    assert_eq!(sanitize_for_terminal("\x1b]0;title\x07after", false), "[OSC]after");
    assert_eq!(sanitize_for_terminal("\x1b]8;;x\x1b\\link", false), "[OSC]link");
    assert_eq!(sanitize_for_terminal("\x1bcX", false), "[ESC]X");
    assert_eq!(sanitize_for_terminal("end\x1b", false), "end[ESC]");
    assert_eq!(sanitize_for_terminal("a\nb\tc\rd\x00e", false), "a\u{fffd}b\tc\rd\u{fffd}e");
    assert_eq!(sanitize_for_terminal("a\nb", true), "a\nb");
    assert_eq!(sanitize_for_terminal("\u{85}ü", false), "\u{fffd}ü");
}

#[test]
fn tree_flattens_visible_nodes() {
    let mut root = TreeNode::new_folder("ns", "Namespace", EntityType::Namespace, 0);
    let mut queues = TreeNode::new_folder("queues", "Queues", EntityType::QueueFolder, 1);
    queues.children.push(TreeNode::new_entity("q1", "q1", EntityType::Queue, "q1", 2));
    let mut topic = TreeNode::new_entity("t1", "t1", EntityType::Topic, "t1", 2);
    topic.children.push(TreeNode::new_entity("s1", "s1", EntityType::Subscription, "t1/Subscriptions/s1", 3));
    let mut topics = TreeNode::new_folder("topics", "Topics", EntityType::TopicFolder, 1);
    topics.children.push(topic);
    root.children.push(queues);
    root.children.push(topics);
    let rows = root.flatten();
    let ids: Vec<&str> = rows.iter().map(|r| r.id.as_str()).collect();
    assert_eq!(ids, vec!["ns", "queues", "q1", "topics", "t1"]);
    assert!(rows[4].has_children);
    assert!(!rows[4].expanded);
    assert_eq!(rows[2].path, "q1");
    assert_eq!(rows[2].depth, 2);
    root.children[1].children[0].expanded = true;
    assert_eq!(root.flatten().len(), 6);
}

#[test]
fn config_connections_replace_by_name() {
    let mut cfg = AppConfig::default();
    cfg.add_connection(String::from("dev"), String::from("Endpoint=a"));
    cfg.add_azure_ad_connection(String::from("prod"), String::from("p.servicebus.windows.net"));
    cfg.add_connection(String::from("dev"), String::from("Endpoint=b"));
    assert_eq!(cfg.connections.len(), 2);
    assert_eq!(cfg.connections[0].name, "prod");
    assert!(cfg.connections[0].is_azure_ad());
    assert_eq!(cfg.connections[1].connection_string.as_deref(), Some("Endpoint=b"));
    assert!(!cfg.connections[1].is_azure_ad());
    assert_eq!(cfg.connections[1].auth_type, "sas");
    cfg.remove_connection("prod");
    assert_eq!(cfg.connections.len(), 1);
    cfg.remove_connection("absent");
    assert_eq!(cfg.connections.len(), 1);
    assert_eq!(default_auth_type(), "sas");
    let s = AppSettings::default();
    assert_eq!((s.peek_count, s.auto_refresh_secs, s.log_to_file), (25, 0, false));
    assert_eq!(cfg.settings.peek_count, 25);
    let other = SavedConnection {
        name: String::from("x"),
        connection_string: None,
        namespace: None,
        auth_type: String::from("AZURE_AD"),
    };
    assert!(!other.is_azure_ad());
    assert_eq!(AppConfig::config_path("/home/u/.config"), "/home/u/.config/sb-explorer/config.toml");
}

#[test]
fn default_message_is_json() {
    let m = ServiceBusMessage::default();
    assert_eq!(m.content_type.as_deref(), Some("application/json"));
    assert!(m.body.is_empty());
    assert!(m.custom_properties.is_empty());
}
