use sb_explorer::discovery::{
    collect_discovery, sort_namespaces, DiscoveredNamespace, NamespaceProperties, NamespaceResource,
    SubscriptionListing,
};
use sb_explorer::models::{EntityType, QueueDescription, SubscriptionDescription, TopicDescription};
use sb_explorer::tree::build_tree;

fn queue(name: &str) -> QueueDescription {
    let mut q = QueueDescription::default();
    q.name = String::from(name);
    q
}

fn topic(name: &str) -> TopicDescription {
    let mut t = TopicDescription::default();
    t.name = String::from(name);
    t
}

fn sub(name: &str) -> SubscriptionDescription {
    let mut s = SubscriptionDescription::default();
    s.name = String::from(name);
    s
}

#[test]
fn tree_from_listings() {
    let queues = vec![(queue("orders"), 5, 1), (queue("billing"), 0, 0)];
    let topics = vec![topic("events"), topic("audit")];
    let subs = vec![Some(vec![(sub("all"), 2, 3)]), None];
    let root = build_tree("ns.example", &queues, &topics, &subs);
    assert_eq!(root.id, "root");
    assert_eq!(root.label, "ns.example");
    assert_eq!(root.entity_type, EntityType::Namespace);
    let qf = &root.children[0];
    assert_eq!(qf.children.len(), 2);
    assert_eq!(qf.children[0].id, "q:orders");
    assert_eq!(qf.children[0].message_count, Some(5));
    assert_eq!(qf.children[0].dlq_count, Some(1));
    let tf = &root.children[1];
    assert_eq!(tf.children[0].id, "t:events");
    let folder = &tf.children[0].children[0];
    assert_eq!(folder.id, "t:events:subs");
    assert_eq!(folder.children[0].id, "s:events:all");
    assert_eq!(folder.children[0].path, "events/Subscriptions/all");
    assert_eq!(folder.children[0].depth, 4);
    assert!(tf.children[1].children.is_empty());
    let ids: Vec<String> = root.flatten().into_iter().map(|r| r.id).collect();
    assert_eq!(ids, vec!["root", "queues", "q:orders", "q:billing", "topics", "t:events", "t:audit"]);
}

fn ns(name: &str, endpoint: &str) -> NamespaceResource {
    NamespaceResource {
        name: String::from(name),
        location: String::from("westeurope"),
        properties: NamespaceProperties { service_bus_endpoint: String::from(endpoint), status: String::from("Active") },
    }
}

#[test]
fn discovery_sorts_and_reports_failures() {
    let listings = vec![
        SubscriptionListing {
            subscription_name: String::from("Prod"),
            subscription_id: String::from("p"),
            namespaces: Ok(vec![ns("zeta", "https://zeta.servicebus.windows.net:443/"), ns("alpha", "https://alpha.servicebus.windows.net:443/")]),
        },
        SubscriptionListing {
            subscription_name: String::from("Broken"),
            subscription_id: String::from("b"),
            namespaces: Err(String::from("forbidden")),
        },
        SubscriptionListing {
            subscription_name: String::from("Dev"),
            subscription_id: String::from("d"),
            namespaces: Ok(vec![ns("mid", "https://mid.servicebus.windows.net/")]),
        },
    ];
    let r = collect_discovery(&listings);
    let keys: Vec<(String, String)> = r.namespaces.iter().map(|n| (n.subscription_name.clone(), n.name.clone())).collect();
    assert_eq!(
        keys,
        vec![
            (String::from("Dev"), String::from("mid")),
            (String::from("Prod"), String::from("alpha")),
            (String::from("Prod"), String::from("zeta")),
        ]
    );
    assert_eq!(r.namespaces[1].fqdn, "alpha.servicebus.windows.net");
    assert_eq!(r.errors, vec![String::from("Subscription 'Broken': forbidden")]);
}

#[test]
fn sorting_orders_by_bytes() {
    let mk = |s: &str, n: &str| DiscoveredNamespace {
        fqdn: String::new(),
        name: String::from(n),
        subscription_name: String::from(s),
        subscription_id: String::new(),
        location: String::new(),
        status: String::new(),
    };
    let sorted = sort_namespaces(vec![mk("b", "x"), mk("a", "y"), mk("ab", "a"), mk("a", "x"), mk("B", "z")]);
    let keys: Vec<String> = sorted.iter().map(|n| format!("{}/{}", n.subscription_name, n.name)).collect();
    assert_eq!(keys, vec!["B/z", "a/x", "a/y", "ab/a", "b/x"]);
}
