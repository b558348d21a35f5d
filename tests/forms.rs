use sb_explorer::forms::{
    build_message_from_form, build_queue_from_form, build_subscription_from_form, build_topic_from_form,
    field_value, parse_custom_properties, queue_form_fields, subscription_form_fields, topic_form_fields,
};

fn fields(values: &[&str]) -> Vec<(String, String)> {
    values.iter().enumerate().map(|(i, v)| (format!("f{}", i), String::from(*v))).collect()
}

#[test]
fn field_values_skip_empty_and_missing() {
    let f = fields(&["a", ""]);
    assert_eq!(field_value(&f, 0), Some(String::from("a")));
    assert_eq!(field_value(&f, 1), None);
    assert_eq!(field_value(&f, 5), None);
}

#[test]
fn custom_properties_are_split_and_trimmed() {
    assert_eq!(
        parse_custom_properties(" a = 1 ,b=2=3, novalue, =x,c="),
        vec![
            (String::from("a"), String::from("1")),
            (String::from("b"), String::from("2=3")),
            (String::from("c"), String::new()),
        ]
    );
    assert!(parse_custom_properties("").is_empty());
}

#[test]
fn message_from_form() {
    let f = fields(&["{\"x\":1}", "", "", "corr", "", "lbl", "60", "k=v"]);
    let m = build_message_from_form(&f, String::from("generated"));
    assert_eq!(m.body, "{\"x\":1}");
    assert_eq!(m.content_type, None);
    assert_eq!(m.message_id.as_deref(), Some("generated"));
    assert_eq!(m.correlation_id.as_deref(), Some("corr"));
    assert_eq!(m.session_id, None);
    assert_eq!(m.label.as_deref(), Some("lbl"));
    assert_eq!(m.time_to_live.as_deref(), Some("60"));
    assert_eq!(m.custom_properties, vec![(String::from("k"), String::from("v"))]);
    let given = build_message_from_form(&fields(&["", "text/plain", "mine"]), String::from("unused"));
    assert_eq!(given.message_id.as_deref(), Some("mine"));
    assert_eq!(given.body, "");
    assert!(given.custom_properties.is_empty());
}

#[test]
fn descriptions_from_forms() {
    let mut q = queue_form_fields();
    assert_eq!(q.len(), 8);
    q[0].1 = String::from("orders");
    let d = build_queue_from_form(&q);
    assert_eq!(d.name, "orders");
    assert_eq!(d.max_size_in_megabytes, Some(1024));
    assert_eq!(d.lock_duration.as_deref(), Some("PT30S"));
    assert_eq!(d.default_message_time_to_live.as_deref(), Some("P14D"));
    assert_eq!(d.max_delivery_count, Some(10));
    assert_eq!(d.requires_session, Some(false));
    assert_eq!(d.enable_partitioning, Some(false));
    assert_eq!(d.dead_lettering_on_message_expiration, Some(false));
    q[1].1 = String::from("lots");
    assert_eq!(build_queue_from_form(&q).max_size_in_megabytes, None);
    let mut t = topic_form_fields();
    t[0].1 = String::from("events");
    let td = build_topic_from_form(&t);
    assert_eq!(td.name, "events");
    assert_eq!(td.enable_partitioning, Some(false));
    let mut s = subscription_form_fields("events");
    assert_eq!(s[0].1, "events");
    s[1].1 = String::from("all");
    let sd = build_subscription_from_form(&s);
    assert_eq!(sd.topic_name, "events");
    assert_eq!(sd.name, "all");
    assert_eq!(sd.max_delivery_count, Some(10));
    assert_eq!(build_subscription_from_form(&Vec::new()).name, "");
}
