use sb_explorer::discovery::extract_fqdn_from_endpoint;

#[test]
fn test_extract_fqdn() {
    assert_eq!(
        extract_fqdn_from_endpoint("https://myns.servicebus.windows.net:443/"),
        "myns.servicebus.windows.net"
    );
    assert_eq!(
        extract_fqdn_from_endpoint("https://myns.servicebus.windows.net/"),
        "myns.servicebus.windows.net"
    );
    assert_eq!(
        extract_fqdn_from_endpoint("myns.servicebus.windows.net"),
        "myns.servicebus.windows.net"
    );
}

#[test]
fn fqdn_strips_plain_http_and_repeated_prefixes() {
    assert_eq!(extract_fqdn_from_endpoint("http://a.example/x"), "a.example");
    assert_eq!(extract_fqdn_from_endpoint("https://https://b.example"), "b.example");
    assert_eq!(extract_fqdn_from_endpoint(""), "");
}
