use sb_explorer::auth::{generate_sas_token, sas_token_from_parts, AuthMode, ConnectionConfig};
use sb_explorer::error::ServiceBusError;

#[test]
fn parse_valid_connection_string() {
    let cs = "Endpoint=sb://myns.servicebus.windows.net/;SharedAccessKeyName=RootManageSharedAccessKey;SharedAccessKey=abc123def456==";
    let cfg = ConnectionConfig::from_connection_string(cs).unwrap();
    assert_eq!(cfg.namespace, "myns.servicebus.windows.net");
    assert_eq!(cfg.endpoint, "https://myns.servicebus.windows.net");
    assert!(matches!(
        cfg.auth_mode,
        AuthMode::Sas { ref shared_access_key_name, ref shared_access_key }
        if shared_access_key_name == "RootManageSharedAccessKey"
            && shared_access_key == "abc123def456=="
    ));
}

#[test]
fn parse_missing_endpoint() {
    let cs = "SharedAccessKeyName=name;SharedAccessKey=key";
    assert!(ConnectionConfig::from_connection_string(cs).is_err());
}

#[test]
fn parse_reports_each_missing_part() {
    assert!(matches!(
        ConnectionConfig::from_connection_string("Endpoint=sb://a/;SharedAccessKey=k"),
        Err(ServiceBusError::InvalidConnectionString(ref m)) if m == "missing SharedAccessKeyName"
    ));
    assert!(matches!(
        ConnectionConfig::from_connection_string("Endpoint=sb://a/;SharedAccessKeyName=n"),
        Err(ServiceBusError::InvalidConnectionString(ref m)) if m == "missing SharedAccessKey"
    ));
    let cfg = ConnectionConfig::from_connection_string(
        " SharedAccessKey = k== ; ; Endpoint = sb://x.example// ;SharedAccessKeyName=n;Other=1",
    )
    .unwrap();
    assert_eq!(cfg.namespace, "x.example");
    assert!(!cfg.is_azure_ad());
    assert!(matches!(cfg.auth_mode, AuthMode::Sas { ref shared_access_key, .. } if shared_access_key == "k=="));
}

#[test]
fn azure_ad_config_has_no_signed_token() {
    let cfg = ConnectionConfig::from_azure_ad("sb://ns.servicebus.windows.net/");
    assert_eq!(cfg.namespace, "ns.servicebus.windows.net");
    assert_eq!(cfg.endpoint, "https://ns.servicebus.windows.net");
    assert!(cfg.is_azure_ad());
    assert!(matches!(cfg.namespace_token(0), Err(ServiceBusError::Auth(_))));
}

#[test]
fn sas_token_is_signed_exactly() {
    let cs = "Endpoint=sb://myns.servicebus.windows.net/;SharedAccessKeyName=RootManageSharedAccessKey;SharedAccessKey=dGVzdGtleQ==";
    let cfg = ConnectionConfig::from_connection_string(cs).unwrap();
    let token = cfg.namespace_token(1_700_000_000).unwrap();
    assert_eq!(
        token,
        "SharedAccessSignature sr=https%3a%2f%2fmyns.servicebus.windows.net&sig=7rX1xJj6b67E89Rwo0uJaid6Y5Kuo%2Fn3m2eD0jA5Kck%3D&se=1700003600&skn=RootManageSharedAccessKey"
    );
    let entity = cfg.entity_token("q1", 1_700_000_000).unwrap();
    assert!(entity.starts_with("SharedAccessSignature sr=https%3a%2f%2fmyns.servicebus.windows.net%2fq1&sig="));
    assert!(entity.contains("&se=1700003600&skn=RootManageSharedAccessKey"));
    assert_eq!(
        generate_sas_token("n", "k", "abc", 5).unwrap().split("&sig=").next(),
        Some("SharedAccessSignature sr=abc")
    );
    assert_eq!(sas_token_from_parts("u", "s", 9, "n"), "SharedAccessSignature sr=u&sig=s&se=9&skn=n");
}

#[test]
fn sas_token_format() {
    let cs = "Endpoint=sb://myns.servicebus.windows.net/;SharedAccessKeyName=RootManageSharedAccessKey;SharedAccessKey=dGVzdGtleQ==";
    let cfg = ConnectionConfig::from_connection_string(cs).unwrap();
    let now = std::time::SystemTime::now().duration_since(std::time::UNIX_EPOCH).unwrap().as_secs();
    let token = cfg.namespace_token(now).unwrap();
    assert!(token.starts_with("SharedAccessSignature sr="));
    assert!(token.contains("&sig="));
    assert!(token.contains("&se="));
    assert!(token.contains("&skn=RootManageSharedAccessKey"));
}
