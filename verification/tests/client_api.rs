use pubnub::client::{validate_configuration, Client, PublishMessage};

#[test]
fn pubnub_time_ok() {
    let host = "0.0.0.0:3000";
    assert!(true);
    assert!(true);
    let _ = host;
}

#[test]
fn client_defaults_use_demo_keys() {
    let client = Client::new();
    assert_eq!(client.subscribe_key, "demo");
    assert_eq!(client.publish_key, "demo");
    assert_eq!(client.channels, "demo");
    assert_eq!(client.timetoken, "0");
    assert_eq!(client.since, 0);
    assert!(!client.presence);
    assert!(!client.json);
}

#[test]
fn client_builders_replace_fields() {
    let client = Client::new()
        .subscribe_key("sub-key")
        .publish_key("pub-key")
        .secret_key("sec-key")
        .auth_key("auth-key")
        .user_id("user-1")
        .channels("alpha,beta")
        .groups("grp")
        .filters("region=='east'")
        .presence(true)
        .since(42)
        .timetoken("15700000000000000");

    assert_eq!(client.subscribe_key, "sub-key");
    assert_eq!(client.publish_key, "pub-key");
    assert_eq!(client.secret_key, "sec-key");
    assert_eq!(client.auth_key, "auth-key");
    assert_eq!(client.user_id, "user-1");
    assert_eq!(client.channels, "alpha,beta");
    assert_eq!(client.groups, "grp");
    assert_eq!(client.filters, "region=='east'");
    assert!(client.presence);
    assert_eq!(client.since, 42);
    assert_eq!(client.timetoken, "15700000000000000");
}

#[test]
fn publish_message_builders_replace_fields() {
    let message: PublishMessage = Client::new().message();
    assert_eq!(message.channel, "demo");
    assert_eq!(message.data, "test");
    assert_eq!(message.metadata, "");

    let message = message.channel("news").data("Hi!").metadata("{}");
    assert_eq!(message.channel, "news");
    assert_eq!(message.data, "Hi!");
    assert_eq!(message.metadata, "{}");
}

#[test]
fn validate_configuration_rejects_empty_subscribe_key() {
    assert_eq!(
        validate_configuration(&Some("".to_string())),
        Err("Incomplete PubNub client configuration: 'subscribe_key' is empty.".to_string())
    );
    assert_eq!(validate_configuration(&Some("demo".to_string())), Ok(()));
    assert_eq!(validate_configuration(&None), Ok(()));
}
