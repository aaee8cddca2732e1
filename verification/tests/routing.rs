use atom_core::routing::{health_inputs_ready, proxy_setting_keys, route_message, AgentRoute};

#[test]
fn browser_intent_with_task_is_handled_locally() {
    assert_eq!(
        route_message(Some("Browser"), Some("https://example.com")),
        AgentRoute::OpenBrowser
    );
}

#[test]
fn everything_else_goes_to_the_proxy() {
    assert_eq!(route_message(Some("Browser"), None), AgentRoute::Proxy);
    assert_eq!(route_message(Some("Calendar"), Some("x")), AgentRoute::Proxy);
    assert_eq!(route_message(None, Some("x")), AgentRoute::Proxy);
    assert_eq!(route_message(None, None), AgentRoute::Proxy);
    assert_eq!(route_message(Some("browser"), Some("x")), AgentRoute::Proxy);
}

#[test]
fn proxied_settings_keys_in_order() {
    assert_eq!(
        proxy_setting_keys(),
        vec![
            "notion_api_key",
            "zapier_webhook_url",
            "tts_provider",
            "elevenlabs_api_key",
            "deepgram_api_key",
        ]
    );
}

#[test]
fn health_request_needs_every_credential() {
    let s = |v: &str| Some(v.to_string());
    assert!(health_inputs_ready(&s("a"), &s("b"), &s("c"), &s("d"), &s("e")));
    assert!(!health_inputs_ready(&None, &s("b"), &s("c"), &s("d"), &s("e")));
    assert!(!health_inputs_ready(&s("a"), &s("b"), &s("c"), &s("d"), &None));
    assert!(!health_inputs_ready(&None, &None, &None, &None, &None));
}
