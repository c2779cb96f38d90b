use cyberdeck::config::Configuration;

#[test]
fn default_configuration_has_one_google_stun_server() {
    let config = Configuration::default();
    assert_eq!(config.len(), 1);
    assert_eq!(config.url(0), "stun:stun.l.google.com:19302");
    assert_eq!(
        config.into_urls(),
        vec!["stun:stun.l.google.com:19302".to_string()]
    );
}

#[test]
fn configuration_keeps_urls_in_order() {
    let urls = vec![
        "stun:stun.example.org:3478".to_string(),
        "turn:turn.example.org:3478".to_string(),
    ];
    let config = Configuration::new(urls.clone());
    assert_eq!(config.len(), 2);
    assert_eq!(config.url(0), "stun:stun.example.org:3478");
    assert_eq!(config.url(1), "turn:turn.example.org:3478");
    assert_eq!(config.into_urls(), urls);
}

#[test]
fn configuration_may_be_empty() {
    let config = Configuration::new(Vec::new());
    assert_eq!(config.len(), 0);
    assert!(config.into_urls().is_empty());
}
