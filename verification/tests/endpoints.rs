use scrimbot::config::{DathostConfig, ScrimbotApiConfig};
use scrimbot::endpoints::{
    api_authorization, dathost_authorization, match_url, server_info_url, stats_url,
};

#[test]
fn dathost_header_is_basic_authentication() {
    let config = DathostConfig {
        username: "user".to_string(),
        password: "pass".to_string(),
        match_end_url: None,
        server_id: "abc".to_string(),
    };
    assert_eq!(dathost_authorization(&config), "Basic dXNlcjpwYXNz");
    let config = DathostConfig {
        username: "a@b.c".to_string(),
        password: "p:w".to_string(),
        match_end_url: None,
        server_id: "abc".to_string(),
    };
    assert_eq!(dathost_authorization(&config), "Basic YUBiLmM6cDp3");
    let config = DathostConfig {
        username: "u".repeat(5000),
        password: "".to_string(),
        match_end_url: None,
        server_id: "abc".to_string(),
    };
    assert_eq!(dathost_authorization(&config).len(), 6 + 6668);
}

#[test]
fn api_header_prefers_the_token() {
    let mut config = ScrimbotApiConfig {
        scrimbot_api_url: Some("http://stats/api".to_string()),
        scrimbot_api_user: Some("user".to_string()),
        scrimbot_api_password: Some("pass".to_string()),
        scrimbot_api_token: Some("abc".to_string()),
    };
    assert_eq!(api_authorization(&config), Some("TOKEN abc".to_string()));
    config.scrimbot_api_token = None;
    assert_eq!(api_authorization(&config), Some("Basic dXNlcjpwYXNz".to_string()));
    config.scrimbot_api_password = None;
    assert_eq!(api_authorization(&config), None);
    assert_eq!(stats_url(&config), Some("http://stats/api/stats".to_string()));
    config.scrimbot_api_url = None;
    assert_eq!(stats_url(&config), None);
}

#[test]
fn provisioning_addresses() {
    assert_eq!(match_url(), "https://dathost.net/api/0.1/cs2-matches");
    assert_eq!(
        server_info_url(&"5f3a".to_string()),
        "https://dathost.net/api/0.1/game-servers/5f3a"
    );
}
