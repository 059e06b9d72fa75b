use twitch_tui::config::{config_file_path, default_poll_interval, default_quality, default_true, Config, TwitchConfig};
use twitch_tui::twitch::auth::Auth;

#[test]
fn test_default_config() {
    let config = Config::default();
    assert_eq!(config.poll_interval_secs, 60);
    assert_eq!(config.default_quality, "best");
    assert!(config.notifications_enabled);
    assert!(config.chat_enabled);
    assert!(config.twitch.client_id.is_empty());
    assert!(config.twitch.oauth_token.is_none());
}

#[test]
fn defaults_of_missing_settings() {
    assert_eq!(default_poll_interval(), 60);
    assert_eq!(default_quality(), "best");
    assert!(default_true());
    let t = TwitchConfig::default();
    assert!(t.username.is_none());
}

#[test]
fn config_file_inside_dir() {
    assert_eq!(config_file_path("/home/u/.config/twitch-tui"), "/home/u/.config/twitch-tui/config.toml");
}

fn config_with(token: Option<&str>, user: Option<&str>) -> Config {
    let mut c = Config::default();
    c.twitch.client_id = "cid".to_string();
    c.twitch.oauth_token = token.map(|s| s.to_string());
    c.twitch.username = user.map(|s| s.to_string());
    c
}

#[test]
fn auth_from_config_and_token() {
    let a = Auth::from_config(&config_with(Some("abc"), Some("me")));
    assert_eq!(a.client_id, "cid");
    assert!(a.has_token());
    assert_eq!(a.bearer().unwrap(), "Bearer abc");
    let b = Auth::from_config(&config_with(None, None));
    assert!(!b.has_token());
    assert!(b.bearer().is_none());
}

#[test]
fn auth_page_address() {
    let a = Auth::from_config(&config_with(None, None));
    assert_eq!(
        a.auth_page_url(),
        "https://id.twitch.tv/oauth2/authorize?response_type=token&client_id=cid&redirect_uri=http://localhost&scope=chat:read+chat:edit+user:read:follows"
    );
}

#[test]
fn chat_login_needs_name_and_token() {
    let a = Auth::from_config(&config_with(Some("abc"), Some("me")));
    assert_eq!(a.chat_login(), Some(("me".to_string(), "oauth:abc".to_string())));
    let b = Auth::from_config(&config_with(Some("oauth:abc"), Some("me")));
    assert_eq!(b.chat_login(), Some(("me".to_string(), "oauth:abc".to_string())));
    let c = Auth::from_config(&config_with(Some("abc"), Some("")));
    assert_eq!(c.chat_login(), None);
    let d = Auth::from_config(&config_with(None, Some("me")));
    assert_eq!(d.chat_login(), None);
}

#[test]
fn token_check_request() {
    let with = twitch_tui::twitch::auth::Auth {
        client_id: "c".to_string(),
        oauth_token: Some("tok".to_string()),
        username: None,
    };
    assert_eq!(
        with.validation_request(),
        Ok(("https://id.twitch.tv/oauth2/validate".to_string(), "Bearer tok".to_string()))
    );
    let without = twitch_tui::twitch::auth::Auth { client_id: "c".to_string(), oauth_token: None, username: None };
    assert_eq!(without.validation_request(), Err("No token set".to_string()));
}
