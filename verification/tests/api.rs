use twitch_tui::twitch::api::{form_encoded, SearchChannelData, StreamData, TwitchApi};
use twitch_tui::twitch::auth::Auth;

fn test_api() -> TwitchApi {
    TwitchApi::new(Auth {
        client_id: "test".to_string(),
        oauth_token: Some("test_token".to_string()),
        username: Some("testuser".to_string()),
    })
}

#[test]
fn test_build_headers() {
    let api = test_api();
    let headers = api.build_headers().unwrap();
    assert_eq!(headers.get("Client-Id").unwrap(), "test");
    assert_eq!(headers.get("Authorization").unwrap(), "Bearer test_token");
}

#[test]
fn test_build_headers_no_token() {
    let api = TwitchApi::new(Auth {
        client_id: "test".to_string(),
        oauth_token: None,
        username: None,
    });
    let headers = api.build_headers().unwrap();
    assert_eq!(headers.get("Client-Id").unwrap(), "test");
    assert!(headers.get("Authorization").is_none());
}

#[test]
fn headers_refuse_control_characters() {
    let api = TwitchApi::new(Auth { client_id: "te\nst".to_string(), oauth_token: None, username: None });
    assert_eq!(api.build_headers().unwrap_err(), "Invalid client ID");
    let api = TwitchApi::new(Auth {
        client_id: "test".to_string(),
        oauth_token: Some("to\u{7f}ken".to_string()),
        username: None,
    });
    assert_eq!(api.build_headers().unwrap_err(), "Invalid token");
    let api = TwitchApi::new(Auth { client_id: "tést\t".to_string(), oauth_token: None, username: None });
    assert!(api.build_headers().is_ok());
}

#[test]
fn request_addresses() {
    let api = test_api();
    assert_eq!(api.base_url, "https://api.twitch.tv/helix");
    let logins = vec!["a".to_string(), "b".to_string()];
    assert_eq!(api.streams_url(&logins, None), "https://api.twitch.tv/helix/streams?user_login=a&user_login=b");
    assert_eq!(api.streams_url(&logins, Some("xyz")), "https://api.twitch.tv/helix/streams?user_login=a&user_login=b&after=xyz");
    assert_eq!(api.top_games_url(20, None), "https://api.twitch.tv/helix/games/top?first=20");
    assert_eq!(api.streams_by_game_url("509658", 20, Some("c")), "https://api.twitch.tv/helix/streams?game_id=509658&first=20&after=c");
    assert_eq!(api.search_channels_url("shroud", 20), "https://api.twitch.tv/helix/search/channels?query=shroud&first=20");
    assert_eq!(api.vods_url("42", 10, None), "https://api.twitch.tv/helix/videos?user_id=42&first=10");
    assert_eq!(api.current_user_url(), "https://api.twitch.tv/helix/users");
    assert_eq!(api.followed_url("42", None), "https://api.twitch.tv/helix/channels/followed?user_id=42&first=100");
}

#[test]
fn stream_becomes_live_channel() {
    let s = StreamData {
        user_id: "1".to_string(),
        user_login: "shroud".to_string(),
        user_name: "Shroud".to_string(),
        title: "t".to_string(),
        game_name: String::new(),
        viewer_count: 5,
        started_at: "2024-01-01T00:00:00Z".to_string(),
        thumbnail_url: "http://x".to_string(),
        tags: vec!["English".to_string(), "FPS".to_string()],
    };
    let c = s.into_channel();
    assert!(c.is_live);
    assert_eq!(c.tags, vec!["English".to_string(), "FPS".to_string()]);
    assert_eq!(c.game_name, None);
    assert_eq!(c.viewer_count, Some(5));
    assert_eq!(c.name, "shroud");
    let d = SearchChannelData { id: "2".to_string(), login: "p".to_string(), display_name: "P".to_string(), is_live: false }
        .into_channel();
    assert!(!d.is_live);
    assert!(d.title.is_none());
}

#[test]
fn search_query_is_one_parameter() {
    let api = test_api();
    assert_eq!(
        api.search_channels_url("a&first=100#x", 20),
        "https://api.twitch.tv/helix/search/channels?query=a%26first%3D100%23x&first=20"
    );
    assert_eq!(
        api.search_channels_url("just chatting é", 5),
        "https://api.twitch.tv/helix/search/channels?query=just+chatting+%C3%A9&first=5"
    );
    assert_eq!(form_encoded("A-z_0.9*~"), "A-z_0.9*%7E");
}
