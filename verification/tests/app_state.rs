use twitch_tui::app::{quality_option, App, AppMode, FocusTarget};
use twitch_tui::config::Config;
use twitch_tui::control::{store_step, Action, AppEvent, Key, StoreStep};
use twitch_tui::db::SavedChannel;
use twitch_tui::twitch::auth::Auth;
use twitch_tui::twitch::{Channel, ChatMessage, Game, Vod};

fn channel(id: &str, name: &str, live: bool) -> Channel {
    Channel {
        twitch_id: id.to_string(),
        name: name.to_string(),
        display_name: name.to_uppercase(),
        is_live: live,
        title: if live { Some("title".to_string()) } else { None },
        game_name: None,
        viewer_count: if live { Some(10) } else { None },
        started_at: if live { Some("2024-01-01T00:00:00Z".to_string()) } else { None },
        thumbnail_url: if live { Some("https://t/{width}x{height}.jpg".to_string()) } else { None },
        tags: Vec::new(),
    }
}

fn app_with(n: usize) -> App<()> {
    let mut app: App<()> = App::new(Vec::new());
    app.apply_event::<()>(AppEvent::ChannelsLoaded(
        (0..n).map(|i| channel(&i.to_string(), &format!("c{}", i), i % 2 == 0)).collect(),
        None,
    ));
    app
}

fn auth(token: bool) -> Auth {
    Auth {
        client_id: "cid".to_string(),
        oauth_token: if token { Some("tok".to_string()) } else { None },
        username: if token { Some("me".to_string()) } else { None },
    }
}

fn msg(s: &str) -> ChatMessage {
    ChatMessage { sender: "u".to_string(), message: s.to_string(), system: false }
}

#[test]
fn new_app_shows_saved_channels() {
    let saved = vec![SavedChannel { id: 1, twitch_id: "1".into(), name: "a".into(), display_name: "A".into() }];
    let app: App<()> = App::new(saved);
    assert!(matches!(app.mode, AppMode::SavedChannels));
    assert_eq!(app.focus, FocusTarget::Browse);
    assert_eq!(app.selected_index, 0);
    assert_eq!(app.saved_channels.len(), 1);
    assert_eq!(app.mode_label(), "Saved Channels");
    assert_eq!(app.key_hints(), "Enter watch · s save · r refresh · n more · ? help");
}

#[test]
fn selection_wraps_and_pages() {
    let mut app = app_with(3);
    app.select_next();
    app.select_next();
    assert_eq!(app.selected_index, 2);
    app.select_next();
    assert_eq!(app.selected_index, 0);
    app.select_prev();
    assert_eq!(app.selected_index, 2);
    app.select_prev();
    assert_eq!(app.selected_index, 1);
    app.page_down(10);
    assert_eq!(app.selected_index, 2);
    app.page_up(10);
    assert_eq!(app.selected_index, 0);
    app.jump_bottom();
    assert_eq!(app.selected_index, 2);
    app.jump_top();
    assert_eq!(app.selected_index, 0);
}

#[test]
fn selection_on_empty_list() {
    let mut app = app_with(0);
    app.select_next();
    app.select_prev();
    app.page_down(10);
    app.jump_bottom();
    assert_eq!(app.selected_index, 0);
    assert!(app.selected_channel().is_none());
}

#[test]
fn down_then_up_is_identity() {
    let mut app = app_with(5);
    for start in 0..5 {
        app.selected_index = start;
        app.select_next();
        app.select_prev();
        assert_eq!(app.selected_index, start);
    }
}

#[test]
fn clamp_after_shorter_list() {
    let mut app = app_with(10);
    app.selected_index = 9;
    app.apply_event::<()>(AppEvent::ChannelsLoaded(vec![channel("1", "x", true)], None));
    assert_eq!(app.selected_index, 0);
    assert_eq!(app.channels.len(), 1);
}

#[test]
fn focus_cycles_through_three_panes() {
    let mut app = app_with(1);
    let cfg = Config::default();
    app.handle_key(Key::Tab, &cfg, &auth(false));
    assert_eq!(app.focus, FocusTarget::Detail);
    app.handle_key(Key::Tab, &cfg, &auth(false));
    assert_eq!(app.focus, FocusTarget::Chat);
    app.handle_key(Key::Tab, &cfg, &auth(false));
    assert_eq!(app.focus, FocusTarget::Browse);
    app.handle_key(Key::BackTab, &cfg, &auth(false));
    assert_eq!(app.focus, FocusTarget::Chat);
}

#[test]
fn enter_opens_quality_picker_and_joins_chat() {
    let mut app = app_with(2);
    let mut cfg = Config::default();
    cfg.default_quality = "720p".to_string();
    let a = app.handle_key(Key::Enter, &cfg, &auth(true));
    match a {
        Action::ConnectChat { channel, login } => {
            assert_eq!(channel, "c0");
            assert_eq!(login, Some(("me".to_string(), "oauth:tok".to_string())));
        },
        other => panic!("unexpected {:?}", other),
    }
    match &app.mode {
        AppMode::QualitySelect { channel_name, quality_index, .. } => {
            assert_eq!(channel_name, "c0");
            assert_eq!(*quality_index, 2);
        },
        other => panic!("unexpected {:?}", other),
    }
    assert_eq!(app.watching_channel.as_ref().unwrap().name, "c0");
    app.handle_key(Key::Down, &cfg, &auth(true));
    let a = app.handle_key(Key::Enter, &cfg, &auth(true));
    match a {
        Action::WatchStream { channel, quality } => {
            assert_eq!(channel, "c0");
            assert_eq!(quality, "480p");
        },
        other => panic!("unexpected {:?}", other),
    }
    assert!(matches!(app.mode, AppMode::SavedChannels));
}

#[test]
fn esc_in_picker_plays_default_quality() {
    let mut app = app_with(1);
    let cfg = Config::default();
    app.handle_key(Key::Enter, &cfg, &auth(false));
    let a = app.handle_key(Key::Esc, &cfg, &auth(false));
    match a {
        Action::WatchStream { channel, quality } => {
            assert_eq!(channel, "c0");
            assert_eq!(quality, "best");
        },
        other => panic!("unexpected {:?}", other),
    }
}

#[test]
fn same_chat_is_not_joined_twice() {
    let mut app = app_with(1);
    let cfg = Config::default();
    let a = app.handle_key(Key::Enter, &cfg, &auth(false));
    assert!(matches!(a, Action::ConnectChat { login: None, .. }));
    app.chat_joined("c0".to_string());
    app.handle_key(Key::Esc, &cfg, &auth(false));
    let a = app.handle_key(Key::Enter, &cfg, &auth(false));
    assert!(matches!(a, Action::Nothing));
}

#[test]
fn chat_input_send_and_recall() {
    let mut app = app_with(1);
    let cfg = Config::default();
    app.chat_joined("c0".to_string());
    app.focus = FocusTarget::Chat;
    for c in "hi".chars() {
        app.handle_key(Key::Char(c), &cfg, &auth(true));
    }
    app.handle_key(Key::Char('x'), &cfg, &auth(true));
    app.handle_key(Key::Backspace, &cfg, &auth(true));
    assert_eq!(app.chat_input, "hi");
    let a = app.handle_key(Key::Enter, &cfg, &auth(true));
    match a {
        Action::SendChat { channel, message } => {
            assert_eq!(channel, "c0");
            assert_eq!(message, "hi");
        },
        other => panic!("unexpected {:?}", other),
    }
    assert_eq!(app.chat_input, "");
    assert_eq!(app.chat_history, vec!["hi".to_string()]);
    for c in "hi".chars() {
        app.handle_key(Key::Char(c), &cfg, &auth(true));
    }
    app.handle_key(Key::Enter, &cfg, &auth(true));
    assert_eq!(app.chat_history.len(), 1);
    app.handle_key(Key::Up, &cfg, &auth(true));
    assert_eq!(app.chat_input, "hi");
    app.handle_key(Key::Down, &cfg, &auth(true));
    assert_eq!(app.chat_input, "");
    assert_eq!(app.chat_history_index, None);
}

#[test]
fn chat_history_keeps_fifty() {
    let mut app = app_with(1);
    let cfg = Config::default();
    app.chat_joined("c0".to_string());
    app.focus = FocusTarget::Chat;
    for i in 0..60 {
        for c in format!("m{}", i).chars() {
            app.handle_key(Key::Char(c), &cfg, &auth(true));
        }
        app.handle_key(Key::Enter, &cfg, &auth(true));
    }
    assert_eq!(app.chat_history.len(), 50);
    assert_eq!(app.chat_history[0], "m10");
    assert_eq!(app.chat_history[49], "m59");
}

#[test]
fn unsent_message_without_connection() {
    let mut app = app_with(1);
    let cfg = Config::default();
    app.focus = FocusTarget::Chat;
    app.handle_key(Key::Char('a'), &cfg, &auth(true));
    let a = app.handle_key(Key::Enter, &cfg, &auth(true));
    assert!(matches!(a, Action::Nothing));
    assert_eq!(app.chat_input, "");
    assert!(app.chat_history.is_empty());
}

#[test]
fn chat_keeps_at_most_five_hundred_lines() {
    let mut app = app_with(0);
    for i in 0..501 {
        app.apply_event::<()>(AppEvent::ChatMessage(msg(&i.to_string())));
    }
    assert_eq!(app.chat_messages.len(), 401);
    assert_eq!(app.chat_messages[0].message, "100");
    app.apply_event::<()>(AppEvent::ChatConnected("c0".to_string()));
    assert_eq!(app.chat_messages.last().unwrap().message, "Connected to c0");
    assert!(app.chat_messages.last().unwrap().system);
}

#[test]
fn pages_are_appended_with_a_cursor() {
    let mut app = app_with(0);
    let cfg = Config::default();
    app.handle_key(Key::Char('c'), &cfg, &auth(false));
    assert!(app.is_loading);
    let g = |i: u32| Game { id: i.to_string(), name: format!("g{}", i), box_art_url: None };
    app.apply_event::<()>(AppEvent::CategoriesLoaded(vec![g(1), g(2)], Some("cur".to_string())));
    assert!(!app.is_loading);
    let a = app.handle_key(Key::Char('n'), &cfg, &auth(false));
    match a {
        Action::FetchCategories { after } => assert_eq!(after, Some("cur".to_string())),
        other => panic!("unexpected {:?}", other),
    }
    app.apply_event::<()>(AppEvent::CategoriesLoaded(vec![g(3)], None));
    assert_eq!(app.categories.len(), 3);
    app.jump_bottom();
    let a = app.handle_enter(&cfg, &auth(false));
    match a {
        Action::FetchCategoryStreams { game_id, after } => {
            assert_eq!(game_id, "3");
            assert_eq!(after, None);
        },
        other => panic!("unexpected {:?}", other),
    }
    assert_eq!(app.mode_label(), "Category: g3");
}

#[test]
fn following_needs_a_token() {
    let mut app = app_with(0);
    let cfg = Config::default();
    let a = app.handle_key(Key::Char('f'), &cfg, &auth(false));
    assert!(matches!(a, Action::ShowError));
    assert_eq!(
        app.error_message.as_deref(),
        Some("OAuth required. Set token in ~/.config/twitch-tui/config.toml")
    );
    let a = app.handle_key(Key::Char('f'), &cfg, &auth(true));
    assert!(matches!(a, Action::FetchFollowed));
    assert!(matches!(app.mode, AppMode::Followed));
}

#[test]
fn search_typing_and_erasing() {
    let mut app = app_with(0);
    let cfg = Config::default();
    app.handle_key(Key::Char('/'), &cfg, &auth(false));
    assert_eq!(app.key_hints(), "type to search · Enter watch · Esc back");
    let a = app.handle_key(Key::Char('a'), &cfg, &auth(false));
    match a {
        Action::Search { query } => assert_eq!(query, "a"),
        other => panic!("unexpected {:?}", other),
    }
    app.handle_key(Key::Char('b'), &cfg, &auth(false));
    let a = app.handle_key(Key::Backspace, &cfg, &auth(false));
    match a {
        Action::Search { query } => assert_eq!(query, "a"),
        other => panic!("unexpected {:?}", other),
    }
    // 'q' types into the query instead of quitting
    app.handle_key(Key::Char('q'), &cfg, &auth(false));
    assert!(!app.should_quit);
    app.handle_key(Key::Esc, &cfg, &auth(false));
    assert!(matches!(app.mode, AppMode::SavedChannels));
    app.handle_key(Key::Char('q'), &cfg, &auth(false));
    assert!(app.should_quit);
}

#[test]
fn help_overlay_scrolls_within_text() {
    let mut app = app_with(0);
    let cfg = Config::default();
    app.handle_key(Key::Char('?'), &cfg, &auth(false));
    assert!(app.show_help);
    app.handle_key(Key::Char('G'), &cfg, &auth(false));
    assert_eq!(app.help_scroll, 32);
    app.handle_key(Key::Down, &cfg, &auth(false));
    assert_eq!(app.help_scroll, 32);
    app.handle_key(Key::Up, &cfg, &auth(false));
    assert_eq!(app.help_scroll, 31);
    app.handle_key(Key::Char('q'), &cfg, &auth(false));
    assert!(!app.show_help);
    assert!(!app.should_quit);
}

#[test]
fn refresh_and_videos() {
    let mut app = app_with(2);
    let cfg = Config::default();
    let a = app.handle_key(Key::Char('r'), &cfg, &auth(false));
    assert!(matches!(a, Action::Nothing));
    assert!(!app.is_loading);
    app.saved_channels.push(SavedChannel { id: 0, twitch_id: "0".into(), name: "c0".into(), display_name: "C0".into() });
    let a = app.handle_key(Key::Char('r'), &cfg, &auth(false));
    assert!(matches!(a, Action::FetchSavedStreams { after: None }));
    let a = app.handle_key(Key::Char('v'), &cfg, &auth(false));
    match a {
        Action::FetchVods { user_id, after } => {
            assert_eq!(user_id, "0");
            assert!(after.is_none());
        },
        other => panic!("unexpected {:?}", other),
    }
    assert_eq!(app.mode_label(), "VODs: C0");
    let v = Vod {
        id: "v1".into(),
        title: "t".into(),
        duration: "1h".into(),
        created_at: "x".into(),
        thumbnail_url: "u".into(),
        user_name: "C0".into(),
    };
    app.apply_event::<()>(AppEvent::VodsLoaded(vec![v], None));
    let a = app.handle_key(Key::Enter, &cfg, &auth(false));
    match a {
        Action::WatchVod { vod_id, quality } => {
            assert_eq!(vod_id, "v1");
            assert_eq!(quality, "best");
        },
        other => panic!("unexpected {:?}", other),
    }
}

#[test]
fn save_toggle_and_saved_list() {
    let mut app = app_with(2);
    let cfg = Config::default();
    let a = app.handle_key(Key::Char('s'), &cfg, &auth(false));
    match a {
        Action::ToggleSave { twitch_id, name, display_name } => {
            assert_eq!(twitch_id, "0");
            assert_eq!(name, "c0");
            assert_eq!(display_name, "C0");
            app.remember_saved_channel(twitch_id, name, display_name);
        },
        other => panic!("unexpected {:?}", other),
    }
    assert_eq!(app.saved_logins(), vec!["c0".to_string()]);
    app.forget_saved_channel("0");
    assert!(app.saved_channels.is_empty());
}

#[test]
fn thumbnail_asked_once_per_key() {
    let mut app = app_with(2);
    let r = app.thumbnail_request();
    assert_eq!(
        r,
        Some(("0@2024-01-01T00:00:00Z".to_string(), "https://t/{width}x{height}.jpg".to_string()))
    );
    assert_eq!(app.thumbnail_request(), None);
    app.select_next();
    assert_eq!(app.thumbnail_request(), None);
    assert_eq!(app.last_thumb_key, None);
    let back = app.apply_event(AppEvent::ThumbnailReady("k".to_string(), 7u8));
    assert_eq!(back, Some(("k".to_string(), 7u8)));
}

#[test]
fn spinner_wraps() {
    let mut app = app_with(0);
    app.spinner_frame = usize::MAX;
    app.advance_spinner();
    assert_eq!(app.spinner_frame, 0);
    assert_eq!(quality_option(5), "audio_only");
}

#[test]
fn spinner_and_error_timing() {
    let mut app = app_with(0);
    assert!(!app.spin(500));
    app.is_loading = true;
    assert!(!app.spin(79));
    assert_eq!(app.spinner_frame, 0);
    assert!(app.spin(80));
    assert_eq!(app.spinner_frame, 1);
    app.error_message = Some("boom".to_string());
    assert!(!app.expire_error(4));
    assert_eq!(app.error_message.as_deref(), Some("boom"));
    assert!(app.expire_error(5));
    assert!(app.error_message.is_none());
}

#[test]
fn esc_goes_back() {
    let config = Config::default();
    let mut app = app_with(2);
    let a = app.handle_key(Key::Char('c'), &config, &auth(false));
    assert!(matches!(a, Action::FetchCategories { after: None }));
    assert!(matches!(app.mode, AppMode::Categories));
    app.handle_key(Key::Esc, &config, &auth(false));
    assert!(matches!(app.mode, AppMode::SavedChannels));

    app.handle_key(Key::Tab, &config, &auth(false));
    app.handle_key(Key::Tab, &config, &auth(false));
    assert_eq!(app.focus, FocusTarget::Chat);
    app.handle_key(Key::Esc, &config, &auth(false));
    assert_eq!(app.focus, FocusTarget::Browse);
}

#[test]
fn help_scroll_stops_when_last_line_in_view() {
    let mut app = app_with(0);
    let cfg = Config::default();
    app.handle_key(Key::Char('?'), &cfg, &auth(false));
    app.handle_key(Key::Char('G'), &cfg, &auth(false));
    assert_eq!(app.help_scroll, 32);
    app.set_help_rows(20);
    assert_eq!(app.help_max_scroll, 13);
    assert_eq!(app.help_scroll, 13);
    app.handle_key(Key::Down, &cfg, &auth(false));
    assert_eq!(app.help_scroll, 13);
    app.set_help_rows(40);
    assert_eq!(app.help_scroll, 0);
}

#[test]
fn vods_refresh_and_page_use_the_channel_of_the_list() {
    let mut app = app_with(3);
    let cfg = Config::default();
    app.select_next();
    app.select_next();
    let a = app.handle_key(Key::Char('v'), &cfg, &auth(false));
    assert!(matches!(a, Action::FetchVods { ref user_id, after: None } if user_id == "2"));
    let vod = |id: &str| Vod {
        id: id.into(),
        title: "t".into(),
        duration: "1h".into(),
        created_at: "x".into(),
        thumbnail_url: "u".into(),
        user_name: "C2".into(),
    };
    app.apply_event::<()>(AppEvent::VodsLoaded(vec![vod("a"), vod("b")], Some("cur".to_string())));
    app.select_next();
    let a = app.handle_key(Key::Char('n'), &cfg, &auth(false));
    assert!(matches!(a, Action::FetchVods { ref user_id, after: Some(ref c) } if user_id == "2" && c == "cur"));
    let a = app.handle_key(Key::Char('r'), &cfg, &auth(false));
    assert!(matches!(a, Action::FetchVods { ref user_id, after: None } if user_id == "2"));
}

#[test]
fn next_page_in_followed_marks_loading() {
    let mut app = app_with(0);
    let cfg = Config::default();
    app.handle_key(Key::Char('f'), &cfg, &auth(true));
    app.apply_event::<()>(AppEvent::ChannelsLoaded(vec![channel("1", "a", true)], Some("c".to_string())));
    assert!(!app.is_loading);
    let a = app.handle_key(Key::Char('n'), &cfg, &auth(true));
    assert!(matches!(a, Action::Nothing));
    assert!(app.is_loading);
}

#[test]
fn save_key_store_steps() {
    let mut app = app_with(1);
    match store_step(false, "7".into(), "a".into(), "A".into()) {
        StoreStep::Save { twitch_id, name, display_name } => {
            assert_eq!((twitch_id.as_str(), name.as_str(), display_name.as_str()), ("7", "a", "A"));
            app.store_done(StoreStep::Save { twitch_id, name, display_name });
        }
        other => panic!("unexpected {:?}", other),
    }
    assert_eq!(app.saved_channels.len(), 1);
    assert_eq!(app.saved_channels[0].twitch_id, "7");
    let step = store_step(true, "7".into(), "a".into(), "A".into());
    assert!(matches!(step, StoreStep::Remove { ref twitch_id } if twitch_id == "7"));
    app.store_done(step);
    assert!(app.saved_channels.is_empty());
}

#[test]
fn status_labels_name_the_category_and_channel() {
    let mut app = app_with(0);
    app.mode = AppMode::CategoryStreams { game_id: "1".into(), game_name: "VALORANT".into() };
    assert_eq!(app.mode_label(), "Category: VALORANT");
    app.mode = AppMode::Vods { channel_name: "pokimane".into(), user_id: "9".into() };
    assert_eq!(app.mode_label(), "VODs: pokimane");
    app.mode = AppMode::Followed;
    assert_eq!(app.mode_label(), "Following");
}

#[test]
fn more_prompt_follows_the_cursor() {
    let mut app = app_with(2);
    assert!(!app.shows_more_prompt());
    app.apply_event::<()>(AppEvent::ChannelsLoaded(vec![channel("9", "c9", true)], Some("cur".to_string())));
    assert!(app.shows_more_prompt());
}
